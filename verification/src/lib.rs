//! The verified core of a master-data REST service: the authentication
//! guard and its allow-list, the request log's serialized line format, the
//! update-with-reason transaction machine, the route table, and the field
//! rules of each endpoint. The HTTP transport and the backing store stand
//! outside; every decision between them is made here, under contract.
pub mod audit;
pub mod auth;
pub mod city;
pub mod country;
pub mod decfmt;
pub mod docs;
pub mod logging;
pub mod login;
pub mod response;
pub mod routes;
pub mod settings;
pub mod state;
pub mod store;
pub mod strutil;
pub mod token;
pub mod txn;
