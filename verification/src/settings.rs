//! Connection settings for the backing store. The library holds them as
//! plain data; what turns them into live connections is store-client work
//! outside the library.
use vstd::prelude::*;

verus! {

/// Where and as whom to reach the backing store.
#[derive(Debug)]
pub struct DatabaseSettings {
    pub username: String,
    pub password: String,
    pub port: u16,
    pub host: String,
    pub database_name: String,
}

} // verus!
