use vstd::prelude::*;

verus! {

/// Database connection settings.
pub struct Db {
    pub url: String,
}

/// Cross-origin settings for the transport layer.
pub struct Cors {
    pub allowed_origins: Vec<String>,
}

/// Token-service settings: the process-wide signing secret and the lifetime,
/// in seconds, of every issued token.
pub struct Jwt {
    pub secret: String,
    pub expiration_time: u64,
}

} // verus!
