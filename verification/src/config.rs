//! Process-wide configuration, injected explicitly into the services
//! that need it.

use vstd::prelude::*;

verus! {

/// Startup configuration. The signing secret and token lifetime feed
/// the authentication service; the rest belongs to the surrounding
/// process.
pub struct Config {
    pub database_url: String,
    pub jwt_secret: String,
    /// Access-token lifetime in seconds.
    pub jwt_expiration: u64,
    pub host: String,
    pub port: u16,
    pub aws_region: Option<String>,
    pub s3_bucket_name: Option<String>,
    pub stripe_secret_key: Option<String>,
    pub stripe_webhook_secret: Option<String>,
    pub redis_url: Option<String>,
    pub argon2_memory_cost: u32,
    pub argon2_time_cost: u32,
    pub argon2_parallelism: u32,
}

} // verus!
