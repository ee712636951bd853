//! Response caching and upstream rate-limit breaking for a service that fronts
//! a rate-limited, paginated REST API.
//!
//! - `cache_key`: the store keys of a request, and `key_laws`, what they tell
//!   apart.
//! - `rate_limit`: the upstream's rate-limit signal and the cooldown it calls
//!   for.
//! - `middleware`: the rate-limit breaker and the response cache, as
//!   per-request state machines.
//! - `models` and `config`: the service's data and settings.

pub mod cache_key;
pub mod config;
pub mod key_laws;
pub mod middleware;
pub mod models;
pub mod rate_limit;
mod text;

pub use cache_key::{derive_cache_key, rate_limit_key, CacheKeyError, ExtractRedisKey};
pub use config::{ApplicationSettings, RedisSettings, SettingsError};
pub use middleware::{RateLimitBreaker, RedisCacheOptions, ResponseCache, StoreError};
pub use rate_limit::{EpochTime, GithubRateLimitError, RateLimitHeaders};
