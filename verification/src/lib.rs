//! Configuration boundary of a virtual-machine monitor: the stateless
//! description of a dual-bucket rate limiter, and the rules of the
//! non-blocking event writer.

pub mod limiter;
pub mod writer;

pub use limiter::RateLimiterConfig;
pub use limiter::RateLimiterParams;
pub use limiter::TokenBucketConfig;
pub use limiter::TokenBucketParams;
