pub mod auth;
pub mod cli;
pub mod clock;
pub mod digest;
pub mod error;
pub mod ingest;
pub mod metrics;
pub mod pipeline;
pub mod rate_limit;
pub mod slots;
pub mod store;
pub mod token;
pub mod webp;
