//! Queue-driven deployment worker library.
//!
//! The library holds the decision logic of the worker: the bounded retry
//! executor with aggregated errors, the queue-lease heartbeat schedule, the
//! file-cleaning rules, the deploy-variant and path decisions, the pipeline
//! stage machine, and the batch dispatch bookkeeping.  Everything here is
//! verified; the surrounding process (queue polling, object storage, the
//! child process running the deploy tool) hands plain values in and out.

pub mod api;
pub mod check_version;
pub mod clean_files;
pub mod dispatch;
pub mod encoding;
pub mod errors;
pub mod health_check;
pub mod heartbeat;
pub mod lambda_env;
pub mod nuxt_variant;
pub mod pipeline;
pub mod publish;
pub mod retry;
pub mod sitemap;
pub mod strutil;
pub mod test_event;
pub mod types;
pub mod wrangler;
