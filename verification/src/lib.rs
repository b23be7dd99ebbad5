pub mod errors;
pub mod executor;
pub mod http;
pub mod logging;
pub mod outbound;
pub mod registry;
pub mod router;
pub mod store;
pub mod vcs;
