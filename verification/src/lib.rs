//! The decisions of a boot-time agent that promotes pending settings to live.
//!
//! The agent reads the settings that earlier services have staged, logs them,
//! and asks the configuration API to commit them. This library holds every
//! decision of that sequence as a function with a proved contract; the program
//! around it only carries requests to the API socket and log records to the
//! logger.

pub mod args;
pub mod commit;
pub mod error;
pub mod inspect;
pub mod level;
pub mod record;
pub mod run;
pub mod status;
pub mod text;
pub mod transport;
