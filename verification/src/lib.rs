//! Layered configuration for the winston command-line client.
//!
//! A configuration is resolved from up to four sources, in strict priority:
//! command-line values, environment values, a configuration file and the
//! built-in defaults. The result is one validated [`WinstonConfig`].

pub mod builder;
pub mod config;
pub mod document;
pub mod error;
pub mod number;
pub mod path;
pub mod resolver;
pub mod store;

pub use builder::{PartialView, WinstonConfigBuilder};
pub use config::{ConfigView, WinstonConfig};
pub use error::{ConfigError, Field};
pub use number::F64Bits;
pub use resolver::{merge, resolve};
