//! Launching a Chromium-family browser for programmatic control.
//!
//! The crate decides everything a launch needs: the ordered candidate list
//! for finding an installed browser, the profile-directory plan, the full
//! argument and environment assembly, the recognition of the DevTools
//! WebSocket endpoint on the diagnostic stream, the single-assignment slot
//! the extractor publishes into, the poll-loop decisions of the launch
//! coordinator, and the ordered teardown plan of a handle. Each of these is
//! a function from plain values to plain values with a proved contract; the
//! process, filesystem and thread plumbing around them lives with the
//! embedding application.

use vstd::prelude::*;

pub mod args;
pub mod config;
pub mod coordinator;
pub mod endpoint;
pub mod error;
pub mod profile;
pub mod resolver;
pub mod slot;

pub use config::AIExecutionStrategy;
pub use config::BrowserLauncherBuilder;
pub use config::Viewport;
pub use error::WebIntelError;
