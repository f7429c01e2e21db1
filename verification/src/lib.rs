//! Sun-driven appearance switching: the scheduling and state logic that keeps
//! a light/dark mode in step with sunrise and sunset at one location.
//!
//! The library decides and computes; it touches neither files nor the
//! network and never sleeps. Whoever uses it reads and writes on its behalf
//! and hands it plain values.
//!
//! - [`mode`]: the two modes and their names.
//! - [`time`]: instants and calendar days as plain integers. The library
//!   never looks at a clock: every reading is handed to it.
//! - [`sun_times`]: sunrise and sunset of a day, the mode that an instant
//!   calls for and the next change of mode.
//! - [`oracle`]: what an answer of the sun-time service is worth.
//! - [`cache`]: the daily cache, which asks the service once a day at most.
//! - [`scheduler`]: the endless round of fetching, applying and sleeping.
//! - [`switcher`]: the file contents that make a mode take effect, and the
//!   record of the mode applied last.
//! - [`config`], [`themes`]: the theme names in use, the presets on offer and
//!   suggestions for names entered by hand.
//! - [`geocode`], [`neovim`], [`daemon`], [`telemetry`]: smaller decisions of
//!   the set-up and of the background process.
//! - [`text`]: strings as sequences of characters.

pub mod cache;
pub mod config;
pub mod daemon;
pub mod geocode;
pub mod mode;
pub mod neovim;
pub mod oracle;
pub mod scheduler;
pub mod sun_times;
pub mod switcher;
pub mod telemetry;
pub mod text;
pub mod themes;
pub mod time;
