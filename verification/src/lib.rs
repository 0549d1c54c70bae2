//! A process-wide logging engine, verified.
//!
//! The crate models the core of a leveled logger: a level filter, a line
//! formatter, a fixed-capacity circular event buffer with a producer /
//! consumer protocol, per-mode dispatch (direct, mutex-guarded, or
//! lock-free-async through the buffer), file-rotation planning, and the
//! initialize-once / flush-on-shutdown singleton lifecycle. Every decision
//! the engine makes is a verified function over plain values; the
//! surrounding process (console and file writes, the background flusher
//! thread, the crash hook) performs the directives these functions return.

pub mod buffer;
pub mod clock;
pub mod config;
pub mod engine;
pub mod format;
pub mod level;
pub mod registry;

pub use config::LogConfig;
pub use config::Mode;
pub use engine::Delivery;
pub use engine::LogOutcome;
pub use engine::Logger;
pub use engine::RotationPlan;
pub use engine::ShutdownPlan;
pub use format::CONSOLE_BG_COLOR_GREEN;
pub use format::CONSOLE_BG_COLOR_RED;
pub use format::CONSOLE_COLOR_BLUE;
pub use format::CONSOLE_COLOR_GREEN;
pub use format::CONSOLE_COLOR_MAGENTA;
pub use format::CONSOLE_COLOR_PINK;
pub use format::CONSOLE_COLOR_RED;
pub use format::CONSOLE_COLOR_RESET;
pub use format::CONSOLE_COLOR_WHITE;
pub use format::CONSOLE_COLOR_YELLOW;
pub use level::LogLevel;
pub use registry::init;
pub use registry::shutdown;
pub use registry::LoggerError;
pub use registry::Registry;
