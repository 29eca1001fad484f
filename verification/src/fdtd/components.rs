//! Circuit components.

mod ki_line;
mod linear_line;
mod terminator;
mod vsource;

pub use ki_line::{KiLine, KiLineDescriptor};
pub use ki_line::{newton_iter_s, newton_step_s};
pub use linear_line::{LinearLine, LinearLineDescriptor};
pub use terminator::MatchedTerminator;
pub use vsource::MatchedVSource;
