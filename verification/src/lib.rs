//! Byte, line, word and character counts of text inputs, and the line that
//! reports them, in the manner of `wc`.

pub mod command;
pub mod counting;
pub mod decimal;
pub mod input;
pub mod options;
pub mod output;
pub mod utf8_text;

pub use command::WCCmd;
pub use input::WCInput;
pub use options::{ArgsError, ArgsErrorKind};
pub use output::WCOutput;
