//! Frame-by-frame remote and keyboard input.

pub mod tv_input;

pub use tv_input::{RemoteButtons, TvInput, TvInputView};
