pub mod audio;
pub mod input;
pub mod preview;
