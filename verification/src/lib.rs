//! Window-system independent logic of the LearnOpenGL tutorials: choosing a
//! tutorial from its number, turning key and window events into commands,
//! describing interleaved vertex buffers, reporting shader build failures and
//! preparing texture pixels.

pub mod camera;
pub mod input;
pub mod layout;
pub mod shader;
pub mod texture;
pub mod tutorial;
