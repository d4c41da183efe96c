//! A small image viewer's logic: which files of a directory are images, which
//! one is shown, how the cursor moves, and how decoded pixels become a frame.

pub mod extensions;
pub mod scan;
pub mod navigation;
pub mod launch;
pub mod decode;
