//! The decisions and arithmetic behind a handful of small OpenGL demos:
//! which demo a command-line token selects, how a window event is answered,
//! and where each vertex attribute lies in the buffers the demos upload.
//!
//! Nothing here touches a window or a graphics context. A front end opens the
//! window, owns the float data and the shaders, and performs what this
//! library computes.

pub mod demo;
pub mod layout;
pub mod scene;
pub mod window;
