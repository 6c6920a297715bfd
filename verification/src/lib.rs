//! Window lifecycle and rendering-state machine.
//!
//! This library is the decision core that bridges a retained-mode UI scene
//! graph to a native platform window and a GPU rendering context.  It owns
//! the `Unmapped`/`Mapped` state of a logical window, buffers geometry
//! requests made before a native window exists, guards the single
//! rendering-notifier slot, converts icon pixel data, resolves the effective
//! scale factor, and plans every GPU-touching operation as an explicit
//! sequence of effects so that context currency is always bracketed
//! correctly.
//!
//! The platform itself (the OS window, the GPU context, the event loop) is a
//! collaborator: the host performs the planned effects and feeds the
//! observed results back in.  Everything that decides *what* happens is
//! verified here.

pub mod cursor;
pub mod geometry;
pub mod icon;
pub mod registry;
pub mod scale;
pub mod window;
