//! Refresh scheduling for a remote-framebuffer client that paints onto an
//! electronic-ink panel.
//!
//! The crate holds the decisions of such a client: which regions of the panel
//! are dirty, which refresh mode each of them gets, how incoming colour samples
//! are remapped, and how touch samples become pointer events. Reading from the
//! network or an input device and writing to the panel are left to the caller,
//! who hands in plain values and carries out the actions that come back.

pub mod dirty;
pub mod draw;
pub mod geom;
pub mod pixmap;
pub mod processing;
pub mod session;
pub mod touch;
pub mod vnc;

