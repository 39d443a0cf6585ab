//! A thin real-time rendering layer: a declarative description of draw passes
//! and of the resources they bind, checked and resolved here, and handed to a
//! GPU backend as plain plans.
//!
//! Nothing here touches a device. What the backend has to do is returned as
//! values: a [`render::Submission`] for a frame, and for each resource a
//! description under the [`context::Handle`] that names it. The backend keeps
//! one object of its own for every handle, and records the submissions.
//!
//! The functions of this crate are verified against their contracts. Three
//! of them call into the backend's libraries, and their contracts are taken
//! on trust: two questions about a texture format in [`format`], and the
//! bytes of a list of indices in [`mesh`].

pub mod error;
pub mod format;
pub mod context;
pub mod group;
pub mod render;
pub mod buffer;
pub mod mesh;
pub mod uniform;
pub mod texture;
pub mod frame;
