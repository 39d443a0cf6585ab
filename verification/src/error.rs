//! The failures that the rendering layer reports to its callers.

use vstd::prelude::*;

verus! {

/// Why a call was rejected. Construction errors leave the context as it was;
/// a command error rejects one render call and nothing else.
#[derive(Clone, Copy, Debug, PartialEq, Eq, Hash, Structural)]
pub enum RenderError {
    /// No compatible backend, adapter or device is available.
    DeviceUnavailable,
    /// A surface would be configured with a zero dimension or with no
    /// supported format.
    SurfaceConfigurationInvalid,
    /// A resource group does not match its layout in count or in kind.
    ResourceBindingMismatch,
    /// A command names a resource that is missing or of the wrong kind.
    CommandResourceMismatch,
    /// A buffer update does not fit the buffer it is written to.
    BufferSizeMismatch,
}

impl RenderError {
    /// A short description of the error, for logs and panics.
    pub fn message(&self) -> (text: String)
        ensures
            text@ == self.message_text()@,
    {
        match self {
            RenderError::DeviceUnavailable => "no compatible graphics device is available".to_owned(),
            RenderError::SurfaceConfigurationInvalid => "the surface has a zero dimension or no supported format".to_owned(),
            RenderError::ResourceBindingMismatch => "the resources do not match the group layout".to_owned(),
            RenderError::CommandResourceMismatch => "a command names a missing or mismatched resource".to_owned(),
            RenderError::BufferSizeMismatch => "the data does not fit the buffer".to_owned(),
        }
    }

    /// The text of [`RenderError::message`], variant by variant.
    pub open spec fn message_text(&self) -> &'static str {
        match self {
            RenderError::DeviceUnavailable => "no compatible graphics device is available",
            RenderError::SurfaceConfigurationInvalid => "the surface has a zero dimension or no supported format",
            RenderError::ResourceBindingMismatch => "the resources do not match the group layout",
            RenderError::CommandResourceMismatch => "a command names a missing or mismatched resource",
            RenderError::BufferSizeMismatch => "the data does not fit the buffer",
        }
    }
}

} // verus!
