//! The graphics context, through which every resource is created, and the
//! presentable surface of a window.

use vstd::prelude::*;
use crate::error::RenderError;
use crate::format::{format_is_srgb, is_srgb};

verus! {

/// What a handle stands for.
#[derive(Clone, Copy, Debug, PartialEq, Eq, Hash, Structural)]
pub enum ResourceKind {
    Buffer,
    Texture,
    TextureView,
    Sampler,
    GroupLayout,
    Group,
    Pipeline,
}

/// The name of one resource of a context: its position in the order of
/// creation. The backend keeps its own objects in the same order.
#[derive(Clone, Copy, Debug, PartialEq, Eq, Hash, Structural)]
pub struct Handle {
    pub index: usize,
}

/// The single point of resource creation: it records, in order, the kind of
/// every resource that was created through it, and which of them have been
/// released since. Its view is that record, `None` at a released place.
#[derive(Debug)]
pub struct Context {
    resources: Vec<Option<ResourceKind>>,
}

impl View for Context {
    type V = Seq<Option<ResourceKind>>;

    closed spec fn view(&self) -> Seq<Option<ResourceKind>> {
        self.resources@
    }
}

/// Whether `handle` names a resource of the given kind that was created and
/// not released.
pub open spec fn live(registry: Seq<Option<ResourceKind>>, handle: Handle, kind: ResourceKind) -> bool {
    handle.index < registry.len() && registry[handle.index as int] == Some(kind)
}

impl Context {
    /// Opens a context from the outcome of the backend's search for an
    /// adapter and of its request for a device. Without both there is no
    /// context.
    pub fn new(adapter_found: bool, device_opened: bool) -> (r: Result<Context, RenderError>)
        ensures
            match r {
                Ok(ctx) => adapter_found && device_opened && ctx@ == Seq::<
                    Option<ResourceKind>,
                >::empty(),
                Err(e) => !(adapter_found && device_opened) && e == RenderError::DeviceUnavailable,
            },
    {
        if adapter_found && device_opened {
            Ok(Context { resources: Vec::new() })
        } else {
            Err(RenderError::DeviceUnavailable)
        }
    }

    /// Records a new resource and names it.
    pub fn register(&mut self, kind: ResourceKind) -> (handle: Handle)
        ensures
            handle.index == old(self)@.len(),
            final(self)@ == old(self)@.push(Some(kind)),
    {
        let handle = Handle { index: self.resources.len() };
        self.resources.push(Some(kind));
        handle
    }

    /// Releases the resource that a handle names, for the backend to drop.
    /// The handle names nothing from then on, and is not given out again.
    /// Returns whether there was a resource to release.
    pub fn release(&mut self, handle: Handle) -> (released: bool)
        ensures
            released == (handle.index < old(self)@.len() && old(self)@[handle.index as int] is Some),
            released ==> final(self)@ == old(self)@.update(handle.index as int, None),
            !released ==> *final(self) == *old(self),
    {
        if handle.index < self.resources.len() {
            match self.resources[handle.index] {
                Some(_) => {
                    self.resources.set(handle.index, None);
                    true
                },
                None => false,
            }
        } else {
            false
        }
    }

    /// The number of resources created so far, released ones among them.
    pub fn resource_count(&self) -> (n: usize)
        ensures
            n == self@.len(),
    {
        self.resources.len()
    }

    /// The kind of the resource that a handle names, if it names one.
    pub fn kind_of(&self, handle: Handle) -> (kind: Option<ResourceKind>)
        ensures
            kind == (if handle.index < self@.len() {
                self@[handle.index as int]
            } else {
                None
            }),
    {
        if handle.index < self.resources.len() {
            self.resources[handle.index]
        } else {
            None
        }
    }

    /// Whether a handle names a live resource of the given kind.
    pub fn holds(&self, handle: Handle, kind: ResourceKind) -> (held: bool)
        ensures
            held == live(self@, handle, kind),
    {
        self.kind_of(handle) == Some(kind)
    }

    /// Configures the surface of a window of `width` by `height` pixels from
    /// what the backend reports for it. The format is the preferred one of
    /// [`preferred_index`], the presentation and alpha modes are the first
    /// reported, and at most two frames are queued.
    pub fn create_surface(
        &self,
        capabilities: SurfaceCapabilities,
        width: u32,
        height: u32,
    ) -> (r: Result<WindowSurface, RenderError>)
        ensures
            match r {
                Ok(surface) => {
                    &&& configurable(capabilities, width, height)
                    &&& surface.config() == initial_configuration(capabilities, width, height)
                    &&& surface.caps() == capabilities
                },
                Err(e) => {
                    &&& !configurable(capabilities, width, height)
                    &&& e == RenderError::SurfaceConfigurationInvalid
                },
            },
    {
        if width == 0 || height == 0 || capabilities.present_modes.len() == 0
            || capabilities.alpha_modes.len() == 0 {
            return Err(RenderError::SurfaceConfigurationInvalid);
        }
        match select_format(&capabilities.formats) {
            None => Err(RenderError::SurfaceConfigurationInvalid),
            Some(chosen) => {
                proof {
                    lemma_preferred_unique(
                        capabilities.formats@,
                        chosen as int,
                        preferred_index(capabilities.formats@),
                    );
                }
                let format = capabilities.formats[chosen];
                let configuration = SurfaceConfiguration {
                    format,
                    width,
                    height,
                    present_mode: capabilities.present_modes[0],
                    alpha_mode: capabilities.alpha_modes[0],
                    desired_maximum_frame_latency: 2,
                };
                Ok(WindowSurface { configuration, capabilities, format })
            },
        }
    }
}

/// What the backend reports of a surface on the chosen adapter, each list in
/// the backend's order of preference.
#[derive(Debug, PartialEq)]
pub struct SurfaceCapabilities {
    pub formats: Vec<wgpu::TextureFormat>,
    pub present_modes: Vec<wgpu::PresentMode>,
    pub alpha_modes: Vec<wgpu::CompositeAlphaMode>,
}

/// The configuration of a swapchain.
#[derive(Clone, Copy, Debug, PartialEq)]
pub struct SurfaceConfiguration {
    pub format: wgpu::TextureFormat,
    pub width: u32,
    pub height: u32,
    pub present_mode: wgpu::PresentMode,
    pub alpha_mode: wgpu::CompositeAlphaMode,
    pub desired_maximum_frame_latency: u32,
}

/// Whether `i` is the preferred place in a list of formats, of which `srgb`
/// says place by place whether the format is an sRGB one: the first sRGB
/// format, or the first format of all where none is sRGB.
pub open spec fn is_preferred_place(srgb: Seq<bool>, i: int) -> bool {
    &&& 0 <= i < srgb.len()
    &&& forall|j: int| 0 <= j < i ==> !srgb[j]
    &&& (srgb[i] || (i == 0 && forall|j: int| 0 <= j < srgb.len() ==> !srgb[j]))
}

/// For each format of a list, whether it is an sRGB format.
pub open spec fn srgb_flags(formats: Seq<wgpu::TextureFormat>) -> Seq<bool> {
    Seq::new(formats.len(), |i: int| format_is_srgb(formats[i]))
}

/// Whether `i` is the place of the preferred format in `formats`.
pub open spec fn is_preferred(formats: Seq<wgpu::TextureFormat>, i: int) -> bool {
    is_preferred_place(srgb_flags(formats), i)
}

/// The place of the preferred format in a list that is not empty.
pub open spec fn preferred_index(formats: Seq<wgpu::TextureFormat>) -> int {
    choose|i: int| is_preferred(formats, i)
}

/// A list has one preferred place at most.
pub proof fn lemma_preferred_place_unique(srgb: Seq<bool>, i: int, j: int)
    requires
        is_preferred_place(srgb, i),
        is_preferred_place(srgb, j),
    ensures
        i == j,
{
    if i < j {
        assert(!srgb[i]);
    } else if j < i {
        assert(!srgb[j]);
    }
}

/// A list of formats has one preferred place at most, and
/// [`preferred_index`] is that place.
pub proof fn lemma_preferred_unique(formats: Seq<wgpu::TextureFormat>, i: int, j: int)
    requires
        is_preferred(formats, i),
    ensures
        is_preferred(formats, j) ==> i == j,
        preferred_index(formats) == i,
{
    if is_preferred(formats, j) {
        lemma_preferred_place_unique(srgb_flags(formats), i, j);
    }
    lemma_preferred_place_unique(srgb_flags(formats), i, preferred_index(formats));
}

/// Picks the preferred place from the answers for each format: `None` of an
/// empty list, else the place that [`is_preferred_place`] describes.
pub fn preferred_place(srgb: &Vec<bool>) -> (r: Option<usize>)
    ensures
        match r {
            Some(i) => is_preferred_place(srgb@, i as int),
            None => srgb@.len() == 0,
        },
{
    if srgb.len() == 0 {
        return None;
    }
    let mut i: usize = 0;
    while i < srgb.len()
        invariant
            i <= srgb@.len(),
            forall|j: int| 0 <= j < i ==> !srgb@[j],
        decreases srgb@.len() - i,
    {
        if srgb[i] {
            return Some(i);
        }
        i += 1;
    }
    Some(0)
}

/// Picks the preferred format of a surface: `None` of an empty list, else
/// the place that [`is_preferred`] describes.
pub fn select_format(formats: &Vec<wgpu::TextureFormat>) -> (r: Option<usize>)
    ensures
        match r {
            Some(i) => is_preferred(formats@, i as int),
            None => formats@.len() == 0,
        },
{
    let mut srgb: Vec<bool> = Vec::new();
    let mut i: usize = 0;
    while i < formats.len()
        invariant
            i <= formats@.len(),
            srgb@ == srgb_flags(formats@.take(i as int)),
        decreases formats@.len() - i,
    {
        srgb.push(is_srgb(&formats[i]));
        i += 1;
        assert(srgb@ =~= srgb_flags(formats@.take(i as int)));
    }
    assert(formats@.take(i as int) =~= formats@);
    preferred_place(&srgb)
}

/// Whether a surface of this size can be configured from these capabilities.
pub open spec fn configurable(capabilities: SurfaceCapabilities, width: u32, height: u32) -> bool {
    &&& width > 0
    &&& height > 0
    &&& capabilities.formats@.len() > 0
    &&& capabilities.present_modes@.len() > 0
    &&& capabilities.alpha_modes@.len() > 0
}

/// The configuration that a new surface starts with.
pub open spec fn initial_configuration(
    capabilities: SurfaceCapabilities,
    width: u32,
    height: u32,
) -> SurfaceConfiguration {
    SurfaceConfiguration {
        format: capabilities.formats@[preferred_index(capabilities.formats@)],
        width,
        height,
        present_mode: capabilities.present_modes@[0],
        alpha_mode: capabilities.alpha_modes@[0],
        desired_maximum_frame_latency: 2,
    }
}

/// The surface of a window, under the name that it has as a render target.
pub type RenderSurface = WindowSurface;

/// The presentable target of one window. A surface is never of zero width or
/// height, and queues one frame at least.
#[derive(Debug)]
pub struct WindowSurface {
    configuration: SurfaceConfiguration,
    capabilities: SurfaceCapabilities,
    format: wgpu::TextureFormat,
}

impl WindowSurface {
    #[verifier::type_invariant]
    spec fn well_formed(self) -> bool {
        &&& self.configuration.width > 0
        &&& self.configuration.height > 0
        &&& self.configuration.desired_maximum_frame_latency >= 1
        &&& self.format == self.configuration.format
    }

    /// The current configuration.
    pub closed spec fn config(&self) -> SurfaceConfiguration {
        self.configuration
    }

    /// The capabilities that the surface was created from.
    pub closed spec fn caps(&self) -> SurfaceCapabilities {
        self.capabilities
    }

    /// Takes the size of the window after a resize notification. A size with
    /// a zero dimension is ignored, since no swapchain can have it. Returns
    /// whether the swapchain has to be configured anew.
    pub fn resize(&mut self, width: u32, height: u32) -> (reconfigured: bool)
        ensures
            reconfigured == (width > 0 && height > 0),
            !reconfigured ==> *final(self) == *old(self),
            reconfigured ==> final(self).config() == (SurfaceConfiguration {
                width,
                height,
                ..old(self).config()
            }),
            final(self).caps() == old(self).caps(),
    {
        proof {
            use_type_invariant(&*self);
        }
        if width > 0 && height > 0 {
            self.configuration.width = width;
            self.configuration.height = height;
            true
        } else {
            false
        }
    }

    /// The current configuration.
    pub fn configuration(&self) -> (r: &SurfaceConfiguration)
        ensures
            *r == self.config(),
            r.width > 0,
            r.height > 0,
            r.desired_maximum_frame_latency >= 1,
    {
        proof {
            use_type_invariant(self);
        }
        &self.configuration
    }

    /// What the backend reported when the surface was created.
    pub fn capabilities(&self) -> (r: &SurfaceCapabilities)
        ensures
            *r == self.caps(),
    {
        &self.capabilities
    }

    /// The format that the surface was configured with.
    pub fn format(&self) -> (r: &wgpu::TextureFormat)
        ensures
            *r == self.config().format,
    {
        proof {
            use_type_invariant(self);
        }
        &self.format
    }
}

} // verus!
