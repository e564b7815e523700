//! The renderer's decision core: adapter selection, surface-format choice,
//! the stored surface configuration, per-axis resize, the per-frame draw
//! plan, and the policy for frame-acquisition failures.
//!
//! The host owns the GPU objects themselves. It reports what the platform
//! offers as plain values (capability lists, sizes, failure kinds), lets
//! this module make every choice, and then carries each decision out:
//! each `SurfaceConfig` this module hands back stands for one
//! reconfiguration of the real surface, in order.

use vstd::prelude::*;

use crate::error::EngineError;
use crate::events::EngineEvent;

verus! {

/// One surface format the platform advertises: an opaque tag the host
/// assigns, and whether the format is sRGB (gamma-correct).
#[derive(Clone, Copy, Debug, PartialEq, Eq, Structural)]
pub struct SurfaceFormat {
    /// The host's tag for the format; the library only carries it.
    pub id: u32,
    /// Whether the platform advertises the format as sRGB-capable.
    pub srgb: bool,
}

/// One graphics adapter the platform offers.
#[derive(Clone, Copy, Debug, PartialEq, Eq, Structural)]
pub struct AdapterInfo {
    /// Whether the adapter can present to the target surface.
    pub surface_support: bool,
    /// How many optional device features the adapter supports.
    pub features: u32,
}

/// The negotiated surface configuration: what one reconfiguration of the
/// surface applies.
#[derive(Clone, Copy, Debug, PartialEq, Eq, Structural)]
pub struct SurfaceConfig {
    pub format: SurfaceFormat,
    pub width: u32,
    pub height: u32,
    /// The host's tag for the chosen present mode.
    pub present_mode: u32,
    /// The host's tag for the chosen alpha mode.
    pub alpha_mode: u32,
}

/// `c` with its size replaced and everything else kept.
pub open spec fn config_with_size(c: SurfaceConfig, w: u32, h: u32) -> SurfaceConfig {
    SurfaceConfig { width: w, height: h, ..c }
}

/// Whether some advertised format is sRGB-capable.
pub open spec fn has_srgb(s: Seq<SurfaceFormat>) -> bool {
    exists|i: int| 0 <= i < s.len() && (#[trigger] s[i]).srgb
}

/// Whether `i` is the position of the first sRGB-capable format.
pub open spec fn is_first_srgb(s: Seq<SurfaceFormat>, i: int) -> bool {
    &&& 0 <= i < s.len()
    &&& s[i].srgb
    &&& forall|j: int| 0 <= j < i ==> !(#[trigger] s[j]).srgb
}

/// Picks the surface format: the first format advertised as sRGB-capable,
/// or, if none is, the first format advertised at all.
pub fn choose_surface_format(formats: &Vec<SurfaceFormat>) -> (r: SurfaceFormat)
    requires
        formats@.len() > 0,
    ensures
        forall|i: int| is_first_srgb(formats@, i) ==> r == formats@[i],
        has_srgb(formats@) ==> exists|i: int| is_first_srgb(formats@, i) && r == formats@[i],
        !has_srgb(formats@) ==> r == formats@[0],
{
    let n = formats.len();
    let mut i: usize = 0;
    while i < n
        invariant
            0 <= i <= n,
            n == formats@.len(),
            forall|j: int| 0 <= j < i ==> !(#[trigger] formats@[j]).srgb,
        decreases n - i,
    {
        if formats[i].srgb {
            return formats[i];
        }
        i = i + 1;
    }
    formats[0]
}

/// Selects the adapter to request a device from: among the adapters that
/// support the target surface, the one with the most optional features,
/// ties broken by enumeration order. Returns its position, or `None` when
/// no adapter supports the surface -- a fatal initialization failure.
pub fn select_adapter(adapters: &Vec<AdapterInfo>) -> (r: Option<usize>)
    ensures
        r is None <==> forall|i: int|
            0 <= i < adapters@.len() ==> !(#[trigger] adapters@[i]).surface_support,
        r matches Some(k) ==> {
            &&& 0 <= k < adapters@.len()
            &&& adapters@[k as int].surface_support
            &&& forall|i: int|
                0 <= i < adapters@.len() && (#[trigger] adapters@[i]).surface_support
                    ==> adapters@[i].features <= adapters@[k as int].features
            &&& forall|i: int|
                0 <= i < k && (#[trigger] adapters@[i]).surface_support
                    ==> adapters@[i].features < adapters@[k as int].features
        },
{
    let n = adapters.len();
    let mut best: Option<usize> = None;
    let mut i: usize = 0;
    while i < n
        invariant
            0 <= i <= n,
            n == adapters@.len(),
            best is None <==> forall|j: int|
                0 <= j < i ==> !(#[trigger] adapters@[j]).surface_support,
            best matches Some(k) ==> {
                &&& 0 <= k < i
                &&& adapters@[k as int].surface_support
                &&& forall|j: int|
                    0 <= j < i && (#[trigger] adapters@[j]).surface_support
                        ==> adapters@[j].features <= adapters@[k as int].features
                &&& forall|j: int|
                    0 <= j < k && (#[trigger] adapters@[j]).surface_support
                        ==> adapters@[j].features < adapters@[k as int].features
            },
        decreases n - i,
    {
        if adapters[i].surface_support {
            match best {
                None => {
                    best = Some(i);
                },
                Some(k) => {
                    if adapters[k].features < adapters[i].features {
                        best = Some(i);
                    }
                },
            }
        }
        i = i + 1;
    }
    best
}

/// Why acquiring the per-frame target failed; mirrors the surface errors
/// the platform reports.
#[derive(Clone, Copy, Debug, PartialEq, Eq, Structural)]
pub enum FrameError {
    /// The swapchain handle is lost; the surface must be reconfigured.
    Lost,
    /// The surface no longer matches the window; next frame will.
    Outdated,
    /// Waiting for the frame target timed out.
    Timeout,
    /// The platform is out of memory.
    OutOfMemory,
}

/// What the host loop must do after one render attempt.
#[derive(Clone, Copy, Debug, PartialEq, Eq, Structural)]
pub enum FrameReaction {
    /// The frame was presented; carry on.
    Continue,
    /// Re-apply the current surface configuration at the current size,
    /// skip the frame, and carry on.
    Reconfigure,
    /// Report the failure, skip the frame, and retry next tick unchanged.
    Skip,
    /// Fatal: signal the host loop to terminate.
    Exit,
}

/// The frame-acquisition failure policy: a lost surface is recovered by
/// reconfiguring; running out of memory ends the run loop; an outdated or
/// timed-out frame is skipped and resolves itself by the next tick.
pub fn react_to_frame_result(r: &Result<(), FrameError>) -> (a: FrameReaction)
    ensures
        a is Continue <==> r is Ok,
        a is Reconfigure <==> r == Result::<(), FrameError>::Err(FrameError::Lost),
        a is Exit <==> r == Result::<(), FrameError>::Err(FrameError::OutOfMemory),
        a is Skip <==> (r == Result::<(), FrameError>::Err(FrameError::Outdated) || r
            == Result::<(), FrameError>::Err(FrameError::Timeout)),
{
    match r {
        Ok(_) => FrameReaction::Continue,
        Err(FrameError::Lost) => FrameReaction::Reconfigure,
        Err(FrameError::OutOfMemory) => FrameReaction::Exit,
        Err(FrameError::Outdated) => FrameReaction::Skip,
        Err(FrameError::Timeout) => FrameReaction::Skip,
    }
}

/// Everything one frame needs: the clear color and the two draw ranges.
/// The draw call covers the vertices `0 .. vertex_count` and the instance
/// range `0 .. instance_count`, where the instance count is the mesh's
/// face count, not an index count.
#[derive(Clone, Copy, Debug, PartialEq)]
pub struct FramePlan {
    /// RGBA channels of the clear color, one byte each.
    pub clear_color: (u8, u8, u8, u8),
    pub vertex_count: u32,
    pub instance_count: u32,
}

/// The renderer's negotiated state: the surface configuration, the stored
/// window size, the clear color, and the active mesh's draw counts.
///
/// The host creates it once from what the platform negotiated, changes it
/// only through [`Renderer::resize`], and applies every `SurfaceConfig`
/// this module hands back, in order.
#[derive(Clone, Copy, Debug, PartialEq)]
pub struct Renderer {
    pub config: SurfaceConfig,
    /// The stored window width, kept in step with `config.width`.
    pub width: u32,
    /// The stored window height, kept in step with `config.height`.
    pub height: u32,
    /// RGBA channels of the clear color, one byte each.
    pub clear_color: (u8, u8, u8, u8),
    /// How many vertices the active mesh's buffer holds.
    pub num_vertices: u32,
    /// The active mesh's face count: the draw call's instance count.
    pub indices: u32,
}

impl Renderer {
    /// Negotiates the initial surface configuration from what the platform
    /// advertises: the first sRGB-capable format (or the first format),
    /// the first present mode, the first alpha mode, at the window's size.
    ///
    /// Fails fatally when a capability list is empty: construction cannot
    /// proceed, and the error is returned, never retried.
    pub fn new(
        width: u32,
        height: u32,
        formats: &Vec<SurfaceFormat>,
        present_modes: &Vec<u32>,
        alpha_modes: &Vec<u32>,
        clear_color: (u8, u8, u8, u8),
        num_vertices: u32,
        indices: u32,
    ) -> (r: Result<Renderer, EngineError>)
        ensures
            r is Ok <==> (formats@.len() > 0 && present_modes@.len() > 0 && alpha_modes@.len()
                > 0),
            r matches Ok(rr) ==> {
                &&& forall|i: int| is_first_srgb(formats@, i) ==> rr.config.format == formats@[i]
                &&& !has_srgb(formats@) ==> rr.config.format == formats@[0]
                &&& rr.config.width == width
                &&& rr.config.height == height
                &&& rr.config.present_mode == present_modes@[0]
                &&& rr.config.alpha_mode == alpha_modes@[0]
                &&& rr.width == width
                &&& rr.height == height
                &&& rr.clear_color == clear_color
                &&& rr.num_vertices == num_vertices
                &&& rr.indices == indices
            },
            r matches Err(e) ==> e is Unknown,
    {
        if formats.len() == 0 || present_modes.len() == 0 || alpha_modes.len() == 0 {
            return Err(EngineError::Unknown);
        }
        let format = choose_surface_format(formats);
        let config = SurfaceConfig {
            format,
            width,
            height,
            present_mode: present_modes[0],
            alpha_mode: alpha_modes[0],
        };
        Ok(Renderer { config, width, height, clear_color, num_vertices, indices })
    }

    /// The host's input hook: whether the renderer consumed the event.
    /// No event is consumed here; the run loop handles them all.
    pub fn input(&self, _event: &EngineEvent) -> (r: bool)
        ensures
            r == false,
    {
        false
    }

    /// The per-frame mesh update: an extension point that changes nothing.
    pub fn update(&mut self)
        ensures
            *final(self) == *old(self),
    {
    }

    /// The plan for one frame: clear to the stored color, then draw the
    /// vertex range `0 .. num_vertices` with the instance range
    /// `0 .. indices`.
    pub fn frame_plan(&self) -> (p: FramePlan)
        ensures
            p.clear_color == self.clear_color,
            p.vertex_count == self.num_vertices,
            p.instance_count == self.indices,
    {
        FramePlan {
            clear_color: self.clear_color,
            vertex_count: self.num_vertices,
            instance_count: self.indices,
        }
    }

    /// Applies a reported window size, each axis on its own: a positive
    /// width updates the stored width and reconfigures the surface at
    /// once; a positive height then does the same for the height. A zero
    /// axis is left unchanged -- a minimized window reports zero and must
    /// not tear down the surface.
    ///
    /// The returned sequence is the exact list of surface configurations
    /// the host must apply, in order: a call that changes both axes
    /// reconfigures twice, deliberately not coalesced.
    pub fn resize(&mut self, x: u32, y: u32) -> (reconfigs: Vec<SurfaceConfig>)
        ensures
            final(self).config == config_with_size(
                old(self).config,
                if x > 0 { x } else { old(self).config.width },
                if y > 0 { y } else { old(self).config.height },
            ),
            final(self).width == (if x > 0 { x } else { old(self).width }),
            final(self).height == (if y > 0 { y } else { old(self).height }),
            final(self).clear_color == old(self).clear_color,
            final(self).num_vertices == old(self).num_vertices,
            final(self).indices == old(self).indices,
            reconfigs@.len() == (if x > 0 { 1int } else { 0int }) + (if y > 0 { 1int } else {
                0int
            }),
            x > 0 ==> reconfigs@[0] == config_with_size(old(self).config, x, old(self).config.height),
            y > 0 ==> reconfigs@[reconfigs@.len() - 1] == final(self).config,
    {
        let mut reconfigs: Vec<SurfaceConfig> = Vec::new();
        if x > 0 {
            self.width = x;
            self.config.width = x;
            reconfigs.push(self.config);
        }
        if y > 0 {
            self.height = y;
            self.config.height = y;
            reconfigs.push(self.config);
        }
        reconfigs
    }
}

} // verus!
