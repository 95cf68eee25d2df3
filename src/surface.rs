use vstd::prelude::*;

verus! {

/// A size in physical pixels, as the window reports it.
#[derive(Clone, Copy, Debug, PartialEq, Eq, Structural)]
pub struct SurfaceSize {
    pub width: u32,
    pub height: u32,
}

/// The part of the surface configuration that the lifecycle logic decides:
/// which of the reported formats is used, and the surface's size.
#[derive(Clone, Copy, Debug, PartialEq, Eq, Structural)]
pub struct SurfaceConfig {
    pub format_index: usize,
    pub width: u32,
    pub height: u32,
}

/// The stored configuration together with the flag that says whether the
/// surface has been configured at least once.
#[derive(Clone, Copy, Debug, PartialEq, Eq, Structural)]
pub struct SurfaceState {
    pub config: SurfaceConfig,
    pub is_surface_configured: bool,
}

/// A size the surface can be configured with: neither side is zero.
pub open spec fn nonzero_size(width: u32, height: u32) -> bool {
    width > 0 && height > 0
}

/// The index of the first format flagged as sRGB, or the first format when
/// none is; nothing when no format is reported.
pub open spec fn preferred_format(srgb: Seq<bool>) -> Option<usize> {
    if srgb.len() == 0 {
        None
    } else if exists|i: int| 0 <= i < srgb.len() && srgb[i] {
        Some((choose|i: int| 0 <= i < srgb.len() && srgb[i]
            && forall|j: int| 0 <= j < i ==> !srgb[j]) as usize)
    } else {
        Some(0usize)
    }
}

impl SurfaceState {
    /// What a resize leaves: a non-zero size is stored and marks the surface
    /// configured; a zero-size request leaves everything as it was.
    pub open spec fn resized(self, width: u32, height: u32) -> SurfaceState {
        if nonzero_size(width, height) {
            SurfaceState {
                config: SurfaceConfig { format_index: self.config.format_index, width, height },
                is_surface_configured: true,
            }
        } else {
            self
        }
    }

    /// The state of a freshly created context: sized to the window, not yet
    /// configured.
    pub fn new(format_index: usize, width: u32, height: u32) -> (r: SurfaceState)
        ensures
            r.config == (SurfaceConfig { format_index, width, height }),
            !r.is_surface_configured,
    {
        SurfaceState {
            config: SurfaceConfig { format_index, width, height },
            is_surface_configured: false,
        }
    }

    /// Applies a resize request. Returns whether the surface has to be
    /// reconfigured with the new stored configuration.
    pub fn resize(&mut self, width: u32, height: u32) -> (reconfigure: bool)
        ensures
            reconfigure == nonzero_size(width, height),
            *final(self) == old(self).resized(width, height),
    {
        if width > 0 && height > 0 {
            self.config.width = width;
            self.config.height = height;
            self.is_surface_configured = true;
            true
        } else {
            false
        }
    }

    pub fn size(&self) -> (r: SurfaceSize)
        ensures
            r == (SurfaceSize { width: self.config.width, height: self.config.height }),
    {
        SurfaceSize { width: self.config.width, height: self.config.height }
    }
}

/// Picks the surface format: the first one flagged as sRGB (gamma-corrected),
/// else the first one reported. `srgb[i]` says whether reported format `i` is
/// an sRGB format. Returns `None` when no format is reported.
pub fn choose_format_index(srgb: &Vec<bool>) -> (r: Option<usize>)
    ensures
        r == preferred_format(srgb@),
        r is Some <==> srgb@.len() > 0,
        r matches Some(i) ==> i < srgb@.len(),
{
    let n = srgb.len();
    let mut i: usize = 0;
    while i < n
        invariant
            n == srgb@.len(),
            i <= n,
            forall|j: int| 0 <= j < i ==> !srgb@[j],
        decreases n - i,
    {
        if srgb[i] {
            let ghost k = i as int;
            proof {
                assert(0 <= k < srgb@.len() && srgb@[k] && forall|j: int| 0 <= j < k ==> !srgb@[j]);
                let c = choose|c: int| 0 <= c < srgb@.len() && srgb@[c]
                    && forall|j: int| 0 <= j < c ==> !srgb@[j];
                if c < k {
                    assert(!srgb@[c]);
                } else if c > k {
                    assert(!srgb@[k]);
                }
            }
            return Some(i);
        }
        i = i + 1;
    }
    if n == 0 {
        None
    } else {
        Some(0)
    }
}

#[verifier::external_type_specification]
#[verifier::external_body]
pub struct ExTextureFormat(wgpu::TextureFormat);

/// Whether a texture format is a gamma-corrected (sRGB) one.
pub uninterp spec fn srgb_of(f: wgpu::TextureFormat) -> bool;

/// Relies on wgpu::TextureFormat::is_srgb: whether the format is a
/// gamma-corrected (sRGB) one, which depends on the format alone.
#[verifier::external_body]
fn format_is_srgb(format: &wgpu::TextureFormat) -> (r: bool)
    ensures
        r == srgb_of(*format),
{
    format.is_srgb()
}

/// The sRGB flag of each format, in order.
pub open spec fn srgb_flags(formats: Seq<wgpu::TextureFormat>) -> Seq<bool> {
    formats.map_values(|f: wgpu::TextureFormat| srgb_of(f))
}

/// Picks the surface format among those the surface reports: the first sRGB
/// one, else the first one (see `choose_format_index`). Returns its index, or
/// `None` when no format is reported.
pub fn choose_surface_format(formats: &Vec<wgpu::TextureFormat>) -> (r: Option<usize>)
    ensures
        r == preferred_format(srgb_flags(formats@)),
        r is Some <==> formats@.len() > 0,
        r matches Some(i) ==> i < formats@.len(),
{
    let n = formats.len();
    let mut srgb: Vec<bool> = Vec::with_capacity(n);
    let mut i: usize = 0;
    while i < n
        invariant
            n == formats@.len(),
            i <= n,
            srgb@.len() == i,
            forall|j: int| 0 <= j < i ==> srgb@[j] == srgb_of(formats@[j]),
        decreases n - i,
    {
        srgb.push(format_is_srgb(&formats[i]));
        i = i + 1;
    }
    assert(srgb@ =~= srgb_flags(formats@));
    choose_format_index(&srgb)
}

/// Resizing twice with the same non-zero size leaves the same state as
/// resizing once.
pub proof fn lemma_resize_idempotent(s: SurfaceState, width: u32, height: u32)
    requires
        nonzero_size(width, height),
    ensures
        s.resized(width, height).resized(width, height) == s.resized(width, height),
{
}

/// A resize with a zero side changes neither the stored configuration nor
/// the configured flag.
pub proof fn lemma_zero_resize_keeps_state(s: SurfaceState, width: u32, height: u32)
    requires
        width == 0 || height == 0,
    ensures
        s.resized(width, height) == s,
        s.resized(width, height).config == s.config,
        s.resized(width, height).is_surface_configured == s.is_surface_configured,
{
}

} // verus!
