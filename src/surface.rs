use vstd::prelude::*;

verus! {

/// A window or surface size in physical pixels.
#[derive(Clone, Copy, Debug, PartialEq, Eq, Structural)]
pub struct Size {
    pub width: u32,
    pub height: u32,
}

impl Size {
    pub open spec fn is_zero_area(self) -> bool {
        self.width == 0 || self.height == 0
    }

    pub fn new(width: u32, height: u32) -> (r: Size)
        ensures
            r.width == width,
            r.height == height,
    {
        Size { width, height }
    }

    /// True when either dimension is zero, as for a minimised window.
    pub fn has_zero_area(&self) -> (r: bool)
        ensures
            r == self.is_zero_area(),
    {
        self.width == 0 || self.height == 0
    }
}

/// The surface configuration that the context keeps and applies. The format,
/// present mode and alpha mode are positions in the lists of values that the
/// surface reported as supported.
#[derive(Clone, Copy, Debug, PartialEq, Eq, Structural)]
pub struct SurfaceConfig {
    pub format: usize,
    pub present_mode: usize,
    pub alpha_mode: usize,
    pub width: u32,
    pub height: u32,
    pub max_frame_latency: u32,
}

/// Number of frames that may be in flight at once.
pub const MAX_FRAME_LATENCY: u32 = 2;

impl SurfaceConfig {
    pub open spec fn size(self) -> Size {
        Size { width: self.width, height: self.height }
    }

    /// The configuration after a resize to `new_size`: unchanged when a
    /// dimension is zero, else at the new size with all else kept.
    pub open spec fn reconfigured(self, new_size: Size) -> SurfaceConfig {
        if new_size.is_zero_area() {
            self
        } else {
            SurfaceConfig { width: new_size.width, height: new_size.height, ..self }
        }
    }

    /// The configuration of a fresh surface: the chosen capabilities at the
    /// given size.
    pub fn new(choice: SurfaceChoice, size: Size) -> (r: SurfaceConfig)
        ensures
            r.format == choice.format,
            r.present_mode == choice.present_mode,
            r.alpha_mode == choice.alpha_mode,
            r.size() == size,
            r.max_frame_latency == MAX_FRAME_LATENCY,
    {
        SurfaceConfig {
            format: choice.format,
            present_mode: choice.present_mode,
            alpha_mode: choice.alpha_mode,
            width: size.width,
            height: size.height,
            max_frame_latency: MAX_FRAME_LATENCY,
        }
    }

    /// The size the surface is configured at.
    pub fn current_size(&self) -> (r: Size)
        ensures
            r == self.size(),
    {
        Size { width: self.width, height: self.height }
    }

    /// Takes a new window size. A size with a zero dimension leaves the
    /// configuration as it is and returns false; any other size is stored and
    /// the result is true, telling the caller to apply the configuration to
    /// the surface before the next frame is acquired.
    pub fn reconfigure(&mut self, new_size: Size) -> (apply: bool)
        ensures
            apply == !new_size.is_zero_area(),
            *final(self) == old(self).reconfigured(new_size),
            new_size.is_zero_area() ==> *final(self) == *old(self),
            !new_size.is_zero_area() ==> *final(self) == (SurfaceConfig {
                width: new_size.width,
                height: new_size.height,
                ..*old(self)
            }),
    {
        if new_size.has_zero_area() {
            false
        } else {
            self.width = new_size.width;
            self.height = new_size.height;
            true
        }
    }
}

/// What was picked from the surface's reported capabilities: positions in
/// its lists of formats, present modes and alpha modes.
#[derive(Clone, Copy, Debug, PartialEq, Eq, Structural)]
pub struct SurfaceChoice {
    pub format: usize,
    pub present_mode: usize,
    pub alpha_mode: usize,
}

/// The position of the first true flag, or the length when there is none.
pub open spec fn first_set(flags: Seq<bool>) -> int
    decreases flags.len(),
{
    if flags.len() == 0 || flags[0] {
        0
    } else {
        1 + first_set(flags.drop_first())
    }
}

/// The position of the first sRGB format in a list given by sRGB flags, or
/// the first position when none is sRGB.
pub open spec fn preferred_format(srgb: Seq<bool>) -> int {
    if first_set(srgb) < srgb.len() {
        first_set(srgb)
    } else {
        0
    }
}

/// Errors that end initialisation; none of them is retried.
#[derive(Clone, Copy, Debug, PartialEq, Eq, Structural)]
pub enum InitError {
    NoCompatibleAdapter,
    DeviceCreationFailed,
    ResourceCreationFailed,
    InvalidImageData,
}

/// The texture formats a surface reports, as wgpu defines them.
#[verifier::external_type_specification]
pub struct ExTextureFormat(wgpu_types::TextureFormat);

/// The block size of an ASTC texture format.
#[verifier::external_type_specification]
pub struct ExAstcBlock(wgpu_types::AstcBlock);

/// The channel encoding of an ASTC texture format.
#[verifier::external_type_specification]
pub struct ExAstcChannel(wgpu_types::AstcChannel);

/// Whether a texture format is sRGB-encoded: the nine `...Srgb` formats and
/// the ASTC formats with the `UnormSrgb` channel.
pub open spec fn srgb_spec(f: wgpu_types::TextureFormat) -> bool {
    match f {
        wgpu_types::TextureFormat::Rgba8UnormSrgb => true,
        wgpu_types::TextureFormat::Bgra8UnormSrgb => true,
        wgpu_types::TextureFormat::Bc1RgbaUnormSrgb => true,
        wgpu_types::TextureFormat::Bc2RgbaUnormSrgb => true,
        wgpu_types::TextureFormat::Bc3RgbaUnormSrgb => true,
        wgpu_types::TextureFormat::Bc7RgbaUnormSrgb => true,
        wgpu_types::TextureFormat::Etc2Rgb8UnormSrgb => true,
        wgpu_types::TextureFormat::Etc2Rgb8A1UnormSrgb => true,
        wgpu_types::TextureFormat::Etc2Rgba8UnormSrgb => true,
        wgpu_types::TextureFormat::Astc { block: _, channel: wgpu_types::AstcChannel::UnormSrgb } => true,
        _ => false,
    }
}

/// Relies on `wgpu_types::TextureFormat::is_srgb`, which is true exactly for
/// the formats that `remove_srgb_suffix` changes: those of `srgb_spec`.
pub assume_specification[ wgpu_types::TextureFormat::is_srgb ](f: &wgpu_types::TextureFormat) -> (r: bool)
    ensures
        r == srgb_spec(*f),
;

/// The sRGB flag of each format in a list, in order.
pub open spec fn srgb_flags(formats: Seq<wgpu_types::TextureFormat>) -> Seq<bool> {
    formats.map_values(|f: wgpu_types::TextureFormat| srgb_spec(f))
}

/// Picks the surface capabilities from the lists the surface reports: the
/// first sRGB format (as `is_srgb` tells), or the first format when none is
/// sRGB, and the first present mode and alpha mode.
pub fn choose_capabilities(
    formats: &Vec<wgpu_types::TextureFormat>,
    present_modes: usize,
    alpha_modes: usize,
) -> (r: Result<SurfaceChoice, InitError>)
    ensures
        r is Err <==> (formats@.len() == 0 || present_modes == 0 || alpha_modes == 0),
        r is Err ==> r == Err::<SurfaceChoice, InitError>(InitError::NoCompatibleAdapter),
        r is Ok ==> r->Ok_0 == (SurfaceChoice {
            format: preferred_format(srgb_flags(formats@)) as usize,
            present_mode: 0,
            alpha_mode: 0,
        }),
        r is Ok ==> r->Ok_0.format < formats@.len(),
{
    let mut srgb: Vec<bool> = Vec::with_capacity(formats.len());
    let mut i: usize = 0;
    while i < formats.len()
        invariant
            i <= formats@.len(),
            srgb@.len() == i,
            forall|j: int| 0 <= j < i ==> srgb@[j] == srgb_spec(formats@[j]),
        decreases formats@.len() - i,
    {
        srgb.push(formats[i].is_srgb());
        i = i + 1;
    }
    assert(srgb@ =~= srgb_flags(formats@));
    choose_surface(&srgb, present_modes, alpha_modes)
}

/// Picks the surface capabilities: the first sRGB format, or the first format
/// when none is sRGB, and the first present mode and alpha mode reported.
/// `srgb` holds, for each supported format in order, whether it is sRGB.
/// A surface that reports no format, present mode or alpha mode cannot be
/// used with the adapter.
pub fn choose_surface(srgb: &Vec<bool>, present_modes: usize, alpha_modes: usize) -> (r: Result<SurfaceChoice, InitError>)
    ensures
        r is Err <==> (srgb@.len() == 0 || present_modes == 0 || alpha_modes == 0),
        r is Err ==> r == Err::<SurfaceChoice, InitError>(InitError::NoCompatibleAdapter),
        r is Ok ==> r->Ok_0 == (SurfaceChoice {
            format: preferred_format(srgb@) as usize,
            present_mode: 0,
            alpha_mode: 0,
        }),
        r is Ok ==> 0 <= preferred_format(srgb@) < srgb@.len(),
{
    if srgb.len() == 0 || present_modes == 0 || alpha_modes == 0 {
        return Err(InitError::NoCompatibleAdapter);
    }
    let mut i: usize = 0;
    while i < srgb.len()
        invariant
            i <= srgb@.len(),
            srgb@.len() > 0,
            present_modes > 0,
            alpha_modes > 0,
            forall|j: int| 0 <= j < i ==> !srgb@[j],
        decreases srgb@.len() - i,
    {
        if srgb[i] {
            proof {
                lemma_preferred_at(srgb@, i as int);
            }
            return Ok(SurfaceChoice { format: i, present_mode: 0, alpha_mode: 0 });
        }
        i = i + 1;
    }
    proof {
        lemma_preferred_none(srgb@);
    }
    Ok(SurfaceChoice { format: 0, present_mode: 0, alpha_mode: 0 })
}

proof fn lemma_preferred_at(s: Seq<bool>, i: int)
    requires
        0 <= i < s.len(),
        s[i],
        forall|j: int| 0 <= j < i ==> !s[j],
    ensures
        first_set(s) == i,
    decreases i,
{
    if i > 0 {
        assert(!s[0]);
        let t = s.drop_first();
        assert forall|j: int| 0 <= j < i - 1 implies !t[j] by {
            assert(t[j] == s[j + 1]);
        }
        lemma_preferred_at(t, i - 1);
    }
}

proof fn lemma_preferred_none(s: Seq<bool>)
    requires
        forall|j: int| 0 <= j < s.len() ==> !s[j],
    ensures
        first_set(s) == s.len(),
    decreases s.len(),
{
    if s.len() > 0 {
        assert(!s[0]);
        let t = s.drop_first();
        assert forall|j: int| 0 <= j < t.len() implies !t[j] by {
            assert(t[j] == s[j + 1]);
        }
        lemma_preferred_none(t);
    }
}

} // verus!

verus! {

/// After a resize to a size with no zero dimension, the configuration holds
/// exactly that size, and resizing to it again changes nothing.
pub proof fn lemma_resize_takes_size(config: SurfaceConfig, new_size: Size)
    requires
        !new_size.is_zero_area(),
    ensures
        config.reconfigured(new_size).size() == new_size,
        config.reconfigured(new_size).reconfigured(new_size) == config.reconfigured(new_size),
        config.reconfigured(new_size).format == config.format,
        config.reconfigured(new_size).present_mode == config.present_mode,
        config.reconfigured(new_size).alpha_mode == config.alpha_mode,
{
}

/// A resize to a size with a zero dimension leaves the configuration as it
/// was, whatever it was.
pub proof fn lemma_zero_resize_keeps(config: SurfaceConfig, new_size: Size)
    requires
        new_size.is_zero_area(),
    ensures
        config.reconfigured(new_size) == config,
{
}

} // verus!
