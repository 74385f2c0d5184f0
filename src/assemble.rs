use vstd::prelude::*;

use crate::convert::NormalizedImage;
use crate::error::CaptureError;

verus! {

/// Sampling step of the palette quantizer: every 4th pixel of every 4th row
/// trains the palette.
pub const QUANTIZER_SAMPLE_RATE: u32 = 4;

/// The largest palette a container holds: 256 colours of three bytes.
pub const MAX_PALETTE_BYTES: usize = 768;

/// An encoded animation: one shared palette, one palette index per pixel of
/// each frame, and one display delay for every frame.
#[derive(Debug)]
pub struct AnimatedImage {
    /// Red, green and blue bytes of each palette entry.
    pub palette: Vec<u8>,
    /// The palette index drawn as transparent, if any.
    pub transparency: Option<u8>,
    pub width: u16,
    pub height: u16,
    /// Palette indices of each frame, row by row.
    pub frames: Vec<Vec<u8>>,
    /// Display delay of every frame, in milliseconds.
    pub delay_millis: u16,
}

#[verifier::external_type_specification]
#[verifier::external_body]
pub struct ExEngiffenError(engiffen::Error);

/// The container bytes written for a palette, its indexed frames and the
/// layout (width, height, delay in milliseconds, transparent index).
pub uninterp spec fn gif_bytes(
    palette: Seq<u8>,
    frames: Seq<Seq<u8>>,
    layout: (u16, u16, u16, Option<u8>),
) -> Seq<u8>;

/// Every frame has the dimensions of the first.
pub open spec fn same_dims(frames: Seq<NormalizedImage>) -> bool {
    forall|i: int|
        0 <= i < frames.len() ==> (#[trigger] frames[i]).width == frames[0].width
            && frames[i].height == frames[0].height
}

/// The quantizer's sample buffer size, `width * height * 4`, fits in 32 bits.
pub open spec fn sample_size_fits(img: NormalizedImage) -> bool {
    img.width as int * img.height as int * 4 <= u32::MAX as int
}

/// The size fits the container's 16-bit width and height.
pub open spec fn size_fits_container(img: NormalizedImage) -> bool {
    img.width <= u16::MAX && img.height <= u16::MAX
}

/// Every pixel of every frame has a non-zero alpha.
pub open spec fn all_visible(frames: Seq<NormalizedImage>) -> bool {
    forall|i: int, k: int|
        0 <= i < frames.len() && 0 <= k < frames[i].pixels@.len() ==> (#[trigger] frames[i].pixels@[k]).a != 0
}

/// Equal pixels, in any frames, get equal palette indices.
pub open spec fn consistent_indices(a: AnimatedImage, frames: Seq<NormalizedImage>) -> bool {
    forall|i1: int, k1: int, i2: int, k2: int|
        0 <= i1 < frames.len() && 0 <= k1 < frames[i1].pixels@.len() && 0 <= i2 < frames.len() && 0
            <= k2 < frames[i2].pixels@.len() && #[trigger] frames[i1].pixels@[k1]
            == #[trigger] frames[i2].pixels@[k2] ==> a.frames@[i1]@[k1] == a.frames@[i2]@[k2]
}

/// The frames that can be assembled: at least one, all well formed, all of
/// one size, and small enough for the quantizer and the container.
pub open spec fn assemblable(frames: Seq<NormalizedImage>) -> bool {
    &&& frames.len() > 0
    &&& size_fits_container(frames[0])
    &&& same_dims(frames)
    &&& forall|i: int| 0 <= i < frames.len() ==> (#[trigger] frames[i]).wf()
    &&& forall|i: int| 0 <= i < frames.len() ==> sample_size_fits(#[trigger] frames[i])
}

/// An animation assembled from `frames` at `frame_rate`: one indexed frame
/// per input frame with one index per pixel, equal pixels mapped to equal
/// indices, a palette of 256 colours, the frames' size cast to 16 bits, a
/// delay of `1000 / frame_rate` milliseconds, and no transparent index when
/// every pixel is visible.
pub open spec fn assembled_from(a: AnimatedImage, frames: Seq<NormalizedImage>, frame_rate: usize) -> bool {
    &&& frames.len() > 0
    &&& a.palette@.len() == MAX_PALETTE_BYTES
    &&& a.frames@.len() == frames.len()
    &&& forall|i: int|
        0 <= i < frames.len() ==> (#[trigger] a.frames@[i])@.len() == frames[i].pixels@.len()
    &&& a.width == frames[0].width as u16
    &&& a.height == frames[0].height as u16
    &&& a.delay_millis as int == 1000int / frame_rate as int
    &&& consistent_indices(a, frames)
    &&& (all_visible(frames) ==> a.transparency is None)
}

/// Relies on engiffen::engiffen with the NeuQuant quantizer: it fails exactly
/// on an empty slice or on frames of differing sizes; otherwise it gives one
/// index per pixel of each frame (one cache entry per distinct pixel, so equal
/// pixels share an index; a transparent index only for a pixel of alpha 0),
/// the 256-entry colour map of
/// color_quant::NeuQuant as palette, the first frame's size cast to `u16`, and a
/// delay of `1000 / fps` milliseconds. It divides by `fps` and by the sample
/// rate, and computes `width * height * 4` in `u32`.
#[verifier::external_body]
fn quantize_frames(frames: &Vec<NormalizedImage>, fps: usize, sample_rate: u32) -> (r: Result<AnimatedImage, engiffen::Error>)
    requires
        fps > 0,
        sample_rate > 0,
        forall|i: int| 0 <= i < frames@.len() ==> (#[trigger] frames@[i]).wf(),
        forall|i: int| 0 <= i < frames@.len() ==> sample_size_fits(#[trigger] frames@[i]),
    ensures
        (r is Ok) == (frames@.len() > 0 && same_dims(frames@)),
        (r is Ok) ==> assembled_from(r->Ok_0, frames@, fps),
{
    let imgs: Vec<engiffen::Image> = frames.iter().map(|f| engiffen::Image {
        pixels: f.pixels.iter().map(|p| [p.r, p.g, p.b, p.a]).collect(),
        width: f.width,
        height: f.height,
    }).collect();
    engiffen::engiffen(&imgs, fps, engiffen::Quantizer::NeuQuant(sample_rate)).map(|g| AnimatedImage {
        palette: g.palette,
        transparency: g.transparency,
        width: g.width,
        height: g.height,
        frames: g.images,
        delay_millis: g.delay,
    })
}

/// Relies on engiffen::Gif::write into a byte vector: the bytes depend on the
/// animation's fields alone, and every error it returns comes from the
/// writer, which for a byte vector never fails. Its colour table padding underflows beyond 256
/// palette entries.
#[verifier::external_body]
fn write_gif(anim: &AnimatedImage) -> (r: Result<Vec<u8>, engiffen::Error>)
    requires
        anim.palette@.len() <= MAX_PALETTE_BYTES,
    ensures
        r is Ok,
        (r is Ok) ==> r->Ok_0@ == gif_bytes(
            anim.palette@,
            anim.frames.deep_view(),
            (anim.width, anim.height, anim.delay_millis, anim.transparency),
        ),
{
    let gif = engiffen::Gif {
        palette: anim.palette.clone(),
        transparency: anim.transparency,
        width: anim.width,
        height: anim.height,
        images: anim.frames.clone(),
        delay: anim.delay_millis,
    };
    let mut out: Vec<u8> = Vec::new();
    gif.write(&mut out).map(|_| out)
}

/// Whether `img` is well formed and small enough for the quantizer.
fn frame_fits(img: &NormalizedImage) -> (r: bool)
    ensures
        r == (img.wf() && sample_size_fits(*img)),
{
    let w: u64 = img.width as u64;
    let h: u64 = img.height as u64;
    assert(w * h <= u32::MAX as int * u32::MAX as int) by (nonlinear_arith)
        requires w <= u32::MAX, h <= u32::MAX;
    let area: u64 = w * h;
    area <= (u32::MAX as u64) / 4 && img.pixels.len() as u128 == area as u128
}

/// Quantizes all frames to one shared palette and gives every frame a delay
/// of `1000 / frame_rate` milliseconds. Fails with `EncodingFailed` exactly
/// when there are no frames, a frame's pixel count differs from its size,
/// the frames differ in size, or a frame is too large for the quantizer or
/// wider or taller than the container's 16-bit limit.
pub fn create_gif(frames: &Vec<NormalizedImage>, frame_rate: usize) -> (r: Result<AnimatedImage, CaptureError>)
    requires
        frame_rate > 0,
    ensures
        (r is Ok) == assemblable(frames@),
        (r is Ok) ==> assembled_from(r->Ok_0, frames@, frame_rate),
        (r is Ok) ==> r->Ok_0.width as int == frames@[0].width && r->Ok_0.height as int
            == frames@[0].height,
        (r is Err) ==> r == Err::<AnimatedImage, CaptureError>(CaptureError::EncodingFailed),
{
    if frames.len() == 0 {
        return Err(CaptureError::EncodingFailed);
    }
    let width = frames[0].width;
    let height = frames[0].height;
    if width > u16::MAX as u32 || height > u16::MAX as u32 {
        return Err(CaptureError::EncodingFailed);
    }
    let mut i: usize = 0;
    while i < frames.len()
        invariant
            0 < frames@.len(),
            i <= frames@.len(),
            width == frames@[0].width,
            height == frames@[0].height,
            forall|j: int|
                0 <= j < i ==> (#[trigger] frames@[j]).width == width && frames@[j].height == height
                    && frames@[j].wf() && sample_size_fits(frames@[j]),
        decreases frames@.len() - i,
    {
        if frames[i].width != width || frames[i].height != height || !frame_fits(&frames[i]) {
            return Err(CaptureError::EncodingFailed);
        }
        i = i + 1;
    }
    match quantize_frames(frames, frame_rate, QUANTIZER_SAMPLE_RATE) {
        Ok(a) => Ok(a),
        Err(_) => Err(CaptureError::EncodingFailed),
    }
}

/// Serializes an animation into container bytes. It succeeds exactly when
/// the palette holds at most 256 colours, and gives `EncodingFailed` otherwise.
pub fn encode_gif(anim: &AnimatedImage) -> (r: Result<Vec<u8>, CaptureError>)
    ensures
        (r is Ok) == (anim.palette@.len() <= MAX_PALETTE_BYTES),
        (r is Err) ==> r == Err::<Vec<u8>, CaptureError>(CaptureError::EncodingFailed),
        (r is Ok) ==> r->Ok_0@ == gif_bytes(
            anim.palette@,
            anim.frames.deep_view(),
            (anim.width, anim.height, anim.delay_millis, anim.transparency),
        ),
{
    if anim.palette.len() > MAX_PALETTE_BYTES {
        return Err(CaptureError::EncodingFailed);
    }
    match write_gif(anim) {
        Ok(bytes) => Ok(bytes),
        Err(_) => Err(CaptureError::EncodingFailed),
    }
}

} // verus!
