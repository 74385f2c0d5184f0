use vstd::prelude::*;

use crate::assemble::{assembled_from, create_gif, encode_gif, gif_bytes, AnimatedImage};
use crate::convert::{convert_frames, NormalizedImage, RawFrame};
use crate::error::CaptureError;

verus! {

/// The raw frames that can be turned into an animation: at least one, all
/// well formed, all of one size, and small enough for the quantizer and the
/// container.
pub open spec fn renderable(frames: Seq<RawFrame>) -> bool {
    &&& frames.len() > 0
    &&& forall|i: int| 0 <= i < frames.len() ==> (#[trigger] frames[i]).wf()
    &&& forall|i: int|
        0 <= i < frames.len() ==> (#[trigger] frames[i]).width == frames[0].width
            && frames[i].height == frames[0].height
    &&& frames[0].width as int * frames[0].height as int * 4 <= u32::MAX as int
    &&& frames[0].width <= u16::MAX && frames[0].height <= u16::MAX
}

/// Whether `bytes` encode an animation of `frames` at `frame_rate`.
pub open spec fn renders(bytes: Seq<u8>, frames: Seq<RawFrame>, frame_rate: usize) -> bool {
    exists|a: AnimatedImage, imgs: Seq<NormalizedImage>|
        imgs.len() == frames.len()
        && (forall|i: int| 0 <= i < frames.len() ==> crate::convert::converted(frames[i], #[trigger] imgs[i]))
        && #[trigger] assembled_from(a, imgs, frame_rate)
        && bytes == gif_bytes(
            a.palette@,
            a.frames.deep_view(),
            (a.width, a.height, a.delay_millis, a.transparency),
        )
}

/// Whether every raw frame holds as many samples as its size says.
fn all_well_formed(frames: &Vec<RawFrame>) -> (r: bool)
    ensures
        r == forall|i: int| 0 <= i < frames@.len() ==> (#[trigger] frames@[i]).wf(),
{
    let mut i: usize = 0;
    while i < frames.len()
        invariant
            i <= frames@.len(),
            forall|j: int| 0 <= j < i ==> (#[trigger] frames@[j]).wf(),
        decreases frames@.len() - i,
    {
        let f = &frames[i];
        let w: u128 = f.width as u128;
        let h: u128 = f.height as u128;
        assert(w * h <= u32::MAX as int * u32::MAX as int) by (nonlinear_arith)
            requires w <= u32::MAX, h <= u32::MAX;
        if f.pixels.len() as u128 != w * h {
            return false;
        }
        i = i + 1;
    }
    true
}

/// Converts captured frames and encodes them as one animation at
/// `frame_rate`. It succeeds exactly on renderable frames, and gives
/// `EncodingFailed` otherwise.
pub fn render_animation(frames: &Vec<RawFrame>, frame_rate: usize) -> (r: Result<Vec<u8>, CaptureError>)
    requires
        frame_rate > 0,
    ensures
        (r is Ok) == renderable(frames@),
        (r is Err) ==> r == Err::<Vec<u8>, CaptureError>(CaptureError::EncodingFailed),
        (r is Ok) ==> renders(r->Ok_0@, frames@, frame_rate),
{
    if !all_well_formed(frames) {
        return Err(CaptureError::EncodingFailed);
    }
    let imgs = convert_frames(frames);
    let anim = match create_gif(&imgs, frame_rate) {
        Ok(a) => a,
        Err(e) => {
            assert(!renderable(frames@)) by {
                if renderable(frames@) {
                    assert forall|i: int| 0 <= i < imgs@.len() implies crate::assemble::sample_size_fits(#[trigger] imgs@[i]) by {
                        assert(imgs@[i].width == frames@[0].width);
                    }
                }
            }
            return Err(e);
        },
    };
    assert(renderable(frames@)) by {
        assert(frames@.len() > 0);
        assert(crate::assemble::sample_size_fits(imgs@[0]));
        assert forall|i: int| 0 <= i < frames@.len() implies (#[trigger] frames@[i]).width == frames@[0].width
            && frames@[i].height == frames@[0].height by {
            assert(crate::assemble::same_dims(imgs@));
            assert(imgs@[i].width == imgs@[0].width);
        }
    }
    let r = encode_gif(&anim);
    if let Ok(b) = &r {
        assert(assembled_from(anim, imgs@, frame_rate));
        assert(renders(b@, frames@, frame_rate));
    }
    r
}

} // verus!
