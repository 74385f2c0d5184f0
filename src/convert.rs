use vstd::prelude::*;

verus! {

/// One pixel sample in the capture device's native blue-green-red layout.
#[derive(Clone, Copy, Debug, PartialEq, Eq, Structural)]
pub struct Bgr {
    pub b: u8,
    pub g: u8,
    pub r: u8,
}

/// One red-green-blue-alpha pixel.
#[derive(Clone, Copy, Debug, PartialEq, Eq, Structural)]
pub struct Rgba {
    pub r: u8,
    pub g: u8,
    pub b: u8,
    pub a: u8,
}

/// An unprocessed frame: `width * height` samples, row by row.
#[derive(Debug)]
pub struct RawFrame {
    pub width: u32,
    pub height: u32,
    pub pixels: Vec<Bgr>,
}

/// A frame with four channels per pixel, row by row.
#[derive(Debug)]
pub struct NormalizedImage {
    pub width: u32,
    pub height: u32,
    pub pixels: Vec<Rgba>,
}

impl RawFrame {
    pub open spec fn wf(&self) -> bool {
        self.pixels@.len() == self.width as int * self.height as int
    }
}

impl NormalizedImage {
    pub open spec fn wf(&self) -> bool {
        self.pixels@.len() == self.width as int * self.height as int
    }

    /// The pixel in column `x` of row `y`.
    pub open spec fn pixel_at(&self, x: int, y: int) -> Rgba {
        self.pixels@[y * self.width as int + x]
    }
}

/// A native sample with its colour channels kept and alpha fully opaque.
pub open spec fn opaque(p: Bgr) -> Rgba {
    Rgba { r: p.r, g: p.g, b: p.b, a: 255 }
}

/// Whether `img` is the conversion of `frame`.
pub open spec fn converted(frame: RawFrame, img: NormalizedImage) -> bool {
    &&& img.width == frame.width
    &&& img.height == frame.height
    &&& img.pixels@.len() == frame.pixels@.len()
    &&& forall|i: int| 0 <= i < frame.pixels@.len() ==> img.pixels@[i] == #[trigger] opaque(frame.pixels@[i])
}

proof fn lemma_index_in_grid(x: int, y: int, w: int, h: int)
    requires
        0 <= x < w,
        0 <= y < h,
    ensures
        0 <= y * w + x < w * h,
{
    assert(0 <= y * w + x < w * h) by (nonlinear_arith)
        requires 0 <= x < w, 0 <= y < h;
}

/// Converts one raw frame: the pixel at column `x` of row `y` is read from
/// sample `y * width + x`, its colours are copied and its alpha is opaque.
pub fn convert_frame(frame: &RawFrame) -> (r: NormalizedImage)
    requires
        frame.wf(),
    ensures
        r.wf(),
        converted(*frame, r),
        forall|x: int, y: int|
            0 <= x < frame.width && 0 <= y < frame.height ==> #[trigger] r.pixel_at(x, y)
                == opaque(frame.pixels@[y * frame.width as int + x]),
{
    let mut pixels: Vec<Rgba> = Vec::with_capacity(frame.pixels.len());
    let mut i: usize = 0;
    while i < frame.pixels.len()
        invariant
            i <= frame.pixels@.len(),
            pixels@.len() == i,
            forall|j: int| 0 <= j < i ==> pixels@[j] == #[trigger] opaque(frame.pixels@[j]),
        decreases frame.pixels@.len() - i,
    {
        let p = frame.pixels[i];
        pixels.push(Rgba { r: p.r, g: p.g, b: p.b, a: 255 });
        i = i + 1;
    }
    let r = NormalizedImage { width: frame.width, height: frame.height, pixels };
    assert forall|x: int, y: int|
        0 <= x < frame.width && 0 <= y < frame.height implies #[trigger] r.pixel_at(x, y)
            == opaque(frame.pixels@[y * frame.width as int + x]) by {
        lemma_index_in_grid(x, y, frame.width as int, frame.height as int);
    }
    r
}

/// Converts every frame of a sequence, keeping their order.
pub fn convert_frames(frames: &Vec<RawFrame>) -> (r: Vec<NormalizedImage>)
    requires
        forall|i: int| 0 <= i < frames@.len() ==> (#[trigger] frames@[i]).wf(),
    ensures
        r@.len() == frames@.len(),
        forall|i: int| 0 <= i < r@.len() ==> (#[trigger] r@[i]).wf() && converted(frames@[i], r@[i]),
{
    let mut out: Vec<NormalizedImage> = Vec::with_capacity(frames.len());
    let mut i: usize = 0;
    while i < frames.len()
        invariant
            i <= frames@.len(),
            out@.len() == i,
            forall|k: int| 0 <= k < frames@.len() ==> (#[trigger] frames@[k]).wf(),
            forall|j: int| 0 <= j < i ==> (#[trigger] out@[j]).wf() && converted(frames@[j], out@[j]),
        decreases frames@.len() - i,
    {
        let img = convert_frame(&frames[i]);
        out.push(img);
        i = i + 1;
    }
    out
}

} // verus!
