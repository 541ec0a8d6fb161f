use vstd::prelude::*;

verus! {

/// A rectangular raster of RGBA pixels, four bytes per pixel (red, green,
/// blue, alpha), row by row.
pub struct PixelBuffer {
    pub width: u32,
    pub height: u32,
    pub data: Vec<u8>,
}

/// The colour channels of a pixel.
pub type Rgb = (u8, u8, u8);

/// The colour channels of pixel `i` of an RGBA byte sequence.
pub open spec fn rgb_at(s: Seq<u8>, i: int) -> Rgb {
    (s[4 * i], s[4 * i + 1], s[4 * i + 2])
}

/// The alpha channel of pixel `i` of an RGBA byte sequence.
pub open spec fn alpha_at(s: Seq<u8>, i: int) -> u8 {
    s[4 * i + 3]
}

/// `dst` holds as many pixels as `src`, pixel `i` of `dst` has the colour `f`
/// gives for pixel `i` of `src`, and alpha is copied.
pub open spec fn maps_pixels(src: Seq<u8>, dst: Seq<u8>, f: spec_fn(Rgb) -> Rgb) -> bool {
    &&& dst.len() == src.len()
    &&& forall|i: int|
        0 <= i < src.len() / 4 ==> #[trigger] rgb_at(dst, i) == f(rgb_at(src, i)) && alpha_at(dst, i)
            == alpha_at(src, i)
}

/// `dst` holds as many pixels as `src`, with the same alpha channel.
pub open spec fn keeps_alpha(src: Seq<u8>, dst: Seq<u8>) -> bool {
    &&& dst.len() == src.len()
    &&& forall|i: int| 0 <= i < src.len() / 4 ==> #[trigger] alpha_at(dst, i) == alpha_at(src, i)
}

impl PixelBuffer {
    /// The byte length matches the dimensions.
    pub open spec fn wf(&self) -> bool {
        self.data@.len() == 4 * (self.width as int) * (self.height as int)
    }

    /// `other` has the same dimensions as `self`.
    pub open spec fn same_size(&self, other: &PixelBuffer) -> bool {
        self.width == other.width && self.height == other.height
    }

    /// A buffer over `data`, or `None` when its length is not four bytes for
    /// each of the `width * height` pixels.
    pub fn from_rgba(width: u32, height: u32, data: Vec<u8>) -> (r: Option<PixelBuffer>)
        ensures
            data@.len() == 4 * (width as int) * (height as int) <==> r is Some,
            r matches Some(b) ==> b.width == width && b.height == height && b.data@ == data@
                && b.wf(),
    {
        let (w, h) = (width as u128, height as u128);
        proof {
            assert(4 * w * h <= 4 * 0xffff_ffff * 0xffff_ffff) by (nonlinear_arith)
                requires
                    w <= 0xffff_ffff,
                    h <= 0xffff_ffff,
            ;
        }
        let expected: u128 = 4 * w * h;
        if data.len() as u128 == expected {
            Some(PixelBuffer { width, height, data })
        } else {
            None
        }
    }

    /// A copy of the buffer.
    pub fn duplicate(&self) -> (r: PixelBuffer)
        ensures
            r.width == self.width,
            r.height == self.height,
            r.data@ == self.data@,
    {
        PixelBuffer { width: self.width, height: self.height, data: self.data.clone() }
    }
}

/// Maps are composed pixel by pixel: `h` is `g` after `f`.
pub proof fn lemma_maps_compose(
    a: Seq<u8>,
    b: Seq<u8>,
    c: Seq<u8>,
    f: spec_fn(Rgb) -> Rgb,
    g: spec_fn(Rgb) -> Rgb,
    h: spec_fn(Rgb) -> Rgb,
)
    requires
        maps_pixels(a, b, f),
        maps_pixels(b, c, g),
        forall|p: Rgb| #[trigger] h(p) == g(f(p)),
    ensures
        maps_pixels(a, c, h),
{
    assert forall|i: int| 0 <= i < a.len() / 4 implies #[trigger] rgb_at(c, i) == h(rgb_at(a, i))
        && alpha_at(c, i) == alpha_at(a, i) by {
        assert(rgb_at(b, i) == f(rgb_at(a, i)));
        assert(rgb_at(c, i) == g(rgb_at(b, i)));
    }
}

/// A colour map keeps alpha.
pub proof fn lemma_maps_keep_alpha(a: Seq<u8>, b: Seq<u8>, f: spec_fn(Rgb) -> Rgb)
    requires
        maps_pixels(a, b, f),
    ensures
        keeps_alpha(a, b),
{
    assert forall|i: int| 0 <= i < a.len() / 4 implies #[trigger] alpha_at(b, i) == alpha_at(a, i) by {
        assert(rgb_at(b, i) == f(rgb_at(a, i)));
    }
}

/// A buffer is a map of itself under the identity.
pub proof fn lemma_maps_identity(a: Seq<u8>)
    ensures
        maps_pixels(a, a, |p: Rgb| p),
{
}

/// Where two colour maps agree on every colour they map alike.
pub proof fn lemma_maps_ext(a: Seq<u8>, b: Seq<u8>, f: spec_fn(Rgb) -> Rgb, g: spec_fn(Rgb) -> Rgb)
    requires
        maps_pixels(a, b, f),
        forall|p: Rgb| #[trigger] f(p) == g(p),
    ensures
        maps_pixels(a, b, g),
{
}

} // verus!
