use vstd::prelude::*;
use vstd::string::StringExecFns;

verus! {

/// The rectangle at `(x, y)` of size `width` by `height` lies inside an
/// image of size `image_width` by `image_height`.
pub open spec fn crop_fits_spec(
    x: u32,
    y: u32,
    width: u32,
    height: u32,
    image_width: u32,
    image_height: u32,
) -> bool {
    x + width <= image_width && y + height <= image_height
}

/// Whether a crop rectangle lies inside the image.
pub fn crop_fits(x: u32, y: u32, width: u32, height: u32, image_width: u32, image_height: u32) -> (r:
    bool)
    ensures
        r == crop_fits_spec(x, y, width, height, image_width, image_height),
{
    (x as u64 + width as u64) <= image_width as u64 && (y as u64 + height as u64)
        <= image_height as u64
}

/// A quarter turn.
#[derive(Clone, Copy, Debug, PartialEq, Eq)]
pub enum RotateDirection {
    /// Counter-clockwise.
    Left,
    /// Clockwise.
    Right,
}

/// `s` equals the string `t`.
fn same_text(s: &str, t: &str) -> (r: bool)
    ensures
        r == (s@ == t@),
{
    String::from_str(s) == String::from_str(t)
}

impl RotateDirection {
    /// `"left"` or `"right"`; any other name is refused.
    pub fn parse(name: &str) -> (r: Option<RotateDirection>)
        ensures
            name@ == "left"@ <==> r == Some(RotateDirection::Left),
            name@ == "right"@ <==> r == Some(RotateDirection::Right),
            r is None <==> (name@ != "left"@ && name@ != "right"@),
    {
        proof {
            reveal_strlit("left");
            reveal_strlit("right");
            assert("left"@[0] != "right"@[0]);
        }
        if same_text(name, "left") {
            Some(RotateDirection::Left)
        } else if same_text(name, "right") {
            Some(RotateDirection::Right)
        } else {
            None
        }
    }
}

/// Resampling filter of a resize.
#[derive(Clone, Copy, Debug, PartialEq, Eq)]
pub enum ResizeFilter {
    Nearest,
    Triangle,
    CatmullRom,
    Gaussian,
    Lanczos3,
}

impl ResizeFilter {
    /// The filter of a name: `"nearest"`, `"triangle"`, `"catmull_rom"`,
    /// `"gaussian"`; any other name gives Lanczos3.
    pub fn from_name(name: &str) -> (r: ResizeFilter)
        ensures
            r == (if name@ == "nearest"@ {
                ResizeFilter::Nearest
            } else if name@ == "triangle"@ {
                ResizeFilter::Triangle
            } else if name@ == "catmull_rom"@ {
                ResizeFilter::CatmullRom
            } else if name@ == "gaussian"@ {
                ResizeFilter::Gaussian
            } else {
                ResizeFilter::Lanczos3
            }),
    {
        if same_text(name, "nearest") {
            ResizeFilter::Nearest
        } else if same_text(name, "triangle") {
            ResizeFilter::Triangle
        } else if same_text(name, "catmull_rom") {
            ResizeFilter::CatmullRom
        } else if same_text(name, "gaussian") {
            ResizeFilter::Gaussian
        } else {
            ResizeFilter::Lanczos3
        }
    }
}

} // verus!
