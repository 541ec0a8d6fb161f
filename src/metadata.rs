use exif::{Exif, Field, In, Tag};
use std::io::Cursor;
use vstd::prelude::*;
use vstd::string::{StrSliceExecFns, StringExecFns};

verus! {

#[verifier::external_type_specification]
#[verifier::external_body]
pub struct ExExif(Exif);

#[verifier::external_type_specification]
#[verifier::external_body]
pub struct ExField(Field);

#[verifier::external_type_specification]
#[verifier::external_body]
pub struct ExTag(Tag);

/// The EXIF tags that the summary reads.
#[derive(Clone, Copy, Debug, PartialEq, Eq)]
pub enum ExifTag {
    Orientation,
    Make,
    Model,
    DateTimeOriginal,
    PhotographicSensitivity,
    IsoSpeed,
    FNumber,
    ExposureTime,
    FocalLength,
    Flash,
    LensModel,
    Software,
    ExposureProgram,
}

/// `exif` reads EXIF attributes from `data`.
pub uninterp spec fn exif_readable(data: Seq<u8>) -> bool;

/// Relies on `exif::Reader::read_from_container`: the EXIF attributes of a
/// TIFF, JPEG, PNG, HEIF or WebP container, or nothing when there are none
/// or the container is not recognised.
#[verifier::external_body]
fn read_exif(data: &[u8]) -> (r: Option<Exif>)
    ensures
        r is Some <==> exif_readable(data@),
{
    exif::Reader::new().read_from_container(&mut Cursor::new(data)).ok()
}

/// Relies on the tag constants of `exif::Tag`, one for each [`ExifTag`].
#[verifier::external_body]
fn exif_tag(tag: ExifTag) -> (r: Tag) {
    match tag {
        ExifTag::Orientation => Tag::Orientation,
        ExifTag::Make => Tag::Make,
        ExifTag::Model => Tag::Model,
        ExifTag::DateTimeOriginal => Tag::DateTimeOriginal,
        ExifTag::PhotographicSensitivity => Tag::PhotographicSensitivity,
        ExifTag::IsoSpeed => Tag::ISOSpeed,
        ExifTag::FNumber => Tag::FNumber,
        ExifTag::ExposureTime => Tag::ExposureTime,
        ExifTag::FocalLength => Tag::FocalLength,
        ExifTag::Flash => Tag::Flash,
        ExifTag::LensModel => Tag::LensModel,
        ExifTag::Software => Tag::Software,
        ExifTag::ExposureProgram => Tag::ExposureProgram,
    }
}

/// Relies on `exif::Exif::get_field`: the field of `tag` in the primary
/// image's IFD, if present.
#[verifier::external_body]
fn exif_field<'a>(e: &'a Exif, tag: Tag) -> (r: Option<&'a Field>) {
    e.get_field(tag, In::PRIMARY)
}

/// Relies on `exif::Value::get_uint`: the first value of a field as an
/// unsigned integer, when it has one of an integer type.
#[verifier::external_body]
fn field_uint(f: &Field) -> (r: Option<u32>) {
    f.value.get_uint(0)
}

/// Relies on `exif::Field::display_value`: the field's value as text.
#[verifier::external_body]
fn field_text(f: &Field) -> (r: String) {
    f.display_value().to_string()
}

/// `r` is `s` without the double quotes that begin and end it.
pub open spec fn quotes_trimmed(s: Seq<char>, r: Seq<char>) -> bool {
    exists|i: int, j: int|
        0 <= i <= j <= s.len() && r == s.subrange(i, j) && (forall|k: int|
            0 <= k < i ==> s[k] == '"') && (forall|k: int| j <= k < s.len() ==> s[k] == '"') && (i
            < j ==> s[i] != '"' && s[j - 1] != '"')
}

/// Removes the double quotes that begin and end a text.
pub fn trim_quotes(s: &str) -> (r: String)
    ensures
        quotes_trimmed(s@, r@),
{
    let n = s.unicode_len();
    let mut i: usize = 0;
    while i < n && s.get_char(i) == '"'
        invariant
            n == s@.len(),
            i <= n,
            forall|k: int| 0 <= k < i ==> s@[k] == '"',
        decreases n - i,
    {
        i += 1;
    }
    let mut j: usize = n;
    while j > i && s.get_char(j - 1) == '"'
        invariant
            n == s@.len(),
            i <= j <= n,
            forall|k: int| j <= k < n ==> s@[k] == '"',
            i < n ==> s@[i as int] != '"',
        decreases j,
    {
        j -= 1;
    }
    let r = String::from_str(s.substring_char(i, j));
    proof {
        assert(r@ == s@.subrange(i as int, j as int));
    }
    r
}

fn exif_string(e: &Exif, tag: ExifTag) -> (r: Option<String>) {
    match exif_field(e, exif_tag(tag)) {
        Some(f) => Some(trim_quotes(field_text(f).as_str())),
        None => None,
    }
}

fn exif_uint(e: &Exif, tag: ExifTag) -> (r: Option<u32>) {
    match exif_field(e, exif_tag(tag)) {
        Some(f) => field_uint(f),
        None => None,
    }
}

/// The text of the EXIF flash value: bits 3 and 4 hold the flash mode
/// (mode 2 is "off"), bit 0 says whether it fired.
pub open spec fn flash_text(value: u32) -> Seq<char> {
    if (value / 8) % 4 == 2 {
        "Off"@
    } else if value % 2 == 1 {
        "Fired"@
    } else {
        "Did not fire"@
    }
}

/// Describes an EXIF flash value.
pub fn format_flash(value: u32) -> (r: String)
    ensures
        r@ == flash_text(value),
{
    if (value / 8) % 4 == 2 {
        String::from_str("Off")
    } else if value % 2 == 1 {
        String::from_str("Fired")
    } else {
        String::from_str("Did not fire")
    }
}

/// The name of an EXIF exposure program that the standard defines (0 to 8).
pub open spec fn exposure_program_name(value: u32) -> Seq<char> {
    if value == 0 {
        "Not defined"@
    } else if value == 1 {
        "Manual"@
    } else if value == 2 {
        "Normal program"@
    } else if value == 3 {
        "Aperture priority"@
    } else if value == 4 {
        "Shutter priority"@
    } else if value == 5 {
        "Creative program"@
    } else if value == 6 {
        "Action program"@
    } else if value == 7 {
        "Portrait mode"@
    } else {
        "Landscape mode"@
    }
}

/// The decimal digit `d` (below ten).
pub open spec fn digit_char(d: nat) -> char {
    if d == 0 {
        '0'
    } else if d == 1 {
        '1'
    } else if d == 2 {
        '2'
    } else if d == 3 {
        '3'
    } else if d == 4 {
        '4'
    } else if d == 5 {
        '5'
    } else if d == 6 {
        '6'
    } else if d == 7 {
        '7'
    } else if d == 8 {
        '8'
    } else {
        '9'
    }
}

/// The decimal notation of `v`, without leading zeros.
pub open spec fn decimal(v: nat) -> Seq<char>
    decreases v,
{
    if v < 10 {
        seq![digit_char(v)]
    } else {
        decimal(v / 10).push(digit_char(v % 10))
    }
}

/// The text of an EXIF exposure program value: its name, or
/// `Unknown (<value>)` for a value the standard does not define.
pub open spec fn exposure_program_text(value: u32) -> Seq<char> {
    if value <= 8 {
        exposure_program_name(value)
    } else {
        "Unknown ("@ + decimal(value as nat) + ")"@
    }
}

fn digit_text(d: u32) -> (r: &'static str)
    requires
        d < 10,
    ensures
        r@ == seq![digit_char(d as nat)],
{
    proof {
        reveal_strlit("0");
        reveal_strlit("1");
        reveal_strlit("2");
        reveal_strlit("3");
        reveal_strlit("4");
        reveal_strlit("5");
        reveal_strlit("6");
        reveal_strlit("7");
        reveal_strlit("8");
        reveal_strlit("9");
    }
    match d {
        0 => "0",
        1 => "1",
        2 => "2",
        3 => "3",
        4 => "4",
        5 => "5",
        6 => "6",
        7 => "7",
        8 => "8",
        _ => "9",
    }
}

/// The decimal notation of `v`.
pub fn decimal_text(v: u32) -> (r: String)
    ensures
        r@ == decimal(v as nat),
    decreases v,
{
    if v < 10 {
        String::from_str(digit_text(v))
    } else {
        let mut s = decimal_text(v / 10);
        s.append(digit_text(v % 10));
        proof {
            assert(decimal(v as nat) == decimal((v / 10) as nat).push(digit_char((v % 10) as nat)));
            assert(s@ =~= decimal(v as nat));
        }
        s
    }
}

/// Describes an EXIF exposure program: its name, or `Unknown (<value>)` for
/// a value the standard does not define.
pub fn format_exposure_program(value: u32) -> (r: String)
    ensures
        r@ == exposure_program_text(value),
{
    match value {
        0 => String::from_str("Not defined"),
        1 => String::from_str("Manual"),
        2 => String::from_str("Normal program"),
        3 => String::from_str("Aperture priority"),
        4 => String::from_str("Shutter priority"),
        5 => String::from_str("Creative program"),
        6 => String::from_str("Action program"),
        7 => String::from_str("Portrait mode"),
        8 => String::from_str("Landscape mode"),
        _ => {
            let d = decimal_text(value);
            String::from_str("Unknown (").concat(d.as_str()).concat(")")
        },
    }
}

/// EXIF fields as read from an image, before they are put into words.
pub struct ExifFields {
    pub orientation: Option<u32>,
    pub make: Option<String>,
    pub model: Option<String>,
    pub date_taken: Option<String>,
    pub photographic_sensitivity: Option<u32>,
    pub iso_speed: Option<u32>,
    pub f_number: Option<String>,
    pub exposure_time: Option<String>,
    pub focal_length: Option<String>,
    pub flash: Option<u32>,
    pub lens_model: Option<String>,
    pub software: Option<String>,
    pub exposure_program: Option<u32>,
}

/// The EXIF summary of an image.
pub struct ExifData {
    pub orientation: Option<u32>,
    pub camera_make: Option<String>,
    pub camera_model: Option<String>,
    pub date_taken: Option<String>,
    pub iso: Option<u32>,
    pub aperture: Option<String>,
    pub shutter_speed: Option<String>,
    pub focal_length: Option<String>,
    pub flash: Option<String>,
    pub lens_model: Option<String>,
    pub software: Option<String>,
    pub exposure_program: Option<String>,
}

/// The text held by an optional string.
pub open spec fn text_of(o: Option<String>) -> Option<Seq<char>> {
    match o {
        Some(s) => Some(s@),
        None => None,
    }
}

/// An optional text with `prefix` and `suffix` around it.
pub open spec fn wrapped_text(o: Option<String>, prefix: Seq<char>, suffix: Seq<char>) -> Option<
    Seq<char>,
> {
    match o {
        Some(s) => Some(prefix + s@ + suffix),
        None => None,
    }
}

fn wrap_text(o: Option<String>, prefix: &str, suffix: &str) -> (r: Option<String>)
    ensures
        text_of(r) == wrapped_text(o, prefix@, suffix@),
{
    match o {
        Some(s) => Some(String::from_str(prefix).concat(s.as_str()).concat(suffix)),
        None => None,
    }
}

/// `r` is the summary of `f`: the aperture as `f/<f-number>`, the shutter
/// speed with an `s` after it, the focal length with ` mm` after it, the
/// flash and exposure program described, and the ISO taken from the
/// photographic sensitivity, or else from the ISO speed.
pub open spec fn summarizes(f: ExifFields, r: ExifData) -> bool {
    &&& r.orientation == f.orientation
    &&& text_of(r.camera_make) == text_of(f.make)
    &&& text_of(r.camera_model) == text_of(f.model)
    &&& text_of(r.date_taken) == text_of(f.date_taken)
    &&& r.iso == (if f.photographic_sensitivity is Some {
        f.photographic_sensitivity
    } else {
        f.iso_speed
    })
    &&& text_of(r.aperture) == wrapped_text(f.f_number, "f/"@, ""@)
    &&& text_of(r.shutter_speed) == wrapped_text(f.exposure_time, ""@, "s"@)
    &&& text_of(r.focal_length) == wrapped_text(f.focal_length, ""@, " mm"@)
    &&& text_of(r.flash) == (match f.flash {
        Some(v) => Some(flash_text(v)),
        None => None,
    })
    &&& text_of(r.lens_model) == text_of(f.lens_model)
    &&& text_of(r.software) == text_of(f.software)
    &&& text_of(r.exposure_program) == (match f.exposure_program {
        Some(v) => Some(exposure_program_text(v)),
        None => None,
    })
}

/// Puts EXIF fields into words: the aperture as `f/<f-number>`, the shutter
/// speed with an `s` after it, the focal length with ` mm` after it, the
/// flash and exposure program described, and the ISO taken from the
/// photographic sensitivity, or else from the ISO speed.
pub fn summarize_exif(fields: ExifFields) -> (r: ExifData)
    ensures
        summarizes(fields, r),
{
    let iso = match fields.photographic_sensitivity {
        Some(v) => Some(v),
        None => fields.iso_speed,
    };
    let flash = match fields.flash {
        Some(v) => Some(format_flash(v)),
        None => None,
    };
    let exposure_program = match fields.exposure_program {
        Some(v) => Some(format_exposure_program(v)),
        None => None,
    };
    ExifData {
        orientation: fields.orientation,
        camera_make: fields.make,
        camera_model: fields.model,
        date_taken: fields.date_taken,
        iso,
        aperture: wrap_text(fields.f_number, "f/", ""),
        shutter_speed: wrap_text(fields.exposure_time, "", "s"),
        focal_length: wrap_text(fields.focal_length, "", " mm"),
        flash,
        lens_model: fields.lens_model,
        software: fields.software,
        exposure_program,
    }
}

/// The fields [`summarize_exif`] reads, all absent.
pub fn no_exif_fields() -> (r: ExifFields)
    ensures
        r.orientation is None && r.make is None && r.model is None && r.date_taken is None
            && r.photographic_sensitivity is None && r.iso_speed is None && r.f_number is None
            && r.exposure_time is None && r.focal_length is None && r.flash is None
            && r.lens_model is None && r.software is None && r.exposure_program is None,
{
    ExifFields {
        orientation: None,
        make: None,
        model: None,
        date_taken: None,
        photographic_sensitivity: None,
        iso_speed: None,
        f_number: None,
        exposure_time: None,
        focal_length: None,
        flash: None,
        lens_model: None,
        software: None,
        exposure_program: None,
    }
}

/// Reads the EXIF fields of an encoded image (text values without their
/// surrounding quotes) and puts them into words with [`summarize_exif`]. An
/// image without readable EXIF data gives a summary with every field absent.
pub fn extract_exif_data(data: &[u8]) -> (r: ExifData)
    ensures
        exists|f: ExifFields| #[trigger] summarizes(f, r),
        !exif_readable(data@) ==> r.orientation is None && r.camera_make is None
            && r.camera_model is None && r.date_taken is None && r.iso is None
            && r.aperture is None && r.shutter_speed is None && r.focal_length is None
            && r.flash is None && r.lens_model is None && r.software is None
            && r.exposure_program is None,
{
    let e = match read_exif(data) {
        Some(e) => e,
        None => {
            let f = no_exif_fields();
            let ghost g = f;
            let r = summarize_exif(f);
            assert(summarizes(g, r));
            return r;
        },
    };
    let fields = ExifFields {
            orientation: exif_uint(&e, ExifTag::Orientation),
            make: exif_string(&e, ExifTag::Make),
            model: exif_string(&e, ExifTag::Model),
            date_taken: exif_string(&e, ExifTag::DateTimeOriginal),
            photographic_sensitivity: exif_uint(&e, ExifTag::PhotographicSensitivity),
            iso_speed: exif_uint(&e, ExifTag::IsoSpeed),
            f_number: exif_string(&e, ExifTag::FNumber),
            exposure_time: exif_string(&e, ExifTag::ExposureTime),
            focal_length: exif_string(&e, ExifTag::FocalLength),
            flash: exif_uint(&e, ExifTag::Flash),
            lens_model: exif_string(&e, ExifTag::LensModel),
            software: exif_string(&e, ExifTag::Software),
            exposure_program: exif_uint(&e, ExifTag::ExposureProgram),
    };
    let ghost g = fields;
    let r = summarize_exif(fields);
    assert(summarizes(g, r));
    r
}

} // verus!
