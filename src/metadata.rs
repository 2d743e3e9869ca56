use exif::{Context, In, Reader, Tag, Value};
use std::io::Cursor;
use vstd::prelude::*;

verus! {

/// An unsigned rational as EXIF stores it.
#[derive(Debug, Clone, Copy, PartialEq, Eq, Structural)]
pub struct Rational {
    pub num: u32,
    pub denom: u32,
}

/// The value of an EXIF field, in the encodings that metadata extraction reads.
#[derive(Debug, Clone)]
pub enum FieldValue {
    Ascii(Vec<Vec<u8>>),
    Short(Vec<u16>),
    Long(Vec<u32>),
    Rational(Vec<Rational>),
    /// Any other encoding.
    Other,
}

/// The fields of an image's primary EXIF directory that metadata extraction reads: the
/// formatted text of some, the value of others. `None` marks a field that is absent.
pub struct ExifFields {
    pub make: Option<String>,
    pub model: Option<String>,
    pub image_width: Option<FieldValue>,
    pub image_length: Option<FieldValue>,
    pub photographic_sensitivity: Option<FieldValue>,
    pub iso_speed: Option<FieldValue>,
    pub exposure_time: Option<String>,
    pub f_number: Option<String>,
    pub focal_length: Option<String>,
    pub date_time_original: Option<String>,
    pub date_time: Option<String>,
    pub gps_latitude: Option<FieldValue>,
    pub gps_latitude_ref: Option<FieldValue>,
    pub gps_longitude: Option<FieldValue>,
    pub gps_longitude_ref: Option<FieldValue>,
}

/// A GPS coordinate as degrees, minutes and seconds, with its hemisphere.
#[derive(Debug, Clone, Copy, PartialEq, Eq, Structural)]
pub struct GpsCoordinate {
    pub degrees: Rational,
    pub minutes: Rational,
    pub seconds: Rational,
    /// South of the equator, or west of the prime meridian.
    pub negative: bool,
}

/// What is known of an image from its EXIF data. Absent fields are `None`; width and
/// height are 0 when absent.
pub struct GprMetadata {
    pub camera_model: String,
    pub width: u32,
    pub height: u32,
    pub iso: Option<u32>,
    pub exposure_time: Option<String>,
    pub f_number: Option<String>,
    pub focal_length: Option<String>,
    pub date_taken: Option<String>,
    pub gps_latitude: Option<GpsCoordinate>,
    pub gps_longitude: Option<GpsCoordinate>,
}

/// The numerator of a coordinate's decimal degrees over `coordinate_denominator`:
/// degrees + minutes / 60 + seconds / 3600, negated in the southern or western hemisphere.
pub open spec fn coordinate_numerator(c: GpsCoordinate) -> int {
    let (d, m, s) = (c.degrees, c.minutes, c.seconds);
    let n = d.num * m.denom * s.denom * 3600 + m.num * d.denom * s.denom * 60 + s.num * d.denom
        * m.denom;
    if c.negative {
        -n
    } else {
        n
    }
}

/// The common denominator of a coordinate's parts; 0 when one of them has denominator 0.
pub open spec fn coordinate_denominator(c: GpsCoordinate) -> int {
    c.degrees.denom * c.minutes.denom * c.seconds.denom * 3600
}

proof fn lemma_triple_product_bound(a: u128, b: u128, c: u128)
    requires
        a <= 0xFFFF_FFFF,
        b <= 0xFFFF_FFFF,
        c <= 0xFFFF_FFFF,
    ensures
        a * b <= 0xFFFF_FFFF_FFFF_FFFF,
        a * b * c <= 0xFFFF_FFFF_FFFF_FFFF_FFFF_FFFF,
{
    assert(a * b <= 0xFFFF_FFFF_FFFF_FFFF) by (nonlinear_arith)
        requires
            a <= 0xFFFF_FFFF,
            b <= 0xFFFF_FFFF,
    ;
    assert(a * b * c <= 0xFFFF_FFFF_FFFF_FFFF_FFFF_FFFF) by (nonlinear_arith)
        requires
            a * b <= 0xFFFF_FFFF_FFFF_FFFF,
            c <= 0xFFFF_FFFF,
    ;
}

impl GpsCoordinate {
    /// The coordinate in decimal degrees, as an exact fraction `(numerator, denominator)`.
    pub fn decimal_degrees(&self) -> (r: (i128, u128))
        ensures
            r.0 == coordinate_numerator(*self),
            r.1 == coordinate_denominator(*self),
    {
        let dn = self.degrees.num as u128;
        let dd = self.degrees.denom as u128;
        let mn = self.minutes.num as u128;
        let md = self.minutes.denom as u128;
        let sn = self.seconds.num as u128;
        let sd = self.seconds.denom as u128;
        proof {
            lemma_triple_product_bound(dn, md, sd);
            lemma_triple_product_bound(mn, dd, sd);
            lemma_triple_product_bound(sn, dd, md);
            lemma_triple_product_bound(dd, md, sd);
        }
        let n: u128 = dn * md * sd * 3600 + mn * dd * sd * 60 + sn * dd * md;
        let num: i128 = if self.negative {
            -(n as i128)
        } else {
            n as i128
        };
        (num, dd * md * sd * 3600)
    }
}

/// `s` without its leading double quotes.
pub open spec fn strip_leading_quotes(s: Seq<char>) -> Seq<char>
    decreases s.len(),
{
    if s.len() > 0 && s[0] == '"' {
        strip_leading_quotes(s.drop_first())
    } else {
        s
    }
}

/// `s` without its trailing double quotes.
pub open spec fn strip_trailing_quotes(s: Seq<char>) -> Seq<char>
    decreases s.len(),
{
    if s.len() > 0 && s.last() == '"' {
        strip_trailing_quotes(s.drop_last())
    } else {
        s
    }
}

/// `s` without the double quotes at either end.
pub open spec fn strip_quotes(s: Seq<char>) -> Seq<char> {
    strip_trailing_quotes(strip_leading_quotes(s))
}

/// Removes the double quotes at either end of `s`.
pub fn trim_quotes(s: &str) -> (r: String)
    ensures
        r@ == strip_quotes(s@),
{
    let n = s.unicode_len();
    let mut i: usize = 0;
    assert(s@.subrange(0, n as int) =~= s@);
    while i < n && s.get_char(i) == '"'
        invariant
            i <= n,
            n == s@.len(),
            strip_leading_quotes(s@) == strip_leading_quotes(s@.subrange(i as int, n as int)),
        decreases n - i,
    {
        assert(s@.subrange(i as int, n as int).drop_first() =~= s@.subrange(i + 1, n as int));
        i = i + 1;
    }
    assert(strip_leading_quotes(s@) == s@.subrange(i as int, n as int));
    let mut j: usize = n;
    while j > i && s.get_char(j - 1) == '"'
        invariant
            i <= j <= n,
            n == s@.len(),
            strip_quotes(s@) == strip_trailing_quotes(s@.subrange(i as int, j as int)),
        decreases j,
    {
        assert(s@.subrange(i as int, j as int).drop_last() =~= s@.subrange(i as int, j - 1));
        j = j - 1;
    }
    s.substring_char(i, j).to_owned()
}

/// What `str::trim` gives for a text: it without whitespace at either end.
pub uninterp spec fn trimmed(s: Seq<char>) -> Seq<char>;

/// Relies on `str::trim`: the text without leading and trailing whitespace.
#[verifier::external_body]
fn trim(s: &str) -> (r: String)
    ensures
        r@ == trimmed(s@),
{
    s.trim().to_string()
}

/// The camera's name: make and model joined by a space, whichever of them is present, or
/// `"Unknown Camera"`; each part without surrounding whitespace.
pub open spec fn camera_model_text(make: Option<Seq<char>>, model: Option<Seq<char>>) -> Seq<
    char,
> {
    match (make, model) {
        (Some(a), Some(b)) => trimmed(a) + " "@ + trimmed(b),
        (None, Some(b)) => trimmed(b),
        (Some(a), None) => trimmed(a),
        (None, None) => "Unknown Camera"@,
    }
}

pub open spec fn opt_view(s: Option<String>) -> Option<Seq<char>> {
    match s {
        Some(t) => Some(t@),
        None => None,
    }
}

/// Names the camera from the formatted make and model fields.
pub fn camera_model(make: &Option<String>, model: &Option<String>) -> (r: String)
    ensures
        r@ == camera_model_text(opt_view(*make), opt_view(*model)),
{
    match (make, model) {
        (Some(a), Some(b)) => {
            let mut s = trim(a.as_str());
            s.append(" ");
            let t = trim(b.as_str());
            s.append(t.as_str());
            s
        },
        (None, Some(b)) => trim(b.as_str()),
        (Some(a), None) => trim(a.as_str()),
        (None, None) => String::from_str("Unknown Camera"),
    }
}

/// The first integer of a short or long field.
pub open spec fn first_uint(v: FieldValue) -> Option<u32> {
    match v {
        FieldValue::Short(x) => if x@.len() > 0 {
            Some(x@[0] as u32)
        } else {
            None
        },
        FieldValue::Long(x) => if x@.len() > 0 {
            Some(x@[0])
        } else {
            None
        },
        _ => None,
    }
}

/// The first integer of a short field.
pub open spec fn first_short(v: FieldValue) -> Option<u32> {
    match v {
        FieldValue::Short(x) => if x@.len() > 0 {
            Some(x@[0] as u32)
        } else {
            None
        },
        _ => None,
    }
}

pub open spec fn dimension(f: Option<FieldValue>) -> u32 {
    match f {
        Some(v) => match first_uint(v) {
            Some(n) => n,
            None => 0,
        },
        None => 0,
    }
}

fn field_dimension(f: &Option<FieldValue>) -> (r: u32)
    ensures
        r == dimension(*f),
{
    match f {
        Some(FieldValue::Short(x)) => if x.len() > 0 {
            x[0] as u32
        } else {
            0
        },
        Some(FieldValue::Long(x)) => if x.len() > 0 {
            x[0]
        } else {
            0
        },
        _ => 0,
    }
}

/// The ISO speed: from the first of the two sensitivity fields that is present, when it
/// holds a short.
pub open spec fn iso_of(primary: Option<FieldValue>, fallback: Option<FieldValue>) -> Option<u32> {
    let f = if primary is Some {
        primary
    } else {
        fallback
    };
    match f {
        Some(v) => first_short(v),
        None => None,
    }
}

fn field_iso(primary: &Option<FieldValue>, fallback: &Option<FieldValue>) -> (r: Option<u32>)
    ensures
        r == iso_of(*primary, *fallback),
{
    let f = if primary.is_some() {
        primary
    } else {
        fallback
    };
    match f {
        Some(FieldValue::Short(x)) => if x.len() > 0 {
            Some(x[0] as u32)
        } else {
            None
        },
        _ => None,
    }
}

/// A formatted field without surrounding quotes, with `prefix` before it and `suffix`
/// after it.
pub open spec fn decorated(f: Option<Seq<char>>, prefix: Seq<char>, suffix: Seq<char>) -> Option<
    Seq<char>,
> {
    match f {
        Some(t) => Some(prefix + strip_quotes(t) + suffix),
        None => None,
    }
}

fn decorate(f: &Option<String>, prefix: &str, suffix: &str) -> (r: Option<String>)
    ensures
        opt_view(r) == decorated(opt_view(*f), prefix@, suffix@),
{
    match f {
        Some(t) => {
            let mut s = String::from_str(prefix);
            let q = trim_quotes(t.as_str());
            s.append(q.as_str());
            s.append(suffix);
            Some(s)
        },
        None => None,
    }
}

/// Whether a reference field reads exactly `letter` in its first string.
pub open spec fn reference_is(r: FieldValue, letter: u8) -> bool {
    match r {
        FieldValue::Ascii(a) => a@.len() > 0 && a@[0]@ == seq![letter],
        _ => false,
    }
}

/// A coordinate from its rationals and its reference field: present when both fields
/// are, and the coordinate holds at least three rationals; negative when the reference
/// reads `negative_ref`.
pub open spec fn coordinate_of(
    coord: Option<FieldValue>,
    reference: Option<FieldValue>,
    negative_ref: u8,
) -> Option<GpsCoordinate> {
    match (coord, reference) {
        (Some(FieldValue::Rational(v)), Some(r)) => if v@.len() >= 3 {
            Some(
                GpsCoordinate {
                    degrees: v@[0],
                    minutes: v@[1],
                    seconds: v@[2],
                    negative: reference_is(r, negative_ref),
                },
            )
        } else {
            None
        },
        _ => None,
    }
}

fn extract_gps_coordinate(
    coord: &Option<FieldValue>,
    reference: &Option<FieldValue>,
    negative_ref: u8,
) -> (r: Option<GpsCoordinate>)
    ensures
        r == coordinate_of(*coord, *reference, negative_ref),
{
    match (coord, reference) {
        (Some(FieldValue::Rational(v)), Some(rf)) => {
            if v.len() < 3 {
                return None;
            }
            let negative = match rf {
                FieldValue::Ascii(a) => a.len() > 0 && a[0].len() == 1 && a[0][0] == negative_ref,
                _ => false,
            };
            proof {
                if let FieldValue::Ascii(a) = rf {
                    if a@.len() > 0 && a@[0]@.len() == 1 && a@[0]@[0] == negative_ref {
                        assert(a@[0]@ =~= seq![negative_ref]);
                    }
                }
            }
            Some(GpsCoordinate { degrees: v[0], minutes: v[1], seconds: v[2], negative })
        },
        _ => None,
    }
}

/// The byte that marks a southern latitude.
pub const SOUTH: u8 = 83;

/// The byte that marks a western longitude.
pub const WEST: u8 = 87;

pub open spec fn date_field(original: Option<String>, general: Option<String>) -> Option<String> {
    if original is Some {
        original
    } else {
        general
    }
}

/// The metadata that the fields describe.
pub open spec fn metadata_matches(m: GprMetadata, f: ExifFields) -> bool {
    &&& m.camera_model@ == camera_model_text(opt_view(f.make), opt_view(f.model))
    &&& m.width == dimension(f.image_width)
    &&& m.height == dimension(f.image_length)
    &&& m.iso == iso_of(f.photographic_sensitivity, f.iso_speed)
    &&& opt_view(m.exposure_time) == decorated(opt_view(f.exposure_time), seq![], seq![])
    &&& opt_view(m.f_number) == decorated(opt_view(f.f_number), "f/"@, seq![])
    &&& opt_view(m.focal_length) == decorated(opt_view(f.focal_length), seq![], " mm"@)
    &&& opt_view(m.date_taken) == decorated(
        opt_view(date_field(f.date_time_original, f.date_time)),
        seq![],
        seq![],
    )
    &&& m.gps_latitude == coordinate_of(f.gps_latitude, f.gps_latitude_ref, SOUTH)
    &&& m.gps_longitude == coordinate_of(f.gps_longitude, f.gps_longitude_ref, WEST)
}

/// Interprets the EXIF fields of an image; absent or unusable fields give absent values.
pub fn metadata_from_fields(f: &ExifFields) -> (m: GprMetadata)
    ensures
        metadata_matches(m, *f),
{
    proof {
        reveal_strlit("");
    }
    let date = if f.date_time_original.is_some() {
        &f.date_time_original
    } else {
        &f.date_time
    };
    GprMetadata {
        camera_model: camera_model(&f.make, &f.model),
        width: field_dimension(&f.image_width),
        height: field_dimension(&f.image_length),
        iso: field_iso(&f.photographic_sensitivity, &f.iso_speed),
        exposure_time: decorate(&f.exposure_time, "", ""),
        f_number: decorate(&f.f_number, "f/", ""),
        focal_length: decorate(&f.focal_length, "", " mm"),
        date_taken: decorate(date, "", ""),
        gps_latitude: extract_gps_coordinate(&f.gps_latitude, &f.gps_latitude_ref, SOUTH),
        gps_longitude: extract_gps_coordinate(&f.gps_longitude, &f.gps_longitude_ref, WEST),
    }
}

/// The EXIF tags that metadata extraction reads.
#[derive(Debug, Clone, Copy, PartialEq, Eq, Structural)]
pub enum ExifTag {
    Make,
    Model,
    ImageWidth,
    ImageLength,
    PhotographicSensitivity,
    IsoSpeed,
    ExposureTime,
    FNumber,
    FocalLength,
    DateTimeOriginal,
    DateTime,
    GpsLatitude,
    GpsLatitudeRef,
    GpsLongitude,
    GpsLongitudeRef,
}

/// The directory an EXIF tag belongs to.
#[derive(Debug, Clone, Copy, PartialEq, Eq, Structural)]
pub enum TagContext {
    Tiff,
    Exif,
    Gps,
}

/// The directory and number of each tag, as the EXIF standard assigns them.
pub open spec fn tag_id(t: ExifTag) -> (TagContext, u16) {
    match t {
        ExifTag::Make => (TagContext::Tiff, 0x10f),
        ExifTag::Model => (TagContext::Tiff, 0x110),
        ExifTag::ImageWidth => (TagContext::Tiff, 0x100),
        ExifTag::ImageLength => (TagContext::Tiff, 0x101),
        ExifTag::DateTime => (TagContext::Tiff, 0x132),
        ExifTag::ExposureTime => (TagContext::Exif, 0x829a),
        ExifTag::FNumber => (TagContext::Exif, 0x829d),
        ExifTag::PhotographicSensitivity => (TagContext::Exif, 0x8827),
        ExifTag::IsoSpeed => (TagContext::Exif, 0x8833),
        ExifTag::DateTimeOriginal => (TagContext::Exif, 0x9003),
        ExifTag::FocalLength => (TagContext::Exif, 0x920a),
        ExifTag::GpsLatitudeRef => (TagContext::Gps, 0x1),
        ExifTag::GpsLatitude => (TagContext::Gps, 0x2),
        ExifTag::GpsLongitudeRef => (TagContext::Gps, 0x3),
        ExifTag::GpsLongitude => (TagContext::Gps, 0x4),
    }
}

/// The directory and number of a tag.
pub fn tag_id_of(t: ExifTag) -> (r: (TagContext, u16))
    ensures
        r == tag_id(t),
{
    match t {
        ExifTag::Make => (TagContext::Tiff, 0x10f),
        ExifTag::Model => (TagContext::Tiff, 0x110),
        ExifTag::ImageWidth => (TagContext::Tiff, 0x100),
        ExifTag::ImageLength => (TagContext::Tiff, 0x101),
        ExifTag::DateTime => (TagContext::Tiff, 0x132),
        ExifTag::ExposureTime => (TagContext::Exif, 0x829a),
        ExifTag::FNumber => (TagContext::Exif, 0x829d),
        ExifTag::PhotographicSensitivity => (TagContext::Exif, 0x8827),
        ExifTag::IsoSpeed => (TagContext::Exif, 0x8833),
        ExifTag::DateTimeOriginal => (TagContext::Exif, 0x9003),
        ExifTag::FocalLength => (TagContext::Exif, 0x920a),
        ExifTag::GpsLatitudeRef => (TagContext::Gps, 0x1),
        ExifTag::GpsLatitude => (TagContext::Gps, 0x2),
        ExifTag::GpsLongitudeRef => (TagContext::Gps, 0x3),
        ExifTag::GpsLongitude => (TagContext::Gps, 0x4),
    }
}

/// Why metadata could not be read.
#[derive(Debug, Clone, Copy, PartialEq, Eq, Structural)]
pub enum MetadataError {
    /// The file could not be read.
    Io,
    /// The file holds no EXIF data that can be parsed.
    Parse,
}

/// Whether the EXIF reader finds and parses EXIF data in a file's bytes.
pub uninterp spec fn exif_readable(data: Seq<u8>) -> bool;

/// What the EXIF reader gives, for a file's bytes, as the value of the primary image's
/// field with the tag of that directory and number.
pub uninterp spec fn exif_value(data: Seq<u8>, context: TagContext, number: u16) -> Option<
    FieldValue,
>;

/// What the EXIF reader gives, for a file's bytes, as the display text of the primary
/// image's field with the tag of that directory and number.
pub uninterp spec fn exif_display(data: Seq<u8>, context: TagContext, number: u16) -> Option<
    Seq<char>,
>;

/// Relies on `exif::Reader::read_from_container`: parses the EXIF data of a TIFF-based,
/// JPEG, PNG, HEIF or WebP file held in memory; whether it succeeds depends on the bytes.
#[verifier::external_body]
fn read_exif(data: &Vec<u8>) -> (r: bool)
    ensures
        r == exif_readable(data@),
{
    Reader::new().read_from_container(&mut Cursor::new(data.as_slice())).is_ok()
}

/// Relies on `exif::Reader::read_from_container` and `exif::Exif::get_field` for the
/// primary image: the value of the field, when the bytes parse and the field is present,
/// in the encodings that `FieldValue` distinguishes.
#[verifier::external_body]
fn read_field_value(data: &Vec<u8>, context: TagContext, number: u16) -> (r: Option<FieldValue>)
    ensures
        r == exif_value(data@, context, number),
{
    let c = match context { TagContext::Tiff => Context::Tiff, TagContext::Exif => Context::Exif, TagContext::Gps => Context::Gps };
    let exif = Reader::new().read_from_container(&mut Cursor::new(data.as_slice())).ok()?;
    exif.get_field(Tag(c, number), In::PRIMARY).map(|f| match &f.value {
        Value::Ascii(v) => FieldValue::Ascii(v.clone()),
        Value::Short(v) => FieldValue::Short(v.clone()),
        Value::Long(v) => FieldValue::Long(v.clone()),
        Value::Rational(v) => FieldValue::Rational(v.iter().map(|x| Rational { num: x.num, denom: x.denom }).collect()),
        _ => FieldValue::Other,
    })
}

/// Relies on `exif::Reader::read_from_container`, `exif::Exif::get_field` for the primary
/// image and `exif::Field::display_value`: the field's value formatted for display, when
/// the bytes parse and the field is present.
#[verifier::external_body]
fn read_field_display(data: &Vec<u8>, context: TagContext, number: u16) -> (r: Option<String>)
    ensures
        opt_view(r) == exif_display(data@, context, number),
{
    let c = match context { TagContext::Tiff => Context::Tiff, TagContext::Exif => Context::Exif, TagContext::Gps => Context::Gps };
    let exif = Reader::new().read_from_container(&mut Cursor::new(data.as_slice())).ok()?;
    exif.get_field(Tag(c, number), In::PRIMARY).map(|f| f.display_value().to_string())
}

/// The value the reader gives for a tag of a file.
pub open spec fn value_of(data: Seq<u8>, t: ExifTag) -> Option<FieldValue> {
    exif_value(data, tag_id(t).0, tag_id(t).1)
}

/// The display text the reader gives for a tag of a file.
pub open spec fn display_of(data: Seq<u8>, t: ExifTag) -> Option<Seq<char>> {
    exif_display(data, tag_id(t).0, tag_id(t).1)
}

fn field_value(data: &Vec<u8>, t: ExifTag) -> (r: Option<FieldValue>)
    ensures
        r == value_of(data@, t),
{
    let (c, n) = tag_id_of(t);
    read_field_value(data, c, n)
}

fn field_display(data: &Vec<u8>, t: ExifTag) -> (r: Option<String>)
    ensures
        opt_view(r) == display_of(data@, t),
{
    let (c, n) = tag_id_of(t);
    read_field_display(data, c, n)
}

/// The fields as the EXIF reader finds them in a file's bytes.
pub open spec fn fields_read(f: ExifFields, data: Seq<u8>) -> bool {
    &&& opt_view(f.make) == display_of(data, ExifTag::Make)
    &&& opt_view(f.model) == display_of(data, ExifTag::Model)
    &&& f.image_width == value_of(data, ExifTag::ImageWidth)
    &&& f.image_length == value_of(data, ExifTag::ImageLength)
    &&& f.photographic_sensitivity == value_of(data, ExifTag::PhotographicSensitivity)
    &&& f.iso_speed == value_of(data, ExifTag::IsoSpeed)
    &&& opt_view(f.exposure_time) == display_of(data, ExifTag::ExposureTime)
    &&& opt_view(f.f_number) == display_of(data, ExifTag::FNumber)
    &&& opt_view(f.focal_length) == display_of(data, ExifTag::FocalLength)
    &&& opt_view(f.date_time_original) == display_of(data, ExifTag::DateTimeOriginal)
    &&& opt_view(f.date_time) == display_of(data, ExifTag::DateTime)
    &&& f.gps_latitude == value_of(data, ExifTag::GpsLatitude)
    &&& f.gps_latitude_ref == value_of(data, ExifTag::GpsLatitudeRef)
    &&& f.gps_longitude == value_of(data, ExifTag::GpsLongitude)
    &&& f.gps_longitude_ref == value_of(data, ExifTag::GpsLongitudeRef)
}

/// Reads from a file's bytes the fields that metadata extraction uses.
pub fn collect_fields(data: &Vec<u8>) -> (f: ExifFields)
    ensures
        fields_read(f, data@),
{
    ExifFields {
        make: field_display(data, ExifTag::Make),
        model: field_display(data, ExifTag::Model),
        image_width: field_value(data, ExifTag::ImageWidth),
        image_length: field_value(data, ExifTag::ImageLength),
        photographic_sensitivity: field_value(data, ExifTag::PhotographicSensitivity),
        iso_speed: field_value(data, ExifTag::IsoSpeed),
        exposure_time: field_display(data, ExifTag::ExposureTime),
        f_number: field_display(data, ExifTag::FNumber),
        focal_length: field_display(data, ExifTag::FocalLength),
        date_time_original: field_display(data, ExifTag::DateTimeOriginal),
        date_time: field_display(data, ExifTag::DateTime),
        gps_latitude: field_value(data, ExifTag::GpsLatitude),
        gps_latitude_ref: field_value(data, ExifTag::GpsLatitudeRef),
        gps_longitude: field_value(data, ExifTag::GpsLongitude),
        gps_longitude_ref: field_value(data, ExifTag::GpsLongitudeRef),
    }
}

/// Reads the metadata of a raw image file from its bytes. Fails only when no EXIF data can
/// be parsed from them; a field that is absent or malformed leaves its value absent.
/// Each field is read by its own pass of the EXIF reader over the bytes.
pub fn read_metadata(data: Vec<u8>) -> (r: Result<GprMetadata, MetadataError>)
    ensures
        r is Ok <==> exif_readable(data@),
        r is Err ==> r == Err::<GprMetadata, MetadataError>(MetadataError::Parse),
        r is Ok ==> exists|f: ExifFields| fields_read(f, data@) && metadata_matches(r->Ok_0, f),
{
    if !read_exif(&data) {
        return Err(MetadataError::Parse);
    }
    let fields = collect_fields(&data);
    let r = Ok(metadata_from_fields(&fields));
    assert(fields_read(fields, data@) && metadata_matches(r->Ok_0, fields));
    r
}

} // verus!
