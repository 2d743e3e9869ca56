use vstd::prelude::*;

use crate::text::{decimal, push_decimal};

verus! {

/// The image format written by a conversion.
#[derive(Debug, Clone, Copy, PartialEq, Eq, Structural)]
pub enum OutputFormat {
    Jpeg,
    Png,
}

impl OutputFormat {
    /// The format's display name.
    pub fn as_str(&self) -> (r: &'static str)
        ensures
            r@ == match self {
                OutputFormat::Jpeg => "JPEG"@,
                OutputFormat::Png => "PNG"@,
            },
    {
        match self {
            OutputFormat::Jpeg => "JPEG",
            OutputFormat::Png => "PNG",
        }
    }

    /// The file extension of the format, without a dot.
    pub fn extension(&self) -> (r: &'static str)
        ensures
            r@ == format_extension(*self),
    {
        match self {
            OutputFormat::Jpeg => "jpg",
            OutputFormat::Png => "png",
        }
    }
}

pub open spec fn format_extension(f: OutputFormat) -> Seq<char> {
    match f {
        OutputFormat::Jpeg => "jpg"@,
        OutputFormat::Png => "png"@,
    }
}

/// How a conversion writes its output.
#[derive(Debug, Clone)]
pub struct ConversionConfig {
    pub output_format: OutputFormat,
    /// JPEG quality, 1 to 100; ignored for PNG.
    pub quality: u8,
    /// Where outputs go; `None` puts each beside its source.
    pub output_directory: Option<String>,
    pub preserve_metadata: bool,
}

pub const DEFAULT_QUALITY: u8 = 95;

pub const MIN_QUALITY: u8 = 1;

pub const MAX_QUALITY: u8 = 100;

/// The step by which one adjustment moves the quality.
pub const QUALITY_STEP: i64 = 5;

impl Default for ConversionConfig {
    /// JPEG at quality 95, beside the source, keeping metadata.
    fn default() -> (r: Self)
        ensures
            r.output_format == OutputFormat::Jpeg,
            r.quality == DEFAULT_QUALITY,
            r.output_directory is None,
            r.preserve_metadata,
    {
        ConversionConfig {
            output_format: OutputFormat::Jpeg,
            quality: DEFAULT_QUALITY,
            output_directory: None,
            preserve_metadata: true,
        }
    }
}

impl ConversionConfig {
    /// The quality as shown to the user: `"95%"` for JPEG, `"N/A"` for PNG.
    pub fn quality_display(&self) -> (r: String)
        ensures
            r@ == match self.output_format {
                OutputFormat::Jpeg => decimal(self.quality as nat) + "%"@,
                OutputFormat::Png => "N/A"@,
            },
    {
        match self.output_format {
            OutputFormat::Jpeg => {
                let mut s = String::new();
                push_decimal(&mut s, self.quality as u128);
                s.append("%");
                s
            },
            OutputFormat::Png => String::from_str("N/A"),
        }
    }
}

/// `v` limited to `lo..=hi`.
pub open spec fn clamp(v: int, lo: int, hi: int) -> int {
    if v < lo {
        lo
    } else if v > hi {
        hi
    } else {
        v
    }
}

/// The quality after one adjustment by `delta` steps.
pub open spec fn adjusted_quality(quality: int, delta: int) -> int {
    clamp(quality + QUALITY_STEP * delta, MIN_QUALITY as int, MAX_QUALITY as int)
}

/// The quality after adjustments by each of `deltas` in turn.
pub open spec fn quality_after(quality: int, deltas: Seq<int>) -> int
    decreases deltas.len(),
{
    if deltas.len() == 0 {
        quality
    } else {
        quality_after(adjusted_quality(quality, deltas[0]), deltas.drop_first())
    }
}

/// Moves a quality by `delta` steps of five, kept within 1 to 100.
pub fn adjust_quality(quality: u8, delta: i32) -> (r: u8)
    ensures
        r == adjusted_quality(quality as int, delta as int),
{
    let v: i64 = quality as i64 + QUALITY_STEP * delta as i64;
    if v < MIN_QUALITY as i64 {
        MIN_QUALITY
    } else if v > MAX_QUALITY as i64 {
        MAX_QUALITY
    } else {
        v as u8
    }
}

/// However it starts, and whatever steps are taken, once the quality has been adjusted at
/// least once it lies within 1 to 100.
pub proof fn lemma_quality_stays_in_range(quality: int, deltas: Seq<int>)
    requires
        deltas.len() > 0,
    ensures
        MIN_QUALITY <= quality_after(quality, deltas) <= MAX_QUALITY,
    decreases deltas.len(),
{
    let next = adjusted_quality(quality, deltas[0]);
    assert(quality_after(quality, deltas) == quality_after(next, deltas.drop_first()));
    if deltas.len() > 1 {
        lemma_quality_stays_in_range(next, deltas.drop_first());
    } else {
        assert(quality_after(next, deltas.drop_first()) == next);
    }
}

} // verus!
