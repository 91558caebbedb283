use vstd::prelude::*;

verus! {

/// The closed set of output formats that image conversion recognizes.
///
/// The spelling of the configured format string decides the variant:
/// `"png"`, `"jpg"`/`"jpeg"`, `"webp"` and `"gif"` are the only spellings
/// accepted, case-sensitively; everything else is an unsupported format.
#[derive(Clone, Copy, PartialEq, Eq, Structural, Debug)]
pub enum TargetFormat {
    Png,
    Jpeg,
    WebP,
    Gif,
}

/// Immutable conversion configuration, supplied when a converter is built.
///
/// `format` selects the output format of image conversion and is checked
/// against the recognized set only when a conversion runs, not on
/// construction. `quality` is accepted on any value, 0..=100 or not, and is
/// deliberately never consulted by the image path; it, `preserve_audio`,
/// `resolution` and `fps` are placeholders for the unimplemented video path.
pub struct ConversionOptions {
    pub format: String,
    pub quality: u32,
    pub preserve_audio: Option<bool>,
    pub resolution: Option<String>,
    pub fps: Option<u32>,
}

/// The target format that a format string denotes, or `None` when the
/// string lies outside the recognized set.
pub open spec fn spec_target_of(format: Seq<char>) -> Option<TargetFormat> {
    if format == "png"@ {
        Some(TargetFormat::Png)
    } else if format == "jpg"@ || format == "jpeg"@ {
        Some(TargetFormat::Jpeg)
    } else if format == "webp"@ {
        Some(TargetFormat::WebP)
    } else if format == "gif"@ {
        Some(TargetFormat::Gif)
    } else {
        None
    }
}

/// Looks a format string up in the recognized set.
pub fn target_of(format: &String) -> (r: Option<TargetFormat>)
    ensures
        r == spec_target_of(format@),
{
    if *format == "png".to_owned() {
        Some(TargetFormat::Png)
    } else if *format == "jpg".to_owned() || *format == "jpeg".to_owned() {
        Some(TargetFormat::Jpeg)
    } else if *format == "webp".to_owned() {
        Some(TargetFormat::WebP)
    } else if *format == "gif".to_owned() {
        Some(TargetFormat::Gif)
    } else {
        None
    }
}

/// The configuration that five plain fields denote.
pub open spec fn spec_from_parts(
    format: String,
    quality: u32,
    preserve_audio: Option<bool>,
    resolution: Option<String>,
    fps: Option<u32>,
) -> ConversionOptions {
    ConversionOptions { format, quality, preserve_audio, resolution, fps }
}

impl ConversionOptions {
    /// Builds a configuration from its five plain fields.
    ///
    /// Construction never rejects a value: in particular a `quality`
    /// outside 0..=100 is stored as given, since nothing reads it.
    pub fn from_parts(
        format: String,
        quality: u32,
        preserve_audio: Option<bool>,
        resolution: Option<String>,
        fps: Option<u32>,
    ) -> (r: ConversionOptions)
        ensures
            r == spec_from_parts(format, quality, preserve_audio, resolution, fps),
    {
        ConversionOptions { format, quality, preserve_audio, resolution, fps }
    }
}

/// Round trip: a configuration rebuilt from its externalized plain parts
/// is that configuration again — in particular `format` and `quality`
/// survive externalization and reconstruction unchanged.
pub proof fn lemma_options_round_trip(o: ConversionOptions)
    ensures
        spec_from_parts(o.format, o.quality, o.preserve_audio, o.resolution, o.fps) == o,
{
}

} // verus!
