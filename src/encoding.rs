//! Classification of a variant by which streams it carries.
use crate::text::same_text;
use vstd::prelude::*;

verus! {

/// What a variant carries.
#[derive(Clone, Copy, Debug, PartialEq, Eq, Structural, Hash)]
pub enum FileEncoding {
    VideoAndAudio,
    VideoOnly,
    AudioOnly,
    Image,
    Unknown,
}

/// The codec value that marks a stream as absent.
pub open spec fn absence_marker() -> Seq<char> {
    "none"@
}

/// The codec value that a variant is given when the tool reports none.
pub open spec fn missing_marker() -> Seq<char> {
    "unknown"@
}

/// Whether a codec value names a stream: it is neither the absence marker nor the
/// value given to a codec that was not reported.
pub open spec fn carries_stream(codec: Seq<char>) -> bool {
    codec != absence_marker() && codec != missing_marker()
}

/// The category of a variant from its audio codec, its video codec and whether
/// its width and height are known. `Image` is never the answer: a silent variant
/// with a video codec and both dimensions is video-only.
pub open spec fn encoding_of(acodec: Seq<char>, vcodec: Seq<char>, has_width: bool, has_height: bool) -> FileEncoding {
    let audio = carries_stream(acodec);
    let video = carries_stream(vcodec);
    if audio && video && has_width && has_height {
        FileEncoding::VideoAndAudio
    } else if !audio && video && has_width && has_height {
        FileEncoding::VideoOnly
    } else if audio && !video && !has_width && !has_height {
        FileEncoding::AudioOnly
    } else {
        FileEncoding::Unknown
    }
}

impl FileEncoding {
    /// Classifies a variant by its codecs and the presence of its dimensions.
    pub fn classify(acodec: &str, vcodec: &str, width: Option<u16>, height: Option<u16>) -> (r: FileEncoding)
        ensures
            r == encoding_of(acodec@, vcodec@, width is Some, height is Some),
    {
        proof {
            reveal_strlit("none");
            reveal_strlit("unknown");
        }
        let audio = !same_text(acodec, "none") && !same_text(acodec, "unknown");
        let video = !same_text(vcodec, "none") && !same_text(vcodec, "unknown");
        let dims = width.is_some() && height.is_some();
        if audio && video && dims {
            FileEncoding::VideoAndAudio
        } else if !audio && video && dims {
            FileEncoding::VideoOnly
        } else if audio && !video && width.is_none() && height.is_none() {
            FileEncoding::AudioOnly
        } else {
            FileEncoding::Unknown
        }
    }

    /// The category's name, such as `Video Only`.
    pub fn label(&self) -> (r: String)
        ensures
            r@ == encoding_label(*self),
    {
        proof {
            reveal_strlit("Video and Audio");
            reveal_strlit("Video Only");
            reveal_strlit("Audio Only");
            reveal_strlit("Image");
            reveal_strlit("Unknown");
        }
        match self {
            FileEncoding::VideoAndAudio => "Video and Audio".to_string(),
            FileEncoding::VideoOnly => "Video Only".to_string(),
            FileEncoding::AudioOnly => "Audio Only".to_string(),
            FileEncoding::Image => "Image".to_string(),
            FileEncoding::Unknown => "Unknown".to_string(),
        }
    }
}

/// The name of each category.
pub open spec fn encoding_label(e: FileEncoding) -> Seq<char> {
    match e {
        FileEncoding::VideoAndAudio => "Video and Audio"@,
        FileEncoding::VideoOnly => "Video Only"@,
        FileEncoding::AudioOnly => "Audio Only"@,
        FileEncoding::Image => "Image"@,
        FileEncoding::Unknown => "Unknown"@,
    }
}

} // verus!
