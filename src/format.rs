//! Normalisation of one raw variant record into a format descriptor.
use crate::encoding::{encoding_label, encoding_of, FileEncoding};
use crate::error::{AppError, Field};
use crate::resolution::{resolution_label, resolution_of, Resolution};
use crate::size::{scaled_size, size_text, FileSize};
use vstd::prelude::*;
use vstd::string::StringExecFns;

verus! {

/// One variant as the extraction tool describes it.
///
/// `tbr` is the total average bitrate in thousandths of a kilobit per second;
/// `filesize` is in bytes.
pub struct RawFileFormat {
    pub format_id: String,
    pub ext: String,
    pub filesize: Option<u64>,
    pub acodec: String,
    pub vcodec: String,
    pub height: Option<u16>,
    pub width: Option<u16>,
    pub tbr: Option<u64>,
}

/// A validated variant.
pub struct FileFormat {
    pub id: String,
    pub extension: String,
    pub resolution: Option<Resolution>,
    pub file_size: FileSize,
    pub file_encoding: FileEncoding,
}

/// The codec that a variant is taken to have when the tool gives none.
pub fn default_codec() -> (r: String)
    ensures
        r@ == "unknown"@,
{
    "unknown".to_string()
}

/// The size of a variant that lasts `duration_millis` milliseconds: its own byte
/// count if it has one, else its bitrate times its duration (a kilobit per second
/// is 125 bytes per second).
pub open spec fn size_of_variant(raw: RawFileFormat, duration_millis: u64) -> Option<FileSize> {
    match raw.filesize {
        Some(bytes) => Some(scaled_size(bytes as int, 1)),
        None => match raw.tbr {
            Some(tbr) => Some(scaled_size(duration_millis as int * tbr as int, 8000)),
            None => None,
        },
    }
}

/// What a raw variant normalises to: its resolution when both dimensions are
/// given (an error when they name no tier), its size (an error when neither a
/// byte count nor a bitrate is given), and its category.
pub open spec fn normalized(raw: RawFileFormat, duration_millis: u64) -> Result<FileFormat, AppError> {
    if raw.width is Some && raw.height is Some && resolution_of(
        raw.width->0,
        raw.height->0,
    ) is None {
        Err(AppError::InvalidResolution(raw.width->0, raw.height->0))
    } else if size_of_variant(raw, duration_millis) is None {
        Err(AppError::MissingField(Field::Tbr))
    } else {
        Ok(
            FileFormat {
                id: raw.format_id,
                extension: raw.ext,
                resolution: if raw.width is Some && raw.height is Some {
                    resolution_of(raw.width->0, raw.height->0)
                } else {
                    None
                },
                file_size: size_of_variant(raw, duration_millis)->0,
                file_encoding: encoding_of(
                    raw.acodec@,
                    raw.vcodec@,
                    raw.width is Some,
                    raw.height is Some,
                ),
            },
        )
    }
}

/// The text of a descriptor: its fields, named, in one line.
pub open spec fn format_text(f: FileFormat) -> Seq<char> {
    "FileFormat (id: "@ + f.id@ + ", extension: "@ + f.extension@ + ", resolution: "@ + match f.resolution {
        Some(r) => resolution_label(r),
        None => "None"@,
    } + ", file size: "@ + size_text(f.file_size) + ", file encoding: "@ + encoding_label(f.file_encoding)
        + ")"@
}

impl From<RawFileFormat> for FileEncoding {
    fn from(raw: RawFileFormat) -> (r: FileEncoding) {
        FileEncoding::classify(raw.acodec.as_str(), raw.vcodec.as_str(), raw.width, raw.height)
    }
}

impl vstd::std_specs::convert::FromSpecImpl<RawFileFormat> for FileEncoding {
    open spec fn obeys_from_spec() -> bool {
        true
    }

    open spec fn from_spec(raw: RawFileFormat) -> FileEncoding {
        encoding_of(raw.acodec@, raw.vcodec@, raw.width is Some, raw.height is Some)
    }
}

impl RawFileFormat {
    /// A copy of the record.
    pub fn duplicate(&self) -> (r: RawFileFormat)
        ensures
            r == *self,
    {
        RawFileFormat {
            format_id: self.format_id.clone(),
            ext: self.ext.clone(),
            filesize: self.filesize,
            acodec: self.acodec.clone(),
            vcodec: self.vcodec.clone(),
            height: self.height,
            width: self.width,
            tbr: self.tbr,
        }
    }
}

impl FileFormat {
    /// Normalises a raw variant of an asset that lasts `duration_millis`
    /// milliseconds.
    pub fn try_new(raw: RawFileFormat, duration_millis: u64) -> (r: Result<FileFormat, AppError>)
        ensures
            r == normalized(raw, duration_millis),
    {
        let resolution = match (raw.width, raw.height) {
            (Some(width), Some(height)) => match Resolution::try_new(width, height) {
                Ok(res) => Some(res),
                Err(e) => {
                    return Err(e);
                },
            },
            _ => None,
        };
        let file_size = match raw.filesize {
            Some(bytes) => FileSize::new(bytes as u128, 1),
            None => match raw.tbr {
                Some(tbr) => {
                    proof {
                        assert(duration_millis as int * tbr as int <= u64::MAX as int * u64::MAX as int)
                            by (nonlinear_arith)
                            requires
                                duration_millis <= u64::MAX,
                                tbr <= u64::MAX,
                        ;
                    }
                    FileSize::new(duration_millis as u128 * tbr as u128, 8000)
                },
                None => {
                    return Err(AppError::MissingField(Field::Tbr));
                },
            },
        };
        let file_encoding = FileEncoding::classify(
            raw.acodec.as_str(),
            raw.vcodec.as_str(),
            raw.width,
            raw.height,
        );
        Ok(
            FileFormat {
                id: raw.format_id,
                extension: raw.ext,
                resolution,
                file_size,
                file_encoding,
            },
        )
    }

    /// The descriptor as one line of text.
    pub fn to_text(&self) -> (r: String)
        ensures
            r@ == format_text(*self),
    {
        let mut out = String::from_str("FileFormat (id: ");
        out.append(self.id.as_str());
        out.append(", extension: ");
        out.append(self.extension.as_str());
        out.append(", resolution: ");
        let resolution = match self.resolution {
            Some(r) => r.label(),
            None => String::from_str("None"),
        };
        out.append(resolution.as_str());
        out.append(", file size: ");
        let size = self.file_size.to_text();
        out.append(size.as_str());
        out.append(", file encoding: ");
        let encoding = self.file_encoding.label();
        out.append(encoding.as_str());
        out.append(")");
        out
    }

    /// A copy of the descriptor.
    pub fn duplicate(&self) -> (r: FileFormat)
        ensures
            r == *self,
    {
        FileFormat {
            id: self.id.clone(),
            extension: self.extension.clone(),
            resolution: self.resolution,
            file_size: self.file_size,
            file_encoding: self.file_encoding,
        }
    }
}

} // verus!
