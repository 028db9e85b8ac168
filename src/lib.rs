//! Normalisation of the encoded variants of a media asset and selection of the
//! best variant per category and resolution tier.
pub mod catalog;
pub mod encoding;
pub mod error;
pub mod extractor;
pub mod format;
pub mod resolution;
pub mod selection;
pub mod size;
pub mod text;

pub use catalog::{FileDetails, RawCatalog};
pub use encoding::FileEncoding;
pub use error::{AppError, Field};
pub use extractor::{get_extractor, get_instagram_content_type, Extractor, InstagramContentType};
pub use format::{default_codec, FileFormat, RawFileFormat};
pub use resolution::Resolution;
pub use selection::BestFormats;
pub use size::{FileSize, FileSizeUnit};
