//! The two ways a record can fail to normalise.
use vstd::prelude::*;

verus! {

/// A field that a catalog or a variant must carry.
#[derive(Clone, Copy, Debug, PartialEq, Eq, Structural)]
pub enum Field {
    Title,
    Duration,
    Ext,
    Extractor,
    ExtractorKey,
    Formats,
    Tbr,
}

impl Field {
    /// The field's key in the extraction tool's output.
    pub fn name(&self) -> (r: String)
        ensures
            r@ == field_name(*self),
    {
        proof {
            reveal_strlit("title");
            reveal_strlit("duration");
            reveal_strlit("ext");
            reveal_strlit("extractor");
            reveal_strlit("extractor_key");
            reveal_strlit("formats");
            reveal_strlit("tbr");
        }
        match self {
            Field::Title => "title".to_string(),
            Field::Duration => "duration".to_string(),
            Field::Ext => "ext".to_string(),
            Field::Extractor => "extractor".to_string(),
            Field::ExtractorKey => "extractor_key".to_string(),
            Field::Formats => "formats".to_string(),
            Field::Tbr => "tbr".to_string(),
        }
    }
}

/// The key of each field.
pub open spec fn field_name(f: Field) -> Seq<char> {
    match f {
        Field::Title => "title"@,
        Field::Duration => "duration"@,
        Field::Ext => "ext"@,
        Field::Extractor => "extractor"@,
        Field::ExtractorKey => "extractor_key"@,
        Field::Formats => "formats"@,
        Field::Tbr => "tbr"@,
    }
}

/// Why a catalog or one of its variants could not be normalised.
#[derive(Clone, Copy, Debug, PartialEq, Eq, Structural)]
pub enum AppError {
    /// Neither dimension (width, height) is one of the canonical tier values.
    InvalidResolution(u16, u16),
    /// A required field is absent and nothing stands in for it.
    MissingField(Field),
}

} // verus!
