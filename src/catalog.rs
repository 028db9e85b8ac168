//! An asset's catalog: its identity and its normalised variants.
use crate::error::{AppError, Field};
use crate::format::{format_text, normalized, FileFormat, RawFileFormat};
use crate::text::{decimal_text, digit_char, digit_str, push_decimal};
use vstd::prelude::*;
use vstd::string::StringExecFns;

verus! {

/// The asset-level fields of the extraction tool's output, each present or not.
///
/// `duration` is in milliseconds.
pub struct RawCatalog {
    pub title: Option<String>,
    pub duration: Option<u64>,
    pub ext: Option<String>,
    pub extractor: Option<String>,
    pub extractor_key: Option<String>,
    pub formats: Option<Vec<RawFileFormat>>,
}

/// A parsed catalog. `duration` is in milliseconds.
pub struct FileDetails {
    pub title: String,
    pub duration: u64,
    pub ext: String,
    pub extractor: String,
    pub extractor_key: String,
    pub formats: Vec<FileFormat>,
}

/// The variants that normalise, in their order; the others are dropped.
pub open spec fn normalized_all(raws: Seq<RawFileFormat>, duration_millis: u64) -> Seq<FileFormat>
    decreases raws.len(),
{
    if raws.len() == 0 {
        Seq::empty()
    } else {
        let kept = normalized_all(raws.drop_last(), duration_millis);
        match normalized(raws.last(), duration_millis) {
            Ok(f) => kept.push(f),
            Err(_) => kept,
        }
    }
}

/// A variant that fails to normalise is dropped and changes nothing else: the
/// catalog's variants are those of the same list without it.
pub proof fn lemma_failed_variant_dropped(
    front: Seq<RawFileFormat>,
    bad: RawFileFormat,
    back: Seq<RawFileFormat>,
    duration_millis: u64,
)
    requires
        normalized(bad, duration_millis) is Err,
    ensures
        normalized_all(front.push(bad) + back, duration_millis) == normalized_all(
            front + back,
            duration_millis,
        ),
    decreases back.len(),
{
    if back.len() == 0 {
        assert(front.push(bad) + back == front.push(bad));
        assert(front + back == front);
        assert(front.push(bad).drop_last() == front);
    } else {
        let rest = back.drop_last();
        lemma_failed_variant_dropped(front, bad, rest, duration_millis);
        assert((front.push(bad) + back).drop_last() == front.push(bad) + rest);
        assert((front + back).drop_last() == front + rest);
        assert((front.push(bad) + back).last() == back.last());
        assert((front + back).last() == back.last());
    }
}

/// The first asset-level field, in the order title, duration, ext, extractor,
/// extractor key, formats, that the catalog lacks.
pub open spec fn first_missing(raw: RawCatalog) -> Option<Field> {
    if raw.title is None {
        Some(Field::Title)
    } else if raw.duration is None {
        Some(Field::Duration)
    } else if raw.ext is None {
        Some(Field::Ext)
    } else if raw.extractor is None {
        Some(Field::Extractor)
    } else if raw.extractor_key is None {
        Some(Field::ExtractorKey)
    } else if raw.formats is None {
        Some(Field::Formats)
    } else {
        None
    }
}

/// Normalises each variant and keeps those that succeed, in their order.
pub fn normalize_formats(raws: &Vec<RawFileFormat>, duration_millis: u64) -> (r: Vec<FileFormat>)
    ensures
        r@ == normalized_all(raws@, duration_millis),
{
    let mut kept: Vec<FileFormat> = Vec::new();
    let mut i: usize = 0;
    while i < raws.len()
        invariant
            i <= raws@.len(),
            kept@ == normalized_all(raws@.subrange(0, i as int), duration_millis),
        decreases raws@.len() - i,
    {
        let raw = raws[i].duplicate();
        let result = FileFormat::try_new(raw, duration_millis);
        proof {
            let prefix = raws@.subrange(0, i + 1);
            assert(prefix.drop_last() == raws@.subrange(0, i as int));
            assert(prefix.last() == raws@[i as int]);
        }
        match result {
            Ok(f) => kept.push(f),
            Err(_) => {},
        }
        i = i + 1;
    }
    proof {
        assert(raws@.subrange(0, raws@.len() as int) == raws@);
    }
    kept
}

/// The digits after the point of a count of thousandths, without trailing zeros.
pub open spec fn thousandths_text(frac: nat) -> Seq<char> {
    if frac == 0 {
        Seq::empty()
    } else if frac % 100 == 0 {
        seq!['.', digit_char(frac / 100)]
    } else if frac % 10 == 0 {
        seq!['.', digit_char(frac / 100), digit_char(frac / 10 % 10)]
    } else {
        seq!['.', digit_char(frac / 100), digit_char(frac / 10 % 10), digit_char(frac % 10)]
    }
}

/// A duration in milliseconds, written in seconds.
pub open spec fn seconds_text(millis: nat) -> Seq<char> {
    decimal_text(millis / 1000) + thousandths_text(millis % 1000)
}

/// The texts of the descriptors, each after the first on a new indented line.
pub open spec fn formats_text(fs: Seq<FileFormat>) -> Seq<char>
    decreases fs.len(),
{
    if fs.len() == 0 {
        Seq::empty()
    } else if fs.len() == 1 {
        format_text(fs[0])
    } else {
        formats_text(fs.drop_last()) + "\n\t"@ + format_text(fs.last())
    }
}

/// The text of a catalog: its fields, one per line.
pub open spec fn details_text(d: FileDetails) -> Seq<char> {
    "FileDetails (\ntitle: "@ + d.title@ + ",\nduration: "@ + seconds_text(d.duration as nat)
        + ",\next: "@ + d.ext@ + ",\nextractor: "@ + d.extractor@ + ",\nextractor_key: "@
        + d.extractor_key@ + ",\nformats: "@ + formats_text(d.formats@) + "\n)"@
}

/// Appends a duration in milliseconds, written in seconds.
fn push_seconds(out: &mut String, millis: u64)
    ensures
        final(out)@ == old(out)@ + seconds_text(millis as nat),
{
    push_decimal(out, (millis / 1000) as u128);
    let frac = millis % 1000;
    if frac != 0 {
        out.append(".");
        out.append(digit_str((frac / 100) as u8));
        if frac % 100 != 0 {
            out.append(digit_str((frac / 10 % 10) as u8));
            if frac % 10 != 0 {
                out.append(digit_str((frac % 10) as u8));
            }
        }
    }
    proof {
        reveal_strlit(".");
    }
}

impl FileDetails {
    /// The catalog as text, one field per line.
    pub fn to_text(&self) -> (r: String)
        ensures
            r@ == details_text(*self),
    {
        let mut out = String::from_str("FileDetails (\ntitle: ");
        out.append(self.title.as_str());
        out.append(",\nduration: ");
        push_seconds(&mut out, self.duration);
        out.append(",\next: ");
        out.append(self.ext.as_str());
        out.append(",\nextractor: ");
        out.append(self.extractor.as_str());
        out.append(",\nextractor_key: ");
        out.append(self.extractor_key.as_str());
        out.append(",\nformats: ");
        let ghost before = out@;
        let mut i: usize = 0;
        while i < self.formats.len()
            invariant
                i <= self.formats@.len(),
                out@ == before + formats_text(self.formats@.subrange(0, i as int)),
            decreases self.formats@.len() - i,
        {
            proof {
                let prefix = self.formats@.subrange(0, i + 1);
                assert(prefix.drop_last() == self.formats@.subrange(0, i as int));
                assert(prefix.last() == self.formats@[i as int]);
                if i == 0 {
                    assert(prefix[0] == self.formats@[0]);
                }
            }
            if i > 0 {
                out.append("\n\t");
            }
            let line = self.formats[i].to_text();
            out.append(line.as_str());
            proof {
                if i == 0 {
                    assert(self.formats@.subrange(0, 0) =~= Seq::<FileFormat>::empty());
                }
            }
            i = i + 1;
        }
        proof {
            assert(self.formats@.subrange(0, self.formats@.len() as int) == self.formats@);
        }
        out.append("\n)");
        out
    }

    /// Builds the catalog: fails on the first missing asset-level field, and
    /// otherwise keeps the variants that normalise, in their order.
    pub fn from_raw(raw: RawCatalog) -> (r: Result<FileDetails, AppError>)
        ensures
            match first_missing(raw) {
                Some(f) => r == Err::<FileDetails, AppError>(AppError::MissingField(f)),
                None => r matches Ok(d) && d.title == raw.title->0 && d.duration == raw.duration->0
                    && d.ext == raw.ext->0 && d.extractor == raw.extractor->0 && d.extractor_key
                    == raw.extractor_key->0 && d.formats@ == normalized_all(
                    raw.formats->0@,
                    raw.duration->0,
                ),
            },
    {
        let title = match raw.title {
            Some(v) => v,
            None => {
                return Err(AppError::MissingField(Field::Title));
            },
        };
        let duration = match raw.duration {
            Some(v) => v,
            None => {
                return Err(AppError::MissingField(Field::Duration));
            },
        };
        let ext = match raw.ext {
            Some(v) => v,
            None => {
                return Err(AppError::MissingField(Field::Ext));
            },
        };
        let extractor = match raw.extractor {
            Some(v) => v,
            None => {
                return Err(AppError::MissingField(Field::Extractor));
            },
        };
        let extractor_key = match raw.extractor_key {
            Some(v) => v,
            None => {
                return Err(AppError::MissingField(Field::ExtractorKey));
            },
        };
        let raws = match raw.formats {
            Some(v) => v,
            None => {
                return Err(AppError::MissingField(Field::Formats));
            },
        };
        let formats = normalize_formats(&raws, duration);
        Ok(FileDetails { title, duration, ext, extractor, extractor_key, formats })
    }
}

} // verus!
