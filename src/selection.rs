//! Selection of the largest variant per category and resolution tier.
use crate::encoding::FileEncoding;
use crate::format::FileFormat;
use crate::resolution::Resolution;
use crate::size::{lemma_size_order, size_lt};
use vstd::prelude::*;

verus! {

/// What a selection holds: for each category with tiers, one slot per tier
/// (indexed by `Resolution::rank`), and the best audio-only variant.
pub ghost struct Selection {
    pub video_and_audio: Seq<Option<FileFormat>>,
    pub video_only: Seq<Option<FileFormat>>,
    pub audio_only: Option<FileFormat>,
}

/// The selection of no variants.
pub open spec fn empty_selection() -> Selection {
    Selection {
        video_and_audio: Seq::new(9, |i: int| None),
        video_only: Seq::new(9, |i: int| None),
        audio_only: None,
    }
}

/// The holder of a slot after `f` is offered to it: `f` when the slot is empty or
/// `f` is strictly larger, else the current holder.
pub open spec fn keep_larger(current: Option<FileFormat>, f: FileFormat) -> Option<FileFormat> {
    match current {
        None => Some(f),
        Some(c) => if size_lt(c.file_size, f.file_size) {
            Some(f)
        } else {
            current
        },
    }
}

/// The selection after `f` is offered to `s`.
pub open spec fn offer(s: Selection, f: FileFormat) -> Selection {
    match f.file_encoding {
        FileEncoding::VideoAndAudio => match f.resolution {
            Some(r) => Selection {
                video_and_audio: s.video_and_audio.update(
                    r.rank() as int,
                    keep_larger(s.video_and_audio[r.rank() as int], f),
                ),
                ..s
            },
            None => s,
        },
        FileEncoding::VideoOnly => match f.resolution {
            Some(r) => Selection {
                video_only: s.video_only.update(
                    r.rank() as int,
                    keep_larger(s.video_only[r.rank() as int], f),
                ),
                ..s
            },
            None => s,
        },
        FileEncoding::AudioOnly => Selection { audio_only: keep_larger(s.audio_only, f), ..s },
        _ => s,
    }
}

/// The selection made by offering each variant in turn.
pub open spec fn select(formats: Seq<FileFormat>) -> Selection
    decreases formats.len(),
{
    if formats.len() == 0 {
        empty_selection()
    } else {
        offer(select(formats.drop_last()), formats.last())
    }
}

/// Whether `f` belongs in the slot of tier position `k` of category `e`.
pub open spec fn qualifies(f: FileFormat, e: FileEncoding, k: int) -> bool {
    f.file_encoding == e && f.resolution is Some && f.resolution->0.rank() == k
}

/// What a slot holds after `formats` were offered: the slot is filled exactly when
/// some variant qualifies for it, its holder is one of those variants, and none
/// of them is strictly larger than the holder.
pub open spec fn slot_is_best(slot: Option<FileFormat>, formats: Seq<FileFormat>, e: FileEncoding, k: int) -> bool {
    &&& slot is Some <==> exists|i: int| 0 <= i < formats.len() && qualifies(#[trigger] formats[i], e, k)
    &&& slot matches Some(h) ==> exists|i: int|
        0 <= i < formats.len() && qualifies(#[trigger] formats[i], e, k) && formats[i] == h
    &&& slot matches Some(h) ==> forall|i: int|
        0 <= i < formats.len() && qualifies(#[trigger] formats[i], e, k) ==> !size_lt(h.file_size, formats[i].file_size)
}

/// The same for the audio-only entry, which has no tiers.
pub open spec fn audio_is_best(slot: Option<FileFormat>, formats: Seq<FileFormat>) -> bool {
    &&& slot is Some <==> exists|i: int|
        0 <= i < formats.len() && (#[trigger] formats[i]).file_encoding == FileEncoding::AudioOnly
    &&& slot matches Some(h) ==> exists|i: int|
        0 <= i < formats.len() && (#[trigger] formats[i]).file_encoding == FileEncoding::AudioOnly
            && formats[i] == h
    &&& slot matches Some(h) ==> forall|i: int|
        0 <= i < formats.len() && (#[trigger] formats[i]).file_encoding == FileEncoding::AudioOnly
            ==> !size_lt(h.file_size, formats[i].file_size)
}

/// A selection holds one entry per tier that some combined (or video-only)
/// variant of that tier has, and an audio-only entry exactly when some variant is
/// audio-only; each entry is one of the input variants and no qualifying variant
/// is strictly larger than it.
pub proof fn lemma_selection_is_best(formats: Seq<FileFormat>)
    ensures
        select(formats).video_and_audio.len() == 9,
        select(formats).video_only.len() == 9,
        forall|k: int|
            0 <= k < 9 ==> slot_is_best(
                #[trigger] select(formats).video_and_audio[k],
                formats,
                FileEncoding::VideoAndAudio,
                k,
            ),
        forall|k: int|
            0 <= k < 9 ==> slot_is_best(
                #[trigger] select(formats).video_only[k],
                formats,
                FileEncoding::VideoOnly,
                k,
            ),
        audio_is_best(select(formats).audio_only, formats),
    decreases formats.len(),
{
    if formats.len() > 0 {
        let prev = formats.drop_last();
        let f = formats.last();
        let n = formats.len() - 1;
        lemma_selection_is_best(prev);
        assert(forall|i: int| 0 <= i < n ==> #[trigger] formats[i] == prev[i]);
        assert(formats[n] == f);
        let s = select(prev);
        assert forall|k: int| 0 <= k < 9 implies slot_is_best(
            #[trigger] select(formats).video_and_audio[k],
            formats,
            FileEncoding::VideoAndAudio,
            k,
        ) by {
            lemma_slot_step(s.video_and_audio[k], prev, f, FileEncoding::VideoAndAudio, k);
        }
        assert forall|k: int| 0 <= k < 9 implies slot_is_best(
            #[trigger] select(formats).video_only[k],
            formats,
            FileEncoding::VideoOnly,
            k,
        ) by {
            lemma_slot_step(s.video_only[k], prev, f, FileEncoding::VideoOnly, k);
        }
        lemma_audio_step(s.audio_only, prev, f);
    }
}

/// One offer keeps a slot's property.
proof fn lemma_slot_step(slot: Option<FileFormat>, prev: Seq<FileFormat>, f: FileFormat, e: FileEncoding, k: int)
    requires
        slot_is_best(slot, prev, e, k),
    ensures
        slot_is_best(
            if qualifies(f, e, k) {
                keep_larger(slot, f)
            } else {
                slot
            },
            prev.push(f),
            e,
            k,
        ),
{
    let all = prev.push(f);
    let n = prev.len() as int;
    assert(all[n] == f);
    assert(forall|i: int| 0 <= i < n ==> #[trigger] all[i] == prev[i]);
    let next = if qualifies(f, e, k) {
        keep_larger(slot, f)
    } else {
        slot
    };
    if let Some(h) = next {
        assert forall|i: int| 0 <= i < all.len() && qualifies(#[trigger] all[i], e, k) implies !size_lt(
            h.file_size,
            all[i].file_size,
        ) by {
            lemma_size_order(h.file_size, all[i].file_size, all[i].file_size);
            if let Some(c) = slot {
                lemma_size_order(c.file_size, f.file_size, all[i].file_size);
                lemma_size_order(c.file_size, all[i].file_size, f.file_size);
            }
        }
    }
    if qualifies(f, e, k) {
        assert(qualifies(all[n], e, k));
        if let Some(c) = slot {
            let j = choose|j: int| 0 <= j < prev.len() && qualifies(#[trigger] prev[j], e, k) && prev[j] == c;
            assert(all[j] == c);
        }
    } else {
        if exists|i: int| 0 <= i < all.len() && qualifies(#[trigger] all[i], e, k) {
            let i = choose|i: int| 0 <= i < all.len() && qualifies(#[trigger] all[i], e, k);
            assert(prev[i] == all[i]);
        }
        if let Some(c) = slot {
            let j = choose|j: int| 0 <= j < prev.len() && qualifies(#[trigger] prev[j], e, k) && prev[j] == c;
            assert(all[j] == c);
        }
    }
}

/// One offer keeps the audio-only entry's property.
proof fn lemma_audio_step(slot: Option<FileFormat>, prev: Seq<FileFormat>, f: FileFormat)
    requires
        audio_is_best(slot, prev),
    ensures
        audio_is_best(
            if f.file_encoding == FileEncoding::AudioOnly {
                keep_larger(slot, f)
            } else {
                slot
            },
            prev.push(f),
        ),
{
    let all = prev.push(f);
    let n = prev.len() as int;
    assert(all[n] == f);
    assert(forall|i: int| 0 <= i < n ==> #[trigger] all[i] == prev[i]);
    let next = if f.file_encoding == FileEncoding::AudioOnly {
        keep_larger(slot, f)
    } else {
        slot
    };
    if let Some(h) = next {
        assert forall|i: int|
            0 <= i < all.len() && (#[trigger] all[i]).file_encoding
                == FileEncoding::AudioOnly implies !size_lt(h.file_size, all[i].file_size) by {
            lemma_size_order(h.file_size, all[i].file_size, all[i].file_size);
            if let Some(c) = slot {
                lemma_size_order(c.file_size, f.file_size, all[i].file_size);
            }
        }
    }
    if f.file_encoding == FileEncoding::AudioOnly {
        assert(all[n].file_encoding == FileEncoding::AudioOnly);
        if let Some(c) = slot {
            let j = choose|j: int|
                0 <= j < prev.len() && (#[trigger] prev[j]).file_encoding == FileEncoding::AudioOnly
                    && prev[j] == c;
            assert(all[j] == c);
        }
    } else {
        if exists|i: int| 0 <= i < all.len() && (#[trigger] all[i]).file_encoding == FileEncoding::AudioOnly {
            let i = choose|i: int|
                0 <= i < all.len() && (#[trigger] all[i]).file_encoding == FileEncoding::AudioOnly;
            assert(prev[i] == all[i]);
        }
        if let Some(c) = slot {
            let j = choose|j: int|
                0 <= j < prev.len() && (#[trigger] prev[j]).file_encoding == FileEncoding::AudioOnly
                    && prev[j] == c;
            assert(all[j] == c);
        }
    }
}

/// The best variant per key.
pub struct BestFormats {
    video_and_audio: Vec<Option<FileFormat>>,
    video_only: Vec<Option<FileFormat>>,
    audio_only: Option<FileFormat>,
}

impl View for BestFormats {
    type V = Selection;

    closed spec fn view(&self) -> Selection {
        Selection {
            video_and_audio: self.video_and_audio@,
            video_only: self.video_only@,
            audio_only: self.audio_only,
        }
    }
}

/// Offers `f` to a slot, keeping the larger.
fn offer_to_slot(slot: &Option<FileFormat>, f: &FileFormat) -> (r: Option<FileFormat>)
    ensures
        r == keep_larger(*slot, *f),
{
    match slot {
        None => Some(f.duplicate()),
        Some(c) => if c.file_size.is_smaller_than(&f.file_size) {
            Some(f.duplicate())
        } else {
            Some(c.duplicate())
        },
    }
}

/// One empty slot per tier.
fn empty_slots() -> (r: Vec<Option<FileFormat>>)
    ensures
        r@ == Seq::new(9, |i: int| None::<FileFormat>),
{
    let mut v: Vec<Option<FileFormat>> = Vec::new();
    let mut i: usize = 0;
    while i < 9
        invariant
            i <= 9,
            v@ == Seq::new(i as nat, |j: int| None::<FileFormat>),
        decreases 9 - i,
    {
        v.push(None);
        i = i + 1;
        proof {
            assert(v@ =~= Seq::new(i as nat, |j: int| None::<FileFormat>));
        }
    }
    v
}

impl BestFormats {
    /// One slot per tier in each category with tiers.
    pub closed spec fn wf(&self) -> bool {
        self.video_and_audio@.len() == 9 && self.video_only@.len() == 9
    }

    /// An empty selection.
    pub fn new() -> (r: BestFormats)
        ensures
            r@ == empty_selection(),
            r.wf(),
    {
        BestFormats { video_and_audio: empty_slots(), video_only: empty_slots(), audio_only: None }
    }

    /// Offers one more variant.
    pub fn offer(&mut self, f: &FileFormat)
        requires
            old(self).wf(),
        ensures
            final(self).wf(),
            final(self)@ == offer(old(self)@, *f),
    {
        match f.file_encoding {
            FileEncoding::VideoAndAudio => {
                if let Some(r) = f.resolution {
                    let k = r.index();
                    let next = offer_to_slot(&self.video_and_audio[k], f);
                    self.video_and_audio.set(k, next);
                }
            },
            FileEncoding::VideoOnly => {
                if let Some(r) = f.resolution {
                    let k = r.index();
                    let next = offer_to_slot(&self.video_only[k], f);
                    self.video_only.set(k, next);
                }
            },
            FileEncoding::AudioOnly => {
                let next = offer_to_slot(&self.audio_only, f);
                self.audio_only = next;
            },
            _ => {},
        }
    }

    /// Selects the best variant per key from a catalog's variants, in one pass.
    pub fn from_formats(formats: &Vec<FileFormat>) -> (r: BestFormats)
        ensures
            r.wf(),
            r@ == select(formats@),
    {
        let mut best = BestFormats::new();
        let mut i: usize = 0;
        while i < formats.len()
            invariant
                i <= formats@.len(),
                best.wf(),
                best@ == select(formats@.subrange(0, i as int)),
            decreases formats@.len() - i,
        {
            proof {
                let prefix = formats@.subrange(0, i + 1);
                assert(prefix.drop_last() == formats@.subrange(0, i as int));
                assert(prefix.last() == formats@[i as int]);
            }
            best.offer(&formats[i]);
            i = i + 1;
        }
        proof {
            assert(formats@.subrange(0, formats@.len() as int) == formats@);
        }
        best
    }

    /// The best combined variant at tier `r`, if any.
    pub fn video_and_audio(&self, r: Resolution) -> (out: Option<FileFormat>)
        requires
            self.wf(),
        ensures
            out == self@.video_and_audio[r.rank() as int],
    {
        match &self.video_and_audio[r.index()] {
            Some(f) => Some(f.duplicate()),
            None => None,
        }
    }

    /// The best video-only variant at tier `r`, if any.
    pub fn video_only(&self, r: Resolution) -> (out: Option<FileFormat>)
        requires
            self.wf(),
        ensures
            out == self@.video_only[r.rank() as int],
    {
        match &self.video_only[r.index()] {
            Some(f) => Some(f.duplicate()),
            None => None,
        }
    }

    /// The best audio-only variant, if any.
    pub fn audio_only(&self) -> (out: Option<FileFormat>)
        ensures
            out == self@.audio_only,
    {
        match &self.audio_only {
            Some(f) => Some(f.duplicate()),
            None => None,
        }
    }
}

} // verus!
