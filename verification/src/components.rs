//! The components that the mining handler reads and writes.

use vstd::prelude::*;
use vstd::string::StringExecFns;

verus! {

/// An extraction job in progress: the time left and the resource path of the
/// deposit it draws from. The time left is `remaining_ms` whole milliseconds
/// and, beyond them, less than one more: `remaining_part` stands for that
/// part of a millisecond on the embedding's scale, and is zero where there is
/// none. A tick takes whole milliseconds, so it never changes the part but by
/// emptying the timer.
#[derive(Debug, PartialEq, Eq)]
pub struct MiningExtractor {
    pub remaining_ms: u64,
    pub remaining_part: u64,
    pub target: String,
}

/// What a `MiningExtractor` holds, as mathematical values.
pub struct ExtractorView {
    pub remaining_ms: nat,
    pub remaining_part: u64,
    pub target: Seq<char>,
}

impl View for MiningExtractor {
    type V = ExtractorView;

    open spec fn view(&self) -> ExtractorView {
        ExtractorView {
            remaining_ms: self.remaining_ms as nat,
            remaining_part: self.remaining_part,
            target: self.target@,
        }
    }
}

impl Clone for MiningExtractor {
    fn clone(&self) -> (copy: Self)
        ensures
            copy == *self,
    {
        MiningExtractor {
            remaining_ms: self.remaining_ms,
            remaining_part: self.remaining_part,
            target: self.target.clone(),
        }
    }
}

/// Whether any time is left on an extractor's timer.
pub open spec fn spec_time_left(extractor: ExtractorView) -> bool {
    extractor.remaining_ms > 0 || extractor.remaining_part > 0
}

impl MiningExtractor {
    /// Whether any time is left on the timer.
    pub fn time_left(&self) -> (left: bool)
        ensures
            left == spec_time_left(self@),
    {
        self.remaining_ms > 0 || self.remaining_part > 0
    }
}

/// An extractable deposit. Its payload is carried as it is and never read.
#[derive(Debug, PartialEq, Eq)]
pub struct MiningResource {
    pub payload: String,
}

impl View for MiningResource {
    type V = Seq<char>;

    open spec fn view(&self) -> Seq<char> {
        self.payload@
    }
}

impl Clone for MiningResource {
    fn clone(&self) -> (copy: Self)
        ensures
            copy == *self,
    {
        MiningResource { payload: self.payload.clone() }
    }
}

/// How an asteroid shows on other entities' displays.
#[derive(Debug, PartialEq, Eq)]
pub struct RadarTransponder {
    pub color: String,
    pub display_name: String,
    pub object_type: String,
}

/// What a `RadarTransponder` holds, as mathematical values.
pub struct TransponderView {
    pub color: Seq<char>,
    pub display_name: Seq<char>,
    pub object_type: Seq<char>,
}

impl View for RadarTransponder {
    type V = TransponderView;

    open spec fn view(&self) -> TransponderView {
        TransponderView {
            color: self.color@,
            display_name: self.display_name@,
            object_type: self.object_type@,
        }
    }
}

impl Clone for RadarTransponder {
    fn clone(&self) -> (copy: Self)
        ensures
            copy == *self,
    {
        RadarTransponder {
            color: self.color.clone(),
            display_name: self.display_name.clone(),
            object_type: self.object_type.clone(),
        }
    }
}

/// The whole milliseconds left after `elapsed_ms` more: never below zero.
pub open spec fn spec_remaining_after(remaining_ms: nat, elapsed_ms: nat) -> nat {
    if remaining_ms >= elapsed_ms {
        (remaining_ms - elapsed_ms) as nat
    } else {
        0
    }
}

/// An extractor after a tick of `elapsed_ms`: the time left is what it was
/// less the tick, and nothing where the tick is longer than that. A tick of
/// no more than the whole milliseconds left leaves the part beyond them; a
/// longer one empties the timer.
pub open spec fn spec_update_extractor(extractor: ExtractorView, elapsed_ms: nat) -> ExtractorView {
    ExtractorView {
        remaining_ms: spec_remaining_after(extractor.remaining_ms, elapsed_ms),
        remaining_part: if extractor.remaining_ms >= elapsed_ms {
            extractor.remaining_part
        } else {
            0
        },
        target: extractor.target,
    }
}

/// Takes `elapsed_ms` off the extractor's timer, stopping at zero.
pub fn update_extractor(extractor: MiningExtractor, elapsed_ms: u32) -> (updated: MiningExtractor)
    ensures
        updated@ == spec_update_extractor(extractor@, elapsed_ms as nat),
{
    let elapsed: u64 = elapsed_ms.into();
    if extractor.remaining_ms >= elapsed {
        MiningExtractor {
            remaining_ms: extractor.remaining_ms - elapsed,
            remaining_part: extractor.remaining_part,
            target: extractor.target,
        }
    } else {
        MiningExtractor { remaining_ms: 0, remaining_part: 0, target: extractor.target }
    }
}

/// The transponder of a depleted asteroid: grey, marked as depleted behind its
/// name, of the kind it was.
pub open spec fn spec_deplete_transponder(old_tp: TransponderView) -> TransponderView {
    TransponderView {
        color: "#A9A9A9"@,
        display_name: old_tp.display_name + " (depleted)"@,
        object_type: old_tp.object_type,
    }
}

/// The transponder that replaces `old_tp` once its asteroid is mined out.
pub fn deplete_transponder(old_tp: &RadarTransponder) -> (new_tp: RadarTransponder)
    ensures
        new_tp@ == spec_deplete_transponder(old_tp@),
{
    let mut display_name = old_tp.display_name.clone();
    display_name.append(" (depleted)");
    RadarTransponder {
        color: String::from_str("#A9A9A9"),
        display_name,
        object_type: old_tp.object_type.clone(),
    }
}

} // verus!
