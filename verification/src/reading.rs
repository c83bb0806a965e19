//! Finishing a scanned command line once its floating-point values have
//! been read.
//!
//! The scanner leaves `--volume`, `--speed` and `--start` as
//! [`ScanEntry::Number`] entries. The caller reads each one's number (for
//! `--start`, each `:`-separated field, combined into seconds) and hands
//! the readings over in entry order; this module checks them and builds
//! the command line, reporting the first error in argument order.

use vstd::prelude::*;
use crate::cli::{
    MpvArg, MpvArgView, MpvArgs, MpvArgsView, args_of_entries, check_speed, check_time,
    speed_spec, time_spec, timecode_fields, timecode_fields_spec,
};
use crate::error::{CoreError, CoreErrorView, invalid};
use crate::float::Float64;
use crate::scan::{NumberOption, ScanEntry, ScanEntryView, ScanView, ScannedArgs, entries_view};

verus! {

/// What reading an option's number gave.
#[derive(Debug, Clone, PartialEq)]
pub enum Reading {
    /// The number (for `--start`, the fields combined into seconds).
    Number(Float64),
    /// The text that is not a number (for `--start`, the first such field).
    NotANumber(String),
}

/// The view of a [`Reading`].
pub enum ReadingView {
    Number(Float64),
    NotANumber(Seq<char>),
}

impl View for Reading {
    type V = ReadingView;

    open spec fn view(&self) -> ReadingView {
        match self {
            Reading::Number(f) => ReadingView::Number(*f),
            Reading::NotANumber(t) => ReadingView::NotANumber(t@),
        }
    }
}

/// The views of a list of readings.
pub open spec fn readings_view(readings: Seq<Reading>) -> Seq<ReadingView> {
    readings.map_values(|r: Reading| r@)
}

/// How many entries still wait for their number.
pub open spec fn number_count(entries: Seq<ScanEntryView>) -> nat
    decreases entries.len(),
{
    if entries.len() == 0 {
        0
    } else {
        number_count(entries.drop_last()) + if entries.last() is Number {
            1nat
        } else {
            0nat
        }
    }
}

/// The error for text that is not a floating-point number.
pub open spec fn not_a_number(option: Seq<char>, text: Seq<char>) -> CoreErrorView {
    invalid(option, text, "expected a floating-point number"@)
}

/// The entry a number entry becomes with its reading, or its error. A
/// timecode with the wrong number of fields is refused before its reading
/// is looked at.
pub open spec fn read_entry(kind: NumberOption, option: Seq<char>, value: Seq<char>, reading: ReadingView) -> Result<ScanEntryView, CoreErrorView> {
    match kind {
        NumberOption::Volume => match reading {
            ReadingView::Number(f) => Ok(ScanEntryView::Action(MpvArgView::Volume(f))),
            ReadingView::NotANumber(t) => Err(not_a_number(option, t)),
        },
        NumberOption::Speed => match reading {
            ReadingView::Number(f) => match speed_spec(option, value, f) {
                Ok(s) => Ok(ScanEntryView::Action(MpvArgView::Speed(s))),
                Err(e) => Err(e),
            },
            ReadingView::NotANumber(t) => Err(not_a_number(option, t)),
        },
        NumberOption::Start => match timecode_fields_spec(option, value) {
            Err(e) => Err(e),
            Ok(_) => match reading {
                ReadingView::Number(f) => match time_spec(option, value, f) {
                    Ok(s) => Ok(ScanEntryView::Action(MpvArgView::Start(s))),
                    Err(e) => Err(e),
                },
                ReadingView::NotANumber(t) => Err(not_a_number(option, t)),
            },
        },
    }
}

/// The entries with every number replaced by what its reading gives (the
/// `k`-th number entry taking the `k`-th reading), or the first error.
pub open spec fn complete(entries: Seq<ScanEntryView>, readings: Seq<ReadingView>) -> Result<Seq<ScanEntryView>, CoreErrorView>
    decreases entries.len(),
{
    if entries.len() == 0 {
        Ok(Seq::empty())
    } else {
        match complete(entries.drop_last(), readings) {
            Err(e) => Err(e),
            Ok(done) => match entries.last() {
                ScanEntryView::Number { kind, option, value } => match read_entry(
                    kind,
                    option,
                    value,
                    readings[number_count(entries.drop_last()) as int],
                ) {
                    Ok(entry) => Ok(done.push(entry)),
                    Err(e) => Err(e),
                },
                other => Ok(done.push(other)),
            },
        }
    }
}

/// The command line a scan and its readings give: the first error among
/// the read entries, else the scan's own error, else the collected entries.
/// (A scan stops at its error, so every entry comes before it.)
pub open spec fn finish_spec(scan: ScanView, readings: Seq<ReadingView>) -> Result<MpvArgsView, CoreErrorView> {
    match complete(scan.entries, readings) {
        Err(e) => Err(e),
        Ok(done) => match scan.error {
            Some(e) => Err(e),
            None => Ok(args_of_entries(done)),
        },
    }
}

/// The entry a number entry becomes with its reading, or its error.
pub fn read_number_entry(kind: NumberOption, option: &str, value: &str, reading: &Reading) -> (r: Result<ScanEntry, CoreError>)
    ensures
        match read_entry(kind, option@, value@, reading@) {
            Ok(e) => r matches Ok(x) && x@ == e,
            Err(e) => r matches Err(x) && x@ == e,
        },
{
    match kind {
        NumberOption::Volume => match reading {
            Reading::Number(f) => Ok(ScanEntry::Action(MpvArg::Volume(*f))),
            Reading::NotANumber(t) => Err(CoreError::invalid_number(option, t.as_str())),
        },
        NumberOption::Speed => match reading {
            Reading::Number(f) => match check_speed(option, value, *f) {
                Ok(s) => Ok(ScanEntry::Action(MpvArg::Speed(s))),
                Err(e) => Err(e),
            },
            Reading::NotANumber(t) => Err(CoreError::invalid_number(option, t.as_str())),
        },
        NumberOption::Start => match timecode_fields(option, value) {
            Err(e) => Err(e),
            Ok(_) => match reading {
                Reading::Number(f) => match check_time(option, value, *f) {
                    Ok(s) => Ok(ScanEntry::Action(MpvArg::Start(s))),
                    Err(e) => Err(e),
                },
                Reading::NotANumber(t) => Err(CoreError::invalid_number(option, t.as_str())),
            },
        },
    }
}

/// A copy of an entry that has no number to read.
fn copy_entry(entry: &ScanEntry) -> (r: ScanEntry)
    requires
        !(entry@ is Number),
    ensures
        r@ == entry@,
{
    match entry {
        ScanEntry::Media(p) => ScanEntry::Media(p.clone()),
        ScanEntry::Config(p) => ScanEntry::Config(p.clone()),
        ScanEntry::Action(a) => ScanEntry::Action(a.clone_arg()),
        ScanEntry::Number { kind, option, value } => ScanEntry::Number {
            kind: *kind,
            option: option.clone(),
            value: value.clone(),
        },
    }
}

impl MpvArgs {
    /// Finishes a scanned command line with the readings of its numbers, in
    /// entry order.
    pub fn finish(scanned: ScannedArgs, readings: &Vec<Reading>) -> (r: Result<MpvArgs, CoreError>)
        requires
            readings@.len() == number_count(entries_view(scanned.entries@)),
        ensures
            match finish_spec(scanned@, readings_view(readings@)) {
                Ok(a) => r matches Ok(x) && x@ == a,
                Err(e) => r matches Err(x) && x@ == e,
            },
    {
        let ghost all = entries_view(scanned.entries@);
        let ghost reads = readings_view(readings@);
        let count = readings.len();
        let mut done: Vec<ScanEntry> = Vec::new();
        let mut k: usize = 0;
        let mut i: usize = 0;
        assert(all.take(0) =~= Seq::<ScanEntryView>::empty());
        assert(entries_view(done@) =~= Seq::<ScanEntryView>::empty());
        while i < scanned.entries.len()
            invariant
                all == entries_view(scanned.entries@),
                reads == readings_view(readings@),
                readings@.len() == number_count(all),
                count == readings@.len(),
                i <= all.len(),
                k == number_count(all.take(i as int)),
                complete(all.take(i as int), reads) == Ok::<Seq<ScanEntryView>, CoreErrorView>(entries_view(done@)),
            decreases all.len() - i,
        {
            let ghost prefix = all.take(i as int);
            assert(all.take(i + 1).drop_last() =~= prefix);
            assert(all.take(i + 1).last() == scanned.entries@[i as int]@);
            proof {
                lemma_count_prefix(all, i as int + 1);
            }
            let ghost before = entries_view(done@);
            match &scanned.entries[i] {
                ScanEntry::Number { kind, option, value } => {
                    assert(number_count(all.take(i + 1)) == k + 1);
                    assert(reads[k as int] == readings@[k as int]@);
                    match read_number_entry(*kind, option.as_str(), value.as_str(), &readings[k]) {
                        Err(e) => {
                            proof {
                                lemma_complete_fails(all, reads, i as int + 1);
                            }
                            return Err(e);
                        },
                        Ok(entry) => {
                            let ghost ev = entry@;
                            done.push(entry);
                            assert(entries_view(done@) =~= before.push(ev));
                            k = k + 1;
                        },
                    }
                },
                other => {
                    let entry = copy_entry(other);
                    let ghost ev = entry@;
                    done.push(entry);
                    assert(entries_view(done@) =~= before.push(ev));
                },
            }
            i = i + 1;
        }
        assert(all.take(all.len() as int) =~= all);
        match scanned.error {
            Some(e) => Err(e),
            None => Ok(MpvArgs::from_entries(&done)),
        }
    }
}

/// A prefix holds no more number entries than the whole.
proof fn lemma_count_prefix(all: Seq<ScanEntryView>, n: int)
    requires
        0 <= n <= all.len(),
    ensures
        number_count(all.take(n)) <= number_count(all),
    decreases all.len() - n,
{
    if n < all.len() {
        lemma_count_prefix(all, n + 1);
        assert(all.take(n + 1).drop_last() =~= all.take(n));
    } else {
        assert(all.take(n) =~= all);
    }
}

/// Once completing a prefix fails, completing every longer prefix fails
/// the same way.
proof fn lemma_complete_fails(all: Seq<ScanEntryView>, reads: Seq<ReadingView>, n: int)
    requires
        0 <= n <= all.len(),
        complete(all.take(n), reads) is Err,
    ensures
        complete(all, reads) == complete(all.take(n), reads),
    decreases all.len() - n,
{
    if n < all.len() {
        assert(all.take(n + 1).drop_last() =~= all.take(n));
        lemma_complete_fails(all, reads, n + 1);
    } else {
        assert(all.take(n) =~= all);
    }
}

} // verus!
