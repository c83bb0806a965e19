//! The option scanner behind `MpvArgs::parse_from`.
//!
//! Scanning turns the argument list into entries in argument order. Every
//! option is recognized, validated and typed here, except the three whose
//! value is a floating-point number (`--volume`, `--speed`, `--start`): those
//! are handed on as [`ScanEntry::Number`] with their option name and raw
//! value, so that the caller can read the number and finish the entry with
//! [`crate::cli::check_speed`], [`crate::cli::timecode_fields`] and
//! [`crate::cli::check_time`]. Scanning stops at the first error; the entries
//! before it are kept, so a caller that reads the numbers in order reports
//! the same first error as a single left-to-right pass would.

use vstd::prelude::*;
use crate::cli::{
    MpvArg, MpvArgView, geometry_spec, is_option, is_option_spec, loop_mode_spec, parse_geometry,
    parse_loop_mode, parse_path, path_spec, split_option, split_option_spec,
};
use crate::error::{CoreError, CoreErrorView};
use crate::text::{chars_of, lowercase, same_text, strip_dashes, string_of, to_lowercase};

verus! {

/// The options whose value is a floating-point number.
#[derive(Debug, Clone, Copy, PartialEq, Eq, Structural)]
pub enum NumberOption {
    /// `--volume`.
    Volume,
    /// `--speed`.
    Speed,
    /// `--start`.
    Start,
}

/// What a normalized option name selects.
#[derive(Debug, Clone, Copy, PartialEq, Eq, Structural)]
pub enum OptionKind {
    Volume,
    Speed,
    Start,
    LoopFile,
    SubFile,
    AudioFile,
    Geometry,
    Config,
    NoVideo,
    Fullscreen,
    OnTop,
    /// Any option PlayBack does not type; it is forwarded to mpv.
    Other,
}

/// One scanned argument (or option with its value).
#[derive(Debug, Clone, PartialEq)]
pub enum ScanEntry {
    /// A media file or URL.
    Media(String),
    /// The Lua configuration path given by `--config`.
    Config(String),
    /// A complete typed action.
    Action(MpvArg),
    /// A floating-point option whose value still has to be read.
    Number {
        /// Which option.
        kind: NumberOption,
        /// The option as written (before `=`), for error messages.
        option: String,
        /// The raw value.
        value: String,
    },
}

/// The view of a [`ScanEntry`].
pub enum ScanEntryView {
    Media(Seq<char>),
    Config(Seq<char>),
    Action(MpvArgView),
    Number { kind: NumberOption, option: Seq<char>, value: Seq<char> },
}

impl View for ScanEntry {
    type V = ScanEntryView;

    open spec fn view(&self) -> ScanEntryView {
        match self {
            ScanEntry::Media(p) => ScanEntryView::Media(p@),
            ScanEntry::Config(p) => ScanEntryView::Config(p@),
            ScanEntry::Action(a) => ScanEntryView::Action(a@),
            ScanEntry::Number { kind, option, value } => ScanEntryView::Number {
                kind: *kind,
                option: option@,
                value: value@,
            },
        }
    }
}

/// The result of scanning an argument list.
#[derive(Debug, Clone, PartialEq)]
pub struct ScannedArgs {
    /// The entries in argument order, up to the first error.
    pub entries: Vec<ScanEntry>,
    /// The first error, if scanning stopped at one.
    pub error: Option<CoreError>,
}

/// The view of [`ScannedArgs`].
pub struct ScanView {
    pub entries: Seq<ScanEntryView>,
    pub error: Option<CoreErrorView>,
}

/// The views of a sequence of entries.
pub open spec fn entries_view(entries: Seq<ScanEntry>) -> Seq<ScanEntryView> {
    entries.map_values(|e: ScanEntry| e@)
}

/// The views of a sequence of strings.
pub open spec fn texts_view(texts: Seq<String>) -> Seq<Seq<char>> {
    texts.map_values(|t: String| t@)
}

impl View for ScannedArgs {
    type V = ScanView;

    open spec fn view(&self) -> ScanView {
        ScanView {
            entries: entries_view(self.entries@),
            error: match self.error {
                Some(e) => Some(e@),
                None => None,
            },
        }
    }
}

/// The name an option is matched by: leading dashes removed, ASCII lowercased.
pub open spec fn normalized_name(name: Seq<char>) -> Seq<char> {
    lowercase(strip_dashes(name))
}

/// The option a normalized name selects.
pub open spec fn option_kind(norm: Seq<char>) -> OptionKind {
    if norm == "volume"@ {
        OptionKind::Volume
    } else if norm == "speed"@ {
        OptionKind::Speed
    } else if norm == "start"@ {
        OptionKind::Start
    } else if norm == "loop-file"@ {
        OptionKind::LoopFile
    } else if norm == "sub-file"@ {
        OptionKind::SubFile
    } else if norm == "audio-file"@ {
        OptionKind::AudioFile
    } else if norm == "geometry"@ {
        OptionKind::Geometry
    } else if norm == "config"@ {
        OptionKind::Config
    } else if norm == "no-video"@ {
        OptionKind::NoVideo
    } else if norm == "fullscreen"@ {
        OptionKind::Fullscreen
    } else if norm == "ontop"@ {
        OptionKind::OnTop
    } else {
        OptionKind::Other
    }
}

/// Options that need a value (inline after `=`, or the next argument).
pub open spec fn takes_value(kind: OptionKind) -> bool {
    match kind {
        OptionKind::Volume | OptionKind::Speed | OptionKind::Start | OptionKind::LoopFile
        | OptionKind::SubFile | OptionKind::AudioFile | OptionKind::Geometry
        | OptionKind::Config => true,
        _ => false,
    }
}

/// The entry a value option produces from its value, or its error.
pub open spec fn value_entry(kind: OptionKind, name: Seq<char>, value: Seq<char>) -> Result<ScanEntryView, CoreErrorView> {
    match kind {
        OptionKind::Volume => Ok(ScanEntryView::Number { kind: NumberOption::Volume, option: name, value }),
        OptionKind::Speed => Ok(ScanEntryView::Number { kind: NumberOption::Speed, option: name, value }),
        OptionKind::Start => Ok(ScanEntryView::Number { kind: NumberOption::Start, option: name, value }),
        OptionKind::LoopFile => match loop_mode_spec(name, value) {
            Ok(m) => Ok(ScanEntryView::Action(MpvArgView::LoopFile(m))),
            Err(e) => Err(e),
        },
        OptionKind::SubFile => match path_spec(name, value) {
            Ok(p) => Ok(ScanEntryView::Action(MpvArgView::SubFile(p))),
            Err(e) => Err(e),
        },
        OptionKind::AudioFile => match path_spec(name, value) {
            Ok(p) => Ok(ScanEntryView::Action(MpvArgView::AudioFile(p))),
            Err(e) => Err(e),
        },
        OptionKind::Geometry => match geometry_spec(name, value) {
            Ok(g) => Ok(ScanEntryView::Action(MpvArgView::Geometry(g))),
            Err(e) => Err(e),
        },
        _ => match path_spec(name, value) {
            Ok(p) => Ok(ScanEntryView::Config(p)),
            Err(e) => Err(e),
        },
    }
}

/// The entry an option without a value produces. Unknown options become a
/// property when they carry `=value` and a flag otherwise.
pub open spec fn bare_entry(kind: OptionKind, norm: Seq<char>, inline: Option<Seq<char>>) -> ScanEntryView {
    match kind {
        OptionKind::NoVideo => ScanEntryView::Action(MpvArgView::NoVideo),
        OptionKind::Fullscreen => ScanEntryView::Action(MpvArgView::Fullscreen),
        OptionKind::OnTop => ScanEntryView::Action(MpvArgView::OnTop),
        _ => match inline {
            Some(v) => ScanEntryView::Action(MpvArgView::Property { name: norm, value: v }),
            None => ScanEntryView::Action(MpvArgView::Flag(norm)),
        },
    }
}

/// `entry` followed by the scan `rest`.
pub open spec fn prepend(entry: ScanEntryView, rest: ScanView) -> ScanView {
    ScanView { entries: seq![entry] + rest.entries, error: rest.error }
}

/// A scan that stops at once with `error`.
pub open spec fn failed(error: CoreErrorView) -> ScanView {
    ScanView { entries: Seq::empty(), error: Some(error) }
}

/// Scanning `args` from index `i`, with option processing on or off (a `--`
/// turns it off).
pub open spec fn scan_from(args: Seq<Seq<char>>, i: int, options: bool) -> ScanView
    decreases args.len() - i,
{
    if i < 0 || i >= args.len() {
        ScanView { entries: Seq::empty(), error: None }
    } else {
        let a = args[i];
        if options && a == "--"@ {
            scan_from(args, i + 1, false)
        } else if options && is_option_spec(a) {
            let name = split_option_spec(a).0;
            let inline = split_option_spec(a).1;
            let norm = normalized_name(name);
            let kind = option_kind(norm);
            if takes_value(kind) {
                if inline is None && i + 1 >= args.len() {
                    failed(CoreErrorView::MissingValue { option: name })
                } else {
                    let value = match inline {
                        Some(v) => v,
                        None => args[i + 1],
                    };
                    let next = if inline is Some { i + 1 } else { i + 2 };
                    match value_entry(kind, name, value) {
                        Err(e) => failed(e),
                        Ok(entry) => prepend(entry, scan_from(args, next, true)),
                    }
                }
            } else {
                prepend(bare_entry(kind, norm, inline), scan_from(args, i + 1, true))
            }
        } else {
            prepend(ScanEntryView::Media(a), scan_from(args, i + 1, options))
        }
    }
}

/// Scanning a whole argument list (the executable name excluded).
pub open spec fn scan_spec(args: Seq<Seq<char>>) -> ScanView {
    scan_from(args, 0, true)
}

/// `entries` followed by the scan `rest`.
pub open spec fn prepend_all(entries: Seq<ScanEntryView>, rest: ScanView) -> ScanView {
    ScanView { entries: entries + rest.entries, error: rest.error }
}

/// `text.trim_start_matches('-')`.
pub fn trim_dashes(text: &str) -> (r: String)
    ensures
        r@ == strip_dashes(text@),
{
    let chars = chars_of(text);
    let mut i: usize = 0;
    assert(text@.skip(0) =~= text@);
    while i < chars.len() && chars[i] == '-'
        invariant
            chars@ == text@,
            i <= chars@.len(),
            strip_dashes(text@) == strip_dashes(text@.skip(i as int)),
        decreases chars@.len() - i,
    {
        assert(text@.skip(i as int).drop_first() =~= text@.skip(i + 1));
        i = i + 1;
    }
    let mut out: Vec<char> = Vec::new();
    let mut k: usize = i;
    while k < chars.len()
        invariant
            chars@ == text@,
            i <= k <= chars@.len(),
            out@ == text@.subrange(i as int, k as int),
        decreases chars@.len() - k,
    {
        out.push(chars[k]);
        k = k + 1;
        assert(out@ =~= text@.subrange(i as int, k as int));
    }
    assert(text@.subrange(i as int, chars@.len() as int) =~= text@.skip(i as int));
    string_of(&out)
}

/// The name an option is matched by.
pub fn normalize_name(name: &str) -> (r: String)
    ensures
        r@ == normalized_name(name@),
{
    let trimmed = trim_dashes(name);
    to_lowercase(trimmed.as_str())
}

/// The option a normalized name selects.
pub fn classify(norm: &str) -> (r: OptionKind)
    ensures
        r == option_kind(norm@),
{
    if same_text(norm, "volume") {
        OptionKind::Volume
    } else if same_text(norm, "speed") {
        OptionKind::Speed
    } else if same_text(norm, "start") {
        OptionKind::Start
    } else if same_text(norm, "loop-file") {
        OptionKind::LoopFile
    } else if same_text(norm, "sub-file") {
        OptionKind::SubFile
    } else if same_text(norm, "audio-file") {
        OptionKind::AudioFile
    } else if same_text(norm, "geometry") {
        OptionKind::Geometry
    } else if same_text(norm, "config") {
        OptionKind::Config
    } else if same_text(norm, "no-video") {
        OptionKind::NoVideo
    } else if same_text(norm, "fullscreen") {
        OptionKind::Fullscreen
    } else if same_text(norm, "ontop") {
        OptionKind::OnTop
    } else {
        OptionKind::Other
    }
}

/// The entry a value option produces from its value, or its error.
pub fn make_value_entry(kind: OptionKind, name: &str, value: String) -> (r: Result<ScanEntry, CoreError>)
    requires
        takes_value(kind),
    ensures
        match value_entry(kind, name@, value@) {
            Ok(e) => r matches Ok(x) && x@ == e,
            Err(e) => r matches Err(x) && x@ == e,
        },
{
    match kind {
        OptionKind::Volume => Ok(ScanEntry::Number { kind: NumberOption::Volume, option: name.to_owned(), value }),
        OptionKind::Speed => Ok(ScanEntry::Number { kind: NumberOption::Speed, option: name.to_owned(), value }),
        OptionKind::Start => Ok(ScanEntry::Number { kind: NumberOption::Start, option: name.to_owned(), value }),
        OptionKind::LoopFile => match parse_loop_mode(name, value.as_str()) {
            Ok(m) => Ok(ScanEntry::Action(MpvArg::LoopFile(m))),
            Err(e) => Err(e),
        },
        OptionKind::SubFile => match parse_path(name, value) {
            Ok(p) => Ok(ScanEntry::Action(MpvArg::SubFile(p))),
            Err(e) => Err(e),
        },
        OptionKind::AudioFile => match parse_path(name, value) {
            Ok(p) => Ok(ScanEntry::Action(MpvArg::AudioFile(p))),
            Err(e) => Err(e),
        },
        OptionKind::Geometry => match parse_geometry(name, value.as_str()) {
            Ok(g) => Ok(ScanEntry::Action(MpvArg::Geometry(g))),
            Err(e) => Err(e),
        },
        _ => match parse_path(name, value) {
            Ok(p) => Ok(ScanEntry::Config(p)),
            Err(e) => Err(e),
        },
    }
}

/// The entry an option without a value produces.
pub fn make_bare_entry(kind: OptionKind, norm: String, inline: Option<String>) -> (r: ScanEntry)
    ensures
        r@ == bare_entry(kind, norm@, match inline { Some(v) => Some(v@), None => None }),
{
    match kind {
        OptionKind::NoVideo => ScanEntry::Action(MpvArg::NoVideo),
        OptionKind::Fullscreen => ScanEntry::Action(MpvArg::Fullscreen),
        OptionKind::OnTop => ScanEntry::Action(MpvArg::OnTop),
        _ => match inline {
            Some(v) => ScanEntry::Action(MpvArg::Property { name: norm, value: v }),
            None => ScanEntry::Action(MpvArg::Flag(norm)),
        },
    }
}

/// Scans an argument list (the executable name excluded) into entries.
pub fn scan_arguments(arguments: &Vec<String>) -> (r: ScannedArgs)
    ensures
        r@ == scan_spec(texts_view(arguments@)),
{
    let ghost args = texts_view(arguments@);
    let mut entries: Vec<ScanEntry> = Vec::new();
    let mut options = true;
    let mut i: usize = 0;
    while i < arguments.len()
        invariant
            args == texts_view(arguments@),
            i <= arguments@.len(),
            scan_spec(args) == prepend_all(entries_view(entries@), scan_from(args, i as int, options)),
        decreases arguments@.len() - i,
    {
        let ghost before = entries_view(entries@);
        let argument = &arguments[i];
        assert(args[i as int] == argument@);
        if options && same_text(argument.as_str(), "--") {
            options = false;
            i = i + 1;
        } else if options && is_option(argument.as_str()) {
            let (name, inline) = split_option(argument.as_str());
            let norm = normalize_name(name.as_str());
            let kind = classify(norm.as_str());
            let takes = match kind {
                OptionKind::Volume | OptionKind::Speed | OptionKind::Start | OptionKind::LoopFile
                | OptionKind::SubFile | OptionKind::AudioFile | OptionKind::Geometry
                | OptionKind::Config => true,
                _ => false,
            };
            if takes {
                let has_inline = inline.is_some();
                if !has_inline && i + 1 >= arguments.len() {
                    let error = CoreError::MissingValue { option: name };
                    assert(entries_view(entries@) + Seq::<ScanEntryView>::empty() =~= entries_view(entries@));
                    return ScannedArgs { entries, error: Some(error) };
                }
                let value = match inline {
                    Some(v) => v,
                    None => arguments[i + 1].clone(),
                };
                proof {
                    if !has_inline {
                        assert(args[i + 1] == arguments@[i + 1]@);
                    }
                }
                match make_value_entry(kind, name.as_str(), value) {
                    Err(e) => {
                        assert(entries_view(entries@) + Seq::<ScanEntryView>::empty() =~= entries_view(entries@));
                        return ScannedArgs { entries, error: Some(e) };
                    },
                    Ok(entry) => {
                        let ghost ev = entry@;
                        entries.push(entry);
                        assert(entries_view(entries@) =~= before.push(ev));
                        i = if has_inline { i + 1 } else { i + 2 };
                        options = true;
                        assert forall|rest: Seq<ScanEntryView>| #![auto] before + (seq![ev] + rest) =~= before.push(ev) + rest by {}
                    },
                }
            } else {
                let entry = make_bare_entry(kind, norm, inline);
                let ghost ev = entry@;
                entries.push(entry);
                assert(entries_view(entries@) =~= before.push(ev));
                i = i + 1;
                assert forall|rest: Seq<ScanEntryView>| #![auto] before + (seq![ev] + rest) =~= before.push(ev) + rest by {}
            }
        } else {
            let entry = ScanEntry::Media(argument.clone());
            let ghost ev = entry@;
            entries.push(entry);
            assert(entries_view(entries@) =~= before.push(ev));
            i = i + 1;
            assert forall|rest: Seq<ScanEntryView>| #![auto] before + (seq![ev] + rest) =~= before.push(ev) + rest by {}
        }
    }
    assert(entries_view(entries@) + Seq::<ScanEntryView>::empty() =~= entries_view(entries@));
    ScannedArgs { entries, error: None }
}

} // verus!
