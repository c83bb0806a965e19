//! mpv-compatible command-line parsing: typed values and primitive parsers.
//!
//! Unknown options are retained as typed properties or flags so the parser
//! remains forward-compatible with mpv while common PlayBack options are
//! validated at the process boundary.

use vstd::prelude::*;
use crate::error::{CoreError, CoreErrorView, invalid};
use crate::float::{Float64, is_nonnegative_finite, is_positive_finite};
use crate::state::Seconds;
use crate::scan::{ScanEntry, ScanEntryView, entries_view, texts_view};
use crate::text::{
    blank, chars_of, concat, decimal, decimal_string, is_blank, lowercase, parse_u32,
    parse_u32_spec, same_text, split, split_once, split_once_spec, split_spec, to_lowercase,
};

verus! {

/// A validated window geometry.
#[derive(Debug, Clone, Copy, PartialEq, Eq, Structural)]
pub struct WindowGeometry {
    /// Window width in pixels.
    pub width: u32,
    /// Window height in pixels.
    pub height: u32,
}

/// The loop behavior for one media file.
#[derive(Debug, Clone, Copy, PartialEq, Eq, Structural)]
pub enum LoopMode {
    /// Do not repeat the file.
    Once,
    /// Repeat the file forever.
    Infinite,
    /// Repeat the file a fixed number of times.
    Count(u32),
}

/// A single typed media-player action.
///
/// Unknown mpv options are retained as [`MpvArg::Property`] or
/// [`MpvArg::Flag`] so callers can forward them to the active backend.
#[derive(Debug, Clone, PartialEq)]
pub enum MpvArg {
    /// Set the mpv `volume` property.
    Volume(Float64),
    /// Set the mpv `speed` property.
    Speed(Float64),
    /// Seek to an absolute position after loading.
    Start(Seconds),
    /// Configure looping for the current file.
    LoopFile(LoopMode),
    /// Add an external subtitle file.
    SubFile(String),
    /// Add an external audio track.
    AudioFile(String),
    /// Disable video output.
    NoVideo,
    /// Start in fullscreen mode.
    Fullscreen,
    /// Keep the player window above other windows.
    OnTop,
    /// Set the initial window geometry.
    Geometry(WindowGeometry),
    /// Set an arbitrary mpv property.
    Property {
        /// The property name without leading dashes.
        name: String,
        /// The raw property value.
        value: String,
    },
    /// Forward a boolean or valueless mpv option.
    Flag(String),
}

/// The view of an [`MpvArg`].
pub enum MpvArgView {
    Volume(Float64),
    Speed(Float64),
    Start(Seconds),
    LoopFile(LoopMode),
    SubFile(Seq<char>),
    AudioFile(Seq<char>),
    NoVideo,
    Fullscreen,
    OnTop,
    Geometry(WindowGeometry),
    Property { name: Seq<char>, value: Seq<char> },
    Flag(Seq<char>),
}

impl View for MpvArg {
    type V = MpvArgView;

    open spec fn view(&self) -> MpvArgView {
        match self {
            MpvArg::Volume(v) => MpvArgView::Volume(*v),
            MpvArg::Speed(v) => MpvArgView::Speed(*v),
            MpvArg::Start(v) => MpvArgView::Start(*v),
            MpvArg::LoopFile(m) => MpvArgView::LoopFile(*m),
            MpvArg::SubFile(p) => MpvArgView::SubFile(p@),
            MpvArg::AudioFile(p) => MpvArgView::AudioFile(p@),
            MpvArg::NoVideo => MpvArgView::NoVideo,
            MpvArg::Fullscreen => MpvArgView::Fullscreen,
            MpvArg::OnTop => MpvArgView::OnTop,
            MpvArg::Geometry(g) => MpvArgView::Geometry(*g),
            MpvArg::Property { name, value } => MpvArgView::Property { name: name@, value: value@ },
            MpvArg::Flag(n) => MpvArgView::Flag(n@),
        }
    }
}

/// `argument.len() > 1 && argument.starts_with('-')`.
pub open spec fn is_option_spec(argument: Seq<char>) -> bool {
    argument.len() > 1 && argument[0] == '-'
}

/// The option name before the first `=`, and the inline value after it.
pub open spec fn split_option_spec(argument: Seq<char>) -> (Seq<char>, Option<Seq<char>>) {
    match split_once_spec(argument, '=') {
        Some((name, value)) => (name, Some(value)),
        None => (argument, None),
    }
}

/// What `--loop-file` accepts.
pub open spec fn loop_mode_spec(option: Seq<char>, value: Seq<char>) -> Result<LoopMode, CoreErrorView> {
    let lower = lowercase(value);
    if lower == "inf"@ || lower == "infinite"@ {
        Ok(LoopMode::Infinite)
    } else if lower == "no"@ || lower == "none"@ || lower == "0"@ {
        Ok(LoopMode::Once)
    } else {
        match parse_u32_spec(value) {
            Some(n) => Ok(LoopMode::Count(n)),
            None => Err(invalid(option, value, "expected `inf`, `no`, or a non-negative integer"@)),
        }
    }
}

/// What `--geometry` accepts: `WIDTHxHEIGHT` with two positive integers.
pub open spec fn geometry_spec(option: Seq<char>, value: Seq<char>) -> Result<WindowGeometry, CoreErrorView> {
    match split_once_spec(value, 'x') {
        None => Err(invalid(option, value, "expected WIDTHxHEIGHT"@)),
        Some((w, h)) => match parse_u32_spec(w) {
            None => Err(invalid(option, value, "width must be a positive integer"@)),
            Some(width) => match parse_u32_spec(h) {
                None => Err(invalid(option, value, "height must be a positive integer"@)),
                Some(height) => if width == 0 || height == 0 {
                    Err(invalid(option, value, "width and height must be greater than zero"@))
                } else {
                    Ok(WindowGeometry { width, height })
                },
            },
        },
    }
}

/// What a path option accepts: anything but blank text.
pub open spec fn path_spec(option: Seq<char>, value: Seq<char>) -> Result<Seq<char>, CoreErrorView> {
    if is_blank(value) {
        Err(invalid(option, value, "path must not be empty"@))
    } else {
        Ok(value)
    }
}

/// The `:`-separated fields of a timecode: one to three of them.
pub open spec fn timecode_fields_spec(option: Seq<char>, value: Seq<char>) -> Result<Seq<Seq<char>>, CoreErrorView> {
    let parts = split_spec(value, ':');
    if 1 <= parts.len() <= 3 {
        Ok(parts)
    } else {
        Err(invalid(option, value, "expected seconds, MM:SS, or HH:MM:SS"@))
    }
}

/// A combined timecode must be finite and non-negative.
pub open spec fn time_spec(option: Seq<char>, value: Seq<char>, seconds: Float64) -> Result<Seconds, CoreErrorView> {
    if is_nonnegative_finite(seconds.bits) {
        Ok(Seconds(seconds))
    } else {
        Err(invalid(option, value, "time must be finite and non-negative"@))
    }
}

/// A speed must be finite and positive.
pub open spec fn speed_spec(option: Seq<char>, value: Seq<char>, speed: Float64) -> Result<Float64, CoreErrorView> {
    if is_positive_finite(speed.bits) {
        Ok(speed)
    } else {
        Err(invalid(option, value, "speed must be a finite positive number"@))
    }
}

/// The view of a parse result.
pub open spec fn result_view<T, U: View>(r: Result<T, U>) -> Result<T, U::V> {
    match r {
        Ok(t) => Ok(t),
        Err(e) => Err(e@),
    }
}

/// Whether `argument` is an option (`-x`, `--name`, ...).
pub fn is_option(argument: &str) -> (r: bool)
    ensures
        r == is_option_spec(argument@),
{
    let chars = chars_of(argument);
    chars.len() > 1 && chars[0] == '-'
}

/// Splits `--name=value` into the name and the inline value.
pub fn split_option(argument: &str) -> (r: (String, Option<String>))
    ensures
        r.0@ == split_option_spec(argument@).0,
        match split_option_spec(argument@).1 {
            Some(v) => r.1 matches Some(x) && x@ == v,
            None => r.1 is None,
        },
{
    match split_once(argument, '=') {
        Some((name, value)) => (name, Some(value)),
        None => (argument.to_owned(), None),
    }
}

/// Parses `inf`, `no`, or a non-negative repeat count.
pub fn parse_loop_mode(option: &str, value: &str) -> (r: Result<LoopMode, CoreError>)
    ensures
        result_view(r) == loop_mode_spec(option@, value@),
{
    let lower = to_lowercase(value);
    let l = lower.as_str();
    if same_text(l, "inf") || same_text(l, "infinite") {
        Ok(LoopMode::Infinite)
    } else if same_text(l, "no") || same_text(l, "none") || same_text(l, "0") {
        Ok(LoopMode::Once)
    } else {
        match parse_u32(value) {
            Some(n) => Ok(LoopMode::Count(n)),
            None => Err(
                CoreError::invalid_value(
                    option,
                    value,
                    "expected `inf`, `no`, or a non-negative integer",
                ),
            ),
        }
    }
}

/// Parses a geometry in mpv's `WIDTHxHEIGHT` form.
pub fn parse_geometry(option: &str, value: &str) -> (r: Result<WindowGeometry, CoreError>)
    ensures
        result_view(r) == geometry_spec(option@, value@),
{
    match split_once(value, 'x') {
        None => Err(CoreError::invalid_value(option, value, "expected WIDTHxHEIGHT")),
        Some((w, h)) => match parse_u32(w.as_str()) {
            None => Err(CoreError::invalid_value(option, value, "width must be a positive integer")),
            Some(width) => match parse_u32(h.as_str()) {
                None => Err(
                    CoreError::invalid_value(option, value, "height must be a positive integer"),
                ),
                Some(height) => {
                    if width == 0 || height == 0 {
                        Err(
                            CoreError::invalid_value(
                                option,
                                value,
                                "width and height must be greater than zero",
                            ),
                        )
                    } else {
                        Ok(WindowGeometry { width, height })
                    }
                },
            },
        },
    }
}

/// Accepts a path unless it is blank.
pub fn parse_path(option: &str, value: String) -> (r: Result<String, CoreError>)
    ensures
        match path_spec(option@, value@) {
            Ok(p) => r matches Ok(x) && x@ == p,
            Err(e) => r matches Err(x) && x@ == e,
        },
{
    if blank(value.as_str()) {
        Err(CoreError::invalid_value(option, value.as_str(), "path must not be empty"))
    } else {
        Ok(value)
    }
}

/// Splits a timecode into its one to three `:`-separated fields.
pub fn timecode_fields(option: &str, value: &str) -> (r: Result<Vec<String>, CoreError>)
    ensures
        match timecode_fields_spec(option@, value@) {
            Ok(parts) => r matches Ok(x) && x@.len() == parts.len() && forall|k: int|
                0 <= k < parts.len() ==> #[trigger] x@[k]@ == parts[k],
            Err(e) => r matches Err(x) && x@ == e,
        },
{
    let parts = split(value, ':');
    if 1 <= parts.len() && parts.len() <= 3 {
        Ok(parts)
    } else {
        Err(CoreError::invalid_value(option, value, "expected seconds, MM:SS, or HH:MM:SS"))
    }
}

/// Accepts a combined timecode when it is finite and non-negative.
pub fn check_time(option: &str, value: &str, seconds: Float64) -> (r: Result<Seconds, CoreError>)
    ensures
        result_view(r) == time_spec(option@, value@, seconds),
{
    if seconds.is_nonnegative_finite() {
        Ok(Seconds(seconds))
    } else {
        Err(CoreError::invalid_value(option, value, "time must be finite and non-negative"))
    }
}

/// Accepts a speed when it is finite and positive.
pub fn check_speed(option: &str, value: &str, speed: Float64) -> (r: Result<Float64, CoreError>)
    ensures
        result_view(r) == speed_spec(option@, value@, speed),
{
    if speed.is_positive_finite() {
        Ok(speed)
    } else {
        Err(CoreError::invalid_value(option, value, "speed must be a finite positive number"))
    }
}

/// A parsed PlayBack command line.
#[derive(Debug, Clone, PartialEq)]
pub struct MpvArgs {
    /// Media files and URLs in playback order.
    pub media: Vec<String>,
    /// Typed options and commands to apply after media loading.
    pub actions: Vec<MpvArg>,
    /// An optional user-provided Lua configuration path.
    pub config: Option<String>,
}

/// The view of [`MpvArgs`].
pub struct MpvArgsView {
    pub media: Seq<Seq<char>>,
    pub actions: Seq<MpvArgView>,
    pub config: Option<Seq<char>>,
}

/// The views of a sequence of actions.
pub open spec fn actions_view(actions: Seq<MpvArg>) -> Seq<MpvArgView> {
    actions.map_values(|a: MpvArg| a@)
}

impl View for MpvArgs {
    type V = MpvArgsView;

    open spec fn view(&self) -> MpvArgsView {
        MpvArgsView {
            media: texts_view(self.media@),
            actions: actions_view(self.actions@),
            config: match self.config {
                Some(c) => Some(c@),
                None => None,
            },
        }
    }
}

/// The command line that a sequence of scanned entries describes: media in
/// order, actions in order, and the last `--config` path. Entries whose
/// number has not been read are not part of it.
pub open spec fn args_of_entries(entries: Seq<ScanEntryView>) -> MpvArgsView
    decreases entries.len(),
{
    if entries.len() == 0 {
        MpvArgsView { media: Seq::empty(), actions: Seq::empty(), config: None }
    } else {
        let before = args_of_entries(entries.drop_last());
        match entries.last() {
            ScanEntryView::Media(p) => MpvArgsView { media: before.media.push(p), ..before },
            ScanEntryView::Config(p) => MpvArgsView { config: Some(p), ..before },
            ScanEntryView::Action(a) => MpvArgsView { actions: before.actions.push(a), ..before },
            ScanEntryView::Number { .. } => before,
        }
    }
}

impl MpvArgs {
    /// Collects scanned entries into a command line.
    pub fn from_entries(entries: &Vec<ScanEntry>) -> (r: MpvArgs)
        ensures
            r@ == args_of_entries(entries_view(entries@)),
    {
        let mut media: Vec<String> = Vec::new();
        let mut actions: Vec<MpvArg> = Vec::new();
        let mut config: Option<String> = None;
        let mut i: usize = 0;
        assert(entries_view(entries@).take(0) =~= Seq::<ScanEntryView>::empty());
        assert(texts_view(media@) =~= Seq::<Seq<char>>::empty());
        assert(actions_view(actions@) =~= Seq::<MpvArgView>::empty());
        while i < entries.len()
            invariant
                i <= entries@.len(),
                (MpvArgs { media, actions, config })@ == args_of_entries(entries_view(entries@).take(i as int)),
            decreases entries@.len() - i,
        {
            let ghost prefix = entries_view(entries@).take(i as int);
            assert(entries_view(entries@).take(i + 1).drop_last() =~= prefix);
            match &entries[i] {
                ScanEntry::Media(p) => {
                    media.push(p.clone());
                    assert(texts_view(media@) =~= args_of_entries(prefix).media.push(p@));
                },
                ScanEntry::Config(p) => {
                    config = Some(p.clone());
                },
                ScanEntry::Action(a) => {
                    let ghost v = a@;
                    actions.push(a.clone_arg());
                    assert(actions_view(actions@) =~= args_of_entries(prefix).actions.push(v));
                },
                ScanEntry::Number { .. } => {},
            }
            i = i + 1;
        }
        assert(entries_view(entries@).take(entries@.len() as int) =~= entries_view(entries@));
        MpvArgs { media, actions, config }
    }

    /// Returns `true` when no media files were supplied.
    pub fn is_empty(&self) -> (r: bool)
        ensures
            r == (self.media@.len() == 0),
    {
        self.media.len() == 0
    }
}

impl MpvArg {
    /// A copy of this action.
    pub fn clone_arg(&self) -> (r: MpvArg)
        ensures
            r@ == self@,
    {
        match self {
            MpvArg::Volume(v) => MpvArg::Volume(*v),
            MpvArg::Speed(v) => MpvArg::Speed(*v),
            MpvArg::Start(v) => MpvArg::Start(*v),
            MpvArg::LoopFile(m) => MpvArg::LoopFile(*m),
            MpvArg::SubFile(p) => MpvArg::SubFile(p.clone()),
            MpvArg::AudioFile(p) => MpvArg::AudioFile(p.clone()),
            MpvArg::NoVideo => MpvArg::NoVideo,
            MpvArg::Fullscreen => MpvArg::Fullscreen,
            MpvArg::OnTop => MpvArg::OnTop,
            MpvArg::Geometry(g) => MpvArg::Geometry(*g),
            MpvArg::Property { name, value } => MpvArg::Property { name: name.clone(), value: value.clone() },
            MpvArg::Flag(n) => MpvArg::Flag(n.clone()),
        }
    }
}

impl WindowGeometry {
    /// Parses a geometry in mpv's `WIDTHxHEIGHT` form.
    pub fn parse(value: &str) -> (r: Result<WindowGeometry, CoreError>)
        ensures
            result_view(r) == geometry_spec("--geometry"@, value@),
    {
        parse_geometry("--geometry", value)
    }

    /// Returns the geometry in mpv's textual form.
    pub fn as_mpv_value(self) -> (r: String)
        ensures
            r@ == decimal(self.width as nat) + "x"@ + decimal(self.height as nat),
    {
        let w = decimal_string(self.width as u64);
        let h = decimal_string(self.height as u64);
        let a = concat(w.as_str(), "x");
        concat(a.as_str(), h.as_str())
    }
}

/// The text mpv takes for a loop mode (`no`, `inf`, or the count).
pub open spec fn loop_mode_text(mode: LoopMode) -> Seq<char> {
    match mode {
        LoopMode::Once => "no"@,
        LoopMode::Infinite => "inf"@,
        LoopMode::Count(n) => decimal(n as nat),
    }
}

impl LoopMode {
    /// Returns the loop mode in mpv's textual form.
    pub fn as_mpv_value(self) -> (r: String)
        ensures
            r@ == loop_mode_text(self),
    {
        match self {
            LoopMode::Once => "no".to_owned(),
            LoopMode::Infinite => "inf".to_owned(),
            LoopMode::Count(n) => decimal_string(n as u64),
        }
    }

    /// Parses `inf`, `no`, or a non-negative repeat count.
    pub fn parse(value: &str) -> (r: Result<LoopMode, CoreError>)
        ensures
            result_view(r) == loop_mode_spec("--loop-file"@, value@),
    {
        parse_loop_mode("--loop-file", value)
    }
}

} // verus!
