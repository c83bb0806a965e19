//! What the controller does for each action: the backend call to make and
//! the change to the shared playback state once the call succeeds.
//!
//! The controller itself (which owns a backend and the shared state handle)
//! carries a plan out; the decisions are all here.

use vstd::prelude::*;
use crate::cli::{LoopMode, MpvArg, MpvArgView, loop_mode_text};
use crate::error::CoreError;
use crate::float::{Float64, HUNDRED_BITS, ZERO_BITS, clamped, is_finite, is_positive_finite};
use crate::mpv::{ArgValueView, ArgumentView, MpvValue, MpvValueView, action_argument, geometry_text};
use crate::state::{
    PlaybackState, PlaybackView, PlaylistItem, PlaylistItemView, Seconds, TrackKind,
    TrackSelection, TrackSelectionView, valid_seconds,
};
use crate::text::concat;

verus! {

/// One operation on an mpv backend.
#[derive(Debug, Clone, PartialEq)]
pub enum BackendCall {
    /// Set a property.
    SetProperty {
        /// The property name.
        name: String,
        /// The new value.
        value: MpvValue,
    },
    /// Run a command.
    Command {
        /// The command name.
        name: String,
        /// Its arguments (numbers are rendered by the caller).
        arguments: Vec<MpvValue>,
    },
    /// Load a media path.
    LoadFile(String),
}

/// The view of a [`BackendCall`].
pub enum BackendCallView {
    SetProperty { name: Seq<char>, value: MpvValueView },
    Command { name: Seq<char>, arguments: Seq<MpvValueView> },
    LoadFile(Seq<char>),
}

impl View for BackendCall {
    type V = BackendCallView;

    open spec fn view(&self) -> BackendCallView {
        match self {
            BackendCall::SetProperty { name, value } => BackendCallView::SetProperty {
                name: name@,
                value: value@,
            },
            BackendCall::Command { name, arguments } => BackendCallView::Command {
                name: name@,
                arguments: arguments@.map_values(|v: MpvValue| v@),
            },
            BackendCall::LoadFile(p) => BackendCallView::LoadFile(p@),
        }
    }
}

/// The change to shared playback state that follows a successful call.
#[derive(Debug, Clone, PartialEq)]
pub enum StateUpdate {
    /// Nothing changes.
    Nothing,
    /// `set_volume`.
    Volume(Float64),
    /// `set_speed`.
    Speed(Float64),
    /// `set_position`.
    Position(Seconds),
    /// `set_loop_file`.
    LoopFile(bool),
    /// `select_track`.
    Track(TrackSelection),
    /// `begin_load(None)`, then the item is appended to the playlist.
    Load(PlaylistItem),
}

/// The view of a [`StateUpdate`].
pub enum StateUpdateView {
    Nothing,
    Volume(Float64),
    Speed(Float64),
    Position(Seconds),
    LoopFile(bool),
    Track(TrackSelectionView),
    Load(PlaylistItemView),
}

impl View for StateUpdate {
    type V = StateUpdateView;

    open spec fn view(&self) -> StateUpdateView {
        match self {
            StateUpdate::Nothing => StateUpdateView::Nothing,
            StateUpdate::Volume(v) => StateUpdateView::Volume(*v),
            StateUpdate::Speed(v) => StateUpdateView::Speed(*v),
            StateUpdate::Position(p) => StateUpdateView::Position(*p),
            StateUpdate::LoopFile(b) => StateUpdateView::LoopFile(*b),
            StateUpdate::Track(t) => StateUpdateView::Track(t@),
            StateUpdate::Load(i) => StateUpdateView::Load(i@),
        }
    }
}

/// A backend call and the state change that follows it.
#[derive(Debug, Clone, PartialEq)]
pub struct ActionPlan {
    /// The backend operation.
    pub call: BackendCall,
    /// The state change once the operation succeeded.
    pub update: StateUpdate,
}

/// The view of an [`ActionPlan`].
pub struct ActionPlanView {
    pub call: BackendCallView,
    pub update: StateUpdateView,
}

impl View for ActionPlan {
    type V = ActionPlanView;

    open spec fn view(&self) -> ActionPlanView {
        ActionPlanView { call: self.call@, update: self.update@ }
    }
}

/// Setting `name` to text.
pub open spec fn set_text(name: Seq<char>, value: Seq<char>) -> BackendCallView {
    BackendCallView::SetProperty { name, value: MpvValueView::Text(value) }
}

/// Setting `name` to `true`.
pub open spec fn set_true(name: Seq<char>) -> BackendCallView {
    BackendCallView::SetProperty { name, value: MpvValueView::Boolean(true) }
}

/// The plan for one parsed action.
pub open spec fn action_plan(action: MpvArgView) -> ActionPlanView {
    match action {
        MpvArgView::Volume(v) => ActionPlanView {
            call: BackendCallView::SetProperty { name: "volume"@, value: MpvValueView::Number(v) },
            update: StateUpdateView::Volume(v),
        },
        MpvArgView::Speed(v) => ActionPlanView {
            call: BackendCallView::SetProperty { name: "speed"@, value: MpvValueView::Number(v) },
            update: StateUpdateView::Speed(v),
        },
        MpvArgView::Start(p) => ActionPlanView {
            call: BackendCallView::Command {
                name: "seek"@,
                arguments: seq![MpvValueView::Number(p.0), MpvValueView::Text("absolute"@)],
            },
            update: StateUpdateView::Position(p),
        },
        MpvArgView::LoopFile(m) => ActionPlanView {
            call: set_text("loop-file"@, loop_mode_text(m)),
            update: StateUpdateView::LoopFile(m != LoopMode::Once),
        },
        MpvArgView::SubFile(p) => ActionPlanView {
            call: BackendCallView::Command {
                name: "sub-add"@,
                arguments: seq![MpvValueView::Text(p), MpvValueView::Text("select"@)],
            },
            update: StateUpdateView::Nothing,
        },
        MpvArgView::AudioFile(p) => ActionPlanView {
            call: BackendCallView::Command {
                name: "audio-add"@,
                arguments: seq![MpvValueView::Text(p), MpvValueView::Text("select"@)],
            },
            update: StateUpdateView::Nothing,
        },
        MpvArgView::NoVideo => ActionPlanView { call: set_text("vid"@, "no"@), update: StateUpdateView::Nothing },
        MpvArgView::Fullscreen => ActionPlanView { call: set_true("fullscreen"@), update: StateUpdateView::Nothing },
        MpvArgView::OnTop => ActionPlanView { call: set_true("ontop"@), update: StateUpdateView::Nothing },
        MpvArgView::Geometry(g) => ActionPlanView {
            call: set_text("geometry"@, geometry_text(g.width, g.height)),
            update: StateUpdateView::Nothing,
        },
        MpvArgView::Property { name, value } => ActionPlanView {
            call: set_text(name, value),
            update: StateUpdateView::Nothing,
        },
        MpvArgView::Flag(name) => ActionPlanView { call: set_true(name), update: StateUpdateView::Nothing },
    }
}

/// Setting a property to text.
fn set_text_call(name: &str, value: String) -> (r: BackendCall)
    ensures
        r@ == set_text(name@, value@),
{
    BackendCall::SetProperty { name: name.to_owned(), value: MpvValue::Text(value) }
}

/// Setting a property to `true`.
fn set_true_call(name: String) -> (r: BackendCall)
    ensures
        r@ == set_true(name@),
{
    BackendCall::SetProperty { name, value: MpvValue::Boolean(true) }
}

/// A command with two arguments.
fn command_call(name: &str, first: MpvValue, second: MpvValue) -> (r: BackendCall)
    ensures
        r@ == (BackendCallView::Command { name: name@, arguments: seq![first@, second@] }),
{
    let ghost f = first@;
    let ghost s = second@;
    let mut arguments: Vec<MpvValue> = Vec::new();
    arguments.push(first);
    arguments.push(second);
    assert(arguments@.map_values(|v: MpvValue| v@) =~= seq![f, s]);
    BackendCall::Command { name: name.to_owned(), arguments }
}

/// The plan for one parsed action.
pub fn plan_action(action: &MpvArg) -> (r: ActionPlan)
    ensures
        r@ == action_plan(action@),
{
    match action {
        MpvArg::Volume(v) => ActionPlan {
            call: BackendCall::SetProperty { name: "volume".to_owned(), value: MpvValue::Number(*v) },
            update: StateUpdate::Volume(*v),
        },
        MpvArg::Speed(v) => ActionPlan {
            call: BackendCall::SetProperty { name: "speed".to_owned(), value: MpvValue::Number(*v) },
            update: StateUpdate::Speed(*v),
        },
        MpvArg::Start(p) => ActionPlan {
            call: command_call("seek", MpvValue::Number(p.0), MpvValue::Text("absolute".to_owned())),
            update: StateUpdate::Position(*p),
        },
        MpvArg::LoopFile(m) => ActionPlan {
            call: set_text_call("loop-file", m.as_mpv_value()),
            update: StateUpdate::LoopFile(*m != LoopMode::Once),
        },
        MpvArg::SubFile(p) => ActionPlan {
            call: command_call("sub-add", MpvValue::Text(p.clone()), MpvValue::Text("select".to_owned())),
            update: StateUpdate::Nothing,
        },
        MpvArg::AudioFile(p) => ActionPlan {
            call: command_call("audio-add", MpvValue::Text(p.clone()), MpvValue::Text("select".to_owned())),
            update: StateUpdate::Nothing,
        },
        MpvArg::NoVideo => ActionPlan { call: set_text_call("vid", "no".to_owned()), update: StateUpdate::Nothing },
        MpvArg::Fullscreen => ActionPlan { call: set_true_call("fullscreen".to_owned()), update: StateUpdate::Nothing },
        MpvArg::OnTop => ActionPlan { call: set_true_call("ontop".to_owned()), update: StateUpdate::Nothing },
        MpvArg::Geometry(g) => ActionPlan {
            call: set_text_call("geometry", g.as_mpv_value()),
            update: StateUpdate::Nothing,
        },
        MpvArg::Property { name, value } => ActionPlan {
            call: set_text_call(name.as_str(), value.clone()),
            update: StateUpdate::Nothing,
        },
        MpvArg::Flag(name) => ActionPlan { call: set_true_call(name.clone()), update: StateUpdate::Nothing },
    }
}

/// The mpv property that selects a track of each kind.
pub open spec fn track_property(kind: TrackKind) -> Seq<char> {
    match kind {
        TrackKind::Audio => "aid"@,
        TrackKind::Subtitle => "sid"@,
        TrackKind::Video => "vid"@,
    }
}

/// The plan for selecting a track: set `aid`/`sid`/`vid` to its id, then
/// record the selection.
pub fn plan_select_track(selection: TrackSelection) -> (r: ActionPlan)
    ensures
        r@ == (ActionPlanView {
            call: set_text(track_property(selection.kind), selection.id@),
            update: StateUpdateView::Track(selection@),
        }),
{
    let property = match selection.kind {
        TrackKind::Audio => "aid",
        TrackKind::Subtitle => "sid",
        TrackKind::Video => "vid",
    };
    let call = set_text_call(property, selection.id.clone());
    ActionPlan { call, update: StateUpdate::Track(selection) }
}

/// What an mpv command-line argument tells mpv to set: the option's name,
/// and its text or number, or `true` for a bare switch.
pub open spec fn argument_setting(argument: ArgumentView) -> Option<(Seq<char>, MpvValueView)> {
    match argument {
        ArgumentView::Option { name, value: None } => Some((name, MpvValueView::Boolean(true))),
        ArgumentView::Option { name, value: Some(ArgValueView::Text(t)) } => Some((name, MpvValueView::Text(t))),
        ArgumentView::Option { name, value: Some(ArgValueView::Number(v)) } => Some((name, MpvValueView::Number(v))),
        _ => None,
    }
}

/// The property a plan sets, if it sets one.
pub open spec fn property_set(plan: ActionPlanView) -> Option<Seq<char>> {
    match plan.call {
        BackendCallView::SetProperty { name, value: _ } => Some(name),
        _ => None,
    }
}

/// An action that the backend carries out by setting a property sets the
/// very option the action is on mpv's command line, to the value that
/// option carries there (`true` for a switch): a running player is told
/// what the command line would tell mpv. (`--no-video`, a start position
/// and added files are commands or another property: see
/// [`law_switches_set_distinct_properties`].)
pub proof fn law_property_plans_follow_arguments(action: MpvArgView)
    requires
        !(action is Start || action is SubFile || action is AudioFile || action is NoVideo),
    ensures
        argument_setting(action_argument(action)) matches Some((name, value)) && action_plan(action).call
            == (BackendCallView::SetProperty { name, value }),
{
}

/// The switches set properties of their own: `--no-video` turns off the
/// property that selects the video track, and `--no-video`,
/// `--fullscreen` and `--ontop` each set a different property, to a value
/// that turns it on or off (never a command).
pub proof fn law_switches_set_distinct_properties()
    ensures
        action_plan(MpvArgView::NoVideo).call == set_text(track_property(TrackKind::Video), "no"@),
        property_set(action_plan(MpvArgView::Fullscreen)) is Some,
        property_set(action_plan(MpvArgView::OnTop)) is Some,
        property_set(action_plan(MpvArgView::NoVideo)) != property_set(action_plan(MpvArgView::Fullscreen)),
        property_set(action_plan(MpvArgView::NoVideo)) != property_set(action_plan(MpvArgView::OnTop)),
        property_set(action_plan(MpvArgView::Fullscreen)) != property_set(action_plan(MpvArgView::OnTop)),
        action_plan(MpvArgView::Fullscreen).call == set_true(option_name_of(action_argument(MpvArgView::Fullscreen))),
        action_plan(MpvArgView::OnTop).call == set_true(option_name_of(action_argument(MpvArgView::OnTop))),
{
    reveal_strlit("vid");
    reveal_strlit("fullscreen");
    reveal_strlit("ontop");
    assert("vid"@.len() == 3 && "fullscreen"@.len() == 10 && "ontop"@.len() == 5);
}

/// The option name of an mpv argument (empty for a media path).
pub open spec fn option_name_of(argument: ArgumentView) -> Seq<char> {
    match argument {
        ArgumentView::Option { name, value: _ } => name,
        ArgumentView::Media(_) => Seq::empty(),
    }
}

/// Selecting a track sets mpv's property for the track's kind to the
/// track's id: `aid` for audio, `sid` for subtitles, `vid` for video
/// (the property `--no-video` turns off). Tracks of different kinds
/// therefore set different properties, and a selection is recorded for
/// its own kind.
pub proof fn law_track_selections_set_their_kind(a: TrackKind, b: TrackKind)
    ensures
        a != b ==> track_property(a) != track_property(b),
        track_property(TrackKind::Audio) == "aid"@,
        track_property(TrackKind::Subtitle) == "sid"@,
        track_property(TrackKind::Video) == "vid"@,
        property_set(action_plan(MpvArgView::NoVideo)) == Some(track_property(TrackKind::Video)),
{
    reveal_strlit("aid");
    reveal_strlit("sid");
    reveal_strlit("vid");
    assert("aid"@ =~= seq!['a', 'i', 'd']);
    assert("sid"@ =~= seq!['s', 'i', 'd']);
    assert("vid"@ =~= seq!['v', 'i', 'd']);
    assert("aid"@[0] != "sid"@[0] && "aid"@[0] != "vid"@[0] && "sid"@[0] != "vid"@[0]);
}

/// `Path::new(path).file_name()`, decoded lossily.
///
/// std documents the result as the path's final component, and `None` when
/// there is none (an empty path, a root, a path ending in `..`). What holds
/// on every platform is stated: an empty path has none, and a file name is
/// non-empty and holds no `/` (a separator on every platform). Which other
/// characters separate components depends on the platform, so the name
/// itself is left unsaid.
#[verifier::external_body]
pub(crate) fn file_name_of(path: &str) -> (r: Option<String>)
    ensures
        path@.len() == 0 ==> r is None,
        r matches Some(n) ==> n@.len() > 0 && !n@.contains('/'),
{
    std::path::Path::new(path).file_name().map(|name| name.to_string_lossy().into_owned())
}

/// A title a path may get: the path itself, or a non-empty file name that
/// holds no `/`.
pub open spec fn plausible_title(path: Seq<char>, title: Seq<char>) -> bool {
    title == path || (title.len() > 0 && !title.contains('/'))
}

/// The playlist entry for a loaded path: titled by its file name when it
/// has one, else by the whole path; duration unknown.
pub fn playlist_item_named(path: &str, file_name: Option<String>) -> (r: PlaylistItem)
    ensures
        r@ == (PlaylistItemView {
            path: path@,
            title: match file_name {
                Some(n) => n@,
                None => path@,
            },
            duration: None,
        }),
{
    let title = match file_name {
        Some(n) => n,
        None => path.to_owned(),
    };
    PlaylistItem { path: path.to_owned(), title, duration: None }
}

/// The playlist entry for a loaded path, titled by its file name.
pub fn playlist_item_for(path: &str) -> (r: PlaylistItem)
    ensures
        r@.path == path@,
        plausible_title(path@, r@.title),
        r@.duration is None,
{
    playlist_item_named(path, file_name_of(path))
}

/// The plan for loading a media path, given the path's file name: refuse
/// an empty path, else load it, reset the transient state and append it to
/// the playlist.
pub fn plan_load_named(path: &str, file_name: Option<String>) -> (r: Result<ActionPlan, CoreError>)
    ensures
        path@.len() == 0 ==> r matches Err(CoreError::EmptyPath),
        path@.len() > 0 ==> (r matches Ok(plan) && plan@ == (ActionPlanView {
            call: BackendCallView::LoadFile(path@),
            update: StateUpdateView::Load(PlaylistItemView {
                path: path@,
                title: match file_name {
                    Some(n) => n@,
                    None => path@,
                },
                duration: None,
            }),
        })),
{
    if path.is_empty() {
        return Err(CoreError::EmptyPath);
    }
    let item = playlist_item_named(path, file_name);
    ActionPlan { call: BackendCall::LoadFile(path.to_owned()), update: StateUpdate::Load(item) }.into_ok()
}

impl ActionPlan {
    /// `Ok(self)`.
    fn into_ok(self) -> (r: Result<ActionPlan, CoreError>)
        ensures
            r matches Ok(p) && p == self,
    {
        Ok(self)
    }
}

/// The plan for loading a media path.
pub fn plan_load(path: &str) -> (r: Result<ActionPlan, CoreError>)
    ensures
        path@.len() == 0 ==> r matches Err(CoreError::EmptyPath),
        path@.len() > 0 ==> (r matches Ok(plan) && plan@.call == BackendCallView::LoadFile(path@)
            && (plan@.update matches StateUpdateView::Load(item) && item.path == path@ && item.duration is None
            && plausible_title(path@, item.title))),
{
    if path.is_empty() {
        return Err(CoreError::EmptyPath);
    }
    plan_load_named(path, file_name_of(path))
}

/// The state after an update.
pub open spec fn update_spec(s: PlaybackView, update: StateUpdateView) -> PlaybackView {
    match update {
        StateUpdateView::Nothing => s,
        StateUpdateView::Volume(v) => if is_finite(v.bits) {
            PlaybackView { volume: Float64 { bits: clamped(v.bits, ZERO_BITS, HUNDRED_BITS) }, ..s }
        } else {
            s
        },
        StateUpdateView::Speed(v) => if is_positive_finite(v.bits) {
            PlaybackView { speed: v, ..s }
        } else {
            s
        },
        StateUpdateView::Position(p) => if valid_seconds(p) {
            PlaybackView { position: p, ..s }
        } else {
            s
        },
        StateUpdateView::LoopFile(b) => PlaybackView { loop_file: b, ..s },
        StateUpdateView::Track(t) => match t.kind {
            TrackKind::Audio => PlaybackView { audio_track: Some(t), ..s },
            TrackKind::Subtitle => PlaybackView { subtitle_track: Some(t), ..s },
            TrackKind::Video => s,
        },
        StateUpdateView::Load(item) => PlaybackView {
            paused: false,
            seeking: false,
            position: Seconds(Float64 { bits: ZERO_BITS }),
            duration: None,
            buffered: None,
            audio_track: None,
            subtitle_track: None,
            playlist: s.playlist.push(item),
            ..s
        },
    }
}

impl StateUpdate {
    /// Applies the update to the playback state.
    pub fn apply_to(self, state: &mut PlaybackState)
        ensures
            final(state)@ == update_spec(old(state)@, self@),
            crate::state::state_valid(old(state)@) ==> crate::state::state_valid(final(state)@),
    {
        match self {
            StateUpdate::Nothing => {},
            StateUpdate::Volume(v) => {
                state.set_volume(v);
            },
            StateUpdate::Speed(v) => {
                state.set_speed(v);
            },
            StateUpdate::Position(p) => {
                state.set_position(p);
            },
            StateUpdate::LoopFile(b) => state.set_loop_file(b),
            StateUpdate::Track(t) => state.select_track(t),
            StateUpdate::Load(item) => {
                state.begin_load(None);
                state.add_playlist_item(item);
            },
        }
    }
}

/// Finishes a plan once its backend call has returned: after a successful
/// call the state takes the plan's update; after a failed one the state is
/// left as it was and the call's error is returned.
pub fn finish_call(update: StateUpdate, outcome: Result<(), CoreError>, state: &mut PlaybackState) -> (r: Result<(), CoreError>)
    ensures
        outcome is Ok ==> r is Ok && final(state)@ == update_spec(old(state)@, update@),
        outcome matches Err(e) ==> r == Err::<(), CoreError>(e) && final(state)@ == old(state)@,
        crate::state::state_valid(old(state)@) ==> crate::state::state_valid(final(state)@),
{
    match outcome {
        Ok(()) => {
            update.apply_to(state);
            Ok(())
        },
        Err(error) => Err(error),
    }
}

/// A backend that records operations for tests and embedding hosts.
#[derive(Debug, Default)]
pub struct RecordingBackend {
    operations: Vec<String>,
}

impl RecordingBackend {
    /// The recorded operations, in execution order.
    pub closed spec fn log(&self) -> Seq<Seq<char>> {
        self.operations@.map_values(|o: String| o@)
    }

    /// Creates an empty recording backend.
    pub fn new() -> (r: RecordingBackend)
        ensures
            r.log() == Seq::<Seq<char>>::empty(),
    {
        let r = RecordingBackend { operations: Vec::new() };
        assert(r.log() =~= Seq::<Seq<char>>::empty());
        r
    }

    /// Returns the recorded operations in execution order.
    pub fn operations(&self) -> (r: &[String])
        ensures
            r@.map_values(|o: String| o@) == self.log(),
    {
        self.operations.as_slice()
    }

    fn record(&mut self, operation: String)
        ensures
            final(self).log() == old(self).log().push(operation@),
    {
        self.operations.push(operation);
        assert(self.log() =~= old(self).log().push(operation@));
    }

    /// Records `set name=value`, with the value already rendered.
    pub fn record_set_property(&mut self, name: &str, value: &str)
        ensures
            final(self).log() == old(self).log().push("set "@ + name@ + "="@ + value@),
    {
        let a = concat("set ", name);
        let b = concat(a.as_str(), "=");
        let c = concat(b.as_str(), value);
        self.record(c);
    }

    /// Records `command name arg1 arg2 ...`.
    pub fn record_command(&mut self, name: &str, arguments: &[String])
        ensures
            final(self).log() == old(self).log().push(command_text(name@, arguments@.map_values(|a: String| a@))),
    {
        let mut operation = concat("command ", name);
        let ghost args = arguments@.map_values(|a: String| a@);
        let mut i: usize = 0;
        while i < arguments.len()
            invariant
                i <= arguments@.len(),
                args == arguments@.map_values(|a: String| a@),
                operation@ == command_text(name@, args.take(i as int)),
            decreases arguments@.len() - i,
        {
            let spaced = concat(operation.as_str(), " ");
            operation = concat(spaced.as_str(), arguments[i].as_str());
            assert(args.take(i + 1).drop_last() =~= args.take(i as int));
            i = i + 1;
        }
        assert(args.take(arguments@.len() as int) =~= args);
        self.record(operation);
    }

    /// Records `load path`.
    pub fn record_load_file(&mut self, path: &str)
        ensures
            final(self).log() == old(self).log().push("load "@ + path@),
    {
        let operation = concat("load ", path);
        self.record(operation);
    }
}

/// `command name` followed by each argument after a space.
pub open spec fn command_text(name: Seq<char>, arguments: Seq<Seq<char>>) -> Seq<char>
    decreases arguments.len(),
{
    if arguments.len() == 0 {
        "command "@ + name
    } else {
        command_text(name, arguments.drop_last()) + " "@ + arguments.last()
    }
}

/// A command-line backend that delegates playback to the installed `mpv`
/// executable.
#[derive(Debug, Clone)]
pub struct MpvProcessBackend {
    program: String,
}

impl MpvProcessBackend {
    /// The executable this backend runs.
    pub closed spec fn program_spec(&self) -> Seq<char> {
        self.program@
    }

    /// Creates a process backend using the `mpv` executable.
    pub fn new() -> (r: MpvProcessBackend)
        ensures
            r.program_spec() == "mpv"@,
    {
        MpvProcessBackend::with_program("mpv".to_owned())
    }

    /// Creates a process backend with a custom executable name.
    pub fn with_program(program: String) -> (r: MpvProcessBackend)
        ensures
            r.program_spec() == program@,
    {
        MpvProcessBackend { program }
    }

    /// Returns the executable name used by this backend.
    pub fn program(&self) -> (r: &str)
        ensures
            r@ == self.program_spec(),
    {
        self.program.as_str()
    }
}

impl Default for MpvProcessBackend {
    fn default() -> (r: MpvProcessBackend)
        ensures
            r.program_spec() == "mpv"@,
    {
        MpvProcessBackend::new()
    }
}

/// The arguments a process backend runs mpv with to set a property:
/// `--name=value`, the value already rendered.
pub fn property_arguments(name: &str, value: &str) -> (r: Vec<String>)
    ensures
        r@.len() == 1,
        r@[0]@ == "--"@ + name@ + "="@ + value@,
{
    let a = concat("--", name);
    let b = concat(a.as_str(), "=");
    let mut r: Vec<String> = Vec::new();
    r.push(concat(b.as_str(), value));
    r
}

/// The arguments a process backend runs mpv with for a command: the command
/// name, then its arguments.
pub fn command_arguments(name: &str, arguments: &[String]) -> (r: Vec<String>)
    ensures
        r@.len() == arguments@.len() + 1,
        r@[0]@ == name@,
        forall|i: int| 0 <= i < arguments@.len() ==> #[trigger] r@[i + 1] == arguments@[i],
{
    let mut r: Vec<String> = Vec::new();
    r.push(name.to_owned());
    let mut i: usize = 0;
    while i < arguments.len()
        invariant
            i <= arguments@.len(),
            r@.len() == i + 1,
            r@[0]@ == name@,
            forall|k: int| 0 <= k < i ==> #[trigger] r@[k + 1] == arguments@[k],
        decreases arguments@.len() - i,
    {
        r.push(arguments[i].clone());
        i = i + 1;
    }
    r
}

} // verus!
