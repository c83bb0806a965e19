//! Typed configuration schema and defaults.

use vstd::prelude::*;
use crate::float::{Float64, HUNDRED_BITS, ONE_BITS};

verus! {

/// A JSON document as the configuration loader produces it: the value a Lua
/// table evaluates to. Numbers keep the text `serde_json` renders them as.
#[derive(Debug, PartialEq)]
pub enum JsonValue {
    /// `null`.
    Null,
    /// `true` or `false`.
    Bool(bool),
    /// A number, as rendered text.
    Number(String),
    /// A string.
    Text(String),
    /// An array.
    Array(Vec<JsonValue>),
    /// An object, with its members in key order.
    Object(Vec<(String, JsonValue)>),
}

/// The view of a [`JsonValue`].
pub enum JsonView {
    Null,
    Bool(bool),
    Number(Seq<char>),
    Text(Seq<char>),
    Array(Seq<JsonView>),
    Object(Seq<(Seq<char>, JsonView)>),
}

/// The views of the first `n` elements of an array.
pub open spec fn array_view(items: Seq<JsonValue>, n: int) -> Seq<JsonView>
    decreases items, n,
{
    if n <= 0 || n > items.len() {
        Seq::empty()
    } else {
        array_view(items, n - 1).push(json_view(items[n - 1]))
    }
}

/// The views of the first `n` members of an object.
pub open spec fn members_view(members: Seq<(String, JsonValue)>, n: int) -> Seq<(Seq<char>, JsonView)>
    decreases members, n,
{
    if n <= 0 || n > members.len() {
        Seq::empty()
    } else {
        members_view(members, n - 1).push((members[n - 1].0@, json_view(members[n - 1].1)))
    }
}

/// The view of a JSON value.
pub open spec fn json_view(value: JsonValue) -> JsonView
    decreases value, 0int,
{
    match value {
        JsonValue::Null => JsonView::Null,
        JsonValue::Bool(b) => JsonView::Bool(b),
        JsonValue::Number(n) => JsonView::Number(n@),
        JsonValue::Text(t) => JsonView::Text(t@),
        JsonValue::Array(items) => JsonView::Array(array_view(items@, items@.len() as int)),
        JsonValue::Object(members) => JsonView::Object(
            members_view(members@, members@.len() as int),
        ),
    }
}

impl View for JsonValue {
    type V = JsonView;

    open spec fn view(&self) -> JsonView {
        json_view(*self)
    }
}

impl JsonValue {
    /// A copy of this value.
    pub fn duplicate(&self) -> (r: JsonValue)
        ensures
            r@ == self@,
        decreases self,
    {
        match self {
            JsonValue::Null => JsonValue::Null,
            JsonValue::Bool(b) => JsonValue::Bool(*b),
            JsonValue::Number(n) => JsonValue::Number(n.clone()),
            JsonValue::Text(t) => JsonValue::Text(t.clone()),
            JsonValue::Array(items) => {
                let mut out: Vec<JsonValue> = Vec::new();
                let mut i: usize = 0;
                while i < items.len()
                    invariant
                        i <= items@.len(),
                        array_view(out@, out@.len() as int) == array_view(items@, i as int),
                        out@.len() == i,
                        *self == JsonValue::Array(*items),
                    decreases items@.len() - i,
                {
                    assert(decreases_to!(*self => items@[i as int])) by {
                        assert((*self)->Array_0 == *items);
                        assert(decreases_to!(*self => (*self)->Array_0));
                        assert(decreases_to!(*items => items@));
                        assert(decreases_to!(items@ => items@[i as int]));
                    }
                    let item = items[i].duplicate();
                    let ghost before = out@;
                    out.push(item);
                    assert(out@.drop_last() == before);
                    assert(array_view(out@, i as int) == array_view(before, i as int)) by {
                        lemma_array_view_prefix(out@, before, i as int);
                    }
                    i = i + 1;
                }
                JsonValue::Array(out)
            },
            JsonValue::Object(members) => {
                let mut out: Vec<(String, JsonValue)> = Vec::new();
                let mut i: usize = 0;
                while i < members.len()
                    invariant
                        i <= members@.len(),
                        members_view(out@, out@.len() as int) == members_view(members@, i as int),
                        out@.len() == i,
                        *self == JsonValue::Object(*members),
                    decreases members@.len() - i,
                {
                    assert(decreases_to!(*self => members@[i as int].1)) by {
                        assert((*self)->Object_0 == *members);
                        assert(decreases_to!(*self => (*self)->Object_0));
                        assert(decreases_to!(*members => members@));
                        assert(decreases_to!(members@ => members@[i as int]));
                        assert(decreases_to!(members@[i as int] => members@[i as int].1));
                    }
                    let value = members[i].1.duplicate();
                    let key = members[i].0.clone();
                    let ghost before = out@;
                    out.push((key, value));
                    assert(members_view(out@, i as int) == members_view(before, i as int)) by {
                        lemma_members_view_prefix(out@, before, i as int);
                    }
                    i = i + 1;
                }
                JsonValue::Object(out)
            },
        }
    }
}

/// The views of an array's first `n` elements only depend on those elements.
proof fn lemma_array_view_prefix(a: Seq<JsonValue>, b: Seq<JsonValue>, n: int)
    requires
        0 <= n <= a.len(),
        n <= b.len(),
        forall|k: int| 0 <= k < n ==> a[k] == b[k],
    ensures
        array_view(a, n) == array_view(b, n),
    decreases n,
{
    if n > 0 {
        lemma_array_view_prefix(a, b, n - 1);
    }
}

/// The views of an object's first `n` members only depend on those members.
proof fn lemma_members_view_prefix(a: Seq<(String, JsonValue)>, b: Seq<(String, JsonValue)>, n: int)
    requires
        0 <= n <= a.len(),
        n <= b.len(),
        forall|k: int| 0 <= k < n ==> a[k] == b[k],
    ensures
        members_view(a, n) == members_view(b, n),
    decreases n,
{
    if n > 0 {
        lemma_members_view_prefix(a, b, n - 1);
    }
}

impl Clone for JsonValue {
    fn clone(&self) -> (r: JsonValue)
        ensures
            r@ == self@,
    {
        self.duplicate()
    }
}

/// How a scalar is written as an mpv property value; arrays, objects and
/// `null` have no such form.
pub open spec fn scalar_text(value: JsonView) -> Option<Seq<char>> {
    match value {
        JsonView::Bool(b) => Some(if b { "true"@ } else { "false"@ }),
        JsonView::Number(n) => Some(n),
        JsonView::Text(t) => Some(t),
        _ => None,
    }
}

/// The text a scalar is forwarded to mpv as; `None` for `null`, arrays and
/// objects.
pub fn scalar_to_string(value: &JsonValue) -> (r: Option<String>)
    ensures
        match scalar_text(value@) {
            Some(t) => r matches Some(s) && s@ == t,
            None => r is None,
        },
{
    match value {
        JsonValue::Null | JsonValue::Array(_) | JsonValue::Object(_) => None,
        JsonValue::Bool(b) => Some(if *b { "true".to_owned() } else { "false".to_owned() }),
        JsonValue::Number(n) => Some(n.clone()),
        JsonValue::Text(t) => Some(t.clone()),
    }
}

/// General playback settings.
#[derive(Debug, Clone, PartialEq)]
pub struct PlaybackSettings {
    /// Initial volume from 0 to 100.
    pub volume: Float64,
    /// Initial playback speed.
    pub speed: Float64,
    /// Whether playback loops (the `loop` key).
    pub looping: bool,
    /// Whether playback starts automatically.
    pub autoplay: bool,
    /// Whether playback starts paused.
    pub start_paused: bool,
}

impl Default for PlaybackSettings {
    fn default() -> (r: PlaybackSettings)
        ensures
            r.volume.bits == HUNDRED_BITS,
            r.speed.bits == ONE_BITS,
            !r.looping,
            r.autoplay,
            !r.start_paused,
    {
        PlaybackSettings {
            volume: Float64 { bits: HUNDRED_BITS },
            speed: Float64 { bits: ONE_BITS },
            looping: false,
            autoplay: true,
            start_paused: false,
        }
    }
}

impl PlaybackSettings {
    /// Returns the configured volume.
    pub fn volume(&self) -> (r: Float64)
        ensures
            r == self.volume,
    {
        self.volume
    }

    /// Returns the configured speed.
    pub fn speed(&self) -> (r: Float64)
        ensures
            r == self.speed,
    {
        self.speed
    }
}

/// Video settings.
#[derive(Debug, Clone, PartialEq)]
pub struct VideoSettings {
    /// Hardware decoding policy.
    pub hardware_decoding: String,
    /// mpv scaler name.
    pub scale: String,
    /// Whether deinterlacing is enabled.
    pub deinterlace: bool,
    /// Aspect-ratio policy.
    pub aspect_ratio: String,
}

impl Default for VideoSettings {
    fn default() -> (r: VideoSettings)
        ensures
            r.hardware_decoding@ == "auto-safe"@,
            r.scale@ == "bilinear"@,
            !r.deinterlace,
            r.aspect_ratio@ == "auto"@,
    {
        VideoSettings {
            hardware_decoding: "auto-safe".to_owned(),
            scale: "bilinear".to_owned(),
            deinterlace: false,
            aspect_ratio: "auto".to_owned(),
        }
    }
}

impl VideoSettings {
    /// Returns the hardware decoding policy.
    pub fn hardware_decoding(&self) -> (r: &str)
        ensures
            r@ == self.hardware_decoding@,
    {
        self.hardware_decoding.as_str()
    }
}

/// Audio settings.
#[derive(Debug, Clone, PartialEq)]
pub struct AudioSettings {
    /// mpv channel-layout policy.
    pub channel_layout: String,
    /// Whether audio normalization is enabled.
    pub normalize: bool,
}

impl Default for AudioSettings {
    fn default() -> (r: AudioSettings)
        ensures
            r.channel_layout@ == "auto"@,
            !r.normalize,
    {
        AudioSettings { channel_layout: "auto".to_owned(), normalize: false }
    }
}

impl AudioSettings {
    /// Returns the channel-layout policy.
    pub fn channel_layout(&self) -> (r: &str)
        ensures
            r@ == self.channel_layout@,
    {
        self.channel_layout.as_str()
    }
}

/// Subtitle settings.
#[derive(Debug, Clone, PartialEq)]
pub struct SubtitleSettings {
    /// Whether subtitles are enabled.
    pub enabled: bool,
    /// Font family.
    pub font: String,
    /// Font size in points.
    pub font_size: u32,
    /// Foreground color.
    pub color: String,
    /// Border color.
    pub border_color: String,
    /// Border width in points.
    pub border_size: u32,
}

impl Default for SubtitleSettings {
    fn default() -> (r: SubtitleSettings)
        ensures
            r.enabled,
            r.font@ == "SF Pro Display"@,
            r.font_size == 52,
            r.color@ == "#FFFFFF"@,
            r.border_color@ == "#000000"@,
            r.border_size == 3,
    {
        SubtitleSettings {
            enabled: true,
            font: "SF Pro Display".to_owned(),
            font_size: 52,
            color: "#FFFFFF".to_owned(),
            border_color: "#000000".to_owned(),
            border_size: 3,
        }
    }
}

impl SubtitleSettings {
    /// Returns whether subtitles are enabled.
    pub fn enabled(&self) -> (r: bool)
        ensures
            r == self.enabled,
    {
        self.enabled
    }
}

/// Interface settings.
#[derive(Debug, Clone, PartialEq)]
pub struct InterfaceSettings {
    /// Theme name.
    pub theme: String,
    /// Whether animations are enabled.
    pub animations: bool,
    /// Whether blurred materials are enabled.
    pub blur_background: bool,
    /// Whether the playlist is visible initially.
    pub show_playlist: bool,
    /// Whether playback controls are visible initially.
    pub show_controls: bool,
    /// Idle timeout before controls fade, in milliseconds.
    pub controls_timeout_ms: u64,
}

impl Default for InterfaceSettings {
    fn default() -> (r: InterfaceSettings)
        ensures
            r.theme@ == "macos"@,
            r.animations,
            r.blur_background,
            r.show_playlist,
            r.show_controls,
            r.controls_timeout_ms == 2500,
    {
        InterfaceSettings {
            theme: "macos".to_owned(),
            animations: true,
            blur_background: true,
            show_playlist: true,
            show_controls: true,
            controls_timeout_ms: 2500,
        }
    }
}

impl InterfaceSettings {
    /// Returns the control idle timeout.
    pub fn controls_timeout_ms(&self) -> (r: u64)
        ensures
            r == self.controls_timeout_ms,
    {
        self.controls_timeout_ms
    }
}

/// Keyboard bindings.
#[derive(Debug, Clone, PartialEq)]
pub struct Keybindings {
    /// Binding that toggles play and pause.
    pub toggle_play: String,
    /// Binding that seeks forward.
    pub seek_forward: String,
    /// Binding that seeks backward.
    pub seek_backward: String,
    /// Binding that raises volume.
    pub volume_up: String,
    /// Binding that lowers volume.
    pub volume_down: String,
    /// Binding that toggles fullscreen.
    pub fullscreen: String,
    /// Binding that quits PlayBack.
    pub quit: String,
    /// Binding that selects the next track.
    pub next_track: String,
    /// Binding that selects the previous track.
    pub prev_track: String,
}

impl Default for Keybindings {
    fn default() -> (r: Keybindings)
        ensures
            r.toggle_play@ == "Space"@,
            r.seek_forward@ == "Right"@,
            r.seek_backward@ == "Left"@,
            r.volume_up@ == "Up"@,
            r.volume_down@ == "Down"@,
            r.fullscreen@ == "f"@,
            r.quit@ == "q"@,
            r.next_track@ == "n"@,
            r.prev_track@ == "p"@,
    {
        Keybindings {
            toggle_play: "Space".to_owned(),
            seek_forward: "Right".to_owned(),
            seek_backward: "Left".to_owned(),
            volume_up: "Up".to_owned(),
            volume_down: "Down".to_owned(),
            fullscreen: "f".to_owned(),
            quit: "q".to_owned(),
            next_track: "n".to_owned(),
            prev_track: "p".to_owned(),
        }
    }
}

/// The complete PlayBack configuration document.
#[derive(Debug, Clone, PartialEq)]
pub struct PlaybackConfig {
    /// General playback behavior.
    pub playback: PlaybackSettings,
    /// Video rendering behavior.
    pub video: VideoSettings,
    /// Audio behavior.
    pub audio: AudioSettings,
    /// Subtitle rendering behavior.
    pub subtitles: SubtitleSettings,
    /// User-interface behavior.
    pub interface: InterfaceSettings,
    /// Keyboard bindings.
    pub keybindings: Keybindings,
    /// Values forwarded to arbitrary mpv properties: the members of the
    /// document's `custom` object, keys strictly ascending as a table's
    /// keys come out (`document::custom_section` states it for an
    /// evaluated document; `launcher::custom_keys_ascending` checks it,
    /// and the argument builders require it).
    pub custom: Vec<(String, JsonValue)>,
}

impl Default for PlaybackConfig {
    fn default() -> (r: PlaybackConfig)
        ensures
            r.playback.volume.bits == HUNDRED_BITS,
            r.playback.speed.bits == ONE_BITS,
            !r.playback.looping,
            r.playback.autoplay,
            !r.playback.start_paused,
            r.video.hardware_decoding@ == "auto-safe"@,
            r.video.scale@ == "bilinear"@,
            !r.video.deinterlace,
            r.video.aspect_ratio@ == "auto"@,
            r.audio.channel_layout@ == "auto"@,
            !r.audio.normalize,
            r.subtitles.enabled,
            r.subtitles.font@ == "SF Pro Display"@,
            r.subtitles.font_size == 52,
            r.subtitles.color@ == "#FFFFFF"@,
            r.subtitles.border_color@ == "#000000"@,
            r.subtitles.border_size == 3,
            r.interface.theme@ == "macos"@,
            r.interface.animations,
            r.interface.blur_background,
            r.interface.show_playlist,
            r.interface.show_controls,
            r.interface.controls_timeout_ms == 2500,
            r.keybindings.toggle_play@ == "Space"@,
            r.keybindings.seek_forward@ == "Right"@,
            r.keybindings.seek_backward@ == "Left"@,
            r.keybindings.volume_up@ == "Up"@,
            r.keybindings.volume_down@ == "Down"@,
            r.keybindings.fullscreen@ == "f"@,
            r.keybindings.quit@ == "q"@,
            r.keybindings.next_track@ == "n"@,
            r.keybindings.prev_track@ == "p"@,
            r.custom@.len() == 0,
    {
        PlaybackConfig {
            playback: PlaybackSettings::default(),
            video: VideoSettings::default(),
            audio: AudioSettings::default(),
            subtitles: SubtitleSettings::default(),
            interface: InterfaceSettings::default(),
            keybindings: Keybindings::default(),
            custom: Vec::new(),
        }
    }
}

impl PlaybackConfig {
    /// Returns general playback settings.
    pub fn playback(&self) -> (r: &PlaybackSettings)
        ensures
            *r == self.playback,
    {
        &self.playback
    }

    /// Returns video settings.
    pub fn video(&self) -> (r: &VideoSettings)
        ensures
            *r == self.video,
    {
        &self.video
    }

    /// Returns audio settings.
    pub fn audio(&self) -> (r: &AudioSettings)
        ensures
            *r == self.audio,
    {
        &self.audio
    }

    /// Returns subtitle settings.
    pub fn subtitles(&self) -> (r: &SubtitleSettings)
        ensures
            *r == self.subtitles,
    {
        &self.subtitles
    }

    /// Returns interface settings.
    pub fn interface(&self) -> (r: &InterfaceSettings)
        ensures
            *r == self.interface,
    {
        &self.interface
    }

    /// Returns keybindings.
    pub fn keybindings(&self) -> (r: &Keybindings)
        ensures
            *r == self.keybindings,
    {
        &self.keybindings
    }
}

} // verus!
