//! Reusable UI component models: control bar, timeline, playlist panel,
//! settings sheet and subtitle overlay.

use vstd::prelude::*;
use crate::config::{PlaybackConfig, SubtitleSettings};
use crate::float::{Float32, Float64, ONE_BITS, ZERO_BITS, clamped, is_nan, less, order_key};
use crate::state::{PlaybackSnapshot, PlaylistItem, PlaylistItemView, Seconds};
use crate::text::{concat, decimal2, decimal2_string};
use crate::theme::{HOVER_SCALE_F32_BITS, ONE_F32_BITS, PLAYLIST_WIDTH_F32_BITS};
use crate::ui_state::SettingsTab;

verus! {

/// A control-bar button action.
#[derive(Debug, Clone, Copy, PartialEq, Eq, Structural)]
pub enum ControlButton {
    /// Toggle play and pause.
    PlayPause,
    /// Seek backward ten seconds.
    SkipBack,
    /// Seek forward ten seconds.
    SkipForward,
    /// Toggle subtitles.
    Subtitles,
    /// Open settings.
    Settings,
    /// Toggle fullscreen.
    Fullscreen,
}

/// A timeline model with buffered and played ranges.
#[derive(Debug, Clone, Copy, PartialEq)]
pub struct TimelineModel {
    /// Current position in seconds.
    pub position: Seconds,
    /// Media duration in seconds, if known.
    pub duration: Option<Seconds>,
    /// Buffered range, if known.
    pub buffered: Option<(Seconds, Seconds)>,
    /// Whether a drag or seek is active.
    pub seeking: bool,
}

/// The played fraction, given `ratio` = position / duration.
pub open spec fn progress_spec(timeline: TimelineModel, ratio: Float64) -> Float64 {
    match timeline.duration {
        Some(d) => if less(ZERO_BITS, d.0.bits) {
            Float64 { bits: clamped(ratio.bits, ZERO_BITS, ONE_BITS) }
        } else {
            Float64 { bits: ZERO_BITS }
        },
        None => Float64 { bits: ZERO_BITS },
    }
}

/// The played fraction lies between 0 and 1 whenever the ratio it is
/// computed from is a number.
pub proof fn law_progress_in_range(timeline: TimelineModel, ratio: Float64)
    requires
        !is_nan(ratio.bits),
    ensures
        !is_nan(progress_spec(timeline, ratio).bits),
        order_key(ZERO_BITS) <= order_key(progress_spec(timeline, ratio).bits) <= order_key(ONE_BITS),
{
    crate::float::lemma_clamped_in_range(ratio.bits, ZERO_BITS, ONE_BITS);
}

impl TimelineModel {
    /// Creates a timeline from a playback snapshot.
    pub fn from_snapshot(snapshot: &PlaybackSnapshot) -> (r: TimelineModel)
        ensures
            r.position == snapshot.position,
            r.duration == snapshot.duration,
            r.buffered == snapshot.buffered,
            r.seeking == snapshot.seeking,
    {
        TimelineModel {
            position: snapshot.position,
            duration: snapshot.duration,
            buffered: snapshot.buffered,
            seeking: snapshot.seeking,
        }
    }

    /// Returns the played fraction from 0 to 1: `ratio` (the position divided
    /// by the duration, in binary64 arithmetic, computed by the caller)
    /// clamped to `[0, 1]` when the duration is known and positive, else 0.
    pub fn progress(&self, ratio: Float64) -> (r: Float64)
        ensures
            r == progress_spec(*self, ratio),
    {
        match self.duration {
            Some(d) => {
                if Float64::zero().less_than(d.0) {
                    ratio.clamp(Float64 { bits: ZERO_BITS }, Float64 { bits: ONE_BITS })
                } else {
                    Float64 { bits: ZERO_BITS }
                }
            },
            None => Float64 { bits: ZERO_BITS },
        }
    }
}

/// A model for the volume control.
#[derive(Debug, Clone, Copy, PartialEq, Eq, Structural)]
pub struct VolumeModel {
    /// Current volume from 0 to 100.
    pub value: Float64,
    /// Whether the pointer is over the control.
    pub hovered: bool,
}

impl VolumeModel {
    /// Creates a volume model.
    pub fn new(value: Float64, hovered: bool) -> (r: VolumeModel)
        ensures
            r == (VolumeModel { value, hovered }),
    {
        VolumeModel { value, hovered }
    }

    /// Returns the knob scale used by the renderer: 1.15 on hover, else 1.
    pub fn knob_scale(&self) -> (r: Float32)
        ensures
            r.bits == if self.hovered { HOVER_SCALE_F32_BITS } else { ONE_F32_BITS },
    {
        if self.hovered {
            Float32 { bits: HOVER_SCALE_F32_BITS }
        } else {
            Float32 { bits: ONE_F32_BITS }
        }
    }
}

/// The complete control-bar model.
#[derive(Debug, Clone, Copy, PartialEq)]
pub struct ControlBarModel {
    /// Whether play or pause is currently active.
    pub paused: bool,
    /// Whether the bar is visible.
    pub visible: bool,
    /// Timeline values.
    pub timeline: TimelineModel,
    /// Volume values.
    pub volume: VolumeModel,
}

impl ControlBarModel {
    /// Creates a control-bar model.
    pub fn new(paused: bool, visible: bool, timeline: TimelineModel, volume: VolumeModel) -> (r: ControlBarModel)
        ensures
            r == (ControlBarModel { paused, visible, timeline, volume }),
    {
        ControlBarModel { paused, visible, timeline, volume }
    }

    /// Returns the ordered buttons rendered in the bar.
    pub fn buttons(&self) -> (r: [ControlButton; 6])
        ensures
            r@ == seq![
                ControlButton::PlayPause,
                ControlButton::SkipBack,
                ControlButton::SkipForward,
                ControlButton::Subtitles,
                ControlButton::Settings,
                ControlButton::Fullscreen,
            ],
    {
        let r = [
            ControlButton::PlayPause,
            ControlButton::SkipBack,
            ControlButton::SkipForward,
            ControlButton::Subtitles,
            ControlButton::Settings,
            ControlButton::Fullscreen,
        ];
        assert(r@ =~= seq![
            ControlButton::PlayPause,
            ControlButton::SkipBack,
            ControlButton::SkipForward,
            ControlButton::Subtitles,
            ControlButton::Settings,
            ControlButton::Fullscreen,
        ]);
        r
    }
}

/// A clock reading of a whole number of seconds: `MM:SS` below an hour,
/// `HH:MM:SS` from an hour on.
pub open spec fn timestamp_spec(total: nat) -> Seq<char> {
    let hours = total / 3600;
    let minutes = (total % 3600) / 60;
    let seconds = total % 60;
    if hours == 0 {
        decimal2(minutes) + ":"@ + decimal2(seconds)
    } else {
        decimal2(hours) + ":"@ + decimal2(minutes) + ":"@ + decimal2(seconds)
    }
}

/// Formats a whole number of seconds as `HH:MM:SS` or `MM:SS`. Rounding a
/// position to whole seconds is the caller's part.
pub fn format_timestamp(whole_seconds: u64) -> (r: String)
    ensures
        r@ == timestamp_spec(whole_seconds as nat),
{
    let hours = whole_seconds / 3600;
    let minutes = (whole_seconds % 3600) / 60;
    let remaining = whole_seconds % 60;
    let m = decimal2_string(minutes);
    let s = decimal2_string(remaining);
    if hours == 0 {
        let a = concat(m.as_str(), ":");
        concat(a.as_str(), s.as_str())
    } else {
        let h = decimal2_string(hours);
        let a = concat(h.as_str(), ":");
        let b = concat(a.as_str(), m.as_str());
        let c = concat(b.as_str(), ":");
        concat(c.as_str(), s.as_str())
    }
}

/// A single playlist row.
#[derive(Debug, Clone, PartialEq, Eq)]
pub struct PlaylistRow {
    /// Stable row index.
    pub index: usize,
    /// Display title.
    pub title: String,
    /// Formatted duration, if known.
    pub duration: Option<String>,
    /// Whether this row is currently playing.
    pub playing: bool,
    /// Whether the equalizer animation should be shown.
    pub animated_playing_indicator: bool,
}

/// The playlist panel model.
#[derive(Debug, Clone, PartialEq)]
pub struct PlaylistPanelModel {
    /// Whether the panel is visible.
    pub visible: bool,
    /// Panel width in points.
    pub width: Float32,
    /// Rows in playlist order.
    pub rows: Vec<PlaylistRow>,
}

/// The row shown for playlist item `index`, whose duration rounds to
/// `whole_seconds`.
pub open spec fn row_matches(row: PlaylistRow, index: int, item: PlaylistItemView, whole_seconds: u64, playing_index: Option<usize>) -> bool {
    &&& row.index == index
    &&& row.title@ == item.title
    &&& (match item.duration {
        Some(_) => row.duration matches Some(label) && label@ == timestamp_spec(whole_seconds as nat),
        None => row.duration is None,
    })
    &&& row.playing == (playing_index == Some(index as usize))
    &&& row.animated_playing_indicator == (playing_index == Some(index as usize))
}

impl PlaylistPanelModel {
    /// Creates a panel from playlist items. `whole_seconds[i]` is item `i`'s
    /// duration rounded to whole seconds (read only where the duration is
    /// known).
    pub fn new(
        visible: bool,
        items: &Vec<PlaylistItem>,
        playing_index: Option<usize>,
        whole_seconds: &Vec<u64>,
    ) -> (r: PlaylistPanelModel)
        requires
            whole_seconds@.len() == items@.len(),
        ensures
            r.visible == visible,
            r.width.bits == PLAYLIST_WIDTH_F32_BITS,
            r.rows@.len() == items@.len(),
            forall|i: int| 0 <= i < items@.len() ==> row_matches(#[trigger] r.rows@[i], i, items@[i]@, whole_seconds@[i], playing_index),
    {
        let mut rows: Vec<PlaylistRow> = Vec::new();
        let mut index: usize = 0;
        while index < items.len()
            invariant
                index <= items@.len(),
                whole_seconds@.len() == items@.len(),
                rows@.len() == index,
                forall|i: int| 0 <= i < index ==> row_matches(#[trigger] rows@[i], i, items@[i]@, whole_seconds@[i], playing_index),
            decreases items@.len() - index,
        {
            let item = &items[index];
            let duration = match item.duration {
                Some(_) => Some(format_timestamp(whole_seconds[index])),
                None => None,
            };
            let playing = match playing_index {
                Some(p) => p == index,
                None => false,
            };
            rows.push(PlaylistRow {
                index,
                title: item.title.clone(),
                duration,
                playing,
                animated_playing_indicator: playing,
            });
            index = index + 1;
        }
        PlaylistPanelModel { visible, width: Float32 { bits: PLAYLIST_WIDTH_F32_BITS }, rows }
    }
}

/// A tabbed settings sheet model.
#[derive(Debug, Clone, PartialEq)]
pub struct SettingsWindowModel {
    /// Whether the sheet is visible.
    pub visible: bool,
    /// Active tab.
    pub active_tab: SettingsTab,
    /// Snapshot of the configuration being edited.
    pub config: PlaybackConfig,
}

impl SettingsWindowModel {
    /// Creates a settings model.
    pub fn new(visible: bool, active_tab: SettingsTab, config: PlaybackConfig) -> (r: SettingsWindowModel)
        ensures
            r.visible == visible,
            r.active_tab == active_tab,
            r.config == config,
    {
        SettingsWindowModel { visible, active_tab, config }
    }

    /// Returns the available settings tabs in display order.
    pub fn tabs() -> (r: [SettingsTab; 6])
        ensures
            r@ == seq![
                SettingsTab::Playback,
                SettingsTab::Video,
                SettingsTab::Audio,
                SettingsTab::Subtitles,
                SettingsTab::Interface,
                SettingsTab::Keybindings,
            ],
    {
        let r = [
            SettingsTab::Playback,
            SettingsTab::Video,
            SettingsTab::Audio,
            SettingsTab::Subtitles,
            SettingsTab::Interface,
            SettingsTab::Keybindings,
        ];
        assert(r@ =~= seq![
            SettingsTab::Playback,
            SettingsTab::Video,
            SettingsTab::Audio,
            SettingsTab::Subtitles,
            SettingsTab::Interface,
            SettingsTab::Keybindings,
        ]);
        r
    }
}

/// The model used to render a subtitle overlay.
#[derive(Debug, Clone, PartialEq, Eq)]
pub struct SubtitleOverlayModel {
    /// Whether subtitles should be rendered.
    pub visible: bool,
    /// Current subtitle text, if any.
    pub text: Option<String>,
    /// Font size in points.
    pub font_size: u32,
    /// Foreground color.
    pub color: String,
    /// Border color.
    pub border_color: String,
    /// Border width in points.
    pub border_size: u32,
}

impl SubtitleOverlayModel {
    /// Creates an overlay model from configuration, with no cue shown.
    pub fn from_settings(settings: &SubtitleSettings) -> (r: SubtitleOverlayModel)
        ensures
            r.visible == settings.enabled,
            r.text is None,
            r.font_size == settings.font_size,
            r.color@ == settings.color@,
            r.border_color@ == settings.border_color@,
            r.border_size == settings.border_size,
    {
        SubtitleOverlayModel {
            visible: settings.enabled,
            text: None,
            font_size: settings.font_size,
            color: settings.color.clone(),
            border_color: settings.border_color.clone(),
            border_size: settings.border_size,
        }
    }

    /// Sets the currently active subtitle cue.
    pub fn set_text(&mut self, text: Option<String>)
        ensures
            final(self).text == text,
            final(self).visible == old(self).visible,
            final(self).font_size == old(self).font_size,
            final(self).color == old(self).color,
            final(self).border_color == old(self).border_color,
            final(self).border_size == old(self).border_size,
    {
        self.text = text;
    }
}

} // verus!
