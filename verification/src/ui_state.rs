//! UI state and interaction model independent of a rendering backend.

use vstd::prelude::*;
use crate::config::PlaybackConfig;
use crate::float::{Float64, HUNDRED_BITS, MAX_FINITE_BITS, ZERO_BITS, clamped, is_finite, is_nan, order_key};
use crate::state::{PlaybackSnapshot, PlaybackView, Seconds, state_valid};
use crate::theme::{Theme, theme_hig};

verus! {

/// A settings-sheet section.
#[derive(Debug, Clone, Copy, PartialEq, Eq, Structural)]
pub enum SettingsTab {
    /// Playback controls and startup behavior.
    Playback,
    /// Video rendering options.
    Video,
    /// Audio options.
    Audio,
    /// Subtitle options.
    Subtitles,
    /// Interface and appearance options.
    Interface,
    /// Keyboard shortcuts.
    Keybindings,
}

/// Whether playback controls are currently visible.
#[derive(Debug, Clone, Copy, PartialEq, Eq, Structural)]
pub enum ControlVisibility {
    /// Controls are visible.
    Visible,
    /// Controls are hidden after inactivity.
    Hidden,
}

/// A user interaction understood by the UI model.
#[derive(Debug, Clone, Copy, PartialEq, Eq, Structural)]
pub enum UiCommand {
    /// Toggles play and pause.
    TogglePlay,
    /// Seeks by a relative number of seconds.
    SeekRelative(Float64),
    /// Sets the absolute position.
    SeekAbsolute(Float64),
    /// Sets volume as a percentage.
    SetVolume(Float64),
    /// Toggles subtitle visibility.
    ToggleSubtitles,
    /// Toggles fullscreen.
    ToggleFullscreen,
    /// Toggles playlist visibility.
    TogglePlaylist,
    /// Opens the settings sheet.
    OpenSettings(SettingsTab),
    /// Closes the settings sheet.
    CloseSettings,
    /// Records user activity.
    Activity,
}

/// The render-ready state shared by the player and library views.
#[derive(Debug, Clone, PartialEq)]
pub struct UiState {
    /// Active visual theme.
    pub theme: Theme,
    /// Latest playback snapshot.
    pub playback: PlaybackSnapshot,
    /// Current controls visibility.
    pub controls: ControlVisibility,
    /// Whether the playlist sidebar is visible.
    pub playlist_visible: bool,
    /// Whether the settings sheet is visible.
    pub settings_visible: bool,
    /// Active settings section.
    pub settings_tab: SettingsTab,
    /// Whether the player is in fullscreen.
    pub fullscreen: bool,
    /// Whether subtitles are shown (the selected track stays selected while
    /// they are hidden).
    pub subtitles_visible: bool,
    /// Last activity timestamp in milliseconds.
    pub last_activity_ms: u64,
}

/// The view of a [`UiState`].
pub struct UiStateView {
    pub theme: Theme,
    pub playback: PlaybackView,
    pub controls: ControlVisibility,
    pub playlist_visible: bool,
    pub settings_visible: bool,
    pub settings_tab: SettingsTab,
    pub fullscreen: bool,
    pub subtitles_visible: bool,
    pub last_activity_ms: u64,
}

impl View for UiState {
    type V = UiStateView;

    open spec fn view(&self) -> UiStateView {
        UiStateView {
            theme: self.theme,
            playback: self.playback@,
            controls: self.controls,
            playlist_visible: self.playlist_visible,
            settings_visible: self.settings_visible,
            settings_tab: self.settings_tab,
            fullscreen: self.fullscreen,
            subtitles_visible: self.subtitles_visible,
            last_activity_ms: self.last_activity_ms,
        }
    }
}

/// The latest position a seek can reach: the duration when known, else the
/// largest finite value.
pub open spec fn seek_limit(duration: Option<Seconds>) -> u64 {
    match duration {
        Some(d) => d.0.bits,
        None => MAX_FINITE_BITS,
    }
}

/// `value.clamp(0.0, limit)` does not panic: the limit is a number not
/// below zero.
pub open spec fn seek_limit_usable(duration: Option<Seconds>) -> bool {
    !is_nan(seek_limit(duration)) && order_key(ZERO_BITS) <= order_key(seek_limit(duration))
}

/// The state after one interaction. `relative_target` is only read for
/// `SeekRelative`: it is the current position plus the offset, added in
/// binary64 arithmetic by the caller.
pub open spec fn apply_spec(s: UiStateView, command: UiCommand, relative_target: Float64) -> UiStateView {
    match command {
        UiCommand::TogglePlay => UiStateView {
            playback: PlaybackView { paused: !s.playback.paused, ..s.playback },
            ..s
        },
        UiCommand::SeekRelative(_) => UiStateView {
            playback: PlaybackView {
                position: Seconds(
                    Float64 { bits: clamped(relative_target.bits, ZERO_BITS, seek_limit(s.playback.duration)) },
                ),
                ..s.playback
            },
            ..s
        },
        UiCommand::SeekAbsolute(seconds) => UiStateView {
            playback: PlaybackView {
                position: Seconds(
                    Float64 { bits: clamped(seconds.bits, ZERO_BITS, seek_limit(s.playback.duration)) },
                ),
                ..s.playback
            },
            ..s
        },
        UiCommand::SetVolume(volume) => if is_finite(volume.bits) {
            UiStateView {
                playback: PlaybackView {
                    volume: Float64 { bits: clamped(volume.bits, ZERO_BITS, HUNDRED_BITS) },
                    ..s.playback
                },
                ..s
            }
        } else {
            s
        },
        UiCommand::ToggleSubtitles => UiStateView { subtitles_visible: !s.subtitles_visible, ..s },
        UiCommand::ToggleFullscreen => UiStateView {
            fullscreen: !s.fullscreen,
            controls: ControlVisibility::Visible,
            ..s
        },
        UiCommand::TogglePlaylist => UiStateView { playlist_visible: !s.playlist_visible, ..s },
        UiCommand::OpenSettings(tab) => UiStateView {
            settings_tab: tab,
            settings_visible: true,
            ..s
        },
        UiCommand::CloseSettings => UiStateView { settings_visible: false, ..s },
        UiCommand::Activity => UiStateView {
            last_activity_ms: if s.last_activity_ms == u64::MAX {
                u64::MAX
            } else {
                (s.last_activity_ms + 1) as u64
            },
            controls: ControlVisibility::Visible,
            ..s
        },
    }
}

/// Whether an interaction changes the state: everything does except a
/// volume that is not finite.
pub open spec fn apply_changes(command: UiCommand) -> bool {
    match command {
        UiCommand::SetVolume(volume) => is_finite(volume.bits),
        _ => true,
    }
}

/// A command that moves the position.
pub open spec fn is_seek(command: UiCommand) -> bool {
    command is SeekRelative || command is SeekAbsolute
}

/// The state after a tick at `now_ms`: in fullscreen, controls hide once
/// the reveal duration has passed since the last activity.
pub open spec fn tick_hides(s: UiStateView, now_ms: u64) -> bool {
    s.fullscreen && (if now_ms >= s.last_activity_ms {
        now_ms - s.last_activity_ms
    } else {
        0
    }) >= s.theme.animation.controls_reveal.milliseconds
}

impl UiState {
    /// Creates a UI state from playback and configuration data; subtitles
    /// start shown when the configuration enables them.
    pub fn new(playback: PlaybackSnapshot, config: &PlaybackConfig) -> (r: UiState)
        ensures
            r.theme == theme_hig(),
            r.playback == playback,
            r.controls == ControlVisibility::Visible,
            r.playlist_visible == config.interface.show_playlist,
            !r.settings_visible,
            r.settings_tab == SettingsTab::Playback,
            !r.fullscreen,
            r.subtitles_visible == config.subtitles.enabled,
            r.last_activity_ms == 0,
    {
        UiState {
            theme: Theme::macos_hig(),
            playback,
            controls: ControlVisibility::Visible,
            playlist_visible: config.interface().show_playlist,
            settings_visible: false,
            settings_tab: SettingsTab::Playback,
            fullscreen: false,
            subtitles_visible: config.subtitles().enabled(),
            last_activity_ms: 0,
        }
    }

    /// Applies one interaction and returns whether state changed.
    ///
    /// For `SeekRelative(offset)` the caller passes `relative_target`, the
    /// current position plus `offset` in binary64 arithmetic; the position
    /// becomes that target clamped between zero and the duration (or the
    /// largest finite value while the duration is unknown). Other commands
    /// ignore it.
    pub fn apply(&mut self, command: UiCommand, relative_target: Float64) -> (r: bool)
        requires
            is_seek(command) ==> seek_limit_usable(old(self).playback.duration),
        ensures
            final(self)@ == apply_spec(old(self)@, command, relative_target),
            r == apply_changes(command),
    {
        match command {
            UiCommand::TogglePlay => {
                self.playback.paused = !self.playback.paused;
                true
            },
            UiCommand::SeekRelative(_) => {
                let maximum = match self.playback.duration {
                    Some(d) => d.0,
                    None => Float64 { bits: MAX_FINITE_BITS },
                };
                self.playback.position = Seconds(
                    relative_target.clamp(Float64 { bits: ZERO_BITS }, maximum),
                );
                true
            },
            UiCommand::SeekAbsolute(seconds) => {
                let maximum = match self.playback.duration {
                    Some(d) => d.0,
                    None => Float64 { bits: MAX_FINITE_BITS },
                };
                self.playback.position = Seconds(seconds.clamp(Float64 { bits: ZERO_BITS }, maximum));
                true
            },
            UiCommand::SetVolume(volume) => {
                if !volume.is_finite() {
                    return false;
                }
                self.playback.volume = volume.clamp(
                    Float64 { bits: ZERO_BITS },
                    Float64 { bits: HUNDRED_BITS },
                );
                true
            },
            UiCommand::ToggleSubtitles => {
                self.subtitles_visible = !self.subtitles_visible;
                true
            },
            UiCommand::ToggleFullscreen => {
                self.fullscreen = !self.fullscreen;
                self.controls = ControlVisibility::Visible;
                true
            },
            UiCommand::TogglePlaylist => {
                self.playlist_visible = !self.playlist_visible;
                true
            },
            UiCommand::OpenSettings(tab) => {
                self.settings_tab = tab;
                self.settings_visible = true;
                true
            },
            UiCommand::CloseSettings => {
                self.settings_visible = false;
                true
            },
            UiCommand::Activity => {
                self.last_activity_ms = self.last_activity_ms.saturating_add(1);
                self.controls = ControlVisibility::Visible;
                true
            },
        }
    }

    /// Advances the inactivity timer and hides fullscreen controls when
    /// idle; returns whether the controls changed.
    pub fn tick(&mut self, now_ms: u64) -> (r: bool)
        ensures
            tick_hides(old(self)@, now_ms) ==> final(self)@ == (UiStateView {
                controls: ControlVisibility::Hidden,
                ..old(self)@
            }),
            !tick_hides(old(self)@, now_ms) ==> final(self)@ == old(self)@,
            r == (tick_hides(old(self)@, now_ms) && old(self).controls != ControlVisibility::Hidden),
    {
        if !self.fullscreen {
            return false;
        }
        let timeout = self.theme.animation.controls_reveal.milliseconds;
        if now_ms.saturating_sub(self.last_activity_ms) >= timeout {
            let changed = self.controls != ControlVisibility::Hidden;
            self.controls = ControlVisibility::Hidden;
            changed
        } else {
            false
        }
    }

    /// Returns a stable snapshot for rendering or diagnostics.
    pub fn render_snapshot(&self) -> (r: UiState)
        ensures
            r@ == self@,
    {
        UiState {
            theme: self.theme,
            playback: self.playback.duplicate(),
            controls: self.controls,
            playlist_visible: self.playlist_visible,
            settings_visible: self.settings_visible,
            settings_tab: self.settings_tab,
            fullscreen: self.fullscreen,
            subtitles_visible: self.subtitles_visible,
            last_activity_ms: self.last_activity_ms,
        }
    }
}

/// Toggling subtitles twice leaves the state as it was: the second toggle
/// shows again what the first hid (the selected track is never dropped).
pub proof fn law_toggle_subtitles_twice(s: UiStateView, t1: Float64, t2: Float64)
    ensures
        apply_spec(apply_spec(s, UiCommand::ToggleSubtitles, t1), UiCommand::ToggleSubtitles, t2) == s,
        apply_spec(s, UiCommand::ToggleSubtitles, t1).playback == s.playback,
        apply_spec(s, UiCommand::ToggleSubtitles, t1).subtitles_visible == !s.subtitles_visible,
{
}

/// Toggling play twice leaves the state as it was.
pub proof fn law_toggle_play_twice(s: UiStateView, t1: Float64, t2: Float64)
    ensures
        apply_spec(apply_spec(s, UiCommand::TogglePlay, t1), UiCommand::TogglePlay, t2) == s,
{
}

/// A finite volume request always leaves the volume within 0–100.
pub proof fn law_volume_stays_in_range(s: UiStateView, volume: Float64, t: Float64)
    requires
        is_finite(volume.bits),
    ensures
        order_key(ZERO_BITS) <= order_key(apply_spec(s, UiCommand::SetVolume(volume), t).playback.volume.bits) <= order_key(HUNDRED_BITS),
        !is_nan(apply_spec(s, UiCommand::SetVolume(volume), t).playback.volume.bits),
{
    crate::float::lemma_clamped_in_range(volume.bits, ZERO_BITS, HUNDRED_BITS);
}

/// A seek never lands before zero or past the seek limit (the duration,
/// or the largest finite value while it is unknown), for an absolute target
/// or a relative one (`t`, the position plus the offset) that is a number.
pub proof fn law_seek_stays_in_range(s: UiStateView, seconds: Float64, offset: Float64, t: Float64)
    requires
        seek_limit_usable(s.playback.duration),
        !is_nan(seconds.bits),
        !is_nan(t.bits),
    ensures
        order_key(ZERO_BITS) <= order_key(apply_spec(s, UiCommand::SeekAbsolute(seconds), t).playback.position.0.bits) <= order_key(seek_limit(s.playback.duration)),
        order_key(ZERO_BITS) <= order_key(apply_spec(s, UiCommand::SeekRelative(offset), t).playback.position.0.bits) <= order_key(seek_limit(s.playback.duration)),
        !is_nan(apply_spec(s, UiCommand::SeekAbsolute(seconds), t).playback.position.0.bits),
        !is_nan(apply_spec(s, UiCommand::SeekRelative(offset), t).playback.position.0.bits),
{
    crate::float::lemma_clamped_in_range(seconds.bits, ZERO_BITS, seek_limit(s.playback.duration));
    crate::float::lemma_clamped_in_range(t.bits, ZERO_BITS, seek_limit(s.playback.duration));
}

/// Every interaction keeps a valid playback state valid (a usable
/// position, a volume within 0–100, a finite positive speed), provided a
/// seek's target is a number.
pub proof fn law_commands_keep_playback_valid(s: UiStateView, command: UiCommand, t: Float64)
    requires
        state_valid(s.playback),
        command is SeekRelative ==> !is_nan(t.bits),
        command matches UiCommand::SeekAbsolute(x) ==> !is_nan(x.bits),
    ensures
        state_valid(apply_spec(s, command, t).playback),
{
    let limit = seek_limit(s.playback.duration);
    assert(!is_nan(limit) && order_key(ZERO_BITS) <= order_key(limit) && crate::float::is_finite(limit));
    match command {
        UiCommand::SeekRelative(_) => {
            crate::float::lemma_clamped_in_range(t.bits, ZERO_BITS, limit);
            crate::float::lemma_between_zero_and_finite(clamped(t.bits, ZERO_BITS, limit), limit);
        },
        UiCommand::SeekAbsolute(x) => {
            crate::float::lemma_clamped_in_range(x.bits, ZERO_BITS, limit);
            crate::float::lemma_between_zero_and_finite(clamped(x.bits, ZERO_BITS, limit), limit);
        },
        UiCommand::SetVolume(v) => {
            if is_finite(v.bits) {
                crate::float::lemma_clamped_in_range(v.bits, ZERO_BITS, HUNDRED_BITS);
            }
        },
        _ => {},
    }
}

/// Toggling fullscreen flips fullscreen and always shows the controls,
/// whatever they were (hidden after an idle tick in fullscreen, say); it
/// changes nothing else.
pub proof fn law_toggle_fullscreen_shows_controls(s: UiStateView, t: Float64)
    ensures
        apply_spec(s, UiCommand::ToggleFullscreen, t).fullscreen == !s.fullscreen,
        apply_spec(s, UiCommand::ToggleFullscreen, t).controls == ControlVisibility::Visible,
        ({
            let after = apply_spec(s, UiCommand::ToggleFullscreen, t);
            &&& after.theme == s.theme
            &&& after.playback == s.playback
            &&& after.playlist_visible == s.playlist_visible
            &&& after.settings_visible == s.settings_visible
            &&& after.settings_tab == s.settings_tab
            &&& after.subtitles_visible == s.subtitles_visible
            &&& after.last_activity_ms == s.last_activity_ms
        }),
        apply_spec(apply_spec(s, UiCommand::ToggleFullscreen, t), UiCommand::ToggleFullscreen, t).fullscreen
            == s.fullscreen,
{
}

/// Leaving fullscreen after the controls hid brings them back: hidden
/// controls in fullscreen are visible again once fullscreen is toggled
/// off.
pub proof fn law_leaving_fullscreen_shows_hidden_controls(s: UiStateView, t: Float64)
    requires
        s.fullscreen,
        s.controls == ControlVisibility::Hidden,
    ensures
        !apply_spec(s, UiCommand::ToggleFullscreen, t).fullscreen,
        apply_spec(s, UiCommand::ToggleFullscreen, t).controls != s.controls,
{
}

/// The panels answer their own commands: toggling the playlist twice
/// gives the state back and flips only its visibility; opening settings on
/// a tab shows that tab, and closing hides them again; any activity shows
/// the controls and never moves the activity clock back.
pub proof fn law_panels_follow_their_commands(s: UiStateView, tab: SettingsTab, t: Float64)
    ensures
        apply_spec(s, UiCommand::TogglePlaylist, t).playlist_visible == !s.playlist_visible,
        apply_spec(apply_spec(s, UiCommand::TogglePlaylist, t), UiCommand::TogglePlaylist, t) == s,
        apply_spec(s, UiCommand::OpenSettings(tab), t).settings_visible,
        apply_spec(s, UiCommand::OpenSettings(tab), t).settings_tab == tab,
        !apply_spec(apply_spec(s, UiCommand::OpenSettings(tab), t), UiCommand::CloseSettings, t).settings_visible,
        apply_spec(apply_spec(s, UiCommand::OpenSettings(tab), t), UiCommand::CloseSettings, t).settings_tab == tab,
        apply_spec(s, UiCommand::Activity, t).controls == ControlVisibility::Visible,
        apply_spec(s, UiCommand::Activity, t).last_activity_ms >= s.last_activity_ms,
        apply_spec(s, UiCommand::Activity, t).fullscreen == s.fullscreen,
{
}

} // verus!
