//! The platform-neutral application model and the messages it receives.

use vstd::prelude::*;
use crate::config::PlaybackConfig;
use crate::float::Float64;
use crate::state::PlaybackSnapshot;
use crate::theme::theme_hig;
use crate::ui_state::{
    ControlVisibility, SettingsTab, UiCommand, UiState, apply_changes, apply_spec, is_seek,
    seek_limit_usable,
};
use crate::views::{PlayerViewModel, composed};

verus! {

/// Errors returned by the UI message channel.
#[derive(Debug, Clone, Copy, PartialEq, Eq, Structural)]
pub enum UiChannelError {
    /// The receiving side has been dropped.
    Disconnected,
    /// A non-blocking send found a full channel.
    Full,
    /// A non-blocking receive found no message.
    Empty,
}

/// The text a channel error displays.
pub open spec fn channel_error_text(error: UiChannelError) -> Seq<char> {
    match error {
        UiChannelError::Disconnected => "UI channel is disconnected"@,
        UiChannelError::Full => "UI channel is full"@,
        UiChannelError::Empty => "UI channel is empty"@,
    }
}

impl UiChannelError {
    /// The text this error displays.
    pub fn message(&self) -> (r: &'static str)
        ensures
            r@ == channel_error_text(*self),
    {
        match self {
            UiChannelError::Disconnected => "UI channel is disconnected",
            UiChannelError::Full => "UI channel is full",
            UiChannelError::Empty => "UI channel is empty",
        }
    }
}

/// A message delivered to the UI event loop.
#[derive(Debug, Clone, PartialEq)]
pub enum UiMessage {
    /// Apply a user interaction.
    Command(UiCommand),
    /// Replace the rendered playback snapshot.
    Playback(PlaybackSnapshot),
    /// Replace the active configuration.
    Config(Box<PlaybackConfig>),
    /// Stop the UI event loop.
    Shutdown,
}

/// Creates the default application state.
pub fn default_state(playback: PlaybackSnapshot, config: &PlaybackConfig) -> (r: UiState)
    ensures
        r.theme == theme_hig(),
        r.playback == playback,
        r.controls == ControlVisibility::Visible,
        r.playlist_visible == config.interface.show_playlist,
        !r.settings_visible,
        r.settings_tab == SettingsTab::Playback,
        !r.fullscreen,
        r.subtitles_visible == config.subtitles.enabled,
        r.last_activity_ms == 0,
{
    UiState::new(playback, config)
}

/// The platform-neutral application model.
#[derive(Debug, Clone, PartialEq)]
pub struct PlaybackApplication {
    state: UiState,
    config: PlaybackConfig,
}

impl PlaybackApplication {
    /// The UI state.
    pub closed spec fn state_spec(&self) -> UiState {
        self.state
    }

    /// The configuration.
    pub closed spec fn config_spec(&self) -> PlaybackConfig {
        self.config
    }

    /// Creates an application model.
    pub fn new(playback: PlaybackSnapshot, config: PlaybackConfig) -> (r: PlaybackApplication)
        ensures
            r.state_spec().theme == theme_hig(),
            r.state_spec().playback == playback,
            r.state_spec().controls == ControlVisibility::Visible,
            r.state_spec().playlist_visible == config.interface.show_playlist,
            !r.state_spec().settings_visible,
            r.state_spec().settings_tab == SettingsTab::Playback,
            !r.state_spec().fullscreen,
            r.state_spec().subtitles_visible == config.subtitles.enabled,
            r.state_spec().last_activity_ms == 0,
            r.config_spec() == config,
    {
        let state = UiState::new(playback, &config);
        PlaybackApplication { state, config }
    }

    /// Applies a UI command (see [`UiState::apply`] for `relative_target`).
    pub fn apply(&mut self, command: UiCommand, relative_target: Float64) -> (r: bool)
        requires
            is_seek(command) ==> seek_limit_usable(old(self).state_spec().playback.duration),
        ensures
            final(self).state_spec()@ == apply_spec(old(self).state_spec()@, command, relative_target),
            final(self).config_spec() == old(self).config_spec(),
            r == apply_changes(command),
    {
        self.state.apply(command, relative_target)
    }

    /// Handles a message received from another thread; returns `false` for
    /// `Shutdown` and for a command that changed nothing.
    pub fn handle_message(&mut self, message: UiMessage, relative_target: Float64) -> (r: bool)
        requires
            message matches UiMessage::Command(c) && is_seek(c) ==> seek_limit_usable(
                old(self).state_spec().playback.duration,
            ),
        ensures
            match message {
                UiMessage::Command(c) => {
                    &&& final(self).state_spec()@ == apply_spec(old(self).state_spec()@, c, relative_target)
                    &&& final(self).config_spec() == old(self).config_spec()
                    &&& r == apply_changes(c)
                },
                UiMessage::Playback(snapshot) => {
                    &&& final(self).state_spec() == (UiState { playback: snapshot, ..old(self).state_spec() })
                    &&& final(self).config_spec() == old(self).config_spec()
                    &&& r
                },
                UiMessage::Config(config) => {
                    &&& final(self).config_spec() == *config
                    &&& final(self).state_spec() == (UiState {
                        playlist_visible: config.interface.show_playlist,
                        ..old(self).state_spec()
                    })
                    &&& r
                },
                UiMessage::Shutdown => *final(self) == *old(self) && !r,
            },
    {
        match message {
            UiMessage::Command(command) => self.apply(command, relative_target),
            UiMessage::Playback(snapshot) => {
                self.state.playback = snapshot;
                true
            },
            UiMessage::Config(config) => {
                self.replace_config(*config);
                true
            },
            UiMessage::Shutdown => false,
        }
    }

    /// Replaces the current configuration and reapplies interface defaults.
    pub fn replace_config(&mut self, config: PlaybackConfig)
        ensures
            final(self).config_spec() == config,
            final(self).state_spec() == (UiState {
                playlist_visible: config.interface.show_playlist,
                ..old(self).state_spec()
            }),
    {
        self.config = config;
        self.state.playlist_visible = self.config.interface().show_playlist;
    }

    /// Returns the current configuration.
    pub fn config(&self) -> (r: &PlaybackConfig)
        ensures
            *r == self.config_spec(),
    {
        &self.config
    }

    /// Builds a render-ready player view (see [`PlayerViewModel::from_state`]
    /// for `whole_seconds`).
    pub fn player_view(&self, whole_seconds: &Vec<u64>) -> (r: PlayerViewModel)
        requires
            whole_seconds@.len() == self.state_spec().playback.playlist@.len(),
        ensures
            r.state@ == self.state_spec()@,
            composed(r, self.state_spec()@, whole_seconds@),
    {
        let snapshot = self.state.render_snapshot();
        assert(crate::state::playlist_view(snapshot.playback.playlist@).len() == snapshot.playback.playlist@.len());
        assert(crate::state::playlist_view(self.state.playback.playlist@).len() == self.state.playback.playlist@.len());
        PlayerViewModel::from_state(snapshot, whole_seconds)
    }

    /// Returns the underlying UI state.
    pub fn state(&self) -> (r: &UiState)
        ensures
            *r == self.state_spec(),
    {
        &self.state
    }
}

} // verus!
