use playback::application::{PlaybackApplication, UiChannelError, UiMessage, default_state};
use playback::components::{
    ControlBarModel, ControlButton, PlaylistPanelModel, SettingsWindowModel, SubtitleOverlayModel,
    TimelineModel, VolumeModel, format_timestamp,
};
use playback::config::{PlaybackConfig, SubtitleSettings};
use playback::float::{Float32, Float64};
use playback::state::{PlaybackSnapshot, PlaylistItem, Seconds};
use playback::theme::{
    AnimationCurve, AnimationTokens, Color, ColorTokens, FontFamily, Theme, TypographyTokens,
};
use playback::ui_state::{ControlVisibility, SettingsTab, UiCommand, UiState};
use playback::views::{LibraryViewModel, PlayerViewModel};

fn float(value: f64) -> Float64 {
    Float64::from_bits(value.to_bits())
}

fn value_of(value: Float64) -> f64 {
    f64::from_bits(value.bits)
}

fn points(value: Float32) -> f32 {
    f32::from_bits(value.bits)
}

fn seconds(value: f64) -> Seconds {
    Seconds::new(float(value))
}

/// Rounds a time to whole seconds the way the renderer does.
fn whole_seconds(value: Seconds) -> u64 {
    format!("{:.0}", value_of(value.as_float()).max(0.0)).parse::<u64>().unwrap_or(u64::MAX)
}

fn durations(items: &[PlaylistItem]) -> Vec<u64> {
    items.iter().map(|item| item.duration.map_or(0, whole_seconds)).collect()
}

/// The position a relative seek aims at, in binary64 arithmetic.
fn relative_target(state: &UiState, command: UiCommand) -> Float64 {
    match command {
        UiCommand::SeekRelative(offset) => {
            float(value_of(state.playback.position.as_float()) + value_of(offset))
        }
        _ => Float64::zero(),
    }
}

fn snapshot(position: f64, duration: Option<f64>, volume: f64, paused: bool) -> PlaybackSnapshot {
    PlaybackSnapshot {
        paused,
        seeking: false,
        position: seconds(position),
        duration: duration.map(seconds),
        buffered: None,
        volume: float(volume),
        speed: float(1.0),
        loop_file: false,
        audio_track: None,
        subtitle_track: None,
        playlist: Vec::new(),
    }
}

fn apply(state: &mut UiState, command: UiCommand) -> bool {
    let target = relative_target(state, command);
    state.apply(command, target)
}

#[test]
fn initializes_from_interface_configuration() {
    let state = UiState::new(snapshot(0.0, Some(120.0), 100.0, false), &PlaybackConfig::default());
    assert!(state.playlist_visible);
    assert_eq!(state.controls, ControlVisibility::Visible);
}

#[test]
fn clamps_seek_and_volume_commands() {
    let mut state = UiState::new(snapshot(10.0, Some(20.0), 50.0, false), &PlaybackConfig::default());
    apply(&mut state, UiCommand::SeekRelative(float(-100.0)));
    assert!((value_of(state.playback.position.as_float()) - 0.0).abs() < f64::EPSILON);
    apply(&mut state, UiCommand::SetVolume(float(400.0)));
    assert!((value_of(state.playback.volume) - 100.0).abs() < f64::EPSILON);
}

#[test]
fn fullscreen_controls_hide_after_timeout() {
    let mut state = UiState::new(snapshot(0.0, None, 100.0, false), &PlaybackConfig::default());
    apply(&mut state, UiCommand::ToggleFullscreen);
    state.tick(350);
    assert_eq!(state.controls, ControlVisibility::Hidden);
}

#[test]
fn settings_tab_is_selectable() {
    let mut state = UiState::new(snapshot(0.0, None, 100.0, false), &PlaybackConfig::default());
    apply(&mut state, UiCommand::OpenSettings(SettingsTab::Keybindings));
    assert!(state.settings_visible);
    assert_eq!(state.settings_tab, SettingsTab::Keybindings);
}

#[test]
fn applies_commands_to_state() {
    let mut app = PlaybackApplication::new(snapshot(0.0, None, 100.0, false), PlaybackConfig::default());
    assert!(app.apply(UiCommand::TogglePlay, Float64::zero()));
    assert!(app.state().playback.paused);
}

#[test]
fn handles_thread_messages() {
    let mut app = PlaybackApplication::new(snapshot(0.0, None, 100.0, false), PlaybackConfig::default());
    assert!(app.handle_message(UiMessage::Command(UiCommand::TogglePlay), Float64::zero()));
    assert!(app.state().playback.paused);
    assert!(!app.handle_message(UiMessage::Shutdown, Float64::zero()));
}

#[test]
fn replaces_configuration() {
    let mut app = PlaybackApplication::new(snapshot(0.0, None, 100.0, false), PlaybackConfig::default());
    let mut config = PlaybackConfig::default();
    config.interface.show_playlist = false;
    app.replace_config(config);
    assert!(!app.state().playlist_visible);
}

#[test]
fn creates_default_state() {
    let state = default_state(snapshot(0.0, None, 100.0, false), &PlaybackConfig::default());
    assert!((points(state.theme.playlist_width) - 280.0).abs() < f32::EPSILON);
}

#[test]
fn timeline_clamps_progress() {
    let timeline = TimelineModel {
        position: seconds(15.0),
        duration: Some(seconds(10.0)),
        buffered: None,
        seeking: false,
    };
    let ratio = float(15.0 / 10.0);
    assert!((value_of(timeline.progress(ratio)) - 1.0).abs() < f64::EPSILON);
}

#[test]
fn volume_knob_scales_on_hover() {
    assert!((points(VolumeModel::new(float(50.0), false).knob_scale()) - 1.0).abs() < f32::EPSILON);
    assert!((points(VolumeModel::new(float(50.0), true).knob_scale()) - 1.15).abs() < f32::EPSILON);
}

#[test]
fn control_bar_has_stable_button_order() {
    let bar = ControlBarModel::new(
        false,
        true,
        TimelineModel { position: seconds(0.0), duration: None, buffered: None, seeking: false },
        VolumeModel::new(float(100.0), false),
    );
    assert_eq!(bar.buttons()[0], ControlButton::PlayPause);
    assert_eq!(bar.buttons()[5], ControlButton::Fullscreen);
}

#[test]
fn timestamps_are_human_readable() {
    assert_eq!(format_timestamp(whole_seconds(seconds(65.0))), "01:05");
    assert_eq!(format_timestamp(whole_seconds(seconds(3661.0))), "01:01:01");
}

#[test]
fn marks_playing_row() {
    let items = vec![
        PlaylistItem { path: "one.mkv".to_owned(), title: "One".to_owned(), duration: Some(seconds(12.0)) },
        PlaylistItem { path: "two.mkv".to_owned(), title: "Two".to_owned(), duration: None },
    ];
    let panel = PlaylistPanelModel::new(true, &items, Some(1), &durations(&items));
    assert!(!panel.rows[0].playing);
    assert!(panel.rows[1].playing);
    assert!(panel.rows[1].animated_playing_indicator);
    assert_eq!(panel.rows[0].duration.as_deref(), Some("00:12"));
    assert_eq!(panel.rows[1].duration, None);
    assert!((points(panel.width) - 280.0).abs() < f32::EPSILON);
}

#[test]
fn exposes_all_sections() {
    assert_eq!(SettingsWindowModel::tabs().len(), 6);
    let model = SettingsWindowModel::new(true, SettingsTab::Interface, PlaybackConfig::default());
    assert!(model.visible);
    assert_eq!(model.active_tab, SettingsTab::Interface);
}

#[test]
fn reflects_subtitle_configuration() {
    let model = SubtitleOverlayModel::from_settings(&SubtitleSettings::default());
    assert!(model.visible);
    assert_eq!(model.font_size, 52);
    assert_eq!(model.color, "#FFFFFF");
}

#[test]
fn stores_active_cue() {
    let mut model = SubtitleOverlayModel::from_settings(&SubtitleSettings::default());
    model.set_text(Some("Hello".to_owned()));
    assert_eq!(model.text.as_deref(), Some("Hello"));
}

#[test]
fn selects_library_rows() {
    let items = vec![PlaylistItem { path: "movie.mkv".to_owned(), title: "Movie".to_owned(), duration: None }];
    let mut library = LibraryViewModel::from_items(&items);
    assert!(library.select(Some(0)));
    assert!(library.rows[0].selected);
    assert!(!library.select(Some(1)));
}

#[test]
fn composes_player_components() {
    let state = UiState::new(snapshot(0.0, Some(60.0), 80.0, true), &PlaybackConfig::default());
    let view = PlayerViewModel::from_state(state, &Vec::new());
    assert!(view.controls.paused);
    assert!((value_of(view.controls.volume.value) - 80.0).abs() < f64::EPSILON);
}

#[test]
fn uses_short_spring_interactions() {
    let animation = AnimationTokens::macos_hig();
    assert_eq!(animation.icon_crossfade.milliseconds, 200);
    assert_eq!(animation.controls_reveal.milliseconds, 350);
    assert_eq!(animation.window_reflow.milliseconds, 150);
    assert_eq!(animation.control_curve, AnimationCurve::Spring);
}

#[test]
fn macos_palette_uses_hig_accent() {
    let colors = ColorTokens::macos_hig();
    assert_eq!(colors.accent, Color::rgb(10, 132, 255));
    assert_eq!(colors.window, Color::rgb(30, 30, 30));
    assert_eq!(colors.text_primary, Color::rgb(245, 245, 245));
}

#[test]
fn alpha_is_preserved() {
    let color = Color::rgba(30, 30, 30, 184);
    assert_eq!(color.alpha, 184);
}

#[test]
fn theme_contains_macos_hig_tokens() {
    let theme = Theme::macos_hig();
    assert_eq!(theme.colors.accent, Color::rgb(10, 132, 255));
    assert!((points(theme.typography.body.points) - 15.0).abs() < f32::EPSILON);
    assert!((points(theme.minimum_touch_target) - 44.0).abs() < f32::EPSILON);
    assert!((points(theme.playlist_width) - 280.0).abs() < f32::EPSILON);
}

#[test]
fn base_type_is_fifteen_points() {
    let typography = TypographyTokens::macos_hig();
    assert!((points(typography.body.points) - 15.0).abs() < f32::EPSILON);
    assert_eq!(typography.family, FontFamily::SystemDisplay);
    assert_eq!(typography.family.name(), "SF Pro Display");
}

#[test]
fn timestamps_use_monospace() {
    let typography = TypographyTokens::macos_hig();
    assert_eq!(typography.monospace_family, FontFamily::SystemMonospace);
}

#[test]
fn theme_matches_macos_hig_palette() {
    let theme = Theme::macos_hig();
    assert_eq!(theme.colors.accent, Color::rgb(10, 132, 255));
    assert_eq!(theme.colors.window, Color::rgb(30, 30, 30));
    assert!((points(theme.typography.body.points) - 15.0).abs() < f32::EPSILON);
    assert!((points(theme.minimum_touch_target) - 44.0).abs() < f32::EPSILON);
}

#[test]
fn toggling_play_twice_restores_the_state() {
    let mut state = UiState::new(snapshot(3.0, Some(9.0), 40.0, false), &PlaybackConfig::default());
    let before = state.clone();
    apply(&mut state, UiCommand::TogglePlay);
    assert!(state.playback.paused);
    apply(&mut state, UiCommand::TogglePlay);
    assert_eq!(state, before);
}

#[test]
fn volume_and_seek_stay_in_range() {
    let mut state = UiState::new(snapshot(3.0, Some(9.0), 40.0, false), &PlaybackConfig::default());
    apply(&mut state, UiCommand::SetVolume(float(-20.0)));
    assert_eq!(value_of(state.playback.volume), 0.0);
    assert!(!apply(&mut state, UiCommand::SetVolume(float(f64::NAN))));
    assert_eq!(value_of(state.playback.volume), 0.0);
    apply(&mut state, UiCommand::SeekAbsolute(float(100.0)));
    assert_eq!(value_of(state.playback.position.as_float()), 9.0);
    apply(&mut state, UiCommand::SeekRelative(float(-2.5)));
    assert_eq!(value_of(state.playback.position.as_float()), 6.5);
    let mut open = UiState::new(snapshot(3.0, None, 40.0, false), &PlaybackConfig::default());
    apply(&mut open, UiCommand::SeekAbsolute(float(1.0e12)));
    assert_eq!(value_of(open.playback.position.as_float()), 1.0e12);
}

#[test]
fn other_commands_update_the_model() {
    let mut state = UiState::new(snapshot(0.0, None, 100.0, false), &PlaybackConfig::default());
    apply(&mut state, UiCommand::TogglePlaylist);
    assert!(!state.playlist_visible);
    apply(&mut state, UiCommand::OpenSettings(SettingsTab::Audio));
    apply(&mut state, UiCommand::CloseSettings);
    assert!(!state.settings_visible);
    assert_eq!(state.settings_tab, SettingsTab::Audio);
    apply(&mut state, UiCommand::ToggleFullscreen);
    assert!(!state.tick(100));
    assert_eq!(state.controls, ControlVisibility::Visible);
    apply(&mut state, UiCommand::Activity);
    assert_eq!(state.last_activity_ms, 1);
    assert!(!state.tick(350));
    assert!(state.tick(351));
    assert!(!state.tick(400));
    apply(&mut state, UiCommand::Activity);
    assert_eq!(state.controls, ControlVisibility::Visible);
    assert_eq!(state.render_snapshot(), state);
}

#[test]
fn application_messages_replace_parts() {
    let mut app = PlaybackApplication::new(snapshot(0.0, None, 100.0, false), PlaybackConfig::default());
    assert!(app.handle_message(UiMessage::Playback(snapshot(5.0, Some(10.0), 30.0, true)), Float64::zero()));
    assert!(app.state().playback.paused);
    let mut config = PlaybackConfig::default();
    config.interface.show_playlist = false;
    assert!(app.handle_message(UiMessage::Config(Box::new(config.clone())), Float64::zero()));
    assert_eq!(app.config(), &config);
    assert!(!app.state().playlist_visible);
    assert!(!app.handle_message(UiMessage::Command(UiCommand::SetVolume(float(f64::INFINITY))), Float64::zero()));
    let view = app.player_view(&Vec::new());
    assert!(view.controls.paused);
    assert!(!view.playlist.visible);
}

#[test]
fn channel_errors_have_messages() {
    assert_eq!(UiChannelError::Disconnected.message(), "UI channel is disconnected");
    assert_eq!(UiChannelError::Full.message(), "UI channel is full");
    assert_eq!(UiChannelError::Empty.message(), "UI channel is empty");
}

#[test]
fn progress_without_duration_is_zero() {
    let timeline = TimelineModel { position: seconds(5.0), duration: None, buffered: None, seeking: false };
    assert_eq!(value_of(timeline.progress(float(0.5))), 0.0);
    let timeline = TimelineModel { position: seconds(5.0), duration: Some(seconds(0.0)), buffered: None, seeking: false };
    assert_eq!(value_of(timeline.progress(float(f64::INFINITY))), 0.0);
    let timeline = TimelineModel { position: seconds(5.0), duration: Some(seconds(10.0)), buffered: None, seeking: false };
    assert_eq!(value_of(timeline.progress(float(0.5))), 0.5);
    assert_eq!(value_of(timeline.progress(float(-0.5))), 0.0);
}

#[test]
fn timestamps_at_the_edges() {
    assert_eq!(format_timestamp(0), "00:00");
    assert_eq!(format_timestamp(3599), "59:59");
    assert_eq!(format_timestamp(3600), "01:00:00");
    assert_eq!(format_timestamp(360_000), "100:00:00");
    assert_eq!(whole_seconds(seconds(-4.0)), 0);
}

#[test]
fn library_selection_can_be_cleared() {
    let items = vec![
        PlaylistItem { path: "a.mkv".to_owned(), title: "A".to_owned(), duration: None },
        PlaylistItem { path: "b.mkv".to_owned(), title: "B".to_owned(), duration: None },
    ];
    let mut library = LibraryViewModel::from_items(&items);
    assert_eq!(library.rows[1].path, "b.mkv");
    assert!(library.select(Some(1)));
    assert!(!library.rows[0].selected && library.rows[1].selected);
    assert!(library.select(None));
    assert_eq!(library.selected_index, None);
    assert!(!library.rows[1].selected);
}

#[test]
fn subtitle_toggle_hides_and_shows_again() {
    let mut playback = snapshot(0.0, None, 100.0, false);
    playback.subtitle_track = Some(playback::state::TrackSelection {
        kind: playback::state::TrackKind::Subtitle,
        id: "sub-1".to_owned(),
    });
    let mut state = UiState::new(playback, &PlaybackConfig::default());
    assert!(state.subtitles_visible);
    let before = state.clone();
    assert!(apply(&mut state, UiCommand::ToggleSubtitles));
    assert!(!state.subtitles_visible);
    assert!(state.playback.subtitle_track.is_some());
    assert!(!PlayerViewModel::from_state(state.clone(), &Vec::new()).subtitles.visible);
    assert!(apply(&mut state, UiCommand::ToggleSubtitles));
    assert_eq!(state, before);
    let mut config = PlaybackConfig::default();
    config.subtitles.enabled = false;
    assert!(!UiState::new(snapshot(0.0, None, 100.0, false), &config).subtitles_visible);
}
