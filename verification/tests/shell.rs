use playback::cli::{LoopMode, MpvArg, MpvArgs};
use playback::config::PlaybackConfig;
use playback::desktop::{
    AppConfig, FrontendSnapshot, MediaItem, absolute_position, command_line, frontend_volume,
    fullscreen_request, load_request, media_item, media_item_named, merge_playlist,
    next_track_path, open_media_items, open_media_state, pause_request, previous_track_path, relative_position,
    session_arguments, update_media, update_media_named,
};
use playback::float::Float64;
use playback::help::command_definition;
use playback::launcher::{
    CliRequest, CompletionShell, apply_cli_overrides, backend_arguments, completion_shell,
    request_kind, launch_request,
};
use playback::mpv::{ArgValue, Argument};

fn float(value: f64) -> Float64 {
    Float64::from_bits(value.to_bits())
}

fn value_of(value: Float64) -> f64 {
    f64::from_bits(value.bits)
}

fn strings(words: &[&str]) -> Vec<String> {
    words.iter().map(|w| w.to_string()).collect()
}

fn render(argument: &Argument) -> String {
    match argument {
        Argument::Media(path) => path.clone(),
        Argument::Option { name, value: None } => format!("--{name}"),
        Argument::Option { name, value: Some(ArgValue::Text(text)) } => format!("--{name}={text}"),
        Argument::Option { name, value: Some(ArgValue::Number(n)) } => {
            format!("--{name}={}", value_of(*n))
        }
        Argument::Option { name, value: Some(ArgValue::Time(s)) } => {
            format!("--{name}={:.3}", value_of(s.0))
        }
    }
}

fn item(path: &str, index: usize) -> MediaItem {
    media_item(path, index)
}

#[test]
fn path_type_is_stable() {
    let entry = media_item("init.lua", 0);
    assert_eq!(entry.title, "init.lua");
}

#[test]
fn requests_follow_precedence() {
    assert_eq!(request_kind(&strings(&["movie.mkv", "-h", "--version"])), CliRequest::Help);
    assert_eq!(request_kind(&strings(&["-V", "--completion", "zsh"])), CliRequest::Version);
    assert_eq!(
        request_kind(&strings(&["--completion", "fish"])),
        CliRequest::Completion(CompletionShell::Fish)
    );
    assert_eq!(request_kind(&strings(&["--completion", "Fish"])), CliRequest::Play);
    assert_eq!(request_kind(&strings(&["--completion"])), CliRequest::Play);
    assert_eq!(request_kind(&strings(&["movie.mkv"])), CliRequest::Play);
}

#[test]
fn completion_shell_names() {
    assert_eq!(completion_shell(&strings(&["--completion", "bash"])), Some(CompletionShell::Bash));
    assert_eq!(completion_shell(&strings(&["--completion", "elvish"])), Some(CompletionShell::Elvish));
    assert_eq!(
        completion_shell(&strings(&["--completion", "powershell", "--completion", "zsh"])),
        Some(CompletionShell::PowerShell)
    );
    assert_eq!(completion_shell(&strings(&["--completion", "zsh"])), Some(CompletionShell::Zsh));
    assert_eq!(completion_shell(&strings(&["--completion", "tcsh"])), None);
}

#[test]
fn run_skips_the_executable_name() {
    let (request, rest) = launch_request(&strings(&["playback", "--volume=80", "movie.mkv"]));
    assert_eq!(request, CliRequest::Play);
    assert_eq!(rest, strings(&["--volume=80", "movie.mkv"]));
    let (request, rest) = launch_request(&strings(&["--help"]));
    assert_eq!(request, CliRequest::Play);
    assert!(rest.is_empty());
    let (request, rest) = launch_request(&Vec::new());
    assert_eq!(request, CliRequest::Play);
    assert!(rest.is_empty());
    let (request, _) = launch_request(&strings(&["playback", "--completion", "bash"]));
    assert_eq!(request, CliRequest::Completion(CompletionShell::Bash));
}

#[test]
fn backend_arguments_put_configuration_first() {
    let args = MpvArgs {
        media: strings(&["movie.mkv"]),
        actions: vec![MpvArg::Volume(float(80.0)), MpvArg::NoVideo],
        config: None,
    };
    let arguments: Vec<String> = backend_arguments(&PlaybackConfig::default(), &args).iter().map(render).collect();
    assert_eq!(
        arguments,
        vec![
            "--volume=100",
            "--speed=1",
            "--loop-file=no",
            "--hwdec=auto-safe",
            "--scale=bilinear",
            "--audio-channels=auto",
            "movie.mkv",
            "--volume=80",
            "--no-video",
        ]
    );
}

#[test]
fn command_line_overrides_win() {
    let mut config = PlaybackConfig::default();
    apply_cli_overrides(
        &mut config,
        &vec![
            MpvArg::Volume(float(20.0)),
            MpvArg::LoopFile(LoopMode::Infinite),
            MpvArg::Volume(float(30.0)),
            MpvArg::Speed(float(1.5)),
            MpvArg::LoopFile(LoopMode::Once),
            MpvArg::Fullscreen,
        ],
    );
    assert_eq!(value_of(config.playback.volume), 30.0);
    assert_eq!(value_of(config.playback.speed), 1.5);
    assert!(!config.playback.looping);
    let mut expected = PlaybackConfig::default();
    expected.playback.volume = float(30.0);
    expected.playback.speed = float(1.5);
    assert_eq!(config, expected);
}

#[test]
fn media_items_are_numbered() {
    let entry = media_item("/films/movie.mkv", 3);
    assert_eq!(entry.id, "/films/movie.mkv-3");
    assert_eq!(entry.title, "movie.mkv");
    assert_eq!(entry.subtitle, "Added from your library");
    assert_eq!(entry.kind, "video");
    assert_eq!(entry.duration, "--:--");
    assert_eq!(entry.added_at, "Just now");
    assert_eq!(media_item_named("/", 0, None).title, "/");
    assert!(open_media_items(&Vec::new()).is_err());
    assert_eq!(open_media_items(&Vec::new()).unwrap_err(), "no media path was provided");
    let items = open_media_items(&strings(&["a.mkv", "b.mkv"])).expect("items");
    assert_eq!(items[1].id, "b.mkv-1");
}

#[test]
fn merging_skips_known_paths() {
    let mut playlist = vec![item("a.mkv", 0)];
    merge_playlist(&mut playlist, vec![item("b.mkv", 1), item("a.mkv", 2), item("b.mkv", 3), item("c.mkv", 4)]);
    let paths: Vec<&str> = playlist.iter().map(|m| m.path.as_str()).collect();
    assert_eq!(paths, vec!["a.mkv", "b.mkv", "c.mkv"]);
    assert_eq!(playlist[1].id, "b.mkv-1");
    let once = playlist.clone();
    merge_playlist(&mut playlist, vec![item("b.mkv", 1), item("a.mkv", 2), item("b.mkv", 3), item("c.mkv", 4)]);
    assert_eq!(playlist, once);
}

#[test]
fn track_navigation_skips_the_current_media() {
    let playlist = vec![item("a", 0), item("b", 1), item("c", 2)];
    assert_eq!(next_track_path(&playlist, &Some("a".to_owned())), Some("b".to_owned()));
    assert_eq!(next_track_path(&playlist, &None), Some("a".to_owned()));
    assert_eq!(previous_track_path(&playlist, &Some("c".to_owned())), Some("b".to_owned()));
    assert_eq!(previous_track_path(&playlist, &None), Some("c".to_owned()));
    let single = vec![item("a", 0)];
    assert_eq!(next_track_path(&single, &Some("a".to_owned())), None);
    assert_eq!(previous_track_path(&single, &Some("a".to_owned())), None);
}

#[test]
fn mpv_input_commands() {
    assert_eq!(command_line(&pause_request(true)), "set pause no\n");
    assert_eq!(command_line(&pause_request(false)), "set pause yes\n");
    assert_eq!(command_line(&fullscreen_request(true)), "set fullscreen yes\n");
    assert_eq!(command_line(&load_request("a b.mkv")), "loadfile a b.mkv replace\n");
    assert_eq!(command_line(&Vec::new()), "\n");
    assert_eq!(session_arguments().len(), 6);
    assert_eq!(session_arguments()[0], "--idle=yes");
}

#[test]
fn frontend_positions_and_volume() {
    assert_eq!(value_of(relative_position(float(-4.0), Some(float(60.0)))), 0.0);
    assert_eq!(value_of(relative_position(float(75.0), Some(float(60.0)))), 60.0);
    assert_eq!(value_of(relative_position(float(75.0), None)), 75.0);
    assert_eq!(value_of(absolute_position(float(-1.0))), 0.0);
    assert_eq!(value_of(absolute_position(float(f64::NAN))), 0.0);
    assert_eq!(value_of(absolute_position(float(12.5))), 12.5);
    assert_eq!(value_of(frontend_volume(float(130.0))), 100.0);
    assert!(value_of(frontend_volume(float(f64::NAN))).is_nan());
}

#[test]
fn frontend_state_follows_loads() {
    let mut snapshot = FrontendSnapshot::initial();
    assert!(snapshot.paused);
    assert_eq!(snapshot.media_title, "Nothing playing");
    update_media(&mut snapshot, "/films/movie.mkv");
    assert!(!snapshot.paused);
    assert_eq!(snapshot.media_title, "movie.mkv");
    assert_eq!(snapshot.media_path.as_deref(), Some("/films/movie.mkv"));
    update_media_named(&mut snapshot, "/", None);
    assert_eq!(snapshot.media_title, "/");
}

#[test]
fn frontend_settings_from_configuration() {
    let mut config = PlaybackConfig::default();
    assert_eq!(AppConfig::from_playback(&config).theme, "dark");
    config.interface.theme = "LIGHT".to_owned();
    config.subtitles.font_size = 40;
    let app = AppConfig::from_playback(&config);
    assert_eq!(app.theme, "light");
    assert_eq!(app.subtitle_size, 40);
    assert_eq!(AppConfig::default().theme, "dark");
    assert_eq!(AppConfig::default().subtitle_size, 52);
}

#[test]
fn command_definition_contains_common_mpv_options() {
    let command = command_definition();
    let longs: Vec<&str> = command.options.iter().map(|o| o.long).collect();
    assert!(longs.contains(&"volume"));
    assert!(longs.contains(&"sub-file"));
    assert!(longs.contains(&"geometry"));
    assert!(longs.contains(&"completion"));
    assert!(command.after_help.contains("Examples:"));
    assert_eq!(command.name, "playback");
    let completion = command.options.iter().find(|o| o.long == "completion").expect("completion");
    assert_eq!(completion.choices, vec!["bash", "elvish", "fish", "powershell", "zsh"]);
    let no_video = command.options.iter().find(|o| o.long == "no-video").expect("switch");
    assert_eq!(no_video.value_name, None);
    assert_eq!(command.options.len(), 12);
}

#[test]
fn help_lists_options_the_scanner_knows() {
    for option in command_definition().options {
        if option.long == "completion" {
            for shell in &option.choices {
                assert!(completion_shell(&strings(&["--completion", shell])).is_some());
            }
            continue;
        }
        let scanned = playback::scan::scan_arguments(&strings(&[&format!("--{}", option.long)]));
        match option.value_name {
            Some(_) => assert!(matches!(scanned.error, Some(playback::error::CoreError::MissingValue { .. }))),
            None => {
                assert!(scanned.error.is_none());
                assert!(matches!(scanned.entries[0], playback::scan::ScanEntry::Action(_)));
                assert!(!matches!(
                    scanned.entries[0],
                    playback::scan::ScanEntry::Action(MpvArg::Flag(_))
                ));
            }
        }
    }
}

#[test]
fn unknown_options_reach_the_invocation() {
    let scanned = playback::scan::scan_arguments(&strings(&["--Foo=Bar", "-autoload"]));
    assert!(scanned.error.is_none());
    let args = MpvArgs::from_entries(&scanned.entries);
    let invocation = playback::mpv::MpvInvocation::from_args(&args);
    let rendered: Vec<String> = invocation.arguments.iter().map(render).collect();
    assert_eq!(rendered, vec!["--foo=Bar", "--autoload"]);
}

#[test]
fn opening_media_updates_playlist_and_snapshot() {
    let mut playlist = vec![item("/a.mkv", 0)];
    let mut snapshot = FrontendSnapshot::initial();
    let before = (playlist.clone(), snapshot.clone());
    assert_eq!(open_media_state(&mut playlist, &mut snapshot, &Vec::new()), Err("no media path was provided".to_owned()));
    assert_eq!((playlist.clone(), snapshot.clone()), before);
    assert!(open_media_state(&mut playlist, &mut snapshot, &strings(&["/b.mkv", "/a.mkv", "/b.mkv"])).is_ok());
    let paths: Vec<&str> = playlist.iter().map(|m| m.path.as_str()).collect();
    assert_eq!(paths, vec!["/a.mkv", "/b.mkv"]);
    assert_eq!(playlist[1].id, "/b.mkv-0");
    assert_eq!(snapshot.media_path.as_deref(), Some("/b.mkv"));
    assert_eq!(snapshot.media_title, "b.mkv");
    assert!(!snapshot.paused);
}

#[test]
fn completion_shells_are_those_clap_complete_parses() {
    for name in ["bash", "Bash", "BASH", "elvish", "fish", "pwsh", "powershell", "PowerShell", "zsh", "zsh ", "", "sh"] {
        let parsed = name.parse::<clap_complete::Shell>().ok().map(|shell| shell.to_string());
        let selected = completion_shell(&strings(&["--completion", name]));
        assert_eq!(selected.is_some(), parsed.is_some(), "{name}");
        if let Some(text) = parsed {
            assert_eq!(text, name);
        }
    }
}
