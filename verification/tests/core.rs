use playback::cli::{
    LoopMode, MpvArg, MpvArgs, WindowGeometry, check_time, is_option, parse_geometry,
    parse_loop_mode, split_option, timecode_fields,
};
use playback::controller::{
    ActionPlan, BackendCall, MpvProcessBackend, RecordingBackend, StateUpdate, command_arguments,
    finish_call,
    plan_action, plan_load, plan_load_named, plan_select_track, property_arguments,
};
use playback::error::CoreError;
use playback::float::Float64;
use playback::mpv::{ArgValue, Argument, MpvInvocation, MpvValue, action_to_arguments};
use playback::native_mpv_enabled;
use playback::reading::{Reading, read_number_entry};
use playback::scan::{NumberOption, ScanEntry, scan_arguments};
use playback::state::{PlaybackState, PlaylistItem, Seconds, TrackKind, TrackSelection};

fn float(value: f64) -> Float64 {
    Float64::from_bits(value.to_bits())
}

fn value_of(value: Float64) -> f64 {
    f64::from_bits(value.bits)
}

fn read_number(text: &str) -> Reading {
    match text.parse::<f64>() {
        Ok(number) => Reading::Number(float(number)),
        Err(_) => Reading::NotANumber(text.to_owned()),
    }
}

fn read_timecode(option: &str, value: &str) -> Reading {
    let fields = match timecode_fields(option, value) {
        Ok(fields) => fields,
        Err(_) => return Reading::NotANumber(value.to_owned()),
    };
    let mut numbers = Vec::new();
    for field in &fields {
        match field.parse::<f64>() {
            Ok(number) => numbers.push(number),
            Err(_) => return Reading::NotANumber(field.clone()),
        }
    }
    let seconds = match numbers.as_slice() {
        [s] => *s,
        [m, s] => m.mul_add(60.0, *s),
        [h, m, s] => h.mul_add(3600.0, m.mul_add(60.0, *s)),
        _ => unreachable!(),
    };
    Reading::Number(float(seconds))
}

/// Parses a command line the way the program does: scan, read the
/// floating-point values, finish.
fn parse_from(arguments: &[&str]) -> Result<MpvArgs, CoreError> {
    let arguments: Vec<String> = arguments.iter().map(|a| a.to_string()).collect();
    let scanned = scan_arguments(&arguments);
    let readings: Vec<Reading> = scanned
        .entries
        .iter()
        .filter_map(|entry| match entry {
            ScanEntry::Number { kind: NumberOption::Start, option, value } => Some(read_timecode(option, value)),
            ScanEntry::Number { value, .. } => Some(read_number(value)),
            _ => None,
        })
        .collect();
    MpvArgs::finish(scanned, &readings)
}

fn render(argument: &Argument) -> String {
    match argument {
        Argument::Media(path) => path.clone(),
        Argument::Option { name, value: None } => format!("--{name}"),
        Argument::Option { name, value: Some(ArgValue::Text(text)) } => format!("--{name}={text}"),
        Argument::Option { name, value: Some(ArgValue::Number(n)) } => {
            format!("--{name}={}", value_of(*n))
        }
        Argument::Option { name, value: Some(ArgValue::Time(s)) } => {
            format!("--{name}={:.3}", value_of(s.0))
        }
    }
}

fn render_value(value: &MpvValue) -> String {
    match value {
        MpvValue::Number(n) => format!("{}", value_of(*n)),
        other => other.plain_text().expect("text or boolean"),
    }
}

/// Carries out a plan on a recording backend and the playback state.
fn carry_out(plan: ActionPlan, backend: &mut RecordingBackend, state: &mut PlaybackState) {
    match &plan.call {
        BackendCall::SetProperty { name, value } => {
            backend.record_set_property(name, &render_value(value))
        }
        BackendCall::Command { name, arguments } => {
            let rendered: Vec<String> = arguments.iter().map(render_value).collect();
            backend.record_command(name, &rendered)
        }
        BackendCall::LoadFile(path) => backend.record_load_file(path),
    }
    finish_call(plan.update, Ok(()), state).expect("recording never fails");
}

#[test]
fn parses_volume_in_equals_form() {
    let args = parse_from(&["--volume=80", "movie.mkv"]).expect("valid args");
    assert_eq!(args.actions, vec![MpvArg::Volume(float(80.0))]);
    assert_eq!(args.media, vec!["movie.mkv".to_owned()]);
}

#[test]
fn parses_legacy_single_dash_form() {
    let args = parse_from(&["-volume", "55", "movie.mkv"]).expect("valid legacy args");
    assert_eq!(args.actions, vec![MpvArg::Volume(float(55.0))]);
}

#[test]
fn parses_timecode_and_media_options() {
    let args = parse_from(&[
        "--start=00:01:30",
        "--sub-file=subs.srt",
        "--audio-file=track2.flac",
        "movie.mkv",
    ])
    .expect("valid media args");
    assert_eq!(args.actions[0], MpvArg::Start(Seconds::new(float(90.0))));
    assert_eq!(args.actions[1], MpvArg::SubFile("subs.srt".to_owned()));
    assert_eq!(args.actions[2], MpvArg::AudioFile("track2.flac".to_owned()));
}

#[test]
fn parses_boolean_and_geometry_options() {
    let args = parse_from(&[
        "--no-video",
        "--fullscreen",
        "--ontop",
        "--geometry=1280x720",
        "movie.mkv",
    ])
    .expect("valid display args");
    assert_eq!(args.actions[0], MpvArg::NoVideo);
    assert_eq!(args.actions[1], MpvArg::Fullscreen);
    assert_eq!(args.actions[2], MpvArg::OnTop);
    assert_eq!(
        args.actions[3],
        MpvArg::Geometry(WindowGeometry { width: 1280, height: 720 })
    );
}

#[test]
fn preserves_unknown_properties_and_flags() {
    let args = parse_from(&["--fs=minimal", "--autoload", "movie.mkv"]).expect("forward-compatible args");
    assert_eq!(
        args.actions,
        vec![
            MpvArg::Property { name: "fs".to_owned(), value: "minimal".to_owned() },
            MpvArg::Flag("autoload".to_owned()),
        ]
    );
}

#[test]
fn parses_config_path() {
    let args = parse_from(&["--config=/tmp/init.lua", "movie.mkv"]).expect("valid config path");
    assert_eq!(args.config, Some("/tmp/init.lua".to_owned()));
}

#[test]
fn rejects_missing_value() {
    let error = parse_from(&["--volume"]).expect_err("missing value");
    assert!(matches!(error, CoreError::MissingValue { .. }));
}

#[test]
fn parses_loop_modes() {
    let infinite = parse_from(&["--loop-file=inf"]).expect("valid infinite loop").actions;
    assert_eq!(infinite, vec![MpvArg::LoopFile(LoopMode::Infinite)]);
    let count = parse_from(&["--loop-file=3"]).expect("valid finite loop").actions;
    assert_eq!(count, vec![MpvArg::LoopFile(LoopMode::Count(3))]);
}

#[test]
fn rejects_invalid_geometry() {
    let error = parse_from(&["--geometry=0x0"]).expect_err("invalid geometry");
    assert!(matches!(error, CoreError::InvalidValue { .. }));
}

#[test]
fn parses_primitive_values() {
    let fields = timecode_fields("--start", "00:01:30").expect("time");
    let seconds: Vec<f64> = fields.iter().map(|f| f.parse::<f64>().expect("number")).collect();
    let total = seconds[0].mul_add(3600.0, seconds[1].mul_add(60.0, seconds[2]));
    let time = check_time("--start", "00:01:30", float(total)).expect("time");
    assert!((value_of(time.as_float()) - 90.0).abs() < f64::EPSILON);
    assert_eq!(parse_loop_mode("--loop-file", "inf").expect("loop"), LoopMode::Infinite);
    assert_eq!(
        parse_geometry("--geometry", "640x480").expect("geometry"),
        WindowGeometry { width: 640, height: 480 }
    );
}

#[test]
fn error_messages_name_the_invalid_option() {
    let error = CoreError::InvalidValue {
        option: "--volume".to_owned(),
        value: "loud".to_owned(),
        reason: "expected a number".to_owned(),
    };
    assert_eq!(error.message(), "invalid value `loud` for `--volume`: expected a number");
}

#[test]
fn core_exports_parse_args() {
    let args = parse_from(&["playback", "--volume=80"]).expect("valid args");
    assert_eq!(args.actions.len(), 1);
}

#[test]
fn native_flag_matches_build_configuration() {
    assert!(!native_mpv_enabled());
}

#[test]
fn defaults_are_playable() {
    let state = PlaybackState::new();
    assert!(!state.current_snapshot().paused);
    assert!((value_of(state.current_snapshot().volume) - 100.0).abs() < f64::EPSILON);
    assert!((value_of(state.current_snapshot().speed) - 1.0).abs() < f64::EPSILON);
}

#[test]
fn rejects_invalid_time_values() {
    let mut state = PlaybackState::new();
    assert!(!state.set_position(Seconds::new(float(-1.0))));
    assert!(!state.set_buffered(Seconds::new(float(3.0)), Seconds::new(float(2.0))));
}

#[test]
fn clamps_volume_and_rejects_invalid_speed() {
    let mut state = PlaybackState::new();
    assert!(state.set_volume(float(140.0)));
    assert!((value_of(state.current_snapshot().volume) - 100.0).abs() < f64::EPSILON);
    assert!(!state.set_speed(float(0.0)));
    assert!(state.set_speed(float(1.5)));
    assert!((value_of(state.current_snapshot().speed) - 1.5).abs() < f64::EPSILON);
}

#[test]
fn replaces_tracks_by_kind() {
    let mut state = PlaybackState::new();
    state.select_track(TrackSelection { kind: TrackKind::Audio, id: "a-1".to_owned() });
    state.select_track(TrackSelection { kind: TrackKind::Audio, id: "a-2".to_owned() });
    let snapshot = state.current_snapshot();
    assert_eq!(snapshot.audio_track.map(|track| track.id), Some("a-2".to_owned()));
    assert!(snapshot.subtitle_track.is_none());
}

#[test]
fn recording_backend_captures_operations() {
    let mut backend = RecordingBackend::new();
    backend.record_set_property("volume", &render_value(&MpvValue::Number(float(80.0))));
    backend.record_command("seek", &["10".to_owned()]);
    backend.record_load_file("movie.mkv");
    assert_eq!(backend.operations().len(), 3);
    assert_eq!(
        backend.operations(),
        &["set volume=80".to_owned(), "command seek 10".to_owned(), "load movie.mkv".to_owned()]
    );
}

#[test]
fn translates_actions_to_backend_operations() {
    let args = parse_from(&["--volume=80", "--start=00:01:30", "--no-video", "movie.mkv"]).expect("valid args");
    let mut state = PlaybackState::new();
    let mut backend = RecordingBackend::new();
    for action in &args.actions {
        carry_out(plan_action(action), &mut backend, &mut state);
    }
    let snapshot = state.snapshot();
    assert!((value_of(snapshot.volume) - 80.0).abs() < f64::EPSILON);
    assert!((value_of(snapshot.position.as_float()) - 90.0).abs() < f64::EPSILON);
    assert!(backend.operations().iter().any(|operation| operation == "set volume=80"));
    assert!(backend.operations().iter().any(|operation| operation == "command seek 90 absolute"));
}

#[test]
fn selects_tracks_through_backend() {
    let mut state = PlaybackState::new();
    let mut backend = RecordingBackend::new();
    let plan = plan_select_track(TrackSelection { kind: TrackKind::Subtitle, id: "sub-1".to_owned() });
    carry_out(plan, &mut backend, &mut state);
    assert!(backend.operations().iter().any(|operation| operation == "set sid=sub-1"));
    assert_eq!(
        state.snapshot().subtitle_track,
        Some(TrackSelection { kind: TrackKind::Subtitle, id: "sub-1".to_owned() })
    );
}

#[test]
fn builds_a_complete_process_invocation() {
    let args = parse_from(&["--geometry=1280x720", "--audio-file=track.flac", "movie.mkv"]).expect("valid args");
    let invocation = MpvInvocation::from_args(&args);
    let rendered: Vec<String> = invocation.arguments.iter().map(render).collect();
    assert_eq!(
        rendered,
        vec![
            "movie.mkv".to_owned(),
            "--geometry=1280x720".to_owned(),
            "--audio-file=track.flac".to_owned(),
        ]
    );
}

#[test]
fn generic_actions_are_preserved_in_invocations() {
    let action = MpvArg::Property { name: "fs".to_owned(), value: "minimal".to_owned() };
    let invocation = MpvInvocation { arguments: action_to_arguments(&action) };
    let rendered: Vec<String> = invocation.arguments.iter().map(render).collect();
    assert_eq!(rendered, vec!["--fs=minimal"]);
    let geometry = WindowGeometry { width: 1, height: 2 };
    assert_eq!(geometry.as_mpv_value(), "1x2");
}

#[test]
fn option_detection_and_splitting() {
    assert!(is_option("--volume"));
    assert!(is_option("-v"));
    assert!(!is_option("-"));
    assert!(!is_option("movie.mkv"));
    assert_eq!(split_option("--fs=a=b"), ("--fs".to_owned(), Some("a=b".to_owned())));
    assert_eq!(split_option("--ontop"), ("--ontop".to_owned(), None));
}

#[test]
fn double_dash_turns_options_into_media() {
    let args = parse_from(&["--", "--volume=80", "-x"]).expect("all media");
    assert_eq!(args.media, vec!["--volume=80".to_owned(), "-x".to_owned()]);
    assert!(args.actions.is_empty());
    let args = parse_from(&["--", "--"]).expect("second dash is media");
    assert_eq!(args.media, vec!["--".to_owned()]);
}

#[test]
fn option_names_ignore_case_and_dashes() {
    let args = parse_from(&["---VOLUME", "20", "--OnTop", "--Mystery=Value"]).expect("valid args");
    assert_eq!(
        args.actions,
        vec![
            MpvArg::Volume(float(20.0)),
            MpvArg::OnTop,
            MpvArg::Property { name: "mystery".to_owned(), value: "Value".to_owned() },
        ]
    );
}

#[test]
fn rejects_bad_numbers_speeds_and_times() {
    let error = parse_from(&["--volume=loud"]).expect_err("not a number");
    assert_eq!(error.message(), "invalid value `loud` for `--volume`: expected a floating-point number");
    let error = parse_from(&["--speed=0"]).expect_err("zero speed");
    assert_eq!(error.message(), "invalid value `0` for `--speed`: speed must be a finite positive number");
    let error = parse_from(&["--start=1:2:3:4"]).expect_err("too many fields");
    assert_eq!(error.message(), "invalid value `1:2:3:4` for `--start`: expected seconds, MM:SS, or HH:MM:SS");
    let error = parse_from(&["--start=-5"]).expect_err("negative time");
    assert_eq!(error.message(), "invalid value `-5` for `--start`: time must be finite and non-negative");
    let error = parse_from(&["--start=aa:10"]).expect_err("bad field");
    assert_eq!(error.message(), "invalid value `aa` for `--start`: expected a floating-point number");
    let args = parse_from(&["--speed", "1.25", "--start", "75"]).expect("valid");
    assert_eq!(
        args.actions,
        vec![MpvArg::Speed(float(1.25)), MpvArg::Start(Seconds::new(float(75.0)))]
    );
}

#[test]
fn first_error_wins_in_argument_order() {
    let error = parse_from(&["--volume=x", "--geometry=0x0"]).expect_err("first is the number");
    assert!(error.message().contains("`--volume`"));
    let error = parse_from(&["--geometry=0x0", "--volume=x"]).expect_err("first is the geometry");
    assert_eq!(
        error.message(),
        "invalid value `0x0` for `--geometry`: width and height must be greater than zero"
    );
}

#[test]
fn rejects_empty_paths_and_geometry_forms() {
    let error = parse_from(&["--sub-file=  "]).expect_err("blank path");
    assert_eq!(error.message(), "invalid value `  ` for `--sub-file`: path must not be empty");
    let error = parse_from(&["--geometry=1280"]).expect_err("no x");
    assert!(error.message().ends_with("expected WIDTHxHEIGHT"));
    let error = parse_from(&["--geometry=ax1"]).expect_err("bad width");
    assert!(error.message().ends_with("width must be a positive integer"));
    let error = parse_from(&["--geometry=1xb"]).expect_err("bad height");
    assert!(error.message().ends_with("height must be a positive integer"));
    let error = parse_from(&["--loop-file=forever"]).expect_err("bad loop");
    assert!(error.message().ends_with("expected `inf`, `no`, or a non-negative integer"));
    let error = parse_from(&["--config"]).expect_err("missing");
    assert_eq!(error.message(), "option `--config` requires a value");
}

#[test]
fn loop_mode_spellings() {
    assert_eq!(LoopMode::parse("INFINITE").expect("inf"), LoopMode::Infinite);
    assert_eq!(LoopMode::parse("none").expect("no"), LoopMode::Once);
    assert_eq!(LoopMode::parse("0").expect("zero"), LoopMode::Once);
    assert_eq!(LoopMode::parse("12").expect("count"), LoopMode::Count(12));
    assert_eq!(LoopMode::Count(7).as_mpv_value(), "7");
    assert_eq!(LoopMode::Once.as_mpv_value(), "no");
    assert_eq!(LoopMode::Infinite.as_mpv_value(), "inf");
    assert_eq!(WindowGeometry::parse("3x4").expect("geometry").as_mpv_value(), "3x4");
}

#[test]
fn every_error_variant_has_a_message() {
    assert_eq!(
        CoreError::MissingValue { option: "--speed".to_owned() }.message(),
        "option `--speed` requires a value"
    );
    assert_eq!(CoreError::EmptyPath.message(), "media path must not be empty");
    assert_eq!(
        CoreError::Backend { message: "boom".to_owned() }.message(),
        "media backend operation failed: boom"
    );
    assert_eq!(
        CoreError::BackendExit { status: "exit status: 2".to_owned() }.message(),
        "media backend exited with status exit status: 2"
    );
    assert!(CoreError::NonUnicodeArgument { argument: "\"x\"".to_owned() }
        .message()
        .contains("not valid UTF-8"));
    assert_eq!(
        CoreError::BackendStart { program: "mpv".to_owned(), source: "missing".to_owned() }.message(),
        "could not start media backend `mpv`: missing"
    );
    assert_eq!(
        CoreError::ReadConfig { path: "a.lua".to_owned(), source: "denied".to_owned() }.message(),
        "could not read configuration file a.lua: denied"
    );
}

#[test]
fn playlist_moves_keep_items() {
    let mut state = PlaybackState::new();
    for name in ["a", "b", "c"] {
        state.add_playlist_item(PlaylistItem { path: name.to_owned(), title: name.to_owned(), duration: None });
    }
    assert!(state.move_playlist_item(0, 2));
    let order: Vec<String> = state.snapshot().playlist.into_iter().map(|i| i.path).collect();
    assert_eq!(order, vec!["b", "c", "a"]);
    assert!(!state.move_playlist_item(3, 0));
    assert!(!state.move_playlist_item(2, 3));
    let order: Vec<String> = state.snapshot().playlist.into_iter().map(|i| i.path).collect();
    assert_eq!(order, vec!["b", "c", "a"]);
}

#[test]
fn state_rejects_non_finite_values() {
    let mut state = PlaybackState::new();
    assert!(!state.set_volume(float(f64::NAN)));
    assert!(!state.set_speed(float(f64::INFINITY)));
    assert!(state.set_volume(float(-3.0)));
    assert_eq!(value_of(state.snapshot().volume), 0.0);
    assert!(state.set_buffered(Seconds::new(float(1.0)), Seconds::new(float(2.0))));
    assert!(state.toggle_pause());
    assert!(state.snapshot().paused);
    state.begin_load(Some(Seconds::new(float(30.0))));
    let snapshot = state.snapshot();
    assert!(snapshot.buffered.is_none());
    assert_eq!(snapshot.duration, Some(Seconds::new(float(30.0))));
}

#[test]
fn loads_media_into_the_playlist() {
    assert!(matches!(plan_load(""), Err(CoreError::EmptyPath)));
    let plan = plan_load("/videos/movie.mkv").expect("load plan");
    assert_eq!(plan.call, BackendCall::LoadFile("/videos/movie.mkv".to_owned()));
    match &plan.update {
        StateUpdate::Load(item) => {
            assert_eq!(item.path, "/videos/movie.mkv");
            assert_eq!(item.title, "movie.mkv");
        }
        other => panic!("unexpected update {other:?}"),
    }
    let plan = plan_load_named("/", None).expect("root");
    let mut state = PlaybackState::new();
    let mut backend = RecordingBackend::new();
    carry_out(plan, &mut backend, &mut state);
    assert_eq!(backend.operations(), &["load /".to_owned()]);
    assert_eq!(state.snapshot().playlist[0].title, "/");
}

#[test]
fn process_backend_arguments() {
    let backend = MpvProcessBackend::with_program("definitely-not-a-real-mpv".to_owned());
    assert_eq!(backend.program(), "definitely-not-a-real-mpv");
    assert_eq!(MpvProcessBackend::new().program(), "mpv");
    assert_eq!(property_arguments("volume", "80"), vec!["--volume=80".to_owned()]);
    assert_eq!(
        command_arguments("seek", &["10".to_owned(), "absolute".to_owned()]),
        vec!["seek".to_owned(), "10".to_owned(), "absolute".to_owned()]
    );
}

#[test]
fn plans_every_action() {
    let mut state = PlaybackState::new();
    let mut backend = RecordingBackend::new();
    let actions = vec![
        MpvArg::Speed(float(2.0)),
        MpvArg::LoopFile(LoopMode::Count(2)),
        MpvArg::SubFile("s.srt".to_owned()),
        MpvArg::AudioFile("a.flac".to_owned()),
        MpvArg::Fullscreen,
        MpvArg::Geometry(WindowGeometry { width: 3, height: 4 }),
        MpvArg::Flag("autoload".to_owned()),
    ];
    for action in &actions {
        carry_out(plan_action(action), &mut backend, &mut state);
    }
    assert_eq!(
        backend.operations(),
        &[
            "set speed=2".to_owned(),
            "set loop-file=2".to_owned(),
            "command sub-add s.srt select".to_owned(),
            "command audio-add a.flac select".to_owned(),
            "set fullscreen=true".to_owned(),
            "set geometry=3x4".to_owned(),
            "set autoload=true".to_owned(),
        ]
    );
    assert!(state.snapshot().loop_file);
    assert_eq!(value_of(state.snapshot().speed), 2.0);
}

#[test]
fn readings_finish_number_entries() {
    let entry = read_number_entry(NumberOption::Volume, "--volume", "x", &Reading::NotANumber("x".to_owned()));
    assert_eq!(entry.expect_err("not a number").message(), "invalid value `x` for `--volume`: expected a floating-point number");
    let entry = read_number_entry(NumberOption::Speed, "--speed", "-1", &Reading::Number(float(-1.0)));
    assert!(entry.is_err());
    let entry = read_number_entry(NumberOption::Start, "--start", "1:2:3:4", &Reading::Number(float(4.0)));
    assert!(entry.expect_err("shape").message().ends_with("expected seconds, MM:SS, or HH:MM:SS"));
    let entry = read_number_entry(NumberOption::Start, "--start", "1:30", &Reading::Number(float(90.0)));
    assert_eq!(entry.expect("time"), ScanEntry::Action(MpvArg::Start(Seconds::new(float(90.0)))));
    let scanned = scan_arguments(&vec!["--speed=2".to_owned(), "--volume".to_owned()]);
    assert!(scanned.error.is_some());
    let error = MpvArgs::finish(scanned, &vec![Reading::NotANumber("2".to_owned())]).expect_err("number first");
    assert!(error.message().contains("`--speed`"));
}

#[test]
fn non_unicode_argument_error_keeps_debug_context() {
    let error = CoreError::NonUnicodeArgument { argument: format!("{:?}", "invalid") };
    assert!(error.message().contains("not valid UTF-8"));
    assert!(error.message().contains("\"invalid\""));
}

#[test]
fn failed_calls_leave_the_state_alone() {
    let mut state = PlaybackState::new();
    let plan = plan_action(&MpvArg::Volume(float(30.0)));
    let error = CoreError::Backend { message: "gone".to_owned() };
    assert_eq!(finish_call(plan.update.clone(), Err(error.clone()), &mut state), Err(error));
    assert_eq!(value_of(state.snapshot().volume), 100.0);
    assert_eq!(finish_call(plan.update, Ok(()), &mut state), Ok(()));
    assert_eq!(value_of(state.snapshot().volume), 30.0);
}

#[test]
fn value_spellings_agree_after_other_arguments() {
    let inline = parse_from(&["a.mkv", "--fullscreen", "--volume=80", "b.mkv"]).expect("inline");
    let separate = parse_from(&["a.mkv", "--fullscreen", "--volume", "80", "b.mkv"]).expect("separate");
    assert_eq!(inline, separate);
    let single = parse_from(&["a.mkv", "-ontop", "-fs=minimal"]).expect("single dash");
    let double = parse_from(&["a.mkv", "--ontop", "--fs=minimal"]).expect("double dash");
    assert_eq!(single, double);
}

#[test]
fn single_dash_value_options_parse_like_double_dash() {
    let pairs: [(&[&str], &[&str]); 6] = [
        (&["-volume=80", "a.mkv"], &["--volume=80", "a.mkv"]),
        (&["a.mkv", "-speed", "1.5"], &["a.mkv", "--speed", "1.5"]),
        (&["-start", "01:30", "-loop-file=inf"], &["--start", "01:30", "--loop-file=inf"]),
        (&["-geometry", "640x480", "-sub-file", "s.srt"], &["--geometry", "640x480", "--sub-file", "s.srt"]),
        (&["-audio-file=t.flac", "-config", "c.lua"], &["--audio-file=t.flac", "--config", "c.lua"]),
        (&["-volume", "80", "-fs"], &["--volume", "80", "--fs"]),
    ];
    for (one, two) in pairs {
        assert_eq!(parse_from(one).expect("single dash"), parse_from(two).expect("double dash"));
    }
    for (one, two) in [(["-speed", "0"], ["--speed", "0"]), (["-geometry", "0x1"], ["--geometry", "0x1"])] {
        assert!(parse_from(&one).is_err() && parse_from(&two).is_err());
    }
    assert!(parse_from(&["-volume"]).is_err() && parse_from(&["--volume"]).is_err());
}

#[test]
fn text_arguments_read_back_as_their_action() {
    let actions = vec![
        MpvArg::LoopFile(LoopMode::Infinite),
        MpvArg::LoopFile(LoopMode::Once),
        MpvArg::LoopFile(LoopMode::Count(3)),
        MpvArg::SubFile("subs=en.srt".to_owned()),
        MpvArg::AudioFile("track 2.flac".to_owned()),
        MpvArg::Geometry(WindowGeometry { width: 1280, height: 720 }),
        MpvArg::NoVideo,
        MpvArg::Fullscreen,
        MpvArg::OnTop,
    ];
    for action in actions {
        let lines: Vec<String> = action_to_arguments(&action).iter().map(render).collect();
        let line_refs: Vec<&str> = lines.iter().map(|line| line.as_str()).collect();
        let args = parse_from(&line_refs).expect("reads back");
        assert_eq!(args.actions, vec![action]);
        assert!(args.media.is_empty() && args.config.is_none());
    }
}
