use playback::config::{
    AudioSettings, InterfaceSettings, JsonValue, Keybindings, PlaybackConfig, PlaybackSettings,
    SubtitleSettings, VideoSettings, scalar_to_string,
};
use playback::config_keys::{
    LoadedConfig, collect_unknown_keys, settle_reload, is_known, known_keys, path_of, unknown_key_warnings,
};
use playback::float::Float64;
use playback::launcher::config_arguments;
use playback::mpv::{ArgValue, Argument};
use playback::document::{custom_section, load_document};

fn float(value: f64) -> Float64 {
    Float64::from_bits(value.to_bits())
}

fn value_of(value: Float64) -> f64 {
    f64::from_bits(value.bits)
}

fn render(argument: &Argument) -> String {
    match argument {
        Argument::Media(path) => path.clone(),
        Argument::Option { name, value: None } => format!("--{name}"),
        Argument::Option { name, value: Some(ArgValue::Text(text)) } => format!("--{name}={text}"),
        Argument::Option { name, value: Some(ArgValue::Number(n)) } => {
            format!("--{name}={}", value_of(*n))
        }
        Argument::Option { name, value: Some(ArgValue::Time(s)) } => {
            format!("--{name}={:.3}", value_of(s.0))
        }
    }
}

fn object(members: Vec<(&str, JsonValue)>) -> JsonValue {
    JsonValue::Object(members.into_iter().map(|(k, v)| (k.to_owned(), v)).collect())
}

fn number(text: &str) -> JsonValue {
    JsonValue::Number(text.to_owned())
}

#[test]
fn defaults_populate_every_section() {
    let config = PlaybackConfig::default();
    assert_eq!(config.playback(), &PlaybackSettings::default());
    assert_eq!(config.video(), &VideoSettings::default());
    assert_eq!(config.audio(), &AudioSettings::default());
    assert_eq!(config.subtitles(), &SubtitleSettings::default());
    assert_eq!(config.interface(), &InterfaceSettings::default());
    assert_eq!(config.keybindings(), &Keybindings::default());
    assert!(config.custom.is_empty());
}

#[test]
fn getters_expose_scalar_values() {
    let config = PlaybackConfig::default();
    assert!((value_of(config.playback().volume()) - 100.0).abs() < f64::EPSILON);
    assert!((value_of(config.playback().speed()) - 1.0).abs() < f64::EPSILON);
    assert_eq!(config.video().hardware_decoding(), "auto-safe");
    assert_eq!(config.audio().channel_layout(), "auto");
    assert!(config.subtitles().enabled());
    assert_eq!(config.interface().controls_timeout_ms(), 2500);
}

#[test]
fn unknown_keys_warn_without_failing() {
    // `return { playback = { volume = 50, mystery = true }, custom = { x = 1 } }`
    // evaluated and converted to JSON (members in key order).
    let document = object(vec![
        ("custom", object(vec![("x", number("1"))])),
        ("playback", object(vec![("mystery", JsonValue::Bool(true)), ("volume", number("50"))])),
    ]);
    let mut config = PlaybackConfig::default();
    config.playback.volume = float(50.0);
    let loaded = LoadedConfig::from_document(config, &document);
    assert!((value_of(loaded.config.playback().volume()) - 50.0).abs() < f64::EPSILON);
    assert_eq!(loaded.warnings, vec!["playback.mystery"]);
}

#[test]
fn config_translates_to_mpv_arguments() {
    let arguments: Vec<String> = config_arguments(&PlaybackConfig::default()).iter().map(render).collect();
    assert!(arguments.contains(&"--volume=100".to_owned()));
    assert!(arguments.contains(&"--speed=1".to_owned()));
    assert!(arguments.contains(&"--hwdec=auto-safe".to_owned()));
}

#[test]
fn config_omits_automatic_aspect_override() {
    let mut config = PlaybackConfig::default();
    assert!(!config_arguments(&config)
        .iter()
        .map(render)
        .any(|argument| argument.starts_with("--video-aspect-override=")));
    config.video.aspect_ratio = "16:9".to_owned();
    assert!(config_arguments(&config)
        .iter()
        .map(render)
        .any(|argument| argument == "--video-aspect-override=16:9"));
}

#[test]
fn only_scalar_custom_values_are_forwarded() {
    assert_eq!(scalar_to_string(&JsonValue::Text("gpu".to_owned())), Some("gpu".to_owned()));
    assert_eq!(scalar_to_string(&JsonValue::Bool(true)), Some("true".to_owned()));
    assert_eq!(scalar_to_string(&JsonValue::Array(vec![number("1"), number("2")])), None);
}

#[test]
fn default_config_arguments_in_order() {
    let arguments: Vec<String> = config_arguments(&PlaybackConfig::default()).iter().map(render).collect();
    assert_eq!(
        arguments,
        vec![
            "--volume=100",
            "--speed=1",
            "--loop-file=no",
            "--hwdec=auto-safe",
            "--scale=bilinear",
            "--audio-channels=auto",
        ]
    );
}

#[test]
fn every_optional_argument_appears() {
    let mut config = PlaybackConfig::default();
    config.playback.looping = true;
    config.video.aspect_ratio = "  AUTO ".to_owned();
    config.video.deinterlace = true;
    config.audio.normalize = true;
    config.subtitles.enabled = false;
    config.custom = vec![
        ("gpu-api".to_owned(), JsonValue::Text("vulkan".to_owned())),
        ("osc".to_owned(), JsonValue::Bool(false)),
        ("skip".to_owned(), JsonValue::Null),
        ("volume-max".to_owned(), number("150")),
    ];
    let arguments: Vec<String> = config_arguments(&config).iter().map(render).collect();
    assert_eq!(
        arguments,
        vec![
            "--volume=100",
            "--speed=1",
            "--loop-file=inf",
            "--hwdec=auto-safe",
            "--scale=bilinear",
            "--audio-channels=auto",
            "--deinterlace=yes",
            "--af=lavfi=[loudnorm]",
            "--sub-visibility=no",
            "--gpu-api=vulkan",
            "--osc=false",
            "--volume-max=150",
        ]
    );
    config.video.aspect_ratio = " 4:3 ".to_owned();
    let arguments: Vec<String> = config_arguments(&config).iter().map(render).collect();
    assert!(arguments.contains(&"--video-aspect-override=4:3".to_owned()));
}

#[test]
fn nested_unknown_keys_are_reported_in_order() {
    let document = object(vec![
        ("audio", object(vec![("channel_layout", JsonValue::Text("stereo".to_owned())), ("loud", number("1"))])),
        ("custom", object(vec![("anything", object(vec![("goes", JsonValue::Null)]))])),
        ("extra", number("3")),
        ("video", JsonValue::Text("not a table".to_owned())),
    ]);
    assert_eq!(unknown_key_warnings(&document), vec!["audio.loud", "extra"]);
    assert!(unknown_key_warnings(&JsonValue::Array(vec![])).is_empty());
    let mut warnings = vec!["earlier".to_owned()];
    let known = known_keys("playback");
    collect_unknown_keys(&object(vec![("speed", number("2")), ("x", JsonValue::Null)]), "playback", &known, &mut warnings);
    assert_eq!(warnings, vec!["earlier", "playback.x"]);
}

#[test]
fn known_keys_per_section() {
    assert_eq!(known_keys("audio"), vec!["channel_layout", "normalize"]);
    assert!(known_keys("custom").is_empty());
    assert_eq!(known_keys("").len(), 7);
    assert_eq!(known_keys("keybindings").len(), 9);
    assert!(is_known(&known_keys("video"), "aspect_ratio"));
    assert!(!is_known(&known_keys("video"), "volume"));
    assert_eq!(path_of("", "video"), "video");
    assert_eq!(path_of("video", "scale"), "video.scale");
}

#[test]
fn json_values_duplicate_exactly() {
    let document = object(vec![("a", JsonValue::Array(vec![number("1.5"), JsonValue::Null]))]);
    assert_eq!(document.duplicate(), document);
    assert_eq!(document.clone(), document);
}

/// Evaluates a Lua configuration into its document.
fn lua_document(source: &str) -> JsonValue {
    load_document(source, "test.lua").expect("valid Lua").0
}

#[test]
fn lua_documents_warn_about_unknown_keys() {
    let document = lua_document("return { playback = { volume = 50, mystery = true }, custom = { x = 1 } }");
    assert_eq!(unknown_key_warnings(&document), vec!["playback.mystery"]);
    let document = lua_document(
        "return { playback = { volume = 80, speed = 1.0, loop = false }, \
         video = { scale = 'bilinear' }, custom = { fs = 'minimal', vo = 'gpu' }, extras = {} }",
    );
    assert_eq!(unknown_key_warnings(&document), vec!["extras"]);
}

#[test]
fn documented_example_has_no_warnings() {
    let document = lua_document(
        r##"return {
  playback = { volume = 80, speed = 1.0, loop = false, autoplay = true, start_paused = false },
  video = { hardware_decoding = "auto-safe", scale = "bilinear", deinterlace = false, aspect_ratio = "auto" },
  audio = { channel_layout = "auto", normalize = false },
  subtitles = { enabled = true, font = "SF Pro Display", font_size = 52, color = "#FFFFFF", border_color = "#000000", border_size = 3 },
  interface = { theme = "macos", animations = true, blur_background = true, show_playlist = true, show_controls = true, controls_timeout_ms = 2500 },
  keybindings = { toggle_play = "Space", seek_forward = "Right", seek_backward = "Left", volume_up = "Up", volume_down = "Down", fullscreen = "f", quit = "q", next_track = "n", prev_track = "p" },
  custom = { fs = "minimal", vo = "gpu" },
}"##,
    );
    assert!(unknown_key_warnings(&document).is_empty());
}

#[test]
fn evaluated_documents_carry_warnings_and_custom_sections() {
    let (document, warnings) =
        load_document("return { custom = { vo = 'gpu', fs = 'minimal' }, zzz = 1 }", "custom.lua").expect("valid");
    assert_eq!(warnings, vec!["zzz"]);
    let custom = custom_section(&document);
    let keys: Vec<&str> = custom.iter().map(|(k, _)| k.as_str()).collect();
    assert_eq!(keys, vec!["fs", "vo"]);
    assert_eq!(custom[1].1, JsonValue::Text("gpu".to_owned()));
    assert!(custom_section(&JsonValue::Null).is_empty());
    assert!(load_document("return {", "broken.lua").is_err());
}

#[test]
fn reloads_replace_only_after_a_successful_load() {
    let mut current = PlaybackConfig::default();
    let failed: Result<LoadedConfig, String> = Err("broken".to_owned());
    assert_eq!(settle_reload(&mut current, failed), Err("broken".to_owned()));
    assert_eq!(current, PlaybackConfig::default());
    let mut next = PlaybackConfig::default();
    next.playback.volume = float(75.0);
    let loaded = LoadedConfig { config: next.clone(), warnings: vec!["x".to_owned()] };
    assert_eq!(settle_reload::<String>(&mut current, Ok(loaded)), Ok(vec!["x".to_owned()]));
    assert_eq!(current, next);
}
