//! Unknown-key diagnostics for configuration documents.
//!
//! Unknown top-level or section keys are reported as warnings and do not
//! make the configuration invalid, which keeps live reload
//! forward-compatible with newer mpv properties and PlayBack releases.

use vstd::prelude::*;
use crate::config::{JsonValue, JsonView, json_view, members_view};
use crate::text::{concat, same_text};

verus! {

/// The keys a section of the schema knows; any other name selects the
/// top-level sections.
pub open spec fn known_keys_spec(section: Seq<char>) -> Seq<Seq<char>> {
    if section == "playback"@ {
        seq!["volume"@, "speed"@, "loop"@, "autoplay"@, "start_paused"@]
    } else if section == "video"@ {
        seq!["hardware_decoding"@, "scale"@, "deinterlace"@, "aspect_ratio"@]
    } else if section == "audio"@ {
        seq!["channel_layout"@, "normalize"@]
    } else if section == "subtitles"@ {
        seq!["enabled"@, "font"@, "font_size"@, "color"@, "border_color"@, "border_size"@]
    } else if section == "interface"@ {
        seq![
            "theme"@,
            "animations"@,
            "blur_background"@,
            "show_playlist"@,
            "show_controls"@,
            "controls_timeout_ms"@,
        ]
    } else if section == "keybindings"@ {
        seq![
            "toggle_play"@,
            "seek_forward"@,
            "seek_backward"@,
            "volume_up"@,
            "volume_down"@,
            "fullscreen"@,
            "quit"@,
            "next_track"@,
            "prev_track"@,
        ]
    } else if section == "custom"@ {
        Seq::empty()
    } else {
        seq![
            "playback"@,
            "video"@,
            "audio"@,
            "subtitles"@,
            "interface"@,
            "keybindings"@,
            "custom"@,
        ]
    }
}

/// The dotted path of `key` under `prefix`.
pub open spec fn member_path(prefix: Seq<char>, key: Seq<char>) -> Seq<char> {
    if prefix.len() == 0 {
        key
    } else {
        prefix + "."@ + key
    }
}

/// The paths of the unknown keys in `value`, an object checked against
/// `known`. Known keys are checked against their own section, except
/// `custom`, which holds arbitrary mpv properties.
pub open spec fn unknown_keys(value: JsonView, prefix: Seq<char>, known: Seq<Seq<char>>) -> Seq<Seq<char>>
    decreases value, 0int,
{
    match value {
        JsonView::Object(members) => unknown_in(members, members.len() as int, prefix, known),
        _ => Seq::empty(),
    }
}

/// The paths of the unknown keys among the first `n` members.
pub open spec fn unknown_in(
    members: Seq<(Seq<char>, JsonView)>,
    n: int,
    prefix: Seq<char>,
    known: Seq<Seq<char>>,
) -> Seq<Seq<char>>
    decreases members, n,
{
    if n <= 0 || n > members.len() {
        Seq::empty()
    } else {
        let before = unknown_in(members, n - 1, prefix, known);
        let key = members[n - 1].0;
        let path = member_path(prefix, key);
        if !known.contains(key) {
            before.push(path)
        } else if key == "custom"@ {
            before
        } else {
            before + unknown_keys(members[n - 1].1, path, known_keys_spec(key))
        }
    }
}

/// The warnings a configuration document yields: one dotted path per
/// unknown key.
pub open spec fn warnings_spec(document: JsonView) -> Seq<Seq<char>> {
    unknown_keys(document, Seq::empty(), known_keys_spec(Seq::empty()))
}

/// The views of a list of names.
pub open spec fn names_view(names: Seq<&str>) -> Seq<Seq<char>> {
    names.map_values(|n: &str| n@)
}

/// The views of a list of owned texts.
pub open spec fn strings_view(texts: Seq<String>) -> Seq<Seq<char>> {
    texts.map_values(|t: String| t@)
}

/// The keys a section of the schema knows.
pub fn known_keys(section: &str) -> (r: Vec<&'static str>)
    ensures
        names_view(r@) == known_keys_spec(section@),
{
    let r = if same_text(section, "playback") {
        vec!["volume", "speed", "loop", "autoplay", "start_paused"]
    } else if same_text(section, "video") {
        vec!["hardware_decoding", "scale", "deinterlace", "aspect_ratio"]
    } else if same_text(section, "audio") {
        vec!["channel_layout", "normalize"]
    } else if same_text(section, "subtitles") {
        vec!["enabled", "font", "font_size", "color", "border_color", "border_size"]
    } else if same_text(section, "interface") {
        vec![
            "theme",
            "animations",
            "blur_background",
            "show_playlist",
            "show_controls",
            "controls_timeout_ms",
        ]
    } else if same_text(section, "keybindings") {
        vec![
            "toggle_play",
            "seek_forward",
            "seek_backward",
            "volume_up",
            "volume_down",
            "fullscreen",
            "quit",
            "next_track",
            "prev_track",
        ]
    } else if same_text(section, "custom") {
        Vec::new()
    } else {
        vec!["playback", "video", "audio", "subtitles", "interface", "keybindings", "custom"]
    };
    assert(names_view(r@) =~= known_keys_spec(section@));
    r
}

/// Whether `key` is one of `known`.
pub fn is_known(known: &Vec<&str>, key: &str) -> (r: bool)
    ensures
        r == names_view(known@).contains(key@),
{
    let mut i: usize = 0;
    while i < known.len()
        invariant
            i <= known@.len(),
            forall|j: int| 0 <= j < i ==> known@[j]@ != key@,
        decreases known@.len() - i,
    {
        if same_text(known[i], key) {
            assert(names_view(known@)[i as int] == key@);
            return true;
        }
        i = i + 1;
    }
    assert forall|j: int| 0 <= j < names_view(known@).len() implies names_view(known@)[j] != key@ by {
        assert(names_view(known@)[j] == known@[j]@);
    }
    false
}

/// The dotted path of `key` under `prefix`.
pub fn path_of(prefix: &str, key: &str) -> (r: String)
    ensures
        r@ == member_path(prefix@, key@),
{
    if prefix.is_empty() {
        key.to_owned()
    } else {
        let a = concat(prefix, ".");
        concat(a.as_str(), key)
    }
}

/// The members of an object, viewed.
pub(crate) proof fn lemma_members_view(members: Seq<(String, JsonValue)>, n: int)
    requires
        0 <= n <= members.len(),
    ensures
        members_view(members, n).len() == n,
        forall|k: int| 0 <= k < n ==> #[trigger] members_view(members, n)[k] == (members[k].0@, json_view(members[k].1)),
    decreases n,
{
    if n > 0 {
        lemma_members_view(members, n - 1);
    }
}

/// Appends the paths of the unknown keys in `value` to `warnings`.
pub fn collect_unknown_keys(
    value: &JsonValue,
    prefix: &str,
    known: &Vec<&str>,
    warnings: &mut Vec<String>,
)
    ensures
        strings_view(final(warnings)@) == strings_view(old(warnings)@) + unknown_keys(
            value@,
            prefix@,
            names_view(known@),
        ),
    decreases value,
{
    match value {
        JsonValue::Object(members) => {
            let ghost mv = members_view(members@, members@.len() as int);
            proof {
                lemma_members_view(members@, members@.len() as int);
            }
            let ghost start = strings_view(warnings@);
            let mut i: usize = 0;
            assert(start + Seq::<Seq<char>>::empty() =~= start);
            while i < members.len()
                invariant
                    i <= members@.len(),
                    *value == JsonValue::Object(*members),
                    mv == members_view(members@, members@.len() as int),
                    mv.len() == members@.len(),
                    forall|k: int| 0 <= k < members@.len() ==> #[trigger] mv[k] == (members@[k].0@, json_view(members@[k].1)),
                    strings_view(warnings@) == start + unknown_in(mv, i as int, prefix@, names_view(known@)),
                decreases members@.len() - i,
            {
                let key = &members[i].0;
                let child = &members[i].1;
                assert(mv[i as int] == (key@, json_view(*child)));
                let path = path_of(prefix, key.as_str());
                let ghost before = strings_view(warnings@);
                if !is_known(known, key.as_str()) {
                    warnings.push(path);
                    assert(strings_view(warnings@) =~= before.push(member_path(prefix@, key@)));
                } else if same_text(key.as_str(), "custom") {
                } else {
                    assert(decreases_to!(*value => members@[i as int].1)) by {
                        assert((*value)->Object_0 == *members);
                        assert(decreases_to!(*value => (*value)->Object_0));
                        assert(decreases_to!(*members => members@));
                        assert(decreases_to!(members@ => members@[i as int]));
                        assert(decreases_to!(members@[i as int] => members@[i as int].1));
                    }
                    let section = known_keys(key.as_str());
                    collect_unknown_keys(child, path.as_str(), &section, warnings);
                }
                i = i + 1;
            }
        },
        _ => {
            assert(strings_view(warnings@) =~= strings_view(warnings@) + Seq::<Seq<char>>::empty());
        },
    }
}

/// The warnings a configuration document yields: one dotted path per
/// unknown key.
pub fn unknown_key_warnings(document: &JsonValue) -> (r: Vec<String>)
    ensures
        strings_view(r@) == warnings_spec(document@),
{
    let mut warnings: Vec<String> = Vec::new();
    proof {
        reveal_strlit("");
        assert(""@ =~= Seq::<char>::empty());
    }
    let top = known_keys("");
    collect_unknown_keys(document, "", &top, &mut warnings);
    assert(strings_view(Seq::<String>::empty()) =~= Seq::<Seq<char>>::empty());
    assert(Seq::<Seq<char>>::empty() + warnings_spec(document@) =~= warnings_spec(document@));
    warnings
}

/// The result of loading a configuration document.
#[derive(Debug, Clone, PartialEq)]
pub struct LoadedConfig {
    /// The typed configuration.
    pub config: crate::config::PlaybackConfig,
    /// Non-fatal diagnostics for unknown keys.
    pub warnings: Vec<String>,
}

impl LoadedConfig {
    /// Pairs a typed configuration with the warnings its source document
    /// yields.
    pub fn from_document(config: crate::config::PlaybackConfig, document: &JsonValue) -> (r: LoadedConfig)
        ensures
            r.config == config,
            strings_view(r.warnings@) == warnings_spec(document@),
    {
        LoadedConfig { config, warnings: unknown_key_warnings(document) }
    }
}

/// Settles a reload attempt: a configuration that loaded replaces the
/// current one and its warnings are returned; a failed load leaves the
/// current configuration as it was and returns the failure.
pub fn settle_reload<E>(current: &mut crate::config::PlaybackConfig, attempt: Result<LoadedConfig, E>) -> (r: Result<Vec<String>, E>)
    ensures
        match attempt {
            Ok(loaded) => *final(current) == loaded.config && r == Ok::<Vec<String>, E>(loaded.warnings),
            Err(e) => *final(current) == *old(current) && r == Err::<Vec<String>, E>(e),
        },
{
    match attempt {
        Ok(loaded) => {
            *current = loaded.config;
            Ok(loaded.warnings)
        },
        Err(error) => Err(error),
    }
}

/// The sections of a configuration document.
pub open spec fn is_section(name: Seq<char>) -> bool {
    ||| name == "playback"@
    ||| name == "video"@
    ||| name == "audio"@
    ||| name == "subtitles"@
    ||| name == "interface"@
    ||| name == "keybindings"@
    ||| name == "custom"@
}

/// Every section but `custom` is checked against its schema: a document
/// whose only member is such a section holding one key the section does
/// not know warns exactly about that key, as `section.key`, whatever its
/// value; the same section holding a key it knows, with a value that is
/// not an object, warns about nothing. The top level knows every section.
pub proof fn law_sections_report_their_unknown_keys(section: Seq<char>, key: Seq<char>, value: JsonView)
    requires
        is_section(section),
        section != "custom"@,
    ensures
        known_keys_spec(Seq::empty()).contains(section),
        !known_keys_spec(section).contains(key) ==> warnings_spec(
            JsonView::Object(seq![(section, JsonView::Object(seq![(key, value)]))]),
        ) == seq![section + "."@ + key],
        known_keys_spec(section).contains(key) && !(value is Object) ==> warnings_spec(
            JsonView::Object(seq![(section, JsonView::Object(seq![(key, value)]))]),
        ) == Seq::<Seq<char>>::empty(),
{
    reveal_strlit("playback");
    reveal_strlit("video");
    reveal_strlit("audio");
    reveal_strlit("subtitles");
    reveal_strlit("interface");
    reveal_strlit("keybindings");
    reveal_strlit("custom");
    let top = known_keys_spec(Seq::empty());
    assert("playback"@.len() == 8 && "video"@.len() == 5 && "audio"@.len() == 5);
    assert("subtitles"@.len() == 9 && "interface"@.len() == 9);
    assert("keybindings"@.len() == 11 && "custom"@.len() == 6);
    assert(Seq::<char>::empty().len() == 0);
    let k = if section == "playback"@ {
        0int
    } else if section == "video"@ {
        1int
    } else if section == "audio"@ {
        2int
    } else if section == "subtitles"@ {
        3int
    } else if section == "interface"@ {
        4int
    } else {
        5int
    };
    assert(top[k] == section);
    assert(top.contains(section));
    assert(section.len() > 0);
    let inner = JsonView::Object(seq![(key, value)]);
    let members = seq![(section, inner)];
    let document = JsonView::Object(members);
    let known = known_keys_spec(section);
    let below = unknown_keys(inner, section, known);
    assert(unknown_in(members, 0, Seq::empty(), top) =~= Seq::<Seq<char>>::empty());
    assert(member_path(Seq::empty(), section) == section);
    assert(warnings_spec(document) == Seq::<Seq<char>>::empty() + below);
    assert(unknown_in(seq![(key, value)], 0, section, known) =~= Seq::<Seq<char>>::empty());
    if !known.contains(key) {
        assert(below =~= seq![section + "."@ + key]);
        assert(Seq::<Seq<char>>::empty() + below =~= seq![section + "."@ + key]);
    } else if !(value is Object) {
        assert(unknown_keys(value, member_path(section, key), known_keys_spec(key)) =~= Seq::<Seq<char>>::empty());
        assert(below =~= Seq::<Seq<char>>::empty());
        assert(Seq::<Seq<char>>::empty() + below =~= Seq::<Seq<char>>::empty());
    }
}

} // verus!
