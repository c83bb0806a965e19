//! The command-line definition the help text and the shell completions are
//! generated from: which options PlayBack lists, their value names and
//! their help lines.

use vstd::prelude::*;
use crate::launcher::shell_named;
use crate::scan::{OptionKind, option_kind, takes_value};

verus! {

/// One option of the command-line definition (`--long`).
#[derive(Debug, Clone)]
pub struct OptionDefinition {
    /// The option's long name, without dashes; also its id.
    pub long: &'static str,
    /// The placeholder shown for its value; `None` for a switch.
    pub value_name: Option<&'static str>,
    /// The help line, when it has one.
    pub help: Option<&'static str>,
    /// The values it accepts, when they are a fixed list.
    pub choices: Vec<&'static str>,
}

/// The view of an [`OptionDefinition`].
pub struct OptionView {
    pub long: Seq<char>,
    pub value_name: Option<Seq<char>>,
    pub help: Option<Seq<char>>,
    pub choices: Seq<Seq<char>>,
}

/// The view of an optional text.
pub open spec fn text_view(text: Option<&str>) -> Option<Seq<char>> {
    match text {
        Some(t) => Some(t@),
        None => None,
    }
}

impl View for OptionDefinition {
    type V = OptionView;

    open spec fn view(&self) -> OptionView {
        OptionView {
            long: self.long@,
            value_name: text_view(self.value_name),
            help: text_view(self.help),
            choices: self.choices@.map_values(|c: &str| c@),
        }
    }
}

/// The whole command-line definition.
#[derive(Debug, Clone)]
pub struct CommandDefinition {
    /// The program name.
    pub name: &'static str,
    /// The one-line description.
    pub about: &'static str,
    /// The long description.
    pub long_about: &'static str,
    /// The text after the option list.
    pub after_help: &'static str,
    /// The help line of the positional media arguments (one or more).
    pub file_help: &'static str,
    /// The options, in the order the help lists them.
    pub options: Vec<OptionDefinition>,
}

/// The view of a [`CommandDefinition`].
pub struct CommandView {
    pub name: Seq<char>,
    pub about: Seq<char>,
    pub long_about: Seq<char>,
    pub after_help: Seq<char>,
    pub file_help: Seq<char>,
    pub options: Seq<OptionView>,
}

impl View for CommandDefinition {
    type V = CommandView;

    open spec fn view(&self) -> CommandView {
        CommandView {
            name: self.name@,
            about: self.about@,
            long_about: self.long_about@,
            after_help: self.after_help@,
            file_help: self.file_help@,
            options: self.options@.map_values(|o: OptionDefinition| o@),
        }
    }
}

/// An option that takes a value.
pub open spec fn valued(long: Seq<char>, value_name: Seq<char>, help: Seq<char>) -> OptionView {
    OptionView { long, value_name: Some(value_name), help: Some(help), choices: Seq::empty() }
}

/// A switch without a help line.
pub open spec fn switch(long: Seq<char>) -> OptionView {
    OptionView { long, value_name: None, help: None, choices: Seq::empty() }
}

/// The options the help lists, in order.
pub open spec fn options_spec() -> Seq<OptionView> {
    seq![
        valued("config"@, "PATH"@, "Lua configuration path"@),
        valued("volume"@, "VALUE"@, "Set volume"@),
        valued("speed"@, "VALUE"@, "Set playback speed"@),
        valued("start"@, "TIME"@, "Seek on load"@),
        valued("loop-file"@, "MODE"@, "Configure file looping"@),
        valued("sub-file"@, "PATH"@, "Add a subtitle file"@),
        valued("audio-file"@, "PATH"@, "Add an audio file"@),
        switch("no-video"@),
        switch("fullscreen"@),
        switch("ontop"@),
        valued("geometry"@, "WIDTHxHEIGHT"@, "Set initial window geometry"@),
        OptionView {
            long: "completion"@,
            value_name: Some("SHELL"@),
            help: Some("Generate a shell completion script"@),
            choices: seq!["bash"@, "elvish"@, "fish"@, "powershell"@, "zsh"@],
        },
    ]
}

/// An option that takes a value.
fn valued_option(long: &'static str, value_name: &'static str, help: &'static str) -> (r: OptionDefinition)
    ensures
        r@ == valued(long@, value_name@, help@),
{
    let r = OptionDefinition { long, value_name: Some(value_name), help: Some(help), choices: Vec::new() };
    assert(r.choices@.map_values(|c: &str| c@) =~= Seq::<Seq<char>>::empty());
    r
}

/// A switch without a help line.
fn switch_option(long: &'static str) -> (r: OptionDefinition)
    ensures
        r@ == switch(long@),
{
    let r = OptionDefinition { long, value_name: None, help: None, choices: Vec::new() };
    assert(r.choices@.map_values(|c: &str| c@) =~= Seq::<Seq<char>>::empty());
    r
}

/// The definition of the `playback` command line.
pub fn command_definition() -> (r: CommandDefinition)
    ensures
        r@.name == "playback"@,
        r@.about == "A friendly, configurable media player powered by mpv"@,
        r@.long_about == "PlayBack is a keyboard-first media player with an mpv-compatible command line. Pass one or more files or URLs, or use --help to see the common options."@,
        r@.after_help == "Examples:\n  playback movie.mp4\n  playback --volume 80 movie.mkv\n  playback --config ~/.config/playback/init.lua movie.mkv\n  playback --completion bash > ~/.local/share/bash-completion/completions/playback"@,
        r@.file_help == "Media file or URL"@,
        r@.options == options_spec(),
{
    let completion = OptionDefinition {
        long: "completion",
        value_name: Some("SHELL"),
        help: Some("Generate a shell completion script"),
        choices: vec!["bash", "elvish", "fish", "powershell", "zsh"],
    };
    assert(completion.choices@.map_values(|c: &str| c@) =~= seq!["bash"@, "elvish"@, "fish"@, "powershell"@, "zsh"@]);
    let options = vec![
        valued_option("config", "PATH", "Lua configuration path"),
        valued_option("volume", "VALUE", "Set volume"),
        valued_option("speed", "VALUE", "Set playback speed"),
        valued_option("start", "TIME", "Seek on load"),
        valued_option("loop-file", "MODE", "Configure file looping"),
        valued_option("sub-file", "PATH", "Add a subtitle file"),
        valued_option("audio-file", "PATH", "Add an audio file"),
        switch_option("no-video"),
        switch_option("fullscreen"),
        switch_option("ontop"),
        valued_option("geometry", "WIDTHxHEIGHT", "Set initial window geometry"),
        completion,
    ];
    assert(options@.map_values(|o: OptionDefinition| o@) =~= options_spec());
    CommandDefinition {
        name: "playback",
        about: "A friendly, configurable media player powered by mpv",
        long_about: "PlayBack is a keyboard-first media player with an mpv-compatible command line. Pass one or more files or URLs, or use --help to see the common options.",
        after_help: "Examples:\n  playback movie.mp4\n  playback --volume 80 movie.mkv\n  playback --config ~/.config/playback/init.lua movie.mkv\n  playback --completion bash > ~/.local/share/bash-completion/completions/playback",
        file_help: "Media file or URL",
        options,
    }
}

/// The help lists only options the parser understands: every option but
/// `--completion` (which is answered before parsing) is one the scanner
/// types, and it takes a value exactly when the help shows a value name.
/// The shells `--completion` offers are exactly the names it accepts.
pub proof fn law_help_matches_the_parser()
    ensures
        forall|i: int| 0 <= i < options_spec().len() && options_spec()[i].long != "completion"@ ==> {
            &&& option_kind(#[trigger] options_spec()[i].long) != OptionKind::Other
            &&& takes_value(option_kind(options_spec()[i].long)) == (options_spec()[i].value_name is Some)
        },
        forall|i: int| 0 <= i < options_spec().len() && options_spec()[i].long == "completion"@ ==> {
            &&& (forall|k: int| 0 <= k < (#[trigger] options_spec()[i]).choices.len() ==> shell_named(options_spec()[i].choices[k]) is Some)
            &&& (forall|name: Seq<char>| shell_named(name) is Some ==> options_spec()[i].choices.contains(name))
        },
{
    reveal_strlit("config");
    assert("config"@ =~= seq!['c', 'o', 'n', 'f', 'i', 'g']);
    reveal_strlit("volume");
    assert("volume"@ =~= seq!['v', 'o', 'l', 'u', 'm', 'e']);
    reveal_strlit("speed");
    assert("speed"@ =~= seq!['s', 'p', 'e', 'e', 'd']);
    reveal_strlit("start");
    assert("start"@ =~= seq!['s', 't', 'a', 'r', 't']);
    reveal_strlit("loop-file");
    assert("loop-file"@ =~= seq!['l', 'o', 'o', 'p', '-', 'f', 'i', 'l', 'e']);
    reveal_strlit("sub-file");
    assert("sub-file"@ =~= seq!['s', 'u', 'b', '-', 'f', 'i', 'l', 'e']);
    reveal_strlit("audio-file");
    assert("audio-file"@ =~= seq!['a', 'u', 'd', 'i', 'o', '-', 'f', 'i', 'l', 'e']);
    reveal_strlit("no-video");
    assert("no-video"@ =~= seq!['n', 'o', '-', 'v', 'i', 'd', 'e', 'o']);
    reveal_strlit("fullscreen");
    assert("fullscreen"@ =~= seq!['f', 'u', 'l', 'l', 's', 'c', 'r', 'e', 'e', 'n']);
    reveal_strlit("ontop");
    assert("ontop"@ =~= seq!['o', 'n', 't', 'o', 'p']);
    reveal_strlit("geometry");
    assert("geometry"@ =~= seq!['g', 'e', 'o', 'm', 'e', 't', 'r', 'y']);
    reveal_strlit("completion");
    assert("completion"@ =~= seq!['c', 'o', 'm', 'p', 'l', 'e', 't', 'i', 'o', 'n']);
    reveal_strlit("bash");
    assert("bash"@ =~= seq!['b', 'a', 's', 'h']);
    reveal_strlit("elvish");
    assert("elvish"@ =~= seq!['e', 'l', 'v', 'i', 's', 'h']);
    reveal_strlit("fish");
    assert("fish"@ =~= seq!['f', 'i', 's', 'h']);
    reveal_strlit("powershell");
    assert("powershell"@ =~= seq!['p', 'o', 'w', 'e', 'r', 's', 'h', 'e', 'l', 'l']);
    reveal_strlit("zsh");
    assert("zsh"@ =~= seq!['z', 's', 'h']);
    let table = options_spec();
    assert(table.len() == 12);
    let kinds = seq![
        OptionKind::Config,
        OptionKind::Volume,
        OptionKind::Speed,
        OptionKind::Start,
        OptionKind::LoopFile,
        OptionKind::SubFile,
        OptionKind::AudioFile,
        OptionKind::NoVideo,
        OptionKind::Fullscreen,
        OptionKind::OnTop,
        OptionKind::Geometry,
    ];
    assert forall|i: int| 0 <= i < 11 implies option_kind(#[trigger] table[i].long) == kinds[i]
        && table[i].long != "completion"@ by {}
    let choices = table[11].choices;
    assert(choices.len() == 5);
    assert forall|k: int| 0 <= k < choices.len() implies shell_named(#[trigger] choices[k]) is Some by {}
    assert forall|name: Seq<char>| shell_named(name) is Some implies choices.contains(name) by {
        if name == "bash"@ {
            assert(choices[0] == name);
        } else if name == "elvish"@ {
            assert(choices[1] == name);
        } else if name == "fish"@ {
            assert(choices[2] == name);
        } else if name == "powershell"@ {
            assert(choices[3] == name);
        } else {
            assert(choices[4] == name);
        }
    }
}

} // verus!
