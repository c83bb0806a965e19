//! Command-line application logic: which request the arguments make, and
//! the mpv arguments a configuration and a command line become.

use vstd::prelude::*;
use crate::cli::{LoopMode, MpvArg, MpvArgs, actions_view};
use crate::document::{ascending_keys, lemma_text_less_transitive, text_before, text_less};
use crate::config::{JsonValue, JsonView, PlaybackConfig, json_view, scalar_text, scalar_to_string};
use crate::float::Float64;
use crate::mpv::{
    ArgValue, ArgValueView, Argument, ArgumentView, MpvInvocation, arguments_view, invocation_spec,
    text_argument, text_option,
};
use crate::scan::texts_view;
use crate::text::{eq_ignore_case, same_text, same_text_ignore_case, trim, trimmed};

verus! {

/// A shell PlayBack can write a completion script for.
#[derive(Debug, Clone, Copy, PartialEq, Eq, Structural)]
pub enum CompletionShell {
    /// Bash.
    Bash,
    /// Elvish.
    Elvish,
    /// Fish.
    Fish,
    /// PowerShell.
    PowerShell,
    /// Zsh.
    Zsh,
}

/// The shell a name selects, spelled exactly as `clap_complete` lists it.
pub open spec fn shell_named(name: Seq<char>) -> Option<CompletionShell> {
    if name == "bash"@ {
        Some(CompletionShell::Bash)
    } else if name == "elvish"@ {
        Some(CompletionShell::Elvish)
    } else if name == "fish"@ {
        Some(CompletionShell::Fish)
    } else if name == "powershell"@ {
        Some(CompletionShell::PowerShell)
    } else if name == "zsh"@ {
        Some(CompletionShell::Zsh)
    } else {
        None
    }
}

/// The shell a name selects. This is what `clap_complete::Shell::from_str`
/// decides: a shell's possible-value name compared exactly (no case
/// folding, no aliases); anything else selects none.
fn parse_shell(value: &str) -> (r: Option<CompletionShell>)
    ensures
        r == shell_named(value@),
{
    if same_text(value, "bash") {
        Some(CompletionShell::Bash)
    } else if same_text(value, "elvish") {
        Some(CompletionShell::Elvish)
    } else if same_text(value, "fish") {
        Some(CompletionShell::Fish)
    } else if same_text(value, "powershell") {
        Some(CompletionShell::PowerShell)
    } else if same_text(value, "zsh") {
        Some(CompletionShell::Zsh)
    } else {
        None
    }
}

/// Index of the first argument equal to `target`, or `-1`.
pub open spec fn first_position(arguments: Seq<Seq<char>>, target: Seq<char>, from: int) -> int
    decreases arguments.len() - from,
{
    if from < 0 || from >= arguments.len() {
        -1
    } else if arguments[from] == target {
        from
    } else {
        first_position(arguments, target, from + 1)
    }
}

/// The shell `--completion SHELL` asks for: the argument after the first
/// `--completion`, when there is one and it names a shell.
pub open spec fn completion_shell_spec(arguments: Seq<Seq<char>>) -> Option<CompletionShell> {
    let index = first_position(arguments, "--completion"@, 0);
    if index < 0 || index + 1 >= arguments.len() {
        None
    } else {
        shell_named(arguments[index + 1])
    }
}

/// The shell `--completion SHELL` asks for.
pub fn completion_shell(arguments: &Vec<String>) -> (r: Option<CompletionShell>)
    ensures
        r == completion_shell_spec(texts_view(arguments@)),
{
    let ghost args = texts_view(arguments@);
    let mut i: usize = 0;
    while i < arguments.len()
        invariant
            args == texts_view(arguments@),
            i <= arguments@.len(),
            first_position(args, "--completion"@, 0) == first_position(args, "--completion"@, i as int),
        decreases arguments@.len() - i,
    {
        if same_text(arguments[i].as_str(), "--completion") {
            if i + 1 >= arguments.len() {
                return None;
            }
            return parse_shell(arguments[i + 1].as_str());
        }
        i = i + 1;
    }
    None
}

/// What the command line asks the application to do.
#[derive(Debug, Clone, Copy, PartialEq, Eq, Structural)]
pub enum CliRequest {
    /// Print the help text.
    Help,
    /// Print the version.
    Version,
    /// Print a completion script.
    Completion(CompletionShell),
    /// Parse the arguments and play.
    Play,
}

/// Whether any argument is one of two spellings.
pub open spec fn mentions(arguments: Seq<Seq<char>>, long: Seq<char>, short: Seq<char>) -> bool {
    exists|i: int| 0 <= i < arguments.len() && (arguments[i] == long || arguments[i] == short)
}

/// The request the arguments (executable name excluded) make: help wins,
/// then version, then a completion script, else playback.
pub open spec fn request_spec(arguments: Seq<Seq<char>>) -> CliRequest {
    if mentions(arguments, "--help"@, "-h"@) {
        CliRequest::Help
    } else if mentions(arguments, "--version"@, "-V"@) {
        CliRequest::Version
    } else {
        match completion_shell_spec(arguments) {
            Some(shell) => CliRequest::Completion(shell),
            None => CliRequest::Play,
        }
    }
}

/// Whether any argument is `long` or `short`.
fn any_is(arguments: &Vec<String>, long: &str, short: &str) -> (r: bool)
    ensures
        r == mentions(texts_view(arguments@), long@, short@),
{
    let ghost args = texts_view(arguments@);
    let mut i: usize = 0;
    while i < arguments.len()
        invariant
            args == texts_view(arguments@),
            i <= arguments@.len(),
            forall|j: int| 0 <= j < i ==> args[j] != long@ && args[j] != short@,
        decreases arguments@.len() - i,
    {
        if same_text(arguments[i].as_str(), long) || same_text(arguments[i].as_str(), short) {
            assert(args[i as int] == arguments@[i as int]@);
            return true;
        }
        i = i + 1;
    }
    false
}

/// The request the arguments (executable name excluded) make.
pub fn request_kind(arguments: &Vec<String>) -> (r: CliRequest)
    ensures
        r == request_spec(texts_view(arguments@)),
{
    if any_is(arguments, "--help", "-h") {
        CliRequest::Help
    } else if any_is(arguments, "--version", "-V") {
        CliRequest::Version
    } else {
        match completion_shell(arguments) {
            Some(shell) => CliRequest::Completion(shell),
            None => CliRequest::Play,
        }
    }
}

/// The arguments after the executable name (none when the list is empty).
pub open spec fn user_arguments(arguments: Seq<Seq<char>>) -> Seq<Seq<char>> {
    if arguments.len() == 0 {
        Seq::empty()
    } else {
        arguments.skip(1)
    }
}

/// The first step of a run: drops the executable name (the first element,
/// when present) and decides what the rest asks for. The caller then prints
/// the help, the version or a completion script, or parses the returned
/// arguments and plays.
pub fn launch_request(arguments: &Vec<String>) -> (r: (CliRequest, Vec<String>))
    ensures
        texts_view(r.1@) == user_arguments(texts_view(arguments@)),
        r.0 == request_spec(texts_view(r.1@)),
{
    let ghost all = texts_view(arguments@);
    let mut rest: Vec<String> = Vec::new();
    let mut i: usize = 1;
    assert(texts_view(rest@) =~= Seq::<Seq<char>>::empty());
    while i < arguments.len()
        invariant
            1 <= i,
            all == texts_view(arguments@),
            i <= arguments@.len() || arguments@.len() == 0,
            arguments@.len() > 0 ==> texts_view(rest@) == all.subrange(1, i as int),
            arguments@.len() == 0 ==> rest@.len() == 0,
        decreases arguments@.len() - i,
    {
        let ghost before = texts_view(rest@);
        rest.push(arguments[i].clone());
        assert(texts_view(rest@) =~= before.push(all[i as int]));
        assert(all.subrange(1, i + 1) =~= all.subrange(1, i as int).push(all[i as int]));
        i = i + 1;
    }
    proof {
        if arguments@.len() > 0 {
            assert(all.subrange(1, all.len() as int) =~= all.skip(1));
        } else {
            assert(texts_view(rest@) =~= Seq::<Seq<char>>::empty());
        }
    }
    let request = request_kind(&rest);
    (request, rest)
}

/// The forwarded custom properties: each scalar `key = value` as
/// `--key=value`, in key order; other values are left out.
pub open spec fn custom_arguments(custom: Seq<(Seq<char>, JsonView)>) -> Seq<ArgumentView>
    decreases custom.len(),
{
    if custom.len() == 0 {
        Seq::empty()
    } else {
        let before = custom_arguments(custom.drop_last());
        match scalar_text(custom.last().1) {
            Some(t) => before.push(text_option(custom.last().0, t)),
            None => before,
        }
    }
}

/// The views of the custom properties.
pub open spec fn custom_view(custom: Seq<(String, JsonValue)>) -> Seq<(Seq<char>, JsonView)> {
    custom.map_values(|m: (String, JsonValue)| (m.0@, json_view(m.1)))
}

/// The option name of an argument (empty for a media path).
pub open spec fn option_name(argument: ArgumentView) -> Seq<char> {
    match argument {
        ArgumentView::Option { name, value: _ } => name,
        ArgumentView::Media(_) => Seq::empty(),
    }
}

/// Every forwarded custom property is named by a key that sorts before
/// `bound` when every key does.
proof fn lemma_custom_names_below(custom: Seq<(Seq<char>, JsonView)>, bound: Seq<char>)
    requires
        forall|k: int| 0 <= k < custom.len() ==> text_less(#[trigger] custom[k].0, bound),
    ensures
        forall|i: int| 0 <= i < custom_arguments(custom).len() ==> text_less(
            #[trigger] option_name(custom_arguments(custom)[i]),
            bound,
        ),
    decreases custom.len(),
{
    if custom.len() > 0 {
        let rest = custom.drop_last();
        assert forall|k: int| 0 <= k < rest.len() implies text_less(#[trigger] rest[k].0, bound) by {
            assert(rest[k] == custom[k]);
        }
        lemma_custom_names_below(rest, bound);
        let before = custom_arguments(rest);
        let all = custom_arguments(custom);
        assert(text_less(custom.last().0, bound));
        assert forall|i: int| 0 <= i < all.len() implies text_less(#[trigger] option_name(all[i]), bound) by {
            if i < before.len() {
                assert(all[i] == before[i]);
            }
        }
    }
}

/// With strictly ascending keys, the forwarded custom properties come out
/// with strictly ascending names, as from a map kept in key order.
pub proof fn law_custom_arguments_ascend(custom: Seq<(Seq<char>, JsonView)>)
    requires
        ascending_keys(custom),
    ensures
        forall|i: int, j: int| 0 <= i < j < custom_arguments(custom).len() ==> text_less(
            #[trigger] option_name(custom_arguments(custom)[i]),
            #[trigger] option_name(custom_arguments(custom)[j]),
        ),
    decreases custom.len(),
{
    if custom.len() > 0 {
        let rest = custom.drop_last();
        let last = custom[custom.len() - 1].0;
        assert forall|i: int, j: int| 0 <= i < j < rest.len() implies text_less(rest[i].0, rest[j].0) by {
            assert(rest[i] == custom[i] && rest[j] == custom[j]);
        }
        law_custom_arguments_ascend(rest);
        assert forall|k: int| 0 <= k < rest.len() implies text_less(#[trigger] rest[k].0, last) by {
            assert(rest[k] == custom[k]);
        }
        lemma_custom_names_below(rest, last);
        let before = custom_arguments(rest);
        let all = custom_arguments(custom);
        assert(custom.last().0 == last);
        assert forall|i: int, j: int| 0 <= i < j < all.len() implies text_less(
            #[trigger] option_name(all[i]),
            #[trigger] option_name(all[j]),
        ) by {
            assert(all[i] == before[i]);
            if j < before.len() {
                assert(all[j] == before[j]);
            } else {
                assert(option_name(all[j]) == last);
                assert(text_less(option_name(before[i]), last));
            }
        }
    }
}

/// Whether the custom properties' keys are strictly ascending, as the
/// keys of an evaluated configuration table come out.
pub fn custom_keys_ascending(custom: &Vec<(String, JsonValue)>) -> (r: bool)
    ensures
        r == ascending_keys(custom_view(custom@)),
{
    let ghost v = custom_view(custom@);
    if custom.len() == 0 {
        return true;
    }
    let mut k: usize = 0;
    while k < custom.len() - 1
        invariant
            v == custom_view(custom@),
            custom@.len() > 0,
            k < custom@.len(),
            forall|i: int, j: int| 0 <= i < j <= k ==> text_less(#[trigger] v[i].0, #[trigger] v[j].0),
        decreases custom@.len() - k,
    {
        assert(v[k as int].0 == custom@[k as int].0@);
        assert(v[k + 1].0 == custom@[k + 1].0@);
        if !text_before(custom[k].0.as_str(), custom[k + 1].0.as_str()) {
            return false;
        }
        assert forall|i: int, j: int| 0 <= i < j <= k + 1 implies text_less(#[trigger] v[i].0, #[trigger] v[j].0) by {
            if j == k + 1 && i < k {
                lemma_text_less_transitive(v[i].0, v[k as int].0, v[j].0);
            }
        }
        k = k + 1;
    }
    true
}

/// The mpv arguments a configuration becomes.
pub open spec fn config_arguments_spec(config: PlaybackConfig) -> Seq<ArgumentView> {
    let aspect = trim(config.video.aspect_ratio@);
    let base = seq![
        ArgumentView::Option { name: "volume"@, value: Some(ArgValueView::Number(config.playback.volume)) },
        ArgumentView::Option { name: "speed"@, value: Some(ArgValueView::Number(config.playback.speed)) },
        text_option("loop-file"@, if config.playback.looping { "inf"@ } else { "no"@ }),
        text_option("hwdec"@, config.video.hardware_decoding@),
        text_option("scale"@, config.video.scale@),
        text_option("audio-channels"@, config.audio.channel_layout@),
    ];
    let with_aspect = if aspect.len() > 0 && !eq_ignore_case(aspect, "auto"@) {
        base.push(text_option("video-aspect-override"@, aspect))
    } else {
        base
    };
    let with_deinterlace = if config.video.deinterlace {
        with_aspect.push(text_option("deinterlace"@, "yes"@))
    } else {
        with_aspect
    };
    let with_normalize = if config.audio.normalize {
        with_deinterlace.push(text_option("af"@, "lavfi=[loudnorm]"@))
    } else {
        with_deinterlace
    };
    let with_subtitles = if !config.subtitles.enabled {
        with_normalize.push(text_option("sub-visibility"@, "no"@))
    } else {
        with_normalize
    };
    with_subtitles + custom_arguments(custom_view(config.custom@))
}

/// Pushes an argument, keeping track of the views.
fn push_argument(arguments: &mut Vec<Argument>, argument: Argument)
    ensures
        arguments_view(final(arguments)@) == arguments_view(old(arguments)@).push(argument@),
{
    let ghost v = argument@;
    arguments.push(argument);
    assert(arguments_view(arguments@) =~= arguments_view(old(arguments)@).push(v));
}

/// The mpv arguments a configuration becomes.
pub fn config_arguments(config: &PlaybackConfig) -> (r: Vec<Argument>)
    requires
        ascending_keys(custom_view(config.custom@)),
    ensures
        arguments_view(r@) == config_arguments_spec(*config),
{
    let mut arguments: Vec<Argument> = Vec::new();
    push_argument(&mut arguments, Argument::Option {
        name: "volume".to_owned(),
        value: Some(ArgValue::Number(config.playback().volume())),
    });
    push_argument(&mut arguments, Argument::Option {
        name: "speed".to_owned(),
        value: Some(ArgValue::Number(config.playback().speed())),
    });
    let looping = if config.playback.looping { "inf".to_owned() } else { "no".to_owned() };
    push_argument(&mut arguments, text_argument("loop-file", looping));
    push_argument(&mut arguments, text_argument("hwdec", config.video().hardware_decoding().to_owned()));
    push_argument(&mut arguments, text_argument("scale", config.video.scale.clone()));
    push_argument(&mut arguments, text_argument("audio-channels", config.audio().channel_layout().to_owned()));
    assert(arguments_view(arguments@) =~= seq![
        ArgumentView::Option { name: "volume"@, value: Some(ArgValueView::Number(config.playback.volume)) },
        ArgumentView::Option { name: "speed"@, value: Some(ArgValueView::Number(config.playback.speed)) },
        text_option("loop-file"@, if config.playback.looping { "inf"@ } else { "no"@ }),
        text_option("hwdec"@, config.video.hardware_decoding@),
        text_option("scale"@, config.video.scale@),
        text_option("audio-channels"@, config.audio.channel_layout@),
    ]);
    let aspect = trimmed(config.video.aspect_ratio.as_str());
    if !aspect.as_str().is_empty() && !same_text_ignore_case(aspect.as_str(), "auto") {
        push_argument(&mut arguments, text_argument("video-aspect-override", aspect));
    }
    if config.video.deinterlace {
        push_argument(&mut arguments, text_argument("deinterlace", "yes".to_owned()));
    }
    if config.audio.normalize {
        push_argument(&mut arguments, text_argument("af", "lavfi=[loudnorm]".to_owned()));
    }
    if !config.subtitles().enabled() {
        push_argument(&mut arguments, text_argument("sub-visibility", "no".to_owned()));
    }
    let ghost head = arguments_view(arguments@);
    let ghost custom = custom_view(config.custom@);
    let mut i: usize = 0;
    assert(custom.take(0) =~= Seq::<(Seq<char>, JsonView)>::empty());
    assert(head + Seq::<ArgumentView>::empty() =~= head);
    while i < config.custom.len()
        invariant
            i <= config.custom@.len(),
            custom == custom_view(config.custom@),
            arguments_view(arguments@) == head + custom_arguments(custom.take(i as int)),
        decreases config.custom@.len() - i,
    {
        let key = &config.custom[i].0;
        let value = &config.custom[i].1;
        assert(custom.take(i + 1).drop_last() =~= custom.take(i as int));
        assert(custom.take(i + 1).last() == (key@, json_view(*value)));
        let ghost before = arguments_view(arguments@);
        if let Some(text) = scalar_to_string(value) {
            push_argument(&mut arguments, text_argument(key.as_str(), text));
            assert(arguments_view(arguments@) =~= head + custom_arguments(custom.take(i + 1)));
        }
        i = i + 1;
    }
    assert(custom.take(config.custom@.len() as int) =~= custom);
    arguments
}

/// Everything mpv is run with: the configuration's arguments, then the
/// command line's invocation.
pub fn backend_arguments(config: &PlaybackConfig, args: &MpvArgs) -> (r: Vec<Argument>)
    requires
        ascending_keys(custom_view(config.custom@)),
    ensures
        arguments_view(r@) == config_arguments_spec(*config) + invocation_spec(
            texts_view(args.media@),
            actions_view(args.actions@),
        ),
{
    let mut arguments = config_arguments(config);
    let invocation = MpvInvocation::from_args(args);
    let ghost head = arguments_view(arguments@);
    let ghost tail = arguments_view(invocation.arguments@);
    let mut i: usize = 0;
    while i < invocation.arguments.len()
        invariant
            i <= invocation.arguments@.len(),
            tail == arguments_view(invocation.arguments@),
            arguments_view(arguments@) == head + tail.take(i as int),
        decreases invocation.arguments@.len() - i,
    {
        push_argument(&mut arguments, invocation.arguments[i].clone_argument());
        assert(tail.take(i + 1) =~= tail.take(i as int).push(tail[i as int]));
        i = i + 1;
    }
    assert(tail.take(invocation.arguments@.len() as int) =~= tail);
    arguments
}

/// Folds the command line's volume, speed and loop options into a
/// configuration (later options win).
pub fn apply_cli_overrides(config: &mut PlaybackConfig, actions: &Vec<MpvArg>)
    ensures
        final(config).video == old(config).video,
        final(config).audio == old(config).audio,
        final(config).subtitles == old(config).subtitles,
        final(config).interface == old(config).interface,
        final(config).keybindings == old(config).keybindings,
        final(config).custom == old(config).custom,
        final(config).playback.autoplay == old(config).playback.autoplay,
        final(config).playback.start_paused == old(config).playback.start_paused,
        final(config).playback.volume == last_volume(actions_view(actions@), old(config).playback.volume),
        final(config).playback.speed == last_speed(actions_view(actions@), old(config).playback.speed),
        final(config).playback.looping == last_looping(actions_view(actions@), old(config).playback.looping),
{
    let ghost acts = actions_view(actions@);
    let mut i: usize = 0;
    while i < actions.len()
        invariant
            i <= actions@.len(),
            acts == actions_view(actions@),
            config.video == old(config).video,
            config.audio == old(config).audio,
            config.subtitles == old(config).subtitles,
            config.interface == old(config).interface,
            config.keybindings == old(config).keybindings,
            config.custom == old(config).custom,
            config.playback.autoplay == old(config).playback.autoplay,
            config.playback.start_paused == old(config).playback.start_paused,
            config.playback.volume == last_volume(acts.take(i as int), old(config).playback.volume),
            config.playback.speed == last_speed(acts.take(i as int), old(config).playback.speed),
            config.playback.looping == last_looping(acts.take(i as int), old(config).playback.looping),
        decreases actions@.len() - i,
    {
        assert(acts.take(i + 1).drop_last() =~= acts.take(i as int));
        match &actions[i] {
            MpvArg::Volume(v) => config.playback.volume = *v,
            MpvArg::Speed(s) => config.playback.speed = *s,
            MpvArg::LoopFile(m) => config.playback.looping = *m != LoopMode::Once,
            _ => {},
        }
        i = i + 1;
    }
    assert(acts.take(actions@.len() as int) =~= acts);
}

/// The last volume among the actions, or `initial`.
pub open spec fn last_volume(actions: Seq<crate::cli::MpvArgView>, initial: Float64) -> Float64
    decreases actions.len(),
{
    if actions.len() == 0 {
        initial
    } else {
        match actions.last() {
            crate::cli::MpvArgView::Volume(v) => v,
            _ => last_volume(actions.drop_last(), initial),
        }
    }
}

/// The last speed among the actions, or `initial`.
pub open spec fn last_speed(actions: Seq<crate::cli::MpvArgView>, initial: Float64) -> Float64
    decreases actions.len(),
{
    if actions.len() == 0 {
        initial
    } else {
        match actions.last() {
            crate::cli::MpvArgView::Speed(v) => v,
            _ => last_speed(actions.drop_last(), initial),
        }
    }
}

/// Whether the last loop option repeats, or `initial` without one.
pub open spec fn last_looping(actions: Seq<crate::cli::MpvArgView>, initial: bool) -> bool
    decreases actions.len(),
{
    if actions.len() == 0 {
        initial
    } else {
        match actions.last() {
            crate::cli::MpvArgView::LoopFile(m) => m != LoopMode::Once,
            _ => last_looping(actions.drop_last(), initial),
        }
    }
}

} // verus!
