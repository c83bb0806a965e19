//! The media-engine boundary: what PlayBack asks of mpv, decided here and
//! carried out by a backend.
//!
//! Values that are binary64 numbers are kept typed ([`MpvValue::Number`],
//! [`ArgValue::Number`], [`ArgValue::Time`]) and turned into text by the
//! caller, which owns floating-point rendering.

use vstd::prelude::*;
use crate::cli::{MpvArg, MpvArgView, MpvArgs, actions_view, loop_mode_text};
use crate::float::Float64;
use crate::scan::texts_view;
use crate::state::Seconds;
use crate::text::decimal;

verus! {

/// A value sent to an mpv property.
#[derive(Debug, Clone, PartialEq)]
pub enum MpvValue {
    /// A floating-point property value.
    Number(Float64),
    /// A string property value.
    Text(String),
    /// A boolean property value.
    Boolean(bool),
}

/// The view of an [`MpvValue`].
pub enum MpvValueView {
    Number(Float64),
    Text(Seq<char>),
    Boolean(bool),
}

impl View for MpvValue {
    type V = MpvValueView;

    open spec fn view(&self) -> MpvValueView {
        match self {
            MpvValue::Number(n) => MpvValueView::Number(*n),
            MpvValue::Text(t) => MpvValueView::Text(t@),
            MpvValue::Boolean(b) => MpvValueView::Boolean(*b),
        }
    }
}

/// The text of a value that is not a number: the string itself, or
/// `true`/`false`.
pub open spec fn plain_value_text(value: MpvValueView) -> Option<Seq<char>> {
    match value {
        MpvValueView::Number(_) => None,
        MpvValueView::Text(t) => Some(t),
        MpvValueView::Boolean(b) => Some(if b { "true"@ } else { "false"@ }),
    }
}

impl MpvValue {
    /// The text of a value that is not a number (numbers are rendered by
    /// the caller).
    pub fn plain_text(&self) -> (r: Option<String>)
        ensures
            match plain_value_text(self@) {
                Some(t) => r matches Some(s) && s@ == t,
                None => r is None,
            },
    {
        match self {
            MpvValue::Number(_) => None,
            MpvValue::Text(t) => Some(t.clone()),
            MpvValue::Boolean(b) => Some(if *b { "true".to_owned() } else { "false".to_owned() }),
        }
    }
}

/// The value of a command-line option.
#[derive(Debug, Clone, PartialEq)]
pub enum ArgValue {
    /// Text, written as is.
    Text(String),
    /// A number, written in its shortest form (`{}`).
    Number(Float64),
    /// A time, written with three decimals (`{:.3}`).
    Time(Seconds),
}

/// The view of an [`ArgValue`].
pub enum ArgValueView {
    Text(Seq<char>),
    Number(Float64),
    Time(Seconds),
}

impl View for ArgValue {
    type V = ArgValueView;

    open spec fn view(&self) -> ArgValueView {
        match self {
            ArgValue::Text(t) => ArgValueView::Text(t@),
            ArgValue::Number(n) => ArgValueView::Number(*n),
            ArgValue::Time(s) => ArgValueView::Time(*s),
        }
    }
}

/// One argument of an mpv command line: a media path, or `--name` /
/// `--name=value`.
#[derive(Debug, Clone, PartialEq)]
pub enum Argument {
    /// A media path or URL, written as is.
    Media(String),
    /// `--name`, or `--name=value` when a value is present.
    Option {
        /// The option name without dashes.
        name: String,
        /// The option value.
        value: Option<ArgValue>,
    },
}

/// The view of an [`Argument`].
pub enum ArgumentView {
    Media(Seq<char>),
    Option { name: Seq<char>, value: Option<ArgValueView> },
}

impl View for Argument {
    type V = ArgumentView;

    open spec fn view(&self) -> ArgumentView {
        match self {
            Argument::Media(p) => ArgumentView::Media(p@),
            Argument::Option { name, value } => ArgumentView::Option {
                name: name@,
                value: match value {
                    Some(v) => Some(v@),
                    None => None,
                },
            },
        }
    }
}

/// The views of a list of arguments.
pub open spec fn arguments_view(args: Seq<Argument>) -> Seq<ArgumentView> {
    args.map_values(|a: Argument| a@)
}

/// `--name=value` with a text value.
pub open spec fn text_option(name: Seq<char>, value: Seq<char>) -> ArgumentView {
    ArgumentView::Option { name, value: Some(ArgValueView::Text(value)) }
}

/// `--name` with no value.
pub open spec fn flag_option(name: Seq<char>) -> ArgumentView {
    ArgumentView::Option { name, value: None }
}

/// The text mpv takes for a geometry.
pub open spec fn geometry_text(width: u32, height: u32) -> Seq<char> {
    decimal(width as nat) + "x"@ + decimal(height as nat)
}

/// The mpv option an action becomes on the command line.
pub open spec fn action_argument(action: MpvArgView) -> ArgumentView {
    match action {
        MpvArgView::Volume(v) => ArgumentView::Option {
            name: "volume"@,
            value: Some(ArgValueView::Number(v)),
        },
        MpvArgView::Speed(v) => ArgumentView::Option {
            name: "speed"@,
            value: Some(ArgValueView::Number(v)),
        },
        MpvArgView::Start(s) => ArgumentView::Option {
            name: "start"@,
            value: Some(ArgValueView::Time(s)),
        },
        MpvArgView::LoopFile(m) => text_option("loop-file"@, loop_mode_text(m)),
        MpvArgView::SubFile(p) => text_option("sub-file"@, p),
        MpvArgView::AudioFile(p) => text_option("audio-file"@, p),
        MpvArgView::NoVideo => flag_option("no-video"@),
        MpvArgView::Fullscreen => flag_option("fullscreen"@),
        MpvArgView::OnTop => flag_option("ontop"@),
        MpvArgView::Geometry(g) => text_option("geometry"@, geometry_text(g.width, g.height)),
        MpvArgView::Property { name, value } => text_option(name, value),
        MpvArgView::Flag(name) => flag_option(name),
    }
}

/// `--name=value` with a text value.
pub fn text_argument(name: &str, value: String) -> (r: Argument)
    ensures
        r@ == text_option(name@, value@),
{
    Argument::Option { name: name.to_owned(), value: Some(ArgValue::Text(value)) }
}

/// `--name`.
pub fn flag_argument(name: &str) -> (r: Argument)
    ensures
        r@ == flag_option(name@),
{
    Argument::Option { name: name.to_owned(), value: None }
}

/// Converts one action into its mpv command-line arguments (always one).
pub fn action_to_arguments(action: &MpvArg) -> (r: Vec<Argument>)
    ensures
        arguments_view(r@) == seq![action_argument(action@)],
{
    let argument = match action {
        MpvArg::Volume(v) => Argument::Option {
            name: "volume".to_owned(),
            value: Some(ArgValue::Number(*v)),
        },
        MpvArg::Speed(v) => Argument::Option {
            name: "speed".to_owned(),
            value: Some(ArgValue::Number(*v)),
        },
        MpvArg::Start(s) => Argument::Option {
            name: "start".to_owned(),
            value: Some(ArgValue::Time(*s)),
        },
        MpvArg::LoopFile(m) => text_argument("loop-file", m.as_mpv_value()),
        MpvArg::SubFile(p) => text_argument("sub-file", p.clone()),
        MpvArg::AudioFile(p) => text_argument("audio-file", p.clone()),
        MpvArg::NoVideo => flag_argument("no-video"),
        MpvArg::Fullscreen => flag_argument("fullscreen"),
        MpvArg::OnTop => flag_argument("ontop"),
        MpvArg::Geometry(g) => text_argument("geometry", g.as_mpv_value()),
        MpvArg::Property { name, value } => text_argument(name.as_str(), value.clone()),
        MpvArg::Flag(name) => flag_argument(name.as_str()),
    };
    let mut r: Vec<Argument> = Vec::new();
    r.push(argument);
    assert(arguments_view(r@) =~= seq![action_argument(action@)]);
    r
}

/// A complete mpv invocation built from parsed arguments.
#[derive(Debug, Clone, PartialEq)]
pub struct MpvInvocation {
    /// Executable arguments: the media paths, then one option per action.
    pub arguments: Vec<Argument>,
}

/// The invocation for a command line: media first, in order, then each
/// action's option, in order.
pub open spec fn invocation_spec(args: Seq<Seq<char>>, actions: Seq<MpvArgView>) -> Seq<ArgumentView> {
    args.map_values(|p: Seq<char>| ArgumentView::Media(p)) + actions.map_values(
        |a: MpvArgView| action_argument(a),
    )
}

impl MpvInvocation {
    /// Builds an invocation from parsed arguments.
    pub fn from_args(args: &MpvArgs) -> (r: MpvInvocation)
        ensures
            arguments_view(r.arguments@) == invocation_spec(
                texts_view(args.media@),
                actions_view(args.actions@),
            ),
    {
        let mut arguments: Vec<Argument> = Vec::new();
        let ghost media = texts_view(args.media@);
        let ghost actions = actions_view(args.actions@);
        let mut i: usize = 0;
        while i < args.media.len()
            invariant
                i <= args.media@.len(),
                media == texts_view(args.media@),
                arguments_view(arguments@) == media.take(i as int).map_values(
                    |p: Seq<char>| ArgumentView::Media(p),
                ),
            decreases args.media@.len() - i,
        {
            let ghost old_args = arguments@;
            let item = Argument::Media(args.media[i].clone());
            let ghost iv = item@;
            arguments.push(item);
            assert(arguments@ == old_args.push(item));
            assert(arguments_view(arguments@) =~= arguments_view(old_args).push(iv));
            assert(iv == ArgumentView::Media(media[i as int]));
            assert(media.take(i + 1).map_values(|p: Seq<char>| ArgumentView::Media(p))
                =~= media.take(i as int).map_values(|p: Seq<char>| ArgumentView::Media(p)).push(iv));
            i = i + 1;
        }
        assert(media.take(args.media@.len() as int) =~= media);
        let ghost head = arguments_view(arguments@);
        let mut k: usize = 0;
        while k < args.actions.len()
            invariant
                k <= args.actions@.len(),
                actions == actions_view(args.actions@),
                head == media.map_values(|p: Seq<char>| ArgumentView::Media(p)),
                arguments_view(arguments@) == head + actions.take(k as int).map_values(
                    |a: MpvArgView| action_argument(a),
                ),
            decreases args.actions@.len() - k,
        {
            let extra = action_to_arguments(&args.actions[k]);
            let ghost before = arguments_view(arguments@);
            let mut j: usize = 0;
            while j < extra.len()
                invariant
                    j <= extra@.len(),
                    arguments_view(arguments@) == before + arguments_view(extra@).take(j as int),
                decreases extra@.len() - j,
            {
                let ghost old_args = arguments@;
                let item = extra[j].clone_argument();
                let ghost iv = item@;
                arguments.push(item);
                assert(arguments@ == old_args.push(item));
                assert(arguments_view(arguments@) =~= arguments_view(old_args).push(iv));
                assert(iv == arguments_view(extra@)[j as int]);
                assert(arguments_view(extra@).take(j + 1) =~= arguments_view(extra@).take(j as int).push(iv));
                assert(arguments_view(arguments@) =~= before + arguments_view(extra@).take(j + 1));
                j = j + 1;
            }
            assert(arguments_view(extra@).take(extra@.len() as int) =~= seq![action_argument(actions[k as int])]);
            assert(arguments_view(arguments@) =~= head + actions.take(k + 1).map_values(
                |a: MpvArgView| action_argument(a),
            ));
            k = k + 1;
        }
        assert(actions.take(args.actions@.len() as int) =~= actions);
        MpvInvocation { arguments }
    }
}

impl Argument {
    /// A copy of this argument.
    pub fn clone_argument(&self) -> (r: Argument)
        ensures
            r@ == self@,
    {
        match self {
            Argument::Media(p) => Argument::Media(p.clone()),
            Argument::Option { name, value } => Argument::Option {
                name: name.clone(),
                value: match value {
                    Some(ArgValue::Text(t)) => Some(ArgValue::Text(t.clone())),
                    Some(ArgValue::Number(n)) => Some(ArgValue::Number(*n)),
                    Some(ArgValue::Time(s)) => Some(ArgValue::Time(*s)),
                    None => None,
                },
            },
        }
    }
}

} // verus!
