//! Laws of the command-line scanner.

use vstd::prelude::*;
use crate::cli::{
    LoopMode, WindowGeometry, geometry_spec, is_option_spec, loop_mode_spec, loop_mode_text,
    split_option_spec,
};
use crate::text::{
    decimal, is_digit, lemma_decimal, lemma_decimal_lacks, lemma_lowercase_digits,
    lemma_parse_decimal, lowercase,
};
use crate::scan::{
    ScanEntryView, ScanView, bare_entry, normalized_name, option_kind, scan_from, scan_spec,
    takes_value,
};
use crate::text::{find_char, lemma_find_concat, lemma_find_from, strip_dashes};
use crate::cli::{MpvArgView, args_of_entries};
use crate::mpv::{ArgValueView, ArgumentView, action_argument, flag_option, geometry_text, invocation_spec, text_option};
use crate::cli::MpvArgsView;
use crate::text::{find_from, is_blank, split_spec};
use crate::float::{Float64, is_nonnegative_finite, is_positive_finite};
use crate::error::CoreErrorView;
use crate::scan::{OptionKind, prepend, prepend_all, value_entry};
use crate::reading::{ReadingView, complete, finish_spec, number_count, read_entry};
use crate::scan::NumberOption;

verus! {

/// Scanning only looks at the arguments from its position on: the same
/// arguments after any prefix scan the same way.
pub proof fn lemma_scan_shift(p: Seq<Seq<char>>, r: Seq<Seq<char>>, k: int, options: bool)
    requires
        0 <= k,
    ensures
        scan_from(p + r, p.len() + k, options) == scan_from(r, k, options),
    decreases r.len() - k,
{
    if k < r.len() {
        assert((p + r)[p.len() + k] == r[k]);
        if k + 1 < r.len() {
            assert((p + r)[p.len() + k + 1] == r[k + 1]);
        }
        lemma_scan_shift(p, r, k + 1, false);
        lemma_scan_shift(p, r, k + 1, true);
        if k + 2 <= r.len() {
            lemma_scan_shift(p, r, k + 2, true);
        }
        assert(p.len() + k + 1 == p.len() + (k + 1));
        assert(p.len() + k + 2 == p.len() + (k + 2));
    }
}

/// Once option processing is off, every remaining argument is media.
pub proof fn lemma_scan_without_options(args: Seq<Seq<char>>, i: int)
    requires
        0 <= i <= args.len(),
    ensures
        scan_from(args, i, false) == (ScanView {
            entries: args.skip(i).map_values(|a: Seq<char>| ScanEntryView::Media(a)),
            error: None,
        }),
    decreases args.len() - i,
{
    if i < args.len() {
        lemma_scan_without_options(args, i + 1);
        assert(args.skip(i).map_values(|a: Seq<char>| ScanEntryView::Media(a)) =~= seq![
            ScanEntryView::Media(args[i]),
        ] + args.skip(i + 1).map_values(|a: Seq<char>| ScanEntryView::Media(a)));
    } else {
        assert(args.skip(i).map_values(|a: Seq<char>| ScanEntryView::Media(a)) =~= Seq::<
            ScanEntryView,
        >::empty());
    }
}

/// `--` ends option processing: every argument after it is kept as media,
/// in order, even when it looks like an option.
pub proof fn law_double_dash_ends_options(rest: Seq<Seq<char>>)
    ensures
        scan_spec(seq!["--"@] + rest) == (ScanView {
            entries: rest.map_values(|a: Seq<char>| ScanEntryView::Media(a)),
            error: None,
        }),
{
    let args = seq!["--"@] + rest;
    assert(args[0] == "--"@);
    lemma_scan_without_options(args, 1);
    assert(args.skip(1) =~= rest);
}

/// Arguments that are not options (and no `--`) are media, in the order
/// given.
pub proof fn law_plain_arguments_are_media(args: Seq<Seq<char>>)
    requires
        forall|i: int| 0 <= i < args.len() ==> !is_option_spec(#[trigger] args[i]),
    ensures
        scan_spec(args) == (ScanView {
            entries: args.map_values(|a: Seq<char>| ScanEntryView::Media(a)),
            error: None,
        }),
{
    reveal_strlit("--");
    assert("--"@ =~= seq!['-', '-']);
    lemma_plain_from(args, 0);
    assert(args.skip(0) =~= args);
}

proof fn lemma_plain_from(args: Seq<Seq<char>>, i: int)
    requires
        0 <= i <= args.len(),
        forall|j: int| 0 <= j < args.len() ==> !is_option_spec(#[trigger] args[j]),
        "--"@ == seq!['-', '-'],
    ensures
        scan_from(args, i, true) == (ScanView {
            entries: args.skip(i).map_values(|a: Seq<char>| ScanEntryView::Media(a)),
            error: None,
        }),
    decreases args.len() - i,
{
    if i < args.len() {
        assert(!is_option_spec(args[i]));
        assert(args[i] != "--"@);
        lemma_plain_from(args, i + 1);
        assert(args.skip(i).map_values(|a: Seq<char>| ScanEntryView::Media(a)) =~= seq![
            ScanEntryView::Media(args[i]),
        ] + args.skip(i + 1).map_values(|a: Seq<char>| ScanEntryView::Media(a)));
    } else {
        assert(args.skip(i).map_values(|a: Seq<char>| ScanEntryView::Media(a)) =~= Seq::<
            ScanEntryView,
        >::empty());
    }
}

/// An argument that names no value option: not an option at all, or an
/// option PlayBack does not give a value.
pub open spec fn never_fails(a: Seq<char>) -> bool {
    !is_option_spec(a) || !takes_value(option_kind(normalized_name(split_option_spec(a).0)))
}

/// Only the typed value options can make scanning fail: unknown options are
/// forwarded (as properties or flags), never rejected.
pub proof fn law_unknown_options_never_fail(args: Seq<Seq<char>>)
    requires
        forall|i: int| 0 <= i < args.len() ==> never_fails(#[trigger] args[i]),
    ensures
        scan_spec(args).error is None,
        scan_spec(args).entries.len() <= args.len(),
{
    lemma_never_fails_from(args, 0, true);
}

proof fn lemma_never_fails_from(args: Seq<Seq<char>>, i: int, options: bool)
    requires
        0 <= i <= args.len(),
        forall|j: int| 0 <= j < args.len() ==> never_fails(#[trigger] args[j]),
    ensures
        scan_from(args, i, options).error is None,
        scan_from(args, i, options).entries.len() <= args.len() - i,
    decreases args.len() - i,
{
    if i < args.len() {
        assert(never_fails(args[i]));
        lemma_never_fails_from(args, i + 1, false);
        lemma_never_fails_from(args, i + 1, true);
        lemma_never_fails_from(args, i + 1, options);
    }
}

/// The argument `name=value`.
pub open spec fn with_inline_value(name: Seq<char>, value: Seq<char>) -> Seq<char> {
    name + seq!['='] + value
}

/// A value option scans the same whether its value is written inline
/// (`--volume=80`) or as the next argument (`--volume 80`).
pub proof fn law_inline_and_separate_values_agree(
    name: Seq<char>,
    value: Seq<char>,
    rest: Seq<Seq<char>>,
)
    requires
        is_option_spec(name),
        find_char(name, '=') == -1,
        takes_value(option_kind(normalized_name(name))),
    ensures
        scan_spec(seq![with_inline_value(name, value)] + rest) == scan_spec(seq![name, value] + rest),
{
    reveal_strlit("--");
    let joined = with_inline_value(name, value);
    let a = seq![joined] + rest;
    let b = seq![name, value] + rest;
    // `name` is not `--`: that one normalizes to the empty name, which takes no value.
    assert("--"@ =~= seq!['-', '-']);
    if name == "--"@ {
        assert(name.drop_first().drop_first() =~= Seq::<char>::empty());
        assert(strip_dashes(name) == strip_dashes(name.drop_first()));
        assert(strip_dashes(name.drop_first()) == strip_dashes(name.drop_first().drop_first()));
        assert(strip_dashes(name) =~= Seq::<char>::empty());
        assert(normalized_name(name) =~= Seq::<char>::empty());
        reveal_strlit("volume");
        reveal_strlit("speed");
        reveal_strlit("start");
        reveal_strlit("loop-file");
        reveal_strlit("sub-file");
        reveal_strlit("audio-file");
        reveal_strlit("geometry");
        reveal_strlit("config");
        assert("volume"@.len() > 0 && "speed"@.len() > 0 && "start"@.len() > 0);
        assert("loop-file"@.len() > 0 && "sub-file"@.len() > 0 && "audio-file"@.len() > 0);
        assert("geometry"@.len() > 0 && "config"@.len() > 0);
        assert(false);
    }
    lemma_find_concat(name, seq!['='] + value, '=');
    assert(name + (seq!['='] + value) =~= joined);
    assert(find_char(seq!['='] + value, '=') == 0);
    assert(find_char(joined, '=') == name.len());
    assert(joined.take(name.len() as int) =~= name);
    assert(joined.skip(name.len() + 1int) =~= value);
    assert(split_option_spec(joined) == (name, Some(value)));
    assert(split_option_spec(name) == (name, None::<Seq<char>>));
    assert(is_option_spec(joined));
    assert(joined != "--"@) by {
        assert(joined.len() != 2 || joined[0] != '-' || joined[1] != '-' || name.len() < 2);
        if joined == "--"@ {
            assert(joined[name.len() as int] == '=');
        }
    }
    assert(a[0] == joined);
    assert(b[0] == name);
    assert(b[1] == value);
    lemma_scan_shift(seq![joined], rest, 0, true);
    lemma_scan_shift(seq![name, value], rest, 0, true);
}

/// Legacy single-dash options (`-fullscreen`, `-fs=minimal`) scan exactly
/// like their double-dash spelling when they take no value.
pub proof fn law_single_dash_spelling(body: Seq<char>, rest: Seq<Seq<char>>)
    requires
        body.len() > 0,
        body[0] != '-',
        !takes_value(option_kind(normalized_name(split_option_spec(seq!['-'] + body).0))),
    ensures
        scan_spec(seq![seq!['-'] + body] + rest) == scan_spec(seq![seq!['-', '-'] + body] + rest),
{
    reveal_strlit("--");
    let one = seq!['-'] + body;
    let two = seq!['-', '-'] + body;
    assert(two =~= seq!['-'] + one);
    assert("--"@ =~= seq!['-', '-']);
    lemma_find_from(seq!['-'], '=', 0);
    lemma_find_from(seq!['-', '-'], '=', 0);
    assert(find_char(seq!['-'], '=') == -1);
    assert(find_char(seq!['-', '-'], '=') == -1);
    lemma_find_concat(seq!['-'], body, '=');
    lemma_find_concat(seq!['-', '-'], body, '=');
    lemma_find_from(body, '=', 0);
    let n1 = split_option_spec(one).0;
    let n2 = split_option_spec(two).0;
    assert(n2 =~= seq!['-'] + n1);
    assert(n1.len() > 0 && n1[0] == '-');
    assert(n2.drop_first() =~= n1);
    assert(strip_dashes(n2) == strip_dashes(n1));
    assert(normalized_name(n2) == normalized_name(n1));
    assert(split_option_spec(two).1 == split_option_spec(one).1);
    assert(one != "--"@) by {
        if one == "--"@ {
            assert(one[1] == body[0]);
        }
    }
    assert(two != "--"@) by {
        if two == "--"@ {
            assert(two.len() == 2);
        }
    }
    let a = seq![one] + rest;
    let b = seq![two] + rest;
    assert(a[0] == one);
    assert(b[0] == two);
    lemma_scan_shift(seq![one], rest, 0, true);
    lemma_scan_shift(seq![two], rest, 0, true);
}

/// A geometry rendered for mpv (`WIDTHxHEIGHT`) is read back as the same
/// geometry.
pub proof fn law_geometry_round_trip(option: Seq<char>, geometry: WindowGeometry)
    requires
        geometry.width > 0,
        geometry.height > 0,
    ensures
        geometry_spec(
            option,
            decimal(geometry.width as nat) + "x"@ + decimal(geometry.height as nat),
        ) == Ok::<WindowGeometry, crate::error::CoreErrorView>(geometry),
{
    reveal_strlit("x");
    let w = decimal(geometry.width as nat);
    let h = decimal(geometry.height as nat);
    assert("x"@ =~= seq!['x']);
    lemma_decimal_lacks(geometry.width as nat, 'x');
    lemma_decimal_lacks(geometry.height as nat, 'x');
    lemma_find_concat(w, seq!['x'] + h, 'x');
    let text = w + "x"@ + h;
    assert(w + (seq!['x'] + h) =~= text);
    assert(find_char(seq!['x'] + h, 'x') == 0);
    assert(text.take(w.len() as int) =~= w);
    assert(text.skip(w.len() + 1int) =~= h);
    lemma_parse_decimal(geometry.width);
    lemma_parse_decimal(geometry.height);
}

/// A loop mode rendered for mpv is read back as the same mode, except a
/// count of zero, which reads back as `Once` (`0` means "no repeat").
pub proof fn law_loop_mode_round_trip(option: Seq<char>, mode: LoopMode)
    requires
        mode != LoopMode::Count(0),
    ensures
        loop_mode_spec(option, loop_mode_text(mode)) == Ok::<LoopMode, crate::error::CoreErrorView>(mode),
{
    reveal_strlit("inf");
    reveal_strlit("infinite");
    reveal_strlit("no");
    reveal_strlit("none");
    reveal_strlit("0");
    assert("inf"@ =~= seq!['i', 'n', 'f']);
    assert("infinite"@ =~= seq!['i', 'n', 'f', 'i', 'n', 'i', 't', 'e']);
    assert("no"@ =~= seq!['n', 'o']);
    assert("none"@ =~= seq!['n', 'o', 'n', 'e']);
    assert("0"@ =~= seq!['0']);
    match mode {
        LoopMode::Once => {
            assert(lowercase("no"@) =~= "no"@);
        },
        LoopMode::Infinite => {
            assert(lowercase("inf"@) =~= "inf"@);
        },
        LoopMode::Count(n) => {
            let s = decimal(n as nat);
            lemma_decimal(n as nat);
            lemma_lowercase_digits(s);
            lemma_parse_decimal(n);
            assert(is_digit(s[0]));
            assert(s != "inf"@ && s != "infinite"@ && s != "no"@ && s != "none"@) by {
                assert(s[0] != 'i' && s[0] != 'n');
            }
            assert(s != "0"@) by {
                if s == "0"@ {
                    assert(n < 10);
                    assert(decimal(n as nat) == seq![crate::text::digit_char(n as int)]);
                }
            }
        },
    }
}

/// The mpv argument an option PlayBack does not type is forwarded as:
/// `--name=value` when it carried `=value`, `--name` otherwise.
pub open spec fn forwarded_option(a: Seq<char>) -> ArgumentView {
    let norm = normalized_name(split_option_spec(a).0);
    match split_option_spec(a).1 {
        Some(v) => text_option(norm, v),
        None => flag_option(norm),
    }
}

/// An option PlayBack does not type is never dropped: scanning it, collecting
/// the command line and building the mpv invocation gives back that option
/// (its name normalized), with its value when it had one.
pub proof fn law_unknown_options_are_forwarded(a: Seq<char>)
    requires
        is_option_spec(a),
        a != "--"@,
        option_kind(normalized_name(split_option_spec(a).0)) == OptionKind::Other,
    ensures
        scan_spec(seq![a]).error is None,
        ({
            let args = args_of_entries(scan_spec(seq![a]).entries);
            &&& args.media.len() == 0
            &&& args.config is None
            &&& invocation_spec(args.media, args.actions) == seq![forwarded_option(a)]
        }),
{
    let args = seq![a];
    assert(args[0] == a);
    let name = split_option_spec(a).0;
    let norm = normalized_name(name);
    let inline = split_option_spec(a).1;
    let entry = bare_entry(OptionKind::Other, norm, inline);
    assert(scan_from(args, 1, true) == (ScanView { entries: Seq::empty(), error: None }));
    let s = scan_spec(args);
    assert(s.entries =~= seq![entry]);
    let collected = args_of_entries(s.entries);
    assert(s.entries.drop_last() =~= Seq::<ScanEntryView>::empty());
    let empty = args_of_entries(Seq::<ScanEntryView>::empty());
    assert(empty.media == Seq::<Seq<char>>::empty() && empty.actions == Seq::<MpvArgView>::empty());
    let action = match inline {
        Some(v) => MpvArgView::Property { name: norm, value: v },
        None => MpvArgView::Flag(norm),
    };
    assert(entry == ScanEntryView::Action(action));
    assert(s.entries.last() == entry);
    assert(collected.actions =~= seq![action]);
    assert(collected.media =~= Seq::<Seq<char>>::empty());
    assert(invocation_spec(collected.media, collected.actions) =~= seq![forwarded_option(a)]);
}

/// No argument is `--`.
pub open spec fn no_double_dash(args: Seq<Seq<char>>) -> bool {
    forall|k: int| 0 <= k < args.len() ==> args[k] != "--"@
}

/// Arguments that scan without an error and hold no `--` scan the same way
/// in front of anything: their entries, then the rest's scan.
pub proof fn lemma_scan_prefix(xs: Seq<Seq<char>>, rest: Seq<Seq<char>>, i: int)
    requires
        0 <= i <= xs.len(),
        no_double_dash(xs),
        scan_from(xs, i, true).error is None,
    ensures
        scan_from(xs + rest, i, true) == prepend_all(scan_from(xs, i, true).entries, scan_spec(rest)),
    decreases xs.len() - i,
{
    let all = xs + rest;
    if i == xs.len() {
        lemma_scan_shift(xs, rest, 0, true);
        assert(scan_from(xs, i, true).entries =~= Seq::<ScanEntryView>::empty());
        assert(Seq::<ScanEntryView>::empty() + scan_spec(rest).entries =~= scan_spec(rest).entries);
    } else {
        let a = xs[i];
        assert(all[i] == a);
        assert(a != "--"@);
        if is_option_spec(a) {
            let name = split_option_spec(a).0;
            let inline = split_option_spec(a).1;
            let kind = option_kind(normalized_name(name));
            if takes_value(kind) {
                if inline is None {
                    assert(i + 1 < xs.len());
                    assert(all[i + 1] == xs[i + 1]);
                }
                let value = match inline {
                    Some(v) => v,
                    None => xs[i + 1],
                };
                let next = if inline is Some { i + 1 } else { i + 2 };
                let entry = value_entry(kind, name, value)->Ok_0;
                lemma_scan_prefix(xs, rest, next);
                let tail = scan_from(xs, next, true).entries;
                assert(seq![entry] + (tail + scan_spec(rest).entries) =~= (seq![entry] + tail) + scan_spec(rest).entries);
            } else {
                lemma_scan_prefix(xs, rest, i + 1);
                let entry = bare_entry(kind, normalized_name(name), inline);
                let tail = scan_from(xs, i + 1, true).entries;
                assert(seq![entry] + (tail + scan_spec(rest).entries) =~= (seq![entry] + tail) + scan_spec(rest).entries);
            }
        } else {
            lemma_scan_prefix(xs, rest, i + 1);
            let tail = scan_from(xs, i + 1, true).entries;
            let entry = ScanEntryView::Media(a);
            assert(seq![entry] + (tail + scan_spec(rest).entries) =~= (seq![entry] + tail) + scan_spec(rest).entries);
        }
    }
}

/// `--name=value` and `--name value` scan the same way wherever they stand
/// after arguments that scan without an error and hold no `--`.
pub proof fn law_inline_and_separate_values_agree_anywhere(
    xs: Seq<Seq<char>>,
    name: Seq<char>,
    value: Seq<char>,
    ys: Seq<Seq<char>>,
)
    requires
        no_double_dash(xs),
        scan_spec(xs).error is None,
        is_option_spec(name),
        find_char(name, '=') == -1,
        takes_value(option_kind(normalized_name(name))),
    ensures
        scan_spec(xs + (seq![with_inline_value(name, value)] + ys)) == scan_spec(xs + (seq![name, value] + ys)),
{
    lemma_scan_prefix(xs, seq![with_inline_value(name, value)] + ys, 0);
    lemma_scan_prefix(xs, seq![name, value] + ys, 0);
    law_inline_and_separate_values_agree(name, value, ys);
}

/// A legacy single-dash option that takes no value scans like its
/// double-dash spelling wherever it stands after arguments that scan
/// without an error and hold no `--`.
pub proof fn law_single_dash_spelling_anywhere(xs: Seq<Seq<char>>, body: Seq<char>, ys: Seq<Seq<char>>)
    requires
        no_double_dash(xs),
        scan_spec(xs).error is None,
        body.len() > 0,
        body[0] != '-',
        !takes_value(option_kind(normalized_name(split_option_spec(seq!['-'] + body).0))),
    ensures
        scan_spec(xs + (seq![seq!['-'] + body] + ys)) == scan_spec(xs + (seq![seq!['-', '-'] + body] + ys)),
{
    lemma_scan_prefix(xs, seq![seq!['-'] + body] + ys, 0);
    lemma_scan_prefix(xs, seq![seq!['-', '-'] + body] + ys, 0);
    law_single_dash_spelling(body, ys);
}

/// Two entries that are the same but for the option name a number entry
/// records (which only error messages show).
pub open spec fn same_up_to_name(a: ScanEntryView, b: ScanEntryView) -> bool {
    match (a, b) {
        (
            ScanEntryView::Number { kind: k1, option: _, value: v1 },
            ScanEntryView::Number { kind: k2, option: _, value: v2 },
        ) => k1 == k2 && v1 == v2,
        _ => a == b,
    }
}

/// Two scans whose entries are the same but for recorded option names, and
/// that stop at an error alike.
pub open spec fn scans_agree(a: ScanView, b: ScanView) -> bool {
    &&& a.entries.len() == b.entries.len()
    &&& forall|k: int| 0 <= k < a.entries.len() ==> same_up_to_name(#[trigger] a.entries[k], b.entries[k])
    &&& (a.error is None <==> b.error is None)
}

/// The option name only shows in the errors of reading a number.
proof fn lemma_read_entry_name(
    kind: NumberOption,
    o1: Seq<char>,
    o2: Seq<char>,
    value: Seq<char>,
    reading: ReadingView,
)
    ensures
        read_entry(kind, o1, value, reading) is Ok <==> read_entry(kind, o2, value, reading) is Ok,
        read_entry(kind, o1, value, reading) is Ok ==> read_entry(kind, o1, value, reading) == read_entry(
            kind,
            o2,
            value,
            reading,
        ),
{
}

/// Completing entries that agree but for recorded option names takes the
/// same readings and gives the same entries, or fails for both.
proof fn lemma_complete_up_to_names(s1: Seq<ScanEntryView>, s2: Seq<ScanEntryView>, readings: Seq<ReadingView>)
    requires
        s1.len() == s2.len(),
        forall|k: int| 0 <= k < s1.len() ==> same_up_to_name(#[trigger] s1[k], s2[k]),
    ensures
        number_count(s1) == number_count(s2),
        complete(s1, readings) is Ok <==> complete(s2, readings) is Ok,
        complete(s1, readings) is Ok ==> complete(s1, readings) == complete(s2, readings),
    decreases s1.len(),
{
    if s1.len() > 0 {
        let d1 = s1.drop_last();
        let d2 = s2.drop_last();
        assert forall|k: int| 0 <= k < d1.len() implies same_up_to_name(#[trigger] d1[k], d2[k]) by {
            assert(same_up_to_name(s1[k], s2[k]));
        }
        lemma_complete_up_to_names(d1, d2, readings);
        assert(same_up_to_name(s1[s1.len() - 1], s2[s2.len() - 1]));
        match (s1.last(), s2.last()) {
            (
                ScanEntryView::Number { kind, option: o1, value },
                ScanEntryView::Number { kind: _, option: o2, value: _ },
            ) => {
                lemma_read_entry_name(kind, o1, o2, value, readings[number_count(d1) as int]);
            },
            _ => {},
        }
    }
}

/// Scans that agree but for recorded option names finish alike: with the
/// same readings, both are refused or both give the same command line.
pub proof fn law_agreeing_scans_finish_alike(a: ScanView, b: ScanView, readings: Seq<ReadingView>)
    requires
        scans_agree(a, b),
    ensures
        number_count(a.entries) == number_count(b.entries),
        finish_spec(a, readings) is Ok <==> finish_spec(b, readings) is Ok,
        finish_spec(a, readings) is Ok ==> finish_spec(a, readings) == finish_spec(b, readings),
{
    lemma_complete_up_to_names(a.entries, b.entries, readings);
}

/// A value option's entry depends on its name only through recorded
/// option names and error messages.
proof fn lemma_value_entry_name(kind: OptionKind, n1: Seq<char>, n2: Seq<char>, value: Seq<char>)
    ensures
        value_entry(kind, n1, value) is Ok <==> value_entry(kind, n2, value) is Ok,
        value_entry(kind, n1, value) is Ok ==> same_up_to_name(
            value_entry(kind, n1, value)->Ok_0,
            value_entry(kind, n2, value)->Ok_0,
        ),
{
}

/// A legacy single-dash option that takes a value (`-volume 80`,
/// `-volume=80`) scans like its double-dash spelling but for the option
/// name recorded for messages.
pub proof fn law_single_dash_value_spelling(body: Seq<char>, rest: Seq<Seq<char>>)
    requires
        body.len() > 0,
        body[0] != '-',
        takes_value(option_kind(normalized_name(split_option_spec(seq!['-'] + body).0))),
    ensures
        scans_agree(scan_spec(seq![seq!['-'] + body] + rest), scan_spec(seq![seq!['-', '-'] + body] + rest)),
{
    reveal_strlit("--");
    let one = seq!['-'] + body;
    let two = seq!['-', '-'] + body;
    assert(two =~= seq!['-'] + one);
    assert("--"@ =~= seq!['-', '-']);
    lemma_find_from(seq!['-'], '=', 0);
    lemma_find_from(seq!['-', '-'], '=', 0);
    assert(find_char(seq!['-'], '=') == -1);
    assert(find_char(seq!['-', '-'], '=') == -1);
    lemma_find_concat(seq!['-'], body, '=');
    lemma_find_concat(seq!['-', '-'], body, '=');
    lemma_find_from(body, '=', 0);
    let n1 = split_option_spec(one).0;
    let n2 = split_option_spec(two).0;
    assert(n2 =~= seq!['-'] + n1);
    assert(n1.len() > 0 && n1[0] == '-');
    assert(n2.drop_first() =~= n1);
    assert(strip_dashes(n2) == strip_dashes(n1));
    assert(normalized_name(n2) == normalized_name(n1));
    let inline = split_option_spec(one).1;
    assert(split_option_spec(two).1 == inline);
    assert(one != "--"@) by {
        if one == "--"@ {
            assert(one[1] == body[0]);
        }
    }
    assert(two != "--"@) by {
        if two == "--"@ {
            assert(two.len() == 2);
        }
    }
    let a = seq![one] + rest;
    let b = seq![two] + rest;
    assert(a[0] == one);
    assert(b[0] == two);
    let kind = option_kind(normalized_name(n1));
    if inline is None && rest.len() == 0 {
        assert(scan_spec(a).entries.len() == 0);
        assert(scan_spec(b).entries.len() == 0);
    } else {
        if inline is None {
            assert(a[1] == rest[0]);
            assert(b[1] == rest[0]);
        }
        let value = match inline {
            Some(v) => v,
            None => rest[0],
        };
        let next = if inline is Some { 1int } else { 2int };
        lemma_value_entry_name(kind, n1, n2, value);
        lemma_scan_shift(seq![one], rest, next - 1, true);
        lemma_scan_shift(seq![two], rest, next - 1, true);
        if value_entry(kind, n1, value) is Ok {
            let tail = scan_from(rest, next - 1, true);
            let e1 = value_entry(kind, n1, value)->Ok_0;
            let e2 = value_entry(kind, n2, value)->Ok_0;
            assert(scan_spec(a) == prepend(e1, tail));
            assert(scan_spec(b) == prepend(e2, tail));
            assert forall|k: int| 0 <= k < scan_spec(a).entries.len() implies same_up_to_name(
                #[trigger] scan_spec(a).entries[k],
                scan_spec(b).entries[k],
            ) by {
                if k > 0 {
                    assert(scan_spec(a).entries[k] == tail.entries[k - 1]);
                    assert(scan_spec(b).entries[k] == tail.entries[k - 1]);
                }
            }
        } else {
            assert(scan_spec(a).entries.len() == 0);
            assert(scan_spec(b).entries.len() == 0);
        }
    }
}

/// A legacy single-dash option that takes a value gives the same command
/// line as its double-dash spelling wherever it stands after arguments
/// that scan without an error and hold no `--`: with the same number
/// readings, both are refused or both give the same options.
pub proof fn law_single_dash_value_spelling_anywhere(
    xs: Seq<Seq<char>>,
    body: Seq<char>,
    ys: Seq<Seq<char>>,
    readings: Seq<ReadingView>,
)
    requires
        no_double_dash(xs),
        scan_spec(xs).error is None,
        body.len() > 0,
        body[0] != '-',
        takes_value(option_kind(normalized_name(split_option_spec(seq!['-'] + body).0))),
    ensures
        number_count(scan_spec(xs + (seq![seq!['-'] + body] + ys)).entries) == number_count(
            scan_spec(xs + (seq![seq!['-', '-'] + body] + ys)).entries,
        ),
        finish_spec(scan_spec(xs + (seq![seq!['-'] + body] + ys)), readings) is Ok
            <==> finish_spec(scan_spec(xs + (seq![seq!['-', '-'] + body] + ys)), readings) is Ok,
        finish_spec(scan_spec(xs + (seq![seq!['-'] + body] + ys)), readings) is Ok ==> finish_spec(
            scan_spec(xs + (seq![seq!['-'] + body] + ys)),
            readings,
        ) == finish_spec(scan_spec(xs + (seq![seq!['-', '-'] + body] + ys)), readings),
{
    let r1 = seq![seq!['-'] + body] + ys;
    let r2 = seq![seq!['-', '-'] + body] + ys;
    lemma_scan_prefix(xs, r1, 0);
    lemma_scan_prefix(xs, r2, 0);
    law_single_dash_value_spelling(body, ys);
    let x = scan_spec(xs).entries;
    let s1 = scan_spec(xs + r1);
    let s2 = scan_spec(xs + r2);
    let t1 = scan_spec(r1);
    let t2 = scan_spec(r2);
    assert(s1.entries == x + t1.entries);
    assert(s2.entries == x + t2.entries);
    assert forall|k: int| 0 <= k < s1.entries.len() implies same_up_to_name(#[trigger] s1.entries[k], s2.entries[k]) by {
        if k < x.len() {
            assert(s1.entries[k] == x[k]);
            assert(s2.entries[k] == x[k]);
        } else {
            assert(s1.entries[k] == t1.entries[k - x.len()]);
            assert(s2.entries[k] == t2.entries[k - x.len()]);
            assert(same_up_to_name(t1.entries[k - x.len()], t2.entries[k - x.len()]));
        }
    }
    law_agreeing_scans_finish_alike(s1, s2, readings);
}

/// The command-line text of an mpv argument whose value is not a number:
/// the media path, `--name`, or `--name=value`.
pub open spec fn argument_line(argument: ArgumentView) -> Option<Seq<char>> {
    match argument {
        ArgumentView::Media(path) => Some(path),
        ArgumentView::Option { name, value: None } => Some(seq!['-', '-'] + name),
        ArgumentView::Option { name, value: Some(ArgValueView::Text(text)) } => Some(
            seq!['-', '-'] + name + seq!['='] + text,
        ),
        _ => None,
    }
}

/// The actions whose mpv argument is text that the scanner reads back as
/// the same action (those with a number are rendered outside the library).
pub open spec fn reads_back(action: MpvArgView) -> bool {
    match action {
        MpvArgView::LoopFile(mode) => mode != LoopMode::Count(0),
        MpvArgView::SubFile(path) => !is_blank(path),
        MpvArgView::AudioFile(path) => !is_blank(path),
        MpvArgView::Geometry(g) => g.width > 0 && g.height > 0,
        MpvArgView::NoVideo | MpvArgView::Fullscreen | MpvArgView::OnTop => true,
        _ => false,
    }
}

/// A name the scanner matches as it stands: not empty, no leading dash,
/// no `=`, already lowercase.
pub open spec fn plain_name(name: Seq<char>) -> bool {
    &&& name.len() > 0
    &&& name[0] != '-'
    &&& find_char(name, '=') == -1
    &&& lowercase(name) == name
}

/// `--name`, with `=value` when there is one.
pub open spec fn option_line(name: Seq<char>, inline: Option<Seq<char>>) -> Seq<char> {
    match inline {
        Some(v) => seq!['-', '-'] + name + seq!['='] + v,
        None => seq!['-', '-'] + name,
    }
}

/// `--name[=value]` is an option named `--name` with that inline value,
/// matched by `name`.
proof fn lemma_option_line(name: Seq<char>, inline: Option<Seq<char>>)
    requires
        plain_name(name),
    ensures
        is_option_spec(option_line(name, inline)),
        option_line(name, inline) != "--"@,
        split_option_spec(option_line(name, inline)) == (seq!['-', '-'] + name, inline),
        normalized_name(seq!['-', '-'] + name) == name,
{
    reveal_strlit("--");
    assert("--"@ =~= seq!['-', '-']);
    let dashed = seq!['-', '-'] + name;
    let line = option_line(name, inline);
    lemma_find_from(seq!['-', '-'], '=', 0);
    assert(find_char(seq!['-', '-'], '=') == -1);
    lemma_find_concat(seq!['-', '-'], name, '=');
    assert(find_char(dashed, '=') == -1);
    assert(dashed.drop_first() =~= seq!['-'] + name);
    assert((seq!['-'] + name).drop_first() =~= name);
    assert(strip_dashes(dashed) == strip_dashes(seq!['-'] + name));
    assert(strip_dashes(seq!['-'] + name) == strip_dashes(name));
    assert(strip_dashes(name) == name);
    assert(line.len() > 2 && line[0] == '-');
    match inline {
        Some(v) => {
            lemma_find_concat(dashed, seq!['='] + v, '=');
            assert(find_char(seq!['='] + v, '=') == 0);
            assert(dashed + (seq!['='] + v) =~= line);
            assert(find_char(line, '=') == dashed.len());
            assert(line.take(dashed.len() as int) =~= dashed);
            assert(line.skip(dashed.len() + 1int) =~= v);
        },
        None => {},
    }
}

/// A one-argument command line that scans to one action finishes as that
/// action alone.
proof fn lemma_one_action(line: Seq<char>, action: MpvArgView)
    requires
        scan_spec(seq![line]).entries =~= seq![ScanEntryView::Action(action)],
        scan_spec(seq![line]).error is None,
    ensures
        finish_spec(scan_spec(seq![line]), Seq::empty()) == Ok::<MpvArgsView, CoreErrorView>(
            MpvArgsView { media: Seq::empty(), actions: seq![action], config: None },
        ),
{
    let entries = scan_spec(seq![line]).entries;
    assert(entries.drop_last() =~= Seq::<ScanEntryView>::empty());
    assert(complete(entries.drop_last(), Seq::empty()) == Ok::<Seq<ScanEntryView>, CoreErrorView>(Seq::empty()));
    assert(complete(entries, Seq::empty()) == Ok::<Seq<ScanEntryView>, CoreErrorView>(
        Seq::<ScanEntryView>::empty().push(ScanEntryView::Action(action)),
    ));
    let done = Seq::<ScanEntryView>::empty().push(ScanEntryView::Action(action));
    assert(done.drop_last() =~= Seq::<ScanEntryView>::empty());
    assert(args_of_entries(Seq::<ScanEntryView>::empty()).actions =~= Seq::<MpvArgView>::empty());
    assert(args_of_entries(done).actions =~= seq![action]);
    assert(args_of_entries(done).media =~= Seq::<Seq<char>>::empty());
}

/// An action whose mpv argument is text reads back, through the scanner
/// and `finish`, as a command line of that action alone.
pub proof fn law_text_arguments_read_back(action: MpvArgView)
    requires
        reads_back(action),
    ensures
        argument_line(action_argument(action)) is Some,
        finish_spec(scan_spec(seq![argument_line(action_argument(action))->Some_0]), Seq::empty())
            == Ok::<MpvArgsView, CoreErrorView>(
            MpvArgsView { media: Seq::empty(), actions: seq![action], config: None },
        ),
{
    reveal_strlit("volume");
    reveal_strlit("speed");
    reveal_strlit("start");
    reveal_strlit("loop-file");
    reveal_strlit("sub-file");
    reveal_strlit("audio-file");
    reveal_strlit("geometry");
    reveal_strlit("config");
    reveal_strlit("no-video");
    reveal_strlit("fullscreen");
    reveal_strlit("ontop");
    reveal_with_fuel(find_from, 12);
    let (name, inline) = match action {
        MpvArgView::LoopFile(m) => ("loop-file"@, Some(loop_mode_text(m))),
        MpvArgView::SubFile(p) => ("sub-file"@, Some(p)),
        MpvArgView::AudioFile(p) => ("audio-file"@, Some(p)),
        MpvArgView::Geometry(g) => ("geometry"@, Some(geometry_text(g.width, g.height))),
        MpvArgView::NoVideo => ("no-video"@, None),
        MpvArgView::Fullscreen => ("fullscreen"@, None),
        _ => ("ontop"@, None),
    };
    assert(lowercase(name) =~= name);
    assert(find_char(name, '=') == -1);
    lemma_option_line(name, inline);
    let line = option_line(name, inline);
    assert(argument_line(action_argument(action)) == Some(line));
    let dashed = seq!['-', '-'] + name;
    let args = seq![line];
    assert(args[0] == line);
    assert(scan_from(args, 1, true) == (ScanView { entries: Seq::empty(), error: None }));
    match action {
        MpvArgView::LoopFile(m) => {
            law_loop_mode_round_trip(dashed, m);
        },
        MpvArgView::Geometry(g) => {
            law_geometry_round_trip(dashed, g);
        },
        _ => {},
    }
    assert(scan_spec(args).entries =~= seq![ScanEntryView::Action(action)]);
    lemma_one_action(line, action);
}

/// The command-line text of an mpv argument whose value is a number or a
/// time, rendered as `text`: `--name=text`.
pub open spec fn number_line(argument: ArgumentView, text: Seq<char>) -> Option<Seq<char>> {
    match argument {
        ArgumentView::Option { name, value: Some(ArgValueView::Number(_)) } => Some(
            seq!['-', '-'] + name + seq!['='] + text,
        ),
        ArgumentView::Option { name, value: Some(ArgValueView::Time(_)) } => Some(
            seq!['-', '-'] + name + seq!['='] + text,
        ),
        _ => None,
    }
}

/// The number an action with a number carries, and whether the scanner
/// accepts it for that action with `text` as its rendering: any volume, a
/// finite positive speed, a finite non-negative start rendered with one to
/// three `:`-separated fields.
pub open spec fn number_reads_back(action: MpvArgView, text: Seq<char>, reading: Float64) -> bool {
    match action {
        MpvArgView::Volume(v) => reading == v,
        MpvArgView::Speed(v) => reading == v && is_positive_finite(v.bits),
        MpvArgView::Start(p) => reading == p.0 && is_nonnegative_finite(reading.bits) && 1 <= split_spec(
            text,
            ':',
        ).len() <= 3,
        _ => false,
    }
}

/// An action with a number reads back, through the scanner and `finish`,
/// as a command line of that action alone, whatever text its number was
/// rendered as, when that text reads as the same number: the option an
/// action is rendered as is the action's own.
pub proof fn law_number_arguments_read_back(action: MpvArgView, text: Seq<char>, reading: Float64)
    requires
        number_reads_back(action, text, reading),
    ensures
        number_line(action_argument(action), text) is Some,
        finish_spec(
            scan_spec(seq![number_line(action_argument(action), text)->Some_0]),
            seq![ReadingView::Number(reading)],
        ) == Ok::<MpvArgsView, CoreErrorView>(
            MpvArgsView { media: Seq::empty(), actions: seq![action], config: None },
        ),
{
    reveal_strlit("volume");
    reveal_strlit("speed");
    reveal_strlit("start");
    reveal_with_fuel(find_from, 8);
    let name = match action {
        MpvArgView::Volume(_) => "volume"@,
        MpvArgView::Speed(_) => "speed"@,
        _ => "start"@,
    };
    assert(lowercase(name) =~= name);
    assert(find_char(name, '=') == -1);
    lemma_option_line(name, Some(text));
    let line = option_line(name, Some(text));
    assert(number_line(action_argument(action), text) == Some(line));
    let dashed = seq!['-', '-'] + name;
    let args = seq![line];
    assert(args[0] == line);
    assert(scan_from(args, 1, true) == (ScanView { entries: Seq::empty(), error: None }));
    let kind = match action {
        MpvArgView::Volume(_) => NumberOption::Volume,
        MpvArgView::Speed(_) => NumberOption::Speed,
        _ => NumberOption::Start,
    };
    let entry = ScanEntryView::Number { kind, option: dashed, value: text };
    let entries = scan_spec(args).entries;
    assert(entries =~= seq![entry]);
    let readings = seq![ReadingView::Number(reading)];
    assert(entries.drop_last() =~= Seq::<ScanEntryView>::empty());
    assert(number_count(entries.drop_last()) == 0);
    assert(complete(entries.drop_last(), readings) == Ok::<Seq<ScanEntryView>, CoreErrorView>(Seq::empty()));
    assert(read_entry(kind, dashed, text, readings[0]) == Ok::<ScanEntryView, CoreErrorView>(
        ScanEntryView::Action(action),
    ));
    let done = Seq::<ScanEntryView>::empty().push(ScanEntryView::Action(action));
    assert(complete(entries, readings) == Ok::<Seq<ScanEntryView>, CoreErrorView>(done));
    assert(done.drop_last() =~= Seq::<ScanEntryView>::empty());
    assert(args_of_entries(Seq::<ScanEntryView>::empty()).actions =~= Seq::<MpvArgView>::empty());
    assert(args_of_entries(done).actions =~= seq![action]);
    assert(args_of_entries(done).media =~= Seq::<Seq<char>>::empty());
}

} // verus!
