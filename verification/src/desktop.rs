//! The desktop shell's playback backend: the state it keeps for the
//! frontend and the mpv commands each frontend request becomes.
//!
//! The shell owns an mpv child process and a few locks; each command
//! handler reads the state, asks the functions here what to send and what
//! the next state is, and carries that out.

use vstd::prelude::*;
use crate::config::PlaybackConfig;
use crate::controller::{file_name_of, plausible_title};
use crate::float::{Float64, HUNDRED_BITS, MAX_FINITE_BITS, ZERO_BITS, clamped, is_nan, less, order_key};
use crate::scan::texts_view;
use crate::text::{concat, decimal, decimal_string, eq_ignore_case, same_text, same_text_ignore_case};

verus! {

/// The playback state the frontend renders.
#[derive(Clone, Debug, PartialEq)]
pub struct FrontendSnapshot {
    pub paused: bool,
    pub position: Float64,
    pub duration: Option<Float64>,
    pub volume: Float64,
    pub speed: Float64,
    pub loop_file: bool,
    pub subtitle_visible: bool,
    pub fullscreen: bool,
    pub media_title: String,
    pub media_path: Option<String>,
    pub backend: String,
}

/// One entry of the frontend's library.
#[derive(Clone, Debug, PartialEq, Eq)]
pub struct MediaItem {
    pub id: String,
    pub path: String,
    pub title: String,
    pub subtitle: String,
    pub kind: String,
    pub duration: String,
    pub added_at: String,
}

impl MediaItem {
    /// A copy of this entry.
    pub fn duplicate(&self) -> (r: MediaItem)
        ensures
            r == *self,
    {
        MediaItem {
            id: self.id.clone(),
            path: self.path.clone(),
            title: self.title.clone(),
            subtitle: self.subtitle.clone(),
            kind: self.kind.clone(),
            duration: self.duration.clone(),
            added_at: self.added_at.clone(),
        }
    }
}

/// The state event the shell emits after each change.
#[derive(Clone, Debug, PartialEq)]
pub struct PlaybackStateEvent {
    pub snapshot: FrontendSnapshot,
    pub playlist: Vec<MediaItem>,
}

/// The settings the frontend edits.
#[derive(Clone, Debug, PartialEq, Eq)]
pub struct AppConfig {
    pub theme: String,
    pub animations: bool,
    pub blur_background: bool,
    pub show_playlist: bool,
    pub show_controls: bool,
    pub hardware_decoding: String,
    pub scale: String,
    pub subtitle_size: u32,
    pub subtitle_font: String,
}

impl Default for AppConfig {
    fn default() -> (r: AppConfig)
        ensures
            r.theme@ == "dark"@,
            r.animations,
            r.blur_background,
            r.show_playlist,
            r.show_controls,
            r.hardware_decoding@ == "auto-safe"@,
            r.scale@ == "bilinear"@,
            r.subtitle_size == 52,
            r.subtitle_font@ == "SF Pro Display"@,
    {
        AppConfig {
            theme: "dark".to_owned(),
            animations: true,
            blur_background: true,
            show_playlist: true,
            show_controls: true,
            hardware_decoding: "auto-safe".to_owned(),
            scale: "bilinear".to_owned(),
            subtitle_size: 52,
            subtitle_font: "SF Pro Display".to_owned(),
        }
    }
}

impl AppConfig {
    /// The frontend settings a configuration gives: the theme is `light`
    /// when the configured theme is `light` in any case, else `dark`.
    pub fn from_playback(config: &PlaybackConfig) -> (r: AppConfig)
        ensures
            r.theme@ == (if eq_ignore_case(config.interface.theme@, "light"@) { "light"@ } else { "dark"@ }),
            r.animations == config.interface.animations,
            r.blur_background == config.interface.blur_background,
            r.show_playlist == config.interface.show_playlist,
            r.show_controls == config.interface.show_controls,
            r.hardware_decoding@ == config.video.hardware_decoding@,
            r.scale@ == config.video.scale@,
            r.subtitle_size == config.subtitles.font_size,
            r.subtitle_font@ == config.subtitles.font@,
    {
        AppConfig {
            theme: if same_text_ignore_case(config.interface().theme.as_str(), "light") {
                "light".to_owned()
            } else {
                "dark".to_owned()
            },
            animations: config.interface().animations,
            blur_background: config.interface().blur_background,
            show_playlist: config.interface().show_playlist,
            show_controls: config.interface().show_controls,
            hardware_decoding: config.video().hardware_decoding.clone(),
            scale: config.video().scale.clone(),
            subtitle_size: config.subtitles().font_size,
            subtitle_font: config.subtitles().font.clone(),
        }
    }
}

impl FrontendSnapshot {
    /// The snapshot before anything is opened: paused at 0 s, full volume,
    /// normal speed, subtitles visible, nothing playing.
    pub fn initial() -> (r: FrontendSnapshot)
        ensures
            r.paused,
            r.position.bits == ZERO_BITS,
            r.duration is None,
            r.volume.bits == HUNDRED_BITS,
            r.speed.bits == crate::float::ONE_BITS,
            !r.loop_file,
            r.subtitle_visible,
            !r.fullscreen,
            r.media_title@ == "Nothing playing"@,
            r.media_path is None,
            r.backend@ == "mpv"@,
    {
        FrontendSnapshot {
            paused: true,
            position: Float64 { bits: ZERO_BITS },
            duration: None,
            volume: Float64 { bits: HUNDRED_BITS },
            speed: Float64 { bits: crate::float::ONE_BITS },
            loop_file: false,
            subtitle_visible: true,
            fullscreen: false,
            media_title: "Nothing playing".to_owned(),
            media_path: None,
            backend: "mpv".to_owned(),
        }
    }
}

/// The title shown for a path: its file name when it has one, else the
/// whole path.
pub open spec fn title_for(path: Seq<char>, file_name: Option<String>) -> Seq<char> {
    match file_name {
        Some(n) => n@,
        None => path,
    }
}

/// The library entry for the `index`-th opened path, its title aside:
/// identified by the path and the index, with placeholder details.
pub open spec fn numbered_entry(item: MediaItem, path: Seq<char>, index: nat) -> bool {
    &&& item.id@ == path + "-"@ + decimal(index)
    &&& item.path@ == path
    &&& item.subtitle@ == "Added from your library"@
    &&& item.kind@ == "video"@
    &&& item.duration@ == "--:--"@
    &&& item.added_at@ == "Just now"@
}

/// The library entry for the `index`-th opened path, given its file name.
pub fn media_item_named(path: &str, index: usize, file_name: Option<String>) -> (r: MediaItem)
    ensures
        numbered_entry(r, path@, index as nat),
        r.title@ == title_for(path@, file_name),
{
    let title = match file_name {
        Some(n) => n,
        None => path.to_owned(),
    };
    let dashed = concat(path, "-");
    let number = decimal_string(index as u64);
    MediaItem {
        id: concat(dashed.as_str(), number.as_str()),
        path: path.to_owned(),
        title,
        subtitle: "Added from your library".to_owned(),
        kind: "video".to_owned(),
        duration: "--:--".to_owned(),
        added_at: "Just now".to_owned(),
    }
}

/// The library entry for the `index`-th opened path.
pub fn media_item(path: &str, index: usize) -> (r: MediaItem)
    ensures
        numbered_entry(r, path@, index as nat),
        plausible_title(path@, r.title@),
{
    media_item_named(path, index, file_name_of(path))
}

/// Points the snapshot at a newly loaded path (titled by `file_name`, or
/// the path itself): playing from 0 s on the mpv backend.
pub fn update_media_named(snapshot: &mut FrontendSnapshot, path: &str, file_name: Option<String>)
    ensures
        final(snapshot).media_path matches Some(p) && p@ == path@,
        final(snapshot).media_title@ == title_for(path@, file_name),
        final(snapshot).position.bits == ZERO_BITS,
        !final(snapshot).paused,
        final(snapshot).backend@ == "mpv"@,
        final(snapshot).duration == old(snapshot).duration,
        final(snapshot).volume == old(snapshot).volume,
        final(snapshot).speed == old(snapshot).speed,
        final(snapshot).loop_file == old(snapshot).loop_file,
        final(snapshot).subtitle_visible == old(snapshot).subtitle_visible,
        final(snapshot).fullscreen == old(snapshot).fullscreen,
{
    snapshot.media_path = Some(path.to_owned());
    snapshot.media_title = match file_name {
        Some(n) => n,
        None => path.to_owned(),
    };
    snapshot.position = Float64 { bits: ZERO_BITS };
    snapshot.paused = false;
    snapshot.backend = "mpv".to_owned();
}

/// Points the snapshot at a newly loaded path.
pub fn update_media(snapshot: &mut FrontendSnapshot, path: &str)
    ensures
        final(snapshot).media_path matches Some(p) && p@ == path@,
        plausible_title(path@, final(snapshot).media_title@),
        final(snapshot).position.bits == ZERO_BITS,
        !final(snapshot).paused,
        final(snapshot).backend@ == "mpv"@,
        final(snapshot).duration == old(snapshot).duration,
        final(snapshot).volume == old(snapshot).volume,
        final(snapshot).speed == old(snapshot).speed,
        final(snapshot).loop_file == old(snapshot).loop_file,
        final(snapshot).subtitle_visible == old(snapshot).subtitle_visible,
        final(snapshot).fullscreen == old(snapshot).fullscreen,
{
    update_media_named(snapshot, path, file_name_of(path))
}

/// Whether some entry has `path`.
pub open spec fn has_path(playlist: Seq<MediaItem>, path: Seq<char>) -> bool {
    exists|i: int| 0 <= i < playlist.len() && playlist[i].path@ == path
}

/// Each path occurs at most once.
pub open spec fn unique_paths(playlist: Seq<MediaItem>) -> bool {
    forall|i: int, j: int| 0 <= i < j < playlist.len() ==> playlist[i].path@ != playlist[j].path@
}

/// The playlist after adding `items` in order, skipping any whose path is
/// already there.
pub open spec fn merged(playlist: Seq<MediaItem>, items: Seq<MediaItem>) -> Seq<MediaItem>
    decreases items.len(),
{
    if items.len() == 0 {
        playlist
    } else {
        let before = merged(playlist, items.drop_last());
        if has_path(before, items.last().path@) {
            before
        } else {
            before.push(items.last())
        }
    }
}

/// Whether an entry of `playlist` has `path`.
pub fn contains_path(playlist: &Vec<MediaItem>, path: &str) -> (r: bool)
    ensures
        r == has_path(playlist@, path@),
{
    let mut i: usize = 0;
    while i < playlist.len()
        invariant
            i <= playlist@.len(),
            forall|j: int| 0 <= j < i ==> playlist@[j].path@ != path@,
        decreases playlist@.len() - i,
    {
        if same_text(playlist[i].path.as_str(), path) {
            return true;
        }
        i = i + 1;
    }
    false
}

/// Adds `items` to the playlist in order, skipping any whose path is
/// already there.
pub fn merge_playlist(playlist: &mut Vec<MediaItem>, items: Vec<MediaItem>)
    ensures
        final(playlist)@ == merged(old(playlist)@, items@),
{
    let mut i: usize = 0;
    while i < items.len()
        invariant
            i <= items@.len(),
            playlist@ == merged(old(playlist)@, items@.take(i as int)),
        decreases items@.len() - i,
    {
        assert(items@.take(i + 1).drop_last() =~= items@.take(i as int));
        let item = &items[i];
        if !contains_path(playlist, item.path.as_str()) {
            playlist.push(item.duplicate());
        }
        i = i + 1;
    }
    assert(items@.take(items@.len() as int) =~= items@);
}

/// Merging never adds a path twice: a playlist with unique paths keeps
/// them unique, and every added path is then present.
pub proof fn law_merge_keeps_paths_unique(playlist: Seq<MediaItem>, items: Seq<MediaItem>)
    requires
        unique_paths(playlist),
    ensures
        unique_paths(merged(playlist, items)),
        forall|k: int| 0 <= k < items.len() ==> has_path(merged(playlist, items), #[trigger] items[k].path@),
        merged(playlist, items).len() >= playlist.len(),
        forall|k: int| 0 <= k < playlist.len() ==> merged(playlist, items)[k] == #[trigger] playlist[k],
    decreases items.len(),
{
    if items.len() > 0 {
        let rest = items.drop_last();
        law_merge_keeps_paths_unique(playlist, rest);
        let before = merged(playlist, rest);
        let last = items.last();
        if !has_path(before, last.path@) {
            let after = before.push(last);
            assert forall|k: int| 0 <= k < playlist.len() implies after[k] == #[trigger] playlist[k] by {
                assert(after[k] == before[k]);
            }
            assert forall|i: int, j: int| 0 <= i < j < after.len() implies after[i].path@ != after[j].path@ by {
                if j == before.len() {
                    assert(after[i] == before[i]);
                }
            }
            assert(has_path(after, last.path@)) by {
                assert(after[before.len() as int] == last);
            }
            assert forall|k: int| 0 <= k < items.len() implies has_path(after, #[trigger] items[k].path@) by {
                if k < rest.len() {
                    assert(rest[k] == items[k]);
                    let w = choose|w: int| 0 <= w < before.len() && before[w].path@ == rest[k].path@;
                    assert(after[w] == before[w]);
                }
            }
        } else {
            assert forall|k: int| 0 <= k < items.len() implies has_path(before, #[trigger] items[k].path@) by {
                if k < rest.len() {
                    assert(rest[k] == items[k]);
                }
            }
        }
    }
}

/// Adding entries whose paths are all present changes nothing.
proof fn lemma_merge_present(playlist: Seq<MediaItem>, items: Seq<MediaItem>)
    requires
        forall|k: int| 0 <= k < items.len() ==> has_path(playlist, #[trigger] items[k].path@),
    ensures
        merged(playlist, items) == playlist,
    decreases items.len(),
{
    if items.len() > 0 {
        let rest = items.drop_last();
        assert forall|k: int| 0 <= k < rest.len() implies has_path(playlist, #[trigger] rest[k].path@) by {
            assert(rest[k] == items[k]);
        }
        lemma_merge_present(playlist, rest);
        assert(has_path(playlist, items[items.len() - 1].path@));
    }
}

/// After a merge every added path is present, and every entry that was
/// there keeps its place.
proof fn lemma_merge_contains(playlist: Seq<MediaItem>, items: Seq<MediaItem>)
    ensures
        forall|k: int| 0 <= k < items.len() ==> has_path(merged(playlist, items), #[trigger] items[k].path@),
        forall|w: int| 0 <= w < playlist.len() ==> merged(playlist, items)[w] == #[trigger] playlist[w],
        merged(playlist, items).len() >= playlist.len(),
    decreases items.len(),
{
    if items.len() > 0 {
        let rest = items.drop_last();
        lemma_merge_contains(playlist, rest);
        let before = merged(playlist, rest);
        let last = items.last();
        if !has_path(before, last.path@) {
            let after = before.push(last);
            assert(after[before.len() as int] == last);
            assert forall|k: int| 0 <= k < items.len() implies has_path(after, #[trigger] items[k].path@) by {
                if k < rest.len() {
                    assert(rest[k] == items[k]);
                    let w = choose|w: int| 0 <= w < before.len() && before[w].path@ == rest[k].path@;
                    assert(after[w] == before[w]);
                }
            }
            assert forall|w: int| 0 <= w < playlist.len() implies after[w] == #[trigger] playlist[w] by {
                assert(after[w] == before[w]);
            }
        } else {
            assert forall|k: int| 0 <= k < items.len() implies has_path(before, #[trigger] items[k].path@) by {
                if k < rest.len() {
                    assert(rest[k] == items[k]);
                }
            }
        }
    }
}

/// Opening the same files again changes nothing: merging a list a second
/// time leaves the playlist as the first merge made it.
pub proof fn law_merge_is_idempotent(playlist: Seq<MediaItem>, items: Seq<MediaItem>)
    ensures
        merged(merged(playlist, items), items) == merged(playlist, items),
{
    lemma_merge_contains(playlist, items);
    lemma_merge_present(merged(playlist, items), items);
}

/// The path `next_track` moves to: the first entry that is not the current
/// media.
pub open spec fn next_path_spec(playlist: Seq<MediaItem>, current: Option<Seq<char>>, from: int) -> Option<Seq<char>>
    decreases playlist.len() - from,
{
    if from < 0 || from >= playlist.len() {
        None
    } else if current != Some(playlist[from].path@) {
        Some(playlist[from].path@)
    } else {
        next_path_spec(playlist, current, from + 1)
    }
}

/// The path `previous_track` moves to: the last entry that is not the
/// current media.
pub open spec fn previous_path_spec(playlist: Seq<MediaItem>, current: Option<Seq<char>>, end: int) -> Option<Seq<char>>
    decreases end,
{
    if end <= 0 || end > playlist.len() {
        None
    } else if current != Some(playlist[end - 1].path@) {
        Some(playlist[end - 1].path@)
    } else {
        previous_path_spec(playlist, current, end - 1)
    }
}

/// The view of an optional path.
pub open spec fn option_view(path: Option<String>) -> Option<Seq<char>> {
    match path {
        Some(p) => Some(p@),
        None => None,
    }
}

/// Whether `path` is the current media.
fn is_current(current: &Option<String>, path: &str) -> (r: bool)
    ensures
        r == (option_view(*current) == Some(path@)),
{
    match current {
        Some(c) => same_text(c.as_str(), path),
        None => false,
    }
}

/// The path `next_track` moves to.
pub fn next_track_path(playlist: &Vec<MediaItem>, current: &Option<String>) -> (r: Option<String>)
    ensures
        option_view(r) == next_path_spec(playlist@, option_view(*current), 0),
{
    let mut i: usize = 0;
    while i < playlist.len()
        invariant
            i <= playlist@.len(),
            next_path_spec(playlist@, option_view(*current), 0) == next_path_spec(
                playlist@,
                option_view(*current),
                i as int,
            ),
        decreases playlist@.len() - i,
    {
        if !is_current(current, playlist[i].path.as_str()) {
            return Some(playlist[i].path.clone());
        }
        i = i + 1;
    }
    None
}

/// The path `previous_track` moves to.
pub fn previous_track_path(playlist: &Vec<MediaItem>, current: &Option<String>) -> (r: Option<String>)
    ensures
        option_view(r) == previous_path_spec(playlist@, option_view(*current), playlist@.len() as int),
{
    let mut end: usize = playlist.len();
    while end > 0
        invariant
            end <= playlist@.len(),
            previous_path_spec(playlist@, option_view(*current), playlist@.len() as int)
                == previous_path_spec(playlist@, option_view(*current), end as int),
        decreases end,
    {
        if !is_current(current, playlist[end - 1].path.as_str()) {
            return Some(playlist[end - 1].path.clone());
        }
        end = end - 1;
    }
    None
}

/// `next_track` never lands on the current media, and lands on an entry
/// of the playlist.
pub proof fn law_next_track_leaves_current(playlist: Seq<MediaItem>, current: Option<Seq<char>>, from: int)
    requires
        0 <= from,
    ensures
        next_path_spec(playlist, current, from) matches Some(p) ==> current != Some(p) && has_path(playlist, p),
    decreases playlist.len() - from,
{
    if from < playlist.len() && current == Some(playlist[from].path@) {
        law_next_track_leaves_current(playlist, current, from + 1);
    }
}

/// `previous_track` never lands on the current media, and lands on an
/// entry of the playlist.
pub proof fn law_previous_track_leaves_current(playlist: Seq<MediaItem>, current: Option<Seq<char>>, end: int)
    ensures
        previous_path_spec(playlist, current, end) matches Some(p) ==> current != Some(p) && has_path(playlist, p),
    decreases end,
{
    if 0 < end <= playlist.len() && current == Some(playlist[end - 1].path@) {
        law_previous_track_leaves_current(playlist, current, end - 1);
    }
}

/// The arguments the shell starts mpv with: an idle, always-open window
/// driven over standard input.
pub fn session_arguments() -> (r: Vec<&'static str>)
    ensures
        r@.map_values(|a: &str| a@) == seq![
            "--idle=yes"@,
            "--force-window=yes"@,
            "--keep-open=yes"@,
            "--no-terminal"@,
            "--input-terminal"@,
            "--msg-level=all=no"@,
        ],
{
    let r = vec![
        "--idle=yes",
        "--force-window=yes",
        "--keep-open=yes",
        "--no-terminal",
        "--input-terminal",
        "--msg-level=all=no",
    ];
    assert(r@.map_values(|a: &str| a@) =~= seq![
        "--idle=yes"@,
        "--force-window=yes"@,
        "--keep-open=yes"@,
        "--no-terminal"@,
        "--input-terminal"@,
        "--msg-level=all=no"@,
    ]);
    r
}

/// The words joined by single spaces.
pub open spec fn joined(words: Seq<Seq<char>>) -> Seq<char>
    decreases words.len(),
{
    if words.len() == 0 {
        Seq::empty()
    } else if words.len() == 1 {
        words[0]
    } else {
        joined(words.drop_last()) + " "@ + words.last()
    }
}

/// The line sent to mpv's input for a command: the words joined by spaces,
/// then a newline.
pub fn command_line(words: &Vec<String>) -> (r: String)
    ensures
        r@ == joined(texts_view(words@)) + "\n"@,
{
    let ghost w = texts_view(words@);
    let mut line = String::new();
    let mut i: usize = 0;
    while i < words.len()
        invariant
            i <= words@.len(),
            w == texts_view(words@),
            line@ == joined(w.take(i as int)),
        decreases words@.len() - i,
    {
        assert(w.take(i + 1).drop_last() =~= w.take(i as int));
        if i == 0 {
            line = words[i].clone();
            assert(w.take(1) =~= seq![w[0]]);
        } else {
            let spaced = concat(line.as_str(), " ");
            line = concat(spaced.as_str(), words[i].as_str());
        }
        i = i + 1;
    }
    assert(w.take(words@.len() as int) =~= w);
    concat(line.as_str(), "\n")
}

/// Three words as owned strings.
fn three_words(a: &str, b: &str, c: &str) -> (r: Vec<String>)
    ensures
        texts_view(r@) == seq![a@, b@, c@],
{
    let mut r: Vec<String> = Vec::new();
    r.push(a.to_owned());
    r.push(b.to_owned());
    r.push(c.to_owned());
    assert(texts_view(r@) =~= seq![a@, b@, c@]);
    r
}

/// The command that toggles playback from `paused`: unpause a paused
/// player, pause a playing one.
pub fn pause_request(paused: bool) -> (r: Vec<String>)
    ensures
        texts_view(r@) == seq!["set"@, "pause"@, if paused { "no"@ } else { "yes"@ }],
{
    three_words("set", "pause", if paused { "no" } else { "yes" })
}

/// The command that sets fullscreen to `fullscreen`.
pub fn fullscreen_request(fullscreen: bool) -> (r: Vec<String>)
    ensures
        texts_view(r@) == seq!["set"@, "fullscreen"@, if fullscreen { "yes"@ } else { "no"@ }],
{
    three_words("set", "fullscreen", if fullscreen { "yes" } else { "no" })
}

/// The command that loads a path in place of the current media.
pub fn load_request(path: &str) -> (r: Vec<String>)
    ensures
        texts_view(r@) == seq!["loadfile"@, path@, "replace"@],
{
    three_words("loadfile", path, "replace")
}

/// The latest position a relative seek can reach.
pub open spec fn frontend_limit(duration: Option<Float64>) -> u64 {
    match duration {
        Some(d) => d.bits,
        None => MAX_FINITE_BITS,
    }
}

/// The position after a relative seek: `sum` (the position plus the
/// offset, added by the caller) clamped between zero and the duration, or
/// the largest finite value while the duration is unknown.
pub fn relative_position(sum: Float64, duration: Option<Float64>) -> (r: Float64)
    requires
        !is_nan(frontend_limit(duration)),
        order_key(ZERO_BITS) <= order_key(frontend_limit(duration)),
    ensures
        r.bits == clamped(sum.bits, ZERO_BITS, frontend_limit(duration)),
{
    let maximum = match duration {
        Some(d) => d,
        None => Float64 { bits: MAX_FINITE_BITS },
    };
    sum.clamp(Float64 { bits: ZERO_BITS }, maximum)
}

/// `seconds.max(0.0)`: zero for NaN or a negative value, else the value.
pub open spec fn at_least_zero(seconds: u64) -> u64 {
    if is_nan(seconds) || less(seconds, ZERO_BITS) {
        ZERO_BITS
    } else {
        seconds
    }
}

/// The position after an absolute seek.
pub fn absolute_position(seconds: Float64) -> (r: Float64)
    ensures
        r.bits == at_least_zero(seconds.bits),
{
    if seconds.is_nan() || seconds.less_than(Float64 { bits: ZERO_BITS }) {
        Float64 { bits: ZERO_BITS }
    } else {
        seconds
    }
}

/// The volume the frontend asked for, clamped to 0–100 (NaN stays NaN).
pub fn frontend_volume(volume: Float64) -> (r: Float64)
    ensures
        r.bits == clamped(volume.bits, ZERO_BITS, HUNDRED_BITS),
{
    volume.clamp(Float64 { bits: ZERO_BITS }, Float64 { bits: HUNDRED_BITS })
}

/// The library entries for a request to open `paths`, numbered in order;
/// refused when no path is given.
pub fn open_media_items(paths: &Vec<String>) -> (r: Result<Vec<MediaItem>, String>)
    ensures
        paths@.len() == 0 <==> r is Err,
        r matches Err(e) ==> e@ == "no media path was provided"@,
        r matches Ok(items) ==> items@.len() == paths@.len() && forall|i: int|
            0 <= i < paths@.len() ==> numbered_entry(#[trigger] items@[i], paths@[i]@, i as nat)
                && plausible_title(paths@[i]@, items@[i].title@),
{
    if paths.len() == 0 {
        return Err("no media path was provided".to_owned());
    }
    let mut items: Vec<MediaItem> = Vec::new();
    let mut i: usize = 0;
    while i < paths.len()
        invariant
            i <= paths@.len(),
            items@.len() == i,
            forall|k: int| 0 <= k < i ==> numbered_entry(#[trigger] items@[k], paths@[k]@, k as nat)
                && plausible_title(paths@[k]@, items@[k].title@),
        decreases paths@.len() - i,
    {
        items.push(media_item(paths[i].as_str(), i));
        i = i + 1;
    }
    Ok(items)
}

/// The entries opened for `paths`: one per path, numbered in order.
pub open spec fn opened_entries(items: Seq<MediaItem>, paths: Seq<Seq<char>>) -> bool {
    &&& items.len() == paths.len()
    &&& forall|i: int| 0 <= i < paths.len() ==> numbered_entry(#[trigger] items[i], paths[i], i as nat)
        && plausible_title(paths[i], items[i].title@)
}

/// What opening media does to the shell's state: refused, with nothing
/// changed, when no path is given; else each path's entry joins the
/// playlist unless its path is already there (so paths stay unique), and
/// the first path becomes the current media, playing from 0 s.
pub fn open_media_state(playlist: &mut Vec<MediaItem>, snapshot: &mut FrontendSnapshot, paths: &Vec<String>) -> (r: Result<(), String>)
    ensures
        paths@.len() == 0 <==> r is Err,
        r matches Err(e) ==> e@ == "no media path was provided"@ && *final(playlist) == *old(playlist)
            && *final(snapshot) == *old(snapshot),
        r is Ok ==> {
            &&& exists|items: Seq<MediaItem>| opened_entries(items, texts_view(paths@))
                && final(playlist)@ == merged(old(playlist)@, items)
            &&& (unique_paths(old(playlist)@) ==> unique_paths(final(playlist)@))
            &&& final(snapshot).media_path matches Some(p) && p@ == paths@[0]@
            &&& plausible_title(paths@[0]@, final(snapshot).media_title@)
            &&& final(snapshot).position.bits == ZERO_BITS
            &&& !final(snapshot).paused
            &&& final(snapshot).backend@ == "mpv"@
            &&& final(snapshot).duration == old(snapshot).duration
            &&& final(snapshot).volume == old(snapshot).volume
            &&& final(snapshot).speed == old(snapshot).speed
            &&& final(snapshot).loop_file == old(snapshot).loop_file
            &&& final(snapshot).subtitle_visible == old(snapshot).subtitle_visible
            &&& final(snapshot).fullscreen == old(snapshot).fullscreen
        },
{
    match open_media_items(paths) {
        Err(e) => Err(e),
        Ok(items) => {
            let ghost added = items@;
            assert(opened_entries(added, texts_view(paths@)));
            proof {
                if unique_paths(playlist@) {
                    law_merge_keeps_paths_unique(playlist@, added);
                }
            }
            merge_playlist(playlist, items);
            update_media(snapshot, paths[0].as_str());
            Ok(())
        },
    }
}

} // verus!
