//! Playback state shared by the CLI, media backend, and UI model.

use vstd::prelude::*;
use crate::float::{
    Float64, HUNDRED_BITS, ONE_BITS, ZERO_BITS, clamped, is_finite, is_nan, is_nonnegative_finite,
    is_positive_finite, lemma_clamped_in_range, less, order_key,
};

verus! {

/// A media position or duration in seconds (a binary64 value).
#[derive(Debug, Clone, Copy, PartialEq, Eq, Structural)]
pub struct Seconds(pub Float64);

impl Seconds {
    /// Creates a duration or position from seconds.
    pub fn new(value: Float64) -> (r: Seconds)
        ensures
            r.0 == value,
    {
        Seconds(value)
    }

    /// Returns the value in seconds.
    pub fn as_float(self) -> (r: Float64)
        ensures
            r == self.0,
    {
        self.0
    }

    /// Returns `true` when the value is finite and non-negative.
    pub fn is_valid(self) -> (r: bool)
        ensures
            r == is_nonnegative_finite(self.0.bits),
    {
        self.0.is_nonnegative_finite()
    }
}

/// A position or duration is usable: finite and not negative.
pub open spec fn valid_seconds(s: Seconds) -> bool {
    is_nonnegative_finite(s.0.bits)
}

/// The kind of media track represented by a selection.
#[derive(Debug, Clone, Copy, PartialEq, Eq, Hash, Structural)]
pub enum TrackKind {
    /// An audio track.
    Audio,
    /// A subtitle track.
    Subtitle,
    /// A video track.
    Video,
}

/// A selected external or embedded track.
#[derive(Debug, Clone, PartialEq, Eq)]
pub struct TrackSelection {
    /// The selected track kind.
    pub kind: TrackKind,
    /// The backend-specific track identifier.
    pub id: String,
}

/// The view of a [`TrackSelection`].
pub struct TrackSelectionView {
    pub kind: TrackKind,
    pub id: Seq<char>,
}

impl View for TrackSelection {
    type V = TrackSelectionView;

    open spec fn view(&self) -> TrackSelectionView {
        TrackSelectionView { kind: self.kind, id: self.id@ }
    }
}

impl TrackSelection {
    /// A copy of this selection.
    pub fn duplicate(&self) -> (r: TrackSelection)
        ensures
            r@ == self@,
    {
        TrackSelection { kind: self.kind, id: self.id.clone() }
    }
}

/// The view of an optional track selection.
pub open spec fn track_view(t: Option<TrackSelection>) -> Option<TrackSelectionView> {
    match t {
        Some(s) => Some(s@),
        None => None,
    }
}

/// A copy of an optional track selection.
pub fn duplicate_track(t: &Option<TrackSelection>) -> (r: Option<TrackSelection>)
    ensures
        track_view(r) == track_view(*t),
{
    match t {
        Some(s) => Some(s.duplicate()),
        None => None,
    }
}

/// One item in the current playlist.
#[derive(Debug, Clone, PartialEq)]
pub struct PlaylistItem {
    /// The file or URL represented by this item.
    pub path: String,
    /// A display title, usually derived from the file name.
    pub title: String,
    /// A known duration, when metadata is available.
    pub duration: Option<Seconds>,
}

/// The view of a [`PlaylistItem`].
pub struct PlaylistItemView {
    pub path: Seq<char>,
    pub title: Seq<char>,
    pub duration: Option<Seconds>,
}

impl View for PlaylistItem {
    type V = PlaylistItemView;

    open spec fn view(&self) -> PlaylistItemView {
        PlaylistItemView { path: self.path@, title: self.title@, duration: self.duration }
    }
}

impl PlaylistItem {
    /// A copy of this item.
    pub fn duplicate(&self) -> (r: PlaylistItem)
        ensures
            r@ == self@,
    {
        PlaylistItem { path: self.path.clone(), title: self.title.clone(), duration: self.duration }
    }
}

/// The views of a playlist.
pub open spec fn playlist_view(items: Seq<PlaylistItem>) -> Seq<PlaylistItemView> {
    items.map_values(|i: PlaylistItem| i@)
}

/// A copy of a playlist.
pub fn duplicate_playlist(items: &Vec<PlaylistItem>) -> (r: Vec<PlaylistItem>)
    ensures
        playlist_view(r@) == playlist_view(items@),
{
    let mut out: Vec<PlaylistItem> = Vec::new();
    let mut i: usize = 0;
    while i < items.len()
        invariant
            i <= items@.len(),
            playlist_view(out@) == playlist_view(items@).take(i as int),
        decreases items@.len() - i,
    {
        let ghost before = out@;
        let item = items[i].duplicate();
        out.push(item);
        assert(out@ == before.push(item));
        assert(playlist_view(out@) =~= playlist_view(before).push(item@));
        assert(playlist_view(items@).take(i + 1) =~= playlist_view(items@).take(i as int).push(
            items@[i as int]@,
        ));
        i = i + 1;
    }
    assert(playlist_view(items@).take(items@.len() as int) =~= playlist_view(items@));
    out
}

/// An immutable view of playback state suitable for rendering or IPC.
#[derive(Debug, Clone, PartialEq)]
pub struct PlaybackSnapshot {
    /// Whether playback is paused.
    pub paused: bool,
    /// Whether a seek operation is active.
    pub seeking: bool,
    /// Current playback position.
    pub position: Seconds,
    /// Current media duration, when known.
    pub duration: Option<Seconds>,
    /// Buffered range, when known.
    pub buffered: Option<(Seconds, Seconds)>,
    /// Current volume from 0 to 100.
    pub volume: Float64,
    /// Current playback speed.
    pub speed: Float64,
    /// Whether the current file repeats.
    pub loop_file: bool,
    /// Current audio track.
    pub audio_track: Option<TrackSelection>,
    /// Current subtitle track.
    pub subtitle_track: Option<TrackSelection>,
    /// Current playlist.
    pub playlist: Vec<PlaylistItem>,
}

/// The view of playback state (of a snapshot and of the state alike).
pub struct PlaybackView {
    pub paused: bool,
    pub seeking: bool,
    pub position: Seconds,
    pub duration: Option<Seconds>,
    pub buffered: Option<(Seconds, Seconds)>,
    pub volume: Float64,
    pub speed: Float64,
    pub loop_file: bool,
    pub audio_track: Option<TrackSelectionView>,
    pub subtitle_track: Option<TrackSelectionView>,
    pub playlist: Seq<PlaylistItemView>,
}

impl View for PlaybackSnapshot {
    type V = PlaybackView;

    open spec fn view(&self) -> PlaybackView {
        PlaybackView {
            paused: self.paused,
            seeking: self.seeking,
            position: self.position,
            duration: self.duration,
            buffered: self.buffered,
            volume: self.volume,
            speed: self.speed,
            loop_file: self.loop_file,
            audio_track: track_view(self.audio_track),
            subtitle_track: track_view(self.subtitle_track),
            playlist: playlist_view(self.playlist@),
        }
    }
}

impl PlaybackSnapshot {
    /// A copy of this snapshot.
    pub fn duplicate(&self) -> (r: PlaybackSnapshot)
        ensures
            r@ == self@,
    {
        PlaybackSnapshot {
            paused: self.paused,
            seeking: self.seeking,
            position: self.position,
            duration: self.duration,
            buffered: self.buffered,
            volume: self.volume,
            speed: self.speed,
            loop_file: self.loop_file,
            audio_track: duplicate_track(&self.audio_track),
            subtitle_track: duplicate_track(&self.subtitle_track),
            playlist: duplicate_playlist(&self.playlist),
        }
    }
}

/// The state a player starts in: playing, at 0 s, full volume, normal
/// speed, nothing loaded.
pub open spec fn initial_view() -> PlaybackView {
    PlaybackView {
        paused: false,
        seeking: false,
        position: Seconds(Float64 { bits: ZERO_BITS }),
        duration: None,
        buffered: None,
        volume: Float64 { bits: HUNDRED_BITS },
        speed: Float64 { bits: ONE_BITS },
        loop_file: false,
        audio_track: None,
        subtitle_track: None,
        playlist: Seq::empty(),
    }
}

/// What every operation on [`PlaybackState`] keeps: a usable position,
/// duration and buffered range, a volume within 0–100 and a finite positive
/// speed.
pub open spec fn state_valid(v: PlaybackView) -> bool {
    &&& valid_seconds(v.position)
    &&& (v.duration matches Some(d) ==> valid_seconds(d))
    &&& (v.buffered matches Some((s, e)) ==> valid_seconds(s) && valid_seconds(e) && !less(
        e.0.bits,
        s.0.bits,
    ))
    &&& !is_nan(v.volume.bits)
    &&& order_key(ZERO_BITS) <= order_key(v.volume.bits) <= order_key(HUNDRED_BITS)
    &&& is_positive_finite(v.speed.bits)
}

/// The mutable playback state owned by the media thread.
#[derive(Debug, Clone)]
pub struct PlaybackState {
    paused: bool,
    seeking: bool,
    position: Seconds,
    duration: Option<Seconds>,
    buffered: Option<(Seconds, Seconds)>,
    volume: Float64,
    speed: Float64,
    loop_file: bool,
    audio_track: Option<TrackSelection>,
    subtitle_track: Option<TrackSelection>,
    playlist: Vec<PlaylistItem>,
}

impl View for PlaybackState {
    type V = PlaybackView;

    closed spec fn view(&self) -> PlaybackView {
        PlaybackView {
            paused: self.paused,
            seeking: self.seeking,
            position: self.position,
            duration: self.duration,
            buffered: self.buffered,
            volume: self.volume,
            speed: self.speed,
            loop_file: self.loop_file,
            audio_track: track_view(self.audio_track),
            subtitle_track: track_view(self.subtitle_track),
            playlist: playlist_view(self.playlist@),
        }
    }
}

impl Default for PlaybackState {
    fn default() -> (r: PlaybackState)
        ensures
            r@ == initial_view(),
    {
        PlaybackState::new()
    }
}

impl PlaybackState {
    /// Creates an empty state with sensible playback defaults.
    pub fn new() -> (r: PlaybackState)
        ensures
            r@ == initial_view(),
            state_valid(r@),
    {
        let r = PlaybackState {
            paused: false,
            seeking: false,
            position: Seconds(Float64 { bits: ZERO_BITS }),
            duration: None,
            buffered: None,
            volume: Float64 { bits: HUNDRED_BITS },
            speed: Float64 { bits: ONE_BITS },
            loop_file: false,
            audio_track: None,
            subtitle_track: None,
            playlist: Vec::new(),
        };
        assert(playlist_view(r.playlist@) =~= Seq::<PlaylistItemView>::empty());
        r
    }

    /// Returns a serializable snapshot.
    pub fn snapshot(&self) -> (r: PlaybackSnapshot)
        ensures
            r@ == self@,
    {
        PlaybackSnapshot {
            paused: self.paused,
            seeking: self.seeking,
            position: self.position,
            duration: self.duration,
            buffered: self.buffered,
            volume: self.volume,
            speed: self.speed,
            loop_file: self.loop_file,
            audio_track: duplicate_track(&self.audio_track),
            subtitle_track: duplicate_track(&self.subtitle_track),
            playlist: duplicate_playlist(&self.playlist),
        }
    }

    /// Marks the beginning of a media load and clears transient state.
    pub fn begin_load(&mut self, duration: Option<Seconds>)
        ensures
            final(self)@ == (PlaybackView {
                paused: false,
                seeking: false,
                position: Seconds(Float64 { bits: ZERO_BITS }),
                duration: match duration {
                    Some(d) => if valid_seconds(d) { Some(d) } else { None },
                    None => None,
                },
                buffered: None,
                audio_track: None,
                subtitle_track: None,
                ..old(self)@
            }),
            state_valid(old(self)@) ==> state_valid(final(self)@),
    {
        self.paused = false;
        self.seeking = false;
        self.position = Seconds(Float64 { bits: ZERO_BITS });
        self.duration = match duration {
            Some(d) => if d.is_valid() { Some(d) } else { None },
            None => None,
        };
        self.buffered = None;
        self.audio_track = None;
        self.subtitle_track = None;
    }

    /// Updates the current position; refuses a negative or non-finite one.
    pub fn set_position(&mut self, position: Seconds) -> (r: bool)
        ensures
            r == valid_seconds(position),
            r ==> final(self)@ == (PlaybackView { position, ..old(self)@ }),
            !r ==> final(self)@ == old(self)@,
            state_valid(old(self)@) ==> state_valid(final(self)@),
    {
        if !position.is_valid() {
            return false;
        }
        self.position = position;
        true
    }

    /// Updates the buffered range; refuses invalid bounds or an end before
    /// the start.
    pub fn set_buffered(&mut self, start: Seconds, end: Seconds) -> (r: bool)
        ensures
            r == (valid_seconds(start) && valid_seconds(end) && !less(end.0.bits, start.0.bits)),
            r ==> final(self)@ == (PlaybackView { buffered: Some((start, end)), ..old(self)@ }),
            !r ==> final(self)@ == old(self)@,
            state_valid(old(self)@) ==> state_valid(final(self)@),
    {
        if !start.is_valid() || !end.is_valid() || end.0.less_than(start.0) {
            return false;
        }
        self.buffered = Some((start, end));
        true
    }

    /// Toggles paused state and returns the new value.
    pub fn toggle_pause(&mut self) -> (r: bool)
        ensures
            final(self)@ == (PlaybackView { paused: !old(self)@.paused, ..old(self)@ }),
            r == final(self)@.paused,
            state_valid(old(self)@) ==> state_valid(final(self)@),
    {
        self.paused = !self.paused;
        self.paused
    }

    /// Sets the paused state.
    pub fn set_paused(&mut self, paused: bool)
        ensures
            final(self)@ == (PlaybackView { paused, ..old(self)@ }),
            state_valid(old(self)@) ==> state_valid(final(self)@),
    {
        self.paused = paused;
    }

    /// Sets the seeking state.
    pub fn set_seeking(&mut self, seeking: bool)
        ensures
            final(self)@ == (PlaybackView { seeking, ..old(self)@ }),
            state_valid(old(self)@) ==> state_valid(final(self)@),
    {
        self.seeking = seeking;
    }

    /// Sets volume, clamped to mpv's 0–100 range; refuses a non-finite one.
    pub fn set_volume(&mut self, volume: Float64) -> (r: bool)
        ensures
            r == is_finite(volume.bits),
            r ==> final(self)@ == (PlaybackView {
                volume: Float64 { bits: clamped(volume.bits, ZERO_BITS, HUNDRED_BITS) },
                ..old(self)@
            }),
            !r ==> final(self)@ == old(self)@,
            state_valid(old(self)@) ==> state_valid(final(self)@),
    {
        if !volume.is_finite() {
            return false;
        }
        proof {
            lemma_clamped_in_range(volume.bits, ZERO_BITS, HUNDRED_BITS);
        }
        self.volume = volume.clamp(Float64 { bits: ZERO_BITS }, Float64 { bits: HUNDRED_BITS });
        true
    }

    /// Sets playback speed, returning `false` for a non-finite or
    /// non-positive one.
    pub fn set_speed(&mut self, speed: Float64) -> (r: bool)
        ensures
            r == is_positive_finite(speed.bits),
            r ==> final(self)@ == (PlaybackView { speed, ..old(self)@ }),
            !r ==> final(self)@ == old(self)@,
            state_valid(old(self)@) ==> state_valid(final(self)@),
    {
        if !speed.is_positive_finite() {
            return false;
        }
        self.speed = speed;
        true
    }

    /// Enables or disables file looping.
    pub fn set_loop_file(&mut self, enabled: bool)
        ensures
            final(self)@ == (PlaybackView { loop_file: enabled, ..old(self)@ }),
            state_valid(old(self)@) ==> state_valid(final(self)@),
    {
        self.loop_file = enabled;
    }

    /// Selects a track, replacing the previous track of the same kind. Video
    /// selections are not recorded.
    pub fn select_track(&mut self, selection: TrackSelection)
        ensures
            final(self)@ == (match selection.kind {
                TrackKind::Audio => PlaybackView { audio_track: Some(selection@), ..old(self)@ },
                TrackKind::Subtitle => PlaybackView {
                    subtitle_track: Some(selection@),
                    ..old(self)@
                },
                TrackKind::Video => old(self)@,
            }),
            state_valid(old(self)@) ==> state_valid(final(self)@),
    {
        match selection.kind {
            TrackKind::Audio => self.audio_track = Some(selection),
            TrackKind::Subtitle => self.subtitle_track = Some(selection),
            TrackKind::Video => {},
        }
    }

    /// Adds an item to the end of the playlist.
    pub fn add_playlist_item(&mut self, item: PlaylistItem)
        ensures
            final(self)@ == (PlaybackView {
                playlist: old(self)@.playlist.push(item@),
                ..old(self)@
            }),
            state_valid(old(self)@) ==> state_valid(final(self)@),
    {
        let ghost v = item@;
        self.playlist.push(item);
        assert(playlist_view(self.playlist@) =~= old(self)@.playlist.push(v));
    }

    /// Moves a playlist item to a new index, returning `false` for invalid
    /// indices.
    pub fn move_playlist_item(&mut self, from: usize, to: usize) -> (r: bool)
        ensures
            r == (from < old(self)@.playlist.len() && to < old(self)@.playlist.len()),
            r ==> final(self)@ == (PlaybackView {
                playlist: old(self)@.playlist.remove(from as int).insert(
                    to as int,
                    old(self)@.playlist[from as int],
                ),
                ..old(self)@
            }),
            !r ==> final(self)@ == old(self)@,
            state_valid(old(self)@) ==> state_valid(final(self)@),
    {
        if from >= self.playlist.len() || to >= self.playlist.len() {
            return false;
        }
        let ghost before = self.playlist@;
        let item = self.playlist.remove(from);
        assert(playlist_view(self.playlist@) =~= playlist_view(before).remove(from as int));
        let ghost v = item@;
        self.playlist.insert(to, item);
        assert(playlist_view(self.playlist@) =~= playlist_view(before).remove(from as int).insert(
            to as int,
            v,
        ));
        true
    }

    /// Returns the current snapshot without exposing mutable internals.
    pub fn current_snapshot(&self) -> (r: PlaybackSnapshot)
        ensures
            r@ == self@,
    {
        self.snapshot()
    }
}

/// Moving a playlist item keeps the same items: the playlist after the move
/// is a rearrangement of the playlist before it.
pub proof fn law_move_keeps_items(playlist: Seq<PlaylistItemView>, from: int, to: int)
    requires
        0 <= from < playlist.len(),
        0 <= to < playlist.len(),
    ensures
        playlist.remove(from).insert(to, playlist[from]).len() == playlist.len(),
        playlist.remove(from).insert(to, playlist[from]).to_multiset() == playlist.to_multiset(),
        playlist.remove(from).insert(to, playlist[from])[to] == playlist[from],
{
    broadcast use vstd::seq_lib::to_multiset_remove, vstd::seq_lib::to_multiset_insert;
    broadcast use vstd::seq_lib::to_multiset_contains;
    broadcast use vstd::multiset::group_multiset_axioms;

    let x = playlist[from];
    let m = playlist.to_multiset();
    assert(playlist.contains(x));
    assert(m.count(x) > 0);
    assert(playlist.remove(from).to_multiset() == m.remove(x));
    assert(m.remove(x).insert(x) =~= m);
}

} // verus!
