//! View composition: the media library and the player surface.

use vstd::prelude::*;
use crate::components::{
    ControlBarModel, PlaylistPanelModel, SubtitleOverlayModel, TimelineModel, VolumeModel,
    row_matches,
};
use crate::config::SubtitleSettings;
use crate::float::Float64;
use crate::state::PlaylistItem;
use crate::theme::PLAYLIST_WIDTH_F32_BITS;
use crate::ui_state::{ControlVisibility, UiState, UiStateView};

verus! {

/// A media-library row model.
#[derive(Debug, Clone, PartialEq, Eq)]
pub struct LibraryRow {
    /// Display title.
    pub title: String,
    /// File path or URL.
    pub path: String,
    /// Whether the row is selected.
    pub selected: bool,
}

/// The media-library view model.
#[derive(Debug, Clone, PartialEq, Eq)]
pub struct LibraryViewModel {
    /// Rows in display order.
    pub rows: Vec<LibraryRow>,
    /// Currently selected row index.
    pub selected_index: Option<usize>,
}

/// The selection marks exactly the selected row.
pub open spec fn selection_consistent(rows: Seq<LibraryRow>, selected: Option<usize>) -> bool {
    forall|i: int| 0 <= i < rows.len() ==> (#[trigger] rows[i]).selected == (selected == Some(i as usize))
}

/// A library whose flags follow its selected index marks at most one row,
/// and marks the selected row when there is one.
pub proof fn law_single_selection(rows: Seq<LibraryRow>, selected: Option<usize>)
    requires
        selection_consistent(rows, selected),
        rows.len() <= usize::MAX,
    ensures
        forall|i: int, j: int| 0 <= i < rows.len() && 0 <= j < rows.len() && (#[trigger] rows[i]).selected
            && (#[trigger] rows[j]).selected ==> i == j,
        selected matches Some(v) ==> (v < rows.len() ==> rows[v as int].selected),
{
}

impl LibraryViewModel {
    /// Creates a library model from playlist items, nothing selected.
    pub fn from_items(items: &Vec<PlaylistItem>) -> (r: LibraryViewModel)
        ensures
            r.rows@.len() == items@.len(),
            forall|i: int| 0 <= i < items@.len() ==> {
                &&& (#[trigger] r.rows@[i]).title@ == items@[i].title@
                &&& r.rows@[i].path@ == items@[i].path@
                &&& !r.rows@[i].selected
            },
            r.selected_index is None,
            selection_consistent(r.rows@, r.selected_index),
    {
        let mut rows: Vec<LibraryRow> = Vec::new();
        let mut i: usize = 0;
        while i < items.len()
            invariant
                i <= items@.len(),
                rows@.len() == i,
                forall|k: int| 0 <= k < i ==> {
                    &&& (#[trigger] rows@[k]).title@ == items@[k].title@
                    &&& rows@[k].path@ == items@[k].path@
                    &&& !rows@[k].selected
                },
            decreases items@.len() - i,
        {
            rows.push(LibraryRow {
                title: items[i].title.clone(),
                path: items[i].path.clone(),
                selected: false,
            });
            i = i + 1;
        }
        LibraryViewModel { rows, selected_index: None }
    }

    /// Selects a row by index (or clears the selection); refuses an index
    /// past the last row.
    pub fn select(&mut self, index: Option<usize>) -> (r: bool)
        ensures
            r == !(index matches Some(v) && v >= old(self).rows@.len()),
            r ==> final(self).selected_index == index,
            r ==> selection_consistent(final(self).rows@, index),
            !r ==> *final(self) == *old(self),
            final(self).rows@.len() == old(self).rows@.len(),
            forall|i: int| 0 <= i < old(self).rows@.len() ==> {
                &&& (#[trigger] final(self).rows@[i]).title == old(self).rows@[i].title
                &&& final(self).rows@[i].path == old(self).rows@[i].path
            },
    {
        if let Some(value) = index {
            if value >= self.rows.len() {
                return false;
            }
        }
        self.selected_index = index;
        let mut row_index: usize = 0;
        while row_index < self.rows.len()
            invariant
                row_index <= self.rows@.len(),
                self.rows@.len() == old(self).rows@.len(),
                self.selected_index == index,
                forall|i: int| 0 <= i < self.rows@.len() ==> {
                    &&& (#[trigger] self.rows@[i]).title == old(self).rows@[i].title
                    &&& self.rows@[i].path == old(self).rows@[i].path
                },
                forall|i: int| 0 <= i < row_index ==> (#[trigger] self.rows@[i]).selected == (index == Some(i as usize)),
            decreases self.rows@.len() - row_index,
        {
            let selected = match index {
                Some(v) => v == row_index,
                None => false,
            };
            let mut row = self.rows.remove(row_index);
            row.selected = selected;
            self.rows.insert(row_index, row);
            row_index = row_index + 1;
        }
        true
    }
}

/// The complete player-view model.
#[derive(Debug, Clone, PartialEq)]
pub struct PlayerViewModel {
    /// Current UI state.
    pub state: UiState,
    /// Bottom control bar.
    pub controls: ControlBarModel,
    /// Optional playlist sidebar.
    pub playlist: PlaylistPanelModel,
    /// Optional subtitle overlay.
    pub subtitles: SubtitleOverlayModel,
}

/// `view` shows the UI state `s`: the control bar follows the playback
/// state (volume not hovered), the playlist panel lists the playlist with
/// no row playing (`whole_seconds[i]` being item `i`'s rounded duration),
/// and the subtitle overlay uses the default subtitle settings, shown as
/// the state's subtitle toggle says.
pub open spec fn composed(view: PlayerViewModel, s: UiStateView, whole_seconds: Seq<u64>) -> bool {
    &&& view.controls.paused == s.playback.paused
    &&& view.controls.visible == (s.controls == ControlVisibility::Visible)
    &&& view.controls.timeline.position == s.playback.position
    &&& view.controls.timeline.duration == s.playback.duration
    &&& view.controls.timeline.buffered == s.playback.buffered
    &&& view.controls.timeline.seeking == s.playback.seeking
    &&& view.controls.volume == (VolumeModel { value: s.playback.volume, hovered: false })
    &&& view.playlist.visible == s.playlist_visible
    &&& view.playlist.width.bits == PLAYLIST_WIDTH_F32_BITS
    &&& view.playlist.rows@.len() == s.playback.playlist.len()
    &&& forall|i: int| 0 <= i < s.playback.playlist.len() ==> row_matches(
        #[trigger] view.playlist.rows@[i],
        i,
        s.playback.playlist[i],
        whole_seconds[i],
        None,
    )
    &&& view.subtitles.visible == s.subtitles_visible
    &&& view.subtitles.text is None
    &&& view.subtitles.font_size == 52
    &&& view.subtitles.color@ == "#FFFFFF"@
    &&& view.subtitles.border_color@ == "#000000"@
    &&& view.subtitles.border_size == 3
}

impl PlayerViewModel {
    /// Creates a player view from UI state. `whole_seconds[i]` is playlist
    /// item `i`'s duration rounded to whole seconds.
    pub fn from_state(state: UiState, whole_seconds: &Vec<u64>) -> (r: PlayerViewModel)
        requires
            whole_seconds@.len() == state.playback.playlist@.len(),
        ensures
            r.state == state,
            composed(r, state@, whole_seconds@),
    {
        let timeline = TimelineModel::from_snapshot(&state.playback);
        let controls = ControlBarModel::new(
            state.playback.paused,
            state.controls == ControlVisibility::Visible,
            timeline,
            VolumeModel::new(state.playback.volume, false),
        );
        let playlist = PlaylistPanelModel::new(
            state.playlist_visible,
            &state.playback.playlist,
            None,
            whole_seconds,
        );
        let mut subtitles = SubtitleOverlayModel::from_settings(&SubtitleSettings::default());
        subtitles.visible = state.subtitles_visible;
        PlayerViewModel { state, controls, playlist, subtitles }
    }
}

} // verus!
