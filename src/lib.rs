//! Library side of a personal music manager: the list cursor, the key-to-action
//! registry, the track record with its tag block, and the modal editor that ties
//! them together. Outside work (reading and writing files, listing directories,
//! drawing) is left to the caller, which the editor tells what to do.

pub mod key;
pub mod selection;
pub mod actions;
pub mod input;
pub mod tags;
pub mod text;
pub mod paths;
pub mod song;
pub mod dir;
pub mod app;
pub mod layout;
pub mod download;

pub use key::Key;
pub use selection::{SelectableList, lemma_moves_stay_in_range, lemma_full_cycle};
pub use actions::{Action, Actions, KeyConflict, lemma_one_shared_key, lemma_from_keeps_actions};
pub use input::{InputBuffer, InputEvent};
pub use text::{split_artists, join_artists, contains_text, lemma_tokens_of_joined};
pub use paths::{file_name_of, with_file_name};
pub use song::{Song, SongRecord, MetadataSource, TrackError, Field, FileRename, lemma_equate_laws, lemma_persist_round_trip};
pub use dir::{DirListState, lemma_target_is_selected_entry};
pub use app::{App, AppReturn, AppActiveWidgetState, Effect, LogWidgetEvent, RenameOutcome};
pub use layout::{Rect, check_size};
pub use download::{DownloadStep, download_step, safe_file_stem, tag_download};
