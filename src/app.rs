use vstd::prelude::*;
use crate::actions::{first_bound, Action, Actions};
use crate::dir::DirListState;
use crate::input::InputBuffer;
use crate::key::Key;
use crate::selection::{next_index, previous_index};
use crate::song::{edited, opt_list, opt_text, same_tag_fields, tag_album, tag_artists, tag_title, FileRename, Song, TrackError};
use crate::tags::vorbis_of;

verus! {

/// Whether the editor goes on after a step.
#[derive(Clone, Copy, Debug, PartialEq, Eq, Structural)]
pub enum AppReturn {
    Exit,
    Continue,
}

/// The widget that has the focus.
#[derive(Clone, Copy, Debug, PartialEq, Eq, Structural)]
pub enum AppActiveWidgetState {
    DirListing,
    MetadataEditor,
    LogViewer,
    InputBar,
}

/// A key event for the log viewer.
#[derive(Clone, Copy, Debug, PartialEq, Eq, Structural)]
pub enum LogWidgetEvent {
    HideKey,
    FocusKey,
    UpKey,
    DownKey,
    LeftKey,
    RightKey,
    MinusKey,
    PlusKey,
    PrevPageKey,
    NextPageKey,
    EscapeKey,
    SpaceKey,
}

/// How a requested rename went on disk, with the tag block read again from the new
/// path when that worked (`None` when it could not be read).
pub enum RenameOutcome {
    Failed,
    Renamed(Option<metaflac::Tag>),
}

/// Outside work a step asks of the caller, who reports back where noted.
#[derive(Debug)]
pub enum Effect {
    Nothing,
    /// Read the tag block of the file at this path; report through `on_track_loaded`.
    LoadTrack(String),
    /// Rename the file; when that worked, read its tag block again from the new path;
    /// report through `on_file_renamed`.
    Rename(FileRename),
    /// Write the current record's tag block to its file.
    WriteTags,
    /// Hand the event to the log viewer.
    LogWidget(LogWidgetEvent),
    /// List the browse directory again; report through `update_on_tick`.
    ReloadListing,
}

/// The browse listing's actions.
pub open spec fn dir_actions() -> Seq<Action> {
    seq![
        Action::Quit,
        Action::SelectUp,
        Action::SelectDown,
        Action::Enter,
        Action::SwitchToLogWidget,
        Action::SwitchToPreviousWidget,
        Action::SwitchToDirListWidget,
    ]
}

/// The metadata editor's actions.
pub open spec fn editor_actions() -> Seq<Action> {
    seq![
        Action::Quit,
        Action::SelectUp,
        Action::SelectDown,
        Action::Enter,
        Action::SwitchToLogWidget,
        Action::SwitchToPreviousWidget,
        Action::SaveTagsToFile,
        Action::SwitchToDirListWidget,
    ]
}

/// The log viewer's actions. Leaving it comes first, so that `Esc`, which page mode
/// shares, leaves the viewer.
pub open spec fn log_actions() -> Seq<Action> {
    seq![
        Action::SwitchToPreviousWidget,
        Action::LogDecreaseCapture,
        Action::LogExitPageMode,
        Action::LogIncreaseCapture,
        Action::LogIncreaseShown,
        Action::LogPageDown,
        Action::LogPageUp,
        Action::LogReduceShown,
        Action::LogSelectNextTarget,
        Action::LogSelectPreviousTarget,
        Action::LogToggleFocus,
        Action::LogToggleHideSelector,
        Action::LogToggleHideTargets,
    ]
}

/// The log viewer event an action stands for.
pub open spec fn log_event_of(a: Action) -> Option<LogWidgetEvent> {
    match a {
        Action::LogToggleHideSelector => Some(LogWidgetEvent::HideKey),
        Action::LogToggleFocus => Some(LogWidgetEvent::FocusKey),
        Action::LogSelectPreviousTarget => Some(LogWidgetEvent::UpKey),
        Action::LogSelectNextTarget => Some(LogWidgetEvent::DownKey),
        Action::LogReduceShown => Some(LogWidgetEvent::LeftKey),
        Action::LogIncreaseShown => Some(LogWidgetEvent::RightKey),
        Action::LogDecreaseCapture => Some(LogWidgetEvent::MinusKey),
        Action::LogIncreaseCapture => Some(LogWidgetEvent::PlusKey),
        Action::LogPageUp => Some(LogWidgetEvent::PrevPageKey),
        Action::LogPageDown => Some(LogWidgetEvent::NextPageKey),
        Action::LogExitPageMode => Some(LogWidgetEvent::EscapeKey),
        Action::LogToggleHideTargets => Some(LogWidgetEvent::SpaceKey),
        _ => None,
    }
}

/// The rename an effect asks for, if any.
pub open spec fn rename_of(e: Effect) -> Option<FileRename> {
    match e {
        Effect::Rename(f) => Some(f),
        _ => None,
    }
}

/// The modal editor: focus, the enabled actions, the input buffer, the browse
/// listing and the record being edited.
pub struct App {
    pub actions: Actions,
    pub input_buffer: InputBuffer,
    pub is_loading: bool,
    pub is_input: bool,
    pub current_app_widget: AppActiveWidgetState,
    pub previous_app_widget: AppActiveWidgetState,
    pub dirlist: DirListState,
    pub current_selected_song: Song,
}

/// `new` is `old` with the focus on `current`, `previous` as the widget to go back
/// to, and `acts` enabled.
pub open spec fn refocused(
    old: App,
    new: App,
    current: AppActiveWidgetState,
    previous: AppActiveWidgetState,
    acts: Seq<Action>,
) -> bool {
    &&& new.current_app_widget == current
    &&& new.previous_app_widget == previous
    &&& new.enabled_actions() == acts
    &&& new.input_buffer == old.input_buffer
    &&& new.is_input == old.is_input
    &&& new.is_loading == old.is_loading
    &&& new.dirlist == old.dirlist
    &&& new.current_selected_song == old.current_selected_song
}

/// Entering the editor must first read the entry to open: there is one, and the
/// record held is not that entry's, read and initialized.
pub open spec fn needs_load(a: App) -> bool {
    a.dirlist.target() matches Some(p) && !(a.current_selected_song.initialized
        && a.current_selected_song.file_path@ == p)
}

/// What asking for the editor does: it asks for the entry to be read, or moves the
/// focus to an editor whose record is already there, or does nothing.
pub open spec fn editor_entered(old: App, new: App, e: Effect) -> bool {
    if needs_load(old) {
        &&& new == old
        &&& e matches Effect::LoadTrack(p) && old.dirlist.target() == Some(p@)
    } else if old.current_selected_song.initialized {
        &&& refocused(old, new, AppActiveWidgetState::MetadataEditor, old.current_app_widget, editor_actions())
        &&& e is Nothing
    } else {
        &&& new == old
        &&& e is Nothing
    }
}

/// Only the browse cursor changed, to `sel`.
pub open spec fn listing_moved(old: App, new: App, sel: Option<usize>) -> bool {
    &&& new.dirlist.list.selection() == sel
    &&& new.dirlist.list.labels() == old.dirlist.list.labels()
    &&& new.dirlist.current_dir_file_paths == old.dirlist.current_dir_file_paths
    &&& new.dirlist.current_dir_path == old.dirlist.current_dir_path
    &&& new.current_app_widget == old.current_app_widget
    &&& new.previous_app_widget == old.previous_app_widget
    &&& new.enabled_actions() == old.enabled_actions()
    &&& new.input_buffer == old.input_buffer
    &&& new.is_input == old.is_input
    &&& new.is_loading == old.is_loading
    &&& new.current_selected_song == old.current_selected_song
}

/// Only the record's cursor changed, to `sel`.
pub open spec fn record_cursor_moved(old: App, new: App, sel: Option<usize>) -> bool {
    &&& new.current_selected_song.selected == sel
    &&& new.current_selected_song.same_except_cursor(old.current_selected_song)
    &&& new.current_app_widget == old.current_app_widget
    &&& new.previous_app_widget == old.previous_app_widget
    &&& new.enabled_actions() == old.enabled_actions()
    &&& new.input_buffer == old.input_buffer
    &&& new.is_input == old.is_input
    &&& new.is_loading == old.is_loading
    &&& new.dirlist == old.dirlist
}

/// What an enabled action does in navigation.
pub open spec fn acted(old: App, new: App, a: Action, r: (AppReturn, Effect)) -> bool {
    match a {
        Action::Quit => new == old && r.0 == AppReturn::Exit && r.1 is Nothing,
        Action::SwitchToLogWidget => {
            &&& refocused(old, new, AppActiveWidgetState::LogViewer, old.current_app_widget, log_actions())
            &&& r.0 == AppReturn::Continue
            &&& r.1 is Nothing
        },
        Action::SwitchToPreviousWidget => {
            &&& r.0 == AppReturn::Continue
            &&& if old.current_app_widget == AppActiveWidgetState::LogViewer && old.previous_app_widget
                == AppActiveWidgetState::MetadataEditor && old.current_selected_song.initialized {
                &&& refocused(old, new, AppActiveWidgetState::MetadataEditor, AppActiveWidgetState::LogViewer, editor_actions())
                &&& r.1 is Nothing
            } else if old.previous_app_widget == AppActiveWidgetState::MetadataEditor {
                editor_entered(old, new, r.1)
            } else {
                refocused(old, new, AppActiveWidgetState::DirListing, old.current_app_widget, dir_actions())
                    && r.1 is Nothing
            }
        },
        Action::SelectDown => {
            &&& r.0 == AppReturn::Continue
            &&& r.1 is Nothing
            &&& match old.current_app_widget {
                AppActiveWidgetState::DirListing => listing_moved(
                    old,
                    new,
                    next_index(old.dirlist.list.selection(), old.dirlist.list.labels().len()),
                ),
                AppActiveWidgetState::MetadataEditor => record_cursor_moved(
                    old,
                    new,
                    next_index(old.current_selected_song.selected, 4),
                ),
                _ => new == old,
            }
        },
        Action::SelectUp => {
            &&& r.0 == AppReturn::Continue
            &&& r.1 is Nothing
            &&& match old.current_app_widget {
                AppActiveWidgetState::DirListing => listing_moved(
                    old,
                    new,
                    previous_index(old.dirlist.list.selection(), old.dirlist.list.labels().len()),
                ),
                AppActiveWidgetState::MetadataEditor => record_cursor_moved(
                    old,
                    new,
                    previous_index(old.current_selected_song.selected, 4),
                ),
                _ => new == old,
            }
        },
        Action::Enter => {
            &&& r.0 == AppReturn::Continue
            &&& match old.current_app_widget {
                AppActiveWidgetState::DirListing => editor_entered(old, new, r.1),
                AppActiveWidgetState::MetadataEditor => {
                    &&& r.1 is Nothing
                    &&& new.is_input
                    &&& new.current_app_widget == AppActiveWidgetState::InputBar
                    &&& new.previous_app_widget == AppActiveWidgetState::MetadataEditor
                    &&& new.enabled_actions() == old.enabled_actions()
                    &&& new.input_buffer == old.input_buffer
                    &&& new.is_loading == old.is_loading
                    &&& new.dirlist == old.dirlist
                    &&& new.current_selected_song == old.current_selected_song
                },
                _ => new == old && r.1 is Nothing,
            }
        },
        Action::SaveTagsToFile => new == old && r.0 == AppReturn::Continue && r.1 is WriteTags,
        Action::SwitchToDirListWidget => {
            &&& refocused(old, new, AppActiveWidgetState::DirListing, old.current_app_widget, dir_actions())
            &&& r.0 == AppReturn::Continue
            &&& r.1 is ReloadListing
        },
        _ => {
            &&& new == old
            &&& r.0 == AppReturn::Continue
            &&& r.1 matches Effect::LogWidget(ev) && log_event_of(a) == Some(ev)
        },
    }
}

/// Input capture ended: the focus is back on the editor, the buffer is empty, and
/// the listing is as it was.
pub open spec fn input_closed(old: App, new: App) -> bool {
    &&& !new.is_input
    &&& new.current_app_widget == AppActiveWidgetState::MetadataEditor
    &&& new.previous_app_widget == AppActiveWidgetState::MetadataEditor
    &&& new.enabled_actions() == editor_actions()
    &&& new.input_buffer.text().len() == 0
    &&& new.input_buffer.count() == old.input_buffer.count()
    &&& new.is_loading == old.is_loading
    &&& new.dirlist == old.dirlist
}

/// Only the input buffer changed.
pub open spec fn only_buffer_changed(old: App, new: App) -> bool {
    &&& new.current_app_widget == old.current_app_widget
    &&& new.previous_app_widget == old.previous_app_widget
    &&& new.enabled_actions() == old.enabled_actions()
    &&& new.is_input == old.is_input
    &&& new.is_loading == old.is_loading
    &&& new.dirlist == old.dirlist
    &&& new.current_selected_song == old.current_selected_song
}

/// What a key does while input is captured.
pub open spec fn typed(old: App, new: App, key: Key, r: (AppReturn, Effect)) -> bool {
    &&& r.0 == AppReturn::Continue
    &&& match key {
        Key::Char(c) => {
            &&& r.1 is Nothing
            &&& only_buffer_changed(old, new)
            &&& if old.input_buffer.count() < usize::MAX {
                &&& new.input_buffer.text() == old.input_buffer.text().push(c)
                &&& new.input_buffer.count() == old.input_buffer.count() + 1
            } else {
                new.input_buffer == old.input_buffer
            }
        },
        Key::Backspace => {
            &&& r.1 is Nothing
            &&& only_buffer_changed(old, new)
            &&& if old.input_buffer.text().len() > 0 {
                &&& new.input_buffer.text() == old.input_buffer.text().drop_last()
                &&& new.input_buffer.count() == old.input_buffer.count() - 1
            } else {
                &&& new.input_buffer.text() == old.input_buffer.text()
                &&& new.input_buffer.count() == old.input_buffer.count()
            }
        },
        Key::Enter => {
            &&& input_closed(old, new)
            &&& (r.1 is Nothing || r.1 is Rename)
            &&& edited(old.current_selected_song, new.current_selected_song, old.input_buffer.text(), rename_of(r.1))
        },
        Key::Esc => {
            &&& input_closed(old, new)
            &&& r.1 is Nothing
            &&& new.current_selected_song == old.current_selected_song
        },
        _ => new == old && r.1 is Nothing,
    }
}

impl App {
    pub open spec fn enabled_actions(&self) -> Seq<Action> {
        self.actions.enabled()
    }

    /// The parts are well formed; input is captured exactly while the input bar has
    /// the focus, always on behalf of the editor; the buffer is empty otherwise.
    pub open spec fn wf(&self) -> bool {
        &&& self.input_buffer.wf()
        &&& self.dirlist.wf()
        &&& self.current_selected_song.wf()
        &&& (self.is_input <==> self.current_app_widget == AppActiveWidgetState::InputBar)
        &&& self.is_input ==> self.previous_app_widget == AppActiveWidgetState::MetadataEditor
        &&& !self.is_input ==> self.input_buffer.text().len() == 0
    }

    /// A browsing editor over `dirlist` with no record read yet, where only quitting is
    /// enabled until the caller reports that start-up is done.
    pub fn new(dirlist: DirListState) -> (r: App)
        requires
            dirlist.wf(),
        ensures
            r.wf(),
            r.dirlist == dirlist,
            r.enabled_actions() == seq![Action::Quit],
            r.current_app_widget == AppActiveWidgetState::DirListing,
            r.previous_app_widget == AppActiveWidgetState::DirListing,
            !r.is_input,
            !r.is_loading,
            !r.current_selected_song.initialized,
    {
        let acts = vec![Action::Quit];
        proof {
            assert(acts@ =~= seq![Action::Quit]);
        }
        App {
            actions: Actions::build(acts).0,
            input_buffer: InputBuffer::new(),
            is_loading: false,
            is_input: false,
            current_app_widget: AppActiveWidgetState::DirListing,
            previous_app_widget: AppActiveWidgetState::DirListing,
            dirlist,
            current_selected_song: Song::default(),
        }
    }

    pub fn get_actions(&self) -> (r: &Actions)
        ensures
            r.enabled() == self.enabled_actions(),
    {
        &self.actions
    }

    /// Whether `widget` has the focus.
    pub fn is_selected(&self, widget: AppActiveWidgetState) -> (r: bool)
        ensures
            r == (self.current_app_widget == widget),
    {
        self.current_app_widget == widget
    }

    fn set_actions(&mut self, actions: Vec<Action>)
        ensures
            final(self).enabled_actions() == actions@,
            final(self).input_buffer == old(self).input_buffer,
            final(self).is_input == old(self).is_input,
            final(self).is_loading == old(self).is_loading,
            final(self).current_app_widget == old(self).current_app_widget,
            final(self).previous_app_widget == old(self).previous_app_widget,
            final(self).dirlist == old(self).dirlist,
            final(self).current_selected_song == old(self).current_selected_song,
    {
        self.actions = Actions::build(actions).0;
    }

    fn enter_dirlisting_widget(&mut self)
        requires
            old(self).wf(),
            !old(self).is_input,
        ensures
            final(self).wf(),
            refocused(
                *old(self),
                *final(self),
                AppActiveWidgetState::DirListing,
                old(self).current_app_widget,
                dir_actions(),
            ),
    {
        self.previous_app_widget = self.current_app_widget;
        self.current_app_widget = AppActiveWidgetState::DirListing;
        let acts = vec![
            Action::Quit,
            Action::SelectUp,
            Action::SelectDown,
            Action::Enter,
            Action::SwitchToLogWidget,
            Action::SwitchToPreviousWidget,
            Action::SwitchToDirListWidget,
        ];
        proof {
            assert(acts@ =~= dir_actions());
        }
        self.set_actions(acts);
    }

    fn focus_editor(&mut self, previous: AppActiveWidgetState)
        requires
            old(self).input_buffer.wf(),
            old(self).dirlist.wf(),
            old(self).current_selected_song.wf(),
            old(self).input_buffer.text().len() == 0,
            !old(self).is_input,
        ensures
            final(self).wf(),
            refocused(*old(self), *final(self), AppActiveWidgetState::MetadataEditor, previous, editor_actions()),
    {
        self.previous_app_widget = previous;
        self.current_app_widget = AppActiveWidgetState::MetadataEditor;
        let acts = vec![
            Action::Quit,
            Action::SelectUp,
            Action::SelectDown,
            Action::Enter,
            Action::SwitchToLogWidget,
            Action::SwitchToPreviousWidget,
            Action::SaveTagsToFile,
            Action::SwitchToDirListWidget,
        ];
        proof {
            assert(acts@ =~= editor_actions());
        }
        self.set_actions(acts);
    }

    fn enter_log_viewer_widget(&mut self)
        requires
            old(self).wf(),
            !old(self).is_input,
        ensures
            final(self).wf(),
            refocused(
                *old(self),
                *final(self),
                AppActiveWidgetState::LogViewer,
                old(self).current_app_widget,
                log_actions(),
            ),
    {
        self.previous_app_widget = self.current_app_widget;
        self.current_app_widget = AppActiveWidgetState::LogViewer;
        let acts = vec![
            Action::SwitchToPreviousWidget,
            Action::LogDecreaseCapture,
            Action::LogExitPageMode,
            Action::LogIncreaseCapture,
            Action::LogIncreaseShown,
            Action::LogPageDown,
            Action::LogPageUp,
            Action::LogReduceShown,
            Action::LogSelectNextTarget,
            Action::LogSelectPreviousTarget,
            Action::LogToggleFocus,
            Action::LogToggleHideSelector,
            Action::LogToggleHideTargets,
        ];
        proof {
            assert(acts@ =~= log_actions());
        }
        self.set_actions(acts);
    }

    /// Asks for the editor: reads the entry to open first unless its record is
    /// already here.
    fn enter_metadata_editor_widget(&mut self) -> (e: Effect)
        requires
            old(self).wf(),
            !old(self).is_input,
        ensures
            final(self).wf(),
            editor_entered(*old(self), *final(self), e),
    {
        match self.dirlist.selected_path() {
            Some(path) => {
                if self.current_selected_song.initialized && self.current_selected_song.file_path.eq(&path) {
                    let previous = self.current_app_widget;
                    self.focus_editor(previous);
                    Effect::Nothing
                } else {
                    Effect::LoadTrack(path)
                }
            },
            None => {
                if self.current_selected_song.initialized {
                    let previous = self.current_app_widget;
                    self.focus_editor(previous);
                }
                Effect::Nothing
            },
        }
    }

    fn start_editing(&mut self)
        requires
            old(self).wf(),
            old(self).current_app_widget == AppActiveWidgetState::MetadataEditor,
            !old(self).is_input,
        ensures
            final(self).wf(),
            final(self).is_input,
            final(self).current_app_widget == AppActiveWidgetState::InputBar,
            final(self).previous_app_widget == AppActiveWidgetState::MetadataEditor,
            final(self).enabled_actions() == old(self).enabled_actions(),
            final(self).input_buffer == old(self).input_buffer,
            final(self).is_loading == old(self).is_loading,
            final(self).dirlist == old(self).dirlist,
            final(self).current_selected_song == old(self).current_selected_song,
    {
        self.is_input = true;
        self.previous_app_widget = self.current_app_widget;
        self.current_app_widget = AppActiveWidgetState::InputBar;
    }

    /// Ends input capture and gives the focus back to the editor.
    fn close_input(&mut self)
        requires
            old(self).wf(),
            old(self).is_input,
        ensures
            final(self).wf(),
            input_closed(*old(self), *final(self)),
            final(self).current_selected_song == old(self).current_selected_song,
    {
        self.is_input = false;
        self.input_buffer.clear();
        self.focus_editor(AppActiveWidgetState::MetadataEditor);
    }

    /// Applies the typed text to the field under the record's cursor and ends input
    /// capture.
    fn stop_editing(&mut self) -> (e: Effect)
        requires
            old(self).wf(),
            old(self).is_input,
        ensures
            final(self).wf(),
            input_closed(*old(self), *final(self)),
            e is Nothing || e is Rename,
            edited(old(self).current_selected_song, final(self).current_selected_song, old(self).input_buffer.text(), rename_of(e)),
    {
        let value = self.input_buffer.get_buffer_drain();
        let request = self.current_selected_song.edit(value);
        self.is_input = false;
        self.focus_editor(AppActiveWidgetState::MetadataEditor);
        match request {
            Some(f) => Effect::Rename(f),
            None => Effect::Nothing,
        }
    }
}

/// What a key does in navigation: the first enabled action bound to it acts, and a
/// key bound to none changes nothing.
pub open spec fn navigated(old: App, new: App, key: Key, r: (AppReturn, Effect)) -> bool {
    match first_bound(old.enabled_actions(), key) {
        Some(a) => acted(old, new, a, r),
        None => new == old && r.0 == AppReturn::Continue && r.1 is Nothing,
    }
}

fn log_event(a: Action) -> (r: Option<LogWidgetEvent>)
    ensures
        r == log_event_of(a),
{
    match a {
        Action::LogToggleHideSelector => Some(LogWidgetEvent::HideKey),
        Action::LogToggleFocus => Some(LogWidgetEvent::FocusKey),
        Action::LogSelectPreviousTarget => Some(LogWidgetEvent::UpKey),
        Action::LogSelectNextTarget => Some(LogWidgetEvent::DownKey),
        Action::LogReduceShown => Some(LogWidgetEvent::LeftKey),
        Action::LogIncreaseShown => Some(LogWidgetEvent::RightKey),
        Action::LogDecreaseCapture => Some(LogWidgetEvent::MinusKey),
        Action::LogIncreaseCapture => Some(LogWidgetEvent::PlusKey),
        Action::LogPageUp => Some(LogWidgetEvent::PrevPageKey),
        Action::LogPageDown => Some(LogWidgetEvent::NextPageKey),
        Action::LogExitPageMode => Some(LogWidgetEvent::EscapeKey),
        Action::LogToggleHideTargets => Some(LogWidgetEvent::SpaceKey),
        _ => None,
    }
}

impl App {
    fn perform(&mut self, action: Action) -> (r: (AppReturn, Effect))
        requires
            old(self).wf(),
            !old(self).is_input,
        ensures
            final(self).wf(),
            acted(*old(self), *final(self), action, r),
    {
        match action {
            Action::Quit => (AppReturn::Exit, Effect::Nothing),
            Action::SwitchToLogWidget => {
                self.enter_log_viewer_widget();
                (AppReturn::Continue, Effect::Nothing)
            },
            Action::SwitchToPreviousWidget => {
                if self.current_app_widget == AppActiveWidgetState::LogViewer && self.previous_app_widget
                    == AppActiveWidgetState::MetadataEditor && self.current_selected_song.initialized {
                    self.focus_editor(AppActiveWidgetState::LogViewer);
                    (AppReturn::Continue, Effect::Nothing)
                } else if self.previous_app_widget == AppActiveWidgetState::MetadataEditor {
                    let e = self.enter_metadata_editor_widget();
                    (AppReturn::Continue, e)
                } else {
                    self.enter_dirlisting_widget();
                    (AppReturn::Continue, Effect::Nothing)
                }
            },
            Action::SelectDown => {
                match self.current_app_widget {
                    AppActiveWidgetState::DirListing => self.dirlist.next(),
                    AppActiveWidgetState::MetadataEditor => self.current_selected_song.next(),
                    _ => {},
                }
                (AppReturn::Continue, Effect::Nothing)
            },
            Action::SelectUp => {
                match self.current_app_widget {
                    AppActiveWidgetState::DirListing => self.dirlist.previous(),
                    AppActiveWidgetState::MetadataEditor => self.current_selected_song.previous(),
                    _ => {},
                }
                (AppReturn::Continue, Effect::Nothing)
            },
            Action::Enter => {
                match self.current_app_widget {
                    AppActiveWidgetState::DirListing => {
                        let e = self.enter_metadata_editor_widget();
                        (AppReturn::Continue, e)
                    },
                    AppActiveWidgetState::MetadataEditor => {
                        self.start_editing();
                        (AppReturn::Continue, Effect::Nothing)
                    },
                    _ => (AppReturn::Continue, Effect::Nothing),
                }
            },
            Action::SaveTagsToFile => (AppReturn::Continue, Effect::WriteTags),
            Action::SwitchToDirListWidget => {
                self.enter_dirlisting_widget();
                (AppReturn::Continue, Effect::ReloadListing)
            },
            _ => {
                match log_event(action) {
                    Some(ev) => (AppReturn::Continue, Effect::LogWidget(ev)),
                    None => (AppReturn::Continue, Effect::Nothing),
                }
            },
        }
    }

    /// One key press. In navigation the first enabled action bound to the key acts;
    /// while input is captured, characters are typed, `Backspace` erases, `Enter`
    /// applies the text to the field under the record's cursor and `Esc` drops it.
    pub fn do_action(&mut self, key: Key) -> (r: (AppReturn, Effect))
        requires
            old(self).wf(),
        ensures
            final(self).wf(),
            !old(self).is_input ==> navigated(*old(self), *final(self), key, r),
            old(self).is_input ==> typed(*old(self), *final(self), key, r),
    {
        if !self.is_input {
            match self.actions.find(key) {
                Some(action) => self.perform(action),
                None => (AppReturn::Continue, Effect::Nothing),
            }
        } else {
            let effect = match key {
                Key::Char(c) => {
                    if self.input_buffer.get_index() < usize::MAX {
                        self.input_buffer.push_char(c);
                    }
                    Effect::Nothing
                },
                Key::Enter => self.stop_editing(),
                Key::Esc => {
                    self.close_input();
                    Effect::Nothing
                },
                Key::Backspace => {
                    self.input_buffer.pop();
                    Effect::Nothing
                },
                _ => Effect::Nothing,
            };
            (AppReturn::Continue, effect)
        }
    }

    /// Takes the tag block read for the entry that `LoadTrack` named. With it, the
    /// record of that file replaces the one held and the editor has the focus;
    /// without it (`None`, the read failed) nothing changes and `TagReadError` is
    /// reported.
    pub fn on_track_loaded(&mut self, path: String, tag: Option<metaflac::Tag>) -> (r: Result<(), TrackError>)
        requires
            old(self).wf(),
            !old(self).is_input,
        ensures
            final(self).wf(),
            tag is None ==> r == Err::<(), TrackError>(TrackError::TagReadError) && *final(self) == *old(self),
            tag matches Some(t) ==> {
                &&& r is Ok
                &&& final(self).current_app_widget == AppActiveWidgetState::MetadataEditor
                &&& final(self).previous_app_widget == old(self).current_app_widget
                &&& final(self).enabled_actions() == editor_actions()
                &&& final(self).current_selected_song.file_path@ == path@
                &&& final(self).current_selected_song.tag == t
                &&& final(self).current_selected_song.initialized
                &&& final(self).current_selected_song.selected is None
                &&& final(self).current_selected_song.lines()[0] == "File name: "@ + crate::paths::last_component(path@)
                &&& final(self).current_selected_song.file_name@ == crate::paths::last_component(path@)
                &&& opt_text(final(self).current_selected_song.title) == tag_title(vorbis_of(t))
                &&& opt_list(final(self).current_selected_song.artists) == tag_artists(vorbis_of(t))
                &&& opt_text(final(self).current_selected_song.album) == tag_album(vorbis_of(t))
                &&& final(self).current_selected_song.id is None
                &&& final(self).current_selected_song.genre is None
                &&& final(self).current_selected_song.youtube_id is None
                &&& final(self).current_selected_song.thumbnail_url is None
                &&& final(self).is_loading == old(self).is_loading
                &&& final(self).dirlist == old(self).dirlist
                &&& final(self).input_buffer == old(self).input_buffer
                &&& !final(self).is_input
            },
    {
        match tag {
            Some(t) => {
                self.current_selected_song = Song::from_tag(path, t);
                let previous = self.current_app_widget;
                self.focus_editor(previous);
                Ok(())
            },
            None => Err(TrackError::TagReadError),
        }
    }

    /// Takes the outcome of a `Rename`. When the rename failed on disk the record is
    /// left as it was and `RenameError` is reported. When it worked the record takes
    /// the new name and path, and the tag block read again from the new path when
    /// there is one; without it `TagReadError` is reported and the name and path stay
    /// updated.
    pub fn on_file_renamed(&mut self, name: String, path: String, outcome: RenameOutcome) -> (r: Result<
        (),
        TrackError,
    >)
        requires
            old(self).wf(),
        ensures
            final(self).wf(),
            outcome is Failed ==> r == Err::<(), TrackError>(TrackError::RenameError) && *final(self) == *old(self),
            outcome matches RenameOutcome::Renamed(reread) ==> {
                &&& final(self).current_selected_song.file_name@ == name@
                &&& final(self).current_selected_song.file_path@ == path@
                &&& reread is None ==> r == Err::<(), TrackError>(TrackError::TagReadError)
                    && same_tag_fields(old(self).current_selected_song, final(self).current_selected_song)
                &&& reread matches Some(t) ==> r is Ok && final(self).current_selected_song.tag == t
                    && opt_text(final(self).current_selected_song.title) == tag_title(vorbis_of(t))
                    && opt_list(final(self).current_selected_song.artists) == tag_artists(vorbis_of(t))
                    && opt_text(final(self).current_selected_song.album) == tag_album(vorbis_of(t))
            },
            final(self).current_app_widget == old(self).current_app_widget,
            final(self).previous_app_widget == old(self).previous_app_widget,
            final(self).enabled_actions() == old(self).enabled_actions(),
            final(self).dirlist == old(self).dirlist,
            final(self).input_buffer == old(self).input_buffer,
            final(self).is_input == old(self).is_input,
    {
        match outcome {
            RenameOutcome::Failed => Err(TrackError::RenameError),
            RenameOutcome::Renamed(reread) => self.current_selected_song.apply_rename(name, path, reread),
        }
    }

    /// Takes a fresh listing of the browse directory, which keeps its cursor only when
    /// the paths did not change.
    pub fn update_on_tick(&mut self, paths: Vec<String>) -> (r: AppReturn)
        requires
            old(self).wf(),
        ensures
            final(self).wf(),
            r == AppReturn::Continue,
            final(self).dirlist.current_dir_path == old(self).dirlist.current_dir_path,
            final(self).dirlist.current_dir_file_paths.deep_view() == paths.deep_view(),
            old(self).dirlist.current_dir_file_paths.deep_view() == paths.deep_view() ==> final(self).dirlist.list.selection()
                == old(self).dirlist.list.selection(),
            old(self).dirlist.current_dir_file_paths.deep_view() != paths.deep_view() ==> final(self).dirlist.list.selection() is None,
            final(self).current_app_widget == old(self).current_app_widget,
            final(self).previous_app_widget == old(self).previous_app_widget,
            final(self).enabled_actions() == old(self).enabled_actions(),
            final(self).is_input == old(self).is_input,
            final(self).is_loading == old(self).is_loading,
            final(self).current_selected_song == old(self).current_selected_song,
            final(self).input_buffer == old(self).input_buffer,
    {
        self.dirlist.set_items(paths);
        AppReturn::Continue
    }

    /// Start-up is done: the listing takes the focus with its actions.
    pub fn initialized(&mut self)
        requires
            old(self).wf(),
            !old(self).is_input,
        ensures
            final(self).wf(),
            refocused(
                *old(self),
                *final(self),
                AppActiveWidgetState::DirListing,
                old(self).current_app_widget,
                dir_actions(),
            ),
    {
        self.enter_dirlisting_widget();
    }

    pub fn loaded(&mut self)
        ensures
            !final(self).is_loading,
            final(self).current_app_widget == old(self).current_app_widget,
            final(self).dirlist == old(self).dirlist,
            final(self).current_selected_song == old(self).current_selected_song,
            final(self).input_buffer == old(self).input_buffer,
            final(self).is_input == old(self).is_input,
            final(self).previous_app_widget == old(self).previous_app_widget,
            final(self).enabled_actions() == old(self).enabled_actions(),
    {
        self.is_loading = false;
    }
}

} // verus!
