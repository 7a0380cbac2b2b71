//! The controller state machine: one step per input event or collaborator
//! answer, deciding the state change and the terminal action that the
//! surrounding loop must perform next.

use vstd::prelude::*;

use crate::preview::{message_after, preview_after, BrnTui, PreviewFetch};
use crate::selection_list::{next_index, prev_index};
use crate::session::TuiData;

verus! {

/// A key press, already stripped to what the controller cares about.
#[derive(PartialEq, Eq, Structural, Clone, Copy, Debug)]
pub enum InputKey {
    Character(char),
    DownArrow,
    UpArrow,
    Enter,
    Other,
}

/// What a key press asks for.
#[derive(PartialEq, Eq, Structural, Clone, Copy, Debug)]
pub enum Command {
    Quit,
    NextNote,
    PreviousNote,
    OpenNote,
    Ignore,
}

/// The key bindings: `q` quits, `j` and the down arrow select the next
/// note, `k` and the up arrow the previous one, `l` and enter open the
/// selected note; every other key is ignored.
pub open spec fn command_of(key: InputKey) -> Command {
    match key {
        InputKey::Character(c) => if c == 'q' {
            Command::Quit
        } else if c == 'j' {
            Command::NextNote
        } else if c == 'k' {
            Command::PreviousNote
        } else if c == 'l' {
            Command::OpenNote
        } else {
            Command::Ignore
        },
        InputKey::DownArrow => Command::NextNote,
        InputKey::UpArrow => Command::PreviousNote,
        InputKey::Enter => Command::OpenNote,
        InputKey::Other => Command::Ignore,
    }
}

/// Map a key press to its command, exactly as `command_of` says.
pub fn map_key(key: InputKey) -> (c: Command)
    ensures
        c == command_of(key),
{
    match key {
        InputKey::Character(ch) => if ch == 'q' {
            Command::Quit
        } else if ch == 'j' {
            Command::NextNote
        } else if ch == 'k' {
            Command::PreviousNote
        } else if ch == 'l' {
            Command::OpenNote
        } else {
            Command::Ignore
        },
        InputKey::DownArrow => Command::NextNote,
        InputKey::UpArrow => Command::PreviousNote,
        InputKey::Enter => Command::OpenNote,
        InputKey::Other => Command::Ignore,
    }
}

/// Where the session stands: browsing and awaiting input, the terminal
/// handed to the external editor, or on the way out.
#[derive(PartialEq, Eq, Structural, Clone, Copy, Debug)]
pub enum ControlState {
    Browsing,
    Editing,
    Exiting,
}

/// One thing the controller reacts to: a key press, or the answer to an
/// action it asked the surrounding loop to perform.
pub enum ControlEvent {
    KeyPressed(InputKey),
    PreviewFetched(PreviewFetch),
    IdentifierResolved(Option<String>),
    EditorFinished(Result<(), String>),
}

/// What the surrounding loop must do before handing the controller its
/// next event.
pub enum ControlAction {
    /// Redraw and wait for the next key.
    DoNothing,
    /// Look up this label in the note index, read its content, and reply
    /// with `PreviewFetched`.
    RefreshPreview(String),
    /// Look up this label's identifier in the note index and reply with
    /// `IdentifierResolved`.
    ResolveForOpen(String),
    /// Leave the alternate screen and mouse capture, run the external
    /// editor on this identifier, and reply with `EditorFinished`.
    ReleaseAndRunEditor(String),
    /// Clear the stale screen, then re-enter the alternate screen and
    /// mouse capture.
    RestoreTerminal,
    /// Leave the event loop; the session teardown restores the terminal.
    QuitLoop,
}

/// One step of the controller. The quit key ends the session from every
/// state; while browsing, navigation keys move the cursor and ask for a
/// preview refresh, the open key asks for the selected label's identifier,
/// a resolved identifier hands the terminal to the editor, and a fetched
/// preview is applied to the session state; when the editor returns, its
/// failure description (if any) lands in the status message and the
/// terminal is restored unconditionally. Events that do not belong to the
/// current state change nothing. The note labels never change.
pub fn step(state: ControlState, tui_data: &mut TuiData, event: ControlEvent) -> (r: (
    ControlState,
    ControlAction,
))
    requires
        old(tui_data).wf(),
    ensures
        final(tui_data).wf(),
        final(tui_data).note_list@ == old(tui_data).note_list@,
        (event matches ControlEvent::KeyPressed(k) ==> ({
            let cmd = command_of(k);
            &&& (cmd == Command::Quit ==> r.0 == ControlState::Exiting && (r.1
                matches ControlAction::QuitLoop) && *final(tui_data) == *old(tui_data))
            &&& (cmd != Command::Quit && state == ControlState::Editing ==> r.0
                == ControlState::Editing && (r.1 matches ControlAction::DoNothing) && *final(tui_data)
                == *old(tui_data))
            &&& (cmd != Command::Quit && state == ControlState::Exiting ==> r.0
                == ControlState::Exiting && (r.1 matches ControlAction::QuitLoop) && *final(tui_data)
                == *old(tui_data))
            &&& (state == ControlState::Browsing ==> {
                &&& (cmd == Command::NextNote ==> {
                    &&& r.0 == ControlState::Browsing
                    &&& final(tui_data).note_content_preview == old(
                        tui_data,
                    ).note_content_preview
                    &&& final(tui_data).message == old(tui_data).message
                    &&& (old(tui_data).note_list@.len() == 0 ==> final(tui_data).note_list.sel()
                        == old(tui_data).note_list.sel() && (r.1 matches ControlAction::DoNothing))
                    &&& (old(tui_data).note_list@.len() > 0 ==> final(tui_data).note_list.sel()
                        == next_index(old(tui_data).note_list.sel(), old(tui_data).note_list@.len())
                        && (r.1 matches ControlAction::RefreshPreview(lbl) && lbl == old(
                        tui_data,
                    ).note_list@[final(tui_data).note_list.sel() as int]))
                })
                &&& (cmd == Command::PreviousNote ==> {
                    &&& r.0 == ControlState::Browsing
                    &&& final(tui_data).note_content_preview == old(
                        tui_data,
                    ).note_content_preview
                    &&& final(tui_data).message == old(tui_data).message
                    &&& (old(tui_data).note_list@.len() == 0 ==> final(tui_data).note_list.sel()
                        == old(tui_data).note_list.sel() && (r.1 matches ControlAction::DoNothing))
                    &&& (old(tui_data).note_list@.len() > 0 ==> final(tui_data).note_list.sel()
                        == prev_index(old(tui_data).note_list.sel(), old(tui_data).note_list@.len())
                        && (r.1 matches ControlAction::RefreshPreview(lbl) && lbl == old(
                        tui_data,
                    ).note_list@[final(tui_data).note_list.sel() as int]))
                })
                &&& (cmd == Command::OpenNote ==> {
                    &&& r.0 == ControlState::Browsing
                    &&& *final(tui_data) == *old(tui_data)
                    &&& (old(tui_data).note_list@.len() == 0 ==> r.1
                        matches ControlAction::DoNothing)
                    &&& (old(tui_data).note_list@.len() > 0 ==> (r.1
                        matches ControlAction::ResolveForOpen(lbl) && lbl == old(
                        tui_data,
                    ).note_list@[old(tui_data).note_list.sel() as int]))
                })
                &&& (cmd == Command::Ignore ==> r.0 == ControlState::Browsing && (r.1
                    matches ControlAction::DoNothing) && *final(tui_data) == *old(tui_data))
            })
        })),
        (event matches ControlEvent::PreviewFetched(fetch) ==> {
            &&& (state == ControlState::Browsing ==> {
                &&& r.0 == ControlState::Browsing
                &&& r.1 matches ControlAction::DoNothing
                &&& final(tui_data).note_list == old(tui_data).note_list
                &&& final(tui_data).note_content_preview@ == preview_after(
                    old(tui_data).note_content_preview@,
                    &fetch,
                )
                &&& final(tui_data).message@ == message_after(old(tui_data).message@, &fetch)
            })
            &&& (state == ControlState::Editing ==> r.0 == ControlState::Editing && (r.1
                matches ControlAction::DoNothing) && *final(tui_data) == *old(tui_data))
            &&& (state == ControlState::Exiting ==> r.0 == ControlState::Exiting && (r.1
                matches ControlAction::QuitLoop) && *final(tui_data) == *old(tui_data))
        }),
        (event matches ControlEvent::IdentifierResolved(opt) ==> {
            &&& (state == ControlState::Browsing ==> *final(tui_data) == *old(tui_data) && (
            match opt {
                Some(id) => r.0 == ControlState::Editing && (r.1
                    matches ControlAction::ReleaseAndRunEditor(out) && out == id),
                None => r.0 == ControlState::Browsing && r.1 matches ControlAction::DoNothing,
            }))
            &&& (state == ControlState::Editing ==> r.0 == ControlState::Editing && (r.1
                matches ControlAction::DoNothing) && *final(tui_data) == *old(tui_data))
            &&& (state == ControlState::Exiting ==> r.0 == ControlState::Exiting && (r.1
                matches ControlAction::QuitLoop) && *final(tui_data) == *old(tui_data))
        }),
        (event matches ControlEvent::EditorFinished(res) ==> {
            &&& (state == ControlState::Editing ==> {
                &&& r.0 == ControlState::Browsing
                &&& r.1 matches ControlAction::RestoreTerminal
                &&& final(tui_data).note_list == old(tui_data).note_list
                &&& final(tui_data).note_content_preview == old(tui_data).note_content_preview
                &&& (res matches Err(e) ==> final(tui_data).message == e)
                &&& (res is Ok ==> final(tui_data).message == old(tui_data).message)
            })
            &&& (state == ControlState::Browsing ==> r.0 == ControlState::Browsing && (r.1
                matches ControlAction::DoNothing) && *final(tui_data) == *old(tui_data))
            &&& (state == ControlState::Exiting ==> r.0 == ControlState::Exiting && (r.1
                matches ControlAction::QuitLoop) && *final(tui_data) == *old(tui_data))
        }),
{
    match event {
        ControlEvent::KeyPressed(key) => {
            let cmd = map_key(key);
            if cmd == Command::Quit {
                (ControlState::Exiting, ControlAction::QuitLoop)
            } else {
                match state {
                    ControlState::Browsing => match cmd {
                        Command::NextNote => {
                            BrnTui::increment_selected_value(tui_data);
                            match tui_data.note_list.selected_item() {
                                Some(lbl) => (
                                    ControlState::Browsing,
                                    ControlAction::RefreshPreview(lbl),
                                ),
                                None => (ControlState::Browsing, ControlAction::DoNothing),
                            }
                        },
                        Command::PreviousNote => {
                            BrnTui::decrement_selected_value(tui_data);
                            match tui_data.note_list.selected_item() {
                                Some(lbl) => (
                                    ControlState::Browsing,
                                    ControlAction::RefreshPreview(lbl),
                                ),
                                None => (ControlState::Browsing, ControlAction::DoNothing),
                            }
                        },
                        Command::OpenNote => match tui_data.note_list.selected_item() {
                            Some(lbl) => (
                                ControlState::Browsing,
                                ControlAction::ResolveForOpen(lbl),
                            ),
                            None => (ControlState::Browsing, ControlAction::DoNothing),
                        },
                        _ => (ControlState::Browsing, ControlAction::DoNothing),
                    },
                    ControlState::Editing => (ControlState::Editing, ControlAction::DoNothing),
                    ControlState::Exiting => (ControlState::Exiting, ControlAction::QuitLoop),
                }
            }
        },
        ControlEvent::PreviewFetched(fetch) => match state {
            ControlState::Browsing => {
                BrnTui::show_note_content_preview(tui_data, &fetch);
                (ControlState::Browsing, ControlAction::DoNothing)
            },
            ControlState::Editing => (ControlState::Editing, ControlAction::DoNothing),
            ControlState::Exiting => (ControlState::Exiting, ControlAction::QuitLoop),
        },
        ControlEvent::IdentifierResolved(opt) => match state {
            ControlState::Browsing => match opt {
                Some(id) => (ControlState::Editing, ControlAction::ReleaseAndRunEditor(id)),
                None => (ControlState::Browsing, ControlAction::DoNothing),
            },
            ControlState::Editing => (ControlState::Editing, ControlAction::DoNothing),
            ControlState::Exiting => (ControlState::Exiting, ControlAction::QuitLoop),
        },
        ControlEvent::EditorFinished(res) => match state {
            ControlState::Editing => {
                match res {
                    Ok(_) => {},
                    Err(msg) => {
                        tui_data.message = msg;
                    },
                }
                (ControlState::Browsing, ControlAction::RestoreTerminal)
            },
            ControlState::Browsing => (ControlState::Browsing, ControlAction::DoNothing),
            ControlState::Exiting => (ControlState::Exiting, ControlAction::QuitLoop),
        },
    }
}

/// The action that starts a session: refresh the preview for the label
/// under the cursor, or nothing when the note list is empty (no lookup is
/// attempted then).
pub fn startup_action(tui_data: &TuiData) -> (a: ControlAction)
    requires
        tui_data.wf(),
    ensures
        tui_data.note_list@.len() == 0 ==> a matches ControlAction::DoNothing,
        tui_data.note_list@.len() > 0 ==> (a matches ControlAction::RefreshPreview(lbl) && lbl
            == tui_data.note_list@[tui_data.note_list.sel() as int]),
{
    match tui_data.note_list.selected_item() {
        Some(lbl) => ControlAction::RefreshPreview(lbl),
        None => ControlAction::DoNothing,
    }
}

} // verus!
