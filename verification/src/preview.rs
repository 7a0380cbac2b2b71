//! Applying the outcome of a preview fetch to the session state.

use vstd::prelude::*;

use crate::session::TuiData;

verus! {

/// What came back when the surrounding loop tried to fetch the content of
/// the selected note: the label had no backing identifier in the index, or
/// the content was read, or the read failed with a description.
pub enum PreviewFetch {
    NoIdentifier,
    Content(String),
    ReadFailed(String),
}

/// The preview text after a fetch outcome is applied: replaced by the
/// fetched content on success, untouched otherwise.
pub open spec fn preview_after(preview: Seq<char>, fetch: &PreviewFetch) -> Seq<char> {
    match fetch {
        PreviewFetch::Content(c) => c@,
        _ => preview,
    }
}

/// The status message after a fetch outcome is applied: replaced by the
/// failure description when the read failed, untouched otherwise.
pub open spec fn message_after(message: Seq<char>, fetch: &PreviewFetch) -> Seq<char> {
    match fetch {
        PreviewFetch::ReadFailed(e) => e@,
        _ => message,
    }
}

/// The TUI facade: the navigation and preview operations that the
/// controller performs on the session state.
pub struct BrnTui;

impl BrnTui {
    /// Advance the selection to the next note, wrapping at the end;
    /// a no-op on an empty list. The preview refresh that follows every
    /// navigation is driven by the controller.
    pub fn increment_selected_value(tui_data: &mut TuiData)
        requires
            old(tui_data).wf(),
        ensures
            final(tui_data).wf(),
            final(tui_data).note_list@ == old(tui_data).note_list@,
            old(tui_data).note_list@.len() == 0 ==> final(tui_data).note_list.sel() == old(
                tui_data,
            ).note_list.sel(),
            old(tui_data).note_list@.len() > 0 ==> final(tui_data).note_list.sel()
                == crate::selection_list::next_index(
                old(tui_data).note_list.sel(),
                old(tui_data).note_list@.len(),
            ),
            final(tui_data).note_content_preview == old(tui_data).note_content_preview,
            final(tui_data).message == old(tui_data).message,
    {
        tui_data.note_list.next();
    }

    /// Move the selection back to the previous note, wrapping at the start;
    /// a no-op on an empty list.
    pub fn decrement_selected_value(tui_data: &mut TuiData)
        requires
            old(tui_data).wf(),
        ensures
            final(tui_data).wf(),
            final(tui_data).note_list@ == old(tui_data).note_list@,
            old(tui_data).note_list@.len() == 0 ==> final(tui_data).note_list.sel() == old(
                tui_data,
            ).note_list.sel(),
            old(tui_data).note_list@.len() > 0 ==> final(tui_data).note_list.sel()
                == crate::selection_list::prev_index(
                old(tui_data).note_list.sel(),
                old(tui_data).note_list@.len(),
            ),
            final(tui_data).note_content_preview == old(tui_data).note_content_preview,
            final(tui_data).message == old(tui_data).message,
    {
        tui_data.note_list.previous();
    }

    /// Apply a preview fetch outcome to the session state: fetched content
    /// replaces the preview, a read failure replaces the status message and
    /// leaves the preview stale, and a lookup miss changes nothing. The
    /// note list is never touched.
    pub fn show_note_content_preview(tui_data: &mut TuiData, fetch: &PreviewFetch)
        requires
            old(tui_data).wf(),
        ensures
            final(tui_data).wf(),
            final(tui_data).note_list == old(tui_data).note_list,
            final(tui_data).note_content_preview@ == preview_after(
                old(tui_data).note_content_preview@,
                fetch,
            ),
            final(tui_data).message@ == message_after(old(tui_data).message@, fetch),
    {
        match fetch {
            PreviewFetch::Content(c) => {
                tui_data.note_content_preview = c.clone();
            },
            PreviewFetch::ReadFailed(e) => {
                tui_data.message = e.clone();
            },
            PreviewFetch::NoIdentifier => {},
        }
    }
}

/// Preview refresh is idempotent: applying the same fetch outcome twice
/// leaves the same preview text and status message as applying it once.
pub proof fn lemma_preview_refresh_idempotent(
    preview: Seq<char>,
    message: Seq<char>,
    fetch: &PreviewFetch,
)
    ensures
        preview_after(preview_after(preview, fetch), fetch) == preview_after(preview, fetch),
        message_after(message_after(message, fetch), fetch) == message_after(message, fetch),
{
}

} // verus!
