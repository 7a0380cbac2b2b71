//! Session state: the note list, the preview text and the status message.

use vstd::prelude::*;

use crate::selection_list::SelectionList;

verus! {

/// Everything the session holds: the selectable note list, the content of
/// the currently previewed note, and the last status or error message.
/// Created once at session start and mutated only by the controller.
pub struct TuiData {
    pub note_list: SelectionList,
    pub note_content_preview: String,
    pub message: String,
}

impl TuiData {
    /// The session state is well formed when its note list is.
    pub open spec fn wf(&self) -> bool {
        self.note_list.wf()
    }

    /// A fresh session over the given note labels: cursor on the first
    /// entry, empty preview, empty status message.
    pub fn new(note_names: Vec<String>) -> (r: TuiData)
        ensures
            r.wf(),
            r.note_list@ == note_names@,
            r.note_list.sel() == 0,
            r.note_content_preview@ == Seq::<char>::empty(),
            r.message@ == Seq::<char>::empty(),
    {
        TuiData {
            note_list: SelectionList::new(note_names),
            note_content_preview: String::new(),
            message: String::new(),
        }
    }
}

impl Default for TuiData {
    /// A session over an empty note list.
    fn default() -> (r: TuiData)
        ensures
            r.wf(),
            r.note_list@.len() == 0,
            r.note_content_preview@ == Seq::<char>::empty(),
            r.message@ == Seq::<char>::empty(),
    {
        TuiData::new(Vec::new())
    }
}

} // verus!
