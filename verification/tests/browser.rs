use brn_tui::controller::{
    map_key, startup_action, step, Command, ControlAction, ControlEvent, ControlState, InputKey,
};
use brn_tui::preview::{BrnTui, PreviewFetch};
use brn_tui::render::compute_layout;
use brn_tui::selection_list::SelectionList;
use brn_tui::session::TuiData;

fn labels(names: &[&str]) -> Vec<String> {
    names.iter().map(|n| n.to_string()).collect()
}

#[test]
fn full_cycle_returns_cursor_forward() {
    let mut list = SelectionList::new(labels(&["alpha", "beta", "gamma"]));
    assert_eq!(list.selected_index(), Some(0));
    for _ in 0..3 {
        list.next();
    }
    assert_eq!(list.selected_index(), Some(0));
}

#[test]
fn full_cycle_returns_cursor_backward() {
    let mut list = SelectionList::new(labels(&["alpha", "beta", "gamma", "delta"]));
    list.next();
    assert_eq!(list.selected_index(), Some(1));
    for _ in 0..4 {
        list.previous();
    }
    assert_eq!(list.selected_index(), Some(1));
}

#[test]
fn next_then_previous_is_identity() {
    let mut list = SelectionList::new(labels(&["alpha", "beta"]));
    list.next();
    list.previous();
    assert_eq!(list.selected_index(), Some(0));
    list.previous();
    list.next();
    assert_eq!(list.selected_index(), Some(0));
}

#[test]
fn empty_list_navigation_is_a_no_op() {
    let mut list = SelectionList::new(Vec::new());
    list.next();
    list.previous();
    assert_eq!(list.len(), 0);
    assert_eq!(list.selected_item(), None);
    assert_eq!(list.selected_index(), None);
}

#[test]
fn preview_refresh_is_idempotent() {
    let mut data = TuiData::new(labels(&["alpha"]));
    let fetch = PreviewFetch::Content("body of alpha".to_string());
    BrnTui::show_note_content_preview(&mut data, &fetch);
    let once = data.note_content_preview.clone();
    BrnTui::show_note_content_preview(&mut data, &fetch);
    assert_eq!(data.note_content_preview, once);

    let miss = PreviewFetch::ReadFailed("gone".to_string());
    BrnTui::show_note_content_preview(&mut data, &miss);
    let msg_once = data.message.clone();
    BrnTui::show_note_content_preview(&mut data, &miss);
    assert_eq!(data.message, msg_once);
    assert_eq!(data.note_content_preview, once);
}

#[test]
fn down_key_walks_and_wraps() {
    let mut data = TuiData::new(labels(&["alpha", "beta", "gamma"]));
    assert_eq!(data.note_list.selected_item().as_deref(), Some("alpha"));
    let mut state = ControlState::Browsing;
    for _ in 0..2 {
        let (next_state, _) = step(
            state,
            &mut data,
            ControlEvent::KeyPressed(InputKey::DownArrow),
        );
        state = next_state;
    }
    assert_eq!(data.note_list.selected_item().as_deref(), Some("gamma"));
    let (_, action) = step(
        state,
        &mut data,
        ControlEvent::KeyPressed(InputKey::DownArrow),
    );
    assert_eq!(data.note_list.selected_item().as_deref(), Some("alpha"));
    match action {
        ControlAction::RefreshPreview(lbl) => assert_eq!(lbl, "alpha"),
        _ => panic!("navigation must ask for a preview refresh"),
    }
}

#[test]
fn open_key_without_identifier_changes_nothing() {
    let mut data = TuiData::new(labels(&["alpha"]));
    let (state, action) = step(
        ControlState::Browsing,
        &mut data,
        ControlEvent::KeyPressed(InputKey::Character('l')),
    );
    match action {
        ControlAction::ResolveForOpen(lbl) => assert_eq!(lbl, "alpha"),
        _ => panic!("open must first resolve the selected label"),
    }
    // the index has no identifier for "alpha"
    let (state, action) = step(state, &mut data, ControlEvent::IdentifierResolved(None));
    assert_eq!(state, ControlState::Browsing);
    assert!(matches!(action, ControlAction::DoNothing));
    assert_eq!(data.message, "");
    assert_eq!(data.note_content_preview, "");
    assert_eq!(data.note_list.selected_item().as_deref(), Some("alpha"));
}

#[test]
fn failed_content_read_sets_status_and_keeps_preview() {
    let mut data = TuiData::new(labels(&["beta"]));
    data.note_content_preview = "old preview".to_string();
    let (state, action) = step(
        ControlState::Browsing,
        &mut data,
        ControlEvent::PreviewFetched(PreviewFetch::ReadFailed("not found".to_string())),
    );
    assert_eq!(state, ControlState::Browsing);
    assert!(matches!(action, ControlAction::DoNothing));
    assert_eq!(data.message, "not found");
    assert_eq!(data.note_content_preview, "old preview");
}

#[test]
fn successful_content_read_replaces_preview() {
    let mut data = TuiData::new(labels(&["beta"]));
    let (_, _) = step(
        ControlState::Browsing,
        &mut data,
        ControlEvent::PreviewFetched(PreviewFetch::Content("beta body".to_string())),
    );
    assert_eq!(data.note_content_preview, "beta body");
    assert_eq!(data.message, "");
}

#[test]
fn editor_failure_sets_status_and_restores_terminal_once() {
    let mut data = TuiData::new(labels(&["beta"]));
    let mut releases = 0;
    let mut reacquires = 0;

    let (state, action) = step(
        ControlState::Browsing,
        &mut data,
        ControlEvent::KeyPressed(InputKey::Enter),
    );
    let id = match action {
        ControlAction::ResolveForOpen(lbl) => {
            assert_eq!(lbl, "beta");
            "id-beta".to_string()
        }
        _ => panic!("open must first resolve the selected label"),
    };
    let (state, action) = step(state, &mut data, ControlEvent::IdentifierResolved(Some(id)));
    assert_eq!(state, ControlState::Editing);
    match action {
        ControlAction::ReleaseAndRunEditor(id) => {
            assert_eq!(id, "id-beta");
            releases += 1;
        }
        _ => panic!("a resolved identifier must hand the terminal to the editor"),
    }
    // the editor fails; the terminal must still be restored
    let (state, action) = step(
        state,
        &mut data,
        ControlEvent::EditorFinished(Err("exit code 1".to_string())),
    );
    assert_eq!(state, ControlState::Browsing);
    match action {
        ControlAction::RestoreTerminal => reacquires += 1,
        _ => panic!("the terminal must be restored after the editor, even on failure"),
    }
    assert_eq!(data.message, "exit code 1");
    assert_eq!(releases, 1);
    assert_eq!(reacquires, 1);
}

#[test]
fn editor_success_leaves_message_empty() {
    let mut data = TuiData::new(labels(&["beta"]));
    let (state, action) = step(
        ControlState::Editing,
        &mut data,
        ControlEvent::EditorFinished(Ok(())),
    );
    assert_eq!(state, ControlState::Browsing);
    assert!(matches!(action, ControlAction::RestoreTerminal));
    assert_eq!(data.message, "");
}

#[test]
fn quit_key_terminates_from_every_state() {
    for state in [
        ControlState::Browsing,
        ControlState::Editing,
        ControlState::Exiting,
    ] {
        let mut data = TuiData::new(labels(&["alpha"]));
        let (next_state, action) = step(
            state,
            &mut data,
            ControlEvent::KeyPressed(InputKey::Character('q')),
        );
        assert_eq!(next_state, ControlState::Exiting);
        assert!(matches!(action, ControlAction::QuitLoop));
        assert_eq!(data.message, "");
    }
}

#[test]
fn key_bindings_match_the_table() {
    assert_eq!(map_key(InputKey::Character('q')), Command::Quit);
    assert_eq!(map_key(InputKey::Character('j')), Command::NextNote);
    assert_eq!(map_key(InputKey::Character('k')), Command::PreviousNote);
    assert_eq!(map_key(InputKey::Character('l')), Command::OpenNote);
    assert_eq!(map_key(InputKey::DownArrow), Command::NextNote);
    assert_eq!(map_key(InputKey::UpArrow), Command::PreviousNote);
    assert_eq!(map_key(InputKey::Enter), Command::OpenNote);
    assert_eq!(map_key(InputKey::Character('x')), Command::Ignore);
    assert_eq!(map_key(InputKey::Other), Command::Ignore);
}

#[test]
fn ignored_key_changes_nothing() {
    let mut data = TuiData::new(labels(&["alpha", "beta"]));
    let (state, action) = step(
        ControlState::Browsing,
        &mut data,
        ControlEvent::KeyPressed(InputKey::Character('x')),
    );
    assert_eq!(state, ControlState::Browsing);
    assert!(matches!(action, ControlAction::DoNothing));
    assert_eq!(data.note_list.selected_item().as_deref(), Some("alpha"));
}

#[test]
fn startup_refreshes_selected_note() {
    let data = TuiData::new(labels(&["alpha", "beta"]));
    match startup_action(&data) {
        ControlAction::RefreshPreview(lbl) => assert_eq!(lbl, "alpha"),
        _ => panic!("startup must refresh the preview of the selected note"),
    }
}

#[test]
fn startup_on_empty_list_does_nothing() {
    let data = TuiData::default();
    assert!(matches!(startup_action(&data), ControlAction::DoNothing));
}

#[test]
fn layout_splits_an_ordinary_screen() {
    let r = compute_layout(100, 30);
    // inner area after the one-cell margin: (1, 1, 98, 28)
    assert_eq!((r.list.x, r.list.y, r.list.width, r.list.height), (1, 1, 19, 27));
    assert_eq!(
        (r.preview.x, r.preview.y, r.preview.width, r.preview.height),
        (20, 1, 79, 27)
    );
    assert_eq!(
        (r.status.x, r.status.y, r.status.width, r.status.height),
        (2, 28, 96, 1)
    );
}

#[test]
fn layout_of_a_tiny_screen_is_empty() {
    let r = compute_layout(1, 1);
    assert_eq!((r.list.width, r.list.height), (0, 0));
    assert_eq!((r.preview.width, r.preview.height), (0, 0));
    assert_eq!((r.status.width, r.status.height), (0, 0));
}

#[test]
fn new_session_starts_clean() {
    let data = TuiData::new(labels(&["alpha"]));
    assert_eq!(data.note_content_preview, "");
    assert_eq!(data.message, "");
    assert_eq!(data.note_list.get_items(), &labels(&["alpha"]));
    let empty = TuiData::default();
    assert_eq!(empty.note_list.len(), 0);
}
