use adoboards::app::{App, AppView, Key, LoadingState};
use adoboards::config::{AppConfig, BoardConfig, CommonConfig, KeysConfig};
use adoboards::detail::{find_item_by_id, UpdateRequest};
use adoboards::edit::DetailEditState;
use adoboards::fields::{build_visible_fields, lookup_allowed_values, lookup_field, VisibleField};
use adoboards::keys::KeyOutcome;
use adoboards::models::{
    DetailField, FieldValue, LayoutControlEntry, WorkItem, WorkItemFieldInfo,
};
use adoboards::picker::PickerState;
use adoboards::save::{
    merge_saved, patch_operations, set_field, DetailViewState, PatchKind, PatchOperation,
    SaveOutcome, SaveRequest, SaveStatus,
};

const PRIORITY: &str = "Microsoft.VSTS.Common.Priority";
const AREA: &str = "System.AreaPath";

fn field(name: &str, value: &str) -> FieldValue {
    FieldValue { reference_name: name.to_string(), value: value.to_string() }
}

fn item(id: u32, title: &str) -> WorkItem {
    WorkItem {
        id,
        title: title.to_string(),
        assigned_to: "Ada".to_string(),
        state: "New".to_string(),
        work_item_type: "Bug".to_string(),
        description: String::new(),
        acceptance_criteria: String::new(),
        fields: vec![field(PRIORITY, "Low"), field(AREA, "Core")],
    }
}

fn controls() -> Vec<LayoutControlEntry> {
    vec![
        LayoutControlEntry { id: PRIORITY.to_string(), label: "Priority".to_string() },
        LayoutControlEntry { id: "System.Tags".to_string(), label: "Tags".to_string() },
        LayoutControlEntry { id: AREA.to_string(), label: "Area".to_string() },
    ]
}

fn meta() -> Vec<WorkItemFieldInfo> {
    vec![
        WorkItemFieldInfo {
            reference_name: PRIORITY.to_string(),
            allowed_values: vec!["Low".to_string(), "Medium".to_string(), "High".to_string()],
        },
        WorkItemFieldInfo { reference_name: AREA.to_string(), allowed_values: vec![] },
    ]
}

fn picker(options: &[&str]) -> PickerState {
    PickerState::new(options.iter().map(|o| o.to_string()).collect())
}

fn active_of(p: &PickerState) -> Vec<String> {
    let mut values = p.active.clone();
    values.sort();
    values
}

fn session() -> App {
    let config = AppConfig {
        common: CommonConfig { me: "Ada".to_string() },
        boards: vec![BoardConfig {
            organization: "A".to_string(),
            project: "P".to_string(),
            team: "T".to_string(),
        }],
        iterations: vec![],
        keys: KeysConfig::default(),
    };
    let mut app = App::new(config);
    app.metadata.insert_layout("A", "P", "Bug", &controls());
    app.metadata.insert_field_meta("Bug", &meta());
    app.load_data(vec![item(41, "Other"), item(42, "Foo")]);
    app
}

fn type_text(app: &mut App, text: &str) {
    for c in text.chars() {
        assert_eq!(app.handle_key(Key::Char(c)), KeyOutcome::Continue);
    }
}

#[test]
fn toggling_twice_restores_the_active_set() {
    let mut p = picker(&["Bug", "Task", "User Story"]);
    p.toggle("Task");
    assert_eq!(active_of(&p), vec!["Task"]);
    assert!(p.is_active("Task"));
    p.toggle("Bug");
    let before = active_of(&p);
    p.toggle("User Story");
    assert_eq!(active_of(&p), vec!["Bug", "Task", "User Story"]);
    p.toggle("User Story");
    assert_eq!(active_of(&p), before);
    p.toggle("Bug");
    p.toggle("Bug");
    assert_eq!(active_of(&p), before);
}

#[test]
fn toggling_the_highlight_twice_restores_the_active_set() {
    let mut p = picker(&["Bug", "Task"]);
    p.toggle_open();
    assert!(p.is_open);
    assert_eq!(p.selected, Some(0));
    p.move_selection(1);
    assert_eq!(p.selected, Some(1));
    p.toggle_selected();
    assert_eq!(active_of(&p), vec!["Task"]);
    p.toggle_selected();
    assert!(p.has_no_active());
    p.selected = None;
    p.toggle_selected();
    assert!(p.has_no_active());
    p.selected = Some(7);
    p.toggle_selected();
    assert!(p.has_no_active());
}

#[test]
fn clearing_empties_the_active_set_and_drops_the_highlight() {
    let mut p = picker(&["Bug", "Task"]);
    p.toggle_open();
    p.toggle("Bug");
    p.toggle("Task");
    p.clear();
    assert!(p.has_no_active());
    assert!(!p.is_active("Bug"));
    assert_eq!(p.selected, None);
    assert_eq!(p.options, vec!["Bug".to_string(), "Task".to_string()]);
    assert!(p.is_open);
}

#[test]
fn highlight_stops_at_both_ends() {
    let mut p = picker(&["a", "b", "c"]);
    p.move_selection(1);
    assert_eq!(p.selected, Some(1));
    p.move_selection(5);
    assert_eq!(p.selected, Some(2));
    p.move_selection(-1);
    assert_eq!(p.selected, Some(1));
    p.move_selection(-9);
    assert_eq!(p.selected, Some(0));
    p.move_selection(isize::MAX);
    assert_eq!(p.selected, Some(2));
    p.move_selection(isize::MIN);
    assert_eq!(p.selected, Some(0));
    let mut empty = picker(&[]);
    empty.selected = Some(3);
    empty.move_selection(1);
    assert_eq!(empty.selected, None);
    empty.toggle_open();
    assert_eq!(empty.selected, None);
}

#[test]
fn active_options_come_in_option_order() {
    let mut p = picker(&["a", "b", "c"]);
    p.toggle("c");
    p.toggle("a");
    p.toggle("zzz");
    assert_eq!(p.active_options(), vec!["a".to_string(), "c".to_string()]);
    assert_eq!(p.highlighted(), None);
    p.highlight_first();
    assert_eq!(p.highlighted(), Some(&"a".to_string()));
}

#[test]
fn visible_fields_follow_the_layout_and_skip_fields_the_item_lacks() {
    let it = item(42, "Foo");
    let fields = build_visible_fields(&it, &controls(), &meta());
    assert_eq!(fields.len(), 2);
    assert_eq!(fields[0].label, "Priority");
    assert_eq!(fields[0].reference_name, PRIORITY);
    assert_eq!(fields[0].value, "Low");
    let p = fields[0].picker.as_ref().unwrap();
    assert_eq!(p.options, vec!["Low".to_string(), "Medium".to_string(), "High".to_string()]);
    assert_eq!(p.selected, Some(0));
    assert_eq!(p.active, vec!["Low".to_string()]);
    assert!(!p.is_open);
    assert_eq!(fields[1].label, "Area");
    assert_eq!(fields[1].value, "Core");
    assert!(fields[1].picker.is_none());
    assert_eq!(lookup_field(&it.fields, AREA), Some(&"Core".to_string()));
    assert_eq!(lookup_field(&it.fields, "System.Tags"), None);
    assert_eq!(lookup_allowed_values(&meta(), AREA), Some(&vec![]));
    assert_eq!(lookup_allowed_values(&meta(), "System.Tags"), None);
}

#[test]
fn picker_of_a_field_highlights_the_current_value() {
    let allowed = Some(vec!["Low".to_string(), "Medium".to_string(), "High".to_string()]);
    let f = VisibleField::with_value(
        "Priority".to_string(),
        PRIORITY.to_string(),
        "High".to_string(),
        allowed.clone(),
    );
    assert_eq!(f.picker.as_ref().unwrap().selected, Some(2));
    let f = VisibleField::with_value(
        "Priority".to_string(),
        PRIORITY.to_string(),
        "Urgent".to_string(),
        allowed,
    );
    assert_eq!(f.picker.as_ref().unwrap().selected, Some(0));
    assert_eq!(f.picker.as_ref().unwrap().active, vec!["Urgent".to_string()]);
    let f = VisibleField::with_value("x".to_string(), "y".to_string(), "z".to_string(), None);
    assert!(f.picker.is_none());
    let f =
        VisibleField::with_value("x".to_string(), "y".to_string(), "z".to_string(), Some(vec![]));
    assert!(f.picker.is_none());
}

#[test]
fn cursor_cycles_through_title_and_fields() {
    let mut state = DetailEditState::begin_edit(&item(42, "Foo"), &controls(), &meta());
    assert!(state.is_editing);
    assert_eq!(state.item_id, 42);
    assert_eq!(state.active_field, DetailField::Title);
    state.next_field();
    assert_eq!(state.active_field, DetailField::Dynamic(0));
    state.next_field();
    assert_eq!(state.active_field, DetailField::Dynamic(1));
    state.next_field();
    assert_eq!(state.active_field, DetailField::Title);
    state.previous_field();
    assert_eq!(state.active_field, DetailField::Dynamic(1));
    state.previous_field();
    assert_eq!(state.active_field, DetailField::Dynamic(0));
    state.previous_field();
    assert_eq!(state.active_field, DetailField::Title);
    let mut bare = DetailEditState::begin_edit(&item(42, "Foo"), &vec![], &vec![]);
    bare.next_field();
    assert_eq!(bare.active_field, DetailField::Title);
    bare.previous_field();
    assert_eq!(bare.active_field, DetailField::Title);
}

#[test]
fn cursor_is_clamped_when_the_fields_are_rebuilt() {
    let mut state = DetailEditState::begin_edit(&item(42, "Foo"), &controls(), &meta());
    state.active_field = DetailField::Dynamic(1);
    state.rebuild(&item(42, "Foo"), &controls()[..1].to_vec(), &meta());
    assert_eq!(state.active_field, DetailField::Dynamic(0));
    assert!(!state.is_editing);
    state.rebuild(&item(42, "Foo"), &vec![], &meta());
    assert_eq!(state.active_field, DetailField::Title);
    state.active_field = DetailField::Dynamic(9);
    state.clamp_active_field();
    assert_eq!(state.active_field, DetailField::Title);
    let mut reading = DetailEditState::new_from_item(&item(42, "Foo"), &controls(), &meta());
    reading.active_field = DetailField::Dynamic(5);
    reading.next_field();
    assert_eq!(reading.active_field, DetailField::Dynamic(1));
}

#[test]
fn typing_changes_text_fields_and_moves_pickers() {
    let mut state = DetailEditState::begin_edit(&item(42, "Foo"), &controls(), &meta());
    state.type_char('!');
    assert_eq!(state.title, "Foo!");
    state.backspace();
    state.backspace();
    assert_eq!(state.title, "Fo");
    state.clear_field();
    assert_eq!(state.title, "");
    state.backspace();
    assert_eq!(state.title, "");
    state.next_field();
    assert!(state.active_field_has_picker());
    state.type_char('x');
    assert_eq!(state.visible_fields[0].value, "Low");
    assert_eq!(state.visible_fields[0].picker.as_ref().unwrap().selected, Some(1));
    state.type_char('x');
    state.type_char('x');
    assert_eq!(state.visible_fields[0].picker.as_ref().unwrap().selected, Some(2));
    state.backspace();
    assert_eq!(state.visible_fields[0].picker.as_ref().unwrap().selected, Some(1));
    state.clear_field();
    assert_eq!(state.visible_fields[0].picker.as_ref().unwrap().selected, Some(0));
    state.type_char('x');
    state.confirm_picker();
    assert_eq!(state.visible_fields[0].value, "Medium");
    assert_eq!(
        state.visible_fields[0].picker.as_ref().unwrap().active,
        vec!["Medium".to_string()]
    );
    state.next_field();
    assert!(!state.active_field_has_picker());
    state.type_char('X');
    assert_eq!(state.visible_fields[1].value, "CoreX");
    state.confirm_picker();
    assert_eq!(state.visible_fields[1].value, "CoreX");
    state.clear_field();
    assert_eq!(state.visible_fields[1].value, "");
}

#[test]
fn keys_are_ignored_while_not_editing() {
    let mut state = DetailEditState::new_from_item(&item(42, "Foo"), &controls(), &meta());
    state.type_char('x');
    state.backspace();
    state.clear_field();
    state.confirm_picker();
    state.next_field();
    assert_eq!(state.title, "Foo");
    assert_eq!(state.active_field, DetailField::Title);
    assert_eq!(state.visible_fields[0].picker.as_ref().unwrap().selected, Some(0));
}

#[test]
fn patch_replaces_title_and_every_field() {
    let request = SaveRequest {
        item_id: 42,
        title: "Bar".to_string(),
        fields: vec![field(PRIORITY, "High"), field(AREA, "Core")],
    };
    assert_eq!(
        patch_operations(&request),
        vec![
            PatchOperation { kind: PatchKind::Replace, path: "/fields/System.Title".to_string(), value: "Bar".to_string() },
            PatchOperation {
                kind: PatchKind::Replace,
                path: "/fields/Microsoft.VSTS.Common.Priority".to_string(),
                value: "High".to_string()
            },
            PatchOperation {
                kind: PatchKind::Replace,
                path: "/fields/System.AreaPath".to_string(),
                value: "Core".to_string()
            },
        ]
    );
}

#[test]
fn merging_a_save_replaces_or_adds_fields() {
    let mut it = item(42, "Foo");
    set_field(&mut it.fields, AREA, "Edge");
    set_field(&mut it.fields, "System.Tags", "a; b");
    assert_eq!(
        it.fields,
        vec![field(PRIORITY, "Low"), field(AREA, "Edge"), field("System.Tags", "a; b")]
    );
    let saved = SaveRequest {
        item_id: 42,
        title: "Bar".to_string(),
        fields: vec![field(PRIORITY, "High"), field("New.Field", "1")],
    };
    merge_saved(&mut it, &saved);
    assert_eq!(it.title, "Bar");
    assert_eq!(it.id, 42);
    assert_eq!(
        it.fields,
        vec![
            field(PRIORITY, "High"),
            field(AREA, "Edge"),
            field("System.Tags", "a; b"),
            field("New.Field", "1")
        ]
    );
}

#[test]
fn edit_and_save_scenario() {
    let mut app = session();
    app.handle_key(Key::Down);
    assert_eq!(app.list_view_state.list_state.selected, Some(1));
    assert_eq!(app.handle_key(Key::Enter), KeyOutcome::Continue);
    assert!(matches!(app.view, AppView::Detail));
    assert_eq!(app.handle_key(Key::Char('e')), KeyOutcome::Continue);
    assert!(app.detail_view_state.edit_state.as_ref().unwrap().is_editing);
    // Title: Foo -> Bar.
    app.handle_key(Key::Delete);
    type_text(&mut app, "Bar");
    // Priority: Low -> High, by two steps in the picker and a blank to confirm.
    app.handle_key(Key::Tab);
    type_text(&mut app, "jj ");
    let outcome = app.handle_key(Key::Enter);
    let expected = UpdateRequest {
        organization: "A".to_string(),
        project: "P".to_string(),
        request: SaveRequest {
            item_id: 42,
            title: "Bar".to_string(),
            fields: vec![field(PRIORITY, "High"), field(AREA, "Core")],
        },
        operations: vec![
            PatchOperation { kind: PatchKind::Replace, path: "/fields/System.Title".to_string(), value: "Bar".to_string() },
            PatchOperation {
                kind: PatchKind::Replace,
                path: "/fields/Microsoft.VSTS.Common.Priority".to_string(),
                value: "High".to_string(),
            },
            PatchOperation {
                kind: PatchKind::Replace,
                path: "/fields/System.AreaPath".to_string(),
                value: "Core".to_string(),
            },
        ],
    };
    assert_eq!(outcome, KeyOutcome::Save(expected));
    assert_eq!(app.detail_view_state.save_status, SaveStatus::Saving);
    assert!(!app.detail_view_state.edit_state.as_ref().unwrap().is_editing);
    // The item is not touched before the outcome is known.
    assert_eq!(app.items[1].title, "Foo");
    // A second save while the first is in flight is a no-op.
    assert_eq!(app.handle_key(Key::Enter), KeyOutcome::Continue);
    assert_eq!(app.start_save(), None);
    assert_eq!(app.detail_view_state.save_status, SaveStatus::Saving);
    // Keystrokes do not reach the buffer while saving, and editing cannot start.
    app.handle_key(Key::Char('x'));
    app.handle_key(Key::Char('e'));
    assert_eq!(app.detail_view_state.edit_state.as_ref().unwrap().title, "Bar");
    assert!(!app.detail_view_state.edit_state.as_ref().unwrap().is_editing);
    app.poll_save_completion(SaveOutcome::Pending);
    assert_eq!(app.detail_view_state.save_status, SaveStatus::Saving);
    app.poll_save_completion(SaveOutcome::Saved(SaveRequest {
        item_id: 42,
        title: "Bar".to_string(),
        fields: vec![field(PRIORITY, "High"), field(AREA, "Core")],
    }));
    assert_eq!(app.detail_view_state.save_status, SaveStatus::Idle);
    assert_eq!(app.items[1].title, "Bar");
    assert_eq!(app.items[1].fields, vec![field(PRIORITY, "High"), field(AREA, "Core")]);
    assert_eq!(app.items[0], item(41, "Other"));
    let state = app.detail_view_state.edit_state.as_ref().unwrap();
    assert_eq!(state.title, "Bar");
    assert_eq!(state.visible_fields[0].value, "High");
    assert_eq!(state.visible_fields[0].picker.as_ref().unwrap().selected, Some(2));
    assert!(!state.is_editing);
}

#[test]
fn failed_save_reverts_the_buffer() {
    let mut app = session();
    app.handle_key(Key::Down);
    app.handle_key(Key::Enter);
    app.handle_key(Key::Char('e'));
    type_text(&mut app, "!!");
    app.handle_key(Key::Tab);
    type_text(&mut app, "j ");
    assert!(matches!(app.handle_key(Key::Enter), KeyOutcome::Save(_)));
    app.poll_save_completion(SaveOutcome::Failed("conflict".to_string()));
    assert_eq!(app.detail_view_state.save_status, SaveStatus::Failed("conflict".to_string()));
    assert_eq!(app.items[1], item(42, "Foo"));
    let state = app.detail_view_state.edit_state.as_ref().unwrap();
    assert_eq!(state.title, "Foo");
    assert_eq!(state.visible_fields[0].value, "Low");
    assert!(!state.is_editing);
    // A later outcome is not taken while nothing is in flight.
    app.poll_save_completion(SaveOutcome::Saved(SaveRequest {
        item_id: 42,
        title: "Late".to_string(),
        fields: vec![],
    }));
    assert_eq!(app.items[1].title, "Foo");
    // Entering edit mode again clears the failure.
    app.handle_key(Key::Char('e'));
    assert_eq!(app.detail_view_state.save_status, SaveStatus::Idle);
    assert!(app.detail_view_state.edit_state.as_ref().unwrap().is_editing);
}

#[test]
fn closed_channel_counts_as_cancelled() {
    let mut app = session();
    app.handle_key(Key::Enter);
    app.handle_key(Key::Char('e'));
    type_text(&mut app, "x");
    assert!(app.start_save().is_some());
    app.poll_save_completion(SaveOutcome::Disconnected);
    assert_eq!(app.detail_view_state.save_status, SaveStatus::Failed("cancelled".to_string()));
    assert_eq!(app.detail_view_state.edit_state.as_ref().unwrap().title, "Other");
}

#[test]
fn escape_cancels_the_edit_then_leaves_the_view() {
    let mut app = session();
    app.handle_key(Key::Enter);
    app.handle_key(Key::Char('e'));
    type_text(&mut app, "abc");
    assert_eq!(app.detail_view_state.edit_state.as_ref().unwrap().title, "Otherabc");
    app.handle_key(Key::Esc);
    let state = app.detail_view_state.edit_state.as_ref().unwrap();
    assert_eq!(state.title, "Other");
    assert!(!state.is_editing);
    assert_eq!(app.detail_view_state.save_status, SaveStatus::Idle);
    assert!(matches!(app.view, AppView::Detail));
    app.handle_key(Key::Esc);
    assert!(matches!(app.view, AppView::List));
}

#[test]
fn save_needs_an_open_item_that_is_being_edited() {
    let mut view = DetailViewState::default();
    assert_eq!(view.start_save(), None);
    assert_eq!(view.save_status, SaveStatus::Idle);
    view.edit_state = Some(DetailEditState::new_from_item(&item(42, "Foo"), &controls(), &meta()));
    assert_eq!(view.start_save(), None);
    view.edit_state = Some(DetailEditState::begin_edit(&item(42, "Foo"), &controls(), &meta()));
    let request = view.start_save().unwrap();
    assert_eq!(request.item_id, 42);
    assert_eq!(request.title, "Foo");
    assert_eq!(request.fields, vec![field(PRIORITY, "Low"), field(AREA, "Core")]);
    assert_eq!(view.save_status, SaveStatus::Saving);
    assert_eq!(view.start_save(), None);
}

#[test]
fn items_are_found_by_id() {
    let items = vec![item(5, "a"), item(7, "b"), item(5, "c")];
    assert_eq!(find_item_by_id(&items, 5), Some(0));
    assert_eq!(find_item_by_id(&items, 7), Some(1));
    assert_eq!(find_item_by_id(&items, 8), None);
}

#[test]
fn detail_fields_without_layout_are_empty() {
    let mut app = session();
    app.loading_state = LoadingState::Loaded;
    let mut other = item(50, "Task item");
    other.work_item_type = "Task".to_string();
    assert!(app.detail_fields(&other).is_empty());
    assert_eq!(app.detail_fields(&item(42, "Foo")).len(), 2);
}

#[test]
fn loading_detaches_a_save_in_flight() {
    let mut app = session();
    app.handle_key(Key::Enter);
    app.handle_key(Key::Char('e'));
    type_text(&mut app, "x");
    assert!(app.start_save().is_some());
    app.handle_key(Key::Char('q'));
    assert_eq!(app.handle_key(Key::Char('r')), KeyOutcome::Reload);
    app.load_data(vec![item(42, "Foo")]);
    assert_eq!(app.detail_view_state.save_status, SaveStatus::Idle);
    assert!(app.detail_view_state.edit_state.is_none());
    app.poll_save_completion(SaveOutcome::Saved(SaveRequest {
        item_id: 42,
        title: "Late".to_string(),
        fields: vec![],
    }));
    assert_eq!(app.items[0].title, "Foo");
}

#[test]
fn options_of_a_picker_are_unique() {
    let p = picker(&["b", "a", "b", "c", "a"]);
    assert_eq!(p.options, vec!["b".to_string(), "a".to_string(), "c".to_string()]);
    let f = VisibleField::with_value(
        "Priority".to_string(),
        PRIORITY.to_string(),
        "High".to_string(),
        Some(vec!["Low".to_string(), "Low".to_string(), "High".to_string()]),
    );
    let p = f.picker.unwrap();
    assert_eq!(p.options, vec!["Low".to_string(), "High".to_string()]);
    assert_eq!(p.selected, Some(1));
}
