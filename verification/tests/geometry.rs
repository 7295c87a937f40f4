use adoboards::app::{App, ListState};
use adoboards::config::{AppConfig, BoardConfig, CommonConfig, KeysConfig};
use adoboards::picker::PickerState;
use adoboards::save::SaveStatus;
use adoboards::fields::VisibleField;
use adoboards::models::WorkItem;
use adoboards::ui::{
    calculate_detail_picker_rect, calculate_popup_rect, calculate_status_rect,
    calculate_type_filter_rect, detail_title, field_has_options, fields_to_show, filter_cursor,
    hover_lines, larger_of, picker_content_lines, picker_lines, row_on_screen, smaller_of,
    status_line, PickerLine, Rect, HOVER_HEIGHT, POPUP_WIDTH,
};

fn rect(x: u16, y: u16, width: u16, height: u16) -> Rect {
    Rect { x, y, width, height }
}

fn session(selected: Option<usize>, offset: usize) -> App {
    let mut app = App::new(AppConfig {
        common: CommonConfig::default(),
        boards: vec![BoardConfig::default()],
        iterations: vec![],
        keys: KeysConfig::default(),
    });
    app.list_view_state.list_state = ListState { selected, offset };
    app
}

#[test]
fn hover_goes_below_the_selected_row() {
    let frame = rect(0, 0, 120, 40);
    let list = rect(0, 0, 120, 40);
    assert_eq!(calculate_popup_rect(frame, &session(None, 0), list), None);
    assert_eq!(
        calculate_popup_rect(frame, &session(Some(5), 2), list),
        Some(rect(20, 5, 45, 4))
    );
    assert_eq!(POPUP_WIDTH, 45);
    assert_eq!(HOVER_HEIGHT, 4);
}

#[test]
fn hover_moves_up_and_left_to_stay_in_the_frame() {
    let frame = rect(0, 0, 50, 20);
    let list = rect(0, 0, 50, 20);
    // Row 17 on screen is 18; the pop-up would end at 23 > 20, so it goes above.
    assert_eq!(
        calculate_popup_rect(frame, &session(Some(17), 0), list),
        Some(rect(4, 14, 45, 4))
    );
    let narrow = rect(0, 0, 30, 20);
    assert_eq!(
        calculate_popup_rect(narrow, &session(Some(0), 0), rect(0, 0, 30, 20)),
        Some(rect(1, 2, 45, 4))
    );
    // A selection above the first shown row counts as the first row.
    assert_eq!(
        calculate_popup_rect(frame, &session(Some(1), 9), list),
        Some(rect(4, 2, 45, 4))
    );
}

#[test]
fn hover_saturates_at_the_largest_coordinate() {
    let frame = rect(0, 0, u16::MAX, u16::MAX);
    let list = rect(u16::MAX, u16::MAX, 10, 10);
    assert_eq!(
        calculate_popup_rect(frame, &session(Some(usize::MAX), 0), list),
        Some(rect(65535, 65535, 45, 4))
    );
    let smaller_frame = rect(0, 0, 60000, 60000);
    assert_eq!(
        calculate_popup_rect(smaller_frame, &session(Some(usize::MAX), 0), list),
        Some(rect(59954, 65531, 45, 4))
    );
    assert_eq!(row_on_screen(70000, 0), 65535);
    assert_eq!(row_on_screen(3, 5), 0);
    assert_eq!(row_on_screen(9, 4), 5);
}

#[test]
fn type_filter_fits_list_and_frame() {
    let frame = rect(0, 0, 120, 40);
    let list = rect(0, 0, 120, 40);
    assert_eq!(calculate_type_filter_rect(frame, &session(None, 0), list, 3), None);
    assert_eq!(
        calculate_type_filter_rect(frame, &session(Some(0), 0), list, 3),
        Some(rect(2, 2, 45, 5))
    );
    assert_eq!(
        calculate_type_filter_rect(frame, &session(Some(0), 0), list, 0),
        Some(rect(2, 2, 45, 3))
    );
    assert_eq!(
        calculate_type_filter_rect(frame, &session(Some(0), 0), list, 100),
        Some(rect(2, 0, 45, 39))
    );
    let small = rect(0, 0, 30, 10);
    assert_eq!(
        calculate_type_filter_rect(small, &session(Some(8), 0), rect(0, 0, 30, 10), 2),
        Some(rect(1, 5, 28, 4))
    );
}

#[test]
fn detail_picker_goes_below_the_field() {
    let frame = rect(0, 0, 100, 30);
    assert_eq!(
        calculate_detail_picker_rect(frame, rect(0, 3, 100, 3), 3),
        Some(rect(1, 6, 45, 5))
    );
    assert_eq!(
        calculate_detail_picker_rect(frame, rect(0, 26, 100, 3), 3),
        Some(rect(1, 21, 45, 5))
    );
    assert_eq!(
        calculate_detail_picker_rect(rect(0, 0, 40, 30), rect(10, 3, 30, 3), 1),
        Some(rect(1, 6, 38, 3))
    );
    assert_eq!(calculate_detail_picker_rect(rect(0, 0, 2, 30), rect(0, 0, 2, 3), 1), None);
    assert_eq!(calculate_detail_picker_rect(rect(0, 0, 30, 2), rect(0, 0, 2, 3), 1), None);
}

#[test]
fn status_goes_above_the_fields() {
    assert_eq!(
        calculate_status_rect(rect(0, 0, 80, 3), rect(0, 3, 80, 20)),
        rect(0, 3, 80, 3)
    );
    assert_eq!(
        calculate_status_rect(rect(2, 1, 80, 3), rect(2, 10, 70, 20)),
        rect(2, 7, 70, 3)
    );
    assert_eq!(status_line(&SaveStatus::Idle), None);
    assert_eq!(status_line(&SaveStatus::Saving), Some("Saving...".to_string()));
    assert_eq!(
        status_line(&SaveStatus::Failed("conflict".to_string())),
        Some("Save failed: conflict".to_string())
    );
}

#[test]
fn small_helpers() {
    assert_eq!(larger_of(3, 9), 9);
    assert_eq!(larger_of(9, 3), 9);
    assert_eq!(smaller_of(3, 9), 3);
    assert_eq!(smaller_of(9, 3), 3);
    assert_eq!(picker_content_lines(&PickerState::new(vec![])), 1);
    assert_eq!(
        picker_content_lines(&PickerState::new(vec!["a".to_string(), "b".to_string()])),
        2
    );
}

#[test]
fn lines_of_a_picker() {
    let mut p = PickerState::new(vec!["Low".to_string(), "High".to_string()]);
    p.toggle("High");
    p.selected = Some(0);
    assert_eq!(
        picker_lines(&p),
        vec![
            PickerLine { text: "[ ] Low".to_string(), is_selected: true },
            PickerLine { text: "[x] High".to_string(), is_selected: false },
        ]
    );
    assert_eq!(
        picker_lines(&PickerState::new(vec![])),
        vec![PickerLine { text: "No options".to_string(), is_selected: false }]
    );
}

#[test]
fn texts_of_the_detail_view() {
    assert_eq!(detail_title(42, "Foo"), "42: Foo");
    assert_eq!(detail_title(0, ""), "0: ");
    let shown = fields_to_show(vec![]);
    assert_eq!(shown.len(), 1);
    assert_eq!(shown[0].label, "No layout fields");
    assert_eq!(shown[0].reference_name, "");
    assert_eq!(shown[0].value, "No fields for this layout");
    assert!(shown[0].picker.is_none());
    assert!(!field_has_options(&shown[0]));
    let with_picker = VisibleField::with_value(
        "Priority".to_string(),
        "P".to_string(),
        "Low".to_string(),
        Some(vec!["Low".to_string(), "High".to_string()]),
    );
    assert!(field_has_options(&with_picker));
    let kept = fields_to_show(vec![with_picker]);
    assert_eq!(kept.len(), 1);
    assert_eq!(kept[0].label, "Priority");
    let item = WorkItem {
        id: 1,
        title: "t".to_string(),
        assigned_to: "Ada".to_string(),
        state: "New".to_string(),
        work_item_type: "Bug".to_string(),
        description: String::new(),
        acceptance_criteria: String::new(),
        fields: vec![],
    };
    assert_eq!(
        hover_lines(&item),
        ("Assigned To: Ada".to_string(), "State: New".to_string())
    );
    assert_eq!(filter_cursor(rect(3, 20, 80, 3), 5), (10, 21));
    assert_eq!(filter_cursor(rect(65530, 65535, 80, 3), 70000), (65535, 65535));
}
