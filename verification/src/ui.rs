//! Where the pop-ups of the two views go, and the texts of their headings.
//! Drawing is left to the caller.
//!
//! All sums and differences saturate: a pop-up that would reach beyond the
//! largest coordinate stops there.

use vstd::prelude::*;
use crate::app::App;
use crate::fields::{visible_field, VisibleField, VisibleFieldView};
use crate::models::{WorkItem, WorkItemView};
use crate::picker::{PickerState, PickerView};
use crate::save::{SaveStatus, SaveStatusView};
use crate::sorted::{insert_ascending, strictly_ascending};
use crate::text::{decimal_text, join_texts, joined, number_text, text_set};

verus! {

/// A rectangle of the terminal, in cells.
#[derive(Clone, Copy, Debug, PartialEq, Eq, Structural)]
pub struct Rect {
    pub x: u16,
    pub y: u16,
    pub width: u16,
    pub height: u16,
}

/// The width of a pop-up where there is room for it.
pub const POPUP_WIDTH: u16 = 45;

/// The height of the hover pop-up.
pub const HOVER_HEIGHT: u16 = 4;

/// The largest coordinate.
pub open spec fn top() -> int {
    0xffff
}

/// The sum of two numbers, at most the largest coordinate.
pub open spec fn plus(a: int, b: int) -> int {
    if a + b > top() {
        top()
    } else {
        a + b
    }
}

/// The difference of two numbers, at least zero.
pub open spec fn minus(a: int, b: int) -> int {
    if a - b < 0 {
        0
    } else {
        a - b
    }
}

/// The larger of two numbers.
pub open spec fn larger(a: int, b: int) -> int {
    if a >= b {
        a
    } else {
        b
    }
}

/// The smaller of two numbers.
pub open spec fn smaller(a: int, b: int) -> int {
    if a <= b {
        a
    } else {
        b
    }
}

/// The larger of two numbers.
pub fn larger_of(a: u16, b: u16) -> (r: u16)
    ensures
        r == larger(a as int, b as int),
{
    if a >= b {
        a
    } else {
        b
    }
}

/// The smaller of two numbers.
pub fn smaller_of(a: u16, b: u16) -> (r: u16)
    ensures
        r == smaller(a as int, b as int),
{
    if a <= b {
        a
    } else {
        b
    }
}

/// The row of the selection on the screen, counted from the first row that
/// is shown.
pub open spec fn relative_row(selected: usize, offset: usize) -> int {
    smaller(minus(selected as int, offset as int), top())
}

/// The row of the selection on the screen, counted from the first row that
/// is shown.
pub fn row_on_screen(selected: usize, offset: usize) -> (r: u16)
    ensures
        r == relative_row(selected, offset),
{
    let rows: usize = if selected >= offset {
        selected - offset
    } else {
        0
    };
    if rows > 0xffff {
        0xffff
    } else {
        rows as u16
    }
}

/// The rectangle with the given corner and size.
pub open spec fn rect(x: int, y: int, width: int, height: int) -> Rect {
    Rect { x: x as u16, y: y as u16, width: width as u16, height: height as u16 }
}

/// Where the hover goes: one row below the selected row and twenty cells
/// in, or above the row where it would leave the frame below, and moved
/// left where it would leave the frame on the right; never before the
/// frame's own corner. None without a selection.
pub open spec fn popup_rect(
    frame_area: Rect,
    selected: Option<usize>,
    offset: usize,
    list_area: Rect,
) -> Option<Rect> {
    match selected {
        None => None,
        Some(index) => {
            let row = plus(plus(list_area.y as int, 1), relative_row(index, offset));
            let below = plus(row, 1);
            let y = if plus(below, HOVER_HEIGHT as int) > frame_area.height {
                minus(row, HOVER_HEIGHT as int)
            } else {
                below
            };
            let right = plus(list_area.x as int, 20);
            let x = if plus(right, POPUP_WIDTH as int) > frame_area.width {
                minus(frame_area.width as int, POPUP_WIDTH + 1)
            } else {
                right
            };
            Some(
                rect(
                    larger(x, plus(frame_area.x as int, 1)),
                    larger(y, frame_area.y as int),
                    POPUP_WIDTH as int,
                    HOVER_HEIGHT as int,
                ),
            )
        },
    }
}

/// Where the hover of the list view goes.
pub fn calculate_popup_rect(frame_area: Rect, app: &App, list_area: Rect) -> (r: Option<Rect>)
    ensures
        r == popup_rect(
            frame_area,
            app@.list.list_state.selected,
            app@.list.list_state.offset,
            list_area,
        ),
{
    let selected_index = match app.list_view_state.list_state.selected() {
        Some(index) => index,
        None => {
            return None;
        },
    };
    let offset = app.list_view_state.list_state.offset();
    let relative_y = row_on_screen(selected_index, offset);
    let selected_y_on_screen = list_area.y.saturating_add(1).saturating_add(relative_y);
    let mut x = list_area.x.saturating_add(20);
    let mut y = selected_y_on_screen.saturating_add(1);
    if y.saturating_add(HOVER_HEIGHT) > frame_area.height {
        y = selected_y_on_screen.saturating_sub(HOVER_HEIGHT);
    }
    y = larger_of(y, frame_area.y);
    if x.saturating_add(POPUP_WIDTH) > frame_area.width {
        x = frame_area.width.saturating_sub(POPUP_WIDTH + 1);
    }
    x = larger_of(x, frame_area.x.saturating_add(1));
    Some(Rect { x, y, width: POPUP_WIDTH, height: HOVER_HEIGHT })
}

/// The height of a pop-up with `content_lines` lines in a frame: the lines
/// and the border, at least three rows, at most the frame's height less
/// one.
pub open spec fn popup_height(frame_area: Rect, content_lines: u16) -> int {
    smaller(larger(plus(content_lines as int, 2), 3), minus(frame_area.height as int, 1))
}

/// Where the type filter goes: below the selected row, two cells in, as
/// wide as the list and the frame allow; above the row where it would leave
/// the frame below; and within the list and the frame on the right. None
/// without a selection.
pub open spec fn type_filter_rect(
    frame_area: Rect,
    selected: Option<usize>,
    offset: usize,
    list_area: Rect,
    content_lines: u16,
) -> Option<Rect> {
    match selected {
        None => None,
        Some(index) => {
            let height = popup_height(frame_area, content_lines);
            let width = smaller(
                smaller(POPUP_WIDTH as int, minus(list_area.width as int, 2)),
                minus(frame_area.width as int, 2),
            );
            let row = plus(plus(list_area.y as int, 1), relative_row(index, offset));
            let below = plus(row, 1);
            let y = if plus(below, height) > frame_area.height {
                minus(row, height)
            } else {
                below
            };
            let list_right = minus(
                plus(list_area.x as int, list_area.width as int),
                plus(width, 1),
            );
            let frame_right = larger(
                minus(frame_area.width as int, plus(width, 1)),
                plus(frame_area.x as int, 1),
            );
            let x = smaller(smaller(plus(list_area.x as int, 2), list_right), frame_right);
            Some(
                rect(
                    larger(larger(x, plus(list_area.x as int, 1)), plus(frame_area.x as int, 1)),
                    larger(y, frame_area.y as int),
                    width,
                    height,
                ),
            )
        },
    }
}

/// Where the type filter of the list view goes.
pub fn calculate_type_filter_rect(
    frame_area: Rect,
    app: &App,
    list_area: Rect,
    content_lines: u16,
) -> (r: Option<Rect>)
    ensures
        r == type_filter_rect(
            frame_area,
            app@.list.list_state.selected,
            app@.list.list_state.offset,
            list_area,
            content_lines,
        ),
{
    let selected_index = match app.list_view_state.list_state.selected() {
        Some(index) => index,
        None => {
            return None;
        },
    };
    let offset = app.list_view_state.list_state.offset();
    let relative_y = row_on_screen(selected_index, offset);
    let desired_height = content_lines.saturating_add(2);
    let popup_height = smaller_of(larger_of(desired_height, 3), frame_area.height.saturating_sub(1));
    let selected_y_on_screen = list_area.y.saturating_add(1).saturating_add(relative_y);
    let mut x = list_area.x.saturating_add(2);
    let mut y = selected_y_on_screen.saturating_add(1);
    let list_max_width = list_area.width.saturating_sub(2);
    let popup_width = smaller_of(
        smaller_of(POPUP_WIDTH, list_max_width),
        frame_area.width.saturating_sub(2),
    );
    if y.saturating_add(popup_height) > frame_area.height {
        y = selected_y_on_screen.saturating_sub(popup_height);
    }
    y = larger_of(y, frame_area.y);
    let list_right_bound = list_area.x.saturating_add(list_area.width).saturating_sub(
        popup_width.saturating_add(1),
    );
    let frame_right_bound = larger_of(
        frame_area.width.saturating_sub(popup_width.saturating_add(1)),
        frame_area.x.saturating_add(1),
    );
    x = smaller_of(smaller_of(x, list_right_bound), frame_right_bound);
    x = larger_of(larger_of(x, list_area.x.saturating_add(1)), frame_area.x.saturating_add(1));
    Some(Rect { x, y, width: popup_width, height: popup_height })
}

/// Where the picker of a field goes: below the field, one cell in; above
/// the field where it would leave the frame below; moved left where it
/// would leave the frame on the right. None in a frame of fewer than three
/// cells either way.
pub open spec fn detail_picker_rect(frame_area: Rect, field_area: Rect, content_lines: u16) -> Option<
    Rect,
> {
    if frame_area.width < 3 || frame_area.height < 3 {
        None
    } else {
        let width = smaller(POPUP_WIDTH as int, minus(frame_area.width as int, 2));
        let height = popup_height(frame_area, content_lines);
        let below = plus(field_area.y as int, field_area.height as int);
        let y = if plus(below, height) > frame_area.height {
            minus(field_area.y as int, height)
        } else {
            below
        };
        let right = plus(field_area.x as int, 1);
        let x = if plus(right, width) > frame_area.width {
            larger(minus(frame_area.width as int, plus(width, 1)), plus(frame_area.x as int, 1))
        } else {
            right
        };
        Some(rect(larger(x, plus(frame_area.x as int, 1)), larger(y, frame_area.y as int), width, height))
    }
}

/// Where the picker of a field of the detail view goes.
pub fn calculate_detail_picker_rect(frame_area: Rect, field_area: Rect, content_lines: u16) -> (r:
    Option<Rect>)
    ensures
        r == detail_picker_rect(frame_area, field_area, content_lines),
{
    if frame_area.width < 3 || frame_area.height < 3 {
        return None;
    }
    let popup_width = smaller_of(POPUP_WIDTH, frame_area.width.saturating_sub(2));
    let desired_height = content_lines.saturating_add(2);
    let popup_height = smaller_of(larger_of(desired_height, 3), frame_area.height.saturating_sub(1));
    let mut x = field_area.x.saturating_add(1);
    let mut y = field_area.y.saturating_add(field_area.height);
    if y.saturating_add(popup_height) > frame_area.height {
        y = field_area.y.saturating_sub(popup_height);
    }
    y = larger_of(y, frame_area.y);
    if x.saturating_add(popup_width) > frame_area.width {
        x = larger_of(
            frame_area.width.saturating_sub(popup_width.saturating_add(1)),
            frame_area.x.saturating_add(1),
        );
    }
    x = larger_of(x, frame_area.x.saturating_add(1));
    Some(Rect { x, y, width: popup_width, height: popup_height })
}

/// The number of lines that the options of a picker take: one per option,
/// at least one.
pub fn picker_content_lines(picker: &PickerState) -> (lines: u16)
    ensures
        lines == smaller(larger(picker@.options.len() as int, 1), top()),
{
    let count = picker.options.len();
    if count == 0 {
        1
    } else if count > 0xffff {
        0xffff
    } else {
        count as u16
    }
}

/// Where the save status goes: three rows over the full width, right above
/// the fields but never over the title.
pub open spec fn status_rect(title_area: Rect, fields_area: Rect) -> Rect {
    rect(
        title_area.x as int,
        larger(minus(fields_area.y as int, 3), plus(title_area.y as int, 3)),
        fields_area.width as int,
        3,
    )
}

/// Where the save status of the detail view goes.
pub fn calculate_status_rect(title_area: Rect, fields_area: Rect) -> (r: Rect)
    ensures
        r == status_rect(title_area, fields_area),
{
    Rect {
        x: title_area.x,
        y: larger_of(fields_area.y.saturating_sub(3), title_area.y.saturating_add(3)),
        width: fields_area.width,
        height: 3,
    }
}

/// What the detail view says of the save: nothing while idle.
pub open spec fn status_text(status: SaveStatusView) -> Option<Seq<char>> {
    match status {
        SaveStatusView::Idle => None,
        SaveStatusView::Saving => Some("Saving..."@),
        SaveStatusView::Failed(message) => Some("Save failed: "@ + message),
    }
}

/// What the detail view says of the save.
pub fn status_line(status: &SaveStatus) -> (line: Option<String>)
    ensures
        line.deep_view() == status_text(status@),
{
    match status {
        SaveStatus::Idle => None,
        SaveStatus::Saving => Some(String::from_str("Saving...")),
        SaveStatus::Failed(message) => {
            let mut line = String::from_str("Save failed: ");
            line.append(message.as_str());
            Some(line)
        },
    }
}

/// The heading of the list view: the title of the source; then, where the
/// filter by assignee is on, the user's name; then the active types.
pub open spec fn list_heading(
    base_title: Seq<char>,
    me: Seq<char>,
    assigned_to_me: bool,
    active_types: Seq<Seq<char>>,
) -> Seq<char> {
    let types = if active_types.len() == 0 {
        Seq::empty()
    } else {
        " | Types: "@ + joined(active_types, ", "@)
    };
    if assigned_to_me {
        base_title + ", Assigned to "@ + (if me.len() == 0 {
            "<name not configured>"@
        } else {
            me
        }) + types
    } else {
        base_title + " "@ + types
    }
}

/// The heading of the list view.
pub fn list_title(base_title: &str, me: &str, assigned_to_me: bool, active_types: &Vec<String>) -> (title:
    String)
    ensures
        title@ == list_heading(base_title@, me@, assigned_to_me, active_types.deep_view()),
{
    let mut title = String::from_str(base_title);
    if assigned_to_me {
        title.append(", Assigned to ");
        if me.is_empty() {
            title.append("<name not configured>");
        } else {
            title.append(me);
        }
    } else {
        title.append(" ");
    }
    if active_types.len() > 0 {
        title.append(" | Types: ");
        let names = join_texts(active_types, ", ");
        title.append(names.as_str());
    } else {
        assert(title@ + Seq::<char>::empty() =~= title@);
    }
    title
}

impl App {
    /// The title of the active source; empty where there is none.
    pub fn current_title(&self) -> (title: String)
        ensures
            title@ == (if self@.current < self@.sources.len() {
                self@.sources[self@.current as int].title
            } else {
                Seq::empty()
            }),
    {
        if self.current_board_index < self.all_boards.len() {
            assert(self.all_boards.deep_view()[self.current_board_index as int]
                == self.all_boards@[self.current_board_index as int]@);
            self.all_boards[self.current_board_index].title.clone()
        } else {
            String::new()
        }
    }

    /// The active types of the type filter in ascending order, each once.
    pub fn active_types_sorted(&self) -> (types: Vec<String>)
        ensures
            strictly_ascending(types@),
            text_set(types@) == self@.list.type_picker.active,
    {
        let active = &self.list_view_state.type_picker.active;
        let mut types: Vec<String> = Vec::new();
        let mut i: usize = 0;
        assert(text_set(types@) =~= text_set(active@.take(0)));
        while i < active.len()
            invariant
                i <= active@.len(),
                strictly_ascending(types@),
                text_set(types@) == text_set(active@.take(i as int)),
            decreases active@.len() - i,
        {
            insert_ascending(&mut types, active[i].clone());
            proof {
                assert(active@.take(i as int + 1) =~= active@.take(i as int).push(active@[i as int]));
                crate::text::lemma_text_set_push(active@.take(i as int), active@[i as int]);
            }
            i += 1;
        }
        assert(active@.take(i as int) =~= active@);
        types
    }
}

/// One line of a picker as it is shown.
#[derive(Debug, PartialEq, Eq)]
pub struct PickerLine {
    /// A box, ticked for an active option, and the option.
    pub text: String,
    /// Whether the line is the highlighted one.
    pub is_selected: bool,
}

/// The mathematical value of a [`PickerLine`].
pub struct PickerLineView {
    pub text: Seq<char>,
    pub is_selected: bool,
}

impl View for PickerLine {
    type V = PickerLineView;

    open spec fn view(&self) -> PickerLineView {
        PickerLineView { text: self.text@, is_selected: self.is_selected }
    }
}

impl DeepView for PickerLine {
    type V = PickerLineView;

    open spec fn deep_view(&self) -> PickerLineView {
        self@
    }
}

/// The line of the option at a position of a picker.
pub open spec fn option_line(p: PickerView, i: int) -> PickerLineView {
    PickerLineView {
        text: (if p.active.contains(p.options[i]) {
            "[x]"@
        } else {
            "[ ]"@
        }) + " "@ + p.options[i],
        is_selected: p.selected == Some(i as usize),
    }
}

/// The lines of a picker: one per option, or a single line that says that
/// there is none.
pub open spec fn picker_text(p: PickerView) -> Seq<PickerLineView> {
    if p.options.len() == 0 {
        seq![PickerLineView { text: "No options"@, is_selected: false }]
    } else {
        Seq::new(p.options.len(), |i: int| option_line(p, i))
    }
}

/// The lines of a picker as they are shown.
pub fn picker_lines(picker: &PickerState) -> (lines: Vec<PickerLine>)
    ensures
        lines.deep_view() == picker_text(picker@),
{
    let mut lines: Vec<PickerLine> = Vec::new();
    if picker.options.len() == 0 {
        let line = PickerLine { text: String::from_str("No options"), is_selected: false };
        lines.push(line);
        assert(lines.deep_view() =~= picker_text(picker@));
        return lines;
    }
    let mut i: usize = 0;
    while i < picker.options.len()
        invariant
            i <= picker.options@.len(),
            lines@.len() == i,
            forall|k: int| 0 <= k < i ==> lines@[k]@ == option_line(picker@, k),
        decreases picker.options@.len() - i,
    {
        assert(picker.options.deep_view()[i as int] == picker.options@[i as int]@);
        let mut text = if picker.is_active(picker.options[i].as_str()) {
            String::from_str("[x]")
        } else {
            String::from_str("[ ]")
        };
        text.append(" ");
        text.append(picker.options[i].as_str());
        let is_selected = match picker.selected {
            Some(at) => at == i,
            None => false,
        };
        lines.push(PickerLine { text, is_selected });
        i += 1;
    }
    assert(lines.deep_view() =~= picker_text(picker@));
    lines
}

/// The heading of the detail view: the id of the item, a colon and the
/// title as it stands.
pub open spec fn detail_heading(id: u32, title: Seq<char>) -> Seq<char> {
    decimal_text(id as nat) + ": "@ + title
}

/// The heading of the detail view.
pub fn detail_title(id: u32, title: &str) -> (heading: String)
    ensures
        heading@ == detail_heading(id, title@),
{
    let mut heading = number_text(id);
    heading.append(": ");
    heading.append(title);
    heading
}

/// The field that is shown where an item has no visible field.
pub open spec fn no_fields_notice() -> VisibleFieldView {
    visible_field("No layout fields"@, Seq::empty(), "No fields for this layout"@, None)
}

/// The fields that the detail view shows: the visible fields, or a notice
/// where there is none.
pub fn fields_to_show(fields: Vec<VisibleField>) -> (shown: Vec<VisibleField>)
    ensures
        shown.deep_view() == (if fields@.len() == 0 {
            seq![no_fields_notice()]
        } else {
            fields.deep_view()
        }),
{
    if fields.len() == 0 {
        let notice = VisibleField::with_value(
            String::from_str("No layout fields"),
            String::new(),
            String::from_str("No fields for this layout"),
            None,
        );
        let mut shown: Vec<VisibleField> = Vec::new();
        shown.push(notice);
        assert(shown.deep_view() =~= seq![no_fields_notice()]);
        shown
    } else {
        fields
    }
}

/// Whether a field is shown with a picker: it has one, and the picker has
/// an option. Such a field takes three rows; any other takes what is left.
pub fn field_has_options(field: &VisibleField) -> (r: bool)
    ensures
        r == (field@.picker is Some && field@.picker->0.options.len() > 0),
{
    match &field.picker {
        Some(picker) => {
            assert(picker.options.deep_view().len() == picker.options@.len());
            picker.options.len() > 0
        },
        None => false,
    }
}

/// The two lines of the hover: who the item is assigned to, and its state.
pub open spec fn hover_text(item: WorkItemView) -> (Seq<char>, Seq<char>) {
    ("Assigned To: "@ + item.assigned_to, "State: "@ + item.state)
}

/// The two lines of the hover of an item.
pub fn hover_lines(item: &WorkItem) -> (lines: (String, String))
    ensures
        lines.0@ == hover_text(item@).0,
        lines.1@ == hover_text(item@).1,
{
    let mut assigned = String::from_str("Assigned To: ");
    assigned.append(item.assigned_to.as_str());
    let mut state = String::from_str("State: ");
    state.append(item.state.as_str());
    (assigned, state)
}

/// Where the cursor of the query goes: behind the slash and the `typed`
/// characters, inside the border of the query's area.
pub open spec fn query_cursor(area: Rect, typed: usize) -> (u16, u16) {
    (
        plus(plus(area.x as int, 2), smaller(typed as int, top())) as u16,
        plus(area.y as int, 1) as u16,
    )
}

/// Where the cursor of the query goes.
pub fn filter_cursor(area: Rect, typed: usize) -> (at: (u16, u16))
    ensures
        at == query_cursor(area, typed),
{
    let width: u16 = if typed > 0xffff {
        0xffff
    } else {
        typed as u16
    };
    (area.x.saturating_add(2).saturating_add(width), area.y.saturating_add(1))
}

/// What the status screen says while a source is being loaded.
pub fn loading_message(title: &str) -> (message: String)
    ensures
        message@ == "Loading "@ + title@ + "..."@,
{
    let mut message = String::from_str("Loading ");
    message.append(title);
    message.append("...");
    message
}

/// What the status screen says after a load has failed.
pub fn load_error_message(reason: &str) -> (message: String)
    ensures
        message@ == "Failed to load data. "@ + reason@,
{
    let mut message = String::from_str("Failed to load data. ");
    message.append(reason);
    message
}

} // verus!
