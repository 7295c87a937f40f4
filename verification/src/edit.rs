//! The edit session of the detail view: a title buffer, the visible fields
//! and a cursor that cycles through them.

use vstd::prelude::*;
use crate::fields::{
    build_visible_fields,
    copy_visible_fields,
    visible_fields,
    VisibleField,
    VisibleFieldView,
};
use crate::models::{
    DetailField,
    FieldInfoView,
    LayoutControlEntry,
    LayoutControlView,
    WorkItem,
    WorkItemFieldInfo,
    WorkItemView,
};
use crate::picker::{moved, PickerView};

verus! {

/// The buffer that holds the pending edits of one work item.
#[derive(Debug)]
pub struct DetailEditState {
    /// Whether keystrokes change the buffer.
    pub is_editing: bool,
    /// The field that has the cursor.
    pub active_field: DetailField,
    /// The id of the item that the buffer was built from.
    pub item_id: u32,
    /// The title buffer.
    pub title: String,
    /// The visible fields with their buffers and pickers.
    pub visible_fields: Vec<VisibleField>,
}

/// The mathematical value of a [`DetailEditState`].
pub struct EditSessionView {
    pub is_editing: bool,
    pub active_field: DetailField,
    pub item_id: u32,
    pub title: Seq<char>,
    pub visible_fields: Seq<VisibleFieldView>,
}

impl View for DetailEditState {
    type V = EditSessionView;

    open spec fn view(&self) -> EditSessionView {
        EditSessionView {
            is_editing: self.is_editing,
            active_field: self.active_field,
            item_id: self.item_id,
            title: self.title@,
            visible_fields: self.visible_fields.deep_view(),
        }
    }
}

impl DeepView for DetailEditState {
    type V = EditSessionView;

    open spec fn deep_view(&self) -> EditSessionView {
        self@
    }
}

impl Clone for DetailEditState {
    fn clone(&self) -> (r: Self)
        ensures
            r@ == self@,
    {
        DetailEditState {
            is_editing: self.is_editing,
            active_field: self.active_field,
            item_id: self.item_id,
            title: self.title.clone(),
            visible_fields: copy_visible_fields(&self.visible_fields),
        }
    }
}

/// The cursor stands on the title or on one of the `count` visible fields.
pub open spec fn cursor_in_range(field: DetailField, count: nat) -> bool {
    match field {
        DetailField::Title => true,
        DetailField::Dynamic(i) => i < count,
    }
}

/// The cursor brought back into range: one that stands behind the last of
/// the `count` visible fields goes to the last, or to the title where there
/// is no visible field.
pub open spec fn clamped_cursor(field: DetailField, count: nat) -> DetailField {
    match field {
        DetailField::Title => DetailField::Title,
        DetailField::Dynamic(i) => if i < count {
            field
        } else if count == 0 {
            DetailField::Title
        } else {
            DetailField::Dynamic((count - 1) as usize)
        },
    }
}

/// The field behind `field` in the ring of the title and the `count`
/// visible fields.
pub open spec fn next_cursor(field: DetailField, count: nat) -> DetailField {
    match field {
        DetailField::Title => if count > 0 {
            DetailField::Dynamic(0)
        } else {
            DetailField::Title
        },
        DetailField::Dynamic(i) => if i + 1 < count {
            DetailField::Dynamic((i + 1) as usize)
        } else {
            DetailField::Title
        },
    }
}

/// The field before `field` in the ring of the title and the `count`
/// visible fields.
pub open spec fn previous_cursor(field: DetailField, count: nat) -> DetailField {
    match field {
        DetailField::Title => if count > 0 {
            DetailField::Dynamic((count - 1) as usize)
        } else {
            DetailField::Title
        },
        DetailField::Dynamic(i) => if i == 0 || count == 0 {
            DetailField::Title
        } else if i - 1 < count {
            DetailField::Dynamic((i - 1) as usize)
        } else {
            DetailField::Dynamic((count - 1) as usize)
        },
    }
}

/// The session that is built from an item: its title, its visible fields,
/// the cursor on the title.
pub open spec fn session_of(
    item: WorkItemView,
    controls: Seq<LayoutControlView>,
    meta: Seq<FieldInfoView>,
    is_editing: bool,
) -> EditSessionView {
    EditSessionView {
        is_editing,
        active_field: DetailField::Title,
        item_id: item.id,
        title: item.title,
        visible_fields: visible_fields(item, controls, meta),
    }
}

/// A visible field after a character was typed into it: with a picker the
/// highlight moves one option on, without one the character joins the value.
pub open spec fn field_typed(f: VisibleFieldView, c: char) -> VisibleFieldView {
    match f.picker {
        Some(p) => VisibleFieldView {
            picker: Some(PickerView { selected: moved(p.selected, 1, p.options.len()), ..p }),
            ..f
        },
        None => VisibleFieldView { value: f.value.push(c), ..f },
    }
}

/// A visible field after backspace: with a picker the highlight moves one
/// option back, without one the value loses its last character.
pub open spec fn field_erased(f: VisibleFieldView) -> VisibleFieldView {
    match f.picker {
        Some(p) => VisibleFieldView {
            picker: Some(PickerView { selected: moved(p.selected, -1, p.options.len()), ..p }),
            ..f
        },
        None => VisibleFieldView {
            value: if f.value.len() > 0 {
                f.value.drop_last()
            } else {
                f.value
            },
            ..f
        },
    }
}

/// A visible field after it was cleared: with a picker the highlight goes
/// to the first option, without one the value becomes empty.
pub open spec fn field_cleared(f: VisibleFieldView) -> VisibleFieldView {
    match f.picker {
        Some(p) => VisibleFieldView {
            picker: Some(
                PickerView {
                    selected: if p.options.len() > 0 {
                        Some(0usize)
                    } else {
                        None
                    },
                    ..p
                },
            ),
            ..f
        },
        None => VisibleFieldView { value: Seq::empty(), ..f },
    }
}

/// A visible field after its picker's highlighted option was confirmed: the
/// option becomes the value and the only active value. A field without a
/// picker or without a highlight stays as it is.
pub open spec fn field_confirmed(f: VisibleFieldView) -> VisibleFieldView {
    match f.picker {
        Some(p) => match p.selected {
            Some(i) => if i < p.options.len() {
                VisibleFieldView {
                    value: p.options[i as int],
                    picker: Some(PickerView { active: set![p.options[i as int]], ..p }),
                    ..f
                }
            } else {
                f
            },
            None => f,
        },
        None => f,
    }
}

/// The session after `change` was applied to the field under the cursor,
/// where the cursor stands on a visible field and the session is editing.
pub open spec fn with_active_field(
    s: EditSessionView,
    change: spec_fn(VisibleFieldView) -> VisibleFieldView,
) -> EditSessionView {
    match s.active_field {
        DetailField::Dynamic(i) => if s.is_editing && i < s.visible_fields.len() {
            EditSessionView {
                visible_fields: s.visible_fields.update(i as int, change(s.visible_fields[i as int])),
                ..s
            }
        } else {
            s
        },
        DetailField::Title => s,
    }
}

/// The session after a character was typed.
pub open spec fn typed(s: EditSessionView, c: char) -> EditSessionView {
    if s.is_editing && s.active_field is Title {
        EditSessionView { title: s.title.push(c), ..s }
    } else {
        with_active_field(s, |f: VisibleFieldView| field_typed(f, c))
    }
}

/// The session after backspace.
pub open spec fn erased(s: EditSessionView) -> EditSessionView {
    if s.is_editing && s.active_field is Title {
        EditSessionView {
            title: if s.title.len() > 0 {
                s.title.drop_last()
            } else {
                s.title
            },
            ..s
        }
    } else {
        with_active_field(s, |f: VisibleFieldView| field_erased(f))
    }
}

/// The session after the field under the cursor was cleared.
pub open spec fn field_wiped(s: EditSessionView) -> EditSessionView {
    if s.is_editing && s.active_field is Title {
        EditSessionView { title: Seq::empty(), ..s }
    } else {
        with_active_field(s, |f: VisibleFieldView| field_cleared(f))
    }
}

/// The session after the picker under the cursor was confirmed.
pub open spec fn confirmed(s: EditSessionView) -> EditSessionView {
    with_active_field(s, |f: VisibleFieldView| field_confirmed(f))
}

/// In a ring of the title and `count` fields, going on and then back, or
/// back and then on, leaves a cursor that is in range where it was; and
/// every step ends in range.
pub proof fn lemma_cursor_ring(field: DetailField, count: nat)
    requires
        cursor_in_range(field, count),
        count <= usize::MAX,
    ensures
        previous_cursor(next_cursor(field, count), count) == field,
        next_cursor(previous_cursor(field, count), count) == field,
        cursor_in_range(next_cursor(field, count), count),
        cursor_in_range(previous_cursor(field, count), count),
{
}

/// Typing, erasing, clearing and confirming keep the cursor and the number
/// of visible fields, so a cursor that is in range stays in range.
pub proof fn lemma_edits_keep_cursor(s: EditSessionView, c: char)
    ensures
        typed(s, c).active_field == s.active_field,
        typed(s, c).visible_fields.len() == s.visible_fields.len(),
        erased(s).active_field == s.active_field,
        erased(s).visible_fields.len() == s.visible_fields.len(),
        field_wiped(s).active_field == s.active_field,
        field_wiped(s).visible_fields.len() == s.visible_fields.len(),
        confirmed(s).active_field == s.active_field,
        confirmed(s).visible_fields.len() == s.visible_fields.len(),
        !s.is_editing ==> typed(s, c) == s && erased(s) == s && field_wiped(s) == s && confirmed(s)
            == s,
{
}

/// A clamped cursor is in range, and a cursor in range is left alone.
pub proof fn lemma_clamped_cursor(field: DetailField, count: nat)
    requires
        count <= usize::MAX,
    ensures
        cursor_in_range(clamped_cursor(field, count), count),
        cursor_in_range(field, count) ==> clamped_cursor(field, count) == field,
{
}

impl DetailEditState {
    /// The cursor stands on the title or on an existing visible field.
    pub open spec fn wf(&self) -> bool {
        cursor_in_range(self.active_field, self.visible_fields@.len())
    }

    /// A session for reading `item`: not editing, the cursor on the title.
    pub fn new_from_item(
        item: &WorkItem,
        controls: &Vec<LayoutControlEntry>,
        meta: &Vec<WorkItemFieldInfo>,
    ) -> (state: Self)
        ensures
            state.wf(),
            state@ == session_of(item@, controls.deep_view(), meta.deep_view(), false),
    {
        DetailEditState {
            is_editing: false,
            active_field: DetailField::Title,
            item_id: item.id,
            title: item.title.clone(),
            visible_fields: build_visible_fields(item, controls, meta),
        }
    }

    /// A session for editing `item`: editing, the cursor on the title.
    pub fn begin_edit(
        item: &WorkItem,
        controls: &Vec<LayoutControlEntry>,
        meta: &Vec<WorkItemFieldInfo>,
    ) -> (state: Self)
        ensures
            state.wf(),
            state@ == session_of(item@, controls.deep_view(), meta.deep_view(), true),
    {
        let mut state = DetailEditState::new_from_item(item, controls, meta);
        state.is_editing = true;
        state
    }

    /// Builds the buffers anew from `item` and ends editing. The cursor
    /// stays where it was, brought back into range.
    pub fn rebuild(
        &mut self,
        item: &WorkItem,
        controls: &Vec<LayoutControlEntry>,
        meta: &Vec<WorkItemFieldInfo>,
    )
        ensures
            final(self).wf(),
            final(self)@ == (EditSessionView {
                active_field: clamped_cursor(
                    old(self)@.active_field,
                    visible_fields(item@, controls.deep_view(), meta.deep_view()).len(),
                ),
                ..session_of(item@, controls.deep_view(), meta.deep_view(), false)
            }),
    {
        self.is_editing = false;
        self.item_id = item.id;
        self.title = item.title.clone();
        self.visible_fields = build_visible_fields(item, controls, meta);
        self.clamp_active_field();
    }

    /// Brings the cursor back into range.
    pub fn clamp_active_field(&mut self)
        ensures
            final(self).wf(),
            final(self)@ == (EditSessionView {
                active_field: clamped_cursor(
                    old(self)@.active_field,
                    old(self)@.visible_fields.len(),
                ),
                ..old(self)@
            }),
    {
        let count = self.visible_fields.len();
        match self.active_field {
            DetailField::Title => {},
            DetailField::Dynamic(i) => {
                if i >= count {
                    if count == 0 {
                        self.active_field = DetailField::Title;
                    } else {
                        self.active_field = DetailField::Dynamic(count - 1);
                    }
                }
            },
        }
    }

    /// Moves the cursor to the next field of the ring, while editing.
    pub fn next_field(&mut self)
        ensures
            final(self).wf(),
            final(self)@ == (EditSessionView {
                active_field: if old(self)@.is_editing {
                    next_cursor(old(self)@.active_field, old(self)@.visible_fields.len())
                } else {
                    clamped_cursor(old(self)@.active_field, old(self)@.visible_fields.len())
                },
                ..old(self)@
            }),
    {
        if !self.is_editing {
            self.clamp_active_field();
            return ;
        }
        let count = self.visible_fields.len();
        self.active_field = match self.active_field {
            DetailField::Title => if count > 0 {
                DetailField::Dynamic(0)
            } else {
                DetailField::Title
            },
            DetailField::Dynamic(i) => if i < count && i + 1 < count {
                DetailField::Dynamic(i + 1)
            } else {
                DetailField::Title
            },
        };
    }

    /// Moves the cursor to the previous field of the ring, while editing.
    pub fn previous_field(&mut self)
        ensures
            final(self).wf(),
            final(self)@ == (EditSessionView {
                active_field: if old(self)@.is_editing {
                    previous_cursor(old(self)@.active_field, old(self)@.visible_fields.len())
                } else {
                    clamped_cursor(old(self)@.active_field, old(self)@.visible_fields.len())
                },
                ..old(self)@
            }),
    {
        if !self.is_editing {
            self.clamp_active_field();
            return ;
        }
        let count = self.visible_fields.len();
        self.active_field = match self.active_field {
            DetailField::Title => if count > 0 {
                DetailField::Dynamic(count - 1)
            } else {
                DetailField::Title
            },
            DetailField::Dynamic(i) => if i == 0 || count == 0 {
                DetailField::Title
            } else if i - 1 < count {
                DetailField::Dynamic(i - 1)
            } else {
                DetailField::Dynamic(count - 1)
            },
        };
    }

    /// Takes a typed character: into the title, into the value of the
    /// visible field under the cursor, or as one step on in that field's
    /// picker. Nothing changes while the session is not editing.
    pub fn type_char(&mut self, c: char)
        ensures
            final(self)@ == typed(old(self)@, c),
    {
        if !self.is_editing {
            return ;
        }
        match self.active_field {
            DetailField::Title => {
                self.title.push(c);
            },
            DetailField::Dynamic(i) => {
                if i < self.visible_fields.len() {
                    let ghost before = self.visible_fields.deep_view();
                    let field = &mut self.visible_fields[i];
                    match &mut field.picker {
                        Some(p) => {
                            p.move_selection(1);
                        },
                        None => {
                            field.value.push(c);
                        },
                    }
                    assert(self.visible_fields.deep_view() =~= before.update(
                        i as int,
                        field_typed(before[i as int], c),
                    ));
                }
            },
        }
    }

    /// Takes a backspace: the title or the value under the cursor loses its
    /// last character, or the picker under the cursor goes one step back.
    pub fn backspace(&mut self)
        ensures
            final(self)@ == erased(old(self)@),
    {
        if !self.is_editing {
            return ;
        }
        match self.active_field {
            DetailField::Title => {
                self.title.pop();
            },
            DetailField::Dynamic(i) => {
                if i < self.visible_fields.len() {
                    let ghost before = self.visible_fields.deep_view();
                    let field = &mut self.visible_fields[i];
                    match &mut field.picker {
                        Some(p) => {
                            p.move_selection(-1);
                        },
                        None => {
                            field.value.pop();
                        },
                    }
                    assert(self.visible_fields.deep_view() =~= before.update(
                        i as int,
                        field_erased(before[i as int]),
                    ));
                }
            },
        }
    }

    /// Clears the field under the cursor: the title or the value becomes
    /// empty, or the picker under the cursor goes to its first option.
    pub fn clear_field(&mut self)
        ensures
            final(self)@ == field_wiped(old(self)@),
    {
        if !self.is_editing {
            return ;
        }
        match self.active_field {
            DetailField::Title => {
                self.title.clear();
            },
            DetailField::Dynamic(i) => {
                if i < self.visible_fields.len() {
                    let ghost before = self.visible_fields.deep_view();
                    let field = &mut self.visible_fields[i];
                    match &mut field.picker {
                        Some(p) => {
                            p.highlight_first();
                        },
                        None => {
                            field.value.clear();
                        },
                    }
                    assert(self.visible_fields.deep_view() =~= before.update(
                        i as int,
                        field_cleared(before[i as int]),
                    ));
                }
            },
        }
    }

    /// Commits the highlighted option of the picker under the cursor as the
    /// field's value.
    pub fn confirm_picker(&mut self)
        ensures
            final(self)@ == confirmed(old(self)@),
    {
        if !self.is_editing {
            return ;
        }
        match self.active_field {
            DetailField::Title => {},
            DetailField::Dynamic(i) => {
                if i < self.visible_fields.len() {
                    let ghost before = self.visible_fields.deep_view();
                    let field = &mut self.visible_fields[i];
                    match &mut field.picker {
                        Some(p) => {
                            let chosen = match p.highlighted() {
                                Some(option) => Some(option.clone()),
                                None => None,
                            };
                            match chosen {
                                Some(option) => {
                                    field.value = option.clone();
                                    p.set_only_active(option);
                                },
                                None => {},
                            }
                        },
                        None => {},
                    }
                    assert(self.visible_fields.deep_view() =~= before.update(
                        i as int,
                        field_confirmed(before[i as int]),
                    ));
                }
            },
        }
    }

    /// Whether the field under the cursor has a picker.
    pub fn active_field_has_picker(&self) -> (r: bool)
        ensures
            r == match self@.active_field {
                DetailField::Dynamic(i) => i < self@.visible_fields.len()
                    && self@.visible_fields[i as int].picker is Some,
                DetailField::Title => false,
            },
    {
        match self.active_field {
            DetailField::Title => false,
            DetailField::Dynamic(i) => {
                if i < self.visible_fields.len() {
                    assert(self.visible_fields.deep_view()[i as int] == self.visible_fields@[i as int]@);
                    self.visible_fields[i].picker.is_some()
                } else {
                    false
                }
            },
        }
    }
}

} // verus!
