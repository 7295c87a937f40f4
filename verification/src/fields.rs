//! Visible fields: what the detail view shows of one work item, built from
//! the item, the layout of its type and the field metadata of its type.

use vstd::prelude::*;
use crate::models::{
    FieldInfoView,
    FieldValue,
    FieldValueView,
    LayoutControlEntry,
    LayoutControlView,
    WorkItem,
    WorkItemFieldInfo,
    WorkItemView,
};
use crate::picker::{PickerState, PickerView};
use crate::text::{copy_texts, distinct_texts, same_text};

verus! {

/// One field of the detail view: a layout control filled with the item's
/// value. It has a picker exactly when the field has allowed values.
#[derive(Debug)]
pub struct VisibleField {
    pub label: String,
    pub reference_name: String,
    pub value: String,
    pub picker: Option<PickerState>,
}

/// The mathematical value of a [`VisibleField`].
pub struct VisibleFieldView {
    pub label: Seq<char>,
    pub reference_name: Seq<char>,
    pub value: Seq<char>,
    pub picker: Option<PickerView>,
}

impl View for VisibleField {
    type V = VisibleFieldView;

    open spec fn view(&self) -> VisibleFieldView {
        VisibleFieldView {
            label: self.label@,
            reference_name: self.reference_name@,
            value: self.value@,
            picker: match self.picker {
                Some(p) => Some(p@),
                None => None,
            },
        }
    }
}

impl DeepView for VisibleField {
    type V = VisibleFieldView;

    open spec fn deep_view(&self) -> VisibleFieldView {
        self@
    }
}

impl Clone for VisibleField {
    fn clone(&self) -> (r: Self)
        ensures
            r@ == self@,
    {
        VisibleField {
            label: self.label.clone(),
            reference_name: self.reference_name.clone(),
            value: self.value.clone(),
            picker: match &self.picker {
                Some(p) => Some(p.clone()),
                None => None,
            },
        }
    }
}

/// The value that `fields` holds under `name`: that of the first field of
/// that name.
pub open spec fn field_value_of(fields: Seq<FieldValueView>, name: Seq<char>) -> Option<Seq<char>>
    decreases fields.len(),
{
    if fields.len() == 0 {
        None
    } else if fields[0].reference_name == name {
        Some(fields[0].value)
    } else {
        field_value_of(fields.drop_first(), name)
    }
}

/// The allowed values that `meta` gives for the field `name`: those of the
/// first description of that name.
pub open spec fn allowed_values_of(meta: Seq<FieldInfoView>, name: Seq<char>) -> Option<
    Seq<Seq<char>>,
>
    decreases meta.len(),
{
    if meta.len() == 0 {
        None
    } else if meta[0].reference_name == name {
        Some(meta[0].allowed_values)
    } else {
        allowed_values_of(meta.drop_first(), name)
    }
}

/// The first position of `value` in `options`, or their number where it
/// does not occur.
pub open spec fn position_in(options: Seq<Seq<char>>, value: Seq<char>) -> nat
    decreases options.len(),
{
    if options.len() == 0 {
        0
    } else if options[0] == value {
        0
    } else {
        1 + position_in(options.drop_first(), value)
    }
}

/// The picker of a field with the given allowed values and current value:
/// none where there are no allowed values; else a closed picker over them,
/// each once, whose only active value is the current one and whose
/// highlight stands on the current value, or on the first option where the
/// current value is none of them.
pub open spec fn field_picker(value: Seq<char>, allowed: Option<Seq<Seq<char>>>) -> Option<
    PickerView,
> {
    match allowed {
        Some(values) => if values.len() == 0 {
            None
        } else {
            let options = distinct_texts(values);
            Some(
                PickerView {
                    options,
                    selected: if position_in(options, value) < options.len() {
                        Some(position_in(options, value) as usize)
                    } else {
                        Some(0usize)
                    },
                    active: set![value],
                    is_open: false,
                },
            )
        },
        None => None,
    }
}

/// The visible field for a control, a value and the allowed values.
pub open spec fn visible_field(
    label: Seq<char>,
    reference_name: Seq<char>,
    value: Seq<char>,
    allowed: Option<Seq<Seq<char>>>,
) -> VisibleFieldView {
    VisibleFieldView { label, reference_name, value, picker: field_picker(value, allowed) }
}

/// The visible fields of an item: one for each control of the layout whose
/// field the item has, in the order of the layout.
pub open spec fn visible_fields(
    item: WorkItemView,
    controls: Seq<LayoutControlView>,
    meta: Seq<FieldInfoView>,
) -> Seq<VisibleFieldView>
    decreases controls.len(),
{
    if controls.len() == 0 {
        Seq::empty()
    } else {
        let before = visible_fields(item, controls.drop_last(), meta);
        let control = controls.last();
        match field_value_of(item.fields, control.id) {
            Some(value) => before.push(
                visible_field(control.label, control.id, value, allowed_values_of(meta, control.id)),
            ),
            None => before,
        }
    }
}

/// `position_in` is the first position of the value.
pub proof fn lemma_position_in(options: Seq<Seq<char>>, value: Seq<char>, i: int)
    requires
        0 <= i <= options.len(),
        forall|j: int| 0 <= j < i ==> options[j] != value,
        i < options.len() ==> options[i] == value,
    ensures
        position_in(options, value) == i,
    decreases i,
{
    if i > 0 {
        let rest = options.drop_first();
        assert forall|j: int| 0 <= j < i - 1 implies rest[j] != value by {
            assert(rest[j] == options[j + 1]);
        }
        lemma_position_in(rest, value, i - 1);
    }
}

/// The value of the field `name` of an item, if the item has that field.
pub fn lookup_field<'a>(fields: &'a Vec<FieldValue>, name: &str) -> (r: Option<&'a String>)
    ensures
        match r {
            Some(value) => field_value_of(fields.deep_view(), name@) == Some(value@),
            None => field_value_of(fields.deep_view(), name@) is None,
        },
{
    let ghost all = fields.deep_view();
    let mut i: usize = 0;
    assert(all.skip(0) =~= all);
    while i < fields.len()
        invariant
            i <= fields@.len(),
            all == fields.deep_view(),
            field_value_of(all, name@) == field_value_of(all.skip(i as int), name@),
        decreases fields@.len() - i,
    {
        assert(all.skip(i as int).drop_first() =~= all.skip(i as int + 1));
        assert(all.skip(i as int)[0] == fields@[i as int]@);
        if same_text(fields[i].reference_name.as_str(), name) {
            return Some(&fields[i].value);
        }
        i += 1;
    }
    None
}

/// The allowed values that `meta` gives for the field `name`.
pub fn lookup_allowed_values<'a>(meta: &'a Vec<WorkItemFieldInfo>, name: &str) -> (r: Option<
    &'a Vec<String>,
>)
    ensures
        match r {
            Some(values) => allowed_values_of(meta.deep_view(), name@) == Some(values.deep_view()),
            None => allowed_values_of(meta.deep_view(), name@) is None,
        },
{
    let ghost all = meta.deep_view();
    let mut i: usize = 0;
    assert(all.skip(0) =~= all);
    while i < meta.len()
        invariant
            i <= meta@.len(),
            all == meta.deep_view(),
            allowed_values_of(all, name@) == allowed_values_of(all.skip(i as int), name@),
        decreases meta@.len() - i,
    {
        assert(all.skip(i as int).drop_first() =~= all.skip(i as int + 1));
        assert(all.skip(i as int)[0] == meta@[i as int]@);
        if same_text(meta[i].reference_name.as_str(), name) {
            return Some(&meta[i].allowed_values);
        }
        i += 1;
    }
    None
}

impl VisibleField {
    /// The visible field for a control, a value and the allowed values.
    pub fn with_value(
        label: String,
        reference_name: String,
        value: String,
        allowed_values: Option<Vec<String>>,
    ) -> (field: Self)
        ensures
            field@ == visible_field(
                label@,
                reference_name@,
                value@,
                allowed_values.deep_view(),
            ),
    {
        let picker = match allowed_values {
            Some(values) => {
                if values.len() == 0 {
                    None
                } else {
                    assert(values.deep_view().len() == values@.len());
                    let mut picker = PickerState::new(values);
                    let options = &picker.options;
                    picker.selected = match crate::text::position_of(options, value.as_str()) {
                        Some(i) => {
                            proof {
                                assert forall|j: int| 0 <= j < i implies options.deep_view()[j]
                                    != value@ by {
                                    assert(options@[j]@ != value@);
                                }
                                assert(options.deep_view()[i as int] == options@[i as int]@);
                                lemma_position_in(options.deep_view(), value@, i as int);
                            }
                            Some(i)
                        },
                        None => {
                            proof {
                                assert forall|j: int|
                                    0 <= j < options.deep_view().len() implies options.deep_view()[j]
                                    != value@ by {
                                    assert(options@[j]@ != value@);
                                }
                                lemma_position_in(
                                    options.deep_view(),
                                    value@,
                                    options.deep_view().len() as int,
                                );
                            }
                            Some(0)
                        },
                    };
                    picker.set_only_active(value.clone());
                    Some(picker)
                }
            },
            None => None,
        };
        VisibleField { label, reference_name, value, picker }
    }
}

/// Builds the visible fields of an item from the layout and the field
/// metadata of its type.
pub fn build_visible_fields(
    item: &WorkItem,
    controls: &Vec<LayoutControlEntry>,
    meta: &Vec<WorkItemFieldInfo>,
) -> (r: Vec<VisibleField>)
    ensures
        r.deep_view() == visible_fields(item@, controls.deep_view(), meta.deep_view()),
{
    let ghost all = controls.deep_view();
    let mut r: Vec<VisibleField> = Vec::new();
    let mut i: usize = 0;
    assert(all.take(0) =~= Seq::<LayoutControlView>::empty());
    assert(r.deep_view() =~= Seq::<VisibleFieldView>::empty());
    while i < controls.len()
        invariant
            i <= controls@.len(),
            all == controls.deep_view(),
            r.deep_view() == visible_fields(item@, all.take(i as int), meta.deep_view()),
        decreases controls@.len() - i,
    {
        let control = &controls[i];
        assert(all.take(i as int + 1).drop_last() =~= all.take(i as int));
        assert(all.take(i as int + 1).last() == control@);
        let ghost before = r.deep_view();
        match lookup_field(&item.fields, control.id.as_str()) {
            Some(value) => {
                let allowed = match lookup_allowed_values(meta, control.id.as_str()) {
                    Some(values) => Some(copy_texts(values)),
                    None => None,
                };
                let field = VisibleField::with_value(
                    control.label.clone(),
                    control.id.clone(),
                    value.clone(),
                    allowed,
                );
                r.push(field);
                assert(r.deep_view() =~= before.push(field@));
            },
            None => {},
        }
        i += 1;
    }
    assert(all.take(i as int) =~= all);
    r
}

/// A copy of a list of visible fields.
pub fn copy_visible_fields(fields: &Vec<VisibleField>) -> (r: Vec<VisibleField>)
    ensures
        r.deep_view() == fields.deep_view(),
{
    let r = fields.clone();
    assert(r.deep_view() =~= fields.deep_view());
    r
}

} // verus!
