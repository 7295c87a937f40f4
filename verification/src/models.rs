//! Work items as the client holds them.

use vstd::prelude::*;
use crate::text::copy_texts;

verus! {

/// The value of one field of a work item, addressed by the field's reference name.
#[derive(Debug, PartialEq, Eq)]
pub struct FieldValue {
    pub reference_name: String,
    pub value: String,
}

/// The mathematical value of a [`FieldValue`].
pub struct FieldValueView {
    pub reference_name: Seq<char>,
    pub value: Seq<char>,
}

impl View for FieldValue {
    type V = FieldValueView;

    open spec fn view(&self) -> FieldValueView {
        FieldValueView { reference_name: self.reference_name@, value: self.value@ }
    }
}

impl DeepView for FieldValue {
    type V = FieldValueView;

    open spec fn deep_view(&self) -> FieldValueView {
        self@
    }
}

impl Clone for FieldValue {
    fn clone(&self) -> (r: Self)
        ensures
            r@ == self@,
    {
        FieldValue { reference_name: self.reference_name.clone(), value: self.value.clone() }
    }
}

/// The field of the detail view that has the cursor: the title, or one of
/// the visible fields by its position.
#[derive(Clone, Copy, Debug, PartialEq, Eq, Structural)]
pub enum DetailField {
    Title,
    Dynamic(usize),
}

/// One trackable unit of work.
#[derive(Debug, PartialEq, Eq)]
pub struct WorkItem {
    pub id: u32,
    pub title: String,
    pub assigned_to: String,
    pub state: String,
    pub work_item_type: String,
    pub description: String,
    pub acceptance_criteria: String,
    /// Field values by reference name. What the service sent holds every
    /// name once; should a name occur twice, the first occurrence counts.
    pub fields: Vec<FieldValue>,
}

/// No two fields carry the same reference name.
pub open spec fn field_names_unique(fields: Seq<FieldValueView>) -> bool {
    forall|i: int, j: int|
        0 <= i < j < fields.len() ==> fields[i].reference_name != fields[j].reference_name
}

/// The mathematical value of a [`WorkItem`].
pub struct WorkItemView {
    pub id: u32,
    pub title: Seq<char>,
    pub assigned_to: Seq<char>,
    pub state: Seq<char>,
    pub work_item_type: Seq<char>,
    pub description: Seq<char>,
    pub acceptance_criteria: Seq<char>,
    pub fields: Seq<FieldValueView>,
}

impl View for WorkItem {
    type V = WorkItemView;

    open spec fn view(&self) -> WorkItemView {
        WorkItemView {
            id: self.id,
            title: self.title@,
            assigned_to: self.assigned_to@,
            state: self.state@,
            work_item_type: self.work_item_type@,
            description: self.description@,
            acceptance_criteria: self.acceptance_criteria@,
            fields: self.fields.deep_view(),
        }
    }
}

impl WorkItem {
    /// The item holds every field once.
    pub open spec fn wf(&self) -> bool {
        field_names_unique(self@.fields)
    }
}

impl DeepView for WorkItem {
    type V = WorkItemView;

    open spec fn deep_view(&self) -> WorkItemView {
        self@
    }
}

impl Clone for WorkItem {
    fn clone(&self) -> (r: Self)
        ensures
            r@ == self@,
    {
        let fields = self.fields.clone();
        assert(fields.deep_view() =~= self.fields.deep_view());
        WorkItem {
            id: self.id,
            title: self.title.clone(),
            assigned_to: self.assigned_to.clone(),
            state: self.state.clone(),
            work_item_type: self.work_item_type.clone(),
            description: self.description.clone(),
            acceptance_criteria: self.acceptance_criteria.clone(),
            fields,
        }
    }
}

/// One visible control of a work-item type's layout: the reference name of
/// the field it edits and the label it is shown under.
#[derive(Debug, PartialEq, Eq)]
pub struct LayoutControlEntry {
    pub id: String,
    pub label: String,
}

/// The mathematical value of a [`LayoutControlEntry`].
pub struct LayoutControlView {
    pub id: Seq<char>,
    pub label: Seq<char>,
}

impl View for LayoutControlEntry {
    type V = LayoutControlView;

    open spec fn view(&self) -> LayoutControlView {
        LayoutControlView { id: self.id@, label: self.label@ }
    }
}

impl DeepView for LayoutControlEntry {
    type V = LayoutControlView;

    open spec fn deep_view(&self) -> LayoutControlView {
        self@
    }
}

impl Clone for LayoutControlEntry {
    fn clone(&self) -> (r: Self)
        ensures
            r@ == self@,
    {
        LayoutControlEntry { id: self.id.clone(), label: self.label.clone() }
    }
}

/// What is known of one field of a work-item type: its reference name and
/// the values it may take. A field without enumerated values has none.
#[derive(Debug, PartialEq, Eq)]
pub struct WorkItemFieldInfo {
    pub reference_name: String,
    pub allowed_values: Vec<String>,
}

/// The mathematical value of a [`WorkItemFieldInfo`].
pub struct FieldInfoView {
    pub reference_name: Seq<char>,
    pub allowed_values: Seq<Seq<char>>,
}

impl View for WorkItemFieldInfo {
    type V = FieldInfoView;

    open spec fn view(&self) -> FieldInfoView {
        FieldInfoView {
            reference_name: self.reference_name@,
            allowed_values: self.allowed_values.deep_view(),
        }
    }
}

impl DeepView for WorkItemFieldInfo {
    type V = FieldInfoView;

    open spec fn deep_view(&self) -> FieldInfoView {
        self@
    }
}

impl Clone for WorkItemFieldInfo {
    fn clone(&self) -> (r: Self)
        ensures
            r@ == self@,
    {
        WorkItemFieldInfo {
            reference_name: self.reference_name.clone(),
            allowed_values: copy_texts(&self.allowed_values),
        }
    }
}

/// A copy of a list of work items.
pub fn copy_items(items: &Vec<WorkItem>) -> (r: Vec<WorkItem>)
    ensures
        r.deep_view() == items.deep_view(),
{
    let r = items.clone();
    assert(r.deep_view() =~= items.deep_view());
    r
}

/// A copy of a list of layout controls.
pub fn copy_controls(controls: &Vec<LayoutControlEntry>) -> (r: Vec<LayoutControlEntry>)
    ensures
        r.deep_view() == controls.deep_view(),
{
    let r = controls.clone();
    assert(r.deep_view() =~= controls.deep_view());
    r
}

/// A copy of a list of field descriptions.
pub fn copy_field_infos(fields: &Vec<WorkItemFieldInfo>) -> (r: Vec<WorkItemFieldInfo>)
    ensures
        r.deep_view() == fields.deep_view(),
{
    let r = fields.clone();
    assert(r.deep_view() =~= fields.deep_view());
    r
}

} // verus!
