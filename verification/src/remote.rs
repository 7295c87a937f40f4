//! Work items as the service sends them, and what the client makes of them.

use vstd::prelude::*;
use crate::markup::{clean_ado_text, cleaned};
use crate::metadata::{TypeName, TypeNameView};
use crate::save::{lemma_with_field_names, set_field, with_field};
use crate::models::{
    field_names_unique,
    FieldInfoView,
    FieldValue,
    FieldValueView,
    LayoutControlEntry,
    LayoutControlView,
    WorkItem,
    WorkItemFieldInfo,
    WorkItemView,
};
use crate::text::{copy_texts, join_texts, joined, same_text, signed_number_text, signed_text};

verus! {

/// The value of one field as the service sends it.
#[derive(Debug, PartialEq, Eq)]
pub enum RemoteValue {
    /// A text.
    Text(String),
    /// A number or a flag, handed over as its text. It is a value to show,
    /// but it is no text: where a text is asked for, it reads as none.
    Scalar(String),
    /// A person, with the display name where the service gave one.
    Identity(Option<String>),
    /// Anything else.
    Other,
}

/// The mathematical value of a [`RemoteValue`].
pub enum RemoteValueView {
    Text(Seq<char>),
    Scalar(Seq<char>),
    Identity(Option<Seq<char>>),
    Other,
}

impl View for RemoteValue {
    type V = RemoteValueView;

    open spec fn view(&self) -> RemoteValueView {
        match self {
            RemoteValue::Text(s) => RemoteValueView::Text(s@),
            RemoteValue::Scalar(s) => RemoteValueView::Scalar(s@),
            RemoteValue::Identity(Some(name)) => RemoteValueView::Identity(Some(name@)),
            RemoteValue::Identity(None) => RemoteValueView::Identity(None),
            RemoteValue::Other => RemoteValueView::Other,
        }
    }
}

/// One field of a work item as the service sends it.
#[derive(Debug, PartialEq, Eq)]
pub struct RemoteField {
    pub name: String,
    pub value: RemoteValue,
}

/// The mathematical value of a [`RemoteField`].
pub struct RemoteFieldView {
    pub name: Seq<char>,
    pub value: RemoteValueView,
}

impl View for RemoteField {
    type V = RemoteFieldView;

    open spec fn view(&self) -> RemoteFieldView {
        RemoteFieldView { name: self.name@, value: self.value@ }
    }
}

impl DeepView for RemoteField {
    type V = RemoteFieldView;

    open spec fn deep_view(&self) -> RemoteFieldView {
        self@
    }
}

/// A work item as the service sends it.
#[derive(Debug, PartialEq, Eq)]
pub struct RemoteWorkItem {
    pub id: i32,
    pub fields: Vec<RemoteField>,
}

/// The mathematical value of a [`RemoteWorkItem`].
pub struct RemoteWorkItemView {
    pub id: i32,
    pub fields: Seq<RemoteFieldView>,
}

impl View for RemoteWorkItem {
    type V = RemoteWorkItemView;

    open spec fn view(&self) -> RemoteWorkItemView {
        RemoteWorkItemView { id: self.id, fields: self.fields.deep_view() }
    }
}

impl DeepView for RemoteWorkItem {
    type V = RemoteWorkItemView;

    open spec fn deep_view(&self) -> RemoteWorkItemView {
        self@
    }
}

/// The value of the first field named `name`.
pub open spec fn remote_value_of(fields: Seq<RemoteFieldView>, name: Seq<char>) -> Option<
    RemoteValueView,
>
    decreases fields.len(),
{
    if fields.len() == 0 {
        None
    } else if fields[0].name == name {
        Some(fields[0].value)
    } else {
        remote_value_of(fields.drop_first(), name)
    }
}

/// The cleaned text of the field `name`; empty where the item has no such
/// field or the field holds no text.
pub open spec fn text_field(fields: Seq<RemoteFieldView>, name: Seq<char>) -> Seq<char> {
    match remote_value_of(fields, name) {
        Some(RemoteValueView::Text(s)) => cleaned(s),
        _ => Seq::empty(),
    }
}

/// The display name of the person an item is assigned to; `Unassigned`
/// where the service names none.
pub open spec fn assignee(fields: Seq<RemoteFieldView>) -> Seq<char> {
    match remote_value_of(fields, "System.AssignedTo"@) {
        Some(RemoteValueView::Identity(Some(name))) => name,
        _ => "Unassigned"@,
    }
}

/// What a field is shown as: a text cleaned, a person by the display name;
/// nothing for a person without a name and for any other value.
pub open spec fn shown_value(value: RemoteValueView) -> Option<Seq<char>> {
    match value {
        RemoteValueView::Text(s) => Some(cleaned(s)),
        RemoteValueView::Scalar(s) => Some(s),
        RemoteValueView::Identity(Some(name)) => Some(name),
        _ => None,
    }
}

/// The fields of an item that can be shown, in the order of the service,
/// every name once: should the service send a name twice, the later value
/// takes the place of the earlier.
pub open spec fn shown_fields(fields: Seq<RemoteFieldView>) -> Seq<FieldValueView>
    decreases fields.len(),
{
    if fields.len() == 0 {
        Seq::empty()
    } else {
        let before = shown_fields(fields.drop_last());
        match shown_value(fields.last().value) {
            Some(value) => with_field(before, fields.last().name, value),
            None => before,
        }
    }
}

/// The fields that can be shown hold every name once.
pub proof fn lemma_shown_fields_unique(fields: Seq<RemoteFieldView>)
    ensures
        field_names_unique(shown_fields(fields)),
    decreases fields.len(),
{
    if fields.len() > 0 {
        lemma_shown_fields_unique(fields.drop_last());
        match shown_value(fields.last().value) {
            Some(value) => {
                lemma_with_field_names(shown_fields(fields.drop_last()), fields.last().name, value);
            },
            None => {},
        }
    }
}

/// The id of an item as the client holds it: the service's number, counted
/// from 2^32 downwards where it is negative.
pub open spec fn client_id(id: i32) -> u32 {
    if id >= 0 {
        id as u32
    } else {
        (id + 0x1_0000_0000) as u32
    }
}

/// The work item that the client makes of what the service sent.
pub open spec fn work_item_of(remote: RemoteWorkItemView) -> WorkItemView {
    WorkItemView {
        id: client_id(remote.id),
        title: text_field(remote.fields, "System.Title"@),
        assigned_to: assignee(remote.fields),
        state: text_field(remote.fields, "System.State"@),
        work_item_type: text_field(remote.fields, "System.WorkItemType"@),
        description: text_field(remote.fields, "System.Description"@),
        acceptance_criteria: text_field(
            remote.fields,
            "Microsoft.VSTS.Common.AcceptanceCriteria"@,
        ),
        fields: shown_fields(remote.fields),
    }
}

/// The value of the first field named `name`.
fn find_remote_value<'a>(fields: &'a Vec<RemoteField>, name: &str) -> (r: Option<&'a RemoteValue>)
    ensures
        match r {
            Some(value) => remote_value_of(fields.deep_view(), name@) == Some(value@),
            None => remote_value_of(fields.deep_view(), name@) is None,
        },
{
    let ghost all = fields.deep_view();
    let mut i: usize = 0;
    assert(all.skip(0) =~= all);
    while i < fields.len()
        invariant
            i <= fields@.len(),
            all == fields.deep_view(),
            remote_value_of(all, name@) == remote_value_of(all.skip(i as int), name@),
        decreases fields@.len() - i,
    {
        assert(all.skip(i as int).drop_first() =~= all.skip(i as int + 1));
        assert(all.skip(i as int)[0] == fields@[i as int]@);
        if same_text(fields[i].name.as_str(), name) {
            return Some(&fields[i].value);
        }
        i += 1;
    }
    None
}

/// The cleaned text of the field `name`.
fn get_and_clean_field(fields: &Vec<RemoteField>, name: &str) -> (r: String)
    ensures
        r@ == text_field(fields.deep_view(), name@),
{
    match find_remote_value(fields, name) {
        Some(RemoteValue::Text(s)) => clean_ado_text(s.as_str()),
        _ => String::new(),
    }
}

impl WorkItem {
    /// Makes the client's work item of what the service sent. A field that
    /// is missing or holds no text reads as empty; an item that is assigned
    /// to nobody reads as `Unassigned`.
    pub fn from_remote(remote: &RemoteWorkItem) -> (item: WorkItem)
        ensures
            item@ == work_item_of(remote@),
            item.wf(),
    {
        proof {
            lemma_shown_fields_unique(remote@.fields);
        }
        let assigned_to = match find_remote_value(&remote.fields, "System.AssignedTo") {
            Some(RemoteValue::Identity(Some(name))) => name.clone(),
            _ => String::from_str("Unassigned"),
        };
        let ghost all = remote.fields.deep_view();
        let mut fields: Vec<FieldValue> = Vec::new();
        let mut i: usize = 0;
        assert(all.take(0) =~= Seq::<RemoteFieldView>::empty());
        assert(fields.deep_view() =~= Seq::<FieldValueView>::empty());
        while i < remote.fields.len()
            invariant
                i <= remote.fields@.len(),
                all == remote.fields.deep_view(),
                fields.deep_view() == shown_fields(all.take(i as int)),
            decreases remote.fields@.len() - i,
        {
            assert(all.take(i as int + 1).drop_last() =~= all.take(i as int));
            assert(all.take(i as int + 1).last() == remote.fields@[i as int]@);
            let ghost before = fields.deep_view();
            let field = &remote.fields[i];
            let shown = match &field.value {
                RemoteValue::Text(s) => Some(clean_ado_text(s.as_str())),
                RemoteValue::Scalar(s) => Some(s.clone()),
                RemoteValue::Identity(Some(name)) => Some(name.clone()),
                _ => None,
            };
            match shown {
                Some(value) => {
                    set_field(&mut fields, field.name.as_str(), value.as_str());
                },
                None => {},
            }
            i += 1;
        }
        assert(all.take(i as int) =~= all);
        WorkItem {
            id: to_client_id(remote.id),
            title: get_and_clean_field(&remote.fields, "System.Title"),
            assigned_to,
            state: get_and_clean_field(&remote.fields, "System.State"),
            work_item_type: get_and_clean_field(&remote.fields, "System.WorkItemType"),
            description: get_and_clean_field(&remote.fields, "System.Description"),
            acceptance_criteria: get_and_clean_field(
                &remote.fields,
                "Microsoft.VSTS.Common.AcceptanceCriteria",
            ),
            fields,
        }
    }
}

/// The id of an item as the client holds it.
pub fn to_client_id(id: i32) -> (r: u32)
    ensures
        r == client_id(id),
{
    if id >= 0 {
        id as u32
    } else {
        let low: u32 = (id + 0x7fff_ffff + 1) as u32;
        low + 0x8000_0000u32
    }
}

/// Makes the client's work items of what the service sent, in order.
pub fn items_from_remote(remote: &Vec<RemoteWorkItem>) -> (items: Vec<WorkItem>)
    ensures
        items.deep_view() == Seq::new(remote@.len(), |i: int| work_item_of(remote@[i]@)),
        forall|i: int| 0 <= i < items@.len() ==> (#[trigger] items@[i]).wf(),
{
    let mut items: Vec<WorkItem> = Vec::new();
    let mut i: usize = 0;
    while i < remote.len()
        invariant
            i <= remote@.len(),
            items@.len() == i,
            forall|k: int| 0 <= k < i ==> items@[k]@ == work_item_of(remote@[k]@),
            forall|k: int| 0 <= k < i ==> (#[trigger] items@[k]).wf(),
        decreases remote@.len() - i,
    {
        items.push(WorkItem::from_remote(&remote[i]));
        i += 1;
    }
    assert(items.deep_view() =~= Seq::new(remote@.len(), |i: int| work_item_of(remote@[i]@)));
    items
}

/// The backlog level whose items a backlog source shows.
pub const BACKLOG_LEVEL: &'static str = "Microsoft.RequirementCategory";

/// An iteration of a team as the service lists it.
#[derive(Debug, PartialEq, Eq)]
pub struct IterationInfo {
    pub id: Option<String>,
    pub name: Option<String>,
    pub path: Option<String>,
}

/// The mathematical value of an [`IterationInfo`].
pub struct IterationInfoView {
    pub id: Option<Seq<char>>,
    pub name: Option<Seq<char>>,
    pub path: Option<Seq<char>>,
}

impl View for IterationInfo {
    type V = IterationInfoView;

    open spec fn view(&self) -> IterationInfoView {
        IterationInfoView {
            id: self.id.deep_view(),
            name: self.name.deep_view(),
            path: self.path.deep_view(),
        }
    }
}

impl DeepView for IterationInfo {
    type V = IterationInfoView;

    open spec fn deep_view(&self) -> IterationInfoView {
        self@
    }
}

/// Whether an iteration is the wanted one: by its path or by its name.
pub open spec fn iteration_matches(iteration: IterationInfoView, wanted: Seq<char>) -> bool {
    iteration.path == Some(wanted) || iteration.name == Some(wanted)
}

/// The id of the first iteration that matches; none where no iteration
/// matches or the first that does has no id.
pub open spec fn matched_iteration_id(
    iterations: Seq<IterationInfoView>,
    wanted: Seq<char>,
) -> Option<Seq<char>>
    decreases iterations.len(),
{
    if iterations.len() == 0 {
        None
    } else if iteration_matches(iterations[0], wanted) {
        iterations[0].id
    } else {
        matched_iteration_id(iterations.drop_first(), wanted)
    }
}

/// Whether an optional text is the given text.
fn holds_text(text: &Option<String>, wanted: &str) -> (r: bool)
    ensures
        r == (text.deep_view() == Some(wanted@)),
{
    match text {
        Some(t) => same_text(t.as_str(), wanted),
        None => false,
    }
}

/// Picks the iteration that a source names, by path or by name, out of the
/// iterations of its team, and returns its id.
pub fn match_iteration(iterations: &Vec<IterationInfo>, wanted: &str) -> (id: Option<String>)
    ensures
        id.deep_view() == matched_iteration_id(iterations.deep_view(), wanted@),
{
    let ghost all = iterations.deep_view();
    let mut i: usize = 0;
    assert(all.skip(0) =~= all);
    while i < iterations.len()
        invariant
            i <= iterations@.len(),
            all == iterations.deep_view(),
            matched_iteration_id(all, wanted@) == matched_iteration_id(all.skip(i as int), wanted@),
        decreases iterations@.len() - i,
    {
        assert(all.skip(i as int).drop_first() =~= all.skip(i as int + 1));
        assert(all.skip(i as int)[0] == iterations@[i as int]@);
        let iteration = &iterations[i];
        if holds_text(&iteration.path, wanted) || holds_text(&iteration.name, wanted) {
            return match &iteration.id {
                Some(id) => Some(id.clone()),
                None => None,
            };
        }
        i += 1;
    }
    None
}

/// What is said where no iteration matches.
pub open spec fn iteration_not_found_text(team: Seq<char>, wanted: Seq<char>) -> Seq<char> {
    "Iteration not found for team '"@ + team + "' and path or name '"@ + wanted + "'"@
}

/// What is said where no iteration matches.
pub fn iteration_not_found(team: &str, wanted: &str) -> (message: String)
    ensures
        message@ == iteration_not_found_text(team@, wanted@),
{
    let mut message = String::from_str("Iteration not found for team '");
    message.append(team);
    message.append("' and path or name '");
    message.append(wanted);
    message.append("'");
    message
}

/// The ids that are there, in order.
pub open spec fn present_ids(targets: Seq<Option<i32>>) -> Seq<i32>
    decreases targets.len(),
{
    if targets.len() == 0 {
        Seq::empty()
    } else {
        match targets.last() {
            Some(id) => present_ids(targets.drop_last()).push(id),
            None => present_ids(targets.drop_last()),
        }
    }
}

/// The ids of the items that a list of links points to; a link without a
/// target or without an id is passed over.
pub fn linked_ids(targets: &Vec<Option<i32>>) -> (ids: Vec<i32>)
    ensures
        ids@ == present_ids(targets@),
{
    let mut ids: Vec<i32> = Vec::new();
    let mut i: usize = 0;
    assert(targets@.take(0) =~= Seq::<Option<i32>>::empty());
    while i < targets.len()
        invariant
            i <= targets@.len(),
            ids@ == present_ids(targets@.take(i as int)),
        decreases targets@.len() - i,
    {
        assert(targets@.take(i as int + 1).drop_last() =~= targets@.take(i as int));
        match targets[i] {
            Some(id) => {
                ids.push(id);
            },
            None => {},
        }
        i += 1;
    }
    assert(targets@.take(i as int) =~= targets@);
    ids
}

/// The ids as the service wants them in one request: in decimal, with
/// commas between them.
pub open spec fn id_list_text(ids: Seq<i32>) -> Seq<char> {
    joined(Seq::new(ids.len(), |i: int| signed_text(ids[i] as int)), ","@)
}

/// The ids as the service wants them in one request.
pub fn join_ids(ids: &Vec<i32>) -> (text: String)
    ensures
        text@ == id_list_text(ids@),
{
    let mut parts: Vec<String> = Vec::new();
    let mut i: usize = 0;
    while i < ids.len()
        invariant
            i <= ids@.len(),
            parts@.len() == i,
            forall|k: int| 0 <= k < i ==> parts@[k]@ == signed_text(ids@[k] as int),
        decreases ids@.len() - i,
    {
        parts.push(signed_number_text(ids[i]));
        i += 1;
    }
    assert(parts.deep_view() =~= Seq::new(ids@.len(), |i: int| signed_text(ids@[i] as int)));
    join_texts(&parts, ",")
}

/// A control of a layout as the service sends it.
#[derive(Debug, PartialEq, Eq)]
pub struct RemoteControl {
    pub id: Option<String>,
    pub label: Option<String>,
    pub visible: Option<bool>,
}

/// The mathematical value of a [`RemoteControl`].
pub struct RemoteControlView {
    pub id: Option<Seq<char>>,
    pub label: Option<Seq<char>>,
    pub visible: Option<bool>,
}

impl View for RemoteControl {
    type V = RemoteControlView;

    open spec fn view(&self) -> RemoteControlView {
        RemoteControlView {
            id: self.id.deep_view(),
            label: self.label.deep_view(),
            visible: self.visible,
        }
    }
}

impl DeepView for RemoteControl {
    type V = RemoteControlView;

    open spec fn deep_view(&self) -> RemoteControlView {
        self@
    }
}

/// A layout as the service sends it: pages of sections of groups of controls.
#[derive(Debug, PartialEq, Eq)]
pub struct RemoteLayout {
    pub pages: Vec<Vec<Vec<Vec<RemoteControl>>>>,
}

/// The entry of the layout for a control: none for a control that is not
/// marked visible or has no id; the label is the id where the control has
/// no label.
pub open spec fn control_entry(control: RemoteControlView) -> Option<LayoutControlView> {
    if control.visible == Some(true) && control.id is Some {
        Some(
            LayoutControlView {
                id: control.id->0,
                label: match control.label {
                    Some(label) => label,
                    None => control.id->0,
                },
            },
        )
    } else {
        None
    }
}

/// The entries of the visible controls of one group, in order.
pub open spec fn group_entries(controls: Seq<RemoteControlView>) -> Seq<LayoutControlView>
    decreases controls.len(),
{
    if controls.len() == 0 {
        Seq::empty()
    } else {
        match control_entry(controls.last()) {
            Some(entry) => group_entries(controls.drop_last()).push(entry),
            None => group_entries(controls.drop_last()),
        }
    }
}

/// The entries of the visible controls of the groups of one section, group
/// after group.
pub open spec fn section_entries(groups: Seq<Seq<RemoteControlView>>) -> Seq<LayoutControlView>
    decreases groups.len(),
{
    if groups.len() == 0 {
        Seq::empty()
    } else {
        section_entries(groups.drop_last()) + group_entries(groups.last())
    }
}

/// The visible controls of a layout: those of the first section of the
/// first page; none where there is no such section.
pub open spec fn layout_entries(pages: Seq<Seq<Seq<Seq<RemoteControlView>>>>) -> Seq<
    LayoutControlView,
> {
    if pages.len() > 0 && pages[0].len() > 0 {
        section_entries(pages[0][0])
    } else {
        Seq::empty()
    }
}

/// The visible controls of a layout: those of the first section of the
/// first page, group after group.
pub fn visible_controls(layout: &RemoteLayout) -> (entries: Vec<LayoutControlEntry>)
    ensures
        entries.deep_view() == layout_entries(layout.pages.deep_view()),
{
    let mut entries: Vec<LayoutControlEntry> = Vec::new();
    assert(entries.deep_view() =~= Seq::<LayoutControlView>::empty());
    if layout.pages.len() == 0 {
        return entries;
    }
    let page = &layout.pages[0];
    assert(layout.pages.deep_view()[0] == page.deep_view());
    if page.len() == 0 {
        return entries;
    }
    let section = &page[0];
    assert(page.deep_view()[0] == section.deep_view());
    let ghost groups = section.deep_view();
    let mut g: usize = 0;
    assert(groups.take(0) =~= Seq::<Seq<RemoteControlView>>::empty());
    while g < section.len()
        invariant
            g <= section@.len(),
            groups == section.deep_view(),
            entries.deep_view() == section_entries(groups.take(g as int)),
        decreases section@.len() - g,
    {
        assert(groups.take(g as int + 1).drop_last() =~= groups.take(g as int));
        assert(groups.take(g as int + 1).last() == section@[g as int].deep_view());
        let group = &section[g];
        let ghost controls = group.deep_view();
        let ghost before = entries.deep_view();
        let mut c: usize = 0;
        assert(controls.take(0) =~= Seq::<RemoteControlView>::empty());
        assert(before + Seq::<LayoutControlView>::empty() =~= before);
        while c < group.len()
            invariant
                c <= group@.len(),
                controls == group.deep_view(),
                entries.deep_view() == before + group_entries(controls.take(c as int)),
            decreases group@.len() - c,
        {
            assert(controls.take(c as int + 1).drop_last() =~= controls.take(c as int));
            assert(controls.take(c as int + 1).last() == group@[c as int]@);
            let control = &group[c];
            let ghost so_far = entries.deep_view();
            let marked = match control.visible {
                Some(v) => v,
                None => false,
            };
            if marked {
                match &control.id {
                    Some(id) => {
                        let label = match &control.label {
                            Some(label) => label.clone(),
                            None => id.clone(),
                        };
                        let entry = LayoutControlEntry { id: id.clone(), label };
                        entries.push(entry);
                        assert(entries.deep_view() =~= so_far.push(entry@));
                        assert(so_far.push(entry@) =~= before + group_entries(
                            controls.take(c as int),
                        ).push(entry@));
                    },
                    None => {},
                }
            }
            c += 1;
        }
        assert(controls.take(c as int) =~= controls);
        g += 1;
    }
    assert(groups.take(g as int) =~= groups);
    entries
}

/// A work-item type of a process as the service sends it.
#[derive(Debug, PartialEq, Eq)]
pub struct RemoteTypeName {
    pub name: Option<String>,
    pub reference_name: Option<String>,
}

/// The mathematical value of a [`RemoteTypeName`].
pub struct RemoteTypeNameView {
    pub name: Option<Seq<char>>,
    pub reference_name: Option<Seq<char>>,
}

impl View for RemoteTypeName {
    type V = RemoteTypeNameView;

    open spec fn view(&self) -> RemoteTypeNameView {
        RemoteTypeNameView {
            name: self.name.deep_view(),
            reference_name: self.reference_name.deep_view(),
        }
    }
}

impl DeepView for RemoteTypeName {
    type V = RemoteTypeNameView;

    open spec fn deep_view(&self) -> RemoteTypeNameView {
        self@
    }
}

/// The directory of type names: one pair for every type that has both
/// names, in order.
pub open spec fn directory_of(types: Seq<RemoteTypeNameView>) -> Seq<TypeNameView>
    decreases types.len(),
{
    if types.len() == 0 {
        Seq::empty()
    } else {
        let before = directory_of(types.drop_last());
        let last = types.last();
        if last.name is Some && last.reference_name is Some {
            before.push(
                TypeNameView { display_name: last.name->0, reference_name: last.reference_name->0 },
            )
        } else {
            before
        }
    }
}

/// The directory of type names of a process.
pub fn type_directory(types: &Vec<RemoteTypeName>) -> (names: Vec<TypeName>)
    ensures
        names.deep_view() == directory_of(types.deep_view()),
{
    let ghost all = types.deep_view();
    let mut names: Vec<TypeName> = Vec::new();
    let mut i: usize = 0;
    assert(all.take(0) =~= Seq::<RemoteTypeNameView>::empty());
    assert(names.deep_view() =~= Seq::<TypeNameView>::empty());
    while i < types.len()
        invariant
            i <= types@.len(),
            all == types.deep_view(),
            names.deep_view() == directory_of(all.take(i as int)),
        decreases types@.len() - i,
    {
        assert(all.take(i as int + 1).drop_last() =~= all.take(i as int));
        assert(all.take(i as int + 1).last() == types@[i as int]@);
        let ghost before = names.deep_view();
        match (&types[i].name, &types[i].reference_name) {
            (Some(name), Some(reference_name)) => {
                let entry = TypeName {
                    display_name: name.clone(),
                    reference_name: reference_name.clone(),
                };
                names.push(entry);
                assert(names.deep_view() =~= before.push(entry@));
            },
            _ => {},
        }
        i += 1;
    }
    assert(all.take(i as int) =~= all);
    names
}

/// A field of a work-item type as the service describes it.
#[derive(Debug, PartialEq, Eq)]
pub struct RemoteFieldInfo {
    pub reference_name: Option<String>,
    /// The allowed values, each as its text.
    pub allowed_values: Vec<String>,
}

/// The mathematical value of a [`RemoteFieldInfo`].
pub struct RemoteFieldInfoView {
    pub reference_name: Option<Seq<char>>,
    pub allowed_values: Seq<Seq<char>>,
}

impl View for RemoteFieldInfo {
    type V = RemoteFieldInfoView;

    open spec fn view(&self) -> RemoteFieldInfoView {
        RemoteFieldInfoView {
            reference_name: self.reference_name.deep_view(),
            allowed_values: self.allowed_values.deep_view(),
        }
    }
}

impl DeepView for RemoteFieldInfo {
    type V = RemoteFieldInfoView;

    open spec fn deep_view(&self) -> RemoteFieldInfoView {
        self@
    }
}

/// The field metadata of a type: one description for every field that has
/// a reference name, in order.
pub open spec fn field_infos_of(fields: Seq<RemoteFieldInfoView>) -> Seq<FieldInfoView>
    decreases fields.len(),
{
    if fields.len() == 0 {
        Seq::empty()
    } else {
        let before = field_infos_of(fields.drop_last());
        match fields.last().reference_name {
            Some(reference_name) => before.push(
                FieldInfoView { reference_name, allowed_values: fields.last().allowed_values },
            ),
            None => before,
        }
    }
}

/// The field metadata of a work-item type.
pub fn field_infos_from_remote(fields: &Vec<RemoteFieldInfo>) -> (infos: Vec<WorkItemFieldInfo>)
    ensures
        infos.deep_view() == field_infos_of(fields.deep_view()),
{
    let ghost all = fields.deep_view();
    let mut infos: Vec<WorkItemFieldInfo> = Vec::new();
    let mut i: usize = 0;
    assert(all.take(0) =~= Seq::<RemoteFieldInfoView>::empty());
    assert(infos.deep_view() =~= Seq::<FieldInfoView>::empty());
    while i < fields.len()
        invariant
            i <= fields@.len(),
            all == fields.deep_view(),
            infos.deep_view() == field_infos_of(all.take(i as int)),
        decreases fields@.len() - i,
    {
        assert(all.take(i as int + 1).drop_last() =~= all.take(i as int));
        assert(all.take(i as int + 1).last() == fields@[i as int]@);
        let ghost before = infos.deep_view();
        match &fields[i].reference_name {
            Some(reference_name) => {
                let entry = WorkItemFieldInfo {
                    reference_name: reference_name.clone(),
                    allowed_values: copy_texts(&fields[i].allowed_values),
                };
                infos.push(entry);
                assert(infos.deep_view() =~= before.push(entry@));
            },
            None => {},
        }
        i += 1;
    }
    assert(all.take(i as int) =~= all);
    infos
}

} // verus!
