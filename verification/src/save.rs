//! The save pipeline of the detail view: at most one save in flight, its
//! snapshot and patch, and what its outcome makes of the edit session.

use vstd::prelude::*;
use crate::edit::{DetailEditState, EditSessionView};
use crate::fields::{field_value_of, VisibleField, VisibleFieldView};
use crate::models::{field_names_unique, FieldValue, FieldValueView, WorkItem, WorkItemView};
use crate::text::same_text;

verus! {

/// Where the save of the detail view stands.
#[derive(Debug, PartialEq, Eq)]
pub enum SaveStatus {
    Idle,
    Saving,
    Failed(String),
}

/// The mathematical value of a [`SaveStatus`].
pub enum SaveStatusView {
    Idle,
    Saving,
    Failed(Seq<char>),
}

impl View for SaveStatus {
    type V = SaveStatusView;

    open spec fn view(&self) -> SaveStatusView {
        match self {
            SaveStatus::Idle => SaveStatusView::Idle,
            SaveStatus::Saving => SaveStatusView::Saving,
            SaveStatus::Failed(message) => SaveStatusView::Failed(message@),
        }
    }
}

/// What is sent for one save: the item's id, the title and the value of
/// every visible field by its reference name, as they stood in the buffer.
#[derive(Debug, PartialEq, Eq)]
pub struct SaveRequest {
    pub item_id: u32,
    pub title: String,
    pub fields: Vec<FieldValue>,
}

/// The mathematical value of a [`SaveRequest`].
pub struct SaveRequestView {
    pub item_id: u32,
    pub title: Seq<char>,
    pub fields: Seq<FieldValueView>,
}

impl View for SaveRequest {
    type V = SaveRequestView;

    open spec fn view(&self) -> SaveRequestView {
        SaveRequestView { item_id: self.item_id, title: self.title@, fields: self.fields.deep_view() }
    }
}

/// What an operation of a patch does with what stands at its path.
#[derive(Clone, Copy, Debug, PartialEq, Eq, Structural)]
pub enum PatchKind {
    Add,
    Remove,
    Replace,
    Move,
    Copy,
    Test,
}

/// One operation of a patch: what to do at `path`, and with which value.
/// The patch of a save holds replacements only.
#[derive(Debug, PartialEq, Eq)]
pub struct PatchOperation {
    pub kind: PatchKind,
    pub path: String,
    pub value: String,
}

/// The mathematical value of a [`PatchOperation`].
pub struct PatchOperationView {
    pub kind: PatchKind,
    pub path: Seq<char>,
    pub value: Seq<char>,
}

impl View for PatchOperation {
    type V = PatchOperationView;

    open spec fn view(&self) -> PatchOperationView {
        PatchOperationView { kind: self.kind, path: self.path@, value: self.value@ }
    }
}

impl DeepView for PatchOperation {
    type V = PatchOperationView;

    open spec fn deep_view(&self) -> PatchOperationView {
        self@
    }
}

/// What became of the save in flight.
#[derive(Debug, PartialEq, Eq)]
pub enum SaveOutcome {
    /// No result has come yet.
    Pending,
    /// The service took the save; these are the values it now holds.
    Saved(SaveRequest),
    /// The service refused the save, with its message.
    Failed(String),
    /// The result channel closed without a value.
    Disconnected,
}

/// The mathematical value of a [`SaveOutcome`].
pub enum SaveOutcomeView {
    Pending,
    Saved(SaveRequestView),
    Failed(Seq<char>),
    Disconnected,
}

impl View for SaveOutcome {
    type V = SaveOutcomeView;

    open spec fn view(&self) -> SaveOutcomeView {
        match self {
            SaveOutcome::Pending => SaveOutcomeView::Pending,
            SaveOutcome::Saved(saved) => SaveOutcomeView::Saved(saved@),
            SaveOutcome::Failed(message) => SaveOutcomeView::Failed(message@),
            SaveOutcome::Disconnected => SaveOutcomeView::Disconnected,
        }
    }
}

/// The state of the detail view: the edit session, if an item is open, and
/// the status of its save.
#[derive(Debug)]
pub struct DetailViewState {
    pub edit_state: Option<DetailEditState>,
    pub save_status: SaveStatus,
}

/// The mathematical value of a [`DetailViewState`].
pub struct DetailViewStateView {
    pub edit_state: Option<EditSessionView>,
    pub save_status: SaveStatusView,
}

impl View for DetailViewState {
    type V = DetailViewStateView;

    open spec fn view(&self) -> DetailViewStateView {
        DetailViewStateView {
            edit_state: match self.edit_state {
                Some(s) => Some(s@),
                None => None,
            },
            save_status: self.save_status@,
        }
    }
}

impl Default for DetailViewState {
    fn default() -> (state: Self)
        ensures
            state@ == (DetailViewStateView { edit_state: None, save_status: SaveStatusView::Idle }),
    {
        DetailViewState { edit_state: None, save_status: SaveStatus::Idle }
    }
}

/// The field values that a save carries: one per visible field, in order.
pub open spec fn snapshot_fields(fields: Seq<VisibleFieldView>) -> Seq<FieldValueView> {
    Seq::new(
        fields.len(),
        |i: int| FieldValueView { reference_name: fields[i].reference_name, value: fields[i].value },
    )
}

/// The save that a session stands for.
pub open spec fn snapshot(s: EditSessionView) -> SaveRequestView {
    SaveRequestView {
        item_id: s.item_id,
        title: s.title,
        fields: snapshot_fields(s.visible_fields),
    }
}

/// Whether a save may start: an item is open, its session is editing and no
/// save is in flight.
pub open spec fn can_save(v: DetailViewStateView) -> bool {
    &&& !(v.save_status is Saving)
    &&& v.edit_state is Some
    &&& v.edit_state->0.is_editing
}

/// The detail view after a save has started: the buffer frozen, the status
/// `Saving`.
pub open spec fn saving(v: DetailViewStateView) -> DetailViewStateView {
    DetailViewStateView {
        edit_state: Some(EditSessionView { is_editing: false, ..v.edit_state->0 }),
        save_status: SaveStatusView::Saving,
    }
}

/// The path of the title in a patch.
pub open spec fn title_path() -> Seq<char> {
    "/fields/System.Title"@
}

/// The path of a field in a patch.
pub open spec fn field_path(reference_name: Seq<char>) -> Seq<char> {
    "/fields/"@ + reference_name
}

/// The patch of a save: the title first, then every field in order.
pub open spec fn patch_of(request: SaveRequestView) -> Seq<PatchOperationView> {
    Seq::new(
        request.fields.len() + 1,
        |i: int|
            if i == 0 {
                PatchOperationView {
                    kind: PatchKind::Replace,
                    path: title_path(),
                    value: request.title,
                }
            } else {
                PatchOperationView {
                    kind: PatchKind::Replace,
                    path: field_path(request.fields[i - 1].reference_name),
                    value: request.fields[i - 1].value,
                }
            },
    )
}

/// `fields` with `value` under `name`: in place of the value of the first
/// field of that name, or as a new last field.
pub open spec fn with_field(
    fields: Seq<FieldValueView>,
    name: Seq<char>,
    value: Seq<char>,
) -> Seq<FieldValueView>
    decreases fields.len(),
{
    if fields.len() == 0 {
        seq![FieldValueView { reference_name: name, value }]
    } else if fields[0].reference_name == name {
        seq![FieldValueView { reference_name: name, value }] + fields.drop_first()
    } else {
        seq![fields[0]] + with_field(fields.drop_first(), name, value)
    }
}

/// `fields` with every one of `updates` put in, in order.
pub open spec fn merged_fields(
    fields: Seq<FieldValueView>,
    updates: Seq<FieldValueView>,
) -> Seq<FieldValueView>
    decreases updates.len(),
{
    if updates.len() == 0 {
        fields
    } else {
        with_field(
            merged_fields(fields, updates.drop_last()),
            updates.last().reference_name,
            updates.last().value,
        )
    }
}

/// An item with the values of a save merged in: the saved title, and the
/// saved value under every saved field.
pub open spec fn merged_item(item: WorkItemView, saved: SaveRequestView) -> WorkItemView {
    WorkItemView { title: saved.title, fields: merged_fields(item.fields, saved.fields), ..item }
}

/// After `with_field`, the field reads back the value put in, and every
/// other field reads as before.
pub proof fn lemma_with_field_reads(
    fields: Seq<FieldValueView>,
    name: Seq<char>,
    value: Seq<char>,
    other: Seq<char>,
)
    ensures
        field_value_of(with_field(fields, name, value), name) == Some(value),
        other != name ==> field_value_of(with_field(fields, name, value), other) == field_value_of(
            fields,
            other,
        ),
    decreases fields.len(),
{
    let after = with_field(fields, name, value);
    let put = FieldValueView { reference_name: name, value };
    if fields.len() == 0 {
        assert(after[0] == put);
        assert(after.drop_first() =~= Seq::<FieldValueView>::empty());
        assert(field_value_of(after.drop_first(), other) is None);
    } else if fields[0].reference_name == name {
        assert(after[0] == put);
        assert(after.drop_first() =~= fields.drop_first());
    } else {
        lemma_with_field_reads(fields.drop_first(), name, value, other);
        assert(after[0] == fields[0]);
        assert(after.drop_first() =~= with_field(fields.drop_first(), name, value));
    }
}

/// `with_field` keeps the names of the fields and their places; a name that
/// was not there comes at the end. So fields that hold every name once
/// still do so afterwards.
pub proof fn lemma_with_field_names(fields: Seq<FieldValueView>, name: Seq<char>, value: Seq<char>)
    ensures
        ({
            let after = with_field(fields, name, value);
            let known = exists|i: int| 0 <= i < fields.len() && fields[i].reference_name == name;
            &&& after.len() == (if known {
                fields.len()
            } else {
                fields.len() + 1
            })
            &&& forall|i: int|
                0 <= i < fields.len() ==> (#[trigger] after[i]).reference_name
                    == fields[i].reference_name
            &&& !known ==> after[fields.len() as int].reference_name == name
            &&& field_names_unique(fields) ==> field_names_unique(after)
        }),
    decreases fields.len(),
{
    let after = with_field(fields, name, value);
    if fields.len() == 0 {
    } else if fields[0].reference_name == name {
        assert(fields[0].reference_name == name);
        assert forall|i: int| 0 <= i < fields.len() implies (#[trigger] after[i]).reference_name
            == fields[i].reference_name by {
            if i > 0 {
                assert(after[i] == fields.drop_first()[i - 1]);
            }
        }
    } else {
        let rest = fields.drop_first();
        lemma_with_field_names(rest, name, value);
        let rest_after = with_field(rest, name, value);
        let known = exists|i: int| 0 <= i < fields.len() && fields[i].reference_name == name;
        let rest_known = exists|i: int| 0 <= i < rest.len() && rest[i].reference_name == name;
        if known {
            let k = choose|k: int| 0 <= k < fields.len() && fields[k].reference_name == name;
            assert(rest[k - 1].reference_name == name);
        }
        if rest_known {
            let k = choose|k: int| 0 <= k < rest.len() && rest[k].reference_name == name;
            assert(fields[k + 1].reference_name == name);
        }
        assert forall|i: int| 0 <= i < fields.len() implies (#[trigger] after[i]).reference_name
            == fields[i].reference_name by {
            if i > 0 {
                assert(after[i] == rest_after[i - 1]);
                assert(rest[i - 1] == fields[i]);
            }
        }
        if !known {
            assert(after[fields.len() as int] == rest_after[rest.len() as int]);
        }
    }
    if field_names_unique(fields) {
        assert forall|i: int, j: int| 0 <= i < j < after.len() implies after[i].reference_name
            != after[j].reference_name by {
            if j < fields.len() {
                assert(after[i].reference_name == fields[i].reference_name);
                assert(after[j].reference_name == fields[j].reference_name);
            } else {
                assert(after[i].reference_name == fields[i].reference_name);
            }
        }
    }
}

/// A merge keeps fields that hold every name once that way.
pub proof fn lemma_merged_fields_unique(fields: Seq<FieldValueView>, updates: Seq<FieldValueView>)
    requires
        field_names_unique(fields),
    ensures
        field_names_unique(merged_fields(fields, updates)),
    decreases updates.len(),
{
    if updates.len() > 0 {
        lemma_merged_fields_unique(fields, updates.drop_last());
        lemma_with_field_names(
            merged_fields(fields, updates.drop_last()),
            updates.last().reference_name,
            updates.last().value,
        );
    }
}

/// After a merge, a field that the updates name reads back the value of the
/// last update that names it, and a field that none names reads as before.
pub proof fn lemma_merged_fields_read(
    fields: Seq<FieldValueView>,
    updates: Seq<FieldValueView>,
    name: Seq<char>,
)
    ensures
        (forall|k: int| 0 <= k < updates.len() ==> updates[k].reference_name != name)
            ==> field_value_of(merged_fields(fields, updates), name) == field_value_of(fields, name),
        forall|k: int|
            0 <= k < updates.len() && updates[k].reference_name == name && (forall|j: int|
                k < j < updates.len() ==> updates[j].reference_name != name) ==> field_value_of(
                merged_fields(fields, updates),
                name,
            ) == Some(#[trigger] updates[k].value),
    decreases updates.len(),
{
    if updates.len() > 0 {
        let before = updates.drop_last();
        let last = updates.last();
        lemma_merged_fields_read(fields, before, name);
        lemma_with_field_reads(merged_fields(fields, before), last.reference_name, last.value, name);
        assert forall|k: int|
            0 <= k < updates.len() && updates[k].reference_name == name && (forall|j: int|
                k < j < updates.len() ==> updates[j].reference_name != name) implies field_value_of(
            merged_fields(fields, updates),
            name,
        ) == Some(#[trigger] updates[k].value) by {
            if k < updates.len() - 1 {
                assert(before[k] == updates[k]);
                assert(last.reference_name != name);
                assert forall|j: int| k < j < before.len() implies before[j].reference_name
                    != name by {
                    assert(before[j] == updates[j]);
                }
            }
        }
        if forall|k: int| 0 <= k < updates.len() ==> updates[k].reference_name != name {
            assert forall|k: int| 0 <= k < before.len() implies before[k].reference_name
                != name by {
                assert(before[k] == updates[k]);
            }
        }
    }
}

/// After a save whose fields carry distinct names was merged into an item,
/// the item shows the saved title and, under every saved field, the saved
/// value.
pub proof fn lemma_merged_item_shows_saved(item: WorkItemView, saved: SaveRequestView)
    requires
        forall|i: int, j: int|
            0 <= i < j < saved.fields.len() ==> saved.fields[i].reference_name
                != saved.fields[j].reference_name,
    ensures
        merged_item(item, saved).title == saved.title,
        merged_item(item, saved).id == item.id,
        forall|k: int|
            0 <= k < saved.fields.len() ==> field_value_of(
                merged_item(item, saved).fields,
                #[trigger] saved.fields[k].reference_name,
            ) == Some(saved.fields[k].value),
{
    assert forall|k: int| 0 <= k < saved.fields.len() implies field_value_of(
        merged_item(item, saved).fields,
        #[trigger] saved.fields[k].reference_name,
    ) == Some(saved.fields[k].value) by {
        lemma_merged_fields_read(item.fields, saved.fields, saved.fields[k].reference_name);
    }
}

/// Puts `value` under `name` into the fields of an item.
pub fn set_field(fields: &mut Vec<FieldValue>, name: &str, value: &str)
    ensures
        final(fields).deep_view() == with_field(old(fields).deep_view(), name@, value@),
{
    let ghost all = old(fields).deep_view();
    let mut i: usize = 0;
    assert(all.take(0) + with_field(all.skip(0), name@, value@) =~= with_field(all, name@, value@))
        by {
        assert(all.skip(0) =~= all);
    }
    while i < fields.len()
        invariant
            i <= fields@.len(),
            fields.deep_view() == all,
            all == old(fields).deep_view(),
            with_field(all, name@, value@) == all.take(i as int) + with_field(
                all.skip(i as int),
                name@,
                value@,
            ),
        decreases fields@.len() - i,
    {
        assert(all.skip(i as int).drop_first() =~= all.skip(i as int + 1));
        assert(all.skip(i as int)[0] == fields@[i as int]@);
        if same_text(fields[i].reference_name.as_str(), name) {
            let ghost before = fields@;
            assert(with_field(all.skip(i as int), name@, value@) =~= seq![
                FieldValueView { reference_name: name@, value: value@ },
            ] + all.skip(i as int + 1));
            fields[i].value = String::from_str(value);
            assert(fields@[i as int]@ == (FieldValueView { reference_name: name@, value: value@ }));
            assert forall|k: int| 0 <= k < fields@.len() && k != i implies fields.deep_view()[k]
                == all[k] by {
                assert(fields@[k] == before[k]);
            }
            assert(fields.deep_view() =~= all.take(i as int) + (seq![
                FieldValueView { reference_name: name@, value: value@ },
            ] + all.skip(i as int + 1)));
            return ;
        }
        assert(all.take(i as int + 1) =~= all.take(i as int) + seq![all[i as int]]);
        assert(all.take(i as int) + (seq![all[i as int]] + with_field(
            all.skip(i as int + 1),
            name@,
            value@,
        )) =~= all.take(i as int + 1) + with_field(all.skip(i as int + 1), name@, value@));
        i += 1;
    }
    assert(all.skip(i as int) =~= Seq::<FieldValueView>::empty());
    assert(all.take(i as int) =~= all);
    fields.push(FieldValue { reference_name: String::from_str(name), value: String::from_str(value) });
    assert(fields.deep_view() =~= all + seq![
        FieldValueView { reference_name: name@, value: value@ },
    ]);
}

/// Merges the values of a save into an item.
pub fn merge_saved(item: &mut WorkItem, saved: &SaveRequest)
    ensures
        final(item)@ == merged_item(old(item)@, saved@),
        old(item).wf() ==> final(item).wf(),
{
    proof {
        if old(item).wf() {
            lemma_merged_fields_unique(old(item)@.fields, saved@.fields);
        }
    }
    item.title = saved.title.clone();
    let ghost start = old(item)@.fields;
    let ghost updates = saved.fields.deep_view();
    let mut i: usize = 0;
    assert(updates.take(0) =~= Seq::<FieldValueView>::empty());
    while i < saved.fields.len()
        invariant
            i <= saved.fields@.len(),
            updates == saved.fields.deep_view(),
            item.id == old(item).id,
            item.title@ == saved.title@,
            item.assigned_to == old(item).assigned_to,
            item.state == old(item).state,
            item.work_item_type == old(item).work_item_type,
            item.description == old(item).description,
            item.acceptance_criteria == old(item).acceptance_criteria,
            item.fields.deep_view() == merged_fields(start, updates.take(i as int)),
        decreases saved.fields@.len() - i,
    {
        assert(updates.take(i as int + 1).drop_last() =~= updates.take(i as int));
        assert(updates.take(i as int + 1).last() == saved.fields@[i as int]@);
        set_field(
            &mut item.fields,
            saved.fields[i].reference_name.as_str(),
            saved.fields[i].value.as_str(),
        );
        i += 1;
    }
    assert(updates.take(i as int) =~= updates);
}

/// The patch of a save: one operation that replaces the title, then one for
/// every field, addressed by its reference name.
pub fn patch_operations(request: &SaveRequest) -> (ops: Vec<PatchOperation>)
    ensures
        ops.deep_view() == patch_of(request@),
{
    let mut ops: Vec<PatchOperation> = Vec::new();
    ops.push(
        PatchOperation {
            kind: PatchKind::Replace,
            path: String::from_str("/fields/System.Title"),
            value: request.title.clone(),
        },
    );
    let mut i: usize = 0;
    while i < request.fields.len()
        invariant
            i <= request.fields@.len(),
            ops@.len() == i + 1,
            forall|k: int| 0 <= k < ops@.len() ==> ops@[k]@ == patch_of(request@)[k],
        decreases request.fields@.len() - i,
    {
        let mut path = String::from_str("/fields/");
        path.append(request.fields[i].reference_name.as_str());
        assert(request.fields.deep_view()[i as int] == request.fields@[i as int]@);
        ops.push(
            PatchOperation {
                kind: PatchKind::Replace,
                path,
                value: request.fields[i].value.clone(),
            },
        );
        i += 1;
    }
    assert(ops.deep_view() =~= patch_of(request@));
    ops
}

impl DetailViewState {
    /// Starts a save. Where a save may start, the buffer is frozen, the
    /// status becomes `Saving` and the snapshot to send is returned. Where
    /// none may start (no item open, not editing, or a save in flight)
    /// nothing changes and nothing is returned.
    pub fn start_save(&mut self) -> (request: Option<SaveRequest>)
        ensures
            can_save(old(self)@) ==> request is Some && request->0@ == snapshot(
                old(self)@.edit_state->0,
            ) && final(self)@ == saving(old(self)@),
            !can_save(old(self)@) ==> request is None && final(self)@ == old(self)@,
    {
        if let SaveStatus::Saving = self.save_status {
            return None;
        }
        match &mut self.edit_state {
            Some(state) => {
                if !state.is_editing {
                    return None;
                }
                let fields = snapshot_of_fields(&state.visible_fields);
                let request = SaveRequest {
                    item_id: state.item_id,
                    title: state.title.clone(),
                    fields,
                };
                state.is_editing = false;
                self.save_status = SaveStatus::Saving;
                Some(request)
            },
            None => None,
        }
    }
}

/// The field values of a list of visible fields.
pub fn snapshot_of_fields(fields: &Vec<VisibleField>) -> (r: Vec<FieldValue>)
    ensures
        r.deep_view() == snapshot_fields(fields.deep_view()),
{
    let mut r: Vec<FieldValue> = Vec::new();
    let mut i: usize = 0;
    while i < fields.len()
        invariant
            i <= fields@.len(),
            r@.len() == i,
            forall|k: int|
                0 <= k < i ==> r@[k]@ == (FieldValueView {
                    reference_name: fields@[k]@.reference_name,
                    value: fields@[k]@.value,
                }),
        decreases fields@.len() - i,
    {
        r.push(
            FieldValue {
                reference_name: fields[i].reference_name.clone(),
                value: fields[i].value.clone(),
            },
        );
        i += 1;
    }
    assert(r.deep_view() =~= snapshot_fields(fields.deep_view()));
    r
}

} // verus!
