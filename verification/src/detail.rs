//! The detail view of a session: opening an item, editing it, saving it and
//! taking in what became of the save.

use vstd::prelude::*;
use crate::app::{selected_position, App, AppStateView, AppView, ListViewStateView};
use crate::edit::{clamped_cursor, session_of, DetailEditState, EditSessionView};
use crate::fields::{build_visible_fields, visible_fields, VisibleField};
use crate::metadata::{type_key, MetadataCache};
use crate::models::{
    FieldInfoView,
    LayoutControlEntry,
    LayoutControlView,
    WorkItem,
    WorkItemFieldInfo,
    WorkItemView,
};
use crate::save::{
    can_save,
    merge_saved,
    merged_item,
    patch_of,
    patch_operations,
    saving,
    snapshot,
    DetailViewStateView,
    PatchOperation,
    PatchOperationView,
    SaveOutcome,
    SaveOutcomeView,
    SaveRequest,
    SaveRequestView,
    SaveStatus,
    SaveStatusView,
};
use crate::source::Source;

verus! {

/// What is sent to the service for one save: where the item lives, which
/// item it is, and the patch.
#[derive(Debug, PartialEq, Eq)]
pub struct UpdateRequest {
    pub organization: String,
    pub project: String,
    /// The snapshot that the patch was made of.
    pub request: SaveRequest,
    /// The patch: the title replaced, and every visible field replaced by
    /// its reference name.
    pub operations: Vec<PatchOperation>,
}

/// The mathematical value of an [`UpdateRequest`].
pub struct UpdateRequestView {
    pub organization: Seq<char>,
    pub project: Seq<char>,
    pub request: SaveRequestView,
    pub operations: Seq<PatchOperationView>,
}

impl View for UpdateRequest {
    type V = UpdateRequestView;

    open spec fn view(&self) -> UpdateRequestView {
        UpdateRequestView {
            organization: self.organization@,
            project: self.project@,
            request: self.request@,
            operations: self.operations.deep_view(),
        }
    }
}

/// The layout that the session holds for the type of an item, in the
/// active source; empty where it holds none.
pub open spec fn layout_for(s: AppStateView, item: WorkItemView) -> Seq<LayoutControlView> {
    if s.current < s.sources.len() {
        let key = type_key(
            s.sources[s.current as int].organization,
            s.sources[s.current as int].project,
            item.work_item_type,
        );
        if s.metadata.layouts.dom().contains(key) {
            s.metadata.layouts[key]
        } else {
            Seq::empty()
        }
    } else {
        Seq::empty()
    }
}

/// The field metadata that the session holds for the type of an item;
/// empty where it holds none.
pub open spec fn field_meta_for(s: AppStateView, item: WorkItemView) -> Seq<FieldInfoView> {
    if s.metadata.field_meta.dom().contains(item.work_item_type) {
        s.metadata.field_meta[item.work_item_type]
    } else {
        Seq::empty()
    }
}

/// The edit session that the session builds for an item.
pub open spec fn session_for(s: AppStateView, item: WorkItemView, is_editing: bool) -> EditSessionView {
    session_of(item, layout_for(s, item), field_meta_for(s, item), is_editing)
}

/// The position of the first item with the id `id`.
pub open spec fn position_of_id(items: Seq<WorkItemView>, id: u32) -> Option<usize>
    decreases items.len(),
{
    if items.len() == 0 {
        None
    } else {
        match position_of_id(items.drop_last(), id) {
            Some(p) => Some(p),
            None => if items.last().id == id {
                Some((items.len() - 1) as usize)
            } else {
                None
            },
        }
    }
}

/// `position_of_id` yields a position of an item with that id, before which
/// no item has it.
pub proof fn lemma_position_of_id(items: Seq<WorkItemView>, id: u32)
    requires
        items.len() <= usize::MAX,
    ensures
        match position_of_id(items, id) {
            Some(p) => p < items.len() && items[p as int].id == id && forall|k: int|
                0 <= k < p ==> (#[trigger] items[k]).id != id,
            None => forall|k: int| 0 <= k < items.len() ==> (#[trigger] items[k]).id != id,
        },
    decreases items.len(),
{
    if items.len() > 0 {
        let rest = items.drop_last();
        lemma_position_of_id(rest, id);
        match position_of_id(rest, id) {
            Some(p) => {
                assert(rest[p as int] == items[p as int]);
                assert forall|k: int| 0 <= k < p implies (#[trigger] items[k]).id != id by {
                    assert(rest[k] == items[k]);
                }
            },
            None => {
                assert forall|k: int| 0 <= k < items.len() - 1 implies (#[trigger] items[k]).id
                    != id by {
                    assert(rest[k] == items[k]);
                }
            },
        }
    }
}

/// An edit session built anew from the item that it was built from, as the
/// session now holds it: the buffers are the item's values, editing has
/// ended, the cursor is brought into range. Where the item is gone, only
/// editing ends.
pub open spec fn rebuilt(s: AppStateView, e: EditSessionView) -> EditSessionView {
    match position_of_id(s.items, e.item_id) {
        Some(p) => {
            let built = session_for(s, s.items[p as int], false);
            EditSessionView {
                active_field: clamped_cursor(e.active_field, built.visible_fields.len()),
                ..built
            }
        },
        None => EditSessionView { is_editing: false, ..e },
    }
}

/// The session with another detail view.
pub open spec fn with_detail(s: AppStateView, detail: DetailViewStateView) -> AppStateView {
    AppStateView { detail, ..s }
}

/// The session after the detail view's edit session was built anew and the
/// save status set.
pub open spec fn settled(s: AppStateView, status: SaveStatusView) -> AppStateView {
    with_detail(
        s,
        DetailViewStateView {
            edit_state: match s.detail.edit_state {
                Some(e) => Some(rebuilt(s, e)),
                None => None,
            },
            save_status: status,
        },
    )
}

/// The items after a save was merged into the first item of its id.
pub open spec fn items_with_saved(items: Seq<WorkItemView>, saved: SaveRequestView) -> Seq<
    WorkItemView,
> {
    match position_of_id(items, saved.item_id) {
        Some(p) => items.update(p as int, merged_item(items[p as int], saved)),
        None => items,
    }
}

/// The session after the outcome of a save was taken in.
///
/// While no save is in flight, and while the outcome is still pending,
/// nothing changes. A save that went through is merged into its item, the
/// edit session is built anew and the status is `Idle`. A save that failed
/// leaves the items alone; the edit session is built anew from them, so the
/// pending edits are gone, and the status is `Failed` with the message, or
/// with `cancelled` where the result channel closed.
pub open spec fn save_polled(s: AppStateView, outcome: SaveOutcomeView) -> AppStateView {
    if !(s.detail.save_status is Saving) {
        s
    } else {
        match outcome {
            SaveOutcomeView::Pending => s,
            SaveOutcomeView::Saved(saved) => settled(
                AppStateView { items: items_with_saved(s.items, saved), ..s },
                SaveStatusView::Idle,
            ),
            SaveOutcomeView::Failed(message) => settled(s, SaveStatusView::Failed(message)),
            SaveOutcomeView::Disconnected => settled(s, SaveStatusView::Failed("cancelled"@)),
        }
    }
}

/// The session after a save was asked for. A save starts where an item is
/// open and being edited, no save is in flight and there is an active
/// source; then the buffer is frozen and the status is `Saving`. Else
/// nothing changes.
pub open spec fn save_started(s: AppStateView) -> AppStateView {
    if s.current < s.sources.len() && can_save(s.detail) {
        with_detail(s, saving(s.detail))
    } else {
        s
    }
}

/// The request that goes out when a save starts.
pub open spec fn save_request(s: AppStateView) -> Option<UpdateRequestView> {
    if s.current < s.sources.len() && can_save(s.detail) {
        Some(
            UpdateRequestView {
                organization: s.sources[s.current as int].organization,
                project: s.sources[s.current as int].project,
                request: snapshot(s.detail.edit_state->0),
                operations: patch_of(snapshot(s.detail.edit_state->0)),
            },
        )
    } else {
        None
    }
}

/// The session after the selected item was opened in the detail view.
/// Without a selection nothing is opened; the hover is hidden either way.
pub open spec fn detail_opened(s: AppStateView) -> AppStateView {
    let hidden = AppStateView {
        list: ListViewStateView { is_list_details_hover_visible: false, ..s.list },
        ..s
    };
    if s.list.list_state.selected is Some {
        AppStateView {
            view: AppView::Detail,
            detail: match selected_position(s) {
                Some(p) => DetailViewStateView {
                    edit_state: Some(session_for(s, s.items[p as int], false)),
                    ..s.detail
                },
                None => s.detail,
            },
            ..hidden
        }
    } else {
        hidden
    }
}

/// The session after editing of the selected item was asked for. While a
/// save is in flight, or without a selected item, nothing changes; else
/// the edit session is built from the item, editing, and the status is
/// `Idle`.
pub open spec fn edit_begun(s: AppStateView) -> AppStateView {
    if s.detail.save_status is Saving {
        s
    } else {
        match selected_position(s) {
            Some(p) => with_detail(
                s,
                DetailViewStateView {
                    edit_state: Some(session_for(s, s.items[p as int], true)),
                    save_status: SaveStatusView::Idle,
                },
            ),
            None => s,
        }
    }
}

/// The session after the edit was cancelled: while editing, the buffer is
/// built anew from its item and the status is `Idle`; else the list view
/// comes back.
pub open spec fn edit_cancelled(s: AppStateView) -> AppStateView {
    match s.detail.edit_state {
        Some(e) => if e.is_editing {
            settled(s, SaveStatusView::Idle)
        } else {
            AppStateView { view: AppView::List, ..s }
        },
        None => AppStateView { view: AppView::List, ..s },
    }
}

/// The position of the first item with the id `id`.
pub fn find_item_by_id(items: &Vec<WorkItem>, id: u32) -> (r: Option<usize>)
    ensures
        r == position_of_id(items.deep_view(), id),
        r is Some ==> r->0 < items@.len(),
{
    let ghost all = items.deep_view();
    let mut i: usize = 0;
    assert(all.take(0) =~= Seq::<WorkItemView>::empty());
    while i < items.len()
        invariant
            i <= items@.len(),
            all == items.deep_view(),
            position_of_id(all.take(i as int), id) is None,
        decreases items@.len() - i,
    {
        assert(all.take(i as int + 1).drop_last() =~= all.take(i as int));
        assert(all.take(i as int + 1).last() == items@[i as int]@);
        if items[i].id == id {
            proof {
                lemma_found_stays(all, i as int + 1, id);
            }
            return Some(i);
        }
        i += 1;
    }
    assert(all.take(i as int) =~= all);
    None
}

/// What is found among the first items is found among all.
proof fn lemma_found_stays(items: Seq<WorkItemView>, n: int, id: u32)
    requires
        0 <= n <= items.len(),
        position_of_id(items.take(n), id) is Some,
    ensures
        position_of_id(items, id) == position_of_id(items.take(n), id),
    decreases items.len() - n,
{
    if n < items.len() {
        assert(items.take(n + 1).drop_last() =~= items.take(n));
        lemma_found_stays(items, n + 1, id);
    } else {
        assert(items.take(n) =~= items);
    }
}

/// The layout and the field metadata that are held for the type of an
/// item, or the two empty lists handed in.
fn session_inputs<'a>(
    metadata: &'a MetadataCache,
    sources: &Vec<Source>,
    current: usize,
    item: &WorkItem,
    no_controls: &'a Vec<LayoutControlEntry>,
    no_fields: &'a Vec<WorkItemFieldInfo>,
) -> (r: (&'a Vec<LayoutControlEntry>, &'a Vec<WorkItemFieldInfo>))
    requires
        metadata.wf(),
        no_controls@.len() == 0,
        no_fields@.len() == 0,
    ensures
        r.0.deep_view() == (if current < sources@.len() {
            let key = type_key(
                sources@[current as int].organization@,
                sources@[current as int].project@,
                item.work_item_type@,
            );
            if metadata@.layouts.dom().contains(key) {
                metadata@.layouts[key]
            } else {
                Seq::empty()
            }
        } else {
            Seq::empty()
        }),
        r.1.deep_view() == (if metadata@.field_meta.dom().contains(item.work_item_type@) {
            metadata@.field_meta[item.work_item_type@]
        } else {
            Seq::empty()
        }),
{
    assert(no_controls.deep_view() =~= Seq::<LayoutControlView>::empty());
    assert(no_fields.deep_view() =~= Seq::<FieldInfoView>::empty());
    let controls = if current < sources.len() {
        match metadata.layout(
            sources[current].organization.as_str(),
            sources[current].project.as_str(),
            item.work_item_type.as_str(),
        ) {
            Some(found) => found,
            None => no_controls,
        }
    } else {
        no_controls
    };
    let fields = match metadata.field_meta_of(item.work_item_type.as_str()) {
        Some(found) => found,
        None => no_fields,
    };
    (controls, fields)
}

impl App {
    /// The visible fields of an item as the detail view shows them while
    /// the item is not being edited.
    pub fn detail_fields(&self, item: &WorkItem) -> (fields: Vec<VisibleField>)
        requires
            self.wf(),
        ensures
            fields.deep_view() == visible_fields(
                item@,
                layout_for(self@, item@),
                field_meta_for(self@, item@),
            ),
    {
        let no_controls: Vec<LayoutControlEntry> = Vec::new();
        let no_fields: Vec<WorkItemFieldInfo> = Vec::new();
        let (controls, meta) = session_inputs(
            &self.metadata,
            &self.all_boards,
            self.current_board_index,
            item,
            &no_controls,
            &no_fields,
        );
        proof {
            if self.current_board_index < self.all_boards@.len() {
                assert(self.all_boards.deep_view()[self.current_board_index as int]
                    == self.all_boards@[self.current_board_index as int]@);
            }
        }
        build_visible_fields(item, controls, meta)
    }

    /// Builds the edit session of the detail view anew from the item that
    /// it was built from, and sets the save status.
    fn settle(&mut self, status: SaveStatus)
        requires
            old(self).wf(),
        ensures
            final(self).wf(),
            final(self)@ == settled(old(self)@, status@),
            final(self).metadata == old(self).metadata,
    {
        self.detail_view_state.save_status = status;
        match &mut self.detail_view_state.edit_state {
            Some(state) => {
                match find_item_by_id(&self.items, state.item_id) {
                    Some(p) => {
                        let no_controls: Vec<LayoutControlEntry> = Vec::new();
                        let no_fields: Vec<WorkItemFieldInfo> = Vec::new();
                        let item = &self.items[p];
                        let (controls, meta) = session_inputs(
                            &self.metadata,
                            &self.all_boards,
                            self.current_board_index,
                            item,
                            &no_controls,
                            &no_fields,
                        );
                        proof {
                            if self.current_board_index < self.all_boards@.len() {
                                assert(self.all_boards.deep_view()[self.current_board_index as int]
                                    == self.all_boards@[self.current_board_index as int]@);
                            }
                            assert(self.items.deep_view()[p as int] == item@);
                        }
                        state.rebuild(item, controls, meta);
                    },
                    None => {
                        state.is_editing = false;
                    },
                }
            },
            None => {},
        }
    }

    /// Opens the selected item in the detail view.
    pub fn open_detail(&mut self)
        requires
            old(self).wf(),
        ensures
            final(self).wf(),
            final(self)@ == detail_opened(old(self)@),
            final(self).metadata == old(self).metadata,
    {
        let position = self.selected_index();
        self.list_view_state.is_list_details_hover_visible = false;
        if self.list_view_state.list_state.selected().is_some() {
            self.view = AppView::Detail;
            match position {
                Some(p) => {
                    let no_controls: Vec<LayoutControlEntry> = Vec::new();
                    let no_fields: Vec<WorkItemFieldInfo> = Vec::new();
                    let item = &self.items[p];
                    let (controls, meta) = session_inputs(
                        &self.metadata,
                        &self.all_boards,
                        self.current_board_index,
                        item,
                        &no_controls,
                        &no_fields,
                    );
                    proof {
                        if self.current_board_index < self.all_boards@.len() {
                            assert(self.all_boards.deep_view()[self.current_board_index as int]
                                == self.all_boards@[self.current_board_index as int]@);
                        }
                        assert(self.items.deep_view()[p as int] == item@);
                    }
                    let state = DetailEditState::new_from_item(item, controls, meta);
                    self.detail_view_state.edit_state = Some(state);
                },
                None => {},
            }
        }
    }

    /// Starts editing the selected item.
    pub fn begin_edit(&mut self)
        requires
            old(self).wf(),
        ensures
            final(self).wf(),
            final(self)@ == edit_begun(old(self)@),
            final(self).metadata == old(self).metadata,
    {
        if let SaveStatus::Saving = self.detail_view_state.save_status {
            return ;
        }
        match self.selected_index() {
            Some(p) => {
                let no_controls: Vec<LayoutControlEntry> = Vec::new();
                let no_fields: Vec<WorkItemFieldInfo> = Vec::new();
                let item = &self.items[p];
                let (controls, meta) = session_inputs(
                    &self.metadata,
                    &self.all_boards,
                    self.current_board_index,
                    item,
                    &no_controls,
                    &no_fields,
                );
                proof {
                    if self.current_board_index < self.all_boards@.len() {
                        assert(self.all_boards.deep_view()[self.current_board_index as int]
                            == self.all_boards@[self.current_board_index as int]@);
                    }
                    assert(self.items.deep_view()[p as int] == item@);
                }
                let state = DetailEditState::begin_edit(item, controls, meta);
                self.detail_view_state.edit_state = Some(state);
                self.detail_view_state.save_status = SaveStatus::Idle;
            },
            None => {},
        }
    }

    /// Cancels the edit, or leaves the detail view where nothing is being
    /// edited.
    pub fn cancel_edit(&mut self)
        requires
            old(self).wf(),
        ensures
            final(self).wf(),
            final(self)@ == edit_cancelled(old(self)@),
            final(self).metadata == old(self).metadata,
    {
        let editing = match &self.detail_view_state.edit_state {
            Some(state) => state.is_editing,
            None => false,
        };
        if editing {
            self.settle(SaveStatus::Idle);
        } else {
            self.view = AppView::List;
        }
    }

    /// Starts a save of the edit session and returns the request to send.
    /// While a save is in flight this does nothing and returns nothing.
    pub fn start_save(&mut self) -> (request: Option<UpdateRequest>)
        requires
            old(self).wf(),
        ensures
            final(self).wf(),
            final(self)@ == save_started(old(self)@),
            request.is_some() == save_request(old(self)@).is_some(),
            request is Some ==> request->0@ == save_request(old(self)@)->0,
            final(self).metadata == old(self).metadata,
    {
        if self.current_board_index >= self.all_boards.len() {
            return None;
        }
        match self.detail_view_state.start_save() {
            Some(request) => {
                let board = &self.all_boards[self.current_board_index];
                assert(self.all_boards.deep_view()[self.current_board_index as int] == board@);
                let operations = patch_operations(&request);
                Some(
                    UpdateRequest {
                        organization: board.organization.clone(),
                        project: board.project.clone(),
                        request,
                        operations,
                    },
                )
            },
            None => None,
        }
    }

    /// Takes in what became of the save in flight. To be called on every
    /// tick with what the result channel holds.
    pub fn poll_save_completion(&mut self, outcome: SaveOutcome)
        requires
            old(self).wf(),
        ensures
            final(self).wf(),
            final(self)@ == save_polled(old(self)@, outcome@),
            final(self).metadata == old(self).metadata,
    {
        match self.detail_view_state.save_status {
            SaveStatus::Saving => {},
            _ => {
                return ;
            },
        }
        match outcome {
            SaveOutcome::Pending => {},
            SaveOutcome::Saved(saved) => {
                match find_item_by_id(&self.items, saved.item_id) {
                    Some(p) => {
                        let ghost before = self.items.deep_view();
                        merge_saved(&mut self.items[p], &saved);
                        assert(self.items.deep_view() =~= before.update(
                            p as int,
                            merged_item(before[p as int], saved@),
                        ));
                    },
                    None => {},
                }
                self.settle(SaveStatus::Idle);
            },
            SaveOutcome::Failed(message) => {
                self.settle(SaveStatus::Failed(message));
            },
            SaveOutcome::Disconnected => {
                self.settle(SaveStatus::Failed(String::from_str("cancelled")));
            },
        }
    }
}

/// Replacing an item by one of the same id leaves the position of every
/// id as it was.
pub proof fn lemma_update_keeps_positions(
    items: Seq<WorkItemView>,
    p: int,
    item: WorkItemView,
    id: u32,
)
    requires
        0 <= p < items.len(),
        item.id == items[p].id,
    ensures
        position_of_id(items.update(p, item), id) == position_of_id(items, id),
    decreases items.len(),
{
    let after = items.update(p, item);
    if p == items.len() - 1 {
        assert(after.drop_last() =~= items.drop_last());
    } else {
        assert(after.drop_last() =~= items.drop_last().update(p, item));
        assert(after.last() == items.last());
        lemma_update_keeps_positions(items.drop_last(), p, item, id);
    }
}

/// While a save is in flight, asking for another save changes nothing and
/// sends nothing. So a save that has started is the only one until its
/// outcome has been taken in.
pub proof fn lemma_one_save_in_flight(s: AppStateView)
    ensures
        s.detail.save_status is Saving ==> save_started(s) == s && save_request(s) is None,
        save_request(s) is Some ==> save_started(s).detail.save_status is Saving && save_request(
            save_started(s),
        ) is None && !save_started(s).detail.edit_state->0.is_editing,
{
}

/// A save that went through shows in the session: the item of the saved id
/// has the saved title and, under every saved field, the saved value; the
/// status is `Idle`; and an edit session of that item holds the item's new
/// values.
pub proof fn lemma_save_success(s: AppStateView, saved: SaveRequestView, p: usize)
    requires
        s.items.len() <= usize::MAX,
        s.detail.save_status is Saving,
        position_of_id(s.items, saved.item_id) == Some(p),
        forall|i: int, j: int|
            0 <= i < j < saved.fields.len() ==> saved.fields[i].reference_name
                != saved.fields[j].reference_name,
    ensures
        ({
            let after = save_polled(s, SaveOutcomeView::Saved(saved));
            &&& after.detail.save_status is Idle
            &&& after.items.len() == s.items.len()
            &&& after.items[p as int].id == saved.item_id
            &&& after.items[p as int].title == saved.title
            &&& forall|k: int|
                0 <= k < saved.fields.len() ==> crate::fields::field_value_of(
                    after.items[p as int].fields,
                    #[trigger] saved.fields[k].reference_name,
                ) == Some(saved.fields[k].value)
            &&& forall|k: int| 0 <= k < s.items.len() && k != p ==> after.items[k] == s.items[k]
            &&& (s.detail.edit_state is Some && s.detail.edit_state->0.item_id == saved.item_id
                ==> after.detail.edit_state is Some && after.detail.edit_state->0.title
                == saved.title && !after.detail.edit_state->0.is_editing)
        }),
{
    lemma_position_of_id(s.items, saved.item_id);
    crate::save::lemma_merged_item_shows_saved(s.items[p as int], saved);
    lemma_update_keeps_positions(
        s.items,
        p as int,
        merged_item(s.items[p as int], saved),
        saved.item_id,
    );
}

/// A save that failed leaves the items as they were and sets the status to
/// `Failed` with the message. An edit session whose item is still there
/// holds that item's values again, not the pending edits: its title is the
/// item's title and its visible fields are those built from the item.
pub proof fn lemma_save_failure(s: AppStateView, message: Seq<char>)
    requires
        s.items.len() <= usize::MAX,
        s.detail.save_status is Saving,
    ensures
        ({
            let after = save_polled(s, SaveOutcomeView::Failed(message));
            &&& after.detail.save_status == SaveStatusView::Failed(message)
            &&& after.items == s.items
            &&& (s.detail.edit_state is Some ==> after.detail.edit_state is Some
                && !after.detail.edit_state->0.is_editing)
            &&& (s.detail.edit_state is Some && position_of_id(
                s.items,
                s.detail.edit_state->0.item_id,
            ) is Some ==> {
                let item = s.items[position_of_id(s.items, s.detail.edit_state->0.item_id)->0 as int];
                &&& item.id == s.detail.edit_state->0.item_id
                &&& after.detail.edit_state->0.title == item.title
                &&& after.detail.edit_state->0.visible_fields == visible_fields(
                    item,
                    layout_for(s, item),
                    field_meta_for(s, item),
                )
            })
        }),
{
    if s.detail.edit_state is Some {
        lemma_position_of_id(s.items, s.detail.edit_state->0.item_id);
    }
}

/// A result channel that closed counts as a failed save with the message
/// `cancelled`.
pub proof fn lemma_save_cancelled(s: AppStateView)
    requires
        s.detail.save_status is Saving,
    ensures
        save_polled(s, SaveOutcomeView::Disconnected).detail.save_status == SaveStatusView::Failed(
            "cancelled"@,
        ),
        save_polled(s, SaveOutcomeView::Disconnected).items == s.items,
        save_polled(s, SaveOutcomeView::Pending) == s,
{
}

} // verus!
