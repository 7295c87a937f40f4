//! The refresh orchestrator: one load of a source, as a machine that is fed
//! the replies of the service and answers with the next call to make.
//!
//! The machine decides; the caller performs. A load starts with
//! [`start_load`] and goes on with [`advance`] until the step is
//! [`Step::Loaded`] or [`Step::Failed`].

use vstd::prelude::*;
use crate::cache::{
    fresh_layout_either,
    fresh_payload,
    layout_name_of,
    read_field_meta_cache_at,
    read_layout_cache_either_at,
    read_work_items_cache_at,
    stored,
    write_field_meta_cache_at,
    write_layout_cache_dual_at,
    write_work_items_cache_at,
    CacheStore,
    CacheStoreView,
};
use crate::cache_keys::{field_meta_file_name, work_items_file_name, FieldMetaCacheKey, TypeKeyView};
use crate::metadata::{
    find_reference_name,
    reference_name_of,
    type_key,
    MetadataCache,
    MetadataView,
    RefreshPolicy,
    TypeName,
    TypeNameView,
};
use crate::models::{
    FieldInfoView,
    LayoutControlEntry,
    LayoutControlView,
    WorkItem,
    WorkItemFieldInfo,
    WorkItemView,
};
use crate::shelf::EntryView;
use crate::source::{
    work_items_key,
    work_items_key_of,
    Source,
    SourceKind,
    SourceKindView,
    SourceView,
};
use crate::text::{lemma_contains_by_text, texts_contain};

verus! {

/// Where a load stands: which reply it waits for, or how it ended.
#[derive(Clone, Copy, Debug, PartialEq, Eq, Structural)]
pub enum LoadPhase {
    ResolvingIteration,
    ListingItemIds,
    FetchingItems,
    FetchingProjectId,
    FetchingProcessId,
    ListingTypes,
    FetchingMetadata,
    Finished,
    Aborted,
}

/// One load of a source.
#[derive(Debug)]
pub struct RefreshRun {
    pub phase: LoadPhase,
    pub source: Source,
    /// The items of the source, once they are known.
    pub items: Vec<WorkItem>,
    /// The types whose layout has to be fetched, by display name.
    pub missing: Vec<String>,
    /// The id of the process, once it is known.
    pub process_id: String,
}

/// The mathematical value of a [`RefreshRun`].
pub struct RefreshRunView {
    pub phase: LoadPhase,
    pub source: SourceView,
    pub items: Seq<WorkItemView>,
    pub missing: Seq<Seq<char>>,
    pub process_id: Seq<char>,
}

impl View for RefreshRun {
    type V = RefreshRunView;

    open spec fn view(&self) -> RefreshRunView {
        RefreshRunView {
            phase: self.phase,
            source: self.source@,
            items: self.items.deep_view(),
            missing: self.missing.deep_view(),
            process_id: self.process_id@,
        }
    }
}

/// A call that the machine asks the caller to make.
#[derive(Debug, PartialEq, Eq)]
pub enum RemoteCall {
    ResolveIterationId { organization: String, project: String, team: String, iteration: String },
    ListBacklogItemIds { organization: String, project: String, team: String },
    ListIterationItemIds {
        organization: String,
        project: String,
        team: String,
        iteration_id: String,
    },
    FetchItems { organization: String, project: String, ids: Vec<i32> },
    FetchProjectId { organization: String, project: String },
    FetchProcessTemplateId { organization: String, project_id: String },
    ListProcessWorkItemTypes { organization: String, process_id: String },
    /// Two groups to run side by side: the layouts of `layouts`, by
    /// reference name and in order, and the field metadata of `field_meta`,
    /// by display name and in order.
    FetchMetadata {
        organization: String,
        project: String,
        process_id: String,
        layouts: Vec<TypeName>,
        field_meta: Vec<String>,
    },
}

/// The mathematical value of a [`RemoteCall`].
pub enum RemoteCallView {
    ResolveIterationId {
        organization: Seq<char>,
        project: Seq<char>,
        team: Seq<char>,
        iteration: Seq<char>,
    },
    ListBacklogItemIds { organization: Seq<char>, project: Seq<char>, team: Seq<char> },
    ListIterationItemIds {
        organization: Seq<char>,
        project: Seq<char>,
        team: Seq<char>,
        iteration_id: Seq<char>,
    },
    FetchItems { organization: Seq<char>, project: Seq<char>, ids: Seq<i32> },
    FetchProjectId { organization: Seq<char>, project: Seq<char> },
    FetchProcessTemplateId { organization: Seq<char>, project_id: Seq<char> },
    ListProcessWorkItemTypes { organization: Seq<char>, process_id: Seq<char> },
    FetchMetadata {
        organization: Seq<char>,
        project: Seq<char>,
        process_id: Seq<char>,
        layouts: Seq<TypeNameView>,
        field_meta: Seq<Seq<char>>,
    },
}

impl View for RemoteCall {
    type V = RemoteCallView;

    open spec fn view(&self) -> RemoteCallView {
        match self {
            RemoteCall::ResolveIterationId { organization, project, team, iteration } => {
                RemoteCallView::ResolveIterationId {
                    organization: organization@,
                    project: project@,
                    team: team@,
                    iteration: iteration@,
                }
            },
            RemoteCall::ListBacklogItemIds { organization, project, team } => {
                RemoteCallView::ListBacklogItemIds {
                    organization: organization@,
                    project: project@,
                    team: team@,
                }
            },
            RemoteCall::ListIterationItemIds { organization, project, team, iteration_id } => {
                RemoteCallView::ListIterationItemIds {
                    organization: organization@,
                    project: project@,
                    team: team@,
                    iteration_id: iteration_id@,
                }
            },
            RemoteCall::FetchItems { organization, project, ids } => RemoteCallView::FetchItems {
                organization: organization@,
                project: project@,
                ids: ids@,
            },
            RemoteCall::FetchProjectId { organization, project } => RemoteCallView::FetchProjectId {
                organization: organization@,
                project: project@,
            },
            RemoteCall::FetchProcessTemplateId { organization, project_id } => {
                RemoteCallView::FetchProcessTemplateId {
                    organization: organization@,
                    project_id: project_id@,
                }
            },
            RemoteCall::ListProcessWorkItemTypes { organization, process_id } => {
                RemoteCallView::ListProcessWorkItemTypes {
                    organization: organization@,
                    process_id: process_id@,
                }
            },
            RemoteCall::FetchMetadata { organization, project, process_id, layouts, field_meta } => {
                RemoteCallView::FetchMetadata {
                    organization: organization@,
                    project: project@,
                    process_id: process_id@,
                    layouts: layouts.deep_view(),
                    field_meta: field_meta.deep_view(),
                }
            },
        }
    }
}

/// What the machine answers: a call to make, or the end of the load.
#[derive(Debug, PartialEq, Eq)]
pub enum Step {
    /// Make this call and hand its reply to [`advance`].
    Call(RemoteCall),
    /// The load is complete; the run holds the items.
    Loaded,
    /// The load failed, with the reason.
    Failed(String),
}

/// The mathematical value of a [`Step`].
pub enum StepView {
    Call(RemoteCallView),
    Loaded,
    Failed(Seq<char>),
}

impl View for Step {
    type V = StepView;

    open spec fn view(&self) -> StepView {
        match self {
            Step::Call(call) => StepView::Call(call@),
            Step::Loaded => StepView::Loaded,
            Step::Failed(reason) => StepView::Failed(reason@),
        }
    }
}

/// A layout as the service sent it, with both names of its type.
#[derive(Debug, PartialEq, Eq)]
pub struct FetchedLayout {
    pub display_name: String,
    pub reference_name: String,
    pub controls: Vec<LayoutControlEntry>,
}

/// The mathematical value of a [`FetchedLayout`].
pub struct FetchedLayoutView {
    pub display_name: Seq<char>,
    pub reference_name: Seq<char>,
    pub controls: Seq<LayoutControlView>,
}

impl View for FetchedLayout {
    type V = FetchedLayoutView;

    open spec fn view(&self) -> FetchedLayoutView {
        FetchedLayoutView {
            display_name: self.display_name@,
            reference_name: self.reference_name@,
            controls: self.controls.deep_view(),
        }
    }
}

impl DeepView for FetchedLayout {
    type V = FetchedLayoutView;

    open spec fn deep_view(&self) -> FetchedLayoutView {
        self@
    }
}

/// The field metadata of one type as the service sent it.
#[derive(Debug, PartialEq, Eq)]
pub struct FetchedFieldMeta {
    pub display_name: String,
    pub fields: Vec<WorkItemFieldInfo>,
}

/// The mathematical value of a [`FetchedFieldMeta`].
pub struct FetchedFieldMetaView {
    pub display_name: Seq<char>,
    pub fields: Seq<FieldInfoView>,
}

impl View for FetchedFieldMeta {
    type V = FetchedFieldMetaView;

    open spec fn view(&self) -> FetchedFieldMetaView {
        FetchedFieldMetaView { display_name: self.display_name@, fields: self.fields.deep_view() }
    }
}

impl DeepView for FetchedFieldMeta {
    type V = FetchedFieldMetaView;

    open spec fn deep_view(&self) -> FetchedFieldMetaView {
        self@
    }
}

/// The reply to a call.
#[derive(Debug, PartialEq, Eq)]
pub enum RemoteReply {
    IterationId(String),
    ItemIds(Vec<i32>),
    Items(Vec<WorkItem>),
    ProjectId(String),
    ProcessId(String),
    TypeDirectory(Vec<TypeName>),
    Metadata { layouts: Vec<FetchedLayout>, field_meta: Vec<FetchedFieldMeta> },
    /// The call failed, with the reason.
    Failure(String),
}

/// The mathematical value of a [`RemoteReply`].
pub enum RemoteReplyView {
    IterationId(Seq<char>),
    ItemIds(Seq<i32>),
    Items(Seq<WorkItemView>),
    ProjectId(Seq<char>),
    ProcessId(Seq<char>),
    TypeDirectory(Seq<TypeNameView>),
    Metadata { layouts: Seq<FetchedLayoutView>, field_meta: Seq<FetchedFieldMetaView> },
    Failure(Seq<char>),
}

impl View for RemoteReply {
    type V = RemoteReplyView;

    open spec fn view(&self) -> RemoteReplyView {
        match self {
            RemoteReply::IterationId(id) => RemoteReplyView::IterationId(id@),
            RemoteReply::ItemIds(ids) => RemoteReplyView::ItemIds(ids@),
            RemoteReply::Items(items) => RemoteReplyView::Items(items.deep_view()),
            RemoteReply::ProjectId(id) => RemoteReplyView::ProjectId(id@),
            RemoteReply::ProcessId(id) => RemoteReplyView::ProcessId(id@),
            RemoteReply::TypeDirectory(names) => RemoteReplyView::TypeDirectory(names.deep_view()),
            RemoteReply::Metadata { layouts, field_meta } => RemoteReplyView::Metadata {
                layouts: layouts.deep_view(),
                field_meta: field_meta.deep_view(),
            },
            RemoteReply::Failure(reason) => RemoteReplyView::Failure(reason@),
        }
    }
}

/// The work-item types of a list of items: each once, in the order in which
/// they first occur.
pub open spec fn distinct_types(items: Seq<WorkItemView>) -> Seq<Seq<char>>
    decreases items.len(),
{
    if items.len() == 0 {
        Seq::empty()
    } else {
        let before = distinct_types(items.drop_last());
        if before.contains(items.last().work_item_type) {
            before
        } else {
            before.push(items.last().work_item_type)
        }
    }
}

/// The work-item types of a list of items: each once, in the order in which
/// they first occur.
pub fn collect_types(items: &Vec<WorkItem>) -> (types: Vec<String>)
    ensures
        types.deep_view() == distinct_types(items.deep_view()),
{
    let ghost all = items.deep_view();
    let mut types: Vec<String> = Vec::new();
    let mut i: usize = 0;
    assert(all.take(0) =~= Seq::<WorkItemView>::empty());
    assert(types.deep_view() =~= Seq::<Seq<char>>::empty());
    while i < items.len()
        invariant
            i <= items@.len(),
            all == items.deep_view(),
            types.deep_view() == distinct_types(all.take(i as int)),
        decreases items@.len() - i,
    {
        assert(all.take(i as int + 1).drop_last() =~= all.take(i as int));
        assert(all.take(i as int + 1).last() == items@[i as int]@);
        let ghost before = types.deep_view();
        let found = texts_contain(&types, items[i].work_item_type.as_str());
        proof {
            lemma_contains_by_text(types@, items@[i as int].work_item_type@);
            assert(types.deep_view() =~= Seq::new(types@.len(), |k: int| types@[k]@));
        }
        if !found {
            types.push(items[i].work_item_type.clone());
            assert(types.deep_view() =~= before.push(items@[i as int]@.work_item_type));
        }
        i += 1;
    }
    assert(all.take(i as int) =~= all);
    types
}

/// The reference name of a type by the directory, or its display name
/// where the directory does not know the type.
pub open spec fn reference_or_display(names: Seq<TypeNameView>, display_name: Seq<char>) -> Seq<
    char,
> {
    match reference_name_of(names, display_name) {
        Some(reference_name) => reference_name,
        None => display_name,
    }
}

/// The fresh layout that the store holds for a type, read by the display
/// name first and by the reference name second.
pub open spec fn layout_on_disk(
    shelf: Map<Seq<char>, EntryView<Seq<LayoutControlView>>>,
    names: Seq<TypeNameView>,
    organization: Seq<char>,
    project: Seq<char>,
    display_name: Seq<char>,
    now: u64,
    max_age: u64,
) -> Option<Seq<LayoutControlView>> {
    fresh_layout_either(
        shelf,
        organization,
        project,
        display_name,
        reference_or_display(names, display_name),
        now,
        max_age,
    )
}

/// What the check of the layouts yields: the layouts held in memory
/// afterwards, and the types whose layout is missing.
pub struct LayoutCheck {
    pub layouts: Map<TypeKeyView, Seq<LayoutControlView>>,
    pub missing: Seq<Seq<char>>,
}

/// Checks the layouts of `types` in order. A layout that is held in memory
/// is available. One that is not, but is fresh in the store, is taken into
/// memory. Any other is missing.
pub open spec fn layout_check(
    memory: Map<TypeKeyView, Seq<LayoutControlView>>,
    shelf: Map<Seq<char>, EntryView<Seq<LayoutControlView>>>,
    names: Seq<TypeNameView>,
    organization: Seq<char>,
    project: Seq<char>,
    types: Seq<Seq<char>>,
    now: u64,
    max_age: u64,
) -> LayoutCheck
    decreases types.len(),
{
    if types.len() == 0 {
        LayoutCheck { layouts: memory, missing: Seq::empty() }
    } else {
        let before = layout_check(
            memory,
            shelf,
            names,
            organization,
            project,
            types.drop_last(),
            now,
            max_age,
        );
        let key = type_key(organization, project, types.last());
        if before.layouts.dom().contains(key) {
            before
        } else {
            match layout_on_disk(shelf, names, organization, project, types.last(), now, max_age) {
                Some(controls) => LayoutCheck {
                    layouts: before.layouts.insert(key, controls),
                    missing: before.missing,
                },
                None => LayoutCheck {
                    layouts: before.layouts,
                    missing: before.missing.push(types.last()),
                },
            }
        }
    }
}

/// What the check of the field metadata yields: the metadata held in memory
/// afterwards, and the types whose metadata has to be fetched.
pub struct FieldCheck {
    pub field_meta: Map<Seq<char>, Seq<FieldInfoView>>,
    pub to_fetch: Seq<Seq<char>>,
}

/// The file name of the field metadata of a type.
pub open spec fn field_meta_name_of(
    organization: Seq<char>,
    project: Seq<char>,
    display_name: Seq<char>,
) -> Seq<char> {
    field_meta_file_name(type_key(organization, project, display_name))
}

/// Checks the field metadata of `types` in order. Metadata that is fresh in
/// the store is taken into memory; any other has to be fetched.
pub open spec fn field_check(
    memory: Map<Seq<char>, Seq<FieldInfoView>>,
    shelf: Map<Seq<char>, EntryView<Seq<FieldInfoView>>>,
    organization: Seq<char>,
    project: Seq<char>,
    types: Seq<Seq<char>>,
    now: u64,
    max_age: u64,
) -> FieldCheck
    decreases types.len(),
{
    if types.len() == 0 {
        FieldCheck { field_meta: memory, to_fetch: Seq::empty() }
    } else {
        let before = field_check(
            memory,
            shelf,
            organization,
            project,
            types.drop_last(),
            now,
            max_age,
        );
        match fresh_payload(
            shelf,
            field_meta_name_of(organization, project, types.last()),
            now,
            max_age,
        ) {
            Some(fields) => FieldCheck {
                field_meta: before.field_meta.insert(types.last(), fields),
                to_fetch: before.to_fetch,
            },
            None => FieldCheck {
                field_meta: before.field_meta,
                to_fetch: before.to_fetch.push(types.last()),
            },
        }
    }
}

/// The layouts to fetch: the missing types that the directory knows, each
/// with its reference name, in order.
pub open spec fn layout_plan(missing: Seq<Seq<char>>, names: Seq<TypeNameView>) -> Seq<
    TypeNameView,
>
    decreases missing.len(),
{
    if missing.len() == 0 {
        Seq::empty()
    } else {
        let before = layout_plan(missing.drop_last(), names);
        match reference_name_of(names, missing.last()) {
            Some(reference_name) => before.push(
                TypeNameView { display_name: missing.last(), reference_name },
            ),
            None => before,
        }
    }
}

/// The store and the memory after fetched layouts were taken in.
pub struct MergedLayouts {
    pub shelf: Map<Seq<char>, EntryView<Seq<LayoutControlView>>>,
    pub memory: Map<TypeKeyView, Seq<LayoutControlView>>,
}

/// Takes in fetched layouts in order: each is written to the store under
/// both names of its type and held in memory under the display name.
pub open spec fn layouts_merged(
    shelf: Map<Seq<char>, EntryView<Seq<LayoutControlView>>>,
    memory: Map<TypeKeyView, Seq<LayoutControlView>>,
    organization: Seq<char>,
    project: Seq<char>,
    fetched: Seq<FetchedLayoutView>,
    now: u64,
) -> MergedLayouts
    decreases fetched.len(),
{
    if fetched.len() == 0 {
        MergedLayouts { shelf, memory }
    } else {
        let before = layouts_merged(shelf, memory, organization, project, fetched.drop_last(), now);
        let layout = fetched.last();
        MergedLayouts {
            shelf: stored(
                stored(
                    before.shelf,
                    layout_name_of(organization, project, layout.reference_name),
                    now,
                    layout.controls,
                ),
                layout_name_of(organization, project, layout.display_name),
                now,
                layout.controls,
            ),
            memory: before.memory.insert(
                type_key(organization, project, layout.display_name),
                layout.controls,
            ),
        }
    }
}

/// The store and the memory after fetched field metadata was taken in.
pub struct MergedFieldMeta {
    pub shelf: Map<Seq<char>, EntryView<Seq<FieldInfoView>>>,
    pub memory: Map<Seq<char>, Seq<FieldInfoView>>,
}

/// Takes in fetched field metadata in order: each is written to the store
/// and held in memory under the display name of its type.
pub open spec fn field_meta_merged(
    shelf: Map<Seq<char>, EntryView<Seq<FieldInfoView>>>,
    memory: Map<Seq<char>, Seq<FieldInfoView>>,
    organization: Seq<char>,
    project: Seq<char>,
    fetched: Seq<FetchedFieldMetaView>,
    now: u64,
) -> MergedFieldMeta
    decreases fetched.len(),
{
    if fetched.len() == 0 {
        MergedFieldMeta { shelf, memory }
    } else {
        let before = field_meta_merged(
            shelf,
            memory,
            organization,
            project,
            fetched.drop_last(),
            now,
        );
        let meta = fetched.last();
        MergedFieldMeta {
            shelf: stored(
                before.shelf,
                field_meta_name_of(organization, project, meta.display_name),
                now,
                meta.fields,
            ),
            memory: before.memory.insert(meta.display_name, meta.fields),
        }
    }
}

/// What a transition of the machine yields: the run, the memory and the
/// store afterwards, and the step to take.
pub struct Outcome {
    pub run: RefreshRunView,
    pub meta: MetadataView,
    pub store: CacheStoreView,
    pub step: StepView,
}

/// The end of a complete load: the policy goes back to `Normal`.
pub open spec fn finished(run: RefreshRunView, meta: MetadataView, store: CacheStoreView) -> Outcome {
    Outcome {
        run: RefreshRunView { phase: LoadPhase::Finished, ..run },
        meta: MetadataView { policy: RefreshPolicy::Normal, ..meta },
        store,
        step: StepView::Loaded,
    }
}

/// The id of the process that is known, or the empty text.
pub open spec fn known_process_id(meta: MetadataView) -> Seq<char> {
    match meta.process_id {
        Some(id) => id,
        None => Seq::empty(),
    }
}

/// The last part of a load, once the items and the missing layouts are
/// known: decides which field metadata to fetch, and asks for the two
/// groups, or ends the load where there is nothing to fetch. Under `Full`
/// the field metadata of every type is fetched and the store is not read.
pub open spec fn metadata_planned(
    run: RefreshRunView,
    meta: MetadataView,
    store: CacheStoreView,
    now: u64,
    max_age: u64,
) -> Outcome {
    let types = distinct_types(run.items);
    let layouts = layout_plan(run.missing, meta.type_names);
    let check = if meta.policy is Full {
        FieldCheck { field_meta: meta.field_meta, to_fetch: types }
    } else {
        field_check(
            meta.field_meta,
            store.field_meta,
            run.source.organization,
            run.source.project,
            types,
            now,
            max_age,
        )
    };
    let held = MetadataView { field_meta: check.field_meta, ..meta };
    if layouts.len() == 0 && check.to_fetch.len() == 0 {
        finished(run, held, store)
    } else {
        Outcome {
            run: RefreshRunView { phase: LoadPhase::FetchingMetadata, ..run },
            meta: held,
            store,
            step: StepView::Call(
                RemoteCallView::FetchMetadata {
                    organization: run.source.organization,
                    project: run.source.project,
                    process_id: known_process_id(meta),
                    layouts,
                    field_meta: check.to_fetch,
                },
            ),
        }
    }
}

/// The middle part of a load, once the items are known: decides which
/// layouts are missing. Where one is missing, or under `Full`, it asks for
/// the project id, the first call of the type directory; else it goes on
/// to the field metadata. Under `Full` every layout is missing and the
/// store is not read.
pub open spec fn items_known(
    run: RefreshRunView,
    meta: MetadataView,
    store: CacheStoreView,
    now: u64,
    max_age: u64,
) -> Outcome {
    let types = distinct_types(run.items);
    let check = if meta.policy is Full {
        LayoutCheck { layouts: meta.layouts, missing: types }
    } else {
        layout_check(
            meta.layouts,
            store.layouts,
            meta.type_names,
            run.source.organization,
            run.source.project,
            types,
            now,
            max_age,
        )
    };
    let held = MetadataView { layouts: check.layouts, ..meta };
    let next = RefreshRunView { missing: check.missing, ..run };
    if check.missing.len() > 0 || meta.policy is Full {
        Outcome {
            run: RefreshRunView { phase: LoadPhase::FetchingProjectId, ..next },
            meta: held,
            store,
            step: StepView::Call(
                RemoteCallView::FetchProjectId {
                    organization: run.source.organization,
                    project: run.source.project,
                },
            ),
        }
    } else {
        metadata_planned(next, held, store, now, max_age)
    }
}

/// The first call of a load whose items have to be fetched.
pub open spec fn first_call(source: SourceView) -> RemoteCallView {
    match source.kind {
        SourceKindView::Backlog => RemoteCallView::ListBacklogItemIds {
            organization: source.organization,
            project: source.project,
            team: source.team,
        },
        SourceKindView::Iteration(path) => RemoteCallView::ResolveIterationId {
            organization: source.organization,
            project: source.project,
            team: source.team,
            iteration: path,
        },
    }
}

/// The phase of a load that has made its first call.
pub open spec fn first_phase(source: SourceView) -> LoadPhase {
    match source.kind {
        SourceKindView::Backlog => LoadPhase::ListingItemIds,
        SourceKindView::Iteration(_) => LoadPhase::ResolvingIteration,
    }
}

/// The file name under which the items of a source are cached.
pub open spec fn items_name_of(source: SourceView) -> Seq<char> {
    work_items_file_name(work_items_key_of(source))
}

/// The start of a load. Under `Full` the layouts and the field metadata in
/// memory are forgotten first, and the store is not read. Under `Normal`
/// fresh items from the store are used, and no call is made for items.
pub open spec fn started(
    meta: MetadataView,
    store: CacheStoreView,
    source: SourceView,
    now: u64,
    max_age: u64,
) -> Outcome {
    let held = if meta.policy is Full {
        MetadataView { layouts: Map::empty(), field_meta: Map::empty(), ..meta }
    } else {
        meta
    };
    let cached = if meta.policy is Full {
        None
    } else {
        fresh_payload(store.work_items, items_name_of(source), now, max_age)
    };
    let run = RefreshRunView {
        phase: first_phase(source),
        source,
        items: Seq::empty(),
        missing: Seq::empty(),
        process_id: Seq::empty(),
    };
    match cached {
        Some(items) => items_known(RefreshRunView { items, ..run }, held, store, now, max_age),
        None => Outcome { run, meta: held, store, step: StepView::Call(first_call(source)) },
    }
}

/// The machine stops a load: the phase becomes `Aborted`.
pub open spec fn aborted(
    run: RefreshRunView,
    meta: MetadataView,
    store: CacheStoreView,
    reason: Seq<char>,
) -> Outcome {
    Outcome {
        run: RefreshRunView { phase: LoadPhase::Aborted, ..run },
        meta,
        store,
        step: StepView::Failed(reason),
    }
}

/// The machine goes on to `phase` and asks for `call`.
pub open spec fn calling(
    run: RefreshRunView,
    meta: MetadataView,
    store: CacheStoreView,
    phase: LoadPhase,
    call: RemoteCallView,
) -> Outcome {
    Outcome { run: RefreshRunView { phase, ..run }, meta, store, step: StepView::Call(call) }
}

/// The end of a load whose metadata has come: layouts and field metadata
/// are written to the store and held in memory.
pub open spec fn metadata_taken(
    run: RefreshRunView,
    meta: MetadataView,
    store: CacheStoreView,
    layouts: Seq<FetchedLayoutView>,
    field_meta: Seq<FetchedFieldMetaView>,
    now: u64,
) -> Outcome {
    let merged_layouts = layouts_merged(
        store.layouts,
        meta.layouts,
        run.source.organization,
        run.source.project,
        layouts,
        now,
    );
    let merged_fields = field_meta_merged(
        store.field_meta,
        meta.field_meta,
        run.source.organization,
        run.source.project,
        field_meta,
        now,
    );
    finished(
        run,
        MetadataView { layouts: merged_layouts.memory, field_meta: merged_fields.memory, ..meta },
        CacheStoreView {
            layouts: merged_layouts.shelf,
            field_meta: merged_fields.shelf,
            ..store
        },
    )
}

/// One transition of the machine: what a reply makes of a load.
///
/// A failure stops the load, whatever it waited for. A reply that the
/// phase does not wait for stops it too. A load that has ended takes no
/// reply and stays as it is.
///
/// The type directory, when it comes, takes the place of the directory and
/// of the process id that were known. Nothing else in memory is dropped
/// with them: layouts and field metadata are held by organization, project
/// and display name, so none of them depends on the directory. (Under
/// `Full` they were forgotten when the load started.)
pub open spec fn advanced(
    run: RefreshRunView,
    meta: MetadataView,
    store: CacheStoreView,
    reply: RemoteReplyView,
    now: u64,
    max_age: u64,
) -> Outcome {
    if run.phase is Finished || run.phase is Aborted {
        Outcome { run, meta, store, step: StepView::Failed("no load in progress"@) }
    } else {
        match (run.phase, reply) {
            (_, RemoteReplyView::Failure(reason)) => aborted(run, meta, store, reason),
            (LoadPhase::ResolvingIteration, RemoteReplyView::IterationId(id)) => calling(
                run,
                meta,
                store,
                LoadPhase::ListingItemIds,
                RemoteCallView::ListIterationItemIds {
                    organization: run.source.organization,
                    project: run.source.project,
                    team: run.source.team,
                    iteration_id: id,
                },
            ),
            (LoadPhase::ListingItemIds, RemoteReplyView::ItemIds(ids)) => calling(
                run,
                meta,
                store,
                LoadPhase::FetchingItems,
                RemoteCallView::FetchItems {
                    organization: run.source.organization,
                    project: run.source.project,
                    ids,
                },
            ),
            (LoadPhase::FetchingItems, RemoteReplyView::Items(items)) => items_known(
                RefreshRunView { items, ..run },
                meta,
                CacheStoreView {
                    work_items: stored(store.work_items, items_name_of(run.source), now, items),
                    ..store
                },
                now,
                max_age,
            ),
            (LoadPhase::FetchingProjectId, RemoteReplyView::ProjectId(id)) => calling(
                run,
                meta,
                store,
                LoadPhase::FetchingProcessId,
                RemoteCallView::FetchProcessTemplateId {
                    organization: run.source.organization,
                    project_id: id,
                },
            ),
            (LoadPhase::FetchingProcessId, RemoteReplyView::ProcessId(id)) => calling(
                RefreshRunView { process_id: id, ..run },
                meta,
                store,
                LoadPhase::ListingTypes,
                RemoteCallView::ListProcessWorkItemTypes {
                    organization: run.source.organization,
                    process_id: id,
                },
            ),
            (LoadPhase::ListingTypes, RemoteReplyView::TypeDirectory(names)) => metadata_planned(
                run,
                MetadataView { type_names: names, process_id: Some(run.process_id), ..meta },
                store,
                now,
                max_age,
            ),
            (
                LoadPhase::FetchingMetadata,
                RemoteReplyView::Metadata { layouts, field_meta },
            ) => metadata_taken(run, meta, store, layouts, field_meta, now),
            _ => aborted(run, meta, store, "unexpected reply"@),
        }
    }
}

/// Checks the layouts of `types`: takes into memory what the store holds
/// fresh, and returns the types whose layout is missing.
fn check_layouts(
    meta: &mut MetadataCache,
    store: &CacheStore,
    organization: &str,
    project: &str,
    types: &Vec<String>,
    now: u64,
    max_age: u64,
) -> (missing: Vec<String>)
    requires
        old(meta).wf(),
        store.wf(),
    ensures
        final(meta).wf(),
        ({
            let check = layout_check(
                old(meta)@.layouts,
                store@.layouts,
                old(meta)@.type_names,
                organization@,
                project@,
                types.deep_view(),
                now,
                max_age,
            );
            &&& final(meta)@ == (MetadataView { layouts: check.layouts, ..old(meta)@ })
            &&& missing.deep_view() == check.missing
        }),
{
    let ghost all = types.deep_view();
    let mut missing: Vec<String> = Vec::new();
    let mut i: usize = 0;
    assert(all.take(0) =~= Seq::<Seq<char>>::empty());
    assert(missing.deep_view() =~= Seq::<Seq<char>>::empty());
    while i < types.len()
        invariant
            i <= types@.len(),
            meta.wf(),
            store.wf(),
            all == types.deep_view(),
            ({
                let check = layout_check(
                    old(meta)@.layouts,
                    store@.layouts,
                    old(meta)@.type_names,
                    organization@,
                    project@,
                    all.take(i as int),
                    now,
                    max_age,
                );
                &&& meta@ == (MetadataView { layouts: check.layouts, ..old(meta)@ })
                &&& missing.deep_view() == check.missing
            }),
        decreases types@.len() - i,
    {
        assert(all.take(i as int + 1).drop_last() =~= all.take(i as int));
        assert(all.take(i as int + 1).last() == types@[i as int]@);
        let ghost before = missing.deep_view();
        let display_name = &types[i];
        let held = meta.layout(organization, project, display_name.as_str()).is_some();
        if !held {
            let reference_name = match find_reference_name(meta.type_names(), display_name.as_str()) {
                Some(name) => name.clone(),
                None => display_name.clone(),
            };
            match read_layout_cache_either_at(
                store,
                organization,
                project,
                display_name.as_str(),
                reference_name.as_str(),
                now,
                max_age,
            ) {
                Some(controls) => {
                    meta.insert_layout(organization, project, display_name.as_str(), &controls);
                },
                None => {
                    missing.push(display_name.clone());
                    assert(missing.deep_view() =~= before.push(types@[i as int]@));
                },
            }
        }
        i += 1;
    }
    assert(all.take(i as int) =~= all);
    missing
}

/// Checks the field metadata of `types`: takes into memory what the store
/// holds fresh, and returns the types whose metadata has to be fetched.
fn check_field_meta(
    meta: &mut MetadataCache,
    store: &CacheStore,
    organization: &str,
    project: &str,
    types: &Vec<String>,
    now: u64,
    max_age: u64,
) -> (to_fetch: Vec<String>)
    requires
        old(meta).wf(),
        store.wf(),
    ensures
        final(meta).wf(),
        ({
            let check = field_check(
                old(meta)@.field_meta,
                store@.field_meta,
                organization@,
                project@,
                types.deep_view(),
                now,
                max_age,
            );
            &&& final(meta)@ == (MetadataView { field_meta: check.field_meta, ..old(meta)@ })
            &&& to_fetch.deep_view() == check.to_fetch
        }),
{
    let ghost all = types.deep_view();
    let mut to_fetch: Vec<String> = Vec::new();
    let mut i: usize = 0;
    assert(all.take(0) =~= Seq::<Seq<char>>::empty());
    assert(to_fetch.deep_view() =~= Seq::<Seq<char>>::empty());
    while i < types.len()
        invariant
            i <= types@.len(),
            meta.wf(),
            store.wf(),
            all == types.deep_view(),
            ({
                let check = field_check(
                    old(meta)@.field_meta,
                    store@.field_meta,
                    organization@,
                    project@,
                    all.take(i as int),
                    now,
                    max_age,
                );
                &&& meta@ == (MetadataView { field_meta: check.field_meta, ..old(meta)@ })
                &&& to_fetch.deep_view() == check.to_fetch
            }),
        decreases types@.len() - i,
    {
        assert(all.take(i as int + 1).drop_last() =~= all.take(i as int));
        assert(all.take(i as int + 1).last() == types@[i as int]@);
        let ghost before = to_fetch.deep_view();
        let display_name = &types[i];
        let key = FieldMetaCacheKey {
            organization: String::from_str(organization),
            project: String::from_str(project),
            work_item_type: display_name.clone(),
        };
        match read_field_meta_cache_at(store, &key, now, max_age) {
            Some(fields) => {
                meta.insert_field_meta(display_name.as_str(), &fields);
            },
            None => {
                to_fetch.push(display_name.clone());
                assert(to_fetch.deep_view() =~= before.push(types@[i as int]@));
            },
        }
        i += 1;
    }
    assert(all.take(i as int) =~= all);
    to_fetch
}

/// The layouts to fetch for the missing types.
fn plan_layouts(missing: &Vec<String>, names: &Vec<TypeName>) -> (plan: Vec<TypeName>)
    ensures
        plan.deep_view() == layout_plan(missing.deep_view(), names.deep_view()),
{
    let ghost all = missing.deep_view();
    let mut plan: Vec<TypeName> = Vec::new();
    let mut i: usize = 0;
    assert(all.take(0) =~= Seq::<Seq<char>>::empty());
    assert(plan.deep_view() =~= Seq::<TypeNameView>::empty());
    while i < missing.len()
        invariant
            i <= missing@.len(),
            all == missing.deep_view(),
            plan.deep_view() == layout_plan(all.take(i as int), names.deep_view()),
        decreases missing@.len() - i,
    {
        assert(all.take(i as int + 1).drop_last() =~= all.take(i as int));
        assert(all.take(i as int + 1).last() == missing@[i as int]@);
        let ghost before = plan.deep_view();
        match find_reference_name(names, missing[i].as_str()) {
            Some(reference_name) => {
                let entry = TypeName {
                    display_name: missing[i].clone(),
                    reference_name: reference_name.clone(),
                };
                plan.push(entry);
                assert(plan.deep_view() =~= before.push(entry@));
            },
            None => {},
        }
        i += 1;
    }
    assert(all.take(i as int) =~= all);
    plan
}

/// Takes in fetched layouts: writes each to the store under both names of
/// its type and holds it in memory.
fn take_layouts(
    meta: &mut MetadataCache,
    store: &mut CacheStore,
    organization: &str,
    project: &str,
    fetched: &Vec<FetchedLayout>,
    now: u64,
)
    requires
        old(meta).wf(),
        old(store).wf(),
    ensures
        final(meta).wf(),
        final(store).wf(),
        ({
            let merged = layouts_merged(
                old(store)@.layouts,
                old(meta)@.layouts,
                organization@,
                project@,
                fetched.deep_view(),
                now,
            );
            &&& final(meta)@ == (MetadataView { layouts: merged.memory, ..old(meta)@ })
            &&& final(store)@ == (CacheStoreView { layouts: merged.shelf, ..old(store)@ })
        }),
{
    let ghost all = fetched.deep_view();
    let mut i: usize = 0;
    assert(all.take(0) =~= Seq::<FetchedLayoutView>::empty());
    while i < fetched.len()
        invariant
            i <= fetched@.len(),
            meta.wf(),
            store.wf(),
            all == fetched.deep_view(),
            ({
                let merged = layouts_merged(
                    old(store)@.layouts,
                    old(meta)@.layouts,
                    organization@,
                    project@,
                    all.take(i as int),
                    now,
                );
                &&& meta@ == (MetadataView { layouts: merged.memory, ..old(meta)@ })
                &&& store@ == (CacheStoreView { layouts: merged.shelf, ..old(store)@ })
            }),
        decreases fetched@.len() - i,
    {
        assert(all.take(i as int + 1).drop_last() =~= all.take(i as int));
        assert(all.take(i as int + 1).last() == fetched@[i as int]@);
        let layout = &fetched[i];
        write_layout_cache_dual_at(
            store,
            organization,
            project,
            layout.display_name.as_str(),
            layout.reference_name.as_str(),
            now,
            &layout.controls,
        );
        meta.insert_layout(organization, project, layout.display_name.as_str(), &layout.controls);
        i += 1;
    }
    assert(all.take(i as int) =~= all);
}

/// Takes in fetched field metadata: writes each to the store and holds it
/// in memory.
fn take_field_meta(
    meta: &mut MetadataCache,
    store: &mut CacheStore,
    organization: &str,
    project: &str,
    fetched: &Vec<FetchedFieldMeta>,
    now: u64,
)
    requires
        old(meta).wf(),
        old(store).wf(),
    ensures
        final(meta).wf(),
        final(store).wf(),
        ({
            let merged = field_meta_merged(
                old(store)@.field_meta,
                old(meta)@.field_meta,
                organization@,
                project@,
                fetched.deep_view(),
                now,
            );
            &&& final(meta)@ == (MetadataView { field_meta: merged.memory, ..old(meta)@ })
            &&& final(store)@ == (CacheStoreView { field_meta: merged.shelf, ..old(store)@ })
        }),
{
    let ghost all = fetched.deep_view();
    let mut i: usize = 0;
    assert(all.take(0) =~= Seq::<FetchedFieldMetaView>::empty());
    while i < fetched.len()
        invariant
            i <= fetched@.len(),
            meta.wf(),
            store.wf(),
            all == fetched.deep_view(),
            ({
                let merged = field_meta_merged(
                    old(store)@.field_meta,
                    old(meta)@.field_meta,
                    organization@,
                    project@,
                    all.take(i as int),
                    now,
                );
                &&& meta@ == (MetadataView { field_meta: merged.memory, ..old(meta)@ })
                &&& store@ == (CacheStoreView { field_meta: merged.shelf, ..old(store)@ })
            }),
        decreases fetched@.len() - i,
    {
        assert(all.take(i as int + 1).drop_last() =~= all.take(i as int));
        assert(all.take(i as int + 1).last() == fetched@[i as int]@);
        let entry = &fetched[i];
        let key = FieldMetaCacheKey {
            organization: String::from_str(organization),
            project: String::from_str(project),
            work_item_type: entry.display_name.clone(),
        };
        write_field_meta_cache_at(store, &key, now, &entry.fields);
        meta.insert_field_meta(entry.display_name.as_str(), &entry.fields);
        i += 1;
    }
    assert(all.take(i as int) =~= all);
}

/// Ends a complete load.
fn finish(run: &mut RefreshRun, meta: &mut MetadataCache) -> (step: Step)
    requires
        old(meta).wf(),
    ensures
        final(meta).wf(),
        final(run)@ == (RefreshRunView { phase: LoadPhase::Finished, ..old(run)@ }),
        final(meta)@ == (MetadataView { policy: RefreshPolicy::Normal, ..old(meta)@ }),
        step@ == StepView::Loaded,
{
    run.phase = LoadPhase::Finished;
    meta.set_policy(RefreshPolicy::Normal);
    Step::Loaded
}

/// The last part of a load: see [`metadata_planned`].
fn plan_metadata(
    run: &mut RefreshRun,
    meta: &mut MetadataCache,
    store: &CacheStore,
    now: u64,
    max_age: u64,
) -> (step: Step)
    requires
        old(meta).wf(),
        store.wf(),
    ensures
        final(meta).wf(),
        final(run)@ == metadata_planned(old(run)@, old(meta)@, store@, now, max_age).run,
        final(meta)@ == metadata_planned(old(run)@, old(meta)@, store@, now, max_age).meta,
        step@ == metadata_planned(old(run)@, old(meta)@, store@, now, max_age).step,
{
    let types = collect_types(&run.items);
    let layouts = plan_layouts(&run.missing, meta.type_names());
    let process_id = match meta.process_id() {
        Some(id) => id.clone(),
        None => String::new(),
    };
    let to_fetch = match meta.policy() {
        RefreshPolicy::Full => types,
        RefreshPolicy::Normal => check_field_meta(
            meta,
            store,
            run.source.organization.as_str(),
            run.source.project.as_str(),
            &types,
            now,
            max_age,
        ),
    };
    if layouts.len() == 0 && to_fetch.len() == 0 {
        finish(run, meta)
    } else {
        run.phase = LoadPhase::FetchingMetadata;
        Step::Call(
            RemoteCall::FetchMetadata {
                organization: run.source.organization.clone(),
                project: run.source.project.clone(),
                process_id,
                layouts,
                field_meta: to_fetch,
            },
        )
    }
}

/// The middle part of a load: see [`items_known`].
fn handle_items(
    run: &mut RefreshRun,
    meta: &mut MetadataCache,
    store: &CacheStore,
    now: u64,
    max_age: u64,
) -> (step: Step)
    requires
        old(meta).wf(),
        store.wf(),
    ensures
        final(meta).wf(),
        final(run)@ == items_known(old(run)@, old(meta)@, store@, now, max_age).run,
        final(meta)@ == items_known(old(run)@, old(meta)@, store@, now, max_age).meta,
        step@ == items_known(old(run)@, old(meta)@, store@, now, max_age).step,
{
    let types = collect_types(&run.items);
    let full = match meta.policy() {
        RefreshPolicy::Full => true,
        RefreshPolicy::Normal => false,
    };
    let missing = if full {
        types
    } else {
        check_layouts(
            meta,
            store,
            run.source.organization.as_str(),
            run.source.project.as_str(),
            &types,
            now,
            max_age,
        )
    };
    let fetch_directory = missing.len() > 0 || full;
    run.missing = missing;
    if fetch_directory {
        run.phase = LoadPhase::FetchingProjectId;
        Step::Call(
            RemoteCall::FetchProjectId {
                organization: run.source.organization.clone(),
                project: run.source.project.clone(),
            },
        )
    } else {
        plan_metadata(run, meta, store, now, max_age)
    }
}

/// The first call of a load whose items have to be fetched.
fn first_call_of(source: &Source) -> (call: RemoteCall)
    ensures
        call@ == first_call(source@),
{
    match &source.kind {
        SourceKind::Backlog => RemoteCall::ListBacklogItemIds {
            organization: source.organization.clone(),
            project: source.project.clone(),
            team: source.team.clone(),
        },
        SourceKind::Iteration(path) => RemoteCall::ResolveIterationId {
            organization: source.organization.clone(),
            project: source.project.clone(),
            team: source.team.clone(),
            iteration: path.clone(),
        },
    }
}

/// Starts a load of `source` at the time `now`, under the policy that the
/// memory holds. Returns the run and its first step: a call to make, or
/// `Loaded` where the cache had everything.
pub fn start_load(
    meta: &mut MetadataCache,
    store: &CacheStore,
    source: &Source,
    now: u64,
    max_age: u64,
) -> (started_run: (RefreshRun, Step))
    requires
        old(meta).wf(),
        store.wf(),
    ensures
        final(meta).wf(),
        started_run.0@ == started(old(meta)@, store@, source@, now, max_age).run,
        final(meta)@ == started(old(meta)@, store@, source@, now, max_age).meta,
        started_run.1@ == started(old(meta)@, store@, source@, now, max_age).step,
{
    let full = match meta.policy() {
        RefreshPolicy::Full => true,
        RefreshPolicy::Normal => false,
    };
    if full {
        meta.clear_metadata();
    }
    let cached = if full {
        None
    } else {
        let key = work_items_key(source);
        read_work_items_cache_at(store, &key, now, max_age)
    };
    let phase = match &source.kind {
        SourceKind::Backlog => LoadPhase::ListingItemIds,
        SourceKind::Iteration(_) => LoadPhase::ResolvingIteration,
    };
    let mut run = RefreshRun {
        phase,
        source: source.clone(),
        items: Vec::new(),
        missing: Vec::new(),
        process_id: String::new(),
    };
    assert(run.items.deep_view() =~= Seq::<WorkItemView>::empty());
    assert(run.missing.deep_view() =~= Seq::<Seq<char>>::empty());
    match cached {
        Some(items) => {
            run.items = items;
            let step = handle_items(&mut run, meta, store, now, max_age);
            (run, step)
        },
        None => {
            let step = Step::Call(first_call_of(source));
            (run, step)
        },
    }
}

/// Stops a load.
fn abort(run: &mut RefreshRun, reason: String) -> (step: Step)
    ensures
        final(run)@ == (RefreshRunView { phase: LoadPhase::Aborted, ..old(run)@ }),
        step@ == StepView::Failed(reason@),
{
    run.phase = LoadPhase::Aborted;
    Step::Failed(reason)
}

/// Hands the machine the reply to its last call, at the time `now`, and
/// returns the next step.
pub fn advance(
    run: &mut RefreshRun,
    meta: &mut MetadataCache,
    store: &mut CacheStore,
    reply: RemoteReply,
    now: u64,
    max_age: u64,
) -> (step: Step)
    requires
        old(meta).wf(),
        old(store).wf(),
    ensures
        final(meta).wf(),
        final(store).wf(),
        final(run)@ == advanced(old(run)@, old(meta)@, old(store)@, reply@, now, max_age).run,
        final(meta)@ == advanced(old(run)@, old(meta)@, old(store)@, reply@, now, max_age).meta,
        final(store)@ == advanced(old(run)@, old(meta)@, old(store)@, reply@, now, max_age).store,
        step@ == advanced(old(run)@, old(meta)@, old(store)@, reply@, now, max_age).step,
{
    match run.phase {
        LoadPhase::Finished | LoadPhase::Aborted => {
            return Step::Failed(String::from_str("no load in progress"));
        },
        _ => {},
    }
    match reply {
        RemoteReply::Failure(reason) => abort(run, reason),
        RemoteReply::IterationId(id) => match run.phase {
            LoadPhase::ResolvingIteration => {
                run.phase = LoadPhase::ListingItemIds;
                Step::Call(
                    RemoteCall::ListIterationItemIds {
                        organization: run.source.organization.clone(),
                        project: run.source.project.clone(),
                        team: run.source.team.clone(),
                        iteration_id: id,
                    },
                )
            },
            _ => abort(run, String::from_str("unexpected reply")),
        },
        RemoteReply::ItemIds(ids) => match run.phase {
            LoadPhase::ListingItemIds => {
                run.phase = LoadPhase::FetchingItems;
                Step::Call(
                    RemoteCall::FetchItems {
                        organization: run.source.organization.clone(),
                        project: run.source.project.clone(),
                        ids,
                    },
                )
            },
            _ => abort(run, String::from_str("unexpected reply")),
        },
        RemoteReply::Items(items) => match run.phase {
            LoadPhase::FetchingItems => {
                let key = work_items_key(&run.source);
                write_work_items_cache_at(store, &key, now, &items);
                run.items = items;
                handle_items(run, meta, store, now, max_age)
            },
            _ => abort(run, String::from_str("unexpected reply")),
        },
        RemoteReply::ProjectId(id) => match run.phase {
            LoadPhase::FetchingProjectId => {
                run.phase = LoadPhase::FetchingProcessId;
                Step::Call(
                    RemoteCall::FetchProcessTemplateId {
                        organization: run.source.organization.clone(),
                        project_id: id,
                    },
                )
            },
            _ => abort(run, String::from_str("unexpected reply")),
        },
        RemoteReply::ProcessId(id) => match run.phase {
            LoadPhase::FetchingProcessId => {
                run.phase = LoadPhase::ListingTypes;
                run.process_id = id.clone();
                Step::Call(
                    RemoteCall::ListProcessWorkItemTypes {
                        organization: run.source.organization.clone(),
                        process_id: id,
                    },
                )
            },
            _ => abort(run, String::from_str("unexpected reply")),
        },
        RemoteReply::TypeDirectory(names) => match run.phase {
            LoadPhase::ListingTypes => {
                meta.set_directory(run.process_id.clone(), names);
                plan_metadata(run, meta, store, now, max_age)
            },
            _ => abort(run, String::from_str("unexpected reply")),
        },
        RemoteReply::Metadata { layouts, field_meta } => match run.phase {
            LoadPhase::FetchingMetadata => {
                take_layouts(
                    meta,
                    store,
                    run.source.organization.as_str(),
                    run.source.project.as_str(),
                    &layouts,
                    now,
                );
                take_field_meta(
                    meta,
                    store,
                    run.source.organization.as_str(),
                    run.source.project.as_str(),
                    &field_meta,
                    now,
                );
                finish(run, meta)
            },
            _ => abort(run, String::from_str("unexpected reply")),
        },
    }
}

} // verus!
