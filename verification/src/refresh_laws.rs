//! What holds of every load: the effect of the two refresh policies.

use vstd::prelude::*;
use crate::cache::{fresh_payload, CacheStoreView};
use crate::metadata::{type_key, MetadataView, RefreshPolicy, TypeNameView};
use crate::models::{FieldInfoView, LayoutControlView, WorkItemView};
use crate::refresh::{
    advanced,
    distinct_types,
    field_check,
    field_meta_name_of,
    first_call,
    items_name_of,
    layout_check,
    layout_on_disk,
    layout_plan,
    started,
    LoadPhase,
    RefreshRunView,
    RemoteCallView,
    RemoteReplyView,
    StepView,
};
use crate::shelf::EntryView;
use crate::source::SourceView;
use crate::cache_keys::TypeKeyView;

verus! {

/// Whether the layout of a type is at hand without a call: held in memory,
/// or fresh in the store under one of the type's two names.
pub open spec fn layout_at_hand(
    meta: MetadataView,
    store: CacheStoreView,
    organization: Seq<char>,
    project: Seq<char>,
    display_name: Seq<char>,
    now: u64,
    max_age: u64,
) -> bool {
    meta.layouts.dom().contains(type_key(organization, project, display_name)) || layout_on_disk(
        store.layouts,
        meta.type_names,
        organization,
        project,
        display_name,
        now,
        max_age,
    ) is Some
}

/// Whether the field metadata of a type is fresh in the store.
pub open spec fn field_meta_at_hand(
    store: CacheStoreView,
    organization: Seq<char>,
    project: Seq<char>,
    display_name: Seq<char>,
    now: u64,
    max_age: u64,
) -> bool {
    fresh_payload(
        store.field_meta,
        field_meta_name_of(organization, project, display_name),
        now,
        max_age,
    ) is Some
}

/// Where every layout is at hand, the check finds none missing, and it
/// forgets nothing that memory held.
pub proof fn lemma_no_layout_missing(
    memory: Map<TypeKeyView, Seq<LayoutControlView>>,
    shelf: Map<Seq<char>, EntryView<Seq<LayoutControlView>>>,
    names: Seq<TypeNameView>,
    organization: Seq<char>,
    project: Seq<char>,
    types: Seq<Seq<char>>,
    now: u64,
    max_age: u64,
)
    requires
        forall|i: int|
            0 <= i < types.len() ==> memory.dom().contains(
                type_key(organization, project, #[trigger] types[i]),
            ) || layout_on_disk(shelf, names, organization, project, types[i], now, max_age)
                is Some,
    ensures
        layout_check(memory, shelf, names, organization, project, types, now, max_age).missing.len()
            == 0,
        forall|key: TypeKeyView|
            memory.dom().contains(key) ==> layout_check(
                memory,
                shelf,
                names,
                organization,
                project,
                types,
                now,
                max_age,
            ).layouts.dom().contains(key),
    decreases types.len(),
{
    if types.len() > 0 {
        let rest = types.drop_last();
        assert forall|i: int| 0 <= i < rest.len() implies memory.dom().contains(
            type_key(organization, project, #[trigger] rest[i]),
        ) || layout_on_disk(shelf, names, organization, project, rest[i], now, max_age)
            is Some by {
            assert(rest[i] == types[i]);
        }
        lemma_no_layout_missing(memory, shelf, names, organization, project, rest, now, max_age);
        assert(types.last() == types[types.len() - 1]);
    }
}

/// Where the field metadata of every type is fresh in the store, the check
/// finds none to fetch.
pub proof fn lemma_no_field_meta_to_fetch(
    memory: Map<Seq<char>, Seq<FieldInfoView>>,
    shelf: Map<Seq<char>, EntryView<Seq<FieldInfoView>>>,
    organization: Seq<char>,
    project: Seq<char>,
    types: Seq<Seq<char>>,
    now: u64,
    max_age: u64,
)
    requires
        forall|i: int|
            0 <= i < types.len() ==> fresh_payload(
                shelf,
                field_meta_name_of(organization, project, #[trigger] types[i]),
                now,
                max_age,
            ) is Some,
    ensures
        field_check(memory, shelf, organization, project, types, now, max_age).to_fetch.len() == 0,
    decreases types.len(),
{
    if types.len() > 0 {
        let rest = types.drop_last();
        assert forall|i: int| 0 <= i < rest.len() implies fresh_payload(
            shelf,
            field_meta_name_of(organization, project, #[trigger] rest[i]),
            now,
            max_age,
        ) is Some by {
            assert(rest[i] == types[i]);
        }
        lemma_no_field_meta_to_fetch(memory, shelf, organization, project, rest, now, max_age);
        assert(types.last() == types[types.len() - 1]);
    }
}

/// Under `Normal`, with fresh items in the store and the layout and the
/// field metadata of each of their types at hand, a load makes no call: its
/// first step is `Loaded`, it holds the cached items, and the policy stays
/// `Normal`.
pub proof fn lemma_normal_load_from_fresh_cache_makes_no_call(
    meta: MetadataView,
    store: CacheStoreView,
    source: SourceView,
    items: Seq<WorkItemView>,
    now: u64,
    max_age: u64,
)
    requires
        meta.policy is Normal,
        fresh_payload(store.work_items, items_name_of(source), now, max_age) == Some(items),
        forall|i: int|
            0 <= i < distinct_types(items).len() ==> layout_at_hand(
                meta,
                store,
                source.organization,
                source.project,
                #[trigger] distinct_types(items)[i],
                now,
                max_age,
            ) && field_meta_at_hand(
                store,
                source.organization,
                source.project,
                distinct_types(items)[i],
                now,
                max_age,
            ),
    ensures
        started(meta, store, source, now, max_age).step == StepView::Loaded,
        started(meta, store, source, now, max_age).run.items == items,
        started(meta, store, source, now, max_age).run.phase == LoadPhase::Finished,
        started(meta, store, source, now, max_age).store == store,
        started(meta, store, source, now, max_age).meta.policy == RefreshPolicy::Normal,
{
    let types = distinct_types(items);
    lemma_no_layout_missing(
        meta.layouts,
        store.layouts,
        meta.type_names,
        source.organization,
        source.project,
        types,
        now,
        max_age,
    );
    let check = layout_check(
        meta.layouts,
        store.layouts,
        meta.type_names,
        source.organization,
        source.project,
        types,
        now,
        max_age,
    );
    assert(check.missing =~= Seq::<Seq<char>>::empty());
    lemma_no_field_meta_to_fetch(
        meta.field_meta,
        store.field_meta,
        source.organization,
        source.project,
        types,
        now,
        max_age,
    );
}

/// Under `Full` a load starts by forgetting the layouts and the field
/// metadata in memory and asks for the items, whatever the store holds.
pub proof fn lemma_full_load_fetches_items(
    meta: MetadataView,
    store: CacheStoreView,
    source: SourceView,
    now: u64,
    max_age: u64,
)
    requires
        meta.policy is Full,
    ensures
        started(meta, store, source, now, max_age).step == StepView::Call(first_call(source)),
        started(meta, store, source, now, max_age).meta.layouts == Map::<
            TypeKeyView,
            Seq<LayoutControlView>,
        >::empty(),
        started(meta, store, source, now, max_age).meta.field_meta == Map::<
            Seq<char>,
            Seq<FieldInfoView>,
        >::empty(),
        started(meta, store, source, now, max_age).meta.policy == RefreshPolicy::Full,
{
}

/// Under `Full`, once the items have come, every one of their types counts
/// as missing a layout and the type directory is asked for, whatever the
/// store and the memory hold.
pub proof fn lemma_full_load_fetches_directory(
    run: RefreshRunView,
    meta: MetadataView,
    store: CacheStoreView,
    items: Seq<WorkItemView>,
    now: u64,
    max_age: u64,
)
    requires
        meta.policy is Full,
        run.phase is FetchingItems,
    ensures
        ({
            let after = advanced(run, meta, store, RemoteReplyView::Items(items), now, max_age);
            &&& after.step == StepView::Call(
                RemoteCallView::FetchProjectId {
                    organization: run.source.organization,
                    project: run.source.project,
                },
            )
            &&& after.run.missing == distinct_types(items)
            &&& after.run.items == items
            &&& after.run.phase == LoadPhase::FetchingProjectId
        }),
{
}

/// Under `Full`, once the type directory has come, the layout of every type
/// that the directory knows and the field metadata of every type are asked
/// for, whatever the store holds; where the items have no type at all, the
/// load ends.
pub proof fn lemma_full_load_fetches_metadata(
    run: RefreshRunView,
    meta: MetadataView,
    store: CacheStoreView,
    names: Seq<TypeNameView>,
    now: u64,
    max_age: u64,
)
    requires
        meta.policy is Full,
        run.phase is ListingTypes,
        run.missing == distinct_types(run.items),
    ensures
        ({
            let after = advanced(
                run,
                meta,
                store,
                RemoteReplyView::TypeDirectory(names),
                now,
                max_age,
            );
            if distinct_types(run.items).len() == 0 {
                after.step == StepView::Loaded
            } else {
                after.step == StepView::Call(
                    RemoteCallView::FetchMetadata {
                        organization: run.source.organization,
                        project: run.source.project,
                        process_id: run.process_id,
                        layouts: layout_plan(distinct_types(run.items), names),
                        field_meta: distinct_types(run.items),
                    },
                )
            }
        }),
{
    if distinct_types(run.items).len() == 0 {
        assert(layout_plan(run.missing, names).len() == 0);
    }
}

/// A load that runs to its end leaves the policy `Normal`, whatever it was:
/// a full refresh is a matter of one load.
pub proof fn lemma_complete_load_reverts_policy(
    run: RefreshRunView,
    meta: MetadataView,
    store: CacheStoreView,
    reply: RemoteReplyView,
    now: u64,
    max_age: u64,
)
    requires
        advanced(run, meta, store, reply, now, max_age).step is Loaded,
    ensures
        advanced(run, meta, store, reply, now, max_age).meta.policy == RefreshPolicy::Normal,
        advanced(run, meta, store, reply, now, max_age).run.phase == LoadPhase::Finished,
{
}

/// A failure stops a load that is under way and changes neither the memory
/// nor the store: what was written before stays.
pub proof fn lemma_failure_stops_load(
    run: RefreshRunView,
    meta: MetadataView,
    store: CacheStoreView,
    reason: Seq<char>,
    now: u64,
    max_age: u64,
)
    requires
        !(run.phase is Finished),
        !(run.phase is Aborted),
    ensures
        advanced(run, meta, store, RemoteReplyView::Failure(reason), now, max_age).step
            == StepView::Failed(reason),
        advanced(run, meta, store, RemoteReplyView::Failure(reason), now, max_age).run.phase
            == LoadPhase::Aborted,
        advanced(run, meta, store, RemoteReplyView::Failure(reason), now, max_age).meta == meta,
        advanced(run, meta, store, RemoteReplyView::Failure(reason), now, max_age).store == store,
{
}

/// A new type directory takes the place of the old one and of the process
/// id, and drops no layout from memory: what memory held before the reply,
/// it holds after it.
pub proof fn lemma_directory_keeps_layouts(
    run: RefreshRunView,
    meta: MetadataView,
    store: CacheStoreView,
    names: Seq<TypeNameView>,
    now: u64,
    max_age: u64,
)
    requires
        run.phase is ListingTypes,
    ensures
        ({
            let after = advanced(
                run,
                meta,
                store,
                RemoteReplyView::TypeDirectory(names),
                now,
                max_age,
            );
            &&& after.meta.type_names == names
            &&& after.meta.process_id == Some(run.process_id)
            &&& after.meta.layouts == meta.layouts
            &&& after.store == store
        }),
{
}

} // verus!
