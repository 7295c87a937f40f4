//! The cache store: three namespaces of timestamped entries, read with a
//! freshness rule and written with the time of writing.
//!
//! The store holds its entries in memory. Reading from and writing to disk is
//! left to the caller, who walks the shelves and restores entries into them.

use vstd::prelude::*;
use crate::cache_keys::{
    WorkItemsCacheKey,
    LayoutCacheKey,
    FieldMetaCacheKey,
    work_items_file_name,
    layout_file_name,
    field_meta_file_name,
    work_items_cache_name,
    layout_cache_name,
    field_meta_cache_name,
};
use crate::models::{
    WorkItem,
    WorkItemView,
    LayoutControlEntry,
    LayoutControlView,
    WorkItemFieldInfo,
    FieldInfoView,
    copy_items,
    copy_controls,
    copy_field_infos,
};
use crate::shelf::{EntryView, Shelf};

verus! {

/// The freshness window that applies where none is given: one hour.
pub const DEFAULT_MAX_AGE_SECS: u64 = 3600;

/// The latest time that the clock is read as, in seconds since the Unix
/// epoch: a later reading counts as this one. So an entry with a later
/// stamp is never fresh by the clock.
pub const LATEST_TIME: u64 = 0x7fff_ffff_ffff_ffff;

/// An entry written at `updated_at` is fresh at `now` when it was written
/// at or before `now` and is at most `max_age` seconds old. An entry that
/// is stamped later than `now` is not fresh: it counts as a miss.
pub open spec fn fresh(updated_at: u64, now: u64, max_age: u64) -> bool {
    updated_at <= now && now - updated_at <= max_age
}

/// What a read of `name` at `now` yields from a namespace: the payload of the
/// entry stored there, if there is one and it is fresh.
pub open spec fn fresh_payload<V>(
    shelf: Map<Seq<char>, EntryView<V>>,
    name: Seq<char>,
    now: u64,
    max_age: u64,
) -> Option<V> {
    if shelf.dom().contains(name) && fresh(shelf[name].updated_at, now, max_age) {
        Some(shelf[name].payload)
    } else {
        None
    }
}

/// What a write of `payload` under `name` at `now` makes of a namespace.
pub open spec fn stored<V>(
    shelf: Map<Seq<char>, EntryView<V>>,
    name: Seq<char>,
    now: u64,
    payload: V,
) -> Map<Seq<char>, EntryView<V>> {
    shelf.insert(name, EntryView { updated_at: now, payload })
}

/// `SystemTime::now`, as whole seconds since the Unix epoch; zero where the
/// clock stands before the epoch. Nothing is claimed of the value.
#[verifier::external_body]
pub(crate) fn now_secs() -> u64 {
    std::time::SystemTime::now().duration_since(std::time::UNIX_EPOCH).unwrap_or_default().as_secs()
}

/// Whether an entry written at `updated_at` is fresh at `now`.
pub fn is_fresh_at(updated_at: u64, now: u64, max_age: u64) -> (r: bool)
    ensures
        r == fresh(updated_at, now, max_age),
{
    now >= updated_at && now - updated_at <= max_age
}

/// Reads the system clock, in whole seconds since the Unix epoch; a reading
/// later than [`LATEST_TIME`] counts as that time.
pub fn clock_reading() -> (now: u64)
    ensures
        now <= LATEST_TIME,
{
    let now = now_secs();
    if now > LATEST_TIME {
        LATEST_TIME
    } else {
        now
    }
}

/// Whether an entry written at `updated_at` is fresh by the system clock.
/// An entry that is stamped later than [`LATEST_TIME`] never is.
pub fn is_fresh(updated_at: u64, max_age: u64) -> (r: bool)
    ensures
        exists|now: u64| now <= LATEST_TIME && r == #[trigger] fresh(updated_at, now, max_age),
        updated_at > LATEST_TIME ==> !r,
{
    let now = clock_reading();
    is_fresh_at(updated_at, now, max_age)
}

/// The cache store.
pub struct CacheStore {
    work_items: Shelf<Vec<WorkItem>>,
    layouts: Shelf<Vec<LayoutControlEntry>>,
    field_meta: Shelf<Vec<WorkItemFieldInfo>>,
}

/// The mathematical value of a [`CacheStore`]: per namespace, the entries by
/// file name.
pub struct CacheStoreView {
    pub work_items: Map<Seq<char>, EntryView<Seq<WorkItemView>>>,
    pub layouts: Map<Seq<char>, EntryView<Seq<LayoutControlView>>>,
    pub field_meta: Map<Seq<char>, EntryView<Seq<FieldInfoView>>>,
}

impl View for CacheStore {
    type V = CacheStoreView;

    closed spec fn view(&self) -> CacheStoreView {
        CacheStoreView {
            work_items: self.work_items@,
            layouts: self.layouts@,
            field_meta: self.field_meta@,
        }
    }
}

impl CacheStore {
    /// In each namespace no file name is stored twice.
    pub closed spec fn wf(&self) -> bool {
        self.work_items.wf() && self.layouts.wf() && self.field_meta.wf()
    }

    /// A store without entries.
    pub fn new() -> (store: Self)
        ensures
            store.wf(),
            store@.work_items == Map::<Seq<char>, EntryView<Seq<WorkItemView>>>::empty(),
            store@.layouts == Map::<Seq<char>, EntryView<Seq<LayoutControlView>>>::empty(),
            store@.field_meta == Map::<Seq<char>, EntryView<Seq<FieldInfoView>>>::empty(),
    {
        CacheStore { work_items: Shelf::new(), layouts: Shelf::new(), field_meta: Shelf::new() }
    }

    /// The work-items namespace, for walking through its entries.
    pub fn work_items_shelf(&self) -> (shelf: &Shelf<Vec<WorkItem>>)
        requires
            self.wf(),
        ensures
            shelf.wf(),
            shelf@ == self@.work_items,
    {
        &self.work_items
    }

    /// The layout namespace, for walking through its entries.
    pub fn layout_shelf(&self) -> (shelf: &Shelf<Vec<LayoutControlEntry>>)
        requires
            self.wf(),
        ensures
            shelf.wf(),
            shelf@ == self@.layouts,
    {
        &self.layouts
    }

    /// The field-metadata namespace, for walking through its entries.
    pub fn field_meta_shelf(&self) -> (shelf: &Shelf<Vec<WorkItemFieldInfo>>)
        requires
            self.wf(),
        ensures
            shelf.wf(),
            shelf@ == self@.field_meta,
    {
        &self.field_meta
    }

    /// Puts back a work-items entry as it was found on disk, with the time
    /// it carries.
    pub fn restore_work_items(&mut self, file_name: String, updated_at: u64, items: Vec<WorkItem>)
        requires
            old(self).wf(),
        ensures
            final(self).wf(),
            final(self)@ == (CacheStoreView {
                work_items: stored(old(self)@.work_items, file_name@, updated_at, items.deep_view()),
                ..old(self)@
            }),
    {
        self.work_items.put(file_name, updated_at, items);
    }

    /// Puts back a layout entry as it was found on disk, with the time it
    /// carries.
    pub fn restore_layout(
        &mut self,
        file_name: String,
        updated_at: u64,
        controls: Vec<LayoutControlEntry>,
    )
        requires
            old(self).wf(),
        ensures
            final(self).wf(),
            final(self)@ == (CacheStoreView {
                layouts: stored(old(self)@.layouts, file_name@, updated_at, controls.deep_view()),
                ..old(self)@
            }),
    {
        self.layouts.put(file_name, updated_at, controls);
    }

    /// Puts back a field-metadata entry as it was found on disk, with the
    /// time it carries.
    pub fn restore_field_meta(
        &mut self,
        file_name: String,
        updated_at: u64,
        fields: Vec<WorkItemFieldInfo>,
    )
        requires
            old(self).wf(),
        ensures
            final(self).wf(),
            final(self)@ == (CacheStoreView {
                field_meta: stored(old(self)@.field_meta, file_name@, updated_at, fields.deep_view()),
                ..old(self)@
            }),
    {
        self.field_meta.put(file_name, updated_at, fields);
    }
}

/// Reads the items cached under `key` at the time `now`: `None` where
/// nothing is stored or what is stored is older than `max_age`.
pub fn read_work_items_cache_at(
    store: &CacheStore,
    key: &WorkItemsCacheKey,
    now: u64,
    max_age: u64,
) -> (r: Option<Vec<WorkItem>>)
    requires
        store.wf(),
    ensures
        r.deep_view() == fresh_payload(
            store@.work_items,
            work_items_file_name(key@),
            now,
            max_age,
        ),
{
    let name = work_items_cache_name(key);
    match store.work_items.get(name.as_str()) {
        Some(slot) => {
            if is_fresh_at(slot.updated_at, now, max_age) {
                Some(copy_items(&slot.payload))
            } else {
                None
            }
        },
        None => None,
    }
}

/// Stores `items` under `key` with the time `now`, in place of what was
/// stored there.
pub fn write_work_items_cache_at(
    store: &mut CacheStore,
    key: &WorkItemsCacheKey,
    now: u64,
    items: &Vec<WorkItem>,
)
    requires
        old(store).wf(),
    ensures
        final(store).wf(),
        final(store)@ == (CacheStoreView {
            work_items: stored(
                old(store)@.work_items,
                work_items_file_name(key@),
                now,
                items.deep_view(),
            ),
            ..old(store)@
        }),
{
    let name = work_items_cache_name(key);
    store.work_items.put(name, now, copy_items(items));
}

/// Reads the layout cached under `key` at the time `now`.
pub fn read_layout_cache_at(store: &CacheStore, key: &LayoutCacheKey, now: u64, max_age: u64) -> (r:
    Option<Vec<LayoutControlEntry>>)
    requires
        store.wf(),
    ensures
        r.deep_view() == fresh_payload(store@.layouts, layout_file_name(key@), now, max_age),
{
    let name = layout_cache_name(key);
    match store.layouts.get(name.as_str()) {
        Some(slot) => {
            if is_fresh_at(slot.updated_at, now, max_age) {
                Some(copy_controls(&slot.payload))
            } else {
                None
            }
        },
        None => None,
    }
}

/// Stores `controls` under `key` with the time `now`.
pub fn write_layout_cache_at(
    store: &mut CacheStore,
    key: &LayoutCacheKey,
    now: u64,
    controls: &Vec<LayoutControlEntry>,
)
    requires
        old(store).wf(),
    ensures
        final(store).wf(),
        final(store)@ == (CacheStoreView {
            layouts: stored(old(store)@.layouts, layout_file_name(key@), now, controls.deep_view()),
            ..old(store)@
        }),
{
    let name = layout_cache_name(key);
    store.layouts.put(name, now, copy_controls(controls));
}

/// Reads the field metadata cached under `key` at the time `now`.
pub fn read_field_meta_cache_at(
    store: &CacheStore,
    key: &FieldMetaCacheKey,
    now: u64,
    max_age: u64,
) -> (r: Option<Vec<WorkItemFieldInfo>>)
    requires
        store.wf(),
    ensures
        r.deep_view() == fresh_payload(store@.field_meta, field_meta_file_name(key@), now, max_age),
{
    let name = field_meta_cache_name(key);
    match store.field_meta.get(name.as_str()) {
        Some(slot) => {
            if is_fresh_at(slot.updated_at, now, max_age) {
                Some(copy_field_infos(&slot.payload))
            } else {
                None
            }
        },
        None => None,
    }
}

/// Stores `fields` under `key` with the time `now`.
pub fn write_field_meta_cache_at(
    store: &mut CacheStore,
    key: &FieldMetaCacheKey,
    now: u64,
    fields: &Vec<WorkItemFieldInfo>,
)
    requires
        old(store).wf(),
    ensures
        final(store).wf(),
        final(store)@ == (CacheStoreView {
            field_meta: stored(
                old(store)@.field_meta,
                field_meta_file_name(key@),
                now,
                fields.deep_view(),
            ),
            ..old(store)@
        }),
{
    let name = field_meta_cache_name(key);
    store.field_meta.put(name, now, copy_field_infos(fields));
}

/// The layout key of a work-item type under one of its two names.
pub fn layout_key(organization: &str, project: &str, item_type: &str) -> (key: LayoutCacheKey)
    ensures
        key@.organization == organization@,
        key@.project == project@,
        key@.work_item_type == item_type@,
{
    LayoutCacheKey {
        organization: String::from_str(organization),
        project: String::from_str(project),
        work_item_type: String::from_str(item_type),
    }
}

/// The file name of the layout of a work-item type under one of its two names.
pub open spec fn layout_name_of(
    organization: Seq<char>,
    project: Seq<char>,
    item_type: Seq<char>,
) -> Seq<char> {
    layout_file_name(
        crate::cache_keys::TypeKeyView { organization, project, work_item_type: item_type },
    )
}

/// What a read of a layout yields that tries the type's display name first
/// and its reference name second.
pub open spec fn fresh_layout_either(
    layouts: Map<Seq<char>, EntryView<Seq<LayoutControlView>>>,
    organization: Seq<char>,
    project: Seq<char>,
    display_name: Seq<char>,
    reference_name: Seq<char>,
    now: u64,
    max_age: u64,
) -> Option<Seq<LayoutControlView>> {
    match fresh_payload(layouts, layout_name_of(organization, project, display_name), now, max_age) {
        Some(controls) => Some(controls),
        None => fresh_payload(
            layouts,
            layout_name_of(organization, project, reference_name),
            now,
            max_age,
        ),
    }
}

/// Stores a layout under both names of its work-item type: first under the
/// reference name, then under the display name.
pub fn write_layout_cache_dual_at(
    store: &mut CacheStore,
    organization: &str,
    project: &str,
    display_name: &str,
    reference_name: &str,
    now: u64,
    controls: &Vec<LayoutControlEntry>,
)
    requires
        old(store).wf(),
    ensures
        final(store).wf(),
        final(store)@ == (CacheStoreView {
            layouts: stored(
                stored(
                    old(store)@.layouts,
                    layout_name_of(organization@, project@, reference_name@),
                    now,
                    controls.deep_view(),
                ),
                layout_name_of(organization@, project@, display_name@),
                now,
                controls.deep_view(),
            ),
            ..old(store)@
        }),
{
    let by_reference = layout_key(organization, project, reference_name);
    write_layout_cache_at(store, &by_reference, now, controls);
    let by_display = layout_key(organization, project, display_name);
    write_layout_cache_at(store, &by_display, now, controls);
}

/// Reads a layout by the display name of its work-item type and, where that
/// yields nothing fresh, by the reference name.
pub fn read_layout_cache_either_at(
    store: &CacheStore,
    organization: &str,
    project: &str,
    display_name: &str,
    reference_name: &str,
    now: u64,
    max_age: u64,
) -> (r: Option<Vec<LayoutControlEntry>>)
    requires
        store.wf(),
    ensures
        r.deep_view() == fresh_layout_either(
            store@.layouts,
            organization@,
            project@,
            display_name@,
            reference_name@,
            now,
            max_age,
        ),
{
    let by_display = layout_key(organization, project, display_name);
    match read_layout_cache_at(store, &by_display, now, max_age) {
        Some(controls) => Some(controls),
        None => {
            let by_reference = layout_key(organization, project, reference_name);
            read_layout_cache_at(store, &by_reference, now, max_age)
        },
    }
}

/// Reads the items cached under `key` by the system clock.
pub fn read_work_items_cache(store: &CacheStore, key: &WorkItemsCacheKey, max_age: u64) -> (r:
    Option<Vec<WorkItem>>)
    requires
        store.wf(),
    ensures
        exists|now: u64|
            now <= LATEST_TIME && r.deep_view() == #[trigger] fresh_payload(
                store@.work_items,
                work_items_file_name(key@),
                now,
                max_age,
            ),
{
    let now = clock_reading();
    read_work_items_cache_at(store, key, now, max_age)
}

/// Stores `items` under `key` with the time of the system clock.
pub fn write_work_items_cache(store: &mut CacheStore, key: &WorkItemsCacheKey, items: &Vec<WorkItem>)
    requires
        old(store).wf(),
    ensures
        final(store).wf(),
        final(store)@.layouts == old(store)@.layouts,
        final(store)@.field_meta == old(store)@.field_meta,
        exists|now: u64|
            now <= LATEST_TIME && final(store)@.work_items == #[trigger] stored(
                old(store)@.work_items,
                work_items_file_name(key@),
                now,
                items.deep_view(),
            ),
{
    let now = clock_reading();
    write_work_items_cache_at(store, key, now, items);
}

/// Reads the layout cached under `key` by the system clock.
pub fn read_layout_cache(store: &CacheStore, key: &LayoutCacheKey, max_age: u64) -> (r: Option<
    Vec<LayoutControlEntry>,
>)
    requires
        store.wf(),
    ensures
        exists|now: u64|
            now <= LATEST_TIME && r.deep_view() == #[trigger] fresh_payload(
                store@.layouts,
                layout_file_name(key@),
                now,
                max_age,
            ),
{
    let now = clock_reading();
    read_layout_cache_at(store, key, now, max_age)
}

/// Stores `controls` under `key` with the time of the system clock.
pub fn write_layout_cache(
    store: &mut CacheStore,
    key: &LayoutCacheKey,
    controls: &Vec<LayoutControlEntry>,
)
    requires
        old(store).wf(),
    ensures
        final(store).wf(),
        final(store)@.work_items == old(store)@.work_items,
        final(store)@.field_meta == old(store)@.field_meta,
        exists|now: u64|
            now <= LATEST_TIME && final(store)@.layouts == #[trigger] stored(
                old(store)@.layouts,
                layout_file_name(key@),
                now,
                controls.deep_view(),
            ),
{
    let now = clock_reading();
    write_layout_cache_at(store, key, now, controls);
}

/// Reads the field metadata cached under `key` by the system clock.
pub fn read_field_meta_cache(store: &CacheStore, key: &FieldMetaCacheKey, max_age: u64) -> (r:
    Option<Vec<WorkItemFieldInfo>>)
    requires
        store.wf(),
    ensures
        exists|now: u64|
            now <= LATEST_TIME && r.deep_view() == #[trigger] fresh_payload(
                store@.field_meta,
                field_meta_file_name(key@),
                now,
                max_age,
            ),
{
    let now = clock_reading();
    read_field_meta_cache_at(store, key, now, max_age)
}

/// Stores `fields` under `key` with the time of the system clock.
pub fn write_field_meta_cache(
    store: &mut CacheStore,
    key: &FieldMetaCacheKey,
    fields: &Vec<WorkItemFieldInfo>,
)
    requires
        old(store).wf(),
    ensures
        final(store).wf(),
        final(store)@.work_items == old(store)@.work_items,
        final(store)@.layouts == old(store)@.layouts,
        exists|now: u64|
            now <= LATEST_TIME && final(store)@.field_meta == #[trigger] stored(
                old(store)@.field_meta,
                field_meta_file_name(key@),
                now,
                fields.deep_view(),
            ),
{
    let now = clock_reading();
    write_field_meta_cache_at(store, key, now, fields);
}

/// A payload written at `written_at` is read back unchanged at every `now`
/// from `written_at` to `written_at + max_age`, and is not read back at any
/// other time.
pub proof fn lemma_write_then_read<V>(
    shelf: Map<Seq<char>, EntryView<V>>,
    name: Seq<char>,
    written_at: u64,
    payload: V,
    now: u64,
    max_age: u64,
)
    ensures
        written_at <= now <= written_at + max_age ==> fresh_payload(
            stored(shelf, name, written_at, payload),
            name,
            now,
            max_age,
        ) == Some(payload),
        now > written_at + max_age ==> fresh_payload(
            stored(shelf, name, written_at, payload),
            name,
            now,
            max_age,
        ) is None,
        now < written_at ==> fresh_payload(
            stored(shelf, name, written_at, payload),
            name,
            now,
            max_age,
        ) is None,
{
}

/// An entry that is stamped later than `now` is a miss, however wide the
/// window; so no read by the clock yields an entry that is stamped later
/// than [`LATEST_TIME`].
pub proof fn lemma_later_stamp_is_a_miss<V>(
    shelf: Map<Seq<char>, EntryView<V>>,
    name: Seq<char>,
    now: u64,
    max_age: u64,
)
    requires
        shelf.dom().contains(name),
        shelf[name].updated_at > now,
    ensures
        !fresh(shelf[name].updated_at, now, max_age),
        fresh_payload(shelf, name, now, max_age) is None,
        shelf[name].updated_at > LATEST_TIME ==> forall|clock: u64|
            clock <= LATEST_TIME ==> #[trigger] fresh_payload(shelf, name, clock, max_age) is None,
{
}

/// Of two writes under one name only the second is left: the namespace is
/// as if the first had not happened, and a read yields the second payload
/// or nothing.
pub proof fn lemma_last_write_wins<V>(
    shelf: Map<Seq<char>, EntryView<V>>,
    name: Seq<char>,
    first_at: u64,
    first: V,
    second_at: u64,
    second: V,
    now: u64,
    max_age: u64,
)
    ensures
        stored(stored(shelf, name, first_at, first), name, second_at, second) == stored(
            shelf,
            name,
            second_at,
            second,
        ),
        fresh_payload(
            stored(stored(shelf, name, first_at, first), name, second_at, second),
            name,
            now,
            max_age,
        ) == (if fresh(second_at, now, max_age) {
            Some(second)
        } else {
            None
        }),
{
    assert(stored(stored(shelf, name, first_at, first), name, second_at, second) =~= stored(
        shelf,
        name,
        second_at,
        second,
    ));
}

/// A write under one name leaves what is read under every other name as it
/// was.
pub proof fn lemma_write_keeps_other_names<V>(
    shelf: Map<Seq<char>, EntryView<V>>,
    name: Seq<char>,
    written_at: u64,
    payload: V,
    other: Seq<char>,
    now: u64,
    max_age: u64,
)
    requires
        other != name,
    ensures
        fresh_payload(stored(shelf, name, written_at, payload), other, now, max_age)
            == fresh_payload(shelf, other, now, max_age),
{
}

/// A layout written under both names of its type is read back by either
/// name while it is fresh.
pub proof fn lemma_dual_write_then_read(
    layouts: Map<Seq<char>, EntryView<Seq<LayoutControlView>>>,
    organization: Seq<char>,
    project: Seq<char>,
    display_name: Seq<char>,
    reference_name: Seq<char>,
    written_at: u64,
    controls: Seq<LayoutControlView>,
    now: u64,
    max_age: u64,
)
    requires
        fresh(written_at, now, max_age),
    ensures
        ({
            let after = stored(
                stored(
                    layouts,
                    layout_name_of(organization, project, reference_name),
                    written_at,
                    controls,
                ),
                layout_name_of(organization, project, display_name),
                written_at,
                controls,
            );
            &&& fresh_payload(
                after,
                layout_name_of(organization, project, display_name),
                now,
                max_age,
            ) == Some(controls)
            &&& fresh_payload(
                after,
                layout_name_of(organization, project, reference_name),
                now,
                max_age,
            ) == Some(controls)
            &&& fresh_layout_either(
                after,
                organization,
                project,
                display_name,
                reference_name,
                now,
                max_age,
            ) == Some(controls)
        }),
{
}

} // verus!
