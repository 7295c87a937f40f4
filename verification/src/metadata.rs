//! What the client keeps in memory between loads: the policy of the next
//! load, the layouts and field metadata by work-item type, the names of the
//! types and the id of the process.

use vstd::prelude::*;
use crate::cache_keys::{LayoutCacheKey, TypeKeyView};
use crate::models::{
    copy_controls,
    copy_field_infos,
    FieldInfoView,
    LayoutControlEntry,
    LayoutControlView,
    WorkItemFieldInfo,
};
use crate::table::Table;
use crate::text::same_text;

verus! {

/// How a load treats the cache: `Normal` prefers it, `Full` reads nothing
/// from it and fetches everything anew. Both write what they fetch.
#[derive(Clone, Copy, Debug, PartialEq, Eq, Structural)]
pub enum RefreshPolicy {
    Normal,
    Full,
}

/// The two names of a work-item type: the one that is shown and the one
/// that the process knows it by.
#[derive(Debug, PartialEq, Eq)]
pub struct TypeName {
    pub display_name: String,
    pub reference_name: String,
}

/// The mathematical value of a [`TypeName`].
pub struct TypeNameView {
    pub display_name: Seq<char>,
    pub reference_name: Seq<char>,
}

impl View for TypeName {
    type V = TypeNameView;

    open spec fn view(&self) -> TypeNameView {
        TypeNameView { display_name: self.display_name@, reference_name: self.reference_name@ }
    }
}

impl DeepView for TypeName {
    type V = TypeNameView;

    open spec fn deep_view(&self) -> TypeNameView {
        self@
    }
}

impl Clone for TypeName {
    fn clone(&self) -> (r: Self)
        ensures
            r@ == self@,
    {
        TypeName {
            display_name: self.display_name.clone(),
            reference_name: self.reference_name.clone(),
        }
    }
}

/// The reference name that a directory gives for a display name: that of the
/// first pair with that display name.
pub open spec fn reference_name_of(names: Seq<TypeNameView>, display_name: Seq<char>) -> Option<
    Seq<char>,
>
    decreases names.len(),
{
    if names.len() == 0 {
        None
    } else if names[0].display_name == display_name {
        Some(names[0].reference_name)
    } else {
        reference_name_of(names.drop_first(), display_name)
    }
}

/// The reference name that a directory gives for a display name.
pub fn find_reference_name<'a>(names: &'a Vec<TypeName>, display_name: &str) -> (r: Option<
    &'a String,
>)
    ensures
        match r {
            Some(name) => reference_name_of(names.deep_view(), display_name@) == Some(name@),
            None => reference_name_of(names.deep_view(), display_name@) is None,
        },
{
    let ghost all = names.deep_view();
    let mut i: usize = 0;
    assert(all.skip(0) =~= all);
    while i < names.len()
        invariant
            i <= names@.len(),
            all == names.deep_view(),
            reference_name_of(all, display_name@) == reference_name_of(
                all.skip(i as int),
                display_name@,
            ),
        decreases names@.len() - i,
    {
        assert(all.skip(i as int).drop_first() =~= all.skip(i as int + 1));
        assert(all.skip(i as int)[0] == names@[i as int]@);
        if same_text(names[i].display_name.as_str(), display_name) {
            return Some(&names[i].reference_name);
        }
        i += 1;
    }
    None
}

/// The in-memory state that outlives a load.
pub struct MetadataCache {
    policy: RefreshPolicy,
    layouts: Table<LayoutCacheKey, Vec<LayoutControlEntry>>,
    field_meta: Table<String, Vec<WorkItemFieldInfo>>,
    type_names: Vec<TypeName>,
    process_id: Option<String>,
}

/// The mathematical value of a [`MetadataCache`]: the layouts by
/// organization, project and display name of the type; the field metadata
/// by display name of the type; the directory of type names and the id of
/// the process that were fetched last.
pub struct MetadataView {
    pub policy: RefreshPolicy,
    pub layouts: Map<TypeKeyView, Seq<LayoutControlView>>,
    pub field_meta: Map<Seq<char>, Seq<FieldInfoView>>,
    pub type_names: Seq<TypeNameView>,
    pub process_id: Option<Seq<char>>,
}

impl View for MetadataCache {
    type V = MetadataView;

    closed spec fn view(&self) -> MetadataView {
        MetadataView {
            policy: self.policy,
            layouts: self.layouts@,
            field_meta: self.field_meta@,
            type_names: self.type_names.deep_view(),
            process_id: self.process_id.deep_view(),
        }
    }
}

/// A layout key from its three parts.
pub open spec fn type_key(
    organization: Seq<char>,
    project: Seq<char>,
    work_item_type: Seq<char>,
) -> TypeKeyView {
    TypeKeyView { organization, project, work_item_type }
}

impl MetadataCache {
    /// No key is held twice.
    pub closed spec fn wf(&self) -> bool {
        self.layouts.wf() && self.field_meta.wf()
    }

    /// The policy of the next load.
    pub fn policy(&self) -> (policy: RefreshPolicy)
        ensures
            policy == self@.policy,
    {
        self.policy
    }

    /// The directory of type names that was fetched last.
    pub fn type_names(&self) -> (names: &Vec<TypeName>)
        ensures
            names.deep_view() == self@.type_names,
    {
        &self.type_names
    }

    /// The id of the process that was fetched last.
    pub fn process_id(&self) -> (id: &Option<String>)
        ensures
            id.deep_view() == self@.process_id,
    {
        &self.process_id
    }

    /// An empty cache whose next load is a normal one.
    pub fn new() -> (cache: Self)
        ensures
            cache.wf(),
            cache@ == (MetadataView {
                policy: RefreshPolicy::Normal,
                layouts: Map::empty(),
                field_meta: Map::empty(),
                type_names: Seq::empty(),
                process_id: None,
            }),
    {
        let cache = MetadataCache {
            policy: RefreshPolicy::Normal,
            layouts: Table::new(),
            field_meta: Table::new(),
            type_names: Vec::new(),
            process_id: None,
        };
        assert(cache.type_names.deep_view() =~= Seq::<TypeNameView>::empty());
        cache
    }

    /// The layout of a work-item type, if it is held.
    pub fn layout(&self, organization: &str, project: &str, work_item_type: &str) -> (r: Option<
        &Vec<LayoutControlEntry>,
    >)
        requires
            self.wf(),
        ensures
            match r {
                Some(controls) => self@.layouts.dom().contains(
                    type_key(organization@, project@, work_item_type@),
                ) && self@.layouts[type_key(organization@, project@, work_item_type@)]
                    == controls.deep_view(),
                None => !self@.layouts.dom().contains(
                    type_key(organization@, project@, work_item_type@),
                ),
            },
    {
        let key = crate::cache::layout_key(organization, project, work_item_type);
        match self.layouts.get(&key) {
            Some(row) => Some(&row.value),
            None => None,
        }
    }

    /// The field metadata of a work-item type, if it is held.
    pub fn field_meta_of(&self, work_item_type: &str) -> (r: Option<&Vec<WorkItemFieldInfo>>)
        requires
            self.wf(),
        ensures
            match r {
                Some(fields) => self@.field_meta.dom().contains(work_item_type@)
                    && self@.field_meta[work_item_type@] == fields.deep_view(),
                None => !self@.field_meta.dom().contains(work_item_type@),
            },
    {
        let key = String::from_str(work_item_type);
        match self.field_meta.get(&key) {
            Some(row) => Some(&row.value),
            None => None,
        }
    }

    /// Holds `controls` as the layout of a work-item type.
    pub fn insert_layout(
        &mut self,
        organization: &str,
        project: &str,
        work_item_type: &str,
        controls: &Vec<LayoutControlEntry>,
    )
        requires
            old(self).wf(),
        ensures
            final(self).wf(),
            final(self)@ == (MetadataView {
                layouts: old(self)@.layouts.insert(
                    type_key(organization@, project@, work_item_type@),
                    controls.deep_view(),
                ),
                ..old(self)@
            }),
    {
        let key = crate::cache::layout_key(organization, project, work_item_type);
        self.layouts.put(key, copy_controls(controls));
    }

    /// Holds `fields` as the field metadata of a work-item type.
    pub fn insert_field_meta(&mut self, work_item_type: &str, fields: &Vec<WorkItemFieldInfo>)
        requires
            old(self).wf(),
        ensures
            final(self).wf(),
            final(self)@ == (MetadataView {
                field_meta: old(self)@.field_meta.insert(work_item_type@, fields.deep_view()),
                ..old(self)@
            }),
    {
        self.field_meta.put(String::from_str(work_item_type), copy_field_infos(fields));
    }

    /// Forgets every layout and all field metadata.
    pub fn clear_metadata(&mut self)
        requires
            old(self).wf(),
        ensures
            final(self).wf(),
            final(self)@ == (MetadataView {
                layouts: Map::empty(),
                field_meta: Map::empty(),
                ..old(self)@
            }),
    {
        self.layouts.clear();
        self.field_meta.clear();
    }

    /// Takes a new directory of type names and the id of the process that
    /// it belongs to, in place of what was known. The layouts and the field
    /// metadata in memory stay: they are held by organization, project and
    /// display name, and none of them is reached through the directory.
    pub fn set_directory(&mut self, process_id: String, names: Vec<TypeName>)
        requires
            old(self).wf(),
        ensures
            final(self).wf(),
            final(self)@ == (MetadataView {
                type_names: names.deep_view(),
                process_id: Some(process_id@),
                ..old(self)@
            }),
    {
        self.type_names = names;
        self.process_id = Some(process_id);
    }

    /// Sets the policy of the next load.
    pub fn set_policy(&mut self, policy: RefreshPolicy)
        requires
            old(self).wf(),
        ensures
            final(self).wf(),
            final(self)@ == (MetadataView { policy, ..old(self)@ }),
    {
        self.policy = policy;
    }
}

} // verus!
