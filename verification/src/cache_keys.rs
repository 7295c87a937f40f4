//! Cache keys and the file names they map to.
//!
//! A key names one entry of one namespace. Its file name is built from the
//! sanitised components of the key, joined by `_`. Sanitising loses
//! information, so two keys whose components differ only in characters that
//! are no ASCII letters or digits share a file name.

use vstd::prelude::*;
use crate::text::{sanitize_component, sanitized};

verus! {

/// Key of a cached list of work items: one per source.
#[derive(Debug, PartialEq, Eq)]
pub enum WorkItemsCacheKey {
    Backlog { organization: String, project: String, team: String },
    Iteration { organization: String, project: String, team: String, iteration: String },
}

/// The mathematical value of a [`WorkItemsCacheKey`].
pub enum WorkItemsCacheKeyView {
    Backlog { organization: Seq<char>, project: Seq<char>, team: Seq<char> },
    Iteration {
        organization: Seq<char>,
        project: Seq<char>,
        team: Seq<char>,
        iteration: Seq<char>,
    },
}

impl View for WorkItemsCacheKey {
    type V = WorkItemsCacheKeyView;

    open spec fn view(&self) -> WorkItemsCacheKeyView {
        match self {
            WorkItemsCacheKey::Backlog { organization, project, team } => {
                WorkItemsCacheKeyView::Backlog {
                    organization: organization@,
                    project: project@,
                    team: team@,
                }
            },
            WorkItemsCacheKey::Iteration { organization, project, team, iteration } => {
                WorkItemsCacheKeyView::Iteration {
                    organization: organization@,
                    project: project@,
                    team: team@,
                    iteration: iteration@,
                }
            },
        }
    }
}

impl Clone for WorkItemsCacheKey {
    fn clone(&self) -> (r: Self)
        ensures
            r@ == self@,
    {
        match self {
            WorkItemsCacheKey::Backlog { organization, project, team } => {
                WorkItemsCacheKey::Backlog {
                    organization: organization.clone(),
                    project: project.clone(),
                    team: team.clone(),
                }
            },
            WorkItemsCacheKey::Iteration { organization, project, team, iteration } => {
                WorkItemsCacheKey::Iteration {
                    organization: organization.clone(),
                    project: project.clone(),
                    team: team.clone(),
                    iteration: iteration.clone(),
                }
            },
        }
    }
}

/// Key of a cached layout: the visible controls of one work-item type.
#[derive(Debug, PartialEq, Eq)]
pub struct LayoutCacheKey {
    pub organization: String,
    pub project: String,
    pub work_item_type: String,
}

/// Key of cached field metadata: the allowed values of one work-item type's fields.
#[derive(Debug, PartialEq, Eq)]
pub struct FieldMetaCacheKey {
    pub organization: String,
    pub project: String,
    pub work_item_type: String,
}

/// The mathematical value of a [`LayoutCacheKey`] or a [`FieldMetaCacheKey`].
pub struct TypeKeyView {
    pub organization: Seq<char>,
    pub project: Seq<char>,
    pub work_item_type: Seq<char>,
}

impl View for LayoutCacheKey {
    type V = TypeKeyView;

    open spec fn view(&self) -> TypeKeyView {
        TypeKeyView {
            organization: self.organization@,
            project: self.project@,
            work_item_type: self.work_item_type@,
        }
    }
}

impl Clone for LayoutCacheKey {
    fn clone(&self) -> (r: Self)
        ensures
            r@ == self@,
    {
        LayoutCacheKey {
            organization: self.organization.clone(),
            project: self.project.clone(),
            work_item_type: self.work_item_type.clone(),
        }
    }
}

impl crate::table::TableKey for LayoutCacheKey {
    type KV = TypeKeyView;

    open spec fn key_view(&self) -> TypeKeyView {
        self@
    }

    fn same_key(&self, other: &Self) -> (r: bool) {
        self.organization == other.organization && self.project == other.project
            && self.work_item_type == other.work_item_type
    }
}

impl View for FieldMetaCacheKey {
    type V = TypeKeyView;

    open spec fn view(&self) -> TypeKeyView {
        TypeKeyView {
            organization: self.organization@,
            project: self.project@,
            work_item_type: self.work_item_type@,
        }
    }
}

impl Clone for FieldMetaCacheKey {
    fn clone(&self) -> (r: Self)
        ensures
            r@ == self@,
    {
        FieldMetaCacheKey {
            organization: self.organization.clone(),
            project: self.project.clone(),
            work_item_type: self.work_item_type.clone(),
        }
    }
}

/// The three namespaces of the cache.
#[derive(Clone, Copy, Debug, PartialEq, Eq, Structural)]
pub enum CacheNamespace {
    WorkItems,
    Layout,
    FieldMeta,
}

/// Where an entry lives below the cache root: the namespace's directory and
/// the entry's file name.
#[derive(Debug, PartialEq, Eq)]
pub struct CachePath {
    pub namespace: CacheNamespace,
    pub file_name: String,
}

/// The file name of a work-items entry.
pub open spec fn work_items_file_name(key: WorkItemsCacheKeyView) -> Seq<char> {
    match key {
        WorkItemsCacheKeyView::Backlog { organization, project, team } => "backlog"@ + "_"@
            + sanitized(organization) + "_"@ + sanitized(project) + "_"@ + sanitized(team)
            + ".json"@,
        WorkItemsCacheKeyView::Iteration { organization, project, team, iteration } => "iteration"@
            + "_"@ + sanitized(organization) + "_"@ + sanitized(project) + "_"@ + sanitized(team)
            + "_"@ + sanitized(iteration) + ".json"@,
    }
}

/// The file name of a layout entry.
pub open spec fn layout_file_name(key: TypeKeyView) -> Seq<char> {
    "layout"@ + "_"@ + sanitized(key.organization) + "_"@ + sanitized(key.project) + "_"@
        + sanitized(key.work_item_type) + ".json"@
}

/// The file name of a field-metadata entry.
pub open spec fn field_meta_file_name(key: TypeKeyView) -> Seq<char> {
    "fieldmeta"@ + "_"@ + sanitized(key.organization) + "_"@ + sanitized(key.project) + "_"@
        + sanitized(key.work_item_type) + ".json"@
}

/// Appends `_` and the sanitised `part` to `name`.
fn push_component(name: &mut String, part: &str)
    ensures
        final(name)@ == old(name)@ + "_"@ + sanitized(part@),
{
    name.append("_");
    let clean = sanitize_component(part);
    name.append(clean.as_str());
}

/// The file name of a work-items entry.
pub fn work_items_cache_name(key: &WorkItemsCacheKey) -> (name: String)
    ensures
        name@ == work_items_file_name(key@),
{
    match key {
        WorkItemsCacheKey::Backlog { organization, project, team } => {
            let mut name = String::from_str("backlog");
            push_component(&mut name, organization.as_str());
            push_component(&mut name, project.as_str());
            push_component(&mut name, team.as_str());
            name.append(".json");
            name
        },
        WorkItemsCacheKey::Iteration { organization, project, team, iteration } => {
            let mut name = String::from_str("iteration");
            push_component(&mut name, organization.as_str());
            push_component(&mut name, project.as_str());
            push_component(&mut name, team.as_str());
            push_component(&mut name, iteration.as_str());
            name.append(".json");
            name
        },
    }
}

/// The file name of a layout entry.
pub fn layout_cache_name(key: &LayoutCacheKey) -> (name: String)
    ensures
        name@ == layout_file_name(key@),
{
    let mut name = String::from_str("layout");
    push_component(&mut name, key.organization.as_str());
    push_component(&mut name, key.project.as_str());
    push_component(&mut name, key.work_item_type.as_str());
    name.append(".json");
    name
}

/// The file name of a field-metadata entry.
pub fn field_meta_cache_name(key: &FieldMetaCacheKey) -> (name: String)
    ensures
        name@ == field_meta_file_name(key@),
{
    let mut name = String::from_str("fieldmeta");
    push_component(&mut name, key.organization.as_str());
    push_component(&mut name, key.project.as_str());
    push_component(&mut name, key.work_item_type.as_str());
    name.append(".json");
    name
}

/// Where the entry of a work-items key lives below the cache root.
pub fn work_items_cache_path(key: &WorkItemsCacheKey) -> (path: CachePath)
    ensures
        path.namespace == CacheNamespace::WorkItems,
        path.file_name@ == work_items_file_name(key@),
{
    CachePath { namespace: CacheNamespace::WorkItems, file_name: work_items_cache_name(key) }
}

/// Where the entry of a layout key lives below the cache root.
pub fn layout_cache_path(key: &LayoutCacheKey) -> (path: CachePath)
    ensures
        path.namespace == CacheNamespace::Layout,
        path.file_name@ == layout_file_name(key@),
{
    CachePath { namespace: CacheNamespace::Layout, file_name: layout_cache_name(key) }
}

/// Where the entry of a field-metadata key lives below the cache root.
pub fn field_meta_cache_path(key: &FieldMetaCacheKey) -> (path: CachePath)
    ensures
        path.namespace == CacheNamespace::FieldMeta,
        path.file_name@ == field_meta_file_name(key@),
{
    CachePath { namespace: CacheNamespace::FieldMeta, file_name: field_meta_cache_name(key) }
}

/// The directory of a namespace below the cache root.
pub fn namespace_dir(namespace: CacheNamespace) -> (dir: &'static str)
    ensures
        dir@ == match namespace {
            CacheNamespace::WorkItems => "work_items"@,
            CacheNamespace::Layout => "layout"@,
            CacheNamespace::FieldMeta => "field_meta"@,
        },
{
    match namespace {
        CacheNamespace::WorkItems => "work_items",
        CacheNamespace::Layout => "layout",
        CacheNamespace::FieldMeta => "field_meta",
    }
}

/// Two texts that agree once the same text is put before and the same text
/// behind each of them are equal.
pub proof fn lemma_middle_decides(before: Seq<char>, x: Seq<char>, y: Seq<char>, behind: Seq<char>)
    requires
        before + x + behind == before + y + behind,
    ensures
        x == y,
{
    let a = before + x + behind;
    let b = before + y + behind;
    assert(a.len() == before.len() + x.len() + behind.len());
    assert(b.len() == before.len() + y.len() + behind.len());
    assert forall|i: int| 0 <= i < x.len() implies x[i] == y[i] by {
        assert(a[before.len() + i] == x[i]);
        assert(b[before.len() + i] == y[i]);
    }
    assert(x =~= y);
}

/// Backlog keys of one organization and project share a file name exactly
/// when their teams sanitise to the same text: teams that still differ after
/// sanitising never collide.
pub proof fn lemma_backlog_keys_isolated(
    organization: Seq<char>,
    project: Seq<char>,
    team_a: Seq<char>,
    team_b: Seq<char>,
)
    ensures
        (work_items_file_name(
            WorkItemsCacheKeyView::Backlog { organization, project, team: team_a },
        ) == work_items_file_name(
            WorkItemsCacheKeyView::Backlog { organization, project, team: team_b },
        )) <==> sanitized(team_a) == sanitized(team_b),
{
    let before = "backlog"@ + "_"@ + sanitized(organization) + "_"@ + sanitized(project) + "_"@;
    if before + sanitized(team_a) + ".json"@ == before + sanitized(team_b) + ".json"@ {
        lemma_middle_decides(before, sanitized(team_a), sanitized(team_b), ".json"@);
    }
}

/// Iteration keys of one organization, project and iteration path share a
/// file name exactly when their teams sanitise to the same text.
pub proof fn lemma_iteration_keys_isolated_by_team(
    organization: Seq<char>,
    project: Seq<char>,
    team_a: Seq<char>,
    team_b: Seq<char>,
    iteration: Seq<char>,
)
    ensures
        (work_items_file_name(
            WorkItemsCacheKeyView::Iteration { organization, project, team: team_a, iteration },
        ) == work_items_file_name(
            WorkItemsCacheKeyView::Iteration { organization, project, team: team_b, iteration },
        )) <==> sanitized(team_a) == sanitized(team_b),
{
    let before = "iteration"@ + "_"@ + sanitized(organization) + "_"@ + sanitized(project) + "_"@;
    let behind = "_"@ + sanitized(iteration) + ".json"@;
    let name_a = work_items_file_name(
        WorkItemsCacheKeyView::Iteration { organization, project, team: team_a, iteration },
    );
    let name_b = work_items_file_name(
        WorkItemsCacheKeyView::Iteration { organization, project, team: team_b, iteration },
    );
    assert(name_a =~= before + sanitized(team_a) + behind);
    assert(name_b =~= before + sanitized(team_b) + behind);
    if name_a == name_b {
        lemma_middle_decides(before, sanitized(team_a), sanitized(team_b), behind);
    }
}

/// Iteration keys of one organization, project and team share a file name
/// exactly when their iteration paths sanitise to the same text.
pub proof fn lemma_iteration_keys_isolated_by_path(
    organization: Seq<char>,
    project: Seq<char>,
    team: Seq<char>,
    iteration_a: Seq<char>,
    iteration_b: Seq<char>,
)
    ensures
        (work_items_file_name(
            WorkItemsCacheKeyView::Iteration { organization, project, team, iteration: iteration_a },
        ) == work_items_file_name(
            WorkItemsCacheKeyView::Iteration { organization, project, team, iteration: iteration_b },
        )) <==> sanitized(iteration_a) == sanitized(iteration_b),
{
    let before = "iteration"@ + "_"@ + sanitized(organization) + "_"@ + sanitized(project) + "_"@
        + sanitized(team) + "_"@;
    if before + sanitized(iteration_a) + ".json"@ == before + sanitized(iteration_b) + ".json"@ {
        lemma_middle_decides(before, sanitized(iteration_a), sanitized(iteration_b), ".json"@);
    }
}

/// A backlog key and an iteration key never share a file name.
pub proof fn lemma_backlog_and_iteration_keys_disjoint(
    backlog: WorkItemsCacheKeyView,
    iteration: WorkItemsCacheKeyView,
)
    requires
        backlog is Backlog,
        iteration is Iteration,
    ensures
        work_items_file_name(backlog) != work_items_file_name(iteration),
{
    reveal_strlit("backlog");
    reveal_strlit("iteration");
    let a = work_items_file_name(backlog);
    let b = work_items_file_name(iteration);
    assert(a[0] == 'b');
    assert(b[0] == 'i');
}

/// Sanitising leaves a text of ASCII letters and digits as it is, so keys
/// made of such components are told apart by the components themselves.
pub proof fn lemma_sanitized_keeps_alnum(s: Seq<char>)
    requires
        forall|i: int| 0 <= i < s.len() ==> crate::text::is_ascii_alnum(#[trigger] s[i]),
    ensures
        sanitized(s) == s,
{
    assert(sanitized(s) =~= s);
}

} // verus!
