use adoboards::cache::{
    read_field_meta_cache_at, read_layout_cache_at, read_work_items_cache_at, CacheStore,
};
use adoboards::cache_keys::{FieldMetaCacheKey, LayoutCacheKey, WorkItemsCacheKey};
use adoboards::metadata::{MetadataCache, RefreshPolicy, TypeName};
use adoboards::models::{FieldValue, LayoutControlEntry, WorkItem, WorkItemFieldInfo};
use adoboards::refresh::{
    advance, collect_types, start_load, FetchedFieldMeta, FetchedLayout, LoadPhase, RefreshRun,
    RemoteCall, RemoteReply, Step,
};
use adoboards::source::{Source, SourceKind};

const HOUR: u64 = 3600;

fn item(id: u32, title: &str, kind: &str) -> WorkItem {
    WorkItem {
        id,
        title: title.to_string(),
        assigned_to: "Ada".to_string(),
        state: "New".to_string(),
        work_item_type: kind.to_string(),
        description: String::new(),
        acceptance_criteria: String::new(),
        fields: vec![FieldValue {
            reference_name: "Microsoft.VSTS.Common.Priority".to_string(),
            value: "Low".to_string(),
        }],
    }
}

fn backlog_source() -> Source {
    Source {
        title: "T Backlog".to_string(),
        organization: "A".to_string(),
        project: "P".to_string(),
        team: "T".to_string(),
        kind: SourceKind::Backlog,
    }
}

fn iteration_source() -> Source {
    Source {
        title: "T: Sprint 1".to_string(),
        organization: "A".to_string(),
        project: "P".to_string(),
        team: "T".to_string(),
        kind: SourceKind::Iteration("P\\Sprint 1".to_string()),
    }
}

fn items() -> Vec<WorkItem> {
    vec![item(1, "First", "Bug"), item(2, "Second", "User Story"), item(3, "Third", "Bug")]
}

fn directory() -> Vec<TypeName> {
    vec![
        TypeName { display_name: "Bug".to_string(), reference_name: "Agile.Bug".to_string() },
        TypeName {
            display_name: "User Story".to_string(),
            reference_name: "Agile.UserStory".to_string(),
        },
        TypeName { display_name: "Task".to_string(), reference_name: "Agile.Task".to_string() },
    ]
}

fn controls(kind: &str) -> Vec<LayoutControlEntry> {
    vec![
        LayoutControlEntry {
            id: "Microsoft.VSTS.Common.Priority".to_string(),
            label: format!("Priority of {}", kind),
        },
    ]
}

fn field_infos() -> Vec<WorkItemFieldInfo> {
    vec![WorkItemFieldInfo {
        reference_name: "Microsoft.VSTS.Common.Priority".to_string(),
        allowed_values: vec!["Low".to_string(), "High".to_string()],
    }]
}

/// Plays the service: answers every call and counts the calls by kind.
struct Service {
    calls: Vec<String>,
}

fn answer(service: &mut Service, call: &RemoteCall) -> RemoteReply {
    match call {
        RemoteCall::ResolveIterationId { iteration, .. } => {
            service.calls.push("resolve".to_string());
            assert_eq!(iteration, "P\\Sprint 1");
            RemoteReply::IterationId("it-1".to_string())
        }
        RemoteCall::ListBacklogItemIds { organization, project, team } => {
            service.calls.push("backlog-ids".to_string());
            assert_eq!((organization.as_str(), project.as_str(), team.as_str()), ("A", "P", "T"));
            RemoteReply::ItemIds(vec![1, 2, 3])
        }
        RemoteCall::ListIterationItemIds { iteration_id, .. } => {
            service.calls.push("iteration-ids".to_string());
            assert_eq!(iteration_id, "it-1");
            RemoteReply::ItemIds(vec![1, 2, 3])
        }
        RemoteCall::FetchItems { ids, .. } => {
            service.calls.push("items".to_string());
            assert_eq!(ids, &vec![1, 2, 3]);
            RemoteReply::Items(items())
        }
        RemoteCall::FetchProjectId { project, .. } => {
            service.calls.push("project".to_string());
            assert_eq!(project, "P");
            RemoteReply::ProjectId("project-1".to_string())
        }
        RemoteCall::FetchProcessTemplateId { project_id, .. } => {
            service.calls.push("process".to_string());
            assert_eq!(project_id, "project-1");
            RemoteReply::ProcessId("process-1".to_string())
        }
        RemoteCall::ListProcessWorkItemTypes { process_id, .. } => {
            service.calls.push("types".to_string());
            assert_eq!(process_id, "process-1");
            RemoteReply::TypeDirectory(directory())
        }
        RemoteCall::FetchMetadata { process_id, layouts, field_meta, .. } => {
            service.calls.push(format!("metadata:{}:{}", layouts.len(), field_meta.len()));
            if !layouts.is_empty() {
                assert_eq!(process_id, "process-1");
            }
            RemoteReply::Metadata {
                layouts: layouts
                    .iter()
                    .map(|name| FetchedLayout {
                        display_name: name.display_name.clone(),
                        reference_name: name.reference_name.clone(),
                        controls: controls(&name.display_name),
                    })
                    .collect(),
                field_meta: field_meta
                    .iter()
                    .map(|name| FetchedFieldMeta {
                        display_name: name.clone(),
                        fields: field_infos(),
                    })
                    .collect(),
            }
        }
    }
}

fn run_load(
    meta: &mut MetadataCache,
    store: &mut CacheStore,
    source: &Source,
    now: u64,
) -> (RefreshRun, Step, Vec<String>) {
    let mut service = Service { calls: Vec::new() };
    let (mut run, mut step) = start_load(meta, store, source, now, HOUR);
    let mut rounds = 0;
    while let Step::Call(call) = &step {
        let reply = answer(&mut service, call);
        step = advance(&mut run, meta, store, reply, now, HOUR);
        rounds += 1;
        assert!(rounds < 20);
    }
    (run, step, service.calls)
}

fn layout_key(kind: &str) -> LayoutCacheKey {
    LayoutCacheKey {
        organization: "A".to_string(),
        project: "P".to_string(),
        work_item_type: kind.to_string(),
    }
}

fn meta_key(kind: &str) -> FieldMetaCacheKey {
    FieldMetaCacheKey {
        organization: "A".to_string(),
        project: "P".to_string(),
        work_item_type: kind.to_string(),
    }
}

#[test]
fn types_are_collected_in_order_of_discovery() {
    assert_eq!(collect_types(&items()), vec!["Bug".to_string(), "User Story".to_string()]);
    assert_eq!(collect_types(&Vec::new()), Vec::<String>::new());
}

#[test]
fn cold_cache_load_fetches_everything_and_fills_the_cache() {
    let mut meta = MetadataCache::new();
    let mut store = CacheStore::new();
    let source = backlog_source();
    let (run, step, calls) = run_load(&mut meta, &mut store, &source, 1000);
    assert_eq!(step, Step::Loaded);
    assert_eq!(run.phase, LoadPhase::Finished);
    assert_eq!(run.items, items());
    assert_eq!(
        calls,
        vec!["backlog-ids", "items", "project", "process", "types", "metadata:2:2"]
    );
    let key = WorkItemsCacheKey::Backlog {
        organization: "A".to_string(),
        project: "P".to_string(),
        team: "T".to_string(),
    };
    assert_eq!(read_work_items_cache_at(&store, &key, 1000, HOUR), Some(items()));
    assert_eq!(read_layout_cache_at(&store, &layout_key("Bug"), 1000, HOUR), Some(controls("Bug")));
    assert_eq!(
        read_layout_cache_at(&store, &layout_key("Agile.Bug"), 1000, HOUR),
        Some(controls("Bug"))
    );
    assert_eq!(
        read_layout_cache_at(&store, &layout_key("Agile.UserStory"), 1000, HOUR),
        Some(controls("User Story"))
    );
    assert_eq!(read_layout_cache_at(&store, &layout_key("Task"), 1000, HOUR), None);
    assert_eq!(read_field_meta_cache_at(&store, &meta_key("Bug"), 1000, HOUR), Some(field_infos()));
    assert_eq!(
        read_field_meta_cache_at(&store, &meta_key("User Story"), 1000, HOUR),
        Some(field_infos())
    );
    assert_eq!(meta.layout("A", "P", "Bug"), Some(&controls("Bug")));
    assert_eq!(meta.layout("A", "P", "User Story"), Some(&controls("User Story")));
    assert_eq!(meta.field_meta_of("Bug"), Some(&field_infos()));
    assert_eq!(meta.process_id(), &Some("process-1".to_string()));
    assert_eq!(meta.type_names(), &directory());
    assert_eq!(meta.policy(), RefreshPolicy::Normal);
}

#[test]
fn reload_within_the_hour_makes_no_call() {
    let mut meta = MetadataCache::new();
    let mut store = CacheStore::new();
    let source = backlog_source();
    let (first, _, _) = run_load(&mut meta, &mut store, &source, 1000);
    let (second, step, calls) = run_load(&mut meta, &mut store, &source, 1000 + HOUR);
    assert_eq!(step, Step::Loaded);
    assert!(calls.is_empty());
    assert_eq!(second.items, first.items);
    assert_eq!(second.phase, LoadPhase::Finished);
}

#[test]
fn reload_with_fresh_disk_and_empty_memory_makes_no_call() {
    let mut meta = MetadataCache::new();
    let mut store = CacheStore::new();
    let source = backlog_source();
    run_load(&mut meta, &mut store, &source, 1000);
    let mut restarted = MetadataCache::new();
    let (run, step, calls) = run_load(&mut restarted, &mut store, &source, 2000);
    assert_eq!(step, Step::Loaded);
    assert!(calls.is_empty());
    assert_eq!(run.items, items());
    assert_eq!(restarted.layout("A", "P", "Bug"), Some(&controls("Bug")));
    assert_eq!(restarted.field_meta_of("User Story"), Some(&field_infos()));
}

#[test]
fn reload_after_the_hour_fetches_items_and_metadata_again() {
    let mut meta = MetadataCache::new();
    let mut store = CacheStore::new();
    let source = backlog_source();
    run_load(&mut meta, &mut store, &source, 1000);
    let (_, step, calls) = run_load(&mut meta, &mut store, &source, 1001 + HOUR);
    assert_eq!(step, Step::Loaded);
    // The layouts are still held in memory; items and field metadata are stale.
    assert_eq!(calls, vec!["backlog-ids", "items", "metadata:0:2"]);
}

#[test]
fn full_refresh_fetches_everything_even_if_fresh_and_reverts_the_policy() {
    let mut meta = MetadataCache::new();
    let mut store = CacheStore::new();
    let source = backlog_source();
    run_load(&mut meta, &mut store, &source, 1000);
    meta.set_policy(RefreshPolicy::Full);
    let mut service = Service { calls: Vec::new() };
    let (mut run, mut step) = start_load(&mut meta, &store, &source, 1500, HOUR);
    // The memory is cleared before anything is fetched.
    assert_eq!(meta.layout("A", "P", "Bug"), None);
    assert_eq!(meta.field_meta_of("Bug"), None);
    assert_eq!(meta.policy(), RefreshPolicy::Full);
    while let Step::Call(call) = &step {
        let reply = answer(&mut service, call);
        step = advance(&mut run, &mut meta, &mut store, reply, 1500, HOUR);
    }
    assert_eq!(step, Step::Loaded);
    assert_eq!(
        service.calls,
        vec!["backlog-ids", "items", "project", "process", "types", "metadata:2:2"]
    );
    assert_eq!(meta.policy(), RefreshPolicy::Normal);
    assert_eq!(meta.layout("A", "P", "Bug"), Some(&controls("Bug")));
    // What was fetched is written with the time of the refresh.
    let stamp = store.layout_shelf().get("layout_A_P_Bug.json").map(|entry| entry.updated_at);
    assert_eq!(stamp, Some(1500));
    // The next load is a normal one and needs no call.
    let (_, step, calls) = run_load(&mut meta, &mut store, &source, 1600);
    assert_eq!(step, Step::Loaded);
    assert!(calls.is_empty());
}

#[test]
fn iteration_source_resolves_its_id_first() {
    let mut meta = MetadataCache::new();
    let mut store = CacheStore::new();
    let source = iteration_source();
    let (run, step, calls) = run_load(&mut meta, &mut store, &source, 1000);
    assert_eq!(step, Step::Loaded);
    assert_eq!(
        calls,
        vec!["resolve", "iteration-ids", "items", "project", "process", "types", "metadata:2:2"]
    );
    assert_eq!(run.items, items());
    let key = WorkItemsCacheKey::Iteration {
        organization: "A".to_string(),
        project: "P".to_string(),
        team: "T".to_string(),
        iteration: "P\\Sprint 1".to_string(),
    };
    assert_eq!(read_work_items_cache_at(&store, &key, 1000, HOUR), Some(items()));
}

#[test]
fn first_call_of_a_backlog_load() {
    let mut meta = MetadataCache::new();
    let store = CacheStore::new();
    let (run, step) = start_load(&mut meta, &store, &backlog_source(), 1000, HOUR);
    assert_eq!(run.phase, LoadPhase::ListingItemIds);
    assert_eq!(
        step,
        Step::Call(RemoteCall::ListBacklogItemIds {
            organization: "A".to_string(),
            project: "P".to_string(),
            team: "T".to_string(),
        })
    );
}

#[test]
fn failure_aborts_the_load_and_keeps_what_was_written() {
    let mut meta = MetadataCache::new();
    let mut store = CacheStore::new();
    let source = backlog_source();
    let (mut run, _) = start_load(&mut meta, &store, &source, 1000, HOUR);
    let step = advance(&mut run, &mut meta, &mut store, RemoteReply::ItemIds(vec![1, 2, 3]), 1000, HOUR);
    assert!(matches!(step, Step::Call(RemoteCall::FetchItems { .. })));
    let step = advance(&mut run, &mut meta, &mut store, RemoteReply::Items(items()), 1000, HOUR);
    assert_eq!(
        step,
        Step::Call(RemoteCall::FetchProjectId {
            organization: "A".to_string(),
            project: "P".to_string(),
        })
    );
    assert_eq!(run.missing, vec!["Bug".to_string(), "User Story".to_string()]);
    let step = advance(
        &mut run,
        &mut meta,
        &mut store,
        RemoteReply::Failure("service unavailable".to_string()),
        1000,
        HOUR,
    );
    assert_eq!(step, Step::Failed("service unavailable".to_string()));
    assert_eq!(run.phase, LoadPhase::Aborted);
    // The items were written before the failure and serve the next attempt.
    let (_, step, calls) = run_load(&mut meta, &mut store, &source, 1100);
    assert_eq!(step, Step::Loaded);
    assert_eq!(calls, vec!["project", "process", "types", "metadata:2:2"]);
}

#[test]
fn unexpected_reply_aborts_and_ended_load_takes_no_reply() {
    let mut meta = MetadataCache::new();
    let mut store = CacheStore::new();
    let (mut run, _) = start_load(&mut meta, &store, &backlog_source(), 1000, HOUR);
    let step = advance(
        &mut run,
        &mut meta,
        &mut store,
        RemoteReply::ProjectId("x".to_string()),
        1000,
        HOUR,
    );
    assert_eq!(step, Step::Failed("unexpected reply".to_string()));
    assert_eq!(run.phase, LoadPhase::Aborted);
    let step = advance(&mut run, &mut meta, &mut store, RemoteReply::ItemIds(vec![]), 1000, HOUR);
    assert_eq!(step, Step::Failed("no load in progress".to_string()));
    assert_eq!(run.phase, LoadPhase::Aborted);
}

#[test]
fn type_unknown_to_the_directory_gets_no_layout() {
    let mut meta = MetadataCache::new();
    let mut store = CacheStore::new();
    let source = backlog_source();
    let (mut run, _) = start_load(&mut meta, &store, &source, 1000, HOUR);
    advance(&mut run, &mut meta, &mut store, RemoteReply::ItemIds(vec![9]), 1000, HOUR);
    advance(
        &mut run,
        &mut meta,
        &mut store,
        RemoteReply::Items(vec![item(9, "Nine", "Epic")]),
        1000,
        HOUR,
    );
    advance(&mut run, &mut meta, &mut store, RemoteReply::ProjectId("p".to_string()), 1000, HOUR);
    advance(&mut run, &mut meta, &mut store, RemoteReply::ProcessId("q".to_string()), 1000, HOUR);
    let step = advance(
        &mut run,
        &mut meta,
        &mut store,
        RemoteReply::TypeDirectory(directory()),
        1000,
        HOUR,
    );
    assert_eq!(
        step,
        Step::Call(RemoteCall::FetchMetadata {
            organization: "A".to_string(),
            project: "P".to_string(),
            process_id: "q".to_string(),
            layouts: vec![],
            field_meta: vec!["Epic".to_string()],
        })
    );
}

#[test]
fn empty_source_loads_without_metadata() {
    let mut meta = MetadataCache::new();
    let mut store = CacheStore::new();
    let source = backlog_source();
    let (mut run, _) = start_load(&mut meta, &store, &source, 1000, HOUR);
    advance(&mut run, &mut meta, &mut store, RemoteReply::ItemIds(vec![]), 1000, HOUR);
    let step = advance(&mut run, &mut meta, &mut store, RemoteReply::Items(vec![]), 1000, HOUR);
    assert_eq!(step, Step::Loaded);
    assert_eq!(run.phase, LoadPhase::Finished);
    assert!(run.items.is_empty());
}
