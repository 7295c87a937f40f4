use adoboards::cache::{
    clock_reading, is_fresh, is_fresh_at, read_field_meta_cache, read_field_meta_cache_at,
    read_layout_cache, read_layout_cache_at, read_layout_cache_either_at, read_work_items_cache,
    read_work_items_cache_at, write_field_meta_cache, write_field_meta_cache_at,
    write_layout_cache, write_layout_cache_at, write_layout_cache_dual_at,
    write_work_items_cache, write_work_items_cache_at, CacheStore, DEFAULT_MAX_AGE_SECS,
    LATEST_TIME,
};
use adoboards::cache_keys::{
    field_meta_cache_path, layout_cache_path, namespace_dir, work_items_cache_name,
    work_items_cache_path, CacheNamespace, FieldMetaCacheKey, LayoutCacheKey, WorkItemsCacheKey,
};
use adoboards::models::{FieldValue, LayoutControlEntry, WorkItem, WorkItemFieldInfo};
use adoboards::text::sanitize_component;

fn item(id: u32, title: &str, kind: &str) -> WorkItem {
    WorkItem {
        id,
        title: title.to_string(),
        assigned_to: "Ada".to_string(),
        state: "New".to_string(),
        work_item_type: kind.to_string(),
        description: String::new(),
        acceptance_criteria: String::new(),
        fields: vec![FieldValue {
            reference_name: "System.Title".to_string(),
            value: title.to_string(),
        }],
    }
}

fn backlog(team: &str) -> WorkItemsCacheKey {
    WorkItemsCacheKey::Backlog {
        organization: "A".to_string(),
        project: "P".to_string(),
        team: team.to_string(),
    }
}

fn iteration(team: &str, path: &str) -> WorkItemsCacheKey {
    WorkItemsCacheKey::Iteration {
        organization: "A".to_string(),
        project: "P".to_string(),
        team: team.to_string(),
        iteration: path.to_string(),
    }
}

fn layout_key(kind: &str) -> LayoutCacheKey {
    LayoutCacheKey {
        organization: "A".to_string(),
        project: "P".to_string(),
        work_item_type: kind.to_string(),
    }
}

fn control(id: &str, label: &str) -> LayoutControlEntry {
    LayoutControlEntry { id: id.to_string(), label: label.to_string() }
}

#[test]
fn sanitize_replaces_everything_but_ascii_letters_and_digits() {
    assert_eq!(sanitize_component("My Team/1"), "My_Team_1");
    assert_eq!(sanitize_component("abcXYZ019"), "abcXYZ019");
    assert_eq!(sanitize_component(""), "");
    assert_eq!(sanitize_component("é-ß"), "___");
}

#[test]
fn file_names_are_built_from_sanitised_components() {
    assert_eq!(work_items_cache_name(&backlog("Core Team")), "backlog_A_P_Core_Team.json");
    assert_eq!(
        work_items_cache_name(&iteration("T", "P\\Sprint 1")),
        "iteration_A_P_T_P_Sprint_1.json"
    );
    let path = work_items_cache_path(&backlog("T"));
    assert_eq!(path.namespace, CacheNamespace::WorkItems);
    assert_eq!(path.file_name, "backlog_A_P_T.json");
    let path = layout_cache_path(&layout_key("User Story"));
    assert_eq!(path.namespace, CacheNamespace::Layout);
    assert_eq!(path.file_name, "layout_A_P_User_Story.json");
    let path = field_meta_cache_path(&FieldMetaCacheKey {
        organization: "A".to_string(),
        project: "P".to_string(),
        work_item_type: "Bug".to_string(),
    });
    assert_eq!(path.namespace, CacheNamespace::FieldMeta);
    assert_eq!(path.file_name, "fieldmeta_A_P_Bug.json");
    assert_eq!(namespace_dir(CacheNamespace::WorkItems), "work_items");
    assert_eq!(namespace_dir(CacheNamespace::Layout), "layout");
    assert_eq!(namespace_dir(CacheNamespace::FieldMeta), "field_meta");
}

#[test]
fn keys_of_different_teams_do_not_collide() {
    assert_ne!(work_items_cache_name(&backlog("T")), work_items_cache_name(&backlog("T2")));
    assert_ne!(
        work_items_cache_name(&iteration("T", "S1")),
        work_items_cache_name(&iteration("T", "S2"))
    );
    assert_ne!(
        work_items_cache_name(&iteration("T", "S1")),
        work_items_cache_name(&iteration("T2", "S1"))
    );
    assert_ne!(work_items_cache_name(&backlog("T")), work_items_cache_name(&iteration("T", "")));
}

#[test]
fn sanitising_is_lossy() {
    assert_eq!(work_items_cache_name(&backlog("a.b")), work_items_cache_name(&backlog("a_b")));
}

#[test]
fn freshness_window() {
    assert_eq!(DEFAULT_MAX_AGE_SECS, 3600);
    assert!(is_fresh_at(1000, 1000, 3600));
    assert!(is_fresh_at(1000, 4600, 3600));
    assert!(!is_fresh_at(1000, 4601, 3600));
    assert!(!is_fresh_at(1000, 999, 3600));
    assert!(!is_fresh_at(u64::MAX, 0, 0));
    assert!(!is_fresh_at(u64::MAX, 0, u64::MAX));
    assert!(is_fresh_at(u64::MAX, u64::MAX, 0));
    assert!(is_fresh_at(0, 0, 0));
    assert!(!is_fresh_at(0, 1, 0));
    assert!(is_fresh_at(0, u64::MAX, u64::MAX));
    assert!(!is_fresh(0, 10));
    assert!(!is_fresh(u64::MAX, 3600));
    assert!(!is_fresh(u64::MAX, u64::MAX));
    assert!(!is_fresh(LATEST_TIME, u64::MAX));
    assert!(is_fresh(clock_reading().saturating_sub(60), 3600));
    assert!(clock_reading() <= LATEST_TIME);
    assert_eq!(LATEST_TIME, i64::MAX as u64);
}

#[test]
fn write_then_read_round_trip() {
    let mut store = CacheStore::new();
    let key = backlog("T");
    let items = vec![item(1, "First", "Bug"), item(2, "Second", "Task")];
    assert_eq!(read_work_items_cache_at(&store, &key, 1000, 3600), None);
    write_work_items_cache_at(&mut store, &key, 1000, &items);
    assert_eq!(read_work_items_cache_at(&store, &key, 1000, 3600), Some(items.clone()));
    assert_eq!(read_work_items_cache_at(&store, &key, 4600, 3600), Some(items.clone()));
    assert_eq!(read_work_items_cache_at(&store, &key, 4601, 3600), None);
    assert_eq!(read_work_items_cache_at(&store, &key, 999, 3600), None);
    assert_eq!(read_work_items_cache_at(&store, &key, 0, u64::MAX), None);
    assert_eq!(read_work_items_cache_at(&store, &backlog("T2"), 1000, 3600), None);
}

#[test]
fn second_write_replaces_first() {
    let mut store = CacheStore::new();
    let key = backlog("T");
    let first = vec![item(1, "First", "Bug")];
    let second = vec![item(2, "Second", "Task"), item(3, "Third", "Task")];
    write_work_items_cache_at(&mut store, &key, 1000, &first);
    write_work_items_cache_at(&mut store, &key, 2000, &second);
    assert_eq!(read_work_items_cache_at(&store, &key, 2000, 3600), Some(second.clone()));
    assert_eq!(read_work_items_cache_at(&store, &key, 5600, 3600), Some(second));
    assert_eq!(read_work_items_cache_at(&store, &key, 5601, 3600), None);
    assert_eq!(store.work_items_shelf().len(), 1);
}

#[test]
fn namespaces_are_separate() {
    let mut store = CacheStore::new();
    let controls = vec![control("System.Title", "Title")];
    let fields = vec![WorkItemFieldInfo {
        reference_name: "Priority".to_string(),
        allowed_values: vec!["Low".to_string(), "High".to_string()],
    }];
    let meta_key = FieldMetaCacheKey {
        organization: "A".to_string(),
        project: "P".to_string(),
        work_item_type: "Bug".to_string(),
    };
    write_layout_cache_at(&mut store, &layout_key("Bug"), 10, &controls);
    assert_eq!(read_field_meta_cache_at(&store, &meta_key, 10, 3600), None);
    write_field_meta_cache_at(&mut store, &meta_key, 20, &fields);
    assert_eq!(read_layout_cache_at(&store, &layout_key("Bug"), 20, 3600), Some(controls));
    assert_eq!(read_field_meta_cache_at(&store, &meta_key, 20, 3600), Some(fields));
    assert_eq!(read_field_meta_cache_at(&store, &meta_key, 3621, 3600), None);
    assert_eq!(read_field_meta_cache_at(&store, &meta_key, 19, 3600), None);
    assert_eq!(store.work_items_shelf().len(), 0);
    assert_eq!(store.layout_shelf().len(), 1);
    assert_eq!(store.field_meta_shelf().len(), 1);
}

#[test]
fn layout_is_written_under_both_names_and_read_by_either() {
    let mut store = CacheStore::new();
    let controls = vec![control("System.Title", "Title")];
    write_layout_cache_dual_at(&mut store, "A", "P", "User Story", "Agile.UserStory", 100, &controls);
    assert_eq!(
        read_layout_cache_at(&store, &layout_key("User Story"), 100, 3600),
        Some(controls.clone())
    );
    assert_eq!(
        read_layout_cache_at(&store, &layout_key("Agile.UserStory"), 100, 3600),
        Some(controls.clone())
    );
    assert_eq!(
        read_layout_cache_either_at(&store, "A", "P", "User Story", "Agile.UserStory", 100, 3600),
        Some(controls.clone())
    );
    let mut only_reference = CacheStore::new();
    write_layout_cache_at(&mut only_reference, &layout_key("Agile.UserStory"), 100, &controls);
    assert_eq!(
        read_layout_cache_either_at(
            &only_reference,
            "A",
            "P",
            "User Story",
            "Agile.UserStory",
            100,
            3600
        ),
        Some(controls)
    );
    assert_eq!(
        read_layout_cache_either_at(
            &only_reference,
            "A",
            "P",
            "User Story",
            "Agile.UserStory",
            3701,
            3600
        ),
        None
    );
}

#[test]
fn display_name_is_tried_before_reference_name() {
    let mut store = CacheStore::new();
    let by_reference = vec![control("a", "By reference")];
    let by_display = vec![control("b", "By display")];
    write_layout_cache_at(&mut store, &layout_key("Ref"), 100, &by_reference);
    write_layout_cache_at(&mut store, &layout_key("Shown"), 100, &by_display);
    assert_eq!(
        read_layout_cache_either_at(&store, "A", "P", "Shown", "Ref", 100, 3600),
        Some(by_display)
    );
}

#[test]
fn reads_and_writes_by_the_system_clock() {
    let mut store = CacheStore::new();
    let key = backlog("T");
    let items = vec![item(7, "Seven", "Bug")];
    write_work_items_cache(&mut store, &key, &items);
    assert_eq!(read_work_items_cache(&store, &key, 3600), Some(items));
    let stamp = store.work_items_shelf().slot_at(0).value.updated_at;
    assert!(stamp > 1_600_000_000);
    let controls = vec![control("System.Title", "Title")];
    write_layout_cache(&mut store, &layout_key("Bug"), &controls);
    assert_eq!(read_layout_cache(&store, &layout_key("Bug"), 3600), Some(controls));
    let meta_key = FieldMetaCacheKey {
        organization: "A".to_string(),
        project: "P".to_string(),
        work_item_type: "Bug".to_string(),
    };
    let fields = vec![WorkItemFieldInfo {
        reference_name: "Priority".to_string(),
        allowed_values: vec![],
    }];
    write_field_meta_cache(&mut store, &meta_key, &fields);
    assert_eq!(read_field_meta_cache(&store, &meta_key, 3600), Some(fields));
}

#[test]
fn restored_entries_keep_their_time() {
    let mut store = CacheStore::new();
    let items = vec![item(1, "First", "Bug")];
    store.restore_work_items("backlog_A_P_T.json".to_string(), 500, items.clone());
    assert_eq!(read_work_items_cache_at(&store, &backlog("T"), 4100, 3600), Some(items));
    assert_eq!(read_work_items_cache_at(&store, &backlog("T"), 4101, 3600), None);
    let slot = store.work_items_shelf().slot_at(0);
    assert_eq!(slot.key, "backlog_A_P_T.json");
    assert_eq!(slot.value.updated_at, 500);
}

#[test]
fn entry_stamped_in_the_future_is_a_miss() {
    let mut store = CacheStore::new();
    let items = vec![item(1, "First", "Bug")];
    store.restore_work_items("backlog_A_P_T.json".to_string(), u64::MAX, items.clone());
    assert_eq!(read_work_items_cache(&store, &backlog("T"), 3600), None);
    assert_eq!(read_work_items_cache(&store, &backlog("T"), u64::MAX), None);
    assert_eq!(read_work_items_cache_at(&store, &backlog("T"), 5000, u64::MAX), None);
    let controls = vec![control("System.Title", "Title")];
    store.restore_layout("layout_A_P_Bug.json".to_string(), 2000, controls.clone());
    assert_eq!(read_layout_cache_at(&store, &layout_key("Bug"), 1999, 3600), None);
    assert_eq!(read_layout_cache_at(&store, &layout_key("Bug"), 2000, 3600), Some(controls));
}
