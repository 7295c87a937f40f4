use adoboards::app::{query_matches, App, AppView, Key, ListState, ListViewState, LoadingState};
use adoboards::config::{
    config_is_usable, AppConfig, BoardConfig, CommonConfig, IterationConfig, KeysConfig, APPNAME,
};
use adoboards::keys::{key_matches_sequence, KeyOutcome};
use adoboards::metadata::RefreshPolicy;
use adoboards::models::{FieldValue, WorkItem};
use adoboards::source::{build_sources, work_items_key, SourceKind};
use adoboards::cache_keys::WorkItemsCacheKey;
use adoboards::ui::{list_title, load_error_message, loading_message};

fn item(id: u32, title: &str, kind: &str, assignee: &str) -> WorkItem {
    WorkItem {
        id,
        title: title.to_string(),
        assigned_to: assignee.to_string(),
        state: "New".to_string(),
        work_item_type: kind.to_string(),
        description: String::new(),
        acceptance_criteria: String::new(),
        fields: vec![FieldValue { reference_name: "a".to_string(), value: "b".to_string() }],
    }
}

fn board(team: &str) -> BoardConfig {
    BoardConfig {
        organization: "A".to_string(),
        project: "P".to_string(),
        team: team.to_string(),
    }
}

fn config() -> AppConfig {
    AppConfig {
        common: CommonConfig { me: "Ada".to_string() },
        boards: vec![board("T"), board("U")],
        iterations: vec![IterationConfig {
            organization: "A".to_string(),
            project: "P".to_string(),
            team: "T".to_string(),
            iteration: "Sprint 1".to_string(),
        }],
        keys: KeysConfig::default(),
    }
}

fn items() -> Vec<WorkItem> {
    vec![
        item(10, "Fix LOGIN page", "User Story", "Ada Lovelace"),
        item(21, "Crash on start", "Bug", "Grace Hopper"),
        item(32, "Write docs", "Task", "Ada Lovelace"),
        item(43, "Login times out", "Bug", "Unassigned"),
    ]
}

fn loaded() -> App {
    let mut app = App::new(config());
    app.load_data(items());
    app
}

fn ids(app: &App) -> Vec<u32> {
    app.get_filtered_items().iter().map(|i| i.id).collect()
}

fn type_text(app: &mut App, text: &str) {
    for c in text.chars() {
        app.handle_key(Key::Char(c));
    }
}

#[test]
fn default_configuration() {
    assert_eq!(APPNAME, "adoboards");
    let config = AppConfig::default();
    assert_eq!(config.common.me, "");
    assert_eq!(config.boards, vec![BoardConfig::default()]);
    assert!(config.iterations.is_empty());
    assert_eq!(BoardConfig::default().organization, "<organization>");
    assert_eq!(BoardConfig::default().project, "<project>");
    assert_eq!(BoardConfig::default().team, "<team>");
    assert_eq!(IterationConfig::default().iteration, "<iteration path>");
    let keys = KeysConfig::default();
    assert_eq!(keys.quit, "q");
    assert_eq!(keys.next, "j");
    assert_eq!(keys.previous, "k");
    assert_eq!(keys.hover, "K");
    assert_eq!(keys.open, "o");
    assert_eq!(keys.next_board, ">");
    assert_eq!(keys.previous_board, "<");
    assert_eq!(keys.search, "/");
    assert_eq!(keys.assigned_to_me_filter, "m");
    assert_eq!(keys.work_item_type_filter, "t");
    assert_eq!(keys.jump_to_top, "gg");
    assert_eq!(keys.jump_to_end, "G");
    assert_eq!(keys.refresh, "r");
    assert_eq!(keys.edit_config, "c");
    assert_eq!(keys.edit_item, "e");
}

#[test]
fn configuration_needs_a_real_source() {
    assert!(!config_is_usable(&AppConfig::default()));
    assert!(config_is_usable(&config()));
    let mut only_placeholder_iteration = AppConfig::default();
    only_placeholder_iteration.boards.clear();
    only_placeholder_iteration.iterations.push(IterationConfig::default());
    assert!(!config_is_usable(&only_placeholder_iteration));
    let mut two_placeholders = AppConfig::default();
    two_placeholders.boards.push(BoardConfig::default());
    assert!(config_is_usable(&two_placeholders));
    let mut real_iteration = AppConfig::default();
    real_iteration.iterations.push(IterationConfig {
        iteration: "Sprint 1".to_string(),
        ..IterationConfig::default()
    });
    assert!(config_is_usable(&real_iteration));
    let mut nothing = AppConfig::default();
    nothing.boards.clear();
    assert!(!config_is_usable(&nothing));
}

#[test]
fn sources_are_backlogs_then_iterations() {
    let sources = build_sources(&config());
    assert_eq!(sources.len(), 3);
    assert_eq!(sources[0].title, "T Backlog");
    assert_eq!(sources[0].kind, SourceKind::Backlog);
    assert_eq!(sources[1].team, "U");
    assert_eq!(sources[2].title, "T: Sprint 1");
    assert_eq!(sources[2].kind, SourceKind::Iteration("Sprint 1".to_string()));
    assert_eq!(
        work_items_key(&sources[2]),
        WorkItemsCacheKey::Iteration {
            organization: "A".to_string(),
            project: "P".to_string(),
            team: "T".to_string(),
            iteration: "Sprint 1".to_string(),
        }
    );
    assert_eq!(
        work_items_key(&sources[1]),
        WorkItemsCacheKey::Backlog {
            organization: "A".to_string(),
            project: "P".to_string(),
            team: "U".to_string(),
        }
    );
}

#[test]
fn new_session_starts_loading_in_the_list_view() {
    let app = App::new(config());
    assert!(matches!(app.view, AppView::List));
    assert_eq!(app.loading_state, LoadingState::Loading);
    assert!(app.items.is_empty());
    assert_eq!(app.current_board_index, 0);
    assert_eq!(app.current_board().team, "T");
    assert_eq!(app.me, "Ada");
    assert_eq!(app.last_key_press, None);
    assert_eq!(app.list_view_state.list_state.selected(), Some(0));
    assert_eq!(app.list_view_state.list_state.offset(), 0);
    assert_eq!(app.metadata.policy(), RefreshPolicy::Normal);
    let empty = App::new(AppConfig {
        common: CommonConfig::default(),
        boards: vec![],
        iterations: vec![],
        keys: KeysConfig::default(),
    });
    assert_eq!(empty.list_view_state.list_state.selected(), None);
    assert_eq!(empty.current_title(), "");
    let fresh = ListViewState::default();
    assert_eq!(fresh.list_state, ListState::default());
    assert_eq!(fresh.filter_query, "");
    assert!(!fresh.is_filtering);
}

#[test]
fn loading_data_selects_the_first_item_and_sorts_the_types() {
    let mut app = App::new(config());
    app.list_view_state.type_picker.toggle("Bug");
    app.load_data(items());
    assert_eq!(app.loading_state, LoadingState::Loaded);
    assert_eq!(app.items, items());
    assert_eq!(app.list_view_state.list_state.selected, Some(0));
    assert_eq!(
        app.list_view_state.type_picker.options,
        vec!["Bug".to_string(), "Task".to_string(), "User Story".to_string()]
    );
    assert_eq!(app.list_view_state.type_picker.selected, None);
    assert!(app.list_view_state.type_picker.is_active("Bug"));
    app.load_data(vec![]);
    assert_eq!(app.list_view_state.list_state.selected, None);
    assert!(app.list_view_state.type_picker.options.is_empty());
}

#[test]
fn filters_narrow_the_list() {
    let mut app = loaded();
    assert_eq!(ids(&app), vec![10, 21, 32, 43]);
    assert_eq!(app.filtered_indices(), vec![0, 1, 2, 3]);
    app.toggle_assigned_to_me_filter();
    assert_eq!(ids(&app), vec![10, 32]);
    assert_eq!(app.list_view_state.list_state.selected, Some(0));
    app.toggle_assigned_to_me_filter();
    app.list_view_state.filter_query = "LOGIN".to_string();
    assert_eq!(ids(&app), vec![10, 43]);
    app.list_view_state.filter_query = "3".to_string();
    assert_eq!(ids(&app), vec![32, 43]);
    app.list_view_state.filter_query = "21".to_string();
    assert_eq!(ids(&app), vec![21]);
    app.list_view_state.filter_query = "nothing".to_string();
    assert_eq!(ids(&app), Vec::<u32>::new());
    app.list_view_state.filter_query.clear();
    app.list_view_state.type_picker.toggle("Bug");
    assert_eq!(ids(&app), vec![21, 43]);
    app.list_view_state.type_picker.toggle("Task");
    assert_eq!(ids(&app), vec![21, 32, 43]);
    app.list_view_state.assigned_to_me_filter_on = true;
    assert_eq!(ids(&app), vec![32]);
    assert_eq!(app.filtered_count(), 1);
}

#[test]
fn selection_follows_the_filtered_list() {
    let mut app = loaded();
    app.navigate_list(1);
    app.navigate_list(1);
    assert_eq!(app.get_selected_item().map(|i| i.id), Some(32));
    assert_eq!(app.selected_index(), Some(2));
    app.navigate_list(10);
    assert_eq!(app.list_view_state.list_state.selected, Some(3));
    app.list_view_state.type_picker.toggle("Bug");
    app.clamp_selection();
    assert_eq!(app.list_view_state.list_state.selected, Some(1));
    assert_eq!(app.get_selected_item().map(|i| i.id), Some(43));
    app.navigate_list(-5);
    assert_eq!(app.get_selected_item().map(|i| i.id), Some(21));
    app.jump_to_end();
    assert_eq!(app.get_selected_item().map(|i| i.id), Some(43));
    app.jump_to_start();
    assert_eq!(app.get_selected_item().map(|i| i.id), Some(21));
    app.list_view_state.filter_query = "nothing".to_string();
    app.clamp_selection();
    assert_eq!(app.list_view_state.list_state.selected, None);
    assert_eq!(app.get_selected_item(), None);
    app.navigate_list(1);
    app.jump_to_start();
    app.jump_to_end();
    assert_eq!(app.list_view_state.list_state.selected, None);
    app.list_view_state.filter_query.clear();
    app.clamp_selection();
    assert_eq!(app.list_view_state.list_state.selected, Some(0));
}

#[test]
fn type_filter_menu() {
    let mut app = loaded();
    app.move_type_selection(1);
    app.toggle_type_selection();
    assert!(app.list_view_state.type_picker.has_no_active());
    app.list_view_state.is_list_details_hover_visible = true;
    app.toggle_type_filter_menu();
    assert!(app.list_view_state.type_picker.is_open);
    assert!(!app.list_view_state.is_list_details_hover_visible);
    assert_eq!(app.list_view_state.type_picker.selected, Some(0));
    app.move_type_selection(1);
    app.toggle_type_selection();
    assert_eq!(ids(&app), vec![32]);
    app.toggle_type_selection();
    assert_eq!(ids(&app), vec![10, 21, 32, 43]);
    app.toggle_type_selection();
    app.navigate_list(3);
    app.clear_type_filters();
    assert!(app.list_view_state.type_picker.has_no_active());
    assert_eq!(app.list_view_state.type_picker.selected, None);
    assert_eq!(app.list_view_state.list_state.selected, Some(0));
    app.toggle_type_filter_menu();
    assert!(!app.list_view_state.type_picker.is_open);
}

#[test]
fn sources_form_a_ring() {
    let mut app = loaded();
    app.next_board();
    assert_eq!(app.current_board_index, 1);
    assert_eq!(app.loading_state, LoadingState::Loading);
    assert_eq!(app.current_title(), "U Backlog");
    app.next_board();
    app.next_board();
    assert_eq!(app.current_board_index, 0);
    app.previous_board();
    assert_eq!(app.current_board_index, 2);
    app.previous_board();
    assert_eq!(app.current_board_index, 1);
    let mut single = App::new(AppConfig {
        common: CommonConfig::default(),
        boards: vec![board("T")],
        iterations: vec![],
        keys: KeysConfig::default(),
    });
    single.load_data(items());
    single.next_board();
    single.previous_board();
    assert_eq!(single.current_board_index, 0);
    assert_eq!(single.loading_state, LoadingState::Loaded);
}

#[test]
fn item_address() {
    let mut app = loaded();
    app.navigate_list(1);
    assert_eq!(
        app.item_url(),
        Some("https://dev.azure.com/A/P/_workitems/edit/21".to_string())
    );
    app.list_view_state.list_state.select(None);
    assert_eq!(app.item_url(), None);
}

#[test]
fn bindings_of_one_and_two_characters() {
    assert!(key_matches_sequence('q', None, "q"));
    assert!(key_matches_sequence('q', Some(Key::Char('x')), "q"));
    assert!(!key_matches_sequence('x', None, "q"));
    assert!(key_matches_sequence('g', Some(Key::Char('g')), "gg"));
    assert!(!key_matches_sequence('g', None, "gg"));
    assert!(!key_matches_sequence('g', Some(Key::Enter), "gg"));
    assert!(!key_matches_sequence('g', Some(Key::Char('h')), "gg"));
    assert!(key_matches_sequence('b', Some(Key::Char('a')), "ab"));
    assert!(!key_matches_sequence('a', Some(Key::Char('b')), "ab"));
    assert!(!key_matches_sequence('a', None, ""));
    assert!(!key_matches_sequence('c', Some(Key::Char('b')), "abc"));
    assert!(!key_matches_sequence('é', None, "é"));
    assert!(!key_matches_sequence('a', Some(Key::Char('é')), "éa"));
}

#[test]
fn keys_in_the_list_view() {
    let mut app = loaded();
    assert_eq!(app.handle_key(Key::Char('j')), KeyOutcome::Continue);
    assert_eq!(app.list_view_state.list_state.selected, Some(1));
    assert_eq!(app.last_key_press, Some(Key::Char('j')));
    app.handle_key(Key::Char('G'));
    assert_eq!(app.list_view_state.list_state.selected, Some(3));
    app.handle_key(Key::Char('g'));
    assert_eq!(app.list_view_state.list_state.selected, Some(3));
    app.handle_key(Key::Char('g'));
    assert_eq!(app.list_view_state.list_state.selected, Some(0));
    app.handle_key(Key::Down);
    assert_eq!(app.last_key_press, None);
    app.handle_key(Key::Char('k'));
    assert_eq!(app.list_view_state.list_state.selected, Some(0));
    app.handle_key(Key::Char('K'));
    assert!(app.list_view_state.is_list_details_hover_visible);
    app.handle_key(Key::Up);
    assert!(!app.list_view_state.is_list_details_hover_visible);
    assert_eq!(
        app.handle_key(Key::Char('o')),
        KeyOutcome::OpenItem("https://dev.azure.com/A/P/_workitems/edit/10".to_string())
    );
    app.handle_key(Key::Char('m'));
    assert!(app.list_view_state.assigned_to_me_filter_on);
    assert_eq!(ids(&app), vec![10, 32]);
    app.handle_key(Key::Esc);
    assert!(!app.list_view_state.assigned_to_me_filter_on);
    assert_eq!(app.handle_key(Key::Char('c')), KeyOutcome::EditConfig);
    assert_eq!(app.handle_key(Key::Char('q')), KeyOutcome::Quit);
    assert_eq!(app.handle_key(Key::Char('>')), KeyOutcome::Reload);
    assert_eq!(app.current_board_index, 1);
    assert_eq!(app.loading_state, LoadingState::Loading);
    assert_eq!(app.handle_key(Key::Char('j')), KeyOutcome::Continue);
    assert_eq!(app.handle_key(Key::Char('q')), KeyOutcome::Quit);
    assert_eq!(app.handle_key(Key::Esc), KeyOutcome::Quit);
    app.loading_state = LoadingState::Error("down".to_string());
    assert_eq!(app.handle_key(Key::Char('x')), KeyOutcome::Continue);
    assert_eq!(app.handle_key(Key::Char('q')), KeyOutcome::Quit);
    app.loading_state = LoadingState::Loaded;
    assert_eq!(app.handle_key(Key::Char('<')), KeyOutcome::Reload);
    assert_eq!(app.current_board_index, 0);
}

#[test]
fn refresh_key_asks_for_a_full_load() {
    let mut app = loaded();
    assert_eq!(app.handle_key(Key::Char('r')), KeyOutcome::Reload);
    assert_eq!(app.loading_state, LoadingState::Loading);
    assert_eq!(app.metadata.policy(), RefreshPolicy::Full);
}

#[test]
fn typing_a_query() {
    let mut app = loaded();
    app.handle_key(Key::Char('j'));
    app.handle_key(Key::Char('/'));
    assert!(app.list_view_state.is_filtering);
    type_text(&mut app, "lo/gin");
    assert_eq!(app.list_view_state.filter_query, "login");
    assert_eq!(ids(&app), vec![10, 43]);
    app.handle_key(Key::Backspace);
    assert_eq!(app.list_view_state.filter_query, "logi");
    app.handle_key(Key::Enter);
    assert!(!app.list_view_state.is_filtering);
    assert_eq!(app.list_view_state.filter_query, "logi");
    app.handle_key(Key::Char('j'));
    assert_eq!(app.get_selected_item().map(|i| i.id), Some(43));
    app.handle_key(Key::Esc);
    assert_eq!(app.list_view_state.filter_query, "");
    app.handle_key(Key::Char('/'));
    type_text(&mut app, "zz");
    assert_eq!(app.list_view_state.list_state.selected, None);
    app.handle_key(Key::Esc);
    assert!(!app.list_view_state.is_filtering);
    assert_eq!(app.list_view_state.filter_query, "");
    assert_eq!(app.list_view_state.list_state.selected, Some(0));
}

#[test]
fn keys_in_the_type_filter() {
    let mut app = loaded();
    app.handle_key(Key::Char('t'));
    assert!(app.list_view_state.type_picker.is_open);
    app.handle_key(Key::Char('j'));
    app.handle_key(Key::Down);
    assert_eq!(app.list_view_state.type_picker.selected, Some(2));
    app.handle_key(Key::Char('k'));
    app.handle_key(Key::Char(' '));
    assert_eq!(ids(&app), vec![32]);
    app.handle_key(Key::Up);
    app.handle_key(Key::Enter);
    assert_eq!(ids(&app), vec![21, 32, 43]);
    app.handle_key(Key::Char('x'));
    assert_eq!(app.last_key_press, None);
    app.handle_key(Key::Char('q'));
    assert!(!app.list_view_state.type_picker.is_open);
    assert_eq!(ids(&app), vec![21, 32, 43]);
    app.handle_key(Key::Char('t'));
    app.handle_key(Key::Char('c'));
    assert!(!app.list_view_state.type_picker.is_open);
    assert_eq!(ids(&app), vec![10, 21, 32, 43]);
    app.handle_key(Key::Char('t'));
    app.handle_key(Key::Esc);
    assert!(!app.list_view_state.type_picker.is_open);
    assert_eq!(app.list_view_state.type_picker.selected, None);
}

#[test]
fn keys_in_the_detail_view() {
    let mut app = loaded();
    app.handle_key(Key::Enter);
    assert!(matches!(app.view, AppView::Detail));
    let state = app.detail_view_state.edit_state.as_ref().unwrap();
    assert_eq!(state.title, "Fix LOGIN page");
    assert_eq!(state.item_id, 10);
    assert!(!state.is_editing);
    assert!(state.visible_fields.is_empty());
    assert_eq!(
        app.handle_key(Key::Char('o')),
        KeyOutcome::OpenItem("https://dev.azure.com/A/P/_workitems/edit/10".to_string())
    );
    assert_eq!(app.handle_key(Key::Enter), KeyOutcome::Continue);
    app.handle_key(Key::Char('q'));
    assert!(matches!(app.view, AppView::List));
    app.list_view_state.list_state.select(None);
    app.handle_key(Key::Enter);
    assert!(matches!(app.view, AppView::List));
}

#[test]
fn heading_of_the_list() {
    let none: Vec<String> = vec![];
    assert_eq!(list_title("T Backlog", "Ada", false, &none), "T Backlog ");
    assert_eq!(list_title("T Backlog", "Ada", true, &none), "T Backlog, Assigned to Ada");
    assert_eq!(
        list_title("T Backlog", "", true, &none),
        "T Backlog, Assigned to <name not configured>"
    );
    let types = vec!["Bug".to_string(), "Task".to_string()];
    assert_eq!(list_title("T Backlog", "Ada", false, &types), "T Backlog  | Types: Bug, Task");
    assert_eq!(
        list_title("T Backlog", "Ada", true, &types),
        "T Backlog, Assigned to Ada | Types: Bug, Task"
    );
    let mut app = loaded();
    app.list_view_state.type_picker.toggle("Task");
    app.list_view_state.type_picker.toggle("Bug");
    app.list_view_state.type_picker.toggle("Epic");
    assert_eq!(
        app.active_types_sorted(),
        vec!["Bug".to_string(), "Epic".to_string(), "Task".to_string()]
    );
    assert_eq!(app.current_title(), "T Backlog");
}

#[test]
fn query_matches_id_or_title() {
    assert!(query_matches("log", 7, "fix login"));
    assert!(query_matches("7", 1734, "fix login"));
    assert!(query_matches("", 1, ""));
    assert!(!query_matches("LOG", 7, "fix login"));
    assert!(!query_matches("8", 1734, "fix login"));
    assert!(query_matches("4294967295", u32::MAX, ""));
    assert!(query_matches("0", 0, ""));
}

#[test]
fn failed_load_is_held_with_its_reason() {
    let mut app = loaded();
    app.fail_load("service unavailable");
    assert_eq!(
        app.loading_state,
        LoadingState::Error("Failed to fetch data: service unavailable".to_string())
    );
    assert_eq!(app.items, items());
    assert_eq!(loading_message("T Backlog"), "Loading T Backlog...");
    assert_eq!(load_error_message("down"), "Failed to load data. down");
}
