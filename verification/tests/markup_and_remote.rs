use adoboards::markup::{
    clean_ado_text, clean_decoded_text, strip_tags, text_of, trim_marked, trim_text,
};
use adoboards::metadata::TypeName;
use adoboards::models::{FieldValue, LayoutControlEntry, WorkItem, WorkItemFieldInfo};
use adoboards::remote::{
    field_infos_from_remote, items_from_remote, iteration_not_found, join_ids, linked_ids,
    match_iteration, to_client_id, type_directory, visible_controls, IterationInfo,
    RemoteControl, RemoteField, RemoteFieldInfo, RemoteLayout, RemoteTypeName, RemoteValue,
    RemoteWorkItem, BACKLOG_LEVEL,
};
use adoboards::sorted::text_lt;
use adoboards::text::{
    chars_of, join_texts, number_text, signed_number_text, text_contains,
};

fn text(name: &str, value: &str) -> RemoteField {
    RemoteField { name: name.to_string(), value: RemoteValue::Text(value.to_string()) }
}

fn iteration(id: Option<&str>, name: Option<&str>, path: Option<&str>) -> IterationInfo {
    IterationInfo {
        id: id.map(|s| s.to_string()),
        name: name.map(|s| s.to_string()),
        path: path.map(|s| s.to_string()),
    }
}

#[test]
fn tags_are_dropped() {
    assert_eq!(strip_tags("<p>Hello <b>world</b></p>"), "Hello world");
    assert_eq!(strip_tags("no tags"), "no tags");
    assert_eq!(strip_tags(""), "");
    assert_eq!(strip_tags("<>"), "");
    assert_eq!(strip_tags("a<br/>b"), "ab");
    assert_eq!(strip_tags("<div\nclass='x'>multi\nline</div>"), "multi\nline");
}

#[test]
fn unclosed_angle_is_text() {
    assert_eq!(strip_tags("1 < 2"), "1 < 2");
    assert_eq!(strip_tags("a < b > c"), "a  c");
    assert_eq!(strip_tags("x > y"), "x > y");
    assert_eq!(strip_tags("<b>bold</b> and <"), "bold and <");
    assert_eq!(strip_tags("<<<"), "<<<");
}

#[test]
fn image_tags_are_kept() {
    assert_eq!(strip_tags("<p><img src=\"a.png\"></p>"), "<img src=\"a.png\">");
    assert_eq!(strip_tags("<IMG src='a'/>x"), "<IMG src='a'/>x");
    assert_eq!(strip_tags("<Img>"), "<Img>");
    assert_eq!(strip_tags("</img>"), "</img>");
    assert_eq!(strip_tags("<<img>"), "<<img>");
    assert_eq!(strip_tags("<image>"), "");
    assert_eq!(strip_tags("<im g>"), "");
    assert_eq!(strip_tags("< img>"), "");
    assert_eq!(strip_tags("<imgx>"), "");
}

#[test]
fn ends_are_trimmed() {
    assert_eq!(trim_text("  a b \n"), "a b");
    assert_eq!(trim_text("\t\u{a0}x\u{2003}"), "x");
    assert_eq!(trim_text("   "), "");
    assert_eq!(trim_text(""), "");
    assert_eq!(trim_text("x"), "x");
    assert_eq!(clean_decoded_text(" <p> padded </p> "), "padded");
}

#[test]
fn character_references_are_decoded_before_tags_are_dropped() {
    assert_eq!(clean_ado_text("Tom &amp; Jerry"), "Tom & Jerry");
    assert_eq!(clean_ado_text("<div>a&nbsp;&gt;&nbsp;b</div>"), "a\u{a0}>\u{a0}b");
    assert_eq!(clean_ado_text("&lt;b&gt;bold&lt;/b&gt;"), "bold");
    assert_eq!(clean_ado_text("&#65;&#x42;"), "AB");
    assert_eq!(clean_ado_text("  plain  "), "plain");
    assert_eq!(clean_ado_text("<p>x</p><img src=\"i.png\">"), "x<img src=\"i.png\">");
}

#[test]
fn characters_and_back() {
    assert_eq!(chars_of("aé"), vec!['a', 'é']);
    assert_eq!(text_of(&vec!['a', 'b', 'c', 'd'], 1, 3), "bc");
    assert_eq!(text_of(&vec!['a'], 1, 1), "");
}

#[test]
fn work_item_from_the_service() {
    let remote = RemoteWorkItem {
        id: 42,
        fields: vec![
            text("System.Title", " <b>Foo</b> "),
            text("System.State", "Active"),
            text("System.WorkItemType", "Bug"),
            text("System.Description", "<div>Tom &amp; Jerry</div>"),
            RemoteField {
                name: "System.AssignedTo".to_string(),
                value: RemoteValue::Identity(Some("Ada Lovelace".to_string())),
            },
            RemoteField { name: "System.Rev".to_string(), value: RemoteValue::Other },
            RemoteField {
                name: "Microsoft.VSTS.Common.Priority".to_string(),
                value: RemoteValue::Scalar("2".to_string()),
            },
        ],
    };
    let item = WorkItem::from_remote(&remote);
    let field = |name: &str, value: &str| FieldValue {
        reference_name: name.to_string(),
        value: value.to_string(),
    };
    assert_eq!(
        item,
        WorkItem {
            id: 42,
            title: "Foo".to_string(),
            assigned_to: "Ada Lovelace".to_string(),
            state: "Active".to_string(),
            work_item_type: "Bug".to_string(),
            description: "Tom & Jerry".to_string(),
            acceptance_criteria: String::new(),
            fields: vec![
                field("System.Title", "Foo"),
                field("System.State", "Active"),
                field("System.WorkItemType", "Bug"),
                field("System.Description", "Tom & Jerry"),
                field("System.AssignedTo", "Ada Lovelace"),
                field("Microsoft.VSTS.Common.Priority", "2"),
            ],
        }
    );
}

#[test]
fn missing_fields_get_neutral_values() {
    let item = WorkItem::from_remote(&RemoteWorkItem { id: 7, fields: vec![] });
    assert_eq!(item.id, 7);
    assert_eq!(item.title, "");
    assert_eq!(item.assigned_to, "Unassigned");
    assert_eq!(item.state, "");
    assert!(item.fields.is_empty());
    let item = WorkItem::from_remote(&RemoteWorkItem {
        id: 7,
        fields: vec![
            RemoteField {
                name: "System.AssignedTo".to_string(),
                value: RemoteValue::Identity(None),
            },
            RemoteField { name: "System.Title".to_string(), value: RemoteValue::Other },
        ],
    });
    assert_eq!(item.assigned_to, "Unassigned");
    assert_eq!(item.title, "");
    assert!(item.fields.is_empty());
    let item = WorkItem::from_remote(&RemoteWorkItem {
        id: 7,
        fields: vec![text("System.AssignedTo", "Ada")],
    });
    assert_eq!(item.assigned_to, "Unassigned");
    let both = items_from_remote(&vec![
        RemoteWorkItem { id: 1, fields: vec![text("System.Title", "a")] },
        RemoteWorkItem { id: 2, fields: vec![text("System.Title", "b")] },
    ]);
    assert_eq!(both.iter().map(|i| i.title.as_str()).collect::<Vec<_>>(), vec!["a", "b"]);
}

#[test]
fn ids_of_the_service_are_taken_as_unsigned() {
    assert_eq!(to_client_id(0), 0);
    assert_eq!(to_client_id(42), 42);
    assert_eq!(to_client_id(i32::MAX), 2147483647);
    assert_eq!(to_client_id(-1), 4294967295);
    assert_eq!(to_client_id(i32::MIN), 2147483648);
}

#[test]
fn iteration_is_matched_by_path_or_name() {
    let iterations = vec![
        iteration(Some("1"), Some("Sprint 1"), Some("P\\Sprint 1")),
        iteration(None, Some("Sprint 2"), Some("P\\Sprint 2")),
        iteration(Some("3"), Some("Sprint 2"), Some("P\\Other")),
        iteration(Some("4"), None, Some("Sprint 1")),
    ];
    assert_eq!(match_iteration(&iterations, "P\\Sprint 1"), Some("1".to_string()));
    assert_eq!(match_iteration(&iterations, "Sprint 1"), Some("1".to_string()));
    assert_eq!(match_iteration(&iterations, "P\\Other"), Some("3".to_string()));
    // The first match decides, even where it has no id.
    assert_eq!(match_iteration(&iterations, "Sprint 2"), None);
    assert_eq!(match_iteration(&iterations, "Sprint 9"), None);
    assert_eq!(match_iteration(&vec![], "x"), None);
    assert_eq!(
        iteration_not_found("T", "Sprint 9"),
        "Iteration not found for team 'T' and path or name 'Sprint 9'"
    );
    assert_eq!(BACKLOG_LEVEL, "Microsoft.RequirementCategory");
}

#[test]
fn ids_of_links_and_their_text() {
    assert_eq!(linked_ids(&vec![Some(3), None, Some(1), None, Some(-2)]), vec![3, 1, -2]);
    assert_eq!(linked_ids(&vec![]), Vec::<i32>::new());
    assert_eq!(join_ids(&vec![3, 1, 20]), "3,1,20");
    assert_eq!(join_ids(&vec![7]), "7");
    assert_eq!(join_ids(&vec![]), "");
    assert_eq!(join_ids(&vec![-5, 0, i32::MIN]), "-5,0,-2147483648");
    assert_eq!(join_texts(&vec!["a".to_string(), "".to_string(), "c".to_string()], ", "), "a, , c");
}

#[test]
fn marked_ends_are_dropped() {
    let s = vec!['a', 'b', 'c', 'd', 'e'];
    assert_eq!(trim_marked(&s, &vec![true, false, true, false, true]), "bcd");
    assert_eq!(trim_marked(&s, &vec![true, true, true, true, true]), "");
    assert_eq!(trim_marked(&s, &vec![false, true, true, true, false]), "abcde");
    assert_eq!(trim_marked(&vec![], &vec![]), "");
}

#[test]
fn visible_controls_of_the_first_section() {
    let control = |id: Option<&str>, label: Option<&str>, visible: Option<bool>| RemoteControl {
        id: id.map(|s| s.to_string()),
        label: label.map(|s| s.to_string()),
        visible,
    };
    let layout = RemoteLayout {
        pages: vec![
            vec![
                vec![
                    vec![
                        control(Some("System.Title"), Some("Title"), Some(true)),
                        control(Some("System.Hidden"), Some("Hidden"), Some(false)),
                        control(Some("System.Unmarked"), Some("Unmarked"), None),
                    ],
                    vec![],
                    vec![
                        control(None, Some("No id"), Some(true)),
                        control(Some("System.State"), None, Some(true)),
                    ],
                ],
                vec![vec![control(Some("Second.Section"), Some("x"), Some(true))]],
            ],
            vec![vec![vec![control(Some("Second.Page"), Some("y"), Some(true))]]],
        ],
    };
    assert_eq!(
        visible_controls(&layout),
        vec![
            LayoutControlEntry { id: "System.Title".to_string(), label: "Title".to_string() },
            LayoutControlEntry { id: "System.State".to_string(), label: "System.State".to_string() },
        ]
    );
    assert_eq!(visible_controls(&RemoteLayout { pages: vec![] }), vec![]);
    assert_eq!(visible_controls(&RemoteLayout { pages: vec![vec![]] }), vec![]);
}

#[test]
fn directory_and_field_metadata_need_names() {
    let types = vec![
        RemoteTypeName { name: Some("Bug".to_string()), reference_name: Some("A.Bug".to_string()) },
        RemoteTypeName { name: None, reference_name: Some("A.Nameless".to_string()) },
        RemoteTypeName { name: Some("Task".to_string()), reference_name: None },
        RemoteTypeName { name: Some("Epic".to_string()), reference_name: Some("A.Epic".to_string()) },
    ];
    assert_eq!(
        type_directory(&types),
        vec![
            TypeName { display_name: "Bug".to_string(), reference_name: "A.Bug".to_string() },
            TypeName { display_name: "Epic".to_string(), reference_name: "A.Epic".to_string() },
        ]
    );
    let fields = vec![
        RemoteFieldInfo {
            reference_name: Some("Priority".to_string()),
            allowed_values: vec!["1".to_string(), "2".to_string()],
        },
        RemoteFieldInfo { reference_name: None, allowed_values: vec!["x".to_string()] },
        RemoteFieldInfo { reference_name: Some("Title".to_string()), allowed_values: vec![] },
    ];
    assert_eq!(
        field_infos_from_remote(&fields),
        vec![
            WorkItemFieldInfo {
                reference_name: "Priority".to_string(),
                allowed_values: vec!["1".to_string(), "2".to_string()],
            },
            WorkItemFieldInfo { reference_name: "Title".to_string(), allowed_values: vec![] },
        ]
    );
}

#[test]
fn field_sent_twice_is_held_once() {
    let item = WorkItem::from_remote(&RemoteWorkItem {
        id: 1,
        fields: vec![text("A", "first"), text("B", "b"), text("A", "second")],
    });
    assert_eq!(
        item.fields,
        vec![
            FieldValue { reference_name: "A".to_string(), value: "second".to_string() },
            FieldValue { reference_name: "B".to_string(), value: "b".to_string() },
        ]
    );
}

#[test]
fn numbers_in_decimal() {
    assert_eq!(number_text(0), "0");
    assert_eq!(number_text(7), "7");
    assert_eq!(number_text(10), "10");
    assert_eq!(number_text(1203), "1203");
    assert_eq!(number_text(u32::MAX), "4294967295");
    assert_eq!(signed_number_text(0), "0");
    assert_eq!(signed_number_text(-1), "-1");
    assert_eq!(signed_number_text(-120), "-120");
    assert_eq!(signed_number_text(i32::MAX), "2147483647");
    assert_eq!(signed_number_text(i32::MIN), "-2147483648");
}

#[test]
fn texts_within_texts() {
    assert!(text_contains("hello world", "o w"));
    assert!(text_contains("hello", "hello"));
    assert!(text_contains("hello", ""));
    assert!(text_contains("", ""));
    assert!(text_contains("aab", "ab"));
    assert!(text_contains("héllo", "él"));
    assert!(!text_contains("hello", "hello!"));
    assert!(!text_contains("hello", "lol"));
    assert!(!text_contains("", "a"));
}

#[test]
fn order_of_texts() {
    assert!(text_lt("a", "b"));
    assert!(!text_lt("b", "a"));
    assert!(!text_lt("a", "a"));
    assert!(text_lt("", "a"));
    assert!(!text_lt("a", ""));
    assert!(!text_lt("", ""));
    assert!(text_lt("ab", "abc"));
    assert!(text_lt("Z", "a"));
    assert!(text_lt("abc", "abd"));
    assert!(text_lt("z", "é"));
    for (a, b) in [("Bug", "Task"), ("Task", "User Story"), ("a", "ab"), ("é", "z"), ("", "")] {
        assert_eq!(text_lt(a, b), a < b);
        assert_eq!(text_lt(b, a), b < a);
    }
}

#[test]
fn number_is_shown_but_is_no_text() {
    let item = WorkItem::from_remote(&RemoteWorkItem {
        id: 3,
        fields: vec![
            RemoteField {
                name: "System.Title".to_string(),
                value: RemoteValue::Scalar("17".to_string()),
            },
            RemoteField {
                name: "System.State".to_string(),
                value: RemoteValue::Scalar("true".to_string()),
            },
            RemoteField {
                name: "System.AssignedTo".to_string(),
                value: RemoteValue::Scalar("5".to_string()),
            },
            RemoteField {
                name: "Custom.Estimate".to_string(),
                value: RemoteValue::Scalar(" <b>8</b> ".to_string()),
            },
        ],
    });
    assert_eq!(item.title, "");
    assert_eq!(item.state, "");
    assert_eq!(item.assigned_to, "Unassigned");
    assert_eq!(
        item.fields,
        vec![
            FieldValue { reference_name: "System.Title".to_string(), value: "17".to_string() },
            FieldValue { reference_name: "System.State".to_string(), value: "true".to_string() },
            FieldValue { reference_name: "System.AssignedTo".to_string(), value: "5".to_string() },
            FieldValue {
                reference_name: "Custom.Estimate".to_string(),
                value: " <b>8</b> ".to_string()
            },
        ]
    );
}
