use aware::show::{Show, Tag};
use aware::stack::{
    is_requested, make_resource_label, make_title, stack_tree, str_or, CfResources, Lookup, Stack,
    StackResource, StackResourceSummary, StackSummary, Title,
};
use aware::status::StackStatus;
use termtree::Tree;

fn summary(id: Option<&str>, name: Option<&str>, status: Option<StackStatus>) -> StackSummary {
    StackSummary {
        stack_id: id.map(String::from),
        stack_name: name.map(String::from),
        stack_status: status,
    }
}

fn resource(
    logical: Option<&str>,
    physical: Option<&str>,
    kind: Option<&str>,
    status: Option<&str>,
) -> StackResource {
    StackResource {
        logical_resource_id: logical.map(String::from),
        physical_resource_id: physical.map(String::from),
        resource_type: kind.map(String::from),
        resource_status: status.map(String::from),
    }
}

fn names(list: &[&str]) -> Vec<String> {
    list.iter().map(|n| n.to_string()).collect()
}

fn walk(tree: &Tree<String>, depth: usize, out: &mut Vec<(usize, String)>) {
    out.push((depth, tree.root.clone()));
    for leaf in tree.leaves.iter() {
        walk(leaf, depth + 1, out);
    }
}

fn outline_of(tree: &Tree<String>) -> Vec<(usize, String)> {
    let mut out = vec![];
    walk(tree, 0, &mut out);
    out
}

#[test]
fn title_is_the_name_with_the_status_in_brackets() {
    assert_eq!(make_title("web", Some("CREATE_COMPLETE")), "web (CREATE_COMPLETE)");
    assert_eq!(make_title("web", None), "web");
    assert_eq!(make_title("", Some("X")), " (X)");
}

#[test]
fn stack_summary_title() {
    let stack = summary(Some("id-1"), Some("web"), Some(StackStatus::UpdateComplete));
    assert_eq!(stack.title(), "web (UPDATE_COMPLETE)");
    assert_eq!(summary(Some("id-1"), Some("web"), None).title(), "web");
    assert_eq!(summary(Some("id-1"), None, Some(StackStatus::CreateFailed)).title(), " (CREATE_FAILED)");
    assert_eq!(
        summary(None, Some("n"), Some(StackStatus::Other("NEW".to_string()))).title(),
        "n (NEW)"
    );
}

#[test]
fn stack_title_and_label() {
    let stack = Stack {
        stack_id: Some("arn:stack/web".to_string()),
        stack_name: Some("web".to_string()),
        stack_status: Some(StackStatus::RollbackComplete),
        tags: vec![Tag { key: Some("Name".to_string()), value: Some("tagged".to_string()) }],
    };
    assert_eq!(stack.title(), "web (ROLLBACK_COMPLETE)");
    assert_eq!(stack.id(), "arn:stack/web");
    assert_eq!(stack.name(), Some("web"));
    assert_eq!(stack.tag("Name"), Some("tagged"));
    assert_eq!(stack.description(), None);
    assert_eq!(stack.id_and_name(), "arn:stack/web (web)");
    let bare = Stack { stack_id: None, stack_name: None, stack_status: None, tags: vec![] };
    assert_eq!(bare.title(), "");
    assert_eq!(bare.id_and_name(), "");
}

#[test]
fn stack_resource_title_and_label() {
    let r = resource(Some("Bucket"), Some("my-bucket"), Some("AWS::S3::Bucket"), Some("CREATE_COMPLETE"));
    assert_eq!(r.title(), "Bucket (CREATE_COMPLETE)");
    assert_eq!(r.id(), "my-bucket");
    assert_eq!(r.name(), Some("Bucket"));
    assert_eq!(r.tag("Name"), None);
    assert_eq!(r.description(), None);
    assert_eq!(r.id_and_name(), "my-bucket (Bucket) [CREATE_COMPLETE]");
    let bare = resource(None, None, None, None);
    assert_eq!(bare.title(), "");
    assert_eq!(bare.id_and_name(), " (unnamed resource) [no status]");
}

#[test]
fn stack_resource_summary_label_starts_with_the_type() {
    let r = StackResourceSummary {
        logical_resource_id: Some("Bucket".to_string()),
        physical_resource_id: Some("my-bucket".to_string()),
        resource_type: Some("AWS::S3::Bucket".to_string()),
        resource_status: Some("CREATE_COMPLETE".to_string()),
    };
    assert_eq!(r.id(), "my-bucket");
    assert_eq!(r.name(), Some("Bucket"));
    assert_eq!(r.tag("Name"), None);
    assert_eq!(r.description(), None);
    assert_eq!(r.id_and_name(), "AWS::S3::Bucket: my-bucket (Bucket) [CREATE_COMPLETE]");
    let bare = StackResourceSummary {
        logical_resource_id: None,
        physical_resource_id: None,
        resource_type: None,
        resource_status: None,
    };
    assert_eq!(bare.id_and_name(), ":  (unnamed resource) [no status]");
}

#[test]
fn resource_label_and_defaults() {
    let none: Option<String> = None;
    assert_eq!(
        make_resource_label(&Some("p".to_string()), &Some("l".to_string()), &Some("s".to_string())),
        "p (l) [s]"
    );
    assert_eq!(make_resource_label(&none, &none, &none), " (unnamed resource) [no status]");
    assert_eq!(str_or(&none, "fallback"), "fallback");
    assert_eq!(str_or(&Some("x".to_string()), "fallback"), "x");
}

#[test]
fn every_stack_is_requested_where_none_is_named() {
    assert!(is_requested(&summary(None, None, None), &vec![]));
    assert!(is_requested(&summary(Some("id"), Some("name"), None), &vec![]));
}

#[test]
fn a_stack_is_requested_by_name_or_identifier() {
    let stack = summary(Some("arn:1"), Some("web"), None);
    assert!(is_requested(&stack, &names(&["web"])));
    assert!(is_requested(&stack, &names(&["other", "arn:1"])));
    assert!(!is_requested(&stack, &names(&["other"])));
    assert!(!is_requested(&stack, &names(&["Web"])));
}

#[test]
fn a_stack_without_name_or_identifier_is_not_requested_by_name() {
    assert!(!is_requested(&summary(None, None, None), &names(&[""])));
    assert!(!is_requested(&summary(None, None, None), &names(&["web"])));
    assert!(is_requested(&summary(None, Some("".into()), None), &names(&[""])));
}

#[test]
fn stack_tree_lists_type_and_identifier() {
    let stack = summary(Some("arn:1"), Some("web"), Some(StackStatus::CreateComplete));
    let resources = vec![
        resource(Some("Bucket"), Some("my-bucket"), Some("AWS::S3::Bucket"), None),
        resource(None, None, None, None),
    ];
    let tree = stack_tree(&stack, &resources);
    assert_eq!(
        outline_of(&tree),
        vec![
            (0, "web (CREATE_COMPLETE)".to_string()),
            (1, "AWS::S3::Bucket                         : my-bucket".to_string()),
            (1, "no type                                 : no id".to_string()),
        ]
    );
    assert_eq!(
        outline_of(&tree)[1].1,
        format!("{:40}: {}", "AWS::S3::Bucket", "my-bucket")
    );
}

#[test]
fn stack_tree_keeps_a_long_type_whole() {
    let long = "AWS::ServiceCatalogAppRegistry::AttributeGroupAssociation";
    let stack = summary(None, Some("s"), None);
    let tree = stack_tree(&stack, &vec![resource(None, Some("x"), Some(long), None)]);
    assert_eq!(outline_of(&tree), vec![(0, "s".to_string()), (1, format!("{long}: x"))]);
}

#[test]
fn stack_tree_without_resources_is_the_title_alone() {
    let tree = stack_tree(&summary(None, Some("s"), None), &vec![]);
    assert_eq!(tree.to_string(), "s\n");
}

#[test]
fn stack_tree_prints_with_branches() {
    let stack = summary(None, Some("s"), None);
    let resources = vec![
        resource(None, Some("a"), Some("T"), None),
        resource(None, Some("b"), Some("U"), None),
    ];
    let pad = " ".repeat(39);
    let expected = format!("s\n├── T{pad}: a\n└── U{pad}: b\n");
    assert_eq!(stack_tree(&stack, &resources).to_string(), expected);
}

#[test]
fn collect_stacks_keeps_the_stacks_asked_for() {
    let listed = vec![
        Some(summary(Some("arn:1"), Some("web"), None)),
        None,
        Some(summary(Some("arn:2"), Some("db"), None)),
        Some(summary(Some("arn:3"), Some("cache"), None)),
    ];
    let mut cf = CfResources::new();
    assert_eq!(cf.stack_count(), 0);
    cf.collect_stacks(&listed, &vec![]);
    assert_eq!(cf.stack_count(), 3);
    cf.collect_stacks(&listed, &names(&["cache", "arn:1"]));
    assert_eq!(cf.stack_count(), 2);
    assert_eq!(
        cf.stacks(),
        &vec![
            summary(Some("arn:1"), Some("web"), None),
            summary(Some("arn:3"), Some("cache"), None)
        ]
    );
    assert_eq!(
        cf.pending(),
        Some(Lookup { label: "web".to_string(), stack_id: "arn:1".to_string() })
    );
    cf.collect_stacks(&listed, &names(&["nothing"]));
    assert_eq!(cf.stack_count(), 0);
    assert_eq!(cf.pending(), None);
}

#[test]
fn resources_are_collected_stack_by_stack() {
    let listed = vec![
        Some(summary(Some("arn:1"), Some("web"), Some(StackStatus::CreateComplete))),
        Some(summary(Some("arn:2"), None, None)),
        Some(summary(None, None, None)),
    ];
    let mut cf = CfResources::new();
    cf.collect_stacks(&listed, &vec![]);
    assert!(cf.trees().is_empty());

    assert_eq!(
        cf.pending(),
        Some(Lookup { label: "web".to_string(), stack_id: "arn:1".to_string() })
    );
    assert!(cf.collect_stack_resources(vec![resource(None, Some("b"), Some("T"), None)]));
    assert_eq!(
        cf.pending(),
        Some(Lookup { label: "arn:2".to_string(), stack_id: "arn:2".to_string() })
    );
    assert!(cf.collect_stack_resources(vec![]));
    assert_eq!(cf.pending(), Some(Lookup { label: "".to_string(), stack_id: "".to_string() }));
    assert!(cf.collect_stack_resources(vec![]));
    assert_eq!(cf.pending(), None);
    assert!(!cf.collect_stack_resources(vec![resource(None, None, None, None)]));
    assert_eq!(cf.stack_count(), 3);

    let trees = cf.trees();
    assert_eq!(trees.len(), 3);
    assert_eq!(
        outline_of(&trees[0]),
        vec![(0, "web (CREATE_COMPLETE)".to_string()), (1, format!("{:40}: b", "T"))]
    );
    assert_eq!(outline_of(&trees[1]), vec![(0, "".to_string())]);
    assert_eq!(outline_of(&trees[2]), vec![(0, "".to_string())]);
}

#[test]
fn a_new_run_asks_for_every_stack_again_and_adds_to_what_is_held() {
    let listed = vec![
        Some(summary(Some("arn:1"), Some("web"), None)),
        Some(summary(Some("arn:2"), Some("db"), None)),
    ];
    let mut cf = CfResources::new();
    cf.collect_stacks(&listed, &vec![]);
    for round in ["first", "second"] {
        cf.begin_run();
        let mut asked = vec![];
        while let Some(lookup) = cf.pending() {
            let id = format!("{round} {}", lookup.label);
            asked.push(lookup.stack_id);
            assert!(cf.collect_stack_resources(vec![resource(None, Some(&id), Some("T"), None)]));
        }
        assert_eq!(asked, vec!["arn:1", "arn:2"]);
        assert_eq!(cf.pending(), None);
    }
    let trees = cf.trees();
    let shown: Vec<(String, String)> = trees
        .iter()
        .map(|tree| (tree.root.clone(), tree.leaves[0].root.clone()))
        .collect();
    assert_eq!(
        shown,
        vec![
            ("web".to_string(), format!("{:40}: first web", "T")),
            ("db".to_string(), format!("{:40}: first db", "T")),
            ("web".to_string(), format!("{:40}: second web", "T")),
            ("db".to_string(), format!("{:40}: second db", "T")),
        ]
    );
}

#[test]
fn a_run_after_a_failed_one_starts_at_the_first_stack() {
    let listed = vec![
        Some(summary(Some("arn:1"), Some("web"), None)),
        Some(summary(Some("arn:2"), Some("db"), None)),
        Some(summary(Some("arn:3"), Some("cache"), None)),
    ];
    let mut cf = CfResources::new();
    cf.collect_stacks(&listed, &vec![]);
    cf.begin_run();
    assert!(cf.collect_stack_resources(vec![]));
    // the lookup of the second stack failed: what was added stays
    assert_eq!(cf.trees().len(), 1);
    cf.begin_run();
    assert_eq!(
        cf.pending(),
        Some(Lookup { label: "web".to_string(), stack_id: "arn:1".to_string() })
    );
    assert!(cf.collect_stack_resources(vec![]));
    assert!(cf.collect_stack_resources(vec![]));
    assert!(cf.collect_stack_resources(vec![]));
    assert_eq!(cf.pending(), None);
    let roots: Vec<String> = cf.trees().iter().map(|tree| tree.root.clone()).collect();
    assert_eq!(roots, vec!["web", "web", "db", "cache"]);
}

#[test]
fn a_run_goes_over_the_stacks_that_replaced_the_earlier_ones() {
    let mut cf = CfResources::new();
    cf.collect_stacks(&vec![Some(summary(Some("arn:1"), Some("web"), None))], &vec![]);
    cf.begin_run();
    assert!(cf.collect_stack_resources(vec![]));
    assert_eq!(cf.pending(), None);
    cf.collect_stacks(
        &vec![
            Some(summary(Some("arn:7"), Some("new"), None)),
            Some(summary(Some("arn:8"), Some("newer"), None)),
        ],
        &vec![],
    );
    cf.begin_run();
    assert_eq!(
        cf.pending(),
        Some(Lookup { label: "new".to_string(), stack_id: "arn:7".to_string() })
    );
    assert!(cf.collect_stack_resources(vec![]));
    assert!(cf.collect_stack_resources(vec![]));
    assert!(!cf.collect_stack_resources(vec![]));
    let roots: Vec<String> = cf.trees().iter().map(|tree| tree.root.clone()).collect();
    assert_eq!(roots, vec!["web", "new", "newer"]);
}

#[test]
fn nothing_is_pending_in_a_new_collection() {
    let mut cf = CfResources::new();
    assert_eq!(cf.pending(), None);
    assert!(!cf.collect_stack_resources(vec![]));
    assert!(cf.trees().is_empty());
}

#[test]
fn duplicate_copies_a_stack() {
    let stack = summary(Some("arn:1"), Some("web"), Some(StackStatus::Other("X".to_string())));
    assert_eq!(stack.duplicate(), stack);
    assert_eq!(summary(None, None, None).duplicate(), summary(None, None, None));
}
