use policy_engine::check::{run_check, Check};
use policy_engine::engine::{Control, PolicyEngine, Validation};
use policy_engine::pointer::resolve;
use policy_engine::value::{value_eq, Value};

fn text(s: &str) -> Value {
    Value::Text(s.to_string())
}

fn obj(pairs: Vec<(&str, Value)>) -> Value {
    Value::Object(pairs.into_iter().map(|(k, v)| (k.to_string(), v)).collect())
}

fn sample_doc() -> Value {
    obj(vec![
        ("name", text("demo")),
        ("env", text("prod")),
        ("tags", Value::Array(vec![text("a"), text("approved")])),
        ("count", Value::Int(1)),
        ("a/b", text("slash-key")),
        ("t~e", text("tilde-key")),
    ])
}

#[test]
fn empty_control_list_passes_any_document() {
    let engine = PolicyEngine::new();
    match engine.validate(&sample_doc()) {
        Validation::True => (),
        _ => panic!("an engine without controls must pass"),
    }
    match engine.validate(&Value::Null) {
        Validation::True => (),
        _ => panic!("an engine without controls must pass"),
    }
}

#[test]
fn empty_all_of_true_empty_any_of_false() {
    let doc = sample_doc();
    assert!(run_check(&Check::AllOf { rules: vec![] }, &doc));
    assert!(!run_check(&Check::AnyOf { rules: vec![] }, &doc));
    assert!(run_check(&Check::AllOf { rules: vec![] }, &Value::Null));
    assert!(!run_check(&Check::AnyOf { rules: vec![] }, &Value::Null));
}

#[test]
fn double_negation_matches_plain_check() {
    let doc = sample_doc();
    let checks = vec![
        Check::ExistsAndNotEmpty { field: "/name".to_string() },
        Check::Equals { field: "/env".to_string(), value: text("staging") },
        Check::IsSome { field: "/absent".to_string() },
    ];
    for c in checks {
        let plain = run_check(&c, &doc);
        let doubled = Check::Not { rule: Box::new(Check::Not { rule: Box::new(c) }) };
        assert_eq!(run_check(&doubled, &doc), plain);
    }
}

#[test]
fn if_without_else_is_any_of_not_cond_then() {
    let docs = vec![
        obj(vec![("tier", text("gold")), ("sla", text("24h"))]),
        obj(vec![("tier", text("gold"))]),
        obj(vec![("tier", text("silver"))]),
    ];
    let cond = || Check::Equals { field: "/tier".to_string(), value: text("gold") };
    let consequence = || Check::IsSome { field: "/sla".to_string() };
    for doc in docs {
        let ite = Check::If {
            cond: Box::new(cond()),
            then_branch: Box::new(consequence()),
            else_branch: None,
        };
        let disj = Check::AnyOf {
            rules: vec![Check::Not { rule: Box::new(cond()) }, consequence()],
        };
        assert_eq!(run_check(&ite, &doc), run_check(&disj, &doc));
    }
}

#[test]
fn exists_implies_some_but_not_conversely() {
    // present and non-empty: both hold
    let full = obj(vec![("name", text("x"))]);
    assert!(run_check(&Check::ExistsAndNotEmpty { field: "/name".to_string() }, &full));
    assert!(run_check(&Check::IsSome { field: "/name".to_string() }, &full));

    // present as an empty string: IsSome holds, ExistsAndNotEmpty does not
    let empty = obj(vec![("name", text(""))]);
    assert!(!run_check(&Check::ExistsAndNotEmpty { field: "/name".to_string() }, &empty));
    assert!(run_check(&Check::IsSome { field: "/name".to_string() }, &empty));
}

#[test]
fn test_op_contains() {
    let check = Check::Contains { field: "/tags".to_string(), value: text("approved") };
    let mut engine = PolicyEngine::new();
    engine.add_control(Control {
        id: "contains_001".to_string(),
        description: "tags must include approved".to_string(),
        check,
    });

    let pass_doc = obj(vec![("tags", Value::Array(vec![text("a"), text("approved")]))]);
    match engine.validate(&pass_doc) {
        Validation::True => (),
        _ => panic!("Test should have passed with Validation::True."),
    }

    let fail_doc = obj(vec![("tags", Value::Array(vec![text("a")]))]);
    match engine.validate(&fail_doc) {
        Validation::False(reqs) => assert_eq!(reqs[0].control, "contains_001"),
        _ => panic!("Test should have failed."),
    }
}

#[test]
fn report_shape_round_trip() {
    let mut engine = PolicyEngine::new();
    engine.add_control(Control {
        id: "ok_001".to_string(),
        description: "name present".to_string(),
        check: Check::IsSome { field: "/name".to_string() },
    });
    engine.add_control(Control {
        id: "bad_001".to_string(),
        description: "env must be prod".to_string(),
        check: Check::Equals { field: "/env".to_string(), value: text("prod") },
    });
    engine.add_control(Control {
        id: "bad_002".to_string(),
        description: "owner present".to_string(),
        check: Check::IsSome { field: "/owner".to_string() },
    });

    let passing = obj(vec![("name", text("x")), ("env", text("prod")), ("owner", text("me"))]);
    let report = engine.validate(&passing).to_report();
    match report {
        Value::Object(entries) => {
            assert_eq!(entries.len(), 1);
            assert_eq!(entries[0].0, "valid");
            assert!(matches!(entries[0].1, Value::Bool(true)));
        }
        _ => panic!("report must be an object"),
    }

    let failing = obj(vec![("name", text("x")), ("env", text("dev"))]);
    let report = engine.validate(&failing).to_report();
    match report {
        Value::Object(entries) => {
            assert_eq!(entries.len(), 2);
            assert_eq!(entries[0].0, "valid");
            assert!(matches!(entries[0].1, Value::Bool(false)));
            assert_eq!(entries[1].0, "requirements");
            match &entries[1].1 {
                Value::Array(items) => {
                    // exactly one entry per failing control, in order
                    assert_eq!(items.len(), 2);
                    match &items[0] {
                        Value::Object(e) => {
                            assert_eq!(e[0].0, "control");
                            match &e[0].1 {
                                Value::Text(s) => assert_eq!(s, "bad_001"),
                                _ => panic!("control must be text"),
                            }
                            assert_eq!(e[1].0, "required");
                            match &e[1].1 {
                                Value::Text(s) => assert_eq!(s, "env must be prod"),
                                _ => panic!("required must be text"),
                            }
                        }
                        _ => panic!("requirement must be an object"),
                    }
                    match &items[1] {
                        Value::Object(e) => match &e[0].1 {
                            Value::Text(s) => assert_eq!(s, "bad_002"),
                            _ => panic!("control must be text"),
                        },
                        _ => panic!("requirement must be an object"),
                    }
                }
                _ => panic!("requirements must be an array"),
            }
        }
        _ => panic!("report must be an object"),
    }
}

#[test]
fn summary_exact_text() {
    let mut engine = PolicyEngine::new();
    engine.add_control(Control {
        id: "exists_001".to_string(),
        description: "name must be present".to_string(),
        check: Check::ExistsAndNotEmpty { field: "/name".to_string() },
    });

    let pass = engine.validate(&obj(vec![("name", text("x"))]));
    assert_eq!(pass.to_summary(), "Validation PASSED\n");

    let fail = engine.validate(&obj(vec![("name", text(""))]));
    assert_eq!(
        fail.to_summary(),
        "Validation FAILED with 1 requirement:\n  - 1: RULE \"exists_001\" => name must be present\n"
    );
}

#[test]
fn summary_plural_and_numbering() {
    let mut engine = PolicyEngine::new();
    for n in 1..=11usize {
        engine.add_control(Control {
            id: format!("c{}", n),
            description: format!("d{}", n),
            check: Check::IsSome { field: "/absent".to_string() },
        });
    }
    let fail = engine.validate(&obj(vec![("present", text("x"))]));
    let summary = fail.to_summary();
    assert!(summary.starts_with("Validation FAILED with 11 requirements:\n"));
    assert!(summary.contains("  - 10: RULE \"c10\" => d10\n"));
    assert!(summary.contains("  - 11: RULE \"c11\" => d11\n"));
}

#[test]
fn pointer_resolution_edges() {
    let doc = sample_doc();

    // empty path: the whole document
    assert!(resolve(&doc, "").is_some());

    // a path without a leading slash is absent
    assert!(resolve(&doc, "name").is_none());

    // plain key
    match resolve(&doc, "/name") {
        Some(Value::Text(s)) => assert_eq!(s, "demo"),
        _ => panic!("expected /name to resolve to text"),
    }

    // sequence indexing
    match resolve(&doc, "/tags/1") {
        Some(Value::Text(s)) => assert_eq!(s, "approved"),
        _ => panic!("expected /tags/1 to resolve"),
    }

    // out-of-range index, superfluous leading zero, non-numeric segment
    assert!(resolve(&doc, "/tags/2").is_none());
    assert!(resolve(&doc, "/tags/01").is_none());
    assert!(resolve(&doc, "/tags/x").is_none());

    // traversal through a scalar is absent
    assert!(resolve(&doc, "/name/0").is_none());

    // escaped slash and tilde in keys
    match resolve(&doc, "/a~1b") {
        Some(Value::Text(s)) => assert_eq!(s, "slash-key"),
        _ => panic!("expected /a~1b to resolve"),
    }
    match resolve(&doc, "/t~0e") {
        Some(Value::Text(s)) => assert_eq!(s, "tilde-key"),
        _ => panic!("expected /t~0e to resolve"),
    }

    // missing key
    assert!(resolve(&doc, "/absent").is_none());
}

#[test]
fn equality_is_type_sensitive() {
    assert!(!value_eq(&text("1"), &Value::Int(1)));
    assert!(!value_eq(&Value::Bool(true), &Value::Int(1)));
    assert!(value_eq(&Value::Int(1), &Value::Int(1)));
    assert!(value_eq(
        &Value::Array(vec![Value::Int(1), text("a")]),
        &Value::Array(vec![Value::Int(1), text("a")])
    ));
    assert!(!value_eq(
        &Value::Array(vec![Value::Int(1)]),
        &Value::Array(vec![Value::Int(1), Value::Int(1)])
    ));

    let doc = sample_doc();
    let c = Check::Equals { field: "/count".to_string(), value: text("1") };
    assert!(!run_check(&c, &doc));
    let c = Check::Equals { field: "/count".to_string(), value: Value::Int(1) };
    assert!(run_check(&c, &doc));
}

#[test]
fn duplicate_control_ids_both_reported() {
    let mut engine = PolicyEngine::new();
    for _ in 0..2 {
        engine.add_control(Control {
            id: "dup_001".to_string(),
            description: "owner present".to_string(),
            check: Check::IsSome { field: "/owner".to_string() },
        });
    }
    match engine.validate(&obj(vec![("name", text("x"))])) {
        Validation::False(reqs) => {
            assert_eq!(reqs.len(), 2);
            assert_eq!(reqs[0].control, "dup_001");
            assert_eq!(reqs[1].control, "dup_001");
        }
        _ => panic!("both duplicate controls must be reported"),
    }
}

#[test]
fn deep_structural_equality_in_checks() {
    let doc = obj(vec![(
        "meta",
        obj(vec![
            ("versions", Value::Array(vec![Value::Int(1), Value::Int(2)])),
            ("owner", text("team-a")),
        ]),
    )]);

    // equal nested object
    let expected = obj(vec![
        ("versions", Value::Array(vec![Value::Int(1), Value::Int(2)])),
        ("owner", text("team-a")),
    ]);
    let c = Check::Equals { field: "/meta".to_string(), value: expected };
    assert!(run_check(&c, &doc));

    // a nested difference is noticed
    let wrong = obj(vec![
        ("versions", Value::Array(vec![Value::Int(1), Value::Int(3)])),
        ("owner", text("team-a")),
    ]);
    let c = Check::Equals { field: "/meta".to_string(), value: wrong };
    assert!(!run_check(&c, &doc));

    // nested pointer through object and array
    match resolve(&doc, "/meta/versions/0") {
        Some(Value::Int(i)) => assert_eq!(*i, 1),
        _ => panic!("expected /meta/versions/0 to resolve"),
    }
}

#[test]
fn fail_closed_on_wrong_types() {
    let doc = obj(vec![("tags", text("not-a-sequence")), ("name", Value::Int(7))]);

    // Contains on a non-sequence is false, not an error
    assert!(!run_check(
        &Check::Contains { field: "/tags".to_string(), value: text("a") },
        &doc
    ));
    // ExistsAndNotEmpty on a non-text value is false
    assert!(!run_check(
        &Check::ExistsAndNotEmpty { field: "/name".to_string() },
        &doc
    ));
    // Both are false on an absent field too
    assert!(!run_check(
        &Check::Contains { field: "/absent".to_string(), value: text("a") },
        &doc
    ));
    assert!(!run_check(&Check::IsSome { field: "/absent".to_string() }, &doc));
}

#[test]
fn some_holds_of_empty_but_present_values() {
    // deliberately different from ExistsAndNotEmpty: empty text and empty
    // sequences still count as present
    let doc = obj(vec![("a", text("")), ("b", Value::Array(vec![]))]);
    assert!(run_check(&Check::IsSome { field: "/a".to_string() }, &doc));
    assert!(run_check(&Check::IsSome { field: "/b".to_string() }, &doc));
    assert!(!run_check(&Check::IsSome { field: "/c".to_string() }, &doc));
}
