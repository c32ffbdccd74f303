use checklist::{
    advance, ask_formatted_question, begin, interpret, load, parse, start, summary, Action,
    CheckExpr, Checklist, ChecklistDocument, EvalError, Event, Opt, ParseError, RunError, Stage,
    Yaml,
};

fn text(s: &str) -> String {
    s.to_string()
}

fn checklist(automated: Vec<CheckExpr>, manual: Vec<&str>) -> Checklist {
    Checklist {
        environment: vec![],
        automated,
        manual: manual.into_iter().map(text).collect(),
    }
}

fn literal(s: &str) -> CheckExpr {
    CheckExpr::Literal(text(s))
}

fn document(name: &str, c: Checklist) -> ChecklistDocument {
    ChecklistDocument { checklists: vec![(text(name), c)] }
}

fn finish(code: i32) -> (Stage, Action) {
    (Stage::Finished(code), Action::Finish { code })
}

fn ask(index: usize, question: &str, continuing: bool) -> (Stage, Action) {
    (Stage::Manual(index), Action::Ask { question: text(question), continuing })
}

fn execute(index: usize, total: usize, command: &str) -> (Stage, Action) {
    (Stage::Automated(index), Action::Execute { index, total, command: text(command) })
}

#[test]
fn test_correct_yaml() {
    let doc = parse(
        b"schema_version: 3\ncommitting:\n  environment: {}\n  automated: []\n  manual:\n    - test",
    )
    .unwrap();
    assert_eq!(doc, document("committing", checklist(vec![], vec!["test"])));
}

#[test]
fn test_defaults() {
    let doc = parse(b"schema_version: 3\ncommitting:\n  manual: []").unwrap();
    assert_eq!(doc, document("committing", checklist(vec![], vec![])));
}

#[test]
fn test_incorrect_yaml() {
    assert!(parse(b"beep beep").is_err())
}

#[test]
fn test_incorrect_schema_version() {
    assert!(parse(b"schema_version: bananas\ncommitting:\n- test").is_err())
}

#[test]
fn test_return_code() {
    let c = checklist(vec![literal("true")], vec![]);
    let step = start(&c).unwrap();
    assert_eq!(step, execute(0, 1, "true"));
    // `true` exits with status 0
    let end = advance(&c, step.0, Event::Exited(Some(0))).unwrap();
    assert_eq!(end, finish(0));
}

#[test]
fn test_return_code_fail() {
    let c = checklist(vec![literal("false")], vec![]);
    let step = start(&c).unwrap();
    assert_eq!(step, execute(0, 1, "false"));
    // `false` exits with status 1
    let end = advance(&c, step.0, Event::Exited(Some(1))).unwrap();
    assert_eq!(end, finish(1));
}

#[test]
fn missing_version_is_unsupported() {
    assert_eq!(parse(b"committing:\n  manual: [a]").unwrap_err(), ParseError::UnsupportedVersion);
}

#[test]
fn other_version_is_unsupported() {
    assert_eq!(parse(b"schema_version: 2\ncommitting: {}").unwrap_err(), ParseError::UnsupportedVersion);
    assert_eq!(parse(b"schema_version: 4\ncommitting: {}").unwrap_err(), ParseError::UnsupportedVersion);
    assert_eq!(parse(b"schema_version: \"3\"\ncommitting: {}").unwrap_err(), ParseError::UnsupportedVersion);
    assert_eq!(parse(b"schema_version: 3.0\ncommitting: {}").unwrap_err(), ParseError::UnsupportedVersion);
}

#[test]
fn bananas_version_is_unsupported() {
    assert_eq!(
        parse(b"schema_version: bananas\ncommitting:\n- test").unwrap_err(),
        ParseError::UnsupportedVersion
    );
}

#[test]
fn broken_yaml_is_malformed() {
    assert!(matches!(parse(b"a: [1, 2").unwrap_err(), ParseError::Malformed(_)));
    assert!(matches!(parse(b"beep beep").unwrap_err(), ParseError::Malformed(_)));
    assert!(matches!(parse(b"- schema_version").unwrap_err(), ParseError::Malformed(_)));
}

#[test]
fn ill_shaped_fields_are_malformed() {
    assert!(matches!(
        parse(b"schema_version: 3\ncommitting:\n  manual: yes").unwrap_err(),
        ParseError::Malformed(_)
    ));
    assert!(matches!(
        parse(b"schema_version: 3\ncommitting:\n  automated: [[1]]").unwrap_err(),
        ParseError::Malformed(_)
    ));
    assert!(matches!(
        parse(b"schema_version: 3\ncommitting:\n  environment: [a]").unwrap_err(),
        ParseError::Malformed(_)
    ));
    assert!(matches!(
        parse(b"schema_version: 3\ncommitting:\n- test").unwrap_err(),
        ParseError::Malformed(_)
    ));
}

#[test]
fn duplicate_names_are_malformed() {
    let empty = || Yaml::Dict(vec![]);
    let root = Yaml::Dict(vec![
        (Yaml::Str(text("schema_version")), Yaml::Int(3)),
        (Yaml::Str(text("committing")), empty()),
        (Yaml::Str(text("committing")), empty()),
    ]);
    assert!(matches!(load(&root).unwrap_err(), ParseError::Malformed(_)));
}

#[test]
fn unknown_fields_are_passed_over() {
    let doc = parse(b"schema_version: 3\ncommitting:\n  notes: anything\n  manual: [a]").unwrap();
    assert_eq!(doc, document("committing", checklist(vec![], vec!["a"])));
}

#[test]
fn full_checklist_reads_every_field() {
    let doc = parse(
        b"schema_version: 3\npushing:\n  environment:\n    MODE: fast\n  automated:\n    - cargo test\n    - starlark: \"'echo ' + 'hi'\"\n  manual:\n    - updated the changelog",
    )
    .unwrap();
    let expected = Checklist {
        environment: vec![(text("MODE"), text("fast"))],
        automated: vec![literal("cargo test"), CheckExpr::Script(text("'echo ' + 'hi'"))],
        manual: vec![text("updated the changelog")],
    };
    assert_eq!(doc, document("pushing", expected));
}

#[test]
fn literal_runs_as_written() {
    let c = checklist(vec![literal("make lint")], vec![]);
    assert_eq!(start(&c).unwrap(), execute(0, 1, "make lint"));
}

fn evaluate_step(index: usize, source: &str) -> (Stage, Action) {
    (Stage::Evaluating(index), Action::Evaluate { index, source: text(source) })
}

fn evaluated(t: &str, v: &str) -> Event {
    Event::Evaluated(Ok((text(t), text(v))))
}

#[test]
fn script_is_evaluated_before_it_runs() {
    let c = checklist(vec![CheckExpr::Script(text("'echo ' + 'hi'"))], vec![]);
    let step = start(&c).unwrap();
    assert_eq!(step, evaluate_step(0, "'echo ' + 'hi'"));
    let step = advance(&c, step.0, evaluated("string", "echo hi")).unwrap();
    assert_eq!(step, execute(0, 1, "echo hi"));
}

#[test]
fn script_with_non_string_value_is_type_error() {
    let c = checklist(vec![CheckExpr::Script(text("1 + 2"))], vec![]);
    let step = start(&c).unwrap();
    match advance(&c, step.0, evaluated("int", "3")) {
        Err(RunError::Evaluation { index, error }) => {
            assert_eq!(index, 0);
            assert_eq!(
                error,
                EvalError::TypeError { source: text("1 + 2"), actual: text("int") }
            );
        }
        other => panic!("unexpected {:?}", other.is_ok()),
    }
}

#[test]
fn script_that_fails_names_its_source() {
    let c = checklist(vec![literal("true"), CheckExpr::Script(text("1 +"))], vec![]);
    let step = start(&c).unwrap();
    let step = advance(&c, step.0, Event::Exited(Some(0))).unwrap();
    assert_eq!(step, evaluate_step(1, "1 +"));
    match advance(&c, step.0, Event::Evaluated(Err(text("syntax error")))) {
        Err(RunError::Evaluation { index, error }) => {
            assert_eq!(index, 1);
            assert_eq!(
                error,
                EvalError::ScriptError { source: text("1 +"), diagnostic: text("syntax error") }
            );
        }
        other => panic!("unexpected {:?}", other.is_ok()),
    }
}

#[test]
fn interpret_takes_only_strings() {
    let ok: Result<(String, String), String> = Ok((text("string"), text("ls")));
    assert_eq!(interpret(ok, "x").unwrap(), "ls");
    let int: Result<(String, String), String> = Ok((text("int"), text("3")));
    assert_eq!(
        interpret(int, "x").unwrap_err(),
        EvalError::TypeError { source: text("x"), actual: text("int") }
    );
    let failed: Result<(String, String), String> = Err(text("bad"));
    assert_eq!(
        interpret(failed, "x +").unwrap_err(),
        EvalError::ScriptError { source: text("x +"), diagnostic: text("bad") }
    );
}

#[test]
fn yes_then_no_aborts_with_one() {
    let doc = parse(b"schema_version: 3\ncommitting:\n  manual: [a, b]").unwrap();
    let step = begin(&doc, "committing").unwrap();
    assert_eq!(step, ask(0, "Have you: a?", false));
    let step = advance(doc.get("committing").unwrap(), step.0, Event::Answered(true)).unwrap();
    assert_eq!(step, ask(1, "Have you: b?", true));
    let step = advance(doc.get("committing").unwrap(), step.0, Event::Answered(false)).unwrap();
    assert_eq!(step, finish(1));
    assert!(summary(1).contains("please fix and start again"));
}

#[test]
fn yes_then_yes_is_all_clear() {
    let doc = parse(b"schema_version: 3\ncommitting:\n  manual: [a, b]").unwrap();
    let c = doc.get("committing").unwrap();
    let step = begin(&doc, "committing").unwrap();
    let step = advance(c, step.0, Event::Answered(true)).unwrap();
    let step = advance(c, step.0, Event::Answered(true)).unwrap();
    assert_eq!(step, finish(0));
    assert!(summary(0).contains("all clear!"));
}

#[test]
fn first_failure_skips_later_commands() {
    let c = checklist(vec![literal("false"), literal("true")], vec![]);
    let step = start(&c).unwrap();
    assert_eq!(step, execute(0, 2, "false"));
    let step = advance(&c, step.0, Event::Exited(Some(1))).unwrap();
    assert_eq!(step, finish(1));
}

#[test]
fn passing_commands_run_in_order() {
    let c = checklist(vec![literal("true"), literal("true")], vec![]);
    let step = start(&c).unwrap();
    let step = advance(&c, step.0, Event::Exited(Some(0))).unwrap();
    assert_eq!(step, execute(1, 2, "true"));
}

#[test]
fn failing_commands_ask_no_question() {
    let c = checklist(vec![literal("false")], vec!["a"]);
    let step = start(&c).unwrap();
    let step = advance(&c, step.0, Event::Exited(Some(7))).unwrap();
    assert_eq!(step, finish(7));
}

#[test]
fn questions_follow_commands() {
    let c = checklist(vec![literal("true")], vec!["a"]);
    let step = start(&c).unwrap();
    let step = advance(&c, step.0, Event::Exited(Some(0))).unwrap();
    assert_eq!(step, ask(0, "Have you: a?", false));
}

#[test]
fn signal_is_fatal() {
    let c = checklist(vec![literal("sleep 100")], vec![]);
    let step = start(&c).unwrap();
    assert!(matches!(advance(&c, step.0, Event::Exited(None)), Err(RunError::Signalled)));
}

#[test]
fn bad_script_stops_the_run() {
    let c = checklist(vec![CheckExpr::Script(text("3"))], vec!["a"]);
    let step = start(&c).unwrap();
    assert!(matches!(
        advance(&c, step.0, evaluated("int", "3")),
        Err(RunError::Evaluation { index: 0, error: EvalError::TypeError { .. } })
    ));
}

#[test]
fn starlark_mapping_may_hold_other_keys() {
    let doc = parse(b"schema_version: 3\nc:\n  automated:\n    - starlark: \"'a'\"\n      note: x").unwrap();
    assert_eq!(doc, document("c", checklist(vec![CheckExpr::Script(text("'a'"))], vec![])));
    assert!(matches!(
        parse(b"schema_version: 3\nc:\n  automated:\n    - note: x").unwrap_err(),
        ParseError::Malformed(_)
    ));
    assert!(matches!(
        parse(b"schema_version: 3\nc:\n  automated:\n    - starlark: [1]").unwrap_err(),
        ParseError::Malformed(_)
    ));
}

#[test]
fn absent_checklist_passes() {
    let doc = parse(b"schema_version: 3\npushing:\n  manual: [a]").unwrap();
    assert_eq!(begin(&doc, "committing").unwrap(), finish(0));
    assert!(doc.get("committing").is_none());
}

#[test]
fn question_is_formatted() {
    assert_eq!(ask_formatted_question("Have you: ", "run the tests"), "Have you: run the tests?");
    assert_eq!(ask_formatted_question("", ""), "?");
}

#[test]
fn default_options_name_the_usual_file() {
    assert_eq!(Opt::default().checklist, ".checklist.yml");
    assert_eq!(Opt::new(text("other.yml")).checklist, "other.yml");
}

#[test]
fn summary_lines() {
    assert_eq!(summary(0), "all clear!");
    assert_eq!(summary(3), "aborting, please fix and start again");
}

#[test]
fn written_document_reads_back() {
    let doc = parse(
        b"schema_version: 3\npushing:\n  environment:\n    MODE: fast\n  automated:\n    - cargo test\n    - starlark: \"'a' + 'b'\"\n  manual: [x, y]\ncommitting: {}",
    )
    .unwrap();
    let tree = doc.to_yaml();
    assert_eq!(load(&tree).unwrap(), doc);
    match &tree {
        Yaml::Dict(entries) => {
            assert_eq!(entries[0], (Yaml::Str(text("schema_version")), Yaml::Int(3)));
            assert_eq!(entries.len(), 3);
        }
        other => panic!("unexpected {:?}", other),
    }
}
