use cmdi::opencli::{ArgumentElement, Arity, ExitCodeElement, OptionElement, V0_1, Info, CommandElement};
use cmdi::picker::{parse_selection, picker_line};
use cmdi::text::{decimal_text, join_with, repeat_text, terminate_each};
use cmdi::usage::{foreach, Segment, SegmentWriter, Usage, UsageStyleClass};

fn texts(w: &SegmentWriter) -> Vec<String> {
    w.segments()
        .iter()
        .map(|s| match s {
            Segment::Text(t, _) => t.clone(),
            Segment::Newline(n) => format!("\\n{}", n),
        })
        .collect()
}

fn argument(name: &str, required: bool, arity: Option<Arity>) -> ArgumentElement {
    ArgumentElement {
        accepted_values: None,
        arity,
        description: Some("what it is".to_string()),
        group: None,
        hidden: false,
        metadata: None,
        name: name.to_string(),
        required,
    }
}

#[test]
fn decimal_numbers() {
    assert_eq!(decimal_text(0), "0");
    assert_eq!(decimal_text(7), "7");
    assert_eq!(decimal_text(1234), "1234");
    assert_eq!(decimal_text(-45), "-45");
    assert_eq!(decimal_text(i64::MAX), i64::MAX.to_string());
    assert_eq!(decimal_text(i64::MIN), i64::MIN.to_string());
}

#[test]
fn joining_and_repeating() {
    let parts = vec!["a".to_string(), "bc".to_string(), "d".to_string()];
    assert_eq!(join_with(&parts, ","), "a,bc,d");
    assert_eq!(join_with(&parts, ""), "abcd");
    assert_eq!(join_with(&vec![], ","), "");
    assert_eq!(terminate_each(&parts, ", "), "a, bc, d, ");
    assert_eq!(repeat_text("  ", 3), "      ");
    assert_eq!(repeat_text("ab", 0), "");
}

#[test]
fn arity_text() {
    let a = Arity { minimum: Some(1), maximum: None };
    assert_eq!(a.text(), "min: 1 | max: N/A");
    let b = Arity { minimum: Some(-2), maximum: Some(10) };
    assert_eq!(b.text(), "min: -2 | max: 10");
}

#[test]
fn argument_usage_line() {
    let mut w = SegmentWriter::new();
    argument("resource", true, None).usage_line(&mut w, 2);
    assert_eq!(texts(&w), vec!["<RESOURCE>", " -- ", "no arity", "\\n2", "what it is"]);
    match &w.segments()[0] {
        Segment::Text(_, style) => assert_eq!(*style, Some(UsageStyleClass::Name)),
        _ => panic!(),
    }
    match &w.segments()[2] {
        Segment::Text(_, style) => assert_eq!(*style, Some(UsageStyleClass::Details)),
        _ => panic!(),
    }

    let mut w = SegmentWriter::new();
    argument("name", false, Some(Arity { minimum: Some(0), maximum: Some(3) })).usage(&mut w, 0);
    assert_eq!(texts(&w), vec!["[NAME]", " -- ", "min: 0 | max: 3", "\\n0", "what it is"]);
}

#[test]
fn option_usage_line_with_aliases() {
    let option = OptionElement {
        aliases: Some(vec!["-n".to_string(), "--ns".to_string()]),
        arguments: None,
        description: None,
        group: None,
        hidden: false,
        metadata: None,
        name: "--namespace".to_string(),
        recursive: false,
        required: false,
    };
    let mut w = SegmentWriter::new();
    option.usage_line(&mut w, 4);
    assert_eq!(texts(&w), vec!["-n, --ns, --namespace", "\\n4"]);
}

#[test]
fn exit_code_and_string_usage() {
    let mut w = SegmentWriter::new();
    ExitCodeElement { code: -1, description: Some("failed".to_string()) }.usage(&mut w, 0);
    "plain".to_string().usage(&mut w, 0);
    assert_eq!(texts(&w), vec!["-1", " -- ", "failed", "plain"]);
}

#[test]
fn headed_lists() {
    let mut w = SegmentWriter::new();
    let list = Some(vec!["x".to_string(), "y".to_string()]);
    foreach(&mut w, &list, "Examples", 1);
    assert_eq!(texts(&w), vec!["\\n1", "Examples", ":", "\\n3", "x", "\\n3", "y", "\\n1"]);

    let mut w = SegmentWriter::new();
    let empty: Option<Vec<String>> = Some(vec![]);
    foreach(&mut w, &empty, "Examples", 0);
    assert_eq!(texts(&w), vec!["Examples", ":"]);

    let mut w = SegmentWriter::new();
    let none: Option<Vec<String>> = None;
    foreach(&mut w, &none, "Examples", 0);
    assert!(w.segments().is_empty());
}

#[test]
fn description_usage() {
    let spec = V0_1 {
        arguments: None,
        commands: Some(vec![CommandElement {
            aliases: None,
            arguments: None,
            commands: None,
            description: Some("show".to_string()),
            examples: None,
            exit_codes: None,
            hidden: false,
            interactive: false,
            metadata: None,
            name: "get".to_string(),
            options: None,
        }]),
        conventions: None,
        examples: None,
        exit_codes: None,
        info: Info {
            contact: None,
            description: Some("tool".to_string()),
            license: None,
            summary: None,
            title: "kubectl".to_string(),
            version: "1".to_string(),
        },
        interactive: false,
        metadata: None,
        opencli: "0.1".to_string(),
        options: None,
    };
    let mut w = SegmentWriter::new();
    spec.usage(&mut w, 0);
    assert_eq!(
        texts(&w),
        vec!["kubectl", "\\n0", "tool", "\\n0", "\\n0", "SUBCOMMANDS", ":", "\\n2", "get", " -- ", "show", "\\n0"]
    );
    let mut w = SegmentWriter::new();
    spec.usage_line(&mut w, 0);
    assert_eq!(texts(&w), vec!["kubectl", " -- ", "tool"]);
}

#[test]
fn picker_lines() {
    assert_eq!(picker_line(0, "plain"), "0\tplain");
    assert_eq!(picker_line(12, "a\nb\n"), "12\ta -- b -- ");
}

#[test]
fn picker_output() {
    assert_eq!(parse_selection("2\n"), vec![2]);
    assert_eq!(parse_selection(" 3 \r\n\n+4\nx\n-1\n5"), vec![3, 4, 5]);
    assert_eq!(parse_selection(""), Vec::<usize>::new());
    assert_eq!(parse_selection("99999999999999999999999\n7"), vec![7]);
    assert_eq!(parse_selection("\u{3000}8\u{a0}"), vec![8]);
    assert_eq!(parse_selection("+\n1 2\n"), Vec::<usize>::new());
}
