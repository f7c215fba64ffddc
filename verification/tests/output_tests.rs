use emqxctl::plan::{shown, Render, Shown};
use emqxctl::client::PaginationMeta;
use emqxctl::columns::{columns, ColumnSet};
use emqxctl::json::{object_set, JsonValue};
use emqxctl::output::{Column, ItemOutput, ListOutput, OutputFormat, OutputFormatter, SuccessOutput, ValueOutput};

fn obj(members: Vec<(&str, JsonValue)>) -> JsonValue {
    let mut es = Vec::new();
    for (k, v) in members {
        object_set(&mut es, k.to_string(), v);
    }
    JsonValue::Object(es)
}

fn s(x: &str) -> JsonValue {
    JsonValue::Str(x.to_string())
}

fn meta(page: Option<u64>, limit: Option<u64>, count: Option<u64>) -> PaginationMeta {
    PaginationMeta { page, limit, count, hasnext: None, position: None }
}

#[test]
fn truncation_marks_cut_values() {
    assert_eq!(OutputFormatter::truncate("abcdefghij", 6), "abc...");
    assert_eq!(OutputFormatter::truncate("abc", 3), "abc");
    assert_eq!(OutputFormatter::truncate("abcdef", 2), "ab");
    assert_eq!(OutputFormatter::truncate("héllo wörld", 6), "hé...");
    assert!(OutputFormatter::can_truncate("héllo", 4));
    assert!(!OutputFormatter::can_truncate("aé", 2));
    assert!(OutputFormatter::can_truncate("aé", 3));
}

#[test]
fn page_footer_counts_pages() {
    assert_eq!(
        OutputFormatter::page_footer(&meta(Some(1), Some(50), Some(120))),
        Some("--- Page 1/3 (120 total) ---".to_string())
    );
    assert_eq!(
        OutputFormatter::page_footer(&meta(Some(2), None, Some(250))),
        Some("--- Page 2/3 (250 total) ---".to_string())
    );
    assert_eq!(
        OutputFormatter::page_footer(&meta(Some(1), Some(100), Some(0))),
        Some("--- Page 1/1 (0 total) ---".to_string())
    );
    assert_eq!(
        OutputFormatter::page_footer(&meta(Some(1), Some(50), Some(100))),
        Some("--- Page 1/2 (100 total) ---".to_string())
    );
    assert_eq!(OutputFormatter::page_footer(&meta(None, Some(50), Some(120))), None);
    assert_eq!(OutputFormatter::page_footer(&meta(Some(1), None, None)), None);
}

#[test]
fn list_as_blank_table() {
    let fmt = OutputFormatter::new(OutputFormat::Table);
    let items = vec![obj(vec![("topic", s("t/1")), ("node", s("n1"))])];
    let cols = columns(ColumnSet::TopicList);
    assert!(fmt.cells_fit(&items, &cols, None));
    match fmt.list_output(&items, &cols, None) {
        ListOutput::Table(text) => assert_eq!(text, " TOPIC   NODE \n t/1     n1   "),
        other => panic!("unexpected {:?}", other),
    }
}

#[test]
fn narrow_tables_cut_long_cells_and_wide_tables_add_columns() {
    let cols = vec![Column { header: "ID", json_path: "id", max_width: Some(5) }];
    let wide = vec![Column { header: "PORT", json_path: "port", max_width: None }];
    let items = vec![obj(vec![("id", s("abcdefgh")), ("port", JsonValue::Number("1883".to_string()))])];
    let narrow = OutputFormatter::new(OutputFormat::Table);
    match narrow.list_output(&items, &cols, Some(&wide)) {
        ListOutput::Table(text) => assert_eq!(text, " ID    \n ab... "),
        other => panic!("unexpected {:?}", other),
    }
    let wide_fmt = OutputFormatter::new(OutputFormat::Wide);
    match wide_fmt.list_output(&items, &cols, Some(&wide)) {
        ListOutput::Table(text) => assert_eq!(text, " ID         PORT \n abcdefgh   1883 "),
        other => panic!("unexpected {:?}", other),
    }
}

#[test]
fn empty_lists_and_other_formats() {
    let cols = columns(ColumnSet::NodeList);
    assert_eq!(OutputFormatter::new(OutputFormat::Table).list_output(&Vec::new(), &cols, None), ListOutput::NoItems);
    assert_eq!(OutputFormatter::new(OutputFormat::Json).list_output(&Vec::new(), &cols, None), ListOutput::Json);
    assert_eq!(OutputFormatter::new(OutputFormat::Yaml).list_output(&Vec::new(), &cols, None), ListOutput::Yaml);
}

#[test]
fn item_lines_pad_headings() {
    let fmt = OutputFormatter::new(OutputFormat::Table);
    let item = obj(vec![("node", s("emqx@127.0.0.1")), ("node_status", s("running"))]);
    let cols = vec![
        Column { header: "NODE", json_path: "node", max_width: None },
        Column { header: "STATUS", json_path: "node_status", max_width: None },
        Column { header: "VERSION", json_path: "version", max_width: None },
    ];
    assert_eq!(
        fmt.item_output(&item, &cols),
        ItemOutput::Lines(vec![
            "NODE:                emqx@127.0.0.1".to_string(),
            "STATUS:              running".to_string(),
            "VERSION:             ".to_string(),
        ])
    );
    assert_eq!(OutputFormatter::new(OutputFormat::Yaml).item_output(&item, &cols), ItemOutput::Yaml);
}

#[test]
fn values_and_confirmations() {
    let fmt = OutputFormatter::new(OutputFormat::Table);
    assert_eq!(fmt.value_output(&s("mqtt { }")), ValueOutput::Raw("mqtt { }".to_string()));
    assert_eq!(fmt.value_output(&JsonValue::Null), ValueOutput::Json);
    assert_eq!(OutputFormatter::new(OutputFormat::Yaml).value_output(&JsonValue::Null), ValueOutput::Yaml);
    assert_eq!(fmt.success_output("Rule created"), SuccessOutput::Plain("Rule created".to_string()));
    assert_eq!(
        OutputFormatter::new(OutputFormat::Json).success_output("done"),
        SuccessOutput::Json(obj(vec![("status", s("ok")), ("message", s("done"))]))
    );
}

#[test]
fn answers_are_shown_as_the_plan_says() {
    assert_eq!(shown(Render::SuccessIfNull("Rule created".to_string()), &JsonValue::Null), Shown::Success("Rule created".to_string()));
    assert_eq!(shown(Render::SuccessIfNull("Rule created".to_string()), &s("x")), Shown::Value);
    assert_eq!(shown(Render::Success("ok".to_string()), &s("x")), Shown::Success("ok".to_string()));
    assert_eq!(shown(Render::Item(ColumnSet::NodeDetail), &s("x")), Shown::Item(ColumnSet::NodeDetail));
    let env = obj(vec![("data", JsonValue::Array(vec![s("a"), s("b")]))]);
    assert_eq!(shown(Render::List(ColumnSet::NodeList), &env), Shown::List(vec![s("a"), s("b")], ColumnSet::NodeList));
}
