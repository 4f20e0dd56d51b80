use random_values::json::{frame_items, frame_record};
use random_values::random::RandomKind;
use random_values::workflow::{Text, Workflow, Workflows, AUTHOR_WEBSITE};
use random_values::{
    generate, generate_values, Args, GenerateRandom, DEFAULT_LENGTH, DEFAULT_NUMBER,
};

fn parse(text: &str) -> serde_json::Value {
    serde_json::from_str(text).unwrap()
}

fn members(record: &serde_json::Value) -> Vec<String> {
    record.as_object().unwrap().keys().cloned().collect()
}

#[test]
fn args_new_keeps_its_three_parts() {
    let args = Args::new("em".to_string(), -1, 2);
    assert_eq!(args.kind, "em");
    assert_eq!(args.length, -1);
    assert_eq!(args.number, 2);
}

#[test]
fn defaults_are_nine_values_and_nine_digits() {
    assert_eq!(DEFAULT_NUMBER, 9);
    assert!(DEFAULT_LENGTH < 0);
    let workflows = generate(&Args::new("number".to_string(), DEFAULT_LENGTH, DEFAULT_NUMBER));
    assert_eq!(workflows.items.len(), 9);
    for item in workflows.items.iter() {
        assert_eq!(item.arg().len(), 9);
    }
}

#[test]
fn text_holds_its_two_parts() {
    let text = Text { copy: "a".to_string(), largetype: "b".to_string() };
    assert_eq!(text.copy, "a");
    assert_eq!(text.largetype, "b");
}

#[test]
fn generate_random_new_keeps_kind_and_value() {
    let generated = GenerateRandom::new(RandomKind::Phone, "13012345678".to_string());
    assert_eq!(generated.kind, RandomKind::Phone);
    assert_eq!(generated.value, "13012345678");
}

#[test]
fn with_uid_fills_the_five_fields() {
    let workflow = Workflow::with_uid("a@qq.com".to_string(), RandomKind::Email, "u-1".to_string());
    assert_eq!(workflow.arg(), "a@qq.com");
    assert_eq!(workflow.title(), "a@qq.com");
    assert_eq!(workflow.subtitle(), "email");
    assert_eq!(workflow.quicklookurl(), "https://hongdenglv.com");
    assert_eq!(workflow.quicklookurl(), AUTHOR_WEBSITE);
    assert_eq!(workflow.uid(), "u-1");
}

#[test]
fn new_gives_each_record_a_fresh_uuid() {
    let first = Workflow::new("12:00:00".to_string(), RandomKind::Time);
    let second = Workflow::new("12:00:00".to_string(), RandomKind::Time);
    assert_eq!(first.arg(), "12:00:00");
    assert_eq!(first.title(), "12:00:00");
    assert_eq!(first.subtitle(), "time");
    assert_eq!(first.quicklookurl(), AUTHOR_WEBSITE);
    assert_eq!(uuid::Uuid::parse_str(first.uid()).unwrap().get_version_num(), 4);
    assert_eq!(uuid::Uuid::parse_str(second.uid()).unwrap().get_version_num(), 4);
    assert_ne!(first.uid(), second.uid());
}

#[test]
fn subtitle_is_the_canonical_name_of_each_kind() {
    let kinds = [
        (RandomKind::Name, "name"),
        (RandomKind::Email, "email"),
        (RandomKind::Phone, "phone"),
        (RandomKind::UUID, "uuid"),
        (RandomKind::Date, "date"),
        (RandomKind::Time, "time"),
        (RandomKind::DateTime, "datetime"),
        (RandomKind::Number, "number"),
    ];
    for (kind, name) in kinds {
        assert_eq!(Workflow::new("x".to_string(), kind).subtitle(), name);
    }
}

#[test]
fn record_json_has_the_five_members_in_order() {
    let workflow = Workflow::with_uid("007".to_string(), RandomKind::Number, "id".to_string());
    assert_eq!(
        workflow.to_json(),
        "{\"arg\":\"007\",\"quicklookurl\":\"https://hongdenglv.com\",\"subtitle\":\"number\",\"title\":\"007\",\"uid\":\"id\"}"
    );
}

#[test]
fn record_json_escapes_what_json_does_not_take() {
    let workflow =
        Workflow::with_uid("a\"b\\c\nd\u{1}".to_string(), RandomKind::Name, "id".to_string());
    assert_eq!(
        workflow.to_json(),
        "{\"arg\":\"a\\\"b\\\\c\\nd\\u0001\",\"quicklookurl\":\"https://hongdenglv.com\",\"subtitle\":\"name\",\"title\":\"a\\\"b\\\\c\\nd\\u0001\",\"uid\":\"id\"}"
    );
    let parsed = parse(&workflow.to_json());
    assert_eq!(parsed["arg"].as_str(), Some("a\"b\\c\nd\u{1}"));
}

#[test]
fn record_json_keeps_other_scripts_as_they_are() {
    let workflow = Workflow::with_uid("赵的的".to_string(), RandomKind::Name, "id".to_string());
    assert!(workflow.to_json().starts_with("{\"arg\":\"赵的的\","));
}

#[test]
fn frame_record_joins_the_given_texts() {
    assert_eq!(
        frame_record("1", "2", "3", "4", "5"),
        "{\"arg\":1,\"quicklookurl\":2,\"subtitle\":3,\"title\":4,\"uid\":5}"
    );
    assert_eq!(
        frame_record("", "", "", "", ""),
        "{\"arg\":,\"quicklookurl\":,\"subtitle\":,\"title\":,\"uid\":}"
    );
}

#[test]
fn frame_items_puts_commas_between_records() {
    assert_eq!(frame_items(&Vec::new()), "{\"items\":[]}");
    assert_eq!(frame_items(&vec!["{}".to_string()]), "{\"items\":[{}]}");
    assert_eq!(
        frame_items(&vec!["1".to_string(), "2".to_string(), "3".to_string()]),
        "{\"items\":[1,2,3]}"
    );
}

#[test]
fn empty_collection_is_an_empty_list() {
    let workflows = Workflows::new(Vec::new());
    assert_eq!(workflows.items.len(), 0);
    assert_eq!(workflows.to_json(), "{\"items\":[]}");
    let parsed = parse(&workflows.to_json());
    assert_eq!(parsed["items"].as_array().unwrap().len(), 0);
}

#[test]
fn workflows_new_keeps_the_order_of_the_values() {
    let values = vec![
        GenerateRandom::new(RandomKind::Number, "1".to_string()),
        GenerateRandom::new(RandomKind::Number, "2".to_string()),
        GenerateRandom::new(RandomKind::Name, "3".to_string()),
    ];
    let workflows = Workflows::new(values);
    assert_eq!(workflows.items.len(), 3);
    assert_eq!(workflows.items[0].arg(), "1");
    assert_eq!(workflows.items[1].arg(), "2");
    assert_eq!(workflows.items[2].arg(), "3");
    assert_eq!(workflows.items[0].subtitle(), "number");
    assert_eq!(workflows.items[2].subtitle(), "name");
    for item in workflows.items.iter() {
        assert_eq!(item.arg(), item.title());
        assert_eq!(item.quicklookurl(), AUTHOR_WEBSITE);
    }
}

#[test]
fn payload_of_three_records_parses_back_to_three_records() {
    let workflows = Workflows::new(generate_values(RandomKind::Phone, -1, 3));
    let parsed = parse(&workflows.to_json());
    assert_eq!(members(&parsed), vec!["items"]);
    let items = parsed["items"].as_array().unwrap();
    assert_eq!(items.len(), 3);
    for (i, item) in items.iter().enumerate() {
        assert_eq!(members(item), vec!["arg", "quicklookurl", "subtitle", "title", "uid"]);
        for member in ["arg", "quicklookurl", "subtitle", "title", "uid"] {
            assert!(item[member].is_string());
            assert!(!item[member].is_null());
        }
        assert_eq!(item["arg"].as_str(), Some(workflows.items[i].arg().as_str()));
        assert_eq!(item["title"].as_str(), Some(workflows.items[i].title().as_str()));
        assert_eq!(item["uid"].as_str(), Some(workflows.items[i].uid().as_str()));
        assert_eq!(item["subtitle"].as_str(), Some("phone"));
        assert_eq!(item["quicklookurl"].as_str(), Some("https://hongdenglv.com"));
    }
}

#[test]
fn payload_is_a_single_line_with_members_in_order() {
    let workflows = Workflows::new(vec![
        GenerateRandom::new(RandomKind::Date, "2000-01-01".to_string()),
        GenerateRandom::new(RandomKind::Date, "2001-02-03".to_string()),
    ]);
    let text = workflows.to_json();
    let expected = format!(
        "{{\"items\":[{{\"arg\":\"2000-01-01\",\"quicklookurl\":\"https://hongdenglv.com\",\"subtitle\":\"date\",\"title\":\"2000-01-01\",\"uid\":\"{}\"}},{{\"arg\":\"2001-02-03\",\"quicklookurl\":\"https://hongdenglv.com\",\"subtitle\":\"date\",\"title\":\"2001-02-03\",\"uid\":\"{}\"}}]}}",
        workflows.items[0].uid(),
        workflows.items[1].uid()
    );
    assert_eq!(text, expected);
    assert!(!text.contains('\n'));
}

#[test]
fn generate_values_gives_as_many_as_asked() {
    assert_eq!(generate_values(RandomKind::Name, -1, 0).len(), 0);
    assert_eq!(generate_values(RandomKind::Name, -1, 1).len(), 1);
    assert_eq!(generate_values(RandomKind::Time, -1, 9).len(), 9);
    assert_eq!(generate_values(RandomKind::Number, 3, 255).len(), 255);
    for value in generate_values(RandomKind::Number, 3, 20) {
        assert_eq!(value.kind, RandomKind::Number);
        assert_eq!(value.value.len(), 3);
    }
}

#[test]
fn count_zero_gives_an_empty_items_list() {
    let workflows = generate(&Args::new("phone".to_string(), -1, 0));
    assert_eq!(workflows.items.len(), 0);
    assert_eq!(workflows.to_json(), "{\"items\":[]}");
}

#[test]
fn token_em_with_count_two_gives_two_email_records() {
    let workflows = generate(&Args::new("em".to_string(), -1, 2));
    assert_eq!(workflows.items.len(), 2);
    let text = workflows.to_json();
    assert!(text.starts_with("{\"items\":[{"));
    assert!(text.ends_with("}]}"));
    let parsed = parse(&text);
    let items = parsed["items"].as_array().unwrap();
    assert_eq!(items.len(), 2);
    let domains = [
        "qq.com",
        "163.com",
        "126.com",
        "gmail.com",
        "outlook.com",
        "yahoo.com",
        "sina.com",
        "sohu.com",
        "aliyun.com",
        "hotmail.com",
        "icloud.com",
        "live.com",
    ];
    for item in items {
        assert_eq!(item["subtitle"].as_str(), Some("email"));
        let arg = item["arg"].as_str().unwrap();
        assert_eq!(item["title"].as_str(), Some(arg));
        let (local, domain) = arg.split_once('@').unwrap();
        assert_eq!(local.len(), 10);
        assert!(local.chars().all(|c| c.is_ascii_alphanumeric()));
        assert!(domains.contains(&domain));
        assert_eq!(item["quicklookurl"].as_str(), Some("https://hongdenglv.com"));
        assert!(uuid::Uuid::parse_str(item["uid"].as_str().unwrap()).is_ok());
    }
    assert_ne!(items[0]["uid"], items[1]["uid"]);
}

#[test]
fn generate_keeps_one_kind_for_the_whole_batch() {
    let workflows = generate(&Args::new("NUM".to_string(), 4, 9));
    assert_eq!(workflows.items.len(), 9);
    for item in workflows.items.iter() {
        assert_eq!(item.subtitle(), "number");
        assert_eq!(item.arg().len(), 4);
        assert_eq!(item.arg(), item.title());
    }
}

#[test]
fn generate_falls_back_to_names_for_an_unknown_token() {
    let workflows = generate(&Args::new("whatever".to_string(), -1, 3));
    assert_eq!(workflows.items.len(), 3);
    for item in workflows.items.iter() {
        assert_eq!(item.subtitle(), "name");
        assert_eq!(item.arg().chars().count(), 3);
    }
}
