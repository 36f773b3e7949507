use buildkit_frontend::options::{OptionValue, Options};

fn into_env(args: Vec<&'static str>) -> Vec<(String, String)> {
    args.into_iter()
        .enumerate()
        .map(|(index, option)| {
            (
                format!("BUILDKIT_FRONTEND_OPT_{}", index),
                String::from(option),
            )
        })
        .collect()
}

fn value_of(options: &Options, name: &str) -> OptionValue {
    options.value_of(name).expect("option should be present").clone()
}

#[test]
fn options_parsing() {
    let options = Options::from_env(into_env(vec![
        "name1",
        "name2=true",
        "name3=false",
        "name4=",
        "name5=value",
        "name6=de=limiter",
        "name7=false,true",
        "name8=value1,value2,value3",
        "name9=value1,val=ue2,value3",
        "build-arg:name10",
        "build-arg:name11=value",
    ]));

    assert_eq!(value_of(&options, "name1"), OptionValue::Flag(true));
    assert_eq!(value_of(&options, "name2"), OptionValue::Flag(true));
    assert_eq!(value_of(&options, "name3"), OptionValue::Flag(false));
    assert_eq!(value_of(&options, "name4"), OptionValue::Flag(true));

    assert_eq!(value_of(&options, "name5"), OptionValue::Single("value".into()));
    assert_eq!(
        value_of(&options, "name6"),
        OptionValue::Single("de=limiter".into())
    );
    assert_eq!(
        value_of(&options, "name7"),
        OptionValue::Multiple(vec!["false".into(), "true".into()])
    );
    assert_eq!(
        value_of(&options, "name8"),
        OptionValue::Multiple(vec!["value1".into(), "value2".into(), "value3".into()])
    );
    assert_eq!(
        value_of(&options, "name9"),
        OptionValue::Multiple(vec!["value1".into(), "val=ue2".into(), "value3".into()])
    );

    assert_eq!(value_of(&options, "name10"), OptionValue::Flag(true));
    assert_eq!(value_of(&options, "name11"), OptionValue::Single("value".into()));
}

#[test]
fn has_method() {
    let options = Options::from_env(into_env(vec![
        "option1",
        "option2=true",
        "option3=false",
        "option4=true,false",
    ]));

    assert_eq!(options.has("option1"), true);
    assert_eq!(options.has("option2"), true);
    assert_eq!(options.has("option3"), false);
    assert_eq!(options.has("option4"), true);
}

#[test]
fn has_value_method() {
    let options = Options::from_env(into_env(vec![
        "option1",
        "option2=true",
        "option3=true,false,any_other",
    ]));

    assert_eq!(options.has_value("option1", ""), false);
    assert_eq!(options.has_value("option1", "any_other"), false);
    assert_eq!(options.has_value("option2", ""), false);
    assert_eq!(options.has_value("option2", "any_other"), false);
    assert_eq!(options.has_value("option3", "true"), true);
    assert_eq!(options.has_value("option3", "false"), true);
    assert_eq!(options.has_value("option3", "any_other"), true);
    assert_eq!(options.has_value("option3", "missing"), false);
}

#[test]
fn iter_method() {
    let options = Options::from_env(into_env(vec![
        "option1",
        "option2=true",
        "option3=true,false,any_other",
    ]));

    assert!(options.iter("option1").is_none());
    assert!(options.iter("option2").is_none());
    assert!(options.iter("option4").is_none());

    assert!(options.iter("option3").is_some());
    assert_eq!(
        options.iter("option3").unwrap(),
        vec![
            String::from("true"),
            String::from("false"),
            String::from("any_other")
        ]
    );
}

#[test]
fn is_flag_set_method() {
    let options = Options::from_env(into_env(vec![
        "option1",
        "option2=true",
        "option3=false",
        "option4=value",
    ]));

    assert_eq!(options.is_flag_set("option1"), true);
    assert_eq!(options.is_flag_set("option2"), true);
    assert_eq!(options.is_flag_set("option3"), false);
    assert_eq!(options.is_flag_set("option4"), false);
    assert_eq!(options.is_flag_set("missing"), false);
}

#[test]
fn get_method() {
    let options = Options::from_env(into_env(vec![
        "option1",
        "option2=value",
        "option3=a,b,c",
    ]));

    assert_eq!(options.get("option1"), None);
    assert_eq!(options.get("option2"), Some("value"));
    assert_eq!(options.get("option3"), Some("a"));
    assert_eq!(options.get("missing"), None);
}

#[test]
fn later_entry_replaces_earlier() {
    let options = Options::from_env(into_env(vec!["name=first", "name=second"]));

    assert_eq!(value_of(&options, "name"), OptionValue::Single("second".into()));
}

#[test]
fn entries_without_prefix_are_ignored() {
    let options = Options::from_env(vec![
        ("HOME".to_string(), "ignored=value".to_string()),
        ("BUILDKIT_FRONTEND_OPT_0".to_string(), "kept=value".to_string()),
    ]);

    assert!(options.value_of("ignored").is_none());
    assert_eq!(value_of(&options, "kept"), OptionValue::Single("value".into()));
}
