use handlebars::Handlebars;
use wash_generate::dump::table_dump;
use wash_generate::bus::{CallTargetInterface, Ctx, Handler, Instance, TableError};
use wash_generate::params::{ParamMap, ParamValue};
use wash_generate::pattern::VarRegex;
use wash_generate::project_variables::{
    apply_rendered_default, check_rendered_default, expand_default_value, extract_choices, extract_default, extract_type,
    fill_project_variables, is_reserved_name, try_placeholder_into_slot, validate_project_name, Config,
    ConversionError, FillError, StringEntry, SupportedVarType, SupportedVarValue, TemplateSlots, VarInfo,
    INVALID_PROJECT_NAME, PROJECT_NAME_REGEX,
};
use wash_generate::str_map::StrMap;
use wash_generate::text::str_eq;
use wash_generate::toml_value::{TomlMap, TomlValue};

fn s(x: &str) -> TomlValue {
    TomlValue::String(x.to_string())
}

fn table(entries: Vec<(&str, TomlValue)>) -> TomlMap {
    let mut t = TomlMap::new();
    for (k, v) in entries {
        t.insert(k.to_string(), v);
    }
    t
}

#[test]
fn str_eq_compares_characters() {
    assert!(str_eq("abc", "abc"));
    assert!(!str_eq("abc", "abd"));
    assert!(!str_eq("abc", "ab"));
    assert!(str_eq("", ""));
}

#[test]
fn str_map_later_insert_wins() {
    let mut m: StrMap<u32> = StrMap::new();
    assert!(m.get("a").is_none());
    m.insert("a".to_string(), 1);
    m.insert("b".to_string(), 2);
    m.insert("a".to_string(), 3);
    assert_eq!(m.get("a"), Some(&3));
    assert_eq!(m.get("b"), Some(&2));
    assert!(m.contains_key("b"));
    assert!(!m.contains_key("c"));
}

#[test]
fn project_names_follow_the_pattern() {
    assert_eq!(validate_project_name("hello-world_2"), Ok(()));
    assert_eq!(validate_project_name("ab"), Ok(()));
    assert_eq!(validate_project_name("0hello"), Err(INVALID_PROJECT_NAME.to_string()));
    assert_eq!(validate_project_name("a"), Err(INVALID_PROJECT_NAME.to_string()));
    assert_eq!(validate_project_name("has space"), Err(INVALID_PROJECT_NAME.to_string()));
    assert_eq!(validate_project_name(""), Err(INVALID_PROJECT_NAME.to_string()));
}

#[test]
fn regex_keeps_its_text_and_matches() {
    let re = VarRegex::new(PROJECT_NAME_REGEX).unwrap();
    assert_eq!(re.as_str(), PROJECT_NAME_REGEX);
    assert!(re.is_match("abc"));
    assert!(!re.is_match("9abc"));
    assert!(VarRegex::new("(").is_err());
}

#[test]
fn reserved_names_are_known() {
    for name in ["authors", "os-arch", "project-name", "crate_name", "crate_type"] {
        assert!(is_reserved_name(name));
    }
    assert!(!is_reserved_name("project_name"));
    assert!(!is_reserved_name("author"));
}

#[test]
fn type_bool_with_regex_is_refused_by_the_whole_slot() {
    let t = table(vec![
        ("name", s("flag")),
        ("type", s("bool")),
        ("prompt", s("flag?")),
        ("regex", s("x")),
    ]);
    let res = try_placeholder_into_slot(&t, &ParamMap::new(), &Handlebars::new());
    assert_eq!(res.unwrap_err(), ConversionError::RegexOnBool { var_name: "flag".into() });
}

#[test]
fn slot_without_name_is_refused() {
    let t = table(vec![("prompt", s("what?"))]);
    let res = try_placeholder_into_slot(&t, &ParamMap::new(), &Handlebars::new());
    assert_eq!(
        res.unwrap_err(),
        ConversionError::MissingPlaceholderName { map_dump: "{\"prompt\": String(\"what?\")}".to_string() }
    );
    let t = table(vec![("name", TomlValue::Integer(3)), ("prompt", s("what?"))]);
    let res = try_placeholder_into_slot(&t, &ParamMap::new(), &Handlebars::new());
    assert!(matches!(res, Err(ConversionError::MissingPlaceholderName { .. })));
}

#[test]
fn slot_with_reserved_name_is_refused() {
    let t = table(vec![("name", s("crate_name")), ("prompt", s("what?"))]);
    let res = try_placeholder_into_slot(&t, &ParamMap::new(), &Handlebars::new());
    assert_eq!(res.unwrap_err(), ConversionError::InvalidPlaceholderName { var_name: "crate_name".into() });
}

#[test]
fn slot_without_prompt_is_refused() {
    let t = table(vec![("name", s("foo"))]);
    let res = try_placeholder_into_slot(&t, &ParamMap::new(), &Handlebars::new());
    assert_eq!(res.unwrap_err(), ConversionError::MissingPrompt { var_name: "foo".into() });
}

#[test]
fn string_slot_with_everything() {
    let t = table(vec![
        ("name", s("lang")),
        ("prompt", s("Which language?")),
        ("choices", TomlValue::Array(vec![s("rust"), s("go")])),
        ("default", s("rust")),
        ("regex", s("^[a-z]+$")),
    ]);
    let slot = try_placeholder_into_slot(&t, &ParamMap::new(), &Handlebars::new()).unwrap();
    assert_eq!(slot.var_name, "lang");
    assert_eq!(slot.prompt, "Which language?");
    match slot.var_info {
        VarInfo::String { entry } => {
            assert_eq!(entry.default, Some("rust".to_string()));
            assert_eq!(entry.choices, Some(vec!["rust".to_string(), "go".to_string()]));
            assert_eq!(entry.regex.unwrap().as_str(), "^[a-z]+$");
        }
        VarInfo::Bool { .. } => panic!("expected a string variable"),
    }
}

#[test]
fn bool_slot_with_default() {
    let t = table(vec![
        ("name", s("flag")),
        ("type", s("bool")),
        ("prompt", s("flag?")),
        ("default", TomlValue::Boolean(false)),
    ]);
    let slot = try_placeholder_into_slot(&t, &ParamMap::new(), &Handlebars::new()).unwrap();
    assert!(matches!(slot.var_info, VarInfo::Bool { default: Some(false) }));
}

#[test]
fn default_is_expanded_with_the_values() {
    let mut values = ParamMap::new();
    values.insert("name".to_string(), ParamValue::String("demo".to_string()));
    let res = extract_default(
        "foo",
        SupportedVarType::String,
        None,
        Some(&s("{{name}}-app")),
        None,
        &values,
        &Handlebars::new(),
    );
    assert_eq!(res, Ok(Some(SupportedVarValue::String("demo-app".to_string()))));
}

#[test]
fn default_that_does_not_expand_is_an_error() {
    let res = extract_default(
        "foo",
        SupportedVarType::String,
        None,
        Some(&s("{{#if}}")),
        None,
        &ParamMap::new(),
        &Handlebars::new(),
    );
    match res {
        Err(ConversionError::TemplateExpansion { value, err }) => {
            assert_eq!(value, "{{#if}}");
            assert!(!err.is_empty());
        }
        other => panic!("unexpected {:?}", other),
    }
}

#[test]
fn expanded_default_must_match_the_regex() {
    let re = VarRegex::new("^[a-z]+$").unwrap();
    let mut values = ParamMap::new();
    values.insert("n".to_string(), ParamValue::String("9".to_string()));
    let res = extract_default(
        "foo",
        SupportedVarType::String,
        Some(&re),
        Some(&s("{{n}}")),
        None,
        &values,
        &Handlebars::new(),
    );
    assert_eq!(
        res,
        Err(ConversionError::RegexDoesntMatchField { var_name: "foo".into(), field: "default".into() })
    );
}

#[test]
fn rendered_default_is_checked() {
    let re = VarRegex::new("^b").unwrap();
    assert_eq!(
        check_rendered_default("foo", Some(&re), "{{x}}", Ok("bar".to_string())),
        Ok(Some(SupportedVarValue::String("bar".to_string())))
    );
    assert_eq!(
        check_rendered_default("foo", Some(&re), "{{x}}", Ok("car".to_string())),
        Err(ConversionError::RegexDoesntMatchField { var_name: "foo".into(), field: "default".into() })
    );
    assert_eq!(
        check_rendered_default("foo", None, "{{x}}", Err("boom".to_string())),
        Err(ConversionError::TemplateExpansion { value: "{{x}}".into(), err: "boom".into() })
    );
}

#[test]
fn choices_of_other_kinds_are_refused() {
    let res = extract_choices("foo", SupportedVarType::String, None, Some(&TomlValue::Integer(1)));
    assert_eq!(
        res,
        Err(ConversionError::WrongTypeParameter {
            var_name: "foo".into(),
            parameter: "choices".into(),
            correct_type: "String Array".into()
        })
    );
}

#[test]
fn type_with_other_text_is_refused() {
    assert_eq!(
        extract_type("foo", Some(&s("Bool"))),
        Err(ConversionError::InvalidVariableType { var_name: "foo".into(), value: "Bool".into() })
    );
}

#[test]
fn expand_default_value_renders_default() {
    let mut values = ParamMap::new();
    values.insert("x".to_string(), ParamValue::Bool(true));
    let entry = StringEntry { default: Some("{{x}}".to_string()), choices: None, regex: None };
    let e = expand_default_value(entry, &values, &Handlebars::new()).unwrap();
    assert_eq!(e.default, Some("true".to_string()));
    let entry = StringEntry { default: None, choices: Some(vec!["a".to_string()]), regex: None };
    let e = expand_default_value(entry, &values, &Handlebars::new()).unwrap();
    assert_eq!(e.default, None);
    assert_eq!(e.choices, Some(vec!["a".to_string()]));
}

fn config() -> Config {
    Config {
        placeholders: vec![
            table(vec![("name", s("greeting")), ("prompt", s("greeting?")), ("default", s("hi {{who}}"))]),
            table(vec![
                ("name", s("flag")),
                ("type", s("bool")),
                ("prompt", s("flag?")),
                ("default", TomlValue::Boolean(true)),
            ]),
            table(vec![("name", s("who")), ("prompt", s("who?"))]),
            table(vec![("name", s("other")), ("prompt", s("other?"))]),
        ],
    }
}

#[test]
fn fill_silently_uses_defaults_and_reports_undefined() {
    let mut values = ParamMap::new();
    values.insert("who".to_string(), ParamValue::String("you".to_string()));
    let res = fill_project_variables(&config(), &mut values, &Handlebars::new(), true, |_: &TemplateSlots| -> Result<ParamValue, String> {
        panic!("no prompt in silent mode")
    });
    assert_eq!(res.unwrap(), vec!["other".to_string()]);
    assert_eq!(values.get("greeting"), Some(&ParamValue::String("hi you".to_string())));
    assert_eq!(values.get("flag"), Some(&ParamValue::Bool(true)));
    assert_eq!(values.get("who"), Some(&ParamValue::String("you".to_string())));
    assert!(values.get("other").is_none());
}

#[test]
fn fill_asks_the_provider_for_missing_values() {
    let mut values = ParamMap::new();
    values.insert("flag".to_string(), ParamValue::Bool(false));
    let res = fill_project_variables(&config(), &mut values, &Handlebars::new(), false, |slot: &TemplateSlots| {
        Ok::<ParamValue, String>(ParamValue::String(format!("asked {}", slot.var_name)))
    });
    assert_eq!(res.unwrap(), Vec::<String>::new());
    assert_eq!(values.get("greeting"), Some(&ParamValue::String("asked greeting".to_string())));
    assert_eq!(values.get("flag"), Some(&ParamValue::Bool(false)));
    assert_eq!(values.get("who"), Some(&ParamValue::String("asked who".to_string())));
    assert_eq!(values.get("other"), Some(&ParamValue::String("asked other".to_string())));
}

#[test]
fn fill_stops_at_a_provider_error() {
    let mut values = ParamMap::new();
    let res = fill_project_variables(&config(), &mut values, &Handlebars::new(), false, |_: &TemplateSlots| {
        Err::<ParamValue, String>("no terminal".to_string())
    });
    assert!(matches!(res, Err(FillError::Provider(ref e)) if e == "no terminal"));
}

#[test]
fn fill_stops_at_a_bad_placeholder() {
    let cfg = Config { placeholders: vec![table(vec![("name", s("authors")), ("prompt", s("?"))])] };
    let mut values = ParamMap::new();
    let res = fill_project_variables(&cfg, &mut values, &Handlebars::new(), true, |_: &TemplateSlots| {
        Err::<ParamValue, String>("unused".to_string())
    });
    assert!(matches!(res, Err(FillError::Conversion(ConversionError::InvalidPlaceholderName { .. }))));
}

#[test]
fn call_target_interfaces_are_registered_linked_and_dropped() {
    let mut ctx: Ctx<()> = Ctx::with_handler(Handler::new());
    let a = ctx.new("wasi".into(), "http".into(), "handler".into()).unwrap();
    let b = ctx.new("wasmcloud".into(), "bus".into(), "lattice".into()).unwrap();
    assert_ne!(a, b);
    let req = ctx.set_link_name("default".into(), vec![b, a]).unwrap();
    assert_eq!(req.link_name, "default");
    assert_eq!(
        req.interfaces,
        vec![
            CallTargetInterface { namespace: "wasmcloud".into(), package: "bus".into(), interface: "lattice".into() },
            CallTargetInterface { namespace: "wasi".into(), package: "http".into(), interface: "handler".into() },
        ]
    );
    assert_eq!(ctx.drop(a), Ok(()));
    assert_eq!(ctx.drop(a), Err(TableError::NotPresent));
    assert!(matches!(ctx.set_link_name("default".into(), vec![b, a]), Err(TableError::NotPresent)));
    assert_eq!(ctx.set_link_name("none".into(), vec![]).unwrap().interfaces, vec![]);
}

#[test]
fn instance_bus_sets_the_handler() {
    let mut instance: Instance<&str> = Instance::new(Ctx::with_handler(Handler::new()));
    instance.bus("first").bus("second");
    assert_eq!(instance.handler_mut().bus(), Some(&"second"));
    let mut h: Handler<u8> = Handler::new();
    assert_eq!(h.replace_bus(1), None);
    assert_eq!(h.replace_bus(2), Some(1));
}


#[test]
fn other_json_values_reach_the_template() {
    let mut values = ParamMap::new();
    values.insert("n".to_string(), ParamValue::Json(serde_json::Value::from(3)));
    let res = extract_default(
        "foo",
        SupportedVarType::String,
        None,
        Some(&s("v{{n}}")),
        None,
        &values,
        &Handlebars::new(),
    );
    assert_eq!(res, Ok(Some(SupportedVarValue::String("v3".to_string()))));
}

#[test]
fn rendered_default_replaces_the_default() {
    let entry = StringEntry { default: Some("{{x}}".to_string()), choices: Some(vec!["a".to_string()]), regex: None };
    let e = apply_rendered_default(entry, Ok("a".to_string())).unwrap();
    assert_eq!(e.default, Some("a".to_string()));
    assert_eq!(e.choices, Some(vec!["a".to_string()]));
    let entry = StringEntry { default: Some("{{x}}".to_string()), choices: None, regex: None };
    assert_eq!(apply_rendered_default(entry, Err("bad".to_string())).unwrap_err(), "bad");
    let entry = StringEntry { default: None, choices: None, regex: None };
    assert_eq!(apply_rendered_default(entry, Err("ignored".to_string())).unwrap().default, None);
}

#[test]
fn table_dump_writes_values_as_debug_does() {
    let t = table(vec![
        ("a", TomlValue::Array(vec![TomlValue::Integer(-12), TomlValue::Boolean(true), s("q\"\\\n\u{1}")])),
        ("b", TomlValue::Table(vec![("x".to_string(), TomlValue::Integer(0))])),
        ("c", TomlValue::Float("1.5".to_string())),
        ("d", TomlValue::Array(vec![])),
    ]);
    assert_eq!(
        table_dump(&t),
        "{\"a\": Array([Integer(-12), Boolean(true), String(\"q\\\"\\\\\\n\\u{1}\")]), \"b\": Table({\"x\": Integer(0)}), \"c\": Float(1.5), \"d\": Array([])}"
    );
    assert_eq!(table_dump(&TomlMap::new()), "{}");
    assert_eq!(table_dump(&table(vec![("n", TomlValue::Integer(i64::MIN))])), format!("{{\"n\": Integer({})}}", i64::MIN));
}

#[test]
fn table_dump_agrees_with_debug_of_a_toml_table() {
    let t = table(vec![
        ("choices", TomlValue::Array(vec![s("a"), s("b\tc")])),
        ("n", TomlValue::Integer(42)),
        ("name", s("x")),
    ]);
    let mut toml_table = toml::Table::new();
    toml_table.insert("choices".to_string(), toml::Value::Array(vec![toml::Value::String("a".into()), toml::Value::String("b\tc".into())]));
    toml_table.insert("n".to_string(), toml::Value::Integer(42));
    toml_table.insert("name".to_string(), toml::Value::String("x".into()));
    assert_eq!(table_dump(&t), format!("{:?}", toml_table));
}

#[test]
fn plain_default_renders_to_itself() {
    let res = extract_default(
        "foo",
        SupportedVarType::String,
        None,
        Some(&s("plain text, no braces")),
        None,
        &ParamMap::new(),
        &Handlebars::new(),
    );
    assert_eq!(res, Ok(Some(SupportedVarValue::String("plain text, no braces".to_string()))));
}

#[test]
fn registered_interface_can_be_dropped_once() {
    let mut ctx: Ctx<()> = Ctx::with_handler(Handler::new());
    let r = ctx.new("a".into(), "b".into(), "c".into()).unwrap();
    assert_eq!(ctx.drop(r), Ok(()));
    assert_eq!(ctx.drop(r), Err(TableError::NotPresent));
    let r2 = ctx.new("a".into(), "b".into(), "c".into()).unwrap();
    assert_eq!(r2, r);
}

#[test]
fn fill_with_no_placeholders_changes_nothing() {
    let mut values = ParamMap::new();
    values.insert("k".to_string(), ParamValue::Bool(true));
    let cfg = Config { placeholders: vec![] };
    let res = fill_project_variables(&cfg, &mut values, &Handlebars::new(), false, |_: &TemplateSlots| {
        Err::<ParamValue, String>("unused".to_string())
    });
    assert_eq!(res.unwrap(), Vec::<String>::new());
    assert_eq!(values.get("k"), Some(&ParamValue::Bool(true)));
}

#[test]
fn table_dump_escapes_characters_outside_ascii_as_debug_does() {
    let t = table(vec![
        ("k\u{a0}", s("v\u{85}é'\u{301}")),
        ("zero\u{200b}width", TomlValue::Integer(1)),
    ]);
    let mut toml_table = toml::Table::new();
    toml_table.insert("k\u{a0}".to_string(), toml::Value::String("v\u{85}é'\u{301}".into()));
    toml_table.insert("zero\u{200b}width".to_string(), toml::Value::Integer(1));
    assert_eq!(table_dump(&t), format!("{:?}", toml_table));
    assert_eq!(
        table_dump(&t),
        "{\"k\\u{a0}\": String(\"v\\u{85}é'\\u{301}\"), \"zero\\u{200b}width\": Integer(1)}"
    );
}

#[test]
fn table_dump_writes_each_key_once_with_its_last_value() {
    let mut t = TomlMap::new();
    t.insert("a".to_string(), TomlValue::Integer(1));
    t.insert("b".to_string(), TomlValue::Integer(2));
    t.insert("a".to_string(), TomlValue::Integer(3));
    assert_eq!(table_dump(&t), "{\"b\": Integer(2), \"a\": Integer(3)}");
}

#[test]
fn dropping_a_free_key_changes_nothing() {
    let mut ctx: Ctx<()> = Ctx::with_handler(Handler::new());
    assert_eq!(ctx.drop(7), Err(TableError::NotPresent));
    let r = ctx.new("a".into(), "b".into(), "c".into()).unwrap();
    assert_eq!(r, 0);
    assert_eq!(ctx.drop(r + 1), Err(TableError::NotPresent));
    let req = ctx.set_link_name("l".to_string(), vec![r]).unwrap();
    assert_eq!(req.interfaces, vec![CallTargetInterface {
        namespace: "a".into(),
        package: "b".into(),
        interface: "c".into(),
    }]);
}

#[test]
fn new_keys_are_fresh_while_others_stay() {
    let mut ctx: Ctx<()> = Ctx::with_handler(Handler::new());
    let r1 = ctx.new("n1".into(), "p1".into(), "i1".into()).unwrap();
    let r2 = ctx.new("n2".into(), "p2".into(), "i2".into()).unwrap();
    assert_ne!(r1, r2);
    assert_eq!(ctx.drop(r1), Ok(()));
    let req = ctx.set_link_name("l".to_string(), vec![r2]).unwrap();
    assert_eq!(req.interfaces[0].namespace, "n2");
    assert!(ctx.set_link_name("l".to_string(), vec![r1]).is_err());
}
