use handlebars::Handlebars;
use wash_generate::params::ParamMap;
use wash_generate::pattern::VarRegex;
use wash_generate::project_variables::{
    extract_choices, extract_default, extract_prompt, extract_regex, extract_type, ConversionError,
    SupportedVarType, SupportedVarValue, PROJECT_NAME_REGEX,
};
use wash_generate::toml_value::TomlValue;

const IDENT_REGEX: &str = PROJECT_NAME_REGEX;

#[test]
fn no_choices_boolean() {
    let result = extract_choices("foo", SupportedVarType::Bool, None, None);

    assert_eq!(result, Ok(None));
}

#[test]
fn boolean_cant_have_choices() {
    let result = extract_choices(
        "foo",
        SupportedVarType::Bool,
        None,
        Some(&TomlValue::Array(vec![
            TomlValue::Boolean(true),
            TomlValue::Boolean(false),
        ])),
    );

    assert_eq!(
        result,
        Err(ConversionError::ChoicesOnBool {
            var_name: "foo".into()
        })
    );
}

#[test]
fn choices_cant_be_an_empty_array() {
    let result = extract_choices(
        "foo",
        SupportedVarType::String,
        None,
        Some(&TomlValue::Array(Vec::new())),
    );

    assert_eq!(
        result,
        Err(ConversionError::EmptyChoices {
            var_name: "foo".into()
        })
    );
}

#[test]
fn choices_array_cant_have_anything_but_strings() {
    let result = extract_choices(
        "foo",
        SupportedVarType::String,
        None,
        Some(&TomlValue::Array(vec![
            TomlValue::String("bar".into()),
            TomlValue::Boolean(false),
        ])),
    );

    assert_eq!(
        result,
        Err(ConversionError::WrongTypeParameter {
            var_name: "foo".into(),
            parameter: "choices".into(),
            correct_type: "String Array".into()
        })
    );
}

#[test]
fn choices_is_array_string_no_regex_is_fine() {
    let result = extract_choices(
        "foo",
        SupportedVarType::String,
        None,
        Some(&TomlValue::Array(vec![
            TomlValue::String("bar".into()),
            TomlValue::String("zoo".into()),
        ])),
    );

    assert_eq!(result, Ok(Some(vec!["bar".to_string(), "zoo".to_string()])));
}

#[test]
fn choices_is_array_string_that_doesnt_match_regex_is_error() {
    let valid_ident = VarRegex::new(IDENT_REGEX).unwrap();

    let result = extract_choices(
        "foo",
        SupportedVarType::String,
        Some(&valid_ident),
        Some(&TomlValue::Array(vec![
            TomlValue::String("0bar".into()),
            TomlValue::String("zoo".into()),
        ])),
    );

    assert_eq!(
        result,
        Err(ConversionError::RegexDoesntMatchField {
            var_name: "foo".into(),
            field: "choices".into()
        })
    );
}

#[test]
fn choices_is_array_string_that_all_match_regex_is_good() {
    let valid_ident = VarRegex::new(IDENT_REGEX).unwrap();

    let result = extract_choices(
        "foo",
        SupportedVarType::String,
        Some(&valid_ident),
        Some(&TomlValue::Array(vec![
            TomlValue::String("bar0".into()),
            TomlValue::String("zoo".into()),
        ])),
    );

    assert_eq!(
        result,
        Ok(Some(vec!["bar0".to_string(), "zoo".to_string()]))
    );
}

#[test]
fn choices_is_not_array_string_is_error() {
    let result = extract_choices(
        "foo",
        SupportedVarType::String,
        None,
        Some(&TomlValue::String("bar".into())),
    );

    assert_eq!(
        result,
        Err(ConversionError::WrongTypeParameter {
            var_name: "foo".into(),
            parameter: "choices".into(),
            correct_type: "String Array".into()
        })
    );
}

#[test]
fn no_choices_for_type_string() {
    let result = extract_choices("foo", SupportedVarType::String, None, None);

    assert_eq!(result, Ok(None));
}

#[test]
fn empty_default_is_fine() {
    let result = extract_default(
        "foo",
        SupportedVarType::String,
        None,
        None,
        None,
        &ParamMap::new(),
        &Handlebars::new(),
    );

    assert_eq!(result, Ok(None));
}

#[test]
fn default_for_boolean_is_fine() {
    let result = extract_default(
        "foo",
        SupportedVarType::Bool,
        None,
        Some(&TomlValue::Boolean(true)),
        None,
        &ParamMap::new(),
        &Handlebars::new(),
    );

    assert_eq!(result, Ok(Some(SupportedVarValue::Bool(true))));
}

#[test]
fn default_for_string_with_no_choices_and_no_regex() {
    let result = extract_default(
        "foo",
        SupportedVarType::String,
        None,
        Some(&TomlValue::String("bar".to_string())),
        None,
        &ParamMap::new(),
        &Handlebars::new(),
    );

    assert_eq!(
        result,
        Ok(Some(SupportedVarValue::String("bar".to_string())))
    );
}

#[test]
fn default_for_string_with_no_choices_and_matching_regex() {
    let valid_ident = VarRegex::new(IDENT_REGEX).unwrap();

    let result = extract_default(
        "foo",
        SupportedVarType::String,
        Some(&valid_ident),
        Some(&TomlValue::String("bar".to_string())),
        None,
        &ParamMap::new(),
        &Handlebars::new(),
    );

    assert_eq!(
        result,
        Ok(Some(SupportedVarValue::String("bar".to_string())))
    );
}

#[test]
fn default_for_string_with_no_choices_and_regex_doesnt_match() {
    let valid_ident = VarRegex::new(IDENT_REGEX).unwrap();

    let result = extract_default(
        "foo",
        SupportedVarType::String,
        Some(&valid_ident),
        Some(&TomlValue::String("0bar".to_string())),
        None,
        &ParamMap::new(),
        &Handlebars::new(),
    );

    assert_eq!(
        result,
        Err(ConversionError::RegexDoesntMatchField {
            var_name: "foo".into(),
            field: "default".into()
        })
    );
}

#[test]
fn default_for_string_isnt_on_choices() {
    let result = extract_default(
        "foo",
        SupportedVarType::String,
        None,
        Some(&TomlValue::String("bar".to_string())),
        Some(&vec!["zoo".to_string(), "far".to_string()]),
        &ParamMap::new(),
        &Handlebars::new(),
    );

    assert_eq!(
        result,
        Err(ConversionError::InvalidDefault {
            var_name: "foo".into(),
            default: "bar".into(),
            choices: vec!["zoo".to_string(), "far".to_string()]
        })
    );
}

#[test]
fn default_for_string_is_on_choices() {
    let result = extract_default(
        "foo",
        SupportedVarType::String,
        None,
        Some(&TomlValue::String("bar".to_string())),
        Some(&vec!["zoo".to_string(), "bar".to_string()]),
        &ParamMap::new(),
        &Handlebars::new(),
    );

    assert_eq!(result, Ok(Some(SupportedVarValue::String("bar".into()))));
}

#[test]
fn default_for_string_is_on_choices_and_matches_regex() {
    let valid_ident = VarRegex::new(IDENT_REGEX).unwrap();

    let result = extract_default(
        "foo",
        SupportedVarType::String,
        Some(&valid_ident),
        Some(&TomlValue::String("bar".to_string())),
        Some(&vec!["zoo".to_string(), "bar".to_string()]),
        &ParamMap::new(),
        &Handlebars::new(),
    );

    assert_eq!(result, Ok(Some(SupportedVarValue::String("bar".into()))));
}

#[test]
fn default_for_string_only_accepts_strings() {
    let result = extract_default(
        "foo",
        SupportedVarType::String,
        None,
        Some(&TomlValue::Integer(0)),
        None,
        &ParamMap::new(),
        &Handlebars::new(),
    );

    assert_eq!(
        result,
        Err(ConversionError::WrongTypeParameter {
            var_name: "foo".into(),
            parameter: "default".into(),
            correct_type: "string".into()
        })
    );
}

#[test]
fn default_for_bool_only_accepts_bool() {
    let result = extract_default(
        "foo",
        SupportedVarType::Bool,
        None,
        Some(&TomlValue::Integer(0)),
        None,
        &ParamMap::new(),
        &Handlebars::new(),
    );

    assert_eq!(
        result,
        Err(ConversionError::WrongTypeParameter {
            var_name: "foo".into(),
            parameter: "default".into(),
            correct_type: "bool".into()
        })
    );
}

#[test]
fn prompt_cant_be_empty() {
    let result = extract_prompt("foo", None);

    assert_eq!(
        result,
        Err(ConversionError::MissingPrompt {
            var_name: "foo".into(),
        })
    );
}

#[test]
fn prompt_must_be_string() {
    let result = extract_prompt("foo", Some(&TomlValue::Integer(0)));

    assert_eq!(
        result,
        Err(ConversionError::WrongTypeParameter {
            var_name: "foo".into(),
            parameter: "prompt".into(),
            correct_type: "String".into()
        })
    );
}

#[test]
fn prompt_as_string_is_ok() {
    let result = extract_prompt("foo", Some(&TomlValue::String("hello world".into())));

    assert_eq!(result, Ok("hello world".into()));
}

#[test]
fn empty_type_is_string() {
    let result = extract_type("foo", None);

    assert_eq!(result, Ok(SupportedVarType::String));
}

#[test]
fn type_must_be_string_type() {
    let result = extract_type("foo", Some(&TomlValue::Integer(0)));

    assert_eq!(
        result,
        Err(ConversionError::WrongTypeParameter {
            var_name: "foo".into(),
            parameter: "type".into(),
            correct_type: "String".into()
        })
    );
}

#[test]
fn type_must_either_be_string_or_bool() {
    let result_bool = extract_type("foo", Some(&TomlValue::String("bool".into())));
    let result_string = extract_type("foo", Some(&TomlValue::String("string".into())));
    let result_err = extract_type("foo", Some(&TomlValue::String("bar".into())));

    assert_eq!(result_bool, Ok(SupportedVarType::Bool));
    assert_eq!(result_string, Ok(SupportedVarType::String));
    assert_eq!(
        result_err,
        Err(ConversionError::InvalidVariableType {
            var_name: "foo".into(),
            value: "bar".into()
        })
    );
}

#[test]
fn bools_cant_have_regex() {
    let result = extract_regex(
        "foo",
        SupportedVarType::Bool,
        Some(&TomlValue::String(String::new())),
    );

    assert!(result.is_err());
}

#[test]
fn no_regex_is_ok() {
    let result_bool = extract_regex("foo", SupportedVarType::Bool, None);
    let result_string = extract_regex("foo", SupportedVarType::String, None);

    assert!(result_bool.is_ok());
    assert!(result_string.is_ok());
}

#[test]
fn strings_can_have_regex() {
    let result = extract_regex(
        "foo",
        SupportedVarType::String,
        Some(&TomlValue::String(IDENT_REGEX.into())),
    );

    assert!(result.is_ok());
}

#[test]
fn invalid_regex_is_err() {
    let result = extract_regex(
        "foo",
        SupportedVarType::String,
        Some(&TomlValue::String("*".into())),
    );

    assert!(result.is_err());
}
