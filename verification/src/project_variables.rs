//! Template placeholders: reading them from a template's configuration and
//! determining the value of each template variable.

use vstd::prelude::*;
use vstd::pervasive::arbitrary;
use crate::pattern::{VarRegex, regex_compiles, regex_matches};
use crate::text::str_eq;
use crate::toml_value::{TomlMap, TomlValue};
use crate::dump::{table_dump, table_text};
use crate::params::{ParamMap, ParamValue, ParamValueView, params_view};
use crate::render::{render_template, rendered_view, renders_consistently};

verus! {

/// The expression that a project name must match: an ASCII letter followed
/// by letters, digits, underscores or dashes.
pub const PROJECT_NAME_REGEX: &'static str = "^([a-zA-Z][a-zA-Z0-9_-]+)$";

/// The message with which a project name is refused.
pub const INVALID_PROJECT_NAME: &'static str = "project names must begin with an ascii letter and contain letters, digits, underscores('_'), or dashes('-').";

/// Checks a project name against `PROJECT_NAME_REGEX`.
pub fn validate_project_name(name: &str) -> (res: Result<(), String>)
    ensures
        res is Ok <==> regex_compiles(PROJECT_NAME_REGEX@) && regex_matches(PROJECT_NAME_REGEX@, name@),
        res matches Err(m) ==> m@ == INVALID_PROJECT_NAME@,
{
    match VarRegex::new(PROJECT_NAME_REGEX) {
        Ok(exp) => {
            if exp.is_match(name) {
                Ok(())
            } else {
                Err(INVALID_PROJECT_NAME.to_owned())
            }
        },
        Err(_) => Err(INVALID_PROJECT_NAME.to_owned()),
    }
}

/// Why a placeholder of the template configuration cannot be used.
#[derive(Debug, PartialEq, Eq)]
pub enum ConversionError {
    /// An entry of the placeholder has the wrong type.
    WrongTypeParameter { var_name: String, parameter: String, correct_type: String },
    /// The placeholder has no prompt.
    MissingPrompt { var_name: String },
    /// The placeholder has no name; `map_dump` shows the table.
    MissingPlaceholderName { map_dump: String },
    /// The choices are an empty array.
    EmptyChoices { var_name: String },
    /// The default is not one of the choices.
    InvalidDefault { var_name: String, default: String, choices: Vec<String> },
    /// The type is neither `bool` nor `string`.
    InvalidVariableType { var_name: String, value: String },
    /// A boolean variable has choices.
    ChoicesOnBool { var_name: String },
    /// A boolean variable has an expression.
    RegexOnBool { var_name: String },
    /// The default or a choice does not match the expression.
    RegexDoesntMatchField { var_name: String, field: String },
    /// The expression does not compile.
    InvalidRegex { var_name: String, regex: String },
    /// The name is a reserved one.
    InvalidPlaceholderName { var_name: String },
    /// The default could not be expanded as a template.
    TemplateExpansion { value: String, err: String },
}

/// A `ConversionError` with its strings taken by their characters.
pub enum ConversionErrorView {
    WrongTypeParameter { var_name: Seq<char>, parameter: Seq<char>, correct_type: Seq<char> },
    MissingPrompt { var_name: Seq<char> },
    MissingPlaceholderName { map_dump: Seq<char> },
    EmptyChoices { var_name: Seq<char> },
    InvalidDefault { var_name: Seq<char>, default: Seq<char>, choices: Seq<Seq<char>> },
    InvalidVariableType { var_name: Seq<char>, value: Seq<char> },
    ChoicesOnBool { var_name: Seq<char> },
    RegexOnBool { var_name: Seq<char> },
    RegexDoesntMatchField { var_name: Seq<char>, field: Seq<char> },
    InvalidRegex { var_name: Seq<char>, regex: Seq<char> },
    InvalidPlaceholderName { var_name: Seq<char> },
    TemplateExpansion { value: Seq<char>, err: Seq<char> },
}

/// The characters of each string of a list.
pub open spec fn strings_view(v: Seq<String>) -> Seq<Seq<char>> {
    v.map_values(|s: String| s@)
}

impl View for ConversionError {
    type V = ConversionErrorView;

    open spec fn view(&self) -> ConversionErrorView {
        match self {
            ConversionError::WrongTypeParameter { var_name, parameter, correct_type } =>
                ConversionErrorView::WrongTypeParameter {
                    var_name: var_name@,
                    parameter: parameter@,
                    correct_type: correct_type@,
                },
            ConversionError::MissingPrompt { var_name } =>
                ConversionErrorView::MissingPrompt { var_name: var_name@ },
            ConversionError::MissingPlaceholderName { map_dump } =>
                ConversionErrorView::MissingPlaceholderName { map_dump: map_dump@ },
            ConversionError::EmptyChoices { var_name } =>
                ConversionErrorView::EmptyChoices { var_name: var_name@ },
            ConversionError::InvalidDefault { var_name, default, choices } =>
                ConversionErrorView::InvalidDefault {
                    var_name: var_name@,
                    default: default@,
                    choices: strings_view(choices@),
                },
            ConversionError::InvalidVariableType { var_name, value } =>
                ConversionErrorView::InvalidVariableType { var_name: var_name@, value: value@ },
            ConversionError::ChoicesOnBool { var_name } =>
                ConversionErrorView::ChoicesOnBool { var_name: var_name@ },
            ConversionError::RegexOnBool { var_name } =>
                ConversionErrorView::RegexOnBool { var_name: var_name@ },
            ConversionError::RegexDoesntMatchField { var_name, field } =>
                ConversionErrorView::RegexDoesntMatchField { var_name: var_name@, field: field@ },
            ConversionError::InvalidRegex { var_name, regex } =>
                ConversionErrorView::InvalidRegex { var_name: var_name@, regex: regex@ },
            ConversionError::InvalidPlaceholderName { var_name } =>
                ConversionErrorView::InvalidPlaceholderName { var_name: var_name@ },
            ConversionError::TemplateExpansion { value, err } =>
                ConversionErrorView::TemplateExpansion { value: value@, err: err@ },
        }
    }
}

/// The two types that a template variable can have.
#[derive(Debug, Clone, Copy, PartialEq, Eq, Structural)]
pub enum SupportedVarType {
    Bool,
    String,
}

/// A value of one of the supported types.
#[derive(Debug, PartialEq, Eq)]
pub enum SupportedVarValue {
    Bool(bool),
    String(String),
}

/// A `SupportedVarValue` with its string taken by its characters.
pub enum SupportedVarValueView {
    Bool(bool),
    String(Seq<char>),
}

impl View for SupportedVarValue {
    type V = SupportedVarValueView;

    open spec fn view(&self) -> SupportedVarValueView {
        match self {
            SupportedVarValue::Bool(b) => SupportedVarValueView::Bool(*b),
            SupportedVarValue::String(s) => SupportedVarValueView::String(s@),
        }
    }
}

/// An optional entry of a table, taken by value.
pub open spec fn entry_value(e: Option<&TomlValue>) -> Option<TomlValue> {
    match e {
        Some(v) => Some(*v),
        None => None,
    }
}

/// A result whose error is taken by its view.
pub open spec fn with_error_view<T>(r: Result<T, ConversionError>) -> Result<T, ConversionErrorView> {
    match r {
        Ok(t) => Ok(t),
        Err(e) => Err(e@),
    }
}

/// The error for a parameter of a placeholder that has the wrong type.
pub open spec fn wrong_type(var_name: Seq<char>, parameter: Seq<char>, correct_type: Seq<char>) -> ConversionErrorView {
    ConversionErrorView::WrongTypeParameter { var_name, parameter, correct_type }
}

fn wrong_type_error(var_name: &str, parameter: &str, correct_type: &str) -> (res: ConversionError)
    ensures
        res@ == wrong_type(var_name@, parameter@, correct_type@),
{
    ConversionError::WrongTypeParameter {
        var_name: var_name.to_owned(),
        parameter: parameter.to_owned(),
        correct_type: correct_type.to_owned(),
    }
}

// ---------------------------------------------------------------- type

/// The type that the `type` entry of a placeholder gives it.
pub open spec fn spec_extract_type(var_name: Seq<char>, entry: Option<TomlValue>)
    -> Result<SupportedVarType, ConversionErrorView>
{
    match entry {
        None => Ok(SupportedVarType::String),
        Some(TomlValue::String(value)) =>
            if value@ == "string"@ {
                Ok(SupportedVarType::String)
            } else if value@ == "bool"@ {
                Ok(SupportedVarType::Bool)
            } else {
                Err(ConversionErrorView::InvalidVariableType { var_name, value: value@ })
            },
        Some(_) => Err(wrong_type(var_name, "type"@, "String"@)),
    }
}

/// Reads the `type` entry of a placeholder: `string` when absent.
pub fn extract_type(var_name: &str, table_entry: Option<&TomlValue>) -> (res: Result<SupportedVarType, ConversionError>)
    ensures
        with_error_view(res) == spec_extract_type(var_name@, entry_value(table_entry)),
{
    match table_entry {
        None => Ok(SupportedVarType::String),
        Some(TomlValue::String(value)) => {
            if str_eq(value.as_str(), "string") {
                Ok(SupportedVarType::String)
            } else if str_eq(value.as_str(), "bool") {
                Ok(SupportedVarType::Bool)
            } else {
                Err(ConversionError::InvalidVariableType {
                    var_name: var_name.to_owned(),
                    value: value.clone(),
                })
            }
        },
        Some(_) => Err(wrong_type_error(var_name, "type", "String")),
    }
}

// ---------------------------------------------------------------- prompt

/// The prompt that the `prompt` entry of a placeholder gives it.
pub open spec fn spec_extract_prompt(var_name: Seq<char>, entry: Option<TomlValue>)
    -> Result<Seq<char>, ConversionErrorView>
{
    match entry {
        Some(TomlValue::String(value)) => Ok(value@),
        Some(_) => Err(wrong_type(var_name, "prompt"@, "String"@)),
        None => Err(ConversionErrorView::MissingPrompt { var_name }),
    }
}

/// Reads the `prompt` entry of a placeholder, which must be there.
pub fn extract_prompt(var_name: &str, table_entry: Option<&TomlValue>) -> (res: Result<String, ConversionError>)
    ensures
        match res {
            Ok(p) => spec_extract_prompt(var_name@, entry_value(table_entry)) == Ok::<Seq<char>, ConversionErrorView>(p@),
            Err(e) => spec_extract_prompt(var_name@, entry_value(table_entry)) == Err::<Seq<char>, ConversionErrorView>(e@),
        },
{
    match table_entry {
        Some(TomlValue::String(value)) => Ok(value.clone()),
        Some(_) => Err(wrong_type_error(var_name, "prompt", "String")),
        None => Err(ConversionError::MissingPrompt { var_name: var_name.to_owned() }),
    }
}

// ---------------------------------------------------------------- regex

/// The expression that the `regex` entry of a placeholder gives it, by its
/// text.
pub open spec fn spec_extract_regex(var_name: Seq<char>, var_type: SupportedVarType, entry: Option<TomlValue>)
    -> Result<Option<Seq<char>>, ConversionErrorView>
{
    match (var_type, entry) {
        (SupportedVarType::Bool, Some(_)) => Err(ConversionErrorView::RegexOnBool { var_name }),
        (SupportedVarType::String, Some(TomlValue::String(value))) =>
            if regex_compiles(value@) {
                Ok(Some(value@))
            } else {
                Err(ConversionErrorView::InvalidRegex { var_name, regex: value@ })
            },
        (SupportedVarType::String, Some(_)) => Err(wrong_type(var_name, "regex"@, "String"@)),
        (_, None) => Ok(None),
    }
}

/// An optional expression, taken by its text.
pub open spec fn regex_view(r: Option<VarRegex>) -> Option<Seq<char>> {
    match r {
        Some(re) => Some(re@),
        None => None,
    }
}

/// Reads and compiles the `regex` entry of a placeholder.
pub fn extract_regex(var_name: &str, var_type: SupportedVarType, table_entry: Option<&TomlValue>)
    -> (res: Result<Option<VarRegex>, ConversionError>)
    ensures
        match res {
            Ok(r) => spec_extract_regex(var_name@, var_type, entry_value(table_entry))
                == Ok::<Option<Seq<char>>, ConversionErrorView>(regex_view(r)),
            Err(e) => spec_extract_regex(var_name@, var_type, entry_value(table_entry))
                == Err::<Option<Seq<char>>, ConversionErrorView>(e@),
        },
{
    match (var_type, table_entry) {
        (SupportedVarType::Bool, Some(_)) => Err(ConversionError::RegexOnBool { var_name: var_name.to_owned() }),
        (SupportedVarType::String, Some(TomlValue::String(value))) => match VarRegex::new(value.as_str()) {
            Ok(regex) => Ok(Some(regex)),
            Err(_) => Err(ConversionError::InvalidRegex {
                var_name: var_name.to_owned(),
                regex: value.clone(),
            }),
        },
        (SupportedVarType::String, Some(_)) => Err(wrong_type_error(var_name, "regex", "String")),
        (_, None) => Ok(None),
    }
}

/// An optional borrowed expression, taken by its text.
pub open spec fn regex_ref_view(r: Option<&VarRegex>) -> Option<Seq<char>> {
    match r {
        Some(re) => Some(re@),
        None => None,
    }
}

// ---------------------------------------------------------------- choices

/// Whether every value of the list is a string.
pub open spec fn all_strings(arr: Seq<TomlValue>) -> bool {
    forall|i: int| 0 <= i < arr.len() ==> (#[trigger] arr[i]) is String
}

/// The characters of each string value of the list.
pub open spec fn string_values(arr: Seq<TomlValue>) -> Seq<Seq<char>> {
    arr.map_values(|v: TomlValue| match v {
        TomlValue::String(s) => s@,
        _ => Seq::<char>::empty(),
    })
}

/// Whether the expression matches every string of the list.
pub open spec fn all_match(pattern: Seq<char>, strings: Seq<Seq<char>>) -> bool {
    forall|i: int| 0 <= i < strings.len() ==> regex_matches(pattern, #[trigger] strings[i])
}

/// The choices that the `choices` entry of a placeholder gives it.
pub open spec fn spec_extract_choices(
    var_name: Seq<char>,
    var_type: SupportedVarType,
    regex: Option<Seq<char>>,
    entry: Option<TomlValue>,
) -> Result<Option<Seq<Seq<char>>>, ConversionErrorView> {
    match (entry, var_type) {
        (None, SupportedVarType::Bool) => Ok(None),
        (Some(_), SupportedVarType::Bool) => Err(ConversionErrorView::ChoicesOnBool { var_name }),
        (Some(TomlValue::Array(arr)), SupportedVarType::String) =>
            if arr@.len() == 0 {
                Err(ConversionErrorView::EmptyChoices { var_name })
            } else if !all_strings(arr@) {
                Err(wrong_type(var_name, "choices"@, "String Array"@))
            } else {
                match regex {
                    Some(p) =>
                        if !all_match(p, string_values(arr@)) {
                            Err(ConversionErrorView::RegexDoesntMatchField { var_name, field: "choices"@ })
                        } else {
                            Ok(Some(string_values(arr@)))
                        },
                    None => Ok(Some(string_values(arr@))),
                }
            },
        (Some(_), SupportedVarType::String) => Err(wrong_type(var_name, "choices"@, "String Array"@)),
        (None, SupportedVarType::String) => Ok(None),
    }
}

/// Optional choices, taken by their characters.
pub open spec fn choices_view(c: Option<Vec<String>>) -> Option<Seq<Seq<char>>> {
    match c {
        Some(v) => Some(strings_view(v@)),
        None => None,
    }
}

/// Optional borrowed choices, taken by their characters.
pub open spec fn choices_ref_view(c: Option<&Vec<String>>) -> Option<Seq<Seq<char>>> {
    match c {
        Some(v) => Some(strings_view(v@)),
        None => None,
    }
}

/// Reads the `choices` entry of a placeholder: a non-empty array of strings
/// that all match the placeholder's expression.
#[verifier::loop_isolation(false)]
pub fn extract_choices(
    var_name: &str,
    var_type: SupportedVarType,
    regex: Option<&VarRegex>,
    table_entry: Option<&TomlValue>,
) -> (res: Result<Option<Vec<String>>, ConversionError>)
    ensures
        match res {
            Ok(c) => spec_extract_choices(var_name@, var_type, regex_ref_view(regex), entry_value(table_entry))
                == Ok::<Option<Seq<Seq<char>>>, ConversionErrorView>(choices_view(c)),
            Err(e) => spec_extract_choices(var_name@, var_type, regex_ref_view(regex), entry_value(table_entry))
                == Err::<Option<Seq<Seq<char>>>, ConversionErrorView>(e@),
        },
{
    match (table_entry, var_type) {
        (None, SupportedVarType::Bool) => Ok(None),
        (Some(_), SupportedVarType::Bool) => Err(ConversionError::ChoicesOnBool { var_name: var_name.to_owned() }),
        (Some(TomlValue::Array(arr)), SupportedVarType::String) => {
            if arr.len() == 0 {
                return Err(ConversionError::EmptyChoices { var_name: var_name.to_owned() });
            }
            let mut strings: Vec<String> = Vec::new();
            let n = arr.len();
            for i in 0..n
                invariant
                    n == arr@.len(),
                    strings@.len() == i,
                    forall|j: int| 0 <= j < i ==> (#[trigger] arr@[j]) is String,
                    strings_view(strings@) =~= string_values(arr@).take(i as int),
            {
                match &arr[i] {
                    TomlValue::String(s) => {
                        strings.push(s.clone());
                    },
                    _ => {
                        assert(!((arr@[i as int]) is String));
                        return Err(wrong_type_error(var_name, "choices", "String Array"));
                    },
                }
            }
            assert(string_values(arr@).take(n as int) =~= string_values(arr@));
            if let Some(reg) = regex {
                let m = strings.len();
                for i in 0..m
                    invariant
                        m == strings@.len(),
                        strings_view(strings@) == string_values(arr@),
                        forall|j: int| 0 <= j < i ==> regex_matches(reg@, #[trigger] string_values(arr@)[j]),
                {
                    if !reg.is_match(strings[i].as_str()) {
                        assert(strings_view(strings@)[i as int] == strings@[i as int]@);
                        assert(!regex_matches(reg@, string_values(arr@)[i as int]));
                        return Err(ConversionError::RegexDoesntMatchField {
                            var_name: var_name.to_owned(),
                            field: "choices".to_owned(),
                        });
                    }
                }
            }
            Ok(Some(strings))
        },
        (Some(_), SupportedVarType::String) => Err(wrong_type_error(var_name, "choices", "String Array")),
        (None, SupportedVarType::String) => Ok(None),
    }
}

// ---------------------------------------------------------------- default

/// An optional value, taken by its view.
pub open spec fn value_view(v: Option<SupportedVarValue>) -> Option<SupportedVarValueView> {
    match v {
        Some(x) => Some(x@),
        None => None,
    }
}

/// What a string default `raw` gives once it was rendered to `rendered`: the
/// rendered text, which must match the placeholder's expression.
pub open spec fn default_after_render(
    var_name: Seq<char>,
    regex: Option<Seq<char>>,
    raw: Seq<char>,
    rendered: Result<Seq<char>, Seq<char>>,
) -> Result<Option<SupportedVarValueView>, ConversionErrorView> {
    match rendered {
        Err(err) => Err(ConversionErrorView::TemplateExpansion { value: raw, err }),
        Ok(text) => match regex {
            Some(p) =>
                if !regex_matches(p, text) {
                    Err(ConversionErrorView::RegexDoesntMatchField { var_name, field: "default"@ })
                } else {
                    Ok(Some(SupportedVarValueView::String(text)))
                },
            None => Ok(Some(SupportedVarValueView::String(text))),
        },
    }
}

/// The default that the `default` entry of a placeholder gives it, where a
/// string default renders to `rendered`.
pub open spec fn spec_extract_default(
    var_name: Seq<char>,
    var_type: SupportedVarType,
    regex: Option<Seq<char>>,
    entry: Option<TomlValue>,
    choices: Option<Seq<Seq<char>>>,
    rendered: Result<Seq<char>, Seq<char>>,
) -> Result<Option<SupportedVarValueView>, ConversionErrorView> {
    match (entry, choices, var_type) {
        (None, _, _) => Ok(None),
        (Some(TomlValue::Boolean(b)), _, SupportedVarType::Bool) => Ok(Some(SupportedVarValueView::Bool(b))),
        (Some(TomlValue::String(value)), None, SupportedVarType::String) =>
            default_after_render(var_name, regex, value@, rendered),
        (Some(TomlValue::String(value)), Some(cs), SupportedVarType::String) =>
            if !cs.contains(value@) {
                Err(ConversionErrorView::InvalidDefault { var_name, default: value@, choices: cs })
            } else {
                default_after_render(var_name, regex, value@, rendered)
            },
        (Some(_), _, t) => Err(wrong_type(
            var_name,
            "default"@,
            match t {
                SupportedVarType::Bool => "bool"@,
                SupportedVarType::String => "string"@,
            },
        )),
    }
}

/// Finishes a string default once it was rendered: the rendered text, if it
/// matches the placeholder's expression.
pub fn check_rendered_default(
    var_name: &str,
    regex: Option<&VarRegex>,
    raw: &str,
    rendered: Result<String, String>,
) -> (res: Result<Option<SupportedVarValue>, ConversionError>)
    ensures
        match res {
            Ok(v) => default_after_render(var_name@, regex_ref_view(regex), raw@, rendered_view(rendered))
                == Ok::<Option<SupportedVarValueView>, ConversionErrorView>(value_view(v)),
            Err(e) => default_after_render(var_name@, regex_ref_view(regex), raw@, rendered_view(rendered))
                == Err::<Option<SupportedVarValueView>, ConversionErrorView>(e@),
        },
{
    match rendered {
        Err(err) => Err(ConversionError::TemplateExpansion { value: raw.to_owned(), err }),
        Ok(text) => {
            if let Some(reg) = regex {
                if !reg.is_match(text.as_str()) {
                    return Err(ConversionError::RegexDoesntMatchField {
                        var_name: var_name.to_owned(),
                        field: "default".to_owned(),
                    });
                }
            }
            Ok(Some(SupportedVarValue::String(text)))
        },
    }
}

/// Whether `choices` holds a string equal to `value`.
pub fn contains_string(choices: &Vec<String>, value: &String) -> (res: bool)
    ensures
        res == strings_view(choices@).contains(value@),
{
    let n = choices.len();
    for i in 0..n
        invariant
            n == choices@.len(),
            forall|j: int| 0 <= j < i ==> (#[trigger] choices@[j])@ != value@,
    {
        if choices[i] == *value {
            assert(strings_view(choices@)[i as int] == value@);
            return true;
        }
    }
    proof {
        if strings_view(choices@).contains(value@) {
            let j = choose|j: int| 0 <= j < n && strings_view(choices@)[j] == value@;
            assert(choices@[j]@ == value@);
        }
    }
    false
}

/// The template that a `default` entry gives to the renderer: the string
/// default, if it is one.
pub open spec fn default_template(entry: Option<TomlValue>) -> Seq<char> {
    match entry {
        Some(TomlValue::String(value)) => value@,
        _ => Seq::<char>::empty(),
    }
}

/// Whether `rendered` fits reading the `default` entry `entry` with the
/// variable values `data`: it is an outcome of rendering the entry's string
/// default with `data`, or what the entry gives does not depend on any
/// rendering.
pub open spec fn default_render_fits(
    var_name: Seq<char>,
    var_type: SupportedVarType,
    regex: Option<Seq<char>>,
    entry: Option<TomlValue>,
    choices: Option<Seq<Seq<char>>>,
    data: Map<Seq<char>, ParamValueView>,
    rendered: Result<Seq<char>, Seq<char>>,
) -> bool {
    ||| renders_consistently(default_template(entry), data, rendered)
    ||| forall|other: Result<Seq<char>, Seq<char>>|
        #[trigger] spec_extract_default(var_name, var_type, regex, entry, choices, other)
            == spec_extract_default(var_name, var_type, regex, entry, choices, rendered)
}

/// Reads the `default` entry of a placeholder. A string default must be
/// one of the choices, if there are any; it is expanded as a template with
/// `values`, and what it expands to must match the placeholder's expression.
pub fn extract_default(
    var_name: &str,
    var_type: SupportedVarType,
    regex: Option<&VarRegex>,
    table_entry: Option<&TomlValue>,
    choices: Option<&Vec<String>>,
    values: &ParamMap,
    renderer: &handlebars::Handlebars<'_>,
) -> (res: Result<Option<SupportedVarValue>, ConversionError>)
    ensures
        exists|rendered: Result<Seq<char>, Seq<char>>|
            default_render_fits(var_name@, var_type, regex_ref_view(regex), entry_value(table_entry), choices_ref_view(choices), params_view(values@), rendered)
            && #[trigger] spec_extract_default(var_name@, var_type, regex_ref_view(regex), entry_value(table_entry), choices_ref_view(choices), rendered)
            == match res {
                Ok(v) => Ok::<Option<SupportedVarValueView>, ConversionErrorView>(value_view(v)),
                Err(e) => Err::<Option<SupportedVarValueView>, ConversionErrorView>(e@),
            },
{
    let ghost any_rendered: Result<Seq<char>, Seq<char>> = Ok(default_template(entry_value(table_entry)));
    let ghost cv = choices_ref_view(choices);
    let ghost rv = regex_ref_view(regex);
    let ghost ev = entry_value(table_entry);
    match (table_entry, choices, var_type) {
        (None, _, _) => {
            assert(spec_extract_default(var_name@, var_type, rv, ev, cv, any_rendered) == Ok::<Option<SupportedVarValueView>, ConversionErrorView>(None));
            assert(default_render_fits(var_name@, var_type, rv, ev, cv, params_view(values@), any_rendered));
            Ok(None)
        },
        (Some(TomlValue::Boolean(b)), _, SupportedVarType::Bool) => {
            let res = Some(SupportedVarValue::Bool(*b));
            assert(spec_extract_default(var_name@, var_type, rv, ev, cv, any_rendered) == Ok::<Option<SupportedVarValueView>, ConversionErrorView>(value_view(res)));
            assert(default_render_fits(var_name@, var_type, rv, ev, cv, params_view(values@), any_rendered));
            Ok(res)
        },
        (Some(TomlValue::String(value)), None, SupportedVarType::String) => {
            let rendered = render_template(renderer, value.as_str(), values);
            let ghost r = rendered_view(rendered);
            let res = check_rendered_default(var_name, regex, value.as_str(), rendered);
            assert(spec_extract_default(var_name@, var_type, rv, ev, cv, r) == default_after_render(var_name@, rv, value@, r));
            assert(default_render_fits(var_name@, var_type, rv, ev, cv, params_view(values@), r));
            res
        },
        (Some(TomlValue::String(value)), Some(cs), SupportedVarType::String) => {
            if !contains_string(cs, value) {
                let res = ConversionError::InvalidDefault {
                    var_name: var_name.to_owned(),
                    default: value.clone(),
                    choices: cs.clone(),
                };
                assert(spec_extract_default(var_name@, var_type, rv, ev, cv, any_rendered) == Err::<Option<SupportedVarValueView>, ConversionErrorView>(res@));
                assert(default_render_fits(var_name@, var_type, rv, ev, cv, params_view(values@), any_rendered));
                Err(res)
            } else {
                let rendered = render_template(renderer, value.as_str(), values);
                let ghost r = rendered_view(rendered);
                let res = check_rendered_default(var_name, regex, value.as_str(), rendered);
                assert(spec_extract_default(var_name@, var_type, rv, ev, cv, r) == default_after_render(var_name@, rv, value@, r));
                assert(default_render_fits(var_name@, var_type, rv, ev, cv, params_view(values@), r));
                res
            }
        },
        (Some(_), _, other_type) => {
            let correct_type = match other_type {
                SupportedVarType::Bool => "bool",
                SupportedVarType::String => "string",
            };
            let res = wrong_type_error(var_name, "default", correct_type);
            assert(spec_extract_default(var_name@, var_type, rv, ev, cv, any_rendered) == Err::<Option<SupportedVarValueView>, ConversionErrorView>(res@));
            assert(default_render_fits(var_name@, var_type, rv, ev, cv, params_view(values@), any_rendered));
            Err(res)
        },
    }
}

// ---------------------------------------------------------------- slots

/// What a string variable may hold, and how a value for it is checked.
#[derive(Debug)]
pub struct StringEntry {
    pub default: Option<String>,
    pub choices: Option<Vec<String>>,
    pub regex: Option<VarRegex>,
}

/// The type of a template variable, with what goes with that type.
#[derive(Debug)]
pub enum VarInfo {
    Bool { default: Option<bool> },
    String { entry: StringEntry },
}

/// A template variable, read from a placeholder of the configuration.
#[derive(Debug)]
pub struct TemplateSlots {
    pub var_name: String,
    pub var_info: VarInfo,
    pub prompt: String,
}

/// A `VarInfo` with its strings taken by their characters and its expression
/// by its text.
pub enum VarInfoView {
    Bool { default: Option<bool> },
    String { default: Option<Seq<char>>, choices: Option<Seq<Seq<char>>>, regex: Option<Seq<char>> },
}

/// A `TemplateSlots` with its strings taken by their characters.
pub struct TemplateSlotsView {
    pub var_name: Seq<char>,
    pub var_info: VarInfoView,
    pub prompt: Seq<char>,
}

/// An optional string, taken by its characters.
pub open spec fn opt_string_view(s: Option<String>) -> Option<Seq<char>> {
    match s {
        Some(x) => Some(x@),
        None => None,
    }
}

impl View for VarInfo {
    type V = VarInfoView;

    open spec fn view(&self) -> VarInfoView {
        match self {
            VarInfo::Bool { default } => VarInfoView::Bool { default: *default },
            VarInfo::String { entry } => VarInfoView::String {
                default: opt_string_view(entry.default),
                choices: choices_view(entry.choices),
                regex: regex_view(entry.regex),
            },
        }
    }
}

impl View for TemplateSlots {
    type V = TemplateSlotsView;

    open spec fn view(&self) -> TemplateSlotsView {
        TemplateSlotsView { var_name: self.var_name@, var_info: self.var_info@, prompt: self.prompt@ }
    }
}

/// The names that a placeholder may not take.
pub open spec fn reserved_names() -> Seq<Seq<char>> {
    seq!["authors"@, "os-arch"@, "project-name"@, "crate_name"@, "crate_type"@]
}

/// Whether `name` is one of the names that a placeholder may not take.
pub fn is_reserved_name(name: &str) -> (res: bool)
    ensures
        res == reserved_names().contains(name@),
{
    let res = str_eq(name, "authors") || str_eq(name, "os-arch") || str_eq(name, "project-name")
        || str_eq(name, "crate_name") || str_eq(name, "crate_type");
    proof {
        let r = reserved_names();
        assert(r[0] == "authors"@ && r[1] == "os-arch"@ && r[2] == "project-name"@
            && r[3] == "crate_name"@ && r[4] == "crate_type"@);
        if r.contains(name@) {
            let i = choose|i: int| 0 <= i < r.len() && r[i] == name@;
            assert(i == 0 || i == 1 || i == 2 || i == 3 || i == 4);
        }
        if res {
            if name@ == r[0] { assert(r.contains(name@)); }
            if name@ == r[1] { assert(r.contains(name@)); }
            if name@ == r[2] { assert(r.contains(name@)); }
            if name@ == r[3] { assert(r.contains(name@)); }
            if name@ == r[4] { assert(r.contains(name@)); }
        }
    }
    res
}

/// The entry of a table under `key`, if any.
pub open spec fn table_get(table: Map<Seq<char>, TomlValue>, key: Seq<char>) -> Option<TomlValue> {
    if table.contains_key(key) {
        Some(table[key])
    } else {
        None
    }
}

/// The variable information for a variable of type `var_type` with default
/// `default`, choices `choices` and expression `regex`.
pub open spec fn spec_var_info(
    var_type: SupportedVarType,
    default: Option<SupportedVarValueView>,
    choices: Option<Seq<Seq<char>>>,
    regex: Option<Seq<char>>,
) -> VarInfoView {
    match default {
        Some(SupportedVarValueView::Bool(b)) => VarInfoView::Bool { default: Some(b) },
        Some(SupportedVarValueView::String(s)) => VarInfoView::String { default: Some(s), choices, regex },
        None => match var_type {
            SupportedVarType::Bool => VarInfoView::Bool { default: None },
            SupportedVarType::String => VarInfoView::String { default: None, choices, regex },
        },
    }
}

/// The template variable that a placeholder table describes, where
/// `map_dump` is the text given for a table without a name and a string
/// default renders to `rendered`.
pub open spec fn spec_placeholder_slot(
    table: Map<Seq<char>, TomlValue>,
    map_dump: Seq<char>,
    rendered: Result<Seq<char>, Seq<char>>,
) -> Result<TemplateSlotsView, ConversionErrorView> {
    match table_get(table, "name"@) {
        Some(TomlValue::String(key)) =>
            if reserved_names().contains(key@) {
                Err(ConversionErrorView::InvalidPlaceholderName { var_name: key@ })
            } else {
                match spec_extract_type(key@, table_get(table, "type"@)) {
                    Err(e) => Err(e),
                    Ok(t) => match spec_extract_regex(key@, t, table_get(table, "regex"@)) {
                        Err(e) => Err(e),
                        Ok(re) => match spec_extract_prompt(key@, table_get(table, "prompt"@)) {
                            Err(e) => Err(e),
                            Ok(prompt) => match spec_extract_choices(key@, t, re, table_get(table, "choices"@)) {
                                Err(e) => Err(e),
                                Ok(cs) => match spec_extract_default(key@, t, re, table_get(table, "default"@), cs, rendered) {
                                    Err(e) => Err(e),
                                    Ok(d) => Ok(TemplateSlotsView {
                                        var_name: key@,
                                        var_info: spec_var_info(t, d, cs, re),
                                        prompt,
                                    }),
                                },
                            },
                        },
                    },
                }
            },
        _ => Err(ConversionErrorView::MissingPlaceholderName { map_dump }),
    }
}

/// A default of a variable always has the variable's type.
pub proof fn lemma_default_has_type(
    var_name: Seq<char>,
    var_type: SupportedVarType,
    regex: Option<Seq<char>>,
    entry: Option<TomlValue>,
    choices: Option<Seq<Seq<char>>>,
    rendered: Result<Seq<char>, Seq<char>>,
)
    ensures
        spec_extract_default(var_name, var_type, regex, entry, choices, rendered) matches Ok(Some(v)) ==>
            (v is Bool <==> var_type == SupportedVarType::Bool),
{
}

/// The name that the `name` entry of a placeholder gives it.
pub open spec fn placeholder_name(table: Map<Seq<char>, TomlValue>) -> Seq<char> {
    match table_get(table, "name"@) {
        Some(TomlValue::String(name)) => name@,
        _ => Seq::<char>::empty(),
    }
}

/// What a template variable read from `table` says of the table: its name
/// is the table's name, and it has a default exactly where the table has a
/// `default` entry, a boolean default being that entry.
pub open spec fn slot_agrees(table: Map<Seq<char>, TomlValue>, slot: TemplateSlotsView) -> bool {
    &&& table_get(table, "name"@) is Some
    &&& table_get(table, "name"@).unwrap() is String
    &&& slot.var_name == placeholder_name(table)
    &&& match slot.var_info {
        VarInfoView::Bool { default: Some(b) } => table_get(table, "default"@) == Some(TomlValue::Boolean(b)),
        VarInfoView::String { default: Some(_), .. } =>
            table_get(table, "default"@) is Some && table_get(table, "default"@).unwrap() is String,
        VarInfoView::Bool { default: None } => table_get(table, "default"@) is None,
        VarInfoView::String { default: None, .. } => table_get(table, "default"@) is None,
    }
}

/// A placeholder may not take a reserved name.
pub proof fn lemma_reserved_names_refused(
    table: Map<Seq<char>, TomlValue>,
    map_dump: Seq<char>,
    rendered: Result<Seq<char>, Seq<char>>,
)
    ensures
        spec_placeholder_slot(table, map_dump, rendered) matches Ok(slot) ==>
            !reserved_names().contains(slot.var_name),
{
}

/// A boolean variable comes from a placeholder with neither an expression
/// nor choices.
pub proof fn lemma_bool_without_regex_or_choices(
    table: Map<Seq<char>, TomlValue>,
    map_dump: Seq<char>,
    rendered: Result<Seq<char>, Seq<char>>,
)
    ensures
        spec_placeholder_slot(table, map_dump, rendered) matches Ok(slot) ==> (slot.var_info is Bool ==>
            table_get(table, "regex"@) is None && table_get(table, "choices"@) is None),
{
}

/// The constraints of a string variable hold of it: its choices are not
/// empty and, like its default, match its expression.
pub proof fn lemma_string_slot_constraints(
    table: Map<Seq<char>, TomlValue>,
    map_dump: Seq<char>,
    rendered: Result<Seq<char>, Seq<char>>,
)
    ensures
        spec_placeholder_slot(table, map_dump, rendered) matches Ok(slot) ==> (
            slot.var_info matches VarInfoView::String { default, choices, regex } ==> {
                &&& choices matches Some(cs) ==> cs.len() > 0
                &&& regex matches Some(p) ==> {
                    &&& default matches Some(d) ==> regex_matches(p, d)
                    &&& choices matches Some(cs) ==> all_match(p, cs)
                }
            }),
{
    if let Ok(slot) = spec_placeholder_slot(table, map_dump, rendered) {
        let key = placeholder_name(table);
        let t = spec_extract_type(key, table_get(table, "type"@))->Ok_0;
        let re = spec_extract_regex(key, t, table_get(table, "regex"@))->Ok_0;
        let cs = spec_extract_choices(key, t, re, table_get(table, "choices"@))->Ok_0;
        lemma_choices_nonempty_and_match(key, t, re, table_get(table, "choices"@));
        lemma_default_matches_regex(key, t, re, table_get(table, "default"@), cs, rendered);
    }
}

/// Accepted choices are not empty and all match the expression.
pub proof fn lemma_choices_nonempty_and_match(
    var_name: Seq<char>,
    var_type: SupportedVarType,
    regex: Option<Seq<char>>,
    entry: Option<TomlValue>,
)
    ensures
        spec_extract_choices(var_name, var_type, regex, entry) matches Ok(Some(cs)) ==> {
            &&& cs.len() > 0
            &&& regex matches Some(p) ==> all_match(p, cs)
        },
{
}

/// An accepted string default matches the expression.
pub proof fn lemma_default_matches_regex(
    var_name: Seq<char>,
    var_type: SupportedVarType,
    regex: Option<Seq<char>>,
    entry: Option<TomlValue>,
    choices: Option<Seq<Seq<char>>>,
    rendered: Result<Seq<char>, Seq<char>>,
)
    ensures
        spec_extract_default(var_name, var_type, regex, entry, choices, rendered)
            matches Ok(Some(SupportedVarValueView::String(d))) ==> (regex matches Some(p) ==> regex_matches(p, d)),
{
}

/// Where there are choices, an accepted string default is written as one of
/// them (before it is expanded as a template).
pub proof fn lemma_default_among_choices(
    var_name: Seq<char>,
    var_type: SupportedVarType,
    regex: Option<Seq<char>>,
    entry: Option<TomlValue>,
    choices: Option<Seq<Seq<char>>>,
    rendered: Result<Seq<char>, Seq<char>>,
)
    ensures
        spec_extract_default(var_name, var_type, regex, entry, choices, rendered)
            matches Ok(Some(SupportedVarValueView::String(_))) ==> (choices matches Some(cs) ==> (
                entry matches Some(TomlValue::String(raw)) && cs.contains(raw@))),
{
}

/// A template variable read from a table agrees with the table.
pub proof fn lemma_slot_agrees(
    table: Map<Seq<char>, TomlValue>,
    map_dump: Seq<char>,
    rendered: Result<Seq<char>, Seq<char>>,
)
    ensures
        spec_placeholder_slot(table, map_dump, rendered) matches Ok(slot) ==> slot_agrees(table, slot),
{
}

/// The expression of a string variable is compiled from exactly the text of
/// its `regex` entry: a string entry is accepted exactly when its text
/// compiles, and then gives that text; no entry gives no expression.
pub proof fn lemma_regex_is_entry_text(var_name: Seq<char>, entry: Option<TomlValue>)
    ensures
        spec_extract_regex(var_name, SupportedVarType::String, entry) matches Ok(Some(p)) ==>
            (entry matches Some(TomlValue::String(s)) && s@ == p),
        spec_extract_regex(var_name, SupportedVarType::String, entry) matches Ok(None) ==> entry is None,
        entry matches Some(TomlValue::String(s)) ==>
            (spec_extract_regex(var_name, SupportedVarType::String, entry) is Ok <==> regex_compiles(s@)),
{
}

/// Accepted choices are exactly the strings of the `choices` array, all of
/// them and in order; no entry gives no choices.
pub proof fn lemma_choices_are_the_array(
    var_name: Seq<char>,
    var_type: SupportedVarType,
    regex: Option<Seq<char>>,
    entry: Option<TomlValue>,
)
    ensures
        spec_extract_choices(var_name, var_type, regex, entry) matches Ok(Some(cs)) ==> (
            entry matches Some(TomlValue::Array(arr)) && cs.len() == arr@.len()
            && forall|i: int| 0 <= i < cs.len() ==>
                (#[trigger] arr@[i]) is String && arr@[i]->String_0@ == cs[i]),
        spec_extract_choices(var_name, var_type, regex, entry) matches Ok(None) ==> entry is None,
{
    if let Ok(Some(cs)) = spec_extract_choices(var_name, var_type, regex, entry) {
        let arr = entry->Some_0->Array_0;
        assert forall|i: int| 0 <= i < cs.len() implies
            (#[trigger] arr@[i]) is String && arr@[i]->String_0@ == cs[i] by {
            assert(all_strings(arr@));
            assert(arr@[i] is String);
        }
    }
}

/// A string default of a string variable that is among the choices, if
/// there are any, is accepted exactly when its expansion as a template
/// succeeds and, where there is an expression, the expanded text matches
/// it; the default is then the expanded text.
pub proof fn lemma_default_is_its_expansion(
    var_name: Seq<char>,
    regex: Option<Seq<char>>,
    raw: String,
    choices: Option<Seq<Seq<char>>>,
    rendered: Result<Seq<char>, Seq<char>>,
)
    requires
        choices matches Some(cs) ==> cs.contains(raw@),
    ensures
        spec_extract_default(var_name, SupportedVarType::String, regex, Some(TomlValue::String(raw)), choices, rendered) is Ok
            <==> (rendered is Ok && (regex matches Some(p) ==> regex_matches(p, rendered->Ok_0))),
        spec_extract_default(var_name, SupportedVarType::String, regex, Some(TomlValue::String(raw)), choices, rendered) is Ok
            ==> spec_extract_default(var_name, SupportedVarType::String, regex, Some(TomlValue::String(raw)), choices, rendered)
                == Ok::<Option<SupportedVarValueView>, ConversionErrorView>(Some(SupportedVarValueView::String(rendered->Ok_0))),
{
}

/// The choices and the expression of a string variable read from a table are
/// those of the table: there are choices exactly when the table has a
/// `choices` entry, and then they are the strings of its array, all of them
/// and in order; there is an expression exactly when the table has a
/// `regex` entry, and then it is that entry's text. This holds whether or
/// not the table has a default.
pub proof fn lemma_slot_choices_and_regex_from_table(
    table: Map<Seq<char>, TomlValue>,
    map_dump: Seq<char>,
    rendered: Result<Seq<char>, Seq<char>>,
)
    ensures
        spec_placeholder_slot(table, map_dump, rendered) matches Ok(slot) ==> (
            slot.var_info matches VarInfoView::String { choices, regex, .. } ==> {
                &&& (choices is Some <==> table_get(table, "choices"@) is Some)
                &&& choices matches Some(cs) ==> (
                    table_get(table, "choices"@) matches Some(TomlValue::Array(arr)) && cs.len() == arr@.len()
                    && forall|i: int| 0 <= i < cs.len() ==>
                        (#[trigger] arr@[i]) is String && arr@[i]->String_0@ == cs[i])
                &&& (regex is Some <==> table_get(table, "regex"@) is Some)
                &&& regex matches Some(p) ==> (table_get(table, "regex"@) matches Some(TomlValue::String(s)) && s@ == p)
            }),
{
    if let Ok(slot) = spec_placeholder_slot(table, map_dump, rendered) {
        let key = placeholder_name(table);
        let t = spec_extract_type(key, table_get(table, "type"@))->Ok_0;
        let re = spec_extract_regex(key, t, table_get(table, "regex"@))->Ok_0;
        lemma_regex_is_entry_text(key, table_get(table, "regex"@));
        lemma_choices_are_the_array(key, t, re, table_get(table, "choices"@));
    }
}

/// Whether `rendered` fits reading the placeholder table `table` with the
/// variable values `data`: it is an outcome of rendering the table's string
/// default with `data`, or what reading the table gives does not depend on
/// any rendering.
pub open spec fn slot_render_fits(
    table: Map<Seq<char>, TomlValue>,
    map_dump: Seq<char>,
    data: Map<Seq<char>, ParamValueView>,
    rendered: Result<Seq<char>, Seq<char>>,
) -> bool {
    ||| renders_consistently(default_template(table_get(table, "default"@)), data, rendered)
    ||| forall|other: Result<Seq<char>, Seq<char>>|
        #[trigger] spec_placeholder_slot(table, map_dump, other) == spec_placeholder_slot(table, map_dump, rendered)
}

/// Reads one placeholder table of the configuration into a template
/// variable. A string default is expanded as a template with `values`.
pub fn try_placeholder_into_slot(
    table: &TomlMap,
    values: &ParamMap,
    renderer: &handlebars::Handlebars<'_>,
) -> (res: Result<TemplateSlots, ConversionError>)
    ensures
        exists|rendered: Result<Seq<char>, Seq<char>>|
            slot_render_fits(table@, table_text(*table), params_view(values@), rendered)
            && #[trigger] spec_placeholder_slot(table@, table_text(*table), rendered)
            == match res {
                Ok(s) => Ok::<TemplateSlotsView, ConversionErrorView>(s@),
                Err(e) => Err::<TemplateSlotsView, ConversionErrorView>(e@),
            },
        res matches Ok(s) ==> slot_agrees(table@, s@),
{
    let ghost any_dump = table_text(*table);
    let ghost any_rendered: Result<Seq<char>, Seq<char>> = Ok(default_template(table_get(table@, "default"@)));
    let key = match table.get("name") {
        Some(TomlValue::String(key)) => key,
        _ => {
            let map_dump = table_dump(table);
            let res = ConversionError::MissingPlaceholderName { map_dump };
            assert(spec_placeholder_slot(table@, res->map_dump@, any_rendered)
                == Err::<TemplateSlotsView, ConversionErrorView>(res@));
            assert(slot_render_fits(table@, any_dump, params_view(values@), any_rendered));
            return Err(res);
        },
    };
    let ghost k = key@;
    if is_reserved_name(key.as_str()) {
        let res = ConversionError::InvalidPlaceholderName { var_name: key.clone() };
        assert(spec_placeholder_slot(table@, any_dump, any_rendered) == Err::<TemplateSlotsView, ConversionErrorView>(res@));
        assert(slot_render_fits(table@, any_dump, params_view(values@), any_rendered));
        return Err(res);
    }
    let var_type = match extract_type(key.as_str(), table.get("type")) {
        Ok(t) => t,
        Err(e) => {
            assert(spec_placeholder_slot(table@, any_dump, any_rendered) == Err::<TemplateSlotsView, ConversionErrorView>(e@));
            assert(slot_render_fits(table@, any_dump, params_view(values@), any_rendered));
            return Err(e);
        },
    };
    let regex = match extract_regex(key.as_str(), var_type, table.get("regex")) {
        Ok(r) => r,
        Err(e) => {
            assert(spec_placeholder_slot(table@, any_dump, any_rendered) == Err::<TemplateSlotsView, ConversionErrorView>(e@));
            assert(slot_render_fits(table@, any_dump, params_view(values@), any_rendered));
            return Err(e);
        },
    };
    let regex_ref = match &regex {
        Some(r) => Some(r),
        None => None,
    };
    assert(regex_ref_view(regex_ref) == regex_view(regex));
    let prompt = match extract_prompt(key.as_str(), table.get("prompt")) {
        Ok(p) => p,
        Err(e) => {
            assert(spec_placeholder_slot(table@, any_dump, any_rendered) == Err::<TemplateSlotsView, ConversionErrorView>(e@));
            assert(slot_render_fits(table@, any_dump, params_view(values@), any_rendered));
            return Err(e);
        },
    };
    let choices = match extract_choices(key.as_str(), var_type, regex_ref, table.get("choices")) {
        Ok(c) => c,
        Err(e) => {
            assert(spec_placeholder_slot(table@, any_dump, any_rendered) == Err::<TemplateSlotsView, ConversionErrorView>(e@));
            assert(slot_render_fits(table@, any_dump, params_view(values@), any_rendered));
            return Err(e);
        },
    };
    let choices_ref = match &choices {
        Some(c) => Some(c),
        None => None,
    };
    assert(choices_ref_view(choices_ref) == choices_view(choices));
    let default_entry = table.get("default");
    let default_choice = extract_default(
        key.as_str(),
        var_type,
        regex_ref,
        default_entry,
        choices_ref,
        values,
        renderer,
    );
    assert(entry_value(default_entry) == table_get(table@, "default"@));
    let ghost data = params_view(values@);
    let ghost r = choose|rendered: Result<Seq<char>, Seq<char>>|
        default_render_fits(k, var_type, regex_view(regex), table_get(table@, "default"@), choices_view(choices), data, rendered)
        && #[trigger] spec_extract_default(k, var_type, regex_view(regex), table_get(table@, "default"@), choices_view(choices), rendered)
        == match default_choice {
            Ok(v) => Ok::<Option<SupportedVarValueView>, ConversionErrorView>(value_view(v)),
            Err(e) => Err::<Option<SupportedVarValueView>, ConversionErrorView>(e@),
        };
    proof {
        lemma_default_has_type(k, var_type, regex_view(regex), table_get(table@, "default"@), choices_view(choices), r);
        if !renders_consistently(default_template(table_get(table@, "default"@)), data, r) {
            assert forall|other: Result<Seq<char>, Seq<char>>|
                #[trigger] spec_placeholder_slot(table@, any_dump, other) == spec_placeholder_slot(table@, any_dump, r) by {
                assert(spec_extract_default(k, var_type, regex_view(regex), table_get(table@, "default"@), choices_view(choices), other)
                    == spec_extract_default(k, var_type, regex_view(regex), table_get(table@, "default"@), choices_view(choices), r));
            }
        }
        assert(slot_render_fits(table@, any_dump, data, r));
    }
    let default_choice = match default_choice {
        Ok(d) => d,
        Err(e) => {
            assert(spec_placeholder_slot(table@, any_dump, r) == Err::<TemplateSlotsView, ConversionErrorView>(e@));
            return Err(e);
        },
    };
    let var_info = match default_choice {
        Some(SupportedVarValue::Bool(value)) => VarInfo::Bool { default: Some(value) },
        Some(SupportedVarValue::String(value)) => VarInfo::String {
            entry: StringEntry { default: Some(value), choices, regex },
        },
        None => match var_type {
            SupportedVarType::Bool => VarInfo::Bool { default: None },
            SupportedVarType::String => VarInfo::String {
                entry: StringEntry { default: None, choices, regex },
            },
        },
    };
    let res = TemplateSlots { var_name: key.clone(), var_info, prompt };
    assert(spec_placeholder_slot(table@, any_dump, r) == Ok::<TemplateSlotsView, ConversionErrorView>(res@));
    proof {
        lemma_slot_agrees(table@, any_dump, r);
    }
    Ok(res)
}

// ---------------------------------------------------------------- filling

/// The part of a template's configuration that describes its variables.
pub struct Config {
    pub placeholders: Vec<TomlMap>,
}

/// Why the values of the template variables could not be determined.
#[derive(Debug)]
pub enum FillError<E> {
    /// A placeholder could not be read.
    Conversion(ConversionError),
    /// A default could not be expanded; the message of the template engine.
    Render(String),
    /// The provider of values failed.
    Provider(E),
}

/// A string entry, taken by its view as variable information.
pub open spec fn entry_view(e: StringEntry) -> VarInfoView {
    VarInfoView::String { default: opt_string_view(e.default), choices: choices_view(e.choices), regex: regex_view(e.regex) }
}

/// What variable information becomes once its string default, if it has
/// one, was rendered to `rendered`: the default becomes the rendered text,
/// or the rendering error is handed on; information without a string default
/// stays as it is.
pub open spec fn spec_render_default(info: VarInfoView, rendered: Result<Seq<char>, Seq<char>>) -> Result<VarInfoView, Seq<char>> {
    match info {
        VarInfoView::String { default: Some(_), choices, regex } => match rendered {
            Ok(text) => Ok(VarInfoView::String { default: Some(text), choices, regex }),
            Err(message) => Err(message),
        },
        other => Ok(other),
    }
}

/// The template that variable information gives to the renderer: its
/// string default, if it has one.
pub open spec fn info_template(info: VarInfoView) -> Seq<char> {
    match info {
        VarInfoView::String { default: Some(t), .. } => t,
        _ => Seq::<char>::empty(),
    }
}

/// A string entry result, taken by its view.
pub open spec fn entry_result_view(r: Result<StringEntry, String>) -> Result<VarInfoView, Seq<char>> {
    match r {
        Ok(e) => Ok(entry_view(e)),
        Err(m) => Err(m@),
    }
}

/// Finishes the expansion of the default of a string entry once the default
/// was rendered to `rendered`; an entry without a default stays as it is.
pub fn apply_rendered_default(entry: StringEntry, rendered: Result<String, String>) -> (res: Result<StringEntry, String>)
    ensures
        entry_result_view(res) == spec_render_default(entry_view(entry), rendered_view(rendered)),
{
    let StringEntry { default, choices, regex } = entry;
    match default {
        Some(_) => match rendered {
            Ok(text) => Ok(StringEntry { default: Some(text), choices, regex }),
            Err(message) => Err(message),
        },
        None => Ok(StringEntry { default: None, choices, regex }),
    }
}

/// Whether `rendered` fits expanding the default of the variable
/// information `info` with the variable values `data`: it is an outcome of
/// rendering that default with `data`, or the expansion does not depend on
/// any rendering (there is no string default).
pub open spec fn info_render_fits(
    info: VarInfoView,
    data: Map<Seq<char>, ParamValueView>,
    rendered: Result<Seq<char>, Seq<char>>,
) -> bool {
    ||| renders_consistently(info_template(info), data, rendered)
    ||| forall|other: Result<Seq<char>, Seq<char>>|
        #[trigger] spec_render_default(info, other) == spec_render_default(info, rendered)
}

/// Expands the default of a string variable, if it has one, as a template
/// with `values`; the rest of the entry stays as it is.
pub fn expand_default_value(
    entry: StringEntry,
    values: &ParamMap,
    renderer: &handlebars::Handlebars<'_>,
) -> (res: Result<StringEntry, String>)
    ensures
        exists|rendered: Result<Seq<char>, Seq<char>>|
            info_render_fits(entry_view(entry), params_view(values@), rendered)
            && #[trigger] spec_render_default(entry_view(entry), rendered) == entry_result_view(res),
        match res {
            Ok(e) => {
                &&& choices_view(e.choices) == choices_view(entry.choices)
                &&& regex_view(e.regex) == regex_view(entry.regex)
                &&& (e.default is Some <==> entry.default is Some)
                &&& entry.default is None ==> e.default == entry.default
            },
            Err(_) => entry.default is Some,
        },
{
    let ghost info = entry_view(entry);
    // Only a default is rendered; an entry without one is left as it is by
    // `apply_rendered_default`, whatever it is handed.
    let rendered = match &entry.default {
        Some(d) => render_template(renderer, d.as_str(), values),
        None => Ok(String::new()),
    };
    let ghost r = rendered_view(rendered);
    let res = apply_rendered_default(entry, rendered);
    assert(spec_render_default(info, r) == entry_result_view(res));
    assert(info_render_fits(info, params_view(values@), r));
    res
}

/// A variable result, taken by the view of its information.
pub open spec fn slot_info_result_view(r: Result<TemplateSlots, String>) -> Result<VarInfoView, Seq<char>> {
    match r {
        Ok(s) => Ok(s.var_info@),
        Err(m) => Err(m@),
    }
}

/// A variable with its string default, if any, expanded as a template.
fn expand_slot_default(
    slot: TemplateSlots,
    values: &ParamMap,
    renderer: &handlebars::Handlebars<'_>,
) -> (res: Result<TemplateSlots, String>)
    ensures
        exists|rendered: Result<Seq<char>, Seq<char>>|
            info_render_fits(slot.var_info@, params_view(values@), rendered)
            && #[trigger] spec_render_default(slot.var_info@, rendered) == slot_info_result_view(res),
        res matches Ok(s) ==> {
            &&& s.var_name@ == slot.var_name@
            &&& s.prompt@ == slot.prompt@
            &&& match (s.var_info, slot.var_info) {
                (VarInfo::Bool { default: d1 }, VarInfo::Bool { default: d2 }) => d1 == d2,
                (VarInfo::String { entry: e1 }, VarInfo::String { entry: e2 }) =>
                    (e1.default is Some <==> e2.default is Some),
                _ => false,
            }
        },
{
    let ghost info = slot.var_info@;
    let TemplateSlots { var_name, var_info, prompt } = slot;
    match var_info {
        VarInfo::String { entry } => {
            let ghost e0 = entry;
            assert(entry_view(e0) == info);
            let res = expand_default_value(entry, values, renderer);
            let ghost r = choose|rendered: Result<Seq<char>, Seq<char>>|
                info_render_fits(entry_view(e0), params_view(values@), rendered)
                && #[trigger] spec_render_default(entry_view(e0), rendered) == entry_result_view(res);
            match res {
                Ok(entry) => {
                    let out = TemplateSlots { var_name, var_info: VarInfo::String { entry }, prompt };
                    assert(out.var_info@ == entry_view(entry));
                    assert(spec_render_default(info, r) == slot_info_result_view(Ok::<TemplateSlots, String>(out)));
                    Ok(out)
                },
                Err(m) => {
                    assert(spec_render_default(info, r) == slot_info_result_view(Err::<TemplateSlots, String>(m)));
                    Err(m)
                },
            }
        },
        VarInfo::Bool { default } => {
            let out = TemplateSlots { var_name, var_info: VarInfo::Bool { default }, prompt };
            let ghost r: Result<Seq<char>, Seq<char>> = Ok(Seq::<char>::empty());
            assert(spec_render_default(info, r) == slot_info_result_view(Ok::<TemplateSlots, String>(out)));
            assert(info_render_fits(info, params_view(values@), r));
            Ok(out)
        },
    }
}

/// Whether a placeholder table has a name.
pub open spec fn has_name(table: Map<Seq<char>, TomlValue>) -> bool {
    table_get(table, "name"@) is Some && table_get(table, "name"@).unwrap() is String
}

/// The tables of the first `n` placeholders, by their views.
pub open spec fn placeholder_views(placeholders: Seq<TomlMap>) -> Seq<Map<Seq<char>, TomlValue>> {
    placeholders.map_values(|t: TomlMap| t@)
}

/// Whether the value `v` of the variable `k` came from the placeholders
/// `ps`: when `silent`, from the default of a placeholder of that name;
/// otherwise from what `provider` gave for a variable of that name.
pub open spec fn value_origin<F, E>(
    ps: Seq<Map<Seq<char>, TomlValue>>,
    k: Seq<char>,
    v: ParamValue,
    silent: bool,
    provider: F,
) -> bool where F: Fn(&TemplateSlots) -> Result<ParamValue, E> {
    if silent {
        exists|j: int|
            0 <= j < ps.len() && has_name(#[trigger] ps[j]) && placeholder_name(ps[j]) == k && match table_get(ps[j], "default"@) {
                Some(TomlValue::Boolean(b)) => v == ParamValue::Bool(b),
                Some(TomlValue::String(_)) => v is String,
                _ => false,
            }
    } else {
        &&& exists|j: int| 0 <= j < ps.len() && has_name(#[trigger] ps[j]) && placeholder_name(ps[j]) == k
        &&& exists|s: TemplateSlots| s.var_name@ == k && #[trigger] call_ensures(provider, (&s,), Ok::<ParamValue, E>(v))
    }
}

/// What holds after the placeholders `ps` were handled, starting from the
/// values `before`, with the values `after` and the undefined variables
/// `undefined`.
pub open spec fn filled<F, E>(
    ps: Seq<Map<Seq<char>, TomlValue>>,
    before: Map<Seq<char>, ParamValue>,
    after: Map<Seq<char>, ParamValue>,
    undefined: Seq<Seq<char>>,
    silent: bool,
    provider: F,
) -> bool where F: Fn(&TemplateSlots) -> Result<ParamValue, E> {
    // a value given before is kept
    &&& forall|k: Seq<char>| #[trigger] before.contains_key(k) ==> after.contains_key(k) && after[k] == before[k]
    // every placeholder has a name, and its variable has a value or is undefined
    &&& forall|j: int| 0 <= j < ps.len() ==> has_name(#[trigger] ps[j])
    &&& forall|j: int| 0 <= j < ps.len() ==>
        after.contains_key(placeholder_name(#[trigger] ps[j])) || undefined.contains(placeholder_name(ps[j]))
    // a new value is one of a placeholder's variable, and came from it
    &&& forall|k: Seq<char>| #[trigger] after.contains_key(k) && !before.contains_key(k) ==>
        value_origin::<F, E>(ps, k, after[k], silent, provider)
    // a variable is undefined only in silent mode, where it has no default
    &&& !silent ==> undefined.len() == 0
    &&& forall|u: int| 0 <= u < undefined.len() ==> #[trigger] undefined_ok(ps, undefined[u])
}

/// Whether some placeholder of `ps` has the name `name` and no default.
pub open spec fn undefined_ok(ps: Seq<Map<Seq<char>, TomlValue>>, name: Seq<char>) -> bool {
    exists|j: int| 0 <= j < ps.len() && #[trigger] placeholder_name(ps[j]) == name && table_get(ps[j], "default"@) is None
}

/// Whether `provider` may fail with `e` for some variable.
pub open spec fn provider_may_fail<F, E>(provider: F, e: E) -> bool
    where F: Fn(&TemplateSlots) -> Result<ParamValue, E>
{
    exists|s: TemplateSlots| #[trigger] call_ensures(provider, (&s,), Err::<ParamValue, E>(e))
}

/// A value that came from some placeholders came from any longer list that
/// starts with them.
proof fn lemma_origin_extends<F, E>(
    ps: Seq<Map<Seq<char>, TomlValue>>,
    i: int,
    k: Seq<char>,
    v: ParamValue,
    silent: bool,
    provider: F,
)
    where F: Fn(&TemplateSlots) -> Result<ParamValue, E>,
    requires
        0 <= i < ps.len(),
        value_origin::<F, E>(ps.take(i), k, v, silent, provider),
    ensures
        value_origin::<F, E>(ps.take(i + 1), k, v, silent, provider),
{
    if silent {
        let j = choose|j: int|
            0 <= j < ps.take(i).len() && has_name(#[trigger] ps.take(i)[j]) && placeholder_name(ps.take(i)[j]) == k && match table_get(ps.take(i)[j], "default"@) {
                Some(TomlValue::Boolean(b)) => v == ParamValue::Bool(b),
                Some(TomlValue::String(_)) => v is String,
                _ => false,
            };
        assert(ps.take(i + 1)[j] == ps.take(i)[j]);
    } else {
        let j = choose|j: int| 0 <= j < ps.take(i).len() && has_name(#[trigger] ps.take(i)[j]) && placeholder_name(ps.take(i)[j]) == k;
        assert(ps.take(i + 1)[j] == ps.take(i)[j]);
    }
}

/// Handling one more placeholder keeps what `filled` states.
proof fn lemma_filled_extend<F, E>(
    ps: Seq<Map<Seq<char>, TomlValue>>,
    i: int,
    before: Map<Seq<char>, ParamValue>,
    mid: Map<Seq<char>, ParamValue>,
    after: Map<Seq<char>, ParamValue>,
    und_mid: Seq<Seq<char>>,
    und_after: Seq<Seq<char>>,
    silent: bool,
    provider: F,
)
    where F: Fn(&TemplateSlots) -> Result<ParamValue, E>,
    requires
        0 <= i < ps.len(),
        filled::<F, E>(ps.take(i), before, mid, und_mid, silent, provider),
        has_name(ps[i]),
        forall|k: Seq<char>| #[trigger] mid.contains_key(k) ==> after.contains_key(k) && after[k] == mid[k],
        forall|k: Seq<char>| #[trigger] after.contains_key(k) && !mid.contains_key(k) ==>
            value_origin::<F, E>(ps.take(i + 1), k, after[k], silent, provider),
        und_after == und_mid || (silent && und_after == und_mid.push(placeholder_name(ps[i]))
            && table_get(ps[i], "default"@) is None),
        after.contains_key(placeholder_name(ps[i])) || und_after.contains(placeholder_name(ps[i])),
    ensures
        filled::<F, E>(ps.take(i + 1), before, after, und_after, silent, provider),
{
    let p0 = ps.take(i);
    let p1 = ps.take(i + 1);
    assert forall|j: int| 0 <= j < p1.len() implies has_name(#[trigger] p1[j]) by {
        if j < i {
            assert(p1[j] == p0[j]);
        }
    }
    assert forall|j: int| 0 <= j < p1.len() implies
        after.contains_key(placeholder_name(#[trigger] p1[j])) || und_after.contains(placeholder_name(p1[j])) by {
        if j < i {
            assert(p1[j] == p0[j]);
            if mid.contains_key(placeholder_name(p0[j])) {
            } else {
                assert(und_mid.contains(placeholder_name(p0[j])));
                let u = choose|u: int| 0 <= u < und_mid.len() && und_mid[u] == placeholder_name(p0[j]);
                assert(und_after[u] == und_mid[u]);
            }
        }
    }
    assert forall|k: Seq<char>| #[trigger] after.contains_key(k) && !before.contains_key(k) implies
        value_origin::<F, E>(p1, k, after[k], silent, provider) by {
        if mid.contains_key(k) {
            lemma_origin_extends::<F, E>(ps, i, k, mid[k], silent, provider);
        }
    }
    assert forall|u: int| 0 <= u < und_after.len() implies #[trigger] undefined_ok(p1, und_after[u]) by {
        if u < und_mid.len() {
            assert(und_after[u] == und_mid[u]);
            assert(undefined_ok(p0, und_mid[u]));
            let j = choose|j: int| 0 <= j < p0.len() && #[trigger] placeholder_name(p0[j]) == und_mid[u]
                && table_get(p0[j], "default"@) is None;
            assert(p1[j] == p0[j]);
        } else {
            assert(p1[i] == ps[i]);
            assert(placeholder_name(p1[i]) == und_after[u]);
        }
    }
}

/// A `FillError` with its strings taken by their characters.
pub enum FillErrorView<E> {
    Conversion(ConversionErrorView),
    Render(Seq<char>),
    Provider(E),
}

/// A `FillError`, taken by its view.
pub open spec fn fill_error_view<E>(e: FillError<E>) -> FillErrorView<E> {
    match e {
        FillError::Conversion(c) => FillErrorView::Conversion(c@),
        FillError::Render(m) => FillErrorView::Render(m@),
        FillError::Provider(p) => FillErrorView::Provider(p),
    }
}

/// What the outside calls gave while one placeholder was handled: the
/// rendering of its default when it was read, the rendering of its default
/// when it was expanded, and the answer of the provider.
pub struct FillOutcome<E> {
    pub first: Result<Seq<char>, Seq<char>>,
    pub second: Result<Seq<char>, Seq<char>>,
    pub provided: Result<ParamValue, E>,
}

/// The state of filling after some placeholders: whether the outside
/// outcomes so far are ones the outside calls can give, the values, the
/// undefined variables in order, and the error that stopped filling, if any.
pub struct FillState<E> {
    pub consistent: bool,
    pub values: Map<Seq<char>, ParamValueView>,
    pub undefined: Seq<Seq<char>>,
    pub error: Option<FillErrorView<E>>,
}

/// The state of filling with the values `values`, the undefined variables
/// `undefined` and the error `error`.
pub open spec fn fill_state<E>(
    consistent: bool,
    values: Map<Seq<char>, ParamValueView>,
    undefined: Seq<Seq<char>>,
    error: Option<FillErrorView<E>>,
) -> FillState<E> {
    FillState { consistent, values, undefined, error }
}

/// Handling the placeholder `p` in the state `st`, with the outside
/// outcomes `o`: the variable is read from `p` (a string default rendered
/// to `o.first`); a variable that already has a value is left as it is;
/// otherwise its string default is expanded (to `o.second`), and the
/// variable takes the provider's answer (`o.provided`, for the variable as
/// expanded) or, when `silent`, its default, or else is undefined.
pub open spec fn fill_step<F, E>(p: TomlMap, st: FillState<E>, silent: bool, o: FillOutcome<E>, provider: F) -> FillState<E>
    where F: Fn(&TemplateSlots) -> Result<ParamValue, E>
{
    let c1 = st.consistent && slot_render_fits(p@, table_text(p), st.values, o.first);
    match spec_placeholder_slot(p@, table_text(p), o.first) {
        Err(e) => fill_state(c1, st.values, st.undefined, Some(FillErrorView::Conversion(e))),
        Ok(sv) =>
            if st.values.contains_key(sv.var_name) {
                fill_state(c1, st.values, st.undefined, st.error)
            } else {
                let c2 = c1 && info_render_fits(sv.var_info, st.values, o.second);
                match spec_render_default(sv.var_info, o.second) {
                    Err(m) => fill_state(c2, st.values, st.undefined, Some(FillErrorView::Render(m))),
                    Ok(info) => {
                        let slot = TemplateSlotsView { var_name: sv.var_name, var_info: info, prompt: sv.prompt };
                        if !silent {
                            let c3 = c2 && exists|s: TemplateSlots|
                                s@ == slot && #[trigger] call_ensures(provider, (&s,), o.provided);
                            match o.provided {
                                Ok(v) => fill_state(c3, st.values.insert(sv.var_name, v@), st.undefined, st.error),
                                Err(e) => fill_state(c3, st.values, st.undefined, Some(FillErrorView::Provider(e))),
                            }
                        } else {
                            match info {
                                VarInfoView::Bool { default: Some(b) } =>
                                    fill_state(c2, st.values.insert(sv.var_name, ParamValueView::Bool(b)), st.undefined, st.error),
                                VarInfoView::String { default: Some(t), .. } =>
                                    fill_state(c2, st.values.insert(sv.var_name, ParamValueView::String(t)), st.undefined, st.error),
                                _ => fill_state(c2, st.values, st.undefined.push(sv.var_name), st.error),
                            }
                        }
                    },
                }
            }
    }
}

/// In silent mode, a variable that has no value yet and whose placeholder
/// has a string default takes that default expanded as a template with the
/// values so far (and expanded once more as the variable's default, with
/// the same values); it is not left undefined.
pub proof fn lemma_silent_fill_takes_expanded_default<F, E>(
    p: TomlMap,
    st: FillState<E>,
    o: FillOutcome<E>,
    provider: F,
)
    where F: Fn(&TemplateSlots) -> Result<ParamValue, E>,
    requires
        !st.values.contains_key(placeholder_name(p@)),
        table_get(p@, "default"@) matches Some(TomlValue::String(_)),
        fill_step(p, st, true, o, provider).error is None,
    ensures
        o.first is Ok,
        o.second is Ok,
        fill_step(p, st, true, o, provider).values
            == st.values.insert(placeholder_name(p@), ParamValueView::String(o.second->Ok_0)),
        fill_step(p, st, true, o, provider).undefined == st.undefined,
        fill_step(p, st, true, o, provider).consistent ==> {
            &&& renders_consistently(default_template(table_get(p@, "default"@)), st.values, o.first)
            &&& renders_consistently(o.first->Ok_0, st.values, o.second)
        },
{
    let dump = table_text(p);
    let sv = spec_placeholder_slot(p@, dump, o.first)->Ok_0;
    lemma_slot_agrees(p@, dump, o.first);
    let key = placeholder_name(p@);
    let t = spec_extract_type(key, table_get(p@, "type"@))->Ok_0;
    let re = spec_extract_regex(key, t, table_get(p@, "regex"@))->Ok_0;
    let cs = spec_extract_choices(key, t, re, table_get(p@, "choices"@))->Ok_0;
    let other: Result<Seq<char>, Seq<char>> = Err(Seq::<char>::empty());
    assert(spec_extract_default(key, t, re, table_get(p@, "default"@), cs, other) is Err);
    assert(spec_placeholder_slot(p@, dump, other) is Err);
    assert(spec_render_default(sv.var_info, other) is Err);
}

/// Filling the values `values` from the first `outs.len()` placeholders of
/// `ps`, with the outside outcomes `outs`; filling stops at the first error.
pub open spec fn fill_run<F, E>(
    ps: Seq<TomlMap>,
    values: Map<Seq<char>, ParamValueView>,
    silent: bool,
    outs: Seq<FillOutcome<E>>,
    provider: F,
) -> FillState<E>
    where F: Fn(&TemplateSlots) -> Result<ParamValue, E>
    decreases outs.len(),
{
    if outs.len() == 0 {
        fill_state(true, values, Seq::empty(), None)
    } else {
        let st = fill_run(ps, values, silent, outs.drop_last(), provider);
        if st.error is Some {
            st
        } else {
            fill_step(ps[outs.len() - 1], st, silent, outs.last(), provider)
        }
    }
}

/// Filling one more placeholder is one more step, while no error stopped it.
proof fn lemma_fill_run_push<F, E>(
    ps: Seq<TomlMap>,
    values: Map<Seq<char>, ParamValueView>,
    silent: bool,
    outs: Seq<FillOutcome<E>>,
    o: FillOutcome<E>,
    provider: F,
)
    where F: Fn(&TemplateSlots) -> Result<ParamValue, E>
    requires
        fill_run(ps, values, silent, outs, provider).error is None,
    ensures
        fill_run(ps, values, silent, outs.push(o), provider)
            == fill_step(ps[outs.len() as int], fill_run(ps, values, silent, outs, provider), silent, o, provider),
{
    assert(outs.push(o).drop_last() =~= outs);
}

/// Whether filling from `ps` with the outside outcomes `outs` gives the
/// values `after` and the result `res`.
pub open spec fn fill_matches<F, E>(
    ps: Seq<TomlMap>,
    before: Map<Seq<char>, ParamValueView>,
    silent: bool,
    outs: Seq<FillOutcome<E>>,
    provider: F,
    after: Map<Seq<char>, ParamValueView>,
    res: Result<Vec<String>, FillError<E>>,
) -> bool
    where F: Fn(&TemplateSlots) -> Result<ParamValue, E>
{
    let run = fill_run(ps, before, silent, outs, provider);
    &&& outs.len() <= ps.len()
    &&& run.consistent
    &&& run.values == after
    &&& match res {
        Ok(u) => outs.len() == ps.len() && run.error is None && run.undefined == strings_view(u@),
        Err(e) => run.error == Some(fill_error_view(e)),
    }
}

/// Determines the value of every template variable of `config`:
/// - where `values` already holds a value for it, that value stays;
/// - otherwise, when `silent`, its default (a string default expanded as a
///   template with `values`), if it has one;
/// - otherwise, when not `silent`, what `value_provider` gives for it.
///
/// Returns the names of the variables that are left without a value.
#[verifier::loop_isolation(false)]
pub fn fill_project_variables<F, E>(
    config: &Config,
    values: &mut ParamMap,
    renderer: &handlebars::Handlebars<'_>,
    silent: bool,
    value_provider: F,
) -> (res: Result<Vec<String>, FillError<E>>)
    where
        F: Fn(&TemplateSlots) -> Result<ParamValue, E>,
    requires
        forall|s: &TemplateSlots| #[trigger] value_provider.requires((s,)),
    ensures
        forall|k: Seq<char>| #[trigger] old(values)@.contains_key(k) ==>
            final(values)@.contains_key(k) && final(values)@[k] == old(values)@[k],
        res matches Ok(undefined) ==> filled::<F, E>(
            placeholder_views(config.placeholders@),
            old(values)@,
            final(values)@,
            strings_view(undefined@),
            silent,
            value_provider,
        ),
        res matches Err(FillError::Provider(e)) ==> provider_may_fail::<F, E>(value_provider, e),
        exists|outs: Seq<FillOutcome<E>>| #[trigger] fill_matches::<F, E>(
            config.placeholders@,
            params_view(old(values)@),
            silent,
            outs,
            value_provider,
            params_view(final(values)@),
            res,
        ),
{
    let mut undefined: Vec<String> = Vec::new();
    let ghost before = values@;
    let ghost v0 = params_view(values@);
    let ghost cps = config.placeholders@;
    let ghost mut outs: Seq<FillOutcome<E>> = Seq::empty();
    assert(strings_view(undefined@) =~= Seq::<Seq<char>>::empty());
    let ghost ps = placeholder_views(config.placeholders@);
    let n = config.placeholders.len();
    for i in 0..n
        invariant
            n == config.placeholders@.len(),
            ps == placeholder_views(config.placeholders@),
            forall|s: &TemplateSlots| #[trigger] value_provider.requires((s,)),
            filled::<F, E>(ps.take(i as int), before, values@, strings_view(undefined@), silent, value_provider),
            outs.len() == i,
            cps == config.placeholders@,
            v0 == params_view(before),
            fill_run(cps, v0, silent, outs, value_provider)
                == fill_state::<E>(true, params_view(values@), strings_view(undefined@), None),
    {
        let ghost vals_i = values@;
        let ghost und_i = strings_view(undefined@);
        let ghost st = fill_run(cps, v0, silent, outs, value_provider);
        let placeholder = &config.placeholders[i];
        assert(cps[i as int] == *placeholder);
        let slot_res = try_placeholder_into_slot(placeholder, values, renderer);
        let ghost r1 = choose|rendered: Result<Seq<char>, Seq<char>>|
            slot_render_fits(placeholder@, table_text(*placeholder), params_view(values@), rendered)
            && #[trigger] spec_placeholder_slot(placeholder@, table_text(*placeholder), rendered)
            == match slot_res {
                Ok(s) => Ok::<TemplateSlotsView, ConversionErrorView>(s@),
                Err(e) => Err::<TemplateSlotsView, ConversionErrorView>(e@),
            };
        let ghost o1 = FillOutcome::<E> { first: r1, second: arbitrary(), provided: arbitrary() };
        let slot = match slot_res {
            Ok(s) => s,
            Err(e) => {
                let err = FillError::Conversion(e);
                proof {
                    lemma_fill_run_push(cps, v0, silent, outs, o1, value_provider);
                    assert(fill_matches::<F, E>(cps, v0, silent, outs.push(o1), value_provider,
                        params_view(values@), Err::<Vec<String>, FillError<E>>(err)));
                }
                return Err(err);
            },
        };
        let ghost sv = slot@;
        assert(ps[i as int] == placeholder@);
        let key = slot.var_name.clone();
        if values.contains_key(key.as_str()) {
            proof {
                lemma_fill_run_push(cps, v0, silent, outs, o1, value_provider);
                outs = outs.push(o1);
            }
        } else {
            let slot2_res = expand_slot_default(slot, values, renderer);
            let ghost r2 = choose|rendered: Result<Seq<char>, Seq<char>>|
                info_render_fits(sv.var_info, params_view(values@), rendered)
                && #[trigger] spec_render_default(sv.var_info, rendered) == slot_info_result_view(slot2_res);
            let ghost o2 = FillOutcome::<E> { first: r1, second: r2, provided: arbitrary() };
            let slot = match slot2_res {
                Ok(s) => s,
                Err(m) => {
                    let err = FillError::Render(m);
                    proof {
                        lemma_fill_run_push(cps, v0, silent, outs, o2, value_provider);
                        assert(fill_matches::<F, E>(cps, v0, silent, outs.push(o2), value_provider,
                            params_view(values@), Err::<Vec<String>, FillError<E>>(err)));
                    }
                    return Err(err);
                },
            };
            assert(slot@ == TemplateSlotsView { var_name: sv.var_name, var_info: slot@.var_info, prompt: sv.prompt });
            if !silent {
                let provided = value_provider(&slot);
                let ghost o3 = FillOutcome::<E> { first: r1, second: r2, provided: provided };
                proof {
                    lemma_fill_run_push(cps, v0, silent, outs, o3, value_provider);
                    assert(call_ensures(value_provider, (&slot,), provided));
                }
                let value = match provided {
                    Ok(v) => v,
                    Err(e) => {
                        assert(call_ensures(value_provider, (&slot,), Err::<ParamValue, E>(e)));
                        assert(provider_may_fail::<F, E>(value_provider, e));
                        let err = FillError::Provider(e);
                        proof {
                            assert(fill_matches::<F, E>(cps, v0, silent, outs.push(o3), value_provider,
                                params_view(values@), Err::<Vec<String>, FillError<E>>(err)));
                        }
                        return Err(err);
                    },
                };
                assert(call_ensures(value_provider, (&slot,), Ok::<ParamValue, E>(value)));
                assert(ps.take(i + 1)[i as int] == ps[i as int]);
                let ghost vbefore = values@;
                values.insert(key, value);
                proof {
                    assert(params_view(values@) =~= params_view(vbefore).insert(key@, value@));
                    outs = outs.push(o3);
                }
                assert(value_origin::<F, E>(ps.take(i + 1), key@, values@[key@], silent, value_provider));
            } else {
                proof {
                    lemma_fill_run_push(cps, v0, silent, outs, o2, value_provider);
                }
                let ghost vbefore = values@;
                match &slot.var_info {
                    VarInfo::Bool { default: Some(b) } => {
                        values.insert(key, ParamValue::Bool(*b));
                        assert(ps.take(i + 1)[i as int] == ps[i as int]);
                        assert(value_origin::<F, E>(ps.take(i + 1), key@, values@[key@], silent, value_provider));
                        assert(params_view(values@) =~= params_view(vbefore).insert(key@, ParamValueView::Bool(*b)));
                    },
                    VarInfo::String { entry: StringEntry { default: Some(s), .. } } => {
                        values.insert(key, ParamValue::String(s.clone()));
                        assert(ps.take(i + 1)[i as int] == ps[i as int]);
                        assert(value_origin::<F, E>(ps.take(i + 1), key@, values@[key@], silent, value_provider));
                        assert(params_view(values@) =~= params_view(vbefore).insert(key@, ParamValueView::String(s@)));
                    },
                    _ => {
                        let ghost und0 = strings_view(undefined@);
                        undefined.push(key);
                        assert(strings_view(undefined@) =~= und0.push(key@));
                        assert(strings_view(undefined@)[und0.len() as int] == key@);
                    },
                }
                proof {
                    outs = outs.push(o2);
                }
            }
        }
        proof {
            lemma_filled_extend::<F, E>(ps, i as int, before, vals_i, values@, und_i, strings_view(undefined@), silent, value_provider);
        }
    }
    assert(ps.take(n as int) =~= ps);
    assert(fill_matches::<F, E>(cps, v0, silent, outs, value_provider,
        params_view(values@), Ok::<Vec<String>, FillError<E>>(undefined)));
    Ok(undefined)
}

} // verus!
