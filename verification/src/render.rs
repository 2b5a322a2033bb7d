//! Expansion of template strings with the values of the template variables.

use vstd::prelude::*;
use crate::params::{params_view, ParamMap, ParamValue, ParamValueView};

verus! {

#[verifier::external_type_specification]
#[verifier::external_body]
pub struct ExHandlebars<'reg>(handlebars::Handlebars<'reg>);

/// Whether a template holds no expression: it has no `{{` and no
/// backslash, so it parses as one piece of raw text.
pub open spec fn plain_template(t: Seq<char>) -> bool {
    &&& forall|i: int| 0 <= i < t.len() - 1 ==> !(#[trigger] t[i] == '{' && t[i + 1] == '{')
    &&& forall|i: int| 0 <= i < t.len() ==> #[trigger] t[i] != '\\'
}

/// A rendering outcome, taken by its characters.
pub open spec fn rendered_view(r: Result<String, String>) -> Result<Seq<char>, Seq<char>> {
    match r {
        Ok(s) => Ok(s@),
        Err(e) => Err(e@),
    }
}

/// Whether rendering `template` with the variable values `data` can give
/// `outcome` (the rendered text, or the message of the error). This is a
/// relation and not a function: a renderer in development mode reads its
/// registered template files again on every call, so what a call gives
/// depends also on what those files hold at that moment.
pub uninterp spec fn rendered_from(
    template: Seq<char>,
    data: Map<Seq<char>, ParamValueView>,
    outcome: Result<Seq<char>, Seq<char>>,
) -> bool;

/// Whether `rendered` can be what rendering `template` with `data` gives:
/// an outcome of that rendering, where a template without expressions that
/// renders at all renders to itself.
pub open spec fn renders_consistently(
    template: Seq<char>,
    data: Map<Seq<char>, ParamValueView>,
    rendered: Result<Seq<char>, Seq<char>>,
) -> bool {
    &&& rendered_from(template, data, rendered)
    &&& plain_template(template) && rendered is Ok ==> rendered == Ok::<Seq<char>, Seq<char>>(template)
}

/// Calls `handlebars::Handlebars::render_template` on `template`, with the
/// values of `values` as the data (a JSON object with an entry for each
/// name); an error is handed back as its message. What an expression
/// expands to depends on the helpers, escaping and settings registered in
/// `renderer`, which are not visible here, and in development mode the call
/// first reads every registered template file again, which can fail whatever
/// the template is. So the contract names the outcome only as one that
/// rendering `template` with these values can give (`rendered_from`), and
/// claims beyond that only what the crate's source shows of a template
/// without expressions (`grammar.pest`: text with no `{{` is one `raw_text`,
/// copied to the output as it is): where it renders, it renders to itself.
/// When such a call succeeds is not stated.
#[verifier::external_body]
pub(crate) fn render_template(renderer: &handlebars::Handlebars<'_>, template: &str, values: &ParamMap)
    -> (res: Result<String, String>)
    ensures
        rendered_from(template@, params_view(values@), rendered_view(res)),
        plain_template(template@) && res is Ok ==> res->Ok_0@ == template@,
{
    let data: serde_json::Map<String, serde_json::Value> = values.entries().iter().map(|(k, v)| (k.clone(), match v {
        ParamValue::Bool(b) => serde_json::Value::Bool(*b),
        ParamValue::String(s) => serde_json::Value::String(s.clone()),
        ParamValue::Json(j) => j.clone(),
    })).collect();
    renderer.render_template(template, &data).map_err(|e| e.to_string())
}

} // verus!
