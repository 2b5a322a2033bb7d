//! The values given to template variables.

use vstd::prelude::*;
use crate::str_map::StrMap;

verus! {

#[verifier::external_type_specification]
#[verifier::external_body]
pub struct ExJsonValue(serde_json::Value);

/// The value of one template variable: a boolean or a string, as the
/// variables of a template take, or any other JSON value given by the caller,
/// which is passed on as it is.
#[derive(Debug, PartialEq)]
pub enum ParamValue {
    Bool(bool),
    String(String),
    Json(serde_json::Value),
}

/// A `ParamValue` with its string taken by its characters.
pub enum ParamValueView {
    Bool(bool),
    String(Seq<char>),
    Json(serde_json::Value),
}

impl View for ParamValue {
    type V = ParamValueView;

    open spec fn view(&self) -> ParamValueView {
        match self {
            ParamValue::Bool(b) => ParamValueView::Bool(*b),
            ParamValue::String(s) => ParamValueView::String(s@),
            ParamValue::Json(j) => ParamValueView::Json(*j),
        }
    }
}

/// The values of a map, each taken by its view.
pub open spec fn params_view(m: Map<Seq<char>, ParamValue>) -> Map<Seq<char>, ParamValueView> {
    m.map_values(|v: ParamValue| v@)
}

/// The values of the template variables, by name.
pub type ParamMap = StrMap<ParamValue>;

} // verus!
