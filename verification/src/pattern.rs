//! Regular expressions that constrain template variables.
//!
//! Compiling and matching is done by the `regex` crate; the library keeps the
//! source text of each compiled expression beside it, so that contracts can
//! speak of the expression by its text.

use vstd::prelude::*;

verus! {

#[verifier::external_type_specification]
#[verifier::external_body]
pub struct ExRegex(regex::Regex);

#[verifier::external_type_specification]
#[verifier::external_body]
pub struct ExRegexError(regex::Error);

/// Whether `regex::Regex::new` accepts `pattern`, with the crate's default
/// size limits. The size of a compiled expression is measured in bytes of
/// the machine's own data structures, so near the limit a pattern may
/// compile on one target and not on another: this names the answer on the
/// target the library runs on.
pub uninterp spec fn regex_compiles(pattern: Seq<char>) -> bool;

/// Whether the expression compiled from `pattern` matches somewhere in
/// `haystack` (`regex::Regex::is_match`).
pub uninterp spec fn regex_matches(pattern: Seq<char>, haystack: Seq<char>) -> bool;

/// Calls `regex::Regex::new`. The contract claims only that the call
/// succeeds exactly on the patterns that `regex_compiles` names; the
/// documentation of the crate says that an invalid expression, or one that
/// exceeds the default size limit, is an error, and nothing else is.
#[verifier::external_body]
fn compile_regex(pattern: &str) -> (res: Result<regex::Regex, regex::Error>)
    ensures
        res is Ok <==> regex_compiles(pattern@),
{
    regex::Regex::new(pattern)
}

/// A compiled regular expression together with its source text.
#[derive(Debug)]
pub struct VarRegex {
    pattern: String,
    compiled: regex::Regex,
}

impl View for VarRegex {
    type V = Seq<char>;

    closed spec fn view(&self) -> Seq<char> {
        self.pattern@
    }
}

impl VarRegex {
    #[verifier::type_invariant]
    closed spec fn inv(self) -> bool {
        regex_compiles(self.pattern@)
    }

    /// Compiles `pattern` (`regex::Regex::new`).
    pub fn new(pattern: &str) -> (res: Result<VarRegex, regex::Error>)
        ensures
            res is Ok <==> regex_compiles(pattern@),
            res matches Ok(r) ==> r@ == pattern@,
    {
        match compile_regex(pattern) {
            Ok(compiled) => Ok(VarRegex { pattern: pattern.to_owned(), compiled }),
            Err(e) => Err(e),
        }
    }

    /// The source text of the expression.
    pub fn as_str(&self) -> (res: &str)
        ensures
            res@ == self@,
    {
        self.pattern.as_str()
    }

    /// Whether the expression matches somewhere in `haystack`.
    pub fn is_match(&self, haystack: &str) -> (res: bool)
        ensures
            res == regex_matches(self@, haystack@),
    {
        regex_is_match(self, haystack)
    }
}

/// Calls `regex::Regex::is_match` on the compiled expression of `re`. The
/// contract claims that the answer is `regex_matches` of the text that the
/// expression was compiled from: the only constructor, `VarRegex::new`, puts
/// beside the text what `regex::Regex::new` compiled from it.
#[verifier::external_body]
fn regex_is_match(re: &VarRegex, haystack: &str) -> (res: bool)
    ensures
        res == regex_matches(re@, haystack@),
{
    re.compiled.is_match(haystack)
}

} // verus!
