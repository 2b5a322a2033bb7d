//! The debug text of a configuration table, as `{:?}` writes a TOML table:
//! `{"key": String("text"), "n": Integer(3)}`. A string is written as
//! `{:?}` writes a `str`: in double quotes, with quotes, backslashes and
//! ASCII control characters escaped, and a character outside ASCII written
//! as `char::escape_debug` writes it (the two differ only for the single
//! quote, which a `str` keeps as it is).

use vstd::prelude::*;
use vstd::string::{StrSliceExecFns, StringExecFns};
use crate::str_map::StrMap;
use crate::text::str_eq;
use crate::toml_value::TomlValue;

verus! {

/// The digits used in decimal and hexadecimal text.
pub const DIGITS: &'static str = "0123456789abcdef";

/// The digit for `d` (below 16).
pub open spec fn digit(d: int) -> Seq<char> {
    DIGITS@.subrange(d, d + 1)
}

/// The decimal text of `n`.
pub open spec fn nat_text(n: nat) -> Seq<char>
    decreases n,
{
    if n < 10 {
        digit(n as int)
    } else {
        nat_text(n / 10) + digit((n % 10) as int)
    }
}

/// The decimal text of `i`, with a minus sign where it is negative.
pub open spec fn int_text(i: int) -> Seq<char> {
    if i < 0 {
        "-"@ + nat_text((-i) as nat)
    } else {
        nat_text(i as nat)
    }
}

/// What `char::escape_debug` yields for `c`.
pub uninterp spec fn debug_escape(c: char) -> Seq<char>;

/// Calls `char::escape_debug` on `c` and collects what it yields: `c` as it
/// is, or an escape such as `\u{a0}` where `c` is not printable or extends
/// a grapheme. Which characters those are is decided by the Unicode tables of
/// the standard library, which are not stated here; the result is named.
#[verifier::external_body]
fn char_debug_escape(c: char) -> (res: String)
    ensures
        res@ == debug_escape(c),
{
    c.escape_debug().collect()
}

/// How a character is written inside a quoted string: quotes, backslashes
/// and ASCII control characters are escaped as `{:?}` escapes them, other
/// ASCII characters are written as they are, and a character outside ASCII
/// is written as `char::escape_debug` writes it.
pub open spec fn escaped_char(c: char) -> Seq<char> {
    if c == '\0' {
        "\\0"@
    } else if c == '\t' {
        "\\t"@
    } else if c == '\r' {
        "\\r"@
    } else if c == '\n' {
        "\\n"@
    } else if c == '\\' {
        "\\\\"@
    } else if c == '"' {
        "\\\""@
    } else if (c as u32) < 0x20 || (c as u32) == 0x7f {
        let n = c as u32 as int;
        "\\u{"@ + (if n < 16 { digit(n) } else { digit(n / 16) + digit(n % 16) }) + "}"@
    } else if (c as u32) >= 0x80 {
        debug_escape(c)
    } else {
        seq![c]
    }
}

/// The characters of `s`, each written as inside a quoted string.
pub open spec fn escaped(s: Seq<char>) -> Seq<char>
    decreases s.len(),
{
    if s.len() == 0 {
        Seq::empty()
    } else {
        escaped(s.drop_last()) + escaped_char(s.last())
    }
}

/// `s` as a quoted string.
pub open spec fn quoted(s: Seq<char>) -> Seq<char> {
    "\""@ + escaped(s) + "\""@
}

/// The debug text of a value.
pub open spec fn value_text(v: TomlValue) -> Seq<char>
    decreases v,
{
    match v {
        TomlValue::String(s) => "String("@ + quoted(s@) + ")"@,
        TomlValue::Integer(i) => "Integer("@ + int_text(i as int) + ")"@,
        TomlValue::Boolean(b) => "Boolean("@ + (if b { "true"@ } else { "false"@ }) + ")"@,
        TomlValue::Float(t) => "Float("@ + t@ + ")"@,
        TomlValue::Datetime(t) => "Datetime("@ + t@ + ")"@,
        TomlValue::Array(arr) => "Array(["@ + values_text(arr@) + "])"@,
        TomlValue::Table(es) => "Table({"@ + entries_text(es@) + "})"@,
    }
}

/// The debug texts of values, separated by commas.
pub open spec fn values_text(s: Seq<TomlValue>) -> Seq<char>
    decreases s,
{
    if s.len() == 0 {
        Seq::empty()
    } else if s.len() == 1 {
        value_text(s[0])
    } else {
        values_text(s.drop_last()) + ", "@ + value_text(s.last())
    }
}

/// The debug texts of the entries of a table, `"key": value`, separated by
/// commas.
pub open spec fn entries_text(s: Seq<(String, TomlValue)>) -> Seq<char>
    decreases s,
{
    if s.len() == 0 {
        Seq::empty()
    } else if s.len() == 1 {
        quoted(s[0].0@) + ": "@ + value_text(s[0].1)
    } else {
        entries_text(s.drop_last()) + ", "@ + quoted(s.last().0@) + ": "@ + value_text(s.last().1)
    }
}

/// Whether an insertion of `s` after the one at `i` has the same key.
pub open spec fn shadowed<V>(s: Seq<(String, V)>, i: int) -> bool {
    exists|j: int| i < j < s.len() && (#[trigger] s[j]).0@ == s[i].0@
}

/// The insertions among the first `k` of `s` that no later insertion of `s`
/// shadows, in order: each key once, with the value it maps to.
pub open spec fn live_entries<V>(s: Seq<(String, V)>, k: int) -> Seq<(String, V)>
    decreases k,
{
    if k <= 0 {
        Seq::empty()
    } else if shadowed(s, k - 1) {
        live_entries(s, k - 1)
    } else {
        live_entries(s, k - 1).push(s[k - 1])
    }
}

/// The debug text of a table of the configuration: each key once, with the
/// value it maps to, in the order of their last insertions.
pub open spec fn table_text(t: StrMap<TomlValue>) -> Seq<char> {
    "{"@ + entries_text(live_entries(t.entry_list(), t.entry_list().len() as int)) + "}"@
}

fn push_digit(out: &mut String, d: u32)
    requires
        d < 16,
    ensures
        final(out)@ == old(out)@ + digit(d as int),
{
    proof {
        reveal_strlit("0123456789abcdef");
    }
    let u = d as usize;
    out.append(DIGITS.substring_char(u, u + 1));
}

fn push_nat(out: &mut String, n: u64)
    ensures
        final(out)@ == old(out)@ + nat_text(n as nat),
    decreases n,
{
    if n >= 10 {
        push_nat(out, n / 10);
        push_digit(out, (n % 10) as u32);
        assert(final(out)@ =~= old(out)@ + nat_text(n as nat));
    } else {
        push_digit(out, n as u32);
    }
}

fn push_int(out: &mut String, i: i64)
    ensures
        final(out)@ == old(out)@ + int_text(i as int),
{
    if i < 0 {
        out.append("-");
        let m: u64 = (0i128 - (i as i128)) as u64;
        push_nat(out, m);
        assert(final(out)@ =~= old(out)@ + int_text(i as int));
    } else {
        push_nat(out, i as u64);
    }
}

fn push_escaped_char(out: &mut String, s: &str, k: usize)
    requires
        k < s@.len(),
        s@.len() <= usize::MAX,
    ensures
        final(out)@ == old(out)@ + escaped_char(s@[k as int]),
{
    let c = s.get_char(k);
    if c == '\0' {
        out.append("\\0");
    } else if c == '\t' {
        out.append("\\t");
    } else if c == '\r' {
        out.append("\\r");
    } else if c == '\n' {
        out.append("\\n");
    } else if c == '\\' {
        out.append("\\\\");
    } else if c == '"' {
        out.append("\\\"");
    } else if (c as u32) < 0x20 || (c as u32) == 0x7f {
        let n = c as u32;
        out.append("\\u{");
        if n < 16 {
            push_digit(out, n);
        } else {
            push_digit(out, n / 16);
            push_digit(out, n % 16);
        }
        out.append("}");
        assert(final(out)@ =~= old(out)@ + escaped_char(s@[k as int]));
    } else if (c as u32) >= 0x80 {
        let e = char_debug_escape(c);
        out.append(e.as_str());
    } else {
        let piece = s.substring_char(k, k + 1);
        assert(piece@ =~= seq![c]);
        out.append(piece);
    }
}

fn push_quoted(out: &mut String, s: &str)
    ensures
        final(out)@ == old(out)@ + quoted(s@),
{
    let ghost start = out@;
    out.append("\"");
    let n = s.unicode_len();
    let mut k: usize = 0;
    while k < n
        invariant
            n == s@.len(),
            k <= n,
            out@ == start + "\""@ + escaped(s@.take(k as int)),
        decreases n - k,
    {
        push_escaped_char(out, s, k);
        assert(s@.take(k + 1).drop_last() =~= s@.take(k as int));
        k = k + 1;
    }
    assert(s@.take(n as int) =~= s@);
    out.append("\"");
    assert(out@ =~= start + quoted(s@));
}

fn push_value(out: &mut String, v: &TomlValue)
    ensures
        final(out)@ == old(out)@ + value_text(*v),
    decreases v,
{
    let ghost start = out@;
    match v {
        TomlValue::String(s) => {
            out.append("String(");
            push_quoted(out, s.as_str());
            out.append(")");
        },
        TomlValue::Integer(i) => {
            out.append("Integer(");
            push_int(out, *i);
            out.append(")");
        },
        TomlValue::Boolean(b) => {
            out.append("Boolean(");
            if *b {
                out.append("true");
            } else {
                out.append("false");
            }
            out.append(")");
        },
        TomlValue::Float(t) => {
            out.append("Float(");
            out.append(t.as_str());
            out.append(")");
        },
        TomlValue::Datetime(t) => {
            out.append("Datetime(");
            out.append(t.as_str());
            out.append(")");
        },
        TomlValue::Array(arr) => {
            out.append("Array([");
            let n = arr.len();
            let mut k: usize = 0;
            while k < n
                invariant
                    n == arr@.len(),
                    k <= n,
                    *v == TomlValue::Array(*arr),
                    out@ == start + "Array(["@ + values_text(arr@.take(k as int)),
                decreases n - k,
            {
                assert(decreases_to!(*v => (*v)->Array_0));
                assert(decreases_to!((*v)->Array_0 => (*v)->Array_0@));
                assert(decreases_to!((*v)->Array_0@ => arr@[k as int]));
                if k > 0 {
                    out.append(", ");
                }
                push_value(out, &arr[k]);
                assert(arr@.take(k + 1).drop_last() =~= arr@.take(k as int));
                k = k + 1;
            }
            assert(arr@.take(n as int) =~= arr@);
            out.append("])");
        },
        TomlValue::Table(es) => {
            out.append("Table({");
            push_entries(out, es);
            out.append("})");
        },
    }
    assert(out@ =~= start + value_text(*v));
}

fn push_entries(out: &mut String, es: &Vec<(String, TomlValue)>)
    ensures
        final(out)@ == old(out)@ + entries_text(es@),
    decreases es,
{
    let ghost start = out@;
    let n = es.len();
    let mut k: usize = 0;
    while k < n
        invariant
            n == es@.len(),
            k <= n,
            out@ == start + entries_text(es@.take(k as int)),
        decreases n - k,
    {
        if k > 0 {
            out.append(", ");
        }
        push_quoted(out, es[k].0.as_str());
        out.append(": ");
        assert(decreases_to!(es => es@[k as int].1));
        push_value(out, &es[k].1);
        assert(es@.take(k + 1).drop_last() =~= es@.take(k as int));
        k = k + 1;
    }
    assert(es@.take(n as int) =~= es@);
}

/// Whether an insertion of `es` after the one at `k` has the same key.
fn is_shadowed<V>(es: &Vec<(String, V)>, k: usize) -> (res: bool)
    requires
        k < es@.len(),
    ensures
        res == shadowed(es@, k as int),
{
    let n = es.len();
    let mut j: usize = k + 1;
    while j < n
        invariant
            n == es@.len(),
            k < j <= n,
            forall|i: int| k < i < j ==> (#[trigger] es@[i]).0@ != es@[k as int].0@,
        decreases n - j,
    {
        if str_eq(es[j].0.as_str(), es[k].0.as_str()) {
            assert(es@[j as int].0@ == es@[k as int].0@);
            return true;
        }
        j = j + 1;
    }
    false
}

/// The debug text of a table of the configuration.
pub fn table_dump(table: &StrMap<TomlValue>) -> (res: String)
    ensures
        res@ == table_text(*table),
{
    let es = table.entries();
    let mut out = String::new();
    out.append("{");
    let n = es.len();
    let mut k: usize = 0;
    let mut written: bool = false;
    while k < n
        invariant
            n == es@.len(),
            k <= n,
            written == (live_entries(es@, k as int).len() > 0),
            out@ == "{"@ + entries_text(live_entries(es@, k as int)),
        decreases n - k,
    {
        let ghost prev = live_entries(es@, k as int);
        if !is_shadowed(es, k) {
            if written {
                out.append(", ");
            }
            push_quoted(&mut out, es[k].0.as_str());
            out.append(": ");
            push_value(&mut out, &es[k].1);
            assert(live_entries(es@, k + 1) == prev.push(es@[k as int]));
            assert(prev.push(es@[k as int]).drop_last() =~= prev);
            written = true;
        }
        k = k + 1;
    }
    out.append("}");
    assert(out@ =~= table_text(*table));
    out
}

} // verus!
