//! The self-description document: which operations the plugin offers, each
//! with its logical name, its callable symbol and its parameter names,
//! written as a JSON array of records.

use vstd::prelude::*;
use vstd::string::*;

verus! {

/// One operation that the plugin offers.
pub struct OperationDescription {
    /// The name the host knows the operation by.
    pub name: String,
    /// The symbol the host calls.
    pub symbol: String,
    /// The parameter names, in call order.
    pub params: Vec<String>,
}

/// The mathematical form of an operation description.
pub type OperationView = (Seq<char>, Seq<char>, Seq<Seq<char>>);

/// The views of a sequence of strings.
pub open spec fn string_views(v: Seq<String>) -> Seq<Seq<char>> {
    v.map_values(|s: String| s@)
}

impl View for OperationDescription {
    type V = OperationView;

    open spec fn view(&self) -> OperationView {
        (self.name@, self.symbol@, string_views(self.params@))
    }
}

/// The views of a sequence of operation descriptions.
pub open spec fn operation_views(v: Seq<OperationDescription>) -> Seq<OperationView> {
    v.map_values(|o: OperationDescription| o@)
}

/// The hexadecimal digit for `n` in 0..16.
pub open spec fn hex_digit(n: int) -> Seq<char> {
    "0123456789abcdef"@.subrange(n, n + 1)
}

/// How one character stands inside a JSON string: quote and backslash get a
/// backslash, control characters become `\u00XX`, the rest stand as they are.
pub open spec fn escape_char(c: char) -> Seq<char> {
    if c == '"' {
        "\\\""@
    } else if c == '\\' {
        "\\\\"@
    } else if (c as u32) < 32 {
        "\\u00"@ + hex_digit((c as u32) as int / 16) + hex_digit((c as u32) as int % 16)
    } else {
        seq![c]
    }
}

/// The characters of `s`, each escaped.
pub open spec fn escaped(s: Seq<char>) -> Seq<char>
    decreases s.len(),
{
    if s.len() == 0 {
        Seq::empty()
    } else {
        escaped(s.drop_last()) + escape_char(s.last())
    }
}

/// `s` as a JSON string.
pub open spec fn quoted(s: Seq<char>) -> Seq<char> {
    "\""@ + escaped(s) + "\""@
}

/// The items, separated by commas.
pub open spec fn joined(items: Seq<Seq<char>>) -> Seq<char>
    decreases items.len(),
{
    if items.len() == 0 {
        Seq::empty()
    } else if items.len() == 1 {
        items[0]
    } else {
        joined(items.drop_last()) + ","@ + items.last()
    }
}

/// The items as a JSON array.
pub open spec fn bracketed(items: Seq<Seq<char>>) -> Seq<char> {
    "["@ + joined(items) + "]"@
}

/// Each of the strings as a JSON string.
pub open spec fn quoted_all(v: Seq<Seq<char>>) -> Seq<Seq<char>> {
    v.map_values(|s: Seq<char>| quoted(s))
}

/// One operation as a JSON record with the fields name, symbol and params.
pub open spec fn record_text(op: OperationView) -> Seq<char> {
    "{\"name\":"@ + quoted(op.0) + ",\"symbol\":"@ + quoted(op.1) + ",\"params\":"@ + bracketed(
        quoted_all(op.2),
    ) + "}"@
}

/// The document for a list of operations: a JSON array of their records.
pub open spec fn document_text(ops: Seq<OperationView>) -> Seq<char> {
    bracketed(ops.map_values(|op: OperationView| record_text(op)))
}

proof fn lemma_joined_push(items: Seq<Seq<char>>, i: int)
    requires
        0 <= i < items.len(),
    ensures
        joined(items.subrange(0, i + 1)) == if i == 0 {
            items[0]
        } else {
            joined(items.subrange(0, i)) + ","@ + items[i]
        },
{
    assert(items.subrange(0, i + 1).drop_last() =~= items.subrange(0, i));
}

/// Appends `s` to `out` as a JSON string.
fn push_quoted(out: &mut String, s: &str)
    ensures
        final(out)@ == old(out)@ + quoted(s@),
{
    let ghost start = out@;
    proof {
        reveal_strlit("0123456789abcdef");
    }
    let digits = "0123456789abcdef";
    out.append("\"");
    let n = s.unicode_len();
    let mut i: usize = 0;
    while i < n
        invariant
            0 <= i <= n,
            n == s@.len(),
            digits@ == "0123456789abcdef"@,
            digits@.len() == 16,
            out@ == start + "\""@ + escaped(s@.subrange(0, i as int)),
        decreases n - i,
    {
        let c = s.get_char(i);
        proof {
            assert(s@.subrange(0, i + 1).drop_last() =~= s@.subrange(0, i as int));
            assert(s@.subrange(0, i + 1).last() == c);
        }
        if c == '"' {
            out.append("\\\"");
        } else if c == '\\' {
            out.append("\\\\");
        } else if (c as u32) < 32 {
            let v = c as u32;
            out.append("\\u00");
            let hi = (v / 16) as usize;
            let lo = (v % 16) as usize;
            out.append(digits.substring_char(hi, hi + 1));
            out.append(digits.substring_char(lo, lo + 1));
        } else {
            let one = s.substring_char(i, i + 1);
            assert(one@ =~= seq![c]);
            out.append(one);
        }
        assert(out@ =~= start + "\""@ + escaped(s@.subrange(0, i + 1)));
        i = i + 1;
    }
    assert(s@.subrange(0, n as int) =~= s@);
    out.append("\"");
    assert(out@ =~= old(out)@ + quoted(s@));
}

/// Appends the strings of `items` to `out` as a JSON array of strings.
fn push_string_list(out: &mut String, items: &Vec<String>)
    ensures
        final(out)@ == old(out)@ + bracketed(quoted_all(string_views(items@))),
{
    let ghost start = out@;
    let ghost q = quoted_all(string_views(items@));
    out.append("[");
    let mut i: usize = 0;
    while i < items.len()
        invariant
            0 <= i <= items@.len(),
            q == quoted_all(string_views(items@)),
            q.len() == items@.len(),
            out@ == start + "["@ + joined(q.subrange(0, i as int)),
        decreases items@.len() - i,
    {
        if i > 0 {
            out.append(",");
        }
        push_quoted(out, items[i].as_str());
        proof {
            lemma_joined_push(q, i as int);
        }
        assert(out@ =~= start + "["@ + joined(q.subrange(0, i + 1)));
        i = i + 1;
    }
    assert(q.subrange(0, i as int) =~= q);
    out.append("]");
    assert(out@ =~= old(out)@ + bracketed(q));
}

/// Appends the record of `op` to `out`.
fn push_record(out: &mut String, op: &OperationDescription)
    ensures
        final(out)@ == old(out)@ + record_text(op@),
{
    let ghost start = out@;
    out.append("{\"name\":");
    push_quoted(out, op.name.as_str());
    out.append(",\"symbol\":");
    push_quoted(out, op.symbol.as_str());
    out.append(",\"params\":");
    push_string_list(out, &op.params);
    out.append("}");
    assert(out@ =~= start + record_text(op@));
}

/// The document that describes `ops`.
pub fn render_document(ops: &Vec<OperationDescription>) -> (r: String)
    ensures
        r@ == document_text(operation_views(ops@)),
{
    let ghost q = operation_views(ops@).map_values(|op: OperationView| record_text(op));
    let mut out = String::new();
    out.append("[");
    let mut i: usize = 0;
    while i < ops.len()
        invariant
            0 <= i <= ops@.len(),
            q == operation_views(ops@).map_values(|op: OperationView| record_text(op)),
            q.len() == ops@.len(),
            out@ == "["@ + joined(q.subrange(0, i as int)),
        decreases ops@.len() - i,
    {
        if i > 0 {
            out.append(",");
        }
        push_record(&mut out, &ops[i]);
        proof {
            lemma_joined_push(q, i as int);
        }
        assert(out@ =~= "["@ + joined(q.subrange(0, i + 1)));
        i = i + 1;
    }
    assert(q.subrange(0, i as int) =~= q);
    out.append("]");
    out
}

/// The operations this plugin offers: one, the clone.
pub open spec fn offered_operations() -> Seq<OperationView> {
    seq![("clone"@, "gitffi_clone"@, seq!["url"@, "path"@])]
}

/// The descriptions of the operations this plugin offers.
pub fn descriptor() -> (r: Vec<OperationDescription>)
    ensures
        operation_views(r@) == offered_operations(),
{
    let mut params: Vec<String> = Vec::new();
    params.push(String::from_str("url"));
    params.push(String::from_str("path"));
    let clone = OperationDescription {
        name: String::from_str("clone"),
        symbol: String::from_str("gitffi_clone"),
        params,
    };
    let mut ops: Vec<OperationDescription> = Vec::new();
    ops.push(clone);
    assert(string_views(ops@[0].params@) =~= seq!["url"@, "path"@]);
    assert(operation_views(ops@) =~= offered_operations());
    ops
}

/// The self-description document that the host reads at load time.
pub fn lavender_provide() -> (r: String)
    ensures
        r@ == document_text(offered_operations()),
{
    let ops = descriptor();
    render_document(&ops)
}

} // verus!
