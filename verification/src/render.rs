//! Rendering a validation error set as JSON text.
//!
//! The wire format is fixed: `{"errors":[...],"properties":{"field":{"errors":[...]},...}}`.
//! The spec functions below define that text exactly; the executable renderer
//! is proved to produce it character for character.

use vstd::prelude::*;
use crate::error_set::{ErrorSet, ErrorSetView, PropertyErrorsView, views_of_strings, wf_error_set};

verus! {

/// The lowercase hexadecimal digit for a value below sixteen.
pub open spec fn spec_hex_digit(n: u32) -> char {
    if n == 0 { '0' } else if n == 1 { '1' } else if n == 2 { '2' } else if n == 3 { '3' }
    else if n == 4 { '4' } else if n == 5 { '5' } else if n == 6 { '6' } else if n == 7 { '7' }
    else if n == 8 { '8' } else if n == 9 { '9' } else if n == 10 { 'a' } else if n == 11 { 'b' }
    else if n == 12 { 'c' } else if n == 13 { 'd' } else if n == 14 { 'e' } else { 'f' }
}

/// How one character appears inside a JSON string literal.
pub open spec fn json_escape_char(c: char) -> Seq<char> {
    if c == '"' { seq!['\\', '"'] }
    else if c == '\\' { seq!['\\', '\\'] }
    else if c == '\n' { seq!['\\', 'n'] }
    else if c == '\r' { seq!['\\', 'r'] }
    else if c == '\t' { seq!['\\', 't'] }
    else if (c as u32) < 32 {
        seq!['\\', 'u', '0', '0', spec_hex_digit((c as u32) / 16), spec_hex_digit((c as u32) % 16)]
    }
    else { seq![c] }
}

/// The body of a JSON string literal: every character escaped as JSON asks.
pub open spec fn json_escape(s: Seq<char>) -> Seq<char>
    decreases s.len(),
{
    if s.len() == 0 {
        Seq::empty()
    } else {
        json_escape(s.drop_last()) + json_escape_char(s.last())
    }
}

/// A JSON string literal, quotes included.
pub open spec fn json_string(s: Seq<char>) -> Seq<char> {
    "\""@ + json_escape(s) + "\""@
}

/// JSON string literals joined by commas.
pub open spec fn joined_strings(l: Seq<Seq<char>>) -> Seq<char>
    decreases l.len(),
{
    if l.len() == 0 {
        Seq::empty()
    } else if l.len() == 1 {
        json_string(l[0])
    } else {
        joined_strings(l.drop_last()) + ","@ + json_string(l.last())
    }
}

/// A JSON array of string literals.
pub open spec fn json_string_list(l: Seq<Seq<char>>) -> Seq<char> {
    "["@ + joined_strings(l) + "]"@
}

/// One entry of the `properties` object: the field name mapped to its messages.
pub open spec fn property_text(p: PropertyErrorsView) -> Seq<char> {
    json_string(p.name) + ":{\"errors\":"@ + json_string_list(p.errors) + "}"@
}

/// The entries of the `properties` object joined by commas.
pub open spec fn joined_properties(ps: Seq<PropertyErrorsView>) -> Seq<char>
    decreases ps.len(),
{
    if ps.len() == 0 {
        Seq::empty()
    } else if ps.len() == 1 {
        property_text(ps[0])
    } else {
        joined_properties(ps.drop_last()) + ","@ + property_text(ps.last())
    }
}

/// The complete JSON rendering of an error set.
pub open spec fn json_error_set(e: ErrorSetView) -> Seq<char> {
    "{\"errors\":"@ + json_string_list(e.errors) + ",\"properties\":{"@
        + joined_properties(e.properties) + "}}"@
}

/// Relies on std's `String::push`: appends exactly the one given character.
#[verifier::external_body]
fn push_char(out: &mut String, c: char)
    ensures
        final(out)@ == old(out)@ + seq![c],
{
    out.push(c);
}

/// The lowercase hexadecimal digit for a value below sixteen.
fn hex_digit(n: u32) -> (c: char)
    requires
        n < 16,
    ensures
        c == spec_hex_digit(n),
{
    if n == 0 { '0' } else if n == 1 { '1' } else if n == 2 { '2' } else if n == 3 { '3' }
    else if n == 4 { '4' } else if n == 5 { '5' } else if n == 6 { '6' } else if n == 7 { '7' }
    else if n == 8 { '8' } else if n == 9 { '9' } else if n == 10 { 'a' } else if n == 11 { 'b' }
    else if n == 12 { 'c' } else if n == 13 { 'd' } else if n == 14 { 'e' } else { 'f' }
}

fn append_escaped_char(out: &mut String, c: char)
    ensures
        final(out)@ == old(out)@ + json_escape_char(c),
{
    if c == '"' {
        push_char(out, '\\');
        push_char(out, '"');
        proof {
            assert(old(out)@ + seq!['\\'] + seq!['"'] =~= old(out)@ + json_escape_char(c));
        }
    } else if c == '\\' {
        push_char(out, '\\');
        push_char(out, '\\');
        proof {
            assert(old(out)@ + seq!['\\'] + seq!['\\'] =~= old(out)@ + json_escape_char(c));
        }
    } else if c == '\n' {
        push_char(out, '\\');
        push_char(out, 'n');
        proof {
            assert(old(out)@ + seq!['\\'] + seq!['n'] =~= old(out)@ + json_escape_char(c));
        }
    } else if c == '\r' {
        push_char(out, '\\');
        push_char(out, 'r');
        proof {
            assert(old(out)@ + seq!['\\'] + seq!['r'] =~= old(out)@ + json_escape_char(c));
        }
    } else if c == '\t' {
        push_char(out, '\\');
        push_char(out, 't');
        proof {
            assert(old(out)@ + seq!['\\'] + seq!['t'] =~= old(out)@ + json_escape_char(c));
        }
    } else if (c as u32) < 32 {
        let code = c as u32;
        push_char(out, '\\');
        push_char(out, 'u');
        push_char(out, '0');
        push_char(out, '0');
        push_char(out, hex_digit(code / 16));
        push_char(out, hex_digit(code % 16));
        proof {
            assert(old(out)@ + seq!['\\'] + seq!['u'] + seq!['0'] + seq!['0']
                + seq![spec_hex_digit(code / 16)] + seq![spec_hex_digit(code % 16)]
                =~= old(out)@ + json_escape_char(c));
        }
    } else {
        push_char(out, c);
    }
}

proof fn lemma_escape_snoc(s: Seq<char>, i: int)
    requires
        0 <= i < s.len(),
    ensures
        json_escape(s.take(i + 1)) == json_escape(s.take(i)) + json_escape_char(s[i]),
{
    assert(s.take(i + 1).drop_last() =~= s.take(i));
    assert(s.take(i + 1).last() == s[i]);
}

fn append_escaped(out: &mut String, s: &str)
    ensures
        final(out)@ == old(out)@ + json_escape(s@),
{
    let n = s.unicode_len();
    let mut i: usize = 0;
    while i < n
        invariant
            n == s@.len(),
            0 <= i <= n,
            out@ == old(out)@ + json_escape(s@.take(i as int)),
        decreases n - i,
    {
        let c = s.get_char(i);
        append_escaped_char(out, c);
        proof {
            lemma_escape_snoc(s@, i as int);
            assert(out@ =~= old(out)@ + json_escape(s@.take(i + 1)));
        }
        i += 1;
    }
    proof {
        assert(s@.take(n as int) =~= s@);
    }
}

fn append_json_string(out: &mut String, s: &str)
    ensures
        final(out)@ == old(out)@ + json_string(s@),
{
    out.append("\"");
    append_escaped(out, s);
    out.append("\"");
    proof {
        assert(out@ =~= old(out)@ + json_string(s@));
    }
}

proof fn lemma_joined_strings_snoc(l: Seq<Seq<char>>, i: int)
    requires
        0 <= i < l.len(),
    ensures
        joined_strings(l.take(i + 1)) == if i == 0 {
            json_string(l[0])
        } else {
            joined_strings(l.take(i)) + ","@ + json_string(l[i])
        },
{
    let t = l.take(i + 1);
    if i == 0 {
        assert(t.len() == 1);
        assert(t[0] == l[0]);
    } else {
        assert(t.drop_last() =~= l.take(i));
        assert(t.last() == l[i]);
    }
}

fn append_string_list(out: &mut String, items: &Vec<String>)
    ensures
        final(out)@ == old(out)@ + json_string_list(views_of_strings(items@)),
{
    let ghost l = views_of_strings(items@);
    out.append("[");
    let mut i: usize = 0;
    while i < items.len()
        invariant
            l == views_of_strings(items@),
            l.len() == items@.len(),
            0 <= i <= items@.len(),
            out@ == old(out)@ + "["@ + joined_strings(l.take(i as int)),
        decreases items@.len() - i,
    {
        if i > 0 {
            out.append(",");
        }
        append_json_string(out, items[i].as_str());
        proof {
            assert(l[i as int] == items@[i as int]@);
            lemma_joined_strings_snoc(l, i as int);
            assert(out@ =~= old(out)@ + "["@ + joined_strings(l.take(i + 1)));
        }
        i += 1;
    }
    out.append("]");
    proof {
        assert(l.take(l.len() as int) =~= l);
        assert(out@ =~= old(out)@ + json_string_list(l));
    }
}

proof fn lemma_joined_properties_snoc(ps: Seq<PropertyErrorsView>, i: int)
    requires
        0 <= i < ps.len(),
    ensures
        joined_properties(ps.take(i + 1)) == if i == 0 {
            property_text(ps[0])
        } else {
            joined_properties(ps.take(i)) + ","@ + property_text(ps[i])
        },
{
    let t = ps.take(i + 1);
    if i == 0 {
        assert(t.len() == 1);
        assert(t[0] == ps[0]);
    } else {
        assert(t.drop_last() =~= ps.take(i));
        assert(t.last() == ps[i]);
    }
}

impl ErrorSet {
    /// The JSON text of this error set, exactly as the wire format fixes it.
    pub fn to_json(&self) -> (r: String)
        ensures
            r@ == json_error_set(self@),
    {
        let ghost ps = self@.properties;
        let mut out = String::new();
        out.append("{\"errors\":");
        append_string_list(&mut out, &self.errors);
        out.append(",\"properties\":{");
        let ghost head = "{\"errors\":"@ + json_string_list(self@.errors) + ",\"properties\":{"@;
        proof {
            assert(out@ =~= head);
        }
        let mut i: usize = 0;
        while i < self.properties.len()
            invariant
                ps == self@.properties,
                head == "{\"errors\":"@ + json_string_list(self@.errors) + ",\"properties\":{"@,
                ps.len() == self.properties@.len(),
                0 <= i <= self.properties@.len(),
                out@ == head + joined_properties(ps.take(i as int)),
            decreases self.properties@.len() - i,
        {
            if i > 0 {
                out.append(",");
            }
            append_json_string(&mut out, self.properties[i].name.as_str());
            out.append(":{\"errors\":");
            append_string_list(&mut out, &self.properties[i].errors);
            out.append("}");
            proof {
                assert(ps[i as int] == self.properties@[i as int]@);
                lemma_joined_properties_snoc(ps, i as int);
                assert(out@ =~= head + joined_properties(ps.take(i + 1)));
            }
            i += 1;
        }
        out.append("}}");
        proof {
            assert(ps.take(ps.len() as int) =~= ps);
            assert(out@ =~= json_error_set(self@));
        }
        out
    }
}

/// Whether `sub` occurs contiguously somewhere in `s`.
pub open spec fn contains_text(s: Seq<char>, sub: Seq<char>) -> bool {
    exists|i: int| 0 <= i && i + sub.len() <= s.len() && #[trigger] s.subrange(i, i + sub.len())
        == sub
}

proof fn lemma_contains_self(s: Seq<char>)
    ensures
        contains_text(s, s),
{
    let n: int = s.len() as int;
    assert(s.subrange(0, 0 + n) =~= s);
}

proof fn lemma_contains_left(a: Seq<char>, b: Seq<char>, sub: Seq<char>)
    requires
        contains_text(a, sub),
    ensures
        contains_text(a + b, sub),
{
    let i = choose|i: int|
        0 <= i && i + sub.len() <= a.len() && #[trigger] a.subrange(i, i + sub.len()) == sub;
    assert((a + b).subrange(i, i + sub.len()) =~= a.subrange(i, i + sub.len()));
}

proof fn lemma_contains_right(a: Seq<char>, b: Seq<char>, sub: Seq<char>)
    requires
        contains_text(b, sub),
    ensures
        contains_text(a + b, sub),
{
    let i = choose|i: int|
        0 <= i && i + sub.len() <= b.len() && #[trigger] b.subrange(i, i + sub.len()) == sub;
    assert((a + b).subrange(a.len() + i, a.len() + i + sub.len()) =~= b.subrange(i, i + sub.len()));
}

proof fn lemma_joined_properties_contains(ps: Seq<PropertyErrorsView>, i: int)
    requires
        0 <= i < ps.len(),
    ensures
        contains_text(joined_properties(ps), property_text(ps[i])),
    decreases ps.len(),
{
    if ps.len() == 1 {
        lemma_contains_self(property_text(ps[0]));
    } else if i == ps.len() - 1 {
        lemma_contains_self(property_text(ps[i]));
        lemma_contains_right(
            joined_properties(ps.drop_last()) + ","@,
            property_text(ps[i]),
            property_text(ps[i]),
        );
        assert(joined_properties(ps.drop_last()) + ","@ + property_text(ps.last())
            =~= (joined_properties(ps.drop_last()) + ","@) + property_text(ps[i]));
    } else {
        lemma_joined_properties_contains(ps.drop_last(), i);
        assert(ps.drop_last()[i] == ps[i]);
        lemma_contains_left(
            joined_properties(ps.drop_last()),
            ","@ + property_text(ps.last()),
            property_text(ps[i]),
        );
        assert(joined_properties(ps.drop_last()) + ","@ + property_text(ps.last())
            =~= joined_properties(ps.drop_last()) + (","@ + property_text(ps.last())));
    }
}

/// Law: the rendered error set lists every violated field, each mapped to its
/// full, non-empty message list.
pub proof fn lemma_validation_body_lists_every_field(e: ErrorSetView, i: int)
    requires
        wf_error_set(e),
        0 <= i < e.properties.len(),
    ensures
        contains_text(json_error_set(e), property_text(e.properties[i])),
        e.properties[i].errors.len() > 0,
{
    let head = "{\"errors\":"@ + json_string_list(e.errors) + ",\"properties\":{"@;
    lemma_joined_properties_contains(e.properties, i);
    lemma_contains_right(head, joined_properties(e.properties), property_text(e.properties[i]));
    lemma_contains_left(
        head + joined_properties(e.properties),
        "}}"@,
        property_text(e.properties[i]),
    );
    assert(json_error_set(e) =~= (head + joined_properties(e.properties)) + "}}"@);
}

} // verus!
