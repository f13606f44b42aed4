use vstd::prelude::*;
use vstd::string::*;
use vstd::utf8::*;

verus! {

/// Whether two string slices hold the same characters, decided on their
/// UTF-8 bytes.
pub fn str_eq(a: &str, b: &str) -> (r: bool)
    ensures
        r == (a@ == b@),
{
    let ab = a.as_bytes();
    let bb = b.as_bytes();
    proof {
        encode_utf8_decode_utf8(a@);
        encode_utf8_decode_utf8(b@);
    }
    if ab.len() != bb.len() {
        return false;
    }
    let mut i: usize = 0;
    while i < ab.len()
        invariant
            ab@ == encode_utf8(a@),
            bb@ == encode_utf8(b@),
            ab@.len() == bb@.len(),
            i <= ab@.len(),
            forall|j: int| 0 <= j < i ==> ab@[j] == bb@[j],
        decreases ab@.len() - i,
    {
        if ab[i] != bb[i] {
            return false;
        }
        i = i + 1;
    }
    assert(ab@ =~= bb@);
    true
}

/// `v` between double quotes, taken verbatim.
pub open spec fn quoted(v: Seq<char>) -> Seq<char> {
    seq!['"'] + v + seq!['"']
}

/// The parts one after another, with `sep` between each two of them.
pub open spec fn joined(parts: Seq<Seq<char>>, sep: Seq<char>) -> Seq<char>
    decreases parts.len(),
{
    if parts.len() == 0 {
        Seq::empty()
    } else if parts.len() == 1 {
        parts[0]
    } else {
        joined(parts.drop_last(), sep) + sep + parts.last()
    }
}

/// The literal form of a value set: each value quoted, joined by `", "`.
pub open spec fn value_list(values: Seq<Seq<char>>) -> Seq<char> {
    joined(values.map_values(|v: Seq<char>| quoted(v)), seq![',', ' '])
}

/// Adding a value to a non-empty value set adds `", "` and the quoted value
/// at the end of its literal form, and nothing else.
pub proof fn lemma_value_list_push(values: Seq<Seq<char>>, v: Seq<char>)
    requires
        values.len() > 0,
    ensures
        value_list(values.push(v)) == value_list(values) + seq![',', ' '] + quoted(v),
{
    let qs = values.push(v).map_values(|w: Seq<char>| quoted(w));
    assert(qs.drop_last() =~= values.map_values(|w: Seq<char>| quoted(w)));
}

/// The literal form of a non-empty value set begins and ends with a double
/// quote: it never ends with a separator.
pub proof fn lemma_value_list_quoted_ends(values: Seq<Seq<char>>)
    requires
        values.len() > 0,
    ensures
        value_list(values).len() >= 2,
        value_list(values)[0] == '"',
        value_list(values).last() == '"',
    decreases values.len(),
{
    if values.len() > 1 {
        let rest = values.drop_last();
        lemma_value_list_quoted_ends(rest);
        lemma_value_list_push(rest, values.last());
        assert(rest.push(values.last()) =~= values);
    }
}

/// Whether `v` is one of `values`.
pub fn contains_str(values: &[&str], v: &str) -> (r: bool)
    ensures
        r == values.deep_view().contains(v@),
{
    let mut i: usize = 0;
    while i < values.len()
        invariant
            i <= values@.len(),
            forall|j: int| 0 <= j < i ==> values@[j]@ != v@,
        decreases values@.len() - i,
    {
        if str_eq(values[i], v) {
            assert(values.deep_view()[i as int] == v@);
            return true;
        }
        i = i + 1;
    }
    assert(!values.deep_view().contains(v@)) by {
        if values.deep_view().contains(v@) {
            let k = choose|k: int| 0 <= k < values.deep_view().len() && values.deep_view()[k] == v@;
            assert(values@[k]@ == v@);
        }
    }
    false
}

/// Relies on std's `String::with_capacity`: the new string is empty.
#[verifier::external_body]
fn string_with_capacity(capacity: usize) -> (r: String)
    ensures
        r@ == Seq::<char>::empty(),
{
    String::with_capacity(capacity)
}

/// The number of UTF-8 bytes in the literal form of `values`: each value's
/// bytes, two quotes per value and two bytes per separator.
pub open spec fn value_list_byte_len(values: Seq<&str>) -> int
    decreases values.len(),
{
    if values.len() == 0 {
        0
    } else {
        let sep: int = if values.len() > 1 { 2 } else { 0 };
        value_list_byte_len(values.drop_last()) + sep + values.last().len() + 2
    }
}

/// `n`, or `usize::MAX` where `n` is larger.
pub open spec fn saturated(n: int) -> int {
    if n > usize::MAX {
        usize::MAX as int
    } else {
        n
    }
}

/// The capacity to reserve for the literal form of `values`: its length in
/// bytes, saturated at `usize::MAX`.
fn value_list_capacity(values: &[&str]) -> (r: usize)
    ensures
        r == saturated(value_list_byte_len(values@)),
{
    let mut total: usize = 0;
    let mut i: usize = 0;
    while i < values.len()
        invariant
            i <= values@.len(),
            total == saturated(value_list_byte_len(values@.subrange(0, i as int))),
        decreases values@.len() - i,
    {
        assert(values@.subrange(0, i + 1).drop_last() =~= values@.subrange(0, i as int));
        assert(values@.subrange(0, i + 1).last() == values@[i as int]);
        if i > 0 {
            total = total.saturating_add(2);
        }
        total = total.saturating_add(values[i].len()).saturating_add(2);
        i = i + 1;
    }
    assert(values@.subrange(0, values@.len() as int) =~= values@);
    total
}

/// Renders `values` as the literal of a value set: each value between double
/// quotes, with `", "` between them and none after the last.
pub fn list_to_value_str(values: &[&str]) -> (r: String)
    ensures
        r@ == value_list(values.deep_view()),
{
    let ghost vs = values.deep_view();
    let ghost qs = vs.map_values(|v: Seq<char>| quoted(v));
    let sep = ", ";
    let quote = "\"";
    proof {
        reveal_strlit(", ");
        reveal_strlit("\"");
    }
    let mut out = string_with_capacity(value_list_capacity(values));
    let mut i: usize = 0;
    while i < values.len()
        invariant
            i <= values@.len(),
            vs == values.deep_view(),
            qs == vs.map_values(|v: Seq<char>| quoted(v)),
            sep@ == seq![',', ' '],
            quote@ == seq!['"'],
            out@ == joined(qs.subrange(0, i as int), seq![',', ' ']),
        decreases values@.len() - i,
    {
        assert(qs.subrange(0, i + 1).drop_last() =~= qs.subrange(0, i as int));
        if i > 0 {
            out.append(sep);
        }
        out.append(quote);
        out.append(values[i]);
        out.append(quote);
        assert(out@ == joined(qs.subrange(0, i + 1), seq![',', ' ']));
        i = i + 1;
    }
    assert(qs.subrange(0, values@.len() as int) =~= qs);
    out
}

} // verus!
