//! Canonical text building.
//!
//! Hash inputs are built by joining a stage's fields with a fixed `-`
//! delimiter in a fixed field order; record bodies frame each field with its
//! name and decimal length so the encoding is unambiguous. Both are
//! reproducible byte-for-byte: the same fields always canonicalize to the
//! same text.

use vstd::prelude::*;
use vstd::string::StrSliceExecFns;
use vstd::string::StringExecFns;

verus! {

/// The decimal digit character for a value below 10.
pub open spec fn dec_digit(n: u8) -> char
    recommends
        n < 10,
{
    crate::hashing::hex_digit(n)
}

/// Decimal rendering of a natural number, most significant digit first.
pub open spec fn dec_of(n: nat) -> Seq<char>
    decreases n,
{
    if n < 10 {
        seq![dec_digit(n as u8)]
    } else {
        dec_of(n / 10) + seq![dec_digit((n % 10) as u8)]
    }
}

fn dec_digit_str(n: u64) -> (r: &'static str)
    requires
        n < 10,
    ensures
        r@ == seq![dec_digit(n as u8)],
{
    crate::hashing::hex_digit_str(n as u8)
}

/// Render a number in decimal.
pub fn u64_to_dec(n: u64) -> (r: String)
    ensures
        r@ == dec_of(n as nat),
    decreases n,
{
    if n < 10 {
        dec_digit_str(n).to_owned()
    } else {
        let mut r = u64_to_dec(n / 10);
        r.append(dec_digit_str(n % 10));
        r
    }
}

/// The view of an optional string.
pub open spec fn opt_view(o: Option<String>) -> Option<Seq<char>> {
    match o {
        Option::None => Option::None,
        Option::Some(v) => Option::Some(v@),
    }
}

/// The views of a list of strings.
pub open spec fn string_views(items: Seq<String>) -> Seq<Seq<char>> {
    items.map_values(|s: String| s@)
}

/// How an optional field is rendered into a hash input: the debug form,
/// `None` or `Some(value)`.
pub open spec fn opt_rendered(o: Option<Seq<char>>) -> Seq<char> {
    match o {
        Option::None => "None"@,
        Option::Some(v) => "Some("@ + v + ")"@,
    }
}

/// Render an optional field for a hash input.
pub fn render_opt(o: &Option<String>) -> (r: String)
    ensures
        r@ == opt_rendered(opt_view(*o)),
{
    match o {
        Option::None => "None".to_owned(),
        Option::Some(v) => {
            let mut r = "Some(".to_owned();
            r.append(v.as_str());
            r.append(")");
            r
        },
    }
}

/// Concatenate two strings.
pub fn concat2(a: &str, b: &str) -> (r: String)
    ensures
        r@ == a@ + b@,
{
    let mut r = a.to_owned();
    r.append(b);
    r
}

/// One framed field of a record body: the field's name, its value's length
/// in decimal, and the value itself, unambiguously delimited.
pub open spec fn field_framed(name: Seq<char>, value: Seq<char>) -> Seq<char> {
    name + ":"@ + dec_of(value.len()) + ":"@ + value + "\n"@
}

/// Append one framed field to a record body under construction.
pub fn push_field(body: &mut String, name: &str, value: &str)
    ensures
        final(body)@ == old(body)@ + field_framed(name@, value@),
{
    body.append(name);
    body.append(":");
    let len = u64_to_dec(value.unicode_len() as u64);
    body.append(len.as_str());
    body.append(":");
    body.append(value);
    body.append("\n");
    proof {
        assert(body@ =~= old(body)@ + field_framed(name@, value@));
    }
}

/// Append one framed optional field to a record body.
pub fn push_opt_field(body: &mut String, name: &str, value: &Option<String>)
    ensures
        final(body)@ == old(body)@ + field_framed(name@, opt_rendered(opt_view(*value))),
{
    let rendered = render_opt(value);
    push_field(body, name, rendered.as_str());
}

/// The framed lines of a list field: one frame per element, in order, under
/// the same name.
pub open spec fn list_framed(name: Seq<char>, items: Seq<Seq<char>>) -> Seq<char>
    decreases items.len(),
{
    if items.len() == 0 {
        Seq::empty()
    } else {
        field_framed(name, items[0]) + list_framed(name, items.drop_first())
    }
}

/// A whole list field of a record body: the element count, then one framed
/// line per element.
pub open spec fn list_block(name: Seq<char>, items: Seq<Seq<char>>) -> Seq<char> {
    field_framed(name, dec_of(items.len())) + list_framed(name, items)
}

/// Append a whole framed list field to a record body.
pub fn push_list_field(body: &mut String, name: &str, items: &Vec<String>)
    ensures
        final(body)@ == old(body)@ + list_block(name@, string_views(items@)),
{
    let count = u64_to_dec(items.len() as u64);
    push_field(body, name, count.as_str());
    let n = items.len();
    let mut i: usize = 0;
    proof {
        assert(string_views(items@).skip(0) =~= string_views(items@));
    }
    while i < n
        invariant
            n == items@.len(),
            i <= n,
            body@ == old(body)@ + field_framed(name@, dec_of(string_views(items@).len()))
                + list_framed(name@, string_views(items@).take(i as int)),
        decreases n - i,
    {
        let ghost before = body@;
        let ghost taken = string_views(items@).take(i as int);
        push_field(body, name, items[i].as_str());
        proof {
            let views = string_views(items@);
            assert(views[i as int] == items@[i as int]@);
            lemma_list_framed_push(name@, taken, views[i as int]);
            assert(views.take(i as int + 1) =~= taken.push(views[i as int]));
        }
        i = i + 1;
    }
    proof {
        assert(string_views(items@).take(n as int) =~= string_views(items@));
    }
}

proof fn lemma_list_framed_push(name: Seq<char>, items: Seq<Seq<char>>, last: Seq<char>)
    ensures
        list_framed(name, items.push(last)) == list_framed(name, items) + field_framed(name, last),
    decreases items.len(),
{
    let pushed = items.push(last);
    if items.len() == 0 {
        assert(pushed.drop_first() =~= Seq::<Seq<char>>::empty());
        assert(list_framed(name, Seq::<Seq<char>>::empty()) == Seq::<char>::empty());
        assert(pushed[0] == last);
        assert(list_framed(name, pushed) =~= field_framed(name, last));
        assert(list_framed(name, items) + field_framed(name, last) =~= field_framed(name, last));
    } else {
        assert(pushed.drop_first() =~= items.drop_first().push(last));
        lemma_list_framed_push(name, items.drop_first(), last);
        assert(list_framed(name, pushed) =~= list_framed(name, items) + field_framed(name, last));
    }
}

} // verus!
