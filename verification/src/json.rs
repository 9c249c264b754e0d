//! The JSON text the service writes: numbers, strings, arrays and objects.

use vstd::prelude::*;
use vstd::string::*;

verus! {

/// The JSON string literal, quotes included, that serde_json writes for a
/// text.
pub uninterp spec fn json_string(text: Seq<char>) -> Seq<char>;

/// `serde_json::Error`, which is carried through and never looked into.
#[verifier::external_type_specification]
#[verifier::external_body]
pub struct ExJsonError(serde_json::Error);

/// `serde_json::to_string` on a `str`. The contract names the outcome
/// `json_string` and claims that the call succeeds: writing a `str` goes
/// through `Serializer::serialize_str` into a `Vec<u8>`, which has no way to
/// fail, and the bytes written depend on the text alone.
#[verifier::external_body]
fn to_json_string(text: &str) -> (r: Result<String, serde_json::Error>)
    ensures
        r is Ok,
        r matches Ok(t) ==> t@ == json_string(text@),
{
    serde_json::to_string(text)
}

/// The decimal digit for a number below ten.
pub open spec fn digit(d: int) -> char {
    if d == 0 {
        '0'
    } else if d == 1 {
        '1'
    } else if d == 2 {
        '2'
    } else if d == 3 {
        '3'
    } else if d == 4 {
        '4'
    } else if d == 5 {
        '5'
    } else if d == 6 {
        '6'
    } else if d == 7 {
        '7'
    } else if d == 8 {
        '8'
    } else {
        '9'
    }
}

/// A natural number in decimal, without leading zeros.
pub open spec fn digits(n: nat) -> Seq<char>
    decreases n,
{
    if n < 10 {
        seq![digit(n as int)]
    } else {
        digits(n / 10).push(digit((n % 10) as int))
    }
}

/// An integer in decimal, with a minus sign where it is negative.
pub open spec fn decimal(n: int) -> Seq<char> {
    if n < 0 {
        seq!['-'] + digits((-n) as nat)
    } else {
        digits(n as nat)
    }
}

/// Items separated by commas.
pub open spec fn joined(items: Seq<Seq<char>>) -> Seq<char>
    decreases items.len(),
{
    if items.len() == 0 {
        Seq::empty()
    } else if items.len() == 1 {
        items[0]
    } else {
        joined(items.drop_last()) + seq![','] + items.last()
    }
}

/// A JSON array of items that are JSON texts already.
pub open spec fn array_of(items: Seq<Seq<char>>) -> Seq<char> {
    seq!['['] + joined(items) + seq![']']
}

/// One member of a JSON object: the key, a colon, the value. Both are JSON
/// texts already.
pub open spec fn member_of(pair: (Seq<char>, Seq<char>)) -> Seq<char> {
    pair.0 + seq![':'] + pair.1
}

/// A JSON object of the given members, in order.
pub open spec fn object_of(members: Seq<(Seq<char>, Seq<char>)>) -> Seq<char> {
    seq!['{'] + joined(members.map_values(|pair: (Seq<char>, Seq<char>)| member_of(pair)))
        + seq!['}']
}

fn digit_text(d: u64) -> (s: &'static str)
    requires
        d < 10,
    ensures
        s@ == seq![digit(d as int)],
{
    proof {
        reveal_strlit("0");
        reveal_strlit("1");
        reveal_strlit("2");
        reveal_strlit("3");
        reveal_strlit("4");
        reveal_strlit("5");
        reveal_strlit("6");
        reveal_strlit("7");
        reveal_strlit("8");
        reveal_strlit("9");
    }
    if d == 0 {
        "0"
    } else if d == 1 {
        "1"
    } else if d == 2 {
        "2"
    } else if d == 3 {
        "3"
    } else if d == 4 {
        "4"
    } else if d == 5 {
        "5"
    } else if d == 6 {
        "6"
    } else if d == 7 {
        "7"
    } else if d == 8 {
        "8"
    } else {
        "9"
    }
}

fn push_digits(out: &mut String, n: u64)
    ensures
        final(out)@ == old(out)@ + digits(n as nat),
    decreases n,
{
    if n >= 10 {
        push_digits(out, n / 10);
    }
    out.append(digit_text(n % 10));
}

/// Appends an integer in decimal.
pub fn push_number(out: &mut String, n: i32)
    ensures
        final(out)@ == old(out)@ + decimal(n as int),
{
    if n < 0 {
        proof {
            reveal_strlit("-");
        }
        out.append("-");
        let magnitude: u64 = (-(n as i64)) as u64;
        push_digits(out, magnitude);
    } else {
        push_digits(out, n as u64);
    }
}

/// An integer as JSON text.
pub fn number(n: i32) -> (r: String)
    ensures
        r@ == decimal(n as int),
{
    let mut out = String::new();
    push_number(&mut out, n);
    out
}

/// A text as a JSON string literal.
pub fn string(text: &str) -> (r: String)
    ensures
        r@ == json_string(text@),
{
    match to_json_string(text) {
        Ok(t) => t,
        Err(_) => vstd::pervasive::unreached(),
    }
}

/// The JSON array whose elements are the given JSON texts, in order.
pub fn array(items: &Vec<String>) -> (r: String)
    ensures
        r@ == array_of(items.deep_view()),
{
    proof {
        reveal_strlit("[");
        reveal_strlit("]");
    }
    let ghost all = items.deep_view();
    let mut out = String::from_str("[");
    let mut i: usize = 0;
    while i < items.len()
        invariant
            i <= items.len(),
            all == items.deep_view(),
            out@ == seq!['['] + joined(all.take(i as int)),
        decreases items.len() - i,
    {
        if i > 0 {
            proof {
                reveal_strlit(",");
            }
            out.append(",");
        }
        out.append(items[i].as_str());
        proof {
            let prev = all.take(i as int);
            let next = all.take(i + 1);
            assert(next.drop_last() =~= prev);
            assert(next.last() == items[i as int]@);
            if i == 0 {
                assert(joined(prev) =~= Seq::<char>::empty());
                assert(joined(next) == next[0]);
            } else {
                assert(joined(next) == joined(prev) + seq![','] + next.last());
            }
            assert(out@ =~= seq!['['] + joined(next));
        }
        i += 1;
    }
    proof {
        assert(all.take(i as int) == all);
    }
    out.append("]");
    out
}

/// The JSON object with the given members, in order. Each member is a key
/// and a value, both JSON texts already.
pub fn object(members: &Vec<(String, String)>) -> (r: String)
    ensures
        r@ == object_of(members.deep_view()),
{
    proof {
        reveal_strlit("{");
        reveal_strlit("}");
    }
    let ghost all = members.deep_view().map_values(
        |pair: (Seq<char>, Seq<char>)| member_of(pair),
    );
    let mut out = String::from_str("{");
    let mut i: usize = 0;
    while i < members.len()
        invariant
            i <= members.len(),
            all == members.deep_view().map_values(
                |pair: (Seq<char>, Seq<char>)| member_of(pair),
            ),
            out@ == seq!['{'] + joined(all.take(i as int)),
        decreases members.len() - i,
    {
        if i > 0 {
            proof {
                reveal_strlit(",");
            }
            out.append(",");
        }
        proof {
            reveal_strlit(":");
        }
        out.append(members[i].0.as_str());
        out.append(":");
        out.append(members[i].1.as_str());
        proof {
            let prev = all.take(i as int);
            let next = all.take(i + 1);
            assert(next.drop_last() =~= prev);
            assert(members.deep_view()[i as int] == (members[i as int].0@, members[i as int].1@));
            assert(next.last() =~= members[i as int].0@ + seq![':'] + members[i as int].1@);
            if i == 0 {
                assert(joined(prev) =~= Seq::<char>::empty());
                assert(joined(next) == next[0]);
            } else {
                assert(joined(next) == joined(prev) + seq![','] + next.last());
            }
            assert(out@ =~= seq!['{'] + joined(next));
        }
        i += 1;
    }
    proof {
        assert(all.take(i as int) == all);
    }
    out.append("}");
    out
}

} // verus!
