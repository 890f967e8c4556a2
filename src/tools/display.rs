use itertools::Itertools;
use vstd::prelude::*;

verus! {

/// The texts of `items`, in order, with `sep` between each two neighbours.
pub open spec fn join_with(items: Seq<Seq<char>>, sep: Seq<char>) -> Seq<char>
    decreases items.len(),
{
    if items.len() == 0 {
        Seq::empty()
    } else if items.len() == 1 {
        items[0]
    } else {
        join_with(items.drop_last(), sep) + sep + items.last()
    }
}

/// A clause that is left out when it has no items: `keyword` followed by the items
/// joined with `sep`.
pub open spec fn clause(keyword: Seq<char>, items: Seq<Seq<char>>, sep: Seq<char>) -> Seq<char> {
    if items.len() == 0 {
        Seq::empty()
    } else {
        keyword + join_with(items, sep)
    }
}

/// The character sequences held by a sequence of strings.
pub open spec fn texts(items: Seq<String>) -> Seq<Seq<char>> {
    items.map_values(|s: String| s@)
}

/// One decimal digit, `d < 10`.
pub open spec fn digit(d: nat) -> char {
    if d == 0 {
        '0'
    } else if d == 1 {
        '1'
    } else if d == 2 {
        '2'
    } else if d == 3 {
        '3'
    } else if d == 4 {
        '4'
    } else if d == 5 {
        '5'
    } else if d == 6 {
        '6'
    } else if d == 7 {
        '7'
    } else if d == 8 {
        '8'
    } else {
        '9'
    }
}

/// The decimal notation of `n`, without leading zeros.
pub open spec fn decimal(n: nat) -> Seq<char>
    decreases n,
{
    if n < 10 {
        seq![digit(n)]
    } else {
        decimal(n / 10).push(digit(n % 10))
    }
}

/// The decimal notation of a signed integer: a minus sign before the magnitude when negative.
pub open spec fn signed_decimal(n: int) -> Seq<char> {
    if n < 0 {
        seq!['-'] + decimal((-n) as nat)
    } else {
        decimal(n as nat)
    }
}

/// Relies on itertools::Itertools::join: the `Display` text of each item (for a `String`,
/// the string itself), in order, with `sep` between each two.
#[verifier::external_body]
pub(crate) fn join_items(items: &Vec<String>, sep: &str) -> (r: String)
    ensures
        r@ == join_with(texts(items@), sep@),
{
    items.iter().join(sep)
}

/// Appends `keyword` and the items joined with `sep`, or nothing when there are no items.
pub(crate) fn push_clause(out: &mut String, keyword: &str, items: &Vec<String>, sep: &str)
    ensures
        final(out)@ == old(out)@ + clause(keyword@, texts(items@), sep@),
{
    if items.len() > 0 {
        out.append(keyword);
        let list = join_items(items, sep);
        out.append(list.as_str());
    } else {
        assert(old(out)@ + clause(keyword@, texts(items@), sep@) =~= old(out)@);
    }
}

/// Joins the strings of `items` with `sep` between each two neighbours.
pub fn joined(items: &Vec<String>, sep: &str) -> (r: String)
    ensures
        r@ == join_with(texts(items@), sep@),
{
    let mut out = String::new();
    let mut i: usize = 0;
    while i < items.len()
        invariant
            i <= items@.len(),
            out@ == join_with(texts(items@).take(i as int), sep@),
        decreases items@.len() - i,
    {
        proof {
            let prefix = texts(items@).take(i as int + 1);
            assert(prefix.drop_last() =~= texts(items@).take(i as int));
        }
        if i > 0 {
            out.append(sep);
        }
        out.append(items[i].as_str());
        i = i + 1;
    }
    assert(texts(items@).take(i as int) =~= texts(items@));
    out
}

fn digit_text(d: u64) -> (r: &'static str)
    requires
        d < 10,
    ensures
        r@ == seq![digit(d as nat)],
{
    proof {
        reveal_strlit("0");
        reveal_strlit("1");
        reveal_strlit("2");
        reveal_strlit("3");
        reveal_strlit("4");
        reveal_strlit("5");
        reveal_strlit("6");
        reveal_strlit("7");
        reveal_strlit("8");
        reveal_strlit("9");
    }
    if d == 0 {
        "0"
    } else if d == 1 {
        "1"
    } else if d == 2 {
        "2"
    } else if d == 3 {
        "3"
    } else if d == 4 {
        "4"
    } else if d == 5 {
        "5"
    } else if d == 6 {
        "6"
    } else if d == 7 {
        "7"
    } else if d == 8 {
        "8"
    } else {
        "9"
    }
}

/// Decimal notation of an unsigned number.
pub fn decimal_text(n: u64) -> (r: String)
    ensures
        r@ == decimal(n as nat),
    decreases n,
{
    if n < 10 {
        digit_text(n).to_owned()
    } else {
        let mut s = decimal_text(n / 10);
        s.append(digit_text(n % 10));
        s
    }
}

/// Decimal notation of a signed number.
pub fn signed_decimal_text(n: i64) -> (r: String)
    ensures
        r@ == signed_decimal(n as int),
{
    if n < 0 {
        let magnitude: u64 = (0i128 - n as i128) as u64;
        let mut s = "-".to_owned();
        proof {
            reveal_strlit("-");
        }
        let digits = decimal_text(magnitude);
        s.append(digits.as_str());
        s
    } else {
        decimal_text(n as u64)
    }
}

} // verus!
