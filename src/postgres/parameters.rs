use vstd::prelude::*;

use crate::tools::display::{decimal, decimal_text, digit, join_with, joined, texts};

verus! {

/// `$<n>`
pub open spec fn placeholder(n: nat) -> Seq<char> {
    seq!['$'] + decimal(n)
}

/// The `count` placeholders that start at `first`, in order.
pub open spec fn placeholders(first: nat, count: nat) -> Seq<Seq<char>> {
    Seq::new(count, |i: int| placeholder(first + i as nat))
}

proof fn lemma_decimal_length(n: nat)
    ensures
        decimal(n).len() >= 1,
        n >= 10 ==> decimal(n).len() >= 2,
    decreases n,
{
    if n >= 10 {
        lemma_decimal_length(n / 10);
    }
}

/// Different numbers have different decimal notations.
pub proof fn lemma_decimal_injective(a: nat, b: nat)
    requires
        decimal(a) == decimal(b),
    ensures
        a == b,
    decreases a,
{
    lemma_decimal_length(a);
    lemma_decimal_length(b);
    if a < 10 && b < 10 {
        assert(decimal(a)[0] == digit(a));
        assert(decimal(b)[0] == digit(b));
    } else if a >= 10 && b >= 10 {
        assert(decimal(a).last() == digit(a % 10));
        assert(decimal(b).last() == digit(b % 10));
        assert(decimal(a).drop_last() =~= decimal(a / 10));
        assert(decimal(b).drop_last() =~= decimal(b / 10));
        lemma_decimal_injective(a / 10, b / 10);
    }
}

/// Different numbers give different placeholders.
pub proof fn lemma_placeholder_injective(a: nat, b: nat)
    requires
        placeholder(a) == placeholder(b),
    ensures
        a == b,
{
    assert(placeholder(a).subrange(1, placeholder(a).len() as int) =~= decimal(a));
    assert(placeholder(b).subrange(1, placeholder(b).len() as int) =~= decimal(b));
    lemma_decimal_injective(a, b);
}

/// Placeholders handed out one call after another never repeat: the `k` placeholders
/// that a call takes from counter `c` differ from each of the `m` that a later call,
/// starting at `d >= c + k`, takes.
pub proof fn lemma_batches_disjoint(c: nat, k: nat, d: nat, m: nat)
    requires
        c + k <= d,
    ensures
        forall|i: int, j: int|
            0 <= i < k && 0 <= j < m ==> #[trigger] placeholders(c, k)[i] != #[trigger] placeholders(
                d,
                m,
            )[j],
{
    assert forall|i: int, j: int| 0 <= i < k && 0 <= j < m implies #[trigger] placeholders(c, k)[i]
        != #[trigger] placeholders(d, m)[j] by {
        if placeholders(c, k)[i] == placeholders(d, m)[j] {
            lemma_placeholder_injective(c + i as nat, d + j as nat);
        }
    }
}

/// Relies on `TryFrom<Vec<T>>` for arrays: it succeeds when the vector has exactly `N`
/// elements, and the array holds them in order.
#[verifier::external_body]
fn strings_into_array<const N: usize>(v: Vec<String>) -> (r: [String; N])
    requires
        v@.len() == N,
    ensures
        r@ == v@,
{
    v.try_into().unwrap()
}

/// A generator of parameter placeholders `$1`, `$2`, ... Its model is the number that
/// the next placeholder will carry.
pub struct Parameters {
    current: usize,
}

impl View for Parameters {
    type V = nat;

    closed spec fn view(&self) -> nat {
        self.current as nat
    }
}

impl Parameters {
    /// A generator that starts at 1.
    pub fn new() -> (r: Parameters)
        ensures
            r@ == 1,
    {
        Parameters { current: 1 }
    }

    /// A generator that starts at `first`.
    pub fn starting_from(first: usize) -> (r: Parameters)
        ensures
            r@ == first,
    {
        Parameters { current: first }
    }

    /// The current placeholder; the counter moves on by one.
    pub fn next(&mut self) -> (r: String)
        requires
            old(self)@ < usize::MAX,
        ensures
            r@ == placeholder(old(self)@),
            final(self)@ == old(self)@ + 1,
    {
        let mut s = "$".to_owned();
        let digits = decimal_text(self.current as u64);
        s.append(digits.as_str());
        proof {
            reveal_strlit("$");
            assert(s@ =~= placeholder(self@));
        }
        self.current = self.current + 1;
        s
    }

    fn next_batch(&mut self, n: usize) -> (r: Vec<String>)
        requires
            old(self)@ + n <= usize::MAX,
        ensures
            texts(r@) == placeholders(old(self)@, n as nat),
            final(self)@ == old(self)@ + n,
    {
        let ghost first = self@;
        let mut items: Vec<String> = Vec::new();
        let mut i: usize = 0;
        while i < n
            invariant
                i <= n,
                self@ == first + i,
                first + n <= usize::MAX,
                texts(items@) == placeholders(first, i as nat),
            decreases n - i,
        {
            let ghost before = items@;
            let p = self.next();
            items.push(p);
            assert(texts(items@) =~= texts(before).push(placeholder(first + i as nat)));
            assert(texts(items@) =~= placeholders(first, i as nat + 1));
            i = i + 1;
        }
        items
    }

    /// The next `n` placeholders joined with `, `; the counter moves on by `n`.
    pub fn next_n(&mut self, n: usize) -> (r: String)
        requires
            old(self)@ + n <= usize::MAX,
        ensures
            r@ == join_with(placeholders(old(self)@, n as nat), ", "@),
            final(self)@ == old(self)@ + n,
    {
        let items = self.next_batch(n);
        joined(&items, ", ")
    }

    /// The next `N` placeholders as an array; the counter moves on by `N`.
    pub fn next_array<const N: usize>(&mut self) -> (r: [String; N])
        requires
            old(self)@ + N <= usize::MAX,
        ensures
            texts(r@) == placeholders(old(self)@, N as nat),
            final(self)@ == old(self)@ + N,
    {
        let items = self.next_batch(N);
        proof {
            assert(texts(items@).len() == N);
        }
        strings_into_array(items)
    }
}

impl Default for Parameters {
    fn default() -> (r: Parameters)
        ensures
            r@ == 1,
    {
        Parameters::new()
    }
}

} // verus!
