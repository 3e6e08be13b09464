//! The names of the files that pages are written to: one per page index.

use vstd::prelude::*;

verus! {

/// The character of a decimal digit.
pub open spec fn digit(d: nat) -> char
    recommends
        d < 10,
{
    if d == 0 {
        '0'
    } else if d == 1 {
        '1'
    } else if d == 2 {
        '2'
    } else if d == 3 {
        '3'
    } else if d == 4 {
        '4'
    } else if d == 5 {
        '5'
    } else if d == 6 {
        '6'
    } else if d == 7 {
        '7'
    } else if d == 8 {
        '8'
    } else {
        '9'
    }
}

/// The decimal digits of `n`, the most significant first, without leading
/// zeros.
pub open spec fn decimal(n: nat) -> Seq<char>
    decreases n,
{
    if n < 10 {
        seq![digit(n)]
    } else {
        decimal(n / 10).push(digit(n % 10))
    }
}

/// The name of the file of the page with the given index.
pub open spec fn page_name(index: nat) -> Seq<char> {
    "page-"@ + decimal(index) + ".png"@
}

/// `format!` with `{}` for a `u64` between two literals: the literals with
/// the number's decimal digits between them, as `Display` for integers
/// writes them.
#[verifier::external_body]
pub(crate) fn format_page_name(index: u64) -> (name: String)
    ensures
        name@ == page_name(index as nat),
{
    format!("page-{}.png", index)
}

/// A number has at least one decimal digit.
pub proof fn decimal_is_not_empty(n: nat)
    ensures
        decimal(n).len() >= 1,
    decreases n,
{
    if n >= 10 {
        decimal_is_not_empty(n / 10);
    }
}

/// Two numbers with the same decimal digits are the same number.
pub proof fn decimal_is_injective(a: nat, b: nat)
    requires
        decimal(a) == decimal(b),
    ensures
        a == b,
    decreases a,
{
    if a < 10 && b < 10 {
        assert(decimal(a)[0] == digit(a));
        assert(decimal(b)[0] == digit(b));
    } else if a < 10 {
        decimal_is_not_empty(b / 10);
        assert(decimal(a).len() == 1);
        assert(decimal(b).len() == decimal(b / 10).len() + 1);
    } else if b < 10 {
        decimal_is_not_empty(a / 10);
        assert(decimal(b).len() == 1);
        assert(decimal(a).len() == decimal(a / 10).len() + 1);
    } else {
        let x = decimal(a / 10);
        let y = decimal(b / 10);
        assert(x.push(digit(a % 10)).len() == y.push(digit(b % 10)).len());
        assert(x.push(digit(a % 10)).last() == y.push(digit(b % 10)).last());
        assert(x.push(digit(a % 10)).drop_last() =~= x);
        assert(y.push(digit(b % 10)).drop_last() =~= y);
        decimal_is_injective(a / 10, b / 10);
        assert(digit(a % 10) == digit(b % 10));
        assert(a % 10 == b % 10);
    }
}

/// No two pages share a file name: different indices give different names.
pub proof fn page_names_differ(a: nat, b: nat)
    requires
        a != b,
    ensures
        page_name(a) != page_name(b),
{
    if page_name(a) == page_name(b) {
        reveal_strlit("page-");
        reveal_strlit(".png");
        let x = decimal(a);
        let y = decimal(b);
        assert(page_name(a).len() == 5 + x.len() + 4);
        assert(page_name(b).len() == 5 + y.len() + 4);
        assert(page_name(a).subrange(5, 5 + x.len() as int) =~= x);
        assert(page_name(b).subrange(5, 5 + y.len() as int) =~= y);
        decimal_is_injective(a, b);
    }
}

} // verus!
