//! Wire-token primitives shared by every encoder: the decimal rendering of
//! unsigned integers and the view of a token list as a sequence of character
//! sequences.

use vstd::prelude::*;

verus! {

/// The character for one decimal digit value.
pub open spec fn dec_digit(d: nat) -> char {
    if d == 0 {
        '0'
    } else if d == 1 {
        '1'
    } else if d == 2 {
        '2'
    } else if d == 3 {
        '3'
    } else if d == 4 {
        '4'
    } else if d == 5 {
        '5'
    } else if d == 6 {
        '6'
    } else if d == 7 {
        '7'
    } else if d == 8 {
        '8'
    } else {
        '9'
    }
}

/// The usual decimal rendering of a natural number, most significant digit
/// first, with no leading zeros (and `"0"` for zero).
pub open spec fn dec_str(n: nat) -> Seq<char>
    decreases n,
{
    if n < 10 {
        seq![dec_digit(n)]
    } else {
        dec_str(n / 10).push(dec_digit(n % 10))
    }
}

/// The views of the tokens in a token list.
pub open spec fn token_views(ts: Seq<String>) -> Seq<Seq<char>> {
    Seq::new(ts.len(), |i: int| ts[i]@)
}

fn dec_digit_str(d: u64) -> (s: &'static str)
    requires
        d < 10,
    ensures
        s@ == seq![dec_digit(d as nat)],
{
    proof {
        reveal_strlit("0");
        reveal_strlit("1");
        reveal_strlit("2");
        reveal_strlit("3");
        reveal_strlit("4");
        reveal_strlit("5");
        reveal_strlit("6");
        reveal_strlit("7");
        reveal_strlit("8");
        reveal_strlit("9");
    }
    let s = if d == 0 {
        "0"
    } else if d == 1 {
        "1"
    } else if d == 2 {
        "2"
    } else if d == 3 {
        "3"
    } else if d == 4 {
        "4"
    } else if d == 5 {
        "5"
    } else if d == 6 {
        "6"
    } else if d == 7 {
        "7"
    } else if d == 8 {
        "8"
    } else {
        "9"
    };
    proof {
        assert(s@ =~= seq![dec_digit(d as nat)]);
    }
    s
}

/// Renders an unsigned integer as its decimal wire token.
pub fn u64_to_dec(n: u64) -> (s: String)
    ensures
        s@ == dec_str(n as nat),
    decreases n,
{
    if n < 10 {
        dec_digit_str(n).to_owned()
    } else {
        let mut s = u64_to_dec(n / 10);
        s.append(dec_digit_str(n % 10));
        proof {
            assert(s@ =~= dec_str(n as nat));
        }
        s
    }
}

/// Appends one borrowed token to a token list.
pub fn push_tok(out: &mut Vec<String>, s: &str)
    ensures
        token_views(final(out)@) == token_views(old(out)@).push(s@),
{
    out.push(s.to_owned());
    proof {
        assert(token_views(out@) =~= token_views(old(out)@).push(s@));
    }
}

/// Moves all tokens of a second list to the end of a token list.
pub fn extend_toks(out: &mut Vec<String>, add: &mut Vec<String>)
    ensures
        token_views(final(out)@) == token_views(old(out)@) + token_views(old(add)@),
        token_views(final(add)@) == Seq::<Seq<char>>::empty(),
{
    out.append(add);
    proof {
        assert(token_views(out@) =~= token_views(old(out)@) + token_views(old(add)@));
        assert(token_views(add@) =~= Seq::<Seq<char>>::empty());
    }
}

/// Appends one owned token to a token list.
pub fn push_owned(out: &mut Vec<String>, s: String)
    ensures
        token_views(final(out)@) == token_views(old(out)@).push(s@),
{
    let ghost v = s@;
    out.push(s);
    proof {
        assert(token_views(out@) =~= token_views(old(out)@).push(v));
    }
}

} // verus!
