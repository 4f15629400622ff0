//! Small plain-text helpers: decimal rendering of port numbers and joining
//! of query-string fragments.

use vstd::prelude::*;

verus! {

/// The decimal digit character for a value between 0 and 9.
pub open spec fn dec_digit(d: int) -> char {
    if d == 0 {
        '0'
    } else if d == 1 {
        '1'
    } else if d == 2 {
        '2'
    } else if d == 3 {
        '3'
    } else if d == 4 {
        '4'
    } else if d == 5 {
        '5'
    } else if d == 6 {
        '6'
    } else if d == 7 {
        '7'
    } else if d == 8 {
        '8'
    } else {
        '9'
    }
}

/// The usual decimal rendering of a non-negative number: no sign, no leading
/// zero except for the number zero itself.
pub open spec fn dec_str(n: int) -> Seq<char>
    decreases n,
{
    if n < 10 {
        seq![dec_digit(n)]
    } else {
        dec_str(n / 10).push(dec_digit(n % 10))
    }
}

/// Renders a port number in decimal.
pub fn u16_to_dec(n: u16) -> (r: String)
    ensures
        r@ == dec_str(n as int),
    decreases n,
{
    let digit: &'static str = match n % 10 {
        0 => "0",
        1 => "1",
        2 => "2",
        3 => "3",
        4 => "4",
        5 => "5",
        6 => "6",
        7 => "7",
        8 => "8",
        _ => "9",
    };
    proof {
        reveal_strlit("0");
        reveal_strlit("1");
        reveal_strlit("2");
        reveal_strlit("3");
        reveal_strlit("4");
        reveal_strlit("5");
        reveal_strlit("6");
        reveal_strlit("7");
        reveal_strlit("8");
        reveal_strlit("9");
        assert(digit@ =~= seq![dec_digit((n % 10) as int)]);
    }
    if n < 10 {
        let r = digit.to_owned();
        proof {
            assert(r@ =~= dec_str(n as int));
        }
        r
    } else {
        let mut r = u16_to_dec(n / 10);
        r.append(digit);
        proof {
            assert(r@ =~= dec_str(n as int));
        }
        r
    }
}

/// The fragments joined with `&` between them, in order; empty when there are
/// none.
pub open spec fn join_amp(parts: Seq<Seq<char>>) -> Seq<char>
    decreases parts.len(),
{
    if parts.len() == 0 {
        Seq::empty()
    } else if parts.len() == 1 {
        parts[0]
    } else {
        join_amp(parts.drop_last()) + seq!['&'] + parts.last()
    }
}

/// Joins the fragments with `&`, as a query string does its pairs.
pub fn join_with_amp(parts: &Vec<String>) -> (r: String)
    ensures
        r@ == join_amp(parts@.map_values(|p: String| p@)),
{
    let ghost partsv = parts@.map_values(|p: String| p@);
    if parts.len() == 0 {
        let r = String::new();
        proof {
            assert(r@ =~= join_amp(partsv));
        }
        return r;
    }
    let mut r = parts[0].clone();
    let mut i: usize = 1;
    proof {
        assert(partsv.take(1) =~= seq![partsv[0]]);
        assert(r@ =~= join_amp(partsv.take(1)));
    }
    while i < parts.len()
        invariant
            1 <= i <= parts@.len(),
            partsv == parts@.map_values(|p: String| p@),
            r@ == join_amp(partsv.take(i as int)),
        decreases parts@.len() - i,
    {
        r.append("&");
        r.append(parts[i].as_str());
        proof {
            reveal_strlit("&");
            assert(partsv.take(i + 1).drop_last() =~= partsv.take(i as int));
            assert(partsv.take(i + 1).last() == partsv[i as int]);
            assert(r@ =~= join_amp(partsv.take(i + 1)));
        }
        i += 1;
    }
    proof {
        assert(partsv.take(partsv.len() as int) =~= partsv);
    }
    r
}

} // verus!
