use vstd::prelude::*;
use vstd::string::StringExecFns;

verus! {

/// The ASCII digit of `d`, for `d < 10`.
pub open spec fn digit_char(d: nat) -> char {
    if d == 0 {
        '0'
    } else if d == 1 {
        '1'
    } else if d == 2 {
        '2'
    } else if d == 3 {
        '3'
    } else if d == 4 {
        '4'
    } else if d == 5 {
        '5'
    } else if d == 6 {
        '6'
    } else if d == 7 {
        '7'
    } else if d == 8 {
        '8'
    } else {
        '9'
    }
}

/// The decimal digits of `n`, most significant first, without leading zeros.
pub open spec fn decimal(n: nat) -> Seq<char>
    decreases n,
{
    if n < 10 {
        seq![digit_char(n)]
    } else {
        decimal(n / 10).push(digit_char(n % 10))
    }
}

/// One labelled coefficient: `β<index> = <value>`.
pub open spec fn coefficient_line(index: nat, value: Seq<char>) -> Seq<char> {
    seq!['\u{3b2}'] + decimal(index) + seq![' ', '=', ' '] + value
}

/// The labelled coefficients, numbered from zero, joined by `,` and a newline.
pub open spec fn coefficient_listing(values: Seq<Seq<char>>) -> Seq<char>
    decreases values.len(),
{
    if values.len() == 0 {
        Seq::empty()
    } else if values.len() == 1 {
        coefficient_line(0, values[0])
    } else {
        coefficient_listing(values.drop_last()) + seq![',', '\n'] + coefficient_line(
            (values.len() - 1) as nat,
            values.last(),
        )
    }
}

/// The character sequences of a list of strings.
pub open spec fn texts(values: Seq<String>) -> Seq<Seq<char>> {
    values.map_values(|s: String| s@)
}

fn digit_text(d: usize) -> (r: &'static str)
    requires
        d < 10,
    ensures
        r@ == seq![digit_char(d as nat)],
{
    if d == 0 {
        proof { reveal_strlit("0"); }
        "0"
    } else if d == 1 {
        proof { reveal_strlit("1"); }
        "1"
    } else if d == 2 {
        proof { reveal_strlit("2"); }
        "2"
    } else if d == 3 {
        proof { reveal_strlit("3"); }
        "3"
    } else if d == 4 {
        proof { reveal_strlit("4"); }
        "4"
    } else if d == 5 {
        proof { reveal_strlit("5"); }
        "5"
    } else if d == 6 {
        proof { reveal_strlit("6"); }
        "6"
    } else if d == 7 {
        proof { reveal_strlit("7"); }
        "7"
    } else if d == 8 {
        proof { reveal_strlit("8"); }
        "8"
    } else {
        proof { reveal_strlit("9"); }
        "9"
    }
}

/// Appends the decimal digits of `n` to `out`.
fn push_decimal(out: &mut String, n: usize)
    ensures
        final(out)@ == old(out)@ + decimal(n as nat),
    decreases n,
{
    if n >= 10 {
        push_decimal(out, n / 10);
    }
    out.append(digit_text(n % 10));
    proof {
        if n >= 10 {
            assert(final(out)@ =~= old(out)@ + decimal(n as nat));
        } else {
            assert(final(out)@ =~= old(out)@ + decimal(n as nat));
        }
    }
}

/// Renders already formatted coefficient values as `β0 = v0,\nβ1 = v1, ...`.
pub fn coefficients_to_string(values: &Vec<String>) -> (r: String)
    ensures
        r@ == coefficient_listing(texts(values@)),
{
    let mut out = String::new();
    let mut i: usize = 0;
    while i < values.len()
        invariant
            0 <= i <= values@.len(),
            out@ == coefficient_listing(texts(values@.subrange(0, i as int))),
        decreases values@.len() - i,
    {
        let ghost before = out@;
        if i > 0 {
            out.append(",\n");
        }
        out.append("\u{3b2}");
        push_decimal(&mut out, i);
        out.append(" = ");
        out.append(values[i].as_str());
        proof {
            reveal_strlit(",\n");
            reveal_strlit("\u{3b2}");
            reveal_strlit(" = ");
            let prefix = texts(values@.subrange(0, i as int));
            let next = texts(values@.subrange(0, i + 1));
            assert(next.drop_last() =~= prefix);
            assert(next.last() == values@[i as int]@);
            if i > 0 {
                assert(out@ =~= before + seq![',', '\n'] + coefficient_line(i as nat, values@[i as int]@));
            } else {
                assert(out@ =~= coefficient_line(0, values@[0]@));
            }
        }
        i = i + 1;
    }
    assert(values@.subrange(0, values@.len() as int) =~= values@);
    out
}

} // verus!
