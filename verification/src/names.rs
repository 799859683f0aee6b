//! Text building blocks of the generated code: the per-slot generic
//! parameter names and the marker type paths.

use vstd::prelude::*;

use vstd::string::StringExecFns;

verus! {

/// The single decimal digit `d` as text.
pub open spec fn digit_text(d: int) -> Seq<char>
    recommends
        0 <= d < 10,
{
    if d == 0 {
        "0"@
    } else if d == 1 {
        "1"@
    } else if d == 2 {
        "2"@
    } else if d == 3 {
        "3"@
    } else if d == 4 {
        "4"@
    } else if d == 5 {
        "5"@
    } else if d == 6 {
        "6"@
    } else if d == 7 {
        "7"@
    } else if d == 8 {
        "8"@
    } else {
        "9"@
    }
}

/// The decimal digits of `n`, most significant first.
pub open spec fn dec_digits(n: int) -> Seq<char>
    recommends
        n >= 0,
    decreases n,
{
    if n < 10 {
        digit_text(n)
    } else {
        dec_digits(n / 10) + digit_text(n % 10)
    }
}

/// The name of the generic shape parameter standing for slot `i`.
pub open spec fn gen_ident(i: int) -> Seq<char> {
    "_CMT_"@ + dec_digits(i)
}

/// The path of the occupied marker of the fully-allocated style.
pub open spec fn occupied_m_text() -> Seq<char> {
    "::certain_map::OccupiedM"@
}

/// The path of the vacant marker.
pub open spec fn vacancy_text() -> Seq<char> {
    "::certain_map::Vacancy"@
}

/// The occupied wrapper of the shape-changing style, applied to a slot type.
pub open spec fn occupied_text(ty: Seq<char>) -> Seq<char> {
    "::certain_map::Occupied<"@ + ty + ">"@
}

/// An `Option` of a slot type, as text.
pub open spec fn option_of_text(ty: Seq<char>) -> Seq<char> {
    "::core::option::Option<"@ + ty + ">"@
}

/// Append the single decimal digit `d`.
fn push_digit(out: &mut String, d: u64)
    requires
        d < 10,
    ensures
        final(out)@ == old(out)@ + digit_text(d as int),
{
    if d == 0 {
        out.append("0");
    } else if d == 1 {
        out.append("1");
    } else if d == 2 {
        out.append("2");
    } else if d == 3 {
        out.append("3");
    } else if d == 4 {
        out.append("4");
    } else if d == 5 {
        out.append("5");
    } else if d == 6 {
        out.append("6");
    } else if d == 7 {
        out.append("7");
    } else if d == 8 {
        out.append("8");
    } else {
        out.append("9");
    }
}

/// Append `n` in decimal.
pub fn push_dec(out: &mut String, n: u64)
    ensures
        final(out)@ == old(out)@ + dec_digits(n as int),
    decreases n,
{
    if n >= 10 {
        push_dec(out, n / 10);
        push_digit(out, n % 10);
        proof {
            assert(out@ == old(out)@ + dec_digits(n as int / 10) + digit_text(n as int % 10));
            assert(old(out)@ + dec_digits(n as int / 10) + digit_text(n as int % 10) =~= old(out)@
                + (dec_digits(n as int / 10) + digit_text(n as int % 10)));
        }
    } else {
        push_digit(out, n);
    }
}

/// The generic shape parameter standing for slot `num`.
pub fn generic_type(num: usize) -> (r: String)
    ensures
        r@ == gen_ident(num as int),
{
    let mut r = String::new();
    r.append("_CMT_");
    push_dec(&mut r, num as u64);
    proof {
        assert(Seq::<char>::empty() + "_CMT_"@ + dec_digits(num as int) =~= gen_ident(num as int));
    }
    r
}

/// The occupied wrapper applied to a slot type, as text.
pub fn occupied_type(ty: &str) -> (r: String)
    ensures
        r@ == occupied_text(ty@),
{
    let mut r = String::new();
    r.append("::certain_map::Occupied<");
    r.append(ty);
    r.append(">");
    proof {
        assert(Seq::<char>::empty() + "::certain_map::Occupied<"@ + ty@ + ">"@ =~= occupied_text(
            ty@,
        ));
    }
    r
}

/// The occupied marker of the fully-allocated style, as text.
pub fn occupied_m_type() -> (r: String)
    ensures
        r@ == occupied_m_text(),
{
    let mut r = String::new();
    r.append("::certain_map::OccupiedM");
    proof {
        assert(Seq::<char>::empty() + "::certain_map::OccupiedM"@ =~= occupied_m_text());
    }
    r
}

/// The vacant marker, as text.
pub fn vacancy_type() -> (r: String)
    ensures
        r@ == vacancy_text(),
{
    let mut r = String::new();
    r.append("::certain_map::Vacancy");
    proof {
        assert(Seq::<char>::empty() + "::certain_map::Vacancy"@ =~= vacancy_text());
    }
    r
}

} // verus!
