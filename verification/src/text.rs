//! Rendering of numbers as text.

use crate::image_analysis::Micros;
use vstd::prelude::*;

verus! {

/// The model of a text that may be absent.
pub open spec fn optional(text: Option<String>) -> Option<Seq<char>> {
    match text {
        Some(t) => Some(t@),
        None => None,
    }
}

/// A text leads the text made by putting another behind it.
pub proof fn lemma_leads(head: Seq<char>, tail: Seq<char>)
    ensures
        head.is_prefix_of(head + tail),
{
    assert((head + tail).subrange(0, head.len() as int) =~= head);
}

/// The decimal digit for a value from 0 to 9.
pub open spec fn digit(d: int) -> char {
    if d == 0 {
        '0'
    } else if d == 1 {
        '1'
    } else if d == 2 {
        '2'
    } else if d == 3 {
        '3'
    } else if d == 4 {
        '4'
    } else if d == 5 {
        '5'
    } else if d == 6 {
        '6'
    } else if d == 7 {
        '7'
    } else if d == 8 {
        '8'
    } else {
        '9'
    }
}

/// The decimal numeral of `n`, without leading zeros.
pub open spec fn decimal(n: nat) -> Seq<char>
    decreases n,
{
    if n < 10 {
        seq![digit(n as int)]
    } else {
        decimal(n / 10).push(digit((n % 10) as int))
    }
}

/// The last `width` decimal digits of `n`, with leading zeros.
pub open spec fn padded(n: nat, width: nat) -> Seq<char>
    decreases width,
{
    if width == 0 {
        Seq::empty()
    } else {
        padded(n / 10, (width - 1) as nat).push(digit((n % 10) as int))
    }
}

/// A quantity in millionths as a decimal number with six places.
pub open spec fn fixed6(micros: nat) -> Seq<char> {
    decimal(micros / 1_000_000) + seq!['.'] + padded(micros % 1_000_000, 6)
}

/// The thousandth nearest to a quantity in millionths; a half rounds up.
pub open spec fn rounded_millis(micros: nat) -> nat {
    (micros + 500) / 1000
}

/// A quantity in millionths as a decimal number with three places, rounded
/// to the nearest thousandth.
pub open spec fn fixed3(micros: nat) -> Seq<char> {
    decimal(rounded_millis(micros) / 1000) + seq!['.'] + padded(rounded_millis(micros) % 1000, 3)
}

/// A quantity in millionths as a decimal number with two places, rounded to
/// the nearest hundredth; a half rounds up.
pub open spec fn fixed2(micros: nat) -> Seq<char> {
    decimal(((micros + 5000) / 10_000) / 100) + seq!['.'] + padded(
        ((micros + 5000) / 10_000) % 100,
        2,
    )
}

/// A signed quantity in millionths as a decimal number with six places.
pub open spec fn signed_fixed6(micros: int) -> Seq<char> {
    if micros < 0 {
        seq!['-'] + fixed6((-micros) as nat)
    } else {
        fixed6(micros as nat)
    }
}

/// How a truth value is written.
pub open spec fn truth(b: bool) -> Seq<char> {
    if b {
        "true"@
    } else {
        "false"@
    }
}

/// How a verdict is written.
pub open spec fn verdict(is_blurry: bool) -> Seq<char> {
    if is_blurry {
        "BLURRY"@
    } else {
        "SHARP"@
    }
}

/// The text of one decimal digit.
fn digit_text(d: u64) -> (s: &'static str)
    requires
        d < 10,
    ensures
        s@ == seq![digit(d as int)],
{
    proof {
        reveal_strlit("0");
        reveal_strlit("1");
        reveal_strlit("2");
        reveal_strlit("3");
        reveal_strlit("4");
        reveal_strlit("5");
        reveal_strlit("6");
        reveal_strlit("7");
        reveal_strlit("8");
        reveal_strlit("9");
    }
    let s = if d == 0 {
        "0"
    } else if d == 1 {
        "1"
    } else if d == 2 {
        "2"
    } else if d == 3 {
        "3"
    } else if d == 4 {
        "4"
    } else if d == 5 {
        "5"
    } else if d == 6 {
        "6"
    } else if d == 7 {
        "7"
    } else if d == 8 {
        "8"
    } else {
        "9"
    };
    assert(s@ =~= seq![digit(d as int)]);
    s
}

/// Appends the decimal numeral of `n`.
pub fn push_decimal(out: &mut String, n: u64)
    ensures
        final(out)@ == old(out)@ + decimal(n as nat),
    decreases n,
{
    if n >= 10 {
        push_decimal(out, n / 10);
    }
    out.append(digit_text(n % 10));
    assert(final(out)@ =~= old(out)@ + decimal(n as nat)) by {
        if n >= 10 {
            assert(decimal(n as nat) == decimal((n / 10) as nat).push(digit((n % 10) as int)));
        }
    }
}

/// Appends the last `width` decimal digits of `n`, with leading zeros.
pub fn push_padded(out: &mut String, n: u64, width: u32)
    ensures
        final(out)@ == old(out)@ + padded(n as nat, width as nat),
    decreases width,
{
    if width > 0 {
        push_padded(out, n / 10, width - 1);
        out.append(digit_text(n % 10));
    }
    assert(final(out)@ =~= old(out)@ + padded(n as nat, width as nat));
}

/// Appends a quantity in millionths as a decimal number with six places.
pub fn push_fixed6(out: &mut String, micros: Micros)
    ensures
        final(out)@ == old(out)@ + fixed6(micros as nat),
{
    proof {
        reveal_strlit(".");
    }
    push_decimal(out, micros / 1_000_000);
    out.append(".");
    push_padded(out, micros % 1_000_000, 6);
    assert(final(out)@ =~= old(out)@ + fixed6(micros as nat)) by {
        assert("."@ =~= seq!['.']);
    }
}

/// Appends a quantity in millionths as a decimal number with three places,
/// rounded to the nearest thousandth.
pub fn push_fixed3(out: &mut String, micros: Micros)
    ensures
        final(out)@ == old(out)@ + fixed3(micros as nat),
{
    proof {
        reveal_strlit(".");
    }
    let millis: u64 = micros / 1000 + (if micros % 1000 >= 500 {
        1u64
    } else {
        0u64
    });
    assert(millis == rounded_millis(micros as nat));
    push_decimal(out, millis / 1000);
    out.append(".");
    push_padded(out, millis % 1000, 3);
    assert(final(out)@ =~= old(out)@ + fixed3(micros as nat)) by {
        assert("."@ =~= seq!['.']);
    }
}

/// Appends a quantity in millionths as a decimal number with two places,
/// rounded to the nearest hundredth.
pub fn push_fixed2(out: &mut String, micros: Micros)
    ensures
        final(out)@ == old(out)@ + fixed2(micros as nat),
{
    proof {
        reveal_strlit(".");
    }
    let hundredths: u64 = micros / 10_000 + (if micros % 10_000 >= 5000 {
        1u64
    } else {
        0u64
    });
    assert(hundredths == (micros + 5000) / 10_000);
    push_decimal(out, hundredths / 100);
    out.append(".");
    push_padded(out, hundredths % 100, 2);
    assert(final(out)@ =~= old(out)@ + fixed2(micros as nat)) by {
        assert("."@ =~= seq!['.']);
    }
}

/// Appends a signed quantity in millionths as a decimal number with six
/// places.
pub fn push_signed_fixed6(out: &mut String, micros: i64)
    ensures
        final(out)@ == old(out)@ + signed_fixed6(micros as int),
{
    if micros < 0 {
        proof {
            reveal_strlit("-");
        }
        out.append("-");
        let ghost signed = out@;
        push_fixed6(out, ((-(micros + 1)) as u64) + 1);
        assert(final(out)@ =~= old(out)@ + signed_fixed6(micros as int)) by {
            assert("-"@ =~= seq!['-']);
        }
    } else {
        push_fixed6(out, micros as u64);
    }
}

/// Appends `true` or `false`.
pub fn push_truth(out: &mut String, b: bool)
    ensures
        final(out)@ == old(out)@ + truth(b),
{
    if b {
        out.append("true");
    } else {
        out.append("false");
    }
}

/// The word for a verdict.
pub fn verdict_text(is_blurry: bool) -> (s: &'static str)
    ensures
        s@ == verdict(is_blurry),
{
    if is_blurry {
        "BLURRY"
    } else {
        "SHARP"
    }
}

} // verus!
