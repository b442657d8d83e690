use vstd::prelude::*;
use vstd::string::StringExecFns;

verus! {

/// Milliseconds in a second.
pub const SECOND: u128 = 1000;

/// Milliseconds in a minute.
pub const MINUTE: u128 = 60 * SECOND;

/// Milliseconds in an hour.
pub const HOUR: u128 = 60 * MINUTE;

/// The character of one decimal digit.
pub open spec fn digit_char(d: int) -> char {
    if d == 0 {
        '0'
    } else if d == 1 {
        '1'
    } else if d == 2 {
        '2'
    } else if d == 3 {
        '3'
    } else if d == 4 {
        '4'
    } else if d == 5 {
        '5'
    } else if d == 6 {
        '6'
    } else if d == 7 {
        '7'
    } else if d == 8 {
        '8'
    } else {
        '9'
    }
}

/// The decimal numeral of `n`, most significant digit first.
pub open spec fn dec_digits(n: int) -> Seq<char>
    decreases n,
        when n >= 0
{
    if n < 10 {
        seq![digit_char(n)]
    } else {
        dec_digits(n / 10).push(digit_char(n % 10))
    }
}

/// The centisecond count, zero-padded to two digits.
pub open spec fn centi_digits(c: int) -> Seq<char> {
    if c < 10 {
        "0"@ + dec_digits(c)
    } else {
        dec_digits(c)
    }
}

/// The text `human_duration` renders for a duration of `millis`
/// milliseconds: hours, minutes and seconds, each unit left off while the
/// running total has not passed it, and centiseconds exactly when the text
/// would otherwise hold nothing but seconds.
pub open spec fn duration_text(millis: int) -> Seq<char> {
    if millis > HOUR {
        dec_digits(millis / (HOUR as int)) + "h"@ + dec_digits(
            (millis % (HOUR as int)) / (MINUTE as int),
        ) + "m"@ + dec_digits(((millis % (HOUR as int)) % (MINUTE as int)) / (SECOND as int))
            + "s"@
    } else if millis > MINUTE {
        dec_digits(millis / (MINUTE as int)) + "m"@ + dec_digits(
            (millis % (MINUTE as int)) / (SECOND as int),
        ) + "s"@
    } else {
        dec_digits(millis / (SECOND as int)) + "."@ + centi_digits(
            (millis % (SECOND as int)) / 10,
        ) + "s"@
    }
}

/// The one-character string of one decimal digit.
fn digit_str(d: u8) -> (r: &'static str)
    requires
        d < 10,
    ensures
        r@ == seq![digit_char(d as int)],
{
    proof {
        reveal_strlit("0");
        reveal_strlit("1");
        reveal_strlit("2");
        reveal_strlit("3");
        reveal_strlit("4");
        reveal_strlit("5");
        reveal_strlit("6");
        reveal_strlit("7");
        reveal_strlit("8");
        reveal_strlit("9");
    }
    let r = match d {
        0 => "0",
        1 => "1",
        2 => "2",
        3 => "3",
        4 => "4",
        5 => "5",
        6 => "6",
        7 => "7",
        8 => "8",
        _ => "9",
    };
    proof {
        assert(r@ =~= seq![digit_char(d as int)]);
    }
    r
}

/// The decimal digits of `rev`, read back to front.
spec fn rev_digit_chars(rev: Seq<u8>) -> Seq<char> {
    Seq::new(rev.len(), |i: int| digit_char(rev[rev.len() - 1 - i] as int))
}

/// Appends the decimal numeral of `n` to `out`.
fn push_dec(out: &mut String, n: u128)
    ensures
        final(out)@ == old(out)@ + dec_digits(n as int),
{
    let ghost base = out@;
    let mut rev: Vec<u8> = Vec::new();
    let mut m: u128 = n;
    proof {
        assert(rev_digit_chars(rev@) =~= Seq::<char>::empty());
        assert(dec_digits(n as int) + rev_digit_chars(rev@) =~= dec_digits(n as int));
    }
    loop
        invariant_except_break
            out@ == base,
            m > 0 || rev@.len() == 0,
            forall|j: int| 0 <= j < rev@.len() ==> #[trigger] rev@[j] < 10,
            dec_digits(n as int) == dec_digits(m as int) + rev_digit_chars(rev@),
        ensures
            out@ == base,
            forall|j: int| 0 <= j < rev@.len() ==> #[trigger] rev@[j] < 10,
            dec_digits(n as int) == rev_digit_chars(rev@),
            rev@.len() > 0,
        decreases m,
    {
        let d: u8 = (m % 10) as u8;
        let ghost m_top = m;
        let ghost rev_before = rev@;
        rev.push(d);
        proof {
            assert(rev_digit_chars(rev@) =~= seq![digit_char(d as int)] + rev_digit_chars(
                rev_before,
            ));
            if m_top >= 10 {
                assert(dec_digits(m_top as int) == dec_digits(m_top as int / 10).push(
                    digit_char(m_top as int % 10),
                ));
                assert(dec_digits(m_top as int / 10).push(digit_char(m_top as int % 10))
                    + rev_digit_chars(rev_before) =~= dec_digits(m_top as int / 10) + (seq![
                    digit_char(d as int)] + rev_digit_chars(rev_before)));
            } else {
                assert(dec_digits(m_top as int) =~= seq![digit_char(d as int)]);
            }
        }
        m = m / 10;
        if m == 0 {
            break;
        }
    }
    let count = rev.len();
    let mut k: usize = 0;
    while k < count
        invariant
            count == rev@.len(),
            k <= count,
            forall|j: int| 0 <= j < rev@.len() ==> #[trigger] rev@[j] < 10,
            out@ == base + rev_digit_chars(rev@).take(k as int),
            dec_digits(n as int) == rev_digit_chars(rev@),
        decreases count - k,
    {
        let d = rev[count - 1 - k];
        proof {
            assert(d < 10) by {
                assert(rev@[count as int - 1 - k as int] < 10);
            }
            assert(rev_digit_chars(rev@).take(k as int + 1) =~= rev_digit_chars(rev@).take(
                k as int,
            ).push(digit_char(d as int)));
        }
        out.append(digit_str(d));
        proof {
            assert(out@ =~= base + rev_digit_chars(rev@).take(k as int + 1));
        }
        k = k + 1;
    }
    proof {
        assert(rev_digit_chars(rev@).take(count as int) =~= rev_digit_chars(rev@));
    }
}

/// Renders a duration of `millis` milliseconds the way the renderer reports
/// its run time: `2h11m59s`, `3m20s`, `12.05s`.
pub fn human_duration(millis: u128) -> (r: String)
    ensures
        r@ == duration_text(millis as int),
{
    let mut out = String::new();
    if millis > HOUR {
        push_dec(&mut out, millis / HOUR);
        out.append("h");
        push_dec(&mut out, (millis % HOUR) / MINUTE);
        out.append("m");
        push_dec(&mut out, ((millis % HOUR) % MINUTE) / SECOND);
        out.append("s");
    } else if millis > MINUTE {
        push_dec(&mut out, millis / MINUTE);
        out.append("m");
        push_dec(&mut out, (millis % MINUTE) / SECOND);
        out.append("s");
    } else {
        push_dec(&mut out, millis / SECOND);
        out.append(".");
        let centi = (millis % SECOND) / 10;
        if centi < 10 {
            out.append("0");
        }
        push_dec(&mut out, centi);
        out.append("s");
    }
    proof {
        assert(out@ =~= duration_text(millis as int));
    }
    out
}

} // verus!
