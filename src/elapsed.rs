//! Human-readable elapsed times.
//!
//! An elapsed time is shown as its whole seconds, then its whole
//! milliseconds, then its microseconds when there are no milliseconds, each
//! part only when it is not zero, joined by ` : `; a time with none of these
//! parts shows as `0µs`.
use vstd::prelude::*;
use core::time::Duration;

verus! {

/// Relies on `Duration::as_secs`: the whole seconds of the duration.
pub assume_specification[ Duration::as_secs ](d: &Duration) -> (r: u64);

/// Relies on `Duration::subsec_nanos`: the fractional part in nanoseconds,
/// always below one second.
pub assume_specification[ Duration::subsec_nanos ](d: &Duration) -> (r: u32)
    ensures
        r < 1_000_000_000,
;

/// The decimal digit for `d`.
pub open spec fn digit_char(d: nat) -> char {
    if d == 0 {
        '0'
    } else if d == 1 {
        '1'
    } else if d == 2 {
        '2'
    } else if d == 3 {
        '3'
    } else if d == 4 {
        '4'
    } else if d == 5 {
        '5'
    } else if d == 6 {
        '6'
    } else if d == 7 {
        '7'
    } else if d == 8 {
        '8'
    } else {
        '9'
    }
}

/// The decimal text of `n`, without leading zeros.
pub open spec fn decimal(n: nat) -> Seq<char>
    decreases n,
{
    if n < 10 {
        seq![digit_char(n)]
    } else {
        decimal(n / 10).push(digit_char(n % 10))
    }
}

/// `parts` joined with ` : ` between each two.
pub open spec fn join_parts(parts: Seq<Seq<char>>) -> Seq<char>
    decreases parts.len(),
{
    if parts.len() == 0 {
        Seq::empty()
    } else if parts.len() == 1 {
        parts[0]
    } else {
        join_parts(parts.drop_last()) + seq![' ', ':', ' '] + parts.last()
    }
}

/// The parts shown for `secs` seconds and `nanos` nanoseconds.
pub open spec fn elapsed_parts(secs: u64, nanos: u32) -> Seq<Seq<char>> {
    let millis = nanos / 1_000_000;
    let micros = (nanos % 1_000_000) / 1_000;
    let a: Seq<Seq<char>> = if secs > 0 {
        seq![decimal(secs as nat).push('s')]
    } else {
        Seq::empty()
    };
    let b = if millis > 0 {
        a.push(decimal(millis as nat) + seq!['m', 's'])
    } else {
        a
    };
    let c = if micros > 0 && millis == 0 {
        b.push(decimal(micros as nat) + seq!['µ', 's'])
    } else {
        b
    };
    if c.len() == 0 {
        seq![seq!['0', 'µ', 's']]
    } else {
        c
    }
}

/// The text shown for `secs` seconds and `nanos` nanoseconds.
pub open spec fn elapsed_text(secs: u64, nanos: u32) -> Seq<char> {
    join_parts(elapsed_parts(secs, nanos))
}

fn digit_str(d: u64) -> (r: &'static str)
    requires
        d < 10,
    ensures
        r@ == seq![digit_char(d as nat)],
{
    proof {
        reveal_strlit("0");
        reveal_strlit("1");
        reveal_strlit("2");
        reveal_strlit("3");
        reveal_strlit("4");
        reveal_strlit("5");
        reveal_strlit("6");
        reveal_strlit("7");
        reveal_strlit("8");
        reveal_strlit("9");
    }
    if d == 0 {
        "0"
    } else if d == 1 {
        "1"
    } else if d == 2 {
        "2"
    } else if d == 3 {
        "3"
    } else if d == 4 {
        "4"
    } else if d == 5 {
        "5"
    } else if d == 6 {
        "6"
    } else if d == 7 {
        "7"
    } else if d == 8 {
        "8"
    } else {
        "9"
    }
}

/// Appends the decimal text of `n` to `s`.
fn push_decimal(s: &mut String, n: u64)
    ensures
        final(s)@ == old(s)@ + decimal(n as nat),
    decreases n,
{
    if n >= 10 {
        push_decimal(s, n / 10);
    }
    s.append(digit_str(n % 10));
    proof {
        if n >= 10 {
            assert(old(s)@ + decimal(n as nat) =~= old(s)@ + decimal((n / 10) as nat) + seq![
                digit_char((n % 10) as nat),
            ]);
        } else {
            assert(old(s)@ + decimal(n as nat) =~= old(s)@ + seq![digit_char((n % 10) as nat)]);
        }
    }
}

/// Appends ` : ` to `s` unless it is empty.
fn push_separator(s: &mut String, first: bool)
    ensures
        first ==> final(s)@ == old(s)@,
        !first ==> final(s)@ == old(s)@ + seq![' ', ':', ' '],
{
    if !first {
        proof {
            reveal_strlit(" : ");
        }
        s.append(" : ");
    }
}

/// Formats `secs` seconds and `nanos` nanoseconds.
pub fn format_elapsed_parts(secs: u64, nanos: u32) -> (r: String)
    ensures
        r@ == elapsed_text(secs, nanos),
{
    proof {
        reveal_strlit("s");
        reveal_strlit("ms");
        reveal_strlit("µs");
        reveal_strlit("0µs");
    }
    let millis = nanos / 1_000_000;
    let micros = (nanos % 1_000_000) / 1_000;
    let ghost parts = elapsed_parts(secs, nanos);
    let ghost a: Seq<Seq<char>> = if secs > 0 {
        seq![decimal(secs as nat).push('s')]
    } else {
        Seq::empty()
    };
    let ghost b = if millis > 0 {
        a.push(decimal(millis as nat) + seq!['m', 's'])
    } else {
        a
    };
    let mut out = String::new();
    let mut empty = true;
    if secs > 0 {
        push_decimal(&mut out, secs);
        out.append("s");
        empty = false;
    }
    assert(out@ =~= join_parts(a));
    if millis > 0 {
        push_separator(&mut out, empty);
        push_decimal(&mut out, millis as u64);
        out.append("ms");
        proof {
            let bb = a.push(decimal(millis as nat) + seq!['m', 's']);
            assert(bb.drop_last() =~= a);
            assert(out@ =~= join_parts(bb));
        }
        empty = false;
    }
    assert(out@ =~= join_parts(b));
    assert(empty == (b.len() == 0));
    if micros > 0 && millis == 0 {
        push_separator(&mut out, empty);
        push_decimal(&mut out, micros as u64);
        out.append("µs");
        proof {
            let cc = b.push(decimal(micros as nat) + seq!['µ', 's']);
            assert(cc.drop_last() =~= b);
            assert(out@ =~= join_parts(cc));
        }
        empty = false;
    }
    if empty {
        out.append("0µs");
        proof {
            assert(out@ =~= join_parts(parts));
        }
    }
    out
}

/// Formats an elapsed time: some whole seconds and fractional nanoseconds
/// of it give exactly the text returned.
pub fn format_elapsed(elapsed: Duration) -> (r: String)
    ensures
        exists|secs: u64, nanos: u32| nanos < 1_000_000_000 && r@ == elapsed_text(secs, nanos),
{
    let secs = elapsed.as_secs();
    let nanos = elapsed.subsec_nanos();
    format_elapsed_parts(secs, nanos)
}

} // verus!
