//! Rendering of numbers and durations as text.

use vstd::prelude::*;

verus! {

/// The decimal digit character for a value below ten.
pub open spec fn digit_char(d: nat) -> char {
    if d == 0 {
        '0'
    } else if d == 1 {
        '1'
    } else if d == 2 {
        '2'
    } else if d == 3 {
        '3'
    } else if d == 4 {
        '4'
    } else if d == 5 {
        '5'
    } else if d == 6 {
        '6'
    } else if d == 7 {
        '7'
    } else if d == 8 {
        '8'
    } else {
        '9'
    }
}

/// The decimal rendering of a natural number, most significant digit first.
pub open spec fn dec_str(n: nat) -> Seq<char>
    decreases n,
{
    if n < 10 {
        seq![digit_char(n)]
    } else {
        dec_str(n / 10) + seq![digit_char(n % 10)]
    }
}

fn digit_str(d: u64) -> (s: &'static str)
    requires
        d < 10,
    ensures
        s@ == seq![digit_char(d as nat)],
{
    proof {
        reveal_strlit("0");
        reveal_strlit("1");
        reveal_strlit("2");
        reveal_strlit("3");
        reveal_strlit("4");
        reveal_strlit("5");
        reveal_strlit("6");
        reveal_strlit("7");
        reveal_strlit("8");
        reveal_strlit("9");
    }
    let s = match d {
        0 => "0",
        1 => "1",
        2 => "2",
        3 => "3",
        4 => "4",
        5 => "5",
        6 => "6",
        7 => "7",
        8 => "8",
        _ => "9",
    };
    proof {
        assert(s@ =~= seq![digit_char(d as nat)]);
    }
    s
}

/// Appends the decimal rendering of `n` to `out`.
pub fn append_decimal(out: &mut String, n: u64)
    ensures
        final(out)@ == old(out)@ + dec_str(n as nat),
    decreases n,
{
    let ghost start = out@;
    if n >= 10 {
        append_decimal(out, n / 10);
    }
    out.append(digit_str(n % 10));
    proof {
        if n < 10 {
            assert(n as nat % 10 == n as nat);
            assert(out@ =~= start + dec_str(n as nat));
        } else {
            assert(out@ =~= start + dec_str(n as nat));
        }
    }
}

/// The decimal rendering of `n` as an owned string.
pub fn to_decimal(n: u64) -> (s: String)
    ensures
        s@ == dec_str(n as nat),
{
    let mut s = String::new();
    append_decimal(&mut s, n);
    proof {
        assert(s@ =~= dec_str(n as nat));
    }
    s
}

/// The human-readable rendering of a duration of `millis` milliseconds:
/// whole minutes and seconds when at least a minute long, seconds with one
/// tenth digit when at least a second long, milliseconds otherwise.
pub open spec fn duration_str(millis: nat) -> Seq<char> {
    let total_seconds = millis / 1000;
    let minutes = total_seconds / 60;
    let seconds = total_seconds % 60;
    let sub_millis = millis % 1000;
    if minutes > 0 {
        dec_str(minutes) + "m "@ + dec_str(seconds) + "s"@
    } else if seconds > 0 {
        dec_str(seconds) + "."@ + dec_str(sub_millis / 100) + "s"@
    } else {
        dec_str(sub_millis) + "ms"@
    }
}

/// Formats a duration given in milliseconds as human-readable text.
pub fn format_duration(millis: u64) -> (s: String)
    ensures
        s@ == duration_str(millis as nat),
{
    let total_seconds = millis / 1000;
    let minutes = total_seconds / 60;
    let seconds = total_seconds % 60;
    let sub_millis = millis % 1000;
    let mut s = String::new();
    if minutes > 0 {
        append_decimal(&mut s, minutes);
        s.append("m ");
        append_decimal(&mut s, seconds);
        s.append("s");
    } else if seconds > 0 {
        append_decimal(&mut s, seconds);
        s.append(".");
        append_decimal(&mut s, sub_millis / 100);
        s.append("s");
    } else {
        append_decimal(&mut s, sub_millis);
        s.append("ms");
    }
    proof {
        assert(s@ =~= duration_str(millis as nat));
    }
    s
}

} // verus!
