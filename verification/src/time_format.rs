//! Decimal rendering of elapsed times and the loading titles of a list view.
//! Times are millisecond counts supplied by the caller's clock.

use vstd::prelude::*;
use vstd::string::StringExecFns;

use crate::generic_list::LoadingOperation;
use crate::strutil::chars_to_string;

verus! {

/// The decimal digit character of `d`.
pub open spec fn digit_char(d: nat) -> char {
    if d == 0 {
        '0'
    } else if d == 1 {
        '1'
    } else if d == 2 {
        '2'
    } else if d == 3 {
        '3'
    } else if d == 4 {
        '4'
    } else if d == 5 {
        '5'
    } else if d == 6 {
        '6'
    } else if d == 7 {
        '7'
    } else if d == 8 {
        '8'
    } else {
        '9'
    }
}

/// The decimal digits of `n`, most significant first, without leading zeros
/// (a single `'0'` for zero).
pub open spec fn dec_digits(n: nat) -> Seq<char>
    decreases n,
{
    if n < 10 {
        seq![digit_char(n)]
    } else {
        dec_digits(n / 10).push(digit_char(n % 10))
    }
}

fn digit_char_of(d: u64) -> (c: char)
    requires
        d < 10,
    ensures
        c == digit_char(d as nat),
{
    if d == 0 {
        '0'
    } else if d == 1 {
        '1'
    } else if d == 2 {
        '2'
    } else if d == 3 {
        '3'
    } else if d == 4 {
        '4'
    } else if d == 5 {
        '5'
    } else if d == 6 {
        '6'
    } else if d == 7 {
        '7'
    } else if d == 8 {
        '8'
    } else {
        '9'
    }
}

/// The decimal digits of `n`.
pub fn u64_to_dec_chars(n: u64) -> (v: Vec<char>)
    ensures
        v@ == dec_digits(n as nat),
    decreases n,
{
    if n < 10 {
        let mut v: Vec<char> = Vec::new();
        v.push(digit_char_of(n));
        proof {
            assert(v@ =~= dec_digits(n as nat));
        }
        v
    } else {
        let mut v = u64_to_dec_chars(n / 10);
        v.push(digit_char_of(n % 10));
        v
    }
}

/// An elapsed time in milliseconds, shown as seconds with one decimal:
/// digits, a dot, the tenth of a second, and `s`.
pub open spec fn elapsed_text(ms: nat) -> Seq<char> {
    dec_digits(ms / 1000) + seq!['.', digit_char((ms % 1000) / 100), 's']
}

/// Renders an elapsed time, as the loading titles show it.
pub fn format_time_elapsed(elapsed_ms: u64) -> (r: String)
    ensures
        r@ == elapsed_text(elapsed_ms as nat),
{
    let mut v = u64_to_dec_chars(elapsed_ms / 1000);
    v.push('.');
    v.push(digit_char_of((elapsed_ms % 1000) / 100));
    v.push('s');
    proof {
        assert(v@ =~= elapsed_text(elapsed_ms as nat));
    }
    chars_to_string(&v)
}

/// `now - start`, or zero when the clock went backwards.
pub open spec fn saturating_elapsed(now: nat, start: nat) -> nat {
    if now >= start {
        (now - start) as nat
    } else {
        0
    }
}

/// The title of a list view under a given loading marker.
pub open spec fn title_text(loading: LoadingOperation, now_ms: nat) -> Seq<char> {
    match loading {
        LoadingOperation::Idle => "Items"@,
        LoadingOperation::Loading(t) => "Loading... ("@ + elapsed_text(
            saturating_elapsed(now_ms, t as nat),
        ) + ")"@,
        LoadingOperation::Processing(t) => "Processing... ("@ + elapsed_text(
            saturating_elapsed(now_ms, t as nat),
        ) + ")"@,
        LoadingOperation::ProcessingWithProgress(t, current, total) => "Processing "@ + dec_digits(
            current as nat,
        ) + "/"@ + dec_digits(total as nat) + "... ("@ + elapsed_text(
            saturating_elapsed(now_ms, t as nat),
        ) + ")"@,
    }
}

/// The title of a list view: plain when idle, otherwise the operation with
/// its elapsed time and, for bulk work, its progress.
pub fn list_title(loading: &LoadingOperation, now_ms: u64) -> (r: String)
    ensures
        r@ == title_text(*loading, now_ms as nat),
{
    match loading {
        LoadingOperation::Idle => "Items".to_owned(),
        LoadingOperation::Loading(t) => {
            let started = *t;
            let elapsed = if now_ms >= started {
                now_ms - started
            } else {
                0
            };
            let mut s = "Loading... (".to_owned();
            let e = format_time_elapsed(elapsed);
            s.append(e.as_str());
            s.append(")");
            s
        },
        LoadingOperation::Processing(t) => {
            let started = *t;
            let elapsed = if now_ms >= started {
                now_ms - started
            } else {
                0
            };
            let mut s = "Processing... (".to_owned();
            let e = format_time_elapsed(elapsed);
            s.append(e.as_str());
            s.append(")");
            s
        },
        LoadingOperation::ProcessingWithProgress(t, current, total) => {
            let started = *t;
            let elapsed = if now_ms >= started {
                now_ms - started
            } else {
                0
            };
            let mut s = "Processing ".to_owned();
            let c = chars_to_string(&u64_to_dec_chars(*current as u64));
            s.append(c.as_str());
            s.append("/");
            let tt = chars_to_string(&u64_to_dec_chars(*total as u64));
            s.append(tt.as_str());
            s.append("... (");
            let e = format_time_elapsed(elapsed);
            s.append(e.as_str());
            s.append(")");
            s
        },
    }
}

} // verus!
