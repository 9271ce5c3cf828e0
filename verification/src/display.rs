//! Durations as text for the eye: the stopwatch's reading, and the time
//! spoken in a category.

use crate::speeches::{decimal, push_decimal};
use vstd::prelude::*;
use vstd::string::*;

verus! {

/// `n` in decimal, with a zero in front where it has one digit only.
pub open spec fn padded(n: nat) -> Seq<char> {
    if n < 10 {
        seq!['0'] + decimal(n)
    } else {
        decimal(n)
    }
}

/// A stopwatch's reading: minutes, seconds and hundredths of a second, as
/// `MM:SS.CC`. The minutes are not cut at an hour.
pub open spec fn stopwatch_text(nanos: nat) -> Seq<char> {
    let hundredths = nanos / 10_000_000;
    padded(hundredths / 6000) + seq![':'] + padded(hundredths / 100 % 60) + seq!['.'] + padded(
        hundredths % 100,
    )
}

/// A time in hours, minutes and whole seconds, as `Hh MMm SSs`.
pub open spec fn h_m_s_text(nanos: nat) -> Seq<char> {
    let seconds = nanos / 1_000_000_000;
    decimal(seconds / 3600) + seq!['h', ' '] + padded(seconds / 60 % 60) + seq!['m', ' '] + padded(
        seconds % 60,
    ) + seq!['s']
}

/// Writes `n` at the end of `out`, in two digits at least.
fn push_padded(out: &mut String, n: u128)
    ensures
        final(out)@ == old(out)@ + padded(n as nat),
{
    if n < 10 {
        proof {
            reveal_strlit("0");
        }
        out.append("0");
    }
    push_decimal(out, n);
    assert(out@ =~= old(out)@ + padded(n as nat));
}

/// The reading of a stopwatch that shows `nanos` nanoseconds.
pub fn to_display(nanos: u64) -> (text: String)
    ensures
        text@ == stopwatch_text(nanos as nat),
{
    let hundredths: u128 = (nanos / 10_000_000) as u128;
    let mut text = String::new();
    proof {
        reveal_strlit(":");
        reveal_strlit(".");
    }
    push_padded(&mut text, hundredths / 6000);
    text.append(":");
    push_padded(&mut text, hundredths / 100 % 60);
    text.append(".");
    push_padded(&mut text, hundredths % 100);
    assert(text@ =~= stopwatch_text(nanos as nat));
    text
}

/// A time of `nanos` nanoseconds in hours, minutes and seconds.
pub fn to_display_h_m_s(nanos: u128) -> (text: String)
    ensures
        text@ == h_m_s_text(nanos as nat),
{
    let seconds: u128 = nanos / 1_000_000_000;
    let mut text = String::new();
    proof {
        reveal_strlit("h ");
        reveal_strlit("m ");
        reveal_strlit("s");
    }
    push_decimal(&mut text, seconds / 3600);
    text.append("h ");
    push_padded(&mut text, seconds / 60 % 60);
    text.append("m ");
    push_padded(&mut text, seconds % 60);
    text.append("s");
    assert(text@ =~= h_m_s_text(nanos as nat));
    text
}

} // verus!
