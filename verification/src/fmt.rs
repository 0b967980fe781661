//! Verified text formatting: decimal digits with zero padding, the elapsed
//! timestamp prefix of log lines, and the default log filename.

use vstd::prelude::*;

use crate::clock::TimeParts;
use crate::constants::{MILLIS_PER_HOUR, MILLIS_PER_MINUTE, MILLIS_PER_SECOND};

verus! {

/// The decimal digits of `n`, most significant first, as ASCII bytes.
pub open spec fn dec_digits(n: nat) -> Seq<u8>
    decreases n,
{
    if n < 10 {
        seq![(48 + n) as u8]
    } else {
        dec_digits(n / 10) + seq![(48 + n % 10) as u8]
    }
}

/// The decimal digits of `n`, left-padded with ASCII zeros to at least `width`.
pub open spec fn zero_padded(n: nat, width: nat) -> Seq<u8> {
    if dec_digits(n).len() >= width {
        dec_digits(n)
    } else {
        Seq::new((width - dec_digits(n).len()) as nat, |i: int| 48u8) + dec_digits(n)
    }
}

/// How many digits small numbers have.
pub proof fn lemma_dec_digits_len(n: nat)
    ensures
        1 <= dec_digits(n).len(),
        n < 10 ==> dec_digits(n).len() == 1,
        n < 100 ==> dec_digits(n).len() <= 2,
        n < 1000 ==> dec_digits(n).len() <= 3,
        n < 10000 ==> dec_digits(n).len() <= 4,
        n >= 10 ==> dec_digits(n).len() >= 2,
        n >= 100 ==> dec_digits(n).len() >= 3,
        n >= 1000 ==> dec_digits(n).len() >= 4,
    decreases n,
{
    if n >= 10 {
        lemma_dec_digits_len(n / 10);
    }
}

/// Every formatted digit is an ASCII byte.
pub proof fn lemma_dec_digits_ascii(n: nat)
    ensures
        forall|i: int| 0 <= i < dec_digits(n).len() ==> 48 <= #[trigger] dec_digits(n)[i] <= 57,
    decreases n,
{
    if n >= 10 {
        lemma_dec_digits_ascii(n / 10);
        assert forall|i: int| 0 <= i < dec_digits(n).len() implies 48 <= #[trigger] dec_digits(
            n,
        )[i] <= 57 by {
            if i < dec_digits(n / 10).len() {
                assert(dec_digits(n)[i] == dec_digits(n / 10)[i]);
            } else {
                assert(dec_digits(n)[i] == (48 + n % 10) as u8);
            }
        }
    }
}

/// Appends the decimal digits of `n` to `out`.
pub fn push_decimal(out: &mut Vec<u8>, n: u64)
    ensures
        final(out)@ == old(out)@ + dec_digits(n as nat),
    decreases n,
{
    if n < 10 {
        out.push(48 + n as u8);
    } else {
        push_decimal(out, n / 10);
        out.push(48 + (n % 10) as u8);
        assert(out@ =~= old(out)@ + dec_digits(n as nat));
    }
}

/// Appends the decimal digits of `n`, zero-padded to at least two places.
pub fn push_padded2(out: &mut Vec<u8>, n: u64)
    ensures
        final(out)@ == old(out)@ + zero_padded(n as nat, 2),
{
    proof {
        lemma_dec_digits_len(n as nat);
    }
    if n < 10 {
        out.push(48);
    }
    push_decimal(out, n);
    proof {
        if n < 10 {
            assert(out@ =~= old(out)@ + zero_padded(n as nat, 2));
        }
    }
}

/// Appends the decimal digits of `n`, zero-padded to at least three places.
pub fn push_padded3(out: &mut Vec<u8>, n: u64)
    ensures
        final(out)@ == old(out)@ + zero_padded(n as nat, 3),
{
    proof {
        lemma_dec_digits_len(n as nat);
    }
    if n < 10 {
        out.push(48);
        out.push(48);
    } else if n < 100 {
        out.push(48);
    }
    push_decimal(out, n);
    proof {
        if n < 100 {
            assert(out@ =~= old(out)@ + zero_padded(n as nat, 3));
        }
    }
}

/// Appends the decimal digits of `n`, zero-padded to at least four places.
pub fn push_padded4(out: &mut Vec<u8>, n: u64)
    ensures
        final(out)@ == old(out)@ + zero_padded(n as nat, 4),
{
    proof {
        lemma_dec_digits_len(n as nat);
    }
    if n < 10 {
        out.push(48);
        out.push(48);
        out.push(48);
    } else if n < 100 {
        out.push(48);
        out.push(48);
    } else if n < 1000 {
        out.push(48);
    }
    push_decimal(out, n);
    proof {
        if n < 1000 {
            assert(out@ =~= old(out)@ + zero_padded(n as nat, 4));
        }
    }
}

/// The `HH:MM:SS:mmmms` rendering of an elapsed time in milliseconds.
pub open spec fn timestamp_bytes(elapsed_ms: u64) -> Seq<u8> {
    zero_padded((elapsed_ms as nat) / (MILLIS_PER_HOUR as nat), 2) + seq![58u8] + zero_padded(
        ((elapsed_ms as nat) % (MILLIS_PER_HOUR as nat)) / (MILLIS_PER_MINUTE as nat),
        2,
    ) + seq![58u8] + zero_padded(
        ((elapsed_ms as nat) % (MILLIS_PER_MINUTE as nat)) / (MILLIS_PER_SECOND as nat),
        2,
    ) + seq![58u8] + zero_padded((elapsed_ms as nat) % (MILLIS_PER_SECOND as nat), 3) + seq![
        109u8,
        115u8,
    ]
}

/// Renders an elapsed time since log-open as `HH:MM:SS:mmmms`.
pub fn format_timestamp(elapsed_ms: u64) -> (out: Vec<u8>)
    ensures
        out@ == timestamp_bytes(elapsed_ms),
{
    let mut out: Vec<u8> = Vec::new();
    push_padded2(&mut out, elapsed_ms / MILLIS_PER_HOUR);
    out.push(58);
    push_padded2(&mut out, (elapsed_ms % MILLIS_PER_HOUR) / MILLIS_PER_MINUTE);
    out.push(58);
    push_padded2(&mut out, (elapsed_ms % MILLIS_PER_MINUTE) / MILLIS_PER_SECOND);
    out.push(58);
    push_padded3(&mut out, elapsed_ms % MILLIS_PER_SECOND);
    out.push(109);
    out.push(115);
    assert(out@ =~= timestamp_bytes(elapsed_ms));
    out
}

/// Years before the common era render as year zero in filenames.
pub open spec fn year_value(year: i32) -> nat {
    if year < 0 {
        0
    } else {
        year as nat
    }
}

/// The `log_YYYYMMDD_HHMMSS.txt` filename for a log opened at the given time.
pub open spec fn log_filename_bytes(t: TimeParts) -> Seq<u8> {
    seq![108u8, 111u8, 103u8, 95u8] + zero_padded(year_value(t.year), 4) + zero_padded(
        t.month as nat,
        2,
    ) + zero_padded(t.day as nat, 2) + seq![95u8] + zero_padded(t.hour as nat, 2) + zero_padded(
        t.minute as nat,
        2,
    ) + zero_padded(t.second as nat, 2) + seq![46u8, 116u8, 120u8, 116u8]
}

/// Renders the default filename for a log opened at the given time.
pub fn format_log_filename(t: &TimeParts) -> (out: Vec<u8>)
    ensures
        out@ == log_filename_bytes(*t),
{
    let mut out: Vec<u8> = Vec::new();
    out.push(108);
    out.push(111);
    out.push(103);
    out.push(95);
    let year: u64 = if t.year < 0 {
        0
    } else {
        t.year as u64
    };
    push_padded4(&mut out, year);
    push_padded2(&mut out, t.month as u64);
    push_padded2(&mut out, t.day as u64);
    out.push(95);
    push_padded2(&mut out, t.hour as u64);
    push_padded2(&mut out, t.minute as u64);
    push_padded2(&mut out, t.second as u64);
    out.push(46);
    out.push(116);
    out.push(120);
    out.push(116);
    assert(out@ =~= log_filename_bytes(*t));
    out
}

/// Everything `zero_padded` emits is an ASCII byte.
pub proof fn lemma_zero_padded_ascii(n: nat, width: nat)
    ensures
        forall|i: int|
            0 <= i < zero_padded(n, width).len() ==> #[trigger] zero_padded(n, width)[i] < 0x80,
{
    lemma_dec_digits_ascii(n);
}

/// The filename rendering is pure ASCII.
pub proof fn lemma_log_filename_ascii(t: TimeParts)
    ensures
        forall|i: int|
            0 <= i < log_filename_bytes(t).len() ==> #[trigger] log_filename_bytes(t)[i] < 0x80,
{
    lemma_zero_padded_ascii(year_value(t.year), 4);
    lemma_zero_padded_ascii(t.month as nat, 2);
    lemma_zero_padded_ascii(t.day as nat, 2);
    lemma_zero_padded_ascii(t.hour as nat, 2);
    lemma_zero_padded_ascii(t.minute as nat, 2);
    lemma_zero_padded_ascii(t.second as nat, 2);
}

} // verus!
