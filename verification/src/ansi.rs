//! Removal of ANSI escape sequences from captured lines.
//!
//! The sequences stripped are ESC `[`, any run of parameter bytes (digits and
//! semicolons), and a final `m` or `K`. Removal proceeds left to right over
//! non-overlapping matches, exactly as a leftmost-match replace-all does; a
//! malformed sequence (no final byte) is kept verbatim.

use vstd::prelude::*;

verus! {

/// Parameter bytes of an escape sequence: ASCII digits and `;`.
pub open spec fn is_ansi_param_byte(b: u8) -> bool {
    (48 <= b <= 57) || b == 59
}

/// Final bytes of a stripped sequence: `m` or `K`.
pub open spec fn is_ansi_final_byte(b: u8) -> bool {
    b == 109 || b == 75
}

/// Length of the run of parameter bytes at the front of `s`.
pub open spec fn param_run_len(s: Seq<u8>) -> int
    decreases s.len(),
{
    if s.len() == 0 {
        0
    } else if !is_ansi_param_byte(s[0]) {
        0
    } else {
        1 + param_run_len(s.drop_first())
    }
}

/// A scan that passed `r` parameter bytes and stopped measures the run.
pub proof fn lemma_param_run_scan(s: Seq<u8>, r: int)
    requires
        0 <= r <= s.len(),
        forall|k: int| 0 <= k < r ==> is_ansi_param_byte(#[trigger] s[k]),
        r == s.len() || !is_ansi_param_byte(s[r]),
    ensures
        param_run_len(s) == r,
    decreases r,
{
    if r > 0 {
        let t = s.drop_first();
        assert forall|k: int| 0 <= k < r - 1 implies is_ansi_param_byte(#[trigger] t[k]) by {
            assert(t[k] == s[k + 1]);
        }
        lemma_param_run_scan(t, r - 1);
    }
}

/// Length of the escape sequence at the front of `s`, or 0 when `s` does not
/// start with a complete one.
pub open spec fn ansi_match_len(s: Seq<u8>) -> int {
    if s.len() >= 2 && s[0] == 27 && s[1] == 91 {
        let k = param_run_len(s.skip(2));
        if 2 + k < s.len() && is_ansi_final_byte(s[2 + k]) {
            3 + k
        } else {
            0
        }
    } else {
        0
    }
}

/// `s` with every escape sequence removed, scanning left to right.
pub open spec fn strip_ansi(s: Seq<u8>) -> Seq<u8>
    decreases s.len(),
{
    if s.len() == 0 {
        seq![]
    } else {
        let m = ansi_match_len(s);
        if 0 < m <= s.len() {
            strip_ansi(s.skip(m))
        } else {
            seq![s[0]] + strip_ansi(s.drop_first())
        }
    }
}

/// A line without an escape byte is left exactly as it came.
pub proof fn lemma_strip_ansi_no_escape(s: Seq<u8>)
    requires
        forall|j: int| 0 <= j < s.len() ==> s[j] != 27,
    ensures
        strip_ansi(s) == s,
    decreases s.len(),
{
    if s.len() != 0 {
        let t = s.drop_first();
        assert forall|j: int| 0 <= j < t.len() implies t[j] != 27 by {
            assert(t[j] == s[j + 1]);
        }
        lemma_strip_ansi_no_escape(t);
        assert(strip_ansi(s) =~= s);
    }
}

/// Removes every complete escape sequence from `line`. The scan is skipped
/// entirely when the line holds no escape byte.
pub fn strip_ansi_bytes(line: &[u8]) -> (out: Vec<u8>)
    ensures
        out@ == strip_ansi(line@),
{
    let n = line.len();
    let mut has_escape = false;
    let mut i: usize = 0;
    while i < n
        invariant
            n == line@.len(),
            i <= n,
            has_escape ==> exists|j: int| 0 <= j < n && line@[j] == 27,
            !has_escape ==> forall|j: int| 0 <= j < i ==> line@[j] != 27,
        decreases n - i,
    {
        if line[i] == 27 {
            has_escape = true;
        }
        i = i + 1;
    }
    if !has_escape {
        proof {
            lemma_strip_ansi_no_escape(line@);
        }
        return vstd::slice::slice_to_vec(line);
    }
    let mut out: Vec<u8> = Vec::new();
    let mut i: usize = 0;
    proof {
        assert(line@.skip(0) =~= line@);
    }
    while i < n
        invariant
            n == line@.len(),
            i <= n,
            strip_ansi(line@) == out@ + strip_ansi(line@.skip(i as int)),
        decreases n - i,
    {
        let ghost rest = line@.skip(i as int);
        let mut matched: usize = 0;
        if line[i] == 27 && i + 1 < n && line[i + 1] == 91 {
            let mut j = i + 2;
            while j < n && 48 <= line[j] && line[j] <= 59 && line[j] != 58
                invariant
                    n == line@.len(),
                    i + 2 <= j <= n,
                    forall|k: int| i + 2 <= k < j ==> is_ansi_param_byte(#[trigger] line@[k]),
                decreases n - j,
            {
                j = j + 1;
            }
            proof {
                let tail = rest.skip(2);
                assert(tail =~= line@.skip(i + 2));
                assert forall|k: int| 0 <= k < j - (i + 2) implies is_ansi_param_byte(
                    #[trigger] tail[k],
                ) by {
                    assert(tail[k] == line@[i + 2 + k]);
                }
                if j < n {
                    assert(tail[j - (i + 2)] == line@[j as int]);
                }
                lemma_param_run_scan(tail, j - (i + 2));
            }
            if j < n && (line[j] == 109 || line[j] == 75) {
                matched = j + 1 - i;
                proof {
                    assert(rest[0] == 27 && rest[1] == 91);
                    assert(rest[2 + param_run_len(rest.skip(2))] == line@[j as int]);
                    assert(ansi_match_len(rest) == matched);
                }
            }
        }
        if matched > 0 {
            proof {
                assert(strip_ansi(rest) == strip_ansi(rest.skip(matched as int)));
                assert(rest.skip(matched as int) =~= line@.skip(i + matched));
            }
            i = i + matched;
        } else {
            out.push(line[i]);
            proof {
                assert(ansi_match_len(rest) == 0);
                assert(strip_ansi(rest) == seq![rest[0]] + strip_ansi(rest.drop_first()));
                assert(rest.drop_first() =~= line@.skip(i + 1));
                assert(rest[0] == line@[i as int]);
                assert(out@ + strip_ansi(line@.skip(i + 1)) =~= strip_ansi(line@));
            }
            i = i + 1;
        }
    }
    proof {
        assert(line@.skip(n as int) =~= Seq::<u8>::empty());
        assert(out@ =~= strip_ansi(line@));
    }
    out
}

} // verus!
