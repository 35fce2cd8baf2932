//! Parsing a control command from the bytes of one request.
//!
//! One connection carries one short ASCII command, possibly padded with
//! whitespace or a trailing newline. The bytes are trimmed at both ends
//! and matched, case-sensitively, against the five known commands; every
//! other request is an unknown command, which the service ignores.

use vstd::prelude::*;

verus! {

/// A control command, as decoded from one request.
#[derive(Clone, Copy, PartialEq, Eq, Structural, Debug)]
pub enum Command {
    /// Begin or resume the countdown.
    Start,
    /// Pause the countdown and retain the remainder.
    Stop,
    /// Clear back to the default duration, idle.
    Reset,
    /// Query the current remaining time.
    Remaining,
    /// Query a snapshot of the whole session.
    Show,
    /// Anything else: ignored.
    Unknown,
}

/// ASCII whitespace, as `str::trim` sees it.
pub open spec fn is_space(b: u8) -> bool {
    b == 32 || b == 9 || b == 10 || b == 11 || b == 12 || b == 13
}

/// `s` without its leading whitespace.
pub open spec fn trim_front(s: Seq<u8>) -> Seq<u8>
    decreases s.len(),
{
    if s.len() > 0 && is_space(s[0]) {
        trim_front(s.drop_first())
    } else {
        s
    }
}

/// `s` without its trailing whitespace.
pub open spec fn trim_back(s: Seq<u8>) -> Seq<u8>
    decreases s.len(),
{
    if s.len() > 0 && is_space(s[s.len() - 1]) {
        trim_back(s.drop_last())
    } else {
        s
    }
}

/// `s` without whitespace at either end.
pub open spec fn spec_trim(s: Seq<u8>) -> Seq<u8> {
    trim_back(trim_front(s))
}

/// The bytes of "start".
pub open spec fn start_bytes() -> Seq<u8> {
    seq![115u8, 116u8, 97u8, 114u8, 116u8]
}

/// The bytes of "stop".
pub open spec fn stop_bytes() -> Seq<u8> {
    seq![115u8, 116u8, 111u8, 112u8]
}

/// The bytes of "reset".
pub open spec fn reset_bytes() -> Seq<u8> {
    seq![114u8, 101u8, 115u8, 101u8, 116u8]
}

/// The bytes of "remaining".
pub open spec fn remaining_bytes() -> Seq<u8> {
    seq![114u8, 101u8, 109u8, 97u8, 105u8, 110u8, 105u8, 110u8, 103u8]
}

/// The bytes of "show".
pub open spec fn show_bytes() -> Seq<u8> {
    seq![115u8, 104u8, 111u8, 119u8]
}

/// The command the bytes of one request stand for: the request trimmed
/// of whitespace at both ends, matched exactly against the five known
/// commands.
pub open spec fn spec_parse(s: Seq<u8>) -> Command {
    let t = spec_trim(s);
    if t == start_bytes() {
        Command::Start
    } else if t == stop_bytes() {
        Command::Stop
    } else if t == reset_bytes() {
        Command::Reset
    } else if t == remaining_bytes() {
        Command::Remaining
    } else if t == show_bytes() {
        Command::Show
    } else {
        Command::Unknown
    }
}

/// ASCII whitespace, as `str::trim` sees it.
fn is_space_byte(b: u8) -> (r: bool)
    ensures
        r == is_space(b),
{
    b == 32 || b == 9 || b == 10 || b == 11 || b == 12 || b == 13
}

/// Dropping a whitespace prefix does not change the trimmed front.
proof fn lemma_trim_front_skip(s: Seq<u8>, k: int)
    requires
        0 <= k <= s.len(),
        forall|i: int| 0 <= i < k ==> is_space(s[i]),
    ensures
        trim_front(s) == trim_front(s.subrange(k, s.len() as int)),
    decreases k,
{
    if k > 0 {
        assert(is_space(s[0]));
        assert(s.drop_first() =~= s.subrange(1, s.len() as int));
        lemma_trim_front_skip(s.drop_first(), k - 1);
        assert(s.drop_first().subrange(k - 1, s.drop_first().len() as int) =~= s.subrange(
            k,
            s.len() as int,
        ));
    } else {
        assert(s.subrange(0, s.len() as int) =~= s);
    }
}

/// Dropping a whitespace suffix does not change the trimmed back.
proof fn lemma_trim_back_skip(s: Seq<u8>, k: int)
    requires
        0 <= k <= s.len(),
        forall|i: int| s.len() - k <= i < s.len() ==> is_space(s[i]),
    ensures
        trim_back(s) == trim_back(s.subrange(0, s.len() - k)),
    decreases k,
{
    if k > 0 {
        assert(is_space(s[s.len() - 1]));
        assert(s.drop_last() =~= s.subrange(0, s.len() - 1));
        lemma_trim_back_skip(s.drop_last(), k - 1);
        assert(s.drop_last().subrange(0, s.drop_last().len() - (k - 1)) =~= s.subrange(
            0,
            s.len() - k,
        ));
    } else {
        assert(s.subrange(0, s.len() as int) =~= s);
    }
}

/// The bounds of the whitespace-trimmed region of `buf`:
/// `buf[lo..hi]` is exactly `spec_trim(buf@)`.
fn trim_bounds(buf: &[u8]) -> (r: (usize, usize))
    ensures
        r.0 <= r.1 <= buf@.len(),
        buf@.subrange(r.0 as int, r.1 as int) == spec_trim(buf@),
{
    let n = buf.len();
    let mut lo: usize = 0;
    while lo < n && is_space_byte(buf[lo])
        invariant
            lo <= n == buf@.len(),
            forall|i: int| 0 <= i < lo ==> is_space(buf@[i]),
        decreases n - lo,
    {
        lo = lo + 1;
    }
    proof {
        lemma_trim_front_skip(buf@, lo as int);
        // At `lo` the front is settled: empty, or starting with a non-space.
        assert(trim_front(buf@.subrange(lo as int, n as int)) == buf@.subrange(
            lo as int,
            n as int,
        ));
    }
    let mut hi: usize = n;
    while hi > lo && is_space_byte(buf[hi - 1])
        invariant
            lo <= hi <= n == buf@.len(),
            forall|i: int| hi <= i < n ==> is_space(buf@[i]),
            trim_front(buf@) == buf@.subrange(lo as int, n as int),
        decreases hi,
    {
        hi = hi - 1;
    }
    proof {
        let front = buf@.subrange(lo as int, n as int);
        assert(forall|i: int| front.len() - (n - hi) <= i < front.len() ==> is_space(front[i]));
        lemma_trim_back_skip(front, n - hi);
        assert(front.subrange(0, front.len() - (n - hi)) =~= buf@.subrange(lo as int, hi as int));
        // At `hi` the back is settled: empty, or ending with a non-space.
        assert(trim_back(buf@.subrange(lo as int, hi as int)) == buf@.subrange(
            lo as int,
            hi as int,
        ));
    }
    (lo, hi)
}

/// Decode the bytes of one request into a command: trim ASCII whitespace
/// at both ends, then match exactly against the five known commands.
pub fn parse_command(buf: &[u8]) -> (c: Command)
    ensures
        c == spec_parse(buf@),
{
    let (lo, hi) = trim_bounds(buf);
    let ghost t = spec_trim(buf@);
    let n = hi - lo;
    if n == 5 && buf[lo] == 115 && buf[lo + 1] == 116 && buf[lo + 2] == 97 && buf[lo + 3] == 114
        && buf[lo + 4] == 116 {
        proof {
            assert(t =~= start_bytes());
        }
        Command::Start
    } else if n == 4 && buf[lo] == 115 && buf[lo + 1] == 116 && buf[lo + 2] == 111 && buf[lo + 3]
        == 112 {
        proof {
            assert(t =~= stop_bytes());
        }
        Command::Stop
    } else if n == 5 && buf[lo] == 114 && buf[lo + 1] == 101 && buf[lo + 2] == 115 && buf[lo + 3]
        == 101 && buf[lo + 4] == 116 {
        proof {
            assert(t =~= reset_bytes());
        }
        Command::Reset
    } else if n == 9 && buf[lo] == 114 && buf[lo + 1] == 101 && buf[lo + 2] == 109 && buf[lo + 3]
        == 97 && buf[lo + 4] == 105 && buf[lo + 5] == 110 && buf[lo + 6] == 105 && buf[lo + 7]
        == 110 && buf[lo + 8] == 103 {
        proof {
            assert(t =~= remaining_bytes());
        }
        Command::Remaining
    } else if n == 4 && buf[lo] == 115 && buf[lo + 1] == 104 && buf[lo + 2] == 111 && buf[lo + 3]
        == 119 {
        proof {
            assert(t =~= show_bytes());
        }
        Command::Show
    } else {
        proof {
            // In each case the trimmed bytes would have to spell the
            // keyword out, against the branch taken above.
            if t == start_bytes() {
                assert(t.len() == 5 && t[0] == 115 && t[1] == 116 && t[2] == 97 && t[3] == 114
                    && t[4] == 116);
                assert(false);
            }
            if t == stop_bytes() {
                assert(t.len() == 4 && t[0] == 115 && t[1] == 116 && t[2] == 111 && t[3] == 112);
                assert(false);
            }
            if t == reset_bytes() {
                assert(t.len() == 5 && t[0] == 114 && t[1] == 101 && t[2] == 115 && t[3] == 101
                    && t[4] == 116);
                assert(false);
            }
            if t == remaining_bytes() {
                assert(t.len() == 9 && t[0] == 114 && t[1] == 101 && t[2] == 109 && t[3] == 97
                    && t[4] == 105 && t[5] == 110 && t[6] == 105 && t[7] == 110 && t[8] == 103);
                assert(false);
            }
            if t == show_bytes() {
                assert(t.len() == 4 && t[0] == 115 && t[1] == 104 && t[2] == 111 && t[3] == 119);
                assert(false);
            }
        }
        Command::Unknown
    }
}

} // verus!
