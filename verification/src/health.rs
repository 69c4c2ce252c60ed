//! Reading a liveness probe's answer.
//!
//! The probe is an HTTP request against the backend's health endpoint; its
//! answer begins with a status line such as `HTTP/1.1 200 OK`. The contract
//! of the probe is status alone: a success status (2xx) means ready, any
//! other status — or an answer with no readable status line at all — means
//! not ready. The host hands the first line of the answer here as raw bytes.

use vstd::prelude::*;

verus! {

/// An ASCII decimal digit.
pub open spec fn is_digit(b: u8) -> bool {
    48 <= b <= 57
}

/// `sp` splits `b` as an HTTP status line: `b` starts with `HTTP/`, `sp` is
/// the first space, three digits follow it, and they end the line or are
/// followed by another space.
pub open spec fn status_split_at(b: Seq<u8>, sp: int) -> bool {
    &&& b.len() >= 5
    &&& b[0] == 'H' as u8
    &&& b[1] == 'T' as u8
    &&& b[2] == 'T' as u8
    &&& b[3] == 'P' as u8
    &&& b[4] == '/' as u8
    &&& 0 <= sp && sp + 4 <= b.len()
    &&& b[sp] == 32
    &&& forall|j: int| 0 <= j < sp ==> b[j] != 32
    &&& is_digit(b[sp + 1]) && is_digit(b[sp + 2]) && is_digit(b[sp + 3])
    &&& (sp + 4 == b.len() || b[sp + 4] == 32)
}

/// The status code the three digits after the split spell.
pub open spec fn code_at(b: Seq<u8>, sp: int) -> u16 {
    (((b[sp + 1] - 48) * 100 + (b[sp + 2] - 48) * 10 + (b[sp + 3] - 48)) as u16)
}

/// The status code of a line, when the line has the shape of an HTTP status
/// line, and nothing otherwise.
pub open spec fn spec_status_code(b: Seq<u8>) -> Option<u16> {
    if exists|sp: int| status_split_at(b, sp) {
        Some(code_at(b, choose|sp: int| status_split_at(b, sp)))
    } else {
        None
    }
}

/// A status line splits at one place only: the split is the first space.
pub proof fn lemma_split_unique(b: Seq<u8>, sp1: int, sp2: int)
    requires
        status_split_at(b, sp1),
        status_split_at(b, sp2),
    ensures
        sp1 == sp2,
{
    if sp1 < sp2 {
        assert(b[sp1] != 32);
    }
    if sp2 < sp1 {
        assert(b[sp2] != 32);
    }
}

/// Read the status code out of an HTTP status line. Returns the code when
/// and only when the line has the documented shape.
pub fn parse_status_code(line: &[u8]) -> (r: Option<u16>)
    ensures
        r == spec_status_code(line@),
{
    let n: usize = line.len();
    if n < 5 || line[0] != 72 || line[1] != 84 || line[2] != 84 || line[3] != 80 || line[4]
        != 47 {
        assert(forall|sp: int| !status_split_at(line@, sp));
        return None;
    }
    let mut i: usize = 5;
    while i < n && line[i] != 32
        invariant
            5 <= i <= n,
            n == line@.len(),
            line@[0] == 72 && line@[1] == 84 && line@[2] == 84 && line@[3] == 80 && line@[4]
                == 47,
            forall|j: int| 0 <= j < i ==> line@[j] != 32,
        decreases n - i,
    {
        i = i + 1;
    }
    if i == n {
        // No space at all: no split exists.
        assert(forall|sp: int| !status_split_at(line@, sp));
        return None;
    }
    // `i` is the first space; any split must be here.
    assert(forall|sp: int| status_split_at(line@, sp) ==> sp == i) by {
        assert forall|sp: int| status_split_at(line@, sp) implies sp == i by {
            if sp < i {
                assert(line@[sp] != 32);
            }
            if i < sp {
                assert(line@[i as int] != 32);
            }
        }
    }
    if n - i < 4 {
        assert(forall|sp: int| !status_split_at(line@, sp));
        return None;
    }
    let d1: u8 = line[i + 1];
    let d2: u8 = line[i + 2];
    let d3: u8 = line[i + 3];
    if !(48 <= d1 && d1 <= 57 && 48 <= d2 && d2 <= 57 && 48 <= d3 && d3 <= 57) {
        assert(forall|sp: int| !status_split_at(line@, sp));
        return None;
    }
    if i + 4 < n && line[i + 4] != 32 {
        assert(forall|sp: int| !status_split_at(line@, sp));
        return None;
    }
    assert(status_split_at(line@, i as int));
    let code: u16 = (d1 - 48) as u16 * 100 + (d2 - 48) as u16 * 10 + (d3 - 48) as u16;
    proof {
        let w = choose|sp: int| status_split_at(line@, sp);
        lemma_split_unique(line@, w, i as int);
    }
    Some(code)
}

/// Whether a status code reports success: the 2xx range.
pub fn is_success_status(code: u16) -> (r: bool)
    ensures
        r == (200 <= code && code < 300),
{
    200 <= code && code < 300
}

/// Whether a probe's answer means the backend is live: its status line
/// carries a success status. An unreadable answer means not live.
pub fn probe_succeeded(line: &[u8]) -> (r: bool)
    ensures
        r == (spec_status_code(line@) matches Some(code) && 200 <= code && code < 300),
{
    match parse_status_code(line) {
        Some(code) => is_success_status(code),
        None => false,
    }
}

} // verus!
