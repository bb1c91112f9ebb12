//! Reading an export request's `since` filter, and counting the events of
//! a Markdown export.

use vstd::prelude::*;
use vstd::string::*;
use crate::codec::{all_hex, decode_hex_exact, first_non_hex, hex_decoded, HexDecodeError};
use crate::numparse::{parse_u64, spec_parse_u64};
use crate::text::{chars_of, matches_at, occurs_at};

verus! {

/// Where an export starts.
#[derive(Debug)]
pub enum ExportSince {
    /// After the event with this 32-byte id.
    EventId(Vec<u8>),
    /// After this timestamp, in milliseconds.
    Timestamp(u64),
}

/// Why a `since` value was refused.
#[derive(Debug)]
pub enum SinceError {
    /// A 64-character value that is not the hex of an event id.
    EventId(HexDecodeError),
    /// Neither an event id nor a timestamp; the text says so.
    InvalidValue(String),
}

/// A `since` value of 64 bytes is an event id in hex; anything else must
/// be a decimal timestamp.
pub fn parse_since(s: &str) -> (r: Result<ExportSince, SinceError>)
    requires
        s.spec_bytes().len() <= usize::MAX,
    ensures
        ({
            let b = s.spec_bytes();
            &&& (b.len() == 64 && all_hex(b)) ==> (r matches Ok(ExportSince::EventId(v)) && v@
                == hex_decoded(b))
            &&& (b.len() == 64 && !all_hex(b)) ==> (r matches Err(
                SinceError::EventId(HexDecodeError::InvalidHexCharacter { c, index }),
            ) && first_non_hex(b, index as int) && c == (b[index as int] as char))
            &&& b.len() != 64 ==> (match spec_parse_u64(s@) {
                Some(t) => r matches Ok(ExportSince::Timestamp(u)) && u == t,
                None => r matches Err(SinceError::InvalidValue(m)) && m@ == "Invalid since value: "@
                    + s@,
            })
        }),
{
    if s.len() == 64 {
        match decode_hex_exact(s, 32) {
            Ok(v) => Ok(ExportSince::EventId(v)),
            Err(e) => Err(SinceError::EventId(e)),
        }
    } else {
        match parse_u64(s) {
            Some(t) => Ok(ExportSince::Timestamp(t)),
            None => {
                let mut m = String::from_str("Invalid since value: ");
                m.append(s);
                Err(SinceError::InvalidValue(m))
            },
        }
    }
}

/// The marker that starts each event's entry in a Markdown export.
pub open spec fn id_marker() -> Seq<char> {
    "**ID:**"@
}

/// A line of `s` starts at `i` and begins with the marker.
pub open spec fn id_line_at(s: Seq<char>, i: int) -> bool {
    &&& 0 <= i < s.len()
    &&& (i == 0 || s[i - 1] == '\n')
    &&& occurs_at(s, id_marker(), i)
}

/// How many of the first `n` positions of `s` start a marked line.
pub open spec fn id_lines_upto(s: Seq<char>, n: int) -> nat
    decreases n,
{
    if n <= 0 {
        0
    } else {
        id_lines_upto(s, n - 1) + if id_line_at(s, n - 1) {
            1nat
        } else {
            0nat
        }
    }
}

/// The number of lines of a Markdown export that begin with the marker.
pub fn count_id_lines(md: &str) -> (r: usize)
    ensures
        r == id_lines_upto(md@, md@.len() as int),
{
    let cs = chars_of(md);
    let marker = chars_of("**ID:**");
    proof {
        reveal_strlit("**ID:**");
    }
    let n = cs.len();
    let m = marker.len();
    let mut count: usize = 0;
    let mut i: usize = 0;
    while i < n
        invariant
            cs@ == md@,
            marker@ == id_marker(),
            m == marker@.len(),
            n == md@.len(),
            i <= n,
            count == id_lines_upto(md@, i as int),
            count <= i,
        decreases n - i,
    {
        let line_start = i == 0 || cs[i - 1] == '\n';
        if line_start && m <= n - i {
            if matches_at(&cs, &marker, i) {
                count = count + 1;
            }
        }
        i = i + 1;
    }
    count
}

} // verus!
