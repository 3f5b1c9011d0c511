//! The signature scanner: matches a fixed-length byte/wildcard pattern
//! against byte ranges of the target process.
//!
//! [`scan_bytes`] carries the full first-match contract over a buffer the
//! caller already holds. [`scan_process_range`] walks a range of the target
//! process in overlapping chunks, skipping unreadable sub-ranges, and runs
//! the verified matcher over each chunk.

use vstd::prelude::*;
use crate::host::Host;

verus! {

/// One position of a signature: a byte that must match exactly, or a
/// wildcard that matches any byte.
#[derive(Clone, Copy, Debug, PartialEq, Eq, Structural)]
pub enum PatternToken {
    Exact(u8),
    Wildcard,
}

/// Whether one token accepts one byte.
pub open spec fn token_matches(t: PatternToken, b: u8) -> bool {
    match t {
        PatternToken::Exact(x) => b == x,
        PatternToken::Wildcard => true,
    }
}

/// Whether the pattern matches the haystack at start position `i`: every
/// token is a wildcard or equals the corresponding byte.
pub open spec fn matches_at(haystack: Seq<u8>, pattern: Seq<PatternToken>, i: int) -> bool {
    &&& 0 <= i
    &&& i + pattern.len() <= haystack.len()
    &&& forall|j: int| 0 <= j < pattern.len() ==> token_matches(pattern[j], haystack[i + j])
}

/// A fixed-length byte/wildcard signature. Non-empty by construction,
/// immutable, defined once per locator profile.
pub struct Pattern {
    tokens: Vec<PatternToken>,
}

impl View for Pattern {
    type V = Seq<PatternToken>;

    closed spec fn view(&self) -> Seq<PatternToken> {
        self.tokens@
    }
}

impl Pattern {
    /// A pattern is well formed when it holds at least one token.
    pub open spec fn wf(&self) -> bool {
        self@.len() > 0
    }

    /// Builds a pattern from its tokens.
    pub fn new(tokens: Vec<PatternToken>) -> (r: Pattern)
        requires
            tokens@.len() > 0,
        ensures
            r@ == tokens@,
            r.wf(),
    {
        Pattern { tokens }
    }

    /// The pattern's length in tokens.
    pub fn len(&self) -> (r: usize)
        ensures
            r == self@.len(),
    {
        self.tokens.len()
    }
}

/// Whether the pattern matches `haystack` at start position `i`.
fn matches_here(haystack: &Vec<u8>, pattern: &Pattern, i: usize) -> (r: bool)
    requires
        i + pattern@.len() <= haystack@.len(),
    ensures
        r == matches_at(haystack@, pattern@, i as int),
{
    let n = pattern.len();
    let hlen = haystack.len();
    let mut j: usize = 0;
    while j < n
        invariant
            n == pattern@.len(),
            hlen == haystack@.len(),
            i + n <= hlen,
            j <= n,
            forall|q: int| 0 <= q < j ==> token_matches(pattern@[q], haystack@[i + q]),
        decreases n - j,
    {
        match pattern.tokens[j] {
            PatternToken::Exact(x) => {
                if haystack[i + j] != x {
                    assert(!token_matches(pattern@[j as int], haystack@[i + j]));
                    return false;
                }
            },
            PatternToken::Wildcard => {},
        }
        j += 1;
    }
    true
}

/// Scans candidate start positions of `haystack` in ascending order and
/// returns the first (lowest) position where the pattern matches, or `None`
/// when no position matches.
pub fn scan_bytes(haystack: &Vec<u8>, pattern: &Pattern) -> (r: Option<usize>)
    ensures
        match r {
            Some(i) => {
                &&& matches_at(haystack@, pattern@, i as int)
                &&& forall|k: int| 0 <= k < i ==> !matches_at(haystack@, pattern@, k)
            },
            None => forall|k: int| !matches_at(haystack@, pattern@, k),
        },
{
    let n = pattern.len();
    let len = haystack.len();
    if n > len {
        return None;
    }
    let last = len - n;
    let mut i: usize = 0;
    while i <= last
        invariant
            n == pattern@.len(),
            len == haystack@.len(),
            n <= len,
            last == len - n,
            i <= last + 1,
            forall|k: int| 0 <= k < i ==> !matches_at(haystack@, pattern@, k),
        decreases last + 1 - i,
    {
        if matches_here(haystack, pattern, i) {
            return Some(i);
        }
        i += 1;
    }
    None
}

/// Scans `[base, base + size)` of the target process for the pattern, in
/// ascending address order, and returns the address of a match.
///
/// The range is read in overlapping chunks so that a match crossing a chunk
/// boundary is still seen; an unreadable chunk is skipped, not reported as
/// an error. The target's memory is outside the library, so the contract
/// pins only where a reported match lies; the first-match contract over
/// bytes in hand is [`scan_bytes`]'s.
pub fn scan_process_range<H: Host>(
    host: &mut H,
    process: u64,
    base: u64,
    size: u64,
    pattern: &Pattern,
) -> (r: Option<u64>)
    requires
        pattern.wf(),
    ensures
        match r {
            Some(a) => base <= a && a + pattern@.len() <= base + size,
            None => true,
        },
{
    let n = pattern.len();
    // Cap the range so address arithmetic cannot wrap around.
    let span: u64 = if size > u64::MAX - base {
        u64::MAX - base
    } else {
        size
    };
    let want: u64 = if n as u64 > 0x1000 {
        n as u64
    } else {
        0x1000
    };
    let mut offset: u64 = 0;
    while offset < span
        invariant
            n == pattern@.len(),
            n >= 1,
            span <= size,
            base + span <= u64::MAX,
            offset <= span,
            want == if n as u64 > 0x1000 { n as u64 } else { 0x1000u64 },
        decreases span - offset,
    {
        let remaining = span - offset;
        if remaining < n as u64 {
            return None;
        }
        let chunk64: u64 = if want < remaining {
            want
        } else {
            remaining
        };
        let chunk_len: usize = chunk64 as usize;
        if let Some(buf) = host.read_bytes(process, base + offset, chunk_len) {
            if buf.len() == chunk_len {
                if let Some(idx) = scan_bytes(&buf, pattern) {
                    return Some(base + offset + idx as u64);
                }
            }
        }
        // Step so that the next chunk overlaps this one by n - 1 bytes.
        offset = offset + (chunk64 - (n as u64 - 1));
    }
    None
}

/// Scans the writable memory regions of the target process, in the order
/// the host enumerates them, for the pattern; when `exact_size` is given,
/// only regions of exactly that size are candidates. Short-circuits on the
/// first hit; later regions are never scanned.
pub(crate) fn scan_writable_regions<H: Host>(
    host: &mut H,
    process: u64,
    exact_size: Option<u64>,
    pattern: &Pattern,
) -> Option<u64>
    requires
        pattern.wf(),
{
    let regions = host.memory_regions(process);
    let len = regions.len();
    let mut i: usize = 0;
    while i < len
        invariant
            pattern.wf(),
            len == regions@.len(),
            i <= len,
        decreases len - i,
    {
        let region = regions[i];
        let wanted = match exact_size {
            Some(s) => region.size == s,
            None => true,
        };
        if region.writable && wanted {
            if let Some(a) = scan_process_range(host, process, region.base, region.size, pattern) {
                return Some(a);
            }
        }
        i += 1;
    }
    None
}

} // verus!
