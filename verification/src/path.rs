//! Path preparation for the deletion engines.
//!
//! Paths cross the platform boundary as nul-terminated UTF-16 code-unit
//! sequences. Before the platform's absolutization call, the extended-length
//! marker `\\?\` is prepended when missing so that long paths survive
//! resolution; afterwards the marker must be stripped again, because both
//! deletion mechanisms reject it. The absolutization call itself reports the
//! buffer size it needs, so the caller grows its buffer and retries until the
//! result fits; `resolve_buffer_step` is the decision of that loop.

use vstd::prelude::*;
use vstd::slice::slice_subrange;

verus! {

/// The extended-length path marker `\\?\` as UTF-16 code units.
pub open spec fn extended_prefix() -> Seq<u16> {
    seq![92u16, 92u16, 63u16, 92u16]
}

/// Whether a code-unit sequence begins with the extended-length marker.
pub open spec fn has_extended_prefix(s: Seq<u16>) -> bool {
    s.len() >= 4 && s.subrange(0, 4) == extended_prefix()
}

/// The sequence with its extended-length marker removed, if it has one.
pub open spec fn strip_extended(s: Seq<u16>) -> Seq<u16> {
    if has_extended_prefix(s) {
        s.subrange(4, s.len() as int)
    } else {
        s
    }
}

/// Whether a code-unit sequence begins with the extended-length marker,
/// decided unit by unit.
fn starts_with_extended_prefix(units: &[u16]) -> (r: bool)
    ensures
        r == has_extended_prefix(units@),
{
    let r = units.len() >= 4
        && *vstd::slice::slice_index_get(units, 0) == 92
        && *vstd::slice::slice_index_get(units, 1) == 92
        && *vstd::slice::slice_index_get(units, 2) == 63
        && *vstd::slice::slice_index_get(units, 3) == 92;
    proof {
        if units@.len() >= 4 {
            assert(units@.subrange(0, 4) =~= extended_prefix() <==> (units@[0] == 92
                && units@[1] == 92 && units@[2] == 63 && units@[3] == 92)) by {
                if units@[0] == 92 && units@[1] == 92 && units@[2] == 63 && units@[3] == 92 {
                    assert(units@.subrange(0, 4) =~= extended_prefix());
                }
            }
        }
    }
    r
}

/// Prepares a user-supplied path for the platform's absolutization call:
/// prepends the extended-length marker `\\?\` when it is not already there,
/// and terminates the result with a single nul unit.
pub fn prepare_path_utf16(units: &[u16]) -> (r: Vec<u16>)
    ensures
        has_extended_prefix(units@) ==> r@ == units@.push(0u16),
        !has_extended_prefix(units@) ==> r@ == extended_prefix() + units@.push(0u16),
{
    let mut out: Vec<u16> = Vec::new();
    if !starts_with_extended_prefix(units) {
        out.push(92);
        out.push(92);
        out.push(63);
        out.push(92);
        proof {
            assert(out@ =~= extended_prefix());
        }
    }
    let ghost base: Seq<u16> = out@;
    let mut i: usize = 0;
    while i < units.len()
        invariant
            0 <= i <= units@.len(),
            out@ == base + units@.subrange(0, i as int),
        decreases units@.len() - i,
    {
        out.push(*vstd::slice::slice_index_get(units, i));
        proof {
            assert(base + units@.subrange(0, i as int + 1) =~= (base + units@.subrange(
                0,
                i as int,
            )).push(units@[i as int]));
        }
        i = i + 1;
    }
    out.push(0);
    proof {
        assert(units@.subrange(0, units@.len() as int) =~= units@);
        if has_extended_prefix(units@) {
            assert(out@ =~= units@.push(0u16));
        } else {
            assert(out@ =~= extended_prefix() + units@.push(0u16));
        }
    }
    out
}

/// Strips the extended-length marker `\\?\` from a resolved path.
///
/// Both deletion mechanisms reject paths that still carry the marker, so the
/// resolved path is handed to them in this stripped form.
pub fn strip_extended_length_path_prefix(path: &[u16]) -> (r: &[u16])
    ensures
        r@ == strip_extended(path@),
{
    if starts_with_extended_prefix(path) {
        slice_subrange(path, 4, path.len())
    } else {
        path
    }
}

/// The next move in the grow-and-retry protocol around the platform's
/// path-absolutization call.
#[derive(Clone, Copy, Debug, PartialEq, Eq, Structural)]
pub enum ResolveStep {
    /// The call reported failure; resolution stops with the platform's error.
    Fail,
    /// The resolved path fit: it occupies `len` units plus a nul terminator.
    Done { len: u32 },
    /// The buffer was too small; retry with room for `capacity` units.
    Grow { capacity: u32 },
}

/// Decides the next move of the resolution loop from the absolutization
/// call's return value and the capacity that was offered to it.
///
/// A zero return is the call's failure convention. A return below the offered
/// capacity is the length of the resolved path, which fit. Any other return
/// is the size the buffer must grow to before the call is retried — retried,
/// not trusted once, because a concurrent working-directory change can alter
/// the required size between calls.
pub fn resolve_buffer_step(result: u32, capacity: u32) -> (s: ResolveStep)
    ensures
        result == 0 ==> s is Fail,
        0 < result < capacity ==> (s matches ResolveStep::Done { len } && len == result),
        result >= capacity && result > 0 ==> (s matches ResolveStep::Grow { capacity: c } && c
            == result),
{
    if result == 0 {
        ResolveStep::Fail
    } else if result < capacity {
        ResolveStep::Done { len: result }
    } else {
        ResolveStep::Grow { capacity: result }
    }
}

} // verus!
