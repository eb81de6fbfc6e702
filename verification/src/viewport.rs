//! Pure scroll math: which contiguous slice of a line sequence is visible in
//! a window of a given height, and how a requested scroll offset is clamped.

use vstd::prelude::*;

verus! {

/// The offset actually used for a window of `height` lines over `total`
/// lines: the requested offset, clamped so that the window never runs past
/// the end, and forced to 0 when everything fits.
pub open spec fn clamped_offset(requested: int, total: int, height: int) -> int {
    if total <= height {
        0
    } else if requested <= total - height {
        requested
    } else {
        total - height
    }
}

/// The lines visible at the clamped offset: the whole sequence when it fits,
/// otherwise a full window of `height` lines.
pub open spec fn visible(lines: Seq<String>, height: int, requested: int) -> Seq<String> {
    let start = clamped_offset(requested, lines.len() as int, height);
    if lines.len() <= height {
        lines
    } else {
        lines.subrange(start, start + height)
    }
}

/// Returns the lines visible in a window of `height` lines when the operator
/// asked to scroll to `requested_offset`, together with the offset actually
/// used.
pub fn visible_slice(lines: &Vec<String>, height: usize, requested_offset: usize) -> (r: (
    Vec<String>,
    usize,
))
    ensures
        r.1 as int == clamped_offset(requested_offset as int, lines.len() as int, height as int),
        r.0@ =~= visible(lines@, height as int, requested_offset as int),
        r.1 <= requested_offset,
{
    let total = lines.len();
    let start: usize = if total <= height {
        0
    } else if requested_offset <= total - height {
        requested_offset
    } else {
        total - height
    };
    let end: usize = if total <= height {
        total
    } else {
        start + height
    };
    let mut out: Vec<String> = Vec::new();
    let mut i: usize = start;
    while i < end
        invariant
            start <= i <= end <= lines.len(),
            out@ =~= lines@.subrange(start as int, i as int),
        decreases end - i,
    {
        out.push(lines[i].clone());
        assert(out@ =~= lines@.subrange(start as int, i + 1 as int));
        i += 1;
    }
    if total <= height {
        assert(out@ =~= lines@);
    }
    (out, start)
}

/// Law: the clamped offset always lies between 0 and the greatest offset at
/// which a full window still fits, and clamping is idempotent — asking again
/// for the offset a clamp returned changes neither the offset nor the
/// visible lines.
pub proof fn lemma_clamp_idempotent(lines: Seq<String>, height: int, requested: int)
    requires
        0 <= requested,
        0 <= height,
    ensures
        0 <= clamped_offset(requested, lines.len() as int, height),
        clamped_offset(requested, lines.len() as int, height) <= (if lines.len() as int - height
            >= 0 {
            lines.len() as int - height
        } else {
            0
        }),
        clamped_offset(
            clamped_offset(requested, lines.len() as int, height),
            lines.len() as int,
            height,
        ) == clamped_offset(requested, lines.len() as int, height),
        visible(lines, height, clamped_offset(requested, lines.len() as int, height)) == visible(
            lines,
            height,
            requested,
        ),
{
}

} // verus!
