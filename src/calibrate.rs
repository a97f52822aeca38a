use vstd::prelude::*;

verus! {

/// Per-channel tolerance when matching two ruler captures.
pub const RULER_TOLERANCE: u8 = 5;

/// Scroll units tried before calibration gives up.
pub const MAX_CALIBRATION_SCROLLS: u32 = 5;

/// Pixels of content movement per scroll unit, as the fraction
/// `pixels / units`.
#[derive(Debug, Clone, Copy, PartialEq, Eq, Structural)]
pub struct ScrollSpeed {
    pub pixels: u32,
    pub units: u32,
}

/// What calibration does after comparing one more ruler capture.
#[derive(Debug, Clone, Copy, PartialEq, Eq, Structural)]
pub enum CalibrationStep {
    /// The shift is found; undo `units` scroll units and use `speed`.
    Matched(ScrollSpeed),
    /// A shift was found but moves under one pixel per unit; undo the
    /// scrolls and fail.
    TooSlow(u32),
    /// Nothing matches yet: scroll one more unit and compare again.
    ScrollAgain,
    /// Nothing matched within the allowed scrolls.
    Failed,
}

pub open spec fn close(a: u8, b: u8, tol: u8) -> bool {
    a as int - b as int <= tol as int && b as int - a as int <= tol as int
}

/// The capture after scrolling, read from byte `i` on, repeats the capture
/// before it from its start, channel by channel within `tol`.
pub open spec fn matches_at(ruler: Seq<u8>, shifted: Seq<u8>, i: int, tol: u8) -> bool {
    forall|j: int| 0 <= j < ruler.len() - i ==> close(#[trigger] shifted[i + j], ruler[j], tol)
}

/// The smallest whole-pixel shift, 4 bytes to a pixel, at which the two
/// captures match; `None` when none below the ruler's length does.
pub open spec fn first_shift(ruler: Seq<u8>, shifted: Seq<u8>, tol: u8, p: int) -> bool {
    &&& 1 <= p
    &&& 4 * p < ruler.len()
    &&& matches_at(ruler, shifted, 4 * p, tol)
    &&& forall|q: int| 1 <= q < p ==> !#[trigger] matches_at(ruler, shifted, 4 * q, tol)
}

pub open spec fn no_shift(ruler: Seq<u8>, shifted: Seq<u8>, tol: u8) -> bool {
    forall|q: int| 1 <= q && 4 * q < ruler.len() ==> !#[trigger] matches_at(ruler, shifted, 4 * q, tol)
}

/// Whether two channel values differ by at most `threshold`.
pub fn eq(x: u8, y: u8, threshold: u8) -> (r: bool)
    ensures
        r == close(x, y, threshold),
{
    if x < y {
        y - x <= threshold
    } else if x > y {
        x - y <= threshold
    } else {
        true
    }
}

fn matches_at_exec(ruler: &Vec<u8>, shifted: &Vec<u8>, i: usize, tol: u8) -> (r: bool)
    requires
        ruler@.len() == shifted@.len(),
        i <= ruler@.len(),
    ensures
        r == matches_at(ruler@, shifted@, i as int, tol),
{
    let n = ruler.len();
    let mut j: usize = 0;
    while j < n - i
        invariant
            n == ruler@.len() == shifted@.len(),
            i <= n,
            j <= n - i,
            forall|k: int| 0 <= k < j ==> close(#[trigger] shifted@[i + k], ruler@[k], tol),
        decreases n - i - j,
    {
        if !eq(shifted[i + j], ruler[j], tol) {
            return false;
        }
        j = j + 1;
    }
    true
}

/// The pixel shift between a ruler capture and one taken after scrolling,
/// see `first_shift`.
pub fn ruler_shift(ruler: &Vec<u8>, shifted: &Vec<u8>, tol: u8) -> (r: Option<u32>)
    requires
        ruler@.len() == shifted@.len(),
        ruler@.len() <= u32::MAX,
    ensures
        r matches Some(p) ==> first_shift(ruler@, shifted@, tol, p as int),
        r is None ==> no_shift(ruler@, shifted@, tol),
{
    let n = ruler.len();
    let mut p: u64 = 1;
    while 4 * p < n as u64
        invariant
            n == ruler@.len() == shifted@.len(),
            n <= u32::MAX,
            1 <= p <= n as int + 1,
            forall|q: int| 1 <= q < p ==> !#[trigger] matches_at(ruler@, shifted@, 4 * q, tol),
        decreases n - p,
    {
        if matches_at_exec(ruler, shifted, (4 * p) as usize, tol) {
            return Some(p as u32);
        }
        p = p + 1;
    }
    None
}

/// The decision after the `n_scroll`-th scroll unit: the speed where the
/// captures match at a shift of at least one pixel per unit, another scroll
/// while attempts remain, or failure.
pub open spec fn calibration_step_of(ruler: Seq<u8>, shifted: Seq<u8>, n_scroll: u32) -> CalibrationStep {
    if exists|p: int| first_shift(ruler, shifted, RULER_TOLERANCE, p) {
        let p = choose|p: int| first_shift(ruler, shifted, RULER_TOLERANCE, p);
        if p >= n_scroll {
            CalibrationStep::Matched(ScrollSpeed { pixels: p as u32, units: n_scroll })
        } else {
            CalibrationStep::TooSlow(n_scroll)
        }
    } else if n_scroll < MAX_CALIBRATION_SCROLLS {
        CalibrationStep::ScrollAgain
    } else {
        CalibrationStep::Failed
    }
}

proof fn lemma_first_shift_unique(ruler: Seq<u8>, shifted: Seq<u8>, tol: u8, p: int, p2: int)
    requires
        first_shift(ruler, shifted, tol, p),
        first_shift(ruler, shifted, tol, p2),
    ensures
        p == p2,
{
    if p < p2 {
        assert(!matches_at(ruler, shifted, 4 * p, tol));
    } else if p2 < p {
        assert(!matches_at(ruler, shifted, 4 * p2, tol));
    }
}

/// Compares the ruler captured before scrolling with the one captured after
/// `n_scroll` scroll units.
pub fn calibration_step(ruler: &Vec<u8>, shifted: &Vec<u8>, n_scroll: u32) -> (r: CalibrationStep)
    requires
        ruler@.len() == shifted@.len(),
        ruler@.len() <= u32::MAX,
        1 <= n_scroll <= MAX_CALIBRATION_SCROLLS,
    ensures
        r == calibration_step_of(ruler@, shifted@, n_scroll),
        r == CalibrationStep::ScrollAgain ==> n_scroll < MAX_CALIBRATION_SCROLLS,
{
    match ruler_shift(ruler, shifted, RULER_TOLERANCE) {
        Some(p) => {
            proof {
                assert forall|p2: int| first_shift(ruler@, shifted@, RULER_TOLERANCE, p2) implies p2 == p as int by {
                    lemma_first_shift_unique(ruler@, shifted@, RULER_TOLERANCE, p as int, p2);
                }
            }
            if p >= n_scroll {
                CalibrationStep::Matched(ScrollSpeed { pixels: p, units: n_scroll })
            } else {
                CalibrationStep::TooSlow(n_scroll)
            }
        },
        None => {
            proof {
                assert forall|p2: int| !first_shift(ruler@, shifted@, RULER_TOLERANCE, p2) by {
                    if first_shift(ruler@, shifted@, RULER_TOLERANCE, p2) {
                        assert(!matches_at(ruler@, shifted@, 4 * p2, RULER_TOLERANCE));
                    }
                }
            }
            if n_scroll < MAX_CALIBRATION_SCROLLS {
                CalibrationStep::ScrollAgain
            } else {
                CalibrationStep::Failed
            }
        },
    }
}

/// A ruler whose content moved by exactly `shift` pixels per unit, captured
/// without noise after `n_scroll` units, with no match at any smaller
/// offset, calibrates to exactly `shift` pixels per unit.
pub proof fn lemma_exact_shift_recovered(ruler: Seq<u8>, shifted: Seq<u8>, shift: int, n_scroll: u32)
    requires
        1 <= n_scroll <= MAX_CALIBRATION_SCROLLS,
        shift >= 1,
        4 * shift * n_scroll < ruler.len(),
        shifted.len() == ruler.len(),
        forall|j: int| 0 <= j < ruler.len() - 4 * shift * n_scroll ==> #[trigger] shifted[4 * shift * n_scroll + j] == ruler[j],
        forall|q: int| 1 <= q < shift * n_scroll ==> !#[trigger] matches_at(ruler, shifted, 4 * q, RULER_TOLERANCE),
    ensures
        calibration_step_of(ruler, shifted, n_scroll) == CalibrationStep::Matched(ScrollSpeed { pixels: (shift * n_scroll) as u32, units: n_scroll }),
{
    let p = shift * n_scroll;
    assert(p >= n_scroll) by (nonlinear_arith)
        requires shift >= 1, n_scroll >= 1, p == shift * n_scroll;
    assert(4 * p == 4 * shift * n_scroll) by (nonlinear_arith)
        requires p == shift * n_scroll;
    assert(matches_at(ruler, shifted, 4 * p, RULER_TOLERANCE)) by {
        assert forall|j: int| 0 <= j < ruler.len() - 4 * p implies close(#[trigger] shifted[4 * p + j], ruler[j], RULER_TOLERANCE) by {
            assert(shifted[4 * shift * n_scroll + j] == ruler[j]);
        }
    }
    assert(first_shift(ruler, shifted, RULER_TOLERANCE, p));
    assert forall|p2: int| first_shift(ruler, shifted, RULER_TOLERANCE, p2) implies p2 == p by {
        lemma_first_shift_unique(ruler, shifted, RULER_TOLERANCE, p, p2);
    }
}

/// A ruler that matches at no offset ends calibration with a failure at the
/// last allowed scroll, and asks for another scroll before it: calibration
/// stops within that many captures.
pub proof fn lemma_no_match_fails(ruler: Seq<u8>, shifted: Seq<u8>, n_scroll: u32)
    requires
        1 <= n_scroll <= MAX_CALIBRATION_SCROLLS,
        no_shift(ruler, shifted, RULER_TOLERANCE),
    ensures
        n_scroll < MAX_CALIBRATION_SCROLLS ==> calibration_step_of(ruler, shifted, n_scroll) == CalibrationStep::ScrollAgain,
        n_scroll == MAX_CALIBRATION_SCROLLS ==> calibration_step_of(ruler, shifted, n_scroll) == CalibrationStep::Failed,
{
    assert forall|p2: int| !first_shift(ruler, shifted, RULER_TOLERANCE, p2) by {
        if first_shift(ruler, shifted, RULER_TOLERANCE, p2) {
            assert(!matches_at(ruler, shifted, 4 * p2, RULER_TOLERANCE));
        }
    }
}

} // verus!
