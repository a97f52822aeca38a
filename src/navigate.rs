use vstd::prelude::*;
use crate::calibrate::ScrollSpeed;
use crate::color::{color_dis_2, Color};
use crate::common::{round_div, round_div_i128, PixelRect, RawCaptureImage};
use crate::error::YasError;
use crate::layout::ScanInfo;

verus! {

/// Largest number of rows one scroll call may move.
pub const MAX_SCROLL_ROWS: u32 = 0xFFFF;

/// Largest row height, in thousandths of a pixel, that scrolling accepts.
pub const MAX_ROW_MILLI: u64 = 0x3FFF_FFFF;

/// Largest number of scroll units in a calibrated speed.
pub const MAX_SPEED_UNITS: u32 = 0xFFFF;

/// Consecutive settled samples, counting the speed setting, after which a
/// selection is taken as complete.
pub const SETTLE_SAMPLES: u64 = 6;

/// Where the scroll position stands: rows scrolled so far and the part of a
/// scroll unit not yet scrolled, `offset / (1000 * speed.units)` pixels.
#[derive(Debug, Clone, Copy, PartialEq, Eq, Structural)]
pub struct ScrollState {
    pub speed: ScrollSpeed,
    pub scrolled_rows: u32,
    pub offset: i128,
}

/// Whole scroll units for `rows` rows of `row_milli` thousandths of a pixel,
/// carrying `offset` in from earlier scrolls.
pub open spec fn scroll_units_for(s: ScrollState, row_milli: int, rows: int) -> int {
    round_div(s.offset + row_milli * s.speed.units * rows, s.speed.pixels * 1000)
}

impl ScrollState {
    pub open spec fn wf(&self) -> bool {
        &&& 1 <= self.speed.pixels
        &&& 1 <= self.speed.units <= MAX_SPEED_UNITS
        &&& 2 * self.offset <= self.speed.pixels * 1000
        &&& -(self.speed.pixels * 1000) <= 2 * self.offset
    }

    /// The top of the grid with a calibrated speed.
    pub fn new(speed: ScrollSpeed) -> (r: ScrollState)
        requires
            1 <= speed.pixels,
            1 <= speed.units <= MAX_SPEED_UNITS,
        ensures
            r.wf(),
            r == (ScrollState { speed, scrolled_rows: 0, offset: 0 }),
    {
        ScrollState { speed, scrolled_rows: 0, offset: 0 }
    }

    /// The carried offset in thousandths of a pixel, to the nearest.
    pub fn offset_milli(&self) -> (r: i64)
        requires
            self.wf(),
        ensures
            r == round_div(self.offset as int, self.speed.units as int),
    {
        let r = round_div_i128(self.offset, self.speed.units as i128);
        proof {
            lemma_round_div_between(self.offset as int, self.speed.units as int);
        }
        r as i64
    }

    /// Scrolls `rows` rows down: returns the scroll units to issue (negative
    /// moves the content up) and keeps the part of a unit left over, so the
    /// position never drifts by more than half a unit however many calls.
    pub fn scroll_rows(&mut self, row_milli: u64, rows: u32) -> (units: i64)
        requires
            old(self).wf(),
            row_milli <= MAX_ROW_MILLI,
            rows <= MAX_SCROLL_ROWS,
            old(self).scrolled_rows + rows <= u32::MAX,
        ensures
            final(self).wf(),
            final(self).speed == old(self).speed,
            final(self).scrolled_rows == old(self).scrolled_rows + rows,
            units == -scroll_units_for(*old(self), row_milli as int, rows as int),
            final(self).offset == old(self).offset + row_milli * old(self).speed.units * rows
                - scroll_units_for(*old(self), row_milli as int, rows as int) * (old(self).speed.pixels * 1000),
    {
        let p: i128 = self.speed.pixels as i128 * 1000;
        proof {
            assert(row_milli as int * self.speed.units as int <= 0x3FFF_FFFF * 0xFFFF) by (nonlinear_arith)
                requires row_milli <= 0x3FFF_FFFF, self.speed.units <= 0xFFFF;
            assert(row_milli as int * self.speed.units as int * rows as int <= 0x3FFF_FFFF * 0xFFFF * 0xFFFF) by (nonlinear_arith)
                requires row_milli as int * self.speed.units as int <= 0x3FFF_FFFF * 0xFFFF, rows <= 0xFFFF, row_milli * self.speed.units >= 0;
            assert(0 <= row_milli as int * self.speed.units as int * rows as int) by (nonlinear_arith);
        }
        let total: i128 = self.offset + row_milli as i128 * self.speed.units as i128 * rows as i128;
        let n = round_div_i128(total, p);
        proof {
            lemma_round_div_between(total as int, p as int);
            lemma_round_div_residue(total as int, p as int);
        }
        self.offset = total - n * p;
        self.scrolled_rows = self.scrolled_rows + rows;
        -(n as i64)
    }
}

proof fn lemma_round_div_between(a: int, b: int)
    requires
        b > 0,
    ensures
        a >= 0 ==> 0 <= round_div(a, b) <= a,
        a < 0 ==> a <= round_div(a, b) <= 0,
{
    if a >= 0 {
        assert(0 <= (2 * a + b) / (2 * b) <= a) by (nonlinear_arith)
            requires a >= 0, b > 0;
    } else {
        assert(0 <= (-2 * a + b) / (2 * b) <= -a) by (nonlinear_arith)
            requires a < 0, b > 0;
    }
}

/// What rounding leaves over is at most half the divisor either way.
proof fn lemma_round_div_residue(a: int, b: int)
    requires
        b > 0,
    ensures
        -b <= 2 * (a - round_div(a, b) * b) <= b,
{
    if a >= 0 {
        let q = (2 * a + b) / (2 * b);
        assert(-b <= 2 * (a - q * b) <= b) by (nonlinear_arith)
            requires q == (2 * a + b) / (2 * b), b > 0, a >= 0;
        assert(round_div(a, b) == q);
    } else {
        let q = (-2 * a + b) / (2 * b);
        assert(-b <= 2 * (a + q * b) <= b) by (nonlinear_arith)
            requires q == (-2 * a + b) / (2 * b), b > 0, a < 0;
        assert(round_div(a, b) == -q);
        assert(round_div(a, b) * b == -(q * b)) by (nonlinear_arith)
            requires round_div(a, b) == -q;
    }
}

/// However many scroll calls are made, the position is off by at most half
/// a scroll unit from the exact sum of the rows asked for.
pub proof fn lemma_scroll_drift_bounded(s: ScrollState, row_milli: int, rows: int)
    requires
        s.wf(),
    ensures
        ({
            let rest = s.offset + row_milli * s.speed.units * rows - scroll_units_for(s, row_milli, rows) * (s.speed.pixels * 1000);
            -(s.speed.pixels * 1000) <= 2 * rest <= s.speed.pixels * 1000
        }),
{
    lemma_round_div_residue(s.offset + row_milli * s.speed.units * rows, s.speed.pixels * 1000);
}

/// Watches the panel's pool while a selection animates.
#[derive(Debug, Clone, Copy, PartialEq, Eq, Structural)]
pub struct SelectionSettle {
    pub pool: Option<u128>,
    pub changed: bool,
    pub consecutive: u64,
    pub speed: u32,
}

impl SelectionSettle {
    /// A wait that starts from the pool recorded for the previous item.
    pub fn new(pool: Option<u128>, speed: u32) -> (r: SelectionSettle)
        ensures
            r == (SelectionSettle { pool, changed: false, consecutive: 0, speed }),
    {
        SelectionSettle { pool, changed: false, consecutive: 0, speed }
    }

    /// Takes one pool sample; returns whether the selection has settled.
    /// A sample that differs from the recorded pool records it and restarts
    /// the count; from the first change on every sample counts, and the
    /// selection settles once the count plus the speed setting reaches six.
    pub fn observe(&mut self, pool: u128) -> (settled: bool)
        requires
            old(self).consecutive < SETTLE_SAMPLES,
        ensures
            final(self).speed == old(self).speed,
            final(self).pool == Some(pool),
            old(self).pool != Some(pool) ==> final(self).changed && final(self).consecutive == 1,
            old(self).pool == Some(pool) ==> final(self).changed == old(self).changed && final(self).consecutive == (if old(self).changed { old(self).consecutive + 1 } else { old(self).consecutive as int }),
            settled == (final(self).changed && final(self).consecutive + final(self).speed >= SETTLE_SAMPLES),
            !settled ==> final(self).consecutive < SETTLE_SAMPLES,
    {
        if self.pool != Some(pool) {
            self.pool = Some(pool);
            self.changed = true;
            self.consecutive = 0;
        }
        if self.changed {
            self.consecutive = self.consecutive + 1;
            return self.consecutive + self.speed as u64 >= SETTLE_SAMPLES;
        }
        false
    }
}

/// The index, 1-based, of the reference colour nearest to `c`; the lower
/// index wins a tie.
pub open spec fn nearest_rarity(c: Color, refs: Seq<Color>, n: int) -> int
    decreases n,
{
    if n <= 1 {
        1
    } else {
        let best = nearest_rarity(c, refs, n - 1);
        if color_dis_2(refs[n - 1], c) < color_dis_2(refs[best - 1], c) {
            n
        } else {
            best
        }
    }
}

/// The rarity whose reference colour is nearest to the sampled colour.
pub fn get_star(color: &Color, refs: &Vec<Color>) -> (star: u32)
    requires
        1 <= refs@.len() <= 5,
    ensures
        star == nearest_rarity(*color, refs@, refs@.len() as int),
        1 <= star <= refs@.len(),
{
    let mut best: usize = 1;
    let mut best_dis = refs[0].dis_2(color);
    let mut i: usize = 1;
    while i < refs.len()
        invariant
            1 <= i <= refs@.len() <= 5,
            1 <= best <= i,
            best == nearest_rarity(*color, refs@, i as int),
            best_dis == color_dis_2(refs@[best - 1], *color),
        decreases refs@.len() - i,
    {
        let d = refs[i].dis_2(color);
        if d < best_dis {
            best = i + 1;
            best_dis = d;
        }
        i = i + 1;
    }
    best as u32
}

/// The reference colours of rarities one to five.
pub fn rarity_colors() -> (r: Vec<Color>)
    ensures
        r@ == seq![Color(113, 119, 139), Color(42, 143, 114), Color(81, 127, 203), Color(161, 86, 224), Color(188, 105, 50)],
{
    vec![Color(113, 119, 139), Color(42, 143, 114), Color(81, 127, 203), Color(161, 86, 224), Color(188, 105, 50)]
}

/// Screen coordinates of the centre of grid cell `(row, col)`.
pub open spec fn cell_center(info: ScanInfo, row: int, col: int) -> (int, int) {
    (
        info.left + info.left_margin_milli / 1000 + info.art_width / 2 + (info.art_shift_x_milli * col) / 1000,
        info.top + info.top_margin_milli / 1000 + info.art_height / 2 + (info.art_shift_y_milli * row) / 1000,
    )
}

/// The point to move the pointer to for grid cell `(row, col)`.
pub fn move_target(info: &ScanInfo, row: u32, col: u32) -> (r: (i64, i64))
    requires
        info.left_margin_milli <= 0xFFFF_FFFF_FFFF,
        info.top_margin_milli <= 0xFFFF_FFFF_FFFF,
        info.art_shift_x_milli <= 0xFFFF_FFFF,
        info.art_shift_y_milli <= 0xFFFF_FFFF,
    ensures
        r.0 == cell_center(*info, row as int, col as int).0,
        r.1 == cell_center(*info, row as int, col as int).1,
{
    proof {
        assert(info.art_shift_x_milli * col <= 0xFFFF_FFFF * 0xFFFF_FFFF) by (nonlinear_arith)
            requires info.art_shift_x_milli <= 0xFFFF_FFFF, col <= 0xFFFF_FFFF;
        assert(info.art_shift_y_milli * row <= 0xFFFF_FFFF * 0xFFFF_FFFF) by (nonlinear_arith)
            requires info.art_shift_y_milli <= 0xFFFF_FFFF, row <= 0xFFFF_FFFF;
    }
    let x = info.left as i64 + (info.left_margin_milli / 1000) as i64 + (info.art_width / 2) as i64
        + ((info.art_shift_x_milli * col as u64) / 1000) as i64;
    let y = info.top as i64 + (info.top_margin_milli / 1000) as i64 + (info.art_height / 2) as i64
        + ((info.art_shift_y_milli * row as u64) / 1000) as i64;
    (x, y)
}

/// Where the first row's boundary with the gap colour `(233, 229, 220)` is
/// expected, in thousandths of the cell height, and the tolerance.
pub const GAP_RATIO_MILLI: u64 = 822;
pub const GAP_TOLERANCE_MILLI: u64 = 20;

/// The first row of column 5 of a cell capture in the gap colour.
pub open spec fn first_gap_row(shot: &RawCaptureImage, y: int) -> bool {
    &&& 0 <= y < shot.h
    &&& shot.color_at(5, y) == Color(233, 229, 220)
    &&& forall|k: int| 0 <= k < y ==> #[trigger] shot.color_at(5, k) != Color(233, 229, 220)
}

/// The gap found at the expected fraction of the cell height, within the
/// tolerance; a capture without the gap reads as fraction zero.
pub open spec fn scroll_settled_of(shot: &RawCaptureImage) -> bool {
    let h = shot.h as int;
    let ratio_part = if exists|y: int| first_gap_row(shot, y) {
        (choose|y: int| first_gap_row(shot, y)) * 1000
    } else {
        0
    };
    h > 0 && ratio_part - GAP_RATIO_MILLI * h < GAP_TOLERANCE_MILLI * h && GAP_RATIO_MILLI * h
        - ratio_part < GAP_TOLERANCE_MILLI * h
}

/// Whether a scroll has settled: the gap below the cell is found at the
/// expected fraction of the cell height, within the tolerance. A capture
/// without the gap reads as fraction zero.
pub fn scroll_settled(shot: &RawCaptureImage) -> (r: Result<bool, YasError>)
    requires
        shot.wf(),
    ensures
        shot.w <= 5 && shot.h > 0 ==> r == Err::<bool, YasError>(YasError::PixelOutOfBounds),
        (shot.w > 5 || shot.h == 0) ==> r == Ok::<bool, YasError>(scroll_settled_of(shot)),
{
    let h = shot.h;
    let mut y: u32 = 0;
    let mut found: Option<u32> = None;
    while y < h && found.is_none()
        invariant
            shot.wf(),
            h == shot.h,
            y <= h,
            found matches Some(g) ==> g < h && first_gap_row(shot, g as int),
            found is None && shot.w > 5 ==> forall|k: int| 0 <= k < y ==> #[trigger] shot.color_at(5, k) != Color(233, 229, 220),
            shot.w <= 5 && h > 0 ==> y == 0 && found is None,
        decreases h - y + (if found is None { 1int } else { 0int }),
    {
        let c = match shot.get_color(5, y) {
            Ok(c) => c,
            Err(e) => {
                return Err(e);
            },
        };
        if c.eq(&Color(233, 229, 220)) {
            found = Some(y);
        } else {
            y = y + 1;
        }
    }
    let ghost gap_exists = exists|y2: int| first_gap_row(shot, y2);
    let part: u64 = match found {
        Some(g) => {
            proof {
                assert(first_gap_row(shot, g as int));
                assert forall|y2: int| first_gap_row(shot, y2) implies y2 == g by {
                    if y2 < g {
                        assert(shot.color_at(5, y2) != Color(233, 229, 220));
                    } else if y2 > g {
                        assert(shot.color_at(5, g as int) != Color(233, 229, 220));
                    }
                }
            }
            g as u64 * 1000
        },
        None => {
            proof {
                assert forall|y2: int| !first_gap_row(shot, y2) by {
                    if first_gap_row(shot, y2) {
                        assert(shot.color_at(5, y2) != Color(233, 229, 220));
                    }
                }
            }
            0
        },
    };
    let hh = h as u64;
    Ok(hh > 0 && part + GAP_TOLERANCE_MILLI * hh > GAP_RATIO_MILLI * hh && GAP_RATIO_MILLI * hh + GAP_TOLERANCE_MILLI * hh > part)
}


/// The green channel at `(x, y)`.
pub open spec fn green_at(img: &RawCaptureImage, x: int, y: int) -> int {
    img.color_at(x, y).1 as int
}

/// Green summed down column `x` of `rect`, over its first `n` rows.
pub open spec fn column_sum(img: &RawCaptureImage, rect: PixelRect, x: int, n: int) -> int
    decreases n,
{
    if n <= 0 {
        0
    } else {
        column_sum(img, rect, x, n - 1) + green_at(img, rect.left + x, rect.top + n - 1)
    }
}

/// Green summed over the first `n` columns of `rect`: its pool.
pub open spec fn area_sum(img: &RawCaptureImage, rect: PixelRect, n: int) -> int
    decreases n,
{
    if n <= 0 {
        0
    } else {
        area_sum(img, rect, n - 1) + column_sum(img, rect, n - 1, rect.height as int)
    }
}

/// Every pixel of `rect` lies in the image (an empty rectangle always does).
pub open spec fn rect_inside(img: &RawCaptureImage, rect: PixelRect) -> bool {
    rect.width <= 0 || rect.height <= 0 || (0 <= rect.left && 0 <= rect.top && rect.left
        + rect.width <= img.w && rect.top + rect.height <= img.h)
}

proof fn lemma_column_sum_bound(img: &RawCaptureImage, rect: PixelRect, x: int, n: int)
    ensures
        0 <= column_sum(img, rect, x, n) <= 255 * (if n > 0 { n } else { 0 }),
    decreases n,
{
    if n > 0 {
        lemma_column_sum_bound(img, rect, x, n - 1);
    }
}

proof fn lemma_area_sum_bound(img: &RawCaptureImage, rect: PixelRect, n: int)
    ensures
        0 <= area_sum(img, rect, n) <= 255 * (if rect.height > 0 { rect.height as int } else { 0 }) * (if n > 0 { n } else { 0 }),
        rect.height <= 0 ==> area_sum(img, rect, n) == 0,
    decreases n,
{
    let hp: int = if rect.height > 0 { rect.height as int } else { 0 };
    if n > 0 {
        lemma_area_sum_bound(img, rect, n - 1);
        lemma_column_sum_bound(img, rect, n - 1, rect.height as int);
        assert(255 * hp * (n - 1) + 255 * hp == 255 * hp * n) by (nonlinear_arith);
        if rect.height <= 0 {
            assert(column_sum(img, rect, n - 1, rect.height as int) == 0);
        }
    }
}

/// The pool of a rectangle of a capture: its green channel summed.
pub fn get_pool_of_rect(shot: &RawCaptureImage, rect: &PixelRect) -> (r: Result<u128, YasError>)
    requires
        shot.wf(),
    ensures
        rect_inside(shot, *rect) ==> r == Ok::<u128, YasError>(area_sum(shot, *rect, rect.width as int) as u128),
        !rect_inside(shot, *rect) ==> r == Err::<u128, YasError>(YasError::PixelOutOfBounds),
{
    if rect.width <= 0 || rect.height <= 0 {
        proof {
            lemma_area_sum_bound(shot, *rect, rect.width as int);
        }
        return Ok(0);
    }
    if rect.left < 0 || rect.top < 0 || rect.left as i64 + rect.width as i64 > shot.w as i64
        || rect.top as i64 + rect.height as i64 > shot.h as i64 {
        return Err(YasError::PixelOutOfBounds);
    }
    let mut pool: u128 = 0;
    let mut x: i32 = 0;
    while x < rect.width
        invariant
            shot.wf(),
            rect_inside(shot, *rect),
            0 < rect.width,
            0 < rect.height,
            0 <= x <= rect.width,
            pool == area_sum(shot, *rect, x as int),
        decreases rect.width - x,
    {
        let mut col: u128 = 0;
        let mut y: i32 = 0;
        while y < rect.height
            invariant
                shot.wf(),
                rect_inside(shot, *rect),
                0 < rect.width,
                0 < rect.height,
                0 <= x < rect.width,
                0 <= y <= rect.height,
                col == column_sum(shot, *rect, x as int, y as int),
            decreases rect.height - y,
        {
            proof {
                lemma_column_sum_bound(shot, *rect, x as int, y as int);
            }
            let c = shot.get_color((rect.left as i64 + x as i64) as u32, (rect.top as i64 + y as i64) as u32);
            let g = match c {
                Ok(c) => c.1,
                Err(_) => {
                    assert(false);
                    0
                },
            };
            col = col + g as u128;
            y = y + 1;
        }
        proof {
            lemma_area_sum_bound(shot, *rect, x as int);
            lemma_column_sum_bound(shot, *rect, x as int, rect.height as int);
            assert(255 * rect.height * x <= 255 * 0x8000_0000 * 0x8000_0000) by (nonlinear_arith)
                requires 0 <= rect.height <= 0x8000_0000, 0 <= x <= 0x8000_0000;
            assert(area_sum(shot, *rect, x + 1) == area_sum(shot, *rect, x as int) + column_sum(shot, *rect, x as int, rect.height as int));
        }
        pool = pool + col;
        x = x + 1;
    }
    Ok(pool)
}

/// The pool of the four substat fields of a panel capture, the signal that
/// selection settling watches.
pub fn get_pool(shot: &RawCaptureImage, info: &ScanInfo) -> (r: Result<u128, YasError>)
    requires
        shot.wf(),
    ensures
        ({
            let rs = seq![info.sub_stat1_position, info.sub_stat2_position, info.sub_stat3_position, info.sub_stat4_position];
            if forall|i: int| 0 <= i < 4 ==> rect_inside(shot, #[trigger] rs[i]) {
                r == Ok::<u128, YasError>((area_sum(shot, rs[0], rs[0].width as int) + area_sum(shot, rs[1], rs[1].width as int)
                    + area_sum(shot, rs[2], rs[2].width as int) + area_sum(shot, rs[3], rs[3].width as int)) as u128)
            } else {
                r == Err::<u128, YasError>(YasError::PixelOutOfBounds)
            }
        }),
{
    let ghost rs = seq![info.sub_stat1_position, info.sub_stat2_position, info.sub_stat3_position, info.sub_stat4_position];
    proof {
        assert(rs[0] == info.sub_stat1_position);
        assert(rs[1] == info.sub_stat2_position);
        assert(rs[2] == info.sub_stat3_position);
        assert(rs[3] == info.sub_stat4_position);
    }
    let p1 = match get_pool_of_rect(shot, &info.sub_stat1_position) {
        Ok(p) => p,
        Err(e) => {
            return Err(e);
        },
    };
    let p2 = match get_pool_of_rect(shot, &info.sub_stat2_position) {
        Ok(p) => p,
        Err(e) => {
            return Err(e);
        },
    };
    let p3 = match get_pool_of_rect(shot, &info.sub_stat3_position) {
        Ok(p) => p,
        Err(e) => {
            return Err(e);
        },
    };
    let p4 = match get_pool_of_rect(shot, &info.sub_stat4_position) {
        Ok(p) => p,
        Err(e) => {
            return Err(e);
        },
    };
    proof {
        lemma_area_sum_bound(shot, rs[0], rs[0].width as int);
        lemma_area_sum_bound(shot, rs[1], rs[1].width as int);
        lemma_area_sum_bound(shot, rs[2], rs[2].width as int);
        lemma_area_sum_bound(shot, rs[3], rs[3].width as int);
        assert forall|i: int| 0 <= i < 4 implies 255 * (if rs[i].height > 0 { rs[i].height as int } else { 0 }) * (if rs[i].width > 0 { rs[i].width as int } else { 0 }) <= 255 * 0x8000_0000 * 0x8000_0000 by {
            let hh = if rs[i].height > 0 { rs[i].height as int } else { 0 };
            let ww = if rs[i].width > 0 { rs[i].width as int } else { 0 };
            assert(255 * hh * ww <= 255 * 0x8000_0000 * 0x8000_0000) by (nonlinear_arith)
                requires 0 <= hh <= 0x8000_0000, 0 <= ww <= 0x8000_0000;
        }
    }
    Ok(p1 + p2 + p3 + p4)
}

/// A pixel in the lock icon's colour.
pub open spec fn lock_pixel(img: &RawCaptureImage, x: int, y: int) -> bool {
    img.color_at(x, y).0 > 200
}

/// The 6 by 6 square around `(x, y)` holds a pixel of the lock icon.
pub open spec fn locked_at(img: &RawCaptureImage, x: int, y: int) -> bool {
    exists|dx: int, dy: int| -3 <= dx < 3 && -3 <= dy < 3 && #[trigger] lock_pixel(img, x + dx, y + dy)
}

pub open spec fn square_inside(img: &RawCaptureImage, x: int, y: int) -> bool {
    3 <= x && x + 3 <= img.w && 3 <= y && y + 3 <= img.h
}

/// Whether the lock icon shows around `(x, y)`; fails where the square
/// leaves the capture.
pub fn lock_at(img: &RawCaptureImage, x: i64, y: i64) -> (r: Result<bool, YasError>)
    requires
        img.wf(),
    ensures
        square_inside(img, x as int, y as int) ==> r == Ok::<bool, YasError>(locked_at(img, x as int, y as int)),
        !square_inside(img, x as int, y as int) ==> r == Err::<bool, YasError>(YasError::PixelOutOfBounds),
{
    if x < 3 || y < 3 || x > img.w as i64 - 3 || y > img.h as i64 - 3 {
        return Err(YasError::PixelOutOfBounds);
    }
    let mut dx: i64 = -3;
    while dx < 3
        invariant
            img.wf(),
            square_inside(img, x as int, y as int),
            -3 <= dx <= 3,
            forall|a: int, b: int| -3 <= a < dx && -3 <= b < 3 ==> !#[trigger] lock_pixel(img, x + a, y + b),
        decreases 3 - dx,
    {
        let mut dy: i64 = -3;
        while dy < 3
            invariant
                img.wf(),
                square_inside(img, x as int, y as int),
                -3 <= dx < 3,
                -3 <= dy <= 3,
                forall|a: int, b: int| -3 <= a < dx && -3 <= b < 3 ==> !#[trigger] lock_pixel(img, x + a, y + b),
                forall|b: int| -3 <= b < dy ==> !#[trigger] lock_pixel(img, x + dx, y + b),
            decreases 3 - dy,
        {
            let c = match img.get_color((x + dx) as u32, (y + dy) as u32) {
                Ok(c) => c,
                Err(_) => {
                    assert(false);
                    Color(0, 0, 0)
                },
            };
            if c.0 > 200 {
                assert(lock_pixel(img, x + dx, y + dy));
                return Ok(true);
            }
            dy = dy + 1;
        }
        dx = dx + 1;
    }
    Ok(false)
}

/// Where the lock icon of cell `(row, col)` is sampled on a capture of the
/// window, `offset_milli` being the scroll remainder.
pub open spec fn lock_point(info: ScanInfo, offset_milli: int, row: int, col: int) -> (int, int) {
    (
        round_div(info.left_margin_milli + info.art_lock_x_milli + info.art_shift_x_milli * col, 1000),
        round_div(info.top_margin_milli + offset_milli + info.art_lock_y_milli + info.art_shift_y_milli * row, 1000),
    )
}

/// The lock state of cell `(row, col)`.
pub open spec fn lock_state(img: &RawCaptureImage, info: ScanInfo, offset_milli: int, row: int, col: int) -> bool {
    locked_at(img, lock_point(info, offset_milli, row, col).0, lock_point(info, offset_milli, row, col).1)
}

pub open spec fn lock_readable(img: &RawCaptureImage, info: ScanInfo, offset_milli: int, row: int, col: int) -> bool {
    square_inside(img, lock_point(info, offset_milli, row, col).0, lock_point(info, offset_milli, row, col).1)
}

/// The lock states of rows `start_row..rows`, `cols` cells each, row by row.
pub open spec fn lock_grid(img: &RawCaptureImage, info: ScanInfo, offset_milli: int, start_row: int, cols: int, n: int) -> Seq<bool> {
    Seq::new(n as nat, |i: int| lock_state(img, info, offset_milli, start_row + i / cols, i % cols))
}

/// Reads the lock states of the visible rows from `start_row` on out of a
/// capture of the whole window.
pub fn get_locks(
    shot: &RawCaptureImage,
    info: &ScanInfo,
    offset_milli: i64,
    start_row: u32,
    rows: u32,
    cols: u32,
) -> (r: Result<Vec<bool>, YasError>)
    requires
        shot.wf(),
        start_row <= rows <= 0xFFFF,
        0 < cols <= 0xFFFF,
        -0x1_0000_0000_0000 <= offset_milli <= 0x1_0000_0000_0000,
        info.left_margin_milli <= 0xFFFF_FFFF_FFFF,
        info.top_margin_milli <= 0xFFFF_FFFF_FFFF,
        info.art_lock_x_milli <= 0xFFFF_FFFF_FFFF,
        info.art_lock_y_milli <= 0xFFFF_FFFF_FFFF,
        info.art_shift_x_milli <= 0xFFFF_FFFF,
        info.art_shift_y_milli <= 0xFFFF_FFFF,
    ensures
        (forall|row: int, col: int| start_row <= row < rows && 0 <= col < cols ==> #[trigger] lock_readable(shot, *info, offset_milli as int, row, col))
            ==> (r matches Ok(v) && v@ == lock_grid(shot, *info, offset_milli as int, start_row as int, cols as int, (rows - start_row) * cols)),
        !(forall|row: int, col: int| start_row <= row < rows && 0 <= col < cols ==> #[trigger] lock_readable(shot, *info, offset_milli as int, row, col))
            ==> r == Err::<Vec<bool>, YasError>(YasError::PixelOutOfBounds),
{
    let mut locks: Vec<bool> = Vec::new();
    let mut row = start_row;
    while row < rows
        invariant
            shot.wf(),
            start_row <= row <= rows <= 0xFFFF,
            0 < cols <= 0xFFFF,
            -0x1_0000_0000_0000 <= offset_milli <= 0x1_0000_0000_0000,
            info.left_margin_milli <= 0xFFFF_FFFF_FFFF,
            info.top_margin_milli <= 0xFFFF_FFFF_FFFF,
            info.art_lock_x_milli <= 0xFFFF_FFFF_FFFF,
            info.art_lock_y_milli <= 0xFFFF_FFFF_FFFF,
            info.art_shift_x_milli <= 0xFFFF_FFFF,
            info.art_shift_y_milli <= 0xFFFF_FFFF,
            forall|r2: int, c2: int| start_row <= r2 < row && 0 <= c2 < cols ==> #[trigger] lock_readable(shot, *info, offset_milli as int, r2, c2),
            locks@ == lock_grid(shot, *info, offset_milli as int, start_row as int, cols as int, (row - start_row) * cols),
        decreases rows - row,
    {
        proof {
            assert(info.art_shift_y_milli * row <= 0xFFFF_FFFF * 0xFFFF) by (nonlinear_arith)
                requires info.art_shift_y_milli <= 0xFFFF_FFFF, row <= 0xFFFF;
        }
        let ym: i128 = info.top_margin_milli as i128 + offset_milli as i128 + info.art_lock_y_milli as i128
            + info.art_shift_y_milli as i128 * row as i128;
        let y = round_div_i128(ym, 1000);
        proof {
            lemma_round_div_between(ym as int, 1000);
        }
        let mut col: u32 = 0;
        while col < cols
            invariant
                shot.wf(),
                start_row <= row < rows <= 0xFFFF,
                0 < cols <= 0xFFFF,
                col <= cols,
                info.left_margin_milli <= 0xFFFF_FFFF_FFFF,
                info.art_lock_x_milli <= 0xFFFF_FFFF_FFFF,
                info.art_shift_x_milli <= 0xFFFF_FFFF,
                y == lock_point(*info, offset_milli as int, row as int, 0).1,
                -0x4_0000_0000_0000 <= y <= 0x4_0000_0000_0000,
                forall|r2: int, c2: int| start_row <= r2 < row && 0 <= c2 < cols ==> #[trigger] lock_readable(shot, *info, offset_milli as int, r2, c2),
                forall|c2: int| 0 <= c2 < col ==> #[trigger] lock_readable(shot, *info, offset_milli as int, row as int, c2),
                locks@ == lock_grid(shot, *info, offset_milli as int, start_row as int, cols as int, (row - start_row) * cols + col),
            decreases cols - col,
        {
            proof {
                assert(info.art_shift_x_milli * col <= 0xFFFF_FFFF * 0xFFFF) by (nonlinear_arith)
                    requires info.art_shift_x_milli <= 0xFFFF_FFFF, col <= 0xFFFF;
            }
            let xm: i128 = info.left_margin_milli as i128 + info.art_lock_x_milli as i128
                + info.art_shift_x_milli as i128 * col as i128;
            let x = round_div_i128(xm, 1000);
            proof {
                lemma_round_div_between(xm as int, 1000);
                lemma_round_div_between(ym as int, 1000);
                assert(lock_point(*info, offset_milli as int, row as int, col as int).1 == y);
                assert(lock_point(*info, offset_milli as int, row as int, col as int).0 == x);
            }
            let locked = match lock_at(shot, x as i64, y as i64) {
                Ok(b) => b,
                Err(e) => {
                    proof {
                        assert(!lock_readable(shot, *info, offset_milli as int, row as int, col as int));
                    }
                    return Err(e);
                },
            };
            proof {
                assert(lock_readable(shot, *info, offset_milli as int, row as int, col as int));
                assert(locked == lock_state(shot, *info, offset_milli as int, row as int, col as int));
                let q = (row - start_row) as int;
                let k = q * cols + col;
                vstd::arithmetic::div_mod::lemma_fundamental_div_mod_converse(k, cols as int, q, col as int);
                assert(k / (cols as int) == q && k % (cols as int) == col);
                let g1 = lock_grid(shot, *info, offset_milli as int, start_row as int, cols as int, k + 1);
                let g0 = lock_grid(shot, *info, offset_milli as int, start_row as int, cols as int, k);
                assert(g1[k] == lock_state(shot, *info, offset_milli as int, start_row + k / (cols as int), k % (cols as int)));
                assert(g1 =~= g0.push(locked));
                assert((row - start_row) * cols + col == k);
            }
            locks.push(locked);
            col = col + 1;
        }
        proof {
            assert((row - start_row) * cols + cols == (row + 1 - start_row) * cols) by (nonlinear_arith);
        }
        row = row + 1;
    }
    Ok(locks)
}

/// Where to grab the scrollbar thumb: counting from the bottom of a one
/// pixel wide capture of the track, the step in brightness that is largest,
/// the first one on a tie.
pub open spec fn brightness(px: Seq<u8>, i: int) -> int {
    px[4 * i] as int + px[4 * i + 1] as int + px[4 * i + 2] as int
}

pub open spec fn step_at(px: Seq<u8>, i: int) -> int {
    let d = brightness(px, i) - brightness(px, i - 1);
    if d < 0 { -d } else { d }
}

/// The first index in `1..n` with the largest step, 0 when no step is above 0.
pub open spec fn largest_step(px: Seq<u8>, n: int) -> int
    decreases n,
{
    if n <= 1 {
        0
    } else {
        let best = largest_step(px, n - 1);
        let best_step = if best == 0 { 0 } else { step_at(px, best) };
        if step_at(px, n - 1) > best_step { n - 1 } else { best }
    }
}

/// How far above the top of the track, in pixels, the thumb's edge lies for
/// a step at index `i`: at `i` when brightness rises there, else one below.
pub open spec fn thumb_offset_of(px: Seq<u8>, height: int) -> int {
    let i = largest_step(px, height);
    if i == 0 {
        0
    } else if brightness(px, i) > brightness(px, i - 1) {
        height - i
    } else {
        height - (i - 1)
    }
}

proof fn lemma_largest_step_range(px: Seq<u8>, n: int)
    ensures
        0 <= largest_step(px, n),
        n > 1 ==> largest_step(px, n) < n,
    decreases n,
{
    if n > 1 {
        lemma_largest_step_range(px, n - 1);
    }
}

/// The offset of the scrollbar thumb's edge in a capture of the track.
pub fn scroll_thumb_offset(pixels: &Vec<u8>, height: u32) -> (r: i64)
    requires
        1 <= height,
        pixels@.len() >= 4 * height,
    ensures
        r == thumb_offset_of(pixels@, height as int),
{
    let ghost px = pixels@;
    let plen = pixels.len();
    let mut best: usize = 0;
    let mut delta_max: i32 = 0;
    let mut color_last: i32 = pixels[0] as i32 + pixels[1] as i32 + pixels[2] as i32;
    let mut i: usize = 1;
    while i < height as usize
        invariant
            px == pixels@,
            plen == pixels@.len(),
            1 <= i <= height,
            pixels@.len() >= 4 * height,
            best == largest_step(px, i as int),
            delta_max == (if best == 0 { 0 } else { step_at(px, best as int) }),
            color_last == brightness(px, i - 1),
        decreases height - i,
    {
        let color: i32 = pixels[4 * i] as i32 + pixels[4 * i + 1] as i32 + pixels[4 * i + 2] as i32;
        let delta: i32 = if color >= color_last { color - color_last } else { color_last - color };
        if delta > delta_max {
            delta_max = delta;
            best = i;
        }
        color_last = color;
        i = i + 1;
    }
    proof {
        lemma_largest_step_range(px, height as int);
    }
    if best == 0 {
        0
    } else {
        let b = pixels[4 * best] as i32 + pixels[4 * best + 1] as i32 + pixels[4 * best + 2] as i32;
        let a = pixels[4 * best - 4] as i32 + pixels[4 * best - 3] as i32 + pixels[4 * best - 2] as i32;
        if b > a {
            height as i64 - best as i64
        } else {
            height as i64 - (best as i64 - 1)
        }
    }
}

} // verus!
