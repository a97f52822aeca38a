use vstd::prelude::*;
use crate::common::{round_div, round_div_i128, PixelRect, PixelRectBound};
use crate::error::YasError;

verus! {

/// A rectangle of a layout template in tenths of a pixel: top, right,
/// bottom, left.
#[derive(Debug, Clone, Copy, PartialEq, Eq, Structural)]
pub struct Rect(pub u32, pub u32, pub u32, pub u32);

/// A layout template: every rectangle, distance and point of the inventory
/// screen, in tenths of a pixel of a window `width` by `height` tenths.
#[derive(Debug, Clone, Copy, PartialEq, Eq, Structural)]
pub struct WindowInfo {
    pub width: u32,
    pub height: u32,
    pub title_pos: Rect,
    pub main_stat_name_pos: Rect,
    pub main_stat_value_pos: Rect,
    pub level_pos: Rect,
    pub panel_pos: Rect,
    pub sub_stat1_pos: Rect,
    pub sub_stat2_pos: Rect,
    pub sub_stat3_pos: Rect,
    pub sub_stat4_pos: Rect,
    pub equip_pos: Rect,
    pub art_count_pos: Rect,
    pub art_width: u32,
    pub art_gap_x: u32,
    pub flag_x: u32,
    pub star_x: u32,
    pub lock_x: u32,
    pub ruler_left: u32,
    pub menu_x: u32,
    pub scrollbar_left: u32,
    pub art_height: u32,
    pub art_gap_y: u32,
    pub flag_y: u32,
    pub star_y: u32,
    pub lock_y: u32,
    pub ruler_top: u32,
    pub ruler_height: u32,
    pub menu_y: u32,
    pub scrollbar_top: u32,
    pub scrollbar_height: u32,
    pub left_margin: u32,
    pub art_lock_x: u32,
    pub art_shift_x: u32,
    pub top_margin: u32,
    pub art_lock_y: u32,
    pub art_shift_y: u32,
    pub art_row: u32,
    pub art_col: u32,
}

/// A layout template scaled to a window: rectangles in whole pixels, the
/// fields of the item panel relative to the panel, distances that the grid
/// walk accumulates in thousandths of a pixel (`*_milli`).
#[derive(Debug, Clone, Copy, PartialEq, Eq, Structural)]
pub struct ScanInfo {
    pub panel_position: PixelRect,
    pub title_position: PixelRect,
    pub main_stat_name_position: PixelRect,
    pub main_stat_value_position: PixelRect,
    pub level_position: PixelRect,
    pub sub_stat1_position: PixelRect,
    pub sub_stat2_position: PixelRect,
    pub sub_stat3_position: PixelRect,
    pub sub_stat4_position: PixelRect,
    pub equip_position: PixelRect,
    pub art_count_position: PixelRectBound,
    pub art_width: u32,
    pub art_height: u32,
    pub art_gap_x: u32,
    pub art_gap_y: u32,
    pub art_row: u32,
    pub art_col: u32,
    pub left_margin_milli: u64,
    pub top_margin_milli: u64,
    pub width: u32,
    pub height: u32,
    pub left: i32,
    pub top: i32,
    pub flag_x: u32,
    pub flag_y: u32,
    pub star_x: u32,
    pub star_y: u32,
    pub lock_x: u32,
    pub lock_y: u32,
    pub art_lock_x_milli: u64,
    pub art_lock_y_milli: u64,
    pub ruler_left: u32,
    pub ruler_top: u32,
    pub ruler_height: u32,
    pub menu_x: u32,
    pub menu_y: u32,
    pub scrollbar_left: u32,
    pub scrollbar_top: u32,
    pub scrollbar_height: u32,
    pub art_shift_x_milli: u64,
    pub art_shift_y_milli: u64,
}

/// Largest template value, in tenths of a pixel.
pub const TEMPLATE_MAX: u32 = 1_000_000;

/// Largest window side in pixels: corners and far edges stay within `i32`.
pub const MAX_WINDOW: u32 = 0x3FFF_FFFF;

pub open spec fn rect_wf(r: Rect, t: WindowInfo) -> bool {
    r.3 <= r.1 <= t.width && r.0 <= r.2 <= t.height
}

impl WindowInfo {
    pub open spec fn wf(&self) -> bool {
        &&& 0 < self.width <= TEMPLATE_MAX
        &&& 0 < self.height <= TEMPLATE_MAX
        &&& rect_wf(self.title_pos, *self)
        &&& rect_wf(self.main_stat_name_pos, *self)
        &&& rect_wf(self.main_stat_value_pos, *self)
        &&& rect_wf(self.level_pos, *self)
        &&& rect_wf(self.panel_pos, *self)
        &&& rect_wf(self.sub_stat1_pos, *self)
        &&& rect_wf(self.sub_stat2_pos, *self)
        &&& rect_wf(self.sub_stat3_pos, *self)
        &&& rect_wf(self.sub_stat4_pos, *self)
        &&& rect_wf(self.equip_pos, *self)
        &&& rect_wf(self.art_count_pos, *self)
        &&& self.art_width <= self.width
        &&& self.art_gap_x <= self.width
        &&& self.flag_x <= self.width
        &&& self.star_x <= self.width
        &&& self.lock_x <= self.width
        &&& self.ruler_left <= self.width
        &&& self.menu_x <= self.width
        &&& self.scrollbar_left <= self.width
        &&& self.left_margin <= self.width
        &&& self.art_lock_x <= self.width
        &&& self.art_shift_x <= self.width
        &&& self.art_height <= self.height
        &&& self.art_gap_y <= self.height
        &&& self.flag_y <= self.height
        &&& self.star_y <= self.height
        &&& self.lock_y <= self.height
        &&& self.ruler_top <= self.height
        &&& self.ruler_height <= self.height
        &&& self.menu_y <= self.height
        &&& self.scrollbar_top <= self.height
        &&& self.scrollbar_height <= self.height
        &&& self.top_margin <= self.height
        &&& self.art_lock_y <= self.height
        &&& self.art_shift_y <= self.height
    }
}

/// A template length scaled from `tdim` to `dim`, to the nearest unit.
pub open spec fn scale_round(v: int, tdim: int, dim: int) -> int {
    round_div(v * dim, tdim)
}

/// A template length scaled from `tdim` to `dim`, whole pixels, rounded down.
pub open spec fn scale_floor(v: int, tdim: int, dim: int) -> int {
    (v * dim) / tdim
}

/// A template length scaled from `tdim` to `dim`, in thousandths of a pixel.
pub open spec fn scale_milli(v: int, tdim: int, dim: int) -> int {
    round_div(v * dim * 1000, tdim)
}

/// A template rectangle on a window `w` by `h` pixels.
pub open spec fn rect_at(r: Rect, t: WindowInfo, w: int, h: int) -> PixelRect {
    PixelRect {
        left: scale_round(r.3 as int, t.width as int, w) as i32,
        top: scale_round(r.0 as int, t.height as int, h) as i32,
        width: scale_round(r.1 - r.3, t.width as int, w) as i32,
        height: scale_round(r.2 - r.0, t.height as int, h) as i32,
    }
}

/// A rectangle taken relative to the corner of `p`.
pub open spec fn relative_to(r: PixelRect, p: PixelRect) -> PixelRect {
    PixelRect { left: (r.left - p.left) as i32, top: (r.top - p.top) as i32, ..r }
}

/// A template scaled to a window `w` by `h` pixels whose corner is at
/// `(left, top)` on screen.
pub open spec fn scan_info_of(t: WindowInfo, h: int, w: int, left: i32, top: i32) -> ScanInfo {
    let p = rect_at(t.panel_pos, t, w, h);
    let rb = rect_at(t.art_count_pos, t, w, h);
    ScanInfo {
        panel_position: p,
        title_position: relative_to(rect_at(t.title_pos, t, w, h), p),
        main_stat_name_position: relative_to(rect_at(t.main_stat_name_pos, t, w, h), p),
        main_stat_value_position: relative_to(rect_at(t.main_stat_value_pos, t, w, h), p),
        level_position: relative_to(rect_at(t.level_pos, t, w, h), p),
        sub_stat1_position: relative_to(rect_at(t.sub_stat1_pos, t, w, h), p),
        sub_stat2_position: relative_to(rect_at(t.sub_stat2_pos, t, w, h), p),
        sub_stat3_position: relative_to(rect_at(t.sub_stat3_pos, t, w, h), p),
        sub_stat4_position: relative_to(rect_at(t.sub_stat4_pos, t, w, h), p),
        equip_position: relative_to(rect_at(t.equip_pos, t, w, h), p),
        art_count_position: PixelRectBound { left: rb.left, top: rb.top, right: (rb.left + rb.width) as i32, bottom: (rb.top + rb.height) as i32 },
        art_width: scale_floor(t.art_width as int, t.width as int, w) as u32,
        art_gap_x: scale_floor(t.art_gap_x as int, t.width as int, w) as u32,
        art_height: scale_floor(t.art_height as int, t.height as int, h) as u32,
        art_gap_y: scale_floor(t.art_gap_y as int, t.height as int, h) as u32,
        art_row: t.art_row,
        art_col: t.art_col,
        left_margin_milli: scale_milli(t.left_margin as int, t.width as int, w) as u64,
        top_margin_milli: scale_milli(t.top_margin as int, t.height as int, h) as u64,
        width: w as u32,
        height: h as u32,
        left,
        top,
        flag_x: scale_floor(t.flag_x as int, t.width as int, w) as u32,
        star_x: scale_floor(t.star_x as int, t.width as int, w) as u32,
        lock_x: scale_floor(t.lock_x as int, t.width as int, w) as u32,
        flag_y: scale_floor(t.flag_y as int, t.height as int, h) as u32,
        star_y: scale_floor(t.star_y as int, t.height as int, h) as u32,
        lock_y: scale_floor(t.lock_y as int, t.height as int, h) as u32,
        art_lock_x_milli: scale_milli(t.art_lock_x as int, t.width as int, w) as u64,
        art_lock_y_milli: scale_milli(t.art_lock_y as int, t.height as int, h) as u64,
        ruler_left: scale_floor(t.ruler_left as int, t.width as int, w) as u32,
        ruler_top: scale_floor(t.ruler_top as int, t.height as int, h) as u32,
        ruler_height: scale_floor(t.ruler_height as int, t.height as int, h) as u32,
        menu_x: scale_floor(t.menu_x as int, t.width as int, w) as u32,
        menu_y: scale_floor(t.menu_y as int, t.height as int, h) as u32,
        scrollbar_left: scale_floor(t.scrollbar_left as int, t.width as int, w) as u32,
        scrollbar_top: scale_floor(t.scrollbar_top as int, t.height as int, h) as u32,
        scrollbar_height: scale_floor(t.scrollbar_height as int, t.height as int, h) as u32,
        art_shift_x_milli: scale_milli(t.art_shift_x as int, t.width as int, w) as u64,
        art_shift_y_milli: scale_milli(t.art_shift_y as int, t.height as int, h) as u64,
    }
}

proof fn lemma_scale_bounds(v: int, tdim: int, dim: int)
    requires
        0 <= v <= tdim,
        0 < tdim,
        0 <= dim,
    ensures
        0 <= scale_round(v, tdim, dim) <= dim,
        0 <= scale_floor(v, tdim, dim) <= dim,
        0 <= scale_milli(v, tdim, dim) <= dim * 1000,
{
    assert(0 <= v * dim <= tdim * dim) by (nonlinear_arith)
        requires 0 <= v <= tdim, 0 <= dim;
    assert((v * dim) / tdim <= dim) by (nonlinear_arith)
        requires 0 <= v * dim <= tdim * dim, 0 < tdim;
    assert(0 <= (v * dim) / tdim) by (nonlinear_arith)
        requires 0 <= v * dim, 0 < tdim;
    assert((2 * (v * dim) + tdim) / (2 * tdim) <= dim) by (nonlinear_arith)
        requires 0 <= v * dim <= tdim * dim, 0 < tdim, 0 <= dim;
    assert(0 <= (2 * (v * dim) + tdim) / (2 * tdim)) by (nonlinear_arith)
        requires 0 <= v * dim, 0 < tdim;
    assert(0 <= v * dim * 1000 <= tdim * dim * 1000) by (nonlinear_arith)
        requires 0 <= v <= tdim, 0 <= dim;
    assert((2 * (v * dim * 1000) + tdim) / (2 * tdim) <= dim * 1000) by (nonlinear_arith)
        requires 0 <= v * dim * 1000 <= tdim * dim * 1000, 0 < tdim, 0 <= dim;
    assert(0 <= (2 * (v * dim * 1000) + tdim) / (2 * tdim)) by (nonlinear_arith)
        requires 0 <= v * dim * 1000, 0 < tdim;
}

fn exec_scale_round(v: u32, tdim: u32, dim: u32) -> (r: i32)
    requires
        v <= tdim,
        0 < tdim <= TEMPLATE_MAX,
        dim <= i32::MAX,
    ensures
        r == scale_round(v as int, tdim as int, dim as int),
{
    proof {
        lemma_scale_bounds(v as int, tdim as int, dim as int);
        assert(v as int * dim as int <= 0x1_0000_0000 * 0x1_0000_0000) by (nonlinear_arith)
            requires v <= 0x1_0000_0000, dim <= 0x1_0000_0000;
    }
    round_div_i128(v as i128 * dim as i128, tdim as i128) as i32
}

fn exec_scale_floor(v: u32, tdim: u32, dim: u32) -> (r: u32)
    requires
        v <= tdim,
        0 < tdim <= TEMPLATE_MAX,
        dim <= i32::MAX,
    ensures
        r == scale_floor(v as int, tdim as int, dim as int),
{
    proof {
        lemma_scale_bounds(v as int, tdim as int, dim as int);
        assert(v as int * dim as int <= 1_000_000 * 0x8000_0000) by (nonlinear_arith)
            requires v <= 1_000_000, dim <= 0x8000_0000;
    }
    ((v as u64 * dim as u64) / tdim as u64) as u32
}

fn exec_scale_milli(v: u32, tdim: u32, dim: u32) -> (r: u64)
    requires
        v <= tdim,
        0 < tdim <= TEMPLATE_MAX,
        dim <= i32::MAX,
    ensures
        r == scale_milli(v as int, tdim as int, dim as int),
{
    proof {
        lemma_scale_bounds(v as int, tdim as int, dim as int);
        assert(v as int * dim as int * 1000 <= 0x1_0000_0000 * 0x1_0000_0000 * 1000) by (nonlinear_arith)
            requires v <= 0x1_0000_0000, dim <= 0x1_0000_0000;
    }
    round_div_i128(v as i128 * dim as i128 * 1000, tdim as i128) as u64
}

fn exec_rect_at(r: Rect, t: &WindowInfo, w: u32, h: u32) -> (p: PixelRect)
    requires
        t.wf(),
        rect_wf(r, *t),
        w <= i32::MAX,
        h <= i32::MAX,
    ensures
        p == rect_at(r, *t, w as int, h as int),
        0 <= p.left <= w,
        0 <= p.top <= h,
        0 <= p.width <= w,
        0 <= p.height <= h,
{
    proof {
        lemma_scale_bounds(r.3 as int, t.width as int, w as int);
        lemma_scale_bounds(r.0 as int, t.height as int, h as int);
        lemma_scale_bounds(r.1 - r.3, t.width as int, w as int);
        lemma_scale_bounds(r.2 - r.0, t.height as int, h as int);
    }
    PixelRect {
        left: exec_scale_round(r.3, t.width, w),
        top: exec_scale_round(r.0, t.height, h),
        width: exec_scale_round(r.1 - r.3, t.width, w),
        height: exec_scale_round(r.2 - r.0, t.height, h),
    }
}

fn exec_relative_to(r: PixelRect, p: &PixelRect) -> (q: PixelRect)
    requires
        0 <= r.left,
        0 <= r.top,
        0 <= p.left,
        0 <= p.top,
    ensures
        q == relative_to(r, *p),
{
    PixelRect { left: r.left - p.left, top: r.top - p.top, width: r.width, height: r.height }
}

impl WindowInfo {
    /// The template scaled to a window `w` by `h` pixels at `(left, top)`.
    pub fn to_scan_info(&self, h: u32, w: u32, left: i32, top: i32) -> (r: ScanInfo)
        requires
            self.wf(),
            w <= MAX_WINDOW,
            h <= MAX_WINDOW,
        ensures
            r == scan_info_of(*self, h as int, w as int, left, top),
    {
        let p = exec_rect_at(self.panel_pos, self, w, h);
        let rb = exec_rect_at(self.art_count_pos, self, w, h);
        ScanInfo {
            panel_position: p,
            title_position: exec_relative_to(exec_rect_at(self.title_pos, self, w, h), &p),
            main_stat_name_position: exec_relative_to(exec_rect_at(self.main_stat_name_pos, self, w, h), &p),
            main_stat_value_position: exec_relative_to(exec_rect_at(self.main_stat_value_pos, self, w, h), &p),
            level_position: exec_relative_to(exec_rect_at(self.level_pos, self, w, h), &p),
            sub_stat1_position: exec_relative_to(exec_rect_at(self.sub_stat1_pos, self, w, h), &p),
            sub_stat2_position: exec_relative_to(exec_rect_at(self.sub_stat2_pos, self, w, h), &p),
            sub_stat3_position: exec_relative_to(exec_rect_at(self.sub_stat3_pos, self, w, h), &p),
            sub_stat4_position: exec_relative_to(exec_rect_at(self.sub_stat4_pos, self, w, h), &p),
            equip_position: exec_relative_to(exec_rect_at(self.equip_pos, self, w, h), &p),
            art_count_position: PixelRectBound { left: rb.left, top: rb.top, right: rb.left + rb.width, bottom: rb.top + rb.height },
            art_width: exec_scale_floor(self.art_width, self.width, w),
            art_gap_x: exec_scale_floor(self.art_gap_x, self.width, w),
            art_height: exec_scale_floor(self.art_height, self.height, h),
            art_gap_y: exec_scale_floor(self.art_gap_y, self.height, h),
            art_row: self.art_row,
            art_col: self.art_col,
            left_margin_milli: exec_scale_milli(self.left_margin, self.width, w),
            top_margin_milli: exec_scale_milli(self.top_margin, self.height, h),
            width: w,
            height: h,
            left,
            top,
            flag_x: exec_scale_floor(self.flag_x, self.width, w),
            star_x: exec_scale_floor(self.star_x, self.width, w),
            lock_x: exec_scale_floor(self.lock_x, self.width, w),
            flag_y: exec_scale_floor(self.flag_y, self.height, h),
            star_y: exec_scale_floor(self.star_y, self.height, h),
            lock_y: exec_scale_floor(self.lock_y, self.height, h),
            art_lock_x_milli: exec_scale_milli(self.art_lock_x, self.width, w),
            art_lock_y_milli: exec_scale_milli(self.art_lock_y, self.height, h),
            ruler_left: exec_scale_floor(self.ruler_left, self.width, w),
            ruler_top: exec_scale_floor(self.ruler_top, self.height, h),
            ruler_height: exec_scale_floor(self.ruler_height, self.height, h),
            menu_x: exec_scale_floor(self.menu_x, self.width, w),
            menu_y: exec_scale_floor(self.menu_y, self.height, h),
            scrollbar_left: exec_scale_floor(self.scrollbar_left, self.width, w),
            scrollbar_top: exec_scale_floor(self.scrollbar_top, self.height, h),
            scrollbar_height: exec_scale_floor(self.scrollbar_height, self.height, h),
            art_shift_x_milli: exec_scale_milli(self.art_shift_x, self.width, w),
            art_shift_y_milli: exec_scale_milli(self.art_shift_y, self.height, h),
        }
    }
}

/// The layout of a 16:9 window, measured at 1600x900.
pub open spec fn template_16_9() -> WindowInfo {
    WindowInfo {
        width: 16000,
        height: 9000,
        title_pos: Rect(1066, 14177, 1396, 11118),
        main_stat_name_pos: Rect(2243, 12539, 2480, 11100),
        main_stat_value_pos: Rect(2484, 12468, 2868, 11100),
        level_pos: Rect(3600, 11600, 3780, 11170),
        panel_pos: Rect(1000, 15000, 8000, 10900),
        sub_stat1_pos: Rect(3981, 13430, 4273, 11302),
        sub_stat2_pos: Rect(4273, 13430, 4582, 11302),
        sub_stat3_pos: Rect(4582, 13430, 4909, 11302),
        sub_stat4_pos: Rect(4909, 13430, 5230, 11302),
        equip_pos: Rect(7626, 13894, 7878, 11549),
        art_count_pos: Rect(271, 15047, 529, 13149),
        art_width: 1020,
        art_height: 1260,
        art_gap_x: 200,
        art_gap_y: 200,
        left_margin: 980,
        top_margin: 1000,
        flag_x: 2711,
        flag_y: 898,
        star_x: 3794,
        star_y: 239,
        lock_x: 14500,
        lock_y: 3570,
        art_lock_x: 120,
        art_lock_y: 140,
        ruler_left: 2720,
        ruler_top: 1020,
        ruler_height: 1230,
        menu_x: 5400,
        menu_y: 500,
        scrollbar_left: 10740,
        scrollbar_top: 1080,
        scrollbar_height: 6680,
        art_shift_x: 1220,
        art_shift_y: 1460,
        art_row: 5,
        art_col: 8,
    }
}

/// The layout of a 16:9 window, measured at 1600x900.
pub fn window_16_9() -> (r: WindowInfo)
    ensures
        r == template_16_9(),
{
    WindowInfo {
        width: 16000,
        height: 9000,
        title_pos: Rect(1066, 14177, 1396, 11118),
        main_stat_name_pos: Rect(2243, 12539, 2480, 11100),
        main_stat_value_pos: Rect(2484, 12468, 2868, 11100),
        level_pos: Rect(3600, 11600, 3780, 11170),
        panel_pos: Rect(1000, 15000, 8000, 10900),
        sub_stat1_pos: Rect(3981, 13430, 4273, 11302),
        sub_stat2_pos: Rect(4273, 13430, 4582, 11302),
        sub_stat3_pos: Rect(4582, 13430, 4909, 11302),
        sub_stat4_pos: Rect(4909, 13430, 5230, 11302),
        equip_pos: Rect(7626, 13894, 7878, 11549),
        art_count_pos: Rect(271, 15047, 529, 13149),
        art_width: 1020,
        art_height: 1260,
        art_gap_x: 200,
        art_gap_y: 200,
        left_margin: 980,
        top_margin: 1000,
        flag_x: 2711,
        flag_y: 898,
        star_x: 3794,
        star_y: 239,
        lock_x: 14500,
        lock_y: 3570,
        art_lock_x: 120,
        art_lock_y: 140,
        ruler_left: 2720,
        ruler_top: 1020,
        ruler_height: 1230,
        menu_x: 5400,
        menu_y: 500,
        scrollbar_left: 10740,
        scrollbar_top: 1080,
        scrollbar_height: 6680,
        art_shift_x: 1220,
        art_shift_y: 1460,
        art_row: 5,
        art_col: 8,
    }
}

/// The layout of a 8:5 window, measured at 1440x900.
pub open spec fn template_8_5() -> WindowInfo {
    WindowInfo {
        width: 14400,
        height: 9000,
        title_pos: Rect(960, 12689, 1261, 10009),
        main_stat_name_pos: Rect(2016, 11281, 2239, 10003),
        main_stat_value_pos: Rect(2255, 11281, 2628, 10003),
        level_pos: Rect(3240, 10430, 3400, 10060),
        panel_pos: Rect(900, 13500, 8100, 9810),
        sub_stat1_pos: Rect(3580, 12241, 3841, 10162),
        sub_stat2_pos: Rect(3841, 12241, 4126, 10162),
        sub_stat3_pos: Rect(4126, 12241, 4405, 10162),
        sub_stat4_pos: Rect(4405, 12241, 4671, 10162),
        equip_pos: Rect(7760, 12473, 8006, 10413),
        art_count_pos: Rect(250, 13531, 468, 11828),
        art_width: 930,
        art_height: 1130,
        art_gap_x: 170,
        art_gap_y: 180,
        left_margin: 890,
        top_margin: 910,
        flag_x: 2459,
        flag_y: 821,
        star_x: 3403,
        star_y: 213,
        lock_x: 13050,
        lock_y: 3220,
        art_lock_x: 100,
        art_lock_y: 120,
        ruler_left: 2430,
        ruler_top: 930,
        ruler_height: 1080,
        menu_x: 4890,
        menu_y: 470,
        scrollbar_left: 9660,
        scrollbar_top: 980,
        scrollbar_height: 6900,
        art_shift_x: 1098,
        art_shift_y: 1314,
        art_row: 6,
        art_col: 8,
    }
}

/// The layout of a 8:5 window, measured at 1440x900.
pub fn window_8_5() -> (r: WindowInfo)
    ensures
        r == template_8_5(),
{
    WindowInfo {
        width: 14400,
        height: 9000,
        title_pos: Rect(960, 12689, 1261, 10009),
        main_stat_name_pos: Rect(2016, 11281, 2239, 10003),
        main_stat_value_pos: Rect(2255, 11281, 2628, 10003),
        level_pos: Rect(3240, 10430, 3400, 10060),
        panel_pos: Rect(900, 13500, 8100, 9810),
        sub_stat1_pos: Rect(3580, 12241, 3841, 10162),
        sub_stat2_pos: Rect(3841, 12241, 4126, 10162),
        sub_stat3_pos: Rect(4126, 12241, 4405, 10162),
        sub_stat4_pos: Rect(4405, 12241, 4671, 10162),
        equip_pos: Rect(7760, 12473, 8006, 10413),
        art_count_pos: Rect(250, 13531, 468, 11828),
        art_width: 930,
        art_height: 1130,
        art_gap_x: 170,
        art_gap_y: 180,
        left_margin: 890,
        top_margin: 910,
        flag_x: 2459,
        flag_y: 821,
        star_x: 3403,
        star_y: 213,
        lock_x: 13050,
        lock_y: 3220,
        art_lock_x: 100,
        art_lock_y: 120,
        ruler_left: 2430,
        ruler_top: 930,
        ruler_height: 1080,
        menu_x: 4890,
        menu_y: 470,
        scrollbar_left: 9660,
        scrollbar_top: 980,
        scrollbar_height: 6900,
        art_shift_x: 1098,
        art_shift_y: 1314,
        art_row: 6,
        art_col: 8,
    }
}

/// The layout of a 4:3 window, measured at 1280x960.
pub open spec fn template_4_3() -> WindowInfo {
    WindowInfo {
        width: 12800,
        height: 9600,
        title_pos: Rect(850, 10948, 1117, 8895),
        main_stat_name_pos: Rect(1810, 9980, 1998, 8895),
        main_stat_value_pos: Rect(1998, 9980, 2334, 8895),
        level_pos: Rect(2880, 9270, 3020, 8940),
        panel_pos: Rect(800, 12000, 8800, 8720),
        sub_stat1_pos: Rect(3182, 11005, 3423, 9043),
        sub_stat2_pos: Rect(3423, 11005, 3694, 9043),
        sub_stat3_pos: Rect(3694, 11005, 3953, 9043),
        sub_stat4_pos: Rect(3953, 11005, 4206, 9043),
        equip_pos: Rect(8498, 10908, 8701, 9244),
        art_count_pos: Rect(229, 12023, 414, 10586),
        art_width: 820,
        art_height: 1010,
        art_gap_x: 150,
        art_gap_y: 150,
        left_margin: 790,
        top_margin: 810,
        flag_x: 2181,
        flag_y: 721,
        star_x: 3034,
        star_y: 158,
        lock_x: 11600,
        lock_y: 2860,
        art_lock_x: 90,
        art_lock_y: 100,
        ruler_left: 2160,
        ruler_top: 830,
        ruler_height: 960,
        menu_x: 4360,
        menu_y: 420,
        scrollbar_left: 8590,
        scrollbar_top: 930,
        scrollbar_height: 7650,
        art_shift_x: 976,
        art_shift_y: 1168,
        art_row: 7,
        art_col: 8,
    }
}

/// The layout of a 4:3 window, measured at 1280x960.
pub fn window_4_3() -> (r: WindowInfo)
    ensures
        r == template_4_3(),
{
    WindowInfo {
        width: 12800,
        height: 9600,
        title_pos: Rect(850, 10948, 1117, 8895),
        main_stat_name_pos: Rect(1810, 9980, 1998, 8895),
        main_stat_value_pos: Rect(1998, 9980, 2334, 8895),
        level_pos: Rect(2880, 9270, 3020, 8940),
        panel_pos: Rect(800, 12000, 8800, 8720),
        sub_stat1_pos: Rect(3182, 11005, 3423, 9043),
        sub_stat2_pos: Rect(3423, 11005, 3694, 9043),
        sub_stat3_pos: Rect(3694, 11005, 3953, 9043),
        sub_stat4_pos: Rect(3953, 11005, 4206, 9043),
        equip_pos: Rect(8498, 10908, 8701, 9244),
        art_count_pos: Rect(229, 12023, 414, 10586),
        art_width: 820,
        art_height: 1010,
        art_gap_x: 150,
        art_gap_y: 150,
        left_margin: 790,
        top_margin: 810,
        flag_x: 2181,
        flag_y: 721,
        star_x: 3034,
        star_y: 158,
        lock_x: 11600,
        lock_y: 2860,
        art_lock_x: 90,
        art_lock_y: 100,
        ruler_left: 2160,
        ruler_top: 830,
        ruler_height: 960,
        menu_x: 4360,
        menu_y: 420,
        scrollbar_left: 8590,
        scrollbar_top: 930,
        scrollbar_height: 7650,
        art_shift_x: 976,
        art_shift_y: 1168,
        art_row: 7,
        art_col: 8,
    }
}

/// The template for a window of `w` by `h` pixels: the first of 16:9, 8:5
/// and 4:3 whose ratio the size has exactly.
pub open spec fn template_for(w: int, h: int) -> Option<WindowInfo> {
    if h * 16 == w * 9 {
        Some(template_16_9())
    } else if h * 8 == w * 5 {
        Some(template_8_5())
    } else if h * 4 == w * 3 {
        Some(template_4_3())
    } else {
        None
    }
}

impl ScanInfo {
    /// The 16:9 layout on a window of the given size and position.
    pub fn from_16_9(width: u32, height: u32, left: i32, top: i32) -> (r: ScanInfo)
        requires
            width <= MAX_WINDOW,
            height <= MAX_WINDOW,
        ensures
            r == scan_info_of(template_16_9(), height as int, width as int, left, top),
    {
        window_16_9().to_scan_info(height, width, left, top)
    }

    /// The 8:5 layout on a window of the given size and position.
    pub fn from_8_5(width: u32, height: u32, left: i32, top: i32) -> (r: ScanInfo)
        requires
            width <= MAX_WINDOW,
            height <= MAX_WINDOW,
        ensures
            r == scan_info_of(template_8_5(), height as int, width as int, left, top),
    {
        window_8_5().to_scan_info(height, width, left, top)
    }

    /// The 4:3 layout on a window of the given size and position.
    pub fn from_4_3(width: u32, height: u32, left: i32, top: i32) -> (r: ScanInfo)
        requires
            width <= MAX_WINDOW,
            height <= MAX_WINDOW,
        ensures
            r == scan_info_of(template_4_3(), height as int, width as int, left, top),
    {
        window_4_3().to_scan_info(height, width, left, top)
    }

    /// The layout for a window rectangle, or `UnsupportedResolution` when its
    /// size is negative, too large, or of none of the supported ratios.
    pub fn from_rect(rect: &PixelRect) -> (r: Result<ScanInfo, YasError>)
        ensures
            ({
                let w = rect.width as int;
                let h = rect.height as int;
                if 0 <= w <= MAX_WINDOW && 0 <= h <= MAX_WINDOW && template_for(w, h) is Some {
                    r == Ok::<ScanInfo, YasError>(scan_info_of(template_for(w, h)->Some_0, h, w, rect.left, rect.top))
                } else {
                    r == Err::<ScanInfo, YasError>(YasError::UnsupportedResolution)
                }
            }),
    {
        if rect.width < 0 || rect.height < 0 || rect.width > MAX_WINDOW as i32 || rect.height > MAX_WINDOW as i32 {
            return Err(YasError::UnsupportedResolution);
        }
        let w = rect.width as i64;
        let h = rect.height as i64;
        if h * 16 == w * 9 {
            Ok(ScanInfo::from_16_9(rect.width as u32, rect.height as u32, rect.left, rect.top))
        } else if h * 8 == w * 5 {
            Ok(ScanInfo::from_8_5(rect.width as u32, rect.height as u32, rect.left, rect.top))
        } else if h * 4 == w * 3 {
            Ok(ScanInfo::from_4_3(rect.width as u32, rect.height as u32, rect.left, rect.top))
        } else {
            Err(YasError::UnsupportedResolution)
        }
    }
}

proof fn lemma_round_scale(v: int, k: int)
    requires
        v >= 0,
        k > 0,
    ensures
        round_div(v * k, 10 * k) == round_div(v, 10),
        v % 10 == 0 ==> round_div(v, 10) == v / 10,
{
    vstd::arithmetic::div_mod::lemma_div_multiples_vanish_quotient(k, 2 * v + 10, 20);
    assert(k * (2 * v + 10) == 2 * (v * k) + 10 * k) by (nonlinear_arith);
    assert(k * 20 == 2 * (10 * k)) by (nonlinear_arith);
    assert(v * k >= 0) by (nonlinear_arith)
        requires v >= 0, k > 0;
    if v % 10 == 0 {
        assert((2 * v + 10) / 20 == v / 10) by (nonlinear_arith)
            requires v % 10 == 0, v >= 0;
    }
}

/// A template rectangle at the size it was measured at is the rectangle
/// itself on the pixel grid: each coordinate rounded to the nearest pixel,
/// and unchanged where the template gives whole pixels.
pub proof fn lemma_scale_at_own_size(t: WindowInfo, r: Rect)
    requires
        t.wf(),
        rect_wf(r, t),
        t.width % 10 == 0,
        t.height % 10 == 0,
    ensures
        rect_at(r, t, t.width as int / 10, t.height as int / 10) == (PixelRect {
            left: round_div(r.3 as int, 10) as i32,
            top: round_div(r.0 as int, 10) as i32,
            width: round_div(r.1 - r.3, 10) as i32,
            height: round_div(r.2 - r.0, 10) as i32,
        }),
        (r.0 % 10 == 0 && r.1 % 10 == 0 && r.2 % 10 == 0 && r.3 % 10 == 0) ==> rect_at(
            r,
            t,
            t.width as int / 10,
            t.height as int / 10,
        ) == (PixelRect {
            left: (r.3 / 10) as i32,
            top: (r.0 / 10) as i32,
            width: ((r.1 - r.3) / 10) as i32,
            height: ((r.2 - r.0) / 10) as i32,
        }),
{
    let kw = t.width / 10;
    let kh = t.height / 10;
    assert(t.width == 10 * kw);
    assert(t.height == 10 * kh);
    lemma_round_scale(r.3 as int, kw as int);
    lemma_round_scale(r.0 as int, kh as int);
    lemma_round_scale(r.1 - r.3, kw as int);
    lemma_round_scale(r.2 - r.0, kh as int);
    if r.0 % 10 == 0 && r.1 % 10 == 0 && r.2 % 10 == 0 && r.3 % 10 == 0 {
        assert((r.1 - r.3) % 10 == 0);
        assert((r.2 - r.0) % 10 == 0);
    }
}

/// Each supported template is well formed and was measured at a whole number
/// of pixels, so the identity above applies to all of its rectangles.
pub proof fn lemma_supported_templates()
    ensures
        template_16_9().wf() && template_16_9().width % 10 == 0 && template_16_9().height % 10 == 0,
        template_8_5().wf() && template_8_5().width % 10 == 0 && template_8_5().height % 10 == 0,
        template_4_3().wf() && template_4_3().width % 10 == 0 && template_4_3().height % 10 == 0,
{
}

} // verus!
