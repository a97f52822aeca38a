use vstd::prelude::*;
use crate::artifact::InternalArtifact;
use crate::scan::{artifact_of, output_of, YasScanResult};

verus! {

/// Collects recognised items in scan order, counting unreadable panels and
/// runs of items already seen.
pub struct ScanCollector {
    pub results: Vec<InternalArtifact>,
    pub seen: Vec<InternalArtifact>,
    pub consecutive_dup: usize,
    pub dup_count: usize,
    pub error_count: usize,
    pub row_len: usize,
}

pub open spec fn level_at_least(min_level: u32) -> spec_fn(InternalArtifact) -> bool {
    |a: InternalArtifact| a.level >= min_level
}

impl ScanCollector {
    pub open spec fn wf(&self) -> bool {
        &&& self.consecutive_dup <= self.dup_count
        &&& self.dup_count + self.error_count <= self.results@.len()
    }

    /// An empty collector that gives up after `row_len` duplicates in a row.
    pub fn new(row_len: usize) -> (r: ScanCollector)
        ensures
            r.wf(),
            r.results@.len() == 0,
            r.seen@.len() == 0,
            r.consecutive_dup == 0,
            r.dup_count == 0,
            r.error_count == 0,
            r.row_len == row_len,
    {
        ScanCollector {
            results: Vec::new(),
            seen: Vec::new(),
            consecutive_dup: 0,
            dup_count: 0,
            error_count: 0,
            row_len,
        }
    }

    fn seen_contains(&self, a: &InternalArtifact) -> (r: bool)
        ensures
            r == self.seen@.contains(*a),
    {
        let mut i: usize = 0;
        while i < self.seen.len()
            invariant
                i <= self.seen@.len(),
                forall|k: int| 0 <= k < i ==> self.seen@[k] != *a,
            decreases self.seen@.len() - i,
        {
            if self.seen[i] == *a {
                return true;
            }
            i = i + 1;
        }
        false
    }

    /// Adds the item of one panel, or its stand-in when the panel does not
    /// read. Returns whether the run of duplicates has reached a full row,
    /// the signal to abort the scan.
    pub fn push(&mut self, r: &YasScanResult) -> (abort: bool)
        requires
            old(self).wf(),
            old(self).results@.len() < usize::MAX,
        ensures
            final(self).wf(),
            final(self).row_len == old(self).row_len,
            final(self).results@ == old(self).results@.push(output_of(r)),
            match artifact_of(r) {
                Some(a) => {
                    &&& final(self).error_count == old(self).error_count
                    &&& old(self).seen@.contains(a) ==> {
                        &&& final(self).consecutive_dup == old(self).consecutive_dup + 1
                        &&& final(self).dup_count == old(self).dup_count + 1
                        &&& final(self).seen@ == old(self).seen@
                    }
                    &&& !old(self).seen@.contains(a) ==> {
                        &&& final(self).consecutive_dup == 0
                        &&& final(self).dup_count == old(self).dup_count
                        &&& final(self).seen@ == old(self).seen@.push(a)
                    }
                },
                None => {
                    &&& final(self).error_count == old(self).error_count + 1
                    &&& final(self).consecutive_dup == old(self).consecutive_dup
                    &&& final(self).dup_count == old(self).dup_count
                    &&& final(self).seen@ == old(self).seen@
                },
            },
            abort == (final(self).consecutive_dup >= final(self).row_len),
    {
        match r.to_internal_artifact() {
            Some(a) => {
                if self.seen_contains(&a) {
                    self.dup_count = self.dup_count + 1;
                    self.consecutive_dup = self.consecutive_dup + 1;
                } else {
                    self.consecutive_dup = 0;
                    self.seen.push(a);
                }
                self.results.push(a);
            },
            None => {
                let f = r.to_fallback_artifact();
                self.results.push(f);
                self.error_count = self.error_count + 1;
            },
        }
        self.consecutive_dup >= self.row_len
    }

    /// The collected items whose level is at least `min_level`, in scan order.
    pub fn finish(self, min_level: u32) -> (r: Vec<InternalArtifact>)
        ensures
            r@ == self.results@.filter(level_at_least(min_level)),
    {
        let mut out: Vec<InternalArtifact> = Vec::new();
        let mut i: usize = 0;
        while i < self.results.len()
            invariant
                i <= self.results@.len(),
                out@ == self.results@.subrange(0, i as int).filter(level_at_least(min_level)),
            decreases self.results@.len() - i,
        {
            let a = self.results[i];
            proof {
                reveal(Seq::filter);
                assert(self.results@.subrange(0, i + 1).drop_last() =~= self.results@.subrange(0, i as int));
                assert(self.results@.subrange(0, i + 1).last() == a);
            }
            if a.level >= min_level {
                out.push(a);
            }
            i = i + 1;
        }
        assert(self.results@.subrange(0, self.results@.len() as int) =~= self.results@);
        out
    }
}

/// What the scan loop does next.
#[derive(Debug, Clone, Copy, PartialEq, Eq, Structural)]
pub enum ScanStep {
    /// Read the lock states of the visible rows from `start_row` on.
    ReadLocks(u32),
    /// Select the cell, capture it and report its rarity with `record`;
    /// `lock_index` is its place in the lock states read for the page.
    Visit { row: u32, col: u32, lock_index: u64 },
    /// Scroll the grid down by this many rows.
    Scroll(u32),
    /// The scan is over.
    Done,
}

/// The scan loop's position: which rows and cells of the visible grid are
/// left, how many items were taken, and where the next page starts.
#[derive(Debug, Clone, Copy, PartialEq, Eq, Structural)]
pub struct ScanCursor {
    pub rows: u32,
    pub cols: u32,
    pub count: u32,
    pub max_row: u32,
    pub total_row: u32,
    pub last_row_col: u32,
    pub scanned_row: u32,
    pub scanned_count: u32,
    pub start_row: u32,
    pub row: u32,
    pub col: u32,
    pub in_page: bool,
    pub pending: bool,
    pub done: bool,
}

/// Rows needed to hold `n` items, `cols` to a row.
pub open spec fn rows_for(n: int, cols: int) -> int {
    (n + cols - 1) / cols
}

/// The number of cells in the current row: the last row of the inventory may
/// be short.
pub open spec fn row_width(c: ScanCursor) -> u32 {
    if c.scanned_row as int == c.total_row as int - 1 {
        c.last_row_col
    } else {
        c.cols
    }
}

/// Rows to scroll once a page is done: as many as the remaining items fill,
/// at most a page.
pub open spec fn scroll_rows_after(c: ScanCursor) -> u32 {
    vstd::math::min(rows_for(c.count as int - c.scanned_count as int, c.cols as int), c.rows as int) as u32
}

/// The next step from inside a page: the next cell, the end of a row, or a
/// scroll once every row is done.
pub open spec fn seek(c: ScanCursor) -> (ScanCursor, ScanStep)
    decreases c.rows - c.row,
{
    if c.row >= c.rows {
        let s = scroll_rows_after(c);
        (ScanCursor { start_row: (c.rows - s) as u32, in_page: false, ..c }, ScanStep::Scroll(s))
    } else if c.col < row_width(c) {
        (
            ScanCursor { col: (c.col + 1) as u32, pending: true, ..c },
            ScanStep::Visit {
                row: c.row,
                col: c.col,
                lock_index: ((c.row - c.start_row) * c.cols + c.col) as u64,
            },
        )
    } else if c.scanned_row as int + 1 >= c.max_row as int {
        (ScanCursor { done: true, ..c }, ScanStep::Done)
    } else {
        seek(ScanCursor { scanned_row: (c.scanned_row + 1) as u32, row: (c.row + 1) as u32, col: 0, ..c })
    }
}

/// The next step from any position.
pub open spec fn next_step(c: ScanCursor) -> (ScanCursor, ScanStep) {
    if c.done {
        (c, ScanStep::Done)
    } else if !c.in_page {
        (ScanCursor { in_page: true, row: c.start_row, col: 0, ..c }, ScanStep::ReadLocks(c.start_row))
    } else {
        seek(c)
    }
}

impl ScanCursor {
    pub open spec fn wf(&self) -> bool {
        &&& self.rows > 0
        &&& self.cols > 0
        &&& self.scanned_count <= self.count
        &&& !self.done ==> self.scanned_count < self.count
        &&& self.start_row <= self.rows
        &&& self.in_page ==> self.start_row <= self.row
        &&& self.col <= self.cols
        &&& self.last_row_col <= self.cols
    }

    /// A cursor at the top of the grid for `count` items on a grid of
    /// `rows` by `cols` visible cells, scanning at most `max_row` rows.
    pub fn new(rows: u32, cols: u32, count: u32, max_row: u32) -> (r: ScanCursor)
        requires
            rows > 0,
            cols > 0,
        ensures
            r.wf(),
            r == (ScanCursor {
                rows,
                cols,
                count,
                max_row,
                total_row: rows_for(count as int, cols as int) as u32,
                last_row_col: if count % cols == 0 { cols } else { count % cols },
                scanned_row: 0,
                scanned_count: 0,
                start_row: 0,
                row: 0,
                col: 0,
                in_page: false,
                pending: false,
                done: count == 0,
            }),
    {
        let total_row = ((count as u64 + cols as u64 - 1) / cols as u64) as u32;
        assert(rows_for(count as int, cols as int) <= count as int + 1) by (nonlinear_arith)
            requires cols >= 1, count >= 0;
        ScanCursor {
            rows,
            cols,
            count,
            max_row,
            total_row,
            last_row_col: if count % cols == 0 { cols } else { count % cols },
            scanned_row: 0,
            scanned_count: 0,
            start_row: 0,
            row: 0,
            col: 0,
            in_page: false,
            pending: false,
            done: count == 0,
        }
    }

    /// Decides the next step and moves past it.
    pub fn next(&mut self) -> (r: ScanStep)
        requires
            old(self).wf(),
            !old(self).pending,
        ensures
            final(self).wf(),
            (*final(self), r) == next_step(*old(self)),
    {
        if self.done {
            return ScanStep::Done;
        }
        if !self.in_page {
            self.in_page = true;
            self.row = self.start_row;
            self.col = 0;
            return ScanStep::ReadLocks(self.start_row);
        }
        loop
            invariant
                self.wf(),
                !self.done,
                self.in_page,
                !self.pending,
                seek(*self) == next_step(*old(self)),
            decreases self.rows - self.row,
        {
            if self.row >= self.rows {
                let remain: u64 = (self.count - self.scanned_count) as u64;
                let remain_row: u64 = (remain + self.cols as u64 - 1) / self.cols as u64;
                let s: u32 = if remain_row < self.rows as u64 { remain_row as u32 } else { self.rows };
                self.start_row = self.rows - s;
                self.in_page = false;
                return ScanStep::Scroll(s);
            }
            let width = if self.scanned_row as u64 + 1 == self.total_row as u64 {
                self.last_row_col
            } else {
                self.cols
            };
            if self.col < width {
                proof {
                    assert((self.row - self.start_row) as int * self.cols as int <= 0xFFFF_FFFF * 0xFFFF_FFFF) by (nonlinear_arith)
                        requires 0 <= self.row - self.start_row <= 0xFFFF_FFFF, 0 <= self.cols <= 0xFFFF_FFFF;
                }
                let step = ScanStep::Visit {
                    row: self.row,
                    col: self.col,
                    lock_index: (self.row - self.start_row) as u64 * self.cols as u64 + self.col as u64,
                };
                self.col = self.col + 1;
                self.pending = true;
                return step;
            }
            if self.scanned_row as u64 + 1 >= self.max_row as u64 {
                self.done = true;
                return ScanStep::Done;
            }
            self.scanned_row = self.scanned_row + 1;
            self.row = self.row + 1;
            self.col = 0;
        }
    }

    /// Reports the rarity check of the cell just visited: a rejected cell
    /// ends the scan; an accepted one is counted, and the scan ends once
    /// every item is counted.
    pub fn record(&mut self, accepted: bool)
        requires
            old(self).wf(),
            old(self).pending,
            !old(self).done,
        ensures
            final(self).wf(),
            !accepted ==> *final(self) == (ScanCursor { pending: false, done: true, ..*old(self) }),
            accepted ==> *final(self) == (ScanCursor {
                pending: false,
                scanned_count: (old(self).scanned_count + 1) as u32,
                done: old(self).scanned_count + 1 >= old(self).count,
                ..*old(self)
            }),
    {
        self.pending = false;
        if !accepted {
            self.done = true;
            return;
        }
        self.scanned_count = self.scanned_count + 1;
        self.done = self.scanned_count >= self.count;
    }
}

} // verus!
