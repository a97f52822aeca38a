use yas::pipeline::{ScanCollector, ScanCursor, ScanStep};
use yas::scan::YasScanResult;

fn synthetic(index: u32) -> YasScanResult {
    YasScanResult {
        name: String::from("角斗士的留恋"),
        main_stat_name: String::from("生命值"),
        main_stat_value: String::from("4,780"),
        sub_stat_1: format!("暴击率+{}.{}%", index / 10, index % 10),
        sub_stat_2: String::from("攻击力+19"),
        sub_stat_3: String::new(),
        sub_stat_4: String::new(),
        level: String::from("+20"),
        location: String::new(),
        rarity: 5,
        lock: false,
    }
}

/// Drives the cursor over a synthetic grid; `shown(i)` is what the i-th
/// visited cell shows. Returns the collected items and whether the scan
/// aborted.
fn run(rows: u32, cols: u32, count: u32, min_star: u32, shown: &dyn Fn(u32) -> u32) -> (Vec<yas::artifact::InternalArtifact>, bool, Vec<ScanStep>) {
    let mut cursor = ScanCursor::new(rows, cols, count, 1000);
    let mut collector = ScanCollector::new(cols as usize);
    let mut visited: u32 = 0;
    let mut aborted = false;
    let mut steps = Vec::new();
    loop {
        let step = cursor.next();
        steps.push(step);
        match step {
            ScanStep::Done => break,
            ScanStep::ReadLocks(_) | ScanStep::Scroll(_) => {}
            ScanStep::Visit { .. } => {
                let star = 5;
                cursor.record(star >= min_star);
                if collector.push(&synthetic(shown(visited))) {
                    aborted = true;
                    break;
                }
                visited += 1;
            }
        }
    }
    (collector.finish(0), aborted, steps)
}

#[test]
fn full_grid_scan_yields_every_item_in_order() {
    let (items, aborted, steps) = run(5, 8, 37, 5, &|i| i);
    assert!(!aborted);
    assert_eq!(items.len(), 37);
    for i in 0..items.len() {
        for j in 0..i {
            assert_ne!(items[i], items[j]);
        }
        let expected = yas::artifact::ArtifactStat::from_zh_cn_raw(&format!("暴击率+{}.{}%", i / 10, i % 10));
        assert_eq!(items[i].sub_stat_1, expected);
    }
    assert_eq!(steps[0], ScanStep::ReadLocks(0));
    assert_eq!(steps[1], ScanStep::Visit { row: 0, col: 0, lock_index: 0 });
    assert_eq!(*steps.last().unwrap(), ScanStep::Done);
}

#[test]
fn full_row_of_duplicates_aborts_the_scan() {
    let (items, aborted, _) = run(5, 8, 37, 5, &|i| if (10..=17).contains(&i) { 9 } else { i });
    assert!(aborted);
    assert!(items.len() < 37);
    assert_eq!(items.len(), 18);
}

#[test]
fn cursor_walks_pages_and_short_last_row() {
    let mut cursor = ScanCursor::new(2, 3, 7, 1000);
    let mut steps = Vec::new();
    loop {
        let s = cursor.next();
        steps.push(s);
        if s == ScanStep::Done {
            break;
        }
        if let ScanStep::Visit { .. } = s {
            cursor.record(true);
        }
    }
    let visits: Vec<(u32, u32, u64)> = steps
        .iter()
        .filter_map(|s| match s {
            ScanStep::Visit { row, col, lock_index } => Some((*row, *col, *lock_index)),
            _ => None,
        })
        .collect();
    assert_eq!(visits.len(), 7);
    assert_eq!(steps[0], ScanStep::ReadLocks(0));
    assert_eq!(steps[7], ScanStep::Scroll(1));
    assert_eq!(steps[8], ScanStep::ReadLocks(1));
    assert_eq!(visits[6], (1, 0, 0));
}

#[test]
fn low_rarity_ends_the_scan() {
    let mut cursor = ScanCursor::new(5, 8, 37, 1000);
    assert_eq!(cursor.next(), ScanStep::ReadLocks(0));
    assert_eq!(cursor.next(), ScanStep::Visit { row: 0, col: 0, lock_index: 0 });
    cursor.record(false);
    assert_eq!(cursor.next(), ScanStep::Done);
}

#[test]
fn max_row_limits_the_scan() {
    let mut cursor = ScanCursor::new(5, 2, 37, 1);
    assert_eq!(cursor.next(), ScanStep::ReadLocks(0));
    for c in 0..2 {
        assert_eq!(cursor.next(), ScanStep::Visit { row: 0, col: c, lock_index: c as u64 });
        cursor.record(true);
    }
    assert_eq!(cursor.next(), ScanStep::Done);
}

#[test]
fn collector_counts_errors_and_filters_levels() {
    let mut c = ScanCollector::new(3);
    assert!(!c.push(&synthetic(1)));
    let mut bad = synthetic(2);
    bad.level = String::from("5");
    assert!(!c.push(&bad));
    assert_eq!(c.error_count, 1);
    assert_eq!(c.results.len(), 2);
    assert!(!c.push(&synthetic(1)));
    assert_eq!(c.dup_count, 1);
    let kept = c.finish(10);
    assert_eq!(kept.len(), 2);
}
