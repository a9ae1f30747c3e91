use duckdb_shell::history::HistoryRing;

fn t(s: &str) -> Vec<char> {
    s.chars().collect()
}

fn line(i: usize) -> Vec<char> {
    format!("line {}", i).chars().collect()
}

#[test]
fn history_keeps_insertion_order() {
    let mut h = HistoryRing::new();
    h.push(t("first"));
    h.push(t("second"));
    h.push(t("third"));
    assert_eq!(h.len(), 3);
    assert_eq!(h.entry(0), &t("first"));
    assert_eq!(h.entry(1), &t("second"));
    assert_eq!(h.entry(2), &t("third"));
}

#[test]
fn history_bound_evicts_oldest_first() {
    let mut h = HistoryRing::new();
    for i in 0..1001 {
        h.push(line(i));
    }
    assert_eq!(h.len(), 1000);
    // the very first line is gone, the last 1000 are present in order
    assert_eq!(h.entry(0), &line(1));
    assert_eq!(h.entry(500), &line(501));
    assert_eq!(h.entry(999), &line(1000));
}

#[test]
fn history_under_capacity_holds_everything() {
    let mut h = HistoryRing::new();
    for i in 0..42 {
        h.push(line(i));
    }
    assert_eq!(h.len(), 42);
    for i in 0..42 {
        assert_eq!(h.entry(i), &line(i));
    }
}
