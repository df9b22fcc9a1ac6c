use corn_dbio_kit::item_run::{ExportTally, ItemWalk, RunStep};

fn names(v: &[&str]) -> Vec<String> {
    v.iter().map(|x| x.to_string()).collect()
}

#[test]
fn a_walk_offers_each_object_in_order() {
    let mut w = ItemWalk::new(names(&["a", "b"]));
    assert_eq!(w.total(), 2);
    match w.step(false) {
        RunStep::Item { index, name } => assert_eq!((index, name.as_str()), (0, "a")),
        _ => panic!("expected the first object"),
    }
    match w.step(false) {
        RunStep::Item { index, name } => assert_eq!((index, name.as_str()), (1, "b")),
        _ => panic!("expected the second object"),
    }
    assert!(matches!(w.step(false), RunStep::Finished));
    assert!(matches!(w.step(true), RunStep::Finished));
    assert_eq!(w.offered(), 2);
}

#[test]
fn a_cancel_stops_the_walk_where_it_is() {
    let mut w = ItemWalk::new(names(&["a", "b"]));
    assert!(matches!(w.step(false), RunStep::Item { .. }));
    assert!(matches!(w.step(true), RunStep::Cancelled));
    assert!(matches!(w.step(true), RunStep::Cancelled));
    assert_eq!(w.offered(), 1);
    let mut empty = ItemWalk::new(Vec::new());
    assert!(matches!(empty.step(true), RunStep::Finished));
}

#[test]
fn the_export_tally_counts_each_object_once() {
    let mut t = ExportTally::new();
    t.record(Some(10));
    t.record(None);
    t.record(Some(5));
    assert_eq!((t.success, t.failed, t.rows), (2, 1, 15));
}
