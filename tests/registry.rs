use studyms::{
    map_edge, FootHold, FootHoldRegistry, FootHoldType, FootholdEntry, GROUP_1, GROUP_2, GROUP_4,
    GROUP_ALL,
};

fn fh(id: i32, x1: i32, y1: i32, x2: i32, y2: i32, layer: i32) -> FootHold {
    FootHold { x1, y1, x2, y2, prev: 0, next: 0, piece: 0, layer, id }
}

fn sample() -> FootHoldRegistry {
    FootHoldRegistry::load(&vec![
        (100, fh(1, 0, 0, 200, 0, 0)),
        (101, fh(2, 200, 0, 260, -30, 1)),
        (102, fh(3, 260, -30, 260, 100, 7)),
        (101, fh(4, 0, 50, -80, 50, 2)),
    ])
}

#[test]
fn load_classifies_each_foothold() {
    let r = sample();
    assert_eq!(r.len(), 4);
    let e = r.get(0);
    assert_eq!(e.handle, 100);
    assert_eq!(e.kind, FootHoldType::Horizontal);
    assert_eq!(e.group, GROUP_1);
    assert_eq!(e.layer_group, GROUP_1);
    let e = r.get(1);
    assert_eq!(e.kind, FootHoldType::Slope);
    assert_eq!(e.group, GROUP_1);
    assert_eq!(e.layer_group, GROUP_2);
    let e = r.get(2);
    assert_eq!(e.kind, FootHoldType::Vertical);
    assert_eq!(e.group, GROUP_4);
    assert_eq!(e.layer_group, GROUP_ALL);
    let e = r.get(3);
    assert_eq!(e.kind, FootHoldType::Horizontal);
    assert_eq!(e.group, GROUP_2);
}

#[test]
fn entry_new_matches_load() {
    let f = fh(9, 0, 0, 200, 0, 0);
    let e = FootholdEntry::new(5, f);
    assert_eq!(e.foothold, f);
    assert_eq!(e.kind, FootHoldType::Horizontal);
}

#[test]
fn find_takes_first_registration() {
    let r = sample();
    assert_eq!(r.find(100), Some(0));
    assert_eq!(r.find(101), Some(1));
    assert_eq!(r.find(102), Some(2));
    assert_eq!(r.find(999), None);
}

#[test]
fn query_last_touched_foothold_wins() {
    let r = sample();
    let e = r.query_containing(&vec![100, 102]).unwrap();
    assert_eq!(e.foothold.id, 3);
    let e = r.query_containing(&vec![102, 100]).unwrap();
    assert_eq!(e.foothold.id, 1);
}

#[test]
fn query_skips_colliders_that_are_not_footholds() {
    let r = sample();
    let e = r.query_containing(&vec![101, 555, 777]).unwrap();
    assert_eq!(e.foothold.id, 2);
    assert_eq!(r.query_containing(&vec![555]), None);
    assert_eq!(r.query_containing(&vec![]), None);
}

#[test]
fn empty_registry_resolves_nothing() {
    let r = FootHoldRegistry::load(&vec![]);
    assert_eq!(r.len(), 0);
    assert_eq!(r.query_containing(&vec![1, 2, 3]), None);
}

#[test]
fn map_edge_spans_all_footholds() {
    let e = map_edge(&vec![fh(1, 30, 0, -50, 0, 0), fh(2, 10, 0, 200, 4, 0)]);
    assert_eq!(e.left, -50);
    assert_eq!(e.right, 200);
}

#[test]
fn map_edge_always_takes_in_zero() {
    let e = map_edge(&vec![fh(1, 5, 0, 10, 0, 0)]);
    assert_eq!(e.left, 0);
    assert_eq!(e.right, 10);
    let e = map_edge(&vec![]);
    assert_eq!(e.left, 0);
    assert_eq!(e.right, 0);
}
