use lineage_server::clients::ClientList;

#[test]
fn wraparound() {
    let mut l = ClientList::starting_at(0xffffffff);
    for _ in 0..5 {
        l.new_entry();
    }
}

#[test]
fn ids_wrap_around_and_skip_used_ones() {
    let mut l = ClientList::starting_at(0xfffffffe);
    assert_eq!(l.new_entry(), 0xfffffffe);
    assert_eq!(l.new_entry(), 0xffffffff);
    assert_eq!(l.new_entry(), 0);
    assert_eq!(l.new_entry(), 1);
    let mut m = ClientList::new();
    assert_eq!(m.new_entry(), 0);
    assert_eq!(m.new_entry(), 1);
    assert_eq!(m.new_entry(), 2);
    m.remove_entry(1);
    assert!(!m.contains(1));
    assert!(m.contains(0));
    assert_eq!(m.new_entry(), 3);
}

#[test]
fn freed_id_is_reused_after_wrapping() {
    let mut l = ClientList::starting_at(0xffffffff);
    assert_eq!(l.new_entry(), 0xffffffff);
    assert_eq!(l.new_entry(), 0);
    l.remove_entry(0xffffffff);
    let mut m = ClientList::starting_at(0xffffffff);
    m.new_entry();
    m.new_entry();
    // the next index is 1; ids 1 onward are free
    assert_eq!(m.new_entry(), 1);
    // a list whose next index is taken skips it
    let mut n = ClientList::starting_at(5);
    assert_eq!(n.new_entry(), 5);
    n.remove_entry(5);
    assert_eq!(n.new_entry(), 6);
}
