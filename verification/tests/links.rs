use biased_work_queue::biased_work_queue;

#[test]
fn build_produces_n_handles_with_chain_shape() {
    let (_tx, rx) = crossbeam::channel::unbounded::<u64>();
    for n in 1..=5usize {
        let handles = biased_work_queue(rx.clone(), n);
        assert_eq!(handles.len(), n);
        for (i, h) in handles.iter().enumerate() {
            assert_eq!(h.has_inbound_link(), i != 0);
            assert_eq!(h.has_outbound_link(), i != n - 1);
        }
    }
}

#[test]
fn single_handle_has_no_links() {
    let (_tx, rx) = crossbeam::channel::unbounded::<u64>();
    let handles = biased_work_queue(rx, 1);
    assert_eq!(handles.len(), 1);
    assert!(!handles[0].has_inbound_link());
    assert!(!handles[0].has_outbound_link());
}

#[test]
fn middle_handles_have_both_links() {
    let (_tx, rx) = crossbeam::channel::unbounded::<u64>();
    let handles = biased_work_queue(rx, 4);
    assert!(handles[1].has_inbound_link() && handles[1].has_outbound_link());
    assert!(handles[2].has_inbound_link() && handles[2].has_outbound_link());
}
