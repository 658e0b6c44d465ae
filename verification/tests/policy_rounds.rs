use biased_work_queue::{recv_action, DrainEnd, RecvAction, BATCH_SIZE};

#[test]
fn full_batch_wakes_next_handle() {
    assert_eq!(
        recv_action(BATCH_SIZE, DrainEnd::Full, true),
        RecvAction::Deliver { wake_next: true }
    );
    assert_eq!(
        recv_action(BATCH_SIZE, DrainEnd::Full, false),
        RecvAction::Deliver { wake_next: false }
    );
}

#[test]
fn under_capacity_delivery_never_wakes() {
    for len in [1usize, 5, BATCH_SIZE - 1] {
        assert_eq!(
            recv_action(len, DrainEnd::Empty, true),
            RecvAction::Deliver { wake_next: false }
        );
        assert_eq!(
            recv_action(len, DrainEnd::Disconnected, true),
            RecvAction::Deliver { wake_next: false }
        );
    }
}

#[test]
fn empty_disconnect_is_reported_and_forwarded() {
    assert_eq!(
        recv_action(0, DrainEnd::Disconnected, true),
        RecvAction::ReportDisconnect { wake_next: true }
    );
    assert_eq!(
        recv_action(0, DrainEnd::Disconnected, false),
        RecvAction::ReportDisconnect { wake_next: false }
    );
}

#[test]
fn empty_open_channel_blocks() {
    assert_eq!(recv_action(0, DrainEnd::Empty, true), RecvAction::WaitForWork);
    assert_eq!(recv_action(0, DrainEnd::Empty, false), RecvAction::WaitForWork);
}
