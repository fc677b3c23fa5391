use rustmix_x4::r10_ble_live_central::{r10_ble_live_central_compiled_status, R10BleLiveCentralStatus};

#[test]
fn r10_ble_live_central_status_labels_are_safe() {
    assert_eq!(R10BleLiveCentralStatus::Disabled.label(), "disabled");
    assert_eq!(
        R10BleLiveCentralStatus::ProbeOnlyLogOnly.label(),
        "probe_only_log_only"
    );
    assert_eq!(
        R10BleLiveCentralStatus::ReaderRemoteNeedsLiveStack.label(),
        "reader_remote_needs_live_stack"
    );
    assert_eq!(
        R10BleLiveCentralStatus::ReaderRemoteNeedsLiveStack.reader_label(),
        "reader_on"
    );
}

