use operator::controllers::{ControllerFlags, Controllers};
use std::collections::BTreeSet;

fn all_controllers() -> BTreeSet<Controllers> {
    Controllers::all().into_iter().collect()
}

#[test]
fn selection_defaults_to_all_enabled() {
    let selection: BTreeSet<Controllers> = ControllerFlags::default().selection().into_iter().collect();
    assert_eq!(selection, all_controllers());
}

#[test]
fn selection_respects_subset() {
    let flags = ControllerFlags { rt: true, cert: true, ..Default::default() };
    let selection: BTreeSet<Controllers> = flags.selection().into_iter().collect();
    let expected = BTreeSet::from([Controllers::Router, Controllers::Certificate]);
    assert_eq!(selection, expected);
}

#[test]
fn selection_is_in_start_order_without_repeats() {
    let flags = ControllerFlags { ext_cert: true, nw: true, pod: true, ..Default::default() };
    assert_eq!(
        flags.selection(),
        vec![Controllers::Network, Controllers::PodSync, Controllers::ExternalCertificate]
    );
    assert_eq!(ControllerFlags::default().selection().len(), 6);
}
