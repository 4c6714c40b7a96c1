use multiseat_virtualization::virtualization::virtualbox::mouse_integration::{
    DocumentedVirtualBoxController, SimulatedMouseIntegrationController,
};
use multiseat_virtualization::virtualization::virtualbox::{
    MouseIntegrationControl, MouseIntegrationController, MouseIntegrationState,
};

#[test]
fn documented_controller_reports_manual_unknown_without_claiming_ownership() {
    let status = DocumentedVirtualBoxController
        .request("managed-vm", MouseIntegrationState::Disabled)
        .unwrap();
    assert_eq!(status.requested, MouseIntegrationState::Disabled);
    assert_eq!(status.observed, MouseIntegrationState::Unknown);
    assert_eq!(status.control, MouseIntegrationControl::ManualRequired);
    assert!(!status.owned_by_multiseat);
}

#[test]
fn simulated_controller_restores_only_the_vm_it_owned() {
    let mut controller = SimulatedMouseIntegrationController::default();
    let locked = controller
        .request("managed-vm", MouseIntegrationState::Disabled)
        .unwrap();
    assert!(locked.owned_by_multiseat);
    assert_eq!(locked.observed, MouseIntegrationState::Disabled);
    let unrelated = controller.restore_if_owned("unrelated-vm").unwrap();
    assert_eq!(unrelated.observed, MouseIntegrationState::Unknown);
    let restored = controller.restore_if_owned("managed-vm").unwrap();
    assert_eq!(restored.observed, MouseIntegrationState::Enabled);
}
