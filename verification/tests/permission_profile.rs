use octos_tui::permission_profile::{
    PermissionNetworkPolicy, PermissionProfileMode, PermissionProfileSelection, PermissionProfileUpdate,
};

#[test]
fn update_keeps_unset_fields_and_summary_names_them() {
    let previous = PermissionProfileSelection { mode: PermissionProfileMode::ReadOnly, network: PermissionNetworkPolicy::Allow };
    let update = PermissionProfileUpdate { mode: Some(PermissionProfileMode::DangerFullAccess), network: None };
    let next = update.apply_to(previous);
    assert_eq!(next.mode, PermissionProfileMode::DangerFullAccess);
    assert_eq!(next.network, PermissionNetworkPolicy::Allow);
    assert_eq!(next.summary(), "Full Access, network allowed");
    assert_eq!(update.apply_to(next), next);
    let none = PermissionProfileUpdate { mode: None, network: None };
    assert_eq!(none.apply_to(previous), previous);
}
