use lekta_api::workspaces::types::WorkspaceRole;

#[test]
fn admin_roles_are_admins() {
    assert!(WorkspaceRole::Proprietor.is_admin_or_above());
    assert!(WorkspaceRole::Admin.is_admin_or_above());
    assert!(!WorkspaceRole::Tutor.is_admin_or_above());
    assert!(!WorkspaceRole::Student.is_admin_or_above());
}
