use std::sync::PoisonError;

use postmite::domain::{WorkspaceSnapshot, WorkspaceSummary};
use postmite::dto::{
    CreateWorkspaceInput, RenameWorkspaceInput, SetWorkspaceBaseDirectoryInput, WorkspaceIdInput,
};
use postmite::errors::{
    map_poison_error, IpcError, IpcErrorCode, OAuthError, RequestError, WorkspaceError,
    WorkspaceNameError,
};
use postmite::handlers::{
    handle_create_workspace, handle_delete_workspace, handle_list_workspaces,
    handle_rename_workspace, handle_set_workspace_base_directory, handle_switch_workspace,
    WorkspaceService,
};
use postmite::ids::WorkspaceId;

struct FakeWorkspaceService {
    snapshot: WorkspaceSnapshot,
    next_error: Option<WorkspaceError>,
    calls: Vec<&'static str>,
}

impl FakeWorkspaceService {
    fn new() -> Self {
        let id = WorkspaceId { value: 0x1111_2222_3333_4444_5555_6666_7777_8888 };
        Self {
            snapshot: WorkspaceSnapshot {
                selected_workspace_id: id,
                workspaces: vec![WorkspaceSummary {
                    id,
                    name: "Personal".to_owned(),
                    is_selected: true,
                    base_directory: None,
                }],
            },
            next_error: None,
            calls: Vec::new(),
        }
    }

    fn with_two_workspaces() -> Self {
        let mut service = Self::new();
        service.snapshot.workspaces.push(WorkspaceSummary {
            id: WorkspaceId { value: 0x9999_aaaa_bbbb_cccc_dddd_eeee_ffff_0000 },
            name: "Client".to_owned(),
            is_selected: false,
            base_directory: None,
        });
        service
    }

    fn result(&mut self, call: &'static str) -> Result<WorkspaceSnapshot, WorkspaceError> {
        self.calls.push(call);
        match self.next_error.take() {
            Some(error) => Err(error),
            None => Ok(self.snapshot.clone()),
        }
    }
}

impl WorkspaceService for FakeWorkspaceService {
    fn list_workspaces(&self) -> Result<WorkspaceSnapshot, WorkspaceError> {
        match &self.next_error {
            Some(error) => Err(error.clone()),
            None => Ok(self.snapshot.clone()),
        }
    }

    fn create_workspace(&mut self, _name: String) -> Result<WorkspaceSnapshot, WorkspaceError> {
        self.result("create")
    }

    fn rename_workspace(
        &mut self,
        _id: WorkspaceId,
        _name: String,
    ) -> Result<WorkspaceSnapshot, WorkspaceError> {
        self.result("rename")
    }

    fn set_workspace_base_directory(
        &mut self,
        _id: WorkspaceId,
        _base_directory: Option<String>,
    ) -> Result<WorkspaceSnapshot, WorkspaceError> {
        self.result("set_base_directory")
    }

    fn switch_workspace(&mut self, _id: WorkspaceId) -> Result<WorkspaceSnapshot, WorkspaceError> {
        self.result("switch")
    }

    fn delete_workspace(&mut self, _id: WorkspaceId) -> Result<WorkspaceSnapshot, WorkspaceError> {
        self.result("delete")
    }
}

fn rendered(error: &IpcError) -> String {
    format!("{} {:?}", error.message, error.details)
}

fn fixture_secret(name: &str) -> String {
    ["POSTMITE", "SECRET", name, "29"].join("_")
}

fn check_invalid_workspace_id_is_safe() {
    let mut service = FakeWorkspaceService::new();

    let error = handle_switch_workspace(
        &mut service,
        WorkspaceIdInput { workspace_id: "not-a-uuid".to_owned() },
    )
    .expect_err("invalid id");

    assert_eq!(error.code, IpcErrorCode::InvalidInput);
    assert_eq!(error.details.as_deref(), Some("workspaceId"));
    assert!(!error.retryable);
    assert!(service.calls.is_empty());
}

fn check_commands_delegate() {
    let mut service = FakeWorkspaceService::with_two_workspaces();
    let id = {
        let snapshot = service.list_workspaces().expect("list");
        snapshot.selected_workspace_id.to_text()
    };

    let created = handle_create_workspace(
        &mut service,
        CreateWorkspaceInput { name: "Client".to_owned() },
    )
    .expect("create");
    assert_eq!(created.workspaces.len(), 2);

    handle_rename_workspace(
        &mut service,
        RenameWorkspaceInput { workspace_id: id.clone(), name: "Renamed".to_owned() },
    )
    .expect("rename");
    handle_switch_workspace(&mut service, WorkspaceIdInput { workspace_id: id.clone() })
        .expect("switch");
    handle_delete_workspace(&mut service, WorkspaceIdInput { workspace_id: id })
        .expect("delete");
    assert_eq!(service.calls, vec!["create", "rename", "switch", "delete"]);
}

fn check_workspace_errors_map_to_stable_codes() {
    let cases = [
        (
            WorkspaceError::InvalidName(WorkspaceNameError::ControlCharacter),
            IpcErrorCode::InvalidInput,
            false,
        ),
        (WorkspaceError::NotFound, IpcErrorCode::WorkspaceNotFound, false),
        (WorkspaceError::AlreadyExists, IpcErrorCode::WorkspaceAlreadyExists, false),
        (
            WorkspaceError::CannotDeleteLastWorkspace,
            IpcErrorCode::CannotDeleteLastWorkspace,
            false,
        ),
        (
            WorkspaceError::Persistence("SQLITE_BUSY: sentinel database path".to_owned()),
            IpcErrorCode::PersistenceUnavailable,
            true,
        ),
    ];

    for (source, code, retryable) in cases {
        let error = IpcError::from_workspace_error(source);
        let text = rendered(&error);

        assert_eq!(error.code, code);
        assert_eq!(error.retryable, retryable);
        assert!(!text.contains("SQLITE_BUSY"));
        assert!(!text.contains("sentinel database path"));
    }
}

fn check_poisoned_lock_is_safe() {
    let error = map_poison_error(PoisonError::new("sentinel poisoned lock detail"));
    let text = rendered(&error);

    assert_eq!(error.code, IpcErrorCode::StateUnavailable);
    assert!(error.retryable);
    assert!(!text.contains("sentinel poisoned lock detail"));
}

fn check_errors_carry_no_fixture_secrets() {
    let fixture_secrets = [
        fixture_secret("OAUTH_CODE"),
        fixture_secret("OAUTH_ACCESS_TOKEN"),
        fixture_secret("OAUTH_REFRESH_TOKEN"),
        fixture_secret("OAUTH_CLIENT_SECRET"),
        fixture_secret("OAUTH_CALLBACK_STATE"),
        fixture_secret("BASIC_PASSWORD"),
    ];
    let errors = [
        IpcError::from_oauth_error(OAuthError::TokenRequestFailed),
        IpcError::from_oauth_error(OAuthError::InvalidTokenResponse),
        IpcError::from_oauth_error(OAuthError::RefreshRequired),
        IpcError::from_request_error(RequestError::Persistence(format!(
            "database failed near {}",
            fixture_secrets[5].as_str()
        ))),
    ];

    for error in errors {
        let text = rendered(&error);
        for fixture_secret in &fixture_secrets {
            assert!(!text.contains(fixture_secret));
        }
    }
}

#[test]
fn tests_invalid_workspace_id_maps_to_safe_non_retryable_error() {
    check_invalid_workspace_id_is_safe();
}

#[test]
fn mod_invalid_workspace_id_maps_to_safe_non_retryable_error() {
    check_invalid_workspace_id_is_safe();
}

#[test]
fn tests_commands_delegate_to_workspace_service() {
    check_commands_delegate();
}

#[test]
fn mod_commands_delegate_to_workspace_service() {
    check_commands_delegate();
}

#[test]
fn tests_workspace_errors_map_to_stable_error_codes() {
    check_workspace_errors_map_to_stable_codes();
}

#[test]
fn mod_workspace_errors_map_to_stable_error_codes() {
    check_workspace_errors_map_to_stable_codes();
}

#[test]
fn tests_poisoned_lock_maps_to_safe_retryable_error_without_lock_details() {
    check_poisoned_lock_is_safe();
}

#[test]
fn mod_poisoned_lock_maps_to_safe_retryable_error_without_lock_details() {
    check_poisoned_lock_is_safe();
}

#[test]
fn tests_oauth_and_request_errors_do_not_serialize_fixture_secrets() {
    check_errors_carry_no_fixture_secrets();
}

#[test]
fn mod_oauth_and_request_errors_do_not_serialize_fixture_secrets() {
    check_errors_carry_no_fixture_secrets();
}

#[test]
fn listing_workspaces_answers_the_service_snapshot() {
    let service = FakeWorkspaceService::with_two_workspaces();
    let listed = handle_list_workspaces(&service).expect("list");
    assert_eq!(listed.workspaces.len(), 2);
    assert_eq!(listed.workspaces[0].name, "Personal");
    assert!(listed.workspaces[0].is_selected);
    assert_eq!(listed.selected_workspace_id, listed.workspaces[0].id);
    assert_eq!(listed.selected_workspace_id, "11112222-3333-4444-5555-666677778888");
}

#[test]
fn service_failures_are_answered_with_their_ipc_error() {
    let mut service = FakeWorkspaceService::new();
    service.next_error = Some(WorkspaceError::CannotDeleteLastWorkspace);
    let id = service.snapshot.selected_workspace_id.to_text();
    let error = handle_delete_workspace(&mut service, WorkspaceIdInput { workspace_id: id })
        .expect_err("last workspace");
    assert_eq!(error.code, IpcErrorCode::CannotDeleteLastWorkspace);
    assert!(!error.retryable);
}

#[test]
fn base_directory_command_refuses_an_unreadable_id_before_calling_the_service() {
    let mut service = FakeWorkspaceService::new();
    let error = handle_set_workspace_base_directory(
        &mut service,
        SetWorkspaceBaseDirectoryInput {
            workspace_id: "workspace-1".to_owned(),
            base_directory: Some("/tmp".to_owned()),
        },
    )
    .expect_err("invalid id");
    assert_eq!(error.code, IpcErrorCode::InvalidInput);
    assert_eq!(error.message, "Workspace id is invalid.");
    assert!(service.calls.is_empty());
}
