use postmite::domain::{RequestWorkspaceSnapshot, WorkspaceSnapshot, WorkspaceSummary};
use postmite::dto::{
    NativeBackupExportInput, NativeBackupRestoreInput, NativeBackupRestorePreviewInput,
    PostmanExportInput, PostmanImportInput, PostmanReimportDecisionDto, PostmanReimportInput,
};
use postmite::errors::{IpcError, IpcErrorCode, NativeBackupError, PostmanImportError};
use postmite::ids::WorkspaceId;
use postmite::interchange::{
    handle_export_native_backup, handle_export_postman, handle_import_postman,
    handle_preview_native_backup_restore, handle_preview_postman_import,
    handle_preview_postman_reimport, handle_reimport_postman, handle_restore_native_backup,
    postman_reimport_decision, NativeBackupExclusion, NativeBackupExportRequest,
    NativeBackupExportResult, NativeBackupManifest, NativeBackupManifestEntry,
    NativeBackupRestorePreview, NativeBackupRestorePreviewRequest, NativeBackupRestoreRequest,
    NativeBackupRestoreResult, NativeBackupService, PostmanEnvironmentExport,
    PostmanExportRequest, PostmanExportResult, PostmanImportPreview, PostmanImportRequest,
    PostmanImportResult, PostmanImportWarning, PostmanPriorImport, PostmanReimportChange,
    PostmanReimportDecision, PostmanReimportPreview, PostmanReimportRequest,
    PostmanReimportResult, PostmanService, PostmanUnsupportedField,
};

fn workspace_text() -> &'static str {
    "00000000-0000-0000-0000-00000000002a"
}

fn request_snapshot(workspace_id: WorkspaceId) -> RequestWorkspaceSnapshot {
    RequestWorkspaceSnapshot {
        workspace_id,
        collection_folders: Vec::new(),
        environments: Vec::new(),
        collection_variables: Vec::new(),
        environment_variables: Vec::new(),
        saved_requests: Vec::new(),
        drafts: Vec::new(),
        tabs: Vec::new(),
    }
}

fn preview(source_name: &str) -> PostmanImportPreview {
    PostmanImportPreview {
        source_id: "source-1".to_owned(),
        source_name: source_name.to_owned(),
        source_hash: "abc123".to_owned(),
        collection_count: 2,
        request_count: 5,
        environment_count: 1,
        warning_count: 1,
        unsupported_count: 1,
        warnings: vec![PostmanImportWarning {
            location: "item[0]".to_owned(),
            message: "script dropped".to_owned(),
        }],
        unsupported: vec![PostmanUnsupportedField {
            location: "item[1].auth".to_owned(),
            reason: "hawk".to_owned(),
        }],
    }
}

/// A Postman service that records what it was asked and fails when told to.
#[derive(Default)]
struct FakePostmanService {
    calls: Vec<String>,
    failure: Option<PostmanImportError>,
}

impl FakePostmanService {
    fn fail<T>(&self) -> Option<Result<T, PostmanImportError>> {
        self.failure.clone().map(Err)
    }
}

impl PostmanService for FakePostmanService {
    fn preview(&self, input: &PostmanImportRequest) -> Result<PostmanImportPreview, PostmanImportError> {
        if let Some(failed) = self.fail() {
            return failed;
        }
        Ok(preview(&input.source_name))
    }

    fn import(&mut self, input: PostmanImportRequest) -> Result<PostmanImportResult, PostmanImportError> {
        self.calls.push(format!("import {} {}", input.workspace_id.value, input.source_name));
        if let Some(failed) = self.fail() {
            return failed;
        }
        Ok(PostmanImportResult {
            preview: preview(&input.source_name),
            snapshot: request_snapshot(input.workspace_id),
        })
    }

    fn export(&self, input: &PostmanExportRequest) -> Result<PostmanExportResult, PostmanImportError> {
        if let Some(failed) = self.fail() {
            return failed;
        }
        Ok(PostmanExportResult {
            collection_json: format!("{{\"name\":\"{}\"}}", input.source_name),
            environments: vec![PostmanEnvironmentExport {
                name: "dev".to_owned(),
                environment_json: "{}".to_owned(),
            }],
            warning_count: 0,
            unsupported_count: 0,
            warnings: Vec::new(),
            unsupported: Vec::new(),
        })
    }

    fn preview_reimport(
        &self,
        input: &PostmanImportRequest,
    ) -> Result<PostmanReimportPreview, PostmanImportError> {
        if let Some(failed) = self.fail() {
            return failed;
        }
        Ok(PostmanReimportPreview {
            import_preview: preview(&input.source_name),
            prior_import: Some(PostmanPriorImport {
                id: "import-1".to_owned(),
                source_id: "source-1".to_owned(),
                source_name: input.source_name.clone(),
                source_hash: "old".to_owned(),
            }),
            changes: vec![PostmanReimportChange {
                location: "item[0]".to_owned(),
                message: "url changed".to_owned(),
            }],
            can_update: true,
        })
    }

    fn reimport(
        &mut self,
        input: PostmanReimportRequest,
    ) -> Result<PostmanReimportResult, PostmanImportError> {
        self.calls.push(format!("reimport {:?}", input.decision));
        if let Some(failed) = self.fail() {
            return failed;
        }
        Ok(PostmanReimportResult {
            preview: PostmanReimportPreview {
                import_preview: preview(&input.import.source_name),
                prior_import: None,
                changes: Vec::new(),
                can_update: false,
            },
            snapshot: request_snapshot(input.import.workspace_id),
        })
    }
}

fn import_input(workspace_id: &str) -> PostmanImportInput {
    PostmanImportInput {
        workspace_id: workspace_id.to_owned(),
        source_name: "Team API".to_owned(),
        collection_json: "{}".to_owned(),
        environment_json: None,
    }
}

fn assert_invalid_workspace_id(error: IpcError) {
    assert_eq!(error.code, IpcErrorCode::InvalidInput);
    assert_eq!(error.message, "Workspace id is invalid.");
    assert_eq!(error.details, Some("workspaceId".to_owned()));
    assert!(!error.retryable);
}

#[test]
fn postman_preview_carries_the_service_preview() {
    let service = FakePostmanService::default();
    let dto = handle_preview_postman_import(&service, import_input(workspace_text())).unwrap();
    assert_eq!(dto.source_name, "Team API");
    assert_eq!(dto.collection_count, 2);
    assert_eq!(dto.request_count, 5);
    assert_eq!(dto.warnings.len(), 1);
    assert_eq!(dto.warnings[0].message, "script dropped");
    assert_eq!(dto.unsupported[0].reason, "hawk");
}

#[test]
fn postman_commands_refuse_an_unreadable_workspace_id_before_calling() {
    let mut service = FakePostmanService::default();
    assert_invalid_workspace_id(
        handle_preview_postman_import(&service, import_input("not-a-uuid")).unwrap_err(),
    );
    assert_invalid_workspace_id(handle_import_postman(&mut service, import_input("bad")).unwrap_err());
    assert_invalid_workspace_id(
        handle_export_postman(
            &service,
            PostmanExportInput { workspace_id: "nope".to_owned(), source_name: "x".to_owned() },
        )
        .unwrap_err(),
    );
    assert_invalid_workspace_id(
        handle_preview_postman_reimport(&service, import_input("")).unwrap_err(),
    );
    assert_invalid_workspace_id(
        handle_reimport_postman(
            &mut service,
            PostmanReimportInput {
                import: import_input("bad"),
                decision: PostmanReimportDecisionDto::Update,
            },
        )
        .unwrap_err(),
    );
    assert!(service.calls.is_empty());
}

#[test]
fn postman_import_hands_the_read_request_to_the_service() {
    let mut service = FakePostmanService::default();
    let dto = handle_import_postman(&mut service, import_input(workspace_text())).unwrap();
    assert_eq!(service.calls, vec!["import 42 Team API".to_owned()]);
    assert_eq!(dto.snapshot.workspace_id, workspace_text());
    assert_eq!(dto.preview.source_hash, "abc123");
}

#[test]
fn postman_export_and_reimport_carry_what_the_service_answers() {
    let mut service = FakePostmanService::default();
    let exported = handle_export_postman(
        &service,
        PostmanExportInput { workspace_id: workspace_text().to_owned(), source_name: "API".to_owned() },
    )
    .unwrap();
    assert_eq!(exported.collection_json, "{\"name\":\"API\"}");
    assert_eq!(exported.environments.len(), 1);
    assert_eq!(exported.environments[0].name, "dev");

    let preview = handle_preview_postman_reimport(&service, import_input(workspace_text())).unwrap();
    assert!(preview.can_update);
    assert_eq!(preview.prior_import.unwrap().id, "import-1");
    assert_eq!(preview.changes[0].message, "url changed");

    let reimported = handle_reimport_postman(
        &mut service,
        PostmanReimportInput {
            import: import_input(workspace_text()),
            decision: PostmanReimportDecisionDto::Duplicate,
        },
    )
    .unwrap();
    assert_eq!(service.calls, vec!["reimport Duplicate".to_owned()]);
    assert!(reimported.preview.prior_import.is_none());
    assert_eq!(reimported.snapshot.workspace_id, workspace_text());
}

#[test]
fn postman_failures_map_to_ipc_errors() {
    let mut service = FakePostmanService {
        calls: Vec::new(),
        failure: Some(PostmanImportError::InvalidInput("postman.collection.invalid".to_owned())),
    };
    let error = handle_import_postman(&mut service, import_input(workspace_text())).unwrap_err();
    assert_eq!(error.code, IpcErrorCode::InvalidInput);
    assert_eq!(error.message, "Postman import input is invalid.");
    assert_eq!(error.details, Some("postman.collection.invalid".to_owned()));

    service.failure = Some(PostmanImportError::Persistence("disk".to_owned()));
    let error = handle_preview_postman_import(&service, import_input(workspace_text())).unwrap_err();
    assert_eq!(error.code, IpcErrorCode::PersistenceUnavailable);
    assert_eq!(error.details, None);
    assert!(error.retryable);
}

#[test]
fn reimport_decisions_carry_over() {
    assert_eq!(postman_reimport_decision(PostmanReimportDecisionDto::Update), PostmanReimportDecision::Update);
    assert_eq!(
        postman_reimport_decision(PostmanReimportDecisionDto::Duplicate),
        PostmanReimportDecision::Duplicate
    );
    assert_eq!(postman_reimport_decision(PostmanReimportDecisionDto::Cancel), PostmanReimportDecision::Cancel);
}

fn restore_preview() -> NativeBackupRestorePreview {
    NativeBackupRestorePreview {
        source_workspace_name: "Team".to_owned(),
        collection_count: 3,
        request_count: 8,
        environment_count: 2,
        history_record_count: 40,
        cookie_count: 4,
        body_file_count: 1,
        expanded_bytes: 123_456,
        exclusions: vec![NativeBackupExclusion {
            location: "cookies[*].value".to_owned(),
            reason: "secret".to_owned(),
        }],
        warnings: vec!["body file missing".to_owned()],
    }
}

/// A backup service that records what it was asked and fails when told to.
#[derive(Default)]
struct FakeBackupService {
    calls: Vec<String>,
    failure: Option<NativeBackupError>,
}

impl NativeBackupService for FakeBackupService {
    fn export(&self, input: NativeBackupExportRequest) -> Result<NativeBackupExportResult, NativeBackupError> {
        if let Some(failure) = self.failure.clone() {
            return Err(failure);
        }
        Ok(NativeBackupExportResult {
            backup_path: format!("{} ({})", input.backup_path, input.workspace_id.value),
            manifest: NativeBackupManifest {
                format: "postmite-backup".to_owned(),
                version: 1,
                required_features: vec!["requests".to_owned()],
                entries: vec![NativeBackupManifestEntry {
                    path: "workspace.json".to_owned(),
                    sha256: "ff".to_owned(),
                    bytes: 10,
                }],
                exclusions: Vec::new(),
            },
            preview: restore_preview(),
        })
    }

    fn preview_restore(
        &self,
        input: NativeBackupRestorePreviewRequest,
    ) -> Result<NativeBackupRestorePreview, NativeBackupError> {
        if let Some(failure) = self.failure.clone() {
            return Err(failure);
        }
        let mut preview = restore_preview();
        preview.source_workspace_name = input.backup_path;
        Ok(preview)
    }

    fn restore(
        &mut self,
        input: NativeBackupRestoreRequest,
    ) -> Result<NativeBackupRestoreResult, NativeBackupError> {
        self.calls.push(format!("restore {} as {}", input.backup_path, input.workspace_name));
        if let Some(failure) = self.failure.clone() {
            return Err(failure);
        }
        let id = WorkspaceId { value: 7 };
        Ok(NativeBackupRestoreResult {
            preview: restore_preview(),
            workspace_snapshot: WorkspaceSnapshot {
                selected_workspace_id: id,
                workspaces: vec![WorkspaceSummary {
                    id,
                    name: input.workspace_name,
                    is_selected: true,
                    base_directory: None,
                }],
            },
            request_snapshot: request_snapshot(id),
        })
    }
}

#[test]
fn native_backup_export_reads_the_workspace_id_first() {
    let service = FakeBackupService::default();
    let error = handle_export_native_backup(
        &service,
        NativeBackupExportInput {
            workspace_id: "not-a-uuid".to_owned(),
            backup_path: "/tmp/backup.zip".to_owned(),
            include_body_files: true,
            body_files_directory: None,
        },
    )
    .unwrap_err();
    assert_invalid_workspace_id(error);

    let written = handle_export_native_backup(
        &service,
        NativeBackupExportInput {
            workspace_id: workspace_text().to_owned(),
            backup_path: "/tmp/backup.zip".to_owned(),
            include_body_files: false,
            body_files_directory: None,
        },
    )
    .unwrap();
    assert_eq!(written.backup_path, "/tmp/backup.zip (42)");
    assert_eq!(written.manifest.version, 1);
    assert_eq!(written.manifest.entries[0].bytes, 10);
    assert_eq!(written.preview.expanded_bytes, 123_456);
}

#[test]
fn native_backup_restore_carries_the_restored_workspaces() {
    let mut service = FakeBackupService::default();
    let preview = handle_preview_native_backup_restore(
        &service,
        NativeBackupRestorePreviewInput { backup_path: "/tmp/a.zip".to_owned() },
    )
    .unwrap();
    assert_eq!(preview.source_workspace_name, "/tmp/a.zip");
    assert_eq!(preview.exclusions[0].reason, "secret");
    assert_eq!(preview.warnings, vec!["body file missing".to_owned()]);

    let restored = handle_restore_native_backup(
        &mut service,
        NativeBackupRestoreInput {
            backup_path: "/tmp/a.zip".to_owned(),
            workspace_name: "Restored".to_owned(),
            body_files_directory: None,
        },
    )
    .unwrap();
    assert_eq!(service.calls, vec!["restore /tmp/a.zip as Restored".to_owned()]);
    assert_eq!(restored.workspace_snapshot.workspaces[0].name, "Restored");
    assert_eq!(
        restored.workspace_snapshot.selected_workspace_id,
        "00000000-0000-0000-0000-000000000007"
    );
    assert_eq!(restored.request_snapshot.workspace_id, "00000000-0000-0000-0000-000000000007");
}

#[test]
fn native_backup_failures_map_to_ipc_errors() {
    let mut service = FakeBackupService {
        calls: Vec::new(),
        failure: Some(NativeBackupError::InvalidArchive("backup.reference.invalid".to_owned())),
    };
    let error = handle_restore_native_backup(
        &mut service,
        NativeBackupRestoreInput {
            backup_path: "/tmp/a.zip".to_owned(),
            workspace_name: "Restored".to_owned(),
            body_files_directory: None,
        },
    )
    .unwrap_err();
    assert_eq!(error.code, IpcErrorCode::InvalidInput);
    assert_eq!(error.message, "Native backup input is invalid.");
    assert_eq!(error.details, Some("backup.reference.invalid".to_owned()));

    service.failure = Some(NativeBackupError::WorkspaceAlreadyExists);
    let error = handle_preview_native_backup_restore(
        &service,
        NativeBackupRestorePreviewInput { backup_path: "/tmp/a.zip".to_owned() },
    )
    .unwrap_err();
    assert_eq!(error.code, IpcErrorCode::WorkspaceAlreadyExists);
    assert!(!error.retryable);
}
