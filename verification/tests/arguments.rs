use postmite::dto::{
    CreateCollectionFolderInput, CreateEnvironmentInput, CreateWorkspaceInput,
    NativeBackupRestoreInput, NativeBackupRestorePreviewInput, RenameCollectionFolderInput,
    RenameWorkspaceInput, SetExecutionHistoryDisabledInput, SetExecutionRecordPinnedInput,
    SetWorkspaceBaseDirectoryInput,
};
use postmite::handlers::{
    create_collection_folder_arguments, create_environment_arguments, create_workspace_arguments,
    rename_collection_folder_arguments, rename_workspace_arguments,
    set_execution_history_disabled_arguments, set_execution_record_pinned_arguments,
    set_workspace_base_directory_arguments,
};
use postmite::ids::{CollectionId, ExecutionRecordId, WorkspaceId};
use postmite::interchange::{native_backup_restore_preview_request, native_backup_restore_request};

fn id_text(value: u128) -> String {
    format!("00000000-0000-0000-0000-{:012x}", value)
}

#[test]
fn workspace_arguments_carry_the_input() {
    assert_eq!(create_workspace_arguments(CreateWorkspaceInput { name: "Client".to_owned() }), "Client");
    let (id, name) = rename_workspace_arguments(RenameWorkspaceInput {
        workspace_id: id_text(5),
        name: "Renamed".to_owned(),
    })
    .unwrap();
    assert_eq!(id, WorkspaceId { value: 5 });
    assert_eq!(name, "Renamed");
    let (id, base) = set_workspace_base_directory_arguments(SetWorkspaceBaseDirectoryInput {
        workspace_id: id_text(6),
        base_directory: Some("/work".to_owned()),
    })
    .unwrap();
    assert_eq!(id, WorkspaceId { value: 6 });
    assert_eq!(base, Some("/work".to_owned()));
    let error = rename_workspace_arguments(RenameWorkspaceInput {
        workspace_id: "bad".to_owned(),
        name: "x".to_owned(),
    })
    .unwrap_err();
    assert_eq!(error.details, Some("workspaceId".to_owned()));
}

#[test]
fn folder_and_environment_arguments_carry_the_input() {
    let (workspace, parent, name) = create_collection_folder_arguments(CreateCollectionFolderInput {
        workspace_id: id_text(1),
        parent_collection_id: Some(id_text(2)),
        name: "Users".to_owned(),
    })
    .unwrap();
    assert_eq!(workspace, WorkspaceId { value: 1 });
    assert_eq!(parent, Some(CollectionId { value: 2 }));
    assert_eq!(name, "Users");
    let error = create_collection_folder_arguments(CreateCollectionFolderInput {
        workspace_id: id_text(1),
        parent_collection_id: Some("nope".to_owned()),
        name: "Users".to_owned(),
    })
    .unwrap_err();
    assert_eq!(error.details, Some("collectionId".to_owned()));

    let (workspace, collection, name) = rename_collection_folder_arguments(RenameCollectionFolderInput {
        workspace_id: id_text(1),
        collection_id: id_text(3),
        name: "Admins".to_owned(),
    })
    .unwrap();
    assert_eq!((workspace.value, collection.value, name.as_str()), (1, 3, "Admins"));

    let (workspace, name) = create_environment_arguments(CreateEnvironmentInput {
        workspace_id: id_text(4),
        name: "staging".to_owned(),
    })
    .unwrap();
    assert_eq!((workspace.value, name.as_str()), (4, "staging"));
}

#[test]
fn history_arguments_carry_the_flags() {
    for disabled in [true, false] {
        let (workspace, flag) = set_execution_history_disabled_arguments(SetExecutionHistoryDisabledInput {
            workspace_id: id_text(9),
            disabled,
        })
        .unwrap();
        assert_eq!(workspace, WorkspaceId { value: 9 });
        assert_eq!(flag, disabled);
    }
    let (workspace, record, pinned) = set_execution_record_pinned_arguments(SetExecutionRecordPinnedInput {
        workspace_id: id_text(9),
        record_id: id_text(10),
        pinned: true,
    })
    .unwrap();
    assert_eq!(workspace, WorkspaceId { value: 9 });
    assert_eq!(record, ExecutionRecordId { value: 10 });
    assert!(pinned);
}

#[test]
fn backup_requests_carry_the_input() {
    let preview = native_backup_restore_preview_request(NativeBackupRestorePreviewInput {
        backup_path: "/tmp/a.zip".to_owned(),
    });
    assert_eq!(preview.backup_path, "/tmp/a.zip");
    let restore = native_backup_restore_request(NativeBackupRestoreInput {
        backup_path: "/tmp/a.zip".to_owned(),
        workspace_name: "Restored".to_owned(),
        body_files_directory: Some("/files".to_owned()),
    });
    assert_eq!(restore.backup_path, "/tmp/a.zip");
    assert_eq!(restore.workspace_name, "Restored");
    assert_eq!(restore.body_files_directory, Some("/files".to_owned()));
}
