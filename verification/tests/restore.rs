use postmite::domain::{
    CollectionFolder, CookieSameSite, Environment, EnvironmentVariable, ProxyPolicy, ProxySource,
    RedirectPolicy, RequestAuth, RequestBody, RequestContent, RequestDraft, RequestTab,
    RequestWorkspaceSnapshot, SavedRequest, TimeoutPolicy, TlsPolicy, TransportPolicy, Variable,
    VariableValue, WorkspaceCookie,
};
use postmite::errors::{NativeBackupError, PostmanImportError};
use postmite::ids::{
    CollectionId, CookieId, EnvironmentId, RequestDraftId, RequestTabId, SavedRequestId,
    WorkspaceId,
};
use postmite::store::{
    column_flag, execution_record_response_from_columns, plan_backup_request_restore,
    plan_postman_import_placement, position_from_column, recovered_row_redactions,
    restore_backup_cookie, ColumnOutOfRange, FreshBackupIds, ImportedCollection,
    RestoredDraft, RestoredFolder, RestoredRequests, RestoredSavedRequest, RestoredTab,
    RESPONSE_DURATION_COLUMN, RESPONSE_STATUS_COLUMN, plan_snapshot_rotation, sort_texts,
    text_precedes,
};

fn ws() -> WorkspaceId {
    WorkspaceId { value: 7 }
}

fn request_content(name: &str) -> RequestContent {
    RequestContent {
        name: name.to_owned(),
        method: "GET".to_owned(),
        url: "https://example.test".to_owned(),
        body: RequestBody::Empty,
        query: Vec::new(),
        headers: Vec::new(),
        auth: RequestAuth::NoAuth,
        redirect: RedirectPolicy { enabled: true, max_redirects: 10 },
        tls: TlsPolicy {
            verify: true,
            custom_ca_reference: None,
            client_certificate_reference: None,
            client_key_reference: None,
        },
        transport: TransportPolicy {
            proxy: ProxyPolicy {
                source: ProxySource::ProcessEnvironment,
                url: None,
                no_proxy: Vec::new(),
            },
            timeouts: TimeoutPolicy { connect_ms: 10000, overall_ms: 300000, idle_ms: 60000 },
        },
    }
}

fn folder(id: u128, parent: Option<u128>) -> CollectionFolder {
    CollectionFolder {
        id: CollectionId { value: id },
        workspace_id: ws(),
        parent_collection_id: parent.map(|value| CollectionId { value }),
        name: format!("folder {}", id),
        position: 0,
    }
}

fn environment(id: u128) -> Environment {
    Environment {
        id: EnvironmentId { value: id },
        workspace_id: ws(),
        name: "dev".to_owned(),
        position: 0,
        is_selected: true,
    }
}

fn environment_variable(environment_id: u128) -> EnvironmentVariable {
    EnvironmentVariable {
        environment_id: EnvironmentId { value: environment_id },
        workspace_id: ws(),
        variable: Variable {
            name: "host".to_owned(),
            value: VariableValue::Plain("example.test".to_owned()),
        },
    }
}

fn saved_request(id: u128, collection: Option<u128>) -> SavedRequest {
    SavedRequest {
        id: SavedRequestId { value: id },
        workspace_id: ws(),
        collection_id: collection.map(|value| CollectionId { value }),
        position: 0,
        content: request_content("saved"),
    }
}

fn draft(id: u128, saved: Option<u128>) -> RequestDraft {
    RequestDraft {
        id: RequestDraftId { value: id },
        workspace_id: ws(),
        saved_request_id: saved.map(|value| SavedRequestId { value }),
        content: request_content("draft"),
        is_dirty: false,
    }
}

fn tab(draft_id: u128, saved: Option<u128>) -> RequestTab {
    RequestTab {
        id: RequestTabId { value: 900 },
        workspace_id: ws(),
        saved_request_id: saved.map(|value| SavedRequestId { value }),
        draft_id: RequestDraftId { value: draft_id },
        position: 0,
        title: "tab".to_owned(),
        is_active: true,
    }
}

/// A backup whose every reference names an entity it defines.
fn consistent_backup() -> RequestWorkspaceSnapshot {
    RequestWorkspaceSnapshot {
        workspace_id: ws(),
        collection_folders: vec![folder(1, None), folder(2, Some(1))],
        environments: vec![environment(10)],
        collection_variables: Vec::new(),
        environment_variables: vec![environment_variable(10)],
        saved_requests: vec![saved_request(20, Some(2)), saved_request(21, None)],
        drafts: vec![draft(30, Some(20)), draft(31, None)],
        tabs: vec![tab(30, Some(20)), tab(31, None)],
    }
}

fn fresh_for(snapshot: &RequestWorkspaceSnapshot) -> FreshBackupIds {
    FreshBackupIds {
        collections: (0..snapshot.collection_folders.len())
            .map(|i| CollectionId { value: 1001 + i as u128 })
            .collect(),
        environments: (0..snapshot.environments.len())
            .map(|i| EnvironmentId { value: 2001 + i as u128 })
            .collect(),
        saved_requests: (0..snapshot.saved_requests.len())
            .map(|i| SavedRequestId { value: 3001 + i as u128 })
            .collect(),
        drafts: (0..snapshot.drafts.len())
            .map(|i| RequestDraftId { value: 4001 + i as u128 })
            .collect(),
    }
}

fn restore_refusal(snapshot: RequestWorkspaceSnapshot) -> String {
    let fresh = fresh_for(&snapshot);
    match plan_backup_request_restore(&snapshot, &fresh) {
        Err(NativeBackupError::InvalidArchive(detail)) => detail,
        Err(other) => panic!("unexpected error {:?}", other),
        Ok(_) => panic!("a dangling reference was restored"),
    }
}

fn restored(snapshot: &RequestWorkspaceSnapshot) -> RestoredRequests {
    match plan_backup_request_restore(snapshot, &fresh_for(snapshot)) {
        Ok(restored) => restored,
        Err(error) => panic!("restore refused: {:?}", error),
    }
}

#[test]
fn backup_restore_gives_fresh_ids_and_remaps_every_reference() {
    let snapshot = consistent_backup();
    let plan = restored(&snapshot);
    assert_eq!(
        plan.folders,
        vec![
            RestoredFolder { id: CollectionId { value: 1001 }, parent_id: None },
            RestoredFolder {
                id: CollectionId { value: 1002 },
                parent_id: Some(CollectionId { value: 1001 }),
            },
        ]
    );
    assert_eq!(plan.environments, vec![EnvironmentId { value: 2001 }]);
    assert_eq!(plan.environment_variables, vec![EnvironmentId { value: 2001 }]);
    assert_eq!(
        plan.saved_requests,
        vec![
            RestoredSavedRequest {
                id: SavedRequestId { value: 3001 },
                collection_id: Some(CollectionId { value: 1002 }),
            },
            RestoredSavedRequest { id: SavedRequestId { value: 3002 }, collection_id: None },
        ]
    );
    assert_eq!(
        plan.drafts,
        vec![
            RestoredDraft {
                id: RequestDraftId { value: 4001 },
                saved_request_id: Some(SavedRequestId { value: 3001 }),
            },
            RestoredDraft { id: RequestDraftId { value: 4002 }, saved_request_id: None },
        ]
    );
    assert_eq!(
        plan.tabs,
        vec![
            RestoredTab {
                draft_id: RequestDraftId { value: 4001 },
                saved_request_id: Some(SavedRequestId { value: 3001 }),
            },
            RestoredTab { draft_id: RequestDraftId { value: 4002 }, saved_request_id: None },
        ]
    );
}

#[test]
fn backup_restore_of_an_empty_backup_writes_nothing() {
    let snapshot = RequestWorkspaceSnapshot {
        workspace_id: ws(),
        collection_folders: Vec::new(),
        environments: Vec::new(),
        collection_variables: Vec::new(),
        environment_variables: Vec::new(),
        saved_requests: Vec::new(),
        drafts: Vec::new(),
        tabs: Vec::new(),
    };
    let plan = restored(&snapshot);
    assert!(plan.folders.is_empty());
    assert!(plan.environments.is_empty());
    assert!(plan.environment_variables.is_empty());
    assert!(plan.saved_requests.is_empty());
    assert!(plan.drafts.is_empty());
    assert!(plan.tabs.is_empty());
}

#[test]
fn backup_restore_refuses_a_folder_with_an_unknown_parent() {
    let mut snapshot = consistent_backup();
    snapshot.collection_folders[1].parent_collection_id = Some(CollectionId { value: 99 });
    assert_eq!(restore_refusal(snapshot), "backup.reference.invalid");
}

#[test]
fn backup_restore_refuses_a_variable_of_an_unknown_environment() {
    let mut snapshot = consistent_backup();
    snapshot.environment_variables.push(environment_variable(11));
    assert_eq!(restore_refusal(snapshot), "backup.reference.invalid");
}

#[test]
fn backup_restore_refuses_a_request_in_an_unknown_folder() {
    let mut snapshot = consistent_backup();
    snapshot.saved_requests[1].collection_id = Some(CollectionId { value: 98 });
    assert_eq!(restore_refusal(snapshot), "backup.reference.invalid");
}

#[test]
fn backup_restore_refuses_a_draft_of_an_unknown_request() {
    let mut snapshot = consistent_backup();
    snapshot.drafts[1].saved_request_id = Some(SavedRequestId { value: 97 });
    assert_eq!(restore_refusal(snapshot), "backup.reference.invalid");
}

#[test]
fn backup_restore_refuses_a_tab_with_an_unknown_draft_or_request() {
    let mut unknown_draft = consistent_backup();
    unknown_draft.tabs[1].draft_id = RequestDraftId { value: 96 };
    assert_eq!(restore_refusal(unknown_draft), "backup.reference.invalid");

    let mut unknown_request = consistent_backup();
    unknown_request.tabs[1].saved_request_id = Some(SavedRequestId { value: 95 });
    assert_eq!(restore_refusal(unknown_request), "backup.reference.invalid");
}

#[test]
fn backup_restore_strips_cookie_values() {
    let cookie = WorkspaceCookie {
        id: CookieId { value: 1 },
        workspace_id: WorkspaceId { value: 2 },
        name: "session".to_owned(),
        domain: "example.test".to_owned(),
        path: "/".to_owned(),
        secure: true,
        http_only: true,
        same_site: Some(CookieSameSite::Lax),
        expires_at_epoch_seconds: Some(1_700_000_000),
        session: false,
        has_value: true,
        secret_reference: Some("secret://cookie/1".to_owned()),
    };
    let restored =
        restore_backup_cookie(cookie, CookieId { value: 50 }, WorkspaceId { value: 60 });
    assert_eq!(restored.id, CookieId { value: 50 });
    assert_eq!(restored.workspace_id, WorkspaceId { value: 60 });
    assert_eq!(restored.name, "session");
    assert_eq!(restored.domain, "example.test");
    assert_eq!(restored.path, "/");
    assert!(restored.secure);
    assert!(restored.http_only);
    assert_eq!(restored.same_site, Some(CookieSameSite::Lax));
    assert_eq!(restored.expires_at_epoch_seconds, Some(1_700_000_000));
    assert!(!restored.session);
    assert!(!restored.has_value);
    assert_eq!(restored.secret_reference, None);
}

#[test]
fn row_columns_convert_flags_and_positions() {
    assert!(!column_flag(0));
    assert!(column_flag(1));
    assert!(column_flag(-3));
    assert_eq!(position_from_column(0), Some(0));
    assert_eq!(position_from_column(4_294_967_295), Some(u32::MAX));
    assert_eq!(position_from_column(4_294_967_296), None);
    assert_eq!(position_from_column(-1), None);
}

#[test]
fn execution_record_response_reads_its_columns() {
    let read = execution_record_response_from_columns(
        Some(201),
        "{}".to_owned(),
        1,
        None,
        Some(35),
    )
    .expect("columns in range");
    assert_eq!(read.status, Some(201));
    assert!(read.headers.is_empty());
    assert_eq!(read.body_preview, "{}");
    assert!(read.body_truncated);
    assert_eq!(read.error, None);
    assert_eq!(read.duration_ms, Some(35));

    let failed = execution_record_response_from_columns(
        None,
        String::new(),
        0,
        Some("timeout".to_owned()),
        None,
    )
    .expect("columns in range");
    assert_eq!(failed.status, None);
    assert!(!failed.body_truncated);
    assert_eq!(failed.error, Some("timeout".to_owned()));
    assert_eq!(failed.duration_ms, None);
}

#[test]
fn execution_record_response_refuses_out_of_range_columns() {
    let status = execution_record_response_from_columns(
        Some(70_000),
        String::new(),
        0,
        None,
        Some(-1),
    );
    assert_eq!(status.err(), Some(ColumnOutOfRange { column: RESPONSE_STATUS_COLUMN }));
    assert_eq!(RESPONSE_STATUS_COLUMN, 12);

    let negative_status =
        execution_record_response_from_columns(Some(-1), String::new(), 0, None, None);
    assert_eq!(negative_status.err(), Some(ColumnOutOfRange { column: 12 }));

    let duration =
        execution_record_response_from_columns(Some(200), String::new(), 0, None, Some(-1));
    assert_eq!(duration.err(), Some(ColumnOutOfRange { column: RESPONSE_DURATION_COLUMN }));
    assert_eq!(RESPONSE_DURATION_COLUMN, 16);
}

#[test]
fn recovered_rows_redact_non_null_secret_cells() {
    let columns: Vec<String> = vec![
        "id".to_owned(),
        "password".to_owned(),
        "client_key_reference".to_owned(),
        "name".to_owned(),
    ];
    let (flags, count) = recovered_row_redactions(&columns, &vec![false, false, true, false]);
    assert_eq!(flags, vec![false, true, false, false]);
    assert_eq!(count, 1);

    let (none, zero) = recovered_row_redactions(&Vec::new(), &Vec::new());
    assert!(none.is_empty());
    assert_eq!(zero, 0);
}

fn imported(index: usize, parent: Option<usize>, name: &str) -> ImportedCollection {
    ImportedCollection { import_index: index, parent_import_index: parent, name: name.to_owned() }
}

fn import_refusal_detail(
    collections: &Vec<ImportedCollection>,
    fresh: &Vec<CollectionId>,
) -> String {
    match plan_postman_import_placement(collections, fresh, &Vec::new()) {
        Err(PostmanImportError::InvalidInput(detail)) => detail,
        Err(other) => panic!("unexpected error {:?}", other),
        Ok(_) => panic!("the import was placed"),
    }
}

#[test]
fn postman_import_places_folders_and_requests() {
    let collections = vec![
        imported(0, None, "API"),
        imported(1, Some(0), "Users"),
        imported(2, None, "Admin"),
        imported(3, Some(1), "Details"),
    ];
    let fresh: Vec<CollectionId> =
        (0..4u128).map(|i| CollectionId { value: 100 + i }).collect();
    let requests = vec![Some(1), None, Some(3), Some(9)];
    let placement = match plan_postman_import_placement(&collections, &fresh, &requests) {
        Ok(placement) => placement,
        Err(error) => panic!("import refused: {:?}", error),
    };
    assert_eq!(
        placement.parent_ids,
        vec![
            None,
            Some(CollectionId { value: 100 }),
            None,
            Some(CollectionId { value: 101 }),
        ]
    );
    assert_eq!(
        placement.root_collection_ids,
        vec![CollectionId { value: 100 }, CollectionId { value: 102 }]
    );
    assert_eq!(
        placement.request_collection_ids,
        vec![Some(CollectionId { value: 101 }), None, Some(CollectionId { value: 103 }), None]
    );
}

#[test]
fn postman_import_refuses_a_folder_whose_parent_comes_later() {
    let collections = vec![imported(0, Some(1), "Child"), imported(1, None, "Parent")];
    let fresh = vec![CollectionId { value: 1 }, CollectionId { value: 2 }];
    assert_eq!(
        import_refusal_detail(&collections, &fresh),
        "postman.collection.parent.missing"
    );
}

#[test]
fn postman_import_refuses_a_blank_folder_name() {
    let collections = vec![imported(0, None, "API"), imported(1, Some(0), "  ")];
    let fresh = vec![CollectionId { value: 1 }, CollectionId { value: 2 }];
    assert_eq!(import_refusal_detail(&collections, &fresh), "collection.name.required");
}

#[test]
fn texts_compare_by_code_point() {
    assert!(text_precedes("a", "b"));
    assert!(!text_precedes("b", "a"));
    assert!(text_precedes("ab", "abc"));
    assert!(!text_precedes("abc", "ab"));
    assert!(!text_precedes("same", "same"));
    assert!(text_precedes("", "x"));
    assert!(text_precedes("Z", "a"));
    assert!(text_precedes("z", "\u{e9}"));
}

#[test]
fn texts_sort_like_file_names() {
    let names: Vec<String> =
        vec!["c".to_owned(), "a".to_owned(), "b".to_owned(), "a".to_owned()];
    assert_eq!(sort_texts(&names), vec!["a", "a", "b", "c"]);
    let mut expected = vec![
        "db.pre-migration-20-0.snapshot".to_owned(),
        "db.pre-migration-100-0.snapshot".to_owned(),
        "db.pre-migration-9-1.snapshot".to_owned(),
    ];
    let sorted = sort_texts(&expected);
    expected.sort();
    assert_eq!(sorted, expected);
    assert!(sort_texts(&Vec::new()).is_empty());
}

#[test]
fn snapshot_rotation_keeps_the_three_newest() {
    let names: Vec<String> = (1..=5)
        .rev()
        .map(|n| format!("workspace.db.pre-migration-170000000{}-0.snapshot", n))
        .collect();
    let rotation = plan_snapshot_rotation(&names);
    assert_eq!(
        rotation.removed,
        vec![
            "workspace.db.pre-migration-1700000001-0.snapshot",
            "workspace.db.pre-migration-1700000002-0.snapshot",
        ]
    );
    assert_eq!(
        rotation.kept,
        vec![
            "workspace.db.pre-migration-1700000003-0.snapshot",
            "workspace.db.pre-migration-1700000004-0.snapshot",
            "workspace.db.pre-migration-1700000005-0.snapshot",
        ]
    );

    let few: Vec<String> = vec!["b".to_owned(), "a".to_owned()];
    let rotation = plan_snapshot_rotation(&few);
    assert!(rotation.removed.is_empty());
    assert_eq!(rotation.kept, vec!["a", "b"]);
}
