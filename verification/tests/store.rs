use postmite::domain::{
    BodyFilePath, BodyFileReference, CookieDraft, CookieSameSite, MultipartPart, ProxyPolicy,
    ProxySource, RedirectPolicy, RequestAuth, RequestBody, RequestTab,
    RequestContent, TimeoutPolicy, TlsPolicy, TransportPolicy, VariableValue,
};
use postmite::errors::{NativeBackupError, PostmanImportError, RequestError, WorkspaceError};
use postmite::ids::{
    CollectionId, ExecutionRecordId, RequestDraftId, RequestTabId, SavedRequestId, WorkspaceId,
};
use postmite::store::{
    bool_to_i64, collection_parent_ids, cookie_same_site_from_sql, cookie_same_site_to_sql,
    ensure_import_parent_present, is_blank, is_pre_migration_snapshot_name, is_secret_column,
    latest_migration_version, make_tree_position_space, migration_preflight,
    native_backup_request_error, normalize_cookie_domain, postman_request_error,
    quote_identifier, quote_string_literal, replace_body_file_reference,
    retained_execution_records, retention_cutoff, plan_snapshot_rotation,
    saved_request_collection_ids, shift_tree_positions, snapshots_to_remove,
    validate_collection_name, validate_cookie_metadata, validate_request_content,
    variable_value_columns, HistoryEntry, MigrationPreflight, TreeEntry, TreePositionMove,
    is_cookie_expired, plan_cookie_upsert, plan_workspace_deletion, trim_text, CookieUpsert,
    request_body_from_sql, stored_policy_json, StoredRequestBody, existing_saved_request_tab,
    duplicate_folder_name, duplicate_folder_position, check_folder_move, collection_descends_from,
    FolderParent,
};

fn content(name: &str, method: &str) -> RequestContent {
    RequestContent {
        name: name.to_owned(),
        method: method.to_owned(),
        url: "https://example.test".to_owned(),
        body: RequestBody::Empty,
        query: Vec::new(),
        headers: Vec::new(),
        auth: RequestAuth::NoAuth,
        redirect: RedirectPolicy { enabled: true, max_redirects: 10 },
        tls: TlsPolicy {
            verify: true,
            custom_ca_reference: None,
            client_certificate_reference: None,
            client_key_reference: None,
        },
        transport: TransportPolicy {
            proxy: ProxyPolicy {
                source: ProxySource::ProcessEnvironment,
                url: None,
                no_proxy: Vec::new(),
            },
            timeouts: TimeoutPolicy { connect_ms: 10000, overall_ms: 300000, idle_ms: 60000 },
        },
    }
}

fn invalid_detail(result: Result<(), RequestError>) -> String {
    match result {
        Err(RequestError::InvalidInput(detail)) => detail,
        _ => panic!("expected invalid input"),
    }
}

fn cookie(name: &str, domain: &str, path: &str) -> CookieDraft {
    CookieDraft {
        id: None,
        workspace_id: WorkspaceId { value: 7 },
        name: name.to_owned(),
        value: "v".to_owned(),
        domain: domain.to_owned(),
        path: path.to_owned(),
        secure: false,
        http_only: false,
        same_site: None,
        expires_at_epoch_seconds: None,
    }
}

fn file(path: BodyFilePath) -> BodyFileReference {
    BodyFileReference {
        path,
        file_name: "old.bin".to_owned(),
        size: 3,
        modified_at_epoch_seconds: Some(1),
        sha256: "abc".to_owned(),
    }
}

fn history(id: u128, created: i64, pinned: bool) -> HistoryEntry {
    HistoryEntry { id: ExecutionRecordId { value: id }, created_at_epoch_seconds: created, pinned }
}

#[test]
fn blank_text_is_white_space_only() {
    assert!(is_blank(""));
    assert!(is_blank(" \t\n\u{3000}\u{a0}"));
    assert!(!is_blank("  x "));
}

#[test]
fn request_content_needs_a_name_and_a_method() {
    assert!(validate_request_content(&content("Get users", "GET")).is_ok());
    assert_eq!(invalid_detail(validate_request_content(&content("  ", "GET"))), "name.required");
    assert_eq!(invalid_detail(validate_request_content(&content("Get", "\t"))), "method.required");
    assert_eq!(invalid_detail(validate_request_content(&content("", ""))), "name.required");
}

#[test]
fn collection_names_must_not_be_blank() {
    assert!(validate_collection_name("Folder").is_ok());
    assert_eq!(invalid_detail(validate_collection_name(" ")), "collection.name.required");
}

#[test]
fn cookie_metadata_needs_name_domain_and_absolute_path() {
    assert!(validate_cookie_metadata(&cookie("sid", "example.test", "/")).is_ok());
    assert_eq!(
        invalid_detail(validate_cookie_metadata(&cookie(" ", "example.test", "/"))),
        "cookie.name.required"
    );
    assert_eq!(
        invalid_detail(validate_cookie_metadata(&cookie("sid", "", "/"))),
        "cookie.domain.required"
    );
    assert_eq!(
        invalid_detail(validate_cookie_metadata(&cookie("sid", "example.test", "api"))),
        "cookie.path.invalid"
    );
    assert_eq!(
        invalid_detail(validate_cookie_metadata(&cookie("sid", "example.test", ""))),
        "cookie.path.invalid"
    );
}

#[test]
fn booleans_are_stored_as_zero_and_one() {
    assert_eq!(bool_to_i64(true), 1);
    assert_eq!(bool_to_i64(false), 0);
}

#[test]
fn same_site_values_round_trip_through_their_column_text() {
    for value in [CookieSameSite::Strict, CookieSameSite::Lax, CookieSameSite::NoRestriction] {
        assert_eq!(cookie_same_site_from_sql(cookie_same_site_to_sql(value)), Some(value));
    }
    assert_eq!(cookie_same_site_to_sql(CookieSameSite::NoRestriction), "none");
    assert_eq!(cookie_same_site_from_sql("Strict"), None);
}

#[test]
fn variable_values_fill_exactly_one_column() {
    let plain = VariableValue::Plain("https://api.test".to_owned());
    assert_eq!(variable_value_columns(&plain), (Some("https://api.test"), None));
    let secret = VariableValue::SecretReference("secret://token".to_owned());
    assert_eq!(variable_value_columns(&secret), (None, Some("secret://token")));
}

#[test]
fn relinking_replaces_matching_binary_and_multipart_files() {
    let replacement = BodyFileReference {
        path: BodyFilePath::Absolute { path: "/data/new.bin".to_owned() },
        file_name: "new.bin".to_owned(),
        size: 9,
        modified_at_epoch_seconds: None,
        sha256: "def".to_owned(),
    };
    let mut binary = RequestBody::Binary {
        file: file(BodyFilePath::Relative { path: "old.bin".to_owned() }),
    };
    assert!(replace_body_file_reference(&mut binary, "old.bin", &replacement));
    assert_eq!(binary, RequestBody::Binary { file: replacement.clone() });

    let mut other = RequestBody::Binary {
        file: file(BodyFilePath::Absolute { path: "/data/other.bin".to_owned() }),
    };
    let before = other.clone();
    assert!(!replace_body_file_reference(&mut other, "old.bin", &replacement));
    assert_eq!(other, before);

    let mut multipart = RequestBody::Multipart {
        parts: vec![
            MultipartPart::Field {
                enabled: true,
                order: 0,
                name: "note".to_owned(),
                value: "old.bin".to_owned(),
            },
            MultipartPart::File {
                enabled: true,
                order: 1,
                name: "file".to_owned(),
                file: file(BodyFilePath::Relative { path: "old.bin".to_owned() }),
            },
        ],
    };
    assert!(replace_body_file_reference(&mut multipart, "old.bin", &replacement));
    match &multipart {
        RequestBody::Multipart { parts } => {
            assert_eq!(parts.len(), 2);
            assert!(matches!(&parts[0], MultipartPart::Field { value, .. } if value == "old.bin"));
            assert!(matches!(&parts[1], MultipartPart::File { file, name, .. }
                if *file == replacement && name == "file"));
        }
        _ => panic!("multipart body expected"),
    }

    let mut raw = RequestBody::Raw { content: "old.bin".to_owned() };
    assert!(!replace_body_file_reference(&mut raw, "old.bin", &replacement));
}

#[test]
fn store_failures_map_for_imports_and_backups() {
    assert!(matches!(
        postman_request_error(RequestError::NotFound),
        PostmanImportError::InvalidInput(detail) if detail == "postman.import.invalidReference"
    ));
    assert!(matches!(
        postman_request_error(RequestError::InvalidInput("name.required".to_owned())),
        PostmanImportError::InvalidInput(detail) if detail == "name.required"
    ));
    assert!(matches!(
        postman_request_error(RequestError::WorkspaceNotFound),
        PostmanImportError::WorkspaceNotFound
    ));
    assert!(matches!(
        native_backup_request_error(RequestError::SavedRequestAlreadyOpen),
        NativeBackupError::InvalidArchive(detail) if detail == "backup.reference.invalid"
    ));
    assert!(matches!(
        native_backup_request_error(RequestError::Persistence("disk".to_owned())),
        NativeBackupError::Persistence(message) if message == "disk"
    ));
}

#[test]
fn moving_down_within_a_parent_slides_the_entries_between_up() {
    let parent = Some(CollectionId { value: 1 });
    let mut entries: Vec<TreeEntry> =
        (0..5).map(|position| TreeEntry { parent_id: parent, position }).collect();
    let position_move = TreePositionMove {
        old_parent_id: parent,
        old_position: 1,
        new_parent_id: parent,
        new_position: 3,
    };
    shift_tree_positions(&position_move, &mut entries);
    let positions: Vec<i64> = entries.iter().map(|entry| entry.position).collect();
    assert_eq!(positions, vec![0, 1, 1, 2, 4]);
}

#[test]
fn moving_up_within_a_parent_slides_the_entries_between_down() {
    let mut entries: Vec<TreeEntry> =
        (0..5).map(|position| TreeEntry { parent_id: None, position }).collect();
    let position_move = TreePositionMove {
        old_parent_id: None,
        old_position: 3,
        new_parent_id: None,
        new_position: 0,
    };
    shift_tree_positions(&position_move, &mut entries);
    let positions: Vec<i64> = entries.iter().map(|entry| entry.position).collect();
    assert_eq!(positions, vec![1, 2, 3, 3, 4]);
}

#[test]
fn moving_across_parents_closes_and_opens_gaps() {
    let from = Some(CollectionId { value: 1 });
    let to = Some(CollectionId { value: 2 });
    let mut entries = vec![
        TreeEntry { parent_id: from, position: 0 },
        TreeEntry { parent_id: from, position: 1 },
        TreeEntry { parent_id: from, position: 2 },
        TreeEntry { parent_id: to, position: 0 },
        TreeEntry { parent_id: to, position: 1 },
        TreeEntry { parent_id: None, position: 0 },
    ];
    let position_move = TreePositionMove {
        old_parent_id: from,
        old_position: 1,
        new_parent_id: to,
        new_position: 1,
    };
    shift_tree_positions(&position_move, &mut entries);
    let positions: Vec<i64> = entries.iter().map(|entry| entry.position).collect();
    assert_eq!(positions, vec![0, 1, 1, 0, 2, 0]);
}

#[test]
fn making_space_moves_later_siblings_only() {
    let parent = Some(CollectionId { value: 3 });
    let mut entries = vec![
        TreeEntry { parent_id: parent, position: 0 },
        TreeEntry { parent_id: parent, position: 1 },
        TreeEntry { parent_id: None, position: 1 },
        TreeEntry { parent_id: parent, position: 2 },
    ];
    make_tree_position_space(&mut entries, parent, 1);
    let positions: Vec<i64> = entries.iter().map(|entry| entry.position).collect();
    assert_eq!(positions, vec![0, 2, 1, 3]);
}

#[test]
fn renumbering_always_includes_the_root() {
    let a = Some(CollectionId { value: 5 });
    assert_eq!(collection_parent_ids(vec![a]), vec![a, None]);
    assert_eq!(collection_parent_ids(vec![None, a]), vec![None, a]);
    assert_eq!(saved_request_collection_ids(Vec::new()), vec![None]);
}

#[test]
fn imported_folders_need_their_parent() {
    assert!(ensure_import_parent_present(false, None).is_ok());
    assert!(ensure_import_parent_present(true, Some(CollectionId { value: 1 })).is_ok());
    assert!(matches!(
        ensure_import_parent_present(true, None),
        Err(PostmanImportError::InvalidInput(detail)) if detail == "postman.collection.parent.missing"
    ));
}

#[test]
fn retention_cutoff_is_thirty_days_back() {
    assert_eq!(retention_cutoff(1_000_000 + 31 * 24 * 60 * 60), 1_000_000 + 24 * 60 * 60);
    assert_eq!(retention_cutoff(2_592_000), 0);
}

#[test]
fn retention_removes_old_unpinned_records() {
    let now = 1_000_000 + 31 * 24 * 60 * 60;
    let entries = vec![history(1, 1_000_000, false), history(2, now, false)];
    assert_eq!(retained_execution_records(&entries, now), vec![false, true]);
}

#[test]
fn retention_keeps_old_pinned_records() {
    let now = 1_000_000 + 31 * 24 * 60 * 60;
    let entries = vec![history(1, 1_000_000, true), history(2, now, false)];
    assert_eq!(retained_execution_records(&entries, now), vec![true, true]);
}

#[test]
fn retention_keeps_the_latest_thousand_unpinned_records() {
    let entries: Vec<HistoryEntry> =
        (0..1002).map(|index| history(index as u128 + 1, 2_000_000 + index, false)).collect();
    let kept = retained_execution_records(&entries, 2_000_000 + 1001);
    assert_eq!(kept.iter().filter(|keep| **keep).count(), 1000);
    assert!(kept[1001]);
    assert!(!kept[0]);
    assert!(!kept[1]);
    assert!(kept[2]);
}

#[test]
fn retention_breaks_ties_on_the_record_id() {
    let mut entries: Vec<HistoryEntry> =
        (0..1000).map(|index| history(index as u128 + 10, 5_000_000, false)).collect();
    entries.push(history(1, 5_000_000, false));
    entries.push(history(5_000, 5_000_000, true));
    let kept = retained_execution_records(&entries, 5_000_000);
    assert!(!kept[1000]);
    assert!(kept[1001]);
    assert_eq!(kept.iter().filter(|keep| **keep).count(), 1001);
}

#[test]
fn the_latest_migration_is_the_highest_version() {
    assert_eq!(latest_migration_version(&vec![1, 2, 13, 4]), 13);
    assert_eq!(latest_migration_version(&Vec::new()), 0);
}

#[test]
fn migration_preflight_refuses_newer_schemas_and_finds_pending_ones() {
    let known: Vec<i64> = (1..=13).collect();
    assert_eq!(migration_preflight(&known.clone(), &known), MigrationPreflight::UpToDate);
    let old: Vec<i64> = (1..=12).collect();
    assert_eq!(migration_preflight(&old, &known), MigrationPreflight::Pending);
    let mut newer = known.clone();
    newer.push(14);
    assert_eq!(migration_preflight(&newer, &known), MigrationPreflight::NewerSchema);
    assert_eq!(migration_preflight(&Vec::new(), &known), MigrationPreflight::Pending);
}

#[test]
fn snapshot_names_follow_the_database_file() {
    assert!(is_pre_migration_snapshot_name(
        "postmite.sqlite3.pre-migration-1700000000000-0.snapshot",
        "postmite.sqlite3"
    ));
    assert!(!is_pre_migration_snapshot_name(
        "other.sqlite3.pre-migration-1700000000000-0.snapshot",
        "postmite.sqlite3"
    ));
    assert!(!is_pre_migration_snapshot_name(
        "postmite.sqlite3.pre-migration-1700000000000-0.tmp",
        "postmite.sqlite3"
    ));
    assert!(!is_pre_migration_snapshot_name("postmite.sqlite3", "postmite.sqlite3"));
}

#[test]
fn rotation_keeps_the_three_newest_snapshots() {
    assert_eq!(snapshots_to_remove(5), 2);
    assert_eq!(snapshots_to_remove(3), 0);
    assert_eq!(snapshots_to_remove(0), 0);
    let names: Vec<String> = (0..5).map(|index| format!("db.pre-migration-{index}.snapshot")).collect();
    assert_eq!(plan_snapshot_rotation(&names).removed, vec![names[0].clone(), names[1].clone()]);
    assert!(plan_snapshot_rotation(&names[..3].to_vec()).removed.is_empty());
}

#[test]
fn secret_columns_are_recognised() {
    for column in [
        "password",
        "token",
        "client_secret",
        "secret_ref",
        "client_key_reference",
        "custom_ca_reference",
        "client_certificate_reference",
    ] {
        assert!(is_secret_column(column));
    }
    assert!(!is_secret_column("name"));
    assert!(!is_secret_column("passwords"));
}

#[test]
fn quoting_doubles_inner_quotes() {
    assert_eq!(quote_identifier("execution_records"), "\"execution_records\"");
    assert_eq!(quote_identifier("a\"b"), "\"a\"\"b\"");
    assert_eq!(quote_string_literal("it's"), "'it''s'");
    assert_eq!(quote_string_literal(""), "''");
}

#[test]
fn cookie_domains_are_trimmed_undotted_and_lowercased() {
    assert_eq!(normalize_cookie_domain("  .Example.TEST "), "example.test");
    assert_eq!(normalize_cookie_domain("..api.test"), "api.test");
    assert_eq!(normalize_cookie_domain(" \u{3000} "), "");
    assert_eq!(normalize_cookie_domain("Ünï.TEST"), "Ünï.test");
}

#[test]
fn cookies_expire_at_their_expiry_second() {
    assert!(is_cookie_expired(Some(100), 100));
    assert!(!is_cookie_expired(Some(101), 100));
    assert!(!is_cookie_expired(None, i64::MAX));
}

#[test]
fn trimming_removes_white_space_at_both_ends_only() {
    assert_eq!(trim_text("  sid \t"), "sid");
    assert_eq!(trim_text("a b"), "a b");
    assert_eq!(trim_text("\u{2003}"), "");
}

#[test]
fn cookie_upserts_store_remove_or_refuse() {
    let mut draft = cookie(" sid ", " .Example.test", "/api");
    match plan_cookie_upsert(&draft, 1_000).expect("stored") {
        CookieUpsert::Store { scope, session } => {
            assert_eq!(scope.name, "sid");
            assert_eq!(scope.domain, "example.test");
            assert_eq!(scope.path, "/api");
            assert!(session);
        }
        CookieUpsert::Expired { .. } => panic!("not expired"),
    }
    draft.expires_at_epoch_seconds = Some(2_000);
    assert!(matches!(
        plan_cookie_upsert(&draft, 1_000),
        Ok(CookieUpsert::Store { session: false, .. })
    ));
    assert!(matches!(plan_cookie_upsert(&draft, 2_000), Ok(CookieUpsert::Expired { .. })));
    draft.path = "api".to_owned();
    assert_eq!(invalid_detail(plan_cookie_upsert(&draft, 0).map(|_| ())), "cookie.path.invalid");
}

#[test]
fn deleting_a_workspace_keeps_one_selected() {
    let a = WorkspaceId { value: 1 };
    let b = WorkspaceId { value: 2 };
    let c = WorkspaceId { value: 3 };
    let order = vec![a, b, c];
    assert_eq!(plan_workspace_deletion(&order, a, a).ok(), Some(b));
    assert_eq!(plan_workspace_deletion(&order, c, a).ok(), Some(c));
    assert_eq!(plan_workspace_deletion(&order, b, b).ok(), Some(a));
    assert!(matches!(
        plan_workspace_deletion(&vec![a], a, a),
        Err(WorkspaceError::CannotDeleteLastWorkspace)
    ));
    assert!(matches!(
        plan_workspace_deletion(&order, a, WorkspaceId { value: 9 }),
        Err(WorkspaceError::NotFound)
    ));
}

#[test]
fn stored_bodies_are_json_empty_or_raw() {
    assert!(matches!(
        request_body_from_sql("  {\"type\":\"NONE\"}".to_owned()),
        StoredRequestBody::Encoded(text) if text == "  {\"type\":\"NONE\"}"
    ));
    assert!(matches!(request_body_from_sql(String::new()), StoredRequestBody::Decoded(RequestBody::Empty)));
    assert!(matches!(
        request_body_from_sql("plain text".to_owned()),
        StoredRequestBody::Decoded(RequestBody::Raw { content }) if content == "plain text"
    ));
    assert!(matches!(
        request_body_from_sql("   ".to_owned()),
        StoredRequestBody::Decoded(RequestBody::Raw { content }) if content == "   "
    ));
}

#[test]
fn blank_policy_columns_stand_for_the_defaults() {
    assert_eq!(stored_policy_json(" ".to_owned()), None);
    assert_eq!(stored_policy_json("{\"verify\":false}".to_owned()), Some("{\"verify\":false}".to_owned()));
    assert_eq!(RequestAuth::default(), RequestAuth::NoAuth);
    assert_eq!(RedirectPolicy::default(), RedirectPolicy { enabled: true, max_redirects: 10 });
    assert!(TlsPolicy::default().verify);
    let transport = TransportPolicy::default();
    assert_eq!(transport.proxy.source, ProxySource::ProcessEnvironment);
    assert_eq!(transport.timeouts, TimeoutPolicy { connect_ms: 10000, overall_ms: 300000, idle_ms: 60000 });
}

#[test]
fn a_saved_request_reopens_in_its_tab() {
    let tab = |id: u128, saved: Option<u128>| RequestTab {
        id: RequestTabId { value: id },
        workspace_id: WorkspaceId { value: 1 },
        saved_request_id: saved.map(|value| SavedRequestId { value }),
        draft_id: RequestDraftId { value: id + 100 },
        position: 0,
        title: "t".to_owned(),
        is_active: false,
    };
    let tabs = vec![tab(1, None), tab(2, Some(7)), tab(3, Some(8))];
    assert_eq!(existing_saved_request_tab(&tabs, SavedRequestId { value: 8 }), Some(RequestTabId { value: 3 }));
    assert_eq!(existing_saved_request_tab(&tabs, SavedRequestId { value: 9 }), None);
}

#[test]
fn duplicated_folders_are_named_copies_placed_after_their_source() {
    assert_eq!(duplicate_folder_name("Users"), "Users Copy");
    assert_eq!(duplicate_folder_position(4), 5);
    assert_eq!(duplicate_folder_position(u32::MAX), u32::MAX);
}

#[test]
fn folders_cannot_move_into_themselves_or_their_descendants() {
    let a = CollectionId { value: 1 };
    let b = CollectionId { value: 2 };
    let c = CollectionId { value: 3 };
    let folders = vec![
        FolderParent { id: a, parent_id: None },
        FolderParent { id: b, parent_id: Some(a) },
        FolderParent { id: c, parent_id: Some(b) },
    ];
    assert!(matches!(collection_descends_from(&folders, Some(c), a), Ok(true)));
    assert!(matches!(collection_descends_from(&folders, Some(a), c), Ok(false)));
    assert!(matches!(collection_descends_from(&folders, None, a), Ok(false)));
    let cycle = |result: Result<(), RequestError>| {
        matches!(result, Err(RequestError::InvalidInput(detail)) if detail == "collection.cycle")
    };
    assert!(cycle(check_folder_move(&folders, a, Some(a))));
    assert!(cycle(check_folder_move(&folders, a, Some(c))));
    assert!(check_folder_move(&folders, c, Some(a)).is_ok());
    assert!(check_folder_move(&folders, b, None).is_ok());
    assert!(matches!(
        check_folder_move(&folders, a, Some(CollectionId { value: 9 })),
        Err(RequestError::NotFound)
    ));
}
