use postmite::domain::{
    BodyFileReference, CancelExecutionResult, CancelOAuthAuthorizationResult, CloseTabDecision, CollectionLocation,
    CookieDraft, CookieJarSnapshot, CookieSameSite, ExecutionHeader, ExecutionHistorySnapshot,
    RequestContent, RequestWorkspaceSnapshot, ResolvedRequestBody, ResolvedRequestContent,
    ResolvedValue, WorkspaceCookie, WorkspaceSnapshot, WorkspaceSummary,
};
use postmite::dto::{
    CancelOAuthAuthorizationInput, CancelRequestExecutionInput, CloseRequestTabInput,
    CloseTabDecisionDto, CollectionFolderIdInput, CollectionLocationDto, CookieIdInput,
    CreateCollectionFolderInput, MoveSavedRequestInput, OrderedFieldDto, ProxyPolicyDto,
    ProxySourceDto, RedirectPolicyDto, RequestAuthDto, RequestBodyDto, RequestContentDto,
    SaveResponseFileInput, SelectEnvironmentInput, StartRequestExecutionInput, TimeoutPolicyDto,
    TlsPolicyDto, TransportPolicyDto, UpdateRequestDraftInput, UpsertCookieInput,
    WorkspaceIdInput,
};
use postmite::errors::{ExecutionError, IpcErrorCode, OAuthError, RequestError};
use postmite::execution::{
    handle_cancel_oauth_authorization, handle_cancel_request_execution,
    validate_save_response_file_input, ExecutionControl, OAuthControl,
};
use postmite::handlers::{
    handle_close_request_tab, handle_create_collection_folder, handle_delete_collection_folder,
    handle_flush_request_drafts, handle_list_cookies, handle_list_request_workspace,
    handle_move_saved_request, handle_resolve_request_content, handle_reveal_cookie_value,
    handle_select_environment, handle_update_request_draft, handle_upsert_cookie,
    read_start_request_execution_input, workspace_base_directory, RequestService,
};
use postmite::ids::{
    CollectionId, CookieId, EnvironmentId, ExecutionId, ExecutionRecordId, OAuthFlowId,
    RequestDraftId, RequestTabId, SavedRequestId, WorkspaceId,
};

const WORKSPACE: &str = "11112222-3333-4444-5555-666677778888";
const OTHER: &str = "99990000-aaaa-bbbb-cccc-ddddeeeeffff";

#[derive(Default)]
struct FakeRequestService {
    calls: Vec<String>,
    fail_with: Option<RequestError>,
}

impl FakeRequestService {
    fn snapshot(&mut self, call: String, workspace_id: WorkspaceId) -> Result<RequestWorkspaceSnapshot, RequestError> {
        self.calls.push(call);
        match self.fail_with.take() {
            Some(error) => Err(error),
            None => Ok(RequestWorkspaceSnapshot {
                workspace_id,
                collection_folders: Vec::new(),
                environments: Vec::new(),
                collection_variables: Vec::new(),
                environment_variables: Vec::new(),
                saved_requests: Vec::new(),
                drafts: Vec::new(),
                tabs: Vec::new(),
            }),
        }
    }

    fn jar(&mut self, call: String, workspace_id: WorkspaceId) -> Result<CookieJarSnapshot, RequestError> {
        self.calls.push(call);
        Ok(CookieJarSnapshot {
            workspace_id,
            cookies: vec![WorkspaceCookie {
                id: CookieId { value: 3 },
                workspace_id,
                name: "sid".to_owned(),
                domain: "example.test".to_owned(),
                path: "/".to_owned(),
                secure: true,
                http_only: true,
                same_site: Some(CookieSameSite::Lax),
                expires_at_epoch_seconds: None,
                session: true,
                has_value: true,
                secret_reference: Some("secret://postmite/cookie".to_owned()),
            }],
        })
    }

    fn history(&mut self, call: String, workspace_id: WorkspaceId) -> Result<ExecutionHistorySnapshot, RequestError> {
        self.calls.push(call);
        Ok(ExecutionHistorySnapshot {
            workspace_id,
            disabled: false,
            records: Vec::new(),
            warning: String::new(),
        })
    }
}

impl RequestService for FakeRequestService {
    fn list_request_workspace(&self, _workspace_id: WorkspaceId) -> Result<RequestWorkspaceSnapshot, RequestError> {
        Err(RequestError::WorkspaceNotFound)
    }
    fn open_unsaved_tab(&mut self, workspace_id: WorkspaceId) -> Result<RequestWorkspaceSnapshot, RequestError> {
        self.snapshot("open_unsaved_tab".to_owned(), workspace_id)
    }
    fn create_saved_request(&mut self, workspace_id: WorkspaceId, content: RequestContent) -> Result<RequestWorkspaceSnapshot, RequestError> {
        self.snapshot(format!("create_saved_request {}", content.name), workspace_id)
    }
    fn create_collection_folder(&mut self, workspace_id: WorkspaceId, parent: Option<CollectionId>, name: String) -> Result<RequestWorkspaceSnapshot, RequestError> {
        self.snapshot(format!("create_collection_folder {:?} {}", parent.map(|id| id.value), name), workspace_id)
    }
    fn select_environment(&mut self, workspace_id: WorkspaceId, environment_id: Option<EnvironmentId>) -> Result<RequestWorkspaceSnapshot, RequestError> {
        self.snapshot(format!("select_environment {}", environment_id.is_some()), workspace_id)
    }
    fn create_environment(&mut self, workspace_id: WorkspaceId, name: String) -> Result<RequestWorkspaceSnapshot, RequestError> {
        self.snapshot(format!("create_environment {name}"), workspace_id)
    }
    fn delete_environment(&mut self, workspace_id: WorkspaceId, _environment_id: EnvironmentId) -> Result<RequestWorkspaceSnapshot, RequestError> {
        self.snapshot("delete_environment".to_owned(), workspace_id)
    }
    fn resolve_request_content(&self, _workspace_id: WorkspaceId, content: &RequestContent) -> Result<ResolvedRequestContent, RequestError> {
        Ok(ResolvedRequestContent {
            url: ResolvedValue { value: content.url.clone(), contains_secret: false },
            body: ResolvedValue { value: String::new(), contains_secret: false },
            body_kind: ResolvedRequestBody::Empty,
            query: Vec::new(),
            headers: Vec::new(),
            unsafe_tls_visible: false,
            references: Vec::new(),
            errors: Vec::new(),
        })
    }
    fn rename_collection_folder(&mut self, workspace_id: WorkspaceId, _id: CollectionId, name: String) -> Result<RequestWorkspaceSnapshot, RequestError> {
        self.snapshot(format!("rename_collection_folder {name}"), workspace_id)
    }
    fn move_collection_folder(&mut self, workspace_id: WorkspaceId, _id: CollectionId, _location: CollectionLocation) -> Result<RequestWorkspaceSnapshot, RequestError> {
        self.snapshot("move_collection_folder".to_owned(), workspace_id)
    }
    fn duplicate_collection_folder(&mut self, workspace_id: WorkspaceId, _id: CollectionId) -> Result<RequestWorkspaceSnapshot, RequestError> {
        self.snapshot("duplicate_collection_folder".to_owned(), workspace_id)
    }
    fn delete_collection_folder(&mut self, workspace_id: WorkspaceId, _id: CollectionId) -> Result<RequestWorkspaceSnapshot, RequestError> {
        self.snapshot("delete_collection_folder".to_owned(), workspace_id)
    }
    fn move_saved_request(&mut self, workspace_id: WorkspaceId, _id: SavedRequestId, location: CollectionLocation) -> Result<RequestWorkspaceSnapshot, RequestError> {
        self.snapshot(format!("move_saved_request {:?} {}", location.collection_id.map(|id| id.value), location.position), workspace_id)
    }
    fn duplicate_saved_request(&mut self, workspace_id: WorkspaceId, _id: SavedRequestId) -> Result<RequestWorkspaceSnapshot, RequestError> {
        self.snapshot("duplicate_saved_request".to_owned(), workspace_id)
    }
    fn delete_saved_request(&mut self, workspace_id: WorkspaceId, _id: SavedRequestId) -> Result<RequestWorkspaceSnapshot, RequestError> {
        self.snapshot("delete_saved_request".to_owned(), workspace_id)
    }
    fn open_saved_request_tab(&mut self, workspace_id: WorkspaceId, _id: SavedRequestId) -> Result<RequestWorkspaceSnapshot, RequestError> {
        self.snapshot("open_saved_request_tab".to_owned(), workspace_id)
    }
    fn queue_draft_update(&mut self, _workspace_id: WorkspaceId, _draft_id: RequestDraftId, content: RequestContent) {
        self.calls.push(format!("queue_draft_update {}", content.name));
    }
    fn flush_pending_drafts(&mut self) -> Result<(), RequestError> {
        self.calls.push("flush_pending_drafts".to_owned());
        Err(RequestError::Persistence("disk full at /home/user/db".to_owned()))
    }
    fn save_draft(&mut self, workspace_id: WorkspaceId, _draft_id: RequestDraftId) -> Result<RequestWorkspaceSnapshot, RequestError> {
        self.snapshot("save_draft".to_owned(), workspace_id)
    }
    fn close_tab(&mut self, workspace_id: WorkspaceId, _tab_id: RequestTabId, decision: CloseTabDecision) -> Result<RequestWorkspaceSnapshot, RequestError> {
        self.snapshot(format!("close_tab {decision:?}"), workspace_id)
    }
    fn list_execution_history(&self, _workspace_id: WorkspaceId) -> Result<ExecutionHistorySnapshot, RequestError> {
        Err(RequestError::NotFound)
    }
    fn set_execution_history_disabled(&mut self, workspace_id: WorkspaceId, disabled: bool) -> Result<ExecutionHistorySnapshot, RequestError> {
        self.history(format!("set_execution_history_disabled {disabled}"), workspace_id)
    }
    fn set_execution_record_pinned(&mut self, workspace_id: WorkspaceId, _record_id: ExecutionRecordId, pinned: bool) -> Result<ExecutionHistorySnapshot, RequestError> {
        self.history(format!("set_execution_record_pinned {pinned}"), workspace_id)
    }
    fn open_execution_record_as_draft(&mut self, workspace_id: WorkspaceId, _record_id: ExecutionRecordId) -> Result<RequestWorkspaceSnapshot, RequestError> {
        self.snapshot("open_execution_record_as_draft".to_owned(), workspace_id)
    }
    fn list_cookies(&mut self, workspace_id: WorkspaceId) -> Result<CookieJarSnapshot, RequestError> {
        self.jar("list_cookies".to_owned(), workspace_id)
    }
    fn upsert_cookie(&mut self, draft: CookieDraft) -> Result<CookieJarSnapshot, RequestError> {
        self.jar(format!("upsert_cookie {} {:?}", draft.name, draft.id.map(|id| id.value)), draft.workspace_id)
    }
    fn delete_cookie(&mut self, workspace_id: WorkspaceId, _cookie_id: CookieId) -> Result<CookieJarSnapshot, RequestError> {
        self.jar("delete_cookie".to_owned(), workspace_id)
    }
    fn clear_cookies(&mut self, workspace_id: WorkspaceId) -> Result<CookieJarSnapshot, RequestError> {
        self.jar("clear_cookies".to_owned(), workspace_id)
    }
    fn reveal_cookie_value(&mut self, _workspace_id: WorkspaceId, _cookie_id: CookieId) -> Result<String, RequestError> {
        self.calls.push("reveal_cookie_value".to_owned());
        Ok("cookie-value".to_owned())
    }
    fn relink_body_files(&mut self, workspace_id: WorkspaceId, from_path: String, _replacement: BodyFileReference) -> Result<RequestWorkspaceSnapshot, RequestError> {
        self.snapshot(format!("relink_body_files {from_path}"), workspace_id)
    }
}

fn content_dto(name: &str) -> RequestContentDto {
    RequestContentDto {
        name: name.to_owned(),
        method: "GET".to_owned(),
        url: "https://example.test/items".to_owned(),
        body: RequestBodyDto::Empty,
        query: vec![
            OrderedFieldDto { enabled: true, order: 0, name: "tag".to_owned(), value: "a".to_owned() },
            OrderedFieldDto { enabled: true, order: 1, name: "tag".to_owned(), value: "b".to_owned() },
        ],
        headers: Vec::new(),
        auth: RequestAuthDto::NoAuth,
        redirect: RedirectPolicyDto { enabled: true, max_redirects: 10 },
        tls: TlsPolicyDto {
            verify: true,
            custom_ca_reference: None,
            client_certificate_reference: None,
            client_key_reference: None,
        },
        transport: TransportPolicyDto {
            proxy: ProxyPolicyDto { source: ProxySourceDto::ProcessEnvironment, url: None, no_proxy: Vec::new() },
            timeouts: TimeoutPolicyDto { connect_ms: 10000, overall_ms: 300000, idle_ms: 60000 },
        },
    }
}

#[test]
fn unreadable_workspace_id_is_refused_before_the_service_is_called() {
    let mut service = FakeRequestService::default();
    let error = handle_delete_collection_folder(
        &mut service,
        CollectionFolderIdInput { workspace_id: "nope".to_owned(), collection_id: "also-nope".to_owned() },
    )
    .expect_err("invalid workspace");
    assert_eq!(error.details.as_deref(), Some("workspaceId"));
    assert!(service.calls.is_empty());
}

#[test]
fn the_second_identifier_is_checked_after_the_workspace() {
    let mut service = FakeRequestService::default();
    let error = handle_delete_collection_folder(
        &mut service,
        CollectionFolderIdInput { workspace_id: WORKSPACE.to_owned(), collection_id: "folder".to_owned() },
    )
    .expect_err("invalid collection");
    assert_eq!(error.code, IpcErrorCode::InvalidInput);
    assert_eq!(error.details.as_deref(), Some("collectionId"));
    assert!(!error.retryable);
    assert!(service.calls.is_empty());
}

#[test]
fn a_move_target_is_read_after_the_request_id() {
    let mut service = FakeRequestService::default();
    let error = handle_move_saved_request(
        &mut service,
        MoveSavedRequestInput {
            workspace_id: WORKSPACE.to_owned(),
            saved_request_id: OTHER.to_owned(),
            location: CollectionLocationDto { collection_id: Some("x".to_owned()), position: 2 },
        },
    )
    .expect_err("invalid target");
    assert_eq!(error.details.as_deref(), Some("collectionId"));

    let moved = handle_move_saved_request(
        &mut service,
        MoveSavedRequestInput {
            workspace_id: WORKSPACE.to_owned(),
            saved_request_id: OTHER.to_owned(),
            location: CollectionLocationDto { collection_id: Some(OTHER.to_owned()), position: 2 },
        },
    )
    .expect("moved");
    assert_eq!(moved.workspace_id, WORKSPACE);
    assert_eq!(
        service.calls,
        vec![format!("move_saved_request Some({}) 2", 0x99990000_aaaa_bbbb_cccc_ddddeeeeffffu128)]
    );
}

#[test]
fn optional_identifiers_may_be_absent() {
    let mut service = FakeRequestService::default();
    handle_create_collection_folder(
        &mut service,
        CreateCollectionFolderInput {
            workspace_id: WORKSPACE.to_owned(),
            parent_collection_id: None,
            name: "Folder".to_owned(),
        },
    )
    .expect("created");
    handle_select_environment(
        &mut service,
        SelectEnvironmentInput { workspace_id: WORKSPACE.to_owned(), environment_id: None },
    )
    .expect("selected none");
    let error = handle_select_environment(
        &mut service,
        SelectEnvironmentInput {
            workspace_id: WORKSPACE.to_owned(),
            environment_id: Some("env".to_owned()),
        },
    )
    .expect_err("invalid environment");
    assert_eq!(error.details.as_deref(), Some("environmentId"));
    assert_eq!(service.calls, vec!["create_collection_folder None Folder", "select_environment false"]);
}

#[test]
fn request_failures_are_answered_with_their_ipc_error() {
    let service = FakeRequestService::default();
    let error = handle_list_request_workspace(&service, WorkspaceIdInput { workspace_id: WORKSPACE.to_owned() })
        .expect_err("missing workspace");
    assert_eq!(error.code, IpcErrorCode::WorkspaceNotFound);

    let mut service = FakeRequestService::default();
    let error = handle_flush_request_drafts(&mut service).expect_err("flush failed");
    assert_eq!(error.code, IpcErrorCode::PersistenceUnavailable);
    assert!(error.retryable);
    assert!(!error.message.contains("/home/user/db"));
    assert!(error.details.is_none());
}

#[test]
fn draft_updates_are_queued_and_answered_at_once() {
    let mut service = FakeRequestService::default();
    handle_update_request_draft(
        &mut service,
        UpdateRequestDraftInput {
            workspace_id: WORKSPACE.to_owned(),
            draft_id: OTHER.to_owned(),
            content: content_dto("Edited"),
        },
    )
    .expect("queued");
    assert_eq!(service.calls, vec!["queue_draft_update Edited"]);
    let error = handle_update_request_draft(
        &mut service,
        UpdateRequestDraftInput {
            workspace_id: WORKSPACE.to_owned(),
            draft_id: "draft".to_owned(),
            content: content_dto("Edited"),
        },
    )
    .expect_err("invalid draft");
    assert_eq!(error.details.as_deref(), Some("draftId"));
}

#[test]
fn closing_a_tab_passes_the_decision() {
    let mut service = FakeRequestService::default();
    handle_close_request_tab(
        &mut service,
        CloseRequestTabInput {
            workspace_id: WORKSPACE.to_owned(),
            tab_id: OTHER.to_owned(),
            decision: CloseTabDecisionDto::Discard,
        },
    )
    .expect("closed");
    assert_eq!(service.calls, vec!["close_tab Discard"]);
}

#[test]
fn cookie_listings_never_carry_the_value() {
    let mut service = FakeRequestService::default();
    let jar = handle_list_cookies(&mut service, WorkspaceIdInput { workspace_id: WORKSPACE.to_owned() })
        .expect("listed");
    assert_eq!(jar.cookies.len(), 1);
    assert_eq!(jar.cookies[0].value_preview, "[redacted]");
    assert_eq!(jar.cookies[0].name, "sid");
    assert!(jar.cookies[0].has_value);
}

#[test]
fn upserts_read_the_cookie_id_before_the_workspace_id() {
    let mut service = FakeRequestService::default();
    let input = |workspace_id: &str, cookie_id: Option<&str>| UpsertCookieInput {
        workspace_id: workspace_id.to_owned(),
        cookie_id: cookie_id.map(str::to_owned),
        name: "sid".to_owned(),
        value: "v".to_owned(),
        domain: "example.test".to_owned(),
        path: "/".to_owned(),
        secure: false,
        http_only: false,
        same_site: None,
        expires_at_epoch_seconds: None,
    };
    let error = handle_upsert_cookie(&mut service, input("bad", Some("bad"))).expect_err("bad ids");
    assert_eq!(error.details.as_deref(), Some("cookieId"));
    let error = handle_upsert_cookie(&mut service, input("bad", None)).expect_err("bad workspace");
    assert_eq!(error.details.as_deref(), Some("workspaceId"));
    assert!(service.calls.is_empty());
    handle_upsert_cookie(&mut service, input(WORKSPACE, None)).expect("stored");
    assert_eq!(service.calls, vec!["upsert_cookie sid None"]);
}

#[test]
fn revealing_a_cookie_answers_its_value() {
    let mut service = FakeRequestService::default();
    let revealed = handle_reveal_cookie_value(
        &mut service,
        CookieIdInput { workspace_id: WORKSPACE.to_owned(), cookie_id: OTHER.to_owned() },
    )
    .expect("revealed");
    assert_eq!(revealed.value, "cookie-value");
}

#[test]
fn resolving_content_hands_the_request_to_the_service() {
    let service = FakeRequestService::default();
    let mut input = postmite::dto::ResolveRequestContentInput {
        workspace_id: WORKSPACE.to_owned(),
        content: content_dto("Resolve"),
    };
    let resolved = handle_resolve_request_content(&service, input.clone()).expect("resolved");
    assert_eq!(resolved.url.value, "https://example.test/items");
    input.workspace_id = "x".to_owned();
    assert!(handle_resolve_request_content(&service, input).is_err());
}

#[test]
fn start_input_is_read_workspace_first() {
    let read = read_start_request_execution_input(StartRequestExecutionInput {
        workspace_id: WORKSPACE.to_owned(),
        draft_id: OTHER.to_owned(),
        content: content_dto("Run"),
    })
    .expect("readable");
    assert_eq!(read.0.to_text(), WORKSPACE);
    assert_eq!(read.1.to_text(), OTHER);
    assert_eq!(read.2.name, "Run");
    assert_eq!(read.2.query.len(), 2);
    assert_eq!(read.2.query[1].value, "b");
    let error = read_start_request_execution_input(StartRequestExecutionInput {
        workspace_id: "w".to_owned(),
        draft_id: "d".to_owned(),
        content: content_dto("Run"),
    })
    .expect_err("unreadable");
    assert_eq!(error.details.as_deref(), Some("workspaceId"));
}

#[test]
fn the_base_directory_is_that_of_the_listed_workspace() {
    let first = WorkspaceId { value: 1 };
    let second = WorkspaceId { value: 2 };
    let snapshot = WorkspaceSnapshot {
        selected_workspace_id: first,
        workspaces: vec![
            WorkspaceSummary { id: first, name: "A".to_owned(), is_selected: true, base_directory: None },
            WorkspaceSummary {
                id: second,
                name: "B".to_owned(),
                is_selected: false,
                base_directory: Some("/srv/api".to_owned()),
            },
        ],
    };
    assert_eq!(workspace_base_directory(snapshot.clone(), second), Some("/srv/api".to_owned()));
    assert_eq!(workspace_base_directory(snapshot.clone(), first), None);
    assert_eq!(workspace_base_directory(snapshot, WorkspaceId { value: 3 }), None);
}

struct FakeCoordinator;

impl ExecutionControl for FakeCoordinator {
    fn cancel(&self, execution_id: ExecutionId) -> Result<CancelExecutionResult, ExecutionError> {
        if execution_id.value == 1 {
            Err(ExecutionError::StateUnavailable)
        } else {
            Ok(CancelExecutionResult { execution_id, cancelled: true })
        }
    }
}

impl OAuthControl for FakeCoordinator {
    fn cancel(&self, flow_id: OAuthFlowId) -> Result<CancelOAuthAuthorizationResult, OAuthError> {
        Ok(CancelOAuthAuthorizationResult { flow_id, cancelled: false })
    }
}

#[test]
fn cancellations_read_their_identifiers() {
    let coordinator = FakeCoordinator;
    let cancelled = handle_cancel_request_execution(
        &coordinator,
        CancelRequestExecutionInput { execution_id: OTHER.to_owned() },
    )
    .expect("cancelled");
    assert_eq!(cancelled.execution_id, OTHER);
    assert!(cancelled.cancelled);
    let error = handle_cancel_request_execution(
        &coordinator,
        CancelRequestExecutionInput { execution_id: "run".to_owned() },
    )
    .expect_err("invalid");
    assert_eq!(error.details.as_deref(), Some("executionId"));
    let error = handle_cancel_request_execution(
        &coordinator,
        CancelRequestExecutionInput { execution_id: "00000000-0000-0000-0000-000000000001".to_owned() },
    )
    .expect_err("unavailable");
    assert_eq!(error.code, IpcErrorCode::StateUnavailable);

    let flow = handle_cancel_oauth_authorization(
        &coordinator,
        CancelOAuthAuthorizationInput { flow_id: WORKSPACE.to_owned() },
    )
    .expect("answered");
    assert_eq!(flow.flow_id, WORKSPACE);
    assert!(!flow.cancelled);
    let error = handle_cancel_oauth_authorization(
        &coordinator,
        CancelOAuthAuthorizationInput { flow_id: "flow".to_owned() },
    )
    .expect_err("invalid flow");
    assert_eq!(error.details.as_deref(), Some("flowId"));
}

#[test]
fn response_files_need_both_paths() {
    let input = |source: &str, destination: &str| SaveResponseFileInput {
        source_path: source.to_owned(),
        destination_path: destination.to_owned(),
    };
    assert!(validate_save_response_file_input(&input("/tmp/a", "/home/u/b")).is_ok());
    let error = validate_save_response_file_input(&input(" ", "/home/u/b")).expect_err("blank");
    assert_eq!(error.code, IpcErrorCode::InvalidInput);
    assert_eq!(error.message, "Response file path is invalid.");
    assert_eq!(error.details.as_deref(), Some("responseFile"));
    assert!(validate_save_response_file_input(&input("/tmp/a", "")).is_err());
}

#[test]
fn set_cookie_headers_are_redacted_for_the_frontend() {
    let dto = postmite::dto::ExecutionHeaderDto::from_domain(ExecutionHeader {
        name: "SET-Cookie".to_owned(),
        value: "sid=secret".to_owned(),
    });
    assert_eq!(dto.name, "SET-Cookie");
    assert_eq!(dto.value, "[redacted]");
    let dto = postmite::dto::ExecutionHeaderDto::from_domain(ExecutionHeader {
        name: "Content-Type".to_owned(),
        value: "text/plain".to_owned(),
    });
    assert_eq!(dto.value, "text/plain");
}

#[test]
fn ids_read_back_from_their_text() {
    let id = CollectionId { value: 0x0123_4567_89ab_cdef_0123_4567_89ab_cdef };
    let text = id.to_text();
    assert_eq!(text, "01234567-89ab-cdef-0123-456789abcdef");
    assert_eq!(CollectionId::parse(&text), Some(id));
    assert_eq!(CollectionId::parse("0123456789abcdef0123456789abcdef"), Some(id));
    assert_eq!(CollectionId::parse("not-a-uuid"), None);
}

#[test]
fn body_file_commands_need_a_readable_workspace_and_an_absolute_path() {
    let error = postmite::handlers::check_body_file_input("ws", false).expect_err("invalid id");
    assert_eq!(error.details.as_deref(), Some("workspaceId"));
    let error = postmite::handlers::check_body_file_input(WORKSPACE, false).expect_err("relative");
    assert_eq!(error.code, IpcErrorCode::InvalidInput);
    assert_eq!(error.details.as_deref(), Some("body.file.path.absoluteRequired"));
    let id = postmite::handlers::check_body_file_input(WORKSPACE, true).expect("accepted");
    assert_eq!(id.to_text(), WORKSPACE);
}
