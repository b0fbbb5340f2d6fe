//! The IPC command handlers: each reads the identifiers of its input, answers
//! an unreadable one with its `InvalidInput` error before anything is called,
//! and otherwise hands the call to the service and maps what comes back.
use vstd::prelude::*;
use crate::conversions::{
    close_tab_decision_of, collection_location_of, cookie_draft_of,
    cookie_jar_snapshot_dto_of, execution_history_snapshot_dto_of, parse_collection_id,
    parse_cookie_id, parse_optional_collection_id, parse_outcome, parse_workspace_id,
    parsed_optional_collection_id,
    request_content_dto_of, request_workspace_snapshot_dto_of, resolved_request_content_dto_of,
    upsert_cookie_input_error, workspace_snapshot_dto_of,
};
use crate::domain::{
    BodyFileReference, CloseTabDecision, CollectionLocation, CookieDraft, CookieJarSnapshot,
    ExecutionHistorySnapshot, RequestContent, RequestWorkspaceSnapshot, ResolvedRequestContent,
    WorkspaceSnapshot, WorkspaceSummary,
};
use crate::dto::{
    CloseRequestTabInput, CollectionFolderIdInput, CookieIdInput, CookieJarSnapshotDto,
    CreateCollectionFolderInput, CreateEnvironmentInput, CreateSavedRequestInput,
    CreateWorkspaceInput, EnvironmentIdInput, ExecutionHistorySnapshotDto,
    ExecutionRecordIdInput, MoveCollectionFolderInput, MoveSavedRequestInput,
    OpenSavedRequestTabInput, RenameCollectionFolderInput, RenameWorkspaceInput,
    RequestDraftIdInput, RequestWorkspaceSnapshotDto, ResolveRequestContentInput,
    ResolvedRequestContentDto, RevealCookieValueOutput, SavedRequestIdInput,
    SelectEnvironmentInput, SetExecutionHistoryDisabledInput, SetExecutionRecordPinnedInput,
    SetWorkspaceBaseDirectoryInput, StartRequestExecutionInput, UpdateRequestDraftInput, UpsertCookieInput,
    WorkspaceIdInput, WorkspaceSnapshotDto,
};
use crate::errors::{
    error_view, IpcErrorCode, boundary_error_view, request_error_view, workspace_error_view, BoundaryError, IpcError,
    RequestError, WorkspaceError,
};
use crate::ids::{
    CollectionId, CookieId, EnvironmentId, ExecutionRecordId, RequestDraftId, RequestTabId,
    SavedRequestId, WorkspaceId,
};

verus! {

/// The workspace service the workspace commands delegate to.
///
/// It is implemented by the application layer around a workspace repository;
/// nothing is assumed of what it answers.
pub trait WorkspaceService {
    fn list_workspaces(&self) -> Result<WorkspaceSnapshot, WorkspaceError>;

    fn create_workspace(&mut self, name: String) -> Result<WorkspaceSnapshot, WorkspaceError>;

    fn rename_workspace(&mut self, id: WorkspaceId, name: String) -> Result<
        WorkspaceSnapshot,
        WorkspaceError,
    >;

    fn set_workspace_base_directory(
        &mut self,
        id: WorkspaceId,
        base_directory: Option<String>,
    ) -> Result<WorkspaceSnapshot, WorkspaceError>;

    fn switch_workspace(&mut self, id: WorkspaceId) -> Result<WorkspaceSnapshot, WorkspaceError>;

    fn delete_workspace(&mut self, id: WorkspaceId) -> Result<WorkspaceSnapshot, WorkspaceError>;
}

/// The request service the request commands delegate to.
///
/// It is implemented by the application layer around the request repository;
/// nothing is assumed of what it answers.
pub trait RequestService {
    fn list_request_workspace(&self, workspace_id: WorkspaceId) -> Result<
        RequestWorkspaceSnapshot,
        RequestError,
    >;

    fn open_unsaved_tab(&mut self, workspace_id: WorkspaceId) -> Result<
        RequestWorkspaceSnapshot,
        RequestError,
    >;

    fn create_saved_request(&mut self, workspace_id: WorkspaceId, content: RequestContent) -> Result<
        RequestWorkspaceSnapshot,
        RequestError,
    >;

    fn create_collection_folder(
        &mut self,
        workspace_id: WorkspaceId,
        parent_collection_id: Option<CollectionId>,
        name: String,
    ) -> Result<RequestWorkspaceSnapshot, RequestError>;

    fn select_environment(
        &mut self,
        workspace_id: WorkspaceId,
        environment_id: Option<EnvironmentId>,
    ) -> Result<RequestWorkspaceSnapshot, RequestError>;

    fn create_environment(&mut self, workspace_id: WorkspaceId, name: String) -> Result<
        RequestWorkspaceSnapshot,
        RequestError,
    >;

    fn delete_environment(&mut self, workspace_id: WorkspaceId, environment_id: EnvironmentId) -> Result<
        RequestWorkspaceSnapshot,
        RequestError,
    >;

    fn resolve_request_content(&self, workspace_id: WorkspaceId, content: &RequestContent) -> Result<
        ResolvedRequestContent,
        RequestError,
    >;

    fn rename_collection_folder(
        &mut self,
        workspace_id: WorkspaceId,
        collection_id: CollectionId,
        name: String,
    ) -> Result<RequestWorkspaceSnapshot, RequestError>;

    fn move_collection_folder(
        &mut self,
        workspace_id: WorkspaceId,
        collection_id: CollectionId,
        location: CollectionLocation,
    ) -> Result<RequestWorkspaceSnapshot, RequestError>;

    fn duplicate_collection_folder(&mut self, workspace_id: WorkspaceId, collection_id: CollectionId) -> Result<
        RequestWorkspaceSnapshot,
        RequestError,
    >;

    fn delete_collection_folder(&mut self, workspace_id: WorkspaceId, collection_id: CollectionId) -> Result<
        RequestWorkspaceSnapshot,
        RequestError,
    >;

    fn move_saved_request(
        &mut self,
        workspace_id: WorkspaceId,
        saved_request_id: SavedRequestId,
        location: CollectionLocation,
    ) -> Result<RequestWorkspaceSnapshot, RequestError>;

    fn duplicate_saved_request(&mut self, workspace_id: WorkspaceId, saved_request_id: SavedRequestId) -> Result<
        RequestWorkspaceSnapshot,
        RequestError,
    >;

    fn delete_saved_request(&mut self, workspace_id: WorkspaceId, saved_request_id: SavedRequestId) -> Result<
        RequestWorkspaceSnapshot,
        RequestError,
    >;

    fn open_saved_request_tab(&mut self, workspace_id: WorkspaceId, saved_request_id: SavedRequestId) -> Result<
        RequestWorkspaceSnapshot,
        RequestError,
    >;

    fn queue_draft_update(
        &mut self,
        workspace_id: WorkspaceId,
        draft_id: RequestDraftId,
        content: RequestContent,
    );

    fn flush_pending_drafts(&mut self) -> Result<(), RequestError>;

    fn save_draft(&mut self, workspace_id: WorkspaceId, draft_id: RequestDraftId) -> Result<
        RequestWorkspaceSnapshot,
        RequestError,
    >;

    fn close_tab(
        &mut self,
        workspace_id: WorkspaceId,
        tab_id: RequestTabId,
        decision: CloseTabDecision,
    ) -> Result<RequestWorkspaceSnapshot, RequestError>;

    fn list_execution_history(&self, workspace_id: WorkspaceId) -> Result<
        ExecutionHistorySnapshot,
        RequestError,
    >;

    fn set_execution_history_disabled(&mut self, workspace_id: WorkspaceId, disabled: bool) -> Result<
        ExecutionHistorySnapshot,
        RequestError,
    >;

    fn set_execution_record_pinned(
        &mut self,
        workspace_id: WorkspaceId,
        record_id: ExecutionRecordId,
        pinned: bool,
    ) -> Result<ExecutionHistorySnapshot, RequestError>;

    fn open_execution_record_as_draft(
        &mut self,
        workspace_id: WorkspaceId,
        record_id: ExecutionRecordId,
    ) -> Result<RequestWorkspaceSnapshot, RequestError>;

    fn list_cookies(&mut self, workspace_id: WorkspaceId) -> Result<CookieJarSnapshot, RequestError>;

    fn upsert_cookie(&mut self, draft: CookieDraft) -> Result<CookieJarSnapshot, RequestError>;

    fn delete_cookie(&mut self, workspace_id: WorkspaceId, cookie_id: CookieId) -> Result<
        CookieJarSnapshot,
        RequestError,
    >;

    fn clear_cookies(&mut self, workspace_id: WorkspaceId) -> Result<CookieJarSnapshot, RequestError>;

    fn reveal_cookie_value(&mut self, workspace_id: WorkspaceId, cookie_id: CookieId) -> Result<
        String,
        RequestError,
    >;

    fn relink_body_files(
        &mut self,
        workspace_id: WorkspaceId,
        from_path: String,
        replacement: BodyFileReference,
    ) -> Result<RequestWorkspaceSnapshot, RequestError>;
}

/// `result` failed with the error of the boundary failure `invalid`.
pub open spec fn rejected<T>(result: Result<T, IpcError>, invalid: BoundaryError) -> bool {
    result matches Err(error) && error@ == boundary_error_view(invalid)
}

// ----- what comes back from the services -----

/// `result` is the IPC answer to the workspace service's `outcome`.
pub open spec fn workspace_response_of(
    result: Result<WorkspaceSnapshotDto, IpcError>,
    outcome: Result<WorkspaceSnapshot, WorkspaceError>,
) -> bool {
    match (result, outcome) {
        (Ok(dto), Ok(snapshot)) => workspace_snapshot_dto_of(dto, snapshot),
        (Err(error), Err(failure)) => error@ == workspace_error_view(failure),
        _ => false,
    }
}

/// The IPC answer to what the workspace service returned.
pub fn workspace_response(outcome: Result<WorkspaceSnapshot, WorkspaceError>) -> (result: Result<
    WorkspaceSnapshotDto,
    IpcError,
>)
    ensures
        workspace_response_of(result, outcome),
{
    match outcome {
        Ok(snapshot) => Ok(WorkspaceSnapshotDto::from_domain(snapshot)),
        Err(failure) => Err(IpcError::from_boundary_error(BoundaryError::Workspace(failure))),
    }
}

/// `result` is the IPC answer to the request service's snapshot `outcome`.
pub open spec fn request_snapshot_response_of(
    result: Result<RequestWorkspaceSnapshotDto, IpcError>,
    outcome: Result<RequestWorkspaceSnapshot, RequestError>,
) -> bool {
    match (result, outcome) {
        (Ok(dto), Ok(snapshot)) => request_workspace_snapshot_dto_of(dto, snapshot),
        (Err(error), Err(failure)) => error@ == request_error_view(failure),
        _ => false,
    }
}

/// The IPC answer to a request workspace snapshot the request service returned.
pub fn request_snapshot_response(outcome: Result<RequestWorkspaceSnapshot, RequestError>) -> (result:
    Result<RequestWorkspaceSnapshotDto, IpcError>)
    ensures
        request_snapshot_response_of(result, outcome),
{
    match outcome {
        Ok(snapshot) => Ok(RequestWorkspaceSnapshotDto::from_domain(snapshot)),
        Err(failure) => Err(IpcError::from_boundary_error(BoundaryError::Request(failure))),
    }
}

/// `result` is the IPC answer to the request service's history `outcome`.
pub open spec fn history_response_of(
    result: Result<ExecutionHistorySnapshotDto, IpcError>,
    outcome: Result<ExecutionHistorySnapshot, RequestError>,
) -> bool {
    match (result, outcome) {
        (Ok(dto), Ok(snapshot)) => execution_history_snapshot_dto_of(dto, snapshot),
        (Err(error), Err(failure)) => error@ == request_error_view(failure),
        _ => false,
    }
}

/// The IPC answer to an execution history the request service returned.
pub fn history_response(outcome: Result<ExecutionHistorySnapshot, RequestError>) -> (result: Result<
    ExecutionHistorySnapshotDto,
    IpcError,
>)
    ensures
        history_response_of(result, outcome),
{
    match outcome {
        Ok(snapshot) => Ok(ExecutionHistorySnapshotDto::from_domain(snapshot)),
        Err(failure) => Err(IpcError::from_boundary_error(BoundaryError::Request(failure))),
    }
}

/// `result` is the IPC answer to the request service's cookie jar `outcome`.
pub open spec fn cookie_jar_response_of(
    result: Result<CookieJarSnapshotDto, IpcError>,
    outcome: Result<CookieJarSnapshot, RequestError>,
) -> bool {
    match (result, outcome) {
        (Ok(dto), Ok(snapshot)) => cookie_jar_snapshot_dto_of(dto, snapshot),
        (Err(error), Err(failure)) => error@ == request_error_view(failure),
        _ => false,
    }
}

/// The IPC answer to a cookie jar the request service returned.
pub fn cookie_jar_response(outcome: Result<CookieJarSnapshot, RequestError>) -> (result: Result<
    CookieJarSnapshotDto,
    IpcError,
>)
    ensures
        cookie_jar_response_of(result, outcome),
{
    match outcome {
        Ok(snapshot) => Ok(CookieJarSnapshotDto::from_domain(snapshot)),
        Err(failure) => Err(IpcError::from_boundary_error(BoundaryError::Request(failure))),
    }
}

/// `result` is the IPC answer to the request service's resolution `outcome`.
pub open spec fn resolved_response_of(
    result: Result<ResolvedRequestContentDto, IpcError>,
    outcome: Result<ResolvedRequestContent, RequestError>,
) -> bool {
    match (result, outcome) {
        (Ok(dto), Ok(content)) => resolved_request_content_dto_of(dto, content),
        (Err(error), Err(failure)) => error@ == request_error_view(failure),
        _ => false,
    }
}

/// The IPC answer to resolved content the request service returned.
pub fn resolved_response(outcome: Result<ResolvedRequestContent, RequestError>) -> (result: Result<
    ResolvedRequestContentDto,
    IpcError,
>)
    ensures
        resolved_response_of(result, outcome),
{
    match outcome {
        Ok(content) => Ok(ResolvedRequestContentDto::from_domain(content)),
        Err(failure) => Err(IpcError::from_boundary_error(BoundaryError::Request(failure))),
    }
}

/// `result` is the IPC answer to the request service's `outcome` of a call that returns nothing.
pub open spec fn unit_response_of(result: Result<(), IpcError>, outcome: Result<(), RequestError>) -> bool {
    match (result, outcome) {
        (Ok(_), Ok(_)) => true,
        (Err(error), Err(failure)) => error@ == request_error_view(failure),
        _ => false,
    }
}

/// `result` is the IPC answer to the revealed cookie value `outcome`.
pub open spec fn reveal_response_of(
    result: Result<RevealCookieValueOutput, IpcError>,
    outcome: Result<String, RequestError>,
) -> bool {
    match (result, outcome) {
        (Ok(dto), Ok(value)) => dto.value == value,
        (Err(error), Err(failure)) => error@ == request_error_view(failure),
        _ => false,
    }
}

// ----- identifiers -----

/// Reads an optional environment id: absent stays absent.
pub open spec fn parsed_optional_environment_id(value: Option<Seq<char>>) -> Option<Option<EnvironmentId>> {
    match value {
        None => Some(None),
        Some(text) => match EnvironmentId::parsed(text) {
            Some(id) => Some(Some(id)),
            None => None,
        },
    }
}

/// Reads an environment id, or answers that it is invalid.
pub fn parse_environment_id(value: &str) -> (outcome: Result<EnvironmentId, IpcError>)
    ensures
        parse_outcome(outcome, EnvironmentId::parsed(value@), BoundaryError::InvalidEnvironmentId),
{
    match EnvironmentId::parse(value) {
        Some(id) => Ok(id),
        None => Err(IpcError::from_boundary_error(BoundaryError::InvalidEnvironmentId)),
    }
}

/// Reads an optional environment id, or answers that it is invalid.
pub fn parse_optional_environment_id(value: Option<String>) -> (outcome: Result<
    Option<EnvironmentId>,
    IpcError,
>)
    ensures
        parse_outcome(
            outcome,
            parsed_optional_environment_id(value.deep_view()),
            BoundaryError::InvalidEnvironmentId,
        ),
{
    match value {
        None => Ok(None),
        Some(text) => match parse_environment_id(&text) {
            Ok(id) => Ok(Some(id)),
            Err(error) => Err(error),
        },
    }
}

/// Reads a saved request id, or answers that it is invalid.
pub fn parse_saved_request_id(value: &str) -> (outcome: Result<SavedRequestId, IpcError>)
    ensures
        parse_outcome(outcome, SavedRequestId::parsed(value@), BoundaryError::InvalidSavedRequestId),
{
    match SavedRequestId::parse(value) {
        Some(id) => Ok(id),
        None => Err(IpcError::from_boundary_error(BoundaryError::InvalidSavedRequestId)),
    }
}

/// Reads a request draft id, or answers that it is invalid.
pub fn parse_request_draft_id(value: &str) -> (outcome: Result<RequestDraftId, IpcError>)
    ensures
        parse_outcome(outcome, RequestDraftId::parsed(value@), BoundaryError::InvalidRequestDraftId),
{
    match RequestDraftId::parse(value) {
        Some(id) => Ok(id),
        None => Err(IpcError::from_boundary_error(BoundaryError::InvalidRequestDraftId)),
    }
}

/// Reads a request tab id, or answers that it is invalid.
pub fn parse_request_tab_id(value: &str) -> (outcome: Result<RequestTabId, IpcError>)
    ensures
        parse_outcome(outcome, RequestTabId::parsed(value@), BoundaryError::InvalidRequestTabId),
{
    match RequestTabId::parse(value) {
        Some(id) => Ok(id),
        None => Err(IpcError::from_boundary_error(BoundaryError::InvalidRequestTabId)),
    }
}

/// Reads an execution record id, or answers that it is invalid.
pub fn parse_execution_record_id(value: &str) -> (outcome: Result<ExecutionRecordId, IpcError>)
    ensures
        parse_outcome(
            outcome,
            ExecutionRecordId::parsed(value@),
            BoundaryError::InvalidExecutionRecordId,
        ),
{
    match ExecutionRecordId::parse(value) {
        Some(id) => Ok(id),
        None => Err(IpcError::from_boundary_error(BoundaryError::InvalidExecutionRecordId)),
    }
}

// ----- what a handler promises once its identifiers were read -----

/// `result` answers some outcome of the workspace service.
pub open spec fn answers_workspace(result: Result<WorkspaceSnapshotDto, IpcError>) -> bool {
    exists|outcome: Result<WorkspaceSnapshot, WorkspaceError>| #[trigger] workspace_response_of(result, outcome)
}

/// `result` answers some request workspace snapshot outcome of the request service.
pub open spec fn answers_request_snapshot(result: Result<RequestWorkspaceSnapshotDto, IpcError>) -> bool {
    exists|outcome: Result<RequestWorkspaceSnapshot, RequestError>| #[trigger] request_snapshot_response_of(result, outcome)
}

/// `result` answers some execution history outcome of the request service.
pub open spec fn answers_history(result: Result<ExecutionHistorySnapshotDto, IpcError>) -> bool {
    exists|outcome: Result<ExecutionHistorySnapshot, RequestError>| #[trigger] history_response_of(result, outcome)
}

/// `result` answers some cookie jar outcome of the request service.
pub open spec fn answers_cookie_jar(result: Result<CookieJarSnapshotDto, IpcError>) -> bool {
    exists|outcome: Result<CookieJarSnapshot, RequestError>| #[trigger] cookie_jar_response_of(result, outcome)
}

/// `result` answers some resolution outcome of the request service.
pub open spec fn answers_resolved(result: Result<ResolvedRequestContentDto, IpcError>) -> bool {
    exists|outcome: Result<ResolvedRequestContent, RequestError>| #[trigger] resolved_response_of(result, outcome)
}

// ----- what the handlers hand to the services -----

/// The name a new workspace is created with: the input's, as it is.
pub fn create_workspace_arguments(input: CreateWorkspaceInput) -> (name: String)
    ensures
        name == input.name,
{
    input.name
}

/// The workspace and new name of a rename; an unreadable workspace id is refused.
pub fn rename_workspace_arguments(input: RenameWorkspaceInput) -> (arguments: Result<(WorkspaceId, String), IpcError>)
    ensures
        WorkspaceId::parsed(input.workspace_id@) is None ==> rejected(arguments, BoundaryError::InvalidWorkspaceId),
        WorkspaceId::parsed(input.workspace_id@) is Some ==> (arguments matches Ok((id, name))
            && WorkspaceId::parsed(input.workspace_id@) == Some(id) && name == input.name),
{
    let id = match parse_workspace_id(&input.workspace_id) {
        Ok(id) => id,
        Err(error) => {
            return Err(error);
        },
    };
    Ok((id, input.name))
}

/// The workspace and base directory to set; an unreadable workspace id is refused.
pub fn set_workspace_base_directory_arguments(input: SetWorkspaceBaseDirectoryInput) -> (arguments: Result<
    (WorkspaceId, Option<String>),
    IpcError,
>)
    ensures
        WorkspaceId::parsed(input.workspace_id@) is None ==> rejected(arguments, BoundaryError::InvalidWorkspaceId),
        WorkspaceId::parsed(input.workspace_id@) is Some ==> (arguments matches Ok((id, base_directory))
            && WorkspaceId::parsed(input.workspace_id@) == Some(id) && base_directory
            == input.base_directory),
{
    let id = match parse_workspace_id(&input.workspace_id) {
        Ok(id) => id,
        Err(error) => {
            return Err(error);
        },
    };
    Ok((id, input.base_directory))
}

/// The workspace, parent and name of a new folder; unreadable ids are refused, the
/// workspace id first.
pub fn create_collection_folder_arguments(input: CreateCollectionFolderInput) -> (arguments: Result<
    (WorkspaceId, Option<CollectionId>, String),
    IpcError,
>)
    ensures
        WorkspaceId::parsed(input.workspace_id@) is None ==> rejected(arguments, BoundaryError::InvalidWorkspaceId),
        WorkspaceId::parsed(input.workspace_id@) is Some && parsed_optional_collection_id(
            input.parent_collection_id.deep_view(),
        ) is None ==> rejected(arguments, BoundaryError::InvalidCollectionId),
        WorkspaceId::parsed(input.workspace_id@) is Some && parsed_optional_collection_id(
            input.parent_collection_id.deep_view(),
        ) is Some ==> (arguments matches Ok((id, parent, name)) && WorkspaceId::parsed(
            input.workspace_id@,
        ) == Some(id) && parsed_optional_collection_id(input.parent_collection_id.deep_view())
            == Some(parent) && name == input.name),
{
    let workspace_id = match parse_workspace_id(&input.workspace_id) {
        Ok(id) => id,
        Err(error) => {
            return Err(error);
        },
    };
    let parent_collection_id = match parse_optional_collection_id(input.parent_collection_id) {
        Ok(id) => id,
        Err(error) => {
            return Err(error);
        },
    };
    Ok((workspace_id, parent_collection_id, input.name))
}

/// The workspace and name of a new environment; an unreadable workspace id is refused.
pub fn create_environment_arguments(input: CreateEnvironmentInput) -> (arguments: Result<
    (WorkspaceId, String),
    IpcError,
>)
    ensures
        WorkspaceId::parsed(input.workspace_id@) is None ==> rejected(arguments, BoundaryError::InvalidWorkspaceId),
        WorkspaceId::parsed(input.workspace_id@) is Some ==> (arguments matches Ok((id, name))
            && WorkspaceId::parsed(input.workspace_id@) == Some(id) && name == input.name),
{
    let id = match parse_workspace_id(&input.workspace_id) {
        Ok(id) => id,
        Err(error) => {
            return Err(error);
        },
    };
    Ok((id, input.name))
}

/// The workspace, folder and new name of a folder rename; unreadable ids are refused, the
/// workspace id first.
pub fn rename_collection_folder_arguments(input: RenameCollectionFolderInput) -> (arguments: Result<
    (WorkspaceId, CollectionId, String),
    IpcError,
>)
    ensures
        WorkspaceId::parsed(input.workspace_id@) is None ==> rejected(arguments, BoundaryError::InvalidWorkspaceId),
        WorkspaceId::parsed(input.workspace_id@) is Some && CollectionId::parsed(input.collection_id@) is None
            ==> rejected(arguments, BoundaryError::InvalidCollectionId),
        WorkspaceId::parsed(input.workspace_id@) is Some && CollectionId::parsed(input.collection_id@) is Some
            ==> (arguments matches Ok((id, collection_id, name)) && WorkspaceId::parsed(
            input.workspace_id@,
        ) == Some(id) && CollectionId::parsed(input.collection_id@) == Some(collection_id) && name
            == input.name),
{
    let workspace_id = match parse_workspace_id(&input.workspace_id) {
        Ok(id) => id,
        Err(error) => {
            return Err(error);
        },
    };
    let collection_id = match parse_collection_id(&input.collection_id) {
        Ok(id) => id,
        Err(error) => {
            return Err(error);
        },
    };
    Ok((workspace_id, collection_id, input.name))
}

/// The workspace and the flag of a history switch; an unreadable workspace id is refused.
pub fn set_execution_history_disabled_arguments(input: SetExecutionHistoryDisabledInput) -> (arguments:
    Result<(WorkspaceId, bool), IpcError>)
    ensures
        WorkspaceId::parsed(input.workspace_id@) is None ==> rejected(arguments, BoundaryError::InvalidWorkspaceId),
        WorkspaceId::parsed(input.workspace_id@) is Some ==> (arguments matches Ok((id, disabled))
            && WorkspaceId::parsed(input.workspace_id@) == Some(id) && disabled == input.disabled),
{
    let id = match parse_workspace_id(&input.workspace_id) {
        Ok(id) => id,
        Err(error) => {
            return Err(error);
        },
    };
    Ok((id, input.disabled))
}

/// The workspace, record and flag of a pin; unreadable ids are refused, the workspace id
/// first.
pub fn set_execution_record_pinned_arguments(input: SetExecutionRecordPinnedInput) -> (arguments: Result<
    (WorkspaceId, ExecutionRecordId, bool),
    IpcError,
>)
    ensures
        WorkspaceId::parsed(input.workspace_id@) is None ==> rejected(arguments, BoundaryError::InvalidWorkspaceId),
        WorkspaceId::parsed(input.workspace_id@) is Some && ExecutionRecordId::parsed(input.record_id@) is None
            ==> rejected(arguments, BoundaryError::InvalidExecutionRecordId),
        WorkspaceId::parsed(input.workspace_id@) is Some && ExecutionRecordId::parsed(input.record_id@) is Some
            ==> (arguments matches Ok((id, record_id, pinned)) && WorkspaceId::parsed(
            input.workspace_id@,
        ) == Some(id) && ExecutionRecordId::parsed(input.record_id@) == Some(record_id) && pinned
            == input.pinned),
{
    let workspace_id = match parse_workspace_id(&input.workspace_id) {
        Ok(id) => id,
        Err(error) => {
            return Err(error);
        },
    };
    let record_id = match parse_execution_record_id(&input.record_id) {
        Ok(id) => id,
        Err(error) => {
            return Err(error);
        },
    };
    Ok((workspace_id, record_id, input.pinned))
}

// ----- workspace commands -----

/// Lists the workspaces.
pub fn handle_list_workspaces<S: WorkspaceService>(service: &S) -> (result: Result<
    WorkspaceSnapshotDto,
    IpcError,
>)
    ensures
        answers_workspace(result),
{
    let outcome = service.list_workspaces();
    let result = workspace_response(outcome);
    assert(workspace_response_of(result, outcome));
    result
}

/// Creates a workspace with the given name.
pub fn handle_create_workspace<S: WorkspaceService>(service: &mut S, input: CreateWorkspaceInput) -> (result:
    Result<WorkspaceSnapshotDto, IpcError>)
    ensures
        answers_workspace(result),
{
    let outcome = service.create_workspace(create_workspace_arguments(input));
    let result = workspace_response(outcome);
    assert(workspace_response_of(result, outcome));
    result
}

/// Renames a workspace; an unreadable workspace id is refused before the service is called.
pub fn handle_rename_workspace<S: WorkspaceService>(service: &mut S, input: RenameWorkspaceInput) -> (result:
    Result<WorkspaceSnapshotDto, IpcError>)
    ensures
        WorkspaceId::parsed(input.workspace_id@) is None ==> rejected(result, BoundaryError::InvalidWorkspaceId)
            && *final(service) == *old(service),
        WorkspaceId::parsed(input.workspace_id@) is Some ==> answers_workspace(result),
{
    let (id, name) = match rename_workspace_arguments(input) {
        Ok(arguments) => arguments,
        Err(error) => {
            return Err(error);
        },
    };
    let outcome = service.rename_workspace(id, name);
    let result = workspace_response(outcome);
    assert(workspace_response_of(result, outcome));
    result
}

/// Sets or clears a workspace's base directory; an unreadable workspace id is refused first.
pub fn handle_set_workspace_base_directory<S: WorkspaceService>(
    service: &mut S,
    input: SetWorkspaceBaseDirectoryInput,
) -> (result: Result<WorkspaceSnapshotDto, IpcError>)
    ensures
        WorkspaceId::parsed(input.workspace_id@) is None ==> rejected(result, BoundaryError::InvalidWorkspaceId)
            && *final(service) == *old(service),
        WorkspaceId::parsed(input.workspace_id@) is Some ==> answers_workspace(result),
{
    let (id, base_directory) = match set_workspace_base_directory_arguments(input) {
        Ok(arguments) => arguments,
        Err(error) => {
            return Err(error);
        },
    };
    let outcome = service.set_workspace_base_directory(id, base_directory);
    let result = workspace_response(outcome);
    assert(workspace_response_of(result, outcome));
    result
}

/// Switches to a workspace; an unreadable workspace id is refused first.
pub fn handle_switch_workspace<S: WorkspaceService>(service: &mut S, input: WorkspaceIdInput) -> (result:
    Result<WorkspaceSnapshotDto, IpcError>)
    ensures
        WorkspaceId::parsed(input.workspace_id@) is None ==> rejected(result, BoundaryError::InvalidWorkspaceId)
            && *final(service) == *old(service),
        WorkspaceId::parsed(input.workspace_id@) is Some ==> answers_workspace(result),
{
    let id = match parse_workspace_id(&input.workspace_id) {
        Ok(id) => id,
        Err(error) => {
            return Err(error);
        },
    };
    let outcome = service.switch_workspace(id);
    let result = workspace_response(outcome);
    assert(workspace_response_of(result, outcome));
    result
}

/// Deletes a workspace; an unreadable workspace id is refused first.
pub fn handle_delete_workspace<S: WorkspaceService>(service: &mut S, input: WorkspaceIdInput) -> (result:
    Result<WorkspaceSnapshotDto, IpcError>)
    ensures
        WorkspaceId::parsed(input.workspace_id@) is None ==> rejected(result, BoundaryError::InvalidWorkspaceId)
            && *final(service) == *old(service),
        WorkspaceId::parsed(input.workspace_id@) is Some ==> answers_workspace(result),
{
    let id = match parse_workspace_id(&input.workspace_id) {
        Ok(id) => id,
        Err(error) => {
            return Err(error);
        },
    };
    let outcome = service.delete_workspace(id);
    let result = workspace_response(outcome);
    assert(workspace_response_of(result, outcome));
    result
}

// ----- request commands -----

/// Lists the request workspace of a workspace; an unreadable workspace id is refused.
pub fn handle_list_request_workspace<S: RequestService>(service: &S, input: WorkspaceIdInput) -> (result: Result<RequestWorkspaceSnapshotDto, IpcError>)
    ensures
        WorkspaceId::parsed(input.workspace_id@) is None ==> rejected(result, BoundaryError::InvalidWorkspaceId),
        WorkspaceId::parsed(input.workspace_id@) is Some ==> answers_request_snapshot(result),
{
    let workspace_id = match parse_workspace_id(&input.workspace_id) {
        Ok(id) => id,
        Err(error) => {
            return Err(error);
        },
    };
    let outcome = service.list_request_workspace(workspace_id);
    let result = request_snapshot_response(outcome);
    assert(request_snapshot_response_of(result, outcome));
    result
}

/// Opens an unsaved request tab; an unreadable workspace id is refused first.
pub fn handle_open_unsaved_request_tab<S: RequestService>(service: &mut S, input: WorkspaceIdInput) -> (result: Result<RequestWorkspaceSnapshotDto, IpcError>)
    ensures
        WorkspaceId::parsed(input.workspace_id@) is None ==> rejected(result, BoundaryError::InvalidWorkspaceId)
            && *final(service) == *old(service),
        WorkspaceId::parsed(input.workspace_id@) is Some ==> answers_request_snapshot(result),
{
    let workspace_id = match parse_workspace_id(&input.workspace_id) {
        Ok(id) => id,
        Err(error) => {
            return Err(error);
        },
    };
    let outcome = service.open_unsaved_tab(workspace_id);
    let result = request_snapshot_response(outcome);
    assert(request_snapshot_response_of(result, outcome));
    result
}

/// Saves new request content; an unreadable workspace id is refused first.
pub fn handle_create_saved_request<S: RequestService>(service: &mut S, input: CreateSavedRequestInput) -> (result: Result<RequestWorkspaceSnapshotDto, IpcError>)
    ensures
        WorkspaceId::parsed(input.workspace_id@) is None ==> rejected(result, BoundaryError::InvalidWorkspaceId)
            && *final(service) == *old(service),
        WorkspaceId::parsed(input.workspace_id@) is Some ==> answers_request_snapshot(result),
{
    let workspace_id = match parse_workspace_id(&input.workspace_id) {
        Ok(id) => id,
        Err(error) => {
            return Err(error);
        },
    };
    let content = RequestContent::from_dto(input.content);
    let outcome = service.create_saved_request(workspace_id, content);
    let result = request_snapshot_response(outcome);
    assert(request_snapshot_response_of(result, outcome));
    result
}

/// Creates a collection folder; unreadable workspace or parent ids are refused first, in that order.
pub fn handle_create_collection_folder<S: RequestService>(service: &mut S, input: CreateCollectionFolderInput) -> (result: Result<RequestWorkspaceSnapshotDto, IpcError>)
    ensures
        WorkspaceId::parsed(input.workspace_id@) is None ==> rejected(result, BoundaryError::InvalidWorkspaceId)
            && *final(service) == *old(service),
        WorkspaceId::parsed(input.workspace_id@) is Some && parsed_optional_collection_id(input.parent_collection_id.deep_view()) is None ==> rejected(result, BoundaryError::InvalidCollectionId)
            && *final(service) == *old(service),
        WorkspaceId::parsed(input.workspace_id@) is Some && parsed_optional_collection_id(input.parent_collection_id.deep_view()) is Some ==> answers_request_snapshot(result),
{
    let (workspace_id, parent_collection_id, name) = match create_collection_folder_arguments(input) {
        Ok(arguments) => arguments,
        Err(error) => {
            return Err(error);
        },
    };
    let outcome = service.create_collection_folder(workspace_id, parent_collection_id, name);
    let result = request_snapshot_response(outcome);
    assert(request_snapshot_response_of(result, outcome));
    result
}

/// Selects an environment or none; unreadable ids are refused first, the workspace id before the environment id.
pub fn handle_select_environment<S: RequestService>(service: &mut S, input: SelectEnvironmentInput) -> (result: Result<RequestWorkspaceSnapshotDto, IpcError>)
    ensures
        WorkspaceId::parsed(input.workspace_id@) is None ==> rejected(result, BoundaryError::InvalidWorkspaceId)
            && *final(service) == *old(service),
        WorkspaceId::parsed(input.workspace_id@) is Some && parsed_optional_environment_id(input.environment_id.deep_view()) is None ==> rejected(result, BoundaryError::InvalidEnvironmentId)
            && *final(service) == *old(service),
        WorkspaceId::parsed(input.workspace_id@) is Some && parsed_optional_environment_id(input.environment_id.deep_view()) is Some ==> answers_request_snapshot(result),
{
    let workspace_id = match parse_workspace_id(&input.workspace_id) {
        Ok(id) => id,
        Err(error) => {
            return Err(error);
        },
    };
    let environment_id = match parse_optional_environment_id(input.environment_id) {
        Ok(id) => id,
        Err(error) => {
            return Err(error);
        },
    };
    let outcome = service.select_environment(workspace_id, environment_id);
    let result = request_snapshot_response(outcome);
    assert(request_snapshot_response_of(result, outcome));
    result
}

/// Creates an environment; an unreadable workspace id is refused first.
pub fn handle_create_environment<S: RequestService>(service: &mut S, input: CreateEnvironmentInput) -> (result: Result<RequestWorkspaceSnapshotDto, IpcError>)
    ensures
        WorkspaceId::parsed(input.workspace_id@) is None ==> rejected(result, BoundaryError::InvalidWorkspaceId)
            && *final(service) == *old(service),
        WorkspaceId::parsed(input.workspace_id@) is Some ==> answers_request_snapshot(result),
{
    let (workspace_id, name) = match create_environment_arguments(input) {
        Ok(arguments) => arguments,
        Err(error) => {
            return Err(error);
        },
    };
    let outcome = service.create_environment(workspace_id, name);
    let result = request_snapshot_response(outcome);
    assert(request_snapshot_response_of(result, outcome));
    result
}

/// Deletes an environment; unreadable ids are refused first, the workspace id before the environment id.
pub fn handle_delete_environment<S: RequestService>(service: &mut S, input: EnvironmentIdInput) -> (result: Result<RequestWorkspaceSnapshotDto, IpcError>)
    ensures
        WorkspaceId::parsed(input.workspace_id@) is None ==> rejected(result, BoundaryError::InvalidWorkspaceId)
            && *final(service) == *old(service),
        WorkspaceId::parsed(input.workspace_id@) is Some && EnvironmentId::parsed(input.environment_id@) is None ==> rejected(result, BoundaryError::InvalidEnvironmentId)
            && *final(service) == *old(service),
        WorkspaceId::parsed(input.workspace_id@) is Some && EnvironmentId::parsed(input.environment_id@) is Some ==> answers_request_snapshot(result),
{
    let workspace_id = match parse_workspace_id(&input.workspace_id) {
        Ok(id) => id,
        Err(error) => {
            return Err(error);
        },
    };
    let environment_id = match parse_environment_id(&input.environment_id) {
        Ok(id) => id,
        Err(error) => {
            return Err(error);
        },
    };
    let outcome = service.delete_environment(workspace_id, environment_id);
    let result = request_snapshot_response(outcome);
    assert(request_snapshot_response_of(result, outcome));
    result
}

/// Renames a collection folder; unreadable ids are refused first, the workspace id before the collection id.
pub fn handle_rename_collection_folder<S: RequestService>(service: &mut S, input: RenameCollectionFolderInput) -> (result: Result<RequestWorkspaceSnapshotDto, IpcError>)
    ensures
        WorkspaceId::parsed(input.workspace_id@) is None ==> rejected(result, BoundaryError::InvalidWorkspaceId)
            && *final(service) == *old(service),
        WorkspaceId::parsed(input.workspace_id@) is Some && CollectionId::parsed(input.collection_id@) is None ==> rejected(result, BoundaryError::InvalidCollectionId)
            && *final(service) == *old(service),
        WorkspaceId::parsed(input.workspace_id@) is Some && CollectionId::parsed(input.collection_id@) is Some ==> answers_request_snapshot(result),
{
    let (workspace_id, collection_id, name) = match rename_collection_folder_arguments(input) {
        Ok(arguments) => arguments,
        Err(error) => {
            return Err(error);
        },
    };
    let outcome = service.rename_collection_folder(workspace_id, collection_id, name);
    let result = request_snapshot_response(outcome);
    assert(request_snapshot_response_of(result, outcome));
    result
}

/// Moves a collection folder; unreadable ids are refused first: the workspace id, the folder id, then the target collection id.
pub fn handle_move_collection_folder<S: RequestService>(service: &mut S, input: MoveCollectionFolderInput) -> (result: Result<RequestWorkspaceSnapshotDto, IpcError>)
    ensures
        WorkspaceId::parsed(input.workspace_id@) is None ==> rejected(result, BoundaryError::InvalidWorkspaceId)
            && *final(service) == *old(service),
        WorkspaceId::parsed(input.workspace_id@) is Some && CollectionId::parsed(input.collection_id@) is None ==> rejected(result, BoundaryError::InvalidCollectionId)
            && *final(service) == *old(service),
        WorkspaceId::parsed(input.workspace_id@) is Some && CollectionId::parsed(input.collection_id@) is Some && parsed_optional_collection_id(input.location.collection_id.deep_view()) is None ==> rejected(result, BoundaryError::InvalidCollectionId)
            && *final(service) == *old(service),
        WorkspaceId::parsed(input.workspace_id@) is Some && CollectionId::parsed(input.collection_id@) is Some && parsed_optional_collection_id(input.location.collection_id.deep_view()) is Some ==> answers_request_snapshot(result),
{
    let workspace_id = match parse_workspace_id(&input.workspace_id) {
        Ok(id) => id,
        Err(error) => {
            return Err(error);
        },
    };
    let collection_id = match parse_collection_id(&input.collection_id) {
        Ok(id) => id,
        Err(error) => {
            return Err(error);
        },
    };
    let location = match CollectionLocation::try_from_dto(input.location) {
        Ok(id) => id,
        Err(error) => {
            return Err(error);
        },
    };
    let outcome = service.move_collection_folder(workspace_id, collection_id, location);
    let result = request_snapshot_response(outcome);
    assert(request_snapshot_response_of(result, outcome));
    result
}

/// Duplicates a collection folder; unreadable ids are refused first, the workspace id before the collection id.
pub fn handle_duplicate_collection_folder<S: RequestService>(service: &mut S, input: CollectionFolderIdInput) -> (result: Result<RequestWorkspaceSnapshotDto, IpcError>)
    ensures
        WorkspaceId::parsed(input.workspace_id@) is None ==> rejected(result, BoundaryError::InvalidWorkspaceId)
            && *final(service) == *old(service),
        WorkspaceId::parsed(input.workspace_id@) is Some && CollectionId::parsed(input.collection_id@) is None ==> rejected(result, BoundaryError::InvalidCollectionId)
            && *final(service) == *old(service),
        WorkspaceId::parsed(input.workspace_id@) is Some && CollectionId::parsed(input.collection_id@) is Some ==> answers_request_snapshot(result),
{
    let workspace_id = match parse_workspace_id(&input.workspace_id) {
        Ok(id) => id,
        Err(error) => {
            return Err(error);
        },
    };
    let collection_id = match parse_collection_id(&input.collection_id) {
        Ok(id) => id,
        Err(error) => {
            return Err(error);
        },
    };
    let outcome = service.duplicate_collection_folder(workspace_id, collection_id);
    let result = request_snapshot_response(outcome);
    assert(request_snapshot_response_of(result, outcome));
    result
}

/// Deletes a collection folder; unreadable ids are refused first, the workspace id before the collection id.
pub fn handle_delete_collection_folder<S: RequestService>(service: &mut S, input: CollectionFolderIdInput) -> (result: Result<RequestWorkspaceSnapshotDto, IpcError>)
    ensures
        WorkspaceId::parsed(input.workspace_id@) is None ==> rejected(result, BoundaryError::InvalidWorkspaceId)
            && *final(service) == *old(service),
        WorkspaceId::parsed(input.workspace_id@) is Some && CollectionId::parsed(input.collection_id@) is None ==> rejected(result, BoundaryError::InvalidCollectionId)
            && *final(service) == *old(service),
        WorkspaceId::parsed(input.workspace_id@) is Some && CollectionId::parsed(input.collection_id@) is Some ==> answers_request_snapshot(result),
{
    let workspace_id = match parse_workspace_id(&input.workspace_id) {
        Ok(id) => id,
        Err(error) => {
            return Err(error);
        },
    };
    let collection_id = match parse_collection_id(&input.collection_id) {
        Ok(id) => id,
        Err(error) => {
            return Err(error);
        },
    };
    let outcome = service.delete_collection_folder(workspace_id, collection_id);
    let result = request_snapshot_response(outcome);
    assert(request_snapshot_response_of(result, outcome));
    result
}

/// Moves a saved request; unreadable ids are refused first: the workspace id, the request id, then the target collection id.
pub fn handle_move_saved_request<S: RequestService>(service: &mut S, input: MoveSavedRequestInput) -> (result: Result<RequestWorkspaceSnapshotDto, IpcError>)
    ensures
        WorkspaceId::parsed(input.workspace_id@) is None ==> rejected(result, BoundaryError::InvalidWorkspaceId)
            && *final(service) == *old(service),
        WorkspaceId::parsed(input.workspace_id@) is Some && SavedRequestId::parsed(input.saved_request_id@) is None ==> rejected(result, BoundaryError::InvalidSavedRequestId)
            && *final(service) == *old(service),
        WorkspaceId::parsed(input.workspace_id@) is Some && SavedRequestId::parsed(input.saved_request_id@) is Some && parsed_optional_collection_id(input.location.collection_id.deep_view()) is None ==> rejected(result, BoundaryError::InvalidCollectionId)
            && *final(service) == *old(service),
        WorkspaceId::parsed(input.workspace_id@) is Some && SavedRequestId::parsed(input.saved_request_id@) is Some && parsed_optional_collection_id(input.location.collection_id.deep_view()) is Some ==> answers_request_snapshot(result),
{
    let workspace_id = match parse_workspace_id(&input.workspace_id) {
        Ok(id) => id,
        Err(error) => {
            return Err(error);
        },
    };
    let saved_request_id = match parse_saved_request_id(&input.saved_request_id) {
        Ok(id) => id,
        Err(error) => {
            return Err(error);
        },
    };
    let location = match CollectionLocation::try_from_dto(input.location) {
        Ok(id) => id,
        Err(error) => {
            return Err(error);
        },
    };
    let outcome = service.move_saved_request(workspace_id, saved_request_id, location);
    let result = request_snapshot_response(outcome);
    assert(request_snapshot_response_of(result, outcome));
    result
}

/// Duplicates a saved request; unreadable ids are refused first, the workspace id before the request id.
pub fn handle_duplicate_saved_request<S: RequestService>(service: &mut S, input: SavedRequestIdInput) -> (result: Result<RequestWorkspaceSnapshotDto, IpcError>)
    ensures
        WorkspaceId::parsed(input.workspace_id@) is None ==> rejected(result, BoundaryError::InvalidWorkspaceId)
            && *final(service) == *old(service),
        WorkspaceId::parsed(input.workspace_id@) is Some && SavedRequestId::parsed(input.saved_request_id@) is None ==> rejected(result, BoundaryError::InvalidSavedRequestId)
            && *final(service) == *old(service),
        WorkspaceId::parsed(input.workspace_id@) is Some && SavedRequestId::parsed(input.saved_request_id@) is Some ==> answers_request_snapshot(result),
{
    let workspace_id = match parse_workspace_id(&input.workspace_id) {
        Ok(id) => id,
        Err(error) => {
            return Err(error);
        },
    };
    let saved_request_id = match parse_saved_request_id(&input.saved_request_id) {
        Ok(id) => id,
        Err(error) => {
            return Err(error);
        },
    };
    let outcome = service.duplicate_saved_request(workspace_id, saved_request_id);
    let result = request_snapshot_response(outcome);
    assert(request_snapshot_response_of(result, outcome));
    result
}

/// Deletes a saved request; unreadable ids are refused first, the workspace id before the request id.
pub fn handle_delete_saved_request<S: RequestService>(service: &mut S, input: SavedRequestIdInput) -> (result: Result<RequestWorkspaceSnapshotDto, IpcError>)
    ensures
        WorkspaceId::parsed(input.workspace_id@) is None ==> rejected(result, BoundaryError::InvalidWorkspaceId)
            && *final(service) == *old(service),
        WorkspaceId::parsed(input.workspace_id@) is Some && SavedRequestId::parsed(input.saved_request_id@) is None ==> rejected(result, BoundaryError::InvalidSavedRequestId)
            && *final(service) == *old(service),
        WorkspaceId::parsed(input.workspace_id@) is Some && SavedRequestId::parsed(input.saved_request_id@) is Some ==> answers_request_snapshot(result),
{
    let workspace_id = match parse_workspace_id(&input.workspace_id) {
        Ok(id) => id,
        Err(error) => {
            return Err(error);
        },
    };
    let saved_request_id = match parse_saved_request_id(&input.saved_request_id) {
        Ok(id) => id,
        Err(error) => {
            return Err(error);
        },
    };
    let outcome = service.delete_saved_request(workspace_id, saved_request_id);
    let result = request_snapshot_response(outcome);
    assert(request_snapshot_response_of(result, outcome));
    result
}

/// Opens a saved request in a tab; unreadable ids are refused first, the workspace id before the request id.
pub fn handle_open_saved_request_tab<S: RequestService>(service: &mut S, input: OpenSavedRequestTabInput) -> (result: Result<RequestWorkspaceSnapshotDto, IpcError>)
    ensures
        WorkspaceId::parsed(input.workspace_id@) is None ==> rejected(result, BoundaryError::InvalidWorkspaceId)
            && *final(service) == *old(service),
        WorkspaceId::parsed(input.workspace_id@) is Some && SavedRequestId::parsed(input.saved_request_id@) is None ==> rejected(result, BoundaryError::InvalidSavedRequestId)
            && *final(service) == *old(service),
        WorkspaceId::parsed(input.workspace_id@) is Some && SavedRequestId::parsed(input.saved_request_id@) is Some ==> answers_request_snapshot(result),
{
    let workspace_id = match parse_workspace_id(&input.workspace_id) {
        Ok(id) => id,
        Err(error) => {
            return Err(error);
        },
    };
    let saved_request_id = match parse_saved_request_id(&input.saved_request_id) {
        Ok(id) => id,
        Err(error) => {
            return Err(error);
        },
    };
    let outcome = service.open_saved_request_tab(workspace_id, saved_request_id);
    let result = request_snapshot_response(outcome);
    assert(request_snapshot_response_of(result, outcome));
    result
}

/// Saves a draft; unreadable ids are refused first, the workspace id before the draft id.
pub fn handle_save_request_draft<S: RequestService>(service: &mut S, input: RequestDraftIdInput) -> (result: Result<RequestWorkspaceSnapshotDto, IpcError>)
    ensures
        WorkspaceId::parsed(input.workspace_id@) is None ==> rejected(result, BoundaryError::InvalidWorkspaceId)
            && *final(service) == *old(service),
        WorkspaceId::parsed(input.workspace_id@) is Some && RequestDraftId::parsed(input.draft_id@) is None ==> rejected(result, BoundaryError::InvalidRequestDraftId)
            && *final(service) == *old(service),
        WorkspaceId::parsed(input.workspace_id@) is Some && RequestDraftId::parsed(input.draft_id@) is Some ==> answers_request_snapshot(result),
{
    let workspace_id = match parse_workspace_id(&input.workspace_id) {
        Ok(id) => id,
        Err(error) => {
            return Err(error);
        },
    };
    let draft_id = match parse_request_draft_id(&input.draft_id) {
        Ok(id) => id,
        Err(error) => {
            return Err(error);
        },
    };
    let outcome = service.save_draft(workspace_id, draft_id);
    let result = request_snapshot_response(outcome);
    assert(request_snapshot_response_of(result, outcome));
    result
}

/// Closes a tab with the decision taken on its draft; unreadable ids are refused first, the workspace id before the tab id.
pub fn handle_close_request_tab<S: RequestService>(service: &mut S, input: CloseRequestTabInput) -> (result: Result<RequestWorkspaceSnapshotDto, IpcError>)
    ensures
        WorkspaceId::parsed(input.workspace_id@) is None ==> rejected(result, BoundaryError::InvalidWorkspaceId)
            && *final(service) == *old(service),
        WorkspaceId::parsed(input.workspace_id@) is Some && RequestTabId::parsed(input.tab_id@) is None ==> rejected(result, BoundaryError::InvalidRequestTabId)
            && *final(service) == *old(service),
        WorkspaceId::parsed(input.workspace_id@) is Some && RequestTabId::parsed(input.tab_id@) is Some ==> answers_request_snapshot(result),
{
    let workspace_id = match parse_workspace_id(&input.workspace_id) {
        Ok(id) => id,
        Err(error) => {
            return Err(error);
        },
    };
    let tab_id = match parse_request_tab_id(&input.tab_id) {
        Ok(id) => id,
        Err(error) => {
            return Err(error);
        },
    };
    let outcome = service.close_tab(workspace_id, tab_id, CloseTabDecision::from_dto(input.decision));
    let result = request_snapshot_response(outcome);
    assert(request_snapshot_response_of(result, outcome));
    result
}

/// Lists the execution history of a workspace; an unreadable workspace id is refused.
pub fn handle_list_execution_history<S: RequestService>(service: &S, input: WorkspaceIdInput) -> (result: Result<ExecutionHistorySnapshotDto, IpcError>)
    ensures
        WorkspaceId::parsed(input.workspace_id@) is None ==> rejected(result, BoundaryError::InvalidWorkspaceId),
        WorkspaceId::parsed(input.workspace_id@) is Some ==> answers_history(result),
{
    let workspace_id = match parse_workspace_id(&input.workspace_id) {
        Ok(id) => id,
        Err(error) => {
            return Err(error);
        },
    };
    let outcome = service.list_execution_history(workspace_id);
    let result = history_response(outcome);
    assert(history_response_of(result, outcome));
    result
}

/// Turns the recording of execution history off or on; an unreadable workspace id is refused first.
pub fn handle_set_execution_history_disabled<S: RequestService>(service: &mut S, input: SetExecutionHistoryDisabledInput) -> (result: Result<ExecutionHistorySnapshotDto, IpcError>)
    ensures
        WorkspaceId::parsed(input.workspace_id@) is None ==> rejected(result, BoundaryError::InvalidWorkspaceId)
            && *final(service) == *old(service),
        WorkspaceId::parsed(input.workspace_id@) is Some ==> answers_history(result),
{
    let (workspace_id, disabled) = match set_execution_history_disabled_arguments(input) {
        Ok(arguments) => arguments,
        Err(error) => {
            return Err(error);
        },
    };
    let outcome = service.set_execution_history_disabled(workspace_id, disabled);
    let result = history_response(outcome);
    assert(history_response_of(result, outcome));
    result
}

/// Pins or unpins an execution record; unreadable ids are refused first, the workspace id before the record id.
pub fn handle_set_execution_record_pinned<S: RequestService>(service: &mut S, input: SetExecutionRecordPinnedInput) -> (result: Result<ExecutionHistorySnapshotDto, IpcError>)
    ensures
        WorkspaceId::parsed(input.workspace_id@) is None ==> rejected(result, BoundaryError::InvalidWorkspaceId)
            && *final(service) == *old(service),
        WorkspaceId::parsed(input.workspace_id@) is Some && ExecutionRecordId::parsed(input.record_id@) is None ==> rejected(result, BoundaryError::InvalidExecutionRecordId)
            && *final(service) == *old(service),
        WorkspaceId::parsed(input.workspace_id@) is Some && ExecutionRecordId::parsed(input.record_id@) is Some ==> answers_history(result),
{
    let (workspace_id, record_id, pinned) = match set_execution_record_pinned_arguments(input) {
        Ok(arguments) => arguments,
        Err(error) => {
            return Err(error);
        },
    };
    let outcome = service.set_execution_record_pinned(workspace_id, record_id, pinned);
    let result = history_response(outcome);
    assert(history_response_of(result, outcome));
    result
}

/// Opens an execution record as a draft; unreadable ids are refused first, the workspace id before the record id.
pub fn handle_open_execution_record_as_draft<S: RequestService>(service: &mut S, input: ExecutionRecordIdInput) -> (result: Result<RequestWorkspaceSnapshotDto, IpcError>)
    ensures
        WorkspaceId::parsed(input.workspace_id@) is None ==> rejected(result, BoundaryError::InvalidWorkspaceId)
            && *final(service) == *old(service),
        WorkspaceId::parsed(input.workspace_id@) is Some && ExecutionRecordId::parsed(input.record_id@) is None ==> rejected(result, BoundaryError::InvalidExecutionRecordId)
            && *final(service) == *old(service),
        WorkspaceId::parsed(input.workspace_id@) is Some && ExecutionRecordId::parsed(input.record_id@) is Some ==> answers_request_snapshot(result),
{
    let workspace_id = match parse_workspace_id(&input.workspace_id) {
        Ok(id) => id,
        Err(error) => {
            return Err(error);
        },
    };
    let record_id = match parse_execution_record_id(&input.record_id) {
        Ok(id) => id,
        Err(error) => {
            return Err(error);
        },
    };
    let outcome = service.open_execution_record_as_draft(workspace_id, record_id);
    let result = request_snapshot_response(outcome);
    assert(request_snapshot_response_of(result, outcome));
    result
}

/// Lists the cookie jar of a workspace; an unreadable workspace id is refused first.
pub fn handle_list_cookies<S: RequestService>(service: &mut S, input: WorkspaceIdInput) -> (result: Result<CookieJarSnapshotDto, IpcError>)
    ensures
        WorkspaceId::parsed(input.workspace_id@) is None ==> rejected(result, BoundaryError::InvalidWorkspaceId)
            && *final(service) == *old(service),
        WorkspaceId::parsed(input.workspace_id@) is Some ==> answers_cookie_jar(result),
{
    let workspace_id = match parse_workspace_id(&input.workspace_id) {
        Ok(id) => id,
        Err(error) => {
            return Err(error);
        },
    };
    let outcome = service.list_cookies(workspace_id);
    let result = cookie_jar_response(outcome);
    assert(cookie_jar_response_of(result, outcome));
    result
}

/// Deletes a cookie; unreadable ids are refused first, the workspace id before the cookie id.
pub fn handle_delete_cookie<S: RequestService>(service: &mut S, input: CookieIdInput) -> (result: Result<CookieJarSnapshotDto, IpcError>)
    ensures
        WorkspaceId::parsed(input.workspace_id@) is None ==> rejected(result, BoundaryError::InvalidWorkspaceId)
            && *final(service) == *old(service),
        WorkspaceId::parsed(input.workspace_id@) is Some && CookieId::parsed(input.cookie_id@) is None ==> rejected(result, BoundaryError::InvalidCookieId)
            && *final(service) == *old(service),
        WorkspaceId::parsed(input.workspace_id@) is Some && CookieId::parsed(input.cookie_id@) is Some ==> answers_cookie_jar(result),
{
    let workspace_id = match parse_workspace_id(&input.workspace_id) {
        Ok(id) => id,
        Err(error) => {
            return Err(error);
        },
    };
    let cookie_id = match parse_cookie_id(&input.cookie_id) {
        Ok(id) => id,
        Err(error) => {
            return Err(error);
        },
    };
    let outcome = service.delete_cookie(workspace_id, cookie_id);
    let result = cookie_jar_response(outcome);
    assert(cookie_jar_response_of(result, outcome));
    result
}

/// Clears the cookie jar of a workspace; an unreadable workspace id is refused first.
pub fn handle_clear_cookies<S: RequestService>(service: &mut S, input: WorkspaceIdInput) -> (result: Result<CookieJarSnapshotDto, IpcError>)
    ensures
        WorkspaceId::parsed(input.workspace_id@) is None ==> rejected(result, BoundaryError::InvalidWorkspaceId)
            && *final(service) == *old(service),
        WorkspaceId::parsed(input.workspace_id@) is Some ==> answers_cookie_jar(result),
{
    let workspace_id = match parse_workspace_id(&input.workspace_id) {
        Ok(id) => id,
        Err(error) => {
            return Err(error);
        },
    };
    let outcome = service.clear_cookies(workspace_id);
    let result = cookie_jar_response(outcome);
    assert(cookie_jar_response_of(result, outcome));
    result
}

/// Resolves request content against the workspace's variables; an unreadable workspace id is refused.
pub fn handle_resolve_request_content<S: RequestService>(service: &S, input: ResolveRequestContentInput) -> (result: Result<ResolvedRequestContentDto, IpcError>)
    ensures
        WorkspaceId::parsed(input.workspace_id@) is None ==> rejected(result, BoundaryError::InvalidWorkspaceId),
        WorkspaceId::parsed(input.workspace_id@) is Some ==> answers_resolved(result),
{
    let workspace_id = match parse_workspace_id(&input.workspace_id) {
        Ok(id) => id,
        Err(error) => {
            return Err(error);
        },
    };
    let content = RequestContent::from_dto(input.content);
    let outcome = service.resolve_request_content(workspace_id, &content);
    let result = resolved_response(outcome);
    assert(resolved_response_of(result, outcome));
    result
}

/// Queues a draft's new content; unreadable ids are refused first, the workspace id before the
/// draft id. Once both are read the update is queued and the answer is `Ok`.
pub fn handle_update_request_draft<S: RequestService>(service: &mut S, input: UpdateRequestDraftInput) -> (result:
    Result<(), IpcError>)
    ensures
        WorkspaceId::parsed(input.workspace_id@) is None ==> rejected(result, BoundaryError::InvalidWorkspaceId)
            && *final(service) == *old(service),
        WorkspaceId::parsed(input.workspace_id@) is Some && RequestDraftId::parsed(input.draft_id@) is None
            ==> rejected(result, BoundaryError::InvalidRequestDraftId) && *final(service) == *old(service),
        WorkspaceId::parsed(input.workspace_id@) is Some && RequestDraftId::parsed(input.draft_id@) is Some
            ==> result is Ok,
{
    let workspace_id = match parse_workspace_id(&input.workspace_id) {
        Ok(id) => id,
        Err(error) => {
            return Err(error);
        },
    };
    let draft_id = match parse_request_draft_id(&input.draft_id) {
        Ok(id) => id,
        Err(error) => {
            return Err(error);
        },
    };
    service.queue_draft_update(workspace_id, draft_id, RequestContent::from_dto(input.content));
    Ok(())
}

/// Writes the queued draft updates.
pub fn handle_flush_request_drafts<S: RequestService>(service: &mut S) -> (result: Result<(), IpcError>)
    ensures
        exists|outcome: Result<(), RequestError>| #[trigger] unit_response_of(result, outcome),
{
    let outcome = service.flush_pending_drafts();
    let result = match outcome {
        Ok(()) => Ok(()),
        Err(failure) => Err(IpcError::from_boundary_error(BoundaryError::Request(failure))),
    };
    assert(unit_response_of(result, outcome));
    result
}

/// Inserts or replaces a cookie; unreadable ids are refused first, the cookie id (when given)
/// before the workspace id.
pub fn handle_upsert_cookie<S: RequestService>(service: &mut S, input: UpsertCookieInput) -> (result: Result<
    CookieJarSnapshotDto,
    IpcError,
>)
    ensures
        upsert_cookie_input_error(input) matches Some(invalid) ==> rejected(result, invalid)
            && *final(service) == *old(service),
        upsert_cookie_input_error(input) is None ==> answers_cookie_jar(result),
{
    let draft = match CookieDraft::try_from_input(input) {
        Ok(draft) => draft,
        Err(error) => {
            return Err(error);
        },
    };
    let outcome = service.upsert_cookie(draft);
    let result = cookie_jar_response(outcome);
    assert(cookie_jar_response_of(result, outcome));
    result
}

/// Reveals a cookie's value; unreadable ids are refused first, the workspace id before the
/// cookie id.
pub fn handle_reveal_cookie_value<S: RequestService>(service: &mut S, input: CookieIdInput) -> (result:
    Result<RevealCookieValueOutput, IpcError>)
    ensures
        WorkspaceId::parsed(input.workspace_id@) is None ==> rejected(result, BoundaryError::InvalidWorkspaceId)
            && *final(service) == *old(service),
        WorkspaceId::parsed(input.workspace_id@) is Some && CookieId::parsed(input.cookie_id@) is None
            ==> rejected(result, BoundaryError::InvalidCookieId) && *final(service) == *old(service),
        WorkspaceId::parsed(input.workspace_id@) is Some && CookieId::parsed(input.cookie_id@) is Some
            ==> exists|outcome: Result<String, RequestError>| #[trigger] reveal_response_of(result, outcome),
{
    let workspace_id = match parse_workspace_id(&input.workspace_id) {
        Ok(id) => id,
        Err(error) => {
            return Err(error);
        },
    };
    let cookie_id = match parse_cookie_id(&input.cookie_id) {
        Ok(id) => id,
        Err(error) => {
            return Err(error);
        },
    };
    let outcome = service.reveal_cookie_value(workspace_id, cookie_id);
    let result = match outcome {
        Ok(value) => Ok(RevealCookieValueOutput { value }),
        Err(failure) => Err(IpcError::from_boundary_error(BoundaryError::Request(failure))),
    };
    assert(reveal_response_of(result, outcome));
    result
}

// ----- starting a request -----

/// The base directory of the workspace `workspace_id` as the listing shows it: that of the
/// first summary with the id, when it has one.
pub open spec fn listed_base_directory(
    summaries: Seq<WorkspaceSummary>,
    workspace_id: WorkspaceId,
) -> Option<Seq<char>>
    decreases summaries.len(),
{
    if summaries.len() == 0 {
        None
    } else if summaries[0].id == workspace_id {
        summaries[0].base_directory.deep_view()
    } else {
        listed_base_directory(summaries.drop_first(), workspace_id)
    }
}

/// The base directory that relative body files of a workspace resolve against.
pub fn workspace_base_directory(snapshot: WorkspaceSnapshot, workspace_id: WorkspaceId) -> (directory:
    Option<String>)
    ensures
        directory.deep_view() == listed_base_directory(snapshot.workspaces@, workspace_id),
{
    let summaries = snapshot.workspaces;
    assert(summaries@.subrange(0, summaries.len() as int) =~= summaries@);
    let mut i: usize = 0;
    while i < summaries.len()
        invariant
            i <= summaries.len(),
            listed_base_directory(snapshot.workspaces@, workspace_id) == listed_base_directory(
                summaries@.subrange(i as int, summaries.len() as int),
                workspace_id,
            ),
            summaries@ == snapshot.workspaces@,
        decreases summaries.len() - i,
    {
        let summary = &summaries[i];
        assert(summaries@.subrange(i as int, summaries.len() as int).drop_first() =~= summaries@.subrange(
            i + 1,
            summaries.len() as int,
        ));
        if summary.id == workspace_id {
            return match &summary.base_directory {
                Some(directory) => Some(directory.clone()),
                None => None,
            };
        }
        i = i + 1;
    }
    None
}

/// Reads what a start command runs: its workspace and draft ids, refusing an unreadable
/// one (the workspace's first), and the request content it carries.
pub fn read_start_request_execution_input(input: StartRequestExecutionInput) -> (outcome: Result<
    (WorkspaceId, RequestDraftId, RequestContent),
    IpcError,
>)
    ensures
        WorkspaceId::parsed(input.workspace_id@) is None ==> rejected(
            outcome,
            BoundaryError::InvalidWorkspaceId,
        ),
        WorkspaceId::parsed(input.workspace_id@) is Some && RequestDraftId::parsed(input.draft_id@)
            is None ==> rejected(outcome, BoundaryError::InvalidRequestDraftId),
        WorkspaceId::parsed(input.workspace_id@) is Some && RequestDraftId::parsed(input.draft_id@)
            is Some ==> (outcome matches Ok((workspace_id, draft_id, content)) && Some(workspace_id)
            == WorkspaceId::parsed(input.workspace_id@) && Some(draft_id) == RequestDraftId::parsed(
            input.draft_id@,
        ) && request_content_dto_of(input.content, content)),
{
    let workspace_id = match parse_workspace_id(&input.workspace_id) {
        Ok(id) => id,
        Err(error) => {
            return Err(error);
        },
    };
    let draft_id = match parse_request_draft_id(&input.draft_id) {
        Ok(id) => id,
        Err(error) => {
            return Err(error);
        },
    };
    Ok((workspace_id, draft_id, RequestContent::from_dto(input.content)))
}

// ----- body files -----

/// Reads the workspace id of a command on a body file, then refuses a path that is not
/// absolute (whether the path is absolute is the caller's to tell).
pub fn check_body_file_input(workspace_id: &str, path_is_absolute: bool) -> (outcome: Result<
    WorkspaceId,
    IpcError,
>)
    ensures
        WorkspaceId::parsed(workspace_id@) is None ==> rejected(
            outcome,
            BoundaryError::InvalidWorkspaceId,
        ),
        WorkspaceId::parsed(workspace_id@) is Some && !path_is_absolute ==> (outcome matches Err(
            error,
        ) && error@ == error_view(
            IpcErrorCode::InvalidInput,
            "Request input is invalid."@,
            Some("body.file.path.absoluteRequired"@),
            false,
        )),
        WorkspaceId::parsed(workspace_id@) is Some && path_is_absolute ==> outcome == Ok::<
            WorkspaceId,
            IpcError,
        >(WorkspaceId::parsed(workspace_id@)->0),
{
    let id = match parse_workspace_id(workspace_id) {
        Ok(id) => id,
        Err(error) => {
            return Err(error);
        },
    };
    if !path_is_absolute {
        return Err(
            IpcError::from_boundary_error(
                BoundaryError::Request(
                    RequestError::InvalidInput("body.file.path.absoluteRequired".to_owned()),
                ),
            ),
        );
    }
    Ok(id)
}

} // verus!
