//! Failures of the services and their stable, secret-free form at the IPC boundary.
use vstd::prelude::*;

verus! {

/// Stable codes that the frontend branches on.
#[derive(Clone, Copy, Debug, PartialEq, Eq, Structural)]
pub enum IpcErrorCode {
    InvalidInput,
    WorkspaceNotFound,
    WorkspaceAlreadyExists,
    CannotDeleteLastWorkspace,
    RequestNotFound,
    SavedRequestAlreadyOpen,
    PersistenceUnavailable,
    StateUnavailable,
}

/// The error every IPC command answers with when it fails.
#[derive(Clone, Debug)]
pub struct IpcError {
    pub code: IpcErrorCode,
    pub message: String,
    pub details: Option<String>,
    pub retryable: bool,
}

/// What an `IpcError` says, with its texts as sequences of characters.
pub struct IpcErrorView {
    pub code: IpcErrorCode,
    pub message: Seq<char>,
    pub details: Option<Seq<char>>,
    pub retryable: bool,
}

impl View for IpcError {
    type V = IpcErrorView;

    open spec fn view(&self) -> IpcErrorView {
        IpcErrorView {
            code: self.code,
            message: self.message@,
            details: self.details.deep_view(),
            retryable: self.retryable,
        }
    }
}

/// The view of an error built from its parts.
pub open spec fn error_view(
    code: IpcErrorCode,
    message: Seq<char>,
    details: Option<Seq<char>>,
    retryable: bool,
) -> IpcErrorView {
    IpcErrorView { code, message, details, retryable }
}

/// Why a workspace name was refused.
#[derive(Clone, Copy, Debug, PartialEq, Eq, Structural)]
pub enum WorkspaceNameError {
    Empty,
    TooLong { max_chars: usize },
    ControlCharacter,
}

/// Failures of the workspace service.
#[derive(Clone, Debug)]
pub enum WorkspaceError {
    InvalidName(WorkspaceNameError),
    NotFound,
    AlreadyExists,
    CannotDeleteLastWorkspace,
    Persistence(String),
}

/// Failures of the request service.
#[derive(Clone, Debug)]
pub enum RequestError {
    WorkspaceNotFound,
    NotFound,
    SavedRequestAlreadyOpen,
    InvalidInput(String),
    Persistence(String),
}

/// Failures of a request execution.
#[derive(Clone, Debug)]
pub enum ExecutionError {
    InvalidInput(String),
    StateUnavailable,
}

/// Failures of an OAuth authorization flow.
#[derive(Clone, Debug)]
pub enum OAuthError {
    InvalidInput(String),
    ListenerFailed,
    Timeout,
    Cancelled,
    StateMismatch,
    MissingCode,
    BrowserOpenFailed,
    StateUnavailable,
    TokenRequestFailed,
    InvalidTokenResponse,
    RefreshRequired,
}

/// Failures of a Postman import, export or reimport.
#[derive(Clone, Debug)]
pub enum PostmanImportError {
    InvalidInput(String),
    WorkspaceNotFound,
    Persistence(String),
    Secret(String),
}

/// Failures of a native backup export or restore.
#[derive(Clone, Debug)]
pub enum NativeBackupError {
    InvalidInput(String),
    InvalidArchive(String),
    WorkspaceNotFound,
    WorkspaceAlreadyExists,
    Persistence(String),
}

/// Failures of a cURL import or generation.
#[derive(Clone, Debug)]
pub enum CurlError {
    InvalidInput(String),
    Request(RequestError),
}

/// Every failure a command handler can meet.
#[derive(Clone, Debug)]
pub enum BoundaryError {
    Workspace(WorkspaceError),
    Request(RequestError),
    InvalidWorkspaceId,
    InvalidCollectionId,
    InvalidEnvironmentId,
    InvalidSavedRequestId,
    InvalidRequestDraftId,
    InvalidRequestTabId,
    InvalidExecutionId,
    InvalidOAuthFlowId,
    InvalidExecutionRecordId,
    InvalidCookieId,
    Execution(ExecutionError),
    OAuth(OAuthError),
    NativeBackup(NativeBackupError),
    StateUnavailable,
}

/// The detail key of a refused workspace name.
pub open spec fn workspace_name_detail_text(error: WorkspaceNameError) -> Seq<char> {
    match error {
        WorkspaceNameError::Empty => "name.required"@,
        WorkspaceNameError::TooLong { .. } => "name.tooLong"@,
        WorkspaceNameError::ControlCharacter => "name.controlCharacter"@,
    }
}

/// The detail key of a refused workspace name.
pub fn workspace_name_detail(error: WorkspaceNameError) -> (detail: String)
    ensures
        detail@ == workspace_name_detail_text(error),
{
    match error {
        WorkspaceNameError::Empty => "name.required".to_owned(),
        WorkspaceNameError::TooLong { .. } => "name.tooLong".to_owned(),
        WorkspaceNameError::ControlCharacter => "name.controlCharacter".to_owned(),
    }
}

/// The IPC form of a workspace failure.
pub open spec fn workspace_error_view(error: WorkspaceError) -> IpcErrorView {
    match error {
        WorkspaceError::InvalidName(name_error) => error_view(
            IpcErrorCode::InvalidInput,
            "Workspace name is invalid."@,
            Some(workspace_name_detail_text(name_error)),
            false,
        ),
        WorkspaceError::NotFound => error_view(
            IpcErrorCode::WorkspaceNotFound,
            "Workspace was not found."@,
            None,
            false,
        ),
        WorkspaceError::AlreadyExists => error_view(
            IpcErrorCode::WorkspaceAlreadyExists,
            "Workspace name already exists."@,
            Some("name"@),
            false,
        ),
        WorkspaceError::CannotDeleteLastWorkspace => error_view(
            IpcErrorCode::CannotDeleteLastWorkspace,
            "The last workspace cannot be deleted."@,
            None,
            false,
        ),
        WorkspaceError::Persistence(_) => error_view(
            IpcErrorCode::PersistenceUnavailable,
            "Workspace persistence is unavailable."@,
            None,
            true,
        ),
    }
}

/// The IPC form of a request failure.
pub open spec fn request_error_view(error: RequestError) -> IpcErrorView {
    match error {
        RequestError::WorkspaceNotFound => error_view(
            IpcErrorCode::WorkspaceNotFound,
            "Workspace was not found."@,
            None,
            false,
        ),
        RequestError::NotFound => error_view(
            IpcErrorCode::RequestNotFound,
            "Request item was not found."@,
            None,
            false,
        ),
        RequestError::SavedRequestAlreadyOpen => error_view(
            IpcErrorCode::SavedRequestAlreadyOpen,
            "Saved request is already open."@,
            None,
            false,
        ),
        RequestError::InvalidInput(detail) => error_view(
            IpcErrorCode::InvalidInput,
            "Request input is invalid."@,
            Some(detail@),
            false,
        ),
        RequestError::Persistence(_) => error_view(
            IpcErrorCode::PersistenceUnavailable,
            "Request persistence is unavailable."@,
            None,
            true,
        ),
    }
}

/// The IPC form of an execution failure.
pub open spec fn execution_error_view(error: ExecutionError) -> IpcErrorView {
    match error {
        ExecutionError::InvalidInput(detail) => error_view(
            IpcErrorCode::InvalidInput,
            "Execution input is invalid."@,
            Some(detail@),
            false,
        ),
        ExecutionError::StateUnavailable => error_view(
            IpcErrorCode::StateUnavailable,
            "Execution state is temporarily unavailable."@,
            None,
            true,
        ),
    }
}

/// The IPC form of an OAuth failure.
pub open spec fn oauth_error_view(error: OAuthError) -> IpcErrorView {
    match error {
        OAuthError::InvalidInput(detail) => error_view(
            IpcErrorCode::InvalidInput,
            "OAuth input is invalid."@,
            Some(detail@),
            false,
        ),
        OAuthError::ListenerFailed => error_view(
            IpcErrorCode::StateUnavailable,
            "OAuth callback listener is unavailable."@,
            None,
            true,
        ),
        OAuthError::Timeout => error_view(
            IpcErrorCode::InvalidInput,
            "OAuth authorization timed out."@,
            Some("oauth.timeout"@),
            false,
        ),
        OAuthError::Cancelled => error_view(
            IpcErrorCode::InvalidInput,
            "OAuth authorization was cancelled."@,
            Some("oauth.cancelled"@),
            false,
        ),
        OAuthError::StateMismatch => error_view(
            IpcErrorCode::InvalidInput,
            "OAuth state did not match."@,
            Some("oauth.state.mismatch"@),
            false,
        ),
        OAuthError::MissingCode => error_view(
            IpcErrorCode::InvalidInput,
            "OAuth authorization code is missing."@,
            Some("oauth.code.required"@),
            false,
        ),
        OAuthError::BrowserOpenFailed => error_view(
            IpcErrorCode::StateUnavailable,
            "System browser could not be opened."@,
            None,
            true,
        ),
        OAuthError::StateUnavailable => error_view(
            IpcErrorCode::StateUnavailable,
            "OAuth state is temporarily unavailable."@,
            None,
            true,
        ),
        OAuthError::TokenRequestFailed => error_view(
            IpcErrorCode::StateUnavailable,
            "OAuth token request failed."@,
            Some("oauth.token.requestFailed"@),
            true,
        ),
        OAuthError::InvalidTokenResponse => error_view(
            IpcErrorCode::InvalidInput,
            "OAuth token response is invalid."@,
            Some("oauth.token.response.invalid"@),
            false,
        ),
        OAuthError::RefreshRequired => error_view(
            IpcErrorCode::InvalidInput,
            "OAuth reauthorization is required."@,
            Some("oauth.refresh.required"@),
            false,
        ),
    }
}

/// The IPC form of a Postman import failure.
pub open spec fn postman_import_error_view(error: PostmanImportError) -> IpcErrorView {
    match error {
        PostmanImportError::InvalidInput(detail) => error_view(
            IpcErrorCode::InvalidInput,
            "Postman import input is invalid."@,
            Some(detail@),
            false,
        ),
        PostmanImportError::WorkspaceNotFound => error_view(
            IpcErrorCode::WorkspaceNotFound,
            "Workspace was not found."@,
            None,
            false,
        ),
        PostmanImportError::Persistence(_) => error_view(
            IpcErrorCode::PersistenceUnavailable,
            "Postman import persistence is unavailable."@,
            None,
            true,
        ),
        PostmanImportError::Secret(detail) => error_view(
            IpcErrorCode::InvalidInput,
            "Secret storage is unavailable for Postman import."@,
            Some(detail@),
            false,
        ),
    }
}

/// The IPC form of a native backup failure.
pub open spec fn native_backup_error_view(error: NativeBackupError) -> IpcErrorView {
    match error {
        NativeBackupError::InvalidInput(detail) => error_view(
            IpcErrorCode::InvalidInput,
            "Native backup input is invalid."@,
            Some(detail@),
            false,
        ),
        NativeBackupError::InvalidArchive(detail) => error_view(
            IpcErrorCode::InvalidInput,
            "Native backup input is invalid."@,
            Some(detail@),
            false,
        ),
        NativeBackupError::WorkspaceNotFound => error_view(
            IpcErrorCode::WorkspaceNotFound,
            "Workspace was not found."@,
            None,
            false,
        ),
        NativeBackupError::WorkspaceAlreadyExists => error_view(
            IpcErrorCode::WorkspaceAlreadyExists,
            "Workspace name already exists."@,
            None,
            false,
        ),
        NativeBackupError::Persistence(_) => error_view(
            IpcErrorCode::PersistenceUnavailable,
            "Native backup persistence is unavailable."@,
            None,
            true,
        ),
    }
}

/// The IPC form of a cURL failure.
pub open spec fn curl_error_view(error: CurlError) -> IpcErrorView {
    match error {
        CurlError::InvalidInput(detail) => error_view(
            IpcErrorCode::InvalidInput,
            "cURL input is invalid."@,
            Some(detail@),
            false,
        ),
        CurlError::Request(request_error) => request_error_view(request_error),
    }
}

/// The IPC form of an identifier that could not be read, by its message and detail key.
pub open spec fn invalid_id_view(message: Seq<char>, details: Seq<char>) -> IpcErrorView {
    error_view(IpcErrorCode::InvalidInput, message, Some(details), false)
}

/// The IPC form of a boundary failure.
pub open spec fn boundary_error_view(error: BoundaryError) -> IpcErrorView {
    match error {
        BoundaryError::Workspace(e) => workspace_error_view(e),
        BoundaryError::Request(e) => request_error_view(e),
        BoundaryError::Execution(e) => execution_error_view(e),
        BoundaryError::OAuth(e) => oauth_error_view(e),
        BoundaryError::NativeBackup(e) => native_backup_error_view(e),
        BoundaryError::InvalidWorkspaceId => invalid_id_view(
            "Workspace id is invalid."@,
            "workspaceId"@,
        ),
        BoundaryError::InvalidCollectionId => invalid_id_view(
            "Collection id is invalid."@,
            "collectionId"@,
        ),
        BoundaryError::InvalidEnvironmentId => invalid_id_view(
            "Environment id is invalid."@,
            "environmentId"@,
        ),
        BoundaryError::InvalidSavedRequestId => invalid_id_view(
            "Saved request id is invalid."@,
            "savedRequestId"@,
        ),
        BoundaryError::InvalidRequestDraftId => invalid_id_view(
            "Request draft id is invalid."@,
            "draftId"@,
        ),
        BoundaryError::InvalidRequestTabId => invalid_id_view(
            "Request tab id is invalid."@,
            "tabId"@,
        ),
        BoundaryError::InvalidExecutionId => invalid_id_view(
            "Execution id is invalid."@,
            "executionId"@,
        ),
        BoundaryError::InvalidOAuthFlowId => invalid_id_view(
            "OAuth flow id is invalid."@,
            "flowId"@,
        ),
        BoundaryError::InvalidExecutionRecordId => invalid_id_view(
            "Execution record id is invalid."@,
            "recordId"@,
        ),
        BoundaryError::InvalidCookieId => invalid_id_view(
            "Cookie id is invalid."@,
            "cookieId"@,
        ),
        BoundaryError::StateUnavailable => error_view(
            IpcErrorCode::StateUnavailable,
            "Workspace state is temporarily unavailable."@,
            None,
            true,
        ),
    }
}

impl IpcError {
    fn build(
        code: IpcErrorCode,
        message: &str,
        details: Option<String>,
        retryable: bool,
    ) -> (error: IpcError)
        ensures
            error@ == error_view(code, message@, details.deep_view(), retryable),
    {
        IpcError { code, message: message.to_owned(), details, retryable }
    }

    fn with_detail(code: IpcErrorCode, message: &str, detail: &str, retryable: bool) -> (error:
        IpcError)
        ensures
            error@ == error_view(code, message@, Some(detail@), retryable),
    {
        IpcError::build(code, message, Some(detail.to_owned()), retryable)
    }

    /// The IPC form of a workspace failure; a persistence failure keeps none of its cause.
    pub fn from_workspace_error(error: WorkspaceError) -> (ipc: IpcError)
        ensures
            ipc@ == workspace_error_view(error),
    {
        match error {
            WorkspaceError::InvalidName(name_error) => IpcError::build(
                IpcErrorCode::InvalidInput,
                "Workspace name is invalid.",
                Some(workspace_name_detail(name_error)),
                false,
            ),
            WorkspaceError::NotFound => IpcError::build(
                IpcErrorCode::WorkspaceNotFound,
                "Workspace was not found.",
                None,
                false,
            ),
            WorkspaceError::AlreadyExists => IpcError::with_detail(
                IpcErrorCode::WorkspaceAlreadyExists,
                "Workspace name already exists.",
                "name",
                false,
            ),
            WorkspaceError::CannotDeleteLastWorkspace => IpcError::build(
                IpcErrorCode::CannotDeleteLastWorkspace,
                "The last workspace cannot be deleted.",
                None,
                false,
            ),
            WorkspaceError::Persistence(_) => IpcError::build(
                IpcErrorCode::PersistenceUnavailable,
                "Workspace persistence is unavailable.",
                None,
                true,
            ),
        }
    }

    /// The IPC form of a request failure; a persistence failure keeps none of its cause.
    pub fn from_request_error(error: RequestError) -> (ipc: IpcError)
        ensures
            ipc@ == request_error_view(error),
    {
        match error {
            RequestError::WorkspaceNotFound => IpcError::build(
                IpcErrorCode::WorkspaceNotFound,
                "Workspace was not found.",
                None,
                false,
            ),
            RequestError::NotFound => IpcError::build(
                IpcErrorCode::RequestNotFound,
                "Request item was not found.",
                None,
                false,
            ),
            RequestError::SavedRequestAlreadyOpen => IpcError::build(
                IpcErrorCode::SavedRequestAlreadyOpen,
                "Saved request is already open.",
                None,
                false,
            ),
            RequestError::InvalidInput(detail) => IpcError::build(
                IpcErrorCode::InvalidInput,
                "Request input is invalid.",
                Some(detail),
                false,
            ),
            RequestError::Persistence(_) => IpcError::build(
                IpcErrorCode::PersistenceUnavailable,
                "Request persistence is unavailable.",
                None,
                true,
            ),
        }
    }

    /// The IPC form of an execution failure.
    pub fn from_execution_error(error: ExecutionError) -> (ipc: IpcError)
        ensures
            ipc@ == execution_error_view(error),
    {
        match error {
            ExecutionError::InvalidInput(detail) => IpcError::build(
                IpcErrorCode::InvalidInput,
                "Execution input is invalid.",
                Some(detail),
                false,
            ),
            ExecutionError::StateUnavailable => IpcError::build(
                IpcErrorCode::StateUnavailable,
                "Execution state is temporarily unavailable.",
                None,
                true,
            ),
        }
    }

    /// The IPC form of an OAuth failure; no token, code or secret reaches it.
    pub fn from_oauth_error(error: OAuthError) -> (ipc: IpcError)
        ensures
            ipc@ == oauth_error_view(error),
    {
        match error {
            OAuthError::InvalidInput(detail) => IpcError::build(
                IpcErrorCode::InvalidInput,
                "OAuth input is invalid.",
                Some(detail),
                false,
            ),
            OAuthError::ListenerFailed => IpcError::build(
                IpcErrorCode::StateUnavailable,
                "OAuth callback listener is unavailable.",
                None,
                true,
            ),
            OAuthError::Timeout => IpcError::with_detail(
                IpcErrorCode::InvalidInput,
                "OAuth authorization timed out.",
                "oauth.timeout",
                false,
            ),
            OAuthError::Cancelled => IpcError::with_detail(
                IpcErrorCode::InvalidInput,
                "OAuth authorization was cancelled.",
                "oauth.cancelled",
                false,
            ),
            OAuthError::StateMismatch => IpcError::with_detail(
                IpcErrorCode::InvalidInput,
                "OAuth state did not match.",
                "oauth.state.mismatch",
                false,
            ),
            OAuthError::MissingCode => IpcError::with_detail(
                IpcErrorCode::InvalidInput,
                "OAuth authorization code is missing.",
                "oauth.code.required",
                false,
            ),
            OAuthError::BrowserOpenFailed => IpcError::build(
                IpcErrorCode::StateUnavailable,
                "System browser could not be opened.",
                None,
                true,
            ),
            OAuthError::StateUnavailable => IpcError::build(
                IpcErrorCode::StateUnavailable,
                "OAuth state is temporarily unavailable.",
                None,
                true,
            ),
            OAuthError::TokenRequestFailed => IpcError::with_detail(
                IpcErrorCode::StateUnavailable,
                "OAuth token request failed.",
                "oauth.token.requestFailed",
                true,
            ),
            OAuthError::InvalidTokenResponse => IpcError::with_detail(
                IpcErrorCode::InvalidInput,
                "OAuth token response is invalid.",
                "oauth.token.response.invalid",
                false,
            ),
            OAuthError::RefreshRequired => IpcError::with_detail(
                IpcErrorCode::InvalidInput,
                "OAuth reauthorization is required.",
                "oauth.refresh.required",
                false,
            ),
        }
    }

    /// The IPC form of a Postman import failure.
    pub fn from_postman_import_error(error: PostmanImportError) -> (ipc: IpcError)
        ensures
            ipc@ == postman_import_error_view(error),
    {
        match error {
            PostmanImportError::InvalidInput(detail) => IpcError::build(
                IpcErrorCode::InvalidInput,
                "Postman import input is invalid.",
                Some(detail),
                false,
            ),
            PostmanImportError::WorkspaceNotFound => IpcError::build(
                IpcErrorCode::WorkspaceNotFound,
                "Workspace was not found.",
                None,
                false,
            ),
            PostmanImportError::Persistence(_) => IpcError::build(
                IpcErrorCode::PersistenceUnavailable,
                "Postman import persistence is unavailable.",
                None,
                true,
            ),
            PostmanImportError::Secret(detail) => IpcError::build(
                IpcErrorCode::InvalidInput,
                "Secret storage is unavailable for Postman import.",
                Some(detail),
                false,
            ),
        }
    }

    /// The IPC form of a native backup failure.
    pub fn from_native_backup_error(error: NativeBackupError) -> (ipc: IpcError)
        ensures
            ipc@ == native_backup_error_view(error),
    {
        match error {
            NativeBackupError::InvalidInput(detail) => IpcError::build(
                IpcErrorCode::InvalidInput,
                "Native backup input is invalid.",
                Some(detail),
                false,
            ),
            NativeBackupError::InvalidArchive(detail) => IpcError::build(
                IpcErrorCode::InvalidInput,
                "Native backup input is invalid.",
                Some(detail),
                false,
            ),
            NativeBackupError::WorkspaceNotFound => IpcError::build(
                IpcErrorCode::WorkspaceNotFound,
                "Workspace was not found.",
                None,
                false,
            ),
            NativeBackupError::WorkspaceAlreadyExists => IpcError::build(
                IpcErrorCode::WorkspaceAlreadyExists,
                "Workspace name already exists.",
                None,
                false,
            ),
            NativeBackupError::Persistence(_) => IpcError::build(
                IpcErrorCode::PersistenceUnavailable,
                "Native backup persistence is unavailable.",
                None,
                true,
            ),
        }
    }

    /// The IPC form of a cURL failure.
    pub fn from_curl_error(error: CurlError) -> (ipc: IpcError)
        ensures
            ipc@ == curl_error_view(error),
    {
        match error {
            CurlError::InvalidInput(detail) => IpcError::build(
                IpcErrorCode::InvalidInput,
                "cURL input is invalid.",
                Some(detail),
                false,
            ),
            CurlError::Request(request_error) => IpcError::from_request_error(request_error),
        }
    }

    /// The IPC form of any failure met at the boundary.
    pub fn from_boundary_error(error: BoundaryError) -> (ipc: IpcError)
        ensures
            ipc@ == boundary_error_view(error),
    {
        match error {
            BoundaryError::Workspace(e) => IpcError::from_workspace_error(e),
            BoundaryError::Request(e) => IpcError::from_request_error(e),
            BoundaryError::Execution(e) => IpcError::from_execution_error(e),
            BoundaryError::OAuth(e) => IpcError::from_oauth_error(e),
            BoundaryError::NativeBackup(e) => IpcError::from_native_backup_error(e),
            BoundaryError::InvalidWorkspaceId => IpcError::with_detail(
                IpcErrorCode::InvalidInput,
                "Workspace id is invalid.",
                "workspaceId",
                false,
            ),
            BoundaryError::InvalidCollectionId => IpcError::with_detail(
                IpcErrorCode::InvalidInput,
                "Collection id is invalid.",
                "collectionId",
                false,
            ),
            BoundaryError::InvalidEnvironmentId => IpcError::with_detail(
                IpcErrorCode::InvalidInput,
                "Environment id is invalid.",
                "environmentId",
                false,
            ),
            BoundaryError::InvalidSavedRequestId => IpcError::with_detail(
                IpcErrorCode::InvalidInput,
                "Saved request id is invalid.",
                "savedRequestId",
                false,
            ),
            BoundaryError::InvalidRequestDraftId => IpcError::with_detail(
                IpcErrorCode::InvalidInput,
                "Request draft id is invalid.",
                "draftId",
                false,
            ),
            BoundaryError::InvalidRequestTabId => IpcError::with_detail(
                IpcErrorCode::InvalidInput,
                "Request tab id is invalid.",
                "tabId",
                false,
            ),
            BoundaryError::InvalidExecutionId => IpcError::with_detail(
                IpcErrorCode::InvalidInput,
                "Execution id is invalid.",
                "executionId",
                false,
            ),
            BoundaryError::InvalidOAuthFlowId => IpcError::with_detail(
                IpcErrorCode::InvalidInput,
                "OAuth flow id is invalid.",
                "flowId",
                false,
            ),
            BoundaryError::InvalidExecutionRecordId => IpcError::with_detail(
                IpcErrorCode::InvalidInput,
                "Execution record id is invalid.",
                "recordId",
                false,
            ),
            BoundaryError::InvalidCookieId => IpcError::with_detail(
                IpcErrorCode::InvalidInput,
                "Cookie id is invalid.",
                "cookieId",
                false,
            ),
            BoundaryError::StateUnavailable => IpcError::build(
                IpcErrorCode::StateUnavailable,
                "Workspace state is temporarily unavailable.",
                None,
                true,
            ),
        }
    }
}

/// The error a command answers with when the shared state it needs is poisoned;
/// the poison value carries no detail into the answer.
pub fn map_poison_error<T>(_error: T) -> (ipc: IpcError)
    ensures
        ipc@ == boundary_error_view(BoundaryError::StateUnavailable),
{
    IpcError::from_boundary_error(BoundaryError::StateUnavailable)
}

/// A persistence failure reaches the frontend without its cause: whatever the message of
/// the underlying failure, the IPC error is the same one, and it may be retried.
pub proof fn lemma_persistence_failures_hide_their_cause(first: String, second: String)
    ensures
        workspace_error_view(WorkspaceError::Persistence(first)) == workspace_error_view(
            WorkspaceError::Persistence(second),
        ),
        workspace_error_view(WorkspaceError::Persistence(first)).details is None,
        workspace_error_view(WorkspaceError::Persistence(first)).retryable,
        request_error_view(RequestError::Persistence(first)) == request_error_view(
            RequestError::Persistence(second),
        ),
        request_error_view(RequestError::Persistence(first)).details is None,
        request_error_view(RequestError::Persistence(first)).retryable,
        postman_import_error_view(PostmanImportError::Persistence(first))
            == postman_import_error_view(PostmanImportError::Persistence(second)),
        postman_import_error_view(PostmanImportError::Persistence(first)).details is None,
        native_backup_error_view(NativeBackupError::Persistence(first)) == native_backup_error_view(
            NativeBackupError::Persistence(second),
        ),
        native_backup_error_view(NativeBackupError::Persistence(first)).details is None,
{
}

/// An identifier that cannot be read is answered as invalid input that is not worth
/// retrying, with a detail that names the field.
pub proof fn lemma_unreadable_identifiers_are_invalid_input(error: BoundaryError)
    requires
        error is InvalidWorkspaceId || error is InvalidCollectionId || error is InvalidEnvironmentId
            || error is InvalidSavedRequestId || error is InvalidRequestDraftId
            || error is InvalidRequestTabId || error is InvalidExecutionId
            || error is InvalidOAuthFlowId || error is InvalidExecutionRecordId
            || error is InvalidCookieId,
    ensures
        boundary_error_view(error).code == IpcErrorCode::InvalidInput,
        !boundary_error_view(error).retryable,
        boundary_error_view(error).details is Some,
{
}

} // verus!
