//! The workspace and request model the services work on.
use vstd::prelude::*;
use crate::ids::{
    CollectionId, CookieId, EnvironmentId, ExecutionId, ExecutionRecordId, OAuthFlowId,
    RequestDraftId, RequestTabId, SavedRequestId, WorkspaceId,
};

verus! {

/// A workspace as listed to the user.
#[derive(Clone, Debug, PartialEq, Eq)]
pub struct WorkspaceSummary {
    pub id: WorkspaceId,
    pub name: String,
    pub is_selected: bool,
    pub base_directory: Option<String>,
}

/// Every workspace and the one that is selected.
#[derive(Clone, Debug, PartialEq, Eq)]
pub struct WorkspaceSnapshot {
    pub selected_workspace_id: WorkspaceId,
    pub workspaces: Vec<WorkspaceSummary>,
}

/// One row of an ordered name/value list (query parameters, headers, form fields).
#[derive(Clone, Debug, PartialEq, Eq)]
pub struct OrderedField {
    pub enabled: bool,
    pub order: u32,
    pub name: String,
    pub value: String,
}

/// Where an API key is sent.
#[derive(Clone, Copy, Debug, PartialEq, Eq, Structural)]
pub enum ApiKeyPlacement {
    Header,
    Query,
}

/// How a request authenticates.
#[derive(Clone, Debug, PartialEq, Eq)]
pub enum RequestAuth {
    NoAuth,
    Basic { username: String, password: String },
    Bearer { token: String },
    ApiKey { placement: ApiKeyPlacement, name: String, value: String },
    ClientCredentials {
        token_endpoint: String,
        client_id: String,
        client_secret: String,
        scopes: Vec<String>,
    },
}

/// Whether and how far redirects are followed.
#[derive(Clone, Copy, Debug, PartialEq, Eq, Structural)]
pub struct RedirectPolicy {
    pub enabled: bool,
    pub max_redirects: u8,
}

/// Certificate checks and client certificate references.
#[derive(Clone, Debug, PartialEq, Eq)]
pub struct TlsPolicy {
    pub verify: bool,
    pub custom_ca_reference: Option<String>,
    pub client_certificate_reference: Option<String>,
    pub client_key_reference: Option<String>,
}

/// Where the proxy setting comes from.
#[derive(Clone, Copy, Debug, PartialEq, Eq, Structural)]
pub enum ProxySource {
    Disabled,
    ProcessEnvironment,
    Custom,
}

/// The proxy a request goes through.
#[derive(Clone, Debug, PartialEq, Eq)]
pub struct ProxyPolicy {
    pub source: ProxySource,
    pub url: Option<String>,
    pub no_proxy: Vec<String>,
}

/// Time limits of a request, in milliseconds.
#[derive(Clone, Copy, Debug, PartialEq, Eq, Structural)]
pub struct TimeoutPolicy {
    pub connect_ms: u64,
    pub overall_ms: u64,
    pub idle_ms: u64,
}

/// Proxy and time limits of a request.
#[derive(Clone, Debug, PartialEq, Eq)]
pub struct TransportPolicy {
    pub proxy: ProxyPolicy,
    pub timeouts: TimeoutPolicy,
}

/// A path to a body file, relative to the workspace's base directory or absolute.
#[derive(Clone, Debug, PartialEq, Eq)]
pub enum BodyFilePath {
    Relative { path: String },
    Absolute { path: String },
}

/// A file sent as (part of) a request body, with what was known of it when chosen.
#[derive(Clone, Debug, PartialEq, Eq)]
pub struct BodyFileReference {
    pub path: BodyFilePath,
    pub file_name: String,
    pub size: u64,
    pub modified_at_epoch_seconds: Option<i64>,
    pub sha256: String,
}

/// One part of a multipart body.
#[derive(Clone, Debug, PartialEq, Eq)]
pub enum MultipartPart {
    Field { enabled: bool, order: u32, name: String, value: String },
    File { enabled: bool, order: u32, name: String, file: BodyFileReference },
}

/// The body of a request.
#[derive(Clone, Debug, PartialEq, Eq)]
pub enum RequestBody {
    Empty,
    Raw { content: String },
    UrlEncoded { fields: Vec<OrderedField> },
    Multipart { parts: Vec<MultipartPart> },
    Binary { file: BodyFileReference },
}

/// Everything that describes a request.
#[derive(Clone, Debug, PartialEq, Eq)]
pub struct RequestContent {
    pub name: String,
    pub method: String,
    pub url: String,
    pub body: RequestBody,
    pub query: Vec<OrderedField>,
    pub headers: Vec<OrderedField>,
    pub auth: RequestAuth,
    pub redirect: RedirectPolicy,
    pub tls: TlsPolicy,
    pub transport: TransportPolicy,
}

/// A request saved in a workspace, at a position under a collection or the root.
#[derive(Clone, Debug, PartialEq, Eq)]
pub struct SavedRequest {
    pub id: SavedRequestId,
    pub workspace_id: WorkspaceId,
    pub collection_id: Option<CollectionId>,
    pub position: u32,
    pub content: RequestContent,
}

/// A folder of the collection tree.
#[derive(Clone, Debug, PartialEq, Eq)]
pub struct CollectionFolder {
    pub id: CollectionId,
    pub workspace_id: WorkspaceId,
    pub parent_collection_id: Option<CollectionId>,
    pub name: String,
    pub position: u32,
}

/// A named set of variables, at most one of them selected.
#[derive(Clone, Debug, PartialEq, Eq)]
pub struct Environment {
    pub id: EnvironmentId,
    pub workspace_id: WorkspaceId,
    pub name: String,
    pub position: u32,
    pub is_selected: bool,
}

/// The value of a variable: plain text or a reference into the secret store.
#[derive(Clone, Debug, PartialEq, Eq)]
pub enum VariableValue {
    Plain(String),
    SecretReference(String),
}

/// A named variable.
#[derive(Clone, Debug, PartialEq, Eq)]
pub struct Variable {
    pub name: String,
    pub value: VariableValue,
}

/// A variable of the workspace's collection.
#[derive(Clone, Debug, PartialEq, Eq)]
pub struct CollectionVariable {
    pub workspace_id: WorkspaceId,
    pub variable: Variable,
}

/// A variable of an environment.
#[derive(Clone, Debug, PartialEq, Eq)]
pub struct EnvironmentVariable {
    pub environment_id: EnvironmentId,
    pub workspace_id: WorkspaceId,
    pub variable: Variable,
}

/// The editable copy of a request that a tab shows.
#[derive(Clone, Debug, PartialEq, Eq)]
pub struct RequestDraft {
    pub id: RequestDraftId,
    pub workspace_id: WorkspaceId,
    pub saved_request_id: Option<SavedRequestId>,
    pub content: RequestContent,
    pub is_dirty: bool,
}

/// An open request tab.
#[derive(Clone, Debug, PartialEq, Eq)]
pub struct RequestTab {
    pub id: RequestTabId,
    pub workspace_id: WorkspaceId,
    pub saved_request_id: Option<SavedRequestId>,
    pub draft_id: RequestDraftId,
    pub position: u32,
    pub title: String,
    pub is_active: bool,
}

/// Everything the request editor of one workspace shows.
#[derive(Clone, Debug, PartialEq, Eq)]
pub struct RequestWorkspaceSnapshot {
    pub workspace_id: WorkspaceId,
    pub collection_folders: Vec<CollectionFolder>,
    pub environments: Vec<Environment>,
    pub collection_variables: Vec<CollectionVariable>,
    pub environment_variables: Vec<EnvironmentVariable>,
    pub saved_requests: Vec<SavedRequest>,
    pub drafts: Vec<RequestDraft>,
    pub tabs: Vec<RequestTab>,
}

/// Where a saved request or folder is moved to.
#[derive(Clone, Copy, Debug, PartialEq, Eq, Structural)]
pub struct CollectionLocation {
    pub collection_id: Option<CollectionId>,
    pub position: u32,
}

/// What to do with unsaved changes when a tab closes.
#[derive(Clone, Copy, Debug, PartialEq, Eq, Structural)]
pub enum CloseTabDecision {
    Save,
    Discard,
    Cancel,
}

/// The response a history record keeps.
#[derive(Clone, Debug, PartialEq, Eq)]
pub struct ExecutionRecordResponse {
    pub status: Option<u16>,
    pub headers: Vec<OrderedField>,
    pub body_preview: String,
    pub body_truncated: bool,
    pub error: Option<String>,
    pub duration_ms: Option<u64>,
}

/// One entry of the execution history.
#[derive(Clone, Debug, PartialEq, Eq)]
pub struct ExecutionRecord {
    pub id: ExecutionRecordId,
    pub workspace_id: WorkspaceId,
    pub created_at_epoch_seconds: i64,
    pub request: RequestContent,
    pub response: ExecutionRecordResponse,
    pub pinned: bool,
}

/// The execution history of a workspace.
#[derive(Clone, Debug, PartialEq, Eq)]
pub struct ExecutionHistorySnapshot {
    pub workspace_id: WorkspaceId,
    pub disabled: bool,
    pub records: Vec<ExecutionRecord>,
    pub warning: String,
}

/// The SameSite attribute of a cookie.
#[derive(Clone, Copy, Debug, PartialEq, Eq, Structural)]
pub enum CookieSameSite {
    Strict,
    Lax,
    NoRestriction,
}

/// The metadata of a cookie of a workspace; its value lives in the secret store.
#[derive(Clone, Debug, PartialEq, Eq)]
pub struct WorkspaceCookie {
    pub id: CookieId,
    pub workspace_id: WorkspaceId,
    pub name: String,
    pub domain: String,
    pub path: String,
    pub secure: bool,
    pub http_only: bool,
    pub same_site: Option<CookieSameSite>,
    pub expires_at_epoch_seconds: Option<i64>,
    pub session: bool,
    pub has_value: bool,
    pub secret_reference: Option<String>,
}

/// The cookies of a workspace.
#[derive(Clone, Debug, PartialEq, Eq)]
pub struct CookieJarSnapshot {
    pub workspace_id: WorkspaceId,
    pub cookies: Vec<WorkspaceCookie>,
}

/// A cookie to create or update.
#[derive(Clone, Debug, PartialEq, Eq)]
pub struct CookieDraft {
    pub id: Option<CookieId>,
    pub workspace_id: WorkspaceId,
    pub name: String,
    pub value: String,
    pub domain: String,
    pub path: String,
    pub secure: bool,
    pub http_only: bool,
    pub same_site: Option<CookieSameSite>,
    pub expires_at_epoch_seconds: Option<i64>,
}

/// A text after variable substitution, and whether a secret went into it.
#[derive(Clone, Debug, PartialEq, Eq)]
pub struct ResolvedValue {
    pub value: String,
    pub contains_secret: bool,
}

/// An ordered field after variable substitution.
#[derive(Clone, Debug, PartialEq, Eq)]
pub struct ResolvedField {
    pub enabled: bool,
    pub order: u32,
    pub name: ResolvedValue,
    pub value: ResolvedValue,
}

/// Where a variable was found.
#[derive(Clone, Copy, Debug, PartialEq, Eq, Structural)]
pub enum VariableSource {
    Collection,
    Environment,
}

/// A variable that substitution used.
#[derive(Clone, Debug, PartialEq, Eq)]
pub struct ResolvedVariableReference {
    pub name: String,
    pub source: VariableSource,
    pub value: ResolvedValue,
}

/// Why a variable could not be substituted.
#[derive(Clone, Copy, Debug, PartialEq, Eq, Structural)]
pub enum VariableResolutionErrorKind {
    Missing,
    Cycle,
}

/// A variable that could not be substituted.
#[derive(Clone, Debug, PartialEq, Eq)]
pub struct VariableResolutionError {
    pub name: String,
    pub kind: VariableResolutionErrorKind,
}

/// One part of a multipart body after substitution.
#[derive(Clone, Debug, PartialEq, Eq)]
pub enum ResolvedMultipartPart {
    Field { enabled: bool, order: u32, name: ResolvedValue, value: ResolvedValue },
    File { enabled: bool, order: u32, name: ResolvedValue },
}

/// The body of a request after substitution.
#[derive(Clone, Debug, PartialEq, Eq)]
pub enum ResolvedRequestBody {
    Empty,
    Raw { content: ResolvedValue },
    UrlEncoded { fields: Vec<ResolvedField> },
    Multipart { parts: Vec<ResolvedMultipartPart> },
    Binary,
}

/// A request after variable substitution.
#[derive(Clone, Debug, PartialEq, Eq)]
pub struct ResolvedRequestContent {
    pub url: ResolvedValue,
    pub body: ResolvedValue,
    pub body_kind: ResolvedRequestBody,
    pub query: Vec<ResolvedField>,
    pub headers: Vec<ResolvedField>,
    pub unsafe_tls_visible: bool,
    pub references: Vec<ResolvedVariableReference>,
    pub errors: Vec<VariableResolutionError>,
}

/// A response header as the transport reported it.
#[derive(Clone, Debug, PartialEq, Eq)]
pub struct ExecutionHeader {
    pub name: String,
    pub value: String,
}

/// The proxy a running request went through, and why one was bypassed.
#[derive(Clone, Debug, PartialEq, Eq)]
pub struct ExecutionProxyMetadata {
    pub source: String,
    pub selected_proxy: Option<String>,
    pub bypass_reason: Option<String>,
}

/// The time limits a running request was given.
#[derive(Clone, Copy, Debug, PartialEq, Eq, Structural)]
pub struct ExecutionTimeoutMetadata {
    pub connect_ms: Option<u64>,
    pub overall_ms: Option<u64>,
    pub idle_ms: Option<u64>,
}

/// How long the phases of a request took.
#[derive(Clone, Copy, Debug, PartialEq, Eq, Structural)]
pub struct ExecutionTimingMetadata {
    pub queued_ms: u64,
    pub dns_ms: Option<u64>,
    pub connect_ms: Option<u64>,
    pub tls_ms: Option<u64>,
    pub first_byte_ms: Option<u64>,
    pub download_ms: Option<u64>,
    pub total_ms: u64,
}

/// A response body that was written to a temporary file.
#[derive(Clone, Debug, PartialEq, Eq)]
pub struct ResponseFileMetadata {
    pub path: String,
    pub byte_count: u64,
    pub expires_at_epoch_seconds: u64,
}

/// What happened to a running request.
#[derive(Clone, Debug, PartialEq, Eq)]
pub enum ExecutionEventKind {
    Started {
        method: String,
        url: String,
        tls_verification: bool,
        proxy: ExecutionProxyMetadata,
        timeouts: ExecutionTimeoutMetadata,
        queued_ms: u64,
    },
    Redirected { from: String, to: String, status: u16 },
    UploadProgress { sent_bytes: u64, total_bytes: u64 },
    ResponseHeaders {
        status: u16,
        headers: Vec<ExecutionHeader>,
        protocol: String,
        remote_addr: Option<String>,
    },
    DownloadProgress { received_bytes: u64, total_bytes: Option<u64> },
    Completed {
        status: u16,
        body_preview: String,
        body_truncated: bool,
        decoded_bytes: u64,
        wire_bytes: Option<u64>,
        response_file: Option<ResponseFileMetadata>,
        timing: ExecutionTimingMetadata,
    },
    Failed { message: String },
    Cancelled,
}

/// An event of a running request, numbered in the order it was emitted.
#[derive(Clone, Debug, PartialEq, Eq)]
pub struct ExecutionEvent {
    pub execution_id: ExecutionId,
    pub sequence: u64,
    pub kind: ExecutionEventKind,
}

/// The answer to a started execution.
#[derive(Clone, Copy, Debug, PartialEq, Eq, Structural)]
pub struct StartExecutionResult {
    pub execution_id: ExecutionId,
}

/// The answer to a cancellation.
#[derive(Clone, Copy, Debug, PartialEq, Eq, Structural)]
pub struct CancelExecutionResult {
    pub execution_id: ExecutionId,
    pub cancelled: bool,
}

/// An OAuth authorization to start in the system browser.
#[derive(Clone, Debug, PartialEq, Eq)]
pub struct StartOAuthAuthorizationRequest {
    pub flow_id: OAuthFlowId,
    pub authorization_endpoint: String,
    pub client_id: String,
    pub scopes: Vec<String>,
    pub redirect_path: Option<String>,
    pub timeout_ms: Option<u64>,
}

/// What the authorization callback brought back.
#[derive(Clone, Debug, PartialEq, Eq)]
pub struct OAuthAuthorizationResult {
    pub flow_id: OAuthFlowId,
    pub redirect_uri: String,
    pub code: Option<String>,
    pub state: Option<String>,
    pub error: Option<String>,
    pub error_description: Option<String>,
}

/// The answer to a cancelled authorization.
#[derive(Clone, Copy, Debug, PartialEq, Eq, Structural)]
pub struct CancelOAuthAuthorizationResult {
    pub flow_id: OAuthFlowId,
    pub cancelled: bool,
}

impl Default for RequestAuth {
    /// No authentication, what a request stored before authentication existed has.
    fn default() -> (auth: RequestAuth)
        ensures
            auth == RequestAuth::NoAuth,
    {
        RequestAuth::NoAuth
    }
}

impl Default for RedirectPolicy {
    /// Redirects followed, at most ten.
    fn default() -> (policy: RedirectPolicy)
        ensures
            policy == (RedirectPolicy { enabled: true, max_redirects: 10 }),
    {
        RedirectPolicy { enabled: true, max_redirects: 10 }
    }
}

impl Default for TlsPolicy {
    /// Certificates verified, no custom CA or client certificate.
    fn default() -> (policy: TlsPolicy)
        ensures
            policy.verify,
            policy.custom_ca_reference is None,
            policy.client_certificate_reference is None,
            policy.client_key_reference is None,
    {
        TlsPolicy {
            verify: true,
            custom_ca_reference: None,
            client_certificate_reference: None,
            client_key_reference: None,
        }
    }
}

impl Default for TransportPolicy {
    /// The proxy of the process environment, with no exceptions, and time limits of ten
    /// seconds to connect, five minutes overall and one minute idle.
    fn default() -> (policy: TransportPolicy)
        ensures
            policy.proxy.source == ProxySource::ProcessEnvironment,
            policy.proxy.url is None,
            policy.proxy.no_proxy@ == Seq::<String>::empty(),
            policy.timeouts == (TimeoutPolicy { connect_ms: 10000, overall_ms: 300000, idle_ms: 60000 }),
    {
        TransportPolicy {
            proxy: ProxyPolicy { source: ProxySource::ProcessEnvironment, url: None, no_proxy: Vec::new() },
            timeouts: TimeoutPolicy { connect_ms: 10000, overall_ms: 300000, idle_ms: 60000 },
        }
    }
}

} // verus!
