//! The typed values that cross the IPC boundary; identifiers travel as UUID text.
use vstd::prelude::*;

verus! {

#[derive(Clone, Debug, PartialEq, Eq)]
pub struct WorkspaceSummaryDto {
    pub id: String,
    pub name: String,
    pub is_selected: bool,
    pub base_directory: Option<String>,
}

#[derive(Clone, Debug, PartialEq, Eq)]
pub struct WorkspaceSnapshotDto {
    pub selected_workspace_id: String,
    pub workspaces: Vec<WorkspaceSummaryDto>,
}

#[derive(Clone, Debug, PartialEq, Eq)]
pub struct CreateWorkspaceInput {
    pub name: String,
}

#[derive(Clone, Debug, PartialEq, Eq)]
pub struct RenameWorkspaceInput {
    pub workspace_id: String,
    pub name: String,
}

#[derive(Clone, Debug, PartialEq, Eq)]
pub struct SetWorkspaceBaseDirectoryInput {
    pub workspace_id: String,
    pub base_directory: Option<String>,
}

#[derive(Clone, Debug, PartialEq, Eq)]
pub struct WorkspaceIdInput {
    pub workspace_id: String,
}

#[derive(Clone, Debug, PartialEq, Eq)]
pub struct OrderedFieldDto {
    pub enabled: bool,
    pub order: u32,
    pub name: String,
    pub value: String,
}

#[derive(Clone, Debug, PartialEq, Eq)]
pub struct RequestContentDto {
    pub name: String,
    pub method: String,
    pub url: String,
    pub body: RequestBodyDto,
    pub query: Vec<OrderedFieldDto>,
    pub headers: Vec<OrderedFieldDto>,
    pub auth: RequestAuthDto,
    pub redirect: RedirectPolicyDto,
    pub tls: TlsPolicyDto,
    pub transport: TransportPolicyDto,
}

#[derive(Clone, Debug, PartialEq, Eq)]
pub enum RequestAuthDto {
    NoAuth,
    Basic {
        username: String,
        password: String,
    },
    Bearer {
        token: String,
    },
    ApiKey {
        placement: ApiKeyPlacementDto,
        name: String,
        value: String,
    },
    ClientCredentials {
        token_endpoint: String,
        client_id: String,
        client_secret: String,
        scopes: Vec<String>,
    },
}

#[derive(Clone, Copy, Debug, PartialEq, Eq, Structural)]
pub enum ApiKeyPlacementDto {
    Header,
    Query,
}

#[derive(Clone, Debug, PartialEq, Eq)]
pub struct RedirectPolicyDto {
    pub enabled: bool,
    pub max_redirects: u8,
}

#[derive(Clone, Debug, PartialEq, Eq)]
pub struct TlsPolicyDto {
    pub verify: bool,
    pub custom_ca_reference: Option<String>,
    pub client_certificate_reference: Option<String>,
    pub client_key_reference: Option<String>,
}

#[derive(Clone, Debug, PartialEq, Eq)]
pub struct TransportPolicyDto {
    pub proxy: ProxyPolicyDto,
    pub timeouts: TimeoutPolicyDto,
}

#[derive(Clone, Debug, PartialEq, Eq)]
pub struct ProxyPolicyDto {
    pub source: ProxySourceDto,
    pub url: Option<String>,
    pub no_proxy: Vec<String>,
}

#[derive(Clone, Copy, Debug, PartialEq, Eq, Structural)]
pub enum ProxySourceDto {
    Disabled,
    ProcessEnvironment,
    Custom,
}

#[derive(Clone, Debug, PartialEq, Eq)]
pub struct TimeoutPolicyDto {
    pub connect_ms: u64,
    pub overall_ms: u64,
    pub idle_ms: u64,
}

#[derive(Clone, Debug, PartialEq, Eq)]
pub enum RequestBodyDto {
    Empty,
    Raw { content: String },
    UrlEncoded { fields: Vec<OrderedFieldDto> },
    Multipart { parts: Vec<MultipartPartDto> },
    Binary { file: BodyFileReferenceDto },
}

#[derive(Clone, Debug, PartialEq, Eq)]
pub enum MultipartPartDto {
    Field {
        enabled: bool,
        order: u32,
        name: String,
        value: String,
    },
    File {
        enabled: bool,
        order: u32,
        name: String,
        file: BodyFileReferenceDto,
    },
}

#[derive(Clone, Debug, PartialEq, Eq)]
pub struct BodyFileReferenceDto {
    pub path: BodyFilePathDto,
    pub file_name: String,
    pub size: u64,
    pub modified_at_epoch_seconds: Option<i64>,
    pub sha256: String,
}

#[derive(Clone, Debug, PartialEq, Eq)]
pub enum BodyFilePathDto {
    Relative { path: String },
    Absolute { path: String },
}

#[derive(Clone, Debug, PartialEq, Eq)]
pub struct DescribeBodyFileInput {
    pub workspace_id: String,
    pub path: String,
}

#[derive(Clone, Debug, PartialEq, Eq)]
pub struct RelinkBodyFilesInput {
    pub workspace_id: String,
    pub from_path: String,
    pub replacement_path: String,
}

#[derive(Clone, Debug, PartialEq, Eq)]
pub struct SavedRequestDto {
    pub id: String,
    pub workspace_id: String,
    pub collection_id: Option<String>,
    pub position: u32,
    pub content: RequestContentDto,
}

#[derive(Clone, Debug, PartialEq, Eq)]
pub struct CollectionFolderDto {
    pub id: String,
    pub workspace_id: String,
    pub parent_collection_id: Option<String>,
    pub name: String,
    pub position: u32,
}

#[derive(Clone, Debug, PartialEq, Eq)]
pub struct EnvironmentDto {
    pub id: String,
    pub workspace_id: String,
    pub name: String,
    pub position: u32,
    pub is_selected: bool,
}

#[derive(Clone, Debug, PartialEq, Eq)]
pub enum VariableValueDto {
    Plain { value: String },
    SecretReference { reference: String },
}

#[derive(Clone, Debug, PartialEq, Eq)]
pub struct VariableDto {
    pub name: String,
    pub value: VariableValueDto,
}

#[derive(Clone, Debug, PartialEq, Eq)]
pub struct CollectionVariableDto {
    pub workspace_id: String,
    pub variable: VariableDto,
}

#[derive(Clone, Debug, PartialEq, Eq)]
pub struct EnvironmentVariableDto {
    pub environment_id: String,
    pub workspace_id: String,
    pub variable: VariableDto,
}

#[derive(Clone, Debug, PartialEq, Eq)]
pub struct RequestDraftDto {
    pub id: String,
    pub workspace_id: String,
    pub saved_request_id: Option<String>,
    pub content: RequestContentDto,
    pub is_dirty: bool,
}

#[derive(Clone, Debug, PartialEq, Eq)]
pub struct RequestTabDto {
    pub id: String,
    pub workspace_id: String,
    pub saved_request_id: Option<String>,
    pub draft_id: String,
    pub position: u32,
    pub title: String,
    pub is_active: bool,
}

#[derive(Clone, Debug, PartialEq, Eq)]
pub struct RequestWorkspaceSnapshotDto {
    pub workspace_id: String,
    pub collection_folders: Vec<CollectionFolderDto>,
    pub environments: Vec<EnvironmentDto>,
    pub collection_variables: Vec<CollectionVariableDto>,
    pub environment_variables: Vec<EnvironmentVariableDto>,
    pub saved_requests: Vec<SavedRequestDto>,
    pub drafts: Vec<RequestDraftDto>,
    pub tabs: Vec<RequestTabDto>,
}

#[derive(Clone, Debug, PartialEq, Eq)]
pub struct PostmanImportInput {
    pub workspace_id: String,
    pub source_name: String,
    pub collection_json: String,
    pub environment_json: Option<String>,
}

#[derive(Clone, Debug, PartialEq, Eq)]
pub struct PostmanExportInput {
    pub workspace_id: String,
    pub source_name: String,
}

#[derive(Clone, Debug, PartialEq, Eq)]
pub struct PostmanExportResultDto {
    pub collection_json: String,
    pub environments: Vec<PostmanEnvironmentExportDto>,
    pub warning_count: u32,
    pub unsupported_count: u32,
    pub warnings: Vec<PostmanImportWarningDto>,
    pub unsupported: Vec<PostmanUnsupportedFieldDto>,
}

#[derive(Clone, Debug, PartialEq, Eq)]
pub struct PostmanEnvironmentExportDto {
    pub name: String,
    pub environment_json: String,
}

#[derive(Clone, Debug, PartialEq, Eq)]
pub struct PostmanImportPreviewDto {
    pub source_id: String,
    pub source_name: String,
    pub source_hash: String,
    pub collection_count: u32,
    pub request_count: u32,
    pub environment_count: u32,
    pub warning_count: u32,
    pub unsupported_count: u32,
    pub warnings: Vec<PostmanImportWarningDto>,
    pub unsupported: Vec<PostmanUnsupportedFieldDto>,
}

#[derive(Clone, Debug, PartialEq, Eq)]
pub struct PostmanImportWarningDto {
    pub location: String,
    pub message: String,
}

#[derive(Clone, Debug, PartialEq, Eq)]
pub struct PostmanUnsupportedFieldDto {
    pub location: String,
    pub reason: String,
}

#[derive(Clone, Debug, PartialEq, Eq)]
pub struct PostmanImportResultDto {
    pub preview: PostmanImportPreviewDto,
    pub snapshot: RequestWorkspaceSnapshotDto,
}

#[derive(Clone, Debug, PartialEq, Eq)]
pub struct PostmanReimportPreviewDto {
    pub import_preview: PostmanImportPreviewDto,
    pub prior_import: Option<PostmanPriorImportDto>,
    pub changes: Vec<PostmanReimportChangeDto>,
    pub can_update: bool,
}

#[derive(Clone, Debug, PartialEq, Eq)]
pub struct PostmanPriorImportDto {
    pub id: String,
    pub source_id: String,
    pub source_name: String,
    pub source_hash: String,
}

#[derive(Clone, Debug, PartialEq, Eq)]
pub struct PostmanReimportChangeDto {
    pub location: String,
    pub message: String,
}

#[derive(Clone, Copy, Debug, PartialEq, Eq, Structural)]
pub enum PostmanReimportDecisionDto {
    Update,
    Duplicate,
    Cancel,
}

#[derive(Clone, Debug, PartialEq, Eq)]
pub struct PostmanReimportInput {
    pub import: PostmanImportInput,
    pub decision: PostmanReimportDecisionDto,
}

#[derive(Clone, Debug, PartialEq, Eq)]
pub struct PostmanReimportResultDto {
    pub preview: PostmanReimportPreviewDto,
    pub snapshot: RequestWorkspaceSnapshotDto,
}

#[derive(Clone, Debug, PartialEq, Eq)]
pub struct NativeBackupExportInput {
    pub workspace_id: String,
    pub backup_path: String,
    pub include_body_files: bool,
    pub body_files_directory: Option<String>,
}

#[derive(Clone, Debug, PartialEq, Eq)]
pub struct NativeBackupRestorePreviewInput {
    pub backup_path: String,
}

#[derive(Clone, Debug, PartialEq, Eq)]
pub struct NativeBackupRestoreInput {
    pub backup_path: String,
    pub workspace_name: String,
    pub body_files_directory: Option<String>,
}

#[derive(Clone, Debug, PartialEq, Eq)]
pub struct NativeBackupExportResultDto {
    pub backup_path: String,
    pub manifest: NativeBackupManifestDto,
    pub preview: NativeBackupRestorePreviewDto,
}

#[derive(Clone, Debug, PartialEq, Eq)]
pub struct NativeBackupRestoreResultDto {
    pub preview: NativeBackupRestorePreviewDto,
    pub workspace_snapshot: WorkspaceSnapshotDto,
    pub request_snapshot: RequestWorkspaceSnapshotDto,
}

#[derive(Clone, Debug, PartialEq, Eq)]
pub struct NativeBackupRestorePreviewDto {
    pub source_workspace_name: String,
    pub collection_count: u32,
    pub request_count: u32,
    pub environment_count: u32,
    pub history_record_count: u32,
    pub cookie_count: u32,
    pub body_file_count: u32,
    pub expanded_bytes: u64,
    pub exclusions: Vec<NativeBackupExclusionDto>,
    pub warnings: Vec<String>,
}

#[derive(Clone, Debug, PartialEq, Eq)]
pub struct NativeBackupExclusionDto {
    pub location: String,
    pub reason: String,
}

#[derive(Clone, Debug, PartialEq, Eq)]
pub struct NativeBackupManifestDto {
    pub format: String,
    pub version: u32,
    pub required_features: Vec<String>,
    pub entries: Vec<NativeBackupManifestEntryDto>,
    pub exclusions: Vec<NativeBackupExclusionDto>,
}

#[derive(Clone, Debug, PartialEq, Eq)]
pub struct NativeBackupManifestEntryDto {
    pub path: String,
    pub sha256: String,
    pub bytes: u64,
}

#[derive(Clone, Debug, PartialEq, Eq)]
pub struct DatabaseRecoveryStateDto {
    pub mode: DatabaseRecoveryModeDto,
    pub reason: Option<String>,
    pub snapshots: Vec<String>,
}

#[derive(Clone, Copy, Debug, PartialEq, Eq, Structural)]
pub enum DatabaseRecoveryModeDto {
    Normal,
    Safe,
}

#[derive(Clone, Debug, PartialEq, Eq)]
pub struct RecoverableDatabaseExportInput {
    pub source_path: String,
    pub export_path: String,
}

#[derive(Clone, Debug, PartialEq, Eq)]
pub struct RecoverableDatabaseExportDto {
    pub export_path: String,
    pub source_path: String,
    pub repaired_copy_path: String,
    pub table_count: u32,
    pub row_count: u32,
    pub redacted_value_count: u32,
}

#[derive(Clone, Debug, PartialEq, Eq)]
pub struct DiagnosticDebugLoggingInput {
    pub enabled: bool,
    pub duration_minutes: Option<u16>,
}

#[derive(Clone, Debug, PartialEq, Eq)]
pub struct DiagnosticBundleExportInput {
    pub bundle_path: String,
}

#[derive(Clone, Debug, PartialEq, Eq)]
pub struct DiagnosticBundlePreviewDto {
    pub entries: Vec<String>,
    pub exclusions: Vec<String>,
    pub debug_logging_enabled: bool,
}

#[derive(Clone, Debug, PartialEq, Eq)]
pub struct DiagnosticDebugLoggingStatusDto {
    pub enabled: bool,
    pub expires_at_epoch_seconds: Option<u64>,
}

#[derive(Clone, Debug, PartialEq, Eq)]
pub struct DiagnosticBundleExportDto {
    pub bundle_path: String,
    pub preview: DiagnosticBundlePreviewDto,
}

#[derive(Clone, Debug, PartialEq, Eq)]
pub struct CurlImportInput {
    pub workspace_id: String,
    pub source_name: String,
    pub command: String,
}

#[derive(Clone, Debug, PartialEq, Eq)]
pub struct CurlGenerateInput {
    pub content: RequestContentDto,
    pub resolved: Option<ResolvedRequestContentDto>,
    pub include_secrets: bool,
}

#[derive(Clone, Debug, PartialEq, Eq)]
pub struct CurlImportPreviewDto {
    pub source_name: String,
    pub content: RequestContentDto,
    pub warning_count: u32,
    pub unsupported_count: u32,
    pub warnings: Vec<CurlImportWarningDto>,
    pub unsupported: Vec<CurlUnsupportedFieldDto>,
}

#[derive(Clone, Debug, PartialEq, Eq)]
pub struct CurlImportWarningDto {
    pub location: String,
    pub message: String,
}

#[derive(Clone, Debug, PartialEq, Eq)]
pub struct CurlUnsupportedFieldDto {
    pub location: String,
    pub reason: String,
}

#[derive(Clone, Debug, PartialEq, Eq)]
pub struct CurlImportResultDto {
    pub preview: CurlImportPreviewDto,
    pub snapshot: RequestWorkspaceSnapshotDto,
}

#[derive(Clone, Debug, PartialEq, Eq)]
pub struct CurlGenerateResultDto {
    pub command: String,
    pub included_secret_count: u32,
    pub redacted_secret_count: u32,
}

#[derive(Clone, Debug, PartialEq, Eq)]
pub struct ExecutionHistorySnapshotDto {
    pub workspace_id: String,
    pub disabled: bool,
    pub records: Vec<ExecutionRecordDto>,
    pub warning: String,
}

#[derive(Clone, Debug, PartialEq, Eq)]
pub struct ExecutionRecordDto {
    pub id: String,
    pub workspace_id: String,
    pub created_at_epoch_seconds: i64,
    pub request: RequestContentDto,
    pub response: ExecutionRecordResponseDto,
    pub pinned: bool,
}

#[derive(Clone, Debug, PartialEq, Eq)]
pub struct ExecutionRecordResponseDto {
    pub status: Option<u16>,
    pub headers: Vec<OrderedFieldDto>,
    pub body_preview: String,
    pub body_truncated: bool,
    pub error: Option<String>,
    pub duration_ms: Option<u64>,
}

#[derive(Clone, Copy, Debug, PartialEq, Eq, Structural)]
pub enum CookieSameSiteDto {
    Strict,
    Lax,
    NoRestriction,
}

#[derive(Clone, Debug, PartialEq, Eq)]
pub struct WorkspaceCookieDto {
    pub id: String,
    pub workspace_id: String,
    pub name: String,
    pub domain: String,
    pub path: String,
    pub secure: bool,
    pub http_only: bool,
    pub same_site: Option<CookieSameSiteDto>,
    pub expires_at_epoch_seconds: Option<i64>,
    pub session: bool,
    pub has_value: bool,
    pub value_preview: String,
}

#[derive(Clone, Debug, PartialEq, Eq)]
pub struct CookieJarSnapshotDto {
    pub workspace_id: String,
    pub cookies: Vec<WorkspaceCookieDto>,
}

#[derive(Clone, Debug, PartialEq, Eq)]
pub struct UpsertCookieInput {
    pub workspace_id: String,
    pub cookie_id: Option<String>,
    pub name: String,
    pub value: String,
    pub domain: String,
    pub path: String,
    pub secure: bool,
    pub http_only: bool,
    pub same_site: Option<CookieSameSiteDto>,
    pub expires_at_epoch_seconds: Option<i64>,
}

#[derive(Clone, Debug, PartialEq, Eq)]
pub struct CookieIdInput {
    pub workspace_id: String,
    pub cookie_id: String,
}

#[derive(Clone, Debug, PartialEq, Eq)]
pub struct RevealCookieValueOutput {
    pub value: String,
}

#[derive(Clone, Debug, PartialEq, Eq)]
pub struct CreateSavedRequestInput {
    pub workspace_id: String,
    pub content: RequestContentDto,
}

#[derive(Clone, Debug, PartialEq, Eq)]
pub struct CollectionLocationDto {
    pub collection_id: Option<String>,
    pub position: u32,
}

#[derive(Clone, Debug, PartialEq, Eq)]
pub struct SelectEnvironmentInput {
    pub workspace_id: String,
    pub environment_id: Option<String>,
}

#[derive(Clone, Debug, PartialEq, Eq)]
pub struct ResolveRequestContentInput {
    pub workspace_id: String,
    pub content: RequestContentDto,
}

#[derive(Clone, Debug, PartialEq, Eq)]
pub struct ResolvedRequestContentDto {
    pub url: ResolvedValueDto,
    pub body: ResolvedValueDto,
    pub query: Vec<ResolvedFieldDto>,
    pub headers: Vec<ResolvedFieldDto>,
    pub unsafe_tls_visible: bool,
    pub references: Vec<ResolvedVariableReferenceDto>,
    pub errors: Vec<VariableResolutionErrorDto>,
}

#[derive(Clone, Debug, PartialEq, Eq)]
pub struct ResolvedFieldDto {
    pub enabled: bool,
    pub order: u32,
    pub name: ResolvedValueDto,
    pub value: ResolvedValueDto,
}

#[derive(Clone, Debug, PartialEq, Eq)]
pub struct ResolvedValueDto {
    pub value: String,
    pub contains_secret: bool,
}

#[derive(Clone, Debug, PartialEq, Eq)]
pub struct ResolvedVariableReferenceDto {
    pub name: String,
    pub source: VariableSourceDto,
    pub value: ResolvedValueDto,
}

#[derive(Clone, Copy, Debug, PartialEq, Eq, Structural)]
pub enum VariableSourceDto {
    Collection,
    Environment,
}

#[derive(Clone, Debug, PartialEq, Eq)]
pub struct VariableResolutionErrorDto {
    pub name: String,
    pub kind: VariableResolutionErrorKindDto,
}

#[derive(Clone, Copy, Debug, PartialEq, Eq, Structural)]
pub enum VariableResolutionErrorKindDto {
    Missing,
    Cycle,
}

#[derive(Clone, Debug, PartialEq, Eq)]
pub struct CreateCollectionFolderInput {
    pub workspace_id: String,
    pub parent_collection_id: Option<String>,
    pub name: String,
}

#[derive(Clone, Debug, PartialEq, Eq)]
pub struct RenameCollectionFolderInput {
    pub workspace_id: String,
    pub collection_id: String,
    pub name: String,
}

#[derive(Clone, Debug, PartialEq, Eq)]
pub struct MoveCollectionFolderInput {
    pub workspace_id: String,
    pub collection_id: String,
    pub location: CollectionLocationDto,
}

#[derive(Clone, Debug, PartialEq, Eq)]
pub struct CollectionFolderIdInput {
    pub workspace_id: String,
    pub collection_id: String,
}

#[derive(Clone, Debug, PartialEq, Eq)]
pub struct MoveSavedRequestInput {
    pub workspace_id: String,
    pub saved_request_id: String,
    pub location: CollectionLocationDto,
}

#[derive(Clone, Debug, PartialEq, Eq)]
pub struct SavedRequestIdInput {
    pub workspace_id: String,
    pub saved_request_id: String,
}

#[derive(Clone, Debug, PartialEq, Eq)]
pub struct OpenSavedRequestTabInput {
    pub workspace_id: String,
    pub saved_request_id: String,
}

#[derive(Clone, Debug, PartialEq, Eq)]
pub struct UpdateRequestDraftInput {
    pub workspace_id: String,
    pub draft_id: String,
    pub content: RequestContentDto,
}

#[derive(Clone, Debug, PartialEq, Eq)]
pub struct RequestDraftIdInput {
    pub workspace_id: String,
    pub draft_id: String,
}

#[derive(Clone, Copy, Debug, PartialEq, Eq, Structural)]
pub enum CloseTabDecisionDto {
    Save,
    Discard,
    Cancel,
}

#[derive(Clone, Debug, PartialEq, Eq)]
pub struct CloseRequestTabInput {
    pub workspace_id: String,
    pub tab_id: String,
    pub decision: CloseTabDecisionDto,
}

#[derive(Clone, Debug, PartialEq, Eq)]
pub struct SetExecutionHistoryDisabledInput {
    pub workspace_id: String,
    pub disabled: bool,
}

#[derive(Clone, Debug, PartialEq, Eq)]
pub struct SetExecutionRecordPinnedInput {
    pub workspace_id: String,
    pub record_id: String,
    pub pinned: bool,
}

#[derive(Clone, Debug, PartialEq, Eq)]
pub struct ExecutionRecordIdInput {
    pub workspace_id: String,
    pub record_id: String,
}

#[derive(Clone, Debug, PartialEq, Eq)]
pub struct StartRequestExecutionInput {
    pub workspace_id: String,
    pub draft_id: String,
    pub content: RequestContentDto,
}

#[derive(Clone, Debug, PartialEq, Eq)]
pub struct StartRequestExecutionOutput {
    pub execution_id: String,
}

#[derive(Clone, Debug, PartialEq, Eq)]
pub struct CancelRequestExecutionInput {
    pub execution_id: String,
}

#[derive(Clone, Debug, PartialEq, Eq)]
pub struct CancelRequestExecutionOutput {
    pub execution_id: String,
    pub cancelled: bool,
}

#[derive(Clone, Debug, PartialEq, Eq)]
pub struct SaveResponseFileInput {
    pub source_path: String,
    pub destination_path: String,
}

#[derive(Clone, Debug, PartialEq, Eq)]
pub struct SaveResponseFileOutput {
    pub destination_path: String,
    pub byte_count: u64,
}

#[derive(Clone, Debug, PartialEq, Eq)]
pub struct StartOAuthAuthorizationInput {
    pub flow_id: String,
    pub authorization_endpoint: String,
    pub client_id: String,
    pub scopes: Vec<String>,
    pub redirect_path: Option<String>,
    pub timeout_ms: Option<u64>,
}

#[derive(Clone, Debug, PartialEq, Eq)]
pub struct OAuthAuthorizationResultDto {
    pub flow_id: String,
    pub redirect_uri: String,
    pub code: Option<String>,
    pub state: Option<String>,
    pub error: Option<String>,
    pub error_description: Option<String>,
}

#[derive(Clone, Debug, PartialEq, Eq)]
pub struct CancelOAuthAuthorizationInput {
    pub flow_id: String,
}

#[derive(Clone, Debug, PartialEq, Eq)]
pub struct CancelOAuthAuthorizationOutput {
    pub flow_id: String,
    pub cancelled: bool,
}

#[derive(Clone, Debug, PartialEq, Eq)]
pub struct ExecutionEventDto {
    pub execution_id: String,
    pub sequence: u64,
    pub kind: ExecutionEventKindDto,
}

#[derive(Clone, Debug, PartialEq, Eq)]
pub enum ExecutionEventKindDto {
    Started {
        method: String,
        url: String,
        tls_verification: bool,
        proxy: ExecutionProxyMetadataDto,
        timeouts: ExecutionTimeoutMetadataDto,
        queued_ms: u64,
    },
    Redirected {
        from: String,
        to: String,
        status: u16,
    },
    UploadProgress {
        sent_bytes: u64,
        total_bytes: u64,
    },
    ResponseHeaders {
        status: u16,
        headers: Vec<ExecutionHeaderDto>,
        protocol: String,
        remote_addr: Option<String>,
    },
    DownloadProgress {
        received_bytes: u64,
        total_bytes: Option<u64>,
    },
    Completed {
        status: u16,
        body_preview: String,
        body_truncated: bool,
        decoded_bytes: u64,
        wire_bytes: Option<u64>,
        response_file: Option<ResponseFileMetadataDto>,
        timing: ExecutionTimingMetadataDto,
    },
    Failed {
        message: String,
    },
    Cancelled,
}

#[derive(Clone, Debug, PartialEq, Eq)]
pub struct ExecutionHeaderDto {
    pub name: String,
    pub value: String,
}

#[derive(Clone, Debug, PartialEq, Eq)]
pub struct ResponseFileMetadataDto {
    pub path: String,
    pub byte_count: u64,
    pub expires_at_epoch_seconds: u64,
}

#[derive(Clone, Debug, PartialEq, Eq)]
pub struct ExecutionProxyMetadataDto {
    pub source: String,
    pub selected_proxy: Option<String>,
    pub bypass_reason: Option<String>,
}

#[derive(Clone, Debug, PartialEq, Eq)]
pub struct ExecutionTimeoutMetadataDto {
    pub connect_ms: Option<u64>,
    pub overall_ms: Option<u64>,
    pub idle_ms: Option<u64>,
}

#[derive(Clone, Debug, Default, PartialEq, Eq)]
pub struct ExecutionTimingMetadataDto {
    pub queued_ms: u64,
    pub dns_ms: Option<u64>,
    pub connect_ms: Option<u64>,
    pub tls_ms: Option<u64>,
    pub first_byte_ms: Option<u64>,
    pub download_ms: Option<u64>,
    pub total_ms: u64,
}

#[derive(Clone, Debug, PartialEq, Eq)]
pub struct CreateEnvironmentInput {
    pub workspace_id: String,
    pub name: String,
}

#[derive(Clone, Debug, PartialEq, Eq)]
pub struct EnvironmentIdInput {
    pub workspace_id: String,
    pub environment_id: String,
}

} // verus!
