//! Postman imports and exports and native backups at the IPC boundary: the
//! requests the commands hand to their services, the IPC form of what the
//! services answer, and the commands themselves.
use vstd::prelude::*;
use crate::conversions::{
    map_vec, pairwise, parse_workspace_id, request_workspace_snapshot_dto_of,
    workspace_snapshot_dto_of,
};
use crate::domain::{RequestWorkspaceSnapshot, WorkspaceSnapshot};
use crate::dto::{
    NativeBackupExclusionDto, NativeBackupExportInput, NativeBackupExportResultDto,
    NativeBackupManifestDto, NativeBackupManifestEntryDto, NativeBackupRestoreInput,
    NativeBackupRestorePreviewDto, NativeBackupRestorePreviewInput, NativeBackupRestoreResultDto,
    PostmanEnvironmentExportDto, PostmanExportInput, PostmanExportResultDto, PostmanImportInput,
    PostmanImportPreviewDto, PostmanImportResultDto, PostmanImportWarningDto,
    PostmanPriorImportDto, PostmanReimportChangeDto, PostmanReimportDecisionDto,
    PostmanReimportInput, PostmanReimportPreviewDto, PostmanReimportResultDto,
    PostmanUnsupportedFieldDto, RequestWorkspaceSnapshotDto, WorkspaceSnapshotDto,
};
use crate::errors::{
    boundary_error_view, postman_import_error_view, BoundaryError, IpcError, NativeBackupError,
    PostmanImportError,
};
use crate::handlers::rejected;
use crate::ids::WorkspaceId;

verus! {

// ----- what the Postman service answers -----

/// A warning raised while converting a Postman collection.
#[derive(Clone, Debug, PartialEq, Eq)]
pub struct PostmanImportWarning {
    pub location: String,
    pub message: String,
}

/// A part of a Postman collection that has no counterpart here.
#[derive(Clone, Debug, PartialEq, Eq)]
pub struct PostmanUnsupportedField {
    pub location: String,
    pub reason: String,
}

/// What importing a Postman collection would create.
#[derive(Clone, Debug, PartialEq, Eq)]
pub struct PostmanImportPreview {
    pub source_id: String,
    pub source_name: String,
    pub source_hash: String,
    pub collection_count: u32,
    pub request_count: u32,
    pub environment_count: u32,
    pub warning_count: u32,
    pub unsupported_count: u32,
    pub warnings: Vec<PostmanImportWarning>,
    pub unsupported: Vec<PostmanUnsupportedField>,
}

/// A finished Postman import and the request workspace it left.
#[derive(Clone, Debug, PartialEq, Eq)]
pub struct PostmanImportResult {
    pub preview: PostmanImportPreview,
    pub snapshot: RequestWorkspaceSnapshot,
}

/// An earlier import of the same Postman source.
#[derive(Clone, Debug, PartialEq, Eq)]
pub struct PostmanPriorImport {
    pub id: String,
    pub source_id: String,
    pub source_name: String,
    pub source_hash: String,
}

/// A difference between a Postman source and its earlier import.
#[derive(Clone, Debug, PartialEq, Eq)]
pub struct PostmanReimportChange {
    pub location: String,
    pub message: String,
}

/// What importing a Postman source again would change.
#[derive(Clone, Debug, PartialEq, Eq)]
pub struct PostmanReimportPreview {
    pub import_preview: PostmanImportPreview,
    pub prior_import: Option<PostmanPriorImport>,
    pub changes: Vec<PostmanReimportChange>,
    pub can_update: bool,
}

/// A finished reimport and the request workspace it left.
#[derive(Clone, Debug, PartialEq, Eq)]
pub struct PostmanReimportResult {
    pub preview: PostmanReimportPreview,
    pub snapshot: RequestWorkspaceSnapshot,
}

/// An environment exported as a Postman environment.
#[derive(Clone, Debug, PartialEq, Eq)]
pub struct PostmanEnvironmentExport {
    pub name: String,
    pub environment_json: String,
}

/// A workspace exported as a Postman collection and environments.
#[derive(Clone, Debug, PartialEq, Eq)]
pub struct PostmanExportResult {
    pub collection_json: String,
    pub environments: Vec<PostmanEnvironmentExport>,
    pub warning_count: u32,
    pub unsupported_count: u32,
    pub warnings: Vec<PostmanImportWarning>,
    pub unsupported: Vec<PostmanUnsupportedField>,
}

/// What a reimport does with a source imported before.
#[derive(Clone, Copy, Debug, PartialEq, Eq, Structural)]
pub enum PostmanReimportDecision {
    Update,
    Duplicate,
    Cancel,
}

/// A Postman source to preview or import into a workspace.
#[derive(Clone, Debug, PartialEq, Eq)]
pub struct PostmanImportRequest {
    pub workspace_id: WorkspaceId,
    pub source_name: String,
    pub collection_json: String,
    pub environment_json: Option<String>,
}

/// A workspace to export as a Postman collection.
#[derive(Clone, Debug, PartialEq, Eq)]
pub struct PostmanExportRequest {
    pub workspace_id: WorkspaceId,
    pub source_name: String,
}

/// A Postman source to import again, and what to do with the earlier import.
#[derive(Clone, Debug, PartialEq, Eq)]
pub struct PostmanReimportRequest {
    pub import: PostmanImportRequest,
    pub decision: PostmanReimportDecision,
}

/// The Postman service the Postman commands delegate to.
///
/// It is implemented by the application layer around the import repository;
/// nothing is assumed of what it answers.
pub trait PostmanService {
    fn preview(&self, input: &PostmanImportRequest) -> Result<PostmanImportPreview, PostmanImportError>;

    fn import(&mut self, input: PostmanImportRequest) -> Result<PostmanImportResult, PostmanImportError>;

    fn export(&self, input: &PostmanExportRequest) -> Result<PostmanExportResult, PostmanImportError>;

    fn preview_reimport(&self, input: &PostmanImportRequest) -> Result<
        PostmanReimportPreview,
        PostmanImportError,
    >;

    fn reimport(&mut self, input: PostmanReimportRequest) -> Result<
        PostmanReimportResult,
        PostmanImportError,
    >;
}

// ----- the IPC form of Postman answers -----

/// `dto` carries the warning.
pub open spec fn postman_warning_dto_of(dto: PostmanImportWarningDto, warning: PostmanImportWarning) -> bool {
    dto.location == warning.location && dto.message == warning.message
}

/// `dto` carries the unsupported field.
pub open spec fn postman_unsupported_dto_of(
    dto: PostmanUnsupportedFieldDto,
    field: PostmanUnsupportedField,
) -> bool {
    dto.location == field.location && dto.reason == field.reason
}

/// `dto` carries the import preview, its warnings and unsupported fields in order.
pub open spec fn postman_preview_dto_of(dto: PostmanImportPreviewDto, preview: PostmanImportPreview) -> bool {
    &&& dto.source_id == preview.source_id
    &&& dto.source_name == preview.source_name
    &&& dto.source_hash == preview.source_hash
    &&& dto.collection_count == preview.collection_count
    &&& dto.request_count == preview.request_count
    &&& dto.environment_count == preview.environment_count
    &&& dto.warning_count == preview.warning_count
    &&& dto.unsupported_count == preview.unsupported_count
    &&& pairwise(
        dto.warnings@,
        preview.warnings@,
        |d: PostmanImportWarningDto, w: PostmanImportWarning| postman_warning_dto_of(d, w),
    )
    &&& pairwise(
        dto.unsupported@,
        preview.unsupported@,
        |d: PostmanUnsupportedFieldDto, f: PostmanUnsupportedField| postman_unsupported_dto_of(d, f),
    )
}

/// `dto` carries the import and the request workspace it left.
pub open spec fn postman_import_dto_of(dto: PostmanImportResultDto, result: PostmanImportResult) -> bool {
    &&& postman_preview_dto_of(dto.preview, result.preview)
    &&& request_workspace_snapshot_dto_of(dto.snapshot, result.snapshot)
}

/// `dto` carries the earlier import.
pub open spec fn postman_prior_import_dto_of(dto: PostmanPriorImportDto, prior: PostmanPriorImport) -> bool {
    &&& dto.id == prior.id
    &&& dto.source_id == prior.source_id
    &&& dto.source_name == prior.source_name
    &&& dto.source_hash == prior.source_hash
}

/// `dto` carries the change.
pub open spec fn postman_change_dto_of(dto: PostmanReimportChangeDto, change: PostmanReimportChange) -> bool {
    dto.location == change.location && dto.message == change.message
}

/// `dto` carries the reimport preview, its changes in order.
pub open spec fn postman_reimport_preview_dto_of(
    dto: PostmanReimportPreviewDto,
    preview: PostmanReimportPreview,
) -> bool {
    &&& postman_preview_dto_of(dto.import_preview, preview.import_preview)
    &&& match (dto.prior_import, preview.prior_import) {
        (Some(d), Some(p)) => postman_prior_import_dto_of(d, p),
        (None, None) => true,
        _ => false,
    }
    &&& pairwise(
        dto.changes@,
        preview.changes@,
        |d: PostmanReimportChangeDto, c: PostmanReimportChange| postman_change_dto_of(d, c),
    )
    &&& dto.can_update == preview.can_update
}

/// `dto` carries the reimport and the request workspace it left.
pub open spec fn postman_reimport_dto_of(dto: PostmanReimportResultDto, result: PostmanReimportResult) -> bool {
    &&& postman_reimport_preview_dto_of(dto.preview, result.preview)
    &&& request_workspace_snapshot_dto_of(dto.snapshot, result.snapshot)
}

/// `dto` carries the exported environment.
pub open spec fn postman_environment_dto_of(
    dto: PostmanEnvironmentExportDto,
    environment: PostmanEnvironmentExport,
) -> bool {
    dto.name == environment.name && dto.environment_json == environment.environment_json
}

/// `dto` carries the export, its environments, warnings and unsupported fields in order.
pub open spec fn postman_export_dto_of(dto: PostmanExportResultDto, result: PostmanExportResult) -> bool {
    &&& dto.collection_json == result.collection_json
    &&& pairwise(
        dto.environments@,
        result.environments@,
        |d: PostmanEnvironmentExportDto, e: PostmanEnvironmentExport| postman_environment_dto_of(d, e),
    )
    &&& dto.warning_count == result.warning_count
    &&& dto.unsupported_count == result.unsupported_count
    &&& pairwise(
        dto.warnings@,
        result.warnings@,
        |d: PostmanImportWarningDto, w: PostmanImportWarning| postman_warning_dto_of(d, w),
    )
    &&& pairwise(
        dto.unsupported@,
        result.unsupported@,
        |d: PostmanUnsupportedFieldDto, f: PostmanUnsupportedField| postman_unsupported_dto_of(d, f),
    )
}

impl PostmanImportWarningDto {
    /// The DTO of a conversion warning.
    pub fn from_domain(warning: PostmanImportWarning) -> (dto: PostmanImportWarningDto)
        ensures
            postman_warning_dto_of(dto, warning),
    {
        PostmanImportWarningDto { location: warning.location, message: warning.message }
    }
}

impl PostmanUnsupportedFieldDto {
    /// The DTO of an unsupported field.
    pub fn from_domain(field: PostmanUnsupportedField) -> (dto: PostmanUnsupportedFieldDto)
        ensures
            postman_unsupported_dto_of(dto, field),
    {
        PostmanUnsupportedFieldDto { location: field.location, reason: field.reason }
    }
}

impl PostmanImportPreviewDto {
    /// The DTO of an import preview.
    pub fn from_domain(preview: PostmanImportPreview) -> (dto: PostmanImportPreviewDto)
        ensures
            postman_preview_dto_of(dto, preview),
    {
        PostmanImportPreviewDto {
            source_id: preview.source_id,
            source_name: preview.source_name,
            source_hash: preview.source_hash,
            collection_count: preview.collection_count,
            request_count: preview.request_count,
            environment_count: preview.environment_count,
            warning_count: preview.warning_count,
            unsupported_count: preview.unsupported_count,
            warnings: map_vec(
                preview.warnings,
                PostmanImportWarningDto::from_domain,
                Ghost(|w: PostmanImportWarning, d: PostmanImportWarningDto| postman_warning_dto_of(d, w)),
            ),
            unsupported: map_vec(
                preview.unsupported,
                PostmanUnsupportedFieldDto::from_domain,
                Ghost(
                    |f: PostmanUnsupportedField, d: PostmanUnsupportedFieldDto|
                        postman_unsupported_dto_of(d, f),
                ),
            ),
        }
    }
}

impl PostmanImportResultDto {
    /// The DTO of a finished import.
    pub fn from_domain(result: PostmanImportResult) -> (dto: PostmanImportResultDto)
        ensures
            postman_import_dto_of(dto, result),
    {
        PostmanImportResultDto {
            preview: PostmanImportPreviewDto::from_domain(result.preview),
            snapshot: RequestWorkspaceSnapshotDto::from_domain(result.snapshot),
        }
    }
}

impl PostmanPriorImportDto {
    /// The DTO of an earlier import.
    pub fn from_domain(prior: PostmanPriorImport) -> (dto: PostmanPriorImportDto)
        ensures
            postman_prior_import_dto_of(dto, prior),
    {
        PostmanPriorImportDto {
            id: prior.id,
            source_id: prior.source_id,
            source_name: prior.source_name,
            source_hash: prior.source_hash,
        }
    }
}

impl PostmanReimportChangeDto {
    /// The DTO of a reimport change.
    pub fn from_domain(change: PostmanReimportChange) -> (dto: PostmanReimportChangeDto)
        ensures
            postman_change_dto_of(dto, change),
    {
        PostmanReimportChangeDto { location: change.location, message: change.message }
    }
}

impl PostmanReimportPreviewDto {
    /// The DTO of a reimport preview.
    pub fn from_domain(preview: PostmanReimportPreview) -> (dto: PostmanReimportPreviewDto)
        ensures
            postman_reimport_preview_dto_of(dto, preview),
    {
        let prior_import = match preview.prior_import {
            Some(prior) => Some(PostmanPriorImportDto::from_domain(prior)),
            None => None,
        };
        PostmanReimportPreviewDto {
            import_preview: PostmanImportPreviewDto::from_domain(preview.import_preview),
            prior_import,
            changes: map_vec(
                preview.changes,
                PostmanReimportChangeDto::from_domain,
                Ghost(|c: PostmanReimportChange, d: PostmanReimportChangeDto| postman_change_dto_of(d, c)),
            ),
            can_update: preview.can_update,
        }
    }
}

impl PostmanReimportResultDto {
    /// The DTO of a finished reimport.
    pub fn from_domain(result: PostmanReimportResult) -> (dto: PostmanReimportResultDto)
        ensures
            postman_reimport_dto_of(dto, result),
    {
        PostmanReimportResultDto {
            preview: PostmanReimportPreviewDto::from_domain(result.preview),
            snapshot: RequestWorkspaceSnapshotDto::from_domain(result.snapshot),
        }
    }
}

impl PostmanEnvironmentExportDto {
    /// The DTO of an exported environment.
    pub fn from_domain(environment: PostmanEnvironmentExport) -> (dto: PostmanEnvironmentExportDto)
        ensures
            postman_environment_dto_of(dto, environment),
    {
        PostmanEnvironmentExportDto {
            name: environment.name,
            environment_json: environment.environment_json,
        }
    }
}

impl PostmanExportResultDto {
    /// The DTO of an export.
    pub fn from_domain(result: PostmanExportResult) -> (dto: PostmanExportResultDto)
        ensures
            postman_export_dto_of(dto, result),
    {
        PostmanExportResultDto {
            collection_json: result.collection_json,
            environments: map_vec(
                result.environments,
                PostmanEnvironmentExportDto::from_domain,
                Ghost(
                    |e: PostmanEnvironmentExport, d: PostmanEnvironmentExportDto|
                        postman_environment_dto_of(d, e),
                ),
            ),
            warning_count: result.warning_count,
            unsupported_count: result.unsupported_count,
            warnings: map_vec(
                result.warnings,
                PostmanImportWarningDto::from_domain,
                Ghost(|w: PostmanImportWarning, d: PostmanImportWarningDto| postman_warning_dto_of(d, w)),
            ),
            unsupported: map_vec(
                result.unsupported,
                PostmanUnsupportedFieldDto::from_domain,
                Ghost(
                    |f: PostmanUnsupportedField, d: PostmanUnsupportedFieldDto|
                        postman_unsupported_dto_of(d, f),
                ),
            ),
        }
    }
}


// ----- Postman requests read from the boundary -----

/// `request` is the import input with its workspace id read.
pub open spec fn postman_import_request_of(request: PostmanImportRequest, input: PostmanImportInput) -> bool {
    &&& WorkspaceId::parsed(input.workspace_id@) == Some(request.workspace_id)
    &&& request.source_name == input.source_name
    &&& request.collection_json == input.collection_json
    &&& request.environment_json == input.environment_json
}

/// An import request made from an input carries the input's source name, collection and
/// environment each in its own place, for the workspace the input names.
pub proof fn lemma_import_request_keeps_the_input(request: PostmanImportRequest, input: PostmanImportInput)
    requires
        postman_import_request_of(request, input),
    ensures
        request.source_name == input.source_name,
        request.collection_json == input.collection_json,
        request.environment_json == input.environment_json,
        WorkspaceId::parsed(input.workspace_id@) == Some(request.workspace_id),
{
}

/// The import request of an import input; an unreadable workspace id is refused.
pub fn postman_import_request(input: PostmanImportInput) -> (outcome: Result<PostmanImportRequest, IpcError>)
    ensures
        WorkspaceId::parsed(input.workspace_id@) is None ==> rejected(outcome, BoundaryError::InvalidWorkspaceId),
        WorkspaceId::parsed(input.workspace_id@) is Some ==> (outcome matches Ok(request)
            && postman_import_request_of(request, input)),
        outcome matches Ok(request) ==> request.source_name == input.source_name
            && request.collection_json == input.collection_json && request.environment_json
            == input.environment_json && WorkspaceId::parsed(input.workspace_id@) == Some(
            request.workspace_id,
        ),
{
    let workspace_id = match parse_workspace_id(&input.workspace_id) {
        Ok(id) => id,
        Err(error) => {
            return Err(error);
        },
    };
    Ok(
        PostmanImportRequest {
            workspace_id,
            source_name: input.source_name,
            collection_json: input.collection_json,
            environment_json: input.environment_json,
        },
    )
}

/// `request` is the export input with its workspace id read.
pub open spec fn postman_export_request_of(request: PostmanExportRequest, input: PostmanExportInput) -> bool {
    &&& WorkspaceId::parsed(input.workspace_id@) == Some(request.workspace_id)
    &&& request.source_name == input.source_name
}

/// The export request of an export input; an unreadable workspace id is refused.
pub fn postman_export_request(input: PostmanExportInput) -> (outcome: Result<PostmanExportRequest, IpcError>)
    ensures
        WorkspaceId::parsed(input.workspace_id@) is None ==> rejected(outcome, BoundaryError::InvalidWorkspaceId),
        WorkspaceId::parsed(input.workspace_id@) is Some ==> (outcome matches Ok(request)
            && postman_export_request_of(request, input)),
        outcome matches Ok(request) ==> request.source_name == input.source_name
            && WorkspaceId::parsed(input.workspace_id@) == Some(request.workspace_id),
{
    let workspace_id = match parse_workspace_id(&input.workspace_id) {
        Ok(id) => id,
        Err(error) => {
            return Err(error);
        },
    };
    Ok(PostmanExportRequest { workspace_id, source_name: input.source_name })
}

/// The decision a reimport input asks for.
pub open spec fn postman_reimport_decision_of(dto: PostmanReimportDecisionDto) -> PostmanReimportDecision {
    match dto {
        PostmanReimportDecisionDto::Update => PostmanReimportDecision::Update,
        PostmanReimportDecisionDto::Duplicate => PostmanReimportDecision::Duplicate,
        PostmanReimportDecisionDto::Cancel => PostmanReimportDecision::Cancel,
    }
}

/// A reimport decision reaches the service as the decision of the same name: updating
/// updates, duplicating duplicates and cancelling cancels.
pub proof fn lemma_reimport_decision_keeps_its_name(dto: PostmanReimportDecisionDto)
    ensures
        postman_reimport_decision_of(dto) is Update <==> dto is Update,
        postman_reimport_decision_of(dto) is Duplicate <==> dto is Duplicate,
        postman_reimport_decision_of(dto) is Cancel <==> dto is Cancel,
{
}

/// The decision of a reimport input.
pub fn postman_reimport_decision(dto: PostmanReimportDecisionDto) -> (decision: PostmanReimportDecision)
    ensures
        decision == postman_reimport_decision_of(dto),
        decision is Update <==> dto is Update,
        decision is Duplicate <==> dto is Duplicate,
        decision is Cancel <==> dto is Cancel,
{
    match dto {
        PostmanReimportDecisionDto::Update => PostmanReimportDecision::Update,
        PostmanReimportDecisionDto::Duplicate => PostmanReimportDecision::Duplicate,
        PostmanReimportDecisionDto::Cancel => PostmanReimportDecision::Cancel,
    }
}

/// The reimport request of a reimport input; an unreadable workspace id is refused.
pub fn postman_reimport_request(input: PostmanReimportInput) -> (outcome: Result<
    PostmanReimportRequest,
    IpcError,
>)
    ensures
        WorkspaceId::parsed(input.import.workspace_id@) is None ==> rejected(
            outcome,
            BoundaryError::InvalidWorkspaceId,
        ),
        WorkspaceId::parsed(input.import.workspace_id@) is Some ==> (outcome matches Ok(request)
            && postman_import_request_of(request.import, input.import) && request.decision
            == postman_reimport_decision_of(input.decision)),
{
    let decision = postman_reimport_decision(input.decision);
    let import = match postman_import_request(input.import) {
        Ok(import) => import,
        Err(error) => {
            return Err(error);
        },
    };
    Ok(PostmanReimportRequest { import, decision })
}

// ----- Postman commands -----

/// `result` is the IPC answer to what the Postman service returned, `related` its success.
pub open spec fn postman_answer_of<T, D>(
    result: Result<D, IpcError>,
    outcome: Result<T, PostmanImportError>,
    related: bool,
) -> bool {
    match (result, outcome) {
        (Ok(_), Ok(_)) => related,
        (Err(error), Err(failure)) => error@ == postman_import_error_view(failure),
        _ => false,
    }
}

/// `result` answers the import preview `outcome`.
pub open spec fn postman_preview_response_of(
    result: Result<PostmanImportPreviewDto, IpcError>,
    outcome: Result<PostmanImportPreview, PostmanImportError>,
) -> bool {
    postman_answer_of(
        result,
        outcome,
        result matches Ok(dto) && outcome matches Ok(preview) && postman_preview_dto_of(dto, preview),
    )
}

/// `result` answers the import `outcome`.
pub open spec fn postman_import_response_of(
    result: Result<PostmanImportResultDto, IpcError>,
    outcome: Result<PostmanImportResult, PostmanImportError>,
) -> bool {
    postman_answer_of(
        result,
        outcome,
        result matches Ok(dto) && outcome matches Ok(imported) && postman_import_dto_of(dto, imported),
    )
}

/// `result` answers the export `outcome`.
pub open spec fn postman_export_response_of(
    result: Result<PostmanExportResultDto, IpcError>,
    outcome: Result<PostmanExportResult, PostmanImportError>,
) -> bool {
    postman_answer_of(
        result,
        outcome,
        result matches Ok(dto) && outcome matches Ok(exported) && postman_export_dto_of(dto, exported),
    )
}

/// `result` answers the reimport preview `outcome`.
pub open spec fn postman_reimport_preview_response_of(
    result: Result<PostmanReimportPreviewDto, IpcError>,
    outcome: Result<PostmanReimportPreview, PostmanImportError>,
) -> bool {
    postman_answer_of(
        result,
        outcome,
        result matches Ok(dto) && outcome matches Ok(preview) && postman_reimport_preview_dto_of(
            dto,
            preview,
        ),
    )
}

/// `result` answers the reimport `outcome`.
pub open spec fn postman_reimport_response_of(
    result: Result<PostmanReimportResultDto, IpcError>,
    outcome: Result<PostmanReimportResult, PostmanImportError>,
) -> bool {
    postman_answer_of(
        result,
        outcome,
        result matches Ok(dto) && outcome matches Ok(reimported) && postman_reimport_dto_of(
            dto,
            reimported,
        ),
    )
}

/// Previews a Postman import; an unreadable workspace id is refused first.
pub fn handle_preview_postman_import<S: PostmanService>(service: &S, input: PostmanImportInput) -> (result:
    Result<PostmanImportPreviewDto, IpcError>)
    ensures
        WorkspaceId::parsed(input.workspace_id@) is None ==> rejected(result, BoundaryError::InvalidWorkspaceId),
        WorkspaceId::parsed(input.workspace_id@) is Some ==> exists|outcome: Result<
            PostmanImportPreview,
            PostmanImportError,
        >| #[trigger] postman_preview_response_of(result, outcome),
{
    let request = match postman_import_request(input) {
        Ok(request) => request,
        Err(error) => {
            return Err(error);
        },
    };
    let outcome = service.preview(&request);
    let result = match outcome {
        Ok(preview) => Ok(PostmanImportPreviewDto::from_domain(preview)),
        Err(failure) => Err(IpcError::from_postman_import_error(failure)),
    };
    assert(postman_preview_response_of(result, outcome));
    result
}

/// Imports a Postman collection; an unreadable workspace id is refused first.
pub fn handle_import_postman<S: PostmanService>(service: &mut S, input: PostmanImportInput) -> (result:
    Result<PostmanImportResultDto, IpcError>)
    ensures
        WorkspaceId::parsed(input.workspace_id@) is None ==> rejected(result, BoundaryError::InvalidWorkspaceId)
            && *final(service) == *old(service),
        WorkspaceId::parsed(input.workspace_id@) is Some ==> exists|outcome: Result<
            PostmanImportResult,
            PostmanImportError,
        >| #[trigger] postman_import_response_of(result, outcome),
{
    let request = match postman_import_request(input) {
        Ok(request) => request,
        Err(error) => {
            return Err(error);
        },
    };
    let outcome = service.import(request);
    let result = match outcome {
        Ok(imported) => Ok(PostmanImportResultDto::from_domain(imported)),
        Err(failure) => Err(IpcError::from_postman_import_error(failure)),
    };
    assert(postman_import_response_of(result, outcome));
    result
}

/// Exports a workspace as a Postman collection; an unreadable workspace id is refused first.
pub fn handle_export_postman<S: PostmanService>(service: &S, input: PostmanExportInput) -> (result:
    Result<PostmanExportResultDto, IpcError>)
    ensures
        WorkspaceId::parsed(input.workspace_id@) is None ==> rejected(result, BoundaryError::InvalidWorkspaceId),
        WorkspaceId::parsed(input.workspace_id@) is Some ==> exists|outcome: Result<
            PostmanExportResult,
            PostmanImportError,
        >| #[trigger] postman_export_response_of(result, outcome),
{
    let request = match postman_export_request(input) {
        Ok(request) => request,
        Err(error) => {
            return Err(error);
        },
    };
    let outcome = service.export(&request);
    let result = match outcome {
        Ok(exported) => Ok(PostmanExportResultDto::from_domain(exported)),
        Err(failure) => Err(IpcError::from_postman_import_error(failure)),
    };
    assert(postman_export_response_of(result, outcome));
    result
}

/// Previews importing a Postman source again; an unreadable workspace id is refused first.
pub fn handle_preview_postman_reimport<S: PostmanService>(service: &S, input: PostmanImportInput) -> (result:
    Result<PostmanReimportPreviewDto, IpcError>)
    ensures
        WorkspaceId::parsed(input.workspace_id@) is None ==> rejected(result, BoundaryError::InvalidWorkspaceId),
        WorkspaceId::parsed(input.workspace_id@) is Some ==> exists|outcome: Result<
            PostmanReimportPreview,
            PostmanImportError,
        >| #[trigger] postman_reimport_preview_response_of(result, outcome),
{
    let request = match postman_import_request(input) {
        Ok(request) => request,
        Err(error) => {
            return Err(error);
        },
    };
    let outcome = service.preview_reimport(&request);
    let result = match outcome {
        Ok(preview) => Ok(PostmanReimportPreviewDto::from_domain(preview)),
        Err(failure) => Err(IpcError::from_postman_import_error(failure)),
    };
    assert(postman_reimport_preview_response_of(result, outcome));
    result
}

/// Imports a Postman source again; an unreadable workspace id is refused first.
pub fn handle_reimport_postman<S: PostmanService>(service: &mut S, input: PostmanReimportInput) -> (result:
    Result<PostmanReimportResultDto, IpcError>)
    ensures
        WorkspaceId::parsed(input.import.workspace_id@) is None ==> rejected(
            result,
            BoundaryError::InvalidWorkspaceId,
        ) && *final(service) == *old(service),
        WorkspaceId::parsed(input.import.workspace_id@) is Some ==> exists|outcome: Result<
            PostmanReimportResult,
            PostmanImportError,
        >| #[trigger] postman_reimport_response_of(result, outcome),
{
    let request = match postman_reimport_request(input) {
        Ok(request) => request,
        Err(error) => {
            return Err(error);
        },
    };
    let outcome = service.reimport(request);
    let result = match outcome {
        Ok(reimported) => Ok(PostmanReimportResultDto::from_domain(reimported)),
        Err(failure) => Err(IpcError::from_postman_import_error(failure)),
    };
    assert(postman_reimport_response_of(result, outcome));
    result
}


// ----- what the native backup service answers -----

/// A part of a workspace that a backup leaves out, and why.
#[derive(Clone, Debug, PartialEq, Eq)]
pub struct NativeBackupExclusion {
    pub location: String,
    pub reason: String,
}

/// A file of a backup archive with its digest and size.
#[derive(Clone, Debug, PartialEq, Eq)]
pub struct NativeBackupManifestEntry {
    pub path: String,
    pub sha256: String,
    pub bytes: u64,
}

/// The manifest of a backup archive.
#[derive(Clone, Debug, PartialEq, Eq)]
pub struct NativeBackupManifest {
    pub format: String,
    pub version: u32,
    pub required_features: Vec<String>,
    pub entries: Vec<NativeBackupManifestEntry>,
    pub exclusions: Vec<NativeBackupExclusion>,
}

/// What restoring a backup would create.
#[derive(Clone, Debug, PartialEq, Eq)]
pub struct NativeBackupRestorePreview {
    pub source_workspace_name: String,
    pub collection_count: u32,
    pub request_count: u32,
    pub environment_count: u32,
    pub history_record_count: u32,
    pub cookie_count: u32,
    pub body_file_count: u32,
    pub expanded_bytes: u64,
    pub exclusions: Vec<NativeBackupExclusion>,
    pub warnings: Vec<String>,
}

/// A written backup.
#[derive(Clone, Debug, PartialEq, Eq)]
pub struct NativeBackupExportResult {
    pub backup_path: String,
    pub manifest: NativeBackupManifest,
    pub preview: NativeBackupRestorePreview,
}

/// A restored backup and the workspaces it left.
#[derive(Clone, Debug, PartialEq, Eq)]
pub struct NativeBackupRestoreResult {
    pub preview: NativeBackupRestorePreview,
    pub workspace_snapshot: WorkspaceSnapshot,
    pub request_snapshot: RequestWorkspaceSnapshot,
}

/// A workspace to back up, and where.
#[derive(Clone, Debug, PartialEq, Eq)]
pub struct NativeBackupExportRequest {
    pub workspace_id: WorkspaceId,
    pub backup_path: String,
    pub include_body_files: bool,
    pub body_files_directory: Option<String>,
}

/// A backup to preview.
#[derive(Clone, Debug, PartialEq, Eq)]
pub struct NativeBackupRestorePreviewRequest {
    pub backup_path: String,
}

/// A backup to restore as a new workspace.
#[derive(Clone, Debug, PartialEq, Eq)]
pub struct NativeBackupRestoreRequest {
    pub backup_path: String,
    pub workspace_name: String,
    pub body_files_directory: Option<String>,
}

/// The native backup service the backup commands delegate to.
///
/// It is implemented by the application layer around the backup repository;
/// nothing is assumed of what it answers.
pub trait NativeBackupService {
    fn export(&self, input: NativeBackupExportRequest) -> Result<NativeBackupExportResult, NativeBackupError>;

    fn preview_restore(&self, input: NativeBackupRestorePreviewRequest) -> Result<
        NativeBackupRestorePreview,
        NativeBackupError,
    >;

    fn restore(&mut self, input: NativeBackupRestoreRequest) -> Result<
        NativeBackupRestoreResult,
        NativeBackupError,
    >;
}

// ----- the IPC form of backup answers -----

/// `dto` carries the exclusion.
pub open spec fn backup_exclusion_dto_of(dto: NativeBackupExclusionDto, exclusion: NativeBackupExclusion) -> bool {
    dto.location == exclusion.location && dto.reason == exclusion.reason
}

/// `dto` carries the manifest entry.
pub open spec fn backup_entry_dto_of(dto: NativeBackupManifestEntryDto, entry: NativeBackupManifestEntry) -> bool {
    dto.path == entry.path && dto.sha256 == entry.sha256 && dto.bytes == entry.bytes
}

/// `dto` carries the manifest, its entries and exclusions in order.
pub open spec fn backup_manifest_dto_of(dto: NativeBackupManifestDto, manifest: NativeBackupManifest) -> bool {
    &&& dto.format == manifest.format
    &&& dto.version == manifest.version
    &&& dto.required_features == manifest.required_features
    &&& pairwise(
        dto.entries@,
        manifest.entries@,
        |d: NativeBackupManifestEntryDto, e: NativeBackupManifestEntry| backup_entry_dto_of(d, e),
    )
    &&& pairwise(
        dto.exclusions@,
        manifest.exclusions@,
        |d: NativeBackupExclusionDto, e: NativeBackupExclusion| backup_exclusion_dto_of(d, e),
    )
}

/// `dto` carries the restore preview, its exclusions and warnings in order.
pub open spec fn backup_preview_dto_of(dto: NativeBackupRestorePreviewDto, preview: NativeBackupRestorePreview) -> bool {
    &&& dto.source_workspace_name == preview.source_workspace_name
    &&& dto.collection_count == preview.collection_count
    &&& dto.request_count == preview.request_count
    &&& dto.environment_count == preview.environment_count
    &&& dto.history_record_count == preview.history_record_count
    &&& dto.cookie_count == preview.cookie_count
    &&& dto.body_file_count == preview.body_file_count
    &&& dto.expanded_bytes == preview.expanded_bytes
    &&& pairwise(
        dto.exclusions@,
        preview.exclusions@,
        |d: NativeBackupExclusionDto, e: NativeBackupExclusion| backup_exclusion_dto_of(d, e),
    )
    &&& dto.warnings == preview.warnings
}

/// `dto` carries the written backup.
pub open spec fn backup_export_dto_of(dto: NativeBackupExportResultDto, result: NativeBackupExportResult) -> bool {
    &&& dto.backup_path == result.backup_path
    &&& backup_manifest_dto_of(dto.manifest, result.manifest)
    &&& backup_preview_dto_of(dto.preview, result.preview)
}

/// `dto` carries the restore and the workspaces it left.
pub open spec fn backup_restore_dto_of(dto: NativeBackupRestoreResultDto, result: NativeBackupRestoreResult) -> bool {
    &&& backup_preview_dto_of(dto.preview, result.preview)
    &&& workspace_snapshot_dto_of(dto.workspace_snapshot, result.workspace_snapshot)
    &&& request_workspace_snapshot_dto_of(dto.request_snapshot, result.request_snapshot)
}

impl NativeBackupExclusionDto {
    /// The DTO of an exclusion.
    pub fn from_domain(exclusion: NativeBackupExclusion) -> (dto: NativeBackupExclusionDto)
        ensures
            backup_exclusion_dto_of(dto, exclusion),
    {
        NativeBackupExclusionDto { location: exclusion.location, reason: exclusion.reason }
    }
}

impl NativeBackupManifestEntryDto {
    /// The DTO of a manifest entry.
    pub fn from_domain(entry: NativeBackupManifestEntry) -> (dto: NativeBackupManifestEntryDto)
        ensures
            backup_entry_dto_of(dto, entry),
    {
        NativeBackupManifestEntryDto { path: entry.path, sha256: entry.sha256, bytes: entry.bytes }
    }
}

impl NativeBackupManifestDto {
    /// The DTO of a manifest.
    pub fn from_domain(manifest: NativeBackupManifest) -> (dto: NativeBackupManifestDto)
        ensures
            backup_manifest_dto_of(dto, manifest),
    {
        NativeBackupManifestDto {
            format: manifest.format,
            version: manifest.version,
            required_features: manifest.required_features,
            entries: map_vec(
                manifest.entries,
                NativeBackupManifestEntryDto::from_domain,
                Ghost(
                    |e: NativeBackupManifestEntry, d: NativeBackupManifestEntryDto|
                        backup_entry_dto_of(d, e),
                ),
            ),
            exclusions: map_vec(
                manifest.exclusions,
                NativeBackupExclusionDto::from_domain,
                Ghost(|e: NativeBackupExclusion, d: NativeBackupExclusionDto| backup_exclusion_dto_of(d, e)),
            ),
        }
    }
}

impl NativeBackupRestorePreviewDto {
    /// The DTO of a restore preview.
    pub fn from_domain(preview: NativeBackupRestorePreview) -> (dto: NativeBackupRestorePreviewDto)
        ensures
            backup_preview_dto_of(dto, preview),
    {
        NativeBackupRestorePreviewDto {
            source_workspace_name: preview.source_workspace_name,
            collection_count: preview.collection_count,
            request_count: preview.request_count,
            environment_count: preview.environment_count,
            history_record_count: preview.history_record_count,
            cookie_count: preview.cookie_count,
            body_file_count: preview.body_file_count,
            expanded_bytes: preview.expanded_bytes,
            exclusions: map_vec(
                preview.exclusions,
                NativeBackupExclusionDto::from_domain,
                Ghost(|e: NativeBackupExclusion, d: NativeBackupExclusionDto| backup_exclusion_dto_of(d, e)),
            ),
            warnings: preview.warnings,
        }
    }
}

impl NativeBackupExportResultDto {
    /// The DTO of a written backup.
    pub fn from_domain(result: NativeBackupExportResult) -> (dto: NativeBackupExportResultDto)
        ensures
            backup_export_dto_of(dto, result),
    {
        NativeBackupExportResultDto {
            backup_path: result.backup_path,
            manifest: NativeBackupManifestDto::from_domain(result.manifest),
            preview: NativeBackupRestorePreviewDto::from_domain(result.preview),
        }
    }
}

impl NativeBackupRestoreResultDto {
    /// The DTO of a restored backup.
    pub fn from_domain(result: NativeBackupRestoreResult) -> (dto: NativeBackupRestoreResultDto)
        ensures
            backup_restore_dto_of(dto, result),
    {
        NativeBackupRestoreResultDto {
            preview: NativeBackupRestorePreviewDto::from_domain(result.preview),
            workspace_snapshot: WorkspaceSnapshotDto::from_domain(result.workspace_snapshot),
            request_snapshot: RequestWorkspaceSnapshotDto::from_domain(result.request_snapshot),
        }
    }
}

// ----- native backup commands -----

/// `result` is the IPC answer to what the backup service returned, `related` its success.
pub open spec fn backup_answer_of<T, D>(
    result: Result<D, IpcError>,
    outcome: Result<T, NativeBackupError>,
    related: bool,
) -> bool {
    match (result, outcome) {
        (Ok(_), Ok(_)) => related,
        (Err(error), Err(failure)) => error@ == boundary_error_view(BoundaryError::NativeBackup(failure)),
        _ => false,
    }
}

/// `result` answers the backup `outcome`.
pub open spec fn backup_export_response_of(
    result: Result<NativeBackupExportResultDto, IpcError>,
    outcome: Result<NativeBackupExportResult, NativeBackupError>,
) -> bool {
    backup_answer_of(
        result,
        outcome,
        result matches Ok(dto) && outcome matches Ok(written) && backup_export_dto_of(dto, written),
    )
}

/// `result` answers the restore preview `outcome`.
pub open spec fn backup_preview_response_of(
    result: Result<NativeBackupRestorePreviewDto, IpcError>,
    outcome: Result<NativeBackupRestorePreview, NativeBackupError>,
) -> bool {
    backup_answer_of(
        result,
        outcome,
        result matches Ok(dto) && outcome matches Ok(preview) && backup_preview_dto_of(dto, preview),
    )
}

/// `result` answers the restore `outcome`.
pub open spec fn backup_restore_response_of(
    result: Result<NativeBackupRestoreResultDto, IpcError>,
    outcome: Result<NativeBackupRestoreResult, NativeBackupError>,
) -> bool {
    backup_answer_of(
        result,
        outcome,
        result matches Ok(dto) && outcome matches Ok(restored) && backup_restore_dto_of(dto, restored),
    )
}

/// `request` is the backup input with its workspace id read.
pub open spec fn backup_export_request_of(request: NativeBackupExportRequest, input: NativeBackupExportInput) -> bool {
    &&& WorkspaceId::parsed(input.workspace_id@) == Some(request.workspace_id)
    &&& request.backup_path == input.backup_path
    &&& request.include_body_files == input.include_body_files
    &&& request.body_files_directory == input.body_files_directory
}

/// A backup request made from an input asks for exactly what the input asks: the body files
/// are included when and only when the input includes them, into the same archive path and
/// from the same body-file directory, for the workspace the input names.
pub proof fn lemma_backup_request_keeps_the_input(request: NativeBackupExportRequest, input: NativeBackupExportInput)
    requires
        backup_export_request_of(request, input),
    ensures
        request.include_body_files == input.include_body_files,
        request.backup_path == input.backup_path,
        request.body_files_directory == input.body_files_directory,
        WorkspaceId::parsed(input.workspace_id@) == Some(request.workspace_id),
{
}

/// The backup request of a backup input; an unreadable workspace id is refused.
pub fn native_backup_export_request(input: NativeBackupExportInput) -> (outcome: Result<
    NativeBackupExportRequest,
    IpcError,
>)
    ensures
        WorkspaceId::parsed(input.workspace_id@) is None ==> rejected(outcome, BoundaryError::InvalidWorkspaceId),
        WorkspaceId::parsed(input.workspace_id@) is Some ==> (outcome matches Ok(request)
            && backup_export_request_of(request, input)),
        outcome matches Ok(request) ==> request.include_body_files == input.include_body_files
            && request.backup_path == input.backup_path && request.body_files_directory
            == input.body_files_directory && WorkspaceId::parsed(input.workspace_id@) == Some(
            request.workspace_id,
        ),
{
    let workspace_id = match parse_workspace_id(&input.workspace_id) {
        Ok(id) => id,
        Err(error) => {
            return Err(error);
        },
    };
    Ok(
        NativeBackupExportRequest {
            workspace_id,
            backup_path: input.backup_path,
            include_body_files: input.include_body_files,
            body_files_directory: input.body_files_directory,
        },
    )
}

/// Backs up a workspace; an unreadable workspace id is refused first.
pub fn handle_export_native_backup<S: NativeBackupService>(service: &S, input: NativeBackupExportInput) -> (result:
    Result<NativeBackupExportResultDto, IpcError>)
    ensures
        WorkspaceId::parsed(input.workspace_id@) is None ==> rejected(result, BoundaryError::InvalidWorkspaceId),
        WorkspaceId::parsed(input.workspace_id@) is Some ==> exists|outcome: Result<
            NativeBackupExportResult,
            NativeBackupError,
        >| #[trigger] backup_export_response_of(result, outcome),
{
    let request = match native_backup_export_request(input) {
        Ok(request) => request,
        Err(error) => {
            return Err(error);
        },
    };
    let outcome = service.export(request);
    let result = match outcome {
        Ok(written) => Ok(NativeBackupExportResultDto::from_domain(written)),
        Err(failure) => Err(IpcError::from_boundary_error(BoundaryError::NativeBackup(failure))),
    };
    assert(backup_export_response_of(result, outcome));
    result
}

/// The preview request of a preview input: its backup path, as it is.
pub fn native_backup_restore_preview_request(input: NativeBackupRestorePreviewInput) -> (request:
    NativeBackupRestorePreviewRequest)
    ensures
        request.backup_path == input.backup_path,
{
    NativeBackupRestorePreviewRequest { backup_path: input.backup_path }
}

/// The restore request of a restore input: its fields, as they are.
pub fn native_backup_restore_request(input: NativeBackupRestoreInput) -> (request:
    NativeBackupRestoreRequest)
    ensures
        request.backup_path == input.backup_path,
        request.workspace_name == input.workspace_name,
        request.body_files_directory == input.body_files_directory,
{
    NativeBackupRestoreRequest {
        backup_path: input.backup_path,
        workspace_name: input.workspace_name,
        body_files_directory: input.body_files_directory,
    }
}

/// Previews the restore of a backup; the backup path is handed on as it is.
pub fn handle_preview_native_backup_restore<S: NativeBackupService>(
    service: &S,
    input: NativeBackupRestorePreviewInput,
) -> (result: Result<NativeBackupRestorePreviewDto, IpcError>)
    ensures
        exists|outcome: Result<NativeBackupRestorePreview, NativeBackupError>|
            #[trigger] backup_preview_response_of(result, outcome),
{
    let outcome = service.preview_restore(native_backup_restore_preview_request(input));
    let result = match outcome {
        Ok(preview) => Ok(NativeBackupRestorePreviewDto::from_domain(preview)),
        Err(failure) => Err(IpcError::from_boundary_error(BoundaryError::NativeBackup(failure))),
    };
    assert(backup_preview_response_of(result, outcome));
    result
}

/// Restores a backup as a new workspace; the input is handed on as it is.
pub fn handle_restore_native_backup<S: NativeBackupService>(
    service: &mut S,
    input: NativeBackupRestoreInput,
) -> (result: Result<NativeBackupRestoreResultDto, IpcError>)
    ensures
        exists|outcome: Result<NativeBackupRestoreResult, NativeBackupError>|
            #[trigger] backup_restore_response_of(result, outcome),
{
    let outcome = service.restore(native_backup_restore_request(input));
    let result = match outcome {
        Ok(restored) => Ok(NativeBackupRestoreResultDto::from_domain(restored)),
        Err(failure) => Err(IpcError::from_boundary_error(BoundaryError::NativeBackup(failure))),
    };
    assert(backup_restore_response_of(result, outcome));
    result
}

} // verus!
