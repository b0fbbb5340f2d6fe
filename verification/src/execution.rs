//! Events of running requests: their IPC form, the history record they
//! complete, and the events buffered until the start command answers.
use vstd::prelude::*;
use crate::conversions::{map_vec, pairwise, redacted_text, redacted_value};
use crate::domain::{
    CancelExecutionResult, CancelOAuthAuthorizationResult, ExecutionEvent, ExecutionEventKind,
    ExecutionHeader, ExecutionProxyMetadata, ExecutionRecordResponse, ExecutionTimeoutMetadata,
    ExecutionTimingMetadata, OAuthAuthorizationResult, OrderedField, RequestContent,
    ResponseFileMetadata, StartExecutionResult, StartOAuthAuthorizationRequest,
};
use crate::dto::{
    CancelOAuthAuthorizationOutput, CancelRequestExecutionOutput, ExecutionEventDto,
    ExecutionEventKindDto, ExecutionHeaderDto, ExecutionProxyMetadataDto,
    ExecutionTimeoutMetadataDto, ExecutionTimingMetadataDto, OAuthAuthorizationResultDto,
    ResponseFileMetadataDto, StartOAuthAuthorizationInput, StartRequestExecutionOutput,
    CancelOAuthAuthorizationInput, CancelRequestExecutionInput, SaveResponseFileInput,
};
use crate::store::{is_blank, is_blank_text};
use crate::errors::{
    boundary_error_view, error_view, IpcErrorCode, execution_error_view, oauth_error_view, BoundaryError, ExecutionError,
    IpcError, OAuthError,
};
use crate::ids::{ExecutionId, OAuthFlowId, WorkspaceId};

verus! {

/// The lowercase form of an ASCII letter's code; other characters keep theirs.
pub open spec fn ascii_lower_code(c: char) -> int {
    if 65 <= (c as u32) && (c as u32) <= 90 {
        (c as u32) + 32
    } else {
        c as u32 as int
    }
}

/// Two texts are equal when ASCII letters are compared without case.
pub open spec fn eq_ignore_ascii_case_spec(a: Seq<char>, b: Seq<char>) -> bool {
    &&& a.len() == b.len()
    &&& forall|i: int| 0 <= i < a.len() ==> ascii_lower_code(#[trigger] a[i]) == ascii_lower_code(
        b[i],
    )
}

fn lower_code(c: char) -> (code: u32)
    ensures
        code == ascii_lower_code(c),
{
    let code = c as u32;
    if 65 <= code && code <= 90 {
        code + 32
    } else {
        code
    }
}

/// Compares two texts, ASCII letters without case.
pub fn eq_ignore_ascii_case(a: &str, b: &str) -> (equal: bool)
    ensures
        equal == eq_ignore_ascii_case_spec(a@, b@),
{
    let len = a.unicode_len();
    if len != b.unicode_len() {
        return false;
    }
    let mut i: usize = 0;
    while i < len
        invariant
            len == a@.len(),
            len == b@.len(),
            i <= len,
            forall|j: int| 0 <= j < i ==> ascii_lower_code(#[trigger] a@[j]) == ascii_lower_code(
                b@[j],
            ),
        decreases len - i,
    {
        if lower_code(a.get_char(i)) != lower_code(b.get_char(i)) {
            return false;
        }
        i = i + 1;
    }
    true
}

/// `dto` is the header as shown to the frontend: a `Set-Cookie` value is redacted.
pub open spec fn execution_header_dto_of(dto: ExecutionHeaderDto, header: ExecutionHeader) -> bool {
    &&& dto.name == header.name
    &&& if eq_ignore_ascii_case_spec(header.name@, "set-cookie"@) {
        dto.value@ == redacted_text()
    } else {
        dto.value == header.value
    }
}

impl ExecutionHeaderDto {
    /// The DTO of a response header; the value of a `Set-Cookie` header never goes into it.
    pub fn from_domain(header: ExecutionHeader) -> (dto: ExecutionHeaderDto)
        ensures
            execution_header_dto_of(dto, header),
    {
        let value = if eq_ignore_ascii_case(header.name.as_str(), "set-cookie") {
            redacted_value()
        } else {
            header.value
        };
        ExecutionHeaderDto { name: header.name, value }
    }
}

/// `dto` carries exactly the proxy metadata.
pub open spec fn execution_proxy_metadata_dto_of(
    dto: ExecutionProxyMetadataDto,
    metadata: ExecutionProxyMetadata,
) -> bool {
    &&& dto.source == metadata.source
    &&& dto.selected_proxy == metadata.selected_proxy
    &&& dto.bypass_reason == metadata.bypass_reason
}

/// The proxy an execution used, or why it bypassed one, reaches the boundary under its own name.
pub proof fn lemma_proxy_metadata_keeps_its_names(dto: ExecutionProxyMetadataDto, metadata: ExecutionProxyMetadata)
    requires
        execution_proxy_metadata_dto_of(dto, metadata),
    ensures
        dto.source == metadata.source,
        dto.selected_proxy == metadata.selected_proxy,
        dto.bypass_reason == metadata.bypass_reason,
{
}

impl ExecutionProxyMetadataDto {
    /// The DTO of proxy metadata.
    pub fn from_domain(metadata: ExecutionProxyMetadata) -> (dto: ExecutionProxyMetadataDto)
        ensures
            execution_proxy_metadata_dto_of(dto, metadata),
            dto.source == metadata.source,
            dto.selected_proxy == metadata.selected_proxy,
            dto.bypass_reason == metadata.bypass_reason,
    {
        ExecutionProxyMetadataDto {
            source: metadata.source,
            selected_proxy: metadata.selected_proxy,
            bypass_reason: metadata.bypass_reason,
        }
    }
}

/// `dto` carries exactly the timeout metadata.
pub open spec fn execution_timeout_metadata_dto_of(
    dto: ExecutionTimeoutMetadataDto,
    metadata: ExecutionTimeoutMetadata,
) -> bool {
    &&& dto.connect_ms == metadata.connect_ms
    &&& dto.overall_ms == metadata.overall_ms
    &&& dto.idle_ms == metadata.idle_ms
}

/// Each timeout an execution reports reaches the boundary under its own name.
pub proof fn lemma_timeout_metadata_keeps_its_names(dto: ExecutionTimeoutMetadataDto, metadata: ExecutionTimeoutMetadata)
    requires
        execution_timeout_metadata_dto_of(dto, metadata),
    ensures
        dto.connect_ms == metadata.connect_ms,
        dto.overall_ms == metadata.overall_ms,
        dto.idle_ms == metadata.idle_ms,
{
}

impl ExecutionTimeoutMetadataDto {
    /// The DTO of timeout metadata.
    pub fn from_domain(metadata: ExecutionTimeoutMetadata) -> (dto: ExecutionTimeoutMetadataDto)
        ensures
            execution_timeout_metadata_dto_of(dto, metadata),
            dto.connect_ms == metadata.connect_ms,
            dto.overall_ms == metadata.overall_ms,
            dto.idle_ms == metadata.idle_ms,
    {
        ExecutionTimeoutMetadataDto {
            connect_ms: metadata.connect_ms,
            overall_ms: metadata.overall_ms,
            idle_ms: metadata.idle_ms,
        }
    }
}

/// `dto` carries exactly the timing metadata.
pub open spec fn execution_timing_metadata_dto_of(
    dto: ExecutionTimingMetadataDto,
    metadata: ExecutionTimingMetadata,
) -> bool {
    &&& dto.queued_ms == metadata.queued_ms
    &&& dto.dns_ms == metadata.dns_ms
    &&& dto.connect_ms == metadata.connect_ms
    &&& dto.tls_ms == metadata.tls_ms
    &&& dto.first_byte_ms == metadata.first_byte_ms
    &&& dto.download_ms == metadata.download_ms
    &&& dto.total_ms == metadata.total_ms
}

/// Every phase of the timing reaches the boundary under its own name: a DTO that carries
/// timing metadata shows each phase's duration in the field of that phase, so no two phases
/// trade places.
pub proof fn lemma_timing_phases_keep_their_names(
    dto: ExecutionTimingMetadataDto,
    metadata: ExecutionTimingMetadata,
)
    requires
        execution_timing_metadata_dto_of(dto, metadata),
    ensures
        dto.queued_ms == metadata.queued_ms,
        dto.dns_ms == metadata.dns_ms,
        dto.connect_ms == metadata.connect_ms,
        dto.tls_ms == metadata.tls_ms,
        dto.first_byte_ms == metadata.first_byte_ms,
        dto.download_ms == metadata.download_ms,
        dto.total_ms == metadata.total_ms,
{
}

impl ExecutionTimingMetadataDto {
    /// The DTO of timing metadata.
    pub fn from_domain(metadata: ExecutionTimingMetadata) -> (dto: ExecutionTimingMetadataDto)
        ensures
            execution_timing_metadata_dto_of(dto, metadata),
            dto.queued_ms == metadata.queued_ms,
            dto.dns_ms == metadata.dns_ms,
            dto.connect_ms == metadata.connect_ms,
            dto.tls_ms == metadata.tls_ms,
            dto.first_byte_ms == metadata.first_byte_ms,
            dto.download_ms == metadata.download_ms,
            dto.total_ms == metadata.total_ms,
    {
        ExecutionTimingMetadataDto {
            queued_ms: metadata.queued_ms,
            dns_ms: metadata.dns_ms,
            connect_ms: metadata.connect_ms,
            tls_ms: metadata.tls_ms,
            first_byte_ms: metadata.first_byte_ms,
            download_ms: metadata.download_ms,
            total_ms: metadata.total_ms,
        }
    }
}

/// `dto` carries exactly the response file metadata.
pub open spec fn response_file_metadata_dto_of(
    dto: ResponseFileMetadataDto,
    metadata: ResponseFileMetadata,
) -> bool {
    &&& dto.path == metadata.path
    &&& dto.byte_count == metadata.byte_count
    &&& dto.expires_at_epoch_seconds == metadata.expires_at_epoch_seconds
}

/// A response file reaches the boundary with its own path, size and expiry.
pub proof fn lemma_response_file_keeps_its_fields(dto: ResponseFileMetadataDto, metadata: ResponseFileMetadata)
    requires
        response_file_metadata_dto_of(dto, metadata),
    ensures
        dto.path == metadata.path,
        dto.byte_count == metadata.byte_count,
        dto.expires_at_epoch_seconds == metadata.expires_at_epoch_seconds,
{
}

impl ResponseFileMetadataDto {
    /// The DTO of a response file.
    pub fn from_domain(metadata: ResponseFileMetadata) -> (dto: ResponseFileMetadataDto)
        ensures
            response_file_metadata_dto_of(dto, metadata),
            dto.path == metadata.path,
            dto.byte_count == metadata.byte_count,
            dto.expires_at_epoch_seconds == metadata.expires_at_epoch_seconds,
    {
        ResponseFileMetadataDto {
            path: metadata.path,
            byte_count: metadata.byte_count,
            expires_at_epoch_seconds: metadata.expires_at_epoch_seconds,
        }
    }
}

/// `dto` describes what happened to the running request.
pub open spec fn execution_event_kind_dto_of(dto: ExecutionEventKindDto, kind: ExecutionEventKind) -> bool {
    match (dto, kind) {
        (
            ExecutionEventKindDto::Started {
                method: dm,
                url: du,
                tls_verification: dt,
                proxy: dp,
                timeouts: dto_timeouts,
                queued_ms: dq,
            },
            ExecutionEventKind::Started { method, url, tls_verification, proxy, timeouts, queued_ms },
        ) => {
            &&& dm == method
            &&& du == url
            &&& dt == tls_verification
            &&& execution_proxy_metadata_dto_of(dp, proxy)
            &&& execution_timeout_metadata_dto_of(dto_timeouts, timeouts)
            &&& dq == queued_ms
        },
        (
            ExecutionEventKindDto::Redirected { from: df, to: dt, status: ds },
            ExecutionEventKind::Redirected { from, to, status },
        ) => df == from && dt == to && ds == status,
        (
            ExecutionEventKindDto::UploadProgress { sent_bytes: ds, total_bytes: dt },
            ExecutionEventKind::UploadProgress { sent_bytes, total_bytes },
        ) => ds == sent_bytes && dt == total_bytes,
        (
            ExecutionEventKindDto::ResponseHeaders {
                status: ds,
                headers: dh,
                protocol: dp,
                remote_addr: dr,
            },
            ExecutionEventKind::ResponseHeaders { status, headers, protocol, remote_addr },
        ) => {
            &&& ds == status
            &&& pairwise(
                dh@,
                headers@,
                |d: ExecutionHeaderDto, h: ExecutionHeader| execution_header_dto_of(d, h),
            )
            &&& dp == protocol
            &&& dr == remote_addr
        },
        (
            ExecutionEventKindDto::DownloadProgress { received_bytes: dr, total_bytes: dt },
            ExecutionEventKind::DownloadProgress { received_bytes, total_bytes },
        ) => dr == received_bytes && dt == total_bytes,
        (
            ExecutionEventKindDto::Completed {
                status: ds,
                body_preview: db,
                body_truncated: dtr,
                decoded_bytes: dd,
                wire_bytes: dw,
                response_file: df,
                timing: dti,
            },
            ExecutionEventKind::Completed {
                status,
                body_preview,
                body_truncated,
                decoded_bytes,
                wire_bytes,
                response_file,
                timing,
            },
        ) => {
            &&& ds == status
            &&& db == body_preview
            &&& dtr == body_truncated
            &&& dd == decoded_bytes
            &&& dw == wire_bytes
            &&& match (df, response_file) {
                (Some(d), Some(f)) => response_file_metadata_dto_of(d, f),
                (None, None) => true,
                _ => false,
            }
            &&& execution_timing_metadata_dto_of(dti, timing)
        },
        (ExecutionEventKindDto::Failed { message: dm }, ExecutionEventKind::Failed { message }) =>
            dm == message,
        (ExecutionEventKindDto::Cancelled, ExecutionEventKind::Cancelled) => true,
        _ => false,
    }
}

/// Every execution event reaches the boundary as the event of the same kind, each value in
/// the field of the same name: a redirect keeps where it came from and where it went,
/// progress keeps what was done and what was expected, and a completion keeps its status,
/// body and byte counts.
pub proof fn lemma_execution_events_keep_their_fields(dto: ExecutionEventKindDto, kind: ExecutionEventKind)
    requires
        execution_event_kind_dto_of(dto, kind),
    ensures
        kind matches ExecutionEventKind::Started { method, url, tls_verification, queued_ms, .. }
            ==> dto matches ExecutionEventKindDto::Started {
            method: dm,
            url: du,
            tls_verification: dt,
            queued_ms: dq,
            ..
        } && dm == method && du == url && dt == tls_verification && dq == queued_ms,
        kind matches ExecutionEventKind::Redirected { from, to, status }
            ==> dto matches ExecutionEventKindDto::Redirected { from: df, to: dt, status: ds } && df
            == from && dt == to && ds == status,
        kind matches ExecutionEventKind::UploadProgress { sent_bytes, total_bytes }
            ==> dto matches ExecutionEventKindDto::UploadProgress { sent_bytes: ds, total_bytes: dt }
            && ds == sent_bytes && dt == total_bytes,
        kind matches ExecutionEventKind::ResponseHeaders { status, protocol, remote_addr, .. }
            ==> dto matches ExecutionEventKindDto::ResponseHeaders {
            status: ds,
            protocol: dp,
            remote_addr: dr,
            ..
        } && ds == status && dp == protocol && dr == remote_addr,
        kind matches ExecutionEventKind::DownloadProgress { received_bytes, total_bytes }
            ==> dto matches ExecutionEventKindDto::DownloadProgress {
            received_bytes: dr,
            total_bytes: dt,
        } && dr == received_bytes && dt == total_bytes,
        kind matches ExecutionEventKind::Completed {
            status,
            body_preview,
            body_truncated,
            decoded_bytes,
            wire_bytes,
            ..
        } ==> dto matches ExecutionEventKindDto::Completed {
            status: ds,
            body_preview: db,
            body_truncated: dtr,
            decoded_bytes: dd,
            wire_bytes: dw,
            ..
        } && ds == status && db == body_preview && dtr == body_truncated && dd == decoded_bytes
            && dw == wire_bytes,
        kind matches ExecutionEventKind::Failed { message } ==> dto matches ExecutionEventKindDto::Failed {
            message: dm,
        } && dm == message,
        kind is Cancelled <==> dto is Cancelled,
{
}

impl ExecutionEventKindDto {
    /// The DTO of what happened to a running request.
    pub fn from_domain(kind: ExecutionEventKind) -> (dto: ExecutionEventKindDto)
        ensures
            execution_event_kind_dto_of(dto, kind),
    {
        match kind {
            ExecutionEventKind::Started {
                method,
                url,
                tls_verification,
                proxy,
                timeouts,
                queued_ms,
            } => ExecutionEventKindDto::Started {
                method,
                url,
                tls_verification,
                proxy: ExecutionProxyMetadataDto::from_domain(proxy),
                timeouts: ExecutionTimeoutMetadataDto::from_domain(timeouts),
                queued_ms,
            },
            ExecutionEventKind::Redirected { from, to, status } => ExecutionEventKindDto::Redirected {
                from,
                to,
                status,
            },
            ExecutionEventKind::UploadProgress { sent_bytes, total_bytes } =>
                ExecutionEventKindDto::UploadProgress { sent_bytes, total_bytes },
            ExecutionEventKind::ResponseHeaders { status, headers, protocol, remote_addr } =>
                ExecutionEventKindDto::ResponseHeaders {
                status,
                headers: map_vec(
                    headers,
                    ExecutionHeaderDto::from_domain,
                    Ghost(|h: ExecutionHeader, d: ExecutionHeaderDto| execution_header_dto_of(d, h)),
                ),
                protocol,
                remote_addr,
            },
            ExecutionEventKind::DownloadProgress { received_bytes, total_bytes } =>
                ExecutionEventKindDto::DownloadProgress { received_bytes, total_bytes },
            ExecutionEventKind::Completed {
                status,
                body_preview,
                body_truncated,
                decoded_bytes,
                wire_bytes,
                response_file,
                timing,
            } => {
                let response_file = match response_file {
                    Some(file) => Some(ResponseFileMetadataDto::from_domain(file)),
                    None => None,
                };
                ExecutionEventKindDto::Completed {
                    status,
                    body_preview,
                    body_truncated,
                    decoded_bytes,
                    wire_bytes,
                    response_file,
                    timing: ExecutionTimingMetadataDto::from_domain(timing),
                }
            },
            ExecutionEventKind::Failed { message } => ExecutionEventKindDto::Failed { message },
            ExecutionEventKind::Cancelled => ExecutionEventKindDto::Cancelled,
        }
    }
}

/// `dto` describes the event, with the execution id as UUID text.
pub open spec fn execution_event_dto_of(dto: ExecutionEventDto, event: ExecutionEvent) -> bool {
    &&& dto.execution_id@ == event.execution_id.text()
    &&& dto.sequence == event.sequence
    &&& execution_event_kind_dto_of(dto.kind, event.kind)
}

impl ExecutionEventDto {
    /// The DTO of an execution event.
    pub fn from_domain(event: ExecutionEvent) -> (dto: ExecutionEventDto)
        ensures
            execution_event_dto_of(dto, event),
    {
        ExecutionEventDto {
            execution_id: event.execution_id.to_text(),
            sequence: event.sequence,
            kind: ExecutionEventKindDto::from_domain(event.kind),
        }
    }
}

impl StartRequestExecutionOutput {
    /// The answer to a started execution.
    pub fn from_domain(result: StartExecutionResult) -> (dto: StartRequestExecutionOutput)
        ensures
            dto.execution_id@ == result.execution_id.text(),
    {
        StartRequestExecutionOutput { execution_id: result.execution_id.to_text() }
    }
}

impl CancelRequestExecutionOutput {
    /// The answer to a cancellation.
    pub fn from_domain(result: CancelExecutionResult) -> (dto: CancelRequestExecutionOutput)
        ensures
            dto.execution_id@ == result.execution_id.text(),
            dto.cancelled == result.cancelled,
    {
        CancelRequestExecutionOutput {
            execution_id: result.execution_id.to_text(),
            cancelled: result.cancelled,
        }
    }
}

/// Reads an execution id, or answers that it is invalid.
pub fn parse_execution_id(value: &str) -> (outcome: Result<ExecutionId, IpcError>)
    ensures
        crate::conversions::parse_outcome(
            outcome,
            ExecutionId::parsed(value@),
            BoundaryError::InvalidExecutionId,
        ),
{
    match ExecutionId::parse(value) {
        Some(id) => Ok(id),
        None => Err(IpcError::from_boundary_error(BoundaryError::InvalidExecutionId)),
    }
}

/// Reads an OAuth flow id, or answers that it is invalid.
pub fn parse_oauth_flow_id(value: &str) -> (outcome: Result<OAuthFlowId, IpcError>)
    ensures
        crate::conversions::parse_outcome(
            outcome,
            OAuthFlowId::parsed(value@),
            BoundaryError::InvalidOAuthFlowId,
        ),
{
    match OAuthFlowId::parse(value) {
        Some(id) => Ok(id),
        None => Err(IpcError::from_boundary_error(BoundaryError::InvalidOAuthFlowId)),
    }
}

/// `request` carries the authorization input with its flow id read.
pub open spec fn oauth_request_of(
    request: StartOAuthAuthorizationRequest,
    input: StartOAuthAuthorizationInput,
) -> bool {
    &&& Some(request.flow_id) == OAuthFlowId::parsed(input.flow_id@)
    &&& request.authorization_endpoint == input.authorization_endpoint
    &&& request.client_id == input.client_id
    &&& request.scopes == input.scopes
    &&& request.redirect_path == input.redirect_path
    &&& request.timeout_ms == input.timeout_ms
}

impl StartOAuthAuthorizationRequest {
    /// Reads an authorization to start; fails when the flow id is not a UUID.
    pub fn try_from_input(input: StartOAuthAuthorizationInput) -> (outcome: Result<
        StartOAuthAuthorizationRequest,
        IpcError,
    >)
        ensures
            match outcome {
                Ok(request) => oauth_request_of(request, input),
                Err(error) => OAuthFlowId::parsed(input.flow_id@) is None && error@
                    == boundary_error_view(BoundaryError::InvalidOAuthFlowId),
            },
    {
        let flow_id = match parse_oauth_flow_id(&input.flow_id) {
            Ok(id) => id,
            Err(error) => {
                return Err(error);
            },
        };
        Ok(StartOAuthAuthorizationRequest {
            flow_id,
            authorization_endpoint: input.authorization_endpoint,
            client_id: input.client_id,
            scopes: input.scopes,
            redirect_path: input.redirect_path,
            timeout_ms: input.timeout_ms,
        })
    }
}

/// `dto` carries the authorization result, with the flow id as UUID text.
pub open spec fn oauth_result_dto_of(dto: OAuthAuthorizationResultDto, result: OAuthAuthorizationResult) -> bool {
    &&& dto.flow_id@ == result.flow_id.text()
    &&& dto.redirect_uri == result.redirect_uri
    &&& dto.code == result.code
    &&& dto.state == result.state
    &&& dto.error == result.error
    &&& dto.error_description == result.error_description
}

impl OAuthAuthorizationResultDto {
    /// The DTO of an authorization result.
    pub fn from_domain(result: OAuthAuthorizationResult) -> (dto: OAuthAuthorizationResultDto)
        ensures
            oauth_result_dto_of(dto, result),
    {
        OAuthAuthorizationResultDto {
            flow_id: result.flow_id.to_text(),
            redirect_uri: result.redirect_uri,
            code: result.code,
            state: result.state,
            error: result.error,
            error_description: result.error_description,
        }
    }
}

impl CancelOAuthAuthorizationOutput {
    /// The answer to a cancelled authorization.
    pub fn from_domain(result: CancelOAuthAuthorizationResult) -> (dto:
        CancelOAuthAuthorizationOutput)
        ensures
            dto.flow_id@ == result.flow_id.text(),
            dto.cancelled == result.cancelled,
    {
        CancelOAuthAuthorizationOutput {
            flow_id: result.flow_id.to_text(),
            cancelled: result.cancelled,
        }
    }
}

// ----- observing a running request -----

/// The diagnostic stage an event marks, if it marks one.
pub open spec fn diagnostic_stage_text(kind: ExecutionEventKind) -> Option<Seq<char>> {
    match kind {
        ExecutionEventKind::Started { .. } => Some("http.started"@),
        ExecutionEventKind::ResponseHeaders { .. } => Some("http.response-headers"@),
        ExecutionEventKind::Completed { .. } => Some("http.completed"@),
        ExecutionEventKind::Failed { .. } => Some("http.failed"@),
        ExecutionEventKind::Cancelled => Some("http.cancelled"@),
        _ => None,
    }
}

/// The diagnostic stage an event marks; progress and redirects mark none.
pub fn execution_event_diagnostic_stage(kind: &ExecutionEventKind) -> (stage: Option<&'static str>)
    ensures
        match stage {
            Some(text) => diagnostic_stage_text(*kind) == Some(text@),
            None => diagnostic_stage_text(*kind) is None,
        },
{
    match kind {
        ExecutionEventKind::Started { .. } => Some("http.started"),
        ExecutionEventKind::ResponseHeaders { .. } => Some("http.response-headers"),
        ExecutionEventKind::Completed { .. } => Some("http.completed"),
        ExecutionEventKind::Failed { .. } => Some("http.failed"),
        ExecutionEventKind::Cancelled => Some("http.cancelled"),
        ExecutionEventKind::Redirected { .. } => None,
        ExecutionEventKind::UploadProgress { .. } => None,
        ExecutionEventKind::DownloadProgress { .. } => None,
    }
}

/// The order of the header at `index`, held at `u32::MAX` past the end of `u32`.
pub open spec fn header_order(index: int) -> u32 {
    if index <= u32::MAX {
        index as u32
    } else {
        u32::MAX
    }
}

/// `field` is the response header at `index`, as an enabled ordered field.
pub open spec fn header_field_of(field: OrderedField, header: ExecutionHeader, index: int) -> bool {
    &&& field.enabled
    &&& field.order == header_order(index)
    &&& field.name == header.name
    &&& field.value == header.value
}

/// `fields` are the response headers, in order, each enabled and numbered by its position.
pub open spec fn header_fields_of(fields: Seq<OrderedField>, headers: Seq<ExecutionHeader>) -> bool {
    &&& fields.len() == headers.len()
    &&& forall|i: int| 0 <= i < fields.len() ==> #[trigger] header_field_of(fields[i], headers[i], i)
}

/// The response headers as ordered fields, numbered by their position.
pub fn response_header_fields(headers: &Vec<ExecutionHeader>) -> (fields: Vec<OrderedField>)
    ensures
        header_fields_of(fields@, headers@),
{
    let mut fields: Vec<OrderedField> = Vec::new();
    let mut i: usize = 0;
    while i < headers.len()
        invariant
            i <= headers@.len(),
            fields@.len() == i,
            forall|j: int| 0 <= j < i ==> #[trigger] header_field_of(fields@[j], headers@[j], j),
        decreases headers@.len() - i,
    {
        let order: u32 = if i <= 4294967295usize {
            i as u32
        } else {
            4294967295u32
        };
        let header = &headers[i];
        fields.push(
            OrderedField {
                enabled: true,
                order,
                name: header.name.clone(),
                value: header.value.clone(),
            },
        );
        i = i + 1;
    }
    fields
}

/// The history record a finished request leaves.
#[derive(Clone, Debug, PartialEq, Eq)]
pub struct ObservedExecutionRecord {
    pub workspace_id: WorkspaceId,
    pub content: RequestContent,
    pub response: ExecutionRecordResponse,
    pub completed_at_epoch_seconds: i64,
}

/// Follows the events of one running request and makes its history record,
/// once, when the request completes, fails or is cancelled.
pub struct ExecutionHistoryObserver {
    workspace_id: WorkspaceId,
    content: Option<RequestContent>,
    response_headers: Vec<OrderedField>,
}

/// The record `observed` made of the request, given the response fields.
pub open spec fn observed_record_of(
    observed: ObservedExecutionRecord,
    workspace_id: WorkspaceId,
    content: RequestContent,
    headers: Seq<OrderedField>,
    status: Option<u16>,
    body_preview: Seq<char>,
    body_truncated: bool,
    error: Option<Seq<char>>,
    elapsed_ms: u64,
    now_epoch_seconds: i64,
) -> bool {
    &&& observed.workspace_id == workspace_id
    &&& observed.content == content
    &&& observed.response.status == status
    &&& observed.response.headers@ == headers
    &&& observed.response.body_preview@ == body_preview
    &&& observed.response.body_truncated == body_truncated
    &&& observed.response.error.deep_view() == error
    &&& observed.response.duration_ms == Some(elapsed_ms)
    &&& observed.completed_at_epoch_seconds == now_epoch_seconds
}

impl ExecutionHistoryObserver {
    /// The workspace the request runs in.
    pub closed spec fn workspace(&self) -> WorkspaceId {
        self.workspace_id
    }

    /// The request, until its record is made.
    pub closed spec fn pending_content(&self) -> Option<RequestContent> {
        self.content
    }

    /// The response headers seen so far.
    pub closed spec fn seen_headers(&self) -> Seq<OrderedField> {
        self.response_headers@
    }

    /// An observer for a request that has not produced a record yet.
    pub fn new(workspace_id: WorkspaceId, content: RequestContent) -> (observer: ExecutionHistoryObserver)
        ensures
            observer.workspace() == workspace_id,
            observer.pending_content() == Some(content),
            observer.seen_headers() == Seq::<OrderedField>::empty(),
    {
        ExecutionHistoryObserver { workspace_id, content: Some(content), response_headers: Vec::new() }
    }

    /// Makes the history record unless one was made; `elapsed_ms` is the time since
    /// the request started and `now_epoch_seconds` the wall clock when it ended.
    pub fn record(
        &mut self,
        status: Option<u16>,
        body_preview: String,
        body_truncated: bool,
        error: Option<String>,
        elapsed_ms: u64,
        now_epoch_seconds: i64,
    ) -> (observed: Option<ObservedExecutionRecord>)
        ensures
            final(self).workspace() == old(self).workspace(),
            final(self).pending_content() is None,
            final(self).seen_headers() == if old(self).pending_content() is Some {
                Seq::<OrderedField>::empty()
            } else {
                old(self).seen_headers()
            },
            match old(self).pending_content() {
                None => observed is None,
                Some(content) => observed matches Some(o) && observed_record_of(
                    o,
                    old(self).workspace(),
                    content,
                    old(self).seen_headers(),
                    status,
                    body_preview@,
                    body_truncated,
                    error.deep_view(),
                    elapsed_ms,
                    now_epoch_seconds,
                ),
            },
    {
        let content = match self.content.take() {
            Some(content) => content,
            None => {
                return None;
            },
        };
        let mut headers: Vec<OrderedField> = Vec::new();
        std::mem::swap(&mut headers, &mut self.response_headers);
        let observed = ObservedExecutionRecord {
            workspace_id: self.workspace_id,
            content,
            response: ExecutionRecordResponse {
                status,
                headers,
                body_preview,
                body_truncated,
                error,
                duration_ms: Some(elapsed_ms),
            },
            completed_at_epoch_seconds: now_epoch_seconds,
        };
        Some(observed)
    }

    /// Follows one event; a completed, failed or cancelled request yields its
    /// record the first time, and response headers are kept for that record.
    pub fn observe(&mut self, event: &ExecutionEvent, elapsed_ms: u64, now_epoch_seconds: i64) -> (observed:
        Option<ObservedExecutionRecord>)
        ensures
            final(self).workspace() == old(self).workspace(),
            match event.kind {
                ExecutionEventKind::ResponseHeaders { headers, .. } => {
                    &&& observed is None
                    &&& final(self).pending_content() == old(self).pending_content()
                    &&& header_fields_of(final(self).seen_headers(), headers@)
                },
                ExecutionEventKind::Completed { status, body_preview, body_truncated, .. } => {
                    &&& final(self).pending_content() is None
                    &&& match old(self).pending_content() {
                        None => observed is None,
                        Some(content) => observed matches Some(o) && observed_record_of(
                            o,
                            old(self).workspace(),
                            content,
                            old(self).seen_headers(),
                            Some(status),
                            body_preview@,
                            body_truncated,
                            None,
                            elapsed_ms,
                            now_epoch_seconds,
                        ),
                    }
                },
                ExecutionEventKind::Failed { message } => {
                    &&& final(self).pending_content() is None
                    &&& match old(self).pending_content() {
                        None => observed is None,
                        Some(content) => observed matches Some(o) && observed_record_of(
                            o,
                            old(self).workspace(),
                            content,
                            old(self).seen_headers(),
                            None,
                            Seq::<char>::empty(),
                            false,
                            Some(message@),
                            elapsed_ms,
                            now_epoch_seconds,
                        ),
                    }
                },
                ExecutionEventKind::Cancelled => {
                    &&& final(self).pending_content() is None
                    &&& match old(self).pending_content() {
                        None => observed is None,
                        Some(content) => observed matches Some(o) && observed_record_of(
                            o,
                            old(self).workspace(),
                            content,
                            old(self).seen_headers(),
                            None,
                            Seq::<char>::empty(),
                            false,
                            Some("cancelled"@),
                            elapsed_ms,
                            now_epoch_seconds,
                        ),
                    }
                },
                _ => {
                    &&& observed is None
                    &&& final(self).pending_content() == old(self).pending_content()
                    &&& final(self).seen_headers() == old(self).seen_headers()
                },
            },
    {
        match &event.kind {
            ExecutionEventKind::ResponseHeaders { headers, .. } => {
                self.response_headers = response_header_fields(headers);
                None
            },
            ExecutionEventKind::Completed { status, body_preview, body_truncated, .. } => self.record(
                Some(*status),
                body_preview.clone(),
                *body_truncated,
                None,
                elapsed_ms,
                now_epoch_seconds,
            ),
            ExecutionEventKind::Failed { message } => self.record(
                None,
                String::new(),
                false,
                Some(message.clone()),
                elapsed_ms,
                now_epoch_seconds,
            ),
            ExecutionEventKind::Cancelled => self.record(
                None,
                String::new(),
                false,
                Some("cancelled".to_owned()),
                elapsed_ms,
                now_epoch_seconds,
            ),
            _ => None,
        }
    }
}

/// Buffers the events emitted before the start command answers, so that the
/// frontend receives those it could not have subscribed to yet.
pub struct InitialExecutionEvents {
    open: bool,
    events: Vec<ExecutionEventDto>,
}

impl InitialExecutionEvents {
    /// Whether events are still buffered.
    pub closed spec fn is_open(&self) -> bool {
        self.open
    }

    /// The events buffered so far.
    pub closed spec fn buffered(&self) -> Seq<ExecutionEventDto> {
        self.events@
    }

    /// An open, empty buffer.
    pub fn open() -> (buffer: InitialExecutionEvents)
        ensures
            buffer.is_open(),
            buffer.buffered() == Seq::<ExecutionEventDto>::empty(),
    {
        InitialExecutionEvents { open: true, events: Vec::new() }
    }

    /// Buffers an event while the buffer is open; after closing, events are dropped.
    pub fn push(&mut self, event: ExecutionEventDto)
        ensures
            final(self).is_open() == old(self).is_open(),
            final(self).buffered() == if old(self).is_open() {
                old(self).buffered().push(event)
            } else {
                old(self).buffered()
            },
    {
        if self.open {
            self.events.push(event);
        }
    }

    /// Closes the buffer and hands out the events buffered, in order.
    pub fn close(&mut self) -> (events: Vec<ExecutionEventDto>)
        ensures
            !final(self).is_open(),
            events@ == old(self).buffered(),
            final(self).buffered() == Seq::<ExecutionEventDto>::empty(),
    {
        self.open = false;
        let mut events: Vec<ExecutionEventDto> = Vec::new();
        std::mem::swap(&mut events, &mut self.events);
        events
    }
}

// ----- cancelling -----

/// Cancels running request executions; implemented by the execution coordinator, of
/// which nothing is assumed.
pub trait ExecutionControl {
    fn cancel(&self, execution_id: ExecutionId) -> Result<CancelExecutionResult, ExecutionError>;
}

/// Cancels pending OAuth authorizations; implemented by the OAuth coordinator, of which
/// nothing is assumed.
pub trait OAuthControl {
    fn cancel(&self, flow_id: OAuthFlowId) -> Result<CancelOAuthAuthorizationResult, OAuthError>;
}

/// `result` is the IPC answer to the coordinator's cancellation `outcome`.
pub open spec fn cancel_execution_response_of(
    result: Result<CancelRequestExecutionOutput, IpcError>,
    outcome: Result<CancelExecutionResult, ExecutionError>,
) -> bool {
    match (result, outcome) {
        (Ok(dto), Ok(cancelled)) => dto.execution_id@ == cancelled.execution_id.text()
            && dto.cancelled == cancelled.cancelled,
        (Err(error), Err(failure)) => error@ == execution_error_view(failure),
        _ => false,
    }
}

/// Cancels a running request; an unreadable execution id is refused before anything is
/// cancelled.
pub fn handle_cancel_request_execution<E: ExecutionControl>(
    executions: &E,
    input: CancelRequestExecutionInput,
) -> (result: Result<CancelRequestExecutionOutput, IpcError>)
    ensures
        ExecutionId::parsed(input.execution_id@) is None ==> (result matches Err(error) && error@
            == boundary_error_view(BoundaryError::InvalidExecutionId)),
        ExecutionId::parsed(input.execution_id@) is Some ==> exists|
            outcome: Result<CancelExecutionResult, ExecutionError>,
        | #[trigger] cancel_execution_response_of(result, outcome),
{
    let execution_id = match parse_execution_id(&input.execution_id) {
        Ok(id) => id,
        Err(error) => {
            return Err(error);
        },
    };
    let outcome = executions.cancel(execution_id);
    let result = match outcome {
        Ok(cancelled) => Ok(CancelRequestExecutionOutput::from_domain(cancelled)),
        Err(failure) => Err(IpcError::from_boundary_error(BoundaryError::Execution(failure))),
    };
    assert(cancel_execution_response_of(result, outcome));
    result
}

/// `result` is the IPC answer to the OAuth coordinator's cancellation `outcome`.
pub open spec fn cancel_oauth_response_of(
    result: Result<CancelOAuthAuthorizationOutput, IpcError>,
    outcome: Result<CancelOAuthAuthorizationResult, OAuthError>,
) -> bool {
    match (result, outcome) {
        (Ok(dto), Ok(cancelled)) => dto.flow_id@ == cancelled.flow_id.text() && dto.cancelled
            == cancelled.cancelled,
        (Err(error), Err(failure)) => error@ == oauth_error_view(failure),
        _ => false,
    }
}

/// Cancels a pending OAuth authorization; an unreadable flow id is refused before anything
/// is cancelled.
pub fn handle_cancel_oauth_authorization<O: OAuthControl>(
    oauth: &O,
    input: CancelOAuthAuthorizationInput,
) -> (result: Result<CancelOAuthAuthorizationOutput, IpcError>)
    ensures
        OAuthFlowId::parsed(input.flow_id@) is None ==> (result matches Err(error) && error@
            == boundary_error_view(BoundaryError::InvalidOAuthFlowId)),
        OAuthFlowId::parsed(input.flow_id@) is Some ==> exists|
            outcome: Result<CancelOAuthAuthorizationResult, OAuthError>,
        | #[trigger] cancel_oauth_response_of(result, outcome),
{
    let flow_id = match parse_oauth_flow_id(&input.flow_id) {
        Ok(id) => id,
        Err(error) => {
            return Err(error);
        },
    };
    let outcome = oauth.cancel(flow_id);
    let result = match outcome {
        Ok(cancelled) => Ok(CancelOAuthAuthorizationOutput::from_domain(cancelled)),
        Err(failure) => Err(IpcError::from_boundary_error(BoundaryError::OAuth(failure))),
    };
    assert(cancel_oauth_response_of(result, outcome));
    result
}

// ----- saving a response file -----

/// Refuses to save a response file when either path is blank; the copy itself is the
/// caller's.
pub fn validate_save_response_file_input(input: &SaveResponseFileInput) -> (result: Result<
    (),
    IpcError,
>)
    ensures
        result is Ok <==> !is_blank_text(input.source_path@) && !is_blank_text(
            input.destination_path@,
        ),
        result matches Err(error) ==> error@ == error_view(
            IpcErrorCode::InvalidInput,
            "Response file path is invalid."@,
            Some("responseFile"@),
            false,
        ),
{
    if is_blank(input.source_path.as_str()) || is_blank(input.destination_path.as_str()) {
        return Err(
            IpcError {
                code: IpcErrorCode::InvalidInput,
                message: "Response file path is invalid.".to_owned(),
                details: Some("responseFile".to_owned()),
                retryable: false,
            },
        );
    }
    Ok(())
}

} // verus!
