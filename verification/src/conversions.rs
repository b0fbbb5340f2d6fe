//! Conversions between the IPC DTOs and the model, field by field.
//!
//! Identifiers become their UUID text on the way out and are read back from it
//! on the way in; a secret never leaves as a cookie value or a `Set-Cookie`
//! header, and a resolved body that used a secret has its values redacted.
use vstd::prelude::*;
use crate::errors::{boundary_error_view, BoundaryError, IpcError};
use crate::ids::{CollectionId, CookieId, SavedRequestId, WorkspaceId};
use crate::domain::{
    ApiKeyPlacement, BodyFilePath, BodyFileReference, CloseTabDecision, CollectionFolder,
    CollectionLocation, CollectionVariable, CookieDraft, CookieJarSnapshot, CookieSameSite,
    Environment, EnvironmentVariable, ExecutionHistorySnapshot, ExecutionRecord,
    ExecutionRecordResponse, MultipartPart, OrderedField, ProxyPolicy, ProxySource,
    RedirectPolicy, RequestAuth, RequestBody, RequestContent, RequestDraft, RequestTab,
    RequestWorkspaceSnapshot, ResolvedField, ResolvedMultipartPart, ResolvedRequestBody,
    ResolvedRequestContent, ResolvedValue, ResolvedVariableReference, SavedRequest,
    TimeoutPolicy, TlsPolicy, TransportPolicy, Variable, VariableResolutionError,
    VariableResolutionErrorKind, VariableSource, VariableValue, WorkspaceCookie,
    WorkspaceSnapshot, WorkspaceSummary,
};
use crate::dto::{
    ApiKeyPlacementDto, BodyFilePathDto, BodyFileReferenceDto, CloseTabDecisionDto,
    CollectionFolderDto, CollectionLocationDto, CollectionVariableDto, CookieJarSnapshotDto,
    CookieSameSiteDto, EnvironmentDto, EnvironmentVariableDto, ExecutionHistorySnapshotDto,
    ExecutionRecordDto, ExecutionRecordResponseDto, MultipartPartDto, OrderedFieldDto,
    ProxyPolicyDto, ProxySourceDto, RedirectPolicyDto, RequestAuthDto, RequestBodyDto,
    RequestContentDto, RequestDraftDto, RequestTabDto, RequestWorkspaceSnapshotDto,
    ResolvedFieldDto, ResolvedRequestContentDto, ResolvedValueDto, ResolvedVariableReferenceDto,
    SavedRequestDto, TimeoutPolicyDto, TlsPolicyDto, TransportPolicyDto, UpsertCookieInput,
    VariableDto, VariableResolutionErrorDto, VariableResolutionErrorKindDto, VariableSourceDto,
    VariableValueDto, WorkspaceCookieDto, WorkspaceSnapshotDto, WorkspaceSummaryDto,
};

verus! {

/// Two sequences of equal length whose elements are related pairwise.
pub open spec fn pairwise<A, B>(a: Seq<A>, b: Seq<B>, rel: spec_fn(A, B) -> bool) -> bool {
    &&& a.len() == b.len()
    &&& forall|i: int| #![trigger a[i], b[i]] 0 <= i < a.len() ==> rel(a[i], b[i])
}

/// Converts every element of a vector in order.
pub(crate) fn map_vec<U, T, F: Fn(U) -> T>(
    src: Vec<U>,
    f: F,
    Ghost(rel): Ghost<spec_fn(U, T) -> bool>,
) -> (out: Vec<T>)
    requires
        forall|u: U| #[trigger] f.requires((u,)),
        forall|u: U, t: T| f.ensures((u,), t) ==> rel(u, t),
    ensures
        pairwise(src@, out@, rel),
{
    let mut out: Vec<T> = Vec::new();
    for u in it: src.into_iter()
        invariant
            forall|u: U| #[trigger] f.requires((u,)),
            forall|u: U, t: T| f.ensures((u,), t) ==> rel(u, t),
            out@.len() == it.index(),
            it.seq() == src@,
            forall|i: int| #![trigger src@[i], out@[i]] 0 <= i < out@.len() ==> rel(src@[i], out@[i]),
    {
        let t = f(u);
        out.push(t);
    }
    out
}

/// The text shown in place of a secret.
pub open spec fn redacted_text() -> Seq<char> {
    "[redacted]"@
}

/// The text shown in place of a secret.
pub fn redacted_value() -> (text: String)
    ensures
        text@ == redacted_text(),
{
    "[redacted]".to_owned()
}

// ----- ordered fields -----

/// `dto` carries exactly the fields of `field`.
pub open spec fn ordered_field_dto_of(dto: OrderedFieldDto, field: OrderedField) -> bool {
    &&& dto.enabled == field.enabled
    &&& dto.order == field.order
    &&& dto.name == field.name
    &&& dto.value == field.value
}

/// The rows of `dtos` carry the rows of `fields`, in order.
pub open spec fn ordered_fields_dto_of(dtos: Seq<OrderedFieldDto>, fields: Seq<OrderedField>) -> bool {
    pairwise(dtos, fields, |d: OrderedFieldDto, f: OrderedField| ordered_field_dto_of(d, f))
}

impl OrderedFieldDto {
    /// The DTO of an ordered field.
    pub fn from_domain(field: OrderedField) -> (dto: OrderedFieldDto)
        ensures
            ordered_field_dto_of(dto, field),
    {
        OrderedFieldDto {
            enabled: field.enabled,
            order: field.order,
            name: field.name,
            value: field.value,
        }
    }
}

impl OrderedField {
    /// The ordered field a DTO describes.
    pub fn from_dto(dto: OrderedFieldDto) -> (field: OrderedField)
        ensures
            ordered_field_dto_of(dto, field),
    {
        OrderedField { enabled: dto.enabled, order: dto.order, name: dto.name, value: dto.value }
    }
}

/// The DTOs of ordered fields, in order.
pub fn ordered_field_dtos(fields: Vec<OrderedField>) -> (dtos: Vec<OrderedFieldDto>)
    ensures
        ordered_fields_dto_of(dtos@, fields@),
{
    map_vec(
        fields,
        OrderedFieldDto::from_domain,
        Ghost(|f: OrderedField, d: OrderedFieldDto| ordered_field_dto_of(d, f)),
    )
}

/// The ordered fields of DTOs, in order.
pub fn ordered_fields_from_dtos(dtos: Vec<OrderedFieldDto>) -> (fields: Vec<OrderedField>)
    ensures
        ordered_fields_dto_of(dtos@, fields@),
{
    map_vec(
        dtos,
        OrderedField::from_dto,
        Ghost(|d: OrderedFieldDto, f: OrderedField| ordered_field_dto_of(d, f)),
    )
}

// ----- authentication -----

/// The DTO of an API key placement.
pub open spec fn api_key_placement_dto(placement: ApiKeyPlacement) -> ApiKeyPlacementDto {
    match placement {
        ApiKeyPlacement::Header => ApiKeyPlacementDto::Header,
        ApiKeyPlacement::Query => ApiKeyPlacementDto::Query,
    }
}

/// The API key placement of a DTO.
pub open spec fn api_key_placement_of(dto: ApiKeyPlacementDto) -> ApiKeyPlacement {
    match dto {
        ApiKeyPlacementDto::Header => ApiKeyPlacement::Header,
        ApiKeyPlacementDto::Query => ApiKeyPlacement::Query,
    }
}

/// An API key placement crosses the boundary as the placement of the same name, both ways:
/// a key sent as a header stays a header and a key sent in the query stays in the query.
pub proof fn lemma_api_key_placement_keeps_its_name(placement: ApiKeyPlacement, dto: ApiKeyPlacementDto)
    ensures
        api_key_placement_dto(placement) is Header <==> placement is Header,
        api_key_placement_dto(placement) is Query <==> placement is Query,
        api_key_placement_of(dto) is Header <==> dto is Header,
        api_key_placement_of(dto) is Query <==> dto is Query,
{
}

impl ApiKeyPlacementDto {
    /// The DTO of an API key placement.
    pub fn from_domain(placement: ApiKeyPlacement) -> (dto: ApiKeyPlacementDto)
        ensures
            dto == api_key_placement_dto(placement),
            dto is Header <==> placement is Header,
            dto is Query <==> placement is Query,
    {
        match placement {
            ApiKeyPlacement::Header => ApiKeyPlacementDto::Header,
            ApiKeyPlacement::Query => ApiKeyPlacementDto::Query,
        }
    }
}

impl ApiKeyPlacement {
    /// The API key placement a DTO names.
    pub fn from_dto(dto: ApiKeyPlacementDto) -> (placement: ApiKeyPlacement)
        ensures
            placement == api_key_placement_of(dto),
            placement is Header <==> dto is Header,
            placement is Query <==> dto is Query,
    {
        match dto {
            ApiKeyPlacementDto::Header => ApiKeyPlacement::Header,
            ApiKeyPlacementDto::Query => ApiKeyPlacement::Query,
        }
    }
}

/// `dto` describes the authentication `auth`.
pub open spec fn request_auth_dto_of(dto: RequestAuthDto, auth: RequestAuth) -> bool {
    match (dto, auth) {
        (RequestAuthDto::NoAuth, RequestAuth::NoAuth) => true,
        (
            RequestAuthDto::Basic { username: du, password: dp },
            RequestAuth::Basic { username, password },
        ) => du == username && dp == password,
        (RequestAuthDto::Bearer { token: dt }, RequestAuth::Bearer { token }) => dt == token,
        (
            RequestAuthDto::ApiKey { placement: dpl, name: dn, value: dv },
            RequestAuth::ApiKey { placement, name, value },
        ) => dpl == api_key_placement_dto(placement) && dn == name && dv == value,
        (
            RequestAuthDto::ClientCredentials {
                token_endpoint: de,
                client_id: dc,
                client_secret: ds,
                scopes: dsc,
            },
            RequestAuth::ClientCredentials { token_endpoint, client_id, client_secret, scopes },
        ) => de == token_endpoint && dc == client_id && ds == client_secret && dsc == scopes,
        _ => false,
    }
}

impl RequestAuthDto {
    /// The DTO of a request's authentication.
    pub fn from_domain(auth: RequestAuth) -> (dto: RequestAuthDto)
        ensures
            request_auth_dto_of(dto, auth),
    {
        match auth {
            RequestAuth::NoAuth => RequestAuthDto::NoAuth,
            RequestAuth::Basic { username, password } => RequestAuthDto::Basic { username, password },
            RequestAuth::Bearer { token } => RequestAuthDto::Bearer { token },
            RequestAuth::ApiKey { placement, name, value } => RequestAuthDto::ApiKey {
                placement: ApiKeyPlacementDto::from_domain(placement),
                name,
                value,
            },
            RequestAuth::ClientCredentials { token_endpoint, client_id, client_secret, scopes } =>
                RequestAuthDto::ClientCredentials {
                token_endpoint,
                client_id,
                client_secret,
                scopes,
            },
        }
    }
}

impl RequestAuth {
    /// The authentication a DTO describes.
    pub fn from_dto(dto: RequestAuthDto) -> (auth: RequestAuth)
        ensures
            request_auth_dto_of(dto, auth),
    {
        match dto {
            RequestAuthDto::NoAuth => RequestAuth::NoAuth,
            RequestAuthDto::Basic { username, password } => RequestAuth::Basic { username, password },
            RequestAuthDto::Bearer { token } => RequestAuth::Bearer { token },
            RequestAuthDto::ApiKey { placement, name, value } => {
                let placement = ApiKeyPlacement::from_dto(placement);
                proof {
                    assert(api_key_placement_dto(placement) == api_key_placement_dto(
                        api_key_placement_of(dto->ApiKey_placement),
                    ));
                }
                RequestAuth::ApiKey { placement, name, value }
            },
            RequestAuthDto::ClientCredentials { token_endpoint, client_id, client_secret, scopes } =>
                RequestAuth::ClientCredentials {
                token_endpoint,
                client_id,
                client_secret,
                scopes,
            },
        }
    }
}

// ----- policies -----

/// The DTO of a redirect policy.
pub open spec fn redirect_policy_dto(policy: RedirectPolicy) -> RedirectPolicyDto {
    RedirectPolicyDto { enabled: policy.enabled, max_redirects: policy.max_redirects }
}

/// The redirect policy of a DTO.
pub open spec fn redirect_policy_of(dto: RedirectPolicyDto) -> RedirectPolicy {
    RedirectPolicy { enabled: dto.enabled, max_redirects: dto.max_redirects }
}

/// A redirect policy crosses the boundary unchanged, both ways: following stays on or off
/// and the redirect limit is kept.
pub proof fn lemma_redirect_policy_keeps_its_fields(policy: RedirectPolicy, dto: RedirectPolicyDto)
    ensures
        redirect_policy_dto(policy).enabled == policy.enabled,
        redirect_policy_dto(policy).max_redirects == policy.max_redirects,
        redirect_policy_of(dto).enabled == dto.enabled,
        redirect_policy_of(dto).max_redirects == dto.max_redirects,
        redirect_policy_of(redirect_policy_dto(policy)) == policy,
{
}

impl RedirectPolicyDto {
    /// The DTO of a redirect policy.
    pub fn from_domain(policy: RedirectPolicy) -> (dto: RedirectPolicyDto)
        ensures
            dto == redirect_policy_dto(policy),
            dto.enabled == policy.enabled,
            dto.max_redirects == policy.max_redirects,
    {
        RedirectPolicyDto { enabled: policy.enabled, max_redirects: policy.max_redirects }
    }
}

impl RedirectPolicy {
    /// The redirect policy a DTO describes.
    pub fn from_dto(dto: RedirectPolicyDto) -> (policy: RedirectPolicy)
        ensures
            policy == redirect_policy_of(dto),
            policy.enabled == dto.enabled,
            policy.max_redirects == dto.max_redirects,
    {
        RedirectPolicy { enabled: dto.enabled, max_redirects: dto.max_redirects }
    }
}

/// `dto` carries exactly the fields of the TLS policy.
pub open spec fn tls_policy_dto_of(dto: TlsPolicyDto, policy: TlsPolicy) -> bool {
    &&& dto.verify == policy.verify
    &&& dto.custom_ca_reference == policy.custom_ca_reference
    &&& dto.client_certificate_reference == policy.client_certificate_reference
    &&& dto.client_key_reference == policy.client_key_reference
}

/// A TLS policy crosses the boundary field by field: verification stays on or off, and the
/// custom CA, client certificate and client key references never trade places.
pub proof fn lemma_tls_policy_keeps_its_fields(dto: TlsPolicyDto, policy: TlsPolicy)
    requires
        tls_policy_dto_of(dto, policy),
    ensures
        dto.verify == policy.verify,
        dto.custom_ca_reference == policy.custom_ca_reference,
        dto.client_certificate_reference == policy.client_certificate_reference,
        dto.client_key_reference == policy.client_key_reference,
{
}

impl TlsPolicyDto {
    /// The DTO of a TLS policy.
    pub fn from_domain(policy: TlsPolicy) -> (dto: TlsPolicyDto)
        ensures
            tls_policy_dto_of(dto, policy),
            dto.verify == policy.verify,
            dto.custom_ca_reference == policy.custom_ca_reference,
            dto.client_certificate_reference == policy.client_certificate_reference,
            dto.client_key_reference == policy.client_key_reference,
    {
        TlsPolicyDto {
            verify: policy.verify,
            custom_ca_reference: policy.custom_ca_reference,
            client_certificate_reference: policy.client_certificate_reference,
            client_key_reference: policy.client_key_reference,
        }
    }
}

impl TlsPolicy {
    /// The TLS policy a DTO describes.
    pub fn from_dto(dto: TlsPolicyDto) -> (policy: TlsPolicy)
        ensures
            tls_policy_dto_of(dto, policy),
            dto.verify == policy.verify,
            dto.custom_ca_reference == policy.custom_ca_reference,
            dto.client_certificate_reference == policy.client_certificate_reference,
            dto.client_key_reference == policy.client_key_reference,
    {
        TlsPolicy {
            verify: dto.verify,
            custom_ca_reference: dto.custom_ca_reference,
            client_certificate_reference: dto.client_certificate_reference,
            client_key_reference: dto.client_key_reference,
        }
    }
}

/// The DTO of a proxy source.
pub open spec fn proxy_source_dto(source: ProxySource) -> ProxySourceDto {
    match source {
        ProxySource::Disabled => ProxySourceDto::Disabled,
        ProxySource::ProcessEnvironment => ProxySourceDto::ProcessEnvironment,
        ProxySource::Custom => ProxySourceDto::Custom,
    }
}

/// The proxy source of a DTO.
pub open spec fn proxy_source_of(dto: ProxySourceDto) -> ProxySource {
    match dto {
        ProxySourceDto::Disabled => ProxySource::Disabled,
        ProxySourceDto::ProcessEnvironment => ProxySource::ProcessEnvironment,
        ProxySourceDto::Custom => ProxySource::Custom,
    }
}

/// A proxy source crosses the boundary as the source of the same name, both ways.
pub proof fn lemma_proxy_source_keeps_its_name(source: ProxySource, dto: ProxySourceDto)
    ensures
        proxy_source_dto(source) is Disabled <==> source is Disabled,
        proxy_source_dto(source) is ProcessEnvironment <==> source is ProcessEnvironment,
        proxy_source_dto(source) is Custom <==> source is Custom,
        proxy_source_of(dto) is Disabled <==> dto is Disabled,
        proxy_source_of(dto) is ProcessEnvironment <==> dto is ProcessEnvironment,
        proxy_source_of(dto) is Custom <==> dto is Custom,
{
}

impl ProxySourceDto {
    /// The DTO of a proxy source.
    pub fn from_domain(source: ProxySource) -> (dto: ProxySourceDto)
        ensures
            dto == proxy_source_dto(source),
            dto is Disabled <==> source is Disabled,
            dto is ProcessEnvironment <==> source is ProcessEnvironment,
            dto is Custom <==> source is Custom,
    {
        match source {
            ProxySource::Disabled => ProxySourceDto::Disabled,
            ProxySource::ProcessEnvironment => ProxySourceDto::ProcessEnvironment,
            ProxySource::Custom => ProxySourceDto::Custom,
        }
    }
}

impl ProxySource {
    /// The proxy source a DTO names.
    pub fn from_dto(dto: ProxySourceDto) -> (source: ProxySource)
        ensures
            source == proxy_source_of(dto),
            source is Disabled <==> dto is Disabled,
            source is ProcessEnvironment <==> dto is ProcessEnvironment,
            source is Custom <==> dto is Custom,
    {
        match dto {
            ProxySourceDto::Disabled => ProxySource::Disabled,
            ProxySourceDto::ProcessEnvironment => ProxySource::ProcessEnvironment,
            ProxySourceDto::Custom => ProxySource::Custom,
        }
    }
}

/// `dto` describes the proxy policy.
pub open spec fn proxy_policy_dto_of(dto: ProxyPolicyDto, policy: ProxyPolicy) -> bool {
    &&& dto.source == proxy_source_dto(policy.source)
    &&& dto.url == policy.url
    &&& dto.no_proxy == policy.no_proxy
}

impl ProxyPolicyDto {
    /// The DTO of a proxy policy.
    pub fn from_domain(policy: ProxyPolicy) -> (dto: ProxyPolicyDto)
        ensures
            proxy_policy_dto_of(dto, policy),
    {
        ProxyPolicyDto {
            source: ProxySourceDto::from_domain(policy.source),
            url: policy.url,
            no_proxy: policy.no_proxy,
        }
    }
}

impl ProxyPolicy {
    /// The proxy policy a DTO describes.
    pub fn from_dto(dto: ProxyPolicyDto) -> (policy: ProxyPolicy)
        ensures
            proxy_policy_dto_of(dto, policy),
    {
        let source = ProxySource::from_dto(dto.source);
        ProxyPolicy { source, url: dto.url, no_proxy: dto.no_proxy }
    }
}

/// The DTO of a timeout policy.
pub open spec fn timeout_policy_dto(policy: TimeoutPolicy) -> TimeoutPolicyDto {
    TimeoutPolicyDto {
        connect_ms: policy.connect_ms,
        overall_ms: policy.overall_ms,
        idle_ms: policy.idle_ms,
    }
}

/// The timeout policy of a DTO.
pub open spec fn timeout_policy_of(dto: TimeoutPolicyDto) -> TimeoutPolicy {
    TimeoutPolicy { connect_ms: dto.connect_ms, overall_ms: dto.overall_ms, idle_ms: dto.idle_ms }
}

/// Each timeout crosses the boundary under its own name, both ways: the connect, overall and
/// idle timeouts never trade places.
pub proof fn lemma_timeouts_keep_their_names(policy: TimeoutPolicy, dto: TimeoutPolicyDto)
    ensures
        timeout_policy_dto(policy).connect_ms == policy.connect_ms,
        timeout_policy_dto(policy).overall_ms == policy.overall_ms,
        timeout_policy_dto(policy).idle_ms == policy.idle_ms,
        timeout_policy_of(dto).connect_ms == dto.connect_ms,
        timeout_policy_of(dto).overall_ms == dto.overall_ms,
        timeout_policy_of(dto).idle_ms == dto.idle_ms,
{
}

impl TimeoutPolicyDto {
    /// The DTO of a timeout policy.
    pub fn from_domain(policy: TimeoutPolicy) -> (dto: TimeoutPolicyDto)
        ensures
            dto == timeout_policy_dto(policy),
            dto.connect_ms == policy.connect_ms,
            dto.overall_ms == policy.overall_ms,
            dto.idle_ms == policy.idle_ms,
    {
        TimeoutPolicyDto {
            connect_ms: policy.connect_ms,
            overall_ms: policy.overall_ms,
            idle_ms: policy.idle_ms,
        }
    }
}

impl TimeoutPolicy {
    /// The timeout policy a DTO describes.
    pub fn from_dto(dto: TimeoutPolicyDto) -> (policy: TimeoutPolicy)
        ensures
            policy == timeout_policy_of(dto),
            policy.connect_ms == dto.connect_ms,
            policy.overall_ms == dto.overall_ms,
            policy.idle_ms == dto.idle_ms,
    {
        TimeoutPolicy { connect_ms: dto.connect_ms, overall_ms: dto.overall_ms, idle_ms: dto.idle_ms }
    }
}

/// `dto` describes the transport policy.
pub open spec fn transport_policy_dto_of(dto: TransportPolicyDto, policy: TransportPolicy) -> bool {
    &&& proxy_policy_dto_of(dto.proxy, policy.proxy)
    &&& dto.timeouts == timeout_policy_dto(policy.timeouts)
}

impl TransportPolicyDto {
    /// The DTO of a transport policy.
    pub fn from_domain(policy: TransportPolicy) -> (dto: TransportPolicyDto)
        ensures
            transport_policy_dto_of(dto, policy),
    {
        TransportPolicyDto {
            proxy: ProxyPolicyDto::from_domain(policy.proxy),
            timeouts: TimeoutPolicyDto::from_domain(policy.timeouts),
        }
    }
}

impl TransportPolicy {
    /// The transport policy a DTO describes.
    pub fn from_dto(dto: TransportPolicyDto) -> (policy: TransportPolicy)
        ensures
            transport_policy_dto_of(dto, policy),
    {
        let timeouts = TimeoutPolicy::from_dto(dto.timeouts);
        TransportPolicy { proxy: ProxyPolicy::from_dto(dto.proxy), timeouts }
    }
}

// ----- bodies -----

/// `dto` names the same body file path as `path`.
pub open spec fn body_file_path_dto_of(dto: BodyFilePathDto, path: BodyFilePath) -> bool {
    match (dto, path) {
        (BodyFilePathDto::Relative { path: d }, BodyFilePath::Relative { path: p }) => d == p,
        (BodyFilePathDto::Absolute { path: d }, BodyFilePath::Absolute { path: p }) => d == p,
        _ => false,
    }
}

impl BodyFilePathDto {
    /// The DTO of a body file path.
    pub fn from_domain(path: BodyFilePath) -> (dto: BodyFilePathDto)
        ensures
            body_file_path_dto_of(dto, path),
    {
        match path {
            BodyFilePath::Relative { path } => BodyFilePathDto::Relative { path },
            BodyFilePath::Absolute { path } => BodyFilePathDto::Absolute { path },
        }
    }
}

impl BodyFilePath {
    /// The body file path a DTO names.
    pub fn from_dto(dto: BodyFilePathDto) -> (path: BodyFilePath)
        ensures
            body_file_path_dto_of(dto, path),
    {
        match dto {
            BodyFilePathDto::Relative { path } => BodyFilePath::Relative { path },
            BodyFilePathDto::Absolute { path } => BodyFilePath::Absolute { path },
        }
    }
}

/// `dto` describes the body file `file`.
pub open spec fn body_file_reference_dto_of(dto: BodyFileReferenceDto, file: BodyFileReference) -> bool {
    &&& body_file_path_dto_of(dto.path, file.path)
    &&& dto.file_name == file.file_name
    &&& dto.size == file.size
    &&& dto.modified_at_epoch_seconds == file.modified_at_epoch_seconds
    &&& dto.sha256 == file.sha256
}

impl BodyFileReferenceDto {
    /// The DTO of a body file reference.
    pub fn from_domain(file: BodyFileReference) -> (dto: BodyFileReferenceDto)
        ensures
            body_file_reference_dto_of(dto, file),
    {
        BodyFileReferenceDto {
            path: BodyFilePathDto::from_domain(file.path),
            file_name: file.file_name,
            size: file.size,
            modified_at_epoch_seconds: file.modified_at_epoch_seconds,
            sha256: file.sha256,
        }
    }
}

impl BodyFileReference {
    /// The body file reference a DTO describes.
    pub fn from_dto(dto: BodyFileReferenceDto) -> (file: BodyFileReference)
        ensures
            body_file_reference_dto_of(dto, file),
    {
        BodyFileReference {
            path: BodyFilePath::from_dto(dto.path),
            file_name: dto.file_name,
            size: dto.size,
            modified_at_epoch_seconds: dto.modified_at_epoch_seconds,
            sha256: dto.sha256,
        }
    }
}

/// `dto` describes the multipart part `part`.
pub open spec fn multipart_part_dto_of(dto: MultipartPartDto, part: MultipartPart) -> bool {
    match (dto, part) {
        (
            MultipartPartDto::Field { enabled: de, order: dor, name: dn, value: dv },
            MultipartPart::Field { enabled, order, name, value },
        ) => de == enabled && dor == order && dn == name && dv == value,
        (
            MultipartPartDto::File { enabled: de, order: dor, name: dn, file: df },
            MultipartPart::File { enabled, order, name, file },
        ) => de == enabled && dor == order && dn == name && body_file_reference_dto_of(df, file),
        _ => false,
    }
}

/// The parts of `dtos` describe the parts of `parts`, in order.
pub open spec fn multipart_parts_dto_of(dtos: Seq<MultipartPartDto>, parts: Seq<MultipartPart>) -> bool {
    pairwise(dtos, parts, |d: MultipartPartDto, p: MultipartPart| multipart_part_dto_of(d, p))
}

impl MultipartPartDto {
    /// The DTO of a multipart part.
    pub fn from_domain(part: MultipartPart) -> (dto: MultipartPartDto)
        ensures
            multipart_part_dto_of(dto, part),
    {
        match part {
            MultipartPart::Field { enabled, order, name, value } => MultipartPartDto::Field {
                enabled,
                order,
                name,
                value,
            },
            MultipartPart::File { enabled, order, name, file } => MultipartPartDto::File {
                enabled,
                order,
                name,
                file: BodyFileReferenceDto::from_domain(file),
            },
        }
    }
}

impl MultipartPart {
    /// The multipart part a DTO describes.
    pub fn from_dto(dto: MultipartPartDto) -> (part: MultipartPart)
        ensures
            multipart_part_dto_of(dto, part),
    {
        match dto {
            MultipartPartDto::Field { enabled, order, name, value } => MultipartPart::Field {
                enabled,
                order,
                name,
                value,
            },
            MultipartPartDto::File { enabled, order, name, file } => MultipartPart::File {
                enabled,
                order,
                name,
                file: BodyFileReference::from_dto(file),
            },
        }
    }
}

/// `dto` describes the request body `body`.
pub open spec fn request_body_dto_of(dto: RequestBodyDto, body: RequestBody) -> bool {
    match (dto, body) {
        (RequestBodyDto::Empty, RequestBody::Empty) => true,
        (RequestBodyDto::Raw { content: d }, RequestBody::Raw { content }) => d == content,
        (RequestBodyDto::UrlEncoded { fields: d }, RequestBody::UrlEncoded { fields }) =>
            ordered_fields_dto_of(d@, fields@),
        (RequestBodyDto::Multipart { parts: d }, RequestBody::Multipart { parts }) =>
            multipart_parts_dto_of(d@, parts@),
        (RequestBodyDto::Binary { file: d }, RequestBody::Binary { file }) =>
            body_file_reference_dto_of(d, file),
        _ => false,
    }
}

impl RequestBodyDto {
    /// The DTO of a request body.
    pub fn from_domain(body: RequestBody) -> (dto: RequestBodyDto)
        ensures
            request_body_dto_of(dto, body),
    {
        match body {
            RequestBody::Empty => RequestBodyDto::Empty,
            RequestBody::Raw { content } => RequestBodyDto::Raw { content },
            RequestBody::UrlEncoded { fields } => RequestBodyDto::UrlEncoded {
                fields: ordered_field_dtos(fields),
            },
            RequestBody::Multipart { parts } => RequestBodyDto::Multipart {
                parts: map_vec(
                    parts,
                    MultipartPartDto::from_domain,
                    Ghost(|p: MultipartPart, d: MultipartPartDto| multipart_part_dto_of(d, p)),
                ),
            },
            RequestBody::Binary { file } => RequestBodyDto::Binary {
                file: BodyFileReferenceDto::from_domain(file),
            },
        }
    }
}

impl RequestBody {
    /// The request body a DTO describes.
    pub fn from_dto(dto: RequestBodyDto) -> (body: RequestBody)
        ensures
            request_body_dto_of(dto, body),
    {
        match dto {
            RequestBodyDto::Empty => RequestBody::Empty,
            RequestBodyDto::Raw { content } => RequestBody::Raw { content },
            RequestBodyDto::UrlEncoded { fields } => RequestBody::UrlEncoded {
                fields: ordered_fields_from_dtos(fields),
            },
            RequestBodyDto::Multipart { parts } => RequestBody::Multipart {
                parts: map_vec(
                    parts,
                    MultipartPart::from_dto,
                    Ghost(|d: MultipartPartDto, p: MultipartPart| multipart_part_dto_of(d, p)),
                ),
            },
            RequestBodyDto::Binary { file } => RequestBody::Binary {
                file: BodyFileReference::from_dto(file),
            },
        }
    }
}

// ----- request content -----

/// `dto` describes the request content `content`.
pub open spec fn request_content_dto_of(dto: RequestContentDto, content: RequestContent) -> bool {
    &&& dto.name == content.name
    &&& dto.method == content.method
    &&& dto.url == content.url
    &&& request_body_dto_of(dto.body, content.body)
    &&& ordered_fields_dto_of(dto.query@, content.query@)
    &&& ordered_fields_dto_of(dto.headers@, content.headers@)
    &&& request_auth_dto_of(dto.auth, content.auth)
    &&& dto.redirect == redirect_policy_dto(content.redirect)
    &&& tls_policy_dto_of(dto.tls, content.tls)
    &&& transport_policy_dto_of(dto.transport, content.transport)
}

impl RequestContentDto {
    /// The DTO of a request's content.
    pub fn from_domain(content: RequestContent) -> (dto: RequestContentDto)
        ensures
            request_content_dto_of(dto, content),
    {
        RequestContentDto {
            name: content.name,
            method: content.method,
            url: content.url,
            body: RequestBodyDto::from_domain(content.body),
            query: ordered_field_dtos(content.query),
            headers: ordered_field_dtos(content.headers),
            auth: RequestAuthDto::from_domain(content.auth),
            redirect: RedirectPolicyDto::from_domain(content.redirect),
            tls: TlsPolicyDto::from_domain(content.tls),
            transport: TransportPolicyDto::from_domain(content.transport),
        }
    }
}

impl RequestContent {
    /// The request content a DTO describes.
    pub fn from_dto(dto: RequestContentDto) -> (content: RequestContent)
        ensures
            request_content_dto_of(dto, content),
    {
        let redirect = RedirectPolicy::from_dto(dto.redirect);
        RequestContent {
            name: dto.name,
            method: dto.method,
            url: dto.url,
            body: RequestBody::from_dto(dto.body),
            query: ordered_fields_from_dtos(dto.query),
            headers: ordered_fields_from_dtos(dto.headers),
            auth: RequestAuth::from_dto(dto.auth),
            redirect,
            tls: TlsPolicy::from_dto(dto.tls),
            transport: TransportPolicy::from_dto(dto.transport),
        }
    }
}

/// Two request bodies that are the same: their field and part lists hold the same rows.
pub open spec fn same_request_body(a: RequestBody, b: RequestBody) -> bool {
    match (a, b) {
        (RequestBody::UrlEncoded { fields: fa }, RequestBody::UrlEncoded { fields: fb }) => fa@
            == fb@,
        (RequestBody::Multipart { parts: pa }, RequestBody::Multipart { parts: pb }) => pa@ == pb@,
        (RequestBody::UrlEncoded { .. }, _) => false,
        (RequestBody::Multipart { .. }, _) => false,
        _ => a == b,
    }
}

/// Two request contents that are the same: query and header rows in the same order,
/// duplicates included, and every other part equal.
pub open spec fn same_request_content(a: RequestContent, b: RequestContent) -> bool {
    &&& a.name == b.name
    &&& a.method == b.method
    &&& a.url == b.url
    &&& same_request_body(a.body, b.body)
    &&& a.query@ == b.query@
    &&& a.headers@ == b.headers@
    &&& a.auth == b.auth
    &&& a.redirect == b.redirect
    &&& a.tls == b.tls
    &&& a.transport == b.transport
}

/// Request content crosses the IPC boundary unchanged: a DTO describes one request only, so
/// the content read back from the DTO made of a request is that request, with its query and
/// header rows in order and duplicates kept.
pub proof fn lemma_request_content_round_trip(dto: RequestContentDto, a: RequestContent, b: RequestContent)
    requires
        request_content_dto_of(dto, a),
        request_content_dto_of(dto, b),
    ensures
        same_request_content(a, b),
{
    assert forall|i: int| 0 <= i < a.query@.len() implies a.query@[i] == b.query@[i] by {
        assert(ordered_field_dto_of(dto.query@[i], a.query@[i]));
        assert(ordered_field_dto_of(dto.query@[i], b.query@[i]));
    }
    assert(a.query@ =~= b.query@);
    assert forall|i: int| 0 <= i < a.headers@.len() implies a.headers@[i] == b.headers@[i] by {
        assert(ordered_field_dto_of(dto.headers@[i], a.headers@[i]));
        assert(ordered_field_dto_of(dto.headers@[i], b.headers@[i]));
    }
    assert(a.headers@ =~= b.headers@);
    match (dto.body, a.body, b.body) {
        (
            RequestBodyDto::UrlEncoded { fields: d },
            RequestBody::UrlEncoded { fields: fa },
            RequestBody::UrlEncoded { fields: fb },
        ) => {
            assert forall|i: int| 0 <= i < fa@.len() implies fa@[i] == fb@[i] by {
                assert(ordered_field_dto_of(d@[i], fa@[i]));
                assert(ordered_field_dto_of(d@[i], fb@[i]));
            }
            assert(fa@ =~= fb@);
        },
        (
            RequestBodyDto::Multipart { parts: d },
            RequestBody::Multipart { parts: pa },
            RequestBody::Multipart { parts: pb },
        ) => {
            assert forall|i: int| 0 <= i < pa@.len() implies pa@[i] == pb@[i] by {
                assert(multipart_part_dto_of(d@[i], pa@[i]));
                assert(multipart_part_dto_of(d@[i], pb@[i]));
            }
            assert(pa@ =~= pb@);
        },
        _ => {},
    }
}

// ----- workspaces -----

/// `dto` lists the workspace `summary`, with its id as UUID text.
pub open spec fn workspace_summary_dto_of(dto: WorkspaceSummaryDto, summary: WorkspaceSummary) -> bool {
    &&& dto.id@ == summary.id.text()
    &&& dto.name == summary.name
    &&& dto.is_selected == summary.is_selected
    &&& dto.base_directory == summary.base_directory
}

/// `dto` lists every workspace of `snapshot`, in order, and the selected one.
pub open spec fn workspace_snapshot_dto_of(dto: WorkspaceSnapshotDto, snapshot: WorkspaceSnapshot) -> bool {
    &&& dto.selected_workspace_id@ == snapshot.selected_workspace_id.text()
    &&& pairwise(
        dto.workspaces@,
        snapshot.workspaces@,
        |d: WorkspaceSummaryDto, w: WorkspaceSummary| workspace_summary_dto_of(d, w),
    )
}

impl WorkspaceSummaryDto {
    /// The DTO of a listed workspace.
    pub fn from_domain(summary: WorkspaceSummary) -> (dto: WorkspaceSummaryDto)
        ensures
            workspace_summary_dto_of(dto, summary),
    {
        WorkspaceSummaryDto {
            id: summary.id.to_text(),
            name: summary.name,
            is_selected: summary.is_selected,
            base_directory: summary.base_directory,
        }
    }
}

impl WorkspaceSnapshotDto {
    /// The DTO of the workspace list.
    pub fn from_domain(snapshot: WorkspaceSnapshot) -> (dto: WorkspaceSnapshotDto)
        ensures
            workspace_snapshot_dto_of(dto, snapshot),
    {
        WorkspaceSnapshotDto {
            selected_workspace_id: snapshot.selected_workspace_id.to_text(),
            workspaces: map_vec(
                snapshot.workspaces,
                WorkspaceSummaryDto::from_domain,
                Ghost(|w: WorkspaceSummary, d: WorkspaceSummaryDto| workspace_summary_dto_of(d, w)),
            ),
        }
    }
}

// ----- collections, environments and variables -----

/// `dto` describes the saved request.
pub open spec fn saved_request_dto_of(dto: SavedRequestDto, request: SavedRequest) -> bool {
    &&& dto.id@ == request.id.text()
    &&& dto.workspace_id@ == request.workspace_id.text()
    &&& dto.collection_id.deep_view() == CollectionId::optional_text(request.collection_id)
    &&& dto.position == request.position
    &&& request_content_dto_of(dto.content, request.content)
}

impl SavedRequestDto {
    /// The DTO of a saved request.
    pub fn from_domain(request: SavedRequest) -> (dto: SavedRequestDto)
        ensures
            saved_request_dto_of(dto, request),
    {
        SavedRequestDto {
            id: request.id.to_text(),
            workspace_id: request.workspace_id.to_text(),
            collection_id: CollectionId::optional_to_text(request.collection_id),
            position: request.position,
            content: RequestContentDto::from_domain(request.content),
        }
    }
}

/// `dto` describes the collection folder.
pub open spec fn collection_folder_dto_of(dto: CollectionFolderDto, folder: CollectionFolder) -> bool {
    &&& dto.id@ == folder.id.text()
    &&& dto.workspace_id@ == folder.workspace_id.text()
    &&& dto.parent_collection_id.deep_view() == CollectionId::optional_text(
        folder.parent_collection_id,
    )
    &&& dto.name == folder.name
    &&& dto.position == folder.position
}

impl CollectionFolderDto {
    /// The DTO of a collection folder.
    pub fn from_domain(folder: CollectionFolder) -> (dto: CollectionFolderDto)
        ensures
            collection_folder_dto_of(dto, folder),
    {
        CollectionFolderDto {
            id: folder.id.to_text(),
            workspace_id: folder.workspace_id.to_text(),
            parent_collection_id: CollectionId::optional_to_text(folder.parent_collection_id),
            name: folder.name,
            position: folder.position,
        }
    }
}

/// `dto` describes the environment.
pub open spec fn environment_dto_of(dto: EnvironmentDto, environment: Environment) -> bool {
    &&& dto.id@ == environment.id.text()
    &&& dto.workspace_id@ == environment.workspace_id.text()
    &&& dto.name == environment.name
    &&& dto.position == environment.position
    &&& dto.is_selected == environment.is_selected
}

impl EnvironmentDto {
    /// The DTO of an environment.
    pub fn from_domain(environment: Environment) -> (dto: EnvironmentDto)
        ensures
            environment_dto_of(dto, environment),
    {
        EnvironmentDto {
            id: environment.id.to_text(),
            workspace_id: environment.workspace_id.to_text(),
            name: environment.name,
            position: environment.position,
            is_selected: environment.is_selected,
        }
    }
}

/// `dto` describes the variable value.
pub open spec fn variable_value_dto_of(dto: VariableValueDto, value: VariableValue) -> bool {
    match (dto, value) {
        (VariableValueDto::Plain { value: d }, VariableValue::Plain(v)) => d == v,
        (VariableValueDto::SecretReference { reference: d }, VariableValue::SecretReference(r)) =>
            d == r,
        _ => false,
    }
}

impl VariableValueDto {
    /// The DTO of a variable value; a secret travels only as its reference.
    pub fn from_domain(value: VariableValue) -> (dto: VariableValueDto)
        ensures
            variable_value_dto_of(dto, value),
    {
        match value {
            VariableValue::Plain(value) => VariableValueDto::Plain { value },
            VariableValue::SecretReference(reference) => VariableValueDto::SecretReference {
                reference,
            },
        }
    }
}

/// `dto` describes the variable.
pub open spec fn variable_dto_of(dto: VariableDto, variable: Variable) -> bool {
    dto.name == variable.name && variable_value_dto_of(dto.value, variable.value)
}

impl VariableDto {
    /// The DTO of a variable.
    pub fn from_domain(variable: Variable) -> (dto: VariableDto)
        ensures
            variable_dto_of(dto, variable),
    {
        VariableDto { name: variable.name, value: VariableValueDto::from_domain(variable.value) }
    }
}

/// `dto` describes the collection variable.
pub open spec fn collection_variable_dto_of(dto: CollectionVariableDto, variable: CollectionVariable) -> bool {
    dto.workspace_id@ == variable.workspace_id.text() && variable_dto_of(dto.variable, variable.variable)
}

impl CollectionVariableDto {
    /// The DTO of a collection variable.
    pub fn from_domain(variable: CollectionVariable) -> (dto: CollectionVariableDto)
        ensures
            collection_variable_dto_of(dto, variable),
    {
        CollectionVariableDto {
            workspace_id: variable.workspace_id.to_text(),
            variable: VariableDto::from_domain(variable.variable),
        }
    }
}

/// `dto` describes the environment variable.
pub open spec fn environment_variable_dto_of(
    dto: EnvironmentVariableDto,
    variable: EnvironmentVariable,
) -> bool {
    &&& dto.environment_id@ == variable.environment_id.text()
    &&& dto.workspace_id@ == variable.workspace_id.text()
    &&& variable_dto_of(dto.variable, variable.variable)
}

impl EnvironmentVariableDto {
    /// The DTO of an environment variable.
    pub fn from_domain(variable: EnvironmentVariable) -> (dto: EnvironmentVariableDto)
        ensures
            environment_variable_dto_of(dto, variable),
    {
        EnvironmentVariableDto {
            environment_id: variable.environment_id.to_text(),
            workspace_id: variable.workspace_id.to_text(),
            variable: VariableDto::from_domain(variable.variable),
        }
    }
}

// ----- drafts and tabs -----

/// `dto` describes the request draft.
pub open spec fn request_draft_dto_of(dto: RequestDraftDto, draft: RequestDraft) -> bool {
    &&& dto.id@ == draft.id.text()
    &&& dto.workspace_id@ == draft.workspace_id.text()
    &&& dto.saved_request_id.deep_view() == SavedRequestId::optional_text(draft.saved_request_id)
    &&& request_content_dto_of(dto.content, draft.content)
    &&& dto.is_dirty == draft.is_dirty
}

impl RequestDraftDto {
    /// The DTO of a request draft.
    pub fn from_domain(draft: RequestDraft) -> (dto: RequestDraftDto)
        ensures
            request_draft_dto_of(dto, draft),
    {
        RequestDraftDto {
            id: draft.id.to_text(),
            workspace_id: draft.workspace_id.to_text(),
            saved_request_id: SavedRequestId::optional_to_text(draft.saved_request_id),
            content: RequestContentDto::from_domain(draft.content),
            is_dirty: draft.is_dirty,
        }
    }
}

/// `dto` describes the request tab.
pub open spec fn request_tab_dto_of(dto: RequestTabDto, tab: RequestTab) -> bool {
    &&& dto.id@ == tab.id.text()
    &&& dto.workspace_id@ == tab.workspace_id.text()
    &&& dto.saved_request_id.deep_view() == SavedRequestId::optional_text(tab.saved_request_id)
    &&& dto.draft_id@ == tab.draft_id.text()
    &&& dto.position == tab.position
    &&& dto.title == tab.title
    &&& dto.is_active == tab.is_active
}

impl RequestTabDto {
    /// The DTO of a request tab.
    pub fn from_domain(tab: RequestTab) -> (dto: RequestTabDto)
        ensures
            request_tab_dto_of(dto, tab),
    {
        RequestTabDto {
            id: tab.id.to_text(),
            workspace_id: tab.workspace_id.to_text(),
            saved_request_id: SavedRequestId::optional_to_text(tab.saved_request_id),
            draft_id: tab.draft_id.to_text(),
            position: tab.position,
            title: tab.title,
            is_active: tab.is_active,
        }
    }
}

/// `dto` describes everything of the request workspace snapshot, each list in order.
pub open spec fn request_workspace_snapshot_dto_of(
    dto: RequestWorkspaceSnapshotDto,
    snapshot: RequestWorkspaceSnapshot,
) -> bool {
    &&& dto.workspace_id@ == snapshot.workspace_id.text()
    &&& pairwise(
        dto.collection_folders@,
        snapshot.collection_folders@,
        |d: CollectionFolderDto, f: CollectionFolder| collection_folder_dto_of(d, f),
    )
    &&& pairwise(
        dto.environments@,
        snapshot.environments@,
        |d: EnvironmentDto, e: Environment| environment_dto_of(d, e),
    )
    &&& pairwise(
        dto.collection_variables@,
        snapshot.collection_variables@,
        |d: CollectionVariableDto, v: CollectionVariable| collection_variable_dto_of(d, v),
    )
    &&& pairwise(
        dto.environment_variables@,
        snapshot.environment_variables@,
        |d: EnvironmentVariableDto, v: EnvironmentVariable| environment_variable_dto_of(d, v),
    )
    &&& pairwise(
        dto.saved_requests@,
        snapshot.saved_requests@,
        |d: SavedRequestDto, r: SavedRequest| saved_request_dto_of(d, r),
    )
    &&& pairwise(
        dto.drafts@,
        snapshot.drafts@,
        |d: RequestDraftDto, r: RequestDraft| request_draft_dto_of(d, r),
    )
    &&& pairwise(dto.tabs@, snapshot.tabs@, |d: RequestTabDto, t: RequestTab| request_tab_dto_of(d, t))
}

impl RequestWorkspaceSnapshotDto {
    /// The DTO of a request workspace snapshot.
    pub fn from_domain(snapshot: RequestWorkspaceSnapshot) -> (dto: RequestWorkspaceSnapshotDto)
        ensures
            request_workspace_snapshot_dto_of(dto, snapshot),
    {
        RequestWorkspaceSnapshotDto {
            workspace_id: snapshot.workspace_id.to_text(),
            collection_folders: map_vec(
                snapshot.collection_folders,
                CollectionFolderDto::from_domain,
                Ghost(|f: CollectionFolder, d: CollectionFolderDto| collection_folder_dto_of(d, f)),
            ),
            environments: map_vec(
                snapshot.environments,
                EnvironmentDto::from_domain,
                Ghost(|e: Environment, d: EnvironmentDto| environment_dto_of(d, e)),
            ),
            collection_variables: map_vec(
                snapshot.collection_variables,
                CollectionVariableDto::from_domain,
                Ghost(
                    |v: CollectionVariable, d: CollectionVariableDto|
                        collection_variable_dto_of(d, v),
                ),
            ),
            environment_variables: map_vec(
                snapshot.environment_variables,
                EnvironmentVariableDto::from_domain,
                Ghost(
                    |v: EnvironmentVariable, d: EnvironmentVariableDto|
                        environment_variable_dto_of(d, v),
                ),
            ),
            saved_requests: map_vec(
                snapshot.saved_requests,
                SavedRequestDto::from_domain,
                Ghost(|r: SavedRequest, d: SavedRequestDto| saved_request_dto_of(d, r)),
            ),
            drafts: map_vec(
                snapshot.drafts,
                RequestDraftDto::from_domain,
                Ghost(|r: RequestDraft, d: RequestDraftDto| request_draft_dto_of(d, r)),
            ),
            tabs: map_vec(
                snapshot.tabs,
                RequestTabDto::from_domain,
                Ghost(|t: RequestTab, d: RequestTabDto| request_tab_dto_of(d, t)),
            ),
        }
    }
}

// ----- identifiers read from the boundary -----

/// `outcome` is the id that was read, or the boundary error `invalid` when nothing was read.
pub open spec fn parse_outcome<T>(outcome: Result<T, IpcError>, parsed: Option<T>, invalid: BoundaryError) -> bool {
    match outcome {
        Ok(id) => parsed == Some(id),
        Err(error) => parsed is None && error@ == boundary_error_view(invalid),
    }
}

/// Reads a workspace id, or answers that it is invalid.
pub fn parse_workspace_id(value: &str) -> (outcome: Result<WorkspaceId, IpcError>)
    ensures
        parse_outcome(outcome, WorkspaceId::parsed(value@), BoundaryError::InvalidWorkspaceId),
{
    match WorkspaceId::parse(value) {
        Some(id) => Ok(id),
        None => Err(IpcError::from_boundary_error(BoundaryError::InvalidWorkspaceId)),
    }
}

/// Reads a collection id, or answers that it is invalid.
pub fn parse_collection_id(value: &str) -> (outcome: Result<CollectionId, IpcError>)
    ensures
        parse_outcome(outcome, CollectionId::parsed(value@), BoundaryError::InvalidCollectionId),
{
    match CollectionId::parse(value) {
        Some(id) => Ok(id),
        None => Err(IpcError::from_boundary_error(BoundaryError::InvalidCollectionId)),
    }
}

/// An optional collection id read from an optional text: absent stays absent.
pub open spec fn parsed_optional_collection_id(value: Option<Seq<char>>) -> Option<Option<CollectionId>> {
    match value {
        None => Some(None),
        Some(text) => match CollectionId::parsed(text) {
            Some(id) => Some(Some(id)),
            None => None,
        },
    }
}

/// Reads an optional collection id, or answers that it is invalid.
pub fn parse_optional_collection_id(value: Option<String>) -> (outcome: Result<
    Option<CollectionId>,
    IpcError,
>)
    ensures
        parse_outcome(
            outcome,
            parsed_optional_collection_id(value.deep_view()),
            BoundaryError::InvalidCollectionId,
        ),
{
    match value {
        None => Ok(None),
        Some(text) => match parse_collection_id(&text) {
            Ok(id) => Ok(Some(id)),
            Err(error) => Err(error),
        },
    }
}

/// Reads a cookie id, or answers that it is invalid.
pub fn parse_cookie_id(value: &str) -> (outcome: Result<CookieId, IpcError>)
    ensures
        parse_outcome(outcome, CookieId::parsed(value@), BoundaryError::InvalidCookieId),
{
    match CookieId::parse(value) {
        Some(id) => Ok(id),
        None => Err(IpcError::from_boundary_error(BoundaryError::InvalidCookieId)),
    }
}

// ----- moves, tab closing -----

/// `location` is where `dto` points, given the collection id it names was read.
pub open spec fn collection_location_of(dto: CollectionLocationDto, location: CollectionLocation) -> bool {
    &&& parsed_optional_collection_id(dto.collection_id.deep_view()) == Some(location.collection_id)
    &&& location.position == dto.position
}

impl CollectionLocation {
    /// Reads a move target; fails when the collection id it names is not a UUID.
    pub fn try_from_dto(dto: CollectionLocationDto) -> (outcome: Result<CollectionLocation, IpcError>)
        ensures
            match outcome {
                Ok(location) => collection_location_of(dto, location),
                Err(error) => parsed_optional_collection_id(dto.collection_id.deep_view()) is None
                    && error@ == boundary_error_view(BoundaryError::InvalidCollectionId),
            },
    {
        let position = dto.position;
        match parse_optional_collection_id(dto.collection_id) {
            Ok(collection_id) => Ok(CollectionLocation { collection_id, position }),
            Err(error) => Err(error),
        }
    }
}

/// The decision a DTO names.
pub open spec fn close_tab_decision_of(dto: CloseTabDecisionDto) -> CloseTabDecision {
    match dto {
        CloseTabDecisionDto::Save => CloseTabDecision::Save,
        CloseTabDecisionDto::Discard => CloseTabDecision::Discard,
        CloseTabDecisionDto::Cancel => CloseTabDecision::Cancel,
    }
}

/// A close-tab decision reaches the service as the decision of the same name: saving saves,
/// discarding discards and cancelling cancels.
pub proof fn lemma_close_tab_decision_keeps_its_name(dto: CloseTabDecisionDto)
    ensures
        close_tab_decision_of(dto) is Save <==> dto is Save,
        close_tab_decision_of(dto) is Discard <==> dto is Discard,
        close_tab_decision_of(dto) is Cancel <==> dto is Cancel,
{
}

impl CloseTabDecision {
    /// The decision a DTO names.
    pub fn from_dto(dto: CloseTabDecisionDto) -> (decision: CloseTabDecision)
        ensures
            decision == close_tab_decision_of(dto),
            decision is Save <==> dto is Save,
            decision is Discard <==> dto is Discard,
            decision is Cancel <==> dto is Cancel,
    {
        match dto {
            CloseTabDecisionDto::Save => CloseTabDecision::Save,
            CloseTabDecisionDto::Discard => CloseTabDecision::Discard,
            CloseTabDecisionDto::Cancel => CloseTabDecision::Cancel,
        }
    }
}

// ----- cookies -----

/// The DTO of a SameSite attribute.
pub open spec fn cookie_same_site_dto(value: CookieSameSite) -> CookieSameSiteDto {
    match value {
        CookieSameSite::Strict => CookieSameSiteDto::Strict,
        CookieSameSite::Lax => CookieSameSiteDto::Lax,
        CookieSameSite::NoRestriction => CookieSameSiteDto::NoRestriction,
    }
}

/// The SameSite attribute of a DTO.
pub open spec fn cookie_same_site_of(dto: CookieSameSiteDto) -> CookieSameSite {
    match dto {
        CookieSameSiteDto::Strict => CookieSameSite::Strict,
        CookieSameSiteDto::Lax => CookieSameSite::Lax,
        CookieSameSiteDto::NoRestriction => CookieSameSite::NoRestriction,
    }
}

/// The DTO of an optional SameSite attribute.
pub open spec fn optional_cookie_same_site_dto(value: Option<CookieSameSite>) -> Option<CookieSameSiteDto> {
    match value {
        Some(v) => Some(cookie_same_site_dto(v)),
        None => None,
    }
}

/// The optional SameSite attribute of a DTO.
pub open spec fn optional_cookie_same_site_of(dto: Option<CookieSameSiteDto>) -> Option<CookieSameSite> {
    match dto {
        Some(d) => Some(cookie_same_site_of(d)),
        None => None,
    }
}

/// A SameSite attribute crosses the boundary as the attribute of the same name, both ways.
pub proof fn lemma_cookie_same_site_keeps_its_name(value: CookieSameSite, dto: CookieSameSiteDto)
    ensures
        cookie_same_site_dto(value) is Strict <==> value is Strict,
        cookie_same_site_dto(value) is Lax <==> value is Lax,
        cookie_same_site_dto(value) is NoRestriction <==> value is NoRestriction,
        cookie_same_site_of(dto) is Strict <==> dto is Strict,
        cookie_same_site_of(dto) is Lax <==> dto is Lax,
        cookie_same_site_of(dto) is NoRestriction <==> dto is NoRestriction,
{
}

impl CookieSameSiteDto {
    /// The DTO of a SameSite attribute.
    pub fn from_domain(value: CookieSameSite) -> (dto: CookieSameSiteDto)
        ensures
            dto == cookie_same_site_dto(value),
            dto is Strict <==> value is Strict,
            dto is Lax <==> value is Lax,
            dto is NoRestriction <==> value is NoRestriction,
    {
        match value {
            CookieSameSite::Strict => CookieSameSiteDto::Strict,
            CookieSameSite::Lax => CookieSameSiteDto::Lax,
            CookieSameSite::NoRestriction => CookieSameSiteDto::NoRestriction,
        }
    }
}

impl CookieSameSite {
    /// The SameSite attribute a DTO names.
    pub fn from_dto(dto: CookieSameSiteDto) -> (value: CookieSameSite)
        ensures
            value == cookie_same_site_of(dto),
            value is Strict <==> dto is Strict,
            value is Lax <==> dto is Lax,
            value is NoRestriction <==> dto is NoRestriction,
    {
        match dto {
            CookieSameSiteDto::Strict => CookieSameSite::Strict,
            CookieSameSiteDto::Lax => CookieSameSite::Lax,
            CookieSameSiteDto::NoRestriction => CookieSameSite::NoRestriction,
        }
    }
}

/// `dto` describes the cookie's metadata; its value preview is always the redaction marker.
pub open spec fn workspace_cookie_dto_of(dto: WorkspaceCookieDto, cookie: WorkspaceCookie) -> bool {
    &&& dto.id@ == cookie.id.text()
    &&& dto.workspace_id@ == cookie.workspace_id.text()
    &&& dto.name == cookie.name
    &&& dto.domain == cookie.domain
    &&& dto.path == cookie.path
    &&& dto.secure == cookie.secure
    &&& dto.http_only == cookie.http_only
    &&& dto.same_site == optional_cookie_same_site_dto(cookie.same_site)
    &&& dto.expires_at_epoch_seconds == cookie.expires_at_epoch_seconds
    &&& dto.session == cookie.session
    &&& dto.has_value == cookie.has_value
    &&& dto.value_preview@ == redacted_text()
}

impl WorkspaceCookieDto {
    /// The DTO of a cookie; the cookie's value never goes into it.
    pub fn from_domain(cookie: WorkspaceCookie) -> (dto: WorkspaceCookieDto)
        ensures
            workspace_cookie_dto_of(dto, cookie),
    {
        let same_site = match cookie.same_site {
            Some(value) => Some(CookieSameSiteDto::from_domain(value)),
            None => None,
        };
        WorkspaceCookieDto {
            id: cookie.id.to_text(),
            workspace_id: cookie.workspace_id.to_text(),
            name: cookie.name,
            domain: cookie.domain,
            path: cookie.path,
            secure: cookie.secure,
            http_only: cookie.http_only,
            same_site,
            expires_at_epoch_seconds: cookie.expires_at_epoch_seconds,
            session: cookie.session,
            has_value: cookie.has_value,
            value_preview: redacted_value(),
        }
    }
}

/// `dto` describes every cookie of the jar, in order.
pub open spec fn cookie_jar_snapshot_dto_of(dto: CookieJarSnapshotDto, snapshot: CookieJarSnapshot) -> bool {
    &&& dto.workspace_id@ == snapshot.workspace_id.text()
    &&& pairwise(
        dto.cookies@,
        snapshot.cookies@,
        |d: WorkspaceCookieDto, c: WorkspaceCookie| workspace_cookie_dto_of(d, c),
    )
}

impl CookieJarSnapshotDto {
    /// The DTO of a workspace's cookie jar.
    pub fn from_domain(snapshot: CookieJarSnapshot) -> (dto: CookieJarSnapshotDto)
        ensures
            cookie_jar_snapshot_dto_of(dto, snapshot),
    {
        CookieJarSnapshotDto {
            workspace_id: snapshot.workspace_id.to_text(),
            cookies: map_vec(
                snapshot.cookies,
                WorkspaceCookieDto::from_domain,
                Ghost(|c: WorkspaceCookie, d: WorkspaceCookieDto| workspace_cookie_dto_of(d, c)),
            ),
        }
    }
}

/// The identifier of an upsert that cannot be read, first the cookie's, then the workspace's.
pub open spec fn upsert_cookie_input_error(input: UpsertCookieInput) -> Option<BoundaryError> {
    if input.cookie_id is Some && CookieId::parsed(input.cookie_id->0@) is None {
        Some(BoundaryError::InvalidCookieId)
    } else if WorkspaceId::parsed(input.workspace_id@) is None {
        Some(BoundaryError::InvalidWorkspaceId)
    } else {
        None
    }
}

/// `draft` carries the upsert's fields with its identifiers read.
pub open spec fn cookie_draft_of(draft: CookieDraft, input: UpsertCookieInput) -> bool {
    &&& draft.id == (match input.cookie_id {
        Some(text) => CookieId::parsed(text@),
        None => None,
    })
    &&& Some(draft.workspace_id) == WorkspaceId::parsed(input.workspace_id@)
    &&& draft.name == input.name
    &&& draft.value == input.value
    &&& draft.domain == input.domain
    &&& draft.path == input.path
    &&& draft.secure == input.secure
    &&& draft.http_only == input.http_only
    &&& draft.same_site == optional_cookie_same_site_of(input.same_site)
    &&& draft.expires_at_epoch_seconds == input.expires_at_epoch_seconds
}

impl CookieDraft {
    /// Reads an upsert; fails when the cookie id (if given) or the workspace id is not a UUID.
    pub fn try_from_input(input: UpsertCookieInput) -> (outcome: Result<CookieDraft, IpcError>)
        ensures
            match outcome {
                Ok(draft) => upsert_cookie_input_error(input) is None && cookie_draft_of(draft, input),
                Err(error) => upsert_cookie_input_error(input) matches Some(invalid) && error@
                    == boundary_error_view(invalid),
            },
    {
        let id = match &input.cookie_id {
            Some(text) => match parse_cookie_id(text) {
                Ok(id) => Some(id),
                Err(error) => {
                    return Err(error);
                },
            },
            None => None,
        };
        let workspace_id = match parse_workspace_id(&input.workspace_id) {
            Ok(id) => id,
            Err(error) => {
                return Err(error);
            },
        };
        let same_site = match input.same_site {
            Some(value) => Some(CookieSameSite::from_dto(value)),
            None => None,
        };
        Ok(CookieDraft {
            id,
            workspace_id,
            name: input.name,
            value: input.value,
            domain: input.domain,
            path: input.path,
            secure: input.secure,
            http_only: input.http_only,
            same_site,
            expires_at_epoch_seconds: input.expires_at_epoch_seconds,
        })
    }
}

// ----- execution history -----

/// `dto` describes the recorded response.
pub open spec fn execution_record_response_dto_of(
    dto: ExecutionRecordResponseDto,
    response: ExecutionRecordResponse,
) -> bool {
    &&& dto.status == response.status
    &&& ordered_fields_dto_of(dto.headers@, response.headers@)
    &&& dto.body_preview == response.body_preview
    &&& dto.body_truncated == response.body_truncated
    &&& dto.error == response.error
    &&& dto.duration_ms == response.duration_ms
}

impl ExecutionRecordResponseDto {
    /// The DTO of a recorded response.
    pub fn from_domain(response: ExecutionRecordResponse) -> (dto: ExecutionRecordResponseDto)
        ensures
            execution_record_response_dto_of(dto, response),
    {
        ExecutionRecordResponseDto {
            status: response.status,
            headers: ordered_field_dtos(response.headers),
            body_preview: response.body_preview,
            body_truncated: response.body_truncated,
            error: response.error,
            duration_ms: response.duration_ms,
        }
    }
}

/// `dto` describes the history record.
pub open spec fn execution_record_dto_of(dto: ExecutionRecordDto, record: ExecutionRecord) -> bool {
    &&& dto.id@ == record.id.text()
    &&& dto.workspace_id@ == record.workspace_id.text()
    &&& dto.created_at_epoch_seconds == record.created_at_epoch_seconds
    &&& request_content_dto_of(dto.request, record.request)
    &&& execution_record_response_dto_of(dto.response, record.response)
    &&& dto.pinned == record.pinned
}

impl ExecutionRecordDto {
    /// The DTO of a history record.
    pub fn from_domain(record: ExecutionRecord) -> (dto: ExecutionRecordDto)
        ensures
            execution_record_dto_of(dto, record),
    {
        ExecutionRecordDto {
            id: record.id.to_text(),
            workspace_id: record.workspace_id.to_text(),
            created_at_epoch_seconds: record.created_at_epoch_seconds,
            request: RequestContentDto::from_domain(record.request),
            response: ExecutionRecordResponseDto::from_domain(record.response),
            pinned: record.pinned,
        }
    }
}

/// `dto` describes the execution history, every record in order.
pub open spec fn execution_history_snapshot_dto_of(
    dto: ExecutionHistorySnapshotDto,
    snapshot: ExecutionHistorySnapshot,
) -> bool {
    &&& dto.workspace_id@ == snapshot.workspace_id.text()
    &&& dto.disabled == snapshot.disabled
    &&& pairwise(
        dto.records@,
        snapshot.records@,
        |d: ExecutionRecordDto, r: ExecutionRecord| execution_record_dto_of(d, r),
    )
    &&& dto.warning == snapshot.warning
}

impl ExecutionHistorySnapshotDto {
    /// The DTO of a workspace's execution history.
    pub fn from_domain(snapshot: ExecutionHistorySnapshot) -> (dto: ExecutionHistorySnapshotDto)
        ensures
            execution_history_snapshot_dto_of(dto, snapshot),
    {
        ExecutionHistorySnapshotDto {
            workspace_id: snapshot.workspace_id.to_text(),
            disabled: snapshot.disabled,
            records: map_vec(
                snapshot.records,
                ExecutionRecordDto::from_domain,
                Ghost(|r: ExecutionRecord, d: ExecutionRecordDto| execution_record_dto_of(d, r)),
            ),
            warning: snapshot.warning,
        }
    }
}

// ----- resolved request content -----

/// `dto` carries exactly the resolved value.
pub open spec fn resolved_value_dto_of(dto: ResolvedValueDto, value: ResolvedValue) -> bool {
    dto.value == value.value && dto.contains_secret == value.contains_secret
}

impl ResolvedValueDto {
    /// The DTO of a resolved value.
    pub fn from_domain(value: ResolvedValue) -> (dto: ResolvedValueDto)
        ensures
            resolved_value_dto_of(dto, value),
    {
        ResolvedValueDto { value: value.value, contains_secret: value.contains_secret }
    }
}

impl ResolvedValue {
    /// The resolved value a DTO carries.
    pub fn from_dto(dto: ResolvedValueDto) -> (value: ResolvedValue)
        ensures
            resolved_value_dto_of(dto, value),
    {
        ResolvedValue { value: dto.value, contains_secret: dto.contains_secret }
    }
}

/// `dto` carries exactly the resolved field.
pub open spec fn resolved_field_dto_of(dto: ResolvedFieldDto, field: ResolvedField) -> bool {
    &&& dto.enabled == field.enabled
    &&& dto.order == field.order
    &&& resolved_value_dto_of(dto.name, field.name)
    &&& resolved_value_dto_of(dto.value, field.value)
}

/// The rows of `dtos` carry the rows of `fields`, in order.
pub open spec fn resolved_fields_dto_of(dtos: Seq<ResolvedFieldDto>, fields: Seq<ResolvedField>) -> bool {
    pairwise(dtos, fields, |d: ResolvedFieldDto, f: ResolvedField| resolved_field_dto_of(d, f))
}

impl ResolvedFieldDto {
    /// The DTO of a resolved field.
    pub fn from_domain(field: ResolvedField) -> (dto: ResolvedFieldDto)
        ensures
            resolved_field_dto_of(dto, field),
    {
        ResolvedFieldDto {
            enabled: field.enabled,
            order: field.order,
            name: ResolvedValueDto::from_domain(field.name),
            value: ResolvedValueDto::from_domain(field.value),
        }
    }
}

impl ResolvedField {
    /// The resolved field a DTO carries.
    pub fn from_dto(dto: ResolvedFieldDto) -> (field: ResolvedField)
        ensures
            resolved_field_dto_of(dto, field),
    {
        ResolvedField {
            enabled: dto.enabled,
            order: dto.order,
            name: ResolvedValue::from_dto(dto.name),
            value: ResolvedValue::from_dto(dto.value),
        }
    }
}

/// The DTO of a variable source.
pub open spec fn variable_source_dto(source: VariableSource) -> VariableSourceDto {
    match source {
        VariableSource::Collection => VariableSourceDto::Collection,
        VariableSource::Environment => VariableSourceDto::Environment,
    }
}

/// The variable source of a DTO.
pub open spec fn variable_source_of(dto: VariableSourceDto) -> VariableSource {
    match dto {
        VariableSourceDto::Collection => VariableSource::Collection,
        VariableSourceDto::Environment => VariableSource::Environment,
    }
}

/// A variable source crosses the boundary as the source of the same name, both ways.
pub proof fn lemma_variable_source_keeps_its_name(source: VariableSource, dto: VariableSourceDto)
    ensures
        variable_source_dto(source) is Collection <==> source is Collection,
        variable_source_dto(source) is Environment <==> source is Environment,
        variable_source_of(dto) is Collection <==> dto is Collection,
        variable_source_of(dto) is Environment <==> dto is Environment,
{
}

impl VariableSourceDto {
    /// The DTO of a variable source.
    pub fn from_domain(source: VariableSource) -> (dto: VariableSourceDto)
        ensures
            dto == variable_source_dto(source),
            dto is Collection <==> source is Collection,
            dto is Environment <==> source is Environment,
    {
        match source {
            VariableSource::Collection => VariableSourceDto::Collection,
            VariableSource::Environment => VariableSourceDto::Environment,
        }
    }
}

impl VariableSource {
    /// The variable source a DTO names.
    pub fn from_dto(dto: VariableSourceDto) -> (source: VariableSource)
        ensures
            source == variable_source_of(dto),
            source is Collection <==> dto is Collection,
            source is Environment <==> dto is Environment,
    {
        match dto {
            VariableSourceDto::Collection => VariableSource::Collection,
            VariableSourceDto::Environment => VariableSource::Environment,
        }
    }
}

/// `dto` carries exactly the variable reference.
pub open spec fn resolved_variable_reference_dto_of(
    dto: ResolvedVariableReferenceDto,
    reference: ResolvedVariableReference,
) -> bool {
    &&& dto.name == reference.name
    &&& dto.source == variable_source_dto(reference.source)
    &&& resolved_value_dto_of(dto.value, reference.value)
}

impl ResolvedVariableReferenceDto {
    /// The DTO of a variable reference.
    pub fn from_domain(reference: ResolvedVariableReference) -> (dto: ResolvedVariableReferenceDto)
        ensures
            resolved_variable_reference_dto_of(dto, reference),
    {
        ResolvedVariableReferenceDto {
            name: reference.name,
            source: VariableSourceDto::from_domain(reference.source),
            value: ResolvedValueDto::from_domain(reference.value),
        }
    }
}

impl ResolvedVariableReference {
    /// The variable reference a DTO carries.
    pub fn from_dto(dto: ResolvedVariableReferenceDto) -> (reference: ResolvedVariableReference)
        ensures
            resolved_variable_reference_dto_of(dto, reference),
    {
        let source = VariableSource::from_dto(dto.source);
        ResolvedVariableReference {
            name: dto.name,
            source,
            value: ResolvedValue::from_dto(dto.value),
        }
    }
}

/// The DTO of a resolution failure kind.
pub open spec fn variable_resolution_error_kind_dto(
    kind: VariableResolutionErrorKind,
) -> VariableResolutionErrorKindDto {
    match kind {
        VariableResolutionErrorKind::Missing => VariableResolutionErrorKindDto::Missing,
        VariableResolutionErrorKind::Cycle => VariableResolutionErrorKindDto::Cycle,
    }
}

/// The resolution failure kind of a DTO.
pub open spec fn variable_resolution_error_kind_of(
    dto: VariableResolutionErrorKindDto,
) -> VariableResolutionErrorKind {
    match dto {
        VariableResolutionErrorKindDto::Missing => VariableResolutionErrorKind::Missing,
        VariableResolutionErrorKindDto::Cycle => VariableResolutionErrorKind::Cycle,
    }
}

/// A resolution failure crosses the boundary as the failure of the same kind, both ways.
pub proof fn lemma_resolution_error_kind_keeps_its_name(kind: VariableResolutionErrorKind, dto: VariableResolutionErrorKindDto)
    ensures
        variable_resolution_error_kind_dto(kind) is Missing <==> kind is Missing,
        variable_resolution_error_kind_dto(kind) is Cycle <==> kind is Cycle,
        variable_resolution_error_kind_of(dto) is Missing <==> dto is Missing,
        variable_resolution_error_kind_of(dto) is Cycle <==> dto is Cycle,
{
}

impl VariableResolutionErrorKindDto {
    /// The DTO of a resolution failure kind.
    pub fn from_domain(kind: VariableResolutionErrorKind) -> (dto: VariableResolutionErrorKindDto)
        ensures
            dto == variable_resolution_error_kind_dto(kind),
            dto is Missing <==> kind is Missing,
            dto is Cycle <==> kind is Cycle,
    {
        match kind {
            VariableResolutionErrorKind::Missing => VariableResolutionErrorKindDto::Missing,
            VariableResolutionErrorKind::Cycle => VariableResolutionErrorKindDto::Cycle,
        }
    }
}

impl VariableResolutionErrorKind {
    /// The resolution failure kind a DTO names.
    pub fn from_dto(dto: VariableResolutionErrorKindDto) -> (kind: VariableResolutionErrorKind)
        ensures
            kind == variable_resolution_error_kind_of(dto),
            kind is Missing <==> dto is Missing,
            kind is Cycle <==> dto is Cycle,
    {
        match dto {
            VariableResolutionErrorKindDto::Missing => VariableResolutionErrorKind::Missing,
            VariableResolutionErrorKindDto::Cycle => VariableResolutionErrorKind::Cycle,
        }
    }
}

/// `dto` carries exactly the resolution failure.
pub open spec fn variable_resolution_error_dto_of(
    dto: VariableResolutionErrorDto,
    error: VariableResolutionError,
) -> bool {
    dto.name == error.name && dto.kind == variable_resolution_error_kind_dto(error.kind)
}

impl VariableResolutionErrorDto {
    /// The DTO of a resolution failure.
    pub fn from_domain(error: VariableResolutionError) -> (dto: VariableResolutionErrorDto)
        ensures
            variable_resolution_error_dto_of(dto, error),
    {
        VariableResolutionErrorDto {
            name: error.name,
            kind: VariableResolutionErrorKindDto::from_domain(error.kind),
        }
    }
}

impl VariableResolutionError {
    /// The resolution failure a DTO carries.
    pub fn from_dto(dto: VariableResolutionErrorDto) -> (error: VariableResolutionError)
        ensures
            variable_resolution_error_dto_of(dto, error),
    {
        let kind = VariableResolutionErrorKind::from_dto(dto.kind);
        VariableResolutionError { name: dto.name, kind }
    }
}

/// `dto` carries the resolved content, leaving out the resolved body's shape.
pub open spec fn resolved_request_content_dto_of(
    dto: ResolvedRequestContentDto,
    content: ResolvedRequestContent,
) -> bool {
    &&& resolved_value_dto_of(dto.url, content.url)
    &&& resolved_value_dto_of(dto.body, content.body)
    &&& resolved_fields_dto_of(dto.query@, content.query@)
    &&& resolved_fields_dto_of(dto.headers@, content.headers@)
    &&& dto.unsafe_tls_visible == content.unsafe_tls_visible
    &&& pairwise(
        dto.references@,
        content.references@,
        |d: ResolvedVariableReferenceDto, r: ResolvedVariableReference|
            resolved_variable_reference_dto_of(d, r),
    )
    &&& pairwise(
        dto.errors@,
        content.errors@,
        |d: VariableResolutionErrorDto, e: VariableResolutionError|
            variable_resolution_error_dto_of(d, e),
    )
}

impl ResolvedRequestContentDto {
    /// The DTO of resolved content.
    pub fn from_domain(content: ResolvedRequestContent) -> (dto: ResolvedRequestContentDto)
        ensures
            resolved_request_content_dto_of(dto, content),
    {
        ResolvedRequestContentDto {
            url: ResolvedValueDto::from_domain(content.url),
            body: ResolvedValueDto::from_domain(content.body),
            query: map_vec(
                content.query,
                ResolvedFieldDto::from_domain,
                Ghost(|f: ResolvedField, d: ResolvedFieldDto| resolved_field_dto_of(d, f)),
            ),
            headers: map_vec(
                content.headers,
                ResolvedFieldDto::from_domain,
                Ghost(|f: ResolvedField, d: ResolvedFieldDto| resolved_field_dto_of(d, f)),
            ),
            unsafe_tls_visible: content.unsafe_tls_visible,
            references: map_vec(
                content.references,
                ResolvedVariableReferenceDto::from_domain,
                Ghost(
                    |r: ResolvedVariableReference, d: ResolvedVariableReferenceDto|
                        resolved_variable_reference_dto_of(d, r),
                ),
            ),
            errors: map_vec(
                content.errors,
                VariableResolutionErrorDto::from_domain,
                Ghost(
                    |e: VariableResolutionError, d: VariableResolutionErrorDto|
                        variable_resolution_error_dto_of(d, e),
                ),
            ),
        }
    }
}

/// `value` is `text` when no secret went into the body, else the redaction marker.
pub open spec fn redacted_when_secret(value: ResolvedValue, text: String, secret: bool) -> bool {
    &&& value.contains_secret == secret
    &&& if secret {
        value.value@ == redacted_text()
    } else {
        value.value == text
    }
}

/// `name` is the plain, never secret, form of `text`.
pub open spec fn plain_resolved(name: ResolvedValue, text: String) -> bool {
    name.value == text && !name.contains_secret
}

/// `resolved` is the url-encoded `field` as the editor shows it after resolution.
pub open spec fn resolved_form_field_of(resolved: ResolvedField, field: OrderedField, secret: bool) -> bool {
    &&& resolved.enabled == field.enabled
    &&& resolved.order == field.order
    &&& plain_resolved(resolved.name, field.name)
    &&& redacted_when_secret(resolved.value, field.value, secret)
}

/// `resolved` is the multipart `part` as the editor shows it after resolution.
pub open spec fn resolved_multipart_part_of(
    resolved: ResolvedMultipartPart,
    part: MultipartPart,
    secret: bool,
) -> bool {
    match (resolved, part) {
        (
            ResolvedMultipartPart::Field { enabled: re, order: ro, name: rn, value: rv },
            MultipartPart::Field { enabled, order, name, value },
        ) => re == enabled && ro == order && plain_resolved(rn, name) && redacted_when_secret(
            rv,
            value,
            secret,
        ),
        (
            ResolvedMultipartPart::File { enabled: re, order: ro, name: rn },
            MultipartPart::File { enabled, order, name, .. },
        ) => re == enabled && ro == order && plain_resolved(rn, name),
        _ => false,
    }
}

/// `kind` is the shape of `body` after resolution, where `resolved_body` is the
/// resolved body text and `secret` says whether a secret went into it.
pub open spec fn resolved_body_kind_of(
    kind: ResolvedRequestBody,
    body: RequestBody,
    resolved_body: ResolvedValueDto,
) -> bool {
    let secret = resolved_body.contains_secret;
    match (kind, body) {
        (ResolvedRequestBody::Empty, RequestBody::Empty) => true,
        (ResolvedRequestBody::Raw { content }, RequestBody::Raw { .. }) => resolved_value_dto_of(
            resolved_body,
            content,
        ),
        (ResolvedRequestBody::UrlEncoded { fields: r }, RequestBody::UrlEncoded { fields }) =>
            pairwise(
            r@,
            fields@,
            |rf: ResolvedField, f: OrderedField| resolved_form_field_of(rf, f, secret),
        ),
        (ResolvedRequestBody::Multipart { parts: r }, RequestBody::Multipart { parts }) =>
            pairwise(
            r@,
            parts@,
            |rp: ResolvedMultipartPart, p: MultipartPart| resolved_multipart_part_of(rp, p, secret),
        ),
        (ResolvedRequestBody::Binary, RequestBody::Binary { .. }) => true,
        _ => false,
    }
}

/// When a secret went into a resolved body, no field of a form or multipart body shows
/// its value: each one shows the redaction marker and is flagged as secret.
pub proof fn lemma_secret_bodies_show_no_field_values(
    kind: ResolvedRequestBody,
    body: RequestBody,
    resolved_body: ResolvedValueDto,
)
    requires
        resolved_body_kind_of(kind, body, resolved_body),
        resolved_body.contains_secret,
    ensures
        kind matches ResolvedRequestBody::UrlEncoded { fields } ==> forall|i: int|
            0 <= i < fields.len() ==> (#[trigger] fields[i]).value.value@ == redacted_text()
                && fields[i].value.contains_secret,
        kind matches ResolvedRequestBody::Multipart { parts } ==> forall|i: int|
            0 <= i < parts.len() ==> (#[trigger] parts[i] matches ResolvedMultipartPart::Field {
                value,
                ..
            } ==> value.value@ == redacted_text() && value.contains_secret),
{
    match (kind, body) {
        (ResolvedRequestBody::UrlEncoded { fields: r }, RequestBody::UrlEncoded { fields }) => {
            assert forall|i: int| 0 <= i < r.len() implies (#[trigger] r[i]).value.value@
                == redacted_text() && r[i].value.contains_secret by {
                assert(resolved_form_field_of(r@[i], fields@[i], true));
            }
        },
        (ResolvedRequestBody::Multipart { parts: r }, RequestBody::Multipart { parts }) => {
            assert forall|i: int| 0 <= i < r.len() implies (#[trigger] r[i] matches ResolvedMultipartPart::Field {
                value,
                ..
            } ==> value.value@ == redacted_text() && value.contains_secret) by {
                assert(resolved_multipart_part_of(r@[i], parts@[i], true));
            }
        },
        _ => {},
    }
}

/// A cookie listed to the frontend never carries its value: the preview is the redaction
/// marker whatever the cookie holds.
pub proof fn lemma_cookie_listings_carry_no_value(dto: WorkspaceCookieDto, cookie: WorkspaceCookie)
    requires
        workspace_cookie_dto_of(dto, cookie),
    ensures
        dto.value_preview@ == redacted_text(),
{
}

fn redact_when_secret(text: &String, secret: bool) -> (value: ResolvedValue)
    ensures
        redacted_when_secret(value, *text, secret),
{
    if secret {
        ResolvedValue { value: redacted_value(), contains_secret: true }
    } else {
        ResolvedValue { value: text.clone(), contains_secret: false }
    }
}

fn resolve_form_fields(fields: &Vec<OrderedField>, secret: bool) -> (resolved: Vec<ResolvedField>)
    ensures
        pairwise(
            resolved@,
            fields@,
            |rf: ResolvedField, f: OrderedField| resolved_form_field_of(rf, f, secret),
        ),
{
    let mut resolved: Vec<ResolvedField> = Vec::new();
    let mut i: usize = 0;
    while i < fields.len()
        invariant
            i <= fields@.len(),
            resolved@.len() == i,
            forall|j: int|
                0 <= j < i ==> #[trigger] resolved_form_field_of(resolved@[j], fields@[j], secret),
        decreases fields@.len() - i,
    {
        let field = &fields[i];
        resolved.push(
            ResolvedField {
                enabled: field.enabled,
                order: field.order,
                name: ResolvedValue { value: field.name.clone(), contains_secret: false },
                value: redact_when_secret(&field.value, secret),
            },
        );
        i = i + 1;
    }
    resolved
}

fn resolve_multipart_parts(parts: &Vec<MultipartPart>, secret: bool) -> (resolved: Vec<
    ResolvedMultipartPart,
>)
    ensures
        pairwise(
            resolved@,
            parts@,
            |rp: ResolvedMultipartPart, p: MultipartPart| resolved_multipart_part_of(rp, p, secret),
        ),
{
    let mut resolved: Vec<ResolvedMultipartPart> = Vec::new();
    let mut i: usize = 0;
    while i < parts.len()
        invariant
            i <= parts@.len(),
            resolved@.len() == i,
            forall|j: int|
                0 <= j < i ==> #[trigger] resolved_multipart_part_of(
                    resolved@[j],
                    parts@[j],
                    secret,
                ),
        decreases parts@.len() - i,
    {
        let part = match &parts[i] {
            MultipartPart::Field { enabled, order, name, value } => ResolvedMultipartPart::Field {
                enabled: *enabled,
                order: *order,
                name: ResolvedValue { value: name.clone(), contains_secret: false },
                value: redact_when_secret(value, secret),
            },
            MultipartPart::File { enabled, order, name, .. } => ResolvedMultipartPart::File {
                enabled: *enabled,
                order: *order,
                name: ResolvedValue { value: name.clone(), contains_secret: false },
            },
        };
        resolved.push(part);
        i = i + 1;
    }
    resolved
}

/// Rebuilds resolved content that the editor sent back, taking the body's shape
/// from the request it was resolved from. When a secret went into the body, the
/// value of every form field and multipart field is the redaction marker.
pub fn resolved_request_content_from_dto(
    resolved: ResolvedRequestContentDto,
    content: &RequestContent,
) -> (result: ResolvedRequestContent)
    ensures
        resolved_body_kind_of(result.body_kind, content.body, resolved.body),
        resolved_request_content_dto_of(resolved, result),
{
    let secret = resolved.body.contains_secret;
    let body_kind = match &content.body {
        RequestBody::Empty => ResolvedRequestBody::Empty,
        RequestBody::Raw { .. } => ResolvedRequestBody::Raw {
            content: ResolvedValue { value: resolved.body.value.clone(), contains_secret: secret },
        },
        RequestBody::UrlEncoded { fields } => ResolvedRequestBody::UrlEncoded {
            fields: resolve_form_fields(fields, secret),
        },
        RequestBody::Multipart { parts } => ResolvedRequestBody::Multipart {
            parts: resolve_multipart_parts(parts, secret),
        },
        RequestBody::Binary { .. } => ResolvedRequestBody::Binary,
    };
    ResolvedRequestContent {
        url: ResolvedValue::from_dto(resolved.url),
        body: ResolvedValue::from_dto(resolved.body),
        body_kind,
        query: map_vec(
            resolved.query,
            ResolvedField::from_dto,
            Ghost(|d: ResolvedFieldDto, f: ResolvedField| resolved_field_dto_of(d, f)),
        ),
        headers: map_vec(
            resolved.headers,
            ResolvedField::from_dto,
            Ghost(|d: ResolvedFieldDto, f: ResolvedField| resolved_field_dto_of(d, f)),
        ),
        unsafe_tls_visible: resolved.unsafe_tls_visible,
        references: map_vec(
            resolved.references,
            ResolvedVariableReference::from_dto,
            Ghost(
                |d: ResolvedVariableReferenceDto, r: ResolvedVariableReference|
                    resolved_variable_reference_dto_of(d, r),
            ),
        ),
        errors: map_vec(
            resolved.errors,
            VariableResolutionError::from_dto,
            Ghost(
                |d: VariableResolutionErrorDto, e: VariableResolutionError|
                    variable_resolution_error_dto_of(d, e),
            ),
        ),
    }
}

} // verus!
