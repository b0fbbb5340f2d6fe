use postmite::conversions::resolved_request_content_from_dto;
use postmite::domain::{
    ExecutionEvent, ExecutionEventKind, ExecutionHeader, MultipartPart, OrderedField, ProxyPolicy,
    ProxySource, RedirectPolicy, RequestAuth, RequestBody, RequestContent, ResolvedMultipartPart,
    ResolvedRequestBody, TimeoutPolicy, TlsPolicy, TransportPolicy,
};
use postmite::dto::{
    ExecutionEventDto, ExecutionEventKindDto, RequestContentDto, ResolvedRequestContentDto,
    ResolvedValueDto,
};
use postmite::execution::{
    eq_ignore_ascii_case, execution_event_diagnostic_stage, response_header_fields,
    ExecutionHistoryObserver, InitialExecutionEvents,
};
use postmite::ids::{ExecutionId, WorkspaceId};

fn field(name: &str, value: &str, order: u32) -> OrderedField {
    OrderedField { enabled: true, order, name: name.to_owned(), value: value.to_owned() }
}

fn request(body: RequestBody) -> RequestContent {
    RequestContent {
        name: "Search".to_owned(),
        method: "POST".to_owned(),
        url: "https://example.test/search".to_owned(),
        body,
        query: vec![field("tag", "a", 0), field("tag", "b", 1), field("tag", "a", 2)],
        headers: vec![field("X-Test", "one", 0), field("x-test", "two", 1)],
        auth: RequestAuth::Bearer { token: "token-value".to_owned() },
        redirect: RedirectPolicy { enabled: false, max_redirects: 0 },
        tls: TlsPolicy {
            verify: false,
            custom_ca_reference: Some("secret://ca".to_owned()),
            client_certificate_reference: None,
            client_key_reference: None,
        },
        transport: TransportPolicy {
            proxy: ProxyPolicy {
                source: ProxySource::Custom,
                url: Some("http://proxy.test:8080".to_owned()),
                no_proxy: vec!["localhost".to_owned()],
            },
            timeouts: TimeoutPolicy { connect_ms: 1, overall_ms: 2, idle_ms: 3 },
        },
    }
}

fn resolved(value: &str, contains_secret: bool) -> ResolvedValueDto {
    ResolvedValueDto { value: value.to_owned(), contains_secret }
}

#[test]
fn request_content_round_trips_with_duplicate_rows_in_order() {
    let original = request(RequestBody::UrlEncoded { fields: vec![field("a", "1", 0), field("a", "2", 1)] });
    let dto = RequestContentDto::from_domain(original.clone());
    assert_eq!(dto.query.len(), 3);
    assert_eq!(dto.query[2].value, "a");
    let back = RequestContent::from_dto(dto);
    assert_eq!(back, original);
}

#[test]
fn secret_bodies_resolve_without_field_values() {
    let content = request(RequestBody::Multipart {
        parts: vec![MultipartPart::Field {
            enabled: true,
            order: 0,
            name: "password".to_owned(),
            value: "{{password}}".to_owned(),
        }],
    });
    let dto = ResolvedRequestContentDto {
        url: resolved("https://example.test/search", false),
        body: resolved("[redacted]", true),
        query: Vec::new(),
        headers: Vec::new(),
        unsafe_tls_visible: true,
        references: Vec::new(),
        errors: Vec::new(),
    };
    let result = resolved_request_content_from_dto(dto, &content);
    match result.body_kind {
        ResolvedRequestBody::Multipart { parts } => {
            assert_eq!(parts.len(), 1);
            match &parts[0] {
                ResolvedMultipartPart::Field { name, value, .. } => {
                    assert_eq!(name.value, "password");
                    assert!(!name.contains_secret);
                    assert_eq!(value.value, "[redacted]");
                    assert!(value.contains_secret);
                }
                ResolvedMultipartPart::File { .. } => panic!("field expected"),
            }
        }
        _ => panic!("multipart expected"),
    }
    assert!(result.unsafe_tls_visible);
}

#[test]
fn plain_bodies_resolve_with_their_field_values() {
    let content = request(RequestBody::UrlEncoded { fields: vec![field("q", "rust", 0)] });
    let dto = ResolvedRequestContentDto {
        url: resolved("https://example.test/search", false),
        body: resolved("q=rust", false),
        query: Vec::new(),
        headers: Vec::new(),
        unsafe_tls_visible: false,
        references: Vec::new(),
        errors: Vec::new(),
    };
    let result = resolved_request_content_from_dto(dto, &content);
    match result.body_kind {
        ResolvedRequestBody::UrlEncoded { fields } => {
            assert_eq!(fields[0].value.value, "rust");
            assert!(!fields[0].value.contains_secret);
        }
        _ => panic!("form expected"),
    }
    assert_eq!(result.body.value, "q=rust");
}

#[test]
fn header_names_compare_without_ascii_case() {
    assert!(eq_ignore_ascii_case("Set-Cookie", "set-cookie"));
    assert!(!eq_ignore_ascii_case("Set-Cookie", "set-cookies"));
    assert!(!eq_ignore_ascii_case("É", "é"));
}

fn event(kind: ExecutionEventKind, sequence: u64) -> ExecutionEvent {
    ExecutionEvent { execution_id: ExecutionId { value: 42 }, sequence, kind }
}

fn headers_event() -> ExecutionEventKind {
    ExecutionEventKind::ResponseHeaders {
        status: 200,
        headers: vec![
            ExecutionHeader { name: "Content-Type".to_owned(), value: "text/plain".to_owned() },
            ExecutionHeader { name: "Set-Cookie".to_owned(), value: "sid=1".to_owned() },
        ],
        protocol: "HTTP/1.1".to_owned(),
        remote_addr: None,
    }
}

#[test]
fn the_history_records_a_request_once() {
    let workspace_id = WorkspaceId { value: 9 };
    let mut observer = ExecutionHistoryObserver::new(workspace_id, request(RequestBody::Empty));
    assert!(observer.observe(&event(headers_event(), 1), 5, 100).is_none());
    let record = observer
        .observe(&event(ExecutionEventKind::Failed { message: "timed out".to_owned() }, 2), 7, 200)
        .expect("recorded");
    assert_eq!(record.workspace_id, workspace_id);
    assert_eq!(record.content.name, "Search");
    assert_eq!(record.response.status, None);
    assert_eq!(record.response.error.as_deref(), Some("timed out"));
    assert_eq!(record.response.duration_ms, Some(7));
    assert_eq!(record.completed_at_epoch_seconds, 200);
    assert_eq!(record.response.headers.len(), 2);
    assert_eq!(record.response.headers[1].name, "Set-Cookie");
    assert_eq!(record.response.headers[1].order, 1);
    assert!(observer.observe(&event(ExecutionEventKind::Cancelled, 3), 8, 300).is_none());
}

#[test]
fn a_cancelled_request_is_recorded_as_cancelled() {
    let mut observer = ExecutionHistoryObserver::new(WorkspaceId { value: 1 }, request(RequestBody::Empty));
    let record = observer
        .observe(&event(ExecutionEventKind::Cancelled, 1), 3, 4)
        .expect("recorded");
    assert_eq!(record.response.error.as_deref(), Some("cancelled"));
    assert_eq!(record.response.body_preview, "");
    assert!(!record.response.body_truncated);
}

#[test]
fn events_are_buffered_until_the_start_command_answers() {
    let mut buffer = InitialExecutionEvents::open();
    let first = ExecutionEventDto::from_domain(event(headers_event(), 1));
    buffer.push(first.clone());
    let closed = buffer.close();
    assert_eq!(closed, vec![first.clone()]);
    buffer.push(first);
    assert!(buffer.close().is_empty());
}

#[test]
fn response_headers_in_events_redact_set_cookie() {
    let dto = ExecutionEventDto::from_domain(event(headers_event(), 1));
    assert_eq!(dto.execution_id, "00000000-0000-0000-0000-00000000002a");
    match dto.kind {
        ExecutionEventKindDto::ResponseHeaders { headers, status, .. } => {
            assert_eq!(status, 200);
            assert_eq!(headers[0].value, "text/plain");
            assert_eq!(headers[1].value, "[redacted]");
        }
        _ => panic!("headers expected"),
    }
}

#[test]
fn only_lifecycle_events_mark_diagnostic_stages() {
    assert_eq!(execution_event_diagnostic_stage(&headers_event()), Some("http.response-headers"));
    assert_eq!(execution_event_diagnostic_stage(&ExecutionEventKind::Cancelled), Some("http.cancelled"));
    assert_eq!(
        execution_event_diagnostic_stage(&ExecutionEventKind::UploadProgress { sent_bytes: 1, total_bytes: 2 }),
        None
    );
}

#[test]
fn response_headers_become_ordered_fields() {
    let fields = response_header_fields(&vec![
        ExecutionHeader { name: "A".to_owned(), value: "1".to_owned() },
        ExecutionHeader { name: "A".to_owned(), value: "2".to_owned() },
    ]);
    assert_eq!(fields, vec![field("A", "1", 0), field("A", "2", 1)]);
}
