//! Identifiers of workspace entities: UUIDs that cross the IPC boundary as text.
use vstd::prelude::*;

verus! {

/// The value of the UUID that `uuid::Uuid::parse_str` reads from a text, if it reads one.
pub uninterp spec fn uuid_parse(text: Seq<char>) -> Option<u128>;

/// The lengths of the texts `uuid::Uuid::parse_str` reads: simple (32), hyphenated (36),
/// braced (38) and URN (45).
pub open spec fn uuid_text_length(length: nat) -> bool {
    length == 32 || length == 36 || length == 38 || length == 45
}

/// The value read from a text; a text of any other length is never read.
pub open spec fn uuid_read(text: Seq<char>) -> Option<u128> {
    if uuid_text_length(text.len()) {
        uuid_parse(text)
    } else {
        None
    }
}

/// The lower-case hexadecimal digit of a value below 16.
pub open spec fn hex_digit(nibble: int) -> char {
    if nibble < 10 {
        (48 + nibble) as char
    } else {
        (87 + nibble) as char
    }
}

/// The `k`-th hexadecimal digit of a 128-bit value, counted from the most significant.
pub open spec fn uuid_nibble(value: u128, k: int) -> int {
    ((value as int) / (vstd::arithmetic::power2::pow2((4 * (31 - k)) as nat) as int)) % 16
}

/// The digit of the value shown at place `i` of the hyphenated text.
pub open spec fn uuid_digit_place(i: int) -> int {
    if i < 8 {
        i
    } else if i < 13 {
        i - 1
    } else if i < 18 {
        i - 2
    } else if i < 23 {
        i - 3
    } else {
        i - 4
    }
}

/// The hyphenated text of a UUID value: its 32 lower-case hexadecimal digits, most
/// significant first, in groups of 8, 4, 4, 4 and 12 joined by hyphens.
pub open spec fn uuid_text(value: u128) -> Seq<char> {
    Seq::new(
        36,
        |i: int|
            if i == 8 || i == 13 || i == 18 || i == 23 {
                '-'
            } else {
                hex_digit(uuid_nibble(value, uuid_digit_place(i)))
            },
    )
}

/// Calls `uuid::Uuid::parse_str` and keeps the 128-bit value of a UUID it reads.
///
/// Claims: the result is `uuid_parse` of the text, which depends on the text
/// alone; a text is only read when it has one of the lengths the parser accepts
/// (32 simple, 36 hyphenated, 38 braced, 45 URN), all of them ASCII forms whose
/// length in characters is their length in bytes.
#[verifier::external_body]
fn parse_uuid(text: &str) -> (parsed: Option<u128>)
    ensures
        parsed == uuid_parse(text@),
        parsed is Some ==> (text@.len() == 32 || text@.len() == 36 || text@.len() == 38
            || text@.len() == 45),
{
    match uuid::Uuid::parse_str(text) {
        Ok(uuid) => Some(uuid.as_u128()),
        Err(_) => None,
    }
}

/// Calls `uuid::Uuid::from_u128` and formats the UUID with `to_string`.
///
/// Claims: the text is the hyphenated lower-case form `uuid_text` of the value
/// (`Uuid::from_u128` keeps the value's bytes most significant first, and
/// `Display` writes them that way), which `uuid::Uuid::parse_str` reads back as
/// the same value.
#[verifier::external_body]
fn format_uuid(value: u128) -> (text: String)
    ensures
        text@ == uuid_text(value),
        uuid_parse(text@) == Some(value),
{
    uuid::Uuid::from_u128(value).to_string()
}

/// Identifier of a workspace.
#[derive(Clone, Copy, Debug, PartialEq, Eq, Structural, Hash)]
pub struct WorkspaceId {
    pub value: u128,
}

impl WorkspaceId {
    /// The id read from a text, if the text is a UUID.
    pub open spec fn parsed(text: Seq<char>) -> Option<WorkspaceId> {
        match uuid_read(text) {
            Some(v) => Some(WorkspaceId { value: v }),
            None => None,
        }
    }

    /// The UUID text of the id.
    pub open spec fn text(self) -> Seq<char> {
        uuid_text(self.value)
    }

    /// Reads the id from its UUID text.
    pub fn parse(text: &str) -> (id: Option<WorkspaceId>)
        ensures
            id == WorkspaceId::parsed(text@),
    {
        match parse_uuid(text) {
            Some(value) => Some(WorkspaceId { value }),
            None => None,
        }
    }

    /// Writes the UUID text of the id; reading that text back gives the id.
    pub fn to_text(&self) -> (text: String)
        ensures
            text@ == self.text(),
            Self::parsed(text@) == Some(*self),
    {
        format_uuid(self.value)
    }
}

/// Identifier of a collection folder.
#[derive(Clone, Copy, Debug, PartialEq, Eq, Structural, Hash)]
pub struct CollectionId {
    pub value: u128,
}

impl CollectionId {
    /// The id read from a text, if the text is a UUID.
    pub open spec fn parsed(text: Seq<char>) -> Option<CollectionId> {
        match uuid_read(text) {
            Some(v) => Some(CollectionId { value: v }),
            None => None,
        }
    }

    /// The UUID text of the id.
    pub open spec fn text(self) -> Seq<char> {
        uuid_text(self.value)
    }

    /// Reads the id from its UUID text.
    pub fn parse(text: &str) -> (id: Option<CollectionId>)
        ensures
            id == CollectionId::parsed(text@),
    {
        match parse_uuid(text) {
            Some(value) => Some(CollectionId { value }),
            None => None,
        }
    }

    /// Writes the UUID text of the id; reading that text back gives the id.
    pub fn to_text(&self) -> (text: String)
        ensures
            text@ == self.text(),
            Self::parsed(text@) == Some(*self),
    {
        format_uuid(self.value)
    }

    /// The UUID text of an optional id.
    pub open spec fn optional_text(id: Option<CollectionId>) -> Option<Seq<char>> {
        match id {
            Some(id) => Some(id.text()),
            None => None,
        }
    }

    /// Writes the UUID text of an optional id.
    pub fn optional_to_text(id: Option<CollectionId>) -> (text: Option<String>)
        ensures
            text.deep_view() == CollectionId::optional_text(id),
    {
        match id {
            Some(id) => Some(id.to_text()),
            None => None,
        }
    }
}

/// Identifier of an environment.
#[derive(Clone, Copy, Debug, PartialEq, Eq, Structural, Hash)]
pub struct EnvironmentId {
    pub value: u128,
}

impl EnvironmentId {
    /// The id read from a text, if the text is a UUID.
    pub open spec fn parsed(text: Seq<char>) -> Option<EnvironmentId> {
        match uuid_read(text) {
            Some(v) => Some(EnvironmentId { value: v }),
            None => None,
        }
    }

    /// The UUID text of the id.
    pub open spec fn text(self) -> Seq<char> {
        uuid_text(self.value)
    }

    /// Reads the id from its UUID text.
    pub fn parse(text: &str) -> (id: Option<EnvironmentId>)
        ensures
            id == EnvironmentId::parsed(text@),
    {
        match parse_uuid(text) {
            Some(value) => Some(EnvironmentId { value }),
            None => None,
        }
    }

    /// Writes the UUID text of the id; reading that text back gives the id.
    pub fn to_text(&self) -> (text: String)
        ensures
            text@ == self.text(),
            Self::parsed(text@) == Some(*self),
    {
        format_uuid(self.value)
    }
}

/// Identifier of a saved request.
#[derive(Clone, Copy, Debug, PartialEq, Eq, Structural, Hash)]
pub struct SavedRequestId {
    pub value: u128,
}

impl SavedRequestId {
    /// The id read from a text, if the text is a UUID.
    pub open spec fn parsed(text: Seq<char>) -> Option<SavedRequestId> {
        match uuid_read(text) {
            Some(v) => Some(SavedRequestId { value: v }),
            None => None,
        }
    }

    /// The UUID text of the id.
    pub open spec fn text(self) -> Seq<char> {
        uuid_text(self.value)
    }

    /// Reads the id from its UUID text.
    pub fn parse(text: &str) -> (id: Option<SavedRequestId>)
        ensures
            id == SavedRequestId::parsed(text@),
    {
        match parse_uuid(text) {
            Some(value) => Some(SavedRequestId { value }),
            None => None,
        }
    }

    /// Writes the UUID text of the id; reading that text back gives the id.
    pub fn to_text(&self) -> (text: String)
        ensures
            text@ == self.text(),
            Self::parsed(text@) == Some(*self),
    {
        format_uuid(self.value)
    }

    /// The UUID text of an optional id.
    pub open spec fn optional_text(id: Option<SavedRequestId>) -> Option<Seq<char>> {
        match id {
            Some(id) => Some(id.text()),
            None => None,
        }
    }

    /// Writes the UUID text of an optional id.
    pub fn optional_to_text(id: Option<SavedRequestId>) -> (text: Option<String>)
        ensures
            text.deep_view() == SavedRequestId::optional_text(id),
    {
        match id {
            Some(id) => Some(id.to_text()),
            None => None,
        }
    }
}

/// Identifier of a request draft.
#[derive(Clone, Copy, Debug, PartialEq, Eq, Structural, Hash)]
pub struct RequestDraftId {
    pub value: u128,
}

impl RequestDraftId {
    /// The id read from a text, if the text is a UUID.
    pub open spec fn parsed(text: Seq<char>) -> Option<RequestDraftId> {
        match uuid_read(text) {
            Some(v) => Some(RequestDraftId { value: v }),
            None => None,
        }
    }

    /// The UUID text of the id.
    pub open spec fn text(self) -> Seq<char> {
        uuid_text(self.value)
    }

    /// Reads the id from its UUID text.
    pub fn parse(text: &str) -> (id: Option<RequestDraftId>)
        ensures
            id == RequestDraftId::parsed(text@),
    {
        match parse_uuid(text) {
            Some(value) => Some(RequestDraftId { value }),
            None => None,
        }
    }

    /// Writes the UUID text of the id; reading that text back gives the id.
    pub fn to_text(&self) -> (text: String)
        ensures
            text@ == self.text(),
            Self::parsed(text@) == Some(*self),
    {
        format_uuid(self.value)
    }
}

/// Identifier of a request tab.
#[derive(Clone, Copy, Debug, PartialEq, Eq, Structural, Hash)]
pub struct RequestTabId {
    pub value: u128,
}

impl RequestTabId {
    /// The id read from a text, if the text is a UUID.
    pub open spec fn parsed(text: Seq<char>) -> Option<RequestTabId> {
        match uuid_read(text) {
            Some(v) => Some(RequestTabId { value: v }),
            None => None,
        }
    }

    /// The UUID text of the id.
    pub open spec fn text(self) -> Seq<char> {
        uuid_text(self.value)
    }

    /// Reads the id from its UUID text.
    pub fn parse(text: &str) -> (id: Option<RequestTabId>)
        ensures
            id == RequestTabId::parsed(text@),
    {
        match parse_uuid(text) {
            Some(value) => Some(RequestTabId { value }),
            None => None,
        }
    }

    /// Writes the UUID text of the id; reading that text back gives the id.
    pub fn to_text(&self) -> (text: String)
        ensures
            text@ == self.text(),
            Self::parsed(text@) == Some(*self),
    {
        format_uuid(self.value)
    }
}

/// Identifier of a running request execution.
#[derive(Clone, Copy, Debug, PartialEq, Eq, Structural, Hash)]
pub struct ExecutionId {
    pub value: u128,
}

impl ExecutionId {
    /// The id read from a text, if the text is a UUID.
    pub open spec fn parsed(text: Seq<char>) -> Option<ExecutionId> {
        match uuid_read(text) {
            Some(v) => Some(ExecutionId { value: v }),
            None => None,
        }
    }

    /// The UUID text of the id.
    pub open spec fn text(self) -> Seq<char> {
        uuid_text(self.value)
    }

    /// Reads the id from its UUID text.
    pub fn parse(text: &str) -> (id: Option<ExecutionId>)
        ensures
            id == ExecutionId::parsed(text@),
    {
        match parse_uuid(text) {
            Some(value) => Some(ExecutionId { value }),
            None => None,
        }
    }

    /// Writes the UUID text of the id; reading that text back gives the id.
    pub fn to_text(&self) -> (text: String)
        ensures
            text@ == self.text(),
            Self::parsed(text@) == Some(*self),
    {
        format_uuid(self.value)
    }
}

/// Identifier of an OAuth authorization flow.
#[derive(Clone, Copy, Debug, PartialEq, Eq, Structural, Hash)]
pub struct OAuthFlowId {
    pub value: u128,
}

impl OAuthFlowId {
    /// The id read from a text, if the text is a UUID.
    pub open spec fn parsed(text: Seq<char>) -> Option<OAuthFlowId> {
        match uuid_read(text) {
            Some(v) => Some(OAuthFlowId { value: v }),
            None => None,
        }
    }

    /// The UUID text of the id.
    pub open spec fn text(self) -> Seq<char> {
        uuid_text(self.value)
    }

    /// Reads the id from its UUID text.
    pub fn parse(text: &str) -> (id: Option<OAuthFlowId>)
        ensures
            id == OAuthFlowId::parsed(text@),
    {
        match parse_uuid(text) {
            Some(value) => Some(OAuthFlowId { value }),
            None => None,
        }
    }

    /// Writes the UUID text of the id; reading that text back gives the id.
    pub fn to_text(&self) -> (text: String)
        ensures
            text@ == self.text(),
            Self::parsed(text@) == Some(*self),
    {
        format_uuid(self.value)
    }
}

/// Identifier of an execution history record.
#[derive(Clone, Copy, Debug, PartialEq, Eq, Structural, Hash)]
pub struct ExecutionRecordId {
    pub value: u128,
}

impl ExecutionRecordId {
    /// The id read from a text, if the text is a UUID.
    pub open spec fn parsed(text: Seq<char>) -> Option<ExecutionRecordId> {
        match uuid_read(text) {
            Some(v) => Some(ExecutionRecordId { value: v }),
            None => None,
        }
    }

    /// The UUID text of the id.
    pub open spec fn text(self) -> Seq<char> {
        uuid_text(self.value)
    }

    /// Reads the id from its UUID text.
    pub fn parse(text: &str) -> (id: Option<ExecutionRecordId>)
        ensures
            id == ExecutionRecordId::parsed(text@),
    {
        match parse_uuid(text) {
            Some(value) => Some(ExecutionRecordId { value }),
            None => None,
        }
    }

    /// Writes the UUID text of the id; reading that text back gives the id.
    pub fn to_text(&self) -> (text: String)
        ensures
            text@ == self.text(),
            Self::parsed(text@) == Some(*self),
    {
        format_uuid(self.value)
    }
}

/// Identifier of a workspace cookie.
#[derive(Clone, Copy, Debug, PartialEq, Eq, Structural, Hash)]
pub struct CookieId {
    pub value: u128,
}

impl CookieId {
    /// The id read from a text, if the text is a UUID.
    pub open spec fn parsed(text: Seq<char>) -> Option<CookieId> {
        match uuid_read(text) {
            Some(v) => Some(CookieId { value: v }),
            None => None,
        }
    }

    /// The UUID text of the id.
    pub open spec fn text(self) -> Seq<char> {
        uuid_text(self.value)
    }

    /// Reads the id from its UUID text.
    pub fn parse(text: &str) -> (id: Option<CookieId>)
        ensures
            id == CookieId::parsed(text@),
    {
        match parse_uuid(text) {
            Some(value) => Some(CookieId { value }),
            None => None,
        }
    }

    /// Writes the UUID text of the id; reading that text back gives the id.
    pub fn to_text(&self) -> (text: String)
        ensures
            text@ == self.text(),
            Self::parsed(text@) == Some(*self),
    {
        format_uuid(self.value)
    }
}

} // verus!
