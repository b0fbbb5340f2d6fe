//! The rules of the SQLite workspace store that do not touch the database:
//! what it accepts, how it encodes columns, how it reorders the collection
//! tree, what execution history it keeps, which migration snapshots it
//! rotates out, how cookie metadata is scoped, which workspace stays
//! selected after a deletion, which tab a saved request reopens in, which
//! folder moves would close a cycle, how a native backup's ids are remapped
//! on restore, where the folders of a Postman import go, how row columns are
//! read back and which cells a recoverable export redacts.
use vstd::prelude::*;
use crate::domain::{
    BodyFilePath, BodyFileReference, CookieDraft, CookieSameSite, MultipartPart, RequestBody,
    CollectionFolder, Environment, EnvironmentVariable, RequestContent, RequestDraft, RequestTab,
    RequestWorkspaceSnapshot, SavedRequest, VariableValue, WorkspaceCookie, ExecutionRecordResponse,
    OrderedField,
};
use crate::errors::{NativeBackupError, PostmanImportError, RequestError, WorkspaceError};
use crate::ids::{
    CollectionId, CookieId, EnvironmentId, ExecutionRecordId, RequestDraftId, RequestTabId, SavedRequestId,
    WorkspaceId,
};

verus! {

// ----- text -----

/// `c` has the Unicode `White_Space` property, which is what `char::is_whitespace` tests.
pub open spec fn is_unicode_whitespace(c: char) -> bool {
    let code = c as u32;
    ||| 0x09 <= code <= 0x0d
    ||| code == 0x20
    ||| code == 0x85
    ||| code == 0xa0
    ||| code == 0x1680
    ||| 0x2000 <= code <= 0x200a
    ||| code == 0x2028
    ||| code == 0x2029
    ||| code == 0x202f
    ||| code == 0x205f
    ||| code == 0x3000
}

/// Whether a character is Unicode white space.
pub fn is_whitespace(c: char) -> (answer: bool)
    ensures
        answer == is_unicode_whitespace(c),
{
    let code = c as u32;
    (0x09 <= code && code <= 0x0d) || code == 0x20 || code == 0x85 || code == 0xa0 || code
        == 0x1680 || (0x2000 <= code && code <= 0x200a) || code == 0x2028 || code == 0x2029
        || code == 0x202f || code == 0x205f || code == 0x3000
}

/// A text is blank when trimming its white space leaves nothing.
pub open spec fn is_blank_text(text: Seq<char>) -> bool {
    forall|i: int| 0 <= i < text.len() ==> is_unicode_whitespace(#[trigger] text[i])
}

/// Whether a text is empty once its white space is trimmed.
pub fn is_blank(text: &str) -> (blank: bool)
    ensures
        blank == is_blank_text(text@),
{
    let len = text.unicode_len();
    let mut i: usize = 0;
    while i < len
        invariant
            len == text@.len(),
            i <= len,
            forall|j: int| 0 <= j < i ==> is_unicode_whitespace(#[trigger] text@[j]),
        decreases len - i,
    {
        if !is_whitespace(text.get_char(i)) {
            return false;
        }
        i = i + 1;
    }
    true
}

/// Whether two texts hold the same characters.
pub fn same_text(a: &str, b: &str) -> (same: bool)
    ensures
        same == (a@ == b@),
{
    let len = a.unicode_len();
    if len != b.unicode_len() {
        return false;
    }
    let mut i: usize = 0;
    while i < len
        invariant
            len == a@.len(),
            len == b@.len(),
            i <= len,
            forall|j: int| 0 <= j < i ==> #[trigger] a@[j] == b@[j],
        decreases len - i,
    {
        if a.get_char(i) != b.get_char(i) {
            return false;
        }
        i = i + 1;
    }
    assert(a@ =~= b@);
    true
}

// ----- what the store accepts -----

/// The detail of the refusal of request content, if it is refused.
pub open spec fn request_content_refusal(content: RequestContent) -> Option<Seq<char>> {
    if is_blank_text(content.name@) {
        Some("name.required"@)
    } else if is_blank_text(content.method@) {
        Some("method.required"@)
    } else {
        None
    }
}

/// `result` refuses with `InvalidInput` exactly when `refusal` names a detail.
pub open spec fn accepted_unless(result: Result<(), RequestError>, refusal: Option<Seq<char>>) -> bool {
    match refusal {
        None => result is Ok,
        Some(detail) => result matches Err(RequestError::InvalidInput(text)) && text@ == detail,
    }
}

/// Refuses request content without a name or a method.
pub fn validate_request_content(content: &RequestContent) -> (result: Result<(), RequestError>)
    ensures
        accepted_unless(result, request_content_refusal(*content)),
{
    if is_blank(content.name.as_str()) {
        return Err(RequestError::InvalidInput("name.required".to_owned()));
    }
    if is_blank(content.method.as_str()) {
        return Err(RequestError::InvalidInput("method.required".to_owned()));
    }
    Ok(())
}

/// Refuses a blank collection folder name.
pub fn validate_collection_name(name: &str) -> (result: Result<(), RequestError>)
    ensures
        accepted_unless(
            result,
            if is_blank_text(name@) {
                Some("collection.name.required"@)
            } else {
                None
            },
        ),
{
    if is_blank(name) {
        return Err(RequestError::InvalidInput("collection.name.required".to_owned()));
    }
    Ok(())
}

/// The detail of the refusal of cookie metadata, if it is refused.
pub open spec fn cookie_metadata_refusal(draft: CookieDraft) -> Option<Seq<char>> {
    if is_blank_text(draft.name@) {
        Some("cookie.name.required"@)
    } else if is_blank_text(draft.domain@) {
        Some("cookie.domain.required"@)
    } else if !(draft.path@.len() > 0 && draft.path@[0] == '/') {
        Some("cookie.path.invalid"@)
    } else {
        None
    }
}

/// Refuses a cookie without a name or a domain, or whose path does not start with `/`.
pub fn validate_cookie_metadata(draft: &CookieDraft) -> (result: Result<(), RequestError>)
    ensures
        accepted_unless(result, cookie_metadata_refusal(*draft)),
{
    if is_blank(draft.name.as_str()) {
        return Err(RequestError::InvalidInput("cookie.name.required".to_owned()));
    }
    if is_blank(draft.domain.as_str()) {
        return Err(RequestError::InvalidInput("cookie.domain.required".to_owned()));
    }
    let path = draft.path.as_str();
    if !(path.unicode_len() > 0 && path.get_char(0) == '/') {
        return Err(RequestError::InvalidInput("cookie.path.invalid".to_owned()));
    }
    Ok(())
}

// ----- column encodings -----

/// A boolean as the store's integer column holds it.
pub fn bool_to_i64(value: bool) -> (column: i64)
    ensures
        column == (if value {
            1int
        } else {
            0int
        }),
{
    if value {
        1
    } else {
        0
    }
}

/// The text the store keeps for a SameSite attribute.
pub open spec fn cookie_same_site_text(value: CookieSameSite) -> Seq<char> {
    match value {
        CookieSameSite::Strict => "strict"@,
        CookieSameSite::Lax => "lax"@,
        CookieSameSite::NoRestriction => "none"@,
    }
}

/// The column text of a SameSite attribute.
pub fn cookie_same_site_to_sql(value: CookieSameSite) -> (text: &'static str)
    ensures
        text@ == cookie_same_site_text(value),
{
    match value {
        CookieSameSite::Strict => "strict",
        CookieSameSite::Lax => "lax",
        CookieSameSite::NoRestriction => "none",
    }
}

/// The SameSite attribute a column text names, if it names one.
pub open spec fn cookie_same_site_named(text: Seq<char>) -> Option<CookieSameSite> {
    if text == "strict"@ {
        Some(CookieSameSite::Strict)
    } else if text == "lax"@ {
        Some(CookieSameSite::Lax)
    } else if text == "none"@ {
        Some(CookieSameSite::NoRestriction)
    } else {
        None
    }
}

/// Reads a SameSite column; any other text is a corrupt row.
pub fn cookie_same_site_from_sql(value: &str) -> (same_site: Option<CookieSameSite>)
    ensures
        same_site == cookie_same_site_named(value@),
{
    if same_text(value, "strict") {
        Some(CookieSameSite::Strict)
    } else if same_text(value, "lax") {
        Some(CookieSameSite::Lax)
    } else if same_text(value, "none") {
        Some(CookieSameSite::NoRestriction)
    } else {
        None
    }
}

/// Every SameSite attribute reads back from the text the store keeps for it.
pub proof fn lemma_cookie_same_site_round_trip(value: CookieSameSite)
    ensures
        cookie_same_site_named(cookie_same_site_text(value)) == Some(value),
{
    reveal_strlit("strict");
    reveal_strlit("lax");
    reveal_strlit("none");
    assert("strict"@.len() == 6);
    assert("lax"@.len() == 3);
    assert("none"@.len() == 4);
}

/// The plain-value and secret-reference columns of a variable value: exactly one is set.
pub fn variable_value_columns(value: &VariableValue) -> (columns: (Option<&str>, Option<&str>))
    ensures
        match *value {
            VariableValue::Plain(text) => columns.1 is None && (columns.0 matches Some(column)
                && column@ == text@),
            VariableValue::SecretReference(reference) => columns.0 is None && (columns.1 matches Some(
                column,
            ) && column@ == reference@),
        },
{
    match value {
        VariableValue::Plain(text) => (Some(text.as_str()), None),
        VariableValue::SecretReference(reference) => (None, Some(reference.as_str())),
    }
}

// ----- relinking body files -----

/// The path text of a body file, relative or absolute.
pub open spec fn body_file_path_text(file: BodyFileReference) -> Seq<char> {
    match file.path {
        BodyFilePath::Relative { path } => path@,
        BodyFilePath::Absolute { path } => path@,
    }
}

/// Whether a body file is the one found at `from_path`.
pub fn body_file_path_matches(file: &BodyFileReference, from_path: &str) -> (matches: bool)
    ensures
        matches == (body_file_path_text(*file) == from_path@),
{
    match &file.path {
        BodyFilePath::Relative { path } => same_text(path.as_str(), from_path),
        BodyFilePath::Absolute { path } => same_text(path.as_str(), from_path),
    }
}

fn copy_body_file_path(path: &BodyFilePath) -> (copy: BodyFilePath)
    ensures
        copy == *path,
{
    match path {
        BodyFilePath::Relative { path } => BodyFilePath::Relative { path: path.clone() },
        BodyFilePath::Absolute { path } => BodyFilePath::Absolute { path: path.clone() },
    }
}

fn copy_body_file_reference(file: &BodyFileReference) -> (copy: BodyFileReference)
    ensures
        copy == *file,
{
    BodyFileReference {
        path: copy_body_file_path(&file.path),
        file_name: file.file_name.clone(),
        size: file.size,
        modified_at_epoch_seconds: file.modified_at_epoch_seconds,
        sha256: file.sha256.clone(),
    }
}

/// A multipart part that is a file found at `from_path`.
pub open spec fn part_refers_to(part: MultipartPart, from_path: Seq<char>) -> bool {
    part matches MultipartPart::File { file, .. } && body_file_path_text(file) == from_path
}

/// A multipart part with the file at `from_path` replaced.
pub open spec fn relinked_part(
    part: MultipartPart,
    from_path: Seq<char>,
    replacement: BodyFileReference,
) -> MultipartPart {
    match part {
        MultipartPart::File { enabled, order, name, file } => if body_file_path_text(file)
            == from_path {
            MultipartPart::File { enabled, order, name, file: replacement }
        } else {
            part
        },
        MultipartPart::Field { .. } => part,
    }
}

/// `after` is `before` with every body file found at `from_path` replaced, and `changed`
/// says whether there was one.
pub open spec fn relinked_body(
    before: RequestBody,
    after: RequestBody,
    changed: bool,
    from_path: Seq<char>,
    replacement: BodyFileReference,
) -> bool {
    match before {
        RequestBody::Binary { file } => if body_file_path_text(file) == from_path {
            after == RequestBody::Binary { file: replacement } && changed
        } else {
            after == before && !changed
        },
        RequestBody::Multipart { parts } => {
            &&& after matches RequestBody::Multipart { parts: new_parts }
            &&& new_parts.len() == parts.len()
            &&& forall|j: int|
                0 <= j < parts.len() ==> new_parts[j] == relinked_part(
                    #[trigger] parts[j],
                    from_path,
                    replacement,
                )
            &&& changed == exists|j: int| 0 <= j < parts.len() && part_refers_to(#[trigger] parts[j], from_path)
        },
        _ => after == before && !changed,
    }
}

fn relinked_parts(parts: &Vec<MultipartPart>, from_path: &str, replacement: &BodyFileReference) -> (result:
    (Vec<MultipartPart>, bool))
    ensures
        result.0.len() == parts.len(),
        forall|j: int|
            0 <= j < parts.len() ==> result.0[j] == relinked_part(
                #[trigger] parts[j],
                from_path@,
                *replacement,
            ),
        result.1 == exists|j: int| 0 <= j < parts.len() && part_refers_to(#[trigger] parts[j], from_path@),
{
    let mut relinked: Vec<MultipartPart> = Vec::new();
    let mut changed = false;
    let mut i: usize = 0;
    while i < parts.len()
        invariant
            i <= parts.len(),
            relinked.len() == i,
            forall|j: int|
                0 <= j < i ==> relinked[j] == relinked_part(#[trigger] parts[j], from_path@, *replacement),
            changed == exists|j: int| 0 <= j < i && part_refers_to(#[trigger] parts[j], from_path@),
        decreases parts.len() - i,
    {
        let part = &parts[i];
        let next = match part {
            MultipartPart::File { enabled, order, name, file } => {
                if body_file_path_matches(file, from_path) {
                    changed = true;
                    MultipartPart::File {
                        enabled: *enabled,
                        order: *order,
                        name: name.clone(),
                        file: copy_body_file_reference(replacement),
                    }
                } else {
                    MultipartPart::File {
                        enabled: *enabled,
                        order: *order,
                        name: name.clone(),
                        file: copy_body_file_reference(file),
                    }
                }
            },
            MultipartPart::Field { enabled, order, name, value } => MultipartPart::Field {
                enabled: *enabled,
                order: *order,
                name: name.clone(),
                value: value.clone(),
            },
        };
        relinked.push(next);
        proof {
            if part_refers_to(parts[i as int], from_path@) {
                assert(0 <= i < i + 1);
            }
        }
        i = i + 1;
    }
    (relinked, changed)
}

/// Replaces every body file found at `from_path` by `replacement`; answers whether one was.
pub fn replace_body_file_reference(
    body: &mut RequestBody,
    from_path: &str,
    replacement: &BodyFileReference,
) -> (changed: bool)
    ensures
        relinked_body(*old(body), *final(body), changed, from_path@, *replacement),
{
    let mut taken = RequestBody::Empty;
    std::mem::swap(&mut taken, body);
    match taken {
        RequestBody::Binary { file } => {
            if body_file_path_matches(&file, from_path) {
                *body = RequestBody::Binary { file: copy_body_file_reference(replacement) };
                true
            } else {
                *body = RequestBody::Binary { file };
                false
            }
        },
        RequestBody::Multipart { parts } => {
            let (relinked, changed) = relinked_parts(&parts, from_path, replacement);
            *body = RequestBody::Multipart { parts: relinked };
            changed
        },
        other => {
            *body = other;
            false
        },
    }
}

/// Whether a body sends a file found at `from_path`.
pub open spec fn body_refers_to(body: RequestBody, from_path: Seq<char>) -> bool {
    match body {
        RequestBody::Binary { file } => body_file_path_text(file) == from_path,
        RequestBody::Multipart { parts } => exists|j: int|
            0 <= j < parts.len() && part_refers_to(#[trigger] parts[j], from_path),
        _ => false,
    }
}

/// Relinking reports a change exactly when the body sent a file from the old path, and
/// afterwards it sends none from there, unless the replacement itself lies at that path.
pub proof fn lemma_relinking_leaves_no_file_at_the_old_path(
    before: RequestBody,
    after: RequestBody,
    changed: bool,
    from_path: Seq<char>,
    replacement: BodyFileReference,
)
    requires
        relinked_body(before, after, changed, from_path, replacement),
    ensures
        changed == body_refers_to(before, from_path),
        body_file_path_text(replacement) != from_path ==> !body_refers_to(after, from_path),
{
    if let RequestBody::Multipart { parts } = before {
        if let RequestBody::Multipart { parts: new_parts } = after {
            if body_file_path_text(replacement) != from_path {
                assert forall|j: int| 0 <= j < new_parts.len() implies !part_refers_to(
                    #[trigger] new_parts[j],
                    from_path,
                ) by {
                    assert(new_parts[j] == relinked_part(parts[j], from_path, replacement));
                }
            }
        }
    }
}

// ----- failures seen by imports and backups -----

/// A failure of the request store as a Postman import reports it; a missing or already open
/// entity becomes an invalid reference.
pub fn postman_request_error(error: RequestError) -> (mapped: PostmanImportError)
    ensures
        match error {
            RequestError::WorkspaceNotFound => mapped is WorkspaceNotFound,
            RequestError::InvalidInput(detail) => mapped matches PostmanImportError::InvalidInput(
                text,
            ) && text == detail,
            RequestError::Persistence(message) => mapped matches PostmanImportError::Persistence(
                text,
            ) && text == message,
            RequestError::NotFound | RequestError::SavedRequestAlreadyOpen => mapped matches PostmanImportError::InvalidInput(
                text,
            ) && text@ == "postman.import.invalidReference"@,
        },
{
    match error {
        RequestError::WorkspaceNotFound => PostmanImportError::WorkspaceNotFound,
        RequestError::InvalidInput(detail) => PostmanImportError::InvalidInput(detail),
        RequestError::Persistence(message) => PostmanImportError::Persistence(message),
        RequestError::NotFound | RequestError::SavedRequestAlreadyOpen => PostmanImportError::InvalidInput(
            "postman.import.invalidReference".to_owned(),
        ),
    }
}

/// A failure of the request store as a native backup reports it; a missing or already open
/// entity makes the archive invalid.
pub fn native_backup_request_error(error: RequestError) -> (mapped: NativeBackupError)
    ensures
        match error {
            RequestError::WorkspaceNotFound => mapped is WorkspaceNotFound,
            RequestError::InvalidInput(detail) => mapped matches NativeBackupError::InvalidInput(
                text,
            ) && text == detail,
            RequestError::Persistence(message) => mapped matches NativeBackupError::Persistence(
                text,
            ) && text == message,
            RequestError::NotFound | RequestError::SavedRequestAlreadyOpen => mapped matches NativeBackupError::InvalidArchive(
                text,
            ) && text@ == "backup.reference.invalid"@,
        },
{
    match error {
        RequestError::WorkspaceNotFound => NativeBackupError::WorkspaceNotFound,
        RequestError::InvalidInput(detail) => NativeBackupError::InvalidInput(detail),
        RequestError::Persistence(message) => NativeBackupError::Persistence(message),
        RequestError::NotFound | RequestError::SavedRequestAlreadyOpen => NativeBackupError::InvalidArchive(
            "backup.reference.invalid".to_owned(),
        ),
    }
}

// ----- ordering of the collection tree -----

/// A move of a folder or a saved request from one place of the collection tree to another.
#[derive(Clone, Copy, Debug, PartialEq, Eq, Structural)]
pub struct TreePositionMove {
    pub old_parent_id: Option<CollectionId>,
    pub old_position: u32,
    pub new_parent_id: Option<CollectionId>,
    pub new_position: u32,
}

/// An entry of the collection tree: the parent it sits under and its position there.
#[derive(Clone, Copy, Debug, PartialEq, Eq, Structural)]
pub struct TreeEntry {
    pub parent_id: Option<CollectionId>,
    pub position: i64,
}

/// The position a move gives to another entry at `position` under `parent`: within one
/// parent the entries between the two places slide by one toward the old place; across
/// parents the entries after the old place close the gap and those from the new place on
/// make room.
pub open spec fn shifted_position(
    position_move: TreePositionMove,
    parent: Option<CollectionId>,
    position: int,
) -> int {
    let old = position_move.old_position as int;
    let new = position_move.new_position as int;
    if position_move.old_parent_id == position_move.new_parent_id {
        if parent != position_move.old_parent_id {
            position
        } else if new < old && new <= position < old {
            position + 1
        } else if new > old && old < position <= new {
            position - 1
        } else {
            position
        }
    } else if parent == position_move.old_parent_id && position > old {
        position - 1
    } else if parent == position_move.new_parent_id && position >= new {
        position + 1
    } else {
        position
    }
}

/// Positions that fit a signed 64-bit column with room to move by one.
pub open spec fn shiftable(entries: Seq<TreeEntry>) -> bool {
    forall|j: int| 0 <= j < entries.len() ==> 0 <= #[trigger] entries[j].position < i64::MAX
}

/// Slides the entries of the tree to make way for a move; the moved entry itself is placed
/// by the caller afterwards.
pub fn shift_tree_positions(position_move: &TreePositionMove, entries: &mut Vec<TreeEntry>)
    requires
        shiftable(old(entries)@),
    ensures
        final(entries).len() == old(entries).len(),
        forall|j: int|
            0 <= j < old(entries).len() ==> (#[trigger] final(entries)[j]).parent_id == old(
                entries,
            )[j].parent_id && final(entries)[j].position == shifted_position(
                *position_move,
                old(entries)[j].parent_id,
                old(entries)[j].position as int,
            ),
{
    let old_position = position_move.old_position as i64;
    let new_position = position_move.new_position as i64;
    let same_parent = position_move.old_parent_id == position_move.new_parent_id;
    let mut i: usize = 0;
    while i < entries.len()
        invariant
            i <= entries.len(),
            entries.len() == old(entries).len(),
            shiftable(old(entries)@),
            old_position == position_move.old_position,
            new_position == position_move.new_position,
            same_parent == (position_move.old_parent_id == position_move.new_parent_id),
            forall|j: int|
                0 <= j < i ==> (#[trigger] entries[j]).parent_id == old(entries)[j].parent_id
                    && entries[j].position == shifted_position(
                    *position_move,
                    old(entries)[j].parent_id,
                    old(entries)[j].position as int,
                ),
            forall|j: int| i <= j < entries.len() ==> #[trigger] entries[j] == old(entries)[j],
        decreases entries.len() - i,
    {
        let entry = entries[i];
        let position = entry.position;
        let shifted = if same_parent {
            if entry.parent_id != position_move.old_parent_id {
                position
            } else if new_position < old_position && new_position <= position && position
                < old_position {
                position + 1
            } else if new_position > old_position && old_position < position && position
                <= new_position {
                position - 1
            } else {
                position
            }
        } else if entry.parent_id == position_move.old_parent_id && position > old_position {
            position - 1
        } else if entry.parent_id == position_move.new_parent_id && position >= new_position {
            position + 1
        } else {
            position
        };
        entries.set(i, TreeEntry { parent_id: entry.parent_id, position: shifted });
        i = i + 1;
    }
}

/// Makes room at `position` under `parent_id`: every entry there from that position on moves
/// one further.
pub fn make_tree_position_space(
    entries: &mut Vec<TreeEntry>,
    parent_id: Option<CollectionId>,
    position: u32,
)
    requires
        shiftable(old(entries)@),
    ensures
        final(entries).len() == old(entries).len(),
        forall|j: int|
            0 <= j < old(entries).len() ==> (#[trigger] final(entries)[j]).parent_id == old(
                entries,
            )[j].parent_id && final(entries)[j].position == (if old(entries)[j].parent_id
                == parent_id {
                spaced_position(position as int, old(entries)[j].position as int)
            } else {
                old(entries)[j].position as int
            }),
{
    let threshold = position as i64;
    let mut i: usize = 0;
    while i < entries.len()
        invariant
            i <= entries.len(),
            entries.len() == old(entries).len(),
            shiftable(old(entries)@),
            threshold == position,
            forall|j: int|
                0 <= j < i ==> (#[trigger] entries[j]).parent_id == old(entries)[j].parent_id
                    && entries[j].position == (if old(entries)[j].parent_id == parent_id && old(
                    entries,
                )[j].position >= position {
                    old(entries)[j].position + 1
                } else {
                    old(entries)[j].position as int
                }),
            forall|j: int| i <= j < entries.len() ==> #[trigger] entries[j] == old(entries)[j],
        decreases entries.len() - i,
    {
        let entry = entries[i];
        if entry.parent_id == parent_id && entry.position >= threshold {
            entries.set(i, TreeEntry { parent_id: entry.parent_id, position: entry.position + 1 });
        }
        i = i + 1;
    }
}

/// The positions of the entries under one parent are 0, 1, ... up to their count, each once.
pub open spec fn contiguous(positions: Seq<int>) -> bool {
    &&& forall|i: int| 0 <= i < positions.len() ==> 0 <= #[trigger] positions[i] < positions.len()
    &&& forall|i: int, j: int|
        0 <= i < positions.len() && 0 <= j < positions.len() && i != j ==> #[trigger] positions[i]
            != #[trigger] positions[j]
}

/// The name a duplicated folder gets: the source's name followed by ` Copy`.
pub fn duplicate_folder_name(name: &str) -> (copy: String)
    ensures
        copy@ == name@ + " Copy"@,
{
    String::from_str(name).concat(" Copy")
}

/// Where a duplicated folder goes: right after its source, saturating at the last position.
pub fn duplicate_folder_position(position: u32) -> (next: u32)
    ensures
        next == (if position < u32::MAX {
            position + 1
        } else {
            position as int
        }),
{
    if position < u32::MAX {
        position + 1
    } else {
        position
    }
}

/// The position making room at `position` gives to a sibling at `at`.
pub open spec fn spaced_position(position: int, at: int) -> int {
    if at >= position {
        at + 1
    } else {
        at
    }
}

/// Making room at a place no further than the end of a parent's contiguous entries, and
/// putting a new entry there, keeps that parent's positions contiguous and the other
/// entries in their order.
pub proof fn lemma_insertion_keeps_positions_contiguous(siblings: Seq<int>, position: int)
    requires
        contiguous(siblings),
        0 <= position <= siblings.len(),
    ensures
        contiguous(siblings.map_values(|at: int| spaced_position(position, at)).push(position)),
        forall|i: int, j: int|
            0 <= i < siblings.len() && 0 <= j < siblings.len() && #[trigger] siblings[i]
                < #[trigger] siblings[j] ==> spaced_position(position, siblings[i])
                < spaced_position(position, siblings[j]),
{
    let spaced = siblings.map_values(|at: int| spaced_position(position, at)).push(position);
    assert forall|i: int| 0 <= i < spaced.len() implies 0 <= #[trigger] spaced[i] < spaced.len() by {
        if i < siblings.len() {
            assert(0 <= siblings[i] < siblings.len());
        }
    }
    assert forall|i: int, j: int|
        0 <= i < spaced.len() && 0 <= j < spaced.len() && i != j implies #[trigger] spaced[i]
        != #[trigger] spaced[j] by {
        if i < siblings.len() && j < siblings.len() {
            assert(siblings[i] != siblings[j]);
        }
    }
}

/// Moving an entry to another place under the same parent keeps the positions of that
/// parent's entries contiguous: the shifted siblings and the moved entry at its new place
/// use each of 0, 1, ... exactly once, and the other entries keep their order.
pub proof fn lemma_move_within_parent_keeps_positions_contiguous(
    position_move: TreePositionMove,
    siblings: Seq<int>,
    moved: int,
)
    requires
        position_move.old_parent_id == position_move.new_parent_id,
        contiguous(siblings),
        0 <= moved < siblings.len(),
        siblings[moved] == position_move.old_position,
        position_move.new_position < siblings.len(),
    ensures
        contiguous(
            Seq::new(
                siblings.len(),
                |i: int|
                    if i == moved {
                        position_move.new_position as int
                    } else {
                        shifted_position(position_move, position_move.old_parent_id, siblings[i])
                    },
            ),
        ),
        forall|i: int, j: int|
            0 <= i < siblings.len() && 0 <= j < siblings.len() && i != moved && j != moved
                && #[trigger] siblings[i] < #[trigger] siblings[j] ==> shifted_position(
                position_move,
                position_move.old_parent_id,
                siblings[i],
            ) < shifted_position(position_move, position_move.old_parent_id, siblings[j]),
{
    let after = Seq::new(
        siblings.len(),
        |i: int|
            if i == moved {
                position_move.new_position as int
            } else {
                shifted_position(position_move, position_move.old_parent_id, siblings[i])
            },
    );
    assert forall|i: int| 0 <= i < after.len() implies 0 <= #[trigger] after[i] < after.len() by {
        if i != moved {
            assert(siblings[i] != siblings[moved]);
        }
    }
    assert forall|i: int, j: int|
        0 <= i < after.len() && 0 <= j < after.len() && i != j implies #[trigger] after[i]
        != #[trigger] after[j] by {
        assert(siblings[i] != siblings[j]);
        if i != moved {
            assert(siblings[i] != siblings[moved]);
        }
        if j != moved {
            assert(siblings[j] != siblings[moved]);
        }
    }
}

/// Moving an entry to another parent keeps both parents' positions contiguous: the old
/// parent's remaining entries close the gap, and the new parent's entries with the moved
/// one at its new place use each of 0, 1, ... exactly once, for a new place no further than
/// the end; the entries of both parents keep their order.
pub proof fn lemma_move_across_parents_keeps_positions_contiguous(
    position_move: TreePositionMove,
    old_siblings: Seq<int>,
    moved: int,
    new_siblings: Seq<int>,
)
    requires
        position_move.old_parent_id != position_move.new_parent_id,
        contiguous(old_siblings),
        0 <= moved < old_siblings.len(),
        old_siblings[moved] == position_move.old_position,
        contiguous(new_siblings),
        position_move.new_position <= new_siblings.len(),
    ensures
        contiguous(
            old_siblings.remove(moved).map_values(
                |p: int| shifted_position(position_move, position_move.old_parent_id, p),
            ),
        ),
        contiguous(
            new_siblings.map_values(
                |p: int| shifted_position(position_move, position_move.new_parent_id, p),
            ).push(position_move.new_position as int),
        ),
        forall|i: int, j: int|
            0 <= i < old_siblings.len() && 0 <= j < old_siblings.len() && i != moved && j != moved
                && #[trigger] old_siblings[i] < #[trigger] old_siblings[j] ==> shifted_position(
                position_move,
                position_move.old_parent_id,
                old_siblings[i],
            ) < shifted_position(position_move, position_move.old_parent_id, old_siblings[j]),
        forall|i: int, j: int|
            0 <= i < new_siblings.len() && 0 <= j < new_siblings.len() && #[trigger] new_siblings[i]
                < #[trigger] new_siblings[j] ==> shifted_position(
                position_move,
                position_move.new_parent_id,
                new_siblings[i],
            ) < shifted_position(position_move, position_move.new_parent_id, new_siblings[j]),
{
    let rest = old_siblings.remove(moved);
    let closed = rest.map_values(
        |p: int| shifted_position(position_move, position_move.old_parent_id, p),
    );
    assert forall|i: int| 0 <= i < rest.len() implies rest[i] == old_siblings[if i < moved {
        i
    } else {
        i + 1
    }] && rest[i] != old_siblings[moved] by {
        let k = if i < moved {
            i
        } else {
            i + 1
        };
        assert(old_siblings[k] != old_siblings[moved]);
    }
    assert forall|i: int| 0 <= i < closed.len() implies 0 <= #[trigger] closed[i] < closed.len() by {
        assert(rest[i] != old_siblings[moved]);
    }
    assert forall|i: int, j: int|
        0 <= i < closed.len() && 0 <= j < closed.len() && i != j implies #[trigger] closed[i]
        != #[trigger] closed[j] by {
        let ki = if i < moved {
            i
        } else {
            i + 1
        };
        let kj = if j < moved {
            j
        } else {
            j + 1
        };
        assert(old_siblings[ki] != old_siblings[kj]);
        assert(rest[i] != old_siblings[moved]);
        assert(rest[j] != old_siblings[moved]);
    }
    let opened = new_siblings.map_values(
        |p: int| shifted_position(position_move, position_move.new_parent_id, p),
    ).push(position_move.new_position as int);
    assert forall|i: int| 0 <= i < opened.len() implies 0 <= #[trigger] opened[i] < opened.len() by {
        if i < new_siblings.len() {
            assert(0 <= new_siblings[i] < new_siblings.len());
        }
    }
    assert forall|i: int, j: int|
        0 <= i < opened.len() && 0 <= j < opened.len() && i != j implies #[trigger] opened[i]
        != #[trigger] opened[j] by {
        if i < new_siblings.len() && j < new_siblings.len() {
            assert(new_siblings[i] != new_siblings[j]);
        }
    }
}

/// The parents whose children get renumbered: those found, and the root when it was not.
fn with_root_parent(found: Vec<Option<CollectionId>>) -> (parents: Vec<Option<CollectionId>>)
    ensures
        found@.contains(None) ==> parents@ == found@,
        !found@.contains(None) ==> parents@ == found@.push(None),
{
    let mut parents = found;
    let mut has_root = false;
    let mut i: usize = 0;
    while i < parents.len()
        invariant
            i <= parents.len(),
            parents@ == found@,
            has_root == exists|j: int| 0 <= j < i && #[trigger] parents@[j] is None,
        decreases parents.len() - i,
    {
        if parents[i].is_none() {
            has_root = true;
        }
        i = i + 1;
    }
    if !has_root {
        proof {
            assert forall|j: int| 0 <= j < found@.len() implies #[trigger] found@[j] != None::<
                CollectionId,
            > by {
                assert(!(parents@[j] is None));
            }
        }
        parents.push(None);
    } else {
        proof {
            let j = choose|j: int| 0 <= j < i && #[trigger] parents@[j] is None;
            assert(found@[j] == None::<CollectionId>);
        }
    }
    parents
}

/// The parent folders whose folders get renumbered, given the distinct parents the store
/// found: the root is always among them.
pub fn collection_parent_ids(found: Vec<Option<CollectionId>>) -> (parents: Vec<Option<CollectionId>>)
    ensures
        found@.contains(None) ==> parents@ == found@,
        !found@.contains(None) ==> parents@ == found@.push(None),
{
    with_root_parent(found)
}

/// The collections whose saved requests get renumbered, given the distinct collections the
/// store found: the root is always among them.
pub fn saved_request_collection_ids(found: Vec<Option<CollectionId>>) -> (collections: Vec<
    Option<CollectionId>,
>)
    ensures
        found@.contains(None) ==> collections@ == found@,
        !found@.contains(None) ==> collections@ == found@.push(None),
{
    with_root_parent(found)
}

/// Refuses an imported folder whose parent within the import was not created.
pub fn ensure_import_parent_present(has_import_parent: bool, parent_id: Option<CollectionId>) -> (result:
    Result<(), PostmanImportError>)
    ensures
        (has_import_parent && parent_id is None) <==> (result matches Err(
            PostmanImportError::InvalidInput(detail),
        ) && detail@ == "postman.collection.parent.missing"@),
        !(has_import_parent && parent_id is None) ==> result is Ok,
{
    if has_import_parent && parent_id.is_none() {
        return Err(PostmanImportError::InvalidInput("postman.collection.parent.missing".to_owned()));
    }
    Ok(())
}

// ----- execution history retention -----

/// Unpinned execution records older than this many days are removed.
pub const EXECUTION_HISTORY_RETENTION_DAYS: i64 = 30;

/// At most this many unpinned execution records are kept per workspace.
pub const EXECUTION_HISTORY_RETENTION_LIMIT: usize = 1000;

/// The seconds of one day.
pub const SECONDS_PER_DAY: i64 = 86400;

/// The oldest creation time an unpinned record may have to stay, seen at `now`.
pub open spec fn retention_cutoff_at(now: int) -> int {
    now - EXECUTION_HISTORY_RETENTION_DAYS * SECONDS_PER_DAY
}

/// The creation time before which unpinned records are removed.
pub fn retention_cutoff(now_epoch_seconds: i64) -> (cutoff: i64)
    requires
        retention_cutoff_at(now_epoch_seconds as int) >= i64::MIN,
    ensures
        cutoff == retention_cutoff_at(now_epoch_seconds as int),
{
    now_epoch_seconds - EXECUTION_HISTORY_RETENTION_DAYS * SECONDS_PER_DAY
}

/// What retention looks at of an execution record.
#[derive(Clone, Copy, Debug, PartialEq, Eq, Structural)]
pub struct HistoryEntry {
    pub id: ExecutionRecordId,
    pub created_at_epoch_seconds: i64,
    pub pinned: bool,
}

/// An unpinned record young enough to stay, as far as its age goes.
pub open spec fn in_window(entry: HistoryEntry, cutoff: int) -> bool {
    !entry.pinned && entry.created_at_epoch_seconds >= cutoff
}

/// `a` comes before `b` in the history: created later, or at the same second with a
/// greater id (ids order as their lowercase hyphenated text does).
pub open spec fn newer_than(a: HistoryEntry, b: HistoryEntry) -> bool {
    ||| a.created_at_epoch_seconds > b.created_at_epoch_seconds
    ||| (a.created_at_epoch_seconds == b.created_at_epoch_seconds && a.id.value > b.id.value)
}

/// How many of the indices below `n` satisfy `p`.
pub open spec fn count_where(n: int, p: spec_fn(int) -> bool) -> nat
    decreases n,
{
    if n <= 0 {
        0
    } else {
        count_where(n - 1, p) + if p(n - 1) {
            1nat
        } else {
            0nat
        }
    }
}

/// The records in the window that are newer than `entry`.
pub open spec fn newer_in_window(entries: Seq<HistoryEntry>, cutoff: int, entry: HistoryEntry) -> spec_fn(
    int,
) -> bool {
    |k: int| in_window(entries[k], cutoff) && newer_than(entries[k], entry)
}

/// The place of `entry` among the records in the window, counted from the newest.
pub open spec fn history_rank(entries: Seq<HistoryEntry>, cutoff: int, entry: HistoryEntry) -> nat {
    count_where(entries.len() as int, newer_in_window(entries, cutoff, entry))
}

/// The record at `i` stays: it is pinned, or it is in the window and among the newest
/// `EXECUTION_HISTORY_RETENTION_LIMIT` there.
pub open spec fn retained(entries: Seq<HistoryEntry>, cutoff: int, i: int) -> bool {
    ||| entries[i].pinned
    ||| (in_window(entries[i], cutoff) && history_rank(entries, cutoff, entries[i])
        < EXECUTION_HISTORY_RETENTION_LIMIT)
}

fn history_rank_of(entries: &Vec<HistoryEntry>, cutoff: i64, entry: HistoryEntry) -> (rank: usize)
    ensures
        rank == history_rank(entries@, cutoff as int, entry),
{
    let mut rank: usize = 0;
    let mut j: usize = 0;
    while j < entries.len()
        invariant
            j <= entries.len(),
            rank <= j,
            rank == count_where(j as int, newer_in_window(entries@, cutoff as int, entry)),
        decreases entries.len() - j,
    {
        let other = entries[j];
        let newer = other.created_at_epoch_seconds > entry.created_at_epoch_seconds || (
        other.created_at_epoch_seconds == entry.created_at_epoch_seconds && other.id.value
            > entry.id.value);
        if !other.pinned && other.created_at_epoch_seconds >= cutoff && newer {
            rank = rank + 1;
        }
        j = j + 1;
    }
    rank
}

/// Which execution records the history keeps after a record is added at `now`: the pinned
/// ones, and of the others those younger than the retention days and among the newest
/// `EXECUTION_HISTORY_RETENTION_LIMIT`. The answer is one flag per record, in order.
pub fn retained_execution_records(entries: &Vec<HistoryEntry>, now_epoch_seconds: i64) -> (kept: Vec<
    bool,
>)
    requires
        retention_cutoff_at(now_epoch_seconds as int) >= i64::MIN,
    ensures
        kept.len() == entries.len(),
        forall|i: int|
            0 <= i < entries.len() ==> #[trigger] kept[i] == retained(
                entries@,
                retention_cutoff_at(now_epoch_seconds as int),
                i,
            ),
{
    let cutoff = retention_cutoff(now_epoch_seconds);
    let mut kept: Vec<bool> = Vec::new();
    let mut i: usize = 0;
    while i < entries.len()
        invariant
            i <= entries.len(),
            kept.len() == i,
            cutoff == retention_cutoff_at(now_epoch_seconds as int),
            forall|k: int| 0 <= k < i ==> #[trigger] kept[k] == retained(entries@, cutoff as int, k),
        decreases entries.len() - i,
    {
        let entry = entries[i];
        let keep = if entry.pinned {
            true
        } else if entry.created_at_epoch_seconds < cutoff {
            false
        } else {
            history_rank_of(entries, cutoff, entry) < EXECUTION_HISTORY_RETENTION_LIMIT
        };
        kept.push(keep);
        i = i + 1;
    }
    kept
}

/// Counting indices that satisfy a predicate implied by another counts at least as many.
pub proof fn lemma_count_where_monotone(n: int, p: spec_fn(int) -> bool, q: spec_fn(int) -> bool)
    requires
        forall|i: int| 0 <= i < n && #[trigger] p(i) ==> q(i),
    ensures
        count_where(n, p) <= count_where(n, q),
    decreases n,
{
    if n > 0 {
        lemma_count_where_monotone(n - 1, p, q);
    }
}

/// Leaving one satisfying index out of a predicate counts one fewer.
pub proof fn lemma_count_where_without(n: int, p: spec_fn(int) -> bool, q: spec_fn(int) -> bool, m: int)
    requires
        0 <= m < n,
        p(m),
        forall|i: int| 0 <= i < n ==> #[trigger] q(i) == (p(i) && i != m),
    ensures
        count_where(n, p) == count_where(n, q) + 1,
    decreases n,
{
    if n - 1 == m {
        lemma_count_where_same(n - 1, p, q);
    } else {
        lemma_count_where_without(n - 1, p, q, m);
    }
}

/// Predicates that agree below `n` count the same there.
pub proof fn lemma_count_where_same(n: int, p: spec_fn(int) -> bool, q: spec_fn(int) -> bool)
    requires
        forall|i: int| 0 <= i < n ==> #[trigger] p(i) == q(i),
    ensures
        count_where(n, p) == count_where(n, q),
    decreases n,
{
    if n > 0 {
        lemma_count_where_same(n - 1, p, q);
    }
}

/// No two records share an id.
pub open spec fn distinct_ids(entries: Seq<HistoryEntry>) -> bool {
    forall|i: int, j: int|
        0 <= i < entries.len() && 0 <= j < entries.len() && i != j ==> #[trigger] entries[i].id
            != #[trigger] entries[j].id
}

/// The unpinned records that stay.
pub open spec fn kept_unpinned(entries: Seq<HistoryEntry>, cutoff: int) -> spec_fn(int) -> bool {
    |i: int|
        in_window(entries[i], cutoff) && history_rank(entries, cutoff, entries[i])
            < EXECUTION_HISTORY_RETENTION_LIMIT
}

/// The oldest of the unpinned records below `n` that stay, or -1 when there is none.
pub open spec fn oldest_kept_unpinned(entries: Seq<HistoryEntry>, cutoff: int, n: int) -> int
    decreases n,
{
    if n <= 0 {
        -1
    } else {
        let previous = oldest_kept_unpinned(entries, cutoff, n - 1);
        if kept_unpinned(entries, cutoff)(n - 1) && (previous < 0 || newer_than(
            entries[previous],
            entries[n - 1],
        )) {
            n - 1
        } else {
            previous
        }
    }
}

proof fn lemma_oldest_kept_unpinned(entries: Seq<HistoryEntry>, cutoff: int, n: int)
    requires
        distinct_ids(entries),
        0 <= n <= entries.len(),
    ensures
        ({
            let m = oldest_kept_unpinned(entries, cutoff, n);
            &&& m < 0 ==> forall|i: int| 0 <= i < n ==> !#[trigger] kept_unpinned(entries, cutoff)(i)
            &&& m >= 0 ==> {
                &&& m < n
                &&& kept_unpinned(entries, cutoff)(m)
                &&& forall|i: int|
                    0 <= i < n && i != m && #[trigger] kept_unpinned(entries, cutoff)(i)
                        ==> newer_than(entries[i], entries[m])
            }
        }),
    decreases n,
{
    if n > 0 {
        lemma_oldest_kept_unpinned(entries, cutoff, n - 1);
        let previous = oldest_kept_unpinned(entries, cutoff, n - 1);
        if previous >= 0 && n - 1 != previous {
            assert(entries[n - 1].id != entries[previous].id);
        }
    }
}

/// The history never keeps more unpinned records than `EXECUTION_HISTORY_RETENTION_LIMIT`.
pub proof fn lemma_retention_keeps_at_most_the_limit(entries: Seq<HistoryEntry>, cutoff: int)
    requires
        distinct_ids(entries),
    ensures
        count_where(entries.len() as int, kept_unpinned(entries, cutoff))
            <= EXECUTION_HISTORY_RETENTION_LIMIT,
{
    let n = entries.len() as int;
    let kept = kept_unpinned(entries, cutoff);
    lemma_oldest_kept_unpinned(entries, cutoff, n);
    let m = oldest_kept_unpinned(entries, cutoff, n);
    if m < 0 {
        let none = |i: int| false;
        lemma_count_where_monotone(n, kept, none);
        lemma_count_where_nothing(n, none);
    } else {
        let others = |i: int| kept(i) && i != m;
        lemma_count_where_without(n, kept, others, m);
        lemma_count_where_monotone(n, others, newer_in_window(entries, cutoff, entries[m]));
    }
}

proof fn lemma_count_where_nothing(n: int, none: spec_fn(int) -> bool)
    requires
        forall|i: int| !#[trigger] none(i),
    ensures
        count_where(n, none) == 0,
    decreases n,
{
    if n > 0 {
        lemma_count_where_nothing(n - 1, none);
    }
}

/// Pinned records always stay; unpinned records older than the cutoff never do.
pub proof fn lemma_retention_keeps_pinned_and_drops_expired(
    entries: Seq<HistoryEntry>,
    cutoff: int,
    i: int,
)
    requires
        0 <= i < entries.len(),
    ensures
        entries[i].pinned ==> retained(entries, cutoff, i),
        !entries[i].pinned && entries[i].created_at_epoch_seconds < cutoff ==> !retained(
            entries,
            cutoff,
            i,
        ),
{
}

/// The history keeps the newest: when an unpinned record stays, every newer unpinned
/// record in the window stays too.
pub proof fn lemma_retention_keeps_the_newest(
    entries: Seq<HistoryEntry>,
    cutoff: int,
    i: int,
    j: int,
)
    requires
        0 <= i < entries.len(),
        0 <= j < entries.len(),
        retained(entries, cutoff, i),
        !entries[i].pinned,
        in_window(entries[j], cutoff),
        newer_than(entries[j], entries[i]),
    ensures
        retained(entries, cutoff, j),
{
    lemma_count_where_monotone(
        entries.len() as int,
        newer_in_window(entries, cutoff, entries[j]),
        newer_in_window(entries, cutoff, entries[i]),
    );
}

// ----- schema migrations -----

/// The highest version among `versions`, or 0 when there is none.
pub open spec fn is_latest_version(versions: Seq<i64>, latest: i64) -> bool {
    if versions.len() == 0 {
        latest == 0
    } else {
        &&& versions.contains(latest)
        &&& forall|i: int| 0 <= i < versions.len() ==> #[trigger] versions[i] <= latest
    }
}

/// The newest schema version the migrations know, or 0 when there are none.
pub fn latest_migration_version(versions: &Vec<i64>) -> (latest: i64)
    ensures
        is_latest_version(versions@, latest),
{
    if versions.len() == 0 {
        return 0;
    }
    let mut latest = versions[0];
    let mut at: usize = 0;
    let mut i: usize = 1;
    while i < versions.len()
        invariant
            1 <= i <= versions.len(),
            at < i,
            latest == versions@[at as int],
            forall|j: int| 0 <= j < i ==> #[trigger] versions@[j] <= latest,
        decreases versions.len() - i,
    {
        if versions[i] > latest {
            latest = versions[i];
            at = i;
        }
        i = i + 1;
    }
    assert(versions@[at as int] == latest);
    latest
}

/// What a database needs before it is opened for writing.
#[derive(Clone, Copy, Debug, PartialEq, Eq, Structural)]
pub enum MigrationPreflight {
    /// Every known migration was applied.
    UpToDate,
    /// Some known migration is still to be applied; a snapshot is taken first.
    Pending,
    /// The database was written by a newer version; it is refused without writes.
    NewerSchema,
}

/// The preflight answer for a database with the `applied` versions, given the `known` ones.
pub open spec fn migration_preflight_of(applied: Seq<i64>, known: Seq<i64>, latest: i64) -> MigrationPreflight {
    if exists|i: int| 0 <= i < applied.len() && #[trigger] applied[i] > latest {
        MigrationPreflight::NewerSchema
    } else if exists|k: int| 0 <= k < known.len() && !applied.contains(#[trigger] known[k]) {
        MigrationPreflight::Pending
    } else {
        MigrationPreflight::UpToDate
    }
}

fn contains_version(versions: &Vec<i64>, version: i64) -> (found: bool)
    ensures
        found == versions@.contains(version),
{
    let mut i: usize = 0;
    while i < versions.len()
        invariant
            i <= versions.len(),
            forall|j: int| 0 <= j < i ==> #[trigger] versions@[j] != version,
        decreases versions.len() - i,
    {
        if versions[i] == version {
            assert(versions@[i as int] == version);
            return true;
        }
        i = i + 1;
    }
    false
}

/// Decides, from the versions a database has applied, whether it is refused as newer than
/// the known migrations, has migrations pending, or is up to date.
pub fn migration_preflight(applied: &Vec<i64>, known: &Vec<i64>) -> (preflight: MigrationPreflight)
    ensures
        exists|latest: i64|
            #[trigger] is_latest_version(known@, latest) && preflight == migration_preflight_of(
                applied@,
                known@,
                latest,
            ),
{
    let latest = latest_migration_version(known);
    let mut i: usize = 0;
    while i < applied.len()
        invariant
            i <= applied.len(),
            forall|j: int| 0 <= j < i ==> #[trigger] applied@[j] <= latest,
            is_latest_version(known@, latest),
        decreases applied.len() - i,
    {
        if applied[i] > latest {
            assert(is_latest_version(known@, latest));
            assert(migration_preflight_of(applied@, known@, latest) == MigrationPreflight::NewerSchema);
            return MigrationPreflight::NewerSchema;
        }
        i = i + 1;
    }
    let mut k: usize = 0;
    while k < known.len()
        invariant
            k <= known.len(),
            forall|j: int| 0 <= j < k ==> applied@.contains(#[trigger] known@[j]),
            forall|j: int| 0 <= j < applied.len() ==> #[trigger] applied@[j] <= latest,
            is_latest_version(known@, latest),
        decreases known.len() - k,
    {
        if !contains_version(applied, known[k]) {
            assert(!applied@.contains(known@[k as int]));
            assert(migration_preflight_of(applied@, known@, latest) == MigrationPreflight::Pending);
            return MigrationPreflight::Pending;
        }
        k = k + 1;
    }
    MigrationPreflight::UpToDate
}

// ----- pre-migration snapshots -----

/// How many pre-migration snapshots are kept.
pub const PRE_MIGRATION_SNAPSHOT_RETENTION: usize = 3;

/// `part` stands in `text` from `offset` on.
pub open spec fn text_at(text: Seq<char>, part: Seq<char>, offset: int) -> bool {
    &&& 0 <= offset
    &&& offset + part.len() <= text.len()
    &&& text.subrange(offset, offset + part.len()) == part
}

fn has_text_at(text: &str, part: &str, offset: usize) -> (found: bool)
    ensures
        found == text_at(text@, part@, offset as int),
{
    let n = text.unicode_len();
    let m = part.unicode_len();
    if offset > n || m > n - offset {
        return false;
    }
    let mut i: usize = 0;
    while i < m
        invariant
            n == text@.len(),
            m == part@.len(),
            offset + m <= n,
            i <= m,
            forall|j: int| 0 <= j < i ==> #[trigger] part@[j] == text@[offset + j],
        decreases m - i,
    {
        if text.get_char(offset + i) != part.get_char(i) {
            assert(text@.subrange(offset as int, offset + m)[i as int] != part@[i as int]);
            return false;
        }
        i = i + 1;
    }
    assert(text@.subrange(offset as int, offset + m) =~= part@);
    true
}

/// The name of a pre-migration snapshot of the database file `file_name`.
pub open spec fn pre_migration_snapshot_name(name: Seq<char>, file_name: Seq<char>) -> bool {
    &&& text_at(name, file_name + ".pre-migration-"@, 0)
    &&& name.len() >= ".snapshot"@.len()
    &&& text_at(name, ".snapshot"@, name.len() - ".snapshot"@.len())
}

/// Whether a file of the database's directory is one of its pre-migration snapshots.
pub fn is_pre_migration_snapshot_name(name: &str, file_name: &str) -> (snapshot: bool)
    ensures
        snapshot == pre_migration_snapshot_name(name@, file_name@),
{
    let marker = ".pre-migration-";
    let suffix = ".snapshot";
    let file_length = file_name.unicode_len();
    let name_length = name.unicode_len();
    let suffix_length = suffix.unicode_len();
    let prefixed = has_text_at(name, file_name, 0) && has_text_at(name, marker, file_length);
    proof {
        let whole = file_name@ + marker@;
        if text_at(name@, whole, 0) {
            assert forall|j: int| 0 <= j < file_name@.len() implies name@.subrange(
                0,
                file_length as int,
            )[j] == file_name@[j] by {
                assert(name@.subrange(0, whole.len() as int)[j] == whole[j]);
            }
            assert(name@.subrange(0, file_length as int) =~= file_name@);
            assert forall|j: int| 0 <= j < marker@.len() implies name@.subrange(
                file_length as int,
                file_length + marker@.len(),
            )[j] == marker@[j] by {
                assert(name@.subrange(0, whole.len() as int)[file_length + j] == whole[file_length
                    + j]);
            }
            assert(name@.subrange(file_length as int, file_length + marker@.len()) =~= marker@);
        }
        if prefixed {
            assert(name@.subrange(0, whole.len() as int) =~= whole);
        }
    }
    prefixed && name_length >= suffix_length && has_text_at(name, suffix, name_length - suffix_length)
}

/// How many of the oldest snapshots are removed so that the newest ones kept fit the
/// retention.
pub fn snapshots_to_remove(count: usize) -> (remove: usize)
    ensures
        remove == (if count > PRE_MIGRATION_SNAPSHOT_RETENTION {
            count - PRE_MIGRATION_SNAPSHOT_RETENTION
        } else {
            0
        }),
{
    if count > PRE_MIGRATION_SNAPSHOT_RETENTION {
        count - PRE_MIGRATION_SNAPSHOT_RETENTION
    } else {
        0
    }
}

/// `a` comes before `b` when their characters are compared by code point from position
/// `i` on, a text coming before any longer text it begins.
pub open spec fn text_less_from(a: Seq<char>, b: Seq<char>, i: nat) -> bool
    decreases a.len() - i,
{
    if i >= a.len() {
        i < b.len()
    } else if i >= b.len() {
        false
    } else if a[i as int] != b[i as int] {
        (a[i as int] as u32) < (b[i as int] as u32)
    } else {
        text_less_from(a, b, i + 1)
    }
}

/// `a` comes before `b` in the order of their code points, which is the order of their
/// UTF-8 bytes and so the order in which file names are sorted.
pub open spec fn text_less(a: Seq<char>, b: Seq<char>) -> bool {
    text_less_from(a, b, 0)
}

/// No text of `texts` comes before one that precedes it.
pub open spec fn texts_sorted(texts: Seq<String>) -> bool {
    forall|i: int, j: int| 0 <= i < j < texts.len() ==> !text_less(#[trigger] texts[j]@, #[trigger] texts[i]@)
}

/// No text comes before itself.
pub proof fn lemma_text_less_irreflexive(a: Seq<char>, i: nat)
    ensures
        !text_less_from(a, a, i),
    decreases a.len() - i,
{
    if i < a.len() {
        lemma_text_less_irreflexive(a, i + 1);
    }
}

/// The order of texts is transitive.
pub proof fn lemma_text_less_transitive(a: Seq<char>, b: Seq<char>, c: Seq<char>, i: nat)
    requires
        text_less_from(a, b, i),
        text_less_from(b, c, i),
    ensures
        text_less_from(a, c, i),
    decreases a.len() - i,
{
    if i < a.len() && i < b.len() && i < c.len() && a[i as int] == b[i as int] && b[i as int]
        == c[i as int] {
        lemma_text_less_transitive(a, b, c, i + 1);
    }
}

/// Whether `a` comes before `b`.
pub fn text_precedes(a: &str, b: &str) -> (less: bool)
    ensures
        less == text_less(a@, b@),
{
    let n = a.unicode_len();
    let m = b.unicode_len();
    let mut i: usize = 0;
    while i < n && i < m && a.get_char(i) == b.get_char(i)
        invariant
            n == a@.len(),
            m == b@.len(),
            i <= n,
            i <= m,
            text_less(a@, b@) == text_less_from(a@, b@, i as nat),
        decreases n - i,
    {
        i = i + 1;
    }
    if i >= n {
        i < m
    } else if i >= m {
        false
    } else {
        let x = a.get_char(i);
        let y = b.get_char(i);
        (x as u32) < (y as u32)
    }
}

/// Sorts texts into the order of their code points.
pub fn sort_texts(texts: &Vec<String>) -> (sorted: Vec<String>)
    ensures
        sorted@.to_multiset() == texts@.to_multiset(),
        texts_sorted(sorted@),
{
    broadcast use vstd::seq_lib::group_to_multiset_ensures;

    let mut sorted: Vec<String> = Vec::new();
    let mut i: usize = 0;
    while i < texts.len()
        invariant
            i <= texts.len(),
            texts_sorted(sorted@),
            sorted@.to_multiset() == texts@.take(i as int).to_multiset(),
        decreases texts.len() - i,
    {
        let text = texts[i].clone();
        let mut p: usize = 0;
        while p < sorted.len() && !text_precedes(text.as_str(), sorted[p].as_str())
            invariant
                p <= sorted.len(),
                texts_sorted(sorted@),
                forall|k: int| 0 <= k < p ==> !text_less(text@, #[trigger] sorted@[k]@),
            decreases sorted.len() - p,
        {
            p = p + 1;
        }
        let ghost before = sorted@;
        proof {
            let after = before.insert(p as int, text);
            assert forall|a: int, b: int| 0 <= a < b < after.len() implies !text_less(
                #[trigger] after[b]@,
                #[trigger] after[a]@,
            ) by {
                if b == p {
                    assert(after[a] == before[a]);
                } else if a == p {
                    let later = before[b - 1];
                    assert(after[b] == later);
                    assert(text_less(text@, before[p as int]@));
                    if text_less(later@, text@) {
                        if b - 1 == p {
                            lemma_text_less_transitive(later@, text@, later@, 0);
                            lemma_text_less_irreflexive(later@, 0);
                        } else {
                            lemma_text_less_transitive(later@, text@, before[p as int]@, 0);
                        }
                    }
                } else if a < p {
                    assert(after[a] == before[a]);
                    if b < p {
                        assert(after[b] == before[b]);
                    } else {
                        assert(after[b] == before[b - 1]);
                    }
                } else {
                    assert(after[a] == before[a - 1]);
                    assert(after[b] == before[b - 1]);
                }
            }
            vstd::seq_lib::to_multiset_insert(before, p as int, text);
            assert(texts@.take(i + 1) =~= texts@.take(i as int).push(texts@[i as int]));
            vstd::seq_lib::to_multiset_build(texts@.take(i as int), texts@[i as int]);
            assert(text == texts@[i as int]);
        }
        sorted.insert(p, text);
        i = i + 1;
    }
    proof {
        assert(texts@.take(texts.len() as int) =~= texts@);
    }
    sorted
}

/// What rotating the pre-migration snapshots does: the snapshots kept, the newest, and
/// those removed, the older rest, each in sorted order.
pub struct SnapshotRotation {
    pub kept: Vec<String>,
    pub removed: Vec<String>,
}

/// Plans the rotation of the pre-migration snapshots with the given file names: they are
/// sorted, which puts the oldest first since each name holds the time it was taken, and
/// all but the newest ones that the retention keeps are removed.
pub fn plan_snapshot_rotation(names: &Vec<String>) -> (rotation: SnapshotRotation)
    ensures
        (rotation.removed@ + rotation.kept@).to_multiset() == names@.to_multiset(),
        texts_sorted(rotation.removed@ + rotation.kept@),
        rotation.kept.len() == (if names.len() > PRE_MIGRATION_SNAPSHOT_RETENTION {
            PRE_MIGRATION_SNAPSHOT_RETENTION as int
        } else {
            names.len() as int
        }),
{
    let sorted = sort_texts(names);
    proof {
        broadcast use vstd::seq_lib::group_to_multiset_ensures;

        assert(sorted@.len() == sorted@.to_multiset().len());
        assert(names@.len() == names@.to_multiset().len());
    }
    let remove = snapshots_to_remove(sorted.len());
    let mut removed: Vec<String> = Vec::new();
    let mut kept: Vec<String> = Vec::new();
    let mut i: usize = 0;
    while i < sorted.len()
        invariant
            i <= sorted.len(),
            remove <= sorted.len(),
            i <= remove ==> removed@ == sorted@.take(i as int) && kept@.len() == 0,
            i > remove ==> removed@ == sorted@.take(remove as int) && kept@ == sorted@.subrange(
                remove as int,
                i as int,
            ),
        decreases sorted.len() - i,
    {
        if i < remove {
            removed.push(sorted[i].clone());
            assert(removed@ =~= sorted@.take(i + 1));
        } else {
            kept.push(sorted[i].clone());
            assert(kept@ =~= sorted@.subrange(remove as int, i + 1));
        }
        i = i + 1;
    }
    assert(removed@ + kept@ =~= sorted@);
    SnapshotRotation { kept, removed }
}

/// Rotation keeps the newest snapshots: in the sorted order it leaves, no snapshot it
/// removes comes after one it keeps.
pub proof fn lemma_rotation_keeps_the_newest(removed: Seq<String>, kept: Seq<String>)
    requires
        texts_sorted(removed + kept),
    ensures
        forall|r: int, k: int|
            0 <= r < removed.len() && 0 <= k < kept.len() ==> !text_less(
                #[trigger] kept[k]@,
                #[trigger] removed[r]@,
            ),
{
    assert forall|r: int, k: int|
        0 <= r < removed.len() && 0 <= k < kept.len() implies !text_less(
            #[trigger] kept[k]@,
            #[trigger] removed[r]@,
        ) by {
        let all = removed + kept;
        assert(all[r] == removed[r]);
        assert(all[removed.len() + k] == kept[k]);
    }
}

// ----- recoverable exports -----

/// Calls `String::push`.
///
/// Claims: the character is appended at the end of the text, which is what the
/// method's documentation says.
#[verifier::external_body]
pub(crate) fn push_char(text: &mut String, c: char)
    ensures
        final(text)@ == old(text)@.push(c),
{
    text.push(c);
}

/// A column of a recovered table whose values are secrets and are not exported.
pub open spec fn secret_column(column: Seq<char>) -> bool {
    ||| column == "password"@
    ||| column == "token"@
    ||| column == "client_secret"@
    ||| column == "secret_ref"@
    ||| column == "client_key_reference"@
    ||| column == "custom_ca_reference"@
    ||| column == "client_certificate_reference"@
}

/// Whether a recovered column holds secrets.
pub fn is_secret_column(column: &str) -> (secret: bool)
    ensures
        secret == secret_column(column@),
{
    same_text(column, "password") || same_text(column, "token") || same_text(
        column,
        "client_secret",
    ) || same_text(column, "secret_ref") || same_text(column, "client_key_reference")
        || same_text(column, "custom_ca_reference") || same_text(
        column,
        "client_certificate_reference",
    )
}

/// `text` with every `quote` written twice.
pub open spec fn doubled(text: Seq<char>, quote: char) -> Seq<char>
    decreases text.len(),
{
    if text.len() == 0 {
        Seq::empty()
    } else {
        let rest = doubled(text.drop_last(), quote);
        if text.last() == quote {
            rest.push(quote).push(quote)
        } else {
            rest.push(text.last())
        }
    }
}

/// `text` between two `quote`s, with the quotes inside it doubled.
pub open spec fn quoted(text: Seq<char>, quote: char) -> Seq<char> {
    seq![quote] + doubled(text, quote) + seq![quote]
}

fn quote_text(value: &str, quote: char) -> (text: String)
    ensures
        text@ == quoted(value@, quote),
{
    let mut text = String::new();
    push_char(&mut text, quote);
    let n = value.unicode_len();
    let mut i: usize = 0;
    while i < n
        invariant
            n == value@.len(),
            i <= n,
            text@ == seq![quote] + doubled(value@.subrange(0, i as int), quote),
        decreases n - i,
    {
        let c = value.get_char(i);
        push_char(&mut text, c);
        if c == quote {
            push_char(&mut text, quote);
        }
        assert(value@.subrange(0, i + 1).drop_last() =~= value@.subrange(0, i as int));
        assert(text@ =~= seq![quote] + doubled(value@.subrange(0, i + 1), quote));
        i = i + 1;
    }
    assert(value@.subrange(0, n as int) =~= value@);
    push_char(&mut text, quote);
    assert(text@ =~= quoted(value@, quote));
    text
}

/// An SQL identifier in double quotes, inner double quotes doubled.
pub fn quote_identifier(value: &str) -> (identifier: String)
    ensures
        identifier@ == quoted(value@, '"'),
{
    quote_text(value, '"')
}

/// An SQL string literal in single quotes, inner single quotes doubled.
pub fn quote_string_literal(value: &str) -> (literal: String)
    ensures
        literal@ == quoted(value@, '\''),
{
    quote_text(value, '\'')
}

// ----- cookie domains -----

/// `text` without its leading white space.
pub open spec fn trim_start(text: Seq<char>) -> Seq<char>
    decreases text.len(),
{
    if text.len() > 0 && is_unicode_whitespace(text[0]) {
        trim_start(text.drop_first())
    } else {
        text
    }
}

/// `text` without its trailing white space.
pub open spec fn trim_end(text: Seq<char>) -> Seq<char>
    decreases text.len(),
{
    if text.len() > 0 && is_unicode_whitespace(text.last()) {
        trim_end(text.drop_last())
    } else {
        text
    }
}

/// `text` without its leading dots.
pub open spec fn trim_leading_dots(text: Seq<char>) -> Seq<char>
    decreases text.len(),
{
    if text.len() > 0 && text[0] == '.' {
        trim_leading_dots(text.drop_first())
    } else {
        text
    }
}

/// A character with an ASCII capital letter made small.
pub open spec fn ascii_lowercase(c: char) -> char {
    if 'A' <= c <= 'Z' {
        ((c as u32) + 32) as char
    } else {
        c
    }
}

/// The form a cookie domain is kept and compared in: trimmed, without leading dots, with
/// ASCII letters in lower case.
pub open spec fn normalized_cookie_domain(domain: Seq<char>) -> Seq<char> {
    trim_leading_dots(trim_end(trim_start(domain))).map_values(|c: char| ascii_lowercase(c))
}

/// Where the text left by trimming leading white space starts.
fn leading_whitespace_end(text: &str) -> (start: usize)
    ensures
        start <= text@.len(),
        text@.subrange(start as int, text@.len() as int) == trim_start(text@),
{
    let n = text.unicode_len();
    assert(text@.subrange(0, n as int) =~= text@);
    let mut start: usize = 0;
    while start < n && is_whitespace(text.get_char(start))
        invariant
            n == text@.len(),
            start <= n,
            trim_start(text@) == trim_start(text@.subrange(start as int, n as int)),
        decreases n - start,
    {
        assert(text@.subrange(start as int, n as int).drop_first() =~= text@.subrange(
            start + 1,
            n as int,
        ));
        start = start + 1;
    }
    start
}

/// Where the text left by trimming white space from both ends starts and ends.
fn trimmed_bounds(text: &str) -> (bounds: (usize, usize))
    ensures
        bounds.0 <= bounds.1 <= text@.len(),
        text@.subrange(bounds.0 as int, bounds.1 as int) == trim_end(trim_start(text@)),
{
    let n = text.unicode_len();
    let start = leading_whitespace_end(text);
    let mut end: usize = n;
    while end > start && is_whitespace(text.get_char(end - 1))
        invariant
            n == text@.len(),
            start <= end <= n,
            trim_start(text@) == text@.subrange(start as int, n as int),
            trim_end(text@.subrange(start as int, n as int)) == trim_end(
                text@.subrange(start as int, end as int),
            ),
        decreases end - start,
    {
        assert(text@.subrange(start as int, end as int).drop_last() =~= text@.subrange(
            start as int,
            end - 1,
        ));
        end = end - 1;
    }
    (start, end)
}

/// `text` with the white space at both ends trimmed.
pub fn trim_text(text: &str) -> (trimmed: String)
    ensures
        trimmed@ == trim_end(trim_start(text@)),
{
    let (start, end) = trimmed_bounds(text);
    let mut trimmed = String::new();
    let mut i: usize = start;
    while i < end
        invariant
            start <= i <= end <= text@.len(),
            trimmed@ == text@.subrange(start as int, i as int),
        decreases end - i,
    {
        push_char(&mut trimmed, text.get_char(i));
        assert(trimmed@ =~= text@.subrange(start as int, i + 1));
        i = i + 1;
    }
    trimmed
}

/// Normalizes a cookie domain.
pub fn normalize_cookie_domain(domain: &str) -> (normalized: String)
    ensures
        normalized@ == normalized_cookie_domain(domain@),
{
    let n = domain.unicode_len();
    let (start, end) = trimmed_bounds(domain);
    let mut first: usize = start;
    while first < end && domain.get_char(first) == '.'
        invariant
            n == domain@.len(),
            start <= first <= end <= n,
            trim_leading_dots(domain@.subrange(start as int, end as int)) == trim_leading_dots(
                domain@.subrange(first as int, end as int),
            ),
        decreases end - first,
    {
        assert(domain@.subrange(first as int, end as int).drop_first() =~= domain@.subrange(
            first + 1,
            end as int,
        ));
        first = first + 1;
    }
    let kept = Ghost(domain@.subrange(first as int, end as int));
    assert(normalized_cookie_domain(domain@) == kept@.map_values(|c: char| ascii_lowercase(c)));
    let mut normalized = String::new();
    let mut i: usize = first;
    while i < end
        invariant
            n == domain@.len(),
            first <= i <= end <= n,
            kept@ == domain@.subrange(first as int, end as int),
            normalized@ == domain@.subrange(first as int, i as int).map_values(
                |c: char| ascii_lowercase(c),
            ),
        decreases end - i,
    {
        let c = domain.get_char(i);
        let lower = if 'A' <= c && c <= 'Z' {
            let code: u8 = (c as u32 + 32) as u8;
            code as char
        } else {
            c
        };
        push_char(&mut normalized, lower);
        assert(normalized@ =~= domain@.subrange(first as int, i + 1).map_values(
            |c: char| ascii_lowercase(c),
        ));
        i = i + 1;
    }
    assert(normalized@ =~= kept@.map_values(|c: char| ascii_lowercase(c)));
    normalized
}

// ----- cookie metadata -----

/// A cookie with this expiry is gone at `now`: session cookies never expire this way.
pub open spec fn cookie_expired_at(expires_at_epoch_seconds: Option<i64>, now: int) -> bool {
    expires_at_epoch_seconds matches Some(at) && at <= now
}

/// Whether a cookie with this expiry is gone at `now_epoch_seconds`.
pub fn is_cookie_expired(expires_at_epoch_seconds: Option<i64>, now_epoch_seconds: i64) -> (expired:
    bool)
    ensures
        expired == cookie_expired_at(expires_at_epoch_seconds, now_epoch_seconds as int),
{
    match expires_at_epoch_seconds {
        Some(at) => at <= now_epoch_seconds,
        None => false,
    }
}

/// The scope a cookie is kept under within its workspace: one cookie per scope.
pub struct CookieScope {
    pub name: String,
    pub domain: String,
    pub path: String,
}

/// `scope` is where `draft` is kept: the name trimmed, the domain normalized, the path as is.
pub open spec fn cookie_scope_of(scope: CookieScope, draft: CookieDraft) -> bool {
    &&& scope.name@ == trim_end(trim_start(draft.name@))
    &&& scope.domain@ == normalized_cookie_domain(draft.domain@)
    &&& scope.path@ == draft.path@
}

/// What storing cookie metadata does.
pub enum CookieUpsert {
    /// The cookie is already expired: whatever is kept under its scope is removed, and the
    /// cookie is answered as not found.
    Expired { scope: CookieScope },
    /// The cookie is stored under its scope; a cookie without expiry lasts the session.
    Store { scope: CookieScope, session: bool },
}

/// Decides what storing cookie metadata does at `now_epoch_seconds`: metadata without a
/// name or a domain, or with a path not starting with `/`, is refused; an expired cookie is
/// removed; any other is stored.
pub fn plan_cookie_upsert(draft: &CookieDraft, now_epoch_seconds: i64) -> (plan: Result<
    CookieUpsert,
    RequestError,
>)
    ensures
        cookie_metadata_refusal(*draft) is Some ==> accepted_unless(
            match plan {
                Ok(_) => Ok(()),
                Err(error) => Err(error),
            },
            cookie_metadata_refusal(*draft),
        ),
        cookie_metadata_refusal(*draft) is None ==> match plan {
            Ok(CookieUpsert::Expired { scope }) => cookie_expired_at(
                draft.expires_at_epoch_seconds,
                now_epoch_seconds as int,
            ) && cookie_scope_of(scope, *draft),
            Ok(CookieUpsert::Store { scope, session }) => !cookie_expired_at(
                draft.expires_at_epoch_seconds,
                now_epoch_seconds as int,
            ) && cookie_scope_of(scope, *draft) && session == (draft.expires_at_epoch_seconds is None),
            Err(_) => false,
        },
{
    match validate_cookie_metadata(draft) {
        Ok(()) => {},
        Err(error) => {
            return Err(error);
        },
    }
    let scope = CookieScope {
        name: trim_text(draft.name.as_str()),
        domain: normalize_cookie_domain(draft.domain.as_str()),
        path: draft.path.clone(),
    };
    if is_cookie_expired(draft.expires_at_epoch_seconds, now_epoch_seconds) {
        Ok(CookieUpsert::Expired { scope })
    } else {
        Ok(CookieUpsert::Store { scope, session: draft.expires_at_epoch_seconds.is_none() })
    }
}

// ----- deleting a workspace -----

/// The workspace selected once `id` is deleted from the workspaces listed in creation order,
/// or the refusal: an unknown workspace is not found, and the last one is kept.
pub open spec fn workspace_deletion_of(
    workspaces: Seq<WorkspaceId>,
    selected: WorkspaceId,
    id: WorkspaceId,
) -> Result<WorkspaceId, WorkspaceError> {
    if !workspaces.contains(id) {
        Err(WorkspaceError::NotFound)
    } else if workspaces.len() <= 1 {
        Err(WorkspaceError::CannotDeleteLastWorkspace)
    } else if selected == id {
        Ok(workspaces[first_other_index(workspaces, id, 0)])
    } else {
        Ok(selected)
    }
}

/// The first index from `from` on whose workspace is not `id`.
pub open spec fn first_other_index(workspaces: Seq<WorkspaceId>, id: WorkspaceId, from: int) -> int
    decreases workspaces.len() - from,
{
    if from >= workspaces.len() || workspaces[from] != id {
        from
    } else {
        first_other_index(workspaces, id, from + 1)
    }
}

/// Decides the deletion of a workspace: which one is selected afterwards (the first other
/// one, in creation order, when the selected one goes), or why it is refused.
pub fn plan_workspace_deletion(workspaces: &Vec<WorkspaceId>, selected: WorkspaceId, id: WorkspaceId) -> (outcome:
    Result<WorkspaceId, WorkspaceError>)
    requires
        forall|i: int, j: int|
            0 <= i < workspaces.len() && 0 <= j < workspaces.len() && i != j ==> #[trigger] workspaces@[i]
                != #[trigger] workspaces@[j],
    ensures
        match (outcome, workspace_deletion_of(workspaces@, selected, id)) {
            (Ok(next), Ok(expected)) => next == expected,
            (Err(WorkspaceError::NotFound), Err(WorkspaceError::NotFound)) => true,
            (
                Err(WorkspaceError::CannotDeleteLastWorkspace),
                Err(WorkspaceError::CannotDeleteLastWorkspace),
            ) => true,
            _ => false,
        },
        workspaces@.contains(id) && workspaces.len() >= 2 ==> outcome is Ok,
        outcome matches Err(WorkspaceError::CannotDeleteLastWorkspace) ==> workspaces.len() == 1
            && workspaces@[0] == id,
        !workspaces@.contains(id) ==> outcome matches Err(WorkspaceError::NotFound),
{
    let mut found = false;
    let mut i: usize = 0;
    while i < workspaces.len()
        invariant
            i <= workspaces.len(),
            found == exists|j: int| 0 <= j < i && workspaces@[j] == id,
        decreases workspaces.len() - i,
    {
        if workspaces[i] == id {
            found = true;
        }
        i = i + 1;
    }
    if !found {
        return Err(WorkspaceError::NotFound);
    }
    if workspaces.len() <= 1 {
        return Err(WorkspaceError::CannotDeleteLastWorkspace);
    }
    if selected != id {
        return Ok(selected);
    }
    let mut k: usize = 0;
    while k < workspaces.len() && workspaces[k] == id
        invariant
            k <= workspaces.len(),
            first_other_index(workspaces@, id, 0) == first_other_index(workspaces@, id, k as int),
        decreases workspaces.len() - k,
    {
        k = k + 1;
    }
    proof {
        if k >= workspaces.len() {
            lemma_first_other_index_skips(workspaces@, id, 0);
            assert(workspaces@[0] != workspaces@[1]);
        }
    }
    Ok(workspaces[k])
}

proof fn lemma_first_other_index_skips(workspaces: Seq<WorkspaceId>, id: WorkspaceId, from: int)
    requires
        0 <= from,
    ensures
        forall|m: int| from <= m < first_other_index(workspaces, id, from) ==> workspaces[m] == id,
        from <= first_other_index(workspaces, id, from),
        first_other_index(workspaces, id, from) < workspaces.len() ==> workspaces[first_other_index(
            workspaces,
            id,
            from,
        )] != id,
    decreases workspaces.len() - from,
{
    if from < workspaces.len() && workspaces[from] == id {
        lemma_first_other_index_skips(workspaces, id, from + 1);
    }
}

/// Deleting a workspace never leaves the selection on it: the workspace selected afterwards
/// is one of the remaining ones, and it only changes when the selected one was deleted.
/// Only the very last workspace is protected: deleting a workspace that is listed among two
/// or more is never refused, an unlisted one is not found, and the refusal as the last
/// workspace comes exactly when the list holds that one workspace alone.
pub proof fn lemma_deletion_refuses_only_the_last_workspace(
    workspaces: Seq<WorkspaceId>,
    selected: WorkspaceId,
    id: WorkspaceId,
)
    ensures
        workspaces.contains(id) && workspaces.len() >= 2 ==> workspace_deletion_of(
            workspaces,
            selected,
            id,
        ) is Ok,
        !workspaces.contains(id) ==> workspace_deletion_of(workspaces, selected, id) matches Err(
            WorkspaceError::NotFound,
        ),
        workspace_deletion_of(workspaces, selected, id) matches Err(
            WorkspaceError::CannotDeleteLastWorkspace,
        ) <==> (workspaces.len() == 1 && workspaces[0] == id),
{
    if workspaces.len() == 1 && workspaces[0] == id {
        assert(workspaces.contains(id));
    }
    if workspaces.len() == 1 && workspaces.contains(id) {
        let k = choose|k: int| 0 <= k < workspaces.len() && workspaces[k] == id;
        assert(k == 0);
    }
}

/// Deleting the selected workspace selects the first workspace listed, in creation order,
/// that is not the one deleted: every workspace listed before it is the deleted one.
pub proof fn lemma_deleting_the_selected_selects_the_first_other(workspaces: Seq<WorkspaceId>, id: WorkspaceId)
    requires
        forall|i: int, j: int|
            0 <= i < workspaces.len() && 0 <= j < workspaces.len() && i != j ==> #[trigger] workspaces[i]
                != #[trigger] workspaces[j],
    ensures
        workspace_deletion_of(workspaces, id, id) matches Ok(next) ==> exists|i: int|
            0 <= i < workspaces.len() && #[trigger] workspaces[i] == next && next != id && forall|j: int|
                0 <= j < i ==> #[trigger] workspaces[j] == id,
{
    if workspaces.contains(id) && workspaces.len() > 1 {
        lemma_first_other_index_skips(workspaces, id, 0);
        let r = first_other_index(workspaces, id, 0);
        if r >= workspaces.len() {
            assert(workspaces[0] != workspaces[1]);
        }
        assert(workspaces[r] != id);
        assert(forall|j: int| 0 <= j < r ==> #[trigger] workspaces[j] == id);
    }
}

pub proof fn lemma_deletion_selects_a_remaining_workspace(
    workspaces: Seq<WorkspaceId>,
    selected: WorkspaceId,
    id: WorkspaceId,
)
    requires
        forall|i: int, j: int|
            0 <= i < workspaces.len() && 0 <= j < workspaces.len() && i != j ==> #[trigger] workspaces[i]
                != #[trigger] workspaces[j],
        workspaces.contains(selected),
    ensures
        workspace_deletion_of(workspaces, selected, id) matches Ok(next) ==> next != id
            && workspaces.contains(next) && (selected != id ==> next == selected),
{
    if workspaces.contains(id) && workspaces.len() > 1 && selected == id {
        lemma_first_other_index_skips(workspaces, id, 0);
        let r = first_other_index(workspaces, id, 0);
        if r >= workspaces.len() {
            assert(workspaces[0] != workspaces[1]);
        }
        assert(workspaces[r] != id);
    }
}

// ----- encoded columns -----

/// What a stored body column holds: JSON to decode, or a body read directly.
pub enum StoredRequestBody {
    /// The column holds a JSON-encoded body.
    Encoded(String),
    /// The column held a body written before bodies were encoded.
    Decoded(RequestBody),
}

/// Reads a stored body column: text starting with `{` (after leading white space) is an
/// encoded body, an empty column is no body, and other text is a raw body written before
/// bodies were encoded.
pub fn request_body_from_sql(value: String) -> (stored: StoredRequestBody)
    ensures
        trim_start(value@).len() > 0 && trim_start(value@)[0] == '{' ==> stored == StoredRequestBody::Encoded(value),
        !(trim_start(value@).len() > 0 && trim_start(value@)[0] == '{') && value@.len() == 0
            ==> stored == StoredRequestBody::Decoded(RequestBody::Empty),
        !(trim_start(value@).len() > 0 && trim_start(value@)[0] == '{') && value@.len() > 0
            ==> stored == StoredRequestBody::Decoded(RequestBody::Raw { content: value }),
{
    let start = leading_whitespace_end(value.as_str());
    let n = value.as_str().unicode_len();
    if start < n && value.as_str().get_char(start) == '{' {
        StoredRequestBody::Encoded(value)
    } else if n == 0 {
        StoredRequestBody::Decoded(RequestBody::Empty)
    } else {
        StoredRequestBody::Decoded(RequestBody::Raw { content: value })
    }
}

/// Reads a stored policy column: a blank column stands for the default policy, any other
/// holds the encoded policy.
pub fn stored_policy_json(value: String) -> (encoded: Option<String>)
    ensures
        is_blank_text(value@) ==> encoded is None,
        !is_blank_text(value@) ==> encoded == Some(value),
{
    if is_blank(value.as_str()) {
        None
    } else {
        Some(value)
    }
}

// ----- opening saved requests -----

/// The first tab, in order, that shows the saved request `saved_request_id`.
pub open spec fn tab_showing(tabs: Seq<RequestTab>, saved_request_id: SavedRequestId) -> Option<
    RequestTabId,
>
    decreases tabs.len(),
{
    if tabs.len() == 0 {
        None
    } else if tabs[0].saved_request_id == Some(saved_request_id) {
        Some(tabs[0].id)
    } else {
        tab_showing(tabs.drop_first(), saved_request_id)
    }
}

/// The tab that already shows a saved request: opening the request again activates it
/// instead of opening a second one.
pub fn existing_saved_request_tab(tabs: &Vec<RequestTab>, saved_request_id: SavedRequestId) -> (tab:
    Option<RequestTabId>)
    ensures
        tab == tab_showing(tabs@, saved_request_id),
{
    assert(tabs@.subrange(0, tabs.len() as int) =~= tabs@);
    let mut i: usize = 0;
    while i < tabs.len()
        invariant
            i <= tabs.len(),
            tab_showing(tabs@, saved_request_id) == tab_showing(
                tabs@.subrange(i as int, tabs.len() as int),
                saved_request_id,
            ),
        decreases tabs.len() - i,
    {
        assert(tabs@.subrange(i as int, tabs.len() as int).drop_first() =~= tabs@.subrange(
            i + 1,
            tabs.len() as int,
        ));
        if tabs[i].saved_request_id == Some(saved_request_id) {
            return Some(tabs[i].id);
        }
        i = i + 1;
    }
    None
}

// ----- moving folders -----

/// A folder of the collection tree and the folder it sits in, if any.
#[derive(Clone, Copy, Debug, PartialEq, Eq, Structural)]
pub struct FolderParent {
    pub id: CollectionId,
    pub parent_id: Option<CollectionId>,
}

/// The parent of the folder `id` as the first row for it says, or `None` when no row does.
pub open spec fn parent_of(folders: Seq<FolderParent>, id: CollectionId) -> Option<Option<CollectionId>>
    decreases folders.len(),
{
    if folders.len() == 0 {
        None
    } else if folders[0].id == id {
        Some(folders[0].parent_id)
    } else {
        parent_of(folders.drop_first(), id)
    }
}

/// Walking up from `cursor` ends, within `fuel` steps, at the root or at an unknown folder.
pub open spec fn reaches_root(folders: Seq<FolderParent>, cursor: Option<CollectionId>, fuel: nat) -> bool
    decreases fuel,
{
    match cursor {
        None => true,
        Some(id) => fuel > 0 && match parent_of(folders, id) {
            None => true,
            Some(parent) => reaches_root(folders, parent, (fuel - 1) as nat),
        },
    }
}

/// Whether walking up from `cursor` meets `ancestor` within `fuel` steps; `None` when the
/// walk meets a folder that has no row.
pub open spec fn descends_within(
    folders: Seq<FolderParent>,
    cursor: Option<CollectionId>,
    ancestor: CollectionId,
    fuel: nat,
) -> Option<bool>
    decreases fuel,
{
    match cursor {
        None => Some(false),
        Some(id) => if id == ancestor {
            Some(true)
        } else if fuel == 0 {
            Some(false)
        } else {
            match parent_of(folders, id) {
                None => None,
                Some(parent) => descends_within(folders, parent, ancestor, (fuel - 1) as nat),
            }
        },
    }
}

fn find_parent(folders: &Vec<FolderParent>, id: CollectionId) -> (parent: Option<Option<CollectionId>>)
    ensures
        parent == parent_of(folders@, id),
{
    assert(folders@.subrange(0, folders.len() as int) =~= folders@);
    let mut i: usize = 0;
    while i < folders.len()
        invariant
            i <= folders.len(),
            parent_of(folders@, id) == parent_of(folders@.subrange(i as int, folders.len() as int), id),
        decreases folders.len() - i,
    {
        assert(folders@.subrange(i as int, folders.len() as int).drop_first() =~= folders@.subrange(
            i + 1,
            folders.len() as int,
        ));
        if folders[i].id == id {
            return Some(folders[i].parent_id);
        }
        i = i + 1;
    }
    None
}

/// Whether the folder `collection_id` (the root when absent) lies inside `ancestor_id`,
/// itself included; a folder met on the way that has no row is not found.
pub fn collection_descends_from(
    folders: &Vec<FolderParent>,
    collection_id: Option<CollectionId>,
    ancestor_id: CollectionId,
) -> (descends: Result<bool, RequestError>)
    requires
        reaches_root(folders@, collection_id, folders.len() as nat),
    ensures
        match descends_within(folders@, collection_id, ancestor_id, folders.len() as nat) {
            Some(answer) => descends == Ok::<bool, RequestError>(answer),
            None => descends matches Err(RequestError::NotFound),
        },
{
    let mut cursor = collection_id;
    let mut fuel: usize = folders.len();
    loop
        invariant
            reaches_root(folders@, cursor, fuel as nat),
            descends_within(folders@, collection_id, ancestor_id, folders.len() as nat)
                == descends_within(folders@, cursor, ancestor_id, fuel as nat),
        decreases fuel,
    {
        match cursor {
            None => {
                return Ok(false);
            },
            Some(id) => {
                if id == ancestor_id {
                    return Ok(true);
                }
                match find_parent(folders, id) {
                    None => {
                        return Err(RequestError::NotFound);
                    },
                    Some(parent) => {
                        cursor = parent;
                        fuel = fuel - 1;
                    },
                }
            },
        }
    }
}

/// Refuses to move the folder `collection_id` into itself or into a folder inside it.
pub fn check_folder_move(
    folders: &Vec<FolderParent>,
    collection_id: CollectionId,
    target: Option<CollectionId>,
) -> (checked: Result<(), RequestError>)
    requires
        reaches_root(folders@, target, folders.len() as nat),
    ensures
        target == Some(collection_id) ==> (checked matches Err(RequestError::InvalidInput(detail))
            && detail@ == "collection.cycle"@),
        target != Some(collection_id) ==> match descends_within(
            folders@,
            target,
            collection_id,
            folders.len() as nat,
        ) {
            Some(true) => checked matches Err(RequestError::InvalidInput(detail)) && detail@
                == "collection.cycle"@,
            Some(false) => checked is Ok,
            None => checked matches Err(RequestError::NotFound),
        },
{
    let cycle = if target == Some(collection_id) {
        true
    } else {
        match collection_descends_from(folders, target, collection_id) {
            Ok(descends) => descends,
            Err(error) => {
                return Err(error);
            },
        }
    };
    if cycle {
        return Err(RequestError::InvalidInput("collection.cycle".to_owned()));
    }
    Ok(())
}

/// The folder rows after the folder `id` is moved under `target`.
pub open spec fn moved_folders(
    folders: Seq<FolderParent>,
    id: CollectionId,
    target: Option<CollectionId>,
) -> Seq<FolderParent> {
    folders.map_values(
        |row: FolderParent|
            if row.id == id {
                FolderParent { id: row.id, parent_id: target }
            } else {
                row
            },
    )
}

proof fn lemma_moved_parent_of(
    folders: Seq<FolderParent>,
    id: CollectionId,
    target: Option<CollectionId>,
    x: CollectionId,
)
    ensures
        parent_of(moved_folders(folders, id, target), x) == if x == id && parent_of(folders, x) is Some {
            Some(target)
        } else {
            parent_of(folders, x)
        },
    decreases folders.len(),
{
    if folders.len() > 0 {
        assert(moved_folders(folders, id, target).drop_first() =~= moved_folders(
            folders.drop_first(),
            id,
            target,
        ));
        lemma_moved_parent_of(folders.drop_first(), id, target, x);
    }
}

proof fn lemma_walk_avoiding_moved_folder(
    folders: Seq<FolderParent>,
    id: CollectionId,
    target: Option<CollectionId>,
    cursor: Option<CollectionId>,
    fuel: nat,
)
    requires
        descends_within(folders, cursor, id, fuel) == Some(false),
        reaches_root(folders, cursor, fuel),
    ensures
        reaches_root(moved_folders(folders, id, target), cursor, fuel),
    decreases fuel,
{
    if let Some(c) = cursor {
        lemma_moved_parent_of(folders, id, target, c);
        if let Some(parent) = parent_of(folders, c) {
            lemma_walk_avoiding_moved_folder(folders, id, target, parent, (fuel - 1) as nat);
        }
    }
}

/// A move that passes the cycle check leaves the tree a tree: from the moved folder, walking
/// up through the parents reaches the root.
pub proof fn lemma_checked_move_keeps_the_tree_acyclic(
    folders: Seq<FolderParent>,
    id: CollectionId,
    target: Option<CollectionId>,
)
    requires
        parent_of(folders, id) is Some,
        reaches_root(folders, target, folders.len() as nat),
        target != Some(id),
        descends_within(folders, target, id, folders.len() as nat) == Some(false),
    ensures
        reaches_root(moved_folders(folders, id, target), Some(id), (folders.len() + 1) as nat),
{
    lemma_moved_parent_of(folders, id, target, id);
    lemma_walk_avoiding_moved_folder(folders, id, target, target, folders.len() as nat);
}

// ----- restoring a native backup -----

/// The fresh ids a restore gives to the entities of a backup, one per entity, in order.
pub struct FreshBackupIds {
    pub collections: Vec<CollectionId>,
    pub environments: Vec<EnvironmentId>,
    pub saved_requests: Vec<SavedRequestId>,
    pub drafts: Vec<RequestDraftId>,
}

/// A restored folder: its fresh id and the fresh id of its parent.
#[derive(Clone, Copy, Debug, PartialEq, Eq, Structural)]
pub struct RestoredFolder {
    pub id: CollectionId,
    pub parent_id: Option<CollectionId>,
}

/// A restored saved request: its fresh id and the fresh id of its collection.
#[derive(Clone, Copy, Debug, PartialEq, Eq, Structural)]
pub struct RestoredSavedRequest {
    pub id: SavedRequestId,
    pub collection_id: Option<CollectionId>,
}

/// A restored draft: its fresh id and the fresh id of the saved request it edits.
#[derive(Clone, Copy, Debug, PartialEq, Eq, Structural)]
pub struct RestoredDraft {
    pub id: RequestDraftId,
    pub saved_request_id: Option<SavedRequestId>,
}

/// A restored tab: the fresh ids of its draft and of the saved request it shows.
#[derive(Clone, Copy, Debug, PartialEq, Eq, Structural)]
pub struct RestoredTab {
    pub draft_id: RequestDraftId,
    pub saved_request_id: Option<SavedRequestId>,
}

/// The ids a restore writes, entity by entity in the order of the backup: folders,
/// environments, the environment of each environment variable, saved requests, drafts and
/// tabs.
pub struct RestoredRequests {
    pub folders: Vec<RestoredFolder>,
    pub environments: Vec<EnvironmentId>,
    pub environment_variables: Vec<EnvironmentId>,
    pub saved_requests: Vec<RestoredSavedRequest>,
    pub drafts: Vec<RestoredDraft>,
    pub tabs: Vec<RestoredTab>,
}

/// The last index of `values` that holds `value`, or -1 when none does.
pub open spec fn last_index_of(values: Seq<u128>, value: u128) -> int
    decreases values.len(),
{
    if values.len() == 0 {
        -1
    } else if values.last() == value {
        values.len() - 1
    } else {
        last_index_of(values.drop_last(), value)
    }
}

/// The id values of the backup's folders, in order.
pub open spec fn folder_values(snapshot: RequestWorkspaceSnapshot) -> Seq<u128> {
    snapshot.collection_folders@.map_values(|folder: CollectionFolder| folder.id.value)
}

/// The id values of the backup's environments, in order.
pub open spec fn environment_values(snapshot: RequestWorkspaceSnapshot) -> Seq<u128> {
    snapshot.environments@.map_values(|environment: Environment| environment.id.value)
}

/// The id values of the backup's saved requests, in order.
pub open spec fn saved_request_values(snapshot: RequestWorkspaceSnapshot) -> Seq<u128> {
    snapshot.saved_requests@.map_values(|request: SavedRequest| request.id.value)
}

/// The id values of the backup's drafts, in order.
pub open spec fn draft_values(snapshot: RequestWorkspaceSnapshot) -> Seq<u128> {
    snapshot.drafts@.map_values(|draft: RequestDraft| draft.id.value)
}

/// The fresh id of the folder the backup calls `id`: that of the last folder with the id,
/// or `None` when the backup defines no such folder.
pub open spec fn fresh_collection(
    snapshot: RequestWorkspaceSnapshot,
    fresh: FreshBackupIds,
    id: CollectionId,
) -> Option<CollectionId> {
    let k = last_index_of(folder_values(snapshot), id.value);
    if k < 0 {
        None
    } else {
        Some(fresh.collections@[k])
    }
}

/// The fresh id of the environment the backup calls `id`, as for folders.
pub open spec fn fresh_environment(
    snapshot: RequestWorkspaceSnapshot,
    fresh: FreshBackupIds,
    id: EnvironmentId,
) -> Option<EnvironmentId> {
    let k = last_index_of(environment_values(snapshot), id.value);
    if k < 0 {
        None
    } else {
        Some(fresh.environments@[k])
    }
}

/// The fresh id of the saved request the backup calls `id`, as for folders.
pub open spec fn fresh_saved_request(
    snapshot: RequestWorkspaceSnapshot,
    fresh: FreshBackupIds,
    id: SavedRequestId,
) -> Option<SavedRequestId> {
    let k = last_index_of(saved_request_values(snapshot), id.value);
    if k < 0 {
        None
    } else {
        Some(fresh.saved_requests@[k])
    }
}

/// The fresh id of the draft the backup calls `id`, as for folders.
pub open spec fn fresh_draft(
    snapshot: RequestWorkspaceSnapshot,
    fresh: FreshBackupIds,
    id: RequestDraftId,
) -> Option<RequestDraftId> {
    let k = last_index_of(draft_values(snapshot), id.value);
    if k < 0 {
        None
    } else {
        Some(fresh.drafts@[k])
    }
}

/// An optional reference to a folder, remapped: absent stays absent, and a reference to a
/// folder the backup does not define is `None`.
pub open spec fn remapped_collection(
    snapshot: RequestWorkspaceSnapshot,
    fresh: FreshBackupIds,
    reference: Option<CollectionId>,
) -> Option<Option<CollectionId>> {
    match reference {
        None => Some(None),
        Some(id) => match fresh_collection(snapshot, fresh, id) {
            Some(new_id) => Some(Some(new_id)),
            None => None,
        },
    }
}

/// An optional reference to a saved request, remapped as for folders.
pub open spec fn remapped_saved_request(
    snapshot: RequestWorkspaceSnapshot,
    fresh: FreshBackupIds,
    reference: Option<SavedRequestId>,
) -> Option<Option<SavedRequestId>> {
    match reference {
        None => Some(None),
        Some(id) => match fresh_saved_request(snapshot, fresh, id) {
            Some(new_id) => Some(Some(new_id)),
            None => None,
        },
    }
}

/// A folder of the backup sits in a folder the backup does not define.
pub open spec fn dangling_folder_parent(snapshot: RequestWorkspaceSnapshot) -> bool {
    exists|i: int|
        0 <= i < snapshot.collection_folders.len() && missing_collection(
            folder_values(snapshot),
            (#[trigger] snapshot.collection_folders@[i]).parent_collection_id,
        )
}

/// An environment variable of the backup belongs to an environment the backup does not
/// define.
pub open spec fn dangling_variable_environment(snapshot: RequestWorkspaceSnapshot) -> bool {
    exists|i: int|
        0 <= i < snapshot.environment_variables.len() && !environment_values(snapshot).contains(
            (#[trigger] snapshot.environment_variables@[i]).environment_id.value,
        )
}

/// A saved request of the backup sits in a folder the backup does not define.
pub open spec fn dangling_request_collection(snapshot: RequestWorkspaceSnapshot) -> bool {
    exists|i: int|
        0 <= i < snapshot.saved_requests.len() && missing_collection(
            folder_values(snapshot),
            (#[trigger] snapshot.saved_requests@[i]).collection_id,
        )
}

/// A draft of the backup edits a saved request the backup does not define.
pub open spec fn dangling_draft_request(snapshot: RequestWorkspaceSnapshot) -> bool {
    exists|i: int|
        0 <= i < snapshot.drafts.len() && missing_saved_request(
            saved_request_values(snapshot),
            (#[trigger] snapshot.drafts@[i]).saved_request_id,
        )
}

/// A tab of the backup shows a draft or a saved request the backup does not define.
pub open spec fn dangling_tab_reference(snapshot: RequestWorkspaceSnapshot) -> bool {
    exists|i: int|
        0 <= i < snapshot.tabs.len() && (!draft_values(snapshot).contains(
            (#[trigger] snapshot.tabs@[i]).draft_id.value,
        ) || missing_saved_request(saved_request_values(snapshot), snapshot.tabs@[i].saved_request_id))
}

/// An optional folder reference names a folder outside `folders`.
pub open spec fn missing_collection(folders: Seq<u128>, reference: Option<CollectionId>) -> bool {
    reference matches Some(id) && !folders.contains(id.value)
}

/// An optional saved request reference names a request outside `requests`.
pub open spec fn missing_saved_request(requests: Seq<u128>, reference: Option<SavedRequestId>) -> bool {
    reference matches Some(id) && !requests.contains(id.value)
}

/// Some reference of the backup points at an entity the backup does not define: a folder's
/// parent, an environment variable's environment, a saved request's collection, a draft's
/// saved request, or a tab's draft or saved request.
pub open spec fn backup_has_dangling_reference(snapshot: RequestWorkspaceSnapshot) -> bool {
    ||| dangling_folder_parent(snapshot)
    ||| dangling_variable_environment(snapshot)
    ||| dangling_request_collection(snapshot)
    ||| dangling_draft_request(snapshot)
    ||| dangling_tab_reference(snapshot)
}

/// Every folder gets the fresh id its id maps to, and its parent the fresh id of the
/// parent's.
pub open spec fn folders_restored(
    snapshot: RequestWorkspaceSnapshot,
    fresh: FreshBackupIds,
    folders: Seq<RestoredFolder>,
) -> bool {
    &&& folders.len() == snapshot.collection_folders.len()
    &&& forall|i: int|
        0 <= i < folders.len() ==> {
            &&& Some((#[trigger] folders[i]).id) == fresh_collection(
                snapshot,
                fresh,
                snapshot.collection_folders@[i].id,
            )
            &&& Some(folders[i].parent_id) == remapped_collection(
                snapshot,
                fresh,
                snapshot.collection_folders@[i].parent_collection_id,
            )
        }
}

/// Every environment gets the fresh id its id maps to.
pub open spec fn environments_restored(
    snapshot: RequestWorkspaceSnapshot,
    fresh: FreshBackupIds,
    environments: Seq<EnvironmentId>,
) -> bool {
    &&& environments.len() == snapshot.environments.len()
    &&& forall|i: int|
        0 <= i < environments.len() ==> Some(#[trigger] environments[i]) == fresh_environment(
            snapshot,
            fresh,
            snapshot.environments@[i].id,
        )
}

/// Every environment variable goes to the fresh id of its environment.
pub open spec fn variables_restored(
    snapshot: RequestWorkspaceSnapshot,
    fresh: FreshBackupIds,
    variables: Seq<EnvironmentId>,
) -> bool {
    &&& variables.len() == snapshot.environment_variables.len()
    &&& forall|i: int|
        0 <= i < variables.len() ==> Some(#[trigger] variables[i]) == fresh_environment(
            snapshot,
            fresh,
            snapshot.environment_variables@[i].environment_id,
        )
}

/// Every saved request gets the fresh id its id maps to, and its collection the fresh id
/// of the collection's.
pub open spec fn saved_requests_restored(
    snapshot: RequestWorkspaceSnapshot,
    fresh: FreshBackupIds,
    requests: Seq<RestoredSavedRequest>,
) -> bool {
    &&& requests.len() == snapshot.saved_requests.len()
    &&& forall|i: int|
        0 <= i < requests.len() ==> {
            &&& Some((#[trigger] requests[i]).id) == fresh_saved_request(
                snapshot,
                fresh,
                snapshot.saved_requests@[i].id,
            )
            &&& Some(requests[i].collection_id) == remapped_collection(
                snapshot,
                fresh,
                snapshot.saved_requests@[i].collection_id,
            )
        }
}

/// Every draft gets the fresh id its id maps to, and its saved request the fresh id of the
/// request's.
pub open spec fn drafts_restored(
    snapshot: RequestWorkspaceSnapshot,
    fresh: FreshBackupIds,
    drafts: Seq<RestoredDraft>,
) -> bool {
    &&& drafts.len() == snapshot.drafts.len()
    &&& forall|i: int|
        0 <= i < drafts.len() ==> {
            &&& Some((#[trigger] drafts[i]).id) == fresh_draft(snapshot, fresh, snapshot.drafts@[i].id)
            &&& Some(drafts[i].saved_request_id) == remapped_saved_request(
                snapshot,
                fresh,
                snapshot.drafts@[i].saved_request_id,
            )
        }
}

/// Every tab shows the fresh ids of its draft and of its saved request.
pub open spec fn tabs_restored(
    snapshot: RequestWorkspaceSnapshot,
    fresh: FreshBackupIds,
    tabs: Seq<RestoredTab>,
) -> bool {
    &&& tabs.len() == snapshot.tabs.len()
    &&& forall|i: int|
        0 <= i < tabs.len() ==> {
            &&& Some((#[trigger] tabs[i]).draft_id) == fresh_draft(
                snapshot,
                fresh,
                snapshot.tabs@[i].draft_id,
            )
            &&& Some(tabs[i].saved_request_id) == remapped_saved_request(
                snapshot,
                fresh,
                snapshot.tabs@[i].saved_request_id,
            )
        }
}

/// `restored` gives every entity of the backup the fresh id its id maps to, and turns every
/// reference into the fresh id of the entity it named.
pub open spec fn restored_consistently(
    snapshot: RequestWorkspaceSnapshot,
    fresh: FreshBackupIds,
    restored: RestoredRequests,
) -> bool {
    &&& folders_restored(snapshot, fresh, restored.folders@)
    &&& environments_restored(snapshot, fresh, restored.environments@)
    &&& variables_restored(snapshot, fresh, restored.environment_variables@)
    &&& saved_requests_restored(snapshot, fresh, restored.saved_requests@)
    &&& drafts_restored(snapshot, fresh, restored.drafts@)
    &&& tabs_restored(snapshot, fresh, restored.tabs@)
}

proof fn lemma_last_index_of(values: Seq<u128>, value: u128)
    ensures
        -1 <= last_index_of(values, value) < values.len(),
        last_index_of(values, value) >= 0 <==> values.contains(value),
        last_index_of(values, value) >= 0 ==> values[last_index_of(values, value)] == value,
    decreases values.len(),
{
    if values.len() > 0 {
        lemma_last_index_of(values.drop_last(), value);
        if values.last() != value {
            if values.contains(value) {
                let j = choose|j: int| 0 <= j < values.len() && values[j] == value;
                assert(values.drop_last()[j] == value);
            }
            if values.drop_last().contains(value) {
                let j = choose|j: int| 0 <= j < values.len() - 1 && values.drop_last()[j] == value;
                assert(values[j] == value);
            }
        } else {
            assert(values[values.len() - 1] == value);
        }
    }
}

fn find_last_index(values: &Vec<u128>, value: u128) -> (index: Option<usize>)
    ensures
        match index {
            Some(k) => k == last_index_of(values@, value),
            None => last_index_of(values@, value) < 0,
        },
{
    let mut i: usize = values.len();
    assert(values@.subrange(0, i as int) =~= values@);
    while i > 0
        invariant
            i <= values.len(),
            last_index_of(values@, value) == last_index_of(values@.subrange(0, i as int), value),
        decreases i,
    {
        assert(values@.subrange(0, i as int).drop_last() =~= values@.subrange(0, i - 1));
        if values[i - 1] == value {
            return Some(i - 1);
        }
        i = i - 1;
    }
    None
}

fn folder_value_list(snapshot: &RequestWorkspaceSnapshot) -> (values: Vec<u128>)
    ensures
        values@ == folder_values(*snapshot),
{
    let mut values: Vec<u128> = Vec::new();
    let mut i: usize = 0;
    while i < snapshot.collection_folders.len()
        invariant
            i <= snapshot.collection_folders.len(),
            values.len() == i,
            forall|j: int| 0 <= j < i ==> #[trigger] values@[j] == snapshot.collection_folders@[j].id.value,
        decreases snapshot.collection_folders.len() - i,
    {
        values.push(snapshot.collection_folders[i].id.value);
        i = i + 1;
    }
    assert(values@ =~= folder_values(*snapshot));
    values
}

fn environment_value_list(snapshot: &RequestWorkspaceSnapshot) -> (values: Vec<u128>)
    ensures
        values@ == environment_values(*snapshot),
{
    let mut values: Vec<u128> = Vec::new();
    let mut i: usize = 0;
    while i < snapshot.environments.len()
        invariant
            i <= snapshot.environments.len(),
            values.len() == i,
            forall|j: int| 0 <= j < i ==> #[trigger] values@[j] == snapshot.environments@[j].id.value,
        decreases snapshot.environments.len() - i,
    {
        values.push(snapshot.environments[i].id.value);
        i = i + 1;
    }
    assert(values@ =~= environment_values(*snapshot));
    values
}

fn saved_request_value_list(snapshot: &RequestWorkspaceSnapshot) -> (values: Vec<u128>)
    ensures
        values@ == saved_request_values(*snapshot),
{
    let mut values: Vec<u128> = Vec::new();
    let mut i: usize = 0;
    while i < snapshot.saved_requests.len()
        invariant
            i <= snapshot.saved_requests.len(),
            values.len() == i,
            forall|j: int| 0 <= j < i ==> #[trigger] values@[j] == snapshot.saved_requests@[j].id.value,
        decreases snapshot.saved_requests.len() - i,
    {
        values.push(snapshot.saved_requests[i].id.value);
        i = i + 1;
    }
    assert(values@ =~= saved_request_values(*snapshot));
    values
}

fn draft_value_list(snapshot: &RequestWorkspaceSnapshot) -> (values: Vec<u128>)
    ensures
        values@ == draft_values(*snapshot),
{
    let mut values: Vec<u128> = Vec::new();
    let mut i: usize = 0;
    while i < snapshot.drafts.len()
        invariant
            i <= snapshot.drafts.len(),
            values.len() == i,
            forall|j: int| 0 <= j < i ==> #[trigger] values@[j] == snapshot.drafts@[j].id.value,
        decreases snapshot.drafts.len() - i,
    {
        values.push(snapshot.drafts[i].id.value);
        i = i + 1;
    }
    assert(values@ =~= draft_values(*snapshot));
    values
}

/// The error of a backup whose references do not resolve.
fn invalid_backup_reference() -> (error: NativeBackupError)
    ensures
        (error matches NativeBackupError::InvalidArchive(detail) && detail@ == "backup.reference.invalid"@),
{
    NativeBackupError::InvalidArchive("backup.reference.invalid".to_owned())
}

fn lookup_collection(values: &Vec<u128>, fresh: &Vec<CollectionId>, id: CollectionId) -> (found: Option<CollectionId>)
    requires
        values.len() == fresh.len(),
    ensures
        last_index_of(values@, id.value) < 0 ==> found is None,
        last_index_of(values@, id.value) >= 0 ==> found == Some(fresh@[last_index_of(values@, id.value)]),
{
    proof {
        lemma_last_index_of(values@, id.value);
    }
    match find_last_index(values, id.value) {
        Some(k) => Some(fresh[k]),
        None => None,
    }
}

fn lookup_environment(values: &Vec<u128>, fresh: &Vec<EnvironmentId>, id: EnvironmentId) -> (found: Option<EnvironmentId>)
    requires
        values.len() == fresh.len(),
    ensures
        last_index_of(values@, id.value) < 0 ==> found is None,
        last_index_of(values@, id.value) >= 0 ==> found == Some(fresh@[last_index_of(values@, id.value)]),
{
    proof {
        lemma_last_index_of(values@, id.value);
    }
    match find_last_index(values, id.value) {
        Some(k) => Some(fresh[k]),
        None => None,
    }
}

fn lookup_saved_request(values: &Vec<u128>, fresh: &Vec<SavedRequestId>, id: SavedRequestId) -> (found: Option<SavedRequestId>)
    requires
        values.len() == fresh.len(),
    ensures
        last_index_of(values@, id.value) < 0 ==> found is None,
        last_index_of(values@, id.value) >= 0 ==> found == Some(fresh@[last_index_of(values@, id.value)]),
{
    proof {
        lemma_last_index_of(values@, id.value);
    }
    match find_last_index(values, id.value) {
        Some(k) => Some(fresh[k]),
        None => None,
    }
}

fn lookup_draft(values: &Vec<u128>, fresh: &Vec<RequestDraftId>, id: RequestDraftId) -> (found: Option<RequestDraftId>)
    requires
        values.len() == fresh.len(),
    ensures
        last_index_of(values@, id.value) < 0 ==> found is None,
        last_index_of(values@, id.value) >= 0 ==> found == Some(fresh@[last_index_of(values@, id.value)]),
{
    proof {
        lemma_last_index_of(values@, id.value);
    }
    match find_last_index(values, id.value) {
        Some(k) => Some(fresh[k]),
        None => None,
    }
}

fn restore_folders(snapshot: &RequestWorkspaceSnapshot, fresh: &FreshBackupIds, values: &Vec<u128>) -> (restored:
    Option<Vec<RestoredFolder>>)
    requires
        values@ == folder_values(*snapshot),
        fresh.collections.len() == snapshot.collection_folders.len(),
    ensures
        match restored {
            Some(folders) => folders_restored(*snapshot, *fresh, folders@) && !dangling_folder_parent(
                *snapshot,
            ),
            None => dangling_folder_parent(*snapshot),
        },
{
    let mut folders: Vec<RestoredFolder> = Vec::new();
    let mut i: usize = 0;
    while i < snapshot.collection_folders.len()
        invariant
            values@ == folder_values(*snapshot),
            fresh.collections.len() == snapshot.collection_folders.len(),
            i <= snapshot.collection_folders.len(),
            folders.len() == i,
            forall|j: int|
                0 <= j < i ==> {
                    &&& Some((#[trigger] folders@[j]).id) == fresh_collection(
                        *snapshot,
                        *fresh,
                        snapshot.collection_folders@[j].id,
                    )
                    &&& Some(folders@[j].parent_id) == remapped_collection(
                        *snapshot,
                        *fresh,
                        snapshot.collection_folders@[j].parent_collection_id,
                    )
                },
            forall|j: int|
                0 <= j < i ==> !missing_collection(
                    values@,
                    (#[trigger] snapshot.collection_folders@[j]).parent_collection_id,
                ),
        decreases snapshot.collection_folders.len() - i,
    {
        let folder = &snapshot.collection_folders[i];
        proof {
            lemma_last_index_of(values@, folder.id.value);
            assert(values@[i as int] == folder.id.value);
        }
        let id = lookup_collection(values, &fresh.collections, folder.id).unwrap();
        let parent_id = match folder.parent_collection_id {
            None => None,
            Some(parent) => match lookup_collection(values, &fresh.collections, parent) {
                Some(new_parent) => {
                    proof {
                        lemma_last_index_of(values@, parent.value);
                    }
                    Some(new_parent)
                },
                None => {
                    proof {
                        lemma_last_index_of(values@, parent.value);
                        assert(missing_collection(
                            values@,
                            snapshot.collection_folders@[i as int].parent_collection_id,
                        ));
                    }
                    return None;
                },
            },
        };
        folders.push(RestoredFolder { id, parent_id });
        i = i + 1;
    }
    Some(folders)
}

fn restore_environments(snapshot: &RequestWorkspaceSnapshot, fresh: &FreshBackupIds, values: &Vec<u128>) -> (restored:
    Vec<EnvironmentId>)
    requires
        values@ == environment_values(*snapshot),
        fresh.environments.len() == snapshot.environments.len(),
    ensures
        environments_restored(*snapshot, *fresh, restored@),
{
    let mut environments: Vec<EnvironmentId> = Vec::new();
    let mut i: usize = 0;
    while i < snapshot.environments.len()
        invariant
            values@ == environment_values(*snapshot),
            fresh.environments.len() == snapshot.environments.len(),
            i <= snapshot.environments.len(),
            environments.len() == i,
            forall|j: int|
                0 <= j < i ==> Some(#[trigger] environments@[j]) == fresh_environment(
                    *snapshot,
                    *fresh,
                    snapshot.environments@[j].id,
                ),
        decreases snapshot.environments.len() - i,
    {
        let environment = &snapshot.environments[i];
        proof {
            lemma_last_index_of(values@, environment.id.value);
            assert(values@[i as int] == environment.id.value);
        }
        let id = lookup_environment(values, &fresh.environments, environment.id).unwrap();
        environments.push(id);
        i = i + 1;
    }
    environments
}

fn restore_variable_environments(
    snapshot: &RequestWorkspaceSnapshot,
    fresh: &FreshBackupIds,
    values: &Vec<u128>,
) -> (restored: Option<Vec<EnvironmentId>>)
    requires
        values@ == environment_values(*snapshot),
        fresh.environments.len() == snapshot.environments.len(),
    ensures
        match restored {
            Some(variables) => variables_restored(*snapshot, *fresh, variables@)
                && !dangling_variable_environment(*snapshot),
            None => dangling_variable_environment(*snapshot),
        },
{
    let mut variables: Vec<EnvironmentId> = Vec::new();
    let mut i: usize = 0;
    while i < snapshot.environment_variables.len()
        invariant
            values@ == environment_values(*snapshot),
            fresh.environments.len() == snapshot.environments.len(),
            i <= snapshot.environment_variables.len(),
            variables.len() == i,
            forall|j: int|
                0 <= j < i ==> Some(#[trigger] variables@[j]) == fresh_environment(
                    *snapshot,
                    *fresh,
                    snapshot.environment_variables@[j].environment_id,
                ),
            forall|j: int|
                0 <= j < i ==> values@.contains(
                    (#[trigger] snapshot.environment_variables@[j]).environment_id.value,
                ),
        decreases snapshot.environment_variables.len() - i,
    {
        let environment_id = snapshot.environment_variables[i].environment_id;
        proof {
            lemma_last_index_of(values@, environment_id.value);
        }
        match lookup_environment(values, &fresh.environments, environment_id) {
            Some(id) => {
                variables.push(id);
            },
            None => {
                assert(!values@.contains(snapshot.environment_variables@[i as int].environment_id.value));
                return None;
            },
        }
        i = i + 1;
    }
    Some(variables)
}

fn restore_saved_requests(
    snapshot: &RequestWorkspaceSnapshot,
    fresh: &FreshBackupIds,
    folder_ids: &Vec<u128>,
    values: &Vec<u128>,
) -> (restored: Option<Vec<RestoredSavedRequest>>)
    requires
        folder_ids@ == folder_values(*snapshot),
        values@ == saved_request_values(*snapshot),
        fresh.collections.len() == snapshot.collection_folders.len(),
        fresh.saved_requests.len() == snapshot.saved_requests.len(),
    ensures
        match restored {
            Some(requests) => saved_requests_restored(*snapshot, *fresh, requests@)
                && !dangling_request_collection(*snapshot),
            None => dangling_request_collection(*snapshot),
        },
{
    let mut requests: Vec<RestoredSavedRequest> = Vec::new();
    let mut i: usize = 0;
    while i < snapshot.saved_requests.len()
        invariant
            folder_ids@ == folder_values(*snapshot),
            values@ == saved_request_values(*snapshot),
            fresh.collections.len() == snapshot.collection_folders.len(),
            fresh.saved_requests.len() == snapshot.saved_requests.len(),
            i <= snapshot.saved_requests.len(),
            requests.len() == i,
            forall|j: int|
                0 <= j < i ==> {
                    &&& Some((#[trigger] requests@[j]).id) == fresh_saved_request(
                        *snapshot,
                        *fresh,
                        snapshot.saved_requests@[j].id,
                    )
                    &&& Some(requests@[j].collection_id) == remapped_collection(
                        *snapshot,
                        *fresh,
                        snapshot.saved_requests@[j].collection_id,
                    )
                },
            forall|j: int|
                0 <= j < i ==> !missing_collection(
                    folder_ids@,
                    (#[trigger] snapshot.saved_requests@[j]).collection_id,
                ),
        decreases snapshot.saved_requests.len() - i,
    {
        let request = &snapshot.saved_requests[i];
        proof {
            lemma_last_index_of(values@, request.id.value);
            assert(values@[i as int] == request.id.value);
        }
        let id = lookup_saved_request(values, &fresh.saved_requests, request.id).unwrap();
        let collection_id = match request.collection_id {
            None => None,
            Some(collection) => match lookup_collection(folder_ids, &fresh.collections, collection) {
                Some(new_collection) => {
                    proof {
                        lemma_last_index_of(folder_ids@, collection.value);
                    }
                    Some(new_collection)
                },
                None => {
                    proof {
                        lemma_last_index_of(folder_ids@, collection.value);
                        assert(missing_collection(
                            folder_ids@,
                            snapshot.saved_requests@[i as int].collection_id,
                        ));
                    }
                    return None;
                },
            },
        };
        requests.push(RestoredSavedRequest { id, collection_id });
        i = i + 1;
    }
    Some(requests)
}

fn restore_drafts(
    snapshot: &RequestWorkspaceSnapshot,
    fresh: &FreshBackupIds,
    request_ids: &Vec<u128>,
    values: &Vec<u128>,
) -> (restored: Option<Vec<RestoredDraft>>)
    requires
        request_ids@ == saved_request_values(*snapshot),
        values@ == draft_values(*snapshot),
        fresh.saved_requests.len() == snapshot.saved_requests.len(),
        fresh.drafts.len() == snapshot.drafts.len(),
    ensures
        match restored {
            Some(drafts) => drafts_restored(*snapshot, *fresh, drafts@) && !dangling_draft_request(
                *snapshot,
            ),
            None => dangling_draft_request(*snapshot),
        },
{
    let mut drafts: Vec<RestoredDraft> = Vec::new();
    let mut i: usize = 0;
    while i < snapshot.drafts.len()
        invariant
            request_ids@ == saved_request_values(*snapshot),
            values@ == draft_values(*snapshot),
            fresh.saved_requests.len() == snapshot.saved_requests.len(),
            fresh.drafts.len() == snapshot.drafts.len(),
            i <= snapshot.drafts.len(),
            drafts.len() == i,
            forall|j: int|
                0 <= j < i ==> {
                    &&& Some((#[trigger] drafts@[j]).id) == fresh_draft(
                        *snapshot,
                        *fresh,
                        snapshot.drafts@[j].id,
                    )
                    &&& Some(drafts@[j].saved_request_id) == remapped_saved_request(
                        *snapshot,
                        *fresh,
                        snapshot.drafts@[j].saved_request_id,
                    )
                },
            forall|j: int|
                0 <= j < i ==> !missing_saved_request(
                    request_ids@,
                    (#[trigger] snapshot.drafts@[j]).saved_request_id,
                ),
        decreases snapshot.drafts.len() - i,
    {
        let draft = &snapshot.drafts[i];
        proof {
            lemma_last_index_of(values@, draft.id.value);
            assert(values@[i as int] == draft.id.value);
        }
        let id = lookup_draft(values, &fresh.drafts, draft.id).unwrap();
        let saved_request_id = match draft.saved_request_id {
            None => None,
            Some(request) => match lookup_saved_request(request_ids, &fresh.saved_requests, request) {
                Some(new_request) => {
                    proof {
                        lemma_last_index_of(request_ids@, request.value);
                    }
                    Some(new_request)
                },
                None => {
                    proof {
                        lemma_last_index_of(request_ids@, request.value);
                        assert(missing_saved_request(
                            request_ids@,
                            snapshot.drafts@[i as int].saved_request_id,
                        ));
                    }
                    return None;
                },
            },
        };
        drafts.push(RestoredDraft { id, saved_request_id });
        i = i + 1;
    }
    Some(drafts)
}

fn restore_tabs(
    snapshot: &RequestWorkspaceSnapshot,
    fresh: &FreshBackupIds,
    request_ids: &Vec<u128>,
    draft_ids: &Vec<u128>,
) -> (restored: Option<Vec<RestoredTab>>)
    requires
        request_ids@ == saved_request_values(*snapshot),
        draft_ids@ == draft_values(*snapshot),
        fresh.saved_requests.len() == snapshot.saved_requests.len(),
        fresh.drafts.len() == snapshot.drafts.len(),
    ensures
        match restored {
            Some(tabs) => tabs_restored(*snapshot, *fresh, tabs@) && !dangling_tab_reference(*snapshot),
            None => dangling_tab_reference(*snapshot),
        },
{
    let mut tabs: Vec<RestoredTab> = Vec::new();
    let mut i: usize = 0;
    while i < snapshot.tabs.len()
        invariant
            request_ids@ == saved_request_values(*snapshot),
            draft_ids@ == draft_values(*snapshot),
            fresh.saved_requests.len() == snapshot.saved_requests.len(),
            fresh.drafts.len() == snapshot.drafts.len(),
            i <= snapshot.tabs.len(),
            tabs.len() == i,
            forall|j: int|
                0 <= j < i ==> {
                    &&& Some((#[trigger] tabs@[j]).draft_id) == fresh_draft(
                        *snapshot,
                        *fresh,
                        snapshot.tabs@[j].draft_id,
                    )
                    &&& Some(tabs@[j].saved_request_id) == remapped_saved_request(
                        *snapshot,
                        *fresh,
                        snapshot.tabs@[j].saved_request_id,
                    )
                },
            forall|j: int|
                0 <= j < i ==> draft_ids@.contains((#[trigger] snapshot.tabs@[j]).draft_id.value)
                    && !missing_saved_request(request_ids@, snapshot.tabs@[j].saved_request_id),
        decreases snapshot.tabs.len() - i,
    {
        let tab = &snapshot.tabs[i];
        proof {
            lemma_last_index_of(draft_ids@, tab.draft_id.value);
        }
        let draft_id = match lookup_draft(draft_ids, &fresh.drafts, tab.draft_id) {
            Some(id) => id,
            None => {
                assert(!draft_ids@.contains(snapshot.tabs@[i as int].draft_id.value));
                return None;
            },
        };
        let saved_request_id = match tab.saved_request_id {
            None => None,
            Some(request) => match lookup_saved_request(request_ids, &fresh.saved_requests, request) {
                Some(new_request) => {
                    proof {
                        lemma_last_index_of(request_ids@, request.value);
                    }
                    Some(new_request)
                },
                None => {
                    proof {
                        lemma_last_index_of(request_ids@, request.value);
                        assert(missing_saved_request(
                            request_ids@,
                            snapshot.tabs@[i as int].saved_request_id,
                        ));
                    }
                    return None;
                },
            },
        };
        tabs.push(RestoredTab { draft_id, saved_request_id });
        i = i + 1;
    }
    Some(tabs)
}

/// Plans the restore of a backup's requests: every folder, environment, saved request and
/// draft gets the fresh id given for it (for an id the backup repeats, that of its last
/// entity), and every reference becomes the fresh id of the entity it named. A backup with
/// a reference to an entity it does not define is refused as an invalid archive.
pub fn plan_backup_request_restore(snapshot: &RequestWorkspaceSnapshot, fresh: &FreshBackupIds) -> (plan:
    Result<RestoredRequests, NativeBackupError>)
    requires
        fresh.collections.len() == snapshot.collection_folders.len(),
        fresh.environments.len() == snapshot.environments.len(),
        fresh.saved_requests.len() == snapshot.saved_requests.len(),
        fresh.drafts.len() == snapshot.drafts.len(),
    ensures
        plan is Err <==> backup_has_dangling_reference(*snapshot),
        plan matches Err(error) ==> (error matches NativeBackupError::InvalidArchive(detail)
            && detail@ == "backup.reference.invalid"@),
        plan matches Ok(restored) ==> restored_consistently(*snapshot, *fresh, restored),
{
    let folder_ids = folder_value_list(snapshot);
    let environment_ids = environment_value_list(snapshot);
    let request_ids = saved_request_value_list(snapshot);
    let draft_ids = draft_value_list(snapshot);
    let folders = match restore_folders(snapshot, fresh, &folder_ids) {
        Some(folders) => folders,
        None => {
            return Err(invalid_backup_reference());
        },
    };
    let environments = restore_environments(snapshot, fresh, &environment_ids);
    let environment_variables = match restore_variable_environments(
        snapshot,
        fresh,
        &environment_ids,
    ) {
        Some(variables) => variables,
        None => {
            return Err(invalid_backup_reference());
        },
    };
    let saved_requests = match restore_saved_requests(snapshot, fresh, &folder_ids, &request_ids) {
        Some(requests) => requests,
        None => {
            return Err(invalid_backup_reference());
        },
    };
    let drafts = match restore_drafts(snapshot, fresh, &request_ids, &draft_ids) {
        Some(drafts) => drafts,
        None => {
            return Err(invalid_backup_reference());
        },
    };
    let tabs = match restore_tabs(snapshot, fresh, &request_ids, &draft_ids) {
        Some(tabs) => tabs,
        None => {
            return Err(invalid_backup_reference());
        },
    };
    Ok(RestoredRequests { folders, environments, environment_variables, saved_requests, drafts, tabs })
}

/// No value occurs twice.
pub open spec fn distinct_values(values: Seq<u128>) -> bool {
    forall|i: int, j: int|
        0 <= i < values.len() && 0 <= j < values.len() && i != j ==> #[trigger] values[i]
            != #[trigger] values[j]
}

proof fn lemma_last_index_of_distinct(values: Seq<u128>, i: int)
    requires
        distinct_values(values),
        0 <= i < values.len(),
    ensures
        last_index_of(values, values[i]) == i,
    decreases values.len(),
{
    if i < values.len() - 1 {
        assert(values[values.len() - 1] != values[i]);
        assert(values.drop_last()[i] == values[i]);
        lemma_last_index_of_distinct(values.drop_last(), i);
    }
}

/// In a backup whose ids are distinct, every folder, environment, saved request and draft
/// takes the fresh id given at its own place.
pub proof fn lemma_backup_entities_take_their_own_fresh_ids(
    snapshot: RequestWorkspaceSnapshot,
    fresh: FreshBackupIds,
)
    requires
        distinct_values(folder_values(snapshot)),
        distinct_values(environment_values(snapshot)),
        distinct_values(saved_request_values(snapshot)),
        distinct_values(draft_values(snapshot)),
    ensures
        forall|i: int|
            0 <= i < snapshot.collection_folders.len() ==> fresh_collection(
                snapshot,
                fresh,
                (#[trigger] snapshot.collection_folders@[i]).id,
            ) == Some(fresh.collections@[i]),
        forall|i: int|
            0 <= i < snapshot.environments.len() ==> fresh_environment(
                snapshot,
                fresh,
                (#[trigger] snapshot.environments@[i]).id,
            ) == Some(fresh.environments@[i]),
        forall|i: int|
            0 <= i < snapshot.saved_requests.len() ==> fresh_saved_request(
                snapshot,
                fresh,
                (#[trigger] snapshot.saved_requests@[i]).id,
            ) == Some(fresh.saved_requests@[i]),
        forall|i: int|
            0 <= i < snapshot.drafts.len() ==> fresh_draft(
                snapshot,
                fresh,
                (#[trigger] snapshot.drafts@[i]).id,
            ) == Some(fresh.drafts@[i]),
{
    assert forall|i: int| 0 <= i < snapshot.collection_folders.len() implies fresh_collection(
        snapshot,
        fresh,
        (#[trigger] snapshot.collection_folders@[i]).id,
    ) == Some(fresh.collections@[i]) by {
        lemma_last_index_of_distinct(folder_values(snapshot), i);
    }
    assert forall|i: int| 0 <= i < snapshot.environments.len() implies fresh_environment(
        snapshot,
        fresh,
        (#[trigger] snapshot.environments@[i]).id,
    ) == Some(fresh.environments@[i]) by {
        lemma_last_index_of_distinct(environment_values(snapshot), i);
    }
    assert forall|i: int| 0 <= i < snapshot.saved_requests.len() implies fresh_saved_request(
        snapshot,
        fresh,
        (#[trigger] snapshot.saved_requests@[i]).id,
    ) == Some(fresh.saved_requests@[i]) by {
        lemma_last_index_of_distinct(saved_request_values(snapshot), i);
    }
    assert forall|i: int| 0 <= i < snapshot.drafts.len() implies fresh_draft(
        snapshot,
        fresh,
        (#[trigger] snapshot.drafts@[i]).id,
    ) == Some(fresh.drafts@[i]) by {
        lemma_last_index_of_distinct(draft_values(snapshot), i);
    }
}

/// A cookie of a backup as a restore writes it: under a fresh id in the restored workspace,
/// with its metadata kept and without its value, which a backup never carries.
pub open spec fn restored_cookie_of(
    restored: WorkspaceCookie,
    cookie: WorkspaceCookie,
    id: CookieId,
    workspace_id: WorkspaceId,
) -> bool {
    &&& restored.id == id
    &&& restored.workspace_id == workspace_id
    &&& restored.name == cookie.name
    &&& restored.domain == cookie.domain
    &&& restored.path == cookie.path
    &&& restored.secure == cookie.secure
    &&& restored.http_only == cookie.http_only
    &&& restored.same_site == cookie.same_site
    &&& restored.expires_at_epoch_seconds == cookie.expires_at_epoch_seconds
    &&& restored.session == cookie.session
    &&& !restored.has_value
    &&& restored.secret_reference is None
}

/// The cookie a restore writes for a cookie of a backup.
pub fn restore_backup_cookie(cookie: WorkspaceCookie, id: CookieId, workspace_id: WorkspaceId) -> (restored:
    WorkspaceCookie)
    ensures
        restored_cookie_of(restored, cookie, id, workspace_id),
{
    WorkspaceCookie {
        id,
        workspace_id,
        name: cookie.name,
        domain: cookie.domain,
        path: cookie.path,
        secure: cookie.secure,
        http_only: cookie.http_only,
        same_site: cookie.same_site,
        expires_at_epoch_seconds: cookie.expires_at_epoch_seconds,
        session: cookie.session,
        has_value: false,
        secret_reference: None,
    }
}

// ----- reading rows -----

/// A column whose value lies outside the range of the field it is read into.
#[derive(Clone, Copy, Debug, PartialEq, Eq, Structural)]
pub struct ColumnOutOfRange {
    pub column: usize,
}

/// A flag column: any value but 0 is set.
pub fn column_flag(value: i64) -> (flag: bool)
    ensures
        flag == (value != 0),
{
    value != 0
}

/// A position column, which must fit a `u32`.
pub fn position_from_column(value: i64) -> (position: Option<u32>)
    ensures
        0 <= value <= u32::MAX ==> position == Some(value as u32),
        !(0 <= value <= u32::MAX) ==> position is None,
{
    if 0 <= value && value <= 4294967295 {
        Some(value as u32)
    } else {
        None
    }
}

/// The column of an execution record row holding the response status.
pub const RESPONSE_STATUS_COLUMN: usize = 12;

/// The column of an execution record row holding the response duration.
pub const RESPONSE_DURATION_COLUMN: usize = 16;

/// The response of an execution record read from its columns: the status must fit a
/// `u16` and the duration must not be negative (the status is read first); the headers
/// are read from their own table.
pub fn execution_record_response_from_columns(
    status: Option<i64>,
    body_preview: String,
    body_truncated: i64,
    error: Option<String>,
    duration_ms: Option<i64>,
) -> (response: Result<ExecutionRecordResponse, ColumnOutOfRange>)
    ensures
        status matches Some(value) && !(0 <= value <= u16::MAX) ==> response == Err::<
            ExecutionRecordResponse,
            ColumnOutOfRange,
        >(ColumnOutOfRange { column: RESPONSE_STATUS_COLUMN }),
        !(status matches Some(value) && !(0 <= value <= u16::MAX)) && (duration_ms matches Some(
            value,
        ) && value < 0) ==> response == Err::<ExecutionRecordResponse, ColumnOutOfRange>(
            ColumnOutOfRange { column: RESPONSE_DURATION_COLUMN },
        ),
        response matches Ok(read) ==> {
            &&& read.status == (match status {
                Some(value) => Some(value as u16),
                None => None,
            })
            &&& read.headers@ == Seq::<OrderedField>::empty()
            &&& read.body_preview == body_preview
            &&& read.body_truncated == (body_truncated != 0)
            &&& read.error == error
            &&& read.duration_ms == (match duration_ms {
                Some(value) => Some(value as u64),
                None => None,
            })
        },
        !(status matches Some(value) && !(0 <= value <= u16::MAX)) && !(duration_ms matches Some(
            value,
        ) && value < 0) ==> response is Ok,
{
    let status = match status {
        Some(value) => {
            if 0 <= value && value <= 65535 {
                Some(value as u16)
            } else {
                return Err(ColumnOutOfRange { column: RESPONSE_STATUS_COLUMN });
            }
        },
        None => None,
    };
    let duration_ms = match duration_ms {
        Some(value) => {
            if value >= 0 {
                Some(value as u64)
            } else {
                return Err(ColumnOutOfRange { column: RESPONSE_DURATION_COLUMN });
            }
        },
        None => None,
    };
    Ok(
        ExecutionRecordResponse {
            status,
            headers: Vec::new(),
            body_preview,
            body_truncated: column_flag(body_truncated),
            error,
            duration_ms,
        },
    )
}

// ----- recoverable exports -----

/// Which cells of a recovered row are replaced by the redaction marker: the non-null cells
/// of secret columns. `null_cells` says which cells of the row are null.
pub fn recovered_row_redactions(columns: &Vec<String>, null_cells: &Vec<bool>) -> (redacted: (
    Vec<bool>,
    usize,
))
    requires
        columns.len() == null_cells.len(),
    ensures
        redacted.0.len() == columns.len(),
        forall|i: int|
            0 <= i < columns.len() ==> #[trigger] redacted.0@[i] == (secret_column(columns@[i]@)
                && !null_cells@[i]),
        redacted.1 == count_where(columns.len() as int, |i: int| redacted.0@[i]),
{
    let mut flags: Vec<bool> = Vec::new();
    let mut count: usize = 0;
    let mut i: usize = 0;
    while i < columns.len()
        invariant
            columns.len() == null_cells.len(),
            i <= columns.len(),
            flags.len() == i,
            count <= i,
            forall|j: int|
                0 <= j < i ==> #[trigger] flags@[j] == (secret_column(columns@[j]@) && !null_cells@[j]),
            count == count_where(i as int, |k: int| flags@[k]),
        decreases columns.len() - i,
    {
        let redact = is_secret_column(columns[i].as_str()) && !null_cells[i];
        let ghost before = flags@;
        flags.push(redact);
        proof {
            lemma_count_where_same(i as int, |k: int| before[k], |k: int| flags@[k]);
        }
        if redact {
            count = count + 1;
        }
        i = i + 1;
    }
    (flags, count)
}

// ----- placing an imported Postman collection -----

/// A folder of a converted Postman import: its place in the import, the place of its
/// parent when it has one, and its name.
pub struct ImportedCollection {
    pub import_index: usize,
    pub parent_import_index: Option<usize>,
    pub name: String,
}

/// Where the folders and requests of an import go: the parent of each folder, the folders
/// at the root in order (the import record lists them), and the folder of each request.
pub struct ImportPlacement {
    pub parent_ids: Vec<Option<CollectionId>>,
    pub root_collection_ids: Vec<CollectionId>,
    pub request_collection_ids: Vec<Option<CollectionId>>,
}

/// The folder created for each place of the import once the first `n` folders were created:
/// each folder fills the slot of its import place, when that place is in range.
pub open spec fn import_slots(
    collections: Seq<ImportedCollection>,
    fresh: Seq<CollectionId>,
    n: int,
) -> Seq<Option<CollectionId>>
    decreases n,
{
    if n <= 0 {
        Seq::new(collections.len(), |i: int| None::<CollectionId>)
    } else {
        let previous = import_slots(collections, fresh, n - 1);
        if collections[n - 1].import_index < collections.len() {
            previous.update(collections[n - 1].import_index as int, Some(fresh[n - 1]))
        } else {
            previous
        }
    }
}

/// The folder filling the slot an import place names, if it is filled.
pub open spec fn import_slot(slots: Seq<Option<CollectionId>>, place: Option<usize>) -> Option<
    CollectionId,
> {
    match place {
        Some(index) => if index < slots.len() {
            slots[index as int]
        } else {
            None
        },
        None => None,
    }
}

/// The parent the `k`-th imported folder is created under.
pub open spec fn import_parent(
    collections: Seq<ImportedCollection>,
    fresh: Seq<CollectionId>,
    k: int,
) -> Option<CollectionId> {
    import_slot(import_slots(collections, fresh, k), collections[k].parent_import_index)
}

/// Why the `k`-th imported folder is refused: its parent within the import was not
/// created, or its name is blank.
pub open spec fn import_refusal(
    collections: Seq<ImportedCollection>,
    fresh: Seq<CollectionId>,
    k: int,
) -> Option<Seq<char>> {
    if collections[k].parent_import_index is Some && import_parent(collections, fresh, k) is None {
        Some("postman.collection.parent.missing"@)
    } else if is_blank_text(collections[k].name@) {
        Some("collection.name.required"@)
    } else {
        None
    }
}

/// The fresh ids of the first `n` imported folders that sit at the root, in order.
pub open spec fn import_roots(
    collections: Seq<ImportedCollection>,
    fresh: Seq<CollectionId>,
    n: int,
) -> Seq<CollectionId>
    decreases n,
{
    if n <= 0 {
        Seq::empty()
    } else if collections[n - 1].parent_import_index is None {
        import_roots(collections, fresh, n - 1).push(fresh[n - 1])
    } else {
        import_roots(collections, fresh, n - 1)
    }
}

/// Places the folders and requests of a Postman import, folder by folder in import order:
/// each folder goes under the folder created for its parent's place, and each request into
/// the folder created for its place. The first folder whose parent was not created, or whose
/// name is blank, refuses the import.
pub fn plan_postman_import_placement(
    collections: &Vec<ImportedCollection>,
    fresh: &Vec<CollectionId>,
    request_places: &Vec<Option<usize>>,
) -> (placement: Result<ImportPlacement, PostmanImportError>)
    requires
        fresh.len() == collections.len(),
    ensures
        placement is Ok <==> forall|k: int|
            0 <= k < collections.len() ==> #[trigger] import_refusal(collections@, fresh@, k) is None,
        placement matches Err(error) ==> exists|k: int|
            #![trigger import_refusal(collections@, fresh@, k)]
            0 <= k < collections.len() && (forall|j: int|
                0 <= j < k ==> #[trigger] import_refusal(collections@, fresh@, j) is None)
                && (import_refusal(collections@, fresh@, k) matches Some(detail) && (error matches PostmanImportError::InvalidInput(
                text,
            ) && text@ == detail)),
        placement matches Ok(placed) ==> {
            &&& placed.parent_ids.len() == collections.len()
            &&& forall|k: int|
                0 <= k < collections.len() ==> #[trigger] placed.parent_ids@[k] == import_parent(
                    collections@,
                    fresh@,
                    k,
                )
            &&& placed.root_collection_ids@ == import_roots(
                collections@,
                fresh@,
                collections.len() as int,
            )
            &&& placed.request_collection_ids.len() == request_places.len()
            &&& forall|r: int|
                0 <= r < request_places.len() ==> #[trigger] placed.request_collection_ids@[r]
                    == import_slot(
                    import_slots(collections@, fresh@, collections.len() as int),
                    request_places@[r],
                )
        },
{
    let count = collections.len();
    let mut slots: Vec<Option<CollectionId>> = Vec::new();
    let mut s: usize = 0;
    while s < count
        invariant
            s <= count,
            slots@ == Seq::new(s as nat, |i: int| None::<CollectionId>),
        decreases count - s,
    {
        slots.push(None);
        assert(slots@ =~= Seq::new((s + 1) as nat, |i: int| None::<CollectionId>));
        s = s + 1;
    }
    assert(slots@ =~= import_slots(collections@, fresh@, 0));
    let mut parent_ids: Vec<Option<CollectionId>> = Vec::new();
    let mut roots: Vec<CollectionId> = Vec::new();
    let mut k: usize = 0;
    while k < count
        invariant
            count == collections.len(),
            fresh.len() == count,
            k <= count,
            slots@ == import_slots(collections@, fresh@, k as int),
            slots.len() == count,
            parent_ids.len() == k,
            forall|j: int| 0 <= j < k ==> #[trigger] parent_ids@[j] == import_parent(collections@, fresh@, j),
            forall|j: int| 0 <= j < k ==> #[trigger] import_refusal(collections@, fresh@, j) is None,
            roots@ == import_roots(collections@, fresh@, k as int),
        decreases count - k,
    {
        let collection = &collections[k];
        let parent_id = match collection.parent_import_index {
            Some(index) => if index < slots.len() {
                slots[index]
            } else {
                None
            },
            None => None,
        };
        match ensure_import_parent_present(collection.parent_import_index.is_some(), parent_id) {
            Ok(()) => {},
            Err(error) => {
                assert(import_refusal(collections@, fresh@, k as int) is Some);
                return Err(error);
            },
        }
        match validate_collection_name(collection.name.as_str()) {
            Ok(()) => {},
            Err(error) => {
                assert(import_refusal(collections@, fresh@, k as int) is Some);
                return Err(postman_request_error(error));
            },
        }
        parent_ids.push(parent_id);
        if collection.parent_import_index.is_none() {
            roots.push(fresh[k]);
        }
        if collection.import_index < count {
            slots.set(collection.import_index, Some(fresh[k]));
        }
        k = k + 1;
    }
    let mut request_collection_ids: Vec<Option<CollectionId>> = Vec::new();
    let mut r: usize = 0;
    while r < request_places.len()
        invariant
            slots@ == import_slots(collections@, fresh@, collections.len() as int),
            r <= request_places.len(),
            request_collection_ids.len() == r,
            forall|j: int|
                0 <= j < r ==> #[trigger] request_collection_ids@[j] == import_slot(
                    import_slots(collections@, fresh@, collections.len() as int),
                    request_places@[j],
                ),
        decreases request_places.len() - r,
    {
        let collection_id = match request_places[r] {
            Some(index) => if index < slots.len() {
                slots[index]
            } else {
                None
            },
            None => None,
        };
        request_collection_ids.push(collection_id);
        r = r + 1;
    }
    Ok(ImportPlacement { parent_ids, root_collection_ids: roots, request_collection_ids })
}

} // verus!
