//! The fields of an upload body: which field may stand where, and what
//! their texts must hold.

use vstd::prelude::*;
use vstd::string::*;
use crate::decimal::{
    decimal, describe_int_error, error_text, format_i64, parse_i32, parse_u64, spec_parse_i32,
    spec_parse_u64,
};
use crate::error::ResError;
use crate::text::{chars_of, str_eq, text_of};

verus! {

/// What a newly uploaded file is attached to: a note or a shelf, never both
/// and never neither.
#[derive(Clone, Copy, Debug, PartialEq, Eq, Structural)]
pub enum AttachTarget {
    NoteId(i32),
    ShelfId(i32),
}

/// The part that a field plays in an upload body, decided by its name.
#[derive(Clone, Copy, Debug, PartialEq, Eq, Structural)]
pub enum FieldRole {
    /// `note_id`: the note to attach the file to.
    NoteId,
    /// `shelf_id`: the shelf to attach the file to.
    ShelfId,
    /// `file_size`: the advisory total length of the file.
    FileSize,
    /// `file`: the file itself.
    File,
    /// A field without a name, or with any other name.
    Other,
}

/// The role of a field with the given name.
pub open spec fn role_of(name: Option<Seq<char>>) -> FieldRole {
    match name {
        None => FieldRole::Other,
        Some(n) => if n == "note_id"@ {
            FieldRole::NoteId
        } else if n == "shelf_id"@ {
            FieldRole::ShelfId
        } else if n == "file_size"@ {
            FieldRole::FileSize
        } else if n == "file"@ {
            FieldRole::File
        } else {
            FieldRole::Other
        },
    }
}

/// The name of the attach-target field of each kind.
pub open spec fn target_key(note: bool) -> Seq<char> {
    if note {
        "note_id"@
    } else {
        "shelf_id"@
    }
}

/// Detail of the error for a body that does not start with its target.
pub open spec fn missing_target_text() -> Seq<char> {
    "Could not get either note_id nor shelf_id from the multipart body"@
}

/// Detail of the error for a body whose file part is not where it must be.
pub open spec fn missing_file_text() -> Seq<char> {
    "Could not get the file from the multipart body"@
}

/// Detail of the error for a field whose text is not acceptable; it names
/// the field and says what is wrong with the text.
pub open spec fn invalid_field_text(name: Seq<char>, why: Seq<char>) -> Seq<char> {
    "Could not parse "@ + name + " from the multipart body: "@ + why
}

/// The attach target that the text of a target field denotes: a positive
/// decimal `i32`. The error is the detail that names the field.
pub open spec fn target_of(note: bool, text: Seq<char>) -> Result<AttachTarget, Seq<char>> {
    match spec_parse_i32(text) {
        Ok(id) => if id > 0 {
            if note {
                Ok(AttachTarget::NoteId(id))
            } else {
                Ok(AttachTarget::ShelfId(id))
            }
        } else {
            Err(invalid_field_text(target_key(note), decimal(id as int)))
        },
        Err(kind) => Err(invalid_field_text(target_key(note), error_text(kind))),
    }
}

/// The declared size that the text of a size field denotes: a decimal
/// `u64`.
pub open spec fn size_of(text: Seq<char>) -> Result<u64, Seq<char>> {
    match spec_parse_u64(text) {
        Ok(size) => Ok(size),
        Err(kind) => Err(invalid_field_text("file_size"@, error_text(kind))),
    }
}

/// Decides the role of a field by its name.
pub fn classify_field(name: &Option<String>) -> (role: FieldRole)
    ensures
        role == role_of(text_of(*name)),
{
    match name {
        None => FieldRole::Other,
        Some(n) => {
            if str_eq(n.as_str(), "note_id") {
                FieldRole::NoteId
            } else if str_eq(n.as_str(), "shelf_id") {
                FieldRole::ShelfId
            } else if str_eq(n.as_str(), "file_size") {
                FieldRole::FileSize
            } else if str_eq(n.as_str(), "file") {
                FieldRole::File
            } else {
                FieldRole::Other
            }
        },
    }
}

/// The `InvalidFields` error for a field whose text is not acceptable.
pub fn invalid_field(name: &str, why: &str) -> (err: ResError)
    ensures
        err is InvalidFields,
        err.detail() == invalid_field_text(name@, why@),
{
    let mut text = String::from_str("Could not parse ");
    text.append(name);
    text.append(" from the multipart body: ");
    text.append(why);
    ResError::InvalidFields(text)
}

/// The error for an upload whose body is no multipart form at all; `detail`
/// says what is wrong with it.
pub fn not_multipart(detail: String) -> (err: ResError)
    ensures
        err == ResError::InvalidContentType(detail),
{
    ResError::InvalidContentType(detail)
}

/// Reads the text of a target field: `note` tells a note from a shelf.
pub fn parse_attach_target(note: bool, text: &str) -> (res: Result<AttachTarget, ResError>)
    ensures
        match res {
            Ok(target) => target_of(note, text@) == Ok::<AttachTarget, Seq<char>>(target),
            Err(e) => {
                &&& e is InvalidFields
                &&& target_of(note, text@) == Err::<AttachTarget, Seq<char>>(e.detail())
            },
        },
{
    let key = if note { "note_id" } else { "shelf_id" };
    let chars = chars_of(text);
    assert(chars@.subrange(0, chars.len() as int) =~= chars@);
    match parse_i32(&chars, 0, chars.len()) {
        Ok(id) => {
            if id > 0 {
                if note {
                    Ok(AttachTarget::NoteId(id))
                } else {
                    Ok(AttachTarget::ShelfId(id))
                }
            } else {
                let shown = format_i64(id as i64);
                Err(invalid_field(key, shown.as_str()))
            }
        },
        Err(kind) => Err(invalid_field(key, describe_int_error(kind))),
    }
}

/// Reads the text of a size field.
pub fn parse_file_size(text: &str) -> (res: Result<u64, ResError>)
    ensures
        match res {
            Ok(size) => size_of(text@) == Ok::<u64, Seq<char>>(size),
            Err(e) => {
                &&& e is InvalidFields
                &&& size_of(text@) == Err::<u64, Seq<char>>(e.detail())
            },
        },
{
    let chars = chars_of(text);
    assert(chars@.subrange(0, chars.len() as int) =~= chars@);
    match parse_u64(&chars, 0, chars.len()) {
        Ok(size) => Ok(size),
        Err(kind) => Err(invalid_field("file_size", describe_int_error(kind))),
    }
}

/// The four field names differ from one another.
pub proof fn lemma_roles_distinct()
    ensures
        role_of(Some("note_id"@)) == FieldRole::NoteId,
        role_of(Some("shelf_id"@)) == FieldRole::ShelfId,
        role_of(Some("file_size"@)) == FieldRole::FileSize,
        role_of(Some("file"@)) == FieldRole::File,
{
    reveal_strlit("note_id");
    reveal_strlit("shelf_id");
    reveal_strlit("file_size");
    reveal_strlit("file");
    assert("note_id"@.len() == 7);
    assert("shelf_id"@.len() == 8);
    assert("file_size"@.len() == 9);
    assert("file"@.len() == 4);
}

} // verus!
