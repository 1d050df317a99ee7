//! Who may read and change notes, and how a change is applied.

use vstd::prelude::*;
use vstd::string::*;
use vstd::utf8::encode_utf8;
use crate::error::Error;
use crate::model::{Note, UpdateNoteRequest, User};

verus! {

/// The user listing their notes; a request with no user is refused with
/// `BadRequest`.
pub fn note_lister(user_data: Option<User>) -> (r: Result<User, Error>)
    ensures
        user_data matches Some(u) ==> r matches Ok(v) && v == u,
        user_data is None ==> (r matches Err(e) && e is BadRequest),
{
    match user_data {
        Some(u) => Ok(u),
        None => Err(Error::BadRequest),
    }
}

/// The user acting on a note; a request with no user is refused with
/// `Unauthorized`.
pub fn acting_user(user_data: Option<User>) -> (r: Result<User, Error>)
    ensures
        user_data matches Some(u) ==> r matches Ok(v) && v == u,
        user_data is None ==> (r matches Err(e) && e is Unauthorized),
{
    match user_data {
        Some(u) => Ok(u),
        None => Err(Error::Unauthorized),
    }
}

/// The note answered for a read, given the lookup of the notes the user
/// owns or was shared: none is refused with `Forbidden`.
pub fn readable_note(lookup: Result<Option<Note>, Error>) -> (r: Result<Note, Error>)
    ensures
        lookup matches Err(e) ==> r matches Err(e2) && e2 == e,
        lookup matches Ok(Some(n)) ==> r matches Ok(m) && m == n,
        lookup matches Ok(None) ==> r matches Err(e) && e is Forbidden,
{
    match lookup {
        Err(e) => Err(e),
        Ok(Some(n)) => Ok(n),
        Ok(None) => Err(Error::Forbidden),
    }
}

/// Shortest query, in bytes, that a search runs for.
pub const MIN_QUERY_LEN: usize = 3;

/// Whether a search runs for the query; a shorter query is answered with
/// no notes and no search.
pub fn search_runs(q: &String) -> (r: bool)
    ensures
        r == ((encode_utf8(q@).len() as usize) >= MIN_QUERY_LEN),
{
    let s = q.as_str();
    assert(s@ == q@);
    s.len() >= MIN_QUERY_LEN
}

/// A change to a note.
#[derive(Debug, Clone, Copy, PartialEq, Eq, Structural)]
pub enum NoteWrite {
    Update,
    Delete,
    Share,
}

/// What a change to a note comes to.
pub enum WriteOutcome {
    /// Nothing to do; the request succeeds.
    Nothing,
    /// The change is refused with `Forbidden`.
    Deny,
    /// The change goes ahead.
    Allow,
}

/// What a change by user `user_id` comes to, for the note found among those
/// the user owns or was shared: only the owner may change a note. Deleting
/// a note that was not found does nothing.
pub open spec fn write_outcome(op: NoteWrite, user_id: u128, found: Option<Note>) -> WriteOutcome {
    match found {
        None => if op == NoteWrite::Delete { WriteOutcome::Nothing } else { WriteOutcome::Deny },
        Some(n) => if n.user_id != user_id { WriteOutcome::Deny } else { WriteOutcome::Allow },
    }
}

/// The next step of a change to a note.
pub enum WriteStep {
    /// End the request with this result.
    Respond(Result<(), Error>),
    /// Go ahead with the change on this note.
    Proceed(Note),
}

/// The step after looking up the note to change: a failed lookup ends the
/// request with its error.
pub fn authorize_write(op: NoteWrite, user_id: u128, lookup: Result<Option<Note>, Error>) -> (s: WriteStep)
    ensures
        lookup matches Err(e) ==> s matches WriteStep::Respond(Err(e2)) && e2 == e,
        lookup matches Ok(found) ==> match write_outcome(op, user_id, found) {
            WriteOutcome::Nothing => s matches WriteStep::Respond(Ok(())),
            WriteOutcome::Deny => s matches WriteStep::Respond(Err(e)) && e is Forbidden,
            WriteOutcome::Allow => s == WriteStep::Proceed(found.unwrap()),
        },
{
    match lookup {
        Err(e) => WriteStep::Respond(Err(e)),
        Ok(None) => {
            match op {
                NoteWrite::Delete => WriteStep::Respond(Ok(())),
                _ => WriteStep::Respond(Err(Error::Forbidden)),
            }
        },
        Ok(Some(n)) => {
            if n.user_id != user_id {
                WriteStep::Respond(Err(Error::Forbidden))
            } else {
                WriteStep::Proceed(n)
            }
        },
    }
}

/// A field after a change: the new value where one is given.
pub open spec fn patched(old: Seq<char>, new: Option<Seq<char>>) -> Seq<char> {
    match new {
        Some(v) => v,
        None => old,
    }
}

/// Whether a change alters a field.
pub open spec fn alters(old: Seq<char>, new: Option<Seq<char>>) -> bool {
    new matches Some(v) && v != old
}

/// A field of the note after a change, and whether the change altered it.
fn patch_field(field: String, new: Option<String>) -> (r: (String, bool))
    ensures
        r.0@ == patched(field@, new.deep_view()),
        r.1 == alters(field@, new.deep_view()),
        new matches Some(v) ==> r.0@ == v@ && r.1 == (v@ != field@),
        new is None ==> r.0@ == field@ && !r.1,
{
    match new {
        Some(v) => {
            if v != field {
                (v, true)
            } else {
                (field, false)
            }
        },
        None => (field, false),
    }
}

/// The note after a change, and whether the change altered it; only an
/// altered note is written back.
pub fn apply_note_update(note: Note, changes: UpdateNoteRequest) -> (r: (Note, bool))
    ensures
        r.0.id == note.id,
        r.0.user_id == note.user_id,
        r.0.created_at == note.created_at,
        r.0.title@ == patched(note.title@, changes.title.deep_view()),
        r.0.content@ == patched(note.content@, changes.content.deep_view()),
        r.1 == (alters(note.title@, changes.title.deep_view())
            || alters(note.content@, changes.content.deep_view())),
        r.1 == ((changes.title matches Some(t) && t@ != note.title@)
            || (changes.content matches Some(c) && c@ != note.content@)),
{
    let Note { id, user_id, title, content, created_at } = note;
    let UpdateNoteRequest { title: new_title, content: new_content } = changes;
    let (title, title_altered) = patch_field(title, new_title);
    let (content, content_altered) = patch_field(content, new_content);
    (Note { id, user_id, title, content, created_at }, title_altered || content_altered)
}

/// A field given a value different from its current one is altered, and a
/// field given no value or its current value is not; the field then holds
/// the value given.
pub proof fn alters_exactly_on_a_new_value(old: Seq<char>, new: Option<Seq<char>>)
    ensures
        new matches Some(v) && v != old ==> alters(old, new),
        new matches Some(v) && v == old ==> !alters(old, new),
        new is None ==> !alters(old, new),
        new matches Some(v) ==> patched(old, new) == v,
        new is None ==> patched(old, new) == old,
{
}

/// Only the owner of a note may change it, whatever the change.
pub proof fn only_owner_writes(op: NoteWrite, user_id: u128, found: Option<Note>)
    requires
        write_outcome(op, user_id, found) == WriteOutcome::Allow,
    ensures
        found matches Some(n) && n.user_id == user_id,
{
}

/// A change applied twice alters the note only the first time, and leaves
/// it as the first application did.
pub proof fn note_update_idempotent(title: Seq<char>, content: Seq<char>, new_title: Option<Seq<char>>, new_content: Option<Seq<char>>)
    ensures
        patched(patched(title, new_title), new_title) == patched(title, new_title),
        patched(patched(content, new_content), new_content) == patched(content, new_content),
        !alters(patched(title, new_title), new_title),
        !alters(patched(content, new_content), new_content),
{
}

/// A change that gives no field, or gives each field its current value,
/// does not alter the note.
pub proof fn unchanged_fields_do_not_alter(title: Seq<char>, content: Seq<char>, new_title: Option<Seq<char>>, new_content: Option<Seq<char>>)
    requires
        new_title is None || new_title == Some(title),
        new_content is None || new_content == Some(content),
    ensures
        !alters(title, new_title),
        !alters(content, new_content),
        patched(title, new_title) == title,
        patched(content, new_content) == content,
{
}

} // verus!
