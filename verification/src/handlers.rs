//! The request handlers' decision logic. Each endpoint is a function from
//! plain request values (and the record store) to a reply: a status code and
//! a body. Transport, connection pooling and blocking-worker dispatch happen
//! outside; when they fail, their outcomes are mapped here too, so the whole
//! error taxonomy stays in one place.
//!
//! Ordering is pinned as the validation layer demands: input is validated
//! before any resource is acquired. For the create endpoint that means
//! [`validate_create`] runs before the upload is persisted and before a store
//! connection is taken; a request that fails validation writes no file and
//! inserts no row.

use vstd::prelude::*;
use vstd::string::StrSliceExecFns;

use crate::digits::dec_rep;
use crate::errors::UserError;
use crate::models::{Cat, NewCat};
use crate::multipart::{last_text_value, name_ok, strip_dot_prefix, text_views};
use crate::repo::{capped_len, has_id, Repository};
use crate::validation::{
    lemma_render_then_parse, parse_and_validate_id, parsed_id, parses_in_range,
};

verus! {

/// A reply body: empty, one record, or a page of records.
pub enum ReplyBody {
    Empty,
    Record(Cat),
    Records(Vec<Cat>),
}

/// What an endpoint answers: an HTTP status code and a body.
pub struct Reply {
    pub status: u16,
    pub body: ReplyBody,
}

/// How the relational store reports a failed operation: the row was not
/// there, or something else went wrong.
pub enum DbError {
    NotFound,
    Other,
}

/// Converts a failure into the reply it is surfaced as: its status code, an
/// empty body.
pub fn error_reply(e: &UserError) -> (r: Reply)
    ensures
        r.status == e.status_spec(),
        r.body is Empty,
{
    Reply { status: e.status_code(), body: ReplyBody::Empty }
}

/// The status the get-by-id endpoint answers for a store and a raw path
/// segment: 400 for input that fails validation — decided without reading
/// the store — 404 when no row carries the id, 200 otherwise.
pub open spec fn get_status(s: Seq<Cat>, raw: Seq<char>) -> u16 {
    if !parses_in_range(raw) {
        400
    } else if has_id(s, parsed_id(raw)) {
        200
    } else {
        404
    }
}

/// The list endpoint: up to 100 records from the store, in storage order,
/// with status 200.
pub fn handle_list(repo: &Repository) -> (r: Reply)
    requires
        repo.wf(),
    ensures
        r.status == 200,
        (match r.body {
            ReplyBody::Records(v) => {
                &&& v@.len() == capped_len(repo.records(), 100)
                &&& forall|i: int|
                    0 <= i < v@.len() ==> (#[trigger] v@[i]).same_record(repo.records()[i])
                &&& forall|i: int| 0 <= i < v@.len() ==> (#[trigger] v@[i]).wf()
            },
            _ => false,
        }),
{
    Reply { status: 200, body: ReplyBody::Records(repo.list(100)) }
}

/// The get-by-id endpoint: validates the raw path segment, then looks the
/// record up. Validation failures answer 400 before the store is read; a
/// missing row answers 404; a present row answers 200 with the record.
pub fn handle_get(repo: &Repository, raw_id: &str) -> (r: Reply)
    requires
        repo.wf(),
    ensures
        r.status == get_status(repo.records(), raw_id@),
        (match r.body {
            ReplyBody::Record(c) => r.status == 200 && c.wf() && c.id == parsed_id(raw_id@)
                && exists|i: int|
                0 <= i < repo.records().len() && c.same_record(#[trigger] repo.records()[i]),
            ReplyBody::Empty => r.status != 200,
            ReplyBody::Records(_) => false,
        }),
{
    let parsed = match parse_and_validate_id(raw_id) {
        Ok(v) => v,
        Err(e) => {
            return error_reply(&e);
        },
    };
    match repo.get_by_id(parsed) {
        Ok(c) => Reply { status: 200, body: ReplyBody::Record(c) },
        Err(e) => error_reply(&e),
    }
}

/// Validates the create endpoint's input before any resource is used: the
/// `name` text field must be present and non-empty (its last occurrence
/// counts), and a file part must have arrived. A missing or empty name is a
/// validation failure; a missing file part is a missing upload. Both answer
/// 400; neither writes a file nor touches the store.
pub fn validate_create(texts: &Vec<(String, String)>, has_image: bool) -> (r: Result<
    String,
    UserError,
>)
    ensures
        match r {
            Ok(v) => name_ok(texts@) && has_image && last_text_value(text_views(texts@), "name"@)
                == Some(v@) && v@.len() > 0,
            Err(e) => {
                &&& !(name_ok(texts@) && has_image)
                &&& e == (if !name_ok(texts@) {
                    UserError::ValidationError
                } else {
                    UserError::MissingUpload
                })
            },
        },
{
    let name = match crate::multipart::extract_name(texts) {
        Ok(n) => n,
        Err(e) => {
            return Err(e);
        },
    };
    if !has_image {
        return Err(UserError::MissingUpload);
    }
    Ok(name)
}

/// True of the on-disk paths the create endpoint accepts: under the
/// relative-path marker, so that stripping it leaves a server-relative URL
/// path.
pub open spec fn valid_disk_path(s: Seq<char>) -> bool {
    s.len() >= 2 && s[0] == '.' && s[1] == '/'
}

/// The create endpoint's store phase, run after validation succeeded and the
/// upload was persisted at `stored_path`: strips the relative-path marker,
/// builds the creation input and inserts it. Answers 201 with an empty body
/// on success; a malformed stored path answers 400; a rejected insert
/// answers 500. A failure after the file was written leaves the file on
/// disk: that inconsistency is accepted, not rolled back.
pub fn handle_create(repo: &mut Repository, name: String, stored_path: &str) -> (r: Reply)
    requires
        old(repo).wf(),
        name@.len() > 0,
    ensures
        final(repo).wf(),
        r.body is Empty,
        !valid_disk_path(stored_path@) ==> r.status == 400 && final(repo).records() == old(
            repo,
        ).records() && final(repo).spec_next_id() == old(repo).spec_next_id(),
        valid_disk_path(stored_path@) && old(repo).spec_next_id() == i32::MAX ==> r.status == 500
            && final(repo).records() == old(repo).records() && final(repo).spec_next_id() == old(
            repo,
        ).spec_next_id(),
        valid_disk_path(stored_path@) && old(repo).spec_next_id() < i32::MAX ==> {
            &&& r.status == 201
            &&& final(repo).records().len() == old(repo).records().len() + 1
            &&& final(repo).records().drop_last() == old(repo).records()
            &&& final(repo).records().last().id == old(repo).spec_next_id()
            &&& final(repo).records().last().name@ == name@
            &&& final(repo).records().last().image_path@ == stored_path@.drop_first()
            &&& final(repo).spec_next_id() == old(repo).spec_next_id() + 1
        },
{
    let stripped = match strip_dot_prefix(stored_path) {
        Ok(s) => s,
        Err(e) => {
            return error_reply(&e);
        },
    };
    if stripped.as_str().unicode_len() == 0 {
        return error_reply(&UserError::ValidationError);
    }
    if stripped.as_str().get_char(0) != '/' {
        return error_reply(&UserError::ValidationError);
    }
    let nc = NewCat { name, image_path: stripped };
    match repo.insert(nc) {
        Ok(_) => Reply { status: 201, body: ReplyBody::Empty },
        Err(e) => error_reply(&e),
    }
}

/// Maps the outcome of the store's bounded list, run on a blocking worker,
/// to a reply: the rows with status 200 — never more than the page cap of
/// 100, whatever came back — or 500 for any store failure.
pub fn list_reply(outcome: Result<Vec<Cat>, DbError>) -> (r: Reply)
    ensures
        match outcome {
            Ok(v) => r.status == 200 && (match r.body {
                ReplyBody::Records(w) => {
                    &&& w@.len() == capped_len(v@, 100)
                    &&& forall|i: int|
                        0 <= i < w@.len() ==> (#[trigger] w@[i]).same_record(v@[i])
                },
                _ => false,
            }),
            Err(_) => r.status == 500 && r.body is Empty,
        },
{
    match outcome {
        Ok(mut v) => {
            if v.len() > 100 {
                v.truncate(100);
            }
            proof {
                assert(forall|i: int| 0 <= i < v@.len() ==> (#[trigger] v@[i]).same_record(v@[i]));
            }
            Reply { status: 200, body: ReplyBody::Records(v) }
        },
        Err(_) => error_reply(&UserError::UnexpectedError),
    }
}

/// Maps the outcome of the store's point lookup to a reply: the record with
/// status 200, 404 when the row was not there, 500 for any other failure.
pub fn get_reply(outcome: Result<Cat, DbError>) -> (r: Reply)
    ensures
        match outcome {
            Ok(c) => r.status == 200 && (match r.body {
                ReplyBody::Record(rc) => rc.same_record(c),
                _ => false,
            }),
            Err(DbError::NotFound) => r.status == 404 && r.body is Empty,
            Err(DbError::Other) => r.status == 500 && r.body is Empty,
        },
{
    match outcome {
        Ok(c) => Reply { status: 200, body: ReplyBody::Record(c) },
        Err(DbError::NotFound) => error_reply(&UserError::NotFoundError),
        Err(DbError::Other) => error_reply(&UserError::UnexpectedError),
    }
}

/// Maps the outcome of the store's insert to a reply: 201 with an empty body
/// on success, 500 for any store failure.
pub fn insert_reply(outcome: Result<(), DbError>) -> (r: Reply)
    ensures
        match outcome {
            Ok(_) => r.status == 201 && r.body is Empty,
            Err(_) => r.status == 500 && r.body is Empty,
        },
{
    match outcome {
        Ok(_) => Reply { status: 201, body: ReplyBody::Empty },
        Err(_) => error_reply(&UserError::UnexpectedError),
    }
}

/// An id in the accepted range whose row is absent answers 404: the decimal
/// rendering of any such id passes validation and the lookup then misses.
pub proof fn lemma_get_missing_row_is_404(s: Seq<Cat>, id: int)
    requires
        1 <= id <= 150,
        !has_id(s, id),
    ensures
        get_status(s, dec_rep(id as nat)) == 404,
{
    lemma_render_then_parse(id as nat);
}

/// Input that fails validation answers 400 whatever the store holds: the
/// decision reads no record at all.
pub proof fn lemma_get_invalid_is_400(s1: Seq<Cat>, s2: Seq<Cat>, raw: Seq<char>)
    requires
        !parses_in_range(raw),
    ensures
        get_status(s1, raw) == 400,
        get_status(s2, raw) == 400,
{
}

/// The boundary values 0 and 151 parse as integers but lie outside the
/// accepted range, so both answer 400 for every store.
pub proof fn lemma_get_range_bounds_are_400(s: Seq<Cat>)
    ensures
        get_status(s, dec_rep(0)) == 400,
        get_status(s, dec_rep(151)) == 400,
{
    lemma_render_then_parse(0);
    lemma_render_then_parse(151);
}

} // verus!
