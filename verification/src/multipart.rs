//! The upload ingestor's pure rules: how repeated multipart text fields
//! resolve (last value wins), how the required `name` field is extracted, how
//! a collision-free stored file name is derived from a per-request nonce, and
//! how the on-disk path is stripped to the public URL path. Reading the
//! request body and writing the file are the caller's work; this module
//! decides what the values must be.

use vstd::prelude::*;
use vstd::string::{StrSliceExecFns, StringExecFns};

use crate::digits::{dec_rep, lemma_dec_rep_injective, u64_to_dec};
use crate::errors::UserError;

verus! {

/// The views of a list of multipart text fields, in arrival order.
pub open spec fn text_views(pairs: Seq<(String, String)>) -> Seq<(Seq<char>, Seq<char>)> {
    pairs.map_values(|p: (String, String)| (p.0@, p.1@))
}

/// The value a repeated text field resolves to: the value of its last
/// occurrence, or `None` when the field never occurs.
pub open spec fn last_text_value(
    pairs: Seq<(Seq<char>, Seq<char>)>,
    key: Seq<char>,
) -> Option<Seq<char>>
    decreases pairs.len(),
{
    if pairs.len() == 0 {
        None
    } else if pairs.last().0 == key {
        Some(pairs.last().1)
    } else {
        last_text_value(pairs.drop_last(), key)
    }
}

/// True when the text fields carry a usable `name`: present and non-empty.
pub open spec fn name_ok(pairs: Seq<(String, String)>) -> bool {
    match last_text_value(text_views(pairs), "name"@) {
        Some(v) => v.len() > 0,
        None => false,
    }
}

/// Looks a text field up by name, resolving repeats to the last value.
pub fn lookup_text(texts: &Vec<(String, String)>, key: &str) -> (r: Option<String>)
    ensures
        match r {
            Some(v) => last_text_value(text_views(texts@), key@) == Some(v@),
            None => last_text_value(text_views(texts@), key@) is None,
        },
{
    let key_string = String::from_str(key);
    let ghost views = text_views(texts@);
    let n = texts.len();
    let mut j: usize = n;
    assert(views.take(n as int) =~= views);
    while j > 0
        invariant
            j <= n,
            n == texts@.len(),
            views == text_views(texts@),
            views.len() == n,
            key_string@ == key@,
            last_text_value(views.take(j as int), key@) == last_text_value(views, key@),
        decreases j,
    {
        let pair = &texts[j - 1];
        if pair.0 == key_string {
            assert(views.take(j as int).last() == (texts@[j - 1].0@, texts@[j - 1].1@));
            return Some(pair.1.clone());
        }
        assert(views.take(j as int).drop_last() =~= views.take(j - 1));
        j = j - 1;
    }
    assert(views.take(0) =~= Seq::<(Seq<char>, Seq<char>)>::empty());
    None
}

/// Extracts the required `name` field.
///
/// Succeeds exactly when a `name` text field is present with a non-empty
/// value (the last occurrence counts); a missing or empty name is a
/// validation failure.
pub fn extract_name(texts: &Vec<(String, String)>) -> (r: Result<String, UserError>)
    ensures
        match r {
            Ok(v) => name_ok(texts@) && last_text_value(text_views(texts@), "name"@) == Some(v@)
                && v@.len() > 0,
            Err(e) => !name_ok(texts@) && e == UserError::ValidationError,
        },
{
    match lookup_text(texts, "name") {
        Some(v) => {
            if v.as_str().unicode_len() == 0 {
                Err(UserError::ValidationError)
            } else {
                Ok(v)
            }
        },
        None => Err(UserError::ValidationError),
    }
}

/// The server-chosen stored file name for an upload, derived from a
/// per-request nonce.
pub open spec fn stored_name_rep(nonce: u64) -> Seq<char> {
    "cat_"@ + dec_rep(nonce as nat)
}

/// The path under the upload directory that a stored file name lands at.
pub open spec fn disk_path_rep(file: Seq<char>) -> Seq<char> {
    "./image/"@ + file
}

/// The public URL path a stored file is served from.
pub open spec fn public_path_rep(file: Seq<char>) -> Seq<char> {
    "/image/"@ + file
}

/// Builds the collision-free stored file name for an upload. The caller
/// supplies a nonce it never repeats; distinct nonces give distinct names
/// (see [`lemma_stored_names_distinct`]), whatever name the client gave the
/// file.
pub fn stored_file_name(nonce: u64) -> (r: String)
    ensures
        r@ == stored_name_rep(nonce),
{
    let mut s = String::from_str("cat_");
    let digits = u64_to_dec(nonce);
    s.append(digits.as_str());
    s
}

/// Builds the on-disk path the upload is persisted at.
pub fn stored_disk_path(file: &str) -> (r: String)
    ensures
        r@ == disk_path_rep(file@),
{
    let mut s = String::from_str("./image/");
    s.append(file);
    s
}

/// Strips the leading relative-path marker from an on-disk path, leaving the
/// public URL path. Fails as a validation failure when the path does not
/// begin with `.`.
pub fn strip_dot_prefix(p: &str) -> (r: Result<String, UserError>)
    ensures
        match r {
            Ok(s) => p@.len() >= 1 && p@[0] == '.' && s@ == p@.drop_first(),
            Err(e) => !(p@.len() >= 1 && p@[0] == '.') && e == UserError::ValidationError,
        },
{
    let len = p.unicode_len();
    if len == 0 {
        return Err(UserError::ValidationError);
    }
    if p.get_char(0) != '.' {
        return Err(UserError::ValidationError);
    }
    let rest = p.substring_char(1, len);
    assert(rest@ =~= p@.drop_first());
    Ok(String::from_str(rest))
}

/// Appending to a common prefix keeps distinct suffixes distinct.
proof fn lemma_prepend_cancels(p: Seq<char>, x: Seq<char>, y: Seq<char>)
    requires
        p + x == p + y,
    ensures
        x == y,
{
    assert(x =~= (p + x).subrange(p.len() as int, (p + x).len() as int));
    assert(y =~= (p + y).subrange(p.len() as int, (p + y).len() as int));
}

/// Distinct nonces derive distinct stored file names, so concurrent uploads
/// never collide on a file, whatever the client-side names were.
pub proof fn lemma_stored_names_distinct(a: u64, b: u64)
    requires
        a != b,
    ensures
        stored_name_rep(a) != stored_name_rep(b),
{
    if stored_name_rep(a) == stored_name_rep(b) {
        lemma_prepend_cancels("cat_"@, dec_rep(a as nat), dec_rep(b as nat));
        lemma_dec_rep_injective(a as nat, b as nat);
    }
}

/// Distinct stored file names reach the store as distinct public image
/// paths: the rows created by concurrent uploads never share a path.
pub proof fn lemma_public_paths_distinct(a: u64, b: u64)
    requires
        a != b,
    ensures
        public_path_rep(stored_name_rep(a)) != public_path_rep(stored_name_rep(b)),
{
    if public_path_rep(stored_name_rep(a)) == public_path_rep(stored_name_rep(b)) {
        lemma_prepend_cancels("/image/"@, stored_name_rep(a), stored_name_rep(b));
        lemma_stored_names_distinct(a, b);
    }
}

/// End to end: the image paths persisted for two uploads with distinct
/// nonces differ. The create flow stores the stripped disk path of the
/// server-chosen file name, and those strip to distinct public paths.
pub proof fn lemma_created_rows_have_distinct_paths(a: u64, b: u64)
    requires
        a != b,
    ensures
        disk_path_rep(stored_name_rep(a)).drop_first() != disk_path_rep(
            stored_name_rep(b),
        ).drop_first(),
{
    lemma_disk_path_strips_to_public(stored_name_rep(a));
    lemma_disk_path_strips_to_public(stored_name_rep(b));
    lemma_public_paths_distinct(a, b);
}

/// The on-disk path of a stored file strips to exactly its public URL path:
/// what the create flow persists in a row is the path the image is later
/// served from.
pub proof fn lemma_disk_path_strips_to_public(file: Seq<char>)
    ensures
        disk_path_rep(file).len() >= 1,
        disk_path_rep(file)[0] == '.',
        disk_path_rep(file).drop_first() == public_path_rep(file),
        public_path_rep(file).len() >= 1,
        public_path_rep(file)[0] == '/',
{
    reveal_strlit("./image/");
    reveal_strlit("/image/");
    assert(disk_path_rep(file)[0] == '.');
    assert(disk_path_rep(file).drop_first() =~= public_path_rep(file));
    assert(public_path_rep(file)[0] == '/');
}

} // verus!
