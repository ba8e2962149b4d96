//! What each route of the service decides. The caller serves the requests
//! and reads and writes the files that these functions name.

use crate::alphabet::is_ascii_alnum;
use crate::paste_id::{
    all_alphanumeric, all_base62, file_name_of, lemma_generated_is_valid, url_of, PasteId,
};
use vstd::prelude::*;

verus! {

/// Number of characters of a fresh identifier.
pub const ID_LENGTH: usize = 3;

/// Address that the service answers on.
pub const HOST: &'static str = "http://localhost:8000";

/// Largest paste that is stored, in KiB.
pub const PASTE_LIMIT_KIB: u64 = 128;

/// The text served at the root.
pub const USAGE: &'static str = "
    USAGE

      POST /

          accepts raw data in the body of the request and responds with a URL of
          a page containing the body's content

      GET /<id>

          retrieves the content for the paste with id `<id>`
    ";

/// Where an accepted paste goes and what the client is told.
pub struct Upload {
    /// The fresh identifier of the paste.
    pub id: PasteId<'static>,
    /// Name of the file to write the paste to.
    pub file_name: String,
    /// What to answer with: the address of the paste.
    pub url: String,
}

/// `GET /`: the usage text.
pub fn index() -> (text: &'static str)
    ensures
        text@ == USAGE@,
{
    USAGE
}

/// `POST /`: draw a fresh identifier of `ID_LENGTH` characters, and name the
/// file to write the body to and the address to answer with, which ends in
/// the identifier. No file is looked at: a paste that already has this
/// identifier is overwritten. The draw can fail as that of `PasteId::new`
/// can.
pub fn upload() -> (plan: Upload)
    ensures
        plan.id@.len() == ID_LENGTH,
        all_base62(plan.id@),
        plan.file_name@ == file_name_of(plan.id@),
        plan.url@ == url_of(HOST@, plan.id@),
{
    let id = PasteId::new(ID_LENGTH);
    let file_name = id.file_name();
    let url = id.url(HOST);
    Upload { id, file_name, url }
}

/// `GET /<id>`: name the file to serve if `id` passes validation, and nothing
/// otherwise, so that no file is looked up for a malformed identifier.
pub fn retrieve(id: &str) -> (file_name: Option<String>)
    ensures
        file_name is Some <==> all_alphanumeric(id@),
        file_name matches Some(name) ==> name@ == file_name_of(id@),
{
    match PasteId::from_param(id) {
        Ok(id) => Some(id.file_name()),
        Err(_) => None,
    }
}

/// The answer to an upload ends in a slash and the identifier, whose three
/// characters are ASCII alphanumeric: nothing follows the identifier.
pub proof fn lemma_answer_ends_in_identifier(plan: Upload)
    requires
        call_ensures(upload, (), plan),
    ensures
        plan.url@.len() == HOST@.len() + 4,
        plan.url@[plan.url@.len() - 4] == '/',
        plan.url@.subrange(plan.url@.len() - 3, plan.url@.len() as int) == plan.id@,
        all_alphanumeric(plan.id@),
{
    lemma_generated_is_valid(plan.id@);
    assert(plan.url@.subrange(plan.url@.len() - 3, plan.url@.len() as int) =~= plan.id@);
}

/// A paste is found where it was put: for the identifier that `upload`
/// answered with, `retrieve` names the file that `upload` named.
pub proof fn lemma_upload_is_retrievable(plan: Upload, id: &str, found: Option<String>)
    requires
        call_ensures(upload, (), plan),
        id@ == plan.id@,
        call_ensures(retrieve, (id,), found),
    ensures
        found matches Some(name) && name@ == plan.file_name@,
{
    lemma_generated_is_valid(plan.id@);
}

/// No file is looked up for a path segment that holds anything but ASCII
/// alphanumeric characters, such as a slash, a dot or other punctuation.
pub proof fn lemma_malformed_is_not_looked_up(id: &str, at: int, found: Option<String>)
    requires
        0 <= at < id@.len(),
        !is_ascii_alnum(id@[at]),
        call_ensures(retrieve, (id,), found),
    ensures
        found is None,
{
}

} // verus!
