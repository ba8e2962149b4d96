//! Paste identifiers: how they are generated, validated and rendered.

use crate::alphabet::{
    base62_symbol, is_ascii_alnum, is_base62, lemma_base62_is_alphanumeric, symbol,
};
use crate::random::sample;
use std::borrow::Cow;
use vstd::prelude::*;
use vstd::string::*;

verus! {

/// Directory prefix of the file that holds a paste.
pub const UPLOAD_PREFIX: &'static str = "upload/";

/// Every character of `s` is a symbol of the base62 alphabet.
pub open spec fn all_base62(s: Seq<char>) -> bool {
    forall|i: int| 0 <= i < s.len() ==> is_base62(#[trigger] s[i])
}

/// Every character of `s` is an ASCII alphanumeric character.
pub open spec fn all_alphanumeric(s: Seq<char>) -> bool {
    forall|i: int| 0 <= i < s.len() ==> is_ascii_alnum(#[trigger] s[i])
}

/// Name of the file that holds the paste with identifier `id`.
pub open spec fn file_name_of(id: Seq<char>) -> Seq<char> {
    UPLOAD_PREFIX@ + id
}

/// Address of the paste with identifier `id` on `host`: the host, a slash and
/// the identifier, with nothing after it.
pub open spec fn url_of(host: Seq<char>, id: Seq<char>) -> Seq<char> {
    host + seq!['/'] + id
}

/// A _probably_ unique paste ID.
///
/// Its view is the text of the identifier. However it was made, that text
/// holds ASCII alphanumeric characters only.
pub struct PasteId<'a>(Cow<'a, str>);

impl<'a> View for PasteId<'a> {
    type V = Seq<char>;

    closed spec fn view(&self) -> Seq<char> {
        self.0@
    }
}

impl<'a> PasteId<'a> {
    /// Both ways to make an identifier, generation and validation, leave ASCII
    /// alphanumeric characters only.
    #[verifier::type_invariant]
    spec fn well_formed(&self) -> bool {
        all_alphanumeric(self.0@)
    }

    /// Generate a _probably_ unique ID with `size` characters. For readability,
    /// the characters used are from the sets [0-9], [A-Z], [a-z]. The
    /// probability of a collision depends on the value of `size` and the number
    /// of IDs generated thus far.
    ///
    /// Each character is the table entry that one sample of the thread's
    /// random generator selects. The contract states what holds whatever was
    /// drawn; nothing makes two identifiers differ.
    ///
    /// The random source can fail, and then this function panics: when the
    /// system cannot seed the thread's generator at its first use, and at a
    /// draw when the generator is due for a reseed and the system gives no
    /// entropy. That is a failure of the system, outside this contract.
    pub fn new(size: usize) -> (id: PasteId<'static>)
        ensures
            id@.len() == size,
            all_base62(id@),
    {
        let mut id = String::new();
        let mut rng = rand::thread_rng();
        for n in 0..size
            invariant
                id@.len() == n,
                all_base62(id@),
        {
            let drawn = sample(&mut rng);
            let ghost before = id@;
            id.append(symbol(drawn));
            assert(id@ =~= before.push(base62_symbol(drawn as int % 62)));
        }
        proof {
            lemma_generated_is_valid(id@);
        }
        PasteId(Cow::Owned(id))
    }

    /// Accept `param` as an identifier if and only if every character of it is
    /// ASCII alphanumeric. Nothing else is asked of it: neither a length nor
    /// that it is not empty. The accepted identifier is the text unchanged; a
    /// rejection hands the text back.
    pub fn from_param(param: &'a str) -> (outcome: Result<PasteId<'a>, &'a str>)
        ensures
            outcome is Ok <==> all_alphanumeric(param@),
            outcome matches Ok(id) ==> id@ == param@,
            outcome matches Err(rejected) ==> rejected@ == param@,
    {
        for c in it: param.chars()
            invariant
                it.seq() == param@,
                all_alphanumeric(param@.take(it.index())),
        {
            if !c.is_ascii_alphanumeric() {
                return Err(param);
            }
        }
        assert(param@.take(param@.len() as int) =~= param@);
        Ok(PasteId(Cow::Borrowed(param)))
    }

    /// The identifier's characters, as they stand.
    pub fn as_str(&self) -> (text: &str)
        ensures
            text@ == self@,
            all_alphanumeric(text@),
    {
        proof {
            use_type_invariant(self);
        }
        match &self.0 {
            Cow::Borrowed(text) => text,
            Cow::Owned(text) => text.as_str(),
        }
    }

    /// Render the identifier to text: its characters verbatim.
    pub fn to_text(&self) -> (text: String)
        ensures
            text@ == self@,
            all_alphanumeric(text@),
    {
        String::from_str(self.as_str())
    }

    /// Name of the file that holds this paste: the upload directory's prefix,
    /// then the identifier.
    pub fn file_name(&self) -> (name: String)
        ensures
            name@ == file_name_of(self@),
    {
        String::from_str(UPLOAD_PREFIX).concat(self.as_str())
    }

    /// Address of this paste on `host`: the host, a slash and the identifier.
    /// The address ends with the identifier.
    pub fn url(&self, host: &str) -> (url: String)
        ensures
            url@ == url_of(host@, self@),
    {
        proof {
            reveal_strlit("/");
        }
        let mut url = String::from_str(host);
        url.append("/");
        url.append(self.as_str());
        url
    }
}

/// Round trip: a text of ASCII alphanumeric characters is accepted by
/// `from_param`, and the accepted identifier renders to that text unchanged.
pub proof fn lemma_round_trip<'a>(
    candidate: &'a str,
    outcome: Result<PasteId<'a>, &'a str>,
    text: String,
)
    requires
        all_alphanumeric(candidate@),
        call_ensures(PasteId::from_param, (candidate,), outcome),
        outcome matches Ok(id) ==> call_ensures(PasteId::to_text, (&id,), text),
    ensures
        outcome is Ok,
        text@ == candidate@,
{
}

/// Rendering is stable: two renderings of one identifier are the same text.
pub proof fn lemma_rendering_is_stable(id: PasteId, first: String, second: String)
    requires
        call_ensures(PasteId::to_text, (&id,), first),
        call_ensures(PasteId::to_text, (&id,), second),
    ensures
        first@ == second@,
{
}

/// Whatever the generator produces passes validation: a text of alphabet
/// symbols is a text of ASCII alphanumeric characters.
pub proof fn lemma_generated_is_valid(s: Seq<char>)
    requires
        all_base62(s),
    ensures
        all_alphanumeric(s),
{
    assert forall|i: int| 0 <= i < s.len() implies is_ascii_alnum(#[trigger] s[i]) by {
        lemma_base62_is_alphanumeric(s[i]);
    }
}

} // verus!
