//! Reading the head revision of the default branch out of a reference listing.

use vstd::prelude::*;
use vstd::string::StringExecFns;

verus! {

/// The reference that names the default branch.
pub const DEFAULT_BRANCH_REF: &'static str = "refs/heads/main";

/// Why a probe did not yield a revision.
#[derive(Clone, Copy, Debug, PartialEq, Eq, Structural)]
pub enum ProbeError {
    /// The request did not complete.
    Transport,
    /// The listing has no entry for the default branch.
    NotFound,
    /// The response is not a listing, or the branch entry carries no revision.
    MalformedResponse,
}

/// The words for a probe error.
pub open spec fn probe_error_text(e: ProbeError) -> Seq<char> {
    match e {
        ProbeError::Transport => "transport error"@,
        ProbeError::NotFound => "reference not found"@,
        ProbeError::MalformedResponse => "malformed response"@,
    }
}

impl ProbeError {
    /// The error in words.
    pub fn describe(&self) -> (text: &'static str)
        ensures
            text@ == probe_error_text(*self),
    {
        match self {
            ProbeError::Transport => "transport error",
            ProbeError::NotFound => "reference not found",
            ProbeError::MalformedResponse => "malformed response",
        }
    }
}

/// One element of a reference listing, reduced to the two texts that matter:
/// the reference name and the commit it points to. A text is absent where the
/// element has no string in that place.
#[derive(Debug, PartialEq, Eq)]
pub struct RefEntry {
    pub name: Option<String>,
    pub sha: Option<String>,
}

/// The mathematical content of a [`RefEntry`].
pub struct RefRecord {
    pub name: Option<Seq<char>>,
    pub sha: Option<Seq<char>>,
}

/// The characters of an optional string.
pub open spec fn opt_text(o: Option<String>) -> Option<Seq<char>> {
    match o {
        Some(s) => Some(s@),
        None => None,
    }
}

/// The characters of a string result; the error is kept.
pub open spec fn text_result<E>(r: Result<String, E>) -> Result<Seq<char>, E> {
    match r {
        Ok(s) => Ok(s@),
        Err(e) => Err(e),
    }
}

impl View for RefEntry {
    type V = RefRecord;

    open spec fn view(&self) -> RefRecord {
        RefRecord { name: opt_text(self.name), sha: opt_text(self.sha) }
    }
}

/// The records of a vector of entries, in order.
pub open spec fn listing_view(entries: Seq<RefEntry>) -> Seq<RefRecord> {
    entries.map_values(|e: RefEntry| e@)
}

/// Whether a record is the entry of the default branch.
pub open spec fn names_branch(rec: RefRecord) -> bool {
    rec.name == Some(DEFAULT_BRANCH_REF@)
}

/// The revision a branch entry carries: its commit text, which must be
/// present and non-empty.
pub open spec fn entry_revision(rec: RefRecord) -> Result<Seq<char>, ProbeError> {
    match rec.sha {
        Some(sha) => if sha.len() > 0 {
            Ok(sha)
        } else {
            Err(ProbeError::MalformedResponse)
        },
        None => Err(ProbeError::MalformedResponse),
    }
}

/// The head revision that a listing gives: that of the first entry for the
/// default branch; `NotFound` where there is no such entry.
pub open spec fn head_revision(listing: Seq<RefRecord>) -> Result<Seq<char>, ProbeError>
    decreases listing.len(),
{
    if listing.len() == 0 {
        Err(ProbeError::NotFound)
    } else if names_branch(listing[0]) {
        entry_revision(listing[0])
    } else {
        head_revision(listing.drop_first())
    }
}

/// The head revision is that of the first entry for the default branch: an
/// entry for the branch with none before it decides the outcome, whatever
/// follows it.
pub proof fn lemma_first_branch_entry_decides(listing: Seq<RefRecord>, i: int)
    requires
        0 <= i < listing.len(),
        names_branch(listing[i]),
        forall|j: int| 0 <= j < i ==> !names_branch(#[trigger] listing[j]),
    ensures
        head_revision(listing) == entry_revision(listing[i]),
    decreases listing.len(),
{
    if i > 0 {
        assert(!names_branch(listing[0]));
        let rest = listing.drop_first();
        assert(rest[i - 1] == listing[i]);
        assert forall|j: int| 0 <= j < i - 1 implies !names_branch(#[trigger] rest[j]) by {
            assert(rest[j] == listing[j + 1]);
        }
        lemma_first_branch_entry_decides(rest, i - 1);
    }
}

/// A listing gives `NotFound` exactly when none of its entries is for the
/// default branch.
pub proof fn lemma_not_found_iff_branch_missing(listing: Seq<RefRecord>)
    ensures
        (head_revision(listing) matches Err(ProbeError::NotFound)) <==> (forall|i: int|
            0 <= i < listing.len() ==> !names_branch(#[trigger] listing[i])),
    decreases listing.len(),
{
    if listing.len() > 0 {
        let rest = listing.drop_first();
        lemma_not_found_iff_branch_missing(rest);
        if names_branch(listing[0]) {
        } else if head_revision(rest) matches Err(ProbeError::NotFound) {
            assert forall|i: int| 0 <= i < listing.len() implies !names_branch(
                #[trigger] listing[i],
            ) by {
                if i > 0 {
                    assert(listing[i] == rest[i - 1]);
                }
            }
        } else {
            let k = choose|k: int| 0 <= k < rest.len() && names_branch(#[trigger] rest[k]);
            assert(names_branch(listing[k + 1]));
        }
    }
}

/// A revision that a listing gives is never empty, and a listing never
/// fails for want of transport.
pub proof fn lemma_head_revision_is_sound(listing: Seq<RefRecord>)
    ensures
        head_revision(listing) matches Ok(revision) ==> revision.len() > 0,
        !(head_revision(listing) matches Err(ProbeError::Transport)),
    decreases listing.len(),
{
    if listing.len() > 0 && !names_branch(listing[0]) {
        lemma_head_revision_is_sound(listing.drop_first());
    }
}

/// Finds the head revision of the default branch in a listing.
pub fn revision_from_listing(entries: &Vec<RefEntry>) -> (r: Result<String, ProbeError>)
    ensures
        text_result(r) == head_revision(listing_view(entries@)),
{
    let wanted = String::from_str(DEFAULT_BRANCH_REF);
    let ghost listing = listing_view(entries@);
    let mut i: usize = 0;
    assert(listing.skip(0) =~= listing);
    while i < entries.len()
        invariant
            i <= entries.len(),
            listing == listing_view(entries@),
            wanted@ == DEFAULT_BRANCH_REF@,
            head_revision(listing) == head_revision(listing.skip(i as int)),
        decreases entries.len() - i,
    {
        let entry = &entries[i];
        let ghost rest = listing.skip(i as int);
        assert(rest[0] == entry@);
        assert(rest.drop_first() =~= listing.skip(i + 1));
        let hit = match &entry.name {
            Some(name) => *name == wanted,
            None => false,
        };
        if hit {
            return match &entry.sha {
                Some(sha) => if sha.as_str().is_empty() {
                    Err(ProbeError::MalformedResponse)
                } else {
                    Ok(sha.clone())
                },
                None => Err(ProbeError::MalformedResponse),
            };
        }
        i += 1;
    }
    Err(ProbeError::NotFound)
}

/// `serde_json`'s parse error, carried through unread.
#[verifier::external_type_specification]
#[verifier::external_body]
pub struct ExJsonError(serde_json::Error);

/// The key under which an element of the listing holds the reference name.
pub const REF_KEY: &'static str = "ref";

/// The key under which it holds the object that the reference points to.
pub const OBJECT_KEY: &'static str = "object";

/// The key under which that object holds the commit identifier.
pub const SHA_KEY: &'static str = "sha";

/// What `serde_json` makes of a response body, read at three keys: nothing
/// where the body is not a JSON array, else one record for each element of
/// the array, in order, with the text at the first key as its name and the
/// text at the third key inside the value at the second as its commit.
pub uninterp spec fn ref_listing(
    body: Seq<u8>,
    name_key: Seq<char>,
    object_key: Seq<char>,
    sha_key: Seq<char>,
) -> Option<Seq<RefRecord>>;

/// Parses a response body with `serde_json::from_slice` as an array of JSON
/// values and keeps, of each element `x`, the string at `x[name_key]` and the
/// string at `x[object_key][sha_key]`. Indexing a JSON value by a key it does
/// not have gives null, and `as_str` gives a text for a JSON string only, so
/// a text is absent wherever the element has another shape. The contract
/// claims that this outcome is the one function [`ref_listing`] of the body's
/// bytes and the three keys.
#[verifier::external_body]
fn read_ref_listing(body: &[u8], name_key: &str, object_key: &str, sha_key: &str) -> (r: Result<
    Vec<RefEntry>,
    serde_json::Error,
>)
    ensures
        match r {
            Ok(entries) => ref_listing(body@, name_key@, object_key@, sha_key@) == Some(
                listing_view(entries@),
            ),
            Err(_) => ref_listing(body@, name_key@, object_key@, sha_key@) is None,
        },
{
    let values: Vec<serde_json::Value> = serde_json::from_slice(body)?;
    Ok(values.iter().map(|x| RefEntry {
        name: x[name_key].as_str().map(str::to_owned),
        sha: x[object_key][sha_key].as_str().map(str::to_owned),
    }).collect())
}

/// The head revision that a response body gives: that of its listing, and
/// `MalformedResponse` where the body is no listing.
pub open spec fn response_revision(body: Seq<u8>) -> Result<Seq<char>, ProbeError> {
    match ref_listing(body, REF_KEY@, OBJECT_KEY@, SHA_KEY@) {
        Some(listing) => head_revision(listing),
        None => Err(ProbeError::MalformedResponse),
    }
}

/// Reads the head revision of the default branch out of the body of a
/// reference-listing response.
pub fn revision_from_response(body: &[u8]) -> (r: Result<String, ProbeError>)
    ensures
        text_result(r) == response_revision(body@),
{
    match read_ref_listing(body, REF_KEY, OBJECT_KEY, SHA_KEY) {
        Ok(entries) => revision_from_listing(&entries),
        Err(_) => Err(ProbeError::MalformedResponse),
    }
}

} // verus!
