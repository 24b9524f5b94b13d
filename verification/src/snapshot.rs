//! The archive payload of one fetch: accepted only when it holds bytes, and
//! decoded from its gzip envelope before it is unpacked.

use std::io::Read;
use vstd::prelude::*;

verus! {

/// The directory over which every snapshot is unpacked.
pub const SAVE_TO: &'static str = "~/.local/share/deployerd";

/// Why a fetch did not yield a snapshot.
#[derive(Clone, Copy, Debug, PartialEq, Eq, Structural)]
pub enum FetchError {
    /// The request did not complete.
    Transport,
    /// The response carried no bytes.
    EmptyPayload,
}

/// Why a snapshot was not materialized.
#[derive(Clone, Copy, Debug, PartialEq, Eq, Structural)]
pub enum MaterializeError {
    /// The payload is not a sound gzip stream.
    Decode,
    /// The destination could not be created or written.
    Io,
}

/// The words for a fetch error.
pub open spec fn fetch_error_text(e: FetchError) -> Seq<char> {
    match e {
        FetchError::Transport => "transport error"@,
        FetchError::EmptyPayload => "empty payload"@,
    }
}

/// The words for a materialize error.
pub open spec fn materialize_error_text(e: MaterializeError) -> Seq<char> {
    match e {
        MaterializeError::Decode => "decode error"@,
        MaterializeError::Io => "I/O error"@,
    }
}

impl FetchError {
    /// The error in words.
    pub fn describe(&self) -> (text: &'static str)
        ensures
            text@ == fetch_error_text(*self),
    {
        match self {
            FetchError::Transport => "transport error",
            FetchError::EmptyPayload => "empty payload",
        }
    }
}

impl MaterializeError {
    /// The error in words.
    pub fn describe(&self) -> (text: &'static str)
        ensures
            text@ == materialize_error_text(*self),
    {
        match self {
            MaterializeError::Decode => "decode error",
            MaterializeError::Io => "I/O error",
        }
    }
}

/// The compressed archive of the tree at one revision. It is never empty.
#[derive(Debug, PartialEq, Eq)]
pub struct Snapshot {
    bytes: Vec<u8>,
}

impl View for Snapshot {
    type V = Seq<u8>;

    closed spec fn view(&self) -> Seq<u8> {
        self.bytes@
    }
}

/// The I/O error of a failed read, carried through unread.
#[verifier::external_type_specification]
#[verifier::external_body]
pub struct ExIoError(std::io::Error);

/// What `flate2` decodes from a gzip stream: the bytes of its first member,
/// or nothing where the stream is corrupt or cut short.
pub uninterp spec fn gunzip(data: Seq<u8>) -> Option<Seq<u8>>;

/// Reads `flate2::read::GzDecoder` over the given bytes to its end. The
/// decoder yields the uncompressed bytes of one gzip member and fails on a
/// bad header, a bad deflate stream, a checksum that does not match or input
/// that ends early. The contract claims that this outcome is the one function
/// [`gunzip`] of the input bytes.
#[verifier::external_body]
fn gz_decode(data: &[u8]) -> (r: Result<Vec<u8>, std::io::Error>)
    ensures
        match r {
            Ok(out) => gunzip(data@) == Some(out@),
            Err(_) => gunzip(data@) is None,
        },
{
    let mut out = Vec::new();
    flate2::read::GzDecoder::new(data).read_to_end(&mut out)?;
    Ok(out)
}

/// What accepting a payload gives: the payload itself, unless it is empty.
pub open spec fn accepted(payload: Seq<u8>) -> Result<Seq<u8>, FetchError> {
    if payload.len() == 0 {
        Err(FetchError::EmptyPayload)
    } else {
        Ok(payload)
    }
}

/// What decoding a snapshot gives: the archive inside the gzip envelope.
pub open spec fn decoded(data: Seq<u8>) -> Result<Seq<u8>, MaterializeError> {
    match gunzip(data) {
        Some(archive) => Ok(archive),
        None => Err(MaterializeError::Decode),
    }
}

/// The bytes of a snapshot result; the error is kept.
pub open spec fn snapshot_result<E>(r: Result<Snapshot, E>) -> Result<Seq<u8>, E> {
    match r {
        Ok(s) => Ok(s@),
        Err(e) => Err(e),
    }
}

/// The bytes of a byte-vector result; the error is kept.
pub open spec fn bytes_result<E>(r: Result<Vec<u8>, E>) -> Result<Seq<u8>, E> {
    match r {
        Ok(v) => Ok(v@),
        Err(e) => Err(e),
    }
}

impl Snapshot {
    #[verifier::type_invariant]
    spec fn holds_bytes(self) -> bool {
        self.bytes@.len() > 0
    }

    /// Accepts the body of a fetch as a snapshot. A body without bytes is a
    /// failed fetch, not an empty tree.
    pub fn from_payload(payload: Vec<u8>) -> (r: Result<Snapshot, FetchError>)
        ensures
            snapshot_result(r) == accepted(payload@),
    {
        if payload.len() == 0 {
            Err(FetchError::EmptyPayload)
        } else {
            Ok(Snapshot { bytes: payload })
        }
    }

    /// The compressed bytes.
    pub fn bytes(&self) -> (b: &Vec<u8>)
        ensures
            b@ == self@,
            b@.len() > 0,
    {
        proof {
            use_type_invariant(self);
        }
        &self.bytes
    }

    /// Takes the archive out of its gzip envelope.
    pub fn decode(&self) -> (r: Result<Vec<u8>, MaterializeError>)
        ensures
            bytes_result(r) == decoded(self@),
    {
        decode_outcome(gz_decode(self.bytes.as_slice()))
    }
}

/// Turns the outcome of a gzip read into the outcome of the decode step.
pub fn decode_outcome(outcome: Result<Vec<u8>, std::io::Error>) -> (r: Result<
    Vec<u8>,
    MaterializeError,
>)
    ensures
        match outcome {
            Ok(archive) => r == Ok::<Vec<u8>, MaterializeError>(archive),
            Err(_) => r == Err::<Vec<u8>, MaterializeError>(MaterializeError::Decode),
        },
{
    match outcome {
        Ok(archive) => Ok(archive),
        Err(_) => Err(MaterializeError::Decode),
    }
}

} // verus!
