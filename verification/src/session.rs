//! The record kept for each target key: its upload and the sources copied
//! into it.

use vstd::prelude::*;
use vstd::string::StringExecFns;

verus! {

/// The smallest object, in bytes, that the store accepts as a copied part.
pub const MIN_PART_SIZE: u64 = 5_000_000;

/// One listed object.
#[derive(Debug)]
pub struct SourceObject {
    pub key: String,
    pub size: u64,
}

/// Where a session stands in its life.
#[derive(Debug, Clone, Copy, PartialEq, Eq, Structural)]
pub enum SessionState {
    /// The target is known; no upload exists for it yet.
    Pending,
    /// The upload exists and takes parts.
    Open,
    /// Completion of the upload has been asked for.
    Completing,
    /// The target object exists.
    Completed,
    /// The upload was given up.
    Aborted,
}

/// The multipart upload of one target key.
#[derive(Debug)]
pub struct UploadSession {
    pub target_key: String,
    pub upload_id: Option<String>,
    pub source_keys: Vec<String>,
    pub state: SessionState,
}

/// A session named to the store: its place in the registry, its target key
/// and its upload identifier.
#[derive(Debug)]
pub struct UploadRef {
    pub session: usize,
    pub target_key: String,
    pub upload_id: String,
}

/// One part copy to ask of the store.
#[derive(Debug)]
pub struct CopyRequest {
    pub target_key: String,
    pub upload_id: String,
    pub part_number: u64,
    pub source_key: String,
}

/// The texts of a list of keys, in order.
pub open spec fn texts(keys: Seq<String>) -> Seq<Seq<char>> {
    Seq::new(keys.len(), |i: int| keys[i]@)
}

impl CopyRequest {
    /// The reference by which the store finds the object to copy: the
    /// bucket, a slash, and the source key.
    pub fn source_ref(&self, bucket: &str) -> (r: String)
        ensures
            r@ == bucket@ + "/"@ + self.source_key@,
    {
        String::from_str(bucket).concat("/").concat(self.source_key.as_str())
    }
}

impl SessionState {
    /// No session leaves these states.
    pub open spec fn terminal(self) -> bool {
        self is Completed || self is Aborted
    }

    /// The order in which states follow each other: a session never moves to
    /// a state of a lower rank.
    pub open spec fn rank(self) -> int {
        match self {
            SessionState::Pending => 0,
            SessionState::Open => 1,
            SessionState::Completing => 2,
            SessionState::Completed => 3,
            SessionState::Aborted => 3,
        }
    }
}

impl UploadSession {
    /// The part number of the source at position `index`.
    pub open spec fn part_number(index: int) -> int {
        index + 1
    }

    /// The source keys as texts, in the order in which they were copied.
    pub open spec fn keys(&self) -> Seq<Seq<char>> {
        texts(self.source_keys@)
    }

    /// A pending session has neither an upload nor sources; a session that
    /// went further has its upload identifier; no source is its own target.
    pub open spec fn wf(&self) -> bool {
        &&& self.state is Pending ==> self.upload_id is None && self.source_keys@.len() == 0
        &&& !(self.state is Pending) && !(self.state is Aborted) ==> self.upload_id is Some
        &&& self.source_keys@.len() < u64::MAX
        &&& forall|i: int|
            0 <= i < self.source_keys@.len() ==> (#[trigger] self.source_keys@[i])@
                != self.target_key@
    }

    /// A session for `target_key`, before its upload exists.
    pub fn pending(target_key: String) -> (r: UploadSession)
        ensures
            r.wf(),
            r.state is Pending,
            r.target_key@ == target_key@,
            r.upload_id is None,
            r.source_keys@.len() == 0,
    {
        UploadSession {
            target_key,
            upload_id: None,
            source_keys: Vec::new(),
            state: SessionState::Pending,
        }
    }
}

/// The part numbers of a session are its positions counted from one: each
/// number from 1 to the count of sources belongs to exactly one source, and
/// a later source has a higher number.
pub proof fn part_numbers_are_gapless(session: UploadSession)
    ensures
        forall|n: int|
            1 <= n <= session.source_keys@.len() ==> 0 <= n - 1 < session.source_keys@.len()
                && #[trigger] UploadSession::part_number(n - 1) == n,
        forall|i: int|
            0 <= i < session.source_keys@.len() ==> 1 <= #[trigger] UploadSession::part_number(i)
                <= session.source_keys@.len(),
        forall|i: int, j: int|
            i < j ==> UploadSession::part_number(i) < UploadSession::part_number(j),
{
}

} // verus!
