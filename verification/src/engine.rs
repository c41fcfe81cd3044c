//! The decisions of a run: which upload each discovered object joins, what
//! to ask of the store next, and how every session ends.
//!
//! The engine never talks to the store. It is told what was found and what
//! the store answered, and says what to do next.

use crate::error::{ConcatError, ErrorKind};
use crate::pattern::Pattern;
use crate::session::{
    texts, CopyRequest, SessionState, SourceObject, UploadRef, UploadSession, MIN_PART_SIZE,
};
use vstd::prelude::*;
use vstd::string::StringExecFns;

verus! {

/// Where the run stands.
#[derive(Debug, Clone, Copy, PartialEq, Eq, Structural)]
pub enum Phase {
    /// Objects are being listed; no request is outstanding.
    Discovering,
    /// The creation of an upload was asked for and is unanswered.
    AwaitingCreate,
    /// A part copy was asked for and is unanswered.
    AwaitingCopy,
    /// Listing is over; sessions are being completed one by one.
    Finalizing,
    /// Discovery failed; every session was given up.
    Failed,
}

/// What to do for one discovered object.
#[derive(Debug)]
pub enum Step {
    /// Nothing: the key does not match, or it resolves to itself.
    Skip,
    /// Announce that `key` would go to `target`, and do no more.
    Report { key: String, target: String },
    /// Announce that `key` goes to `target` and create the upload of
    /// `target`.
    Create { key: String, target: String },
    /// Announce the concatenation and copy the object into the upload.
    Copy(CopyRequest),
    /// Stop the run with `error` after aborting the uploads listed.
    Fatal { error: ConcatError, aborts: Vec<UploadRef> },
}

/// The registry of sessions and the state of the run.
#[derive(Debug)]
pub struct Engine {
    pub dry_run: bool,
    pub cleanup: bool,
    pub sessions: Vec<UploadSession>,
    pub phase: Phase,
    /// The session that the outstanding request belongs to.
    pub active: usize,
    /// The source key that the outstanding request is made for.
    pub pending_key: String,
}

impl Engine {
    /// Whether session `i` is the one for `target`.
    pub open spec fn holds(&self, i: int, target: Seq<char>) -> bool {
        0 <= i < self.sessions@.len() && self.sessions@[i].target_key@ == target
    }

    /// Whether some session is the one for `target`.
    pub open spec fn has_target(&self, target: Seq<char>) -> bool {
        exists|i: int| self.holds(i, target)
    }

    /// Each target has one session at most; every session is well formed;
    /// a dry run has no session; and the sessions are in the states that the
    /// phase allows.
    pub open spec fn wf(&self) -> bool {
        let n = self.sessions@.len();
        &&& forall|i: int| 0 <= i < n ==> (#[trigger] self.sessions@[i]).wf()
        &&& forall|i: int, j: int|
            0 <= i < j < n ==> (#[trigger] self.sessions@[i]).target_key@ != (
            #[trigger] self.sessions@[j]).target_key@
        &&& self.dry_run ==> n == 0
        &&& match self.phase {
            Phase::Discovering => forall|i: int|
                0 <= i < n ==> (#[trigger] self.sessions@[i]).state is Open,
            Phase::AwaitingCreate => {
                &&& n > 0
                &&& self.active == n - 1
                &&& self.sessions@[n - 1].state is Pending
                &&& self.sessions@[n - 1].target_key@ != self.pending_key@
                &&& forall|i: int| 0 <= i < n - 1 ==> (#[trigger] self.sessions@[i]).state is Open
            },
            Phase::AwaitingCopy => {
                &&& self.active < n
                &&& self.sessions@[self.active as int].target_key@ != self.pending_key@
                &&& forall|i: int| 0 <= i < n ==> (#[trigger] self.sessions@[i]).state is Open
            },
            Phase::Finalizing => forall|i: int|
                0 <= i < n ==> {
                    let s = (#[trigger] self.sessions@[i]).state;
                    s is Completing || s is Completed || s is Aborted
                },
            Phase::Failed => forall|i: int|
                0 <= i < n ==> (#[trigger] self.sessions@[i]).state is Aborted,
        }
    }

    /// How many sessions have an upload that takes parts: in every phase
    /// before finalization these are the first sessions of the registry.
    pub open spec fn open_count(&self) -> int {
        match self.phase {
            Phase::Discovering => self.sessions@.len() as int,
            Phase::AwaitingCopy => self.sessions@.len() as int,
            Phase::AwaitingCreate => self.sessions@.len() - 1,
            _ => 0,
        }
    }

    /// An engine with no session, ready for discovery.
    pub fn new(dry_run: bool, cleanup: bool) -> (r: Engine)
        ensures
            r.wf(),
            r.dry_run == dry_run,
            r.cleanup == cleanup,
            r.phase is Discovering,
            r.sessions@.len() == 0,
    {
        Engine {
            dry_run,
            cleanup,
            sessions: Vec::new(),
            phase: Phase::Discovering,
            active: 0,
            pending_key: String::new(),
        }
    }

    /// The place of the session for `target`, if there is one.
    pub fn find(&self, target: &String) -> (r: Option<usize>)
        ensures
            match r {
                Some(i) => self.holds(i as int, target@),
                None => !self.has_target(target@),
            },
    {
        let mut i: usize = 0;
        while i < self.sessions.len()
            invariant
                i <= self.sessions@.len(),
                forall|k: int| 0 <= k < i ==> (#[trigger] self.sessions@[k]).target_key@ != target@,
            decreases self.sessions@.len() - i,
        {
            if self.sessions[i].target_key == *target {
                return Some(i);
            }
            i += 1;
        }
        None
    }

    /// What `accept` does with a key and the target it resolved to.
    pub open spec fn accepted(
        before: Engine,
        after: Engine,
        key: Seq<char>,
        target: Seq<char>,
        step: Step,
    ) -> bool {
        if target == key {
            step is Skip && after == before
        } else if before.dry_run {
            &&& step matches Step::Report { key: k, target: t }
            &&& k@ == key
            &&& t@ == target
            &&& after == before
        } else if before.has_target(target) {
            &&& step matches Step::Copy(c)
            &&& after.phase is AwaitingCopy
            &&& after.sessions == before.sessions
            &&& after.pending_key@ == key
            &&& before.holds(after.active as int, target)
            &&& c.target_key@ == target
            &&& c.upload_id@ == before.sessions@[after.active as int].upload_id.unwrap()@
            &&& c.part_number == before.sessions@[after.active as int].source_keys@.len() + 1
            &&& c.source_key@ == key
        } else {
            &&& step matches Step::Create { key: k, target: t }
            &&& k@ == key
            &&& t@ == target
            &&& after.phase is AwaitingCreate
            &&& after.pending_key@ == key
            &&& after.sessions@.len() == before.sessions@.len() + 1
            &&& after.sessions@.drop_last() == before.sessions@
            &&& after.sessions@.last().state is Pending
            &&& after.sessions@.last().target_key@ == target
        }
    }

    /// Takes a matching key of sufficient size together with the target it
    /// resolved to, and says what to do for it.
    pub fn accept(&mut self, key: String, target: String) -> (step: Step)
        requires
            old(self).wf(),
            old(self).phase is Discovering,
        ensures
            final(self).wf(),
            final(self).dry_run == old(self).dry_run,
            final(self).cleanup == old(self).cleanup,
            Engine::accepted(*old(self), *final(self), key@, target@, step),
    {
        if target == key {
            return Step::Skip;
        }
        if self.dry_run {
            return Step::Report { key, target };
        }
        match self.find(&target) {
            Some(i) => {
                let session = &self.sessions[i];
                let upload_id = match &session.upload_id {
                    Some(id) => id.clone(),
                    None => String::new(),
                };
                let n: usize = session.source_keys.len();
                let request = CopyRequest {
                    target_key: target,
                    upload_id,
                    part_number: n as u64 + 1,
                    source_key: key.clone(),
                };
                self.phase = Phase::AwaitingCopy;
                self.active = i;
                self.pending_key = key;
                Step::Copy(request)
            },
            None => {
                let ghost before = self.sessions@;
                self.sessions.push(UploadSession::pending(target.clone()));
                self.phase = Phase::AwaitingCreate;
                self.active = self.sessions.len() - 1;
                self.pending_key = key.clone();
                proof {
                    assert(self.sessions@.drop_last() == before);
                    assert forall|i: int, j: int| 0 <= i < j < self.sessions@.len() implies (
                    #[trigger] self.sessions@[i]).target_key@ != (
                    #[trigger] self.sessions@[j]).target_key@ by {
                        if j == before.len() {
                            assert(!old(self).holds(i, target@));
                        }
                    }
                }
                Step::Create { key, target }
            },
        }
    }

    /// What `created` does: the pending session opens with the upload
    /// identifier given, and nothing else changes but the phase.
    pub open spec fn opened(before: Engine, after: Engine, upload_id: Seq<char>) -> bool {
        let i = before.active as int;
        &&& after.phase is AwaitingCopy
        &&& after.dry_run == before.dry_run
        &&& after.cleanup == before.cleanup
        &&& after.active == before.active
        &&& after.pending_key == before.pending_key
        &&& after.sessions@.len() == before.sessions@.len()
        &&& forall|k: int|
            0 <= k < before.sessions@.len() && k != i ==> after.sessions@[k] == before.sessions@[k]
        &&& after.sessions@[i].state is Open
        &&& after.sessions@[i].upload_id is Some
        &&& after.sessions@[i].upload_id.unwrap()@ == upload_id
        &&& after.sessions@[i].target_key == before.sessions@[i].target_key
        &&& after.sessions@[i].source_keys@.len() == 0
    }

    /// The store created the upload that was asked for: the session opens,
    /// and the object that caused it is copied as its first part.
    pub fn created(&mut self, upload_id: String) -> (r: CopyRequest)
        requires
            old(self).wf(),
            old(self).phase is AwaitingCreate,
        ensures
            final(self).wf(),
            Engine::opened(*old(self), *final(self), upload_id@),
            r.target_key@ == old(self).sessions@[old(self).active as int].target_key@,
            r.upload_id@ == upload_id@,
            r.part_number == 1,
            r.source_key@ == old(self).pending_key@,
    {
        let i = self.active;
        let request = CopyRequest {
            target_key: self.sessions[i].target_key.clone(),
            upload_id: upload_id.clone(),
            part_number: 1,
            source_key: self.pending_key.clone(),
        };
        self.sessions[i].upload_id = Some(upload_id);
        self.sessions[i].state = SessionState::Open;
        self.phase = Phase::AwaitingCopy;
        request
    }

    /// What `copied` does: the source of the outstanding copy joins its
    /// session behind the sources already there, and nothing else changes
    /// but the phase.
    pub open spec fn recorded(before: Engine, after: Engine) -> bool {
        let i = before.active as int;
        &&& after.phase is Discovering
        &&& after.dry_run == before.dry_run
        &&& after.cleanup == before.cleanup
        &&& after.sessions@.len() == before.sessions@.len()
        &&& forall|k: int|
            0 <= k < before.sessions@.len() && k != i ==> after.sessions@[k] == before.sessions@[k]
        &&& after.sessions@[i].state is Open
        &&& after.sessions@[i].upload_id == before.sessions@[i].upload_id
        &&& after.sessions@[i].target_key == before.sessions@[i].target_key
        &&& after.sessions@[i].keys() == before.sessions@[i].keys().push(before.pending_key@)
    }

    /// The store copied the part that was asked for: its source joins the
    /// session at the next position, and discovery goes on.
    pub fn copied(&mut self)
        requires
            old(self).wf(),
            old(self).phase is AwaitingCopy,
            old(self).sessions@[old(self).active as int].source_keys@.len() + 1 < u64::MAX,
        ensures
            final(self).wf(),
            Engine::recorded(*old(self), *final(self)),
    {
        let i = self.active;
        let key = self.pending_key.clone();
        self.sessions[i].source_keys.push(key);
        self.phase = Phase::Discovering;
        proof {
            let a = final(self).sessions@[i as int];
            let b = old(self).sessions@[i as int];
            assert(a.source_keys@ == b.source_keys@.push(key));
            assert(a.keys() =~= b.keys().push(old(self).pending_key@));
        }
    }

    /// What `fail` does: every session ends aborted and keeps its target,
    /// upload and sources, and `aborts` names, in order, the sessions whose
    /// upload existed.
    pub open spec fn failed(before: Engine, after: Engine, aborts: Seq<UploadRef>) -> bool {
        &&& after.phase is Failed
        &&& after.dry_run == before.dry_run
        &&& after.cleanup == before.cleanup
        &&& after.sessions@.len() == before.sessions@.len()
        &&& forall|i: int|
            0 <= i < before.sessions@.len() ==> {
                let a = #[trigger] after.sessions@[i];
                let b = before.sessions@[i];
                &&& a.state is Aborted
                &&& a.target_key == b.target_key
                &&& a.upload_id == b.upload_id
                &&& a.source_keys == b.source_keys
            }
        &&& aborts.len() == before.open_count()
        &&& forall|j: int|
            0 <= j < aborts.len() ==> {
                let r = #[trigger] aborts[j];
                &&& r.session == j
                &&& r.target_key@ == before.sessions@[j].target_key@
                &&& before.sessions@[j].upload_id is Some
                &&& r.upload_id@ == before.sessions@[j].upload_id.unwrap()@
            }
    }

    /// Discovery failed: gives up every session and returns the uploads to
    /// abort, one for each session that had been opened.
    pub fn fail(&mut self) -> (aborts: Vec<UploadRef>)
        requires
            old(self).wf(),
            !(old(self).phase is Finalizing),
        ensures
            final(self).wf(),
            Engine::failed(*old(self), *final(self), aborts@),
    {
        let mut aborts: Vec<UploadRef> = Vec::new();
        let n = self.sessions.len();
        let mut i: usize = 0;
        while i < n
            invariant
                n == self.sessions@.len(),
                n == old(self).sessions@.len(),
                i <= n,
                old(self).wf(),
                !(old(self).phase is Finalizing),
                self.dry_run == old(self).dry_run,
                self.cleanup == old(self).cleanup,
                forall|k: int| i <= k < n ==> self.sessions@[k] == old(self).sessions@[k],
                forall|k: int|
                    0 <= k < i ==> {
                        let a = #[trigger] self.sessions@[k];
                        let b = old(self).sessions@[k];
                        &&& a.state is Aborted
                        &&& a.target_key == b.target_key
                        &&& a.upload_id == b.upload_id
                        &&& a.source_keys == b.source_keys
                    },
                aborts@.len() == if i <= old(self).open_count() {
                    i as int
                } else {
                    old(self).open_count()
                },
                forall|j: int|
                    0 <= j < aborts@.len() ==> {
                        let r = #[trigger] aborts@[j];
                        &&& r.session == j
                        &&& r.target_key@ == old(self).sessions@[j].target_key@
                        &&& old(self).sessions@[j].upload_id is Some
                        &&& r.upload_id@ == old(self).sessions@[j].upload_id.unwrap()@
                    },
            decreases n - i,
        {
            if self.sessions[i].state == SessionState::Open {
                let upload_id = match &self.sessions[i].upload_id {
                    Some(id) => id.clone(),
                    None => String::new(),
                };
                aborts.push(
                    UploadRef { session: i, target_key: self.sessions[i].target_key.clone(), upload_id },
                );
            }
            self.sessions[i].state = SessionState::Aborted;
            i += 1;
        }
        self.phase = Phase::Failed;
        aborts
    }

    /// What `reject` does with a matching key that is too small.
    pub open spec fn rejected(before: Engine, after: Engine, key: Seq<char>, step: Step) -> bool {
        &&& step matches Step::Fatal { error, aborts }
        &&& error.kind == ErrorKind::SizeConstraint
        &&& error.message@ == "Unable to concat files below 5MB: "@ + key
        &&& Engine::failed(before, after, aborts@)
    }

    /// Ends the run over a matching object that is smaller than the store
    /// accepts: the error names the key, and every session is given up.
    pub fn reject(&mut self, key: &str) -> (step: Step)
        requires
            old(self).wf(),
            !(old(self).phase is Finalizing),
        ensures
            final(self).wf(),
            Engine::rejected(*old(self), *final(self), key@, step),
    {
        let message = String::from_str("Unable to concat files below 5MB: ").concat(key);
        let aborts = self.fail();
        Step::Fatal { error: ConcatError { kind: ErrorKind::SizeConstraint, message }, aborts }
    }

    /// Decides what to do for one listed object: nothing where it does not
    /// match, the end of the run where it matches and is too small, and
    /// otherwise what `accept` says for the target it resolves to.
    pub fn offer(&mut self, pattern: &Pattern, entry: SourceObject) -> (step: Step)
        requires
            old(self).wf(),
            old(self).phase is Discovering,
        ensures
            final(self).wf(),
            final(self).dry_run == old(self).dry_run,
            final(self).cleanup == old(self).cleanup,
            !pattern.matches(entry.key@) ==> step is Skip && *final(self) == *old(self),
            pattern.matches(entry.key@) && entry.size < MIN_PART_SIZE ==> Engine::rejected(
                *old(self),
                *final(self),
                entry.key@,
                step,
            ),
            pattern.matches(entry.key@) && entry.size >= MIN_PART_SIZE ==> Engine::accepted(
                *old(self),
                *final(self),
                entry.key@,
                pattern.target_of(entry.key@),
                step,
            ),
    {
        if !pattern.is_match(entry.key.as_str()) {
            return Step::Skip;
        }
        if entry.size < MIN_PART_SIZE {
            return self.reject(entry.key.as_str());
        }
        let target = pattern.target_for(entry.key.as_str());
        self.accept(entry.key, target)
    }

    /// What `finish_discovery` does: every session enters completion, and
    /// `refs` names each of them, in order.
    pub open spec fn finishing(before: Engine, after: Engine, refs: Seq<UploadRef>) -> bool {
        &&& after.phase is Finalizing
        &&& after.dry_run == before.dry_run
        &&& after.cleanup == before.cleanup
        &&& after.sessions@.len() == before.sessions@.len()
        &&& refs.len() == before.sessions@.len()
        &&& forall|i: int|
            0 <= i < before.sessions@.len() ==> {
                let a = #[trigger] after.sessions@[i];
                let b = before.sessions@[i];
                &&& a.state is Completing
                &&& a.target_key == b.target_key
                &&& a.upload_id == b.upload_id
                &&& a.source_keys == b.source_keys
            }
        &&& forall|j: int|
            0 <= j < refs.len() ==> {
                let r = #[trigger] refs[j];
                &&& r.session == j
                &&& r.target_key@ == before.sessions@[j].target_key@
                &&& before.sessions@[j].upload_id is Some
                &&& r.upload_id@ == before.sessions@[j].upload_id.unwrap()@
            }
    }

    /// Listing is exhausted: every open session enters completion. Returns
    /// the uploads to complete, in the order in which their targets were
    /// first seen.
    pub fn finish_discovery(&mut self) -> (refs: Vec<UploadRef>)
        requires
            old(self).wf(),
            old(self).phase is Discovering,
        ensures
            final(self).wf(),
            Engine::finishing(*old(self), *final(self), refs@),
    {
        let mut refs: Vec<UploadRef> = Vec::new();
        let n = self.sessions.len();
        let mut i: usize = 0;
        while i < n
            invariant
                n == self.sessions@.len(),
                n == old(self).sessions@.len(),
                i <= n,
                old(self).wf(),
                old(self).phase is Discovering,
                self.dry_run == old(self).dry_run,
                self.cleanup == old(self).cleanup,
                forall|k: int| i <= k < n ==> self.sessions@[k] == old(self).sessions@[k],
                forall|k: int|
                    0 <= k < i ==> {
                        let a = #[trigger] self.sessions@[k];
                        let b = old(self).sessions@[k];
                        &&& a.state is Completing
                        &&& a.target_key == b.target_key
                        &&& a.upload_id == b.upload_id
                        &&& a.source_keys == b.source_keys
                    },
                refs@.len() == i,
                forall|j: int|
                    0 <= j < refs@.len() ==> {
                        let r = #[trigger] refs@[j];
                        &&& r.session == j
                        &&& r.target_key@ == old(self).sessions@[j].target_key@
                        &&& old(self).sessions@[j].upload_id is Some
                        &&& r.upload_id@ == old(self).sessions@[j].upload_id.unwrap()@
                    },
            decreases n - i,
        {
            let upload_id = match &self.sessions[i].upload_id {
                Some(id) => id.clone(),
                None => String::new(),
            };
            refs.push(
                UploadRef { session: i, target_key: self.sessions[i].target_key.clone(), upload_id },
            );
            self.sessions[i].state = SessionState::Completing;
            i += 1;
        }
        self.phase = Phase::Finalizing;
        refs
    }

    /// What `completed` and `finalize_failed` do to session `i`: it takes
    /// the state `state`, and nothing else changes.
    pub open spec fn settled(before: Engine, after: Engine, i: int, state: SessionState) -> bool {
        &&& after.phase is Finalizing
        &&& after.dry_run == before.dry_run
        &&& after.cleanup == before.cleanup
        &&& after.sessions@.len() == before.sessions@.len()
        &&& forall|k: int|
            0 <= k < before.sessions@.len() && k != i ==> after.sessions@[k] == before.sessions@[k]
        &&& after.sessions@[i].state == state
        &&& after.sessions@[i].target_key == before.sessions@[i].target_key
        &&& after.sessions@[i].upload_id == before.sessions@[i].upload_id
        &&& after.sessions@[i].source_keys == before.sessions@[i].source_keys
    }

    /// The store completed the upload of session `i`.
    pub fn completed(&mut self, i: usize)
        requires
            old(self).wf(),
            old(self).phase is Finalizing,
            i < old(self).sessions@.len(),
            old(self).sessions@[i as int].state is Completing,
        ensures
            final(self).wf(),
            Engine::settled(*old(self), *final(self), i as int, SessionState::Completed),
    {
        self.sessions[i].state = SessionState::Completed;
    }

    /// Listing the parts of session `i`, or completing it, failed: the
    /// session is given up, whatever the store answers to the abort that is
    /// returned.
    pub fn finalize_failed(&mut self, i: usize) -> (abort: UploadRef)
        requires
            old(self).wf(),
            old(self).phase is Finalizing,
            i < old(self).sessions@.len(),
            old(self).sessions@[i as int].state is Completing,
        ensures
            final(self).wf(),
            Engine::settled(*old(self), *final(self), i as int, SessionState::Aborted),
            abort.session == i,
            abort.target_key@ == old(self).sessions@[i as int].target_key@,
            abort.upload_id@ == old(self).sessions@[i as int].upload_id.unwrap()@,
    {
        let upload_id = match &self.sessions[i].upload_id {
            Some(id) => id.clone(),
            None => String::new(),
        };
        let abort = UploadRef { session: i, target_key: self.sessions[i].target_key.clone(), upload_id };
        self.sessions[i].state = SessionState::Aborted;
        abort
    }

    /// The keys to delete once every session is settled: with cleanup
    /// enabled the sources of the completed sessions, else none.
    pub open spec fn cleanup_plan(&self) -> Seq<Seq<char>> {
        if self.cleanup {
            consumed(self.sessions@, self.sessions@.len() as int)
        } else {
            Seq::empty()
        }
    }

    /// The keys to delete, session by session and in the order in which the
    /// sources were copied.
    pub fn cleanup_keys(&self) -> (keys: Vec<String>)
        ensures
            texts(keys@) == self.cleanup_plan(),
    {
        let mut keys: Vec<String> = Vec::new();
        if !self.cleanup {
            assert(texts(keys@) =~= Seq::<Seq<char>>::empty());
            return keys;
        }
        let mut i: usize = 0;
        assert(texts(keys@) =~= consumed(self.sessions@, 0));
        while i < self.sessions.len()
            invariant
                i <= self.sessions@.len(),
                texts(keys@) == consumed(self.sessions@, i as int),
            decreases self.sessions@.len() - i,
        {
            let session = &self.sessions[i];
            if session.state == SessionState::Completed {
                let ghost base = texts(keys@);
                let mut j: usize = 0;
                assert(session.keys().take(0) =~= Seq::<Seq<char>>::empty());
                assert(texts(keys@) =~= base + session.keys().take(0));
                while j < session.source_keys.len()
                    invariant
                        j <= session.source_keys@.len(),
                        texts(keys@) == base + session.keys().take(j as int),
                    decreases session.source_keys@.len() - j,
                {
                    let ghost prior = texts(keys@);
                    keys.push(session.source_keys[j].clone());
                    j += 1;
                    assert(texts(keys@) =~= prior.push(session.source_keys@[j - 1]@));
                    assert(session.keys().take(j as int) =~= session.keys().take(j - 1).push(
                        session.source_keys@[j - 1]@,
                    ));
                    assert(texts(keys@) =~= base + session.keys().take(j as int));
                }
                assert(session.keys().take(j as int) =~= session.keys());
            }
            i += 1;
        }
        keys
    }
}

/// The sources of the completed sessions among the first `n`, session by
/// session, each in the order in which its sources were copied.
pub open spec fn consumed(sessions: Seq<UploadSession>, n: int) -> Seq<Seq<char>>
    decreases n,
{
    if n <= 0 {
        Seq::empty()
    } else if sessions[n - 1].state is Completed {
        consumed(sessions, n - 1) + sessions[n - 1].keys()
    } else {
        consumed(sessions, n - 1)
    }
}

/// What follows a page of the listing.
#[derive(Debug)]
pub enum Listing {
    /// Another page is to be asked for with this token.
    More(String),
    /// The listing is exhausted.
    Exhausted,
}

/// Decides from the token that came with a page, whatever the page held,
/// whether the listing goes on: a page without a token is the last one, and
/// a page with a token is followed by another even where it was empty.
pub fn next_listing(token: Option<String>) -> (r: Listing)
    ensures
        match token {
            Some(t) => r == Listing::More(t),
            None => r is Exhausted,
        },
{
    match token {
        Some(t) => Listing::More(t),
        None => Listing::Exhausted,
    }
}

} // verus!
