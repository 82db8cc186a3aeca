//! The storage gateway: what a storage failure looks like to the library, and
//! the scoped use of a connection or a transaction, from acquisition to the
//! single release that ends it.
use vstd::prelude::*;

verus! {

/// What the storage engine reported when a statement failed.
#[derive(Clone, Copy, Debug, PartialEq, Eq, Structural)]
pub enum FailureSignal {
    /// The statement was to produce a row and produced none.
    RowNotFound,
    /// A unique constraint was violated.
    UniqueViolation,
    /// A foreign key constraint was violated.
    ForeignKeyViolation,
    /// Any other failure: the pool, the connection, the engine.
    Other,
}

/// A storage failure: its signal, the constraint it names if any, and the
/// descriptions of its cause chain, outermost first.
#[derive(Clone, Debug)]
pub struct StorageFailure {
    pub signal: FailureSignal,
    pub constraint: Option<String>,
    pub causes: Vec<String>,
}

/// The failure names the constraint `name`.
pub open spec fn names_constraint(f: StorageFailure, name: Seq<char>) -> bool {
    f.constraint matches Some(c) && c@ == name
}

/// The failure can be of the constraint `name`: it names that one, or none
/// at all (an engine that does not report which constraint failed).
pub open spec fn may_be_constraint(f: StorageFailure, name: Seq<char>) -> bool {
    f.constraint is None || names_constraint(f, name)
}

impl StorageFailure {
    pub fn has_constraint(&self, name: &str) -> (r: bool)
        ensures
            r == names_constraint(*self, name@),
    {
        match &self.constraint {
            Some(c) => {
                let wanted = String::from_str(name);
                c.eq(&wanted)
            },
            None => false,
        }
    }

    /// The signal is `signal`, and the constraint, where one is reported,
    /// is `name`.
    pub fn is_violation_of(&self, signal: FailureSignal, name: &str) -> (r: bool)
        ensures
            r == (self.signal == signal && may_be_constraint(*self, name@)),
    {
        self.signal == signal && (self.constraint.is_none() || self.has_constraint(name))
    }
}

/// How a handle was acquired.
#[derive(Clone, Copy, Debug, PartialEq, Eq, Structural)]
pub enum HandleMode {
    /// A connection on which each statement stands alone.
    BareConnection,
    /// A transaction: its statements apply together or not at all.
    Transaction,
}

/// How a handle is given back to the pool.
#[derive(Clone, Copy, Debug, PartialEq, Eq, Structural)]
pub enum Release {
    Close,
    Commit,
    Rollback,
}

/// The release owed to a handle of `mode` whose body succeeded or not.
pub open spec fn release_for(mode: HandleMode, body_ok: bool) -> Release {
    match mode {
        HandleMode::BareConnection => Release::Close,
        HandleMode::Transaction => if body_ok {
            Release::Commit
        } else {
            Release::Rollback
        },
    }
}

/// What a scope returns once it is released: a failed release overrides the
/// body's own result.
pub open spec fn settled<T>(body: Result<T, StorageFailure>, released: Result<(), StorageFailure>) -> Result<T, StorageFailure> {
    match released {
        Ok(()) => body,
        Err(f) => Err(f),
    }
}

/// Where a scope stands.
pub enum ScopePhase<T> {
    /// The handle is being acquired.
    Acquiring,
    /// The handle is held and the body runs on it.
    Running,
    /// The body has finished with this result; the release is under way.
    Releasing(Result<T, StorageFailure>),
    /// The scope has returned; the handle is back in the pool or was never had.
    Done,
}

/// One scoped use of a handle. The driver acquires the handle, runs the body
/// and performs the release that the scope names, reporting each outcome
/// back; the scope decides what comes next and what is returned.
pub struct Scope<T> {
    pub mode: HandleMode,
    pub phase: ScopePhase<T>,
}

impl<T> Scope<T> {
    pub fn new(mode: HandleMode) -> (r: Self)
        ensures
            r.mode == mode,
            r.phase is Acquiring,
    {
        Scope { mode, phase: ScopePhase::Acquiring }
    }

    /// The acquisition ended. On failure the scope is over and returns that
    /// failure; on success the body is to run (`None`).
    pub fn on_acquired(&mut self, acquired: Result<(), StorageFailure>) -> (r: Option<Result<T, StorageFailure>>)
        requires
            old(self).phase is Acquiring,
        ensures
            final(self).mode == old(self).mode,
            match acquired {
                Ok(()) => r is None && final(self).phase is Running,
                Err(f) => r == Some(Err::<T, StorageFailure>(f)) && final(self).phase is Done,
            },
    {
        match acquired {
            Ok(()) => {
                self.phase = ScopePhase::Running;
                None
            },
            Err(f) => {
                self.phase = ScopePhase::Done;
                Some(Err(f))
            },
        }
    }

    /// The body finished with `body`; the answer is the one release to
    /// perform on the handle.
    pub fn on_body_finished(&mut self, body: Result<T, StorageFailure>) -> (r: Release)
        requires
            old(self).phase is Running,
        ensures
            final(self).mode == old(self).mode,
            r == release_for(old(self).mode, body is Ok),
            final(self).phase == ScopePhase::Releasing(body),
    {
        let release = match self.mode {
            HandleMode::BareConnection => Release::Close,
            HandleMode::Transaction => if body.is_ok() {
                Release::Commit
            } else {
                Release::Rollback
            },
        };
        self.phase = ScopePhase::Releasing(body);
        release
    }

    /// The release ended with `released`; the scope is over and returns the
    /// body's result, unless the release failed.
    pub fn on_released(&mut self, released: Result<(), StorageFailure>) -> (r: Result<T, StorageFailure>)
        requires
            old(self).phase is Releasing,
        ensures
            final(self).mode == old(self).mode,
            final(self).phase is Done,
            r == settled(old(self).phase->Releasing_0, released),
    {
        let mut phase = ScopePhase::Done;
        core::mem::swap(&mut phase, &mut self.phase);
        match phase {
            ScopePhase::Releasing(body) => match released {
                Ok(()) => body,
                Err(f) => Err(f),
            },
            _ => {
                proof { assert(false); }
                Err(StorageFailure { signal: FailureSignal::Other, constraint: None, causes: Vec::new() })
            },
        }
    }
}

/// In a transaction, exactly one of commit and rollback ends the scope: the
/// commit when the body succeeded, the rollback when it failed. A failed body
/// is never committed and the scope returns a failure, whatever the rollback
/// itself did.
pub proof fn lemma_transaction_commits_or_rolls_back<T>(body: Result<T, StorageFailure>, released: Result<(), StorageFailure>)
    ensures
        (release_for(HandleMode::Transaction, body is Ok) == Release::Commit) == (body is Ok),
        (release_for(HandleMode::Transaction, body is Ok) == Release::Rollback) == (body is Err),
        body is Err ==> settled(body, released) is Err,
        released is Ok ==> settled(body, released) == body,
{
}

/// A bare connection is always closed, and never committed or rolled back.
pub proof fn lemma_bare_connection_closes(body_ok: bool)
    ensures
        release_for(HandleMode::BareConnection, body_ok) == Release::Close,
{
}

} // verus!
