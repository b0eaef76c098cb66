//! The persistence interface a task consumes.
//!
//! The storage engine behind it is a pluggable external collaborator, shared
//! across tasks and internally synchronized; a task borrows the handle for
//! the duration of one call. This core guarantees exactly one `checkpoint`
//! call per checkpoint signal it receives; implementors expose the calls they
//! have served as the spec-level `history`, so that guarantee is checkable.

use crate::error::PersistError;
use vstd::prelude::*;

verus! {

/// A checkpoint-capable state backend.
pub trait StateBackend: Sized {
    /// The checkpoint identifiers this backend has been asked to persist,
    /// oldest first. Failed attempts count too: the history records calls,
    /// not successes.
    spec fn history(&self) -> Seq<Seq<char>>;

    /// Which results a checkpoint call for `id` may produce in this state;
    /// each implementor fixes this relation.
    spec fn checkpoint_rel(&self, id: Seq<char>, r: Result<(), PersistError>) -> bool;

    /// Durably persist the state registered under `id`. Exactly one history
    /// entry per call, whatever the outcome.
    fn checkpoint(&mut self, id: String) -> (r: Result<(), PersistError>)
        ensures
            final(self).history() == old(self).history().push(id@),
            old(self).checkpoint_rel(id@, r),
    ;
}

/// An in-memory backend: it records every checkpoint id it is asked for, and
/// either accepts or refuses all of them — the reference implementation for
/// hosts and tests without a storage engine.
pub struct MemoryBackend {
    pub log: Vec<String>,
    pub accept: bool,
}

impl StateBackend for MemoryBackend {
    open spec fn history(&self) -> Seq<Seq<char>> {
        self.log@.map_values(|s: String| s@)
    }

    open spec fn checkpoint_rel(&self, id: Seq<char>, r: Result<(), PersistError>) -> bool {
        if self.accept {
            r is Ok
        } else {
            r is Err
        }
    }

    fn checkpoint(&mut self, id: String) -> (r: Result<(), PersistError>) {
        let ghost pre = self.log@;
        self.log.push(id);
        proof {
            assert(self.history() =~= pre.map_values(|s: String| s@).push(self.log@.last()@));
        }
        if self.accept {
            Ok(())
        } else {
            Err(PersistError { message: String::new() })
        }
    }
}

} // verus!
