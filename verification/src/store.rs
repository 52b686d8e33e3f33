//! Durable persistence of exactly one token record per configured path.
//!
//! The store is an interface: the verified in-memory implementation backs
//! tests and proofs, while a file-backed implementation lives with the
//! surrounding program. Every implementation is described by the same
//! abstract state, a [`StoreView`].

use vstd::prelude::*;

use crate::record::{TokenRecord, TokenRecordView};

verus! {

/// Why a store operation failed.
#[derive(Clone, Copy, Debug, PartialEq, Eq, Structural)]
pub enum StoreError {
    /// No record has ever been written at this path.
    NotFound,
    /// The content at this path cannot be parsed into a record.
    Corrupt,
    /// The record could not be persisted.
    WriteFailed,
}

/// Abstract state of a store.
pub enum StoreView {
    /// Nothing is stored.
    Missing,
    /// Something is stored, but it does not parse into a record.
    Damaged,
    /// A well-formed record is stored.
    Present(TokenRecordView),
}

/// Persistence of one token record.
///
/// `load` yields exactly the stored record; `save` replaces it in full and
/// leaves the prior content intact when it fails.
pub trait TokenStore: Sized {
    /// Implementation-specific well-formedness, established by the
    /// implementation's constructors and preserved by every method.
    /// Holds trivially for an implementation that does not refine it.
    open spec fn inv(&self) -> bool {
        true
    }

    /// Abstract content of the store. An implementation that supplies no
    /// model (one written outside the verifier) is modelled as empty.
    open spec fn stored(&self) -> StoreView {
        StoreView::Missing
    }

    /// Reads the stored record. The caller always sees either the valid
    /// stored record or an error, never partial state.
    fn load(&self) -> (r: Result<TokenRecord, StoreError>)
        requires
            self.inv(),
        ensures
            match r {
                Ok(rec) => self.stored() == StoreView::Present(rec@) && rec.wf(),
                Err(StoreError::NotFound) => self.stored() is Missing,
                Err(StoreError::Corrupt) => self.stored() is Damaged,
                Err(StoreError::WriteFailed) => false,
            },
    ;

    /// Writes `record`, replacing any prior content in full. On failure
    /// the prior content is untouched.
    fn save(&mut self, record: &TokenRecord) -> (r: Result<(), StoreError>)
        requires
            old(self).inv(),
            record.wf(),
        ensures
            final(self).inv(),
            match r {
                Ok(()) => final(self).stored() == StoreView::Present(record@),
                Err(e) => e == StoreError::WriteFailed && final(self).stored()
                    == old(self).stored(),
            },
    ;
}

/// An in-memory store: the substitutable fake that tests and laws run
/// against.
pub struct InMemoryStore {
    slot: Option<TokenRecord>,
    damaged: bool,
    fail_saves: bool,
}

impl InMemoryStore {
    /// A store with nothing written yet.
    pub fn new_empty() -> (s: Self)
        ensures
            s.inv(),
            s.stored() is Missing,
    {
        InMemoryStore { slot: None, damaged: false, fail_saves: false }
    }

    /// A store whose content does not parse into a record.
    pub fn new_damaged() -> (s: Self)
        ensures
            s.inv(),
            s.stored() is Damaged,
    {
        InMemoryStore { slot: None, damaged: true, fail_saves: false }
    }

    /// A store already holding `record`.
    pub fn with_record(record: TokenRecord) -> (s: Self)
        requires
            record.wf(),
        ensures
            s.inv(),
            s.stored() == StoreView::Present(record@),
    {
        InMemoryStore { slot: Some(record), damaged: false, fail_saves: false }
    }

    /// Makes every later `save` fail, simulating a full or read-only disk.
    pub fn make_saves_fail(&mut self)
        requires
            old(self).inv(),
        ensures
            final(self).inv(),
            final(self).stored() == old(self).stored(),
    {
        self.fail_saves = true;
    }
}

impl TokenStore for InMemoryStore {
    closed spec fn inv(&self) -> bool {
        self.slot matches Some(r) ==> r@.wf()
    }

    closed spec fn stored(&self) -> StoreView {
        if self.damaged {
            StoreView::Damaged
        } else {
            match self.slot {
                Some(r) => StoreView::Present(r@),
                None => StoreView::Missing,
            }
        }
    }

    fn load(&self) -> (r: Result<TokenRecord, StoreError>) {
        if self.damaged {
            Err(StoreError::Corrupt)
        } else {
            match &self.slot {
                Some(rec) => Ok(rec.clone()),
                None => Err(StoreError::NotFound),
            }
        }
    }

    fn save(&mut self, record: &TokenRecord) -> (r: Result<(), StoreError>) {
        if self.fail_saves {
            Err(StoreError::WriteFailed)
        } else {
            self.slot = Some(record.clone());
            self.damaged = false;
            Ok(())
        }
    }
}

/// Law: saving a record and then loading from the same store yields a
/// record equal in all fields to the one saved; only a failed save can
/// prevent that, and it leaves the store as it was.
pub fn save_then_load<S: TokenStore>(store: &mut S, record: &TokenRecord) -> (r: Result<
    TokenRecord,
    StoreError,
>)
    requires
        old(store).inv(),
        record.wf(),
    ensures
        final(store).inv(),
        match r {
            Ok(rec) => rec@ == record@ && final(store).stored() == StoreView::Present(record@),
            Err(e) => e == StoreError::WriteFailed && final(store).stored()
                == old(store).stored(),
        },
{
    match store.save(record) {
        Ok(()) => store.load(),
        Err(e) => Err(e),
    }
}

} // verus!
