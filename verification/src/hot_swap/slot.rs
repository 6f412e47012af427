//! The slot that holds the active engine and, while one is staged, a
//! candidate.
//!
//! The active engine is a field, never an option: there is no state of the
//! slot in which it is absent. Every change goes through `&mut self`, so no
//! reader holds the slot while it changes, and a reader sees the engines
//! either before a change or after it.

use crate::engine::MiningAlgorithm;
use vstd::prelude::*;

verus! {

/// Why a change of the slot was refused.
#[derive(Debug, Clone, Copy, PartialEq, Eq, Structural)]
pub enum SlotError {
    /// A candidate is staged already.
    AlreadyStaged,
    /// No candidate is staged.
    NoCandidate,
}

/// The active engine and at most one candidate.
pub struct EngineSlot<E: MiningAlgorithm> {
    active: E,
    candidate: Option<E>,
}

impl<E: MiningAlgorithm> EngineSlot<E> {
    /// The active engine.
    pub closed spec fn active(&self) -> E {
        self.active
    }

    /// The staged candidate, if there is one.
    pub closed spec fn candidate(&self) -> Option<E> {
        self.candidate
    }

    /// A slot with `initial` active and no candidate.
    pub fn new(initial: E) -> (slot: Self)
        ensures
            slot.active() == initial,
            slot.candidate().is_none(),
    {
        EngineSlot { active: initial, candidate: None }
    }

    /// The active engine.
    pub fn read_active(&self) -> (engine: &E)
        ensures
            *engine == self.active(),
    {
        &self.active
    }

    /// The staged candidate, if there is one.
    pub fn read_candidate(&self) -> (engine: Option<&E>)
        ensures
            engine.is_some() == self.candidate().is_some(),
            engine.is_some() ==> *engine.unwrap() == self.candidate().unwrap(),
    {
        self.candidate.as_ref()
    }

    /// Tells whether a candidate is staged.
    pub fn has_candidate(&self) -> (r: bool)
        ensures
            r == self.candidate().is_some(),
    {
        self.candidate.is_some()
    }

    /// Stages `candidate`, unless one is staged already: then the slot stays
    /// as it is.
    pub fn stage(&mut self, candidate: E) -> (r: Result<(), SlotError>)
        ensures
            final(self).active() == old(self).active(),
            old(self).candidate().is_none() ==> r.is_ok() && final(self).candidate() == Some(
                candidate,
            ),
            old(self).candidate().is_some() ==> r is Err && r->Err_0 == SlotError::AlreadyStaged
                && final(self).candidate() == old(self).candidate(),
    {
        if self.candidate.is_some() {
            return Err(SlotError::AlreadyStaged);
        }
        self.candidate = Some(candidate);
        Ok(())
    }

    /// Makes the candidate the active engine and empties the candidate's
    /// place, in one step. Without a candidate the slot stays as it is.
    pub fn finalize(&mut self) -> (r: Result<(), SlotError>)
        ensures
            final(self).candidate().is_none(),
            old(self).candidate().is_some() ==> r.is_ok() && final(self).active() == old(
                self,
            ).candidate().unwrap(),
            old(self).candidate().is_none() ==> r is Err && r->Err_0 == SlotError::NoCandidate
                && final(self).active() == old(self).active(),
    {
        match self.candidate.take() {
            Some(engine) => {
                self.active = engine;
                Ok(())
            },
            None => Err(SlotError::NoCandidate),
        }
    }

    /// Discards the candidate, if there is one.
    pub fn clear_candidate(&mut self)
        ensures
            final(self).active() == old(self).active(),
            final(self).candidate().is_none(),
    {
        self.candidate = None;
    }
}

} // verus!
