//! The receiver's phases: each check must be reported passed before the
//! PSBT can move to the next phase.

use vstd::prelude::*;
use crate::psbt::{
    PartiallySignedTransaction, Psbt, PsbtError, Transaction, OutPoint, count_error, extract_tx, is_extracted,
    prev_txout, previous_txout,
};

verus! {

/// A transition that always succeeds.
pub trait Next<S> {
    fn next(self) -> PsbtState<S>;
}

/// A transition that succeeds only once its check was reported passed.
pub trait TryNext<S> {
    fn try_next(self) -> Result<PsbtState<S>, PsbtError>;
}

/// A PSBT in phase `S`.
pub struct PsbtState<S> {
    psbt: Psbt,
    state: S,
}

/// Record counts were checked.
pub struct Validated;

/// Waiting for the caller to confirm that the transaction can be broadcast.
pub struct MaybeUnbroadcastable {
    is_broadcastable: bool,
}

/// Waiting for the caller to confirm that no input is its own.
pub struct MaybeInputsOwned {
    are_previous_script_pubkey_not_mine: bool,
}

/// Waiting for the caller to confirm that no spent output was seen before.
pub struct MaybePrevoutsSeen {
    are_prevouts_never_seen: bool,
}

/// Every check passed.
pub struct Proposal;

impl<S> PsbtState<S> {
    /// The PSBT this phase holds.
    pub closed spec fn psbt(&self) -> PartiallySignedTransaction {
        self.psbt@
    }

    /// The PSBT this phase holds.
    pub fn get(&self) -> (r: &PartiallySignedTransaction)
        ensures
            *r == self.psbt(),
            r.counts_match(),
    {
        self.psbt.get()
    }
}

impl PsbtState<Validated> {
    /// Enters the first phase when the record counts agree.
    pub fn try_from(psbt: PartiallySignedTransaction) -> (r: Result<PsbtState<Validated>, PsbtError>)
        ensures
            match r {
                Ok(s) => count_error(psbt) is None && s.psbt() == psbt,
                Err(e) => count_error(psbt) == Some(e),
            },
    {
        match Psbt::try_from(psbt) {
            Ok(p) => Ok(PsbtState { psbt: p, state: Validated }),
            Err(e) => Err(e),
        }
    }

    /// Moves on to the broadcast check, not yet passed.
    pub fn next(self) -> (r: PsbtState<MaybeUnbroadcastable>)
        ensures
            r.psbt() == self.psbt(),
            !r.passed(),
    {
        PsbtState { psbt: self.psbt, state: MaybeUnbroadcastable { is_broadcastable: false } }
    }
}

impl PsbtState<MaybeUnbroadcastable> {
    pub closed spec fn passed(&self) -> bool {
        self.state.is_broadcastable
    }

    /// The finalized transaction, to test with the node's mempool.
    pub fn tx(&self) -> (r: Transaction)
        ensures
            is_extracted(self.psbt(), r),
    {
        extract_tx(self.psbt.get())
    }

    /// Records that the transaction can be broadcast.
    pub fn verified_broadcastable(&mut self)
        ensures
            final(self).passed(),
            final(self).psbt() == old(self).psbt(),
    {
        self.state.is_broadcastable = true;
    }

    /// Moves on to the ownership check, only once this check has passed.
    pub fn try_next(self) -> (r: Result<PsbtState<MaybeInputsOwned>, PsbtError>)
        ensures
            r is Ok <==> self.passed(),
            r matches Ok(n) ==> n.psbt() == self.psbt() && !n.passed(),
            r matches Err(e) ==> e == PsbtError::GuardNotSet,
    {
        if self.state.is_broadcastable {
            Ok(PsbtState { psbt: self.psbt, state: MaybeInputsOwned { are_previous_script_pubkey_not_mine: false } })
        } else {
            Err(PsbtError::GuardNotSet)
        }
    }
}

impl PsbtState<MaybeInputsOwned> {
    pub closed spec fn passed(&self) -> bool {
        self.state.are_previous_script_pubkey_not_mine
    }

    /// The script of the output each input spends, in order; `None` where
    /// the input's record does not give its funding output.
    pub fn script_pubkeys(&self) -> (r: Vec<Option<&Vec<u8>>>)
        ensures
            r@.len() == self.psbt().unsigned_tx.input@.len(),
            forall|k: int| 0 <= k < r@.len() ==> {
                let funding = prev_txout(self.psbt().unsigned_tx.input@[k], self.psbt().inputs@[k]);
                match #[trigger] r@[k] {
                    Some(spk) => funding is Ok && *spk == funding->Ok_0.script_pubkey,
                    None => funding is Err,
                }
            },
    {
        let p = self.psbt.get();
        let mut r: Vec<Option<&Vec<u8>>> = Vec::new();
        let mut i: usize = 0;
        while i < p.inputs.len()
            invariant
                *p == self.psbt(),
                p.counts_match(),
                i <= p.inputs@.len(),
                r@.len() == i,
                forall|k: int| 0 <= k < i ==> {
                    let funding = prev_txout(p.unsigned_tx.input@[k], p.inputs@[k]);
                    match #[trigger] r@[k] {
                        Some(spk) => funding is Ok && *spk == funding->Ok_0.script_pubkey,
                        None => funding is Err,
                    }
                },
            decreases p.inputs@.len() - i,
        {
            match previous_txout(&p.unsigned_tx.input[i], &p.inputs[i]) {
                Ok(txout) => r.push(Some(&txout.script_pubkey)),
                Err(_) => r.push(None),
            }
            i = i + 1;
        }
        r
    }

    /// Records that no input spends an output of the receiver's.
    pub fn verified_inputs_not_owned(&mut self)
        ensures
            final(self).passed(),
            final(self).psbt() == old(self).psbt(),
    {
        self.state.are_previous_script_pubkey_not_mine = true;
    }

    /// Moves on to the replay check, only once this check has passed.
    pub fn try_next(self) -> (r: Result<PsbtState<MaybePrevoutsSeen>, PsbtError>)
        ensures
            r is Ok <==> self.passed(),
            r matches Ok(n) ==> n.psbt() == self.psbt() && !n.passed(),
            r matches Err(e) ==> e == PsbtError::GuardNotSet,
    {
        if self.state.are_previous_script_pubkey_not_mine {
            Ok(PsbtState { psbt: self.psbt, state: MaybePrevoutsSeen { are_prevouts_never_seen: false } })
        } else {
            Err(PsbtError::GuardNotSet)
        }
    }
}

impl PsbtState<MaybePrevoutsSeen> {
    pub closed spec fn passed(&self) -> bool {
        self.state.are_prevouts_never_seen
    }

    /// The outpoint each input spends, in order.
    pub fn outpoints(&self) -> (r: Vec<&OutPoint>)
        ensures
            r@.len() == self.psbt().unsigned_tx.input@.len(),
            forall|k: int| 0 <= k < r@.len() ==> *(#[trigger] r@[k]) == self.psbt().unsigned_tx.input@[k].previous_output,
    {
        let inputs = &self.psbt.get().unsigned_tx.input;
        let mut r: Vec<&OutPoint> = Vec::new();
        let mut i: usize = 0;
        while i < inputs.len()
            invariant
                *inputs == self.psbt().unsigned_tx.input,
                i <= inputs@.len(),
                r@.len() == i,
                forall|k: int| 0 <= k < i ==> *(#[trigger] r@[k]) == inputs@[k].previous_output,
            decreases inputs@.len() - i,
        {
            r.push(&inputs[i].previous_output);
            i = i + 1;
        }
        r
    }

    /// Records that no spent output was seen in an earlier request.
    pub fn verified_prevouts_not_seen(&mut self)
        ensures
            final(self).passed(),
            final(self).psbt() == old(self).psbt(),
    {
        self.state.are_prevouts_never_seen = true;
    }

    /// Becomes a proposal, only once this check has passed.
    pub fn try_next(self) -> (r: Result<PsbtState<Proposal>, PsbtError>)
        ensures
            r is Ok <==> self.passed(),
            r matches Ok(n) ==> n.psbt() == self.psbt(),
            r matches Err(e) ==> e == PsbtError::GuardNotSet,
    {
        if self.state.are_prevouts_never_seen {
            Ok(PsbtState { psbt: self.psbt, state: Proposal })
        } else {
            Err(PsbtError::GuardNotSet)
        }
    }
}

impl TryNext<Validated> for PartiallySignedTransaction {
    fn try_next(self) -> Result<PsbtState<Validated>, PsbtError> {
        PsbtState::<Validated>::try_from(self)
    }
}

impl Next<MaybeUnbroadcastable> for PsbtState<Validated> {
    fn next(self) -> PsbtState<MaybeUnbroadcastable> {
        PsbtState::<Validated>::next(self)
    }
}

impl TryNext<MaybeInputsOwned> for PsbtState<MaybeUnbroadcastable> {
    fn try_next(self) -> Result<PsbtState<MaybeInputsOwned>, PsbtError> {
        PsbtState::<MaybeUnbroadcastable>::try_next(self)
    }
}

impl TryNext<MaybePrevoutsSeen> for PsbtState<MaybeInputsOwned> {
    fn try_next(self) -> Result<PsbtState<MaybePrevoutsSeen>, PsbtError> {
        PsbtState::<MaybeInputsOwned>::try_next(self)
    }
}

impl TryNext<Proposal> for PsbtState<MaybePrevoutsSeen> {
    fn try_next(self) -> Result<PsbtState<Proposal>, PsbtError> {
        PsbtState::<MaybePrevoutsSeen>::try_next(self)
    }
}

} // verus!
