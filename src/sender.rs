//! Sender side of a PayJoin: the request builder and the validation of the
//! receiver's proposal against the original transaction.

use vstd::prelude::*;
use crate::psbt::{
    PartiallySignedTransaction, Psbt, TxIn, TxOut, Input, PrevTxOutError, prev_txout,
    previous_txout, same_outpoint, outpoint_eq, bytes_eq,
};
use crate::input_type::{InputType, InputTypeError, input_type_of};
use crate::weight::{tx_weight_u64, weight, lemma_sizes_nonneg};
use crate::psbt::{sanitized_from, input_sanitized_from};
use crate::url::{decimal, push_decimal, push_str, string_from_chars};

verus! {

/// What the sender keeps to validate the receiver's proposal.
pub struct Context {
    pub original_psbt: Psbt,
    pub disable_output_substitution: bool,
    /// Most the receiver may take from the sender's fee output, and that
    /// output's index.
    pub fee_contribution: Option<(u64, usize)>,
    pub input_type: InputType,
    pub sequence: u32,
    pub payee: Vec<u8>,
}

/// Why a proposal was rejected.
#[allow(inconsistent_fields)]
#[derive(Debug, PartialEq, Eq, Structural, Clone, Copy)]
pub enum ValidationError {
    Decode,
    InvalidProposedInput(PrevTxOutError),
    InvalidInputType(InputTypeError),
    VersionsDontMatch { proposed: i32, original: i32 },
    LockTimesDontMatch { proposed: u32, original: u32 },
    SenderTxinSequenceChanged { proposed: u32, original: u32 },
    SenderTxinContainsNonWitnessUtxo,
    SenderTxinContainsWitnessUtxo,
    SenderTxinContainsFinalScriptSig,
    SenderTxinContainsFinalScriptWitness,
    TxInContainsKeyPaths,
    ContainsPartialSigs,
    ReceiverTxinMissingUtxoInfo,
    MixedSequence,
    MixedInputTypes { proposed: InputType, original: InputType },
    MissingOrShuffledInputs,
    TxOutContainsKeyPaths,
    FeeContributionExceedsMaximum,
    DisallowedOutputSubstitution,
    OutputValueDecreased,
    MissingOrShuffledOutputs,
    Inflation,
    AbsoluteFeeDecreased,
    PayeeTookContributedFee,
    FeeContributionPaysOutputSizeIncrease,
}

/// Value of the output an input spends; nothing when it cannot be found.
pub open spec fn input_value(txin: TxIn, psbtin: Input) -> int {
    match prev_txout(txin, psbtin) {
        Ok(o) => o.value as int,
        Err(_) => 0,
    }
}

/// Total value spent by the first `n` inputs.
pub open spec fn inputs_value(p: PartiallySignedTransaction, n: int) -> int
    decreases n,
{
    if n <= 0 {
        0
    } else {
        inputs_value(p, n - 1) + input_value(p.unsigned_tx.input@[n - 1], p.inputs@[n - 1])
    }
}

/// Total value of a sequence of outputs.
pub open spec fn outputs_value(outs: Seq<TxOut>) -> int
    decreases outs.len(),
{
    if outs.len() == 0 {
        0
    } else {
        outputs_value(outs.drop_last()) + outs.last().value
    }
}

/// Fee a PSBT pays; none when its outputs exceed its inputs.
pub open spec fn psbt_fee(p: PartiallySignedTransaction) -> int {
    let a = inputs_value(p, p.inputs@.len() as int);
    let b = outputs_value(p.unsigned_tx.output@);
    if a >= b {
        a - b
    } else {
        0
    }
}

/// The first fault of a proposed input that matched an original input.
pub open spec fn sender_input_error(proposed: TxIn, psbtin: Input, original: TxIn) -> Option<ValidationError> {
    if proposed.sequence != original.sequence {
        Some(ValidationError::SenderTxinSequenceChanged { proposed: proposed.sequence, original: original.sequence })
    } else if psbtin.non_witness_utxo is Some {
        Some(ValidationError::SenderTxinContainsNonWitnessUtxo)
    } else if psbtin.witness_utxo is Some {
        Some(ValidationError::SenderTxinContainsWitnessUtxo)
    } else if psbtin.final_script_sig is Some {
        Some(ValidationError::SenderTxinContainsFinalScriptSig)
    } else if psbtin.final_script_witness is Some {
        Some(ValidationError::SenderTxinContainsFinalScriptWitness)
    } else {
        None
    }
}

/// The original output `k` pays the payee.
pub open spec fn is_payee_output(ctx: Context, k: int) -> bool {
    0 <= k < ctx.original().unsigned_tx.output@.len() && ctx.original().unsigned_tx.output@[k].script_pubkey@
        == ctx.payee@
}

impl Context {
    pub open spec fn original(&self) -> PartiallySignedTransaction {
        self.original_psbt@
    }

    /// What a context built from a valid original holds: its record counts
    /// agree, every original input's funding output is known, exactly one
    /// original output pays the payee, and the fee output, if any, exists and
    /// pays someone else.
    pub open spec fn wf(&self) -> bool {
        &&& self.original().counts_match()
        &&& forall|k: int| 0 <= k < self.original().inputs@.len() ==> #[trigger] prev_txout(
            self.original().unsigned_tx.input@[k],
            self.original().inputs@[k],
        ) is Ok
        &&& exists|k: int| is_payee_output(*self, k)
        &&& forall|k1: int, k2: int|
            #![trigger is_payee_output(*self, k1), is_payee_output(*self, k2)]
            is_payee_output(*self, k1) && is_payee_output(*self, k2) ==> k1 == k2
        &&& self.fee_contribution matches Some((_, index)) ==> index < self.original().unsigned_tx.output@.len()
            && !is_payee_output(*self, index as int)
    }

    /// The value a receiver-added input brings, or why it is refused.
    pub open spec fn receiver_input_value(&self, txin: TxIn, psbtin: Input) -> Result<u64, ValidationError> {
        if psbtin.witness_utxo is None && psbtin.non_witness_utxo is None {
            Err(ValidationError::ReceiverTxinMissingUtxoInfo)
        } else if txin.sequence != self.sequence {
            Err(ValidationError::MixedSequence)
        } else {
            match prev_txout(txin, psbtin) {
                Err(e) => Err(ValidationError::InvalidProposedInput(e)),
                Ok(txout) => match input_type_of(txout, psbtin) {
                    Err(e) => Err(ValidationError::InvalidInputType(e)),
                    Ok(t) => if t != self.input_type {
                        Err(ValidationError::MixedInputTypes { proposed: t, original: self.input_type })
                    } else {
                        Ok(txout.value)
                    },
                },
            }
        }
    }

    /// Walks the proposal's inputs from `i` on, with the original inputs
    /// from `j` on still to be found, having accumulated input value `v`.
    /// Gives the total input value, or the first fault.
    pub open spec fn walk_inputs(&self, p: PartiallySignedTransaction, i: int, j: int, v: int) -> Result<int, ValidationError>
        decreases p.inputs@.len() - i,
    {
        let o = self.original();
        if i >= p.inputs@.len() || i < 0 {
            if j < o.inputs@.len() {
                Err(ValidationError::MissingOrShuffledInputs)
            } else {
                Ok(v)
            }
        } else {
            let txin = p.unsigned_tx.input@[i];
            let psbtin = p.inputs@[i];
            if psbtin.bip32_derivation@.len() != 0 {
                Err(ValidationError::TxInContainsKeyPaths)
            } else if psbtin.partial_sigs@.len() != 0 {
                Err(ValidationError::ContainsPartialSigs)
            } else if 0 <= j < o.inputs@.len() && same_outpoint(txin.previous_output, o.unsigned_tx.input@[j].previous_output) {
                match sender_input_error(txin, psbtin, o.unsigned_tx.input@[j]) {
                    Some(e) => Err(e),
                    None => self.walk_inputs(p, i + 1, j + 1, v + input_value(o.unsigned_tx.input@[j], o.inputs@[j])),
                }
            } else {
                match self.receiver_input_value(txin, psbtin) {
                    Err(e) => Err(e),
                    Ok(x) => self.walk_inputs(p, i + 1, j, v + x),
                }
            }
        }
    }

    /// Walks the proposal's outputs from `i` on, with the original outputs
    /// from `j` on still to be found, having accumulated output value `t`
    /// and contributed fee `c`. Gives both totals, or the first fault.
    pub open spec fn walk_outputs(&self, p: PartiallySignedTransaction, i: int, j: int, t: int, c: int) -> Result<(int, int), ValidationError>
        decreases p.outputs@.len() - i,
    {
        let o = self.original();
        if i >= p.outputs@.len() || i < 0 {
            if j < o.unsigned_tx.output@.len() {
                Err(ValidationError::MissingOrShuffledOutputs)
            } else {
                Ok((t, c))
            }
        } else {
            let out = p.unsigned_tx.output@[i];
            let t2 = t + out.value;
            if p.outputs@[i].bip32_derivation@.len() != 0 {
                Err(ValidationError::TxOutContainsKeyPaths)
            } else if 0 <= j < o.unsigned_tx.output@.len() {
                let orig = o.unsigned_tx.output@[j];
                if self.fee_contribution is Some && j == self.fee_contribution->Some_0.1 && out.script_pubkey@ == orig.script_pubkey@ {
                    if out.value < orig.value {
                        let c2 = orig.value - out.value;
                        if c2 >= self.fee_contribution->Some_0.0 {
                            Err(ValidationError::FeeContributionExceedsMaximum)
                        } else {
                            self.walk_outputs(p, i + 1, j + 1, t2, c2)
                        }
                    } else {
                        self.walk_outputs(p, i + 1, j + 1, t2, c)
                    }
                } else if orig.script_pubkey@ == self.payee@ {
                    if self.disable_output_substitution && !(out.script_pubkey@ == orig.script_pubkey@ && out.value >= orig.value) {
                        Err(ValidationError::DisallowedOutputSubstitution)
                    } else {
                        self.walk_outputs(p, i + 1, j + 1, t2, c)
                    }
                } else if out.script_pubkey@ == orig.script_pubkey@ {
                    if out.value < orig.value {
                        Err(ValidationError::OutputValueDecreased)
                    } else {
                        self.walk_outputs(p, i + 1, j + 1, t2, c)
                    }
                } else {
                    self.walk_outputs(p, i + 1, j, t2, c)
                }
            } else {
                self.walk_outputs(p, i + 1, j, t2, c)
            }
        }
    }

    /// Fee the original pays per weight unit, rounded down.
    pub open spec fn original_fee_rate(&self) -> int {
        psbt_fee(self.original()) / (tx_weight_u64(self.original().unsigned_tx) as int)
    }

    /// Most fee the receiver may take: the original fee rate times the
    /// expected weight of each input it added.
    pub open spec fn contribution_bound(&self, p: PartiallySignedTransaction) -> int {
        self.original_fee_rate() * (self.input_type.spec_expected_input_weight() as int) * (p.inputs@.len()
            - self.original().inputs@.len())
    }

    /// The fee rules, given the accumulated totals.
    pub open spec fn fee_verdict(&self, p: PartiallySignedTransaction, in_total: int, out_total: int, contributed: int) -> Result<(), ValidationError> {
        let original_fee = psbt_fee(self.original());
        if out_total > in_total {
            Err(ValidationError::Inflation)
        } else if original_fee > in_total - out_total {
            Err(ValidationError::AbsoluteFeeDecreased)
        } else if contributed > in_total - out_total - original_fee {
            Err(ValidationError::PayeeTookContributedFee)
        } else if contributed > self.contribution_bound(p) {
            Err(ValidationError::FeeContributionPaysOutputSizeIncrease)
        } else {
            Ok(())
        }
    }

    /// The proposal keeps the original's version and lock time.
    pub open spec fn basic_verdict(&self, p: PartiallySignedTransaction) -> Result<(), ValidationError> {
        let o = self.original().unsigned_tx;
        if p.unsigned_tx.version != o.version {
            Err(ValidationError::VersionsDontMatch { proposed: p.unsigned_tx.version, original: o.version })
        } else if p.unsigned_tx.lock_time != o.lock_time {
            Err(ValidationError::LockTimesDontMatch { proposed: p.unsigned_tx.lock_time, original: o.lock_time })
        } else {
            Ok(())
        }
    }

    /// Whether the proposal `p` is accepted, or its first fault: version and
    /// lock time, then inputs, then outputs, then fees.
    pub open spec fn verdict(&self, p: PartiallySignedTransaction) -> Result<(), ValidationError> {
        if self.basic_verdict(p) is Err {
            self.basic_verdict(p)
        } else {
            match self.walk_inputs(p, 0, 0, 0) {
                Err(e) => Err(e),
                Ok(in_total) => match self.walk_outputs(p, 0, 0, 0, 0) {
                    Err(e) => Err(e),
                    Ok((out_total, contributed)) => self.fee_verdict(p, in_total, out_total, contributed),
                },
            }
        }
    }
}

/// Value spent by an input, nothing when its funding output is unknown.
fn spent_value(txin: &TxIn, psbtin: &Input) -> (r: u64)
    ensures
        r as int == input_value(*txin, *psbtin),
{
    match previous_txout(txin, psbtin) {
        Ok(txout) => txout.value,
        Err(_) => 0,
    }
}

const TWO_POW_64: u128 = 0x1_0000_0000_0000_0000;

/// A running total of `i` values below `2^64` stays in a `u128` after one
/// more.
proof fn lemma_next_total_fits(i: int)
    requires
        0 <= i < TWO_POW_64,
    ensures
        (i + 1) * TWO_POW_64 <= TWO_POW_64 * TWO_POW_64,
        i * TWO_POW_64 + TWO_POW_64 == (i + 1) * TWO_POW_64,
{
    assert((i + 1) * TWO_POW_64 <= TWO_POW_64 * TWO_POW_64) by (nonlinear_arith)
        requires
            i < TWO_POW_64,
    ;
    assert(i * TWO_POW_64 + TWO_POW_64 == (i + 1) * TWO_POW_64) by (nonlinear_arith);
}

/// Total value of the outputs of a transaction.
fn total_output_value(outs: &Vec<TxOut>) -> (r: u128)
    ensures
        r as int == outputs_value(outs@),
{
    let mut total: u128 = 0;
    let mut i: usize = 0;
    while i < outs.len()
        invariant
            i <= outs@.len(),
            total as int == outputs_value(outs@.subrange(0, i as int)),
            total as int <= i as int * TWO_POW_64,
        decreases outs@.len() - i,
    {
        proof {
            assert(outs@.subrange(0, i as int + 1).drop_last() =~= outs@.subrange(0, i as int));
            lemma_next_total_fits(i as int);
        }
        total = total + outs[i].value as u128;
        i = i + 1;
    }
    assert(outs@.subrange(0, outs@.len() as int) =~= outs@);
    total
}

/// Fee paid by a PSBT whose counts agree: inputs spent minus outputs made,
/// or nothing when the outputs exceed the inputs.
fn calculate_psbt_fee(psbt: &PartiallySignedTransaction) -> (r: u128)
    requires
        psbt.counts_match(),
    ensures
        r as int == psbt_fee(*psbt),
{
    let total_outputs = total_output_value(&psbt.unsigned_tx.output);
    let mut total_inputs: u128 = 0;
    let mut i: usize = 0;
    while i < psbt.inputs.len()
        invariant
            psbt.counts_match(),
            i <= psbt.inputs@.len(),
            total_inputs as int == inputs_value(*psbt, i as int),
            total_inputs as int <= i as int * TWO_POW_64,
        decreases psbt.inputs@.len() - i,
    {
        proof {
            lemma_next_total_fits(i as int);
        }
        total_inputs = total_inputs + spent_value(&psbt.unsigned_tx.input[i], &psbt.inputs[i]) as u128;
        i = i + 1;
    }
    if total_inputs >= total_outputs {
        total_inputs - total_outputs
    } else {
        0
    }
}

impl Context {
    /// Version and lock time must be those of the original.
    fn basic_checks(&self, proposal: &PartiallySignedTransaction) -> (r: Result<(), ValidationError>)
        ensures
            r == self.basic_verdict(*proposal),
    {
        let o = self.original_psbt.get();
        if proposal.unsigned_tx.version != o.unsigned_tx.version {
            return Err(ValidationError::VersionsDontMatch {
                proposed: proposal.unsigned_tx.version,
                original: o.unsigned_tx.version,
            });
        }
        if proposal.unsigned_tx.lock_time != o.unsigned_tx.lock_time {
            return Err(ValidationError::LockTimesDontMatch {
                proposed: proposal.unsigned_tx.lock_time,
                original: o.unsigned_tx.lock_time,
            });
        }
        Ok(())
    }

    /// Checks a receiver-added input and gives the value it brings.
    fn check_receiver_input(&self, txin: &TxIn, psbtin: &Input) -> (r: Result<u64, ValidationError>)
        ensures
            r == self.receiver_input_value(*txin, *psbtin),
    {
        if psbtin.witness_utxo.is_none() && psbtin.non_witness_utxo.is_none() {
            return Err(ValidationError::ReceiverTxinMissingUtxoInfo);
        }
        if txin.sequence != self.sequence {
            return Err(ValidationError::MixedSequence);
        }
        let txout = match previous_txout(txin, psbtin) {
            Ok(t) => t,
            Err(e) => return Err(ValidationError::InvalidProposedInput(e)),
        };
        let t = match InputType::from_spent_input(txout, psbtin) {
            Ok(t) => t,
            Err(e) => return Err(ValidationError::InvalidInputType(e)),
        };
        if t != self.input_type {
            return Err(ValidationError::MixedInputTypes { proposed: t, original: self.input_type });
        }
        Ok(txout.value)
    }

    /// Checks a proposed input that matched an original one.
    fn check_sender_input(proposed: &TxIn, psbtin: &Input, original: &TxIn) -> (r: Option<ValidationError>)
        ensures
            r == sender_input_error(*proposed, *psbtin, *original),
    {
        if proposed.sequence != original.sequence {
            Some(ValidationError::SenderTxinSequenceChanged { proposed: proposed.sequence, original: original.sequence })
        } else if psbtin.non_witness_utxo.is_some() {
            Some(ValidationError::SenderTxinContainsNonWitnessUtxo)
        } else if psbtin.witness_utxo.is_some() {
            Some(ValidationError::SenderTxinContainsWitnessUtxo)
        } else if psbtin.final_script_sig.is_some() {
            Some(ValidationError::SenderTxinContainsFinalScriptSig)
        } else if psbtin.final_script_witness.is_some() {
            Some(ValidationError::SenderTxinContainsFinalScriptWitness)
        } else {
            None
        }
    }

    /// Walks the proposal's inputs against the original's; gives the total
    /// input value.
    fn check_inputs(&self, proposal: &PartiallySignedTransaction) -> (r: Result<u128, ValidationError>)
        requires
            proposal.counts_match(),
        ensures
            match r {
                Ok(v) => self.walk_inputs(*proposal, 0, 0, 0) == Ok::<int, ValidationError>(v as int)
                    && proposal.inputs@.len() >= self.original().inputs@.len(),
                Err(e) => self.walk_inputs(*proposal, 0, 0, 0) == Err::<int, ValidationError>(e),
            },
    {
        let o = self.original_psbt.get();
        let mut j: usize = 0;
        let mut total: u128 = 0;
        let mut i: usize = 0;
        while i < proposal.inputs.len()
            invariant
                proposal.counts_match(),
                o.counts_match(),
                *o == self.original(),
                j <= i <= proposal.inputs@.len(),
                j <= o.inputs@.len(),
                total as int <= i as int * TWO_POW_64,
                self.walk_inputs(*proposal, 0, 0, 0) == self.walk_inputs(*proposal, i as int, j as int, total as int),
            decreases proposal.inputs@.len() - i,
        {
            proof {
                lemma_next_total_fits(i as int);
            }
            let txin = &proposal.unsigned_tx.input[i];
            let psbtin = &proposal.inputs[i];
            if psbtin.bip32_derivation.len() != 0 {
                return Err(ValidationError::TxInContainsKeyPaths);
            }
            if psbtin.partial_sigs.len() != 0 {
                return Err(ValidationError::ContainsPartialSigs);
            }
            if j < o.inputs.len() && outpoint_eq(&txin.previous_output, &o.unsigned_tx.input[j].previous_output) {
                match Self::check_sender_input(txin, psbtin, &o.unsigned_tx.input[j]) {
                    Some(e) => return Err(e),
                    None => {},
                }
                total = total + spent_value(&o.unsigned_tx.input[j], &o.inputs[j]) as u128;
                j = j + 1;
            } else {
                let x = self.check_receiver_input(txin, psbtin)?;
                total = total + x as u128;
            }
            i = i + 1;
        }
        if j < o.inputs.len() {
            return Err(ValidationError::MissingOrShuffledInputs);
        }
        Ok(total)
    }

    /// Walks the proposal's outputs against the original's; gives the total
    /// output value and the fee taken from the sender's fee output.
    fn check_outputs(&self, proposal: &PartiallySignedTransaction) -> (r: Result<(u128, u64), ValidationError>)
        requires
            proposal.counts_match(),
        ensures
            match r {
                Ok((t, c)) => self.walk_outputs(*proposal, 0, 0, 0, 0) == Ok::<(int, int), ValidationError>((t as int, c as int)),
                Err(e) => self.walk_outputs(*proposal, 0, 0, 0, 0) == Err::<(int, int), ValidationError>(e),
            },
    {
        let o = self.original_psbt.get();
        let n_orig = o.unsigned_tx.output.len();
        let mut j: usize = 0;
        let mut total: u128 = 0;
        let mut contributed: u64 = 0;
        let mut i: usize = 0;
        while i < proposal.outputs.len()
            invariant
                proposal.counts_match(),
                o.counts_match(),
                *o == self.original(),
                n_orig == o.unsigned_tx.output@.len(),
                i <= proposal.outputs@.len(),
                j <= n_orig,
                total as int <= i as int * TWO_POW_64,
                self.walk_outputs(*proposal, 0, 0, 0, 0) == self.walk_outputs(
                    *proposal,
                    i as int,
                    j as int,
                    total as int,
                    contributed as int,
                ),
            decreases proposal.outputs@.len() - i,
        {
            proof {
                lemma_next_total_fits(i as int);
            }
            let out = &proposal.unsigned_tx.output[i];
            if proposal.outputs[i].bip32_derivation.len() != 0 {
                return Err(ValidationError::TxOutContainsKeyPaths);
            }
            total = total + out.value as u128;
            if j < n_orig {
                let orig = &o.unsigned_tx.output[j];
                let same_script = bytes_eq(&out.script_pubkey, &orig.script_pubkey);
                let is_fee_output = match self.fee_contribution {
                    Some((_, index)) => j == index && same_script,
                    None => false,
                };
                if is_fee_output {
                    if out.value < orig.value {
                        let c = orig.value - out.value;
                        match self.fee_contribution {
                            Some((max, _)) => {
                                if c >= max {
                                    return Err(ValidationError::FeeContributionExceedsMaximum);
                                }
                            },
                            None => {},
                        }
                        contributed = c;
                    }
                    j = j + 1;
                } else if bytes_eq(&orig.script_pubkey, &self.payee) {
                    if self.disable_output_substitution && !(same_script && out.value >= orig.value) {
                        return Err(ValidationError::DisallowedOutputSubstitution);
                    }
                    j = j + 1;
                } else if same_script {
                    if out.value < orig.value {
                        return Err(ValidationError::OutputValueDecreased);
                    }
                    j = j + 1;
                }
            }
            i = i + 1;
        }
        if j < n_orig {
            return Err(ValidationError::MissingOrShuffledOutputs);
        }
        Ok((total, contributed))
    }

    /// The fee rules on the accumulated totals.
    fn check_fees(&self, proposal: &PartiallySignedTransaction, in_total: u128, out_total: u128, contributed: u64) -> (r: Result<(), ValidationError>)
        requires
            proposal.inputs@.len() >= self.original().inputs@.len(),
        ensures
            r == self.fee_verdict(*proposal, in_total as int, out_total as int, contributed as int),
    {
        if out_total > in_total {
            return Err(ValidationError::Inflation);
        }
        let proposed_fee = in_total - out_total;
        let o = self.original_psbt.get();
        let original_fee = calculate_psbt_fee(o);
        if original_fee > proposed_fee {
            return Err(ValidationError::AbsoluteFeeDecreased);
        }
        if contributed as u128 > proposed_fee - original_fee {
            return Err(ValidationError::PayeeTookContributedFee);
        }
        let original_weight = weight(&o.unsigned_tx);
        proof {
            lemma_sizes_nonneg(o.unsigned_tx.input@, o.unsigned_tx.output@);
        }
        let original_fee_rate = original_fee / (original_weight as u128);
        let expected = self.input_type.expected_input_weight() as u128;
        let added = (proposal.inputs.len() - o.inputs.len()) as u128;
        let ghost bound = self.contribution_bound(*proposal);
        assert(bound == original_fee_rate as int * expected as int * added as int);
        let within = if added == 0 || expected == 0 || original_fee_rate == 0 {
            proof {
                assert(original_fee_rate as int * expected as int * added as int == 0) by (nonlinear_arith)
                    requires added == 0 || expected == 0 || original_fee_rate == 0;
            }
            contributed == 0
        } else {
            match original_fee_rate.checked_mul(expected) {
                None => {
                    proof {
                        assert(original_fee_rate as int * expected as int * added as int >= original_fee_rate as int * expected as int) by (nonlinear_arith)
                            requires added >= 1, original_fee_rate as int * expected as int >= 0;
                    }
                    true
                },
                Some(x) => match x.checked_mul(added) {
                    None => true,
                    Some(b) => contributed as u128 <= b,
                },
            }
        };
        if !within {
            return Err(ValidationError::FeeContributionPaysOutputSizeIncrease);
        }
        Ok(())
    }

    /// Validates the receiver's proposal; gives it back when every rule holds.
    pub fn process_proposal(self, proposal: Psbt) -> (r: Result<Psbt, ValidationError>)
        ensures
            match r {
                Ok(q) => q == proposal && self.verdict(proposal@) == Ok::<(), ValidationError>(()),
                Err(e) => self.verdict(proposal@) == Err::<(), ValidationError>(e),
            },
    {
        let p = proposal.get();
        self.basic_checks(p)?;
        let in_total = self.check_inputs(p)?;
        let (out_total, contributed) = self.check_outputs(p)?;
        self.check_fees(p, in_total, out_total, contributed)?;
        Ok(proposal)
    }
}

/// How the sender wants the PayJoin handled.
pub struct Params {
    pub disable_output_substitution: bool,
    /// Most fee the receiver may take, and from which output (found
    /// automatically when absent).
    pub fee_contribution: Option<(u64, Option<usize>)>,
    pub clamp_fee_contribution: bool,
}

impl Params {
    /// Lets the receiver take up to `max_fee_contribution` satoshis from the
    /// change output to pay for its inputs.
    pub fn with_fee_contribution(max_fee_contribution: u64, change_index: Option<usize>) -> (r: Params)
        ensures
            r.disable_output_substitution == false,
            r.fee_contribution == Some((max_fee_contribution, change_index)),
            r.clamp_fee_contribution == false,
    {
        Params {
            disable_output_substitution: false,
            fee_contribution: Some((max_fee_contribution, change_index)),
            clamp_fee_contribution: false,
        }
    }

    /// PayJoin without offering the receiver any fee.
    pub fn non_incentivizing() -> (r: Params)
        ensures
            r.disable_output_substitution == false,
            r.fee_contribution is None,
            r.clamp_fee_contribution == false,
    {
        Params { disable_output_substitution: false, fee_contribution: None, clamp_fee_contribution: false }
    }

    /// Forbids output substitution even when the receiver allows it.
    pub fn always_disable_output_substitution(self, disable: bool) -> (r: Params)
        ensures
            r.disable_output_substitution == disable,
            r.fee_contribution == self.fee_contribution,
            r.clamp_fee_contribution == self.clamp_fee_contribution,
    {
        Params { disable_output_substitution: disable, ..self }
    }

    /// Lowers the contribution to the change value instead of failing when
    /// the change is smaller.
    pub fn clamp_fee_contribution(self, clamp: bool) -> (r: Params)
        ensures
            r.disable_output_substitution == self.disable_output_substitution,
            r.fee_contribution == self.fee_contribution,
            r.clamp_fee_contribution == clamp,
    {
        Params { clamp_fee_contribution: clamp, ..self }
    }
}

/// What is sent to the receiver.
pub struct Request {
    /// Endpoint with the PayJoin query parameters.
    pub url: String,
    /// Base64 of the sanitized original PSBT.
    pub body: Vec<u8>,
}

/// Why a request could not be built from the original PSBT.
#[derive(Debug, PartialEq, Eq, Structural, Clone, Copy)]
pub enum CreateRequestError {
    InvalidOriginalInput { index: usize, error: PrevTxOutError },
    InvalidInputType(InputTypeError),
    NoInputs,
    NoOutputs,
    MissingPayeeOutput,
    PayeeValueNotEqual,
    MultiplePayeeOutputs,
    AmbiguousChangeOutput,
    ChangeIndexOutOfBounds,
    ChangeIndexPointsAtPayee,
    FeeOutputValueLowerThanFeeContribution,
}

/// The first input, from `i` on, whose funding output cannot be found.
pub open spec fn first_unresolved(p: PartiallySignedTransaction, i: int) -> Option<CreateRequestError>
    decreases p.inputs@.len() - i,
{
    if i < 0 || i >= p.inputs@.len() {
        None
    } else {
        match prev_txout(p.unsigned_tx.input@[i], p.inputs@[i]) {
            Err(e) => Some(CreateRequestError::InvalidOriginalInput { index: i as usize, error: e }),
            Ok(_) => first_unresolved(p, i + 1),
        }
    }
}

/// Scans outputs from `i` on for the payee (`found`: one was seen before).
pub open spec fn payee_scan(outs: Seq<TxOut>, payee: Seq<u8>, amount: u64, i: int, found: bool) -> Option<CreateRequestError>
    decreases outs.len() - i,
{
    if i < 0 || i >= outs.len() {
        if found { None } else { Some(CreateRequestError::MissingPayeeOutput) }
    } else if outs[i].script_pubkey@ == payee {
        if outs[i].value != amount {
            Some(CreateRequestError::PayeeValueNotEqual)
        } else if found {
            Some(CreateRequestError::MultiplePayeeOutputs)
        } else {
            payee_scan(outs, payee, amount, i + 1, true)
        }
    } else {
        payee_scan(outs, payee, amount, i + 1, found)
    }
}

/// Contribution offered from an output of value `value`.
pub open spec fn fee_output_amount(value: u64, amount: u64, clamp: bool) -> Result<u64, CreateRequestError> {
    if value < amount {
        if clamp { Ok(value) } else { Err(CreateRequestError::FeeOutputValueLowerThanFeeContribution) }
    } else {
        Ok(amount)
    }
}

/// The fee output and contribution that `params` selects.
pub open spec fn fee_contribution_of(outs: Seq<TxOut>, payee: Seq<u8>, params: Params) -> Result<Option<(u64, usize)>, CreateRequestError> {
    match params.fee_contribution {
        None => Ok(None),
        Some((amount, Some(index))) => if index >= outs.len() {
            Err(CreateRequestError::ChangeIndexOutOfBounds)
        } else if outs[index as int].script_pubkey@ == payee {
            Err(CreateRequestError::ChangeIndexPointsAtPayee)
        } else {
            match fee_output_amount(outs[index as int].value, amount, params.clamp_fee_contribution) {
                Ok(a) => Ok(Some((a, index))),
                Err(e) => Err(e),
            }
        },
        Some((amount, None)) => if outs.len() == 0 {
            Err(CreateRequestError::NoOutputs)
        } else if outs.len() == 1 {
            if outs[0].script_pubkey@ == payee {
                if params.clamp_fee_contribution {
                    Ok(None)
                } else {
                    Err(CreateRequestError::FeeOutputValueLowerThanFeeContribution)
                }
            } else {
                Err(CreateRequestError::MissingPayeeOutput)
            }
        } else if outs.len() > 2 {
            Err(CreateRequestError::AmbiguousChangeOutput)
        } else {
            let index: int = if outs[0].script_pubkey@ != payee { 0 } else { 1 };
            if outs[index].script_pubkey@ == payee {
                Err(CreateRequestError::MultiplePayeeOutputs)
            } else {
                match fee_output_amount(outs[index].value, amount, params.clamp_fee_contribution) {
                    Ok(a) => Ok(Some((a, index as usize))),
                    Err(e) => Err(e),
                }
            }
        },
    }
}

/// The request URL: the endpoint, the protocol version, and the optional
/// output-substitution and fee-contribution parameters.
pub open spec fn url_of(endpoint: Seq<char>, disable_output_substitution: bool, fee: Option<(u64, usize)>) -> Seq<char> {
    let base = endpoint + "?v=1"@;
    let with_os = if disable_output_substitution { base + "&disableoutputsubstitution=1"@ } else { base };
    match fee {
        None => with_os,
        Some((amount, index)) => with_os + "&additionalfeeoutputindex="@ + decimal(index as nat)
            + "&maxadditionalfeecontribution="@ + decimal(amount as nat),
    }
}

/// The first fault of an original PSBT, in the order the builder checks.
pub open spec fn creation_error(psbt: PartiallySignedTransaction, payee: Seq<u8>, amount: u64, params: Params) -> Option<CreateRequestError> {
    let outs = psbt.unsigned_tx.output@;
    if first_unresolved(psbt, 0) is Some {
        first_unresolved(psbt, 0)
    } else if payee_scan(outs, payee, amount, 0, false) is Some {
        payee_scan(outs, payee, amount, 0, false)
    } else if fee_contribution_of(outs, payee, params) is Err {
        Some(fee_contribution_of(outs, payee, params)->Err_0)
    } else if psbt.inputs@.len() == 0 {
        Some(CreateRequestError::NoInputs)
    } else {
        match prev_txout(psbt.unsigned_tx.input@[0], psbt.inputs@[0]) {
            Ok(txout) => match input_type_of(txout, psbt.inputs@[0]) {
                Err(e) => Some(CreateRequestError::InvalidInputType(e)),
                Ok(_) => None,
            },
            Err(_) => None,
        }
    }
}

/// Checks that every original input's funding output can be found.
fn validate_input_utxos(psbt: &PartiallySignedTransaction) -> (r: Result<(), CreateRequestError>)
    requires
        psbt.counts_match(),
    ensures
        match r {
            Ok(()) => first_unresolved(*psbt, 0) is None,
            Err(e) => first_unresolved(*psbt, 0) == Some(e),
        },
{
    let mut i: usize = 0;
    while i < psbt.inputs.len()
        invariant
            psbt.counts_match(),
            i <= psbt.inputs@.len(),
            first_unresolved(*psbt, 0) == first_unresolved(*psbt, i as int),
        decreases psbt.inputs@.len() - i,
    {
        match previous_txout(&psbt.unsigned_tx.input[i], &psbt.inputs[i]) {
            Err(e) => return Err(CreateRequestError::InvalidOriginalInput { index: i, error: e }),
            Ok(_) => {},
        }
        i = i + 1;
    }
    Ok(())
}

/// Exactly one output pays `payee`, and it pays `amount`.
fn check_single_payee(outs: &Vec<TxOut>, payee: &Vec<u8>, amount: u64) -> (r: Result<(), CreateRequestError>)
    ensures
        match r {
            Ok(()) => payee_scan(outs@, payee@, amount, 0, false) is None,
            Err(e) => payee_scan(outs@, payee@, amount, 0, false) == Some(e),
        },
{
    let mut payee_found = false;
    let mut i: usize = 0;
    while i < outs.len()
        invariant
            i <= outs@.len(),
            payee_scan(outs@, payee@, amount, 0, false) == payee_scan(outs@, payee@, amount, i as int, payee_found),
        decreases outs@.len() - i,
    {
        if bytes_eq(&outs[i].script_pubkey, payee) {
            if outs[i].value != amount {
                return Err(CreateRequestError::PayeeValueNotEqual);
            }
            if payee_found {
                return Err(CreateRequestError::MultiplePayeeOutputs);
            }
            payee_found = true;
        }
        i = i + 1;
    }
    if payee_found {
        Ok(())
    } else {
        Err(CreateRequestError::MissingPayeeOutput)
    }
}

fn check_fee_output_amount(output: &TxOut, amount: u64, clamp_fee_contribution: bool) -> (r: Result<u64, CreateRequestError>)
    ensures
        r == fee_output_amount(output.value, amount, clamp_fee_contribution),
{
    if output.value < amount {
        if clamp_fee_contribution {
            Ok(output.value)
        } else {
            Err(CreateRequestError::FeeOutputValueLowerThanFeeContribution)
        }
    } else {
        Ok(amount)
    }
}

fn find_change_index(outs: &Vec<TxOut>, payee: &Vec<u8>, amount: u64, clamp_fee_contribution: bool) -> (r: Result<Option<(u64, usize)>, CreateRequestError>)
    ensures
        r == fee_contribution_of(outs@, payee@, Params {
            disable_output_substitution: false,
            fee_contribution: Some((amount, None)),
            clamp_fee_contribution,
        }),
{
    let n = outs.len();
    if n == 0 {
        return Err(CreateRequestError::NoOutputs);
    }
    if n == 1 {
        if bytes_eq(&outs[0].script_pubkey, payee) {
            if clamp_fee_contribution {
                return Ok(None);
            } else {
                return Err(CreateRequestError::FeeOutputValueLowerThanFeeContribution);
            }
        } else {
            return Err(CreateRequestError::MissingPayeeOutput);
        }
    }
    if n > 2 {
        return Err(CreateRequestError::AmbiguousChangeOutput);
    }
    let index: usize = if !bytes_eq(&outs[0].script_pubkey, payee) { 0 } else { 1 };
    if bytes_eq(&outs[index].script_pubkey, payee) {
        return Err(CreateRequestError::MultiplePayeeOutputs);
    }
    let a = check_fee_output_amount(&outs[index], amount, clamp_fee_contribution)?;
    Ok(Some((a, index)))
}

fn check_change_index(outs: &Vec<TxOut>, payee: &Vec<u8>, amount: u64, index: usize, clamp_fee_contribution: bool) -> (r: Result<(u64, usize), CreateRequestError>)
    ensures
        match (r, fee_contribution_of(outs@, payee@, Params {
            disable_output_substitution: false,
            fee_contribution: Some((amount, Some(index))),
            clamp_fee_contribution,
        })) {
            (Ok(a), Ok(Some(b))) => a == b,
            (Err(a), Err(b)) => a == b,
            _ => false,
        },
{
    if index >= outs.len() {
        return Err(CreateRequestError::ChangeIndexOutOfBounds);
    }
    if bytes_eq(&outs[index].script_pubkey, payee) {
        return Err(CreateRequestError::ChangeIndexPointsAtPayee);
    }
    let a = check_fee_output_amount(&outs[index], amount, clamp_fee_contribution)?;
    Ok((a, index))
}

fn determine_fee_contribution(outs: &Vec<TxOut>, payee: &Vec<u8>, params: &Params) -> (r: Result<Option<(u64, usize)>, CreateRequestError>)
    ensures
        r == fee_contribution_of(outs@, payee@, *params),
{
    match params.fee_contribution {
        Some((amount, None)) => find_change_index(outs, payee, amount, params.clamp_fee_contribution),
        Some((amount, Some(index))) => {
            let c = check_change_index(outs, payee, amount, index, params.clamp_fee_contribution)?;
            Ok(Some(c))
        },
        None => Ok(None),
    }
}

/// Builds the request URL.
pub fn serialize_url(endpoint: &str, disable_output_substitution: bool, fee_contribution: Option<(u64, usize)>) -> (r: String)
    ensures
        r@ == url_of(endpoint@, disable_output_substitution, fee_contribution),
{
    let mut url: Vec<char> = Vec::new();
    push_str(&mut url, endpoint);
    push_str(&mut url, "?v=1");
    if disable_output_substitution {
        push_str(&mut url, "&disableoutputsubstitution=1");
    }
    match fee_contribution {
        Some((amount, index)) => {
            push_str(&mut url, "&additionalfeeoutputindex=");
            push_decimal(&mut url, index as u64);
            push_str(&mut url, "&maxadditionalfeecontribution=");
            push_decimal(&mut url, amount);
        },
        None => {},
    }
    proof {
        let base = endpoint@ + "?v=1"@;
        let with_os = if disable_output_substitution { base + "&disableoutputsubstitution=1"@ } else { base };
        match fee_contribution {
            Some((amount, index)) => {
                assert(url@ =~= with_os + "&additionalfeeoutputindex="@ + decimal(index as nat)
                    + "&maxadditionalfeecontribution="@ + decimal(amount as nat));
            },
            None => {
                assert(url@ =~= with_os);
            },
        }
    }
    string_from_chars(&url)
}

/// Builds the request URL and the validation context from the original PSBT,
/// the payee's script and amount, the receiver's endpoint and its
/// output-substitution choice, and the sender's parameters. The original is
/// sanitized before it is kept.
pub fn create_context(
    psbt: Psbt,
    payee: Vec<u8>,
    amount: u64,
    endpoint: &str,
    uri_disables_output_substitution: bool,
    params: &Params,
) -> (r: Result<(String, Context), CreateRequestError>)
    ensures
        match r {
            Err(e) => creation_error(psbt@, payee@, amount, *params) == Some(e),
            Ok((url, ctx)) => {
                let p = psbt@;
                let fee = fee_contribution_of(p.unsigned_tx.output@, payee@, *params)->Ok_0;
                let disable = uri_disables_output_substitution || params.disable_output_substitution;
                &&& creation_error(p, payee@, amount, *params) is None
                &&& sanitized_from(p, ctx.original())
                &&& ctx.payee == payee
                &&& ctx.disable_output_substitution == disable
                &&& ctx.fee_contribution == fee
                &&& ctx.sequence == p.unsigned_tx.input@[0].sequence
                &&& Ok::<InputType, InputTypeError>(ctx.input_type) == input_type_of(
                    prev_txout(p.unsigned_tx.input@[0], p.inputs@[0])->Ok_0,
                    p.inputs@[0],
                )
                &&& url@ == url_of(endpoint@, disable, fee)
                &&& ctx.fee_contribution matches Some((_, index)) ==> index < p.unsigned_tx.output@.len()
                    && ctx.original().unsigned_tx.output@[index as int].script_pubkey@ != payee@
                &&& ctx.wf()
                &&& exists|k: int| is_payee_output(ctx, k) && ctx.original().unsigned_tx.output@[k].value == amount
            },
        },
{
    let p = psbt.get();
    validate_input_utxos(p)?;
    let disable_output_substitution = uri_disables_output_substitution || params.disable_output_substitution;
    check_single_payee(&p.unsigned_tx.output, &payee, amount)?;
    let fee_contribution = determine_fee_contribution(&p.unsigned_tx.output, &payee, params)?;
    if p.inputs.len() == 0 {
        return Err(CreateRequestError::NoInputs);
    }
    proof {
        assert(first_unresolved(*p, 0) is None);
        lemma_first_resolved(*p, 0);
    }
    let sequence = p.unsigned_tx.input[0].sequence;
    let input_type = match previous_txout(&p.unsigned_tx.input[0], &p.inputs[0]) {
        Ok(txout) => match InputType::from_spent_input(txout, &p.inputs[0]) {
            Ok(t) => t,
            Err(e) => return Err(CreateRequestError::InvalidInputType(e)),
        },
        Err(e) => return Err(CreateRequestError::InvalidOriginalInput { index: 0, error: e }),
    };
    let url = serialize_url(endpoint, disable_output_substitution, fee_contribution);
    let original_psbt = psbt.clear_unneeded_fields();
    let ctx = Context { original_psbt, disable_output_substitution, fee_contribution, input_type, sequence, payee };
    proof {
        let outs = p.unsigned_tx.output@;
        lemma_payee_scan(outs, ctx.payee@, amount, 0, false);
        let k = choose|k: int| 0 <= k < outs.len() && outs[k].script_pubkey@ == ctx.payee@ && outs[k].value == amount
            && forall|k2: int| 0 <= k2 < outs.len() && outs[k2].script_pubkey@ == ctx.payee@ ==> k2 == k;
        assert(ctx.original().unsigned_tx == p.unsigned_tx);
        assert(is_payee_output(ctx, k));
        assert forall|j: int| 0 <= j < ctx.original().inputs@.len() implies #[trigger] prev_txout(
            ctx.original().unsigned_tx.input@[j],
            ctx.original().inputs@[j],
        ) is Ok by {
            assert(input_sanitized_from(p.inputs@[j], ctx.original().inputs@[j]));
            assert(prev_txout(p.unsigned_tx.input@[j], p.inputs@[j]) is Ok);
        }
    }
    Ok((url, ctx))
}

/// A scan that found no fault saw exactly one payee output, paying `amount`
/// (none after `i` when one was seen before).
proof fn lemma_payee_scan(outs: Seq<TxOut>, payee: Seq<u8>, amount: u64, i: int, found: bool)
    requires
        0 <= i <= outs.len(),
        payee_scan(outs, payee, amount, i, found) is None,
    ensures
        found ==> forall|k: int| i <= k < outs.len() ==> (#[trigger] outs[k]).script_pubkey@ != payee,
        !found ==> exists|k: int|
            i <= k < outs.len() && (#[trigger] outs[k]).script_pubkey@ == payee && outs[k].value == amount
                && forall|k2: int| i <= k2 < outs.len() && (#[trigger] outs[k2]).script_pubkey@ == payee ==> k2 == k,
    decreases outs.len() - i,
{
    if i < outs.len() {
        if outs[i].script_pubkey@ == payee {
            lemma_payee_scan(outs, payee, amount, i + 1, true);
            if !found {
                assert(forall|k2: int| i <= k2 < outs.len() && (#[trigger] outs[k2]).script_pubkey@ == payee ==> k2 == i);
            }
        } else {
            lemma_payee_scan(outs, payee, amount, i + 1, found);
            if !found {
                let k = choose|k: int|
                    i + 1 <= k < outs.len() && (#[trigger] outs[k]).script_pubkey@ == payee && outs[k].value == amount
                        && forall|k2: int| i + 1 <= k2 < outs.len() && (#[trigger] outs[k2]).script_pubkey@ == payee ==> k2 == k;
                assert(outs[k].script_pubkey@ == payee);
            }
        }
    }
}

proof fn lemma_first_resolved(p: PartiallySignedTransaction, i: int)
    requires
        0 <= i,
        first_unresolved(p, i) is None,
    ensures
        forall|k: int| i <= k < p.inputs@.len() ==> #[trigger] prev_txout(p.unsigned_tx.input@[k], p.inputs@[k]) is Ok,
    decreases p.inputs@.len() - i,
{
    if i < p.inputs@.len() {
        lemma_first_resolved(p, i + 1);
    }
}

} // verus!
