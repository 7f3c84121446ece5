//! What every accepted proposal is guaranteed to satisfy.

use vstd::prelude::*;
use crate::psbt::{PartiallySignedTransaction, TxIn, same_outpoint};
use crate::sender::{Context, psbt_fee, is_payee_output};

verus! {

/// The outpoints of `a` from `j` on appear among those of `b` from `i` on,
/// in the same order.
pub open spec fn outpoints_subseq(a: Seq<TxIn>, b: Seq<TxIn>, j: int, i: int) -> bool
    decreases b.len() - i,
{
    if j >= a.len() {
        true
    } else if i >= b.len() || i < 0 || j < 0 {
        false
    } else {
        (same_outpoint(a[j].previous_output, b[i].previous_output) && outpoints_subseq(a, b, j + 1, i + 1))
            || outpoints_subseq(a, b, j, i + 1)
    }
}

impl Context {
    /// Input value accumulated while validating `p`.
    pub open spec fn in_total(&self, p: PartiallySignedTransaction) -> int {
        match self.walk_inputs(p, 0, 0, 0) {
            Ok(v) => v,
            Err(_) => 0,
        }
    }

    /// Output value accumulated while validating `p`.
    pub open spec fn out_total(&self, p: PartiallySignedTransaction) -> int {
        match self.walk_outputs(p, 0, 0, 0, 0) {
            Ok((t, _)) => t,
            Err(_) => 0,
        }
    }

    /// Fee taken from the sender's fee output in `p`.
    pub open spec fn contributed_fee(&self, p: PartiallySignedTransaction) -> int {
        match self.walk_outputs(p, 0, 0, 0, 0) {
            Ok((_, c)) => c,
            Err(_) => 0,
        }
    }
}

proof fn lemma_walk_inputs_subseq(ctx: Context, p: PartiallySignedTransaction, i: int, j: int, v: int)
    requires
        p.counts_match(),
        ctx.original().counts_match(),
        0 <= i,
        0 <= j,
        ctx.walk_inputs(p, i, j, v) is Ok,
    ensures
        outpoints_subseq(ctx.original().unsigned_tx.input@, p.unsigned_tx.input@, j, i),
    decreases p.inputs@.len() - i,
{
    let o = ctx.original();
    if i < p.inputs@.len() {
        let txin = p.unsigned_tx.input@[i];
        if j < o.inputs@.len() && same_outpoint(txin.previous_output, o.unsigned_tx.input@[j].previous_output) {
            lemma_walk_inputs_subseq(ctx, p, i + 1, j + 1, v + crate::sender::input_value(o.unsigned_tx.input@[j], o.inputs@[j]));
        } else {
            let x = ctx.receiver_input_value(txin, p.inputs@[i])->Ok_0;
            lemma_walk_inputs_subseq(ctx, p, i + 1, j, v + x);
        }
    }
}

/// Input preservation: an accepted proposal spends every input of the
/// original, in the original's order.
pub proof fn lemma_input_preservation(ctx: Context, p: PartiallySignedTransaction)
    requires
        p.counts_match(),
        ctx.original().counts_match(),
        ctx.verdict(p) is Ok,
    ensures
        outpoints_subseq(ctx.original().unsigned_tx.input@, p.unsigned_tx.input@, 0, 0),
{
    lemma_walk_inputs_subseq(ctx, p, 0, 0, 0);
}

/// The fee output, if any, is not a payee output.
pub open spec fn fee_output_not_payee(ctx: Context) -> bool {
    ctx.fee_contribution is Some ==> !is_payee_output(ctx, ctx.fee_contribution->Some_0.1 as int)
}

/// Some output of `p` from `i` on pays the payee at least `value`.
pub open spec fn pays_payee_from(ctx: Context, p: PartiallySignedTransaction, i: int, value: u64) -> bool {
    exists|m: int|
        i <= m < p.unsigned_tx.output@.len() && #[trigger] p.unsigned_tx.output@[m].script_pubkey@ == ctx.payee@
            && p.unsigned_tx.output@[m].value >= value
}

proof fn lemma_walk_outputs_payee(ctx: Context, p: PartiallySignedTransaction, i: int, j: int, t: int, c: int)
    requires
        p.counts_match(),
        0 <= i,
        0 <= j,
        ctx.disable_output_substitution,
        fee_output_not_payee(ctx),
        ctx.walk_outputs(p, i, j, t, c) is Ok,
    ensures
        forall|k: int| j <= k && #[trigger] is_payee_output(ctx, k) ==> pays_payee_from(
            ctx,
            p,
            i,
            ctx.original().unsigned_tx.output@[k].value,
        ),
    decreases p.outputs@.len() - i,
{
    let o = ctx.original();
    if i < p.outputs@.len() {
        let out = p.unsigned_tx.output@[i];
        let t2 = t + out.value;
        if j < o.unsigned_tx.output@.len() {
            let orig = o.unsigned_tx.output@[j];
            if ctx.fee_contribution is Some && j == ctx.fee_contribution->Some_0.1 && out.script_pubkey@ == orig.script_pubkey@ {
                let c2 = if out.value < orig.value { orig.value - out.value } else { c };
                lemma_walk_outputs_payee(ctx, p, i + 1, j + 1, t2, c2);
                assert forall|k: int| j <= k && #[trigger] is_payee_output(ctx, k) implies pays_payee_from(
                    ctx, p, i, o.unsigned_tx.output@[k].value) by {
                    assert(k != j);
                    let m = choose|m: int| i + 1 <= m < p.unsigned_tx.output@.len() && #[trigger] p.unsigned_tx.output@[m].script_pubkey@ == ctx.payee@
                        && p.unsigned_tx.output@[m].value >= o.unsigned_tx.output@[k].value;
                    assert(p.unsigned_tx.output@[m].script_pubkey@ == ctx.payee@);
                }
            } else if orig.script_pubkey@ == ctx.payee@ {
                lemma_walk_outputs_payee(ctx, p, i + 1, j + 1, t2, c);
                assert forall|k: int| j <= k && #[trigger] is_payee_output(ctx, k) implies pays_payee_from(
                    ctx, p, i, o.unsigned_tx.output@[k].value) by {
                    if k == j {
                        assert(p.unsigned_tx.output@[i].script_pubkey@ == ctx.payee@);
                    } else {
                        let m = choose|m: int| i + 1 <= m < p.unsigned_tx.output@.len() && #[trigger] p.unsigned_tx.output@[m].script_pubkey@ == ctx.payee@
                            && p.unsigned_tx.output@[m].value >= o.unsigned_tx.output@[k].value;
                        assert(p.unsigned_tx.output@[m].script_pubkey@ == ctx.payee@);
                    }
                }
            } else {
                let j2 = if out.script_pubkey@ == orig.script_pubkey@ { j + 1 } else { j };
                lemma_walk_outputs_payee(ctx, p, i + 1, j2, t2, c);
                assert forall|k: int| j <= k && #[trigger] is_payee_output(ctx, k) implies pays_payee_from(
                    ctx, p, i, o.unsigned_tx.output@[k].value) by {
                    assert(k != j || !is_payee_output(ctx, k));
                    let m = choose|m: int| i + 1 <= m < p.unsigned_tx.output@.len() && #[trigger] p.unsigned_tx.output@[m].script_pubkey@ == ctx.payee@
                        && p.unsigned_tx.output@[m].value >= o.unsigned_tx.output@[k].value;
                    assert(p.unsigned_tx.output@[m].script_pubkey@ == ctx.payee@);
                }
            }
        } else {
            lemma_walk_outputs_payee(ctx, p, i + 1, j, t2, c);
            assert forall|k: int| j <= k && #[trigger] is_payee_output(ctx, k) implies pays_payee_from(
                ctx, p, i, o.unsigned_tx.output@[k].value) by {
                let m = choose|m: int| i + 1 <= m < p.unsigned_tx.output@.len() && #[trigger] p.unsigned_tx.output@[m].script_pubkey@ == ctx.payee@
                    && p.unsigned_tx.output@[m].value >= o.unsigned_tx.output@[k].value;
                assert(p.unsigned_tx.output@[m].script_pubkey@ == ctx.payee@);
            }
        }
    }
}

/// Payee enforcement: when output substitution is disabled, an accepted
/// proposal pays the payee's script at least what the original's payee output
/// paid (the URI amount, for a context the builder made).
pub proof fn lemma_payee_enforced(ctx: Context, p: PartiallySignedTransaction)
    requires
        p.counts_match(),
        ctx.wf(),
        ctx.disable_output_substitution,
        ctx.verdict(p) is Ok,
    ensures
        exists|k: int| is_payee_output(ctx, k),
        forall|k: int| #[trigger] is_payee_output(ctx, k) ==> pays_payee_from(
            ctx,
            p,
            0,
            ctx.original().unsigned_tx.output@[k].value,
        ),
{
    lemma_walk_outputs_payee(ctx, p, 0, 0, 0, 0);
}

/// A proposal that drops an original input, or reorders the original
/// inputs, is rejected.
pub proof fn lemma_missing_or_shuffled_inputs_rejected(ctx: Context, p: PartiallySignedTransaction)
    requires
        p.counts_match(),
        ctx.original().counts_match(),
        !outpoints_subseq(ctx.original().unsigned_tx.input@, p.unsigned_tx.input@, 0, 0),
    ensures
        ctx.verdict(p) is Err,
{
    if ctx.verdict(p) is Ok {
        lemma_input_preservation(ctx, p);
    }
}

/// With output substitution disabled, a proposal in which no output pays the
/// payee's script at least the original payee output's value is rejected.
pub proof fn lemma_payee_underpaid_rejected(ctx: Context, p: PartiallySignedTransaction, k: int)
    requires
        p.counts_match(),
        ctx.wf(),
        ctx.disable_output_substitution,
        is_payee_output(ctx, k),
        !pays_payee_from(ctx, p, 0, ctx.original().unsigned_tx.output@[k].value),
    ensures
        ctx.verdict(p) is Err,
{
    if ctx.verdict(p) is Ok {
        lemma_payee_enforced(ctx, p);
    }
}

/// No inflation: an accepted proposal's accumulated input value covers its
/// accumulated output value.
pub proof fn lemma_no_inflation(ctx: Context, p: PartiallySignedTransaction)
    requires
        ctx.verdict(p) is Ok,
    ensures
        ctx.in_total(p) >= ctx.out_total(p),
{
}

/// Monotone fee: an accepted proposal pays at least the original's fee.
pub proof fn lemma_monotone_fee(ctx: Context, p: PartiallySignedTransaction)
    requires
        ctx.verdict(p) is Ok,
    ensures
        ctx.in_total(p) - ctx.out_total(p) >= psbt_fee(ctx.original()),
{
}

proof fn lemma_walk_outputs_contribution(ctx: Context, p: PartiallySignedTransaction, i: int, j: int, t: int, c: int)
    requires
        0 <= i,
        ctx.walk_outputs(p, i, j, t, c) is Ok,
        c >= 0,
        ctx.fee_contribution is None ==> c == 0,
        ctx.fee_contribution is Some ==> c == 0 || c < ctx.fee_contribution->Some_0.0,
    ensures
        ({
            let c2 = ctx.walk_outputs(p, i, j, t, c)->Ok_0.1;
            &&& c2 >= 0
            &&& ctx.fee_contribution is None ==> c2 == 0
            &&& ctx.fee_contribution is Some ==> c2 == 0 || c2 < ctx.fee_contribution->Some_0.0
        }),
    decreases p.outputs@.len() - i,
{
    let o = ctx.original();
    if i < p.outputs@.len() {
        let out = p.unsigned_tx.output@[i];
        let t2 = t + out.value;
        if j >= 0 && j < o.unsigned_tx.output@.len() {
            let orig = o.unsigned_tx.output@[j];
            if ctx.fee_contribution is Some && j == ctx.fee_contribution->Some_0.1 && out.script_pubkey@ == orig.script_pubkey@ {
                let c2 = if out.value < orig.value { orig.value - out.value } else { c };
                lemma_walk_outputs_contribution(ctx, p, i + 1, j + 1, t2, c2);
            } else if orig.script_pubkey@ == ctx.payee@ {
                lemma_walk_outputs_contribution(ctx, p, i + 1, j + 1, t2, c);
            } else {
                let j2 = if out.script_pubkey@ == orig.script_pubkey@ { j + 1 } else { j };
                lemma_walk_outputs_contribution(ctx, p, i + 1, j2, t2, c);
            }
        } else {
            lemma_walk_outputs_contribution(ctx, p, i + 1, j, t2, c);
        }
    }
}

/// Bounded contribution: the fee taken from the sender's fee output is at
/// most the allowed maximum (none when no contribution was offered), and at
/// most the original fee rate times the expected weight of the inputs the
/// receiver added.
pub proof fn lemma_bounded_contribution(ctx: Context, p: PartiallySignedTransaction)
    requires
        ctx.verdict(p) is Ok,
    ensures
        ctx.contributed_fee(p) <= ctx.contribution_bound(p),
        ctx.fee_contribution is None ==> ctx.contributed_fee(p) == 0,
        ctx.fee_contribution is Some ==> ctx.contributed_fee(p) <= ctx.fee_contribution->Some_0.0,
{
    lemma_walk_outputs_contribution(ctx, p, 0, 0, 0, 0);
}

} // verus!
