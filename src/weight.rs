//! Consensus weight of an unsigned transaction.

use vstd::prelude::*;
use crate::psbt::{Transaction, TxIn, TxOut};

verus! {

/// Bytes taken by the compact-size encoding of `n`.
pub open spec fn varint_len(n: int) -> int {
    if n < 0xfd {
        1
    } else if n <= 0xffff {
        3
    } else if n <= 0xffff_ffff {
        5
    } else {
        9
    }
}

/// Serialized size of an input without witness: outpoint, script, sequence.
pub open spec fn txin_size(i: TxIn) -> int {
    36 + varint_len(i.script_sig@.len() as int) + i.script_sig@.len() + 4
}

/// Serialized size of an output: value and script.
pub open spec fn txout_size(o: TxOut) -> int {
    8 + varint_len(o.script_pubkey@.len() as int) + o.script_pubkey@.len()
}

pub open spec fn inputs_size(s: Seq<TxIn>) -> int
    decreases s.len(),
{
    if s.len() == 0 {
        0
    } else {
        inputs_size(s.drop_last()) + txin_size(s.last())
    }
}

pub open spec fn outputs_size(s: Seq<TxOut>) -> int
    decreases s.len(),
{
    if s.len() == 0 {
        0
    } else {
        outputs_size(s.drop_last()) + txout_size(s.last())
    }
}

/// Weight of a transaction's data without witnesses: four times its size.
/// An unsigned transaction, as a PSBT holds it, carries no witness.
pub open spec fn tx_weight(tx: Transaction) -> int {
    4 * (4 + varint_len(tx.input@.len() as int) + inputs_size(tx.input@) + varint_len(
        tx.output@.len() as int,
    ) + outputs_size(tx.output@) + 4)
}

/// [`tx_weight`] when it fits in a `u64`, else `u64::MAX`.
pub open spec fn tx_weight_u64(tx: Transaction) -> u64 {
    if tx_weight(tx) > u64::MAX {
        u64::MAX
    } else {
        tx_weight(tx) as u64
    }
}

fn varint_size(n: usize) -> (r: u64)
    ensures
        r == varint_len(n as int),
{
    if n < 0xfd {
        1
    } else if n <= 0xffff {
        3
    } else if (n as u64) <= 0xffff_ffff {
        5
    } else {
        9
    }
}

pub proof fn lemma_sizes_nonneg(a: Seq<TxIn>, b: Seq<TxOut>)
    ensures
        inputs_size(a) >= 0,
        outputs_size(b) >= 0,
    decreases a.len() + b.len(),
{
    if a.len() > 0 {
        lemma_sizes_nonneg(a.drop_last(), b);
    }
    if b.len() > 0 {
        lemma_sizes_nonneg(a, b.drop_last());
    }
}

/// Computes [`tx_weight_u64`].
pub fn weight(tx: &Transaction) -> (r: u64)
    ensures
        r == tx_weight_u64(*tx),
{
    let mut size: u64 = 8;
    size = size.saturating_add(varint_size(tx.input.len()));
    let mut i: usize = 0;
    let ghost base: int = 8 + varint_len(tx.input@.len() as int);
    while i < tx.input.len()
        invariant
            i <= tx.input@.len(),
            base == 8 + varint_len(tx.input@.len() as int),
            size as int == if base + inputs_size(tx.input@.subrange(0, i as int)) > u64::MAX {
                u64::MAX as int
            } else {
                base + inputs_size(tx.input@.subrange(0, i as int))
            },
        decreases tx.input@.len() - i,
    {
        let ss = tx.input[i].script_sig.len();
        let item = (40 as u64).saturating_add(varint_size(ss)).saturating_add(ss as u64);
        size = size.saturating_add(item);
        proof {
            let s = tx.input@.subrange(0, i as int + 1);
            assert(s.drop_last() =~= tx.input@.subrange(0, i as int));
            lemma_sizes_nonneg(tx.input@.subrange(0, i as int), seq![]);
        }
        i = i + 1;
    }
    assert(tx.input@.subrange(0, tx.input@.len() as int) =~= tx.input@);
    size = size.saturating_add(varint_size(tx.output.len()));
    let ghost base2: int = base + inputs_size(tx.input@) + varint_len(tx.output@.len() as int);
    proof {
        lemma_sizes_nonneg(tx.input@, seq![]);
    }
    let mut j: usize = 0;
    while j < tx.output.len()
        invariant
            j <= tx.output@.len(),
            base2 == 8 + varint_len(tx.input@.len() as int) + inputs_size(tx.input@) + varint_len(tx.output@.len() as int),
            base2 >= 0,
            size as int == if base2 + outputs_size(tx.output@.subrange(0, j as int)) > u64::MAX {
                u64::MAX as int
            } else {
                base2 + outputs_size(tx.output@.subrange(0, j as int))
            },
        decreases tx.output@.len() - j,
    {
        let sl = tx.output[j].script_pubkey.len();
        let item = (8 as u64).saturating_add(varint_size(sl)).saturating_add(sl as u64);
        size = size.saturating_add(item);
        proof {
            let s = tx.output@.subrange(0, j as int + 1);
            assert(s.drop_last() =~= tx.output@.subrange(0, j as int));
            lemma_sizes_nonneg(seq![], tx.output@.subrange(0, j as int));
        }
        j = j + 1;
    }
    assert(tx.output@.subrange(0, tx.output@.len() as int) =~= tx.output@);
    proof {
        lemma_sizes_nonneg(tx.input@, tx.output@);
    }
    if size > u64::MAX / 4 {
        u64::MAX
    } else {
        size * 4
    }
}

} // verus!
