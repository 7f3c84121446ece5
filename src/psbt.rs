//! A plain-value model of a partially signed transaction (BIP174), holding the
//! fields that the PayJoin rules read or clear.

use vstd::prelude::*;

verus! {

/// The records of a PSBT map, as raw key and value bytes.
pub type Entries = Vec<(Vec<u8>, Vec<u8>)>;

/// Reference to an output of an earlier transaction.
#[derive(Clone, Debug, PartialEq, Eq)]
pub struct OutPoint {
    pub txid: Vec<u8>,
    pub vout: u32,
}

/// A transaction input of the unsigned transaction.
#[derive(Clone, Debug, PartialEq, Eq)]
pub struct TxIn {
    pub previous_output: OutPoint,
    pub script_sig: Vec<u8>,
    pub sequence: u32,
    pub witness: Vec<Vec<u8>>,
}

/// A transaction output.
#[derive(Clone, Debug, PartialEq, Eq)]
pub struct TxOut {
    pub value: u64,
    pub script_pubkey: Vec<u8>,
}

/// The unsigned transaction a PSBT carries.
#[derive(Clone, Debug, PartialEq, Eq)]
pub struct Transaction {
    pub version: i32,
    pub lock_time: u32,
    pub input: Vec<TxIn>,
    pub output: Vec<TxOut>,
}

/// Per-input PSBT record.
#[derive(Clone, Debug, PartialEq, Eq)]
pub struct Input {
    /// Outputs of the transaction that created the spent output.
    pub non_witness_utxo: Option<Vec<TxOut>>,
    pub witness_utxo: Option<TxOut>,
    pub partial_sigs: Entries,
    pub redeem_script: Option<Vec<u8>>,
    pub witness_script: Option<Vec<u8>>,
    pub bip32_derivation: Entries,
    pub final_script_sig: Option<Vec<u8>>,
    pub final_script_witness: Option<Vec<Vec<u8>>>,
    pub proprietary: Entries,
    pub unknown: Entries,
}

/// Per-output PSBT record.
#[derive(Clone, Debug, PartialEq, Eq)]
pub struct Output {
    pub redeem_script: Option<Vec<u8>>,
    pub witness_script: Option<Vec<u8>>,
    pub bip32_derivation: Entries,
    pub proprietary: Entries,
    pub unknown: Entries,
}

/// A decoded PSBT whose record counts have not been checked yet.
#[derive(Clone, Debug, PartialEq, Eq)]
pub struct PartiallySignedTransaction {
    pub unsigned_tx: Transaction,
    pub xpub: Entries,
    pub proprietary: Entries,
    pub unknown: Entries,
    pub inputs: Vec<Input>,
    pub outputs: Vec<Output>,
}

/// Why a PSBT was refused as a view.
#[derive(Debug, PartialEq, Eq, Structural)]
pub enum PsbtError {
    UnequalInputCounts { tx_ins: usize, psbt_ins: usize },
    UnequalOutputCounts { tx_outs: usize, psbt_outs: usize },
    /// A phase was left before its check was reported passed.
    GuardNotSet,
}

/// Why the funding output of an input could not be found.
#[derive(Debug, PartialEq, Eq, Structural, Clone, Copy)]
pub enum PrevTxOutError {
    MissingUtxoInformation,
    IndexOutOfBounds { output_count: usize, index: u32 },
}

/// Why the record counts of `psbt` disagree with its transaction, if they do:
/// inputs first, then outputs.
pub open spec fn count_error(psbt: PartiallySignedTransaction) -> Option<PsbtError> {
    if psbt.inputs@.len() != psbt.unsigned_tx.input@.len() {
        Some(PsbtError::UnequalInputCounts {
            tx_ins: psbt.unsigned_tx.input@.len() as usize,
            psbt_ins: psbt.inputs@.len() as usize,
        })
    } else if psbt.outputs@.len() != psbt.unsigned_tx.output@.len() {
        Some(PsbtError::UnequalOutputCounts {
            tx_outs: psbt.unsigned_tx.output@.len() as usize,
            psbt_outs: psbt.outputs@.len() as usize,
        })
    } else {
        None
    }
}

impl PartiallySignedTransaction {
    /// Record counts agree with the unsigned transaction.
    pub open spec fn counts_match(&self) -> bool {
        &&& self.inputs@.len() == self.unsigned_tx.input@.len()
        &&& self.outputs@.len() == self.unsigned_tx.output@.len()
    }
}

/// Byte strings compared by content.
pub fn bytes_eq(a: &Vec<u8>, b: &Vec<u8>) -> (r: bool)
    ensures
        r == (a@ == b@),
{
    if a.len() != b.len() {
        return false;
    }
    let mut i: usize = 0;
    while i < a.len()
        invariant
            a@.len() == b@.len(),
            i <= a@.len(),
            forall|k: int| 0 <= k < i ==> a@[k] == b@[k],
        decreases a@.len() - i,
    {
        if a[i] != b[i] {
            return false;
        }
        i = i + 1;
    }
    assert(a@ =~= b@);
    true
}

/// Two outpoints name the same output.
pub open spec fn same_outpoint(a: OutPoint, b: OutPoint) -> bool {
    a.txid@ == b.txid@ && a.vout == b.vout
}

pub fn outpoint_eq(a: &OutPoint, b: &OutPoint) -> (r: bool)
    ensures
        r == same_outpoint(*a, *b),
{
    a.vout == b.vout && bytes_eq(&a.txid, &b.txid)
}

/// The funding output of an input: the witness UTXO when present, else the
/// output of the non-witness UTXO at the outpoint's index.
pub open spec fn prev_txout(txin: TxIn, psbtin: Input) -> Result<TxOut, PrevTxOutError> {
    match psbtin.witness_utxo {
        Some(txout) => Ok(txout),
        None => match psbtin.non_witness_utxo {
            None => Err(PrevTxOutError::MissingUtxoInformation),
            Some(outs) => if (txin.previous_output.vout as int) < outs@.len() {
                Ok(outs@[txin.previous_output.vout as int])
            } else {
                Err(PrevTxOutError::IndexOutOfBounds {
                    output_count: outs@.len() as usize,
                    index: txin.previous_output.vout,
                })
            },
        },
    }
}

/// Computes [`prev_txout`].
pub fn previous_txout<'a>(txin: &TxIn, psbtin: &'a Input) -> (r: Result<&'a TxOut, PrevTxOutError>)
    ensures
        match (r, prev_txout(*txin, *psbtin)) {
            (Ok(a), Ok(b)) => *a == b,
            (Err(a), Err(b)) => a == b,
            _ => false,
        },
{
    match &psbtin.witness_utxo {
        Some(txout) => Ok(txout),
        None => match &psbtin.non_witness_utxo {
            None => Err(PrevTxOutError::MissingUtxoInformation),
            Some(outs) => {
                let index = txin.previous_output.vout;
                if (index as usize) < outs.len() {
                    Ok(&outs[index as usize])
                } else {
                    Err(PrevTxOutError::IndexOutOfBounds { output_count: outs.len(), index })
                }
            },
        },
    }
}

/// A PSBT whose per-input and per-output record counts equal the counts of
/// its unsigned transaction.
pub struct Psbt {
    inner: PartiallySignedTransaction,
}

impl View for Psbt {
    type V = PartiallySignedTransaction;

    closed spec fn view(&self) -> PartiallySignedTransaction {
        self.inner
    }
}

impl Psbt {
    #[verifier::type_invariant]
    spec fn counts_ok(&self) -> bool {
        self.inner.counts_match()
    }

    /// Accepts a PSBT whose record counts agree with its transaction.
    pub fn try_from(psbt: PartiallySignedTransaction) -> (r: Result<Psbt, PsbtError>)
        ensures
            match r {
                Ok(v) => count_error(psbt) is None && v@ == psbt,
                Err(e) => count_error(psbt) == Some(e),
            },
    {
        let tx_ins = psbt.unsigned_tx.input.len();
        let psbt_ins = psbt.inputs.len();
        let tx_outs = psbt.unsigned_tx.output.len();
        let psbt_outs = psbt.outputs.len();
        if psbt_ins != tx_ins {
            Err(PsbtError::UnequalInputCounts { tx_ins, psbt_ins })
        } else if psbt_outs != tx_outs {
            Err(PsbtError::UnequalOutputCounts { tx_outs, psbt_outs })
        } else {
            Ok(Psbt { inner: psbt })
        }
    }

    /// The records, with their counts known to agree.
    pub fn get(&self) -> (r: &PartiallySignedTransaction)
        ensures
            *r == self@,
            r.counts_match(),
    {
        proof {
            use_type_invariant(self);
        }
        &self.inner
    }

    /// Gives up the view, returning the records.
    pub fn into_inner(self) -> (r: PartiallySignedTransaction)
        ensures
            r == self@,
            r.counts_match(),
    {
        proof {
            use_type_invariant(&self);
        }
        self.inner
    }

    /// Removes the fields that would tell the receiver about the sender's
    /// wallet: extended keys, derivation paths, proprietary and unknown records.
    pub fn clear_unneeded_fields(self) -> (r: Psbt)
        ensures
            sanitized_from(self@, r@),
    {
        proof {
            use_type_invariant(&self);
        }
        let mut inner = self.inner;
        clear_unneeded_fields(&mut inner);
        Psbt { inner }
    }
}

/// `b` is `a` with the sanitized fields of one input record emptied.
pub open spec fn input_sanitized_from(a: Input, b: Input) -> bool {
    &&& b.non_witness_utxo == a.non_witness_utxo
    &&& b.witness_utxo == a.witness_utxo
    &&& b.partial_sigs == a.partial_sigs
    &&& b.redeem_script == a.redeem_script
    &&& b.witness_script == a.witness_script
    &&& b.final_script_sig == a.final_script_sig
    &&& b.final_script_witness == a.final_script_witness
    &&& b.bip32_derivation@.len() == 0
    &&& b.proprietary@.len() == 0
    &&& b.unknown@.len() == 0
}

/// `b` is `a` with the sanitized fields of one output record emptied.
pub open spec fn output_sanitized_from(a: Output, b: Output) -> bool {
    &&& b.redeem_script == a.redeem_script
    &&& b.witness_script == a.witness_script
    &&& b.bip32_derivation@.len() == 0
    &&& b.proprietary@.len() == 0
    &&& b.unknown@.len() == 0
}

/// `b` is `a` with no extended keys, derivation paths, proprietary or unknown
/// records left, and everything else kept.
pub open spec fn sanitized_from(a: PartiallySignedTransaction, b: PartiallySignedTransaction) -> bool {
    &&& b.unsigned_tx == a.unsigned_tx
    &&& b.xpub@.len() == 0
    &&& b.proprietary@.len() == 0
    &&& b.unknown@.len() == 0
    &&& b.inputs@.len() == a.inputs@.len()
    &&& b.outputs@.len() == a.outputs@.len()
    &&& forall|i: int| 0 <= i < a.inputs@.len() ==> input_sanitized_from(#[trigger] a.inputs@[i], b.inputs@[i])
    &&& forall|i: int| 0 <= i < a.outputs@.len() ==> output_sanitized_from(#[trigger] a.outputs@[i], b.outputs@[i])
}

/// Two PSBTs hold the same records: every field equal, the map fields by
/// content. Their encodings are then the same bytes.
pub open spec fn same_records(a: PartiallySignedTransaction, b: PartiallySignedTransaction) -> bool {
    &&& b.unsigned_tx == a.unsigned_tx
    &&& b.xpub@ == a.xpub@
    &&& b.proprietary@ == a.proprietary@
    &&& b.unknown@ == a.unknown@
    &&& b.inputs@.len() == a.inputs@.len()
    &&& b.outputs@.len() == a.outputs@.len()
    &&& forall|i: int| 0 <= i < a.inputs@.len() ==> {
        let x = #[trigger] a.inputs@[i];
        let y = b.inputs@[i];
        &&& input_sanitized_from(x, y) || input_sanitized_from(y, x)
        &&& y.bip32_derivation@ == x.bip32_derivation@
        &&& y.proprietary@ == x.proprietary@
        &&& y.unknown@ == x.unknown@
    }
    &&& forall|i: int| 0 <= i < a.outputs@.len() ==> {
        let x = #[trigger] a.outputs@[i];
        let y = b.outputs@[i];
        &&& y.redeem_script == x.redeem_script
        &&& y.witness_script == x.witness_script
        &&& y.bip32_derivation@ == x.bip32_derivation@
        &&& y.proprietary@ == x.proprietary@
        &&& y.unknown@ == x.unknown@
    }
}

/// Empties the sanitized fields of a PSBT's records.
pub fn clear_unneeded_fields(psbt: &mut PartiallySignedTransaction)
    ensures
        sanitized_from(*old(psbt), *final(psbt)),
{
    psbt.xpub.clear();
    psbt.proprietary.clear();
    psbt.unknown.clear();
    let n_in = psbt.inputs.len();
    let mut i: usize = 0;
    while i < n_in
        invariant
            n_in == old(psbt).inputs@.len(),
            psbt.inputs@.len() == n_in,
            i <= n_in,
            psbt.unsigned_tx == old(psbt).unsigned_tx,
            psbt.outputs == old(psbt).outputs,
            psbt.xpub@.len() == 0,
            psbt.proprietary@.len() == 0,
            psbt.unknown@.len() == 0,
            forall|k: int| 0 <= k < i ==> input_sanitized_from(#[trigger] old(psbt).inputs@[k], psbt.inputs@[k]),
            forall|k: int| i <= k < n_in ==> #[trigger] psbt.inputs@[k] == old(psbt).inputs@[k],
        decreases n_in - i,
    {
        psbt.inputs[i].bip32_derivation.clear();
        psbt.inputs[i].proprietary.clear();
        psbt.inputs[i].unknown.clear();
        i = i + 1;
    }
    let n_out = psbt.outputs.len();
    let mut j: usize = 0;
    while j < n_out
        invariant
            n_out == old(psbt).outputs@.len(),
            psbt.outputs@.len() == n_out,
            j <= n_out,
            psbt.unsigned_tx == old(psbt).unsigned_tx,
            psbt.inputs@.len() == old(psbt).inputs@.len(),
            psbt.xpub@.len() == 0,
            psbt.proprietary@.len() == 0,
            psbt.unknown@.len() == 0,
            forall|k: int| 0 <= k < old(psbt).inputs@.len() ==> input_sanitized_from(#[trigger] old(psbt).inputs@[k], psbt.inputs@[k]),
            forall|k: int| 0 <= k < j ==> output_sanitized_from(#[trigger] old(psbt).outputs@[k], psbt.outputs@[k]),
            forall|k: int| j <= k < n_out ==> #[trigger] psbt.outputs@[k] == old(psbt).outputs@[k],
        decreases n_out - j,
    {
        psbt.outputs[j].bip32_derivation.clear();
        psbt.outputs[j].proprietary.clear();
        psbt.outputs[j].unknown.clear();
        j = j + 1;
    }
}

/// Sanitizing twice gives the records that sanitizing once gave, and a
/// sanitized PSBT holds no derivation paths, proprietary or unknown records.
pub proof fn lemma_sanitize_idempotent(
    p: PartiallySignedTransaction,
    once: PartiallySignedTransaction,
    twice: PartiallySignedTransaction,
)
    requires
        sanitized_from(p, once),
        sanitized_from(once, twice),
    ensures
        same_records(once, twice),
        once.xpub@.len() == 0 && once.proprietary@.len() == 0 && once.unknown@.len() == 0,
        forall|i: int| 0 <= i < once.inputs@.len() ==> (#[trigger] once.inputs@[i]).bip32_derivation@.len() == 0,
        forall|i: int| 0 <= i < once.outputs@.len() ==> (#[trigger] once.outputs@[i]).bip32_derivation@.len() == 0,
{
    assert(once.xpub@ =~= twice.xpub@);
    assert(once.proprietary@ =~= twice.proprietary@);
    assert(once.unknown@ =~= twice.unknown@);
    assert forall|i: int| 0 <= i < once.inputs@.len() implies {
        let x = #[trigger] once.inputs@[i];
        let y = twice.inputs@[i];
        &&& input_sanitized_from(x, y) || input_sanitized_from(y, x)
        &&& y.bip32_derivation@ == x.bip32_derivation@
        &&& y.proprietary@ == x.proprietary@
        &&& y.unknown@ == x.unknown@
    } by {
        assert(input_sanitized_from(p.inputs@[i], once.inputs@[i]));
        assert(once.inputs@[i].bip32_derivation@ =~= twice.inputs@[i].bip32_derivation@);
        assert(once.inputs@[i].proprietary@ =~= twice.inputs@[i].proprietary@);
        assert(once.inputs@[i].unknown@ =~= twice.inputs@[i].unknown@);
    }
    assert forall|i: int| 0 <= i < once.outputs@.len() implies {
        let x = #[trigger] once.outputs@[i];
        let y = twice.outputs@[i];
        &&& y.redeem_script == x.redeem_script
        &&& y.witness_script == x.witness_script
        &&& y.bip32_derivation@ == x.bip32_derivation@
        &&& y.proprietary@ == x.proprietary@
        &&& y.unknown@ == x.unknown@
    } by {
        assert(output_sanitized_from(p.outputs@[i], once.outputs@[i]));
        assert(once.outputs@[i].bip32_derivation@ =~= twice.outputs@[i].bip32_derivation@);
        assert(once.outputs@[i].proprietary@ =~= twice.outputs@[i].proprietary@);
        assert(once.outputs@[i].unknown@ =~= twice.outputs@[i].unknown@);
    }
}

/// A copy of a byte string.
pub fn copy_bytes(v: &Vec<u8>) -> (r: Vec<u8>)
    ensures
        r@ == v@,
{
    let mut r: Vec<u8> = Vec::new();
    let mut i: usize = 0;
    while i < v.len()
        invariant
            i <= v@.len(),
            r@ == v@.subrange(0, i as int),
        decreases v@.len() - i,
    {
        r.push(v[i]);
        i = i + 1;
    }
    assert(r@ =~= v@);
    r
}

/// Two witness stacks hold the same items.
pub open spec fn same_stack(a: Seq<Vec<u8>>, b: Seq<Vec<u8>>) -> bool {
    a.len() == b.len() && forall|j: int| 0 <= j < a.len() ==> (#[trigger] a[j])@ == b[j]@
}

fn copy_stack(w: &Vec<Vec<u8>>) -> (r: Vec<Vec<u8>>)
    ensures
        same_stack(r@, w@),
{
    let mut r: Vec<Vec<u8>> = Vec::new();
    let mut i: usize = 0;
    while i < w.len()
        invariant
            i <= w@.len(),
            r@.len() == i,
            forall|j: int| 0 <= j < i ==> (#[trigger] r@[j])@ == w@[j]@,
        decreases w@.len() - i,
    {
        r.push(copy_bytes(&w[i]));
        i = i + 1;
    }
    r
}

/// `x` is input `txin` with the finalized script signature and witness of
/// its record, empty where the record has none.
pub open spec fn extracted_input(txin: TxIn, psbtin: Input, x: TxIn) -> bool {
    &&& same_outpoint(x.previous_output, txin.previous_output)
    &&& x.sequence == txin.sequence
    &&& x.script_sig@ == match psbtin.final_script_sig {
        Some(s) => s@,
        None => Seq::<u8>::empty(),
    }
    &&& match psbtin.final_script_witness {
        Some(w) => same_stack(x.witness@, w@),
        None => x.witness@.len() == 0,
    }
}

/// `tx` is the finalized transaction of `p`.
pub open spec fn is_extracted(p: PartiallySignedTransaction, tx: Transaction) -> bool {
    &&& tx.version == p.unsigned_tx.version
    &&& tx.lock_time == p.unsigned_tx.lock_time
    &&& tx.input@.len() == p.unsigned_tx.input@.len()
    &&& forall|k: int| 0 <= k < tx.input@.len() ==> extracted_input(p.unsigned_tx.input@[k], p.inputs@[k], #[trigger] tx.input@[k])
    &&& tx.output@.len() == p.unsigned_tx.output@.len()
    &&& forall|k: int| 0 <= k < tx.output@.len() ==> (#[trigger] tx.output@[k]).value == p.unsigned_tx.output@[k].value
        && tx.output@[k].script_pubkey@ == p.unsigned_tx.output@[k].script_pubkey@
}

/// The finalized transaction: each input takes its record's final script
/// signature and witness.
pub fn extract_tx(psbt: &PartiallySignedTransaction) -> (r: Transaction)
    requires
        psbt.counts_match(),
    ensures
        is_extracted(*psbt, r),
{
    let t = &psbt.unsigned_tx;
    let mut input: Vec<TxIn> = Vec::new();
    let mut i: usize = 0;
    while i < t.input.len()
        invariant
            psbt.counts_match(),
            *t == psbt.unsigned_tx,
            i <= t.input@.len(),
            input@.len() == i,
            forall|k: int| 0 <= k < i ==> extracted_input(t.input@[k], psbt.inputs@[k], #[trigger] input@[k]),
        decreases t.input@.len() - i,
    {
        let txin = &t.input[i];
        let record = &psbt.inputs[i];
        let script_sig = match &record.final_script_sig {
            Some(s) => copy_bytes(s),
            None => Vec::new(),
        };
        let witness = match &record.final_script_witness {
            Some(w) => copy_stack(w),
            None => Vec::new(),
        };
        let previous_output = OutPoint { txid: copy_bytes(&txin.previous_output.txid), vout: txin.previous_output.vout };
        input.push(TxIn { previous_output, script_sig, sequence: txin.sequence, witness });
        proof {
            assert(extracted_input(t.input@[i as int], psbt.inputs@[i as int], input@[i as int]));
        }
        i = i + 1;
    }
    let mut output: Vec<TxOut> = Vec::new();
    let mut j: usize = 0;
    while j < t.output.len()
        invariant
            j <= t.output@.len(),
            output@.len() == j,
            forall|k: int| 0 <= k < j ==> (#[trigger] output@[k]).value == t.output@[k].value
                && output@[k].script_pubkey@ == t.output@[k].script_pubkey@,
        decreases t.output@.len() - j,
    {
        output.push(TxOut { value: t.output[j].value, script_pubkey: copy_bytes(&t.output[j].script_pubkey) });
        j = j + 1;
    }
    Transaction { version: t.version, lock_time: t.lock_time, input, output }
}

} // verus!
