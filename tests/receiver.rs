use bip78::psbt::{OutPoint, PartiallySignedTransaction, PsbtError, Transaction, TxIn, TxOut};
use bip78::receiver::{check_headers, parse_u64, ChecksError, Checks, RequestError, UncheckedProposal, MAX_CONTENT_LENGTH};
use bip78::state::{PsbtState, TryNext};

const ORIGINAL: &str = "cHNidP8BAHMCAAAAAY8nutGgJdyYGXWiBEb45Hoe9lWGbkxh/6bNiOJdCDuDAAAAAAD+////AtyVuAUAAAAAF6kUHehJ8GnSdBUOOv6ujXLrWmsJRDCHgIQeAAAAAAAXqRR3QJbbz0hnQ8IvQ0fptGn+votneofTAAAAAAEBIKgb1wUAAAAAF6kU3k4ekGHKWRNbA1rV5tR5kEVDVNCHAQcXFgAUx4pFclNVgo1WWAdN1SYNX8tphTABCGsCRzBEAiB8Q+A6dep+Rz92vhy26lT0AjZn4PRLi8Bf9qoB/CMk0wIgP/Rj2PWZ3gEjUkTlhDRNAQ0gXwTO7t9n+V14pZ6oljUBIQMVmsAaoNWHVMS02LfTSe0e388LNitPa1UQZyOihY+FFgABABYAFEb2Giu6c4KO5YW0pfw3lGp9jMUUAAA=";

fn to_txout(o: &bitcoin::TxOut) -> TxOut {
    TxOut { value: o.value, script_pubkey: o.script_pubkey.to_bytes() }
}

fn load_psbt_from_base64(s: &str) -> PartiallySignedTransaction {
    let bytes = base64::decode(s).unwrap();
    let p: bitcoin::util::psbt::PartiallySignedTransaction = bitcoin::consensus::deserialize(&bytes).unwrap();
    let t = &p.global.unsigned_tx;
    PartiallySignedTransaction {
        unsigned_tx: Transaction {
            version: t.version,
            lock_time: t.lock_time,
            input: t
                .input
                .iter()
                .map(|i| TxIn {
                    previous_output: OutPoint {
                        txid: bitcoin::hashes::Hash::into_inner(i.previous_output.txid).to_vec(),
                        vout: i.previous_output.vout,
                    },
                    script_sig: i.script_sig.to_bytes(),
                    sequence: i.sequence,
                    witness: i.witness.clone(),
                })
                .collect(),
            output: t.output.iter().map(to_txout).collect(),
        },
        xpub: vec![],
        proprietary: vec![],
        unknown: vec![],
        inputs: p
            .inputs
            .iter()
            .map(|i| bip78::psbt::Input {
                non_witness_utxo: i.non_witness_utxo.as_ref().map(|t| t.output.iter().map(to_txout).collect()),
                witness_utxo: i.witness_utxo.as_ref().map(to_txout),
                partial_sigs: vec![],
                redeem_script: i.redeem_script.as_ref().map(|s| s.to_bytes()),
                witness_script: i.witness_script.as_ref().map(|s| s.to_bytes()),
                bip32_derivation: vec![],
                final_script_sig: i.final_script_sig.as_ref().map(|s| s.to_bytes()),
                final_script_witness: i.final_script_witness.clone(),
                proprietary: vec![],
                unknown: vec![],
            })
            .collect(),
        outputs: p
            .outputs
            .iter()
            .map(|o| bip78::psbt::Output {
                redeem_script: o.redeem_script.as_ref().map(|s| s.to_bytes()),
                witness_script: o.witness_script.as_ref().map(|s| s.to_bytes()),
                bip32_derivation: vec![],
                proprietary: vec![],
                unknown: vec![],
            })
            .collect(),
    }
}

#[test]
fn test_state() {
    let original_psbt = load_psbt_from_base64(ORIGINAL);
    let fresh = || original_psbt.clone().try_next().unwrap().next();

    let maybe_broadcastable = fresh();
    assert!(maybe_broadcastable.try_next().is_err());

    let mut maybe_broadcastable = fresh();
    let tx = maybe_broadcastable.tx();
    let record = &original_psbt.inputs[0];
    assert_eq!(&tx.input[0].script_sig, record.final_script_sig.as_ref().unwrap());
    assert_eq!(&tx.input[0].witness, record.final_script_witness.as_ref().unwrap());
    assert_eq!(tx.output, original_psbt.unsigned_tx.output);
    maybe_broadcastable.verified_broadcastable();
    let maybe_owned = maybe_broadcastable.try_next().unwrap();
    assert!(maybe_owned.try_next().is_err());

    let mut maybe_broadcastable = fresh();
    maybe_broadcastable.verified_broadcastable();
    let mut maybe_owned = maybe_broadcastable.try_next().unwrap();
    let funding = original_psbt.inputs[0].witness_utxo.as_ref().unwrap().script_pubkey.clone();
    assert_eq!(maybe_owned.script_pubkeys(), vec![Some(&funding)]);
    maybe_owned.verified_inputs_not_owned();
    let maybe_seen = maybe_owned.try_next().unwrap();
    assert_eq!(maybe_seen.try_next().err(), Some(PsbtError::GuardNotSet));

    let mut maybe_broadcastable = fresh();
    maybe_broadcastable.verified_broadcastable();
    let mut maybe_owned = maybe_broadcastable.try_next().unwrap();
    maybe_owned.verified_inputs_not_owned();
    let mut maybe_seen = maybe_owned.try_next().unwrap();
    assert_eq!(maybe_seen.outpoints()[0].vout, 0);
    maybe_seen.verified_prevouts_not_seen();
    let proposal = maybe_seen.try_next().unwrap();
    assert_eq!(proposal.get(), &original_psbt);
}

#[test]
fn unequal_counts_refused() {
    let mut p = load_psbt_from_base64(ORIGINAL);
    p.inputs.clear();
    assert_eq!(PsbtState::try_from(p).err(), Some(PsbtError::UnequalInputCounts { tx_ins: 1, psbt_ins: 0 }));
    let mut p = load_psbt_from_base64(ORIGINAL);
    p.outputs.pop();
    assert_eq!(PsbtState::try_from(p).err(), Some(PsbtError::UnequalOutputCounts { tx_outs: 2, psbt_outs: 1 }));
}

#[test]
fn headers_accepted() {
    assert_eq!(check_headers(Some("text/plain"), Some("1000")), Ok(1000));
    assert_eq!(check_headers(Some("text/plain"), Some("5333333")), Ok(5_333_333));
    assert_eq!(MAX_CONTENT_LENGTH, 5_333_333);
}

#[test]
fn headers_refused() {
    assert_eq!(check_headers(None, Some("1")), Err(RequestError::MissingHeader("Content-Type".to_string())));
    assert_eq!(
        check_headers(Some("application/json"), Some("1")),
        Err(RequestError::InvalidContentType("application/json".to_string()))
    );
    assert_eq!(check_headers(Some("text/plain"), None), Err(RequestError::MissingHeader("Content-Length".to_string())));
    assert_eq!(check_headers(Some("text/plain"), Some("12a")), Err(RequestError::InvalidContentLength("12a".to_string())));
    assert_eq!(check_headers(Some("text/plain"), Some("5333334")), Err(RequestError::ContentLengthTooLarge(5_333_334)));
    assert_eq!(
        check_headers(Some("text/plain"), Some("18446744073709551615")),
        Err(RequestError::ContentLengthTooLarge(u64::MAX))
    );
}

#[test]
fn content_length_parsing() {
    assert_eq!(parse_u64("0"), Some(0));
    assert_eq!(parse_u64("+42"), Some(42));
    assert_eq!(parse_u64("18446744073709551615"), Some(u64::MAX));
    assert_eq!(parse_u64("18446744073709551616"), None);
    assert_eq!(parse_u64(""), None);
    assert_eq!(parse_u64("+"), None);
    assert_eq!(parse_u64("-1"), None);
    assert_eq!(parse_u64(" 1"), None);
}

struct Node {
    unbroadcastable: bool,
    mine: Vec<Vec<u8>>,
    seen: Vec<OutPoint>,
}

impl Checks for Node {
    fn refuses_broadcast(&self, _tx: Transaction) -> bool {
        self.unbroadcastable
    }

    fn is_owned(&self, script_pubkey: Vec<u8>) -> bool {
        self.mine.contains(&script_pubkey)
    }

    fn was_seen(&self, out_point: OutPoint) -> bool {
        self.seen.contains(&out_point)
    }

    fn unbroacastable(&self, _tx: &Transaction) -> bool {
        self.unbroadcastable
    }

    fn already_seen(&mut self, out_point: &OutPoint) -> bool {
        if self.seen.contains(out_point) {
            true
        } else {
            self.seen.push(out_point.clone());
            false
        }
    }

    fn owned(&self, script_pubkey: &Vec<u8>) -> bool {
        self.mine.contains(script_pubkey)
    }
}

fn unchecked() -> UncheckedProposal {
    UncheckedProposal::from_psbt(bip78::psbt::Psbt::try_from(load_psbt_from_base64(ORIGINAL)).unwrap())
}

#[test]
fn receiver_checks() {
    let mut node = Node { unbroadcastable: false, mine: vec![], seen: vec![] };
    let proposal = unchecked().check(&mut node).unwrap();
    assert_eq!(proposal.get(), &load_psbt_from_base64(ORIGINAL));
    assert_eq!(unchecked().check(&mut node).err(), Some(ChecksError::TxinAlreadySeen));

    let mut node = Node { unbroadcastable: true, mine: vec![], seen: vec![] };
    assert_eq!(unchecked().check(&mut node).err(), Some(ChecksError::TxUnbroadcastable));

    let spent = load_psbt_from_base64(ORIGINAL).inputs[0].witness_utxo.clone().unwrap().script_pubkey;
    let mut node = Node { unbroadcastable: false, mine: vec![spent], seen: vec![] };
    assert_eq!(unchecked().check(&mut node).err(), Some(ChecksError::TxinOwned));

    let mut p = load_psbt_from_base64(ORIGINAL);
    p.inputs[0].witness_utxo = None;
    let mut node = Node { unbroadcastable: false, mine: vec![], seen: vec![] };
    let u = UncheckedProposal::from_psbt(bip78::psbt::Psbt::try_from(p).unwrap());
    assert_eq!(u.check(&mut node).err(), Some(ChecksError::MissingPrevout));
}

#[test]
fn unknown_funding_script_is_none() {
    let mut p = load_psbt_from_base64(ORIGINAL);
    p.inputs[0].witness_utxo = None;
    let mut state = p.try_next().unwrap().next();
    state.verified_broadcastable();
    let owned = state.try_next().unwrap();
    assert_eq!(owned.script_pubkeys(), vec![None]);
}

#[test]
fn repeated_outpoint_in_one_proposal_is_seen() {
    let mut p = load_psbt_from_base64(ORIGINAL);
    let txin = p.unsigned_tx.input[0].clone();
    let record = p.inputs[0].clone();
    p.unsigned_tx.input.push(txin);
    p.inputs.push(record);
    let mut node = Node { unbroadcastable: false, mine: vec![], seen: vec![] };
    let u = UncheckedProposal::from_psbt(bip78::psbt::Psbt::try_from(p).unwrap());
    assert_eq!(u.check(&mut node).err(), Some(ChecksError::TxinAlreadySeen));
    assert_eq!(node.seen.len(), 1);
}
