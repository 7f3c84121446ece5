use bip78::input_type::{InputType, SegWitV0Type};
use bip78::psbt::{
    clear_unneeded_fields, Input, OutPoint, Output, PartiallySignedTransaction, Psbt, Transaction, TxIn,
    TxOut,
};
use bip78::sender::{create_context, serialize_url, Context, CreateRequestError, Params, ValidationError};

const ORIGINAL: &str = "cHNidP8BAHMCAAAAAY8nutGgJdyYGXWiBEb45Hoe9lWGbkxh/6bNiOJdCDuDAAAAAAD+////AtyVuAUAAAAAF6kUHehJ8GnSdBUOOv6ujXLrWmsJRDCHgIQeAAAAAAAXqRR3QJbbz0hnQ8IvQ0fptGn+votneofTAAAAAAEBIKgb1wUAAAAAF6kU3k4ekGHKWRNbA1rV5tR5kEVDVNCHAQcXFgAUx4pFclNVgo1WWAdN1SYNX8tphTABCGsCRzBEAiB8Q+A6dep+Rz92vhy26lT0AjZn4PRLi8Bf9qoB/CMk0wIgP/Rj2PWZ3gEjUkTlhDRNAQ0gXwTO7t9n+V14pZ6oljUBIQMVmsAaoNWHVMS02LfTSe0e388LNitPa1UQZyOihY+FFgABABYAFEb2Giu6c4KO5YW0pfw3lGp9jMUUAAA=";

const PROPOSAL: &str = "cHNidP8BAJwCAAAAAo8nutGgJdyYGXWiBEb45Hoe9lWGbkxh/6bNiOJdCDuDAAAAAAD+////jye60aAl3JgZdaIERvjkeh72VYZuTGH/ps2I4l0IO4MBAAAAAP7///8CJpW4BQAAAAAXqRQd6EnwadJ0FQ46/q6NcutaawlEMIcACT0AAAAAABepFHdAltvPSGdDwi9DR+m0af6+i2d6h9MAAAAAAQEgqBvXBQAAAAAXqRTeTh6QYcpZE1sDWtXm1HmQRUNU0IcBBBYAFMeKRXJTVYKNVlgHTdUmDV/LaYUwIgYDFZrAGqDVh1TEtNi300ntHt/PCzYrT2tVEGcjooWPhRYYSFzWUDEAAIABAACAAAAAgAEAAAAAAAAAAAEBIICEHgAAAAAAF6kUyPLL+cphRyyI5GTUazV0hF2R2NWHAQcXFgAUX4BmVeWSTJIEwtUb5TlPS/ntohABCGsCRzBEAiBnu3tA3yWlT0WBClsXXS9j69Bt+waCs9JcjWtNjtv7VgIge2VYAaBeLPDB6HGFlpqOENXMldsJezF9Gs5amvDQRDQBIQJl1jz1tBt8hNx2owTm+4Du4isx0pmdKNMNIjjaMHFfrQABABYAFEb2Giu6c4KO5YW0pfw3lGp9jMUUIgICygvBWB5prpfx61y1HDAwo37kYP3YRJBvAjtunBAur3wYSFzWUDEAAIABAACAAAAAgAEAAAABAAAAAAA=";

fn to_txout(o: &bitcoin::TxOut) -> TxOut {
    TxOut { value: o.value, script_pubkey: o.script_pubkey.to_bytes() }
}

fn to_tx(t: &bitcoin::Transaction) -> Transaction {
    Transaction {
        version: t.version,
        lock_time: t.lock_time,
        input: t
            .input
            .iter()
            .map(|i| TxIn {
                previous_output: OutPoint {
                    txid: bitcoin::hashes::Hash::into_inner(i.previous_output.txid).to_vec(),
                    vout: i.previous_output.vout,
                },
                script_sig: i.script_sig.to_bytes(),
                sequence: i.sequence,
                witness: i.witness.clone(),
            })
            .collect(),
        output: t.output.iter().map(to_txout).collect(),
    }
}

fn entries<K: std::fmt::Debug, V: std::fmt::Debug>(m: &std::collections::BTreeMap<K, V>) -> Vec<(Vec<u8>, Vec<u8>)> {
    m.iter().map(|(k, v)| (format!("{:?}", k).into_bytes(), format!("{:?}", v).into_bytes())).collect()
}

fn to_model(p: &bitcoin::util::psbt::PartiallySignedTransaction) -> PartiallySignedTransaction {
    PartiallySignedTransaction {
        unsigned_tx: to_tx(&p.global.unsigned_tx),
        xpub: entries(&p.global.xpub),
        proprietary: entries(&p.global.proprietary),
        unknown: entries(&p.global.unknown),
        inputs: p
            .inputs
            .iter()
            .map(|i| Input {
                non_witness_utxo: i.non_witness_utxo.as_ref().map(|t| t.output.iter().map(to_txout).collect()),
                witness_utxo: i.witness_utxo.as_ref().map(to_txout),
                partial_sigs: entries(&i.partial_sigs),
                redeem_script: i.redeem_script.as_ref().map(|s| s.to_bytes()),
                witness_script: i.witness_script.as_ref().map(|s| s.to_bytes()),
                bip32_derivation: entries(&i.bip32_derivation),
                final_script_sig: i.final_script_sig.as_ref().map(|s| s.to_bytes()),
                final_script_witness: i.final_script_witness.clone(),
                proprietary: entries(&i.proprietary),
                unknown: entries(&i.unknown),
            })
            .collect(),
        outputs: p
            .outputs
            .iter()
            .map(|o| Output {
                redeem_script: o.redeem_script.as_ref().map(|s| s.to_bytes()),
                witness_script: o.witness_script.as_ref().map(|s| s.to_bytes()),
                bip32_derivation: entries(&o.bip32_derivation),
                proprietary: entries(&o.proprietary),
                unknown: entries(&o.unknown),
            })
            .collect(),
    }
}

fn load_psbt_from_base64(s: &str) -> PartiallySignedTransaction {
    let bytes = base64::decode(s).unwrap();
    let psbt: bitcoin::util::psbt::PartiallySignedTransaction = bitcoin::consensus::deserialize(&bytes).unwrap();
    to_model(&psbt)
}

fn empty_input() -> Input {
    Input {
        non_witness_utxo: None,
        witness_utxo: None,
        partial_sigs: vec![],
        redeem_script: None,
        witness_script: None,
        bip32_derivation: vec![],
        final_script_sig: None,
        final_script_witness: None,
        proprietary: vec![],
        unknown: vec![],
    }
}

fn nested_pubkey() -> InputType {
    InputType::SegWitV0 { ty: SegWitV0Type::Pubkey, nested: true }
}

fn context(disable_output_substitution: bool, fee_contribution: Option<(u64, usize)>) -> Context {
    let original_psbt = load_psbt_from_base64(ORIGINAL);
    let payee = original_psbt.unsigned_tx.output[1].script_pubkey.clone();
    let sequence = original_psbt.unsigned_tx.input[0].sequence;
    Context {
        original_psbt: Psbt::try_from(original_psbt).unwrap(),
        disable_output_substitution,
        fee_contribution,
        payee,
        input_type: nested_pubkey(),
        sequence,
    }
}

/// The receiver's proposal with its key paths and echoed sender UTXO removed.
fn proposal() -> PartiallySignedTransaction {
    let mut proposal = load_psbt_from_base64(PROPOSAL);
    for output in &mut proposal.outputs {
        output.bip32_derivation.clear();
    }
    for input in &mut proposal.inputs {
        input.bip32_derivation.clear();
    }
    proposal.inputs[0].witness_utxo = None;
    proposal
}

fn process(ctx: Context, p: PartiallySignedTransaction) -> Result<PartiallySignedTransaction, ValidationError> {
    ctx.process_proposal(Psbt::try_from(p).unwrap()).map(|p| p.into_inner())
}

// The proposal lowers the sender's change output by 182 sat. With no fee
// contribution offered, that output may not decrease.
#[test]
fn official_vectors() {
    let ctx = context(false, None);
    assert_eq!(process(ctx, proposal()), Err(ValidationError::OutputValueDecreased));
}

#[test]
fn happy_path_returns_proposal_unchanged() {
    let mut p = proposal();
    // fee paid from the payee's output instead of the sender's change
    p.unsigned_tx.output[0].value += 182;
    p.unsigned_tx.output[1].value -= 182;
    let expected = p.clone();
    assert_eq!(process(context(false, None), p), Ok(expected));
}

#[test]
fn version_mismatch() {
    let mut p = proposal();
    let original = p.unsigned_tx.version;
    p.unsigned_tx.version = original + 1;
    assert_eq!(
        process(context(false, None), p),
        Err(ValidationError::VersionsDontMatch { proposed: original + 1, original })
    );
}

#[test]
fn lock_time_mismatch() {
    let mut p = proposal();
    p.unsigned_tx.lock_time += 1;
    let original = p.unsigned_tx.lock_time - 1;
    assert_eq!(
        process(context(false, None), p),
        Err(ValidationError::LockTimesDontMatch { proposed: original + 1, original })
    );
}

#[test]
fn payee_value_decreased_with_substitution_disabled() {
    let mut p = proposal();
    let original_payee = load_psbt_from_base64(ORIGINAL).unsigned_tx.output[1].value;
    p.unsigned_tx.output[1].value = original_payee - 1;
    // the sender's change may pay the receiver's input, so the payee output is reached
    assert_eq!(process(context(true, Some((1000, 0))), p), Err(ValidationError::DisallowedOutputSubstitution));
}

#[test]
fn payee_value_decreased_with_substitution_enabled_is_accepted_by_output_walk() {
    let mut p = proposal();
    p.unsigned_tx.output[0].value += 182;
    p.unsigned_tx.output[1].value -= 182;
    p.unsigned_tx.output[1].value -= 1;
    let expected = p.clone();
    assert_eq!(process(context(false, None), p), Ok(expected));
}

#[test]
fn receiver_input_missing_funding_record() {
    let mut p = proposal();
    p.unsigned_tx.input.push(TxIn {
        previous_output: OutPoint { txid: vec![7; 32], vout: 0 },
        script_sig: vec![],
        sequence: 0xffff_fffe,
        witness: vec![],
    });
    p.inputs.push(empty_input());
    assert_eq!(process(context(false, None), p), Err(ValidationError::ReceiverTxinMissingUtxoInfo));
}

#[test]
fn mixed_input_types() {
    let mut p = proposal();
    let mut p2pkh = vec![0x76, 0xa9, 0x14];
    p2pkh.extend_from_slice(&[1u8; 20]);
    p2pkh.extend_from_slice(&[0x88, 0xac]);
    p.inputs[1].witness_utxo.as_mut().unwrap().script_pubkey = p2pkh;
    assert_eq!(
        process(context(false, None), p),
        Err(ValidationError::MixedInputTypes { proposed: InputType::P2Pkh, original: nested_pubkey() })
    );
}

#[test]
fn mixed_sequence() {
    let mut p = proposal();
    p.unsigned_tx.input[1].sequence = 0;
    assert_eq!(process(context(false, None), p), Err(ValidationError::MixedSequence));
}

#[test]
fn sender_sequence_changed() {
    let mut p = proposal();
    p.unsigned_tx.input[0].sequence = 0;
    assert_eq!(
        process(context(false, None), p),
        Err(ValidationError::SenderTxinSequenceChanged { proposed: 0, original: 0xffff_fffe })
    );
}

#[test]
fn sender_input_with_echoed_utxo() {
    let p = load_psbt_from_base64(PROPOSAL);
    let mut p2 = p.clone();
    for input in &mut p2.inputs {
        input.bip32_derivation.clear();
    }
    assert_eq!(process(context(false, None), p2), Err(ValidationError::SenderTxinContainsWitnessUtxo));
    assert_eq!(process(context(false, None), p), Err(ValidationError::TxInContainsKeyPaths));
}

#[test]
fn missing_original_input() {
    let mut p = proposal();
    p.unsigned_tx.input.remove(0);
    p.inputs.remove(0);
    assert_eq!(process(context(false, None), p), Err(ValidationError::MissingOrShuffledInputs));
}

#[test]
fn output_key_paths_rejected() {
    let mut p = proposal();
    p.outputs[0].bip32_derivation.push((vec![2], vec![3]));
    assert_eq!(process(context(false, None), p), Err(ValidationError::TxOutContainsKeyPaths));
}

#[test]
fn missing_original_output() {
    let mut p = proposal();
    p.unsigned_tx.output.remove(1);
    p.outputs.remove(1);
    assert_eq!(process(context(false, Some((1000, 0))), p), Err(ValidationError::MissingOrShuffledOutputs));
}

#[test]
fn contribution_over_cap() {
    let mut p = proposal();
    let original_change = load_psbt_from_base64(ORIGINAL).unsigned_tx.output[0].value;
    p.unsigned_tx.output[0].value = original_change - 200;
    assert_eq!(process(context(false, Some((100, 0))), p), Err(ValidationError::FeeContributionExceedsMaximum));
}

// The original pays 332 sat for 460 weight units: under one sat per unit, so
// the rate rounds down to zero and no contribution is allowed.
#[test]
fn contribution_beyond_fee_rate_allowance() {
    assert_eq!(
        process(context(false, Some((1000, 0))), proposal()),
        Err(ValidationError::FeeContributionPaysOutputSizeIncrease)
    );
}

#[test]
fn inflation_rejected() {
    let mut p = proposal();
    p.unsigned_tx.output[0].value += 182;
    p.unsigned_tx.output[1].value += 10_000;
    assert_eq!(process(context(false, None), p), Err(ValidationError::Inflation));
}

#[test]
fn absolute_fee_decreased() {
    let mut p = proposal();
    p.unsigned_tx.output[0].value += 182;
    p.unsigned_tx.output[1].value += 100;
    assert_eq!(process(context(false, None), p), Err(ValidationError::AbsoluteFeeDecreased));
}

#[test]
fn original_weight_and_fee() {
    let original = load_psbt_from_base64(ORIGINAL);
    assert_eq!(bip78::weight::weight(&original.unsigned_tx), 460);
}

#[test]
fn classifies_original_input() {
    let original = load_psbt_from_base64(ORIGINAL);
    let prevout = original.inputs[0].witness_utxo.clone().unwrap();
    assert_eq!(InputType::from_spent_input(&prevout, &original.inputs[0]), Ok(nested_pubkey()));
}

#[test]
fn classifies_script_shapes() {
    let spk = |bytes: Vec<u8>| TxOut { value: 1, script_pubkey: bytes };
    let mut wpkh = vec![0x00, 0x14];
    wpkh.extend_from_slice(&[9u8; 20]);
    let mut tr = vec![0x51, 0x20];
    tr.extend_from_slice(&[9u8; 32]);
    let mut wsh = vec![0x00, 0x20];
    wsh.extend_from_slice(&[9u8; 32]);
    let mut sh = vec![0xa9, 0x14];
    sh.extend_from_slice(&[9u8; 20]);
    sh.push(0x87);
    let i = empty_input();
    assert_eq!(
        InputType::from_spent_input(&spk(wpkh.clone()), &i),
        Ok(InputType::SegWitV0 { ty: SegWitV0Type::Pubkey, nested: false })
    );
    assert_eq!(
        InputType::from_spent_input(&spk(wsh.clone()), &i),
        Ok(InputType::SegWitV0 { ty: SegWitV0Type::Script, nested: false })
    );
    assert_eq!(InputType::from_spent_input(&spk(tr), &i), Ok(InputType::Taproot));
    assert_eq!(
        InputType::from_spent_input(&spk(sh.clone()), &i),
        Err(bip78::input_type::InputTypeError::UnknownInputType)
    );
    let mut with_redeem = empty_input();
    with_redeem.redeem_script = Some(wsh);
    assert_eq!(
        InputType::from_spent_input(&spk(sh.clone()), &with_redeem),
        Ok(InputType::SegWitV0 { ty: SegWitV0Type::Script, nested: true })
    );
    with_redeem.redeem_script = Some(vec![0x51]);
    assert_eq!(InputType::from_spent_input(&spk(sh), &with_redeem), Ok(InputType::P2Sh));
    assert_eq!(
        InputType::from_spent_input(&spk(vec![0x6a]), &i),
        Err(bip78::input_type::InputTypeError::UnknownInputType)
    );
}

#[test]
fn expected_input_weights() {
    assert_eq!(InputType::P2Pkh.expected_input_weight(), 592);
    assert_eq!(nested_pubkey().expected_input_weight(), 364);
    assert_eq!(InputType::SegWitV0 { ty: SegWitV0Type::Pubkey, nested: false }.expected_input_weight(), 272);
    assert_eq!(InputType::Taproot.expected_input_weight(), 230);
    assert_eq!(InputType::P2Sh.expected_input_weight(), 0);
}

#[test]
fn url_parameters() {
    assert_eq!(serialize_url("https://example.com", false, None), "https://example.com?v=1");
    assert_eq!(
        serialize_url("https://example.com", true, Some((1000, 0))),
        "https://example.com?v=1&disableoutputsubstitution=1&additionalfeeoutputindex=0&maxadditionalfeecontribution=1000"
    );
    assert_eq!(
        serialize_url("http://a", false, Some((18446744073709551615, 12))),
        "http://a?v=1&additionalfeeoutputindex=12&maxadditionalfeecontribution=18446744073709551615"
    );
}

fn build(params: &Params, amount: u64) -> Result<(String, Context), CreateRequestError> {
    let original = load_psbt_from_base64(ORIGINAL);
    let payee = original.unsigned_tx.output[1].script_pubkey.clone();
    create_context(Psbt::try_from(original).unwrap(), payee, amount, "https://example.com", false, params)
}

#[test]
fn builds_request_without_contribution() {
    let (url, ctx) = build(&Params::non_incentivizing(), 2_000_000).unwrap();
    assert_eq!(url, "https://example.com?v=1");
    assert_eq!(ctx.input_type, nested_pubkey());
    assert_eq!(ctx.sequence, 0xffff_fffe);
    assert_eq!(ctx.fee_contribution, None);
}

#[test]
fn builds_request_with_detected_change() {
    let params = Params::with_fee_contribution(1000, None).always_disable_output_substitution(true);
    let (url, ctx) = build(&params, 2_000_000).unwrap();
    assert_eq!(
        url,
        "https://example.com?v=1&disableoutputsubstitution=1&additionalfeeoutputindex=0&maxadditionalfeecontribution=1000"
    );
    assert_eq!(ctx.fee_contribution, Some((1000, 0)));
    assert!(ctx.disable_output_substitution);
}

#[test]
fn builder_errors() {
    assert_eq!(build(&Params::non_incentivizing(), 1).err(), Some(CreateRequestError::PayeeValueNotEqual));
    assert_eq!(
        build(&Params::with_fee_contribution(1000, Some(1)), 2_000_000).err(),
        Some(CreateRequestError::ChangeIndexPointsAtPayee)
    );
    assert_eq!(
        build(&Params::with_fee_contribution(1000, Some(5)), 2_000_000).err(),
        Some(CreateRequestError::ChangeIndexOutOfBounds)
    );
    assert_eq!(
        build(&Params::with_fee_contribution(u64::MAX, None), 2_000_000).err(),
        Some(CreateRequestError::FeeOutputValueLowerThanFeeContribution)
    );
    let clamped = build(&Params::with_fee_contribution(u64::MAX, Some(0)).clamp_fee_contribution(true), 2_000_000);
    assert_eq!(clamped.unwrap().1.fee_contribution, Some((0x05b8_95dc, 0)));

    let mut original = load_psbt_from_base64(ORIGINAL);
    let payee = original.unsigned_tx.output[1].script_pubkey.clone();
    let extra = original.unsigned_tx.output[0].clone();
    original.unsigned_tx.output.push(extra);
    let extra_record = original.outputs[0].clone();
    original.outputs.push(extra_record);
    let params = Params::with_fee_contribution(1000, None);
    assert_eq!(
        create_context(Psbt::try_from(original).unwrap(), payee.clone(), 2_000_000, "https://a", false, &params).err(),
        Some(CreateRequestError::AmbiguousChangeOutput)
    );

    let mut no_utxo = load_psbt_from_base64(ORIGINAL);
    no_utxo.inputs[0].witness_utxo = None;
    assert_eq!(
        create_context(Psbt::try_from(no_utxo).unwrap(), payee.clone(), 2_000_000, "https://a", false, &params).err(),
        Some(CreateRequestError::InvalidOriginalInput {
            index: 0,
            error: bip78::psbt::PrevTxOutError::MissingUtxoInformation
        })
    );
    assert_eq!(
        create_context(Psbt::try_from(load_psbt_from_base64(ORIGINAL)).unwrap(), vec![0x51], 1, "https://a", false, &params).err(),
        Some(CreateRequestError::MissingPayeeOutput)
    );
}

#[test]
fn builder_sanitizes_original() {
    let mut original = load_psbt_from_base64(ORIGINAL);
    let payee = original.unsigned_tx.output[1].script_pubkey.clone();
    original.xpub.push((vec![1], vec![2]));
    original.inputs[0].bip32_derivation.push((vec![1], vec![2]));
    original.inputs[0].unknown.push((vec![1], vec![2]));
    original.outputs[1].proprietary.push((vec![1], vec![2]));
    let (_, ctx) =
        create_context(Psbt::try_from(original).unwrap(), payee, 2_000_000, "https://a", false, &Params::non_incentivizing())
            .unwrap();
    let kept = ctx.original_psbt.get();
    assert!(kept.xpub.is_empty());
    assert!(kept.inputs[0].bip32_derivation.is_empty());
    assert!(kept.inputs[0].unknown.is_empty());
    assert!(kept.outputs[1].proprietary.is_empty());
    assert!(kept.inputs[0].witness_utxo.is_some());
}

#[test]
fn sanitizing_twice_changes_nothing() {
    let mut p = load_psbt_from_base64(PROPOSAL);
    p.unknown.push((vec![1], vec![2]));
    p.outputs[0].proprietary.push((vec![1], vec![2]));
    clear_unneeded_fields(&mut p);
    let once = p.clone();
    clear_unneeded_fields(&mut p);
    assert_eq!(p, once);
    assert!(once.inputs.iter().all(|i| i.bip32_derivation.is_empty() && i.proprietary.is_empty()));
    assert!(once.outputs.iter().all(|o| o.bip32_derivation.is_empty() && o.unknown.is_empty()));
}

#[test]
fn uri_request_pays_address_script() {
    let original = load_psbt_from_base64(ORIGINAL);
    let payee = original.unsigned_tx.output[1].script_pubkey.clone();
    let script = bitcoin::Script::from(payee.clone());
    let address = bitcoin::Address::from_script(&script, bitcoin::Network::Bitcoin).unwrap();
    let text = format!("bitcoin:{}?amount=0.02&pj=https://example.com", address);
    let uri = <bip78::Uri as std::str::FromStr>::from_str(&text).unwrap();
    let (url, ctx) = uri.create_request(Psbt::try_from(original).unwrap(), Params::non_incentivizing()).unwrap();
    assert_eq!(url, "https://example.com?v=1");
    assert_eq!(ctx.payee, payee);

    let wrong = <bip78::Uri as std::str::FromStr>::from_str(&format!("bitcoin:{}?amount=0.03&pj=https://a", address)).unwrap();
    let original = load_psbt_from_base64(ORIGINAL);
    assert_eq!(
        wrong.create_request(Psbt::try_from(original).unwrap(), Params::non_incentivizing()).err(),
        Some(CreateRequestError::PayeeValueNotEqual)
    );
}
