//! Classification of a spent output by the shape of its script, and the
//! weight that a signed input of each class is expected to have.

use vstd::prelude::*;
use crate::psbt::{TxOut, Input};

verus! {

/// The two kinds of version 0 witness program.
#[derive(Debug, Clone, Copy, PartialEq, Eq, Structural)]
pub enum SegWitV0Type {
    Pubkey,
    Script,
}

/// How a spent output is locked.
#[derive(Debug, Clone, Copy, PartialEq, Eq, Structural)]
pub enum InputType {
    P2Pkh,
    P2Sh,
    SegWitV0 { ty: SegWitV0Type, nested: bool },
    Taproot,
}

#[derive(Debug, Clone, Copy, PartialEq, Eq, Structural)]
pub enum InputTypeError {
    UnknownInputType,
}

/// `OP_DUP OP_HASH160 <20 bytes> OP_EQUALVERIFY OP_CHECKSIG`
pub open spec fn is_p2pkh(s: Seq<u8>) -> bool {
    s.len() == 25 && s[0] == 0x76 && s[1] == 0xa9 && s[2] == 0x14 && s[23] == 0x88 && s[24] == 0xac
}

/// `OP_HASH160 <20 bytes> OP_EQUAL`
pub open spec fn is_p2sh(s: Seq<u8>) -> bool {
    s.len() == 23 && s[0] == 0xa9 && s[1] == 0x14 && s[22] == 0x87
}

/// `OP_0 <20 bytes>`
pub open spec fn is_p2wpkh(s: Seq<u8>) -> bool {
    s.len() == 22 && s[0] == 0x00 && s[1] == 0x14
}

/// `OP_0 <32 bytes>`
pub open spec fn is_p2wsh(s: Seq<u8>) -> bool {
    s.len() == 34 && s[0] == 0x00 && s[1] == 0x20
}

/// `OP_1 <32 bytes>`
pub open spec fn is_p2tr(s: Seq<u8>) -> bool {
    s.len() == 34 && s[0] == 0x51 && s[1] == 0x20
}

/// A script that is one direct push of all its remaining bytes.
pub open spec fn single_push(s: Seq<u8>) -> Option<Seq<u8>> {
    if s.len() >= 2 && 1 <= s[0] <= 75 && s[0] as int == s.len() - 1 {
        Some(s.subrange(1, s.len() as int))
    } else {
        None
    }
}

/// The redeem script of a P2SH input: the recorded one, or else the one that a
/// finalized script signature pushes.
pub open spec fn redeem_script_of(psbtin: Input) -> Option<Seq<u8>> {
    match psbtin.redeem_script {
        Some(rs) => Some(rs@),
        None => match psbtin.final_script_sig {
            Some(sig) => single_push(sig@),
            None => None,
        },
    }
}

/// The class of an input that spends `txout`.
pub open spec fn input_type_of(txout: TxOut, psbtin: Input) -> Result<InputType, InputTypeError> {
    let spk = txout.script_pubkey@;
    if is_p2pkh(spk) {
        Ok(InputType::P2Pkh)
    } else if is_p2sh(spk) {
        match redeem_script_of(psbtin) {
            Some(rs) => if is_p2wpkh(rs) {
                Ok(InputType::SegWitV0 { ty: SegWitV0Type::Pubkey, nested: true })
            } else if is_p2wsh(rs) {
                Ok(InputType::SegWitV0 { ty: SegWitV0Type::Script, nested: true })
            } else {
                Ok(InputType::P2Sh)
            },
            None => Err(InputTypeError::UnknownInputType),
        }
    } else if is_p2wpkh(spk) {
        Ok(InputType::SegWitV0 { ty: SegWitV0Type::Pubkey, nested: false })
    } else if is_p2wsh(spk) {
        Ok(InputType::SegWitV0 { ty: SegWitV0Type::Script, nested: false })
    } else if is_p2tr(spk) {
        Ok(InputType::Taproot)
    } else {
        Err(InputTypeError::UnknownInputType)
    }
}

fn check_p2pkh(s: &Vec<u8>) -> (r: bool)
    ensures
        r == is_p2pkh(s@),
{
    s.len() == 25 && s[0] == 0x76 && s[1] == 0xa9 && s[2] == 0x14 && s[23] == 0x88 && s[24] == 0xac
}

fn check_p2sh(s: &Vec<u8>) -> (r: bool)
    ensures
        r == is_p2sh(s@),
{
    s.len() == 23 && s[0] == 0xa9 && s[1] == 0x14 && s[22] == 0x87
}

fn check_p2wpkh(s: &Vec<u8>) -> (r: bool)
    ensures
        r == is_p2wpkh(s@),
{
    s.len() == 22 && s[0] == 0x00 && s[1] == 0x14
}

fn check_p2wsh(s: &Vec<u8>) -> (r: bool)
    ensures
        r == is_p2wsh(s@),
{
    s.len() == 34 && s[0] == 0x00 && s[1] == 0x20
}

fn check_p2tr(s: &Vec<u8>) -> (r: bool)
    ensures
        r == is_p2tr(s@),
{
    s.len() == 34 && s[0] == 0x51 && s[1] == 0x20
}

/// The bytes after the first one.
fn tail(s: &Vec<u8>) -> (r: Vec<u8>)
    requires
        s@.len() >= 1,
    ensures
        r@ == s@.subrange(1, s@.len() as int),
{
    let mut r: Vec<u8> = Vec::new();
    let mut i: usize = 1;
    while i < s.len()
        invariant
            1 <= i <= s@.len(),
            r@ == s@.subrange(1, i as int),
        decreases s@.len() - i,
    {
        r.push(s[i]);
        i = i + 1;
    }
    r
}

fn redeem_script(psbtin: &Input) -> (r: Option<Vec<u8>>)
    ensures
        match (r, redeem_script_of(*psbtin)) {
            (Some(a), Some(b)) => a@ == b,
            (None, None) => true,
            _ => false,
        },
{
    match &psbtin.redeem_script {
        Some(rs) => Some(tail_from(rs, 0)),
        None => match &psbtin.final_script_sig {
            Some(sig) => {
                if sig.len() >= 2 && 1 <= sig[0] && sig[0] <= 75 && sig[0] as usize == sig.len() - 1 {
                    Some(tail(sig))
                } else {
                    None
                }
            },
            None => None,
        },
    }
}

/// A copy of the bytes from `from` on.
fn tail_from(s: &Vec<u8>, from: usize) -> (r: Vec<u8>)
    requires
        from <= s@.len(),
    ensures
        r@ == s@.subrange(from as int, s@.len() as int),
{
    let mut r: Vec<u8> = Vec::new();
    let mut i: usize = from;
    while i < s.len()
        invariant
            from <= i <= s@.len(),
            r@ == s@.subrange(from as int, i as int),
        decreases s@.len() - i,
    {
        r.push(s[i]);
        i = i + 1;
    }
    r
}

impl InputType {
    /// Classifies the input that spends `txout`.
    pub fn from_spent_input(txout: &TxOut, psbtin: &Input) -> (r: Result<InputType, InputTypeError>)
        ensures
            r == input_type_of(*txout, *psbtin),
    {
        let spk = &txout.script_pubkey;
        if check_p2pkh(spk) {
            Ok(InputType::P2Pkh)
        } else if check_p2sh(spk) {
            match redeem_script(psbtin) {
                Some(rs) => if check_p2wpkh(&rs) {
                    Ok(InputType::SegWitV0 { ty: SegWitV0Type::Pubkey, nested: true })
                } else if check_p2wsh(&rs) {
                    Ok(InputType::SegWitV0 { ty: SegWitV0Type::Script, nested: true })
                } else {
                    Ok(InputType::P2Sh)
                },
                None => Err(InputTypeError::UnknownInputType),
            }
        } else if check_p2wpkh(spk) {
            Ok(InputType::SegWitV0 { ty: SegWitV0Type::Pubkey, nested: false })
        } else if check_p2wsh(spk) {
            Ok(InputType::SegWitV0 { ty: SegWitV0Type::Script, nested: false })
        } else if check_p2tr(spk) {
            Ok(InputType::Taproot)
        } else {
            Err(InputTypeError::UnknownInputType)
        }
    }

    /// Expected weight of a signed input of this class, in weight units.
    ///
    /// Key-spend classes have a canonical size: an outpoint, sequence and script
    /// length (41 bytes), the script signature, and the witness counted once.
    /// Script-spend classes (`P2Sh`, version 0 script hashes) have no size
    /// fixed by their class and are given none.
    pub open spec fn spec_expected_input_weight(&self) -> u64 {
        match self {
            InputType::P2Pkh => 592,
            InputType::SegWitV0 { ty: SegWitV0Type::Pubkey, nested: true } => 364,
            InputType::SegWitV0 { ty: SegWitV0Type::Pubkey, nested: false } => 272,
            InputType::Taproot => 230,
            _ => 0,
        }
    }

    #[verifier::when_used_as_spec(spec_expected_input_weight)]
    pub fn expected_input_weight(&self) -> (r: u64)
        ensures
            r == self.spec_expected_input_weight(),
    {
        match self {
            InputType::P2Pkh => 592,
            InputType::SegWitV0 { ty: SegWitV0Type::Pubkey, nested: true } => 364,
            InputType::SegWitV0 { ty: SegWitV0Type::Pubkey, nested: false } => 272,
            InputType::Taproot => 230,
            _ => 0,
        }
    }
}

} // verus!
