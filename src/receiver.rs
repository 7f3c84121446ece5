//! Receiver side of a PayJoin: the request's framing and the checks on the
//! sender's original PSBT.

use vstd::prelude::*;
use crate::psbt::{
    PartiallySignedTransaction, Psbt, Transaction, OutPoint, prev_txout, previous_txout, extract_tx, is_extracted,
    same_outpoint,
};
use crate::url::chars_of;

verus! {

/// Largest accepted body: a 4 MB block, expanded by base64.
pub const MAX_CONTENT_LENGTH: u64 = 4_000_000 * 4 / 3;

/// Read access to the request's headers, by lower-case name.
pub trait Headers {
    fn get_header(&self, key: &str) -> Option<&str>;
}

/// Answers the receiver's node gives about a proposal. Each returns `true`
/// when the check fails. The node keeps a set of outpoints it has seen:
/// `already_seen` says whether the outpoint is in it and then adds it, and
/// changes no other answer. The three predicates say what the answers are.
pub trait Checks {
    /// The node would refuse to broadcast `tx`.
    spec fn refuses_broadcast(&self, tx: Transaction) -> bool;

    /// The output script is the receiver's own.
    spec fn is_owned(&self, script_pubkey: Vec<u8>) -> bool;

    /// The outpoint is in the node's set of seen outpoints.
    spec fn was_seen(&self, out_point: OutPoint) -> bool;

    fn unbroacastable(&self, tx: &Transaction) -> (r: bool)
        ensures
            r == self.refuses_broadcast(*tx),
    ;

    fn already_seen(&mut self, out_point: &OutPoint) -> (r: bool)
        ensures
            r == old(self).was_seen(*out_point),
            forall|x: OutPoint| #[trigger] final(self).was_seen(x) == (old(self).was_seen(x) || same_outpoint(x, *out_point)),
            forall|s: Vec<u8>| #[trigger] final(self).is_owned(s) == old(self).is_owned(s),
    ;

    fn owned(&self, script_pubkey: &Vec<u8>) -> (r: bool)
        ensures
            r == self.is_owned(*script_pubkey),
    ;
}

/// Some outpoint in `added` names the same output as `x`.
pub open spec fn seen_in(added: Set<OutPoint>, x: OutPoint) -> bool {
    exists|y: OutPoint| added.contains(y) && same_outpoint(y, x)
}

/// The checks on the inputs from `i` on, in order, where `added` holds the
/// outpoints seen earlier in this proposal: the funding output must be
/// known, not the receiver's own, and the outpoint not seen before.
pub open spec fn input_checks<C: Checks>(c: C, p: PartiallySignedTransaction, i: int, added: Set<OutPoint>) -> Result<(), ChecksError>
    decreases p.inputs@.len() - i,
{
    if i < 0 || i >= p.inputs@.len() {
        Ok(())
    } else {
        let txin = p.unsigned_tx.input@[i];
        match prev_txout(txin, p.inputs@[i]) {
            Err(_) => Err(ChecksError::MissingPrevout),
            Ok(o) => if c.is_owned(o.script_pubkey) {
                Err(ChecksError::TxinOwned)
            } else {
                let op = txin.previous_output;
                if c.was_seen(op) || seen_in(added, op) {
                    Err(ChecksError::TxinAlreadySeen)
                } else {
                    input_checks(c, p, i + 1, added.insert(op))
                }
            },
        }
    }
}

#[derive(Debug, PartialEq, Eq, Structural, Clone, Copy)]
pub enum ChecksError {
    TxUnbroadcastable,
    TxinAlreadySeen,
    TxinOwned,
    MissingPrevout,
}

/// Why a request was refused before its PSBT was looked at.
#[derive(Debug, PartialEq, Eq, Clone)]
pub enum RequestError {
    MissingHeader(String),
    InvalidContentType(String),
    InvalidContentLength(String),
    ContentLengthTooLarge(u64),
    Decode,
}

/// The kind of a request fault, with what it carries.
pub enum HeaderFault {
    MissingContentType,
    InvalidContentType(Seq<char>),
    MissingContentLength,
    InvalidContentLength(Seq<char>),
    ContentLengthTooLarge(u64),
}

impl RequestError {
    pub open spec fn fault(&self) -> Option<HeaderFault> {
        match self {
            RequestError::MissingHeader(h) => if h@ == "Content-Type"@ {
                Some(HeaderFault::MissingContentType)
            } else if h@ == "Content-Length"@ {
                Some(HeaderFault::MissingContentLength)
            } else {
                None
            },
            RequestError::InvalidContentType(t) => Some(HeaderFault::InvalidContentType(t@)),
            RequestError::InvalidContentLength(t) => Some(HeaderFault::InvalidContentLength(t@)),
            RequestError::ContentLengthTooLarge(n) => Some(HeaderFault::ContentLengthTooLarge(*n)),
            RequestError::Decode => None,
        }
    }
}

pub open spec fn is_digit(c: char) -> bool {
    '0' <= c <= '9'
}

/// Value of a string of decimal digits.
pub open spec fn digits_value(s: Seq<char>) -> int
    decreases s.len(),
{
    if s.len() == 0 {
        0
    } else {
        digits_value(s.drop_last()) * 10 + (s.last() as int - '0' as int)
    }
}

/// `s` without one leading `+`.
pub open spec fn strip_plus(s: Seq<char>) -> Seq<char> {
    if s.len() > 0 && s[0] == '+' {
        s.subrange(1, s.len() as int)
    } else {
        s
    }
}

pub open spec fn all_digits(d: Seq<char>) -> bool {
    forall|k: int| 0 <= k < d.len() ==> is_digit(#[trigger] d[k])
}

/// What std's `u64::from_str` gives: an optional `+`, then one or more
/// decimal digits whose value fits.
pub open spec fn u64_text(s: Seq<char>) -> Option<u64> {
    let d = strip_plus(s);
    if d.len() == 0 || !all_digits(d) {
        None
    } else if digits_value(d) > u64::MAX {
        None
    } else {
        Some(digits_value(d) as u64)
    }
}

/// What the two framing headers say about a request.
pub open spec fn header_verdict(content_type: Option<Seq<char>>, content_length: Option<Seq<char>>) -> Result<u64, HeaderFault> {
    match content_type {
        None => Err(HeaderFault::MissingContentType),
        Some(t) => if t != "text/plain"@ {
            Err(HeaderFault::InvalidContentType(t))
        } else {
            match content_length {
                None => Err(HeaderFault::MissingContentLength),
                Some(l) => match u64_text(l) {
                    None => Err(HeaderFault::InvalidContentLength(l)),
                    Some(n) => if n > MAX_CONTENT_LENGTH {
                        Err(HeaderFault::ContentLengthTooLarge(n))
                    } else {
                        Ok(n)
                    },
                },
            }
        },
    }
}

proof fn lemma_digits_grow(s: Seq<char>, j: int)
    requires
        0 <= j <= s.len(),
        forall|k: int| 0 <= k < s.len() ==> is_digit(#[trigger] s[k]),
    ensures
        digits_value(s.subrange(0, j)) <= digits_value(s),
        digits_value(s.subrange(0, j)) >= 0,
    decreases s.len() - j,
{
    if j < s.len() {
        lemma_digits_grow(s, j + 1);
        let t = s.subrange(0, j + 1);
        assert(t.drop_last() =~= s.subrange(0, j));
    } else {
        assert(s.subrange(0, j) =~= s);
        lemma_digits_nonneg(s);
    }
}

proof fn lemma_digits_nonneg(s: Seq<char>)
    requires
        forall|k: int| 0 <= k < s.len() ==> is_digit(#[trigger] s[k]),
    ensures
        digits_value(s) >= 0,
    decreases s.len(),
{
    if s.len() > 0 {
        lemma_digits_nonneg(s.drop_last());
    }
}


/// Reads a decimal `u64` as std's `u64::from_str` does.
pub fn parse_u64(s: &str) -> (r: Option<u64>)
    ensures
        r == u64_text(s@),
{
    let v = chars_of(s);
    let start: usize = if v.len() > 0 && v[0] == '+' { 1 } else { 0 };
    let ghost d = strip_plus(s@);
    assert(d =~= v@.subrange(start as int, v@.len() as int));
    if start == v.len() {
        return None;
    }
    let mut i: usize = start;
    let mut acc: u64 = 0;
    let mut overflow = false;
    while i < v.len()
        invariant
            d == v@.subrange(start as int, v@.len() as int),
            v@ == s@,
            d == strip_plus(s@),
            start <= i <= v@.len(),
            forall|k: int| 0 <= k < i - start ==> is_digit(#[trigger] d[k]),
            !overflow ==> acc as int == digits_value(d.subrange(0, i - start)),
            overflow ==> digits_value(d.subrange(0, i - start)) > u64::MAX,
        decreases v@.len() - i,
    {
        let c = v[i];
        if c < '0' || c > '9' {
            assert(d[i - start] == v@[i as int]);
            assert(!is_digit(d[i - start]));
            return None;
        }
        proof {
            let t = d.subrange(0, i - start + 1);
            assert(t.drop_last() =~= d.subrange(0, i - start));
            assert(t.last() == c);
        }
        let digit = (c as u32 - '0' as u32) as u64;
        if !overflow {
            if acc > (u64::MAX - digit) / 10 {
                overflow = true;
            } else {
                acc = acc * 10 + digit;
            }
        }
        i = i + 1;
    }
    assert(d.subrange(0, d.len() as int) =~= d);
    if overflow {
        proof {
            lemma_digits_grow(d, d.len() as int);
        }
        None
    } else {
        Some(acc)
    }
}

fn str_eq(a: &str, b: &str) -> (r: bool)
    ensures
        r == (a@ == b@),
{
    let x = chars_of(a);
    let y = chars_of(b);
    if x.len() != y.len() {
        return false;
    }
    let mut i: usize = 0;
    while i < x.len()
        invariant
            x@.len() == y@.len(),
            x@ == a@,
            y@ == b@,
            i <= x@.len(),
            forall|k: int| 0 <= k < i ==> x@[k] == y@[k],
        decreases x@.len() - i,
    {
        if x[i] != y[i] {
            assert(x@[i as int] != y@[i as int]);
            return false;
        }
        i = i + 1;
    }
    assert(x@ =~= y@);
    true
}

/// Checks the framing headers: a `text/plain` body of a stated length no
/// larger than [`MAX_CONTENT_LENGTH`]. Gives that length, which bounds what
/// may then be read and decoded.
pub fn check_headers(content_type: Option<&str>, content_length: Option<&str>) -> (r: Result<u64, RequestError>)
    ensures
        match (r, header_verdict(
            match content_type { Some(t) => Some(t@), None => None },
            match content_length { Some(l) => Some(l@), None => None },
        )) {
            (Ok(a), Ok(b)) => a == b,
            (Err(e), Err(f)) => e.fault() == Some(f),
            _ => false,
        },
        r matches Ok(n) ==> n <= MAX_CONTENT_LENGTH,
{
    let t = match content_type {
        Some(t) => t,
        None => return Err(RequestError::MissingHeader("Content-Type".to_owned())),
    };
    if !str_eq(t, "text/plain") {
        return Err(RequestError::InvalidContentType(t.to_owned()));
    }
    let l = match content_length {
        Some(l) => l,
        None => {
            proof {
                reveal_strlit("Content-Length");
                reveal_strlit("Content-Type");
                assert("Content-Length"@[8] != "Content-Type"@[8]);
            }
            return Err(RequestError::MissingHeader("Content-Length".to_owned()));
        },
    };
    let n = match parse_u64(l) {
        Some(n) => n,
        None => return Err(RequestError::InvalidContentLength(l.to_owned())),
    };
    if n > MAX_CONTENT_LENGTH {
        return Err(RequestError::ContentLengthTooLarge(n));
    }
    Ok(n)
}

/// Reads the framing headers and checks them with [`check_headers`].
pub fn content_length<H: Headers>(headers: &H) -> (r: Result<u64, RequestError>)
    ensures
        r matches Ok(n) ==> n <= MAX_CONTENT_LENGTH,
{
    let content_type = headers.get_header("content-type");
    let content_length = headers.get_header("content-length");
    check_headers(content_type, content_length)
}

/// An original PSBT received from a sender, not yet checked.
pub struct UncheckedProposal {
    psbt: Psbt,
}

/// An original PSBT that passed every check.
pub struct Proposal {
    psbt: Psbt,
}

impl Proposal {
    pub closed spec fn psbt(&self) -> PartiallySignedTransaction {
        self.psbt@
    }

    pub fn get(&self) -> (r: &PartiallySignedTransaction)
        ensures
            *r == self.psbt(),
    {
        self.psbt.get()
    }
}

impl UncheckedProposal {
    pub closed spec fn psbt(&self) -> PartiallySignedTransaction {
        self.psbt@
    }

    /// Wraps a decoded PSBT from a request whose headers passed.
    pub fn from_psbt(psbt: Psbt) -> (r: UncheckedProposal)
        ensures
            r.psbt() == psbt@,
    {
        UncheckedProposal { psbt }
    }

    /// Runs the receiver's checks: the finalized transaction can be
    /// broadcast, then for each input in order, its funding output is known,
    /// not the receiver's own, and not seen before. Stops at the first failure.
    pub fn check<C: Checks>(self, checks: &mut C) -> (r: Result<Proposal, ChecksError>)
        ensures
            exists|tx: Transaction| #[trigger] is_extracted(self.psbt(), tx) && check_outcome(*old(checks), self.psbt(), tx, r),
    {
        let p = self.psbt.get();
        let tx = extract_tx(p);
        let ghost start = *old(checks);
        if checks.unbroacastable(&tx) {
            assert(is_extracted(self.psbt(), tx));
            assert(check_outcome(start, self.psbt(), tx, Err(ChecksError::TxUnbroadcastable)));
            return Err(ChecksError::TxUnbroadcastable);
        }
        let ghost mut added: Set<OutPoint> = Set::empty();
        let mut i: usize = 0;
        while i < p.inputs.len()
            invariant
                *p == self.psbt(),
                p.counts_match(),
                i <= p.inputs@.len(),
                is_extracted(*p, tx),
                !start.refuses_broadcast(tx),
                start == *old(checks),
                forall|x: OutPoint| #[trigger] checks.was_seen(x) == (start.was_seen(x) || seen_in(added, x)),
                forall|s: Vec<u8>| #[trigger] checks.is_owned(s) == start.is_owned(s),
                input_checks(start, *p, 0, Set::empty()) == input_checks(start, *p, i as int, added),
            decreases p.inputs@.len() - i,
        {
            let txin = &p.unsigned_tx.input[i];
            let prevout = match previous_txout(txin, &p.inputs[i]) {
                Ok(t) => t,
                Err(_) => {
                    assert(check_outcome(start, *p, tx, Err(ChecksError::MissingPrevout)));
                    return Err(ChecksError::MissingPrevout);
                },
            };
            if checks.owned(&prevout.script_pubkey) {
                assert(check_outcome(start, *p, tx, Err(ChecksError::TxinOwned)));
                return Err(ChecksError::TxinOwned);
            }
            let ghost key = txin.previous_output;
            let ghost before = *checks;
            if checks.already_seen(&txin.previous_output) {
                assert(check_outcome(start, *p, tx, Err(ChecksError::TxinAlreadySeen)));
                return Err(ChecksError::TxinAlreadySeen);
            }
            proof {
                let old_added = added;
                added = added.insert(key);
                assert forall|x: OutPoint| #[trigger] checks.was_seen(x) == (start.was_seen(x) || seen_in(added, x)) by {
                    if same_outpoint(x, key) {
                        assert(added.contains(key) && same_outpoint(key, x));
                    }
                    if seen_in(added, x) && !seen_in(old_added, x) {
                        let y = choose|y: OutPoint| added.contains(y) && same_outpoint(y, x);
                        assert(y == key);
                    }
                }
            }
            i = i + 1;
        }
        let r = Proposal { psbt: self.psbt };
        assert(check_outcome(start, self.psbt(), tx, Ok(r)));
        Ok(r)
    }
}

/// What the checks give on `p`, whose finalized transaction is `tx`, asking
/// the node `c`.
pub open spec fn check_outcome<C: Checks>(c: C, p: PartiallySignedTransaction, tx: Transaction, r: Result<Proposal, ChecksError>) -> bool {
    if c.refuses_broadcast(tx) {
        r == Err::<Proposal, ChecksError>(ChecksError::TxUnbroadcastable)
    } else {
        match r {
            Ok(q) => q.psbt() == p && input_checks(c, p, 0, Set::empty()) is Ok,
            Err(e) => input_checks(c, p, 0, Set::empty()) == Err::<(), ChecksError>(e),
        }
    }
}

/// Transaction that must be broadcast.
pub struct MustBroadcast(pub Transaction);

pub struct ReceiverOptions {
    /// Smallest output value worth creating, in satoshis.
    pub dust_limit: u64,
}

pub enum BumpFeePolicy {
    FailOnInsufficient,
    SubtractOurFeeOutput,
}

pub struct NewOutputOptions {
    pub set_as_fee_output: bool,
    pub subtract_fees_from_this: bool,
}

} // verus!
