//! BIP21 payment URIs carrying a PayJoin endpoint.

use vstd::prelude::*;
use crate::psbt::Psbt;
use crate::sender::{Context, CreateRequestError, Params, create_context};
use crate::url::{string_from_chars, push_str, chars_of};
use crate::receiver::{all_digits, digits_value};
use crate::psbt::{sanitized_from, prev_txout};
use crate::input_type::{InputType, InputTypeError, input_type_of};
use crate::sender::is_payee_output;
use crate::sender::{creation_error, fee_contribution_of, url_of};
use bitcoin::util::address::Error as AddressError;
use bitcoin::util::amount::ParseAmountError;

verus! {

#[verifier::external_type_specification]
#[verifier::external_body]
pub struct ExAddress(bitcoin::Address);

#[verifier::external_type_specification]
#[verifier::external_body]
pub struct ExAddressError(bitcoin::util::address::Error);

#[verifier::external_type_specification]
#[verifier::external_body]
pub struct ExParseAmountError(bitcoin::util::amount::ParseAmountError);

/// Whether `s` is an address that `bitcoin::Address`'s parser accepts.
pub uninterp spec fn address_parses(s: Seq<char>) -> bool;

/// `10` to the power `n`.
pub open spec fn pow10(n: nat) -> int
    decreases n,
{
    if n == 0 {
        1
    } else {
        10 * pow10((n - 1) as nat)
    }
}

/// The satoshis that `s` stands for as an amount in bitcoin: at most 50
/// characters, decimal digits with at most one `.` and at most 8 digits after
/// it, no sign, and a value of at most `i64::MAX` satoshis.
pub open spec fn btc_sats(s: Seq<char>) -> Option<u64> {
    let dot = find_from(s, '.', 0);
    let whole = match dot {
        Some(d) => s.subrange(0, d),
        None => s,
    };
    let frac = match dot {
        Some(d) => s.subrange(d + 1, s.len() as int),
        None => Seq::<char>::empty(),
    };
    if s.len() == 0 || s.len() > 50 || !all_digits(whole) || !all_digits(frac) || frac.len() > 8 {
        None
    } else {
        let v = digits_value(whole + frac) * pow10((8 - frac.len()) as nat);
        if v > i64::MAX {
            None
        } else {
            Some(v as u64)
        }
    }
}

/// The output script that pays the address written `s`.
pub uninterp spec fn address_script(s: Seq<char>) -> Seq<u8>;

/// Relies on `<bitcoin::Address as FromStr>::from_str`, whose success depends
/// on the text alone, and on `bitcoin::Address::script_pubkey` for the
/// address it gives: the output script that pays it, a function of the text.
#[verifier::external_body]
fn parse_address(s: &str) -> (r: Result<(bitcoin::Address, Vec<u8>), AddressError>)
    ensures
        r is Ok <==> address_parses(s@),
        r matches Ok((_, spk)) ==> spk@ == address_script(s@),
{
    s.parse::<bitcoin::Address>().map(|a| {
        let spk = a.script_pubkey().into_bytes();
        (a, spk)
    })
}

/// Relies on `bitcoin::Amount::from_str_in` in bitcoin denomination, which
/// reads the text as [`btc_sats`] says.
#[verifier::external_body]
fn parse_btc_amount(s: &str) -> (r: Result<u64, ParseAmountError>)
    ensures
        match r {
            Ok(v) => btc_sats(s@) == Some(v),
            Err(_) => btc_sats(s@) is None,
        },
{
    bitcoin::Amount::from_str_in(s, bitcoin::Denomination::Bitcoin).map(|a| a.as_sat())
}

/// A PayJoin payment request: where to pay, how much, and the receiver's
/// endpoint.
#[derive(Debug, PartialEq, Eq)]
pub struct Uri {
    pub address: bitcoin::Address,
    /// The output script that pays `address`.
    pub script_pubkey: Vec<u8>,
    /// Amount in satoshis.
    pub amount: u64,
    pub endpoint: String,
    pub disable_output_substitution: bool,
}

/// Faults of the BIP21 part of a URI.
#[derive(Debug, PartialEq, Eq)]
pub enum Bip21Error {
    Amount(ParseAmountError),
    DuplicateKey(String),
    BadSchema(String),
    Address(AddressError),
}

/// Faults of the PayJoin parameters of a URI.
#[derive(Debug, PartialEq, Eq)]
pub enum PjParseError {
    BadPjos(String),
    BadSchema(String),
    MissingAmount,
    MissingAmountAndEndpoint,
    MissingEndpoint,
}

#[derive(Debug, PartialEq, Eq)]
pub enum ParseUriError {
    PjNotPresent,
    Bip21(Bip21Error),
    PayJoin(PjParseError),
}

/// What a URI says, as plain values.
pub struct UriView {
    pub address: Seq<char>,
    pub amount: u64,
    pub endpoint: Seq<char>,
    pub disable_output_substitution: bool,
}

/// The kind of a parse fault, with the text it carries.
pub enum UriFault {
    BadSchema(Seq<char>),
    PjNotPresent,
    Address,
    Amount,
    DuplicateKey(Seq<char>),
    BadPjos(Seq<char>),
    PjBadSchema(Seq<char>),
    MissingAmount,
    MissingAmountAndEndpoint,
    MissingEndpoint,
}

impl ParseUriError {
    pub open spec fn fault(&self) -> UriFault {
        match self {
            ParseUriError::PjNotPresent => UriFault::PjNotPresent,
            ParseUriError::Bip21(Bip21Error::Amount(_)) => UriFault::Amount,
            ParseUriError::Bip21(Bip21Error::DuplicateKey(k)) => UriFault::DuplicateKey(k@),
            ParseUriError::Bip21(Bip21Error::BadSchema(s)) => UriFault::BadSchema(s@),
            ParseUriError::Bip21(Bip21Error::Address(_)) => UriFault::Address,
            ParseUriError::PayJoin(PjParseError::BadPjos(s)) => UriFault::BadPjos(s@),
            ParseUriError::PayJoin(PjParseError::BadSchema(s)) => UriFault::PjBadSchema(s@),
            ParseUriError::PayJoin(PjParseError::MissingAmount) => UriFault::MissingAmount,
            ParseUriError::PayJoin(PjParseError::MissingAmountAndEndpoint) => UriFault::MissingAmountAndEndpoint,
            ParseUriError::PayJoin(PjParseError::MissingEndpoint) => UriFault::MissingEndpoint,
        }
    }
}

pub open spec fn scheme_lower() -> Seq<char> {
    seq!['b', 'i', 't', 'c', 'o', 'i', 'n', ':']
}

pub open spec fn scheme_upper() -> Seq<char> {
    seq!['B', 'I', 'T', 'C', 'O', 'I', 'N', ':']
}

/// The text starts with `bitcoin:` in any mix of cases.
pub open spec fn has_scheme(s: Seq<char>) -> bool {
    s.len() >= 8 && forall|k: int| 0 <= k < 8 ==> #[trigger] s[k] == scheme_lower()[k] || s[k] == scheme_upper()[k]
}

/// Index of the first `c` in `s` at or after `from`.
pub open spec fn find_from(s: Seq<char>, c: char, from: int) -> Option<int>
    decreases s.len() - from,
{
    if from < 0 || from >= s.len() {
        None
    } else if s[from] == c {
        Some(from)
    } else {
        find_from(s, c, from + 1)
    }
}

/// The pieces of `s` between `&` separators.
pub open spec fn split_amp(s: Seq<char>) -> Seq<Seq<char>>
    decreases s.len(),
{
    match find_from(s, '&', 0) {
        None => seq![s],
        Some(k) => if 0 <= k < s.len() {
            seq![s.subrange(0, k)] + split_amp(s.subrange(k + 1, s.len() as int))
        } else {
            seq![s]
        },
    }
}

pub proof fn lemma_find_from_bounds(s: Seq<char>, c: char, from: int)
    ensures
        find_from(s, c, from) is Some ==> {
            let k = find_from(s, c, from)->Some_0;
            from <= k < s.len() && s[k] == c && forall|m: int| from <= m < k ==> s[m] != c
        },
        find_from(s, c, from) is None ==> forall|m: int| from <= m < s.len() && 0 <= from ==> s[m] != c,
    decreases s.len() - from,
{
    if 0 <= from < s.len() && s[from] != c {
        lemma_find_from_bounds(s, c, from + 1);
    }
}

pub open spec fn amount_key() -> Seq<char> {
    "amount="@
}

pub open spec fn pjos_key() -> Seq<char> {
    "pjos="@
}

pub open spec fn pj_key() -> Seq<char> {
    "pj="@
}

pub open spec fn starts_with(s: Seq<char>, prefix: Seq<char>) -> bool {
    s.len() >= prefix.len() && s.subrange(0, prefix.len() as int) == prefix
}

pub open spec fn after(s: Seq<char>, prefix: Seq<char>) -> Seq<char> {
    s.subrange(prefix.len() as int, s.len() as int)
}

/// What the query parameters seen so far gave.
pub struct QueryState {
    pub amount: Option<u64>,
    pub endpoint: Option<Seq<char>>,
    pub disable_pjos: Option<bool>,
}

/// Applies one `key=value` piece.
pub open spec fn apply_kv(kv: Seq<char>, st: QueryState) -> Result<QueryState, UriFault> {
    if starts_with(kv, amount_key()) {
        match btc_sats(after(kv, amount_key())) {
            None => Err(UriFault::Amount),
            Some(a) => if st.amount is Some {
                Err(UriFault::DuplicateKey(amount_key()))
            } else {
                Ok(QueryState { amount: Some(a), ..st })
            },
        }
    } else if starts_with(kv, pjos_key()) {
        let v = after(kv, pjos_key());
        if v != seq!['0'] && v != seq!['1'] {
            Err(UriFault::BadPjos(v))
        } else if st.disable_pjos is Some {
            Err(UriFault::DuplicateKey(pjos_key()))
        } else {
            Ok(QueryState { disable_pjos: Some(v == seq!['0']), ..st })
        }
    } else if starts_with(kv, pj_key()) {
        let v = after(kv, pj_key());
        if !starts_with(v, "https://"@) && !starts_with(v, "http://"@) {
            Err(UriFault::PjBadSchema(v))
        } else if st.endpoint is Some {
            Err(UriFault::DuplicateKey(pj_key()))
        } else {
            Ok(QueryState { endpoint: Some(v), ..st })
        }
    } else {
        Ok(st)
    }
}

/// Applies the pieces from `k` on.
pub open spec fn apply_kvs(kvs: Seq<Seq<char>>, k: int, st: QueryState) -> Result<QueryState, UriFault>
    decreases kvs.len() - k,
{
    if k < 0 || k >= kvs.len() {
        Ok(st)
    } else {
        match apply_kv(kvs[k], st) {
            Err(e) => Err(e),
            Ok(st2) => apply_kvs(kvs, k + 1, st2),
        }
    }
}

/// What parsing `s` gives.
pub open spec fn parse_uri(s: Seq<char>) -> Result<UriView, UriFault> {
    if !has_scheme(s) {
        Err(UriFault::BadSchema(s))
    } else {
        let rest = s.subrange(8, s.len() as int);
        match find_from(rest, '?', 0) {
            None => Err(UriFault::PjNotPresent),
            Some(q) => {
                let address = rest.subrange(0, q);
                if !address_parses(address) {
                    Err(UriFault::Address)
                } else {
                    let st0 = QueryState { amount: None, endpoint: None, disable_pjos: None };
                    match apply_kvs(split_amp(rest.subrange(q + 1, rest.len() as int)), 0, st0) {
                        Err(e) => Err(e),
                        Ok(st) => match (st.amount, st.endpoint, st.disable_pjos) {
                            (_, None, None) => Err(UriFault::PjNotPresent),
                            (Some(amount), Some(endpoint), d) => Ok(UriView {
                                address,
                                amount,
                                endpoint,
                                disable_output_substitution: d == Some(true),
                            }),
                            (None, Some(_), _) => Err(UriFault::MissingAmount),
                            (None, None, Some(_)) => Err(UriFault::MissingAmountAndEndpoint),
                            (Some(_), None, Some(_)) => Err(UriFault::MissingEndpoint),
                        },
                    }
                }
            },
        }
    }
}


/// A copy of `v[from..to]`.
fn slice_chars(v: &Vec<char>, from: usize, to: usize) -> (r: Vec<char>)
    requires
        from <= to <= v@.len(),
    ensures
        r@ == v@.subrange(from as int, to as int),
{
    let mut r: Vec<char> = Vec::new();
    let mut i: usize = from;
    while i < to
        invariant
            from <= i <= to <= v@.len(),
            r@ == v@.subrange(from as int, i as int),
        decreases to - i,
    {
        r.push(v[i]);
        i = i + 1;
    }
    r
}

fn find_char(v: &Vec<char>, c: char, from: usize) -> (r: Option<usize>)
    ensures
        match (r, find_from(v@, c, from as int)) {
            (Some(a), Some(b)) => a == b,
            (None, None) => true,
            _ => false,
        },
{
    let mut i: usize = from;
    while i < v.len()
        invariant
            from <= i,
            find_from(v@, c, from as int) == find_from(v@, c, i as int),
        decreases v@.len() - i,
    {
        if v[i] == c {
            return Some(i);
        }
        i = i + 1;
    }
    None
}

fn has_prefix(v: &Vec<char>, prefix: &str) -> (r: bool)
    ensures
        r == starts_with(v@, prefix@),
{
    let p = chars_of(prefix);
    if v.len() < p.len() {
        return false;
    }
    let mut i: usize = 0;
    while i < p.len()
        invariant
            p@ == prefix@,
            p@.len() <= v@.len(),
            i <= p@.len(),
            forall|k: int| 0 <= k < i ==> v@[k] == p@[k],
        decreases p@.len() - i,
    {
        if v[i] != p[i] {
            assert(v@.subrange(0, p@.len() as int)[i as int] != p@[i as int]);
            return false;
        }
        i = i + 1;
    }
    assert(v@.subrange(0, p@.len() as int) =~= p@);
    true
}

/// The characters after `prefix`, when `v` starts with it.
fn strip_prefix(v: &Vec<char>, prefix: &str) -> (r: Option<Vec<char>>)
    ensures
        match r {
            Some(t) => starts_with(v@, prefix@) && t@ == after(v@, prefix@),
            None => !starts_with(v@, prefix@),
        },
{
    if has_prefix(v, prefix) {
        let n = prefix.unicode_len();
        Some(slice_chars(v, n, v.len()))
    } else {
        None
    }
}

fn scheme_chars(k: usize) -> (r: (char, char))
    requires
        k < 8,
    ensures
        r.0 == scheme_lower()[k as int],
        r.1 == scheme_upper()[k as int],
{
    match k {
        0 => ('b', 'B'),
        1 => ('i', 'I'),
        2 => ('t', 'T'),
        3 => ('c', 'C'),
        4 => ('o', 'O'),
        5 => ('i', 'I'),
        6 => ('n', 'N'),
        _ => (':', ':'),
    }
}

fn check_scheme(v: &Vec<char>) -> (r: bool)
    ensures
        r == has_scheme(v@),
{
    if v.len() < 8 {
        return false;
    }
    let mut k: usize = 0;
    while k < 8
        invariant
            v@.len() >= 8,
            k <= 8,
            forall|m: int| 0 <= m < k ==> #[trigger] v@[m] == scheme_lower()[m] || v@[m] == scheme_upper()[m],
        decreases 8 - k,
    {
        let (lo, up) = scheme_chars(k);
        if v[k] != lo && v[k] != up {
            return false;
        }
        k = k + 1;
    }
    true
}

/// The pieces of `s` between `&` separators.
fn split_pieces(s: &Vec<char>) -> (r: Vec<Vec<char>>)
    ensures
        r@.len() == split_amp(s@).len(),
        forall|k: int| 0 <= k < r@.len() ==> (#[trigger] r@[k])@ == split_amp(s@)[k],
    decreases s@.len(),
{
    match find_char(s, '&', 0) {
        None => {
            let whole = slice_chars(s, 0, s.len());
            assert(whole@ =~= s@);
            vec![whole]
        },
        Some(k) => {
            proof {
                lemma_find_from_bounds(s@, '&', 0);
            }
            let n = s.len();
            assert(k < n);
            let head = slice_chars(s, 0, k);
            let tail = slice_chars(s, k + 1, n);
            let mut rest = split_pieces(&tail);
            let ghost rest0 = rest@;
            let mut r: Vec<Vec<char>> = vec![head];
            r.append(&mut rest);
            proof {
                let expect = seq![s@.subrange(0, k as int)] + split_amp(s@.subrange(k + 1, s@.len() as int));
                assert(split_amp(s@) == expect);
                assert forall|m: int| 0 <= m < r@.len() implies (#[trigger] r@[m])@ == split_amp(s@)[m] by {
                    if m > 0 {
                        assert(r@[m] == rest0[m - 1]);
                    }
                }
            }
            r
        },
    }
}

/// What the query parameters seen so far gave.
struct QueryFields {
    amount: Option<u64>,
    endpoint: Option<Vec<char>>,
    disable_pjos: Option<bool>,
}

impl QueryFields {
    spec fn view(&self) -> QueryState {
        QueryState {
            amount: self.amount,
            endpoint: match self.endpoint {
                Some(e) => Some(e@),
                None => None,
            },
            disable_pjos: self.disable_pjos,
        }
    }
}

fn apply_piece(kv: &Vec<char>, st: &mut QueryFields) -> (r: Result<(), ParseUriError>)
    ensures
        match (r, apply_kv(kv@, old(st).view())) {
            (Ok(()), Ok(s2)) => final(st).view() == s2,
            (Err(e), Err(f)) => e.fault() == f,
            _ => false,
        },
{
    match strip_prefix(kv, "amount=") {
        Some(value) => {
            let text = string_from_chars(&value);
            let amount = match parse_btc_amount(text.as_str()) {
                Ok(a) => a,
                Err(e) => return Err(ParseUriError::Bip21(Bip21Error::Amount(e))),
            };
            if st.amount.is_some() {
                return Err(ParseUriError::Bip21(Bip21Error::DuplicateKey("amount=".to_owned())));
            }
            st.amount = Some(amount);
            return Ok(());
        },
        None => {},
    }
    match strip_prefix(kv, "pjos=") {
        Some(v) => {
            let is_zero = v.len() == 1 && v[0] == '0';
            let is_one = v.len() == 1 && v[0] == '1';
            assert(is_zero == (v@ == seq!['0'])) by {
                if v@ == seq!['0'] {
                    assert(v@[0] == '0');
                }
                if is_zero {
                    assert(v@ =~= seq!['0']);
                }
            }
            assert(is_one == (v@ == seq!['1'])) by {
                if v@ == seq!['1'] {
                    assert(v@[0] == '1');
                }
                if is_one {
                    assert(v@ =~= seq!['1']);
                }
            }
            if !is_zero && !is_one {
                return Err(ParseUriError::PayJoin(PjParseError::BadPjos(string_from_chars(&v))));
            }
            if st.disable_pjos.is_some() {
                return Err(ParseUriError::Bip21(Bip21Error::DuplicateKey("pjos=".to_owned())));
            }
            st.disable_pjos = Some(is_zero);
            return Ok(());
        },
        None => {},
    }
    match strip_prefix(kv, "pj=") {
        Some(v) => {
            if !has_prefix(&v, "https://") && !has_prefix(&v, "http://") {
                return Err(ParseUriError::PayJoin(PjParseError::BadSchema(string_from_chars(&v))));
            }
            if st.endpoint.is_some() {
                return Err(ParseUriError::Bip21(Bip21Error::DuplicateKey("pj=".to_owned())));
            }
            st.endpoint = Some(v);
            Ok(())
        },
        None => Ok(()),
    }
}

impl Uri {
    /// Parses a `bitcoin:` URI with its PayJoin parameters.
    pub fn try_from(s: &str) -> (r: Result<Uri, ParseUriError>)
        ensures
            match r {
                Ok(u) => parse_uri(s@) is Ok && {
                    let v = parse_uri(s@)->Ok_0;
                    &&& u.script_pubkey@ == address_script(v.address)
                    &&& u.amount == v.amount
                    &&& u.endpoint@ == v.endpoint
                    &&& u.disable_output_substitution == v.disable_output_substitution
                },
                Err(e) => parse_uri(s@) == Err::<UriView, UriFault>(e.fault()),
            },
    {
        let chars = chars_of(s);
        if !check_scheme(&chars) {
            return Err(ParseUriError::Bip21(Bip21Error::BadSchema(s.to_owned())));
        }
        let rest = slice_chars(&chars, 8, chars.len());
        let q = match find_char(&rest, '?', 0) {
            Some(q) => q,
            None => return Err(ParseUriError::PjNotPresent),
        };
        proof {
            lemma_find_from_bounds(rest@, '?', 0);
        }
        let address_text = string_from_chars(&slice_chars(&rest, 0, q));
        let (address, script_pubkey) = match parse_address(address_text.as_str()) {
            Ok(a) => a,
            Err(e) => return Err(ParseUriError::Bip21(Bip21Error::Address(e))),
        };
        let query = slice_chars(&rest, q + 1, rest.len());
        let pieces = split_pieces(&query);
        let mut st = QueryFields { amount: None, endpoint: None, disable_pjos: None };
        let ghost kvs = split_amp(query@);
        let ghost st0 = st.view();
        let mut k: usize = 0;
        while k < pieces.len()
            invariant
                pieces@.len() == kvs.len(),
                forall|m: int| 0 <= m < pieces@.len() ==> (#[trigger] pieces@[m])@ == kvs[m],
                k <= pieces@.len(),
                apply_kvs(kvs, 0, st0) == apply_kvs(kvs, k as int, st.view()),
                has_scheme(s@),
                rest@ == s@.subrange(8, s@.len() as int),
                find_from(rest@, '?', 0) == Some(q as int),
                q < rest@.len(),
                address_parses(rest@.subrange(0, q as int)),
                query@ == rest@.subrange(q + 1, rest@.len() as int),
                kvs == split_amp(query@),
                st0 == (QueryState { amount: None, endpoint: None, disable_pjos: None }),
            decreases pieces@.len() - k,
        {
            let ghost before = st.view();
            match apply_piece(&pieces[k], &mut st) {
                Ok(()) => {},
                Err(e) => {
                    assert(apply_kvs(kvs, k as int, before) == Err::<QueryState, UriFault>(e.fault()));
                    return Err(e);
                },
            }
            k = k + 1;
        }
        match (st.amount, st.endpoint, st.disable_pjos) {
            (_, None, None) => Err(ParseUriError::PjNotPresent),
            (Some(amount), Some(endpoint), disable_pjos) => Ok(Uri {
                address,
                script_pubkey,
                amount,
                endpoint: string_from_chars(&endpoint),
                disable_output_substitution: match disable_pjos {
                    Some(d) => d,
                    None => false,
                },
            }),
            (None, Some(_), _) => Err(ParseUriError::PayJoin(PjParseError::MissingAmount)),
            (None, None, Some(_)) => Err(ParseUriError::PayJoin(PjParseError::MissingAmountAndEndpoint)),
            (Some(_), None, Some(_)) => Err(ParseUriError::PayJoin(PjParseError::MissingEndpoint)),
        }
    }
}

impl Uri {
    pub fn address(&self) -> (r: &bitcoin::Address)
        ensures
            *r == self.address,
    {
        &self.address
    }

    /// Amount to pay, in satoshis.
    pub fn amount(&self) -> (r: u64)
        ensures
            r == self.amount,
    {
        self.amount
    }

    pub fn is_output_substitution_disabled(&self) -> (r: bool)
        ensures
            r == self.disable_output_substitution,
    {
        self.disable_output_substitution
    }

    /// The same URI; it owns all its text already.
    pub fn into_static(self) -> (r: Uri)
        ensures
            r == self,
    {
        self
    }

    /// Builds the request URL and the validation context for paying this
    /// URI with `psbt`: the payee is the address's output script.
    pub fn create_request(self, psbt: Psbt, params: Params) -> (r: Result<(String, Context), CreateRequestError>)
        ensures
            match r {
                Err(e) => creation_error(psbt@, self.script_pubkey@, self.amount, params) == Some(e),
                Ok((url, ctx)) => {
                    let p = psbt@;
                    let fee = fee_contribution_of(p.unsigned_tx.output@, self.script_pubkey@, params)->Ok_0;
                    let disable = self.disable_output_substitution || params.disable_output_substitution;
                    &&& creation_error(p, self.script_pubkey@, self.amount, params) is None
                    &&& sanitized_from(p, ctx.original())
                    &&& ctx.payee@ == self.script_pubkey@
                    &&& ctx.disable_output_substitution == disable
                    &&& ctx.fee_contribution == fee
                    &&& ctx.sequence == p.unsigned_tx.input@[0].sequence
                    &&& Ok::<InputType, InputTypeError>(ctx.input_type) == input_type_of(
                        prev_txout(p.unsigned_tx.input@[0], p.inputs@[0])->Ok_0,
                        p.inputs@[0],
                    )
                    &&& url@ == url_of(self.endpoint@, disable, fee)
                    &&& ctx.fee_contribution matches Some((_, index)) ==> index < p.unsigned_tx.output@.len()
                        && ctx.original().unsigned_tx.output@[index as int].script_pubkey@ != self.script_pubkey@
                    &&& ctx.wf()
                    &&& exists|k: int| is_payee_output(ctx, k) && ctx.original().unsigned_tx.output@[k].value == self.amount
                },
            },
    {
        create_context(
            psbt,
            self.script_pubkey,
            self.amount,
            self.endpoint.as_str(),
            self.disable_output_substitution,
            &params,
        )
    }
}

impl std::str::FromStr for Uri {
    type Err = ParseUriError;

    fn from_str(s: &str) -> Result<Uri, ParseUriError> {
        Uri::try_from(s)
    }
}

} // verus!
