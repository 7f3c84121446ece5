use bip78::{Bip21Error, ParseUriError, PjParseError, Uri};
use bitcoin::util::address;
use bitcoin::util::amount::ParseAmountError;
use bitcoin::util::base58;
use std::str::FromStr;

#[test]
fn test_empty() {
    assert!(Uri::from_str("").is_err());
    assert!(Uri::from_str("bitcoin").is_err());
    assert!(Uri::from_str("bitcoin:").is_err());
}

#[test]
fn test_valid() {
    for pj in ["https://example.com", "http://example.com", "http://vjdpwgybvubne5hda6v4c5iaeeevhge6jvo3w2cl6eocbwwvwxp7b7qd.onion"].iter() {
        let pj = format!("bitcoin:12c6DSiU4Rq3P4ZxziKxzrL5LmMBrzjrJX?amount=20.3&pj={}", pj);
        assert!(pj.parse::<Uri>().is_ok());
    }

    assert!("bitcoin:TB1Q6D3A2W975YNY0ASUVD9A67NER4NKS58FF0Q8G4?amount=0.0001&pj=https://testnet.demo.btcpayserver.org/BTC/pj".parse::<Uri>().is_ok());

    assert!(Uri::from_str("bitcoin:TB1Q6D3A2W975YNY0ASUVD9A67NER4NKS58FF0Q8G4?amount=1&pj=http://a").is_ok());
}

#[test]
fn test_errors() {
    assert_eq!(
        Uri::from_str("bitcoin:175tWpb8K1S7NmH4Zx6rewF9WQrcZv245W"),
        Err::<Uri, ParseUriError>(ParseUriError::PjNotPresent)
    );

    assert_eq!(
        Uri::from_str("bitcoinz:175tWpb8K1S7NmH4Zx6rewF9WQrcZv245W"),
        Err::<Uri, ParseUriError>(ParseUriError::Bip21(Bip21Error::BadSchema(
            "bitcoinz:175tWpb8K1S7NmH4Zx6rewF9WQrcZv245W".to_string()
        )))
    );

    assert_eq!(
        Uri::from_str("bitcoin:175tWpb8K1S7NmH4Zx6rewF9WQrcZv245W?amount=20.3&label=Luke-Jr"),
        Err::<Uri, ParseUriError>(ParseUriError::Bip21(Bip21Error::Address(address::Error::Base58(
            base58::Error::BadChecksum(291609738, 694262922)
        ))))
    );

    assert_eq!(
        Uri::from_str("bitcoin:TB1Q6D3A2W975YNY0ASUVD9A67NER4NKS58FF0Q8G4?pj=https://testnet.demo.btcpayserver.org/BTC/pj"),
        Err::<Uri, ParseUriError>(ParseUriError::PayJoin(PjParseError::MissingAmount))
    );

    assert_eq!(
        Uri::from_str("bitcoin:TB1Q6D3A2W975YNY0ASUVD9A67NER4NKS58FF0Q8G4?pj=https://testnet.demo.btcpayserver.org/BTC/pj&amount="),
        Err::<Uri, ParseUriError>(ParseUriError::Bip21(Bip21Error::Amount(ParseAmountError::InvalidFormat)))
    );

    assert_eq!(
        Uri::from_str("bitcoin:TB1Q6D3A2W975YNY0ASUVD9A67NER4NKS58FF0Q8G4?pj=https://testnet.demo.btcpayserver.org/BTC/pj&amount=1BTC"),
        Err::<Uri, ParseUriError>(ParseUriError::Bip21(Bip21Error::Amount(ParseAmountError::InvalidCharacter('B'))))
    );

    assert_eq!(
        Uri::from_str("bitcoin:TB1Q6D3A2W975YNY0ASUVD9A67NER4NKS58FF0Q8G4?pj=https://testnet.demo.btcpayserver.org/BTC/pj&amount=999999999999999999999"),
        Err::<Uri, ParseUriError>(ParseUriError::Bip21(Bip21Error::Amount(ParseAmountError::TooBig)))
    );
}

#[test]
fn uri_round_trip() {
    let uri = Uri::from_str("bitcoin:12c6DSiU4Rq3P4ZxziKxzrL5LmMBrzjrJX?amount=20.3&pj=https://example.com").unwrap();
    assert_eq!(uri.address().to_string(), "12c6DSiU4Rq3P4ZxziKxzrL5LmMBrzjrJX");
    assert_eq!(uri.amount(), 2_030_000_000);
    let expected = bitcoin::Address::from_str("12c6DSiU4Rq3P4ZxziKxzrL5LmMBrzjrJX").unwrap().script_pubkey().to_bytes();
    assert_eq!(uri.script_pubkey, expected);
    assert_eq!(&uri.script_pubkey[..3], &[0x76, 0xa9, 0x14]);
    assert_eq!(uri.endpoint, "https://example.com");
    assert!(!uri.is_output_substitution_disabled());
}

#[test]
fn scheme_is_case_insensitive_and_pjos_parsed() {
    let uri = Uri::from_str("BitCoin:12c6DSiU4Rq3P4ZxziKxzrL5LmMBrzjrJX?pjos=0&amount=1&pj=http://a").unwrap();
    assert!(uri.is_output_substitution_disabled());
    assert_eq!(uri.amount(), 100_000_000);
    let uri = Uri::from_str("bitcoin:12c6DSiU4Rq3P4ZxziKxzrL5LmMBrzjrJX?pjos=1&amount=1&pj=http://a").unwrap();
    assert!(!uri.is_output_substitution_disabled());
}

#[test]
fn uri_parameter_errors() {
    let base = "bitcoin:12c6DSiU4Rq3P4ZxziKxzrL5LmMBrzjrJX?";
    let parse = |q: &str| Uri::from_str(&format!("{}{}", base, q));
    assert_eq!(parse("pjos=2"), Err(ParseUriError::PayJoin(PjParseError::BadPjos("2".to_string()))));
    assert_eq!(parse("pj=ftp://a"), Err(ParseUriError::PayJoin(PjParseError::BadSchema("ftp://a".to_string()))));
    assert_eq!(
        parse("amount=1&amount=2&pj=http://a"),
        Err(ParseUriError::Bip21(Bip21Error::DuplicateKey("amount=".to_string())))
    );
    assert_eq!(parse("pj=http://a&pj=http://b"), Err(ParseUriError::Bip21(Bip21Error::DuplicateKey("pj=".to_string()))));
    assert_eq!(parse("pjos=0"), Err(ParseUriError::PayJoin(PjParseError::MissingAmountAndEndpoint)));
    assert_eq!(parse("amount=1&pjos=0"), Err(ParseUriError::PayJoin(PjParseError::MissingEndpoint)));
    assert_eq!(parse("amount=1"), Err(ParseUriError::PjNotPresent));
}
