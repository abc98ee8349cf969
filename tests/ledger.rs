use keygate_sdk::ledger::{balance_from_reply, balance_request, LedgerError};

#[test]
fn balance_request_is_candid_for_a_valid_wallet() {
    let request = balance_request("ryjl3-tyaaa-aaaaa-aaaba-cai").unwrap();
    assert_eq!(&request[..4], b"DIDL");
    assert_ne!(request, b"ryjl3-tyaaa-aaaaa-aaaba-cai".to_vec());
    assert_eq!(balance_request("ryjl3-tyaaa-aaaaa-aaaba-cai").unwrap(), request);
    assert_ne!(balance_request("aaaaa-aa").unwrap(), request);
}

#[test]
fn balance_request_refuses_a_malformed_wallet_id() {
    assert_eq!(balance_request(""), Err(LedgerError::InvalidWalletId));
    assert_eq!(balance_request("wallet-1"), Err(LedgerError::InvalidWalletId));
}

#[test]
fn balance_is_read_from_the_reply() {
    let reply = candid::encode_one(ic_ledger_types::Tokens::from_e8s(12_345)).unwrap();
    assert_eq!(balance_from_reply(&reply), Ok(12_345));
    let zero = candid::encode_one(ic_ledger_types::Tokens::from_e8s(0)).unwrap();
    assert_eq!(balance_from_reply(&zero), Ok(0));
}

#[test]
fn malformed_reply_is_refused() {
    assert_eq!(balance_from_reply(b"not candid"), Err(LedgerError::MalformedReply));
    let text = candid::encode_one("12345".to_string()).unwrap();
    assert_eq!(balance_from_reply(&text), Err(LedgerError::MalformedReply));
}
