use ergonames_utils::codec::decode_r4_name;
use ergonames_utils::types::{
    convert_initial_transaction_information_to_registration_information, ExecutorError,
    IniitalTransactionInformation,
};

fn id(prefix: &str) -> String {
    format!("{:0<64}", prefix)
}

#[test]
fn r4_decode_alice() {
    let payload = format!("0e0c{}", "616c6963652e6572676f");
    assert_eq!(decode_r4_name(&payload), Ok("alice.ergo".to_string()));
}

#[test]
fn r4_decode_any_tag_and_hex_case() {
    let name = "bob.erg";
    let payload = format!("ab12{}", hex::encode(name.as_bytes()));
    assert_eq!(decode_r4_name(&payload), Ok(name.to_string()));
    let upper = format!("0E0C{}", hex::encode_upper("zoë".as_bytes()));
    assert_eq!(decode_r4_name(&upper), Ok("zoë".to_string()));
}

#[test]
fn r4_decode_empty_name() {
    assert_eq!(decode_r4_name("0e00"), Ok(String::new()));
}

#[test]
fn r4_decode_rejects_short_payload() {
    assert_eq!(decode_r4_name("0e0"), Err(ExecutorError::DecodeError));
    assert_eq!(decode_r4_name(""), Err(ExecutorError::DecodeError));
}

#[test]
fn r4_decode_rejects_odd_length() {
    assert_eq!(decode_r4_name("0e0c616"), Err(ExecutorError::DecodeError));
}

#[test]
fn r4_decode_rejects_non_hex() {
    assert_eq!(decode_r4_name("0e0c6g"), Err(ExecutorError::DecodeError));
    assert_eq!(decode_r4_name("0e0cé1"), Err(ExecutorError::DecodeError));
}

#[test]
fn r4_decode_rejects_invalid_utf8() {
    assert_eq!(decode_r4_name("0e0cff61"), Err(ExecutorError::DecodeError));
}

#[test]
fn promote_initial_keeps_identifiers() {
    let info = IniitalTransactionInformation {
        transaction_id: id("a1"),
        box_id: id("b1"),
        spent_transaction_id: Some(id("c1")),
    };
    let reg = convert_initial_transaction_information_to_registration_information(info.clone());
    assert_eq!(reg.mint_transaction_id, info.transaction_id);
    assert_eq!(reg.mint_box_id, info.box_id);
    assert_eq!(reg.spend_transaction_id, info.spent_transaction_id);
    assert_eq!(reg.ergoname_registered, "");
    assert_eq!(reg.ergoname_token_id, "");
}

#[test]
fn promote_initial_without_spend() {
    let info = IniitalTransactionInformation {
        transaction_id: id("a2"),
        box_id: id("b2"),
        spent_transaction_id: None,
    };
    let reg = convert_initial_transaction_information_to_registration_information(info);
    assert_eq!(reg.spend_transaction_id, None);
    assert_eq!(reg.mint_box_id, id("b2"));
}
