use evm_rpc_compat::error::{err, internal_err, RpcError, INTERNAL_ERROR_CODE};
use evm_rpc_compat::text::{bytes_to_prefixed_hex, to_decimal, to_prefixed_hex};

#[test]
fn decimal_text_has_no_leading_zeros() {
    assert_eq!(to_decimal(0), "0");
    assert_eq!(to_decimal(7), "7");
    assert_eq!(to_decimal(10), "10");
    assert_eq!(to_decimal(1_234_567_890), "1234567890");
    assert_eq!(to_decimal(u64::MAX), "18446744073709551615");
    assert_eq!(to_decimal(u64::MAX), u64::MAX.to_string());
}

#[test]
fn hexadecimal_text_is_lower_case_after_its_prefix() {
    assert_eq!(to_prefixed_hex(0), "0x0");
    assert_eq!(to_prefixed_hex(9), "0x9");
    assert_eq!(to_prefixed_hex(10), "0xa");
    assert_eq!(to_prefixed_hex(255), "0xff");
    assert_eq!(to_prefixed_hex(256), "0x100");
    assert_eq!(to_prefixed_hex(0xdead_beef), "0xdeadbeef");
    assert_eq!(to_prefixed_hex(u64::MAX), format!("0x{:x}", u64::MAX));
}

#[test]
fn bytes_are_written_as_two_digits_each() {
    assert_eq!(bytes_to_prefixed_hex(&[]), "0x");
    assert_eq!(bytes_to_prefixed_hex(&[0x00]), "0x00");
    assert_eq!(bytes_to_prefixed_hex(&[0x0a, 0xf0, 0x7b]), "0x0af07b");
    assert_eq!(bytes_to_prefixed_hex(&[0xde, 0xad, 0xbe, 0xef]), "0xdeadbeef");
}

#[test]
fn an_error_carries_code_message_and_payload() {
    assert_eq!(
        err(-32000, "execution reverted", Some(&[0x08, 0xc3, 0x79, 0xa0])),
        RpcError {
            code: -32000,
            message: "execution reverted".to_string(),
            data: Some("0x08c379a0".to_string()),
        }
    );
    assert_eq!(
        err(7, "", Some(&[])),
        RpcError { code: 7, message: String::new(), data: Some("0x".to_string()) }
    );
    assert_eq!(
        err(7, "plain", None),
        RpcError { code: 7, message: "plain".to_string(), data: None }
    );
}

#[test]
fn an_internal_error_has_the_internal_code_and_no_payload() {
    assert_eq!(INTERNAL_ERROR_CODE, -32603);
    assert_eq!(
        internal_err("cannot access runtime api"),
        RpcError { code: -32603, message: "cannot access runtime api".to_string(), data: None }
    );
}
