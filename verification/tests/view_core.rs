use near_view_core::base64::base64_decode;
use near_view_core::base64::base64_to_text;
use near_view_core::decode::decode_ft_balance;
use near_view_core::decode::decode_ft_metadata;
use near_view_core::decode::decode_nft_general_metadata;
use near_view_core::decode::decode_nft_list;
use near_view_core::decode::decode_nft_supply;
use near_view_core::decode::decode_single_nft;
use near_view_core::error::DomainError;
use near_view_core::numeric::parse_u128_dec;
use near_view_core::numeric::parse_u32_dec;
use near_view_core::numeric::u128_to_dec;
use near_view_core::numeric::u32_to_dec;
use near_view_core::numeric::parse_u32_wire;
use near_view_core::numeric::u64_to_dec;
use near_view_core::numeric::U32Parse;
use near_view_core::outcome::classify_outcome;
use near_view_core::outcome::RpcOutcome;
use near_view_core::request::build_ft_balance_request;
use near_view_core::request::build_ft_metadata_request;
use near_view_core::request::build_nft_count_request;
use near_view_core::request::build_nft_list_request;
use near_view_core::request::build_nft_metadata_request;
use near_view_core::request::build_nft_token_request;
use near_view_core::request::build_view_call;
use near_view_core::text::str_contains;

#[test]
fn test_ft_balance() {
    let payload = b"\"17201878399999996928\"".to_vec();
    let balance = decode_ft_balance(&payload).unwrap();
    assert_eq!(17201878399999996928, balance);
}

#[test]
fn test_u128_round_trip() {
    for v in [0u128, 1, 9, 10, 4007, 17201878399999996928, u128::MAX] {
        let s = u128_to_dec(v);
        assert_eq!(parse_u128_dec(&s), Some(v));
        let quoted = format!("\"{}\"", s).into_bytes();
        assert_eq!(decode_ft_balance(&quoted).unwrap(), v);
    }
}

#[test]
fn test_u32_round_trip() {
    for v in [0u32, 7, 10, 999, u32::MAX] {
        let s = u32_to_dec(v);
        assert_eq!(parse_u32_dec(&s), Some(v));
        let quoted = format!("\"{}\"", s).into_bytes();
        assert_eq!(decode_nft_supply(&quoted).unwrap(), v);
    }
}

#[test]
fn test_decimal_parse_rejections() {
    assert_eq!(parse_u128_dec(""), None);
    assert_eq!(parse_u128_dec("+"), None);
    assert_eq!(parse_u128_dec("12a"), None);
    assert_eq!(parse_u128_dec("-1"), None);
    assert_eq!(parse_u128_dec(" 1"), None);
    // one more than the largest 128-bit value
    assert_eq!(parse_u128_dec("340282366920938463463374607431768211456"), None);
    assert_eq!(parse_u128_dec("+42"), Some(42));
    assert_eq!(parse_u128_dec("007"), Some(7));
    assert_eq!(parse_u32_dec("4294967295"), Some(u32::MAX));
    assert_eq!(parse_u32_dec("4294967296"), None);
}

#[test]
fn test_ft_balance_malformed_payloads() {
    // a JSON number, not the string wire form
    assert!(matches!(
        decode_ft_balance(&b"17201878399999996928".to_vec()),
        Err(DomainError::InternalError(_))
    ));
    assert!(matches!(
        decode_ft_balance(&b"\"not a number\"".to_vec()),
        Err(DomainError::InternalError(_))
    ));
    assert!(matches!(
        decode_ft_balance(&b"{not json".to_vec()),
        Err(DomainError::InternalError(_))
    ));
}

#[test]
fn test_nft_supply_error_message() {
    assert_eq!(decode_nft_supply(&b"\"4\"".to_vec()).unwrap(), 4);
    match decode_nft_supply(&b"\"many\"".to_vec()) {
        Err(DomainError::InternalError(m)) => {
            assert_eq!(m, "Failed to parse u32 invalid digit found in string")
        }
        other => panic!("expected an internal error, got {:?}", other.is_ok()),
    }
    // one more than the largest 32-bit value
    match decode_nft_supply(&b"\"4294967296\"".to_vec()) {
        Err(DomainError::InternalError(m)) => {
            assert_eq!(m, "Failed to parse u32 number too large to fit in target type")
        }
        other => panic!("expected an internal error, got {:?}", other.is_ok()),
    }
    match decode_nft_supply(&b"\"\"".to_vec()) {
        Err(DomainError::InternalError(m)) => {
            assert_eq!(m, "Failed to parse u32 cannot parse integer from empty string")
        }
        other => panic!("expected an internal error, got {:?}", other.is_ok()),
    }
    // the sign alone is a digit problem, not an empty input, as std reports it
    match decode_nft_supply(&b"\"+\"".to_vec()) {
        Err(DomainError::InternalError(m)) => {
            assert_eq!(m, "Failed to parse u32 invalid digit found in string")
        }
        other => panic!("expected an internal error, got {:?}", other.is_ok()),
    }
}

#[test]
fn test_u32_wire_reading_matches_std() {
    for s in ["", "+", "4", "+4", "007", "4294967295", "4294967296", "99999999999x", "1x1", "-1"] {
        let mine = match parse_u32_wire(s) {
            U32Parse::Value(v) => Ok(v),
            U32Parse::EmptyInput => Err("cannot parse integer from empty string"),
            U32Parse::InvalidDigit => Err("invalid digit found in string"),
            U32Parse::TooLarge => Err("number too large to fit in target type"),
        };
        let std_read = s.parse::<u32>().map_err(|e| e.to_string());
        assert_eq!(mine.map_err(|m| m.to_string()), std_read, "input {:?}", s);
    }
}

#[test]
fn test_nft_metadata_token_does_not_exist() {
    let payload = b"null".to_vec();
    match decode_single_nft(&payload, "no_such_token", "x.paras.near", 68000000) {
        Err(DomainError::InvalidInput(m)) => {
            assert!(m.contains("no_such_token"));
            assert!(m.contains("x.paras.near"));
            assert_eq!(
                m,
                "Token 'no_such_token' does not exist in contract 'x.paras.near', block_height 68000000"
            );
        }
        _ => panic!("expected InvalidInput"),
    }
}

#[test]
fn test_single_nft_record() {
    let payload = br#"{"token_id":"415815:1","owner_id":"olenavorobei.near","metadata":{"title":"Comic","media":"img.png","copies":7}}"#.to_vec();
    let token = decode_single_nft(&payload, "415815:1", "x.paras.near", 68000000).unwrap();
    assert_eq!(token.token_id, "415815:1");
    assert_eq!(token.owner_account_id, "olenavorobei.near");
    let meta = token.metadata.unwrap();
    assert_eq!(meta.title.as_deref(), Some("Comic"));
    assert_eq!(meta.description, None);
    assert_eq!(meta.media.as_deref(), Some("img.png"));
    assert_eq!(meta.copies, Some(7));
}

#[test]
fn test_single_nft_malformed_record() {
    // present but not a well-formed record: still owed an InternalError
    assert!(matches!(
        decode_single_nft(&b"{\"owner_id\":\"a.near\"}".to_vec(), "t", "c.near", 1),
        Err(DomainError::InternalError(_))
    ));
    assert!(matches!(
        decode_single_nft(&b"[]".to_vec(), "t", "c.near", 1),
        Err(DomainError::InternalError(_))
    ));
}

#[test]
fn test_classify_code_does_not_exist() {
    let outcome = RpcOutcome::ExecutionFailure {
        vm_error: "wasm execution failed with error: CompilationError(CodeDoesNotExist { account_id: AccountId(\"olga.near\") })".to_string(),
        message: "handler error".to_string(),
    };
    match classify_outcome(outcome, "olga.near", 68000000) {
        Err(DomainError::ContractNotFound { contract_id, block_height }) => {
            assert_eq!(contract_id, "olga.near");
            assert_eq!(block_height, 68000000);
        }
        _ => panic!("expected ContractNotFound"),
    }
}

#[test]
fn test_classify_method_not_found() {
    let outcome = RpcOutcome::ExecutionFailure {
        vm_error: "wasm execution failed with error: MethodResolveError(MethodNotFound)".to_string(),
        message: "handler error".to_string(),
    };
    match classify_outcome(outcome, "usn", 68000000) {
        Err(DomainError::ContractNotFound { contract_id, block_height }) => {
            assert_eq!(contract_id, "usn");
            assert_eq!(block_height, 68000000);
        }
        _ => panic!("expected ContractNotFound"),
    }
}

#[test]
fn test_classify_other_failures() {
    let outcome = RpcOutcome::ExecutionFailure {
        vm_error: "wasm execution failed with error: GasExceeded".to_string(),
        message: "the full handler message".to_string(),
    };
    match classify_outcome(outcome, "usn", 1) {
        Err(DomainError::RPCError(m)) => assert_eq!(m, "the full handler message"),
        _ => panic!("expected RPCError"),
    }
    match classify_outcome(RpcOutcome::OtherFailure { message: "timeout".to_string() }, "usn", 1) {
        Err(DomainError::RPCError(m)) => assert_eq!(m, "timeout"),
        _ => panic!("expected RPCError"),
    }
    match classify_outcome(RpcOutcome::OtherResponseKind, "usn", 1) {
        Err(DomainError::RPCError(m)) => {
            assert_eq!(m, "Unexpected type of the response after CallFunction request")
        }
        _ => panic!("expected RPCError"),
    }
}

#[test]
fn test_classify_call_result_passes_payload() {
    let outcome = RpcOutcome::CallResult { payload: b"\"0\"".to_vec() };
    assert_eq!(classify_outcome(outcome, "usn", 1).unwrap(), b"\"0\"".to_vec());
}

#[test]
fn test_nft_list() {
    let payload = br#"[
        {"token_id":"1","owner_id":"olenavorobei.near","metadata":{"title":"Bull 1"}},
        {"token_id":"2","owner_id":"olenavorobei.near","metadata":null},
        {"token_id":"3","owner_id":"olenavorobei.near"}
    ]"#
    .to_vec();
    let tokens = decode_nft_list(&payload).unwrap();
    assert_eq!(tokens.len(), 3);
    assert_eq!(tokens[0].token_id, "1");
    assert_eq!(tokens[0].metadata.as_ref().unwrap().title.as_deref(), Some("Bull 1"));
    assert_eq!(tokens[1].token_id, "2");
    assert!(tokens[1].metadata.is_none());
    assert_eq!(tokens[2].token_id, "3");
    assert!(tokens[2].metadata.is_none());
}

#[test]
fn test_nft_list_all_or_nothing() {
    // the second record is malformed: no partial sequence comes back
    let payload = br#"[
        {"token_id":"1","owner_id":"a.near"},
        {"token_id":2,"owner_id":"a.near"},
        {"token_id":"3","owner_id":"a.near"}
    ]"#
    .to_vec();
    assert!(matches!(decode_nft_list(&payload), Err(DomainError::InternalError(_))));
    assert!(matches!(
        decode_nft_list(&b"{\"not\":\"an array\"}".to_vec()),
        Err(DomainError::InternalError(_))
    ));
    let empty = decode_nft_list(&b"[]".to_vec()).unwrap();
    assert!(empty.is_empty());
}

#[test]
fn test_ft_metadata() {
    let payload = br#"{
        "spec":"ft-1.0.0",
        "name":"USN",
        "symbol":"USN",
        "icon":null,
        "decimals":18,
        "reference":"ref",
        "reference_hash":"aGVsbG8="
    }"#
    .to_vec();
    let md = decode_ft_metadata(&payload).unwrap();
    assert_eq!(md.spec_version, "ft-1.0.0");
    assert_eq!(md.name, "USN");
    assert_eq!(md.symbol, "USN");
    assert_eq!(md.icon, None);
    assert_eq!(md.decimals, 18);
    assert_eq!(md.reference.as_deref(), Some("ref"));
    assert_eq!(md.reference_hash.as_deref(), Some("hello"));
}

#[test]
fn test_ft_metadata_malformed() {
    // a required member is missing
    assert!(matches!(
        decode_ft_metadata(&br#"{"spec":"ft-1.0.0","symbol":"USN","decimals":18}"#.to_vec()),
        Err(DomainError::InternalError(_))
    ));
    // decimals does not fit in one byte
    assert!(matches!(
        decode_ft_metadata(
            &br#"{"spec":"s","name":"n","symbol":"y","decimals":256}"#.to_vec()
        ),
        Err(DomainError::InternalError(_))
    ));
    // the hash member is not base64
    assert!(matches!(
        decode_ft_metadata(
            &br#"{"spec":"s","name":"n","symbol":"y","decimals":0,"reference_hash":"!!"}"#
                .to_vec()
        ),
        Err(DomainError::InternalError(_))
    ));
}

#[test]
fn test_nft_general_metadata() {
    let payload = br#"{"spec":"nft-1.0.0","name":"Paras Comic","symbol":"COMIC","base_uri":"https://ipfs.fleek.co/ipfs"}"#.to_vec();
    let md = decode_nft_general_metadata(&payload).unwrap();
    assert_eq!(md.spec_version, "nft-1.0.0");
    assert_eq!(md.name, "Paras Comic");
    assert_eq!(md.symbol, "COMIC");
    assert_eq!(md.base_uri.as_deref(), Some("https://ipfs.fleek.co/ipfs"));
    assert_eq!(md.icon, None);
    assert_eq!(md.reference, None);
    assert_eq!(md.reference_hash, None);
}

#[test]
fn test_nft_general_metadata_malformed() {
    assert!(matches!(
        decode_nft_general_metadata(&br#"{"name":"x","symbol":"y"}"#.to_vec()),
        Err(DomainError::InternalError(_))
    ));
    assert!(matches!(
        decode_nft_general_metadata(&br#""just a string""#.to_vec()),
        Err(DomainError::InternalError(_))
    ));
}

#[test]
fn test_ft_balance_request() {
    let r = build_ft_balance_request("usn".to_string(), "cgarls.near", 68000000);
    assert_eq!(r.block_height, 68000000);
    assert_eq!(r.contract_id, "usn");
    assert_eq!(r.method_name, "ft_balance_of");
    assert_eq!(r.args, r#"{"account_id":"cgarls.near"}"#);
}

#[test]
fn test_request_escapes_arguments() {
    let r = build_nft_token_request("x.paras.near".to_string(), "odd\"id\\", 1);
    assert_eq!(r.method_name, "nft_token");
    assert_eq!(r.args, r#"{"token_id":"odd\"id\\"}"#);
    let r2 = build_nft_token_request("x.paras.near".to_string(), "tab\there", 1);
    assert_eq!(r2.args, "{\"token_id\":\"tab\\there\"}");
}

#[test]
fn test_nft_list_request_reads_from_start() {
    let r = build_nft_list_request("billionairebullsclub.near".to_string(), "olenavorobei.near", 68000000, 4);
    assert_eq!(r.method_name, "nft_tokens_for_owner");
    assert_eq!(
        r.args,
        r#"{"account_id":"olenavorobei.near","from_index":"0","limit":4}"#
    );
}

#[test]
fn test_metadata_requests() {
    let r = build_ft_metadata_request("usn".to_string(), 68000000);
    assert_eq!(r.method_name, "ft_metadata");
    assert_eq!(r.args, "{}");
    let r = build_nft_metadata_request("comic.paras.near".to_string(), 68000000);
    assert_eq!(r.method_name, "nft_metadata");
    assert_eq!(r.args, "{}");
    let r = build_nft_count_request("comic.paras.near".to_string(), "olga.near", 68000000);
    assert_eq!(r.method_name, "nft_supply_for_owner");
    assert_eq!(r.args, r#"{"account_id":"olga.near"}"#);
}

#[test]
fn test_base64() {
    assert_eq!(base64_decode("aGVsbG8=").unwrap(), b"hello".to_vec());
    assert_eq!(base64_decode("aGVsbG9z").unwrap(), b"hellos".to_vec());
    assert_eq!(base64_decode("QQ==").unwrap(), vec![65u8]);
    assert_eq!(base64_decode("").unwrap(), Vec::<u8>::new());
    assert_eq!(base64_decode("!!"), None);
    assert_eq!(base64_decode("abc"), None);
    // nonzero unused trailing bits are not canonical
    assert_eq!(base64_decode("QR=="), None);
    assert_eq!(base64_to_text("aGVsbG8=").unwrap(), "hello");
    // valid base64 of bytes that are not UTF-8
    assert_eq!(base64_to_text("/w=="), None);
}

#[test]
fn test_str_contains() {
    assert!(str_contains("wasm: CodeDoesNotExist at x", "CodeDoesNotExist"));
    assert!(!str_contains("codedoesnotexist", "CodeDoesNotExist"));
    assert!(str_contains("anything", ""));
    assert!(!str_contains("short", "much longer than the haystack"));
}

#[test]
fn test_u64_to_dec() {
    assert_eq!(u64_to_dec(0), "0");
    assert_eq!(u64_to_dec(68000000), "68000000");
    assert_eq!(u64_to_dec(u64::MAX), "18446744073709551615");
}

#[test]
fn test_build_view_call_keeps_its_parts() {
    let r = build_view_call(1, "c.near".to_string(), "ft_balance_of".to_string(), "{}".to_string());
    assert_eq!(r.block_height, 1);
    assert_eq!(r.contract_id, "c.near");
    assert_eq!(r.method_name, "ft_balance_of");
    assert_eq!(r.args, "{}");
}

#[test]
fn test_projection_from_parsed_document() {
    let doc: serde_json::Value =
        serde_json::from_slice(br#"{"spec":"ft-1.0.0","name":"USN","symbol":"USN","decimals":18}"#)
            .unwrap();
    let md = near_view_core::decode::ft_metadata_from_json(&doc).unwrap();
    assert_eq!(md.name, "USN");
    assert_eq!(md.decimals, 18);

    let tok: serde_json::Value =
        serde_json::from_slice(br#"{"token_id":"1","owner_id":"a.near"}"#).unwrap();
    let token = near_view_core::decode::token_from_json(&tok).unwrap();
    assert_eq!(token.token_id, "1");
    assert_eq!(token.owner_account_id, "a.near");
    let bad: serde_json::Value = serde_json::from_slice(br#"{"token_id":1}"#).unwrap();
    assert!(near_view_core::decode::token_from_json(&bad).is_none());
}
