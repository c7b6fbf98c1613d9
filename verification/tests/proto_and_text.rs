use headstash::circuitboard::validate_ethereum_text;
use headstash::glob::{add_glob, instantiate, manifest_wasm_blob, Glob, InstantiateMsg};
use headstash::msg::StdError;
use headstash::msg::Coin;
use headstash::proto::{
    bank_send_value, execute_contract_value, grant_allowance_value, instantiate_contract_value, store_code_value,
};
use headstash::circuitboard::compute_plaintext_msg;
use headstash::text::{parse_u64_decimal, str_contains, str_equal, u128_to_decimal, u64_to_decimal};

fn varint(mut n: u64) -> Vec<u8> {
    let mut out = vec![];
    loop {
        let b = (n & 0x7f) as u8;
        n >>= 7;
        if n != 0 {
            out.push(b | 0x80);
        } else {
            out.push(b);
            return out;
        }
    }
}

fn field(num: u64, data: &[u8]) -> Vec<u8> {
    if data.is_empty() {
        return vec![];
    }
    let mut out = varint(num * 8 + 2);
    out.extend(varint(data.len() as u64));
    out.extend_from_slice(data);
    out
}

#[test]
fn store_code_body_layout() {
    let v = store_code_value("ab", &[1, 2, 3]);
    assert_eq!(v, vec![0x0a, 2, b'a', b'b', 0x12, 3, 1, 2, 3]);
}

#[test]
fn store_code_body_omits_empty_fields() {
    assert_eq!(store_code_value("", &[9]), vec![0x12, 1, 9]);
    assert_eq!(store_code_value("s", &[]), vec![0x0a, 1, b's']);
}

#[test]
fn instantiate_contract_body_layout() {
    let v = instantiate_contract_value("snd", "hash", 300, "lbl", b"{}");
    let mut expected = field(1, b"snd");
    expected.extend(field(2, b"hash"));
    expected.push(3 << 3);
    expected.extend([172, 2]);
    expected.extend(field(4, b"lbl"));
    expected.extend(field(5, b"{}"));
    expected.extend(field(8, b"hash"));
    assert_eq!(v, expected);
}

#[test]
fn instantiate_contract_body_omits_zero_code_id() {
    let v = instantiate_contract_value("s", "", 0, "", b"");
    assert_eq!(v, field(1, b"s"));
}

#[test]
fn execute_contract_body_layout() {
    let v = execute_contract_value("a", "b", b"{\"x\":1}");
    let mut expected = field(1, b"a");
    expected.extend(field(2, b"b"));
    expected.extend(field(3, b"{\"x\":1}"));
    assert_eq!(v, expected);
}

fn record(num: u64, data: &[u8]) -> Vec<u8> {
    let mut out = varint(num * 8 + 2);
    out.extend(varint(data.len() as u64));
    out.extend_from_slice(data);
    out
}

#[test]
fn grant_allowance_body_layout() {
    let v = grant_allowance_value("granter", "grantee");
    let mut coin = field(1, b"uscrt");
    coin.extend(field(2, b"1"));
    let basic = record(1, &coin);
    let mut basic_any = field(1, b"/cosmos.feegrant.v1beta1.BasicAllowance");
    basic_any.extend(field(2, &basic));
    let mut allowed = field(1, &basic_any);
    allowed.extend(field(2, b"/secret.compute.v1beta1.MsgExecuteContract"));
    let mut allowance = field(1, b"/cosmos.feegrant.v1beta1.AllowedMsgAllowance");
    allowance.extend(field(2, &allowed));
    let mut expected = field(1, b"granter");
    expected.extend(field(2, b"grantee"));
    expected.extend(field(3, &allowance));
    assert_eq!(v, expected);
}

#[test]
fn bank_send_body_layout() {
    let coins = vec![
        Coin { denom: "uterp".to_string(), amount: 1500 },
        Coin { denom: "uthiol".to_string(), amount: u128::MAX },
    ];
    let v = bank_send_value("ica", "dst", &coins);
    let mut expected = field(1, b"ica");
    expected.extend(field(2, b"dst"));
    let mut c1 = field(1, b"uterp");
    c1.extend(field(2, b"1500"));
    expected.extend(record(3, &c1));
    let mut c2 = field(1, b"uthiol");
    c2.extend(field(2, b"340282366920938463463374607431768211455"));
    expected.extend(record(3, &c2));
    assert_eq!(v, expected);
    assert_eq!(bank_send_value("a", "b", &vec![]), {
        let mut e = field(1, b"a");
        e.extend(field(2, b"b"));
        e
    });
}

fn ica_id_attribute(id: u64) -> String {
    let mut store = instantiate(InstantiateMsg { owner: "owner".to_string() });
    add_glob(&mut store, "owner".to_string(), vec![Glob { key: "snip120u".to_string(), blob: vec![2] }]).unwrap();
    let res = manifest_wasm_blob(&store, "owner".to_string(), "ica".to_string(), "snip120u".to_string(), id).unwrap();
    res.events[0].attributes[3].value.clone()
}

#[test]
fn decimal_rendering() {
    assert_eq!(ica_id_attribute(0), "0");
    assert_eq!(ica_id_attribute(1234567890), "1234567890");
    assert_eq!(ica_id_attribute(u64::MAX), "18446744073709551615");
}

#[test]
fn hex_decoding() {
    let decode = |sig: &str| validate_ethereum_text(&"me".to_string(), &"t".to_string(), &sig.to_string(), "d");
    assert_eq!(decode("00ffAb").unwrap().signature, vec![0, 255, 0xab]);
    assert_eq!(decode("").unwrap().signature, Vec::<u8>::new());
    assert!(matches!(decode("abc"), Err(StdError::InvalidHex(_))));
    assert!(matches!(decode("zz"), Err(StdError::InvalidHex(_))));
}

#[test]
fn substring_search() {
    assert!(str_contains("hello {wallet}!", "{wallet}"));
    assert!(!str_contains("hello", "hello!"));
    assert!(str_contains("abc", ""));
    assert!(str_equal("abc", "abc"));
    assert!(!str_equal("abc", "abd"));
}

#[test]
fn replacement_is_left_to_right_without_rescanning() {
    let fill = |claim: &str, sender: &str, secondary: &str| {
        compute_plaintext_msg(&claim.to_string(), &sender.to_string(), secondary)
    };
    assert_eq!(fill("{wallet}-{wallet}", "{wallet}", "x"), "{wallet}-{wallet}");
    assert_eq!(fill("{wallet}{secondary_address}", "{secondary_address}", "z"), "zz");
    assert_eq!(fill("héllo {wallet}", "me", "x"), "héllo me");
    assert_eq!(fill("none", "me", "x"), "none");
}

#[test]
fn decimal_rendering_matches_to_string() {
    for n in [0u64, 7, 10, 99, 100, 1700, u64::MAX] {
        assert_eq!(u64_to_decimal(n), n.to_string());
    }
    for n in [0u128, 9, 123_456_789_012_345_678_901_234_567_890, u128::MAX] {
        assert_eq!(u128_to_decimal(n), n.to_string());
    }
}

#[test]
fn decimal_parsing_matches_from_str_radix() {
    let cases = [
        "0", "42", "+42", "007", "18446744073709551615", "18446744073709551616",
        "99999999999999999999", "", "+", "-1", "1a", " 1", "++1", "\u{663}",
    ];
    for c in cases {
        assert_eq!(parse_u64_decimal(c), u64::from_str_radix(c, 10).ok(), "{c}");
    }
    assert_eq!(parse_u64_decimal("+42"), Some(42));
    assert_eq!(parse_u64_decimal("18446744073709551615"), Some(u64::MAX));
    assert_eq!(parse_u64_decimal("18446744073709551616"), None);
}
