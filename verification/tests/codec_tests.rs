use oracle_core::{decode_integer, decode_string, encode_integer, encode_string};

#[test]
fn int_register_round_trip() {
    for n in [0i64, 1, -1, 500, -500, i64::MAX, i64::MIN] {
        let reg = encode_integer(n);
        assert_eq!(decode_integer(&reg), Some(n));
    }
}

#[test]
fn string_register_round_trip() {
    for s in ["", "E1", "1.2345", "µ° héllo", "日本語"] {
        let reg = encode_string(s);
        assert_eq!(decode_string(&reg).as_deref(), Some(s));
    }
}

#[test]
fn int_register_exact_bytes() {
    assert_eq!(encode_integer(1), vec![0x05, 1, 0, 0, 0, 0, 0, 0, 0]);
    assert_eq!(
        encode_integer(-1),
        vec![0x05, 0xff, 0xff, 0xff, 0xff, 0xff, 0xff, 0xff, 0xff]
    );
    assert_eq!(encode_integer(500), vec![0x05, 0xf4, 0x01, 0, 0, 0, 0, 0, 0]);
}

#[test]
fn string_register_exact_bytes() {
    assert_eq!(encode_string(""), vec![0x0e]);
    assert_eq!(encode_string("A1"), vec![0x0e, 0x41, 0x31]);
}

#[test]
fn decode_integer_rejects_malformed() {
    // Empty blob, wrong tag, short payload, long payload.
    assert_eq!(decode_integer(&vec![]), None);
    assert_eq!(decode_integer(&vec![0x0e, 1, 0, 0, 0, 0, 0, 0, 0]), None);
    assert_eq!(decode_integer(&vec![0x05, 1, 0, 0, 0, 0, 0, 0]), None);
    assert_eq!(decode_integer(&vec![0x05, 1, 0, 0, 0, 0, 0, 0, 0, 0]), None);
}

#[test]
fn decode_string_rejects_malformed() {
    // Empty blob, wrong tag, payload that is not UTF-8.
    assert_eq!(decode_string(&vec![]), None);
    assert_eq!(decode_string(&vec![0x05, 0x41]), None);
    assert_eq!(decode_string(&vec![0x0e, 0xff, 0xfe]), None);
}

#[test]
fn register_shapes_do_not_cross_decode() {
    let int_reg = encode_integer(7);
    assert_eq!(decode_string(&int_reg), None);
    let str_reg = encode_string("7");
    assert_eq!(decode_integer(&str_reg), None);
}
