use xor::config::{parse_token, plan, worker_threads, ArgError, Plan};
use xor::methods::Method;

#[test]
fn token_parsing() {
    assert_eq!(parse_token("0xFF"), Some(0xFF));
    assert_eq!(parse_token("0xff"), Some(0xFF));
    assert_eq!(parse_token("0x0"), Some(0));
    assert_eq!(parse_token("0x00aA"), Some(0xAA));
    assert_eq!(parse_token("0x+7"), Some(7));
    assert_eq!(parse_token("0x100"), None);
    assert_eq!(parse_token("0x"), None);
    assert_eq!(parse_token("0x+"), None);
    assert_eq!(parse_token("0x-1"), None);
    assert_eq!(parse_token("0xG"), None);
    assert_eq!(parse_token("FF"), None);
    assert_eq!(parse_token("0XFF"), None);
    assert_eq!(parse_token("0x1000000000000000000000000000000000000001"), None);
    for v in 0..=255u8 {
        assert_eq!(parse_token(&format!("0x{:x}", v)), Some(v));
        assert_eq!(u8::from_str_radix(&format!("{:X}", v), 16).ok(), parse_token(&format!("0x{:X}", v)));
    }
}

#[test]
fn plans() {
    assert_eq!(
        plan(None, None, None, Some("0xFF")),
        Ok(Plan { method: Method::Xor, token: Some(0xFF), payload_max: 1452, buffer_limit: 48 })
    );
    assert_eq!(plan(None, None, None, None), Err(ArgError::InvalidArgument));
    assert_eq!(plan(Some(65536), None, Some("dnsunpad"), None), Err(ArgError::InvalidArgument));
    assert_eq!(
        plan(Some(65535), Some(4), Some("dnsunpad"), None),
        Ok(Plan { method: Method::DnsUnPad, token: None, payload_max: 65487, buffer_limit: 4 })
    );
    assert_eq!(
        plan(Some(1492), None, Some("dnspad"), None),
        Ok(Plan { method: Method::DnsPad, token: None, payload_max: 1444 + 56, buffer_limit: 48 })
    );
    // padding needs a payload longer than the DNS frame
    assert_eq!(plan(Some(104), None, Some("dnspad"), None), Err(ArgError::InvalidArgument));
    assert!(plan(Some(105), None, Some("dnspad"), None).is_ok());
    assert_eq!(plan(Some(10), None, Some("dnsunpad"), None).unwrap().payload_max, 0);
    assert_eq!(plan(None, None, Some("rot13"), Some("0x01")), Err(ArgError::InvalidArgument));
}

#[test]
fn workers() {
    assert_eq!(worker_threads(0), 1);
    assert_eq!(worker_threads(1), 1);
    assert_eq!(worker_threads(2), 1);
    assert_eq!(worker_threads(8), 7);
}
