use mxp::escape::telnet::{supports_do, supports_will, DO, DONT, IAC, WILL, WONT};

const CODE: u8 = 10;

#[test]
fn formats_do() {
    assert_eq!(supports_do(CODE, true), [IAC, DO, CODE]);
}

#[test]
fn formats_dont() {
    assert_eq!(supports_do(CODE, false), [IAC, DONT, CODE]);
}

#[test]
fn formats_will() {
    assert_eq!(supports_will(CODE, true), [IAC, WILL, CODE]);
}

#[test]
fn formats_wont() {
    assert_eq!(supports_will(CODE, false), [IAC, WONT, CODE]);
}
