use mxp::parse::{ArgumentMatcher, Arguments, OwnedScan, Scan};
use mxp::ErrorKind;

#[test]
fn matcher_reads_named_or_positional() {
    let args = Arguments::parse("first second Fore=red").unwrap();
    let mut matcher = ArgumentMatcher::new(&args);
    assert_eq!(matcher.next_or("fore"), Some("red"));
    assert_eq!(matcher.next_or("back"), Some("first"));
    assert_eq!(matcher.next_or("FORE"), Some("red"));
    assert_eq!(matcher.next(), Some("second"));
    assert_eq!(matcher.next(), None);
    assert_eq!(matcher.next_or("back"), None);
}

#[test]
fn matcher_map_replaces_remaining() {
    let args = Arguments::parse("a b c").unwrap();
    let mut matcher = ArgumentMatcher::new(&args);
    assert_eq!(matcher.next(), Some("a"));
    let mut matcher = matcher.map(|mut rest: Vec<&str>| {
        rest.reverse();
        rest
    });
    assert_eq!(matcher.next(), Some("c"));
    assert_eq!(matcher.next(), Some("b"));
    assert_eq!(matcher.next(), None);
}

#[test]
fn owned_scan_decodes_and_uses_up_named() {
    let args = Arguments::parse("'&lt;x&gt;' plain hint=&amp;").unwrap();
    let mut scan = OwnedScan::new((), args);
    assert_eq!(scan.next_or("hint").unwrap().unwrap(), "&");
    assert_eq!(scan.next().unwrap().unwrap(), "<x>");
    assert_eq!(scan.next_or("hint").unwrap().unwrap(), "plain");
    assert_eq!(scan.next().unwrap(), None);
    assert!(scan.expect_end().is_ok());
}

#[test]
fn owned_scan_errors() {
    let args = Arguments::parse("&nosuch; extra").unwrap();
    let mut scan = OwnedScan::new((), args);
    assert_eq!(scan.next().unwrap_err().kind(), ErrorKind::UnknownEntity);
    let err = scan.expect_end().unwrap_err();
    assert_eq!(err.kind(), ErrorKind::UnexpectedArgument);
    assert_eq!(err.target(), "extra");
}

#[test]
fn borrowed_scan_keeps_named() {
    let args = Arguments::parse("one T=&quot;").unwrap();
    let mut scan = Scan::new((), &args);
    assert_eq!(scan.next_or("t").unwrap().unwrap(), "\"");
    assert_eq!(scan.next_or("t").unwrap().unwrap(), "\"");
    assert_eq!(scan.next_or("u").unwrap().unwrap(), "one");
    assert!(scan.expect_end().is_ok());
    let mut unfinished = Scan::new((), &args);
    assert_eq!(unfinished.next_or("x").unwrap().unwrap(), "one");
    let again = Scan::new((), &args);
    assert_eq!(again.expect_end().unwrap_err().kind(), ErrorKind::UnexpectedArgument);
}

#[test]
fn arguments_remove_named() {
    let mut args = Arguments::parse("p A=1 b=2").unwrap();
    assert_eq!(args.remove_named("a"), Some("1"));
    assert_eq!(args.remove_named("a"), None);
    assert_eq!(args.get_named("B"), Some("2"));
    assert_eq!(args.positional_len(), 1);
}

#[test]
fn arguments_give_matchers_and_scans() {
    let args = Arguments::parse("x y=&lt;").unwrap();
    let mut matcher = args.matcher();
    assert_eq!(matcher.next_or("y"), Some("&lt;"));
    assert_eq!(matcher.next(), Some("x"));
    let mut scan = args.scan(());
    assert_eq!(scan.next_or("y").unwrap().unwrap(), "<");
}
