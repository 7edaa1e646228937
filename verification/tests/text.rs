use mxp::text::match_ci;

#[test]
fn match_ci_is_case_insensitive() {
    let cases = [" TEST", "TEst", "teSt "];
    let result = match match_ci("teSt", &cases) {
        Some(i) => cases[i],
        None => "unmatched",
    };
    assert_eq!(result, "TEst");
}

#[test]
fn match_ci_unmatched() {
    assert_eq!(match_ci("x", &["a", "b"]), None);
}
