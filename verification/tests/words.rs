use mxp::parse::{ArgumentParser, Words};

fn show_words(mut words: Words) -> String {
    let mut buf = String::new();
    while let Some(word) = words.next() {
        buf.push_str(&format!("<{word}> "));
    }
    buf
}

fn show_list(words: &[&str]) -> String {
    let mut buf = String::new();
    for word in words {
        buf.push_str(&format!("<{word}> "));
    }
    buf
}

#[test]
fn words() {
    let unwords = "   'teseeeeeet'     #123a56f89&aaabcdeef;foo,woo!-2.5,3_1a =- t🥀e''a{";
    let words = vec![
        "teseeeeeet",
        "#123a56f89",
        "&aaabcdeef;",
        "foo,woo",
        "!",
        "-2.5,3_1a",
        "=",
        "-",
        "t",
        "🥀",
        "e",
        "",
        "a",
        "{",
    ];
    assert_eq!(show_words(Words::new(unwords)), show_list(&words));
}

#[test]
fn words_args() {
    let words = Words::new("EL RName '<FONT COLOR=Red><B>' FLAG=\"RoomName\"");
    let mut args = words.args();
    let mut collected = Vec::new();
    while let Some(arg) = args.next() {
        collected.push(arg.unwrap());
    }
    assert_eq!(
        collected,
        &[
            ("EL", None),
            ("RName", None),
            ("<FONT COLOR=Red><B>", None),
            ("FLAG", Some("RoomName")),
        ]
    );
}

#[test]
fn argument_parser_args() {
    let mut parser = ArgumentParser::new("  EL      RName  '<FONT COLOR=Red><B>' FLAG=\"RoomName\"  ");
    let mut args = Vec::new();
    while let Some(arg) = parser.next() {
        args.push(arg.unwrap());
    }
    assert_eq!(
        args,
        &[
            ("EL", None),
            ("RName", None),
            ("<FONT COLOR=Red><B>", None),
            ("FLAG", Some("RoomName")),
        ]
    );
}

#[test]
fn words_unterminated_quote_runs_to_end() {
    let mut words = Words::new("'abc def");
    assert_eq!(words.next(), Some("abc def"));
    assert_eq!(words.next(), None);
}

#[test]
fn words_rest_and_next_byte() {
    let mut words = Words::new("  name=value  ");
    assert_eq!(words.source(), "name=value");
    assert_eq!(words.next(), Some("name"));
    assert_eq!(words.as_str(), "=value");
    assert_eq!(words.as_bytes(), b"=value");
    assert_eq!(words.next_byte(), Some(b'='));
}

#[test]
fn words_args_errors() {
    let mut args = Words::new("= x").args();
    let err = args.next().unwrap().unwrap_err();
    assert_eq!(err, mxp::Error::new("=x", mxp::ErrorKind::MissingArgumentName));
    let mut args = Words::new("name=").args();
    let err = args.next().unwrap().unwrap_err();
    assert_eq!(err, mxp::Error::new("name=", mxp::ErrorKind::EmptyArgument));
}

#[test]
fn argument_parser_errors() {
    let mut parser = ArgumentParser::new("=oops");
    assert_eq!(
        parser.next().unwrap().unwrap_err(),
        mxp::Error::new("=oops", mxp::ErrorKind::MissingArgumentName)
    );
    let mut parser = ArgumentParser::new("FLAG= x");
    assert_eq!(
        parser.next().unwrap().unwrap_err(),
        mxp::Error::new("FLAG=", mxp::ErrorKind::EmptyArgument)
    );
}

#[test]
fn arguments() {
    let words = Words::new(r#"EL RName '<FONT COLOR=Red><B>' FLAG="RoomName""#);
    let args = words.parse_args().unwrap();
    assert_eq!(args.positional_len(), 3);
    assert_eq!(args.positional_at(0), "EL");
    assert_eq!(args.positional_at(1), "RName");
    assert_eq!(args.positional_at(2), "<FONT COLOR=Red><B>");
    assert_eq!(args.named_len(), 1);
    assert_eq!(args.named_at(0), ("FLAG", "RoomName"));
    assert_eq!(args.get_named("flag"), Some("RoomName"));
}
