use podlet::escape::{arg_quote, command_join, double_quote, escape_spaces_join};

#[test]
fn quote_remove_control() {
    assert_eq!(arg_quote("te\0st"), "test");
    assert_eq!(arg_quote("hello\nworld"), "'hello\nworld'");
}

#[test]
fn join() {
    assert_eq!(
        command_join(&vec![String::from("test"), String::from("hello world")]),
        "test 'hello world'"
    );
}

#[test]
fn quote_whitespace() {
    assert_eq!(podlet::escape::quote_whitespace("test1 test2"), r#""test1 test2""#);
    assert_eq!(podlet::escape::quote_whitespace("test1\ntest2"), r#""test1\ntest2""#);
}

#[test]
fn empty_argument_is_quoted() {
    assert_eq!(arg_quote(""), "''");
    assert_eq!(arg_quote("plain"), "plain");
}

#[test]
fn spaces_join_quotes_words_with_spaces() {
    assert_eq!(
        escape_spaces_join(&vec![String::from("a"), String::from("b c")]),
        "a \"b c\""
    );
}

#[test]
fn double_quote_escapes() {
    assert_eq!(double_quote(""), "\"\"");
    assert_eq!(double_quote("a$b"), "\"a\\$b\"");
    assert_eq!(double_quote("plain-word_1"), "plain-word_1");
    assert_eq!(double_quote("é"), "\"é\"");
}
