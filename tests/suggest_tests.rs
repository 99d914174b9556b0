use cracktunes::suggest::{clean_suggestions, strip_quotes, suggestion_query};

#[test]
fn strip_quotes_removes_every_quote() {
    assert_eq!(strip_quotes("\"molly\" nilsson\""), "molly nilsson");
    assert_eq!(strip_quotes("plain"), "plain");
    assert_eq!(strip_quotes(""), "");
}

#[test]
fn suggestion_query_short_circuits_on_quotes_only() {
    assert!(suggestion_query("").is_none());
    assert!(suggestion_query("\"\"").is_none());
    assert_eq!(suggestion_query("\"molly nilsson\"").unwrap(), "molly nilsson");
}

#[test]
fn clean_suggestions_in_order() {
    let got = clean_suggestions(vec!["\"a\"".to_string(), "b".to_string(), "\"".to_string()]);
    assert_eq!(got, vec!["a".to_string(), "b".to_string(), "".to_string()]);
}
