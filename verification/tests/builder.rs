//! The query builder on concrete filter sets: statement text, argument
//! list, operator choice, ordering clause, and injection safety.

use libgurbani::construct_query;
use libgurbani::QueryParams;
use libgurbani::Scripture;
use libgurbani::Value;

fn count_occurrences(haystack: &str, needle: &str) -> usize {
    let mut count = 0;
    let mut at = 0;
    while let Some(found) = haystack[at..].find(needle) {
        count += 1;
        at += found + 1;
    }
    count
}

#[test]
fn empty_filter_set_is_bare_select() {
    let (sql, args) = construct_query(QueryParams::new());
    assert_eq!(sql, "SELECT * FROM scriptures");
    assert_eq!(args.len(), 0);
}

#[test]
fn one_filter_gets_where_and_no_and() {
    let (sql, args) = construct_query(QueryParams::new().page(3));
    assert_eq!(sql, "SELECT * FROM scriptures WHERE (page = ?)");
    assert_eq!(count_occurrences(&sql, " WHERE "), 1);
    assert_eq!(count_occurrences(&sql, " AND "), 0);
    assert_eq!(args.len(), 1);
    match &args[0] {
        Value::Int(n) => assert_eq!(*n, 3),
        Value::Text(_) => panic!("page must bind an integer"),
    }
}

#[test]
fn scripture_filter_binds_canonical_name() {
    let (sql, args) = construct_query(QueryParams::new().scripture(Scripture::SGGS));
    assert_eq!(sql, "SELECT * FROM scriptures WHERE (scripture = ?)");
    assert_eq!(args.len(), 1);
    match &args[0] {
        Value::Text(s) => assert_eq!(s, "sggs"),
        Value::Int(_) => panic!("scripture must bind its string form"),
    }
}

#[test]
fn three_filters_join_with_two_ands() {
    let (sql, args) = construct_query(
        QueryParams::new().scripture(Scripture::SGGS).page(1).hymn(7),
    );
    assert_eq!(
        sql,
        "SELECT * FROM scriptures WHERE (scripture = ?) AND (page = ?) AND (hymn = ?)"
    );
    assert_eq!(count_occurrences(&sql, " WHERE "), 1);
    assert_eq!(count_occurrences(&sql, " AND "), 2);
    assert_eq!(args.len(), 3);
}

#[test]
fn five_filters_join_with_four_ands() {
    let (sql, args) = construct_query(
        QueryParams::new()
            .scripture(Scripture::SGGS)
            .page(1)
            .hymn(7)
            .gurmukhi(String::from("ab"))
            .transliteration(String::from("cd")),
    );
    assert_eq!(count_occurrences(&sql, " WHERE "), 1);
    assert_eq!(count_occurrences(&sql, " AND "), 4);
    assert_eq!(args.len(), 5);
}

#[test]
fn equality_filters_never_use_like() {
    let (sql, _) = construct_query(
        QueryParams::new().scripture(Scripture::SGGS).page(1).hymn(7),
    );
    assert_eq!(count_occurrences(&sql, "LIKE"), 0);
}

#[test]
fn text_filters_match_search_columns_with_like() {
    let (sql, args) = construct_query(QueryParams::new().gurmukhi(String::from("ab")));
    assert_eq!(
        sql,
        "SELECT * FROM scriptures WHERE (gurmukhi_search LIKE ?) \
         ORDER BY length(gurmukhi_search) ASC"
    );
    assert_eq!(count_occurrences(&sql, "LIKE"), 1);
    assert_eq!(count_occurrences(&sql, "gurmukhi_search"), 2);
    match &args[0] {
        Value::Text(s) => assert_eq!(s, "ab%"),
        Value::Int(_) => panic!("text filter must bind text"),
    }
}

#[test]
fn transliteration_filter_matches_its_search_column() {
    let (sql, args) = construct_query(QueryParams::new().transliteration(String::from("jap")));
    assert_eq!(
        sql,
        "SELECT * FROM scriptures WHERE (transliteration_search LIKE ?) \
         ORDER BY length(transliteration_search) ASC"
    );
    match &args[0] {
        Value::Text(s) => assert_eq!(s, "jap%"),
        Value::Int(_) => panic!("text filter must bind text"),
    }
}

#[test]
fn both_text_filters_order_by_gurmukhi_then_transliteration() {
    let (sql, args) = construct_query(
        QueryParams::new()
            .gurmukhi(String::from("ab"))
            .transliteration(String::from("cd")),
    );
    assert_eq!(
        sql,
        "SELECT * FROM scriptures WHERE (gurmukhi_search LIKE ?) \
         AND (transliteration_search LIKE ?) \
         ORDER BY length(gurmukhi_search) ASC, length(transliteration_search) ASC"
    );
    assert_eq!(args.len(), 2);
}

#[test]
fn no_text_filter_no_order_clause() {
    let (sql, _) = construct_query(QueryParams::new().page(9));
    assert_eq!(count_occurrences(&sql, "ORDER BY"), 0);
}

#[test]
fn hostile_text_never_reaches_statement() {
    let hostile = "a'; DROP TABLE scriptures; --%";
    let (sql, args) = construct_query(QueryParams::new().gurmukhi(String::from(hostile)));
    assert!(!sql.contains('\''));
    assert!(!sql.contains(';'));
    assert!(!sql.contains('%'));
    assert_eq!(args.len(), 1);
    match &args[0] {
        Value::Text(s) => assert_eq!(s, "a'; DROP TABLE scriptures; --%%"),
        Value::Int(_) => panic!("text filter must bind text"),
    }
}

#[test]
fn statement_text_is_blind_to_filter_values() {
    let (sql_a, _) = construct_query(QueryParams::new().page(1).gurmukhi(String::from("x")));
    let (sql_b, _) = construct_query(
        QueryParams::new().page(32000).gurmukhi(String::from("'; evil --")),
    );
    assert_eq!(sql_a, sql_b);
}

#[test]
fn arguments_follow_fixed_field_order() {
    let (_, args) = construct_query(
        QueryParams::new()
            .transliteration(String::from("t"))
            .gurmukhi(String::from("g"))
            .hymn(2)
            .page(1),
    );
    assert_eq!(args.len(), 4);
    match &args[0] {
        Value::Int(n) => assert_eq!(*n, 1),
        Value::Text(_) => panic!("first argument must be the page"),
    }
    match &args[1] {
        Value::Int(n) => assert_eq!(*n, 2),
        Value::Text(_) => panic!("second argument must be the hymn"),
    }
    match &args[2] {
        Value::Text(s) => assert_eq!(s, "g%"),
        Value::Int(_) => panic!("third argument must be the gurmukhi prefix"),
    }
    match &args[3] {
        Value::Text(s) => assert_eq!(s, "t%"),
        Value::Int(_) => panic!("fourth argument must be the transliteration prefix"),
    }
}

#[test]
fn scripture_name_is_stable() {
    assert_eq!(Scripture::SGGS.name(), "sggs");
}
