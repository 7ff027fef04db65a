use async_php::sql_parser::{parse_and_rewrite_sql, PlaceholderKind};

#[test]
fn test_simple_positional() {
    let result = parse_and_rewrite_sql("SELECT * FROM users WHERE id = ?", "pgsql").unwrap();
    assert_eq!(result.rewritten, "SELECT * FROM users WHERE id = $1");
    assert_eq!(result.placeholders.len(), 1);
    assert!(matches!(
        result.placeholders[0].kind,
        PlaceholderKind::Positional(1)
    ));
}

#[test]
fn test_named_placeholder() {
    let result = parse_and_rewrite_sql(
        "SELECT * FROM users WHERE name = :username AND id = :user_id",
        "pgsql",
    )
    .unwrap();
    assert_eq!(
        result.rewritten,
        "SELECT * FROM users WHERE name = $1 AND id = $2"
    );
    assert_eq!(result.placeholders.len(), 2);
}

#[test]
fn test_postgres_cast_operator() {
    let result = parse_and_rewrite_sql("SELECT id::integer FROM users WHERE age = ?", "pgsql")
        .unwrap();
    assert_eq!(result.rewritten, "SELECT id::integer FROM users WHERE age = $1");
    assert_eq!(result.placeholders.len(), 1);
}

#[test]
fn test_string_literals() {
    let result =
        parse_and_rewrite_sql("SELECT 'test''s' WHERE name = ? AND x = ?", "pgsql").unwrap();
    assert_eq!(
        result.rewritten,
        "SELECT 'test''s' WHERE name = $1 AND x = $2"
    );
    assert_eq!(result.placeholders.len(), 2);
}

#[test]
fn test_dollar_quoted() {
    let result = parse_and_rewrite_sql(
        "SELECT $$dollar ? quoted$$ WHERE id = ?",
        "pgsql",
    )
    .unwrap();
    assert_eq!(
        result.rewritten,
        "SELECT $$dollar ? quoted$$ WHERE id = $1"
    );
    assert_eq!(result.placeholders.len(), 1);
}

#[test]
fn test_comments() {
    let result = parse_and_rewrite_sql(
        "SELECT * FROM users -- with ? placeholder\nWHERE id = ?",
        "pgsql",
    )
    .unwrap();
    assert_eq!(
        result.rewritten,
        "SELECT * FROM users -- with ? placeholder\nWHERE id = $1"
    );
    assert_eq!(result.placeholders.len(), 1);
}

#[test]
fn named_placeholders_keep_names_and_positions() {
    let result = parse_and_rewrite_sql("a = :x AND b = ?", "pgsql").unwrap();
    assert_eq!(result.rewritten, "a = $1 AND b = $2");
    assert_eq!(result.placeholders.len(), 2);
    assert_eq!(result.placeholders[0].kind, PlaceholderKind::Named("x".to_string()));
    assert_eq!(result.placeholders[0].position, 4);
    assert_eq!(result.placeholders[1].kind, PlaceholderKind::Positional(2));
    assert_eq!(result.placeholders[1].position, 15);
}

#[test]
fn other_drivers_keep_question_marks() {
    let result = parse_and_rewrite_sql("SELECT ? , :name, ?", "mysql").unwrap();
    assert_eq!(result.rewritten, "SELECT ? , ?, ?");
    assert_eq!(result.placeholders.len(), 3);
    assert_eq!(result.placeholders[2].kind, PlaceholderKind::Positional(3));
    assert_eq!(result.placeholders[2].position, 18);
}

#[test]
fn positional_only_sql_is_unchanged_for_mysql() {
    let sql = "SELECT * FROM t WHERE a = ? AND b = '?' /* ? */";
    let result = parse_and_rewrite_sql(sql, "mysql").unwrap();
    assert_eq!(result.rewritten, sql);
    assert_eq!(result.placeholders.len(), 1);
}

#[test]
fn e_strings_skip_backslash_escapes() {
    let result = parse_and_rewrite_sql("SELECT E'it\\'s ?' , ?", "pgsql").unwrap();
    assert_eq!(result.rewritten, "SELECT E'it\\'s ?' , $1");
    assert_eq!(result.placeholders.len(), 1);
}

#[test]
fn nested_block_comments_and_quoted_identifiers() {
    let result =
        parse_and_rewrite_sql("SELECT \"col?\" /* a /* b ? */ c ? */ FROM t WHERE x = ?", "pgsql")
            .unwrap();
    assert_eq!(
        result.rewritten,
        "SELECT \"col?\" /* a /* b ? */ c ? */ FROM t WHERE x = $1"
    );
    assert_eq!(result.placeholders.len(), 1);
}

#[test]
fn double_question_mark_is_escaped_text() {
    let result = parse_and_rewrite_sql("SELECT a ?? b", "pgsql").unwrap();
    assert!(result.placeholders.is_empty());
    assert_eq!(result.rewritten, "SELECT a ?? b");
    assert!(!result.rewritten.contains('$'));
}

#[test]
fn escaped_question_marks_beside_a_placeholder() {
    let result = parse_and_rewrite_sql("a ??? b ?", "pgsql").unwrap();
    assert_eq!(result.rewritten, "a ??$1 b $2");
    assert_eq!(result.placeholders.len(), 2);
    assert_eq!(result.placeholders[0].position, 4);
    assert_eq!(result.placeholders[1].position, 8);
}

#[test]
fn positions_are_offsets_into_the_input() {
    let result = parse_and_rewrite_sql(
        "SELECT * FROM users WHERE name = :username AND id = :user_id",
        "pgsql",
    )
    .unwrap();
    assert_eq!(
        result.rewritten,
        "SELECT * FROM users WHERE name = $1 AND id = $2"
    );
    assert_eq!(result.placeholders[0].position, 33);
    assert_eq!(result.placeholders[1].position, 52);
}

#[test]
fn tagged_dollar_quotes_and_unterminated_comment() {
    let result = parse_and_rewrite_sql("$tag$ ? $x$ ? $tag$ ? /*", "pgsql").unwrap();
    assert_eq!(result.rewritten, "$tag$ ? $x$ ? $tag$ $1 /*");
    assert_eq!(result.placeholders.len(), 1);
}

#[test]
fn positions_count_bytes_of_multibyte_text() {
    let result = parse_and_rewrite_sql("SELECT 'é' WHERE a = ?", "pgsql").unwrap();
    assert_eq!(result.rewritten, "SELECT 'é' WHERE a = $1");
    assert_eq!(result.placeholders[0].position, 22);
}
