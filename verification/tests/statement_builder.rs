use real_estate_server::statement::{
    placeholder_rows, BatchStatementBuilder, SqlValue, Statement,
};

fn numbers_in(text: &str) -> Vec<usize> {
    let mut numbers = Vec::new();
    let mut rest = text;
    while let Some(at) = rest.find('$') {
        let digits: String = rest[at + 1..].chars().take_while(|c| c.is_ascii_digit()).collect();
        numbers.push(digits.parse().unwrap());
        rest = &rest[at + 1..];
    }
    numbers
}

fn text_values(words: &[&str]) -> Vec<SqlValue> {
    words.iter().map(|word| SqlValue::Text(word.to_string())).collect()
}

#[test]
fn placeholder_rows_of_two_rows_of_three() {
    let (text, next) = placeholder_rows(2, 3, 0).unwrap();
    assert_eq!(text, "($1, $2, $3), ($4, $5, $6)");
    assert_eq!(next, 6);
}

#[test]
fn placeholder_rows_continue_after_the_start_index() {
    let (text, next) = placeholder_rows(3, 3, 2).unwrap();
    assert_eq!(text, "($3, $4, $5), ($6, $7, $8), ($9, $10, $11)");
    assert_eq!(next, 11);
}

#[test]
fn placeholder_rows_of_a_single_cell() {
    let (text, next) = placeholder_rows(1, 1, 0).unwrap();
    assert_eq!(text, "($1)");
    assert_eq!(next, 1);
}

#[test]
fn placeholder_rows_of_no_rows_is_empty() {
    let (text, next) = placeholder_rows(0, 4, 9).unwrap();
    assert_eq!(text, "");
    assert_eq!(next, 9);
}

#[test]
fn placeholder_rows_of_no_columns_has_empty_groups() {
    let (text, next) = placeholder_rows(2, 0, 5).unwrap();
    assert_eq!(text, "(), ()");
    assert_eq!(next, 5);
}

#[test]
fn placeholder_rows_refuses_a_counter_that_cannot_be_held() {
    assert_eq!(placeholder_rows(usize::MAX, 2, 0), None);
    assert_eq!(placeholder_rows(1, 1, usize::MAX), None);
    assert_eq!(placeholder_rows(2, 1, usize::MAX - 1), None);
}

#[test]
fn block_emits_rows_times_columns_distinct_contiguous_numbers() {
    for (rows, columns, start) in [(1, 1, 0), (4, 3, 0), (5, 2, 7), (3, 4, 12), (12, 1, 3)] {
        let (text, next) = placeholder_rows(rows, columns, start).unwrap();
        let numbers = numbers_in(&text);
        assert_eq!(numbers.len(), rows * columns);
        let expected: Vec<usize> = (start + 1..=start + rows * columns).collect();
        assert_eq!(numbers, expected);
        assert_eq!(next, start + rows * columns);
        assert_eq!(text.matches('(').count(), rows);
        assert_eq!(text.matches(')').count(), rows);
    }
}

#[test]
fn chained_blocks_never_reuse_a_number() {
    let (first, after_first) = placeholder_rows(1, 2, 0).unwrap();
    let (second, after_second) = placeholder_rows(4, 3, after_first).unwrap();
    let first_numbers = numbers_in(&first);
    let second_numbers = numbers_in(&second);
    assert_eq!(first_numbers, vec![1, 2]);
    assert_eq!(second_numbers, (3..=14).collect::<Vec<usize>>());
    assert!(second_numbers.iter().all(|n| !first_numbers.contains(n)));
    assert_eq!(after_second, 14);
}

#[test]
fn new_builder_is_empty() {
    let builder = BatchStatementBuilder::new();
    assert_eq!(builder.bound(), 0);
    let statement = builder.finish();
    assert_eq!(statement.text, "");
    assert!(statement.params.is_empty());
}

#[test]
fn bind_numbers_placeholders_from_one() {
    let mut builder = BatchStatementBuilder::new();
    builder.push_text("a = ");
    builder.bind(SqlValue::Text(String::from("x")));
    builder.push_text(" AND b = ");
    builder.bind(SqlValue::Real(7));
    assert_eq!(builder.bound(), 2);
    let statement = builder.finish();
    assert_eq!(statement.text, "a = $1 AND b = $2");
    assert_eq!(statement.params, vec![SqlValue::Text(String::from("x")), SqlValue::Real(7)]);
}

#[test]
fn push_text_leaves_the_counter_alone() {
    let mut builder = BatchStatementBuilder::new();
    builder.bind(SqlValue::Sequence(0));
    builder.push_text(" and more");
    assert_eq!(builder.bound(), 1);
    assert_eq!(builder.finish().text, "$1 and more");
}

#[test]
fn push_row_binds_the_values_in_order() {
    let mut builder = BatchStatementBuilder::new();
    builder.bind(SqlValue::Sequence(9));
    builder.push_text(" ");
    builder.push_row(&text_values(&["a", "b", "c"]));
    let statement = builder.finish();
    assert_eq!(statement.text, "$1 ($2, $3, $4)");
    assert_eq!(statement.params.len(), 4);
    assert_eq!(statement.params[1..], text_values(&["a", "b", "c"])[..]);
}

#[test]
fn push_rows_matches_placeholder_rows() {
    let rows = vec![text_values(&["a", "b"]), text_values(&["c", "d"]), text_values(&["e", "f"])];
    let mut builder = BatchStatementBuilder::new();
    builder.push_rows(&rows, 2);
    assert_eq!(builder.bound(), 6);
    let statement = builder.finish();
    assert_eq!(statement.text, placeholder_rows(3, 2, 0).unwrap().0);
    assert_eq!(statement.text, "($1, $2), ($3, $4), ($5, $6)");
    assert_eq!(statement.params, text_values(&["a", "b", "c", "d", "e", "f"]));
}

#[test]
fn value_of_a_placeholder_stands_at_its_number_minus_one() {
    let rows = vec![
        vec![SqlValue::Text(String::from("s")), SqlValue::Text(String::from("p0")), SqlValue::Sequence(0)],
        vec![SqlValue::Text(String::from("s")), SqlValue::Text(String::from("p1")), SqlValue::Sequence(1)],
    ];
    let mut builder = BatchStatementBuilder::new();
    builder.push_rows(&[text_values(&["id", "name"])].to_vec(), 2);
    builder.push_rows(&rows, 3);
    let statement = builder.finish();
    for (r, row) in rows.iter().enumerate() {
        for (c, value) in row.iter().enumerate() {
            let number = 2 + r * 3 + c + 1;
            assert_eq!(&statement.params[number - 1], value);
        }
    }
}

#[test]
fn parent_with_children_chains_two_writes() {
    let parents = vec![text_values(&["s1", "Oak Hills"])];
    let children = vec![
        vec![SqlValue::Text(String::from("s1")), SqlValue::Text(String::from("a")), SqlValue::Sequence(0)],
        vec![SqlValue::Text(String::from("s1")), SqlValue::Text(String::from("b")), SqlValue::Sequence(1)],
    ];
    let statement: Statement = BatchStatementBuilder::parent_with_children(
        "INSERT INTO p (a, b) VALUES ",
        &parents,
        2,
        "INSERT INTO c (a, b, c) VALUES ",
        &children,
        3,
    );
    assert_eq!(
        statement.text,
        "WITH parent AS (INSERT INTO p (a, b) VALUES ($1, $2)) INSERT INTO c (a, b, c) VALUES ($3, $4, $5), ($6, $7, $8);"
    );
    assert_eq!(statement.params.len(), 8);
    assert_eq!(numbers_in(&statement.text), (1..=8).collect::<Vec<usize>>());
    assert_eq!(statement.params[0], SqlValue::Text(String::from("s1")));
    assert_eq!(statement.params[7], SqlValue::Sequence(1));
}

#[test]
fn parent_without_children_is_a_single_write() {
    let parents = vec![text_values(&["s1", "Oak Hills"])];
    let statement = BatchStatementBuilder::parent_with_children(
        "INSERT INTO p (a, b) VALUES ",
        &parents,
        2,
        "INSERT INTO c (a, b, c) VALUES ",
        &Vec::new(),
        3,
    );
    assert_eq!(statement.text, "INSERT INTO p (a, b) VALUES ($1, $2);");
    assert_eq!(statement.params, text_values(&["s1", "Oak Hills"]));
}

#[test]
fn duplicate_of_a_value_is_equal_to_it() {
    for value in [SqlValue::Text(String::from("x")), SqlValue::Real(3), SqlValue::Sequence(4)] {
        assert_eq!(value.duplicate(), value);
    }
}
