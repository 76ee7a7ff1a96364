use database::sql::{
    serialize_sql, ColumnDef, Error, Statement, StatementCreateTable, StatementUseDatabase, ToSql,
    Type, Value,
};

#[test]
fn use_database_is_rendered_exactly() {
    let stmt = StatementUseDatabase { name: "foo".into() };
    assert_eq!(serialize_sql(&stmt).to_sql().unwrap(), "USE foo;");
}

#[test]
fn create_table_joins_columns_and_closes_parenthesis() {
    let stmt = StatementCreateTable {
        name: "foo".into(),
        cols: vec![
            ColumnDef::new("bar", Type::IntUnsigned),
            ColumnDef::new("baz", Type::VarChar(32)),
        ],
    };
    assert_eq!(
        serialize_sql(&stmt).to_sql().unwrap(),
        "CREATE TABLE \"foo\" (\"bar\" INT UNSIGNED, \"baz\" VARCHAR(32));"
    );
}

#[test]
fn create_table_without_columns() {
    let stmt = StatementCreateTable { name: "t".into(), cols: Vec::new() };
    assert_eq!(serialize_sql(&stmt).to_sql().unwrap(), "CREATE TABLE \"t\" ();");
}

#[test]
fn create_table_with_one_column_has_no_separator() {
    let stmt = StatementCreateTable {
        name: "t".into(),
        cols: vec![ColumnDef::new("id", Type::Int).auto_increment(true).not_null(true)],
    };
    assert_eq!(
        serialize_sql(&stmt).to_sql().unwrap(),
        "CREATE TABLE \"t\" (\"id\" INT AUTO_INCREMENT NOT NULL);"
    );
}

#[test]
fn create_table_with_three_columns() {
    let stmt = StatementCreateTable {
        name: "t".into(),
        cols: vec![
            ColumnDef::new("a", Type::Int),
            ColumnDef::new("b", Type::Date).not_null(true),
            ColumnDef::new("c", Type::Real).default(Some(Value::TinyInt(2))).unwrap(),
        ],
    };
    assert_eq!(
        serialize_sql(&stmt).to_sql().unwrap(),
        "CREATE TABLE \"t\" (\"a\" INT, \"b\" DATE NOT NULL, \"c\" REAL DEFAULT 2);"
    );
}

#[test]
fn duplicate_column_names_are_not_rejected() {
    let stmt = StatementCreateTable {
        name: "t".into(),
        cols: vec![ColumnDef::new("a", Type::Int), ColumnDef::new("a", Type::Int)],
    };
    assert_eq!(
        serialize_sql(&stmt).to_sql().unwrap(),
        "CREATE TABLE \"t\" (\"a\" INT, \"a\" INT);"
    );
}

#[test]
fn create_table_with_blob_default_fails_and_writes_nothing() {
    let stmt = StatementCreateTable {
        name: "t".into(),
        cols: vec![
            ColumnDef::new("a", Type::Int),
            ColumnDef::new("b", Type::Blob(1)).default(Some(Value::Blob(vec![7]))).unwrap(),
        ],
    };
    assert_eq!(serialize_sql(&stmt).to_sql(), Err(Error::NotImplemented));
    let mut out = String::from("kept");
    assert_eq!(stmt.fmt_sql(&mut out), Err(Error::NotImplemented));
    assert_eq!(out, "kept");
}

#[test]
fn statements_render_as_what_they_hold() {
    let stmt = Statement::UseDatabase(StatementUseDatabase { name: "db".into() });
    assert_eq!(serialize_sql(&stmt).to_sql().unwrap(), "USE db;");
    let stmt = Statement::CreateTable(StatementCreateTable {
        name: "t".into(),
        cols: vec![ColumnDef::new("a", Type::TinyIntUnsigned)],
    });
    assert_eq!(serialize_sql(&stmt).to_sql().unwrap(), "CREATE TABLE \"t\" (\"a\" TINYINT UNSIGNED);");
}

#[test]
fn rendering_ends_in_a_semicolon_without_newline() {
    let stmt = Statement::UseDatabase(StatementUseDatabase { name: "db".into() });
    let text = serialize_sql(&stmt).to_sql().unwrap();
    assert!(text.ends_with(';'));
    assert!(!text.contains('\n'));
}

#[test]
fn fmt_sql_appends_to_what_is_there() {
    let stmt = StatementUseDatabase { name: "db".into() };
    let mut out = String::from("-- ");
    assert_eq!(stmt.fmt_sql(&mut out), Ok(()));
    assert_eq!(out, "-- USE db;");
}

#[test]
fn rendering_is_repeatable() {
    let stmt = StatementCreateTable {
        name: "t".into(),
        cols: vec![ColumnDef::new("a", Type::Int)],
    };
    let formatter = serialize_sql(&stmt);
    assert_eq!(formatter.to_sql(), formatter.to_sql());
}
