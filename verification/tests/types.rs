use database::sql::{serialize_sql, Type};

fn all_types() -> Vec<Type> {
    vec![
        Type::Boolean,
        Type::BigInt,
        Type::BigIntUnsigned,
        Type::Int,
        Type::IntUnsigned,
        Type::SmallInt,
        Type::SmallIntUnsigned,
        Type::TinyInt,
        Type::TinyIntUnsigned,
        Type::Float(24),
        Type::Float(53),
        Type::Real,
        Type::Character(0),
        Type::Character(8),
        Type::VarChar(8),
        Type::VarChar(9),
        Type::Date,
        Type::Time,
        Type::DateTime,
        Type::Blob(8),
        Type::Blob(9),
        Type::Clob(8),
        Type::Clob(usize::MAX),
    ]
}

fn numeric_types() -> Vec<Type> {
    vec![
        Type::BigInt,
        Type::BigIntUnsigned,
        Type::Int,
        Type::IntUnsigned,
        Type::SmallInt,
        Type::SmallIntUnsigned,
        Type::TinyInt,
        Type::TinyIntUnsigned,
        Type::Float(1),
        Type::Float(64),
        Type::Real,
    ]
}

fn spelling(ty: Type) -> String {
    serialize_sql(&ty).to_sql().unwrap()
}

#[test]
fn every_type_is_compatible_with_itself() {
    for ty in all_types() {
        assert!(ty.compatible_with(&ty), "{:?}", ty);
    }
}

#[test]
fn compatibility_is_directed() {
    assert!(Type::TinyInt.compatible_with(&Type::Int));
    assert!(!Type::Int.compatible_with(&Type::TinyInt));
}

#[test]
fn signed_chain_composes() {
    assert!(Type::TinyInt.compatible_with(&Type::SmallInt));
    assert!(Type::SmallInt.compatible_with(&Type::Int));
    assert!(Type::Int.compatible_with(&Type::BigInt));
    assert!(Type::TinyInt.compatible_with(&Type::BigInt));
    assert!(Type::SmallInt.compatible_with(&Type::BigInt));
    assert!(Type::TinyInt.compatible_with(&Type::Int));
}

#[test]
fn unsigned_chain_composes() {
    assert!(Type::TinyIntUnsigned.compatible_with(&Type::SmallIntUnsigned));
    assert!(Type::SmallIntUnsigned.compatible_with(&Type::IntUnsigned));
    assert!(Type::IntUnsigned.compatible_with(&Type::BigIntUnsigned));
    assert!(Type::TinyIntUnsigned.compatible_with(&Type::BigIntUnsigned));
}

#[test]
fn compatibility_is_transitive_on_the_catalog() {
    let types = all_types();
    for a in &types {
        for b in &types {
            for c in &types {
                if a.compatible_with(b) && b.compatible_with(c) {
                    assert!(a.compatible_with(c), "{:?} {:?} {:?}", a, b, c);
                }
            }
        }
    }
}

#[test]
fn integers_do_not_cross_families() {
    assert!(!Type::TinyInt.compatible_with(&Type::SmallIntUnsigned));
    assert!(!Type::TinyIntUnsigned.compatible_with(&Type::BigInt));
    assert!(!Type::Int.compatible_with(&Type::IntUnsigned));
    assert!(!Type::IntUnsigned.compatible_with(&Type::Int));
}

#[test]
fn wider_integers_do_not_narrow() {
    assert!(!Type::BigInt.compatible_with(&Type::Int));
    assert!(!Type::Int.compatible_with(&Type::SmallInt));
    assert!(!Type::SmallIntUnsigned.compatible_with(&Type::TinyIntUnsigned));
}

#[test]
fn boolean_casts_into_every_numeric_type() {
    for ty in numeric_types() {
        assert!(Type::Boolean.compatible_with(&ty), "{:?}", ty);
    }
}

#[test]
fn no_numeric_type_casts_into_boolean() {
    for ty in numeric_types() {
        assert!(!ty.compatible_with(&Type::Boolean), "{:?}", ty);
    }
}

#[test]
fn boolean_casts_into_nothing_else() {
    assert!(Type::Boolean.compatible_with(&Type::Boolean));
    assert!(!Type::Boolean.compatible_with(&Type::Character(1)));
    assert!(!Type::Boolean.compatible_with(&Type::DateTime));
    assert!(!Type::Boolean.compatible_with(&Type::Blob(1)));
}

#[test]
fn integers_cast_into_floating_point() {
    assert!(Type::TinyIntUnsigned.compatible_with(&Type::Float(8)));
    assert!(Type::BigInt.compatible_with(&Type::Float(1)));
    assert!(Type::BigIntUnsigned.compatible_with(&Type::Real));
    assert!(!Type::Real.compatible_with(&Type::BigInt));
    assert!(!Type::Float(32).compatible_with(&Type::Int));
}

#[test]
fn floating_point_types_only_match_themselves() {
    assert!(Type::Float(32).compatible_with(&Type::Float(32)));
    assert!(!Type::Float(32).compatible_with(&Type::Float(64)));
    assert!(!Type::Float(64).compatible_with(&Type::Real));
    assert!(!Type::Real.compatible_with(&Type::Float(64)));
}

#[test]
fn varchar_into_character_goes_by_width() {
    assert!(Type::VarChar(3).compatible_with(&Type::Character(4)));
    assert!(Type::VarChar(4).compatible_with(&Type::Character(4)));
    assert!(!Type::VarChar(5).compatible_with(&Type::Character(4)));
    assert!(Type::VarChar(0).compatible_with(&Type::Character(0)));
}

#[test]
fn string_kinds_mix_freely() {
    let kinds: Vec<fn(usize) -> Type> = vec![Type::Character, Type::VarChar, Type::Clob];
    for from in &kinds {
        for to in &kinds {
            assert!(from(7).compatible_with(&to(7)));
            assert!(from(7).compatible_with(&to(8)));
            assert!(!from(8).compatible_with(&to(7)));
        }
    }
}

#[test]
fn blobs_are_no_strings() {
    assert!(Type::Blob(4).compatible_with(&Type::Blob(4)));
    assert!(!Type::Blob(4).compatible_with(&Type::Blob(5)));
    assert!(!Type::Blob(4).compatible_with(&Type::Clob(5)));
    assert!(!Type::Clob(4).compatible_with(&Type::Blob(5)));
}

#[test]
fn dates_and_times_widen_into_date_times() {
    assert!(Type::Date.compatible_with(&Type::DateTime));
    assert!(Type::Time.compatible_with(&Type::DateTime));
    assert!(!Type::DateTime.compatible_with(&Type::Date));
    assert!(!Type::DateTime.compatible_with(&Type::Time));
    assert!(!Type::Date.compatible_with(&Type::Time));
}

#[test]
fn types_are_spelled_in_upper_case() {
    assert_eq!(spelling(Type::Boolean), "BIT");
    assert_eq!(spelling(Type::BigInt), "BIGINT");
    assert_eq!(spelling(Type::BigIntUnsigned), "BIGINT UNSIGNED");
    assert_eq!(spelling(Type::Int), "INT");
    assert_eq!(spelling(Type::IntUnsigned), "INT UNSIGNED");
    assert_eq!(spelling(Type::SmallInt), "SMALLINT");
    assert_eq!(spelling(Type::SmallIntUnsigned), "SMALLINT UNSIGNED");
    assert_eq!(spelling(Type::TinyInt), "TINYINT");
    assert_eq!(spelling(Type::TinyIntUnsigned), "TINYINT UNSIGNED");
    assert_eq!(spelling(Type::Real), "REAL");
    assert_eq!(spelling(Type::Date), "DATE");
    assert_eq!(spelling(Type::Time), "TIME");
    assert_eq!(spelling(Type::DateTime), "TIMESTAMP");
}

#[test]
fn sized_types_are_spelled_with_their_width() {
    assert_eq!(spelling(Type::Float(24)), "FLOAT(24)");
    assert_eq!(spelling(Type::Character(0)), "CHARACTER(0)");
    assert_eq!(spelling(Type::VarChar(32)), "VARCHAR(32)");
    assert_eq!(spelling(Type::Blob(1024)), "BLOB(1024)");
    assert_eq!(spelling(Type::Clob(100)), "BLOB(100)");
    assert_eq!(spelling(Type::VarChar(usize::MAX)), format!("VARCHAR({})", usize::MAX));
}

#[test]
fn write_sql_appends_to_what_is_there() {
    let mut out = String::from("x ");
    Type::VarChar(10).write_sql(&mut out);
    assert_eq!(out, "x VARCHAR(10)");
}

#[test]
fn types_compare_structurally() {
    assert_eq!(Type::VarChar(3), Type::VarChar(3));
    assert_ne!(Type::VarChar(3), Type::VarChar(4));
    assert_ne!(Type::VarChar(3), Type::Character(3));
    let copy = Type::Float(7);
    let other = copy;
    assert_eq!(copy, other);
}
