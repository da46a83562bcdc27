use dbcrossbarlib::error::TransferError;
use dbcrossbarlib::schema::{Column, DataType, StructField, Table};

fn column(name: &str, data_type: DataType) -> Column {
    Column { name: name.to_string(), data_type, is_nullable: true, comment: None }
}

#[test]
fn a_table_keeps_its_columns_in_order() {
    let t = Table::new(
        None,
        vec![column("b", DataType::Text), column("a", DataType::Int64), column("c", DataType::Bool)],
    )
    .unwrap();
    let names: Vec<&str> = t.columns().iter().map(|c| c.name.as_str()).collect();
    assert_eq!(names, vec!["b", "a", "c"]);
    assert_eq!(t.name(), &None);
    assert!(t.has_column("a"));
    assert!(!t.has_column("d"));
}

#[test]
fn a_table_with_no_column_is_a_table() {
    let t = Table::new(Some("empty".to_string()), vec![]).unwrap();
    assert_eq!(t.columns().len(), 0);
    assert_eq!(t.name().as_deref(), Some("empty"));
}

#[test]
fn two_columns_cannot_share_a_name() {
    let err = Table::new(
        None,
        vec![
            column("a", DataType::Text),
            column("b", DataType::Text),
            column("c", DataType::Text),
            column("b", DataType::Int64),
            column("a", DataType::Int64),
        ],
    )
    .unwrap_err();
    assert!(matches!(&err, TransferError::DuplicateColumn(name) if name == "b"));
    assert_eq!(err.message(), "duplicate column b");
    assert_eq!(err.exit_code(), 2);
}

#[test]
fn a_copy_of_a_type_is_the_same_type() {
    let nested = DataType::Array(Box::new(DataType::Struct(vec![
        StructField { name: "x".to_string(), data_type: DataType::Float64, is_nullable: false },
        StructField {
            name: "ys".to_string(),
            data_type: DataType::Array(Box::new(DataType::Uuid)),
            is_nullable: true,
        },
    ])));
    let copy = nested.clone();
    assert_eq!(format!("{:?}", copy), format!("{:?}", nested));
    let again = copy.duplicate();
    assert_eq!(format!("{:?}", again), format!("{:?}", nested));
}
