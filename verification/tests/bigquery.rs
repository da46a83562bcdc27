use dbcrossbarlib::drivers::bigquery_shared::column::BqColumn;
use dbcrossbarlib::drivers::bigquery_shared::json::append_rendered;
use dbcrossbarlib::drivers::bigquery_shared::table::{BqTable, TableName};
use dbcrossbarlib::drivers::bigquery_shared::{decimal_text, quote_ident, BqType, Mode, Usage};
use dbcrossbarlib::error::{ErrorKind, TransferError};
use dbcrossbarlib::schema::{Column, DataType, StructField, Table};

fn column(name: &str, data_type: DataType, is_nullable: bool) -> Column {
    Column { name: name.to_string(), data_type, is_nullable, comment: None }
}

fn array_of(element: DataType) -> DataType {
    DataType::Array(Box::new(element))
}

fn name() -> TableName {
    TableName::new("proj", "data", "tbl").unwrap()
}

fn import_sql(columns: &[Column]) -> String {
    let table = BqTable::for_table_name_and_columns(name(), columns, Usage::FinalTable).unwrap();
    let mut sql = String::new();
    table.write_import_sql(&mut sql).unwrap();
    sql
}

fn json_schema(columns: &[Column], usage: Usage) -> String {
    let table = BqTable::for_table_name_and_columns(name(), columns, usage).unwrap();
    let mut json = String::new();
    table.write_json_schema(&mut json).unwrap();
    json
}

const UDF_TAIL: &str = "LANGUAGE js AS \"\"\"\nreturn JSON.parse(input);\n\"\"\";\n\n";

#[test]
fn every_logical_type_has_a_warehouse_type() {
    let cases = vec![
        (DataType::Bool, BqType::Bool, "BOOL"),
        (DataType::Date, BqType::Date, "DATE"),
        (DataType::Decimal, BqType::Numeric, "NUMERIC"),
        (DataType::Float32, BqType::Float64, "FLOAT64"),
        (DataType::Float64, BqType::Float64, "FLOAT64"),
        (DataType::GeoJson, BqType::Geography, "GEOGRAPHY"),
        (DataType::Int16, BqType::Int64, "INT64"),
        (DataType::Int32, BqType::Int64, "INT64"),
        (DataType::Int64, BqType::Int64, "INT64"),
        (DataType::Json, BqType::String, "STRING"),
        (DataType::Text, BqType::String, "STRING"),
        (DataType::TimestampWithTimeZone, BqType::Timestamp, "TIMESTAMP"),
        (DataType::TimestampWithoutTimeZone, BqType::Datetime, "DATETIME"),
        (DataType::Uuid, BqType::String, "STRING"),
    ];
    for (data_type, ty, sql) in cases {
        for usage in [Usage::CsvLoad, Usage::FinalTable] {
            let mapped = BqColumn::for_column(&column("c", data_type.clone(), false), usage).unwrap();
            assert_eq!(mapped.ty(), ty);
            assert_eq!(mapped.ty().name(), sql);
            assert_eq!(mapped.mode(), Mode::Required);
            assert_eq!(mapped.sql_type(), sql);
            assert_eq!(mapped.name(), "c");
            assert!(mapped.fields().is_empty());
            assert!(mapped.can_import_from_csv());
        }
    }
}

#[test]
fn nullability_becomes_the_mode() {
    let nullable = BqColumn::for_column(&column("c", DataType::Text, true), Usage::FinalTable).unwrap();
    assert_eq!(nullable.mode(), Mode::Nullable);
    assert_eq!(nullable.mode().name(), "NULLABLE");
    assert_eq!(Mode::Required.name(), "REQUIRED");
    assert_eq!(Mode::Repeated.name(), "REPEATED");
}

#[test]
fn an_array_is_a_repeated_column_in_the_final_table() {
    let tags = column("tags", array_of(DataType::Int32), false);
    let mapped = BqColumn::for_column(&tags, Usage::FinalTable).unwrap();
    assert_eq!(mapped.ty(), BqType::Int64);
    assert_eq!(mapped.mode(), Mode::Repeated);
    assert_eq!(mapped.sql_type(), "ARRAY<INT64>");
    assert!(!mapped.can_import_from_csv());
}

#[test]
fn arrays_and_structs_are_text_in_a_csv_load() {
    let tags = column("tags", array_of(array_of(DataType::Int32)), true);
    let mapped = BqColumn::for_column(&tags, Usage::CsvLoad).unwrap();
    assert_eq!(mapped.ty(), BqType::String);
    assert_eq!(mapped.mode(), Mode::Nullable);
    let record = column(
        "r",
        DataType::Struct(vec![StructField {
            name: "x".to_string(),
            data_type: DataType::Int64,
            is_nullable: true,
        }]),
        false,
    );
    let mapped = BqColumn::for_column(&record, Usage::CsvLoad).unwrap();
    assert_eq!(mapped.ty(), BqType::String);
    assert!(mapped.fields().is_empty());
    assert!(mapped.can_import_from_csv());
}

#[test]
fn an_array_of_arrays_has_no_final_type() {
    let nested = column("grid", array_of(array_of(DataType::Int64)), true);
    let err = BqColumn::for_column(&nested, Usage::FinalTable).unwrap_err();
    assert!(matches!(&err, TransferError::NoRepresentation(name) if name == "grid"));
    assert_eq!(err.message(), "no representation for the type of column grid");
    assert_eq!(err.kind(), ErrorKind::Schema);
    let inside = column(
        "r",
        DataType::Struct(vec![
            StructField { name: "ok".to_string(), data_type: DataType::Int64, is_nullable: true },
            StructField {
                name: "deep".to_string(),
                data_type: array_of(array_of(DataType::Text)),
                is_nullable: true,
            },
        ]),
        true,
    );
    let err = BqColumn::for_column(&inside, Usage::FinalTable).unwrap_err();
    assert!(matches!(&err, TransferError::NoRepresentation(name) if name == "deep"));
    let err = BqTable::for_table_name_and_columns(
        name(),
        &[column("a", DataType::Int64, true), nested, inside],
        Usage::FinalTable,
    )
    .unwrap_err();
    assert!(matches!(&err, TransferError::NoRepresentation(name) if name == "grid"));
}

#[test]
fn a_struct_is_a_record_with_fields() {
    let point = DataType::Struct(vec![
        StructField { name: "x".to_string(), data_type: DataType::Float64, is_nullable: false },
        StructField {
            name: "labels".to_string(),
            data_type: array_of(DataType::Text),
            is_nullable: true,
        },
    ]);
    let mapped = BqColumn::for_column(&column("p", point.clone(), true), Usage::FinalTable).unwrap();
    assert_eq!(mapped.ty(), BqType::Record);
    assert_eq!(mapped.mode(), Mode::Nullable);
    assert_eq!(mapped.fields().len(), 2);
    assert_eq!(mapped.fields()[0].name(), "x");
    assert_eq!(mapped.fields()[0].mode(), Mode::Required);
    assert_eq!(mapped.fields()[1].mode(), Mode::Repeated);
    assert_eq!(mapped.sql_type(), "STRUCT<`x` FLOAT64,`labels` ARRAY<STRING>>");
    assert!(!mapped.can_import_from_csv());
    let many = BqColumn::for_column(&column("ps", array_of(point), true), Usage::FinalTable).unwrap();
    assert_eq!(many.mode(), Mode::Repeated);
    assert_eq!(many.sql_type(), "ARRAY<STRUCT<`x` FLOAT64,`labels` ARRAY<STRING>>>");
    let empty = BqColumn::for_column(&column("e", DataType::Struct(vec![]), true), Usage::FinalTable)
        .unwrap();
    assert_eq!(empty.sql_type(), "STRUCT<>");
}

#[test]
fn a_name_with_a_backtick_cannot_be_mapped() {
    let err = BqColumn::for_column(&column("a`b", DataType::Int64, true), Usage::CsvLoad).unwrap_err();
    assert!(matches!(&err, TransferError::UnquotableName(name) if name == "a`b"));
    assert_eq!(err.message(), "cannot quote the name a`b");
    let err = quote_ident("`").unwrap_err();
    assert!(matches!(&err, TransferError::UnquotableName(name) if name == "`"));
    assert_eq!(quote_ident("order").unwrap(), "`order`");
    assert_eq!(quote_ident("").unwrap(), "``");
    assert!(TableName::new("p", "d`", "t`").is_err());
    let err = TableName::new("p", "d`", "t`").unwrap_err();
    assert!(matches!(&err, TransferError::UnquotableName(name) if name == "d`"));
}

#[test]
fn a_table_name_has_three_parts() {
    let name = TableName::new("proj", "data", "tbl").unwrap();
    assert_eq!(name.project(), "proj");
    assert_eq!(name.dataset(), "data");
    assert_eq!(name.table(), "tbl");
    assert_eq!(name.dotted(), "proj.data.tbl");
    assert_eq!(name.clone().dotted(), "proj.data.tbl");
}

#[test]
fn numbers_are_written_in_decimal() {
    assert_eq!(decimal_text(0), "0");
    assert_eq!(decimal_text(7), "7");
    assert_eq!(decimal_text(10), "10");
    assert_eq!(decimal_text(905), "905");
    assert_eq!(decimal_text(1234567890), "1234567890");
    assert_eq!(decimal_text(usize::MAX), usize::MAX.to_string());
}

#[test]
fn plain_columns_are_selected_by_their_quoted_names() {
    let sql = import_sql(&[column("id", DataType::Int64, false), column("order", DataType::Text, true)]);
    assert_eq!(sql, "SELECT `id`,`order` FROM `proj.data.tbl`");
    assert!(sql.contains("`order`"));
    assert!(!sql.replace("`order`", "").contains("order"));
}

#[test]
fn a_table_without_columns_selects_nothing() {
    assert_eq!(import_sql(&[]), "SELECT  FROM `proj.data.tbl`");
}

#[test]
fn an_array_column_is_coerced_by_a_function_of_its_own() {
    let columns = [column("tags", array_of(DataType::Int64), true)];
    let table = Table::new(None, columns.to_vec()).unwrap();
    assert_eq!(table.bigquery_can_import_from_csv().unwrap(), false);
    let sql = import_sql(&columns);
    let expected = format!(
        "CREATE TEMP FUNCTION ImportJson_0(input STRING)\nRETURNS ARRAY<INT64>\n{}SELECT ImportJson_0(`tags`) AS `tags` FROM `proj.data.tbl`",
        UDF_TAIL
    );
    assert_eq!(sql, expected);
    assert_eq!(sql.matches("CREATE TEMP FUNCTION").count(), 1);
    assert_eq!(sql.matches("ImportJson_0(`tags`)").count(), 1);
}

#[test]
fn functions_are_numbered_by_the_position_of_their_column() {
    let mut columns = vec![column("id", DataType::Int64, false)];
    for i in 1..11 {
        columns.push(column(&format!("c{}", i), DataType::Text, true));
    }
    columns.push(column("tags", array_of(DataType::Text), true));
    columns.push(column(
        "p",
        DataType::Struct(vec![StructField {
            name: "x".to_string(),
            data_type: DataType::Int16,
            is_nullable: true,
        }]),
        true,
    ));
    let sql = import_sql(&columns);
    let expected = format!(
        "CREATE TEMP FUNCTION ImportJson_11(input STRING)\nRETURNS ARRAY<STRING>\n{tail}\
         CREATE TEMP FUNCTION ImportJson_12(input STRING)\nRETURNS STRUCT<`x` INT64>\n{tail}\
         SELECT `id`,`c1`,`c2`,`c3`,`c4`,`c5`,`c6`,`c7`,`c8`,`c9`,`c10`,\
         ImportJson_11(`tags`) AS `tags`,ImportJson_12(`p`) AS `p` FROM `proj.data.tbl`",
        tail = UDF_TAIL
    );
    assert_eq!(sql, expected);
    assert_eq!(sql.matches("CREATE TEMP FUNCTION").count(), 2);
}

#[test]
fn the_import_appends_to_what_is_there() {
    let table = BqTable::for_table_name_and_columns(
        name(),
        &[column("a", DataType::Bool, true)],
        Usage::FinalTable,
    )
    .unwrap();
    let mut sql = String::from("-- import\n");
    table.write_import_sql(&mut sql).unwrap();
    assert_eq!(sql, "-- import\nSELECT `a` FROM `proj.data.tbl`");
    assert_eq!(table.name().dotted(), "proj.data.tbl");
    assert_eq!(table.usage(), Usage::FinalTable);
    assert_eq!(table.columns().len(), 1);
}

#[test]
fn a_landing_table_has_no_import() {
    let table = BqTable::for_table_name_and_columns(
        name(),
        &[column("a", DataType::Bool, true)],
        Usage::CsvLoad,
    )
    .unwrap();
    let mut sql = String::from("kept");
    let err = table.write_import_sql(&mut sql).unwrap_err();
    assert!(matches!(err, TransferError::WrongUsage));
    assert_eq!(err.message(), "the schema was not mapped for the final table");
    assert_eq!(sql, "kept");
}

#[test]
fn a_table_is_importable_when_all_its_columns_are() {
    let plain = vec![column("a", DataType::Int64, true), column("b", DataType::Uuid, false)];
    assert_eq!(Table::new(None, plain.clone()).unwrap().bigquery_can_import_from_csv().unwrap(), true);
    assert_eq!(Table::new(None, vec![]).unwrap().bigquery_can_import_from_csv().unwrap(), true);
    for at in 0..plain.len() {
        let mut changed = plain.clone();
        changed[at] = column("tags", array_of(DataType::Int64), true);
        let table = Table::new(None, changed).unwrap();
        assert_eq!(table.bigquery_can_import_from_csv().unwrap(), false);
    }
    assert_eq!(column("a", DataType::Int64, true).bigquery_can_import_from_csv().unwrap(), true);
    assert_eq!(
        column("a", DataType::Struct(vec![]), true).bigquery_can_import_from_csv().unwrap(),
        false
    );
}

#[test]
fn the_first_column_in_the_way_decides() {
    let bad = column("grid", array_of(array_of(DataType::Int64)), true);
    let array = column("tags", array_of(DataType::Int64), true);
    let table = Table::new(None, vec![array.clone(), bad.clone()]).unwrap();
    assert_eq!(table.bigquery_can_import_from_csv().unwrap(), false);
    let table = Table::new(None, vec![bad, array]).unwrap();
    let err = table.bigquery_can_import_from_csv().unwrap_err();
    assert!(matches!(&err, TransferError::NoRepresentation(name) if name == "grid"));
}

#[test]
fn the_schema_file_lists_the_columns() {
    let columns = [
        column("id", DataType::Int64, false),
        Column {
            name: "note \"x\"".to_string(),
            data_type: DataType::Text,
            is_nullable: true,
            comment: Some("free text".to_string()),
        },
        column("tags", array_of(DataType::Date), true),
    ];
    let expected = r#"[
  {
    "mode": "REQUIRED",
    "name": "id",
    "type": "INT64"
  },
  {
    "description": "free text",
    "mode": "NULLABLE",
    "name": "note \"x\"",
    "type": "STRING"
  },
  {
    "mode": "REPEATED",
    "name": "tags",
    "type": "DATE"
  }
]"#;
    assert_eq!(json_schema(&columns, Usage::FinalTable), expected);
    let landing = json_schema(&columns, Usage::CsvLoad);
    assert!(landing.contains("\"mode\": \"NULLABLE\",\n    \"name\": \"tags\",\n    \"type\": \"STRING\""));
    assert_eq!(json_schema(&[], Usage::FinalTable), "[]");
}

#[test]
fn the_schema_file_nests_the_fields_of_a_record() {
    let columns = [column(
        "p",
        DataType::Struct(vec![
            StructField { name: "x".to_string(), data_type: DataType::Float32, is_nullable: false },
            StructField {
                name: "q".to_string(),
                data_type: DataType::Struct(vec![StructField {
                    name: "z".to_string(),
                    data_type: DataType::Bool,
                    is_nullable: true,
                }]),
                is_nullable: true,
            },
        ]),
        false,
    )];
    let expected = r#"[
  {
    "fields": [
      {
        "mode": "REQUIRED",
        "name": "x",
        "type": "FLOAT64"
      },
      {
        "fields": [
          {
            "mode": "NULLABLE",
            "name": "z",
            "type": "BOOL"
          }
        ],
        "mode": "NULLABLE",
        "name": "q",
        "type": "RECORD"
      }
    ],
    "mode": "REQUIRED",
    "name": "p",
    "type": "RECORD"
  }
]"#;
    assert_eq!(json_schema(&columns, Usage::FinalTable), expected);
}

#[test]
fn the_schema_file_is_appended_or_the_failure_reported() {
    let mut out = String::from("x");
    append_rendered(&mut out, Ok("[]".to_string())).unwrap();
    assert_eq!(out, "x[]");
    let failure = serde_json::from_str::<serde_json::Value>("{").unwrap_err();
    let err = append_rendered(&mut out, Err(failure)).unwrap_err();
    assert!(matches!(err, TransferError::Unserializable));
    assert_eq!(err.message(), "the schema cannot be written as JSON");
    assert_eq!(out, "x[]");
}

#[test]
fn faithful_columns_come_back_as_they_went() {
    let columns = vec![
        Column {
            name: "id".to_string(),
            data_type: DataType::Int64,
            is_nullable: false,
            comment: Some("key".to_string()),
        },
        column("when", DataType::TimestampWithoutTimeZone, true),
        column("at", DataType::TimestampWithTimeZone, false),
        column("where", DataType::GeoJson, true),
        column("price", DataType::Decimal, true),
        column("day", DataType::Date, true),
        column("ok", DataType::Bool, false),
        column("ratio", DataType::Float64, true),
        column("tags", array_of(DataType::Text), true),
        column(
            "p",
            DataType::Struct(vec![
                StructField { name: "x".to_string(), data_type: DataType::Int64, is_nullable: false },
                StructField {
                    name: "ys".to_string(),
                    data_type: array_of(DataType::Float64),
                    is_nullable: true,
                },
            ]),
            false,
        ),
    ];
    let table = BqTable::for_table_name_and_columns(name(), &columns, Usage::FinalTable).unwrap();
    let back = table.to_table().unwrap();
    assert_eq!(back.name().as_deref(), Some("tbl"));
    assert_eq!(format!("{:?}", back.columns()), format!("{:?}", columns));
}

#[test]
fn narrow_types_come_back_widened() {
    let table = BqTable::for_table_name_and_columns(
        name(),
        &[column("n", DataType::Int32, false), column("tags", array_of(DataType::Uuid), false)],
        Usage::FinalTable,
    )
    .unwrap();
    let back = table.to_table().unwrap();
    assert!(matches!(back.columns()[0].data_type, DataType::Int64));
    assert!(matches!(&back.columns()[1].data_type, DataType::Array(inner) if matches!(**inner, DataType::Text)));
    assert!(back.columns()[1].is_nullable);
    let mapped = BqColumn::for_column(&column("j", DataType::Json, true), Usage::FinalTable).unwrap();
    assert!(matches!(mapped.to_data_type(), DataType::Text));
    assert_eq!(mapped.to_column().name, "j");
    assert_eq!(mapped.description(), &None);
}

#[test]
fn a_table_read_back_cannot_repeat_a_name() {
    let table = BqTable::for_table_name_and_columns(
        name(),
        &[column("a", DataType::Int64, true), column("a", DataType::Text, true)],
        Usage::FinalTable,
    )
    .unwrap();
    let err = table.to_table().unwrap_err();
    assert!(matches!(&err, TransferError::DuplicateColumn(name) if name == "a"));
}
