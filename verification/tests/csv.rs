use dbcrossbarlib::csv::{header_matches, write_field, write_header, write_line};
use dbcrossbarlib::schema::{Column, DataType, Table};

fn field(text: &str) -> String {
    let mut out = String::new();
    write_field(&mut out, text);
    out
}

fn line(fields: &[&str]) -> String {
    let mut out = String::new();
    write_line(&mut out, &fields.iter().map(|f| f.to_string()).collect());
    out
}

fn table(names: &[&str]) -> Table {
    Table::new(
        None,
        names
            .iter()
            .map(|n| Column {
                name: n.to_string(),
                data_type: DataType::Text,
                is_nullable: true,
                comment: None,
            })
            .collect(),
    )
    .unwrap()
}

#[test]
fn a_plain_field_stands_as_it_is() {
    assert_eq!(field("abc"), "abc");
    assert_eq!(field(""), "");
    assert_eq!(field("a b'c;d"), "a b'c;d");
    assert_eq!(field("żółw"), "żółw");
}

#[test]
fn a_field_with_a_separator_is_quoted() {
    assert_eq!(field("a,b"), "\"a,b\"");
    assert_eq!(field("two\nlines"), "\"two\nlines\"");
    assert_eq!(field("\r"), "\"\r\"");
    assert_eq!(field(","), "\",\"");
}

#[test]
fn quotes_in_a_field_are_doubled() {
    assert_eq!(field("say \"hi\""), "\"say \"\"hi\"\"\"");
    assert_eq!(field("\""), "\"\"\"\"");
    assert_eq!(field("a\",b"), "\"a\"\",b\"");
}

#[test]
fn a_field_is_appended_to_what_is_there() {
    let mut out = String::from("x,");
    write_field(&mut out, "y\"");
    assert_eq!(out, "x,\"y\"\"\"");
}

#[test]
fn a_line_ends_with_a_line_feed() {
    assert_eq!(line(&["a", "b", "c"]), "a,b,c\n");
    assert_eq!(line(&["only"]), "only\n");
    assert_eq!(line(&[]), "\n");
    assert_eq!(line(&["", ""]), ",\n");
    assert_eq!(line(&["1", "x,y", "he said \"no\""]), "1,\"x,y\",\"he said \"\"no\"\"\"\n");
}

#[test]
fn the_header_names_the_columns() {
    let mut out = String::new();
    write_header(&mut out, &table(&["id", "first name", "a,b"]));
    assert_eq!(out, "id,first name,\"a,b\"\n");
    let mut out = String::from("#\n");
    write_header(&mut out, &table(&[]));
    assert_eq!(out, "#\n\n");
}

#[test]
fn a_header_must_name_the_columns_in_order() {
    let t = table(&["id", "name"]);
    let header = |names: &[&str]| names.iter().map(|n| n.to_string()).collect::<Vec<String>>();
    assert!(header_matches(&t, &header(&["id", "name"])));
    assert!(!header_matches(&t, &header(&["name", "id"])));
    assert!(!header_matches(&t, &header(&["id"])));
    assert!(!header_matches(&t, &header(&["id", "name", "extra"])));
    assert!(!header_matches(&t, &header(&["id", "Name"])));
    assert!(header_matches(&table(&[]), &header(&[])));
}
