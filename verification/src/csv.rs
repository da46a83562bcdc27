//! The CSV that passes between drivers: one header line with the names of the
//! columns, then the rows, each ended by a line feed. A field that holds a
//! comma, a quote or a line break stands between quotes, with every quote in
//! it doubled.

use vstd::prelude::*;
use vstd::string::*;

use crate::schema::{column_models, ColumnView, Table};
use crate::text::{chars_of, texts};

verus! {

/// `String::push` of std: `c` is added at the end of `text`.
#[verifier::external_body]
fn push_char(text: &mut String, c: char)
    ensures
        final(text)@ == old(text)@.push(c),
{
    text.push(c)
}

/// Whether a field with the character `c` must stand between quotes.
pub open spec fn is_special(c: char) -> bool {
    c == ',' || c == '"' || c == '\n' || c == '\r'
}

/// Whether `field` must stand between quotes.
pub open spec fn needs_quotes(field: Seq<char>) -> bool {
    exists|i: int| 0 <= i < field.len() && is_special(#[trigger] field[i])
}

/// The first `n` characters of `field`, every quote doubled.
pub open spec fn doubled(field: Seq<char>, n: nat) -> Seq<char>
    decreases n,
{
    if n == 0 || n > field.len() {
        Seq::empty()
    } else if field[n - 1] == '"' {
        doubled(field, (n - 1) as nat).push('"').push('"')
    } else {
        doubled(field, (n - 1) as nat).push(field[n - 1])
    }
}

/// `field` as it stands in a line.
pub open spec fn csv_field(field: Seq<char>) -> Seq<char> {
    if needs_quotes(field) {
        seq!['"'] + doubled(field, field.len()) + seq!['"']
    } else {
        field
    }
}

/// The first `n` of `fields` as they stand in a line, a comma between two.
pub open spec fn csv_fields(fields: Seq<Seq<char>>, n: nat) -> Seq<char>
    decreases n,
{
    if n == 0 || n > fields.len() {
        Seq::empty()
    } else if n == 1 {
        csv_field(fields[0])
    } else {
        csv_fields(fields, (n - 1) as nat).push(',') + csv_field(fields[n - 1])
    }
}

/// The line that holds `fields`, line feed included.
pub open spec fn csv_line(fields: Seq<Seq<char>>) -> Seq<char> {
    csv_fields(fields, fields.len()).push('\n')
}

/// The names of `columns`, in order.
pub open spec fn column_names(columns: Seq<ColumnView>) -> Seq<Seq<char>> {
    Seq::new(columns.len(), |i: int| columns[i].name)
}

/// Whether `field` must stand between quotes.
fn has_special(chars: &Vec<char>) -> (r: bool)
    ensures
        r == needs_quotes(chars@),
{
    let mut i: usize = 0;
    while i < chars.len()
        invariant
            i <= chars.len(),
            forall|h: int| 0 <= h < i ==> !is_special(#[trigger] chars@[h]),
        decreases chars.len() - i,
    {
        let c = chars[i];
        if c == ',' || c == '"' || c == '\n' || c == '\r' {
            return true;
        }
        i += 1;
    }
    false
}

/// Appends `field` to `f` as it stands in a line.
pub fn write_field(f: &mut String, field: &str)
    ensures
        final(f)@ == old(f)@ + csv_field(field@),
{
    let chars = chars_of(field);
    if !has_special(&chars) {
        f.append(field);
        return ;
    }
    let ghost start = f@;
    push_char(f, '"');
    let mut i: usize = 0;
    assert(f@ =~= start + seq!['"'] + doubled(chars@, 0));
    while i < chars.len()
        invariant
            i <= chars.len(),
            f@ == start + seq!['"'] + doubled(chars@, i as nat),
        decreases chars.len() - i,
    {
        let c = chars[i];
        if c == '"' {
            push_char(f, '"');
        }
        push_char(f, c);
        assert(f@ =~= start + seq!['"'] + doubled(chars@, (i + 1) as nat));
        i += 1;
    }
    push_char(f, '"');
    assert(f@ =~= start + csv_field(field@));
}

/// Appends to `f` the line that holds `fields`.
pub fn write_line(f: &mut String, fields: &Vec<String>)
    ensures
        final(f)@ == old(f)@ + csv_line(texts(fields@)),
{
    let ghost start = f@;
    let ghost all = texts(fields@);
    let mut i: usize = 0;
    assert(f@ =~= start + csv_fields(all, 0));
    while i < fields.len()
        invariant
            i <= fields.len(),
            all == texts(fields@),
            f@ == start + csv_fields(all, i as nat),
        decreases fields.len() - i,
    {
        if i > 0 {
            push_char(f, ',');
        }
        write_field(f, fields[i].as_str());
        assert(f@ =~= start + csv_fields(all, (i + 1) as nat));
        i += 1;
    }
    push_char(f, '\n');
    assert(f@ =~= start + csv_line(all));
}

/// Appends to `f` the header line of `table`: the names of its columns.
pub fn write_header(f: &mut String, table: &Table)
    ensures
        final(f)@ == old(f)@ + csv_line(column_names(table@.columns)),
{
    let columns = table.columns();
    let mut names: Vec<String> = Vec::new();
    let mut i: usize = 0;
    while i < columns.len()
        invariant
            i <= columns.len(),
            names.len() == i,
            column_models(columns@) == table@.columns,
            forall|h: int| 0 <= h < i ==> names[h]@ == columns[h].name@,
        decreases columns.len() - i,
    {
        names.push(columns[i].name.clone());
        i += 1;
    }
    assert(texts(names@) =~= column_names(table@.columns));
    write_line(f, &names);
}

/// Whether the fields of a header line are the names of the columns of
/// `table`, in order.
pub fn header_matches(table: &Table, header: &Vec<String>) -> (r: bool)
    ensures
        r == (texts(header@) == column_names(table@.columns)),
{
    let columns = table.columns();
    if header.len() != columns.len() {
        assert(texts(header@).len() != column_names(table@.columns).len());
        return false;
    }
    let mut i: usize = 0;
    while i < header.len()
        invariant
            i <= header.len(),
            header.len() == columns.len(),
            column_models(columns@) == table@.columns,
            forall|h: int| 0 <= h < i ==> header[h]@ == columns[h].name@,
        decreases header.len() - i,
    {
        if header[i] != columns[i].name {
            assert(texts(header@)[i as int] != column_names(table@.columns)[i as int]);
            return false;
        }
        i += 1;
    }
    assert(texts(header@) =~= column_names(table@.columns));
    true
}

} // verus!
