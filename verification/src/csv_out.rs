//! CSV record encoding: the exact text the default CSV writer produces for
//! one record, and the header row of every output file.

use vstd::prelude::*;

verus! {

/// True when `c` occurs in `f`.
pub open spec fn contains_char(f: Seq<char>, c: char) -> bool
    decreases f.len(),
{
    if f.len() == 0 {
        false
    } else {
        f[0] == c || contains_char(f.drop_first(), c)
    }
}

/// The number of occurrences of `c` in `f`.
pub open spec fn count_char(f: Seq<char>, c: char) -> int
    decreases f.len(),
{
    if f.len() == 0 {
        0
    } else {
        (if f[0] == c {
            1int
        } else {
            0int
        }) + count_char(f.drop_first(), c)
    }
}

/// True when the CSV writer must quote the field to keep the record
/// readable: it holds the delimiter, the quote character, or a line break.
pub open spec fn field_needs_quoting(f: Seq<char>) -> bool {
    contains_char(f, ',') || contains_char(f, '"') || contains_char(f, '\n') || contains_char(
        f,
        '\r',
    )
}

/// The field's characters with every double quote doubled.
pub open spec fn double_quotes(f: Seq<char>) -> Seq<char>
    decreases f.len(),
{
    if f.len() == 0 {
        Seq::empty()
    } else if f[0] == '"' {
        seq!['"', '"'] + double_quotes(f.drop_first())
    } else {
        seq![f[0]] + double_quotes(f.drop_first())
    }
}

/// The inverse of `double_quotes`: every doubled quote read back as one.
pub open spec fn undouble_quotes(e: Seq<char>) -> Seq<char>
    decreases e.len(),
{
    if e.len() == 0 {
        Seq::empty()
    } else if e.len() >= 2 && e[0] == '"' && e[1] == '"' {
        seq!['"'] + undouble_quotes(e.skip(2))
    } else {
        seq![e[0]] + undouble_quotes(e.drop_first())
    }
}

/// One encoded field: enclosed in quotes, with inner quotes doubled, exactly
/// when the writer must quote it; otherwise the field itself.
pub open spec fn encoded_field(f: Seq<char>) -> Seq<char> {
    if field_needs_quoting(f) {
        seq!['"'] + double_quotes(f) + seq!['"']
    } else {
        f
    }
}

/// The encoded fields joined by commas.
pub open spec fn joined_fields(fields: Seq<Seq<char>>) -> Seq<char>
    decreases fields.len(),
{
    if fields.len() == 0 {
        Seq::empty()
    } else if fields.len() == 1 {
        encoded_field(fields[0])
    } else {
        encoded_field(fields[0]) + seq![','] + joined_fields(fields.drop_first())
    }
}

/// One CSV record of the given fields, terminated by a line feed.
pub open spec fn csv_record(fields: Seq<Seq<char>>) -> Seq<char> {
    joined_fields(fields) + seq!['\n']
}

/// Relies on `csv::Writer::write_record` with the default builder settings
/// (delimiter `,`, quote `"`, doubled quotes, line-feed terminator, quoting
/// only where necessary): a field is quoted, with inner quotes doubled,
/// exactly when it holds a comma, a double quote, a line feed or a carriage
/// return; the fields are joined by commas and the record ends with a line
/// feed. A record of a single field would further be quoted when empty, so
/// records of at least two fields are required.
#[verifier::external_body]
pub(crate) fn encode_record(fields: &Vec<String>) -> (r: String)
    requires
        fields@.len() >= 2,
    ensures
        r@ == csv_record(fields.deep_view()),
{
    let mut w = csv::Writer::from_writer(Vec::new());
    w.write_record(fields).expect("an in-memory CSV write cannot fail");
    let bytes = w.into_inner().expect("an in-memory CSV flush cannot fail");
    String::from_utf8(bytes).expect("a CSV record of UTF-8 fields is UTF-8")
}

/// The five column titles of the header record.
pub open spec fn header_fields() -> Seq<Seq<char>> {
    seq![
        "Timestamp"@,
        "PID"@,
        "Process Name"@,
        "CPU Usage (%)"@,
        "Memory Usage (%)"@,
    ]
}

/// The header line of every output file.
pub open spec fn header_line() -> Seq<char> {
    csv_record(header_fields())
}

/// No column title makes the writer quote it.
proof fn lemma_header_fields_plain()
    ensures
        forall|i: int|
            0 <= i < header_fields().len() ==> !field_needs_quoting(#[trigger] header_fields()[i]),
{
    reveal_strlit("Timestamp");
    reveal_strlit("PID");
    reveal_strlit("Process Name");
    reveal_strlit("CPU Usage (%)");
    reveal_strlit("Memory Usage (%)");
    reveal_with_fuel(contains_char, 18);
    assert(!field_needs_quoting("Timestamp"@));
    assert(!field_needs_quoting("PID"@));
    assert(!field_needs_quoting("Process Name"@));
    assert(!field_needs_quoting("CPU Usage (%)"@));
    assert(!field_needs_quoting("Memory Usage (%)"@));
}

/// The header line is exactly the five column titles joined by commas, with
/// one line feed at its end and none before it: a header-only file holds
/// exactly one line.
pub proof fn lemma_header_line_text()
    ensures
        header_line() == "Timestamp,PID,Process Name,CPU Usage (%),Memory Usage (%)\n"@,
        header_line().len() == 58,
        header_line()[57] == '\n',
        forall|j: int| 0 <= j < 57 ==> header_line()[j] != '\n',
{
    reveal_strlit("Timestamp");
    reveal_strlit("PID");
    reveal_strlit("Process Name");
    reveal_strlit("CPU Usage (%)");
    reveal_strlit("Memory Usage (%)");
    reveal_strlit("Timestamp,PID,Process Name,CPU Usage (%),Memory Usage (%)\n");
    lemma_header_fields_plain();
    reveal_with_fuel(joined_fields, 6);
    assert("Timestamp,PID,Process Name,CPU Usage (%),Memory Usage (%)\n"@.len() == 58);
    assert(joined_fields(header_fields()).len() == 57);
    assert(header_line() =~= "Timestamp,PID,Process Name,CPU Usage (%),Memory Usage (%)\n"@);
}

/// Encodes the header record, written once at the start of every run, before
/// any data row.
pub fn header_row() -> (r: String)
    ensures
        r@ == header_line(),
{
    let mut fields: Vec<String> = Vec::new();
    fields.push("Timestamp".to_owned());
    fields.push("PID".to_owned());
    fields.push("Process Name".to_owned());
    fields.push("CPU Usage (%)".to_owned());
    fields.push("Memory Usage (%)".to_owned());
    let r = encode_record(&fields);
    proof {
        assert(fields.deep_view() =~= header_fields());
    }
    r
}

} // verus!
