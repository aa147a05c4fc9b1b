use vstd::prelude::*;
use vstd::string::*;
use crate::cache::texts;
use crate::error::Error;

verus! {

/// The fields of the JSON object that a text holds, each as its key and
/// the compact JSON text of its value, in the order in which the object
/// yields them; `None` where the text is not one JSON object.
pub uninterp spec fn json_object_fields(text: Seq<char>) -> Option<Seq<(Seq<char>, Seq<char>)>>;

/// The keys and value texts of a row.
pub open spec fn fields_of(row: Seq<(String, String)>) -> Seq<(Seq<char>, Seq<char>)> {
    Seq::new(row.len(), |i: int| (row[i].0@, row[i].1@))
}

/// The mathematical content of a parsed row.
pub open spec fn row_model(row: Option<Vec<(String, String)>>) -> Option<
    Seq<(Seq<char>, Seq<char>)>,
> {
    match row {
        Some(fields) => Some(fields_of(fields@)),
        None => None,
    }
}

/// Calls `serde_json::from_str` for a `serde_json::Value`, and where the
/// value is an object hands its entries out, each key with the `to_string`
/// text of its value. The contract only names the outcome: it is a function
/// of the text.
#[verifier::external_body]
fn parse_row(text: &str) -> (row: Option<Vec<(String, String)>>)
    ensures
        row_model(row) == json_object_fields(text@),
{
    match serde_json::from_str::<serde_json::Value>(text) {
        Ok(serde_json::Value::Object(fields)) => Some(
            fields.iter().map(|(k, v)| (k.clone(), v.to_string())).collect(),
        ),
        _ => None,
    }
}

/// Texts put one after the other with a separator between each two.
pub open spec fn joined(parts: Seq<Seq<char>>, sep: Seq<char>) -> Seq<char>
    decreases parts.len(),
{
    if parts.len() == 0 {
        Seq::<char>::empty()
    } else if parts.len() == 1 {
        parts[0]
    } else {
        joined(parts.drop_last(), sep) + sep + parts.last()
    }
}

/// Joins texts with a separator.
pub fn join(parts: &Vec<String>, sep: &str) -> (out: String)
    ensures
        out@ == joined(texts(parts@), sep@),
{
    if parts.len() == 0 {
        return String::new();
    }
    let ghost all = texts(parts@);
    let mut out = parts[0].clone();
    let mut i: usize = 1;
    assert(all.take(1).len() == 1 && all.take(1)[0] == parts@[0]@);
    while i < parts.len()
        invariant
            1 <= i <= parts@.len(),
            all == texts(parts@),
            out@ == joined(all.take(i as int), sep@),
        decreases parts@.len() - i,
    {
        proof {
            let next = all.take(i + 1);
            assert(next.drop_last() =~= all.take(i as int));
            assert(next.last() == parts@[i as int]@);
        }
        out.append(sep);
        out.append(parts[i].as_str());
        i = i + 1;
    }
    assert(all.take(parts@.len() as int) =~= all);
    out
}

/// The rows of a result as one JSON array, a row to a line.
pub open spec fn json_array(rows: Seq<Seq<char>>) -> Seq<char> {
    "[\n"@ + joined(rows, ",\n"@) + "\n]"@
}

/// Frames the rows of a result, each the JSON text of one row, as the text
/// of a JSON array. A result without rows cannot be exported.
pub fn download_json(rows: &Vec<String>) -> (res: Result<String, Error>)
    ensures
        match res {
            Ok(text) => rows@.len() > 0 && text@ == json_array(texts(rows@)),
            Err(e) => rows@.len() == 0 && e == Error::NothingToExport,
        },
{
    if rows.len() == 0 {
        return Err(Error::NothingToExport);
    }
    let body = join(rows, ",\n");
    Ok(String::from_str("[\n").concat(body.as_str()).concat("\n]"))
}

/// The value text stored under a key in a row, by the first field that has
/// the key.
pub open spec fn value_of(row: Seq<(Seq<char>, Seq<char>)>, key: Seq<char>) -> Option<Seq<char>>
    decreases row.len(),
{
    if row.len() == 0 {
        None
    } else if row[0].0 == key {
        Some(row[0].1)
    } else {
        value_of(row.drop_first(), key)
    }
}

/// The keys of a row, in its order.
pub open spec fn keys_of(row: Seq<(Seq<char>, Seq<char>)>) -> Seq<Seq<char>> {
    Seq::new(row.len(), |i: int| row[i].0)
}

/// Whether a row has a value for every key.
pub open spec fn has_all(row: Seq<(Seq<char>, Seq<char>)>, keys: Seq<Seq<char>>) -> bool {
    forall|i: int| 0 <= i < keys.len() ==> (#[trigger] value_of(row, keys[i])) is Some
}

/// The values of a row under the given keys, in the order of the keys.
pub open spec fn values_of(row: Seq<(Seq<char>, Seq<char>)>, keys: Seq<Seq<char>>) -> Seq<
    Seq<char>,
> {
    Seq::new(keys.len(), |i: int| value_of(row, keys[i])->0)
}

/// The lines of a CSV body: for each row its values under the keys, joined
/// by commas.
pub open spec fn csv_lines(rows: Seq<Seq<(Seq<char>, Seq<char>)>>, keys: Seq<Seq<char>>) -> Seq<
    Seq<char>,
> {
    Seq::new(rows.len(), |r: int| joined(values_of(rows[r], keys), ","@))
}

/// A result as CSV: a header of the first row's keys, then one line per
/// row, with the values in the order of the header.
pub open spec fn csv_text(rows: Seq<Seq<(Seq<char>, Seq<char>)>>) -> Seq<char> {
    let keys = keys_of(rows[0]);
    joined(keys, ","@) + "\n"@ + joined(csv_lines(rows, keys), "\n"@)
}

/// The rows of a list, each as its fields.
pub open spec fn rows_of(rows: Seq<Vec<(String, String)>>) -> Seq<Seq<(Seq<char>, Seq<char>)>> {
    Seq::new(rows.len(), |r: int| fields_of(rows[r]@))
}

/// What an export as CSV comes to: nothing to export where there is no
/// row, a malformed row where some row lacks a key of the first, else the
/// CSV text.
pub open spec fn csv_outcome(
    res: Result<String, Error>,
    rows: Seq<Seq<(Seq<char>, Seq<char>)>>,
) -> bool {
    if rows.len() == 0 {
        res is Err && res->Err_0 == Error::NothingToExport
    } else if exists|r: int| 0 <= r < rows.len() && !has_all(#[trigger] rows[r], keys_of(rows[0])) {
        res is Err && res->Err_0 == Error::MalformedRow
    } else {
        res is Ok && res->Ok_0@ == csv_text(rows)
    }
}

fn find_value(row: &Vec<(String, String)>, key: &String) -> (value: Option<String>)
    ensures
        match value {
            Some(v) => value_of(fields_of(row@), key@) == Some(v@),
            None => value_of(fields_of(row@), key@) is None,
        },
{
    let ghost fields = fields_of(row@);
    let mut i: usize = 0;
    assert(fields.skip(0) =~= fields);
    while i < row.len()
        invariant
            i <= row@.len(),
            fields == fields_of(row@),
            value_of(fields, key@) == value_of(fields.skip(i as int), key@),
        decreases row@.len() - i,
    {
        let ghost rest = fields.skip(i as int);
        assert(rest[0] == fields[i as int]);
        assert(rest.drop_first() =~= fields.skip(i + 1));
        if row[i].0 == *key {
            return Some(row[i].1.clone());
        }
        i = i + 1;
    }
    None
}

fn row_values(row: &Vec<(String, String)>, keys: &Vec<String>) -> (values: Option<Vec<String>>)
    ensures
        match values {
            Some(v) => has_all(fields_of(row@), texts(keys@)) && texts(v@) == values_of(
                fields_of(row@),
                texts(keys@),
            ),
            None => !has_all(fields_of(row@), texts(keys@)),
        },
{
    let ghost fields = fields_of(row@);
    let ghost names = texts(keys@);
    let mut values: Vec<String> = Vec::new();
    let mut i: usize = 0;
    while i < keys.len()
        invariant
            i <= keys@.len(),
            fields == fields_of(row@),
            names == texts(keys@),
            values@.len() == i,
            forall|k: int| 0 <= k < i ==> (#[trigger] value_of(fields, names[k])) == Some(values@[k]@),
        decreases keys@.len() - i,
    {
        match find_value(row, &keys[i]) {
            Some(v) => {
                values.push(v);
            },
            None => {
                assert(value_of(fields, names[i as int]) is None);
                return None;
            },
        }
        i = i + 1;
    }
    assert(texts(values@) =~= values_of(fields, names));
    Some(values)
}

/// Writes parsed rows as CSV.
pub fn csv_from_rows(rows: &Vec<Vec<(String, String)>>) -> (res: Result<String, Error>)
    ensures
        csv_outcome(res, rows_of(rows@)),
{
    if rows.len() == 0 {
        return Err(Error::NothingToExport);
    }
    let ghost model = rows_of(rows@);
    let mut keys: Vec<String> = Vec::new();
    let mut k: usize = 0;
    while k < rows[0].len()
        invariant
            rows@.len() > 0,
            k <= rows@[0]@.len(),
            keys@.len() == k,
            forall|j: int| 0 <= j < k ==> keys@[j]@ == rows@[0]@[j].0@,
        decreases rows@[0]@.len() - k,
    {
        keys.push(rows[0][k].0.clone());
        k = k + 1;
    }
    assert(texts(keys@) =~= keys_of(model[0]));
    let ghost names = texts(keys@);
    let mut lines: Vec<String> = Vec::new();
    let mut r: usize = 0;
    while r < rows.len()
        invariant
            r <= rows@.len(),
            model == rows_of(rows@),
            names == texts(keys@),
            names == keys_of(model[0]),
            rows@.len() > 0,
            lines@.len() == r,
            forall|j: int| 0 <= j < r ==> has_all(#[trigger] model[j], names),
            forall|j: int|
                0 <= j < r ==> (#[trigger] lines@[j])@ == joined(values_of(model[j], names), ","@),
        decreases rows@.len() - r,
    {
        assert(model[r as int] == fields_of(rows@[r as int]@));
        match row_values(&rows[r], &keys) {
            Some(values) => {
                lines.push(join(&values, ","));
            },
            None => {
                assert(!has_all(model[r as int], keys_of(model[0])));
                return Err(Error::MalformedRow);
            },
        }
        r = r + 1;
    }
    assert(texts(lines@) =~= csv_lines(model, names));
    let header = join(&keys, ",");
    let body = join(&lines, "\n");
    Ok(header.concat("\n").concat(body.as_str()))
}

/// The parsed rows of a list of parser outcomes, where every one is a row.
pub open spec fn all_rows(parsed: Seq<Option<Seq<(Seq<char>, Seq<char>)>>>) -> Seq<
    Seq<(Seq<char>, Seq<char>)>,
> {
    Seq::new(parsed.len(), |r: int| parsed[r]->0)
}

/// What the JSON parser makes of each line.
pub open spec fn parsed_lines(lines: Seq<Seq<char>>) -> Seq<Option<Seq<(Seq<char>, Seq<char>)>>> {
    Seq::new(lines.len(), |r: int| json_object_fields(lines[r]))
}

/// Writes the rows of a result, each the JSON text of one object, as CSV.
/// A line that is no JSON object makes the export fail as malformed.
pub fn download_csv(lines: &Vec<String>) -> (res: Result<String, Error>)
    ensures
        (exists|r: int| 0 <= r < lines@.len() && (#[trigger] parsed_lines(texts(lines@))[r]) is None)
            ==> res is Err && res->Err_0 == Error::MalformedRow,
        (forall|r: int| 0 <= r < lines@.len() ==> (#[trigger] parsed_lines(texts(lines@))[r]) is Some)
            ==> csv_outcome(res, all_rows(parsed_lines(texts(lines@)))),
{
    let ghost parsed = parsed_lines(texts(lines@));
    let mut rows: Vec<Vec<(String, String)>> = Vec::new();
    let mut r: usize = 0;
    while r < lines.len()
        invariant
            r <= lines@.len(),
            parsed == parsed_lines(texts(lines@)),
            rows@.len() == r,
            forall|j: int| 0 <= j < r ==> (#[trigger] parsed[j]) == Some(fields_of(rows@[j]@)),
        decreases lines@.len() - r,
    {
        match parse_row(lines[r].as_str()) {
            Some(row) => {
                assert(parsed[r as int] == Some(fields_of(row@)));
                rows.push(row);
            },
            None => {
                assert(parsed[r as int] is None);
                return Err(Error::MalformedRow);
            },
        }
        r = r + 1;
    }
    assert(rows_of(rows@) =~= all_rows(parsed));
    csv_from_rows(&rows)
}

} // verus!
