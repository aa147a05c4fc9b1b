use vstd::prelude::*;
use vstd::string::*;
use crate::error::Error;

verus! {

/// What is appended to a result's path to name its metadata record.
pub const METADATA_SUFFIX: &'static str = ".metadata";

/// Which rows of a cached result a caller wants: the result's path, a page
/// number counted from zero, and the number of rows on a page.
#[derive(Clone, Debug, PartialEq, Eq)]
pub struct QueryResultParams {
    pub path: String,
    pub page: usize,
    pub page_size: usize,
}

/// The position of the first row of a page, or the number of rows where the
/// page lies behind the last one.
pub open spec fn page_start(rows: nat, page: nat, page_size: nat) -> nat {
    if page * page_size < rows {
        page * page_size
    } else {
        rows
    }
}

/// The position behind the last row of a page.
pub open spec fn page_end(rows: nat, page: nat, page_size: nat) -> nat {
    if page * page_size + page_size < rows {
        page * page_size + page_size
    } else {
        rows
    }
}

/// The rows of one page: at most `page_size` of them, none where the page
/// lies behind the last row.
pub open spec fn page_of<T>(rows: Seq<T>, page: nat, page_size: nat) -> Seq<T> {
    rows.subrange(
        page_start(rows.len(), page, page_size) as int,
        page_end(rows.len(), page, page_size) as int,
    )
}

/// The texts of a list of strings.
pub open spec fn texts(rows: Seq<String>) -> Seq<Seq<char>> {
    Seq::new(rows.len(), |i: int| rows[i]@)
}

/// Cuts one page out of the rows of a result.
pub fn paginate(rows: &Vec<String>, page: usize, page_size: usize) -> (out: Vec<String>)
    ensures
        texts(out@) == page_of(texts(rows@), page as nat, page_size as nat),
{
    let n: usize = rows.len();
    let ghost wanted = page_of(texts(rows@), page as nat, page_size as nat);
    let start: usize = match page.checked_mul(page_size) {
        Some(s) => if s < n {
            s
        } else {
            n
        },
        None => n,
    };
    let end: usize = if page_size < n - start {
        start + page_size
    } else {
        n
    };
    assert(start == page_start(n as nat, page as nat, page_size as nat));
    assert(end == page_end(n as nat, page as nat, page_size as nat));
    let mut out: Vec<String> = Vec::new();
    let mut i: usize = start;
    while i < end
        invariant
            start <= i <= end <= n,
            n == rows@.len(),
            out@.len() == i - start,
            forall|k: int| 0 <= k < out@.len() ==> out@[k]@ == rows@[start + k]@,
        decreases end - i,
    {
        out.push(rows[i].clone());
        i = i + 1;
    }
    assert(texts(out@) =~= wanted);
    out
}

/// What a read of cached rows comes to: `None` where the backing file is
/// gone, else the rows of the requested page.
pub open spec fn page_outcome(
    stored: Option<Seq<Seq<char>>>,
    page: nat,
    page_size: nat,
) -> Option<Seq<Seq<char>>> {
    match stored {
        Some(rows) => Some(page_of(rows, page, page_size)),
        None => None,
    }
}

/// The texts of what was read from a row file, if it was there.
pub open spec fn stored_texts(stored: Option<Vec<String>>) -> Option<Seq<Seq<char>>> {
    match stored {
        Some(rows) => Some(texts(rows@)),
        None => None,
    }
}

/// Answers a request for a page from what was found under the result's
/// path: the rows of the file, or `None` where there is no file. A missing
/// file means the result has expired; a page behind the last row is empty.
pub fn query_results(stored: Option<Vec<String>>, params: &QueryResultParams) -> (res: Result<
    Vec<String>,
    Error,
>)
    ensures
        match res {
            Ok(rows) => page_outcome(
                stored_texts(stored),
                params.page as nat,
                params.page_size as nat,
            ) == Some(texts(rows@)),
            Err(e) => stored is None && e == Error::QueryExpired,
        },
{
    match stored {
        Some(rows) => Ok(paginate(&rows, params.page, params.page_size)),
        None => Err(Error::QueryExpired),
    }
}

/// Where the metadata record of a result lives: beside the rows, under the
/// same path with a fixed suffix.
pub fn metadata_path(path: &str) -> (out: String)
    ensures
        out@ == path@ + METADATA_SUFFIX@,
{
    String::from_str(path).concat(METADATA_SUFFIX)
}

/// Answers a request for a result's metadata from what was found under its
/// metadata path: the record as it was written, or expiry where there is no
/// file.
pub fn get_query_metadata(stored: Option<String>) -> (res: Result<String, Error>)
    ensures
        match res {
            Ok(record) => stored == Some(record),
            Err(e) => stored is None && e == Error::QueryExpired,
        },
{
    match stored {
        Some(record) => Ok(record),
        None => Err(Error::QueryExpired),
    }
}

/// The files to delete when a result is evicted: its rows and its metadata
/// record.
pub fn invalidate_query(path: &str) -> (files: Vec<String>)
    ensures
        files@.len() == 2,
        files@[0]@ == path@,
        files@[1]@ == path@ + METADATA_SUFFIX@,
{
    let mut files: Vec<String> = Vec::new();
    files.push(String::from_str(path));
    files.push(metadata_path(path));
    files
}

/// The first page holds the first rows: as many as fit on a page, or all of
/// them where there are fewer.
pub proof fn first_page_holds_first_rows<T>(rows: Seq<T>, page_size: nat)
    ensures
        page_of(rows, 0, page_size) == rows.subrange(
            0,
            if page_size < rows.len() {
                page_size as int
            } else {
                rows.len() as int
            },
        ),
{
    assert(0 * page_size == 0) by (nonlinear_arith);
    if rows.len() == 0 {
        assert(page_of(rows, 0, page_size) =~= rows.subrange(0, 0));
    }
}

/// No page holds more rows than its size, and a page behind the last row
/// holds none.
pub proof fn page_is_bounded<T>(rows: Seq<T>, page: nat, page_size: nat)
    ensures
        page_of(rows, page, page_size).len() <= page_size,
        page * page_size >= rows.len() ==> page_of(rows, page, page_size).len() == 0,
        forall|k: int|
            0 <= k < page_of(rows, page, page_size).len() ==> page_of(rows, page, page_size)[k]
                == rows[page * page_size + k],
{
}

/// Once a result's files are gone, a request for any of its pages reports
/// expiry.
pub proof fn evicted_result_has_no_pages(page: nat, page_size: nat)
    ensures
        page_outcome(None, page, page_size) is None,
{
}

} // verus!
