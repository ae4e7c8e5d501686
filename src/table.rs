use vstd::prelude::*;

verus! {

/// Why two tables could not be merged side by side.
#[derive(Clone, Copy, Debug, PartialEq, Eq, Structural)]
pub enum MergeError {
    /// The new columns hold `data_rows` rows, the existing table `table_rows`.
    RowCountMismatch { data_rows: usize, table_rows: usize },
}

/// The header of a comparison table: the cell count, then the error of the
/// rectangle, trapezoid and Simpson rules.
pub fn compare_header() -> (r: Vec<String>)
    ensures
        r@.len() == 4,
        r@[0]@ == "n"@,
        r@[1]@ == "rec"@,
        r@[2]@ == "trp"@,
        r@[3]@ == "sim"@,
{
    let mut r: Vec<String> = Vec::new();
    r.push("n".to_owned());
    r.push("rec".to_owned());
    r.push("trp".to_owned());
    r.push("sim".to_owned());
    r
}

/// The header of the pi table once the integration columns are merged in:
/// the count, the existing estimate and its error, then the integral and its
/// error.
pub fn pi_header() -> (r: Vec<String>)
    ensures
        r@.len() == 5,
        r@[0]@ == "n"@,
        r@[1]@ == "pi"@,
        r@[2]@ == "verr"@,
        r@[3]@ == "int"@,
        r@[4]@ == "ierr"@,
{
    let mut r: Vec<String> = Vec::new();
    r.push("n".to_owned());
    r.push("pi".to_owned());
    r.push("verr".to_owned());
    r.push("int".to_owned());
    r.push("ierr".to_owned());
    r
}

/// Row `i` of the merged table: row `i` of the table followed by row `i` of
/// the new columns.
pub open spec fn merged_row<T>(rows: Seq<Vec<T>>, data: Seq<Vec<T>>, i: int) -> Seq<T> {
    rows[i]@ + data[i]@
}

/// Appends the cells of `data` to the rows of `rows`, row by row. Tables of
/// different lengths are refused as a whole: nothing is truncated or padded.
pub fn merge_columns<T>(rows: Vec<Vec<T>>, data: Vec<Vec<T>>) -> (r: Result<
    Vec<Vec<T>>,
    MergeError,
>)
    ensures
        r is Err <==> rows@.len() != data@.len(),
        r is Err ==> r->Err_0 == (MergeError::RowCountMismatch {
            data_rows: data@.len() as usize,
            table_rows: rows@.len() as usize,
        }),
        r is Ok ==> r->Ok_0@.len() == rows@.len() && forall|i: int|
            0 <= i < rows@.len() ==> #[trigger] r->Ok_0@[i]@ == merged_row(rows@, data@, i),
{
    if rows.len() != data.len() {
        return Err(MergeError::RowCountMismatch { data_rows: data.len(), table_rows: rows.len() });
    }
    let ghost rows0 = rows@;
    let ghost data0 = data@;
    let n = rows.len();
    let mut rows = rows;
    let mut data = data;
    let mut reversed: Vec<Vec<T>> = Vec::new();
    while rows.len() > 0
        invariant
            n == rows0.len() == data0.len(),
            rows@.len() == data@.len() <= n,
            rows@ == rows0.subrange(0, rows@.len() as int),
            data@ == data0.subrange(0, data@.len() as int),
            reversed@.len() == n - rows@.len(),
            forall|j: int|
                0 <= j < reversed@.len() ==> #[trigger] reversed@[j]@ == merged_row(
                    rows0,
                    data0,
                    n - 1 - j,
                ),
        decreases rows@.len(),
    {
        let mut row = rows.pop().unwrap();
        let mut extra = data.pop().unwrap();
        row.append(&mut extra);
        reversed.push(row);
    }
    let mut merged: Vec<Vec<T>> = Vec::new();
    while reversed.len() > 0
        invariant
            n == rows0.len() == data0.len(),
            reversed@.len() + merged@.len() == n,
            forall|j: int|
                0 <= j < reversed@.len() ==> #[trigger] reversed@[j]@ == merged_row(
                    rows0,
                    data0,
                    n - 1 - j,
                ),
            forall|i: int|
                0 <= i < merged@.len() ==> #[trigger] merged@[i]@ == merged_row(rows0, data0, i),
        decreases reversed@.len(),
    {
        let row = reversed.pop().unwrap();
        merged.push(row);
    }
    Ok(merged)
}

} // verus!
