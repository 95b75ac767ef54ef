//! Result items of one execution and the two-level cursor over them.
use vstd::prelude::*;

verus! {

use crate::column_id::ColumnId;
use crate::error::Error;

/// A column's or buffer's wire representation, converted from the native
/// driver's integer tag exactly once at the boundary.
#[derive(Debug, Clone, Copy, PartialEq, Eq, Structural)]
pub enum WireType {
    Char,
    Binary,
    LongChar,
    LongBinary,
    Text,
    Image,
    TinyInt,
    SmallInt,
    Int,
    BigInt,
    Real,
    Float,
    Bit,
    DateTime,
    DateTime4,
    Date,
    Time,
    Money,
    Money4,
    Numeric,
    Decimal,
    Varchar,
    VarBinary,
    Long,
    UniChar,
    UniText,
    Unknown,
}

/// The character-family types, which the driver null-terminates on fetch.
pub open spec fn is_char_family(t: WireType) -> bool {
    t == WireType::Char || t == WireType::LongChar || t == WireType::Varchar || t
        == WireType::UniChar || t == WireType::Text || t == WireType::UniText
}

pub fn char_family(t: WireType) -> (r: bool)
    ensures
        r == is_char_family(t),
{
    t == WireType::Char || t == WireType::LongChar || t == WireType::Varchar || t
        == WireType::UniChar || t == WireType::Text || t == WireType::UniText
}

/// A column's format: wire type and declared length, precision and scale,
/// plus whether fetches are null-terminated.
#[derive(Debug, Clone, Copy, PartialEq, Eq, Structural)]
pub struct ColFmt {
    pub datatype: WireType,
    pub maxlength: i32,
    pub precision: i32,
    pub scale: i32,
    pub nullterm: bool,
}

/// A described column: its name and format.
#[derive(Debug)]
pub struct Column {
    pub name: String,
    pub fmt: ColFmt,
}

/// One fetched row: per column, the cell's bytes, or None for SQL NULL.
#[derive(Debug)]
pub struct Row {
    pub buffers: Vec<Option<Vec<u8>>>,
}

/// One row-bearing result: columns and the materialized rows.
#[derive(Debug)]
pub struct Rows {
    pub columns: Vec<Column>,
    pub rows: Vec<Row>,
}

impl Rows {
    /// Every row has one cell per column.
    pub open spec fn wf(&self) -> bool {
        forall|i: int|
            0 <= i < self.rows@.len() ==> (#[trigger] self.rows@[i]).buffers@.len()
                == self.columns@.len()
    }

    pub fn new(columns: Vec<Column>, rows: Vec<Row>) -> (r: Self)
        ensures
            r.columns == columns,
            r.rows == rows,
    {
        Rows { columns, rows }
    }
}

/// The kind of the result item the cursor stands on.
#[derive(Debug, Clone, Copy, PartialEq, Eq, Structural)]
pub enum ResultType {
    Nothing,
    Rows,
    Status,
    UpdateCount,
}

/// One result item: a row set, a status scalar, or an update count.
#[derive(Debug)]
pub enum SybResult {
    Rows(Rows),
    Status(i32),
    UpdateCount(u64),
}

pub open spec fn res_type(r: SybResult) -> ResultType {
    match r {
        SybResult::Rows(_) => ResultType::Rows,
        SybResult::Status(_) => ResultType::Status,
        SybResult::UpdateCount(_) => ResultType::UpdateCount,
    }
}

/// The first index at or after `from` whose item has type `t`, or the
/// length when there is none.
pub open spec fn find_from(results: Seq<SybResult>, from: int, t: ResultType) -> int
    decreases results.len() - from,
{
    if from < 0 || from >= results.len() {
        results.len() as int
    } else if res_type(results[from]) == t {
        from
    } else {
        find_from(results, from + 1, t)
    }
}

pub open spec fn pos_val(p: Option<usize>) -> int {
    match p {
        None => -1,
        Some(q) => q as int,
    }
}

/// The caller-facing cursor: the result items of one execution, the
/// accumulated diagnostics, and the two cursor positions. The outer
/// position None means not yet started; a position at the length means
/// exhausted. The inner row position belongs to the current item and is
/// reset whenever the outer cursor moves.
pub struct ResultSet {
    pub results: Vec<SybResult>,
    pub pos: Option<usize>,
    pub row_pos: Option<usize>,
    pub messages: Vec<Error>,
}

impl ResultSet {
    /// Every row of every row-bearing item has one cell per column, and
    /// the cursor positions never pass the lengths.
    pub open spec fn wf(&self) -> bool {
        &&& forall|i: int|
            0 <= i < self.results@.len() ==> ((#[trigger] self.results@[i]) matches
                SybResult::Rows(rw) ==> rw.wf())
        &&& pos_val(self.pos) <= self.results@.len()
        &&& (self.row_pos is Some ==> (0 <= pos_val(self.pos) < self.results@.len()
            && self.results@[pos_val(self.pos)] is Rows && pos_val(self.row_pos)
            <= self.results@[pos_val(self.pos)]->Rows_0.rows@.len()))
    }

    pub fn new(results: Vec<SybResult>, messages: Vec<Error>) -> (r: Self)
        ensures
            r.results == results,
            r.messages == messages,
            r.pos is None,
            r.row_pos is None,
    {
        ResultSet { results, pos: None, row_pos: None, messages }
    }

    /// Advances the outer cursor to the next result item; true while one
    /// exists. The inner row cursor starts over.
    pub fn next_results(&mut self) -> (r: bool)
        requires
            old(self).wf(),
        ensures
            final(self).wf(),
            final(self).results == old(self).results,
            final(self).messages == old(self).messages,
            final(self).row_pos is None,
            pos_val(final(self).pos) == next_pos(pos_val(old(self).pos), old(self).results@.len() as int),
            r == (pos_val(final(self).pos) < old(self).results@.len()),
    {
        let n = self.results.len();
        let newpos: usize = match self.pos {
            None => 0,
            Some(p) => if p < n {
                p + 1
            } else {
                p
            },
        };
        self.pos = Some(newpos);
        self.row_pos = None;
        newpos < n
    }

    /// Advances the outer cursor until it stands on an item of type
    /// `type_`; true when one was found.
    pub fn next_results_of_type(&mut self, type_: ResultType) -> (r: bool)
        requires
            old(self).wf(),
        ensures
            final(self).wf(),
            final(self).results == old(self).results,
            final(self).messages == old(self).messages,
            final(self).row_pos is None,
            pos_val(final(self).pos) == find_from(
                old(self).results@,
                next_pos(pos_val(old(self).pos), old(self).results@.len() as int),
                type_,
            ),
            r == (pos_val(final(self).pos) < old(self).results@.len()),
    {
        let ghost start = next_pos(pos_val(old(self).pos), old(self).results@.len() as int);
        if !self.next_results() {
            proof {
                assert(start == old(self).results@.len() as int);
                assert(find_from(old(self).results@, start, type_) == old(
                    self,
                ).results@.len() as int);
            }
            return false;
        }
        loop
            invariant
                self.wf(),
                self.results == old(self).results,
                self.messages == old(self).messages,
                self.row_pos is None,
                self.pos is Some,
                0 <= pos_val(self.pos) < self.results@.len(),
                start == next_pos(pos_val(old(self).pos), old(self).results@.len() as int),
                start <= pos_val(self.pos),
                find_from(old(self).results@, start, type_) == find_from(
                    old(self).results@,
                    pos_val(self.pos),
                    type_,
                ),
            decreases self.results@.len() - pos_val(self.pos),
        {
            let ghost p = pos_val(self.pos);
            if self.result_type() == type_ {
                proof {
                    assert(find_from(old(self).results@, p, type_) == p);
                }
                return true;
            }
            proof {
                assert(res_type(old(self).results@[p]) != type_);
                assert(find_from(old(self).results@, p, type_) == find_from(
                    old(self).results@,
                    p + 1,
                    type_,
                ));
            }
            if !self.next_results() {
                proof {
                    assert(pos_val(self.pos) == p + 1);
                    assert(p + 1 == old(self).results@.len() as int);
                    assert(find_from(old(self).results@, p + 1, type_) == old(
                        self,
                    ).results@.len() as int);
                }
                return false;
            }
        }
    }

    /// The type of the item the outer cursor stands on; None before the
    /// first item and after the last.
    pub fn result_type(&self) -> (r: ResultType)
        ensures
            r == spec_result_type(*self),
    {
        match self.pos {
            None => ResultType::Nothing,
            Some(p) => {
                if p < self.results.len() {
                    match &self.results[p] {
                        SybResult::Rows(_) => ResultType::Rows,
                        SybResult::Status(_) => ResultType::Status,
                        SybResult::UpdateCount(_) => ResultType::UpdateCount,
                    }
                } else {
                    ResultType::Nothing
                }
            },
        }
    }
}

impl ResultSet {
    /// Advances the inner row cursor of the current row-bearing item;
    /// true while a row exists. On the first call the outer cursor first
    /// seeks the first row-bearing item.
    pub fn next(&mut self) -> (r: bool)
        requires
            old(self).wf(),
        ensures
            final(self).wf(),
            final(self).results == old(self).results,
            final(self).messages == old(self).messages,
            next_spec(*old(self), *final(self), r),
    {
        let n = self.results.len();
        let p: usize = match self.pos {
            None => self.seek_type(ResultType::Rows),
            Some(p) => p,
        };
        if p >= n {
            return false;
        }
        let here_rows: bool;
        let nr: usize;
        match &self.results[p] {
            SybResult::Rows(rw) => {
                here_rows = true;
                nr = rw.rows.len();
            },
            _ => {
                here_rows = false;
                nr = 0;
            },
        }
        if !here_rows {
            return false;
        }
        let q: usize = match self.row_pos {
            None => 0,
            Some(x) => if x < nr {
                x + 1
            } else {
                x
            },
        };
        self.row_pos = Some(q);
        q < nr
    }

    /// Moves the outer cursor to the first item of type `type_`, or past
    /// the end when there is none.
    fn seek_type(&mut self, type_: ResultType) -> (f: usize)
        requires
            old(self).wf(),
            old(self).pos is None,
        ensures
            final(self).wf(),
            final(self).results == old(self).results,
            final(self).messages == old(self).messages,
            final(self).row_pos == old(self).row_pos,
            f as int == find_from(old(self).results@, 0, type_),
            final(self).pos == Some(f),
    {
        let n = self.results.len();
        let mut i: usize = 0;
        while i < n
            invariant
                old(self).wf(),
                old(self).pos is None,
                self == old(self),
                n == self.results@.len(),
                i <= n,
                find_from(self.results@, 0, type_) == find_from(
                    self.results@,
                    i as int,
                    type_,
                ),
            decreases n - i,
        {
            let here = match &self.results[i] {
                SybResult::Rows(_) => type_ == ResultType::Rows,
                SybResult::Status(_) => type_ == ResultType::Status,
                SybResult::UpdateCount(_) => type_ == ResultType::UpdateCount,
            };
            if here {
                proof {
                    assert(find_from(self.results@, i as int, type_) == i as int);
                    assert(self.row_pos is None);
                }
                self.pos = Some(i);
                return i;
            }
            proof {
                assert(find_from(self.results@, i as int, type_) == find_from(
                    self.results@,
                    i + 1,
                    type_,
                ));
            }
            i = i + 1;
        }
        proof {
            assert(self.row_pos is None);
        }
        self.pos = Some(i);
        i
    }

    /// The outer cursor's effective position for the `is_*` tests: the
    /// current position, or the first item before any advance.
    pub open spec fn cur0(&self) -> int {
        match self.pos {
            None => 0,
            Some(p) => p as int,
        }
    }

    /// Whether the current item is a row set.
    pub fn is_rows(&self) -> (r: bool)
        requires
            self.cur0() < self.results@.len(),
        ensures
            r == (self.results@[self.cur0()] is Rows),
    {
        let p: usize = match self.pos {
            None => 0,
            Some(p) => p,
        };
        match &self.results[p] {
            SybResult::Rows(_) => true,
            _ => false,
        }
    }

    /// Whether the current item is a status scalar.
    pub fn is_status(&self) -> (r: bool)
        requires
            self.cur0() < self.results@.len(),
        ensures
            r == (self.results@[self.cur0()] is Status),
    {
        let p: usize = match self.pos {
            None => 0,
            Some(p) => p,
        };
        match &self.results[p] {
            SybResult::Status(_) => true,
            _ => false,
        }
    }

    /// Whether the current item is an update count.
    pub fn is_update_count(&self) -> (r: bool)
        requires
            self.cur0() < self.results@.len(),
        ensures
            r == (self.results@[self.cur0()] is UpdateCount),
    {
        let p: usize = match self.pos {
            None => 0,
            Some(p) => p,
        };
        match &self.results[p] {
            SybResult::UpdateCount(_) => true,
            _ => false,
        }
    }

    /// The number of columns of the current row-bearing item; on the
    /// first call the outer cursor first seeks one.
    pub fn column_count(&mut self) -> (r: Result<usize, Error>)
        requires
            old(self).wf(),
        ensures
            final(self).wf(),
            final(self).results == old(self).results,
            final(self).messages == old(self).messages,
            final(self).row_pos == old(self).row_pos,
            seek_rows_pos(*old(self), *final(self)),
            ({
                let len = old(self).results@.len() as int;
                let p = eff_rows_pos(*old(self));
                if old(self).pos is None && p == len {
                    r matches Err(e) && e.desc@ == "Query did not return rows"@
                } else if p >= len {
                    r matches Err(e) && e.desc@ == "No more results"@
                } else if old(self).results@[p] is Rows {
                    r == Ok::<usize, Error>(old(self).results@[p]->Rows_0.columns@.len() as usize)
                } else {
                    r matches Err(e) && e.desc@ == "Current results do not contain rows"@
                }
            }),
    {
        let n = self.results.len();
        let p: usize = match self.pos {
            None => {
                let f = self.seek_type(ResultType::Rows);
                if f >= n {
                    return Err(Error::from_message("Query did not return rows"));
                }
                f
            },
            Some(p) => p,
        };
        if p >= n {
            return Err(Error::from_message("No more results"));
        }
        match &self.results[p] {
            SybResult::Rows(rw) => Ok(rw.columns.len()),
            _ => Err(Error::from_message("Current results do not contain rows")),
        }
    }

    /// The name of the column at `index` of the current row-bearing item.
    pub fn column_name(&mut self, index: usize) -> (r: Result<String, Error>)
        requires
            old(self).wf(),
        ensures
            final(self).wf(),
            final(self).results == old(self).results,
            final(self).messages == old(self).messages,
            final(self).row_pos == old(self).row_pos,
            seek_rows_pos(*old(self), *final(self)),
            ({
                let len = old(self).results@.len() as int;
                let p = eff_rows_pos(*old(self));
                if old(self).pos is None && p == len {
                    r matches Err(e) && e.desc@ == "Query did not return rows"@
                } else if p >= len {
                    r matches Err(e) && e.desc@ == "No more results"@
                } else if old(self).results@[p] is Rows {
                    if index < old(self).results@[p]->Rows_0.columns@.len() {
                        r matches Ok(name) && name@ == old(
                            self,
                        ).results@[p]->Rows_0.columns@[index as int].name@
                    } else {
                        r matches Err(e) && e.desc@ == "Invalid column index"@
                    }
                } else {
                    r matches Err(e) && e.desc@ == "Current results do not contain rows"@
                }
            }),
    {
        let n = self.results.len();
        let p: usize = match self.pos {
            None => {
                let f = self.seek_type(ResultType::Rows);
                if f >= n {
                    return Err(Error::from_message("Query did not return rows"));
                }
                f
            },
            Some(p) => p,
        };
        if p >= n {
            return Err(Error::from_message("No more results"));
        }
        match &self.results[p] {
            SybResult::Rows(rw) => {
                if index < rw.columns.len() {
                    Ok(rw.columns[index].name.clone())
                } else {
                    Err(Error::from_message("Invalid column index"))
                }
            },
            _ => Err(Error::from_message("Current results do not contain rows")),
        }
    }

    /// The status code of the current item; on the first call the outer
    /// cursor first seeks a status item.
    pub fn status(&mut self) -> (r: Result<i32, Error>)
        requires
            old(self).wf(),
        ensures
            final(self).wf(),
            final(self).results == old(self).results,
            final(self).messages == old(self).messages,
            final(self).row_pos == old(self).row_pos,
            ({
                let len = old(self).results@.len() as int;
                let p = if old(self).pos is None {
                    find_from(old(self).results@, 0, ResultType::Status)
                } else {
                    pos_val(old(self).pos)
                };
                &&& final(self).pos == (if old(self).pos is None {
                    Some(p as usize)
                } else {
                    old(self).pos
                })
                &&& (if old(self).pos is None && p == len {
                    r matches Err(e) && e.desc@
                        == "Current ResultSet does not contain any status result"@
                } else if p >= len {
                    r matches Err(e) && e.desc@ == "Invalid state"@
                } else if old(self).results@[p] is Status {
                    r == Ok::<i32, Error>(old(self).results@[p]->Status_0)
                } else {
                    r matches Err(e) && e.desc@
                        == "ResultSet does not currently point to a status result"@
                })
            }),
    {
        let n = self.results.len();
        let p: usize = match self.pos {
            None => {
                let f = self.seek_type(ResultType::Status);
                if f >= n {
                    return Err(
                        Error::from_message(
                            "Current ResultSet does not contain any status result",
                        ),
                    );
                }
                f
            },
            Some(p) => p,
        };
        if p >= n {
            return Err(Error::from_message("Invalid state"));
        }
        match &self.results[p] {
            SybResult::Status(s) => Ok(*s),
            _ => Err(Error::from_message("ResultSet does not currently point to a status result")),
        }
    }

    /// The affected-row count of the current item; on the first call the
    /// outer cursor first seeks an update-count item.
    pub fn update_count(&mut self) -> (r: Result<u64, Error>)
        requires
            old(self).wf(),
        ensures
            final(self).wf(),
            final(self).results == old(self).results,
            final(self).messages == old(self).messages,
            final(self).row_pos == old(self).row_pos,
            ({
                let len = old(self).results@.len() as int;
                let p = if old(self).pos is None {
                    find_from(old(self).results@, 0, ResultType::UpdateCount)
                } else {
                    pos_val(old(self).pos)
                };
                &&& final(self).pos == (if old(self).pos is None {
                    Some(p as usize)
                } else {
                    old(self).pos
                })
                &&& (if old(self).pos is None && p == len {
                    r matches Err(e) && e.desc@
                        == "Current ResultSet does not contain any update count result"@
                } else if p >= len {
                    r matches Err(e) && e.desc@ == "Invalid state"@
                } else if old(self).results@[p] is UpdateCount {
                    r == Ok::<u64, Error>(old(self).results@[p]->UpdateCount_0)
                } else {
                    r matches Err(e) && e.desc@
                        == "ResultSet does not currently point to an update count result"@
                })
            }),
    {
        let n = self.results.len();
        let p: usize = match self.pos {
            None => {
                let f = self.seek_type(ResultType::UpdateCount);
                if f >= n {
                    return Err(
                        Error::from_message(
                            "Current ResultSet does not contain any update count result",
                        ),
                    );
                }
                f
            },
            Some(p) => p,
        };
        if p >= n {
            return Err(Error::from_message("Invalid state"));
        }
        match &self.results[p] {
            SybResult::UpdateCount(c) => Ok(*c),
            _ => Err(
                Error::from_message("ResultSet does not currently point to an update count result"),
            ),
        }
    }

    /// The current cell's column format and bytes (None for SQL NULL),
    /// for the column given by position or name.
    pub fn get_buffer(&self, col: &ColumnId) -> (r: Result<(ColFmt, Option<Vec<u8>>), Error>)
        requires
            self.wf(),
        ensures
            ({
                let sp = buffer_lookup(*self, *col);
                match r {
                    Ok(fc) => sp matches Ok(sfc) && fc.0 == sfc.0 && (match fc.1 {
                        None => sfc.1 is None,
                        Some(b) => sfc.1 matches Some(sb) && b@ == sb,
                    }),
                    Err(e) => sp matches Err(m) && e.desc@ == m,
                }
            }),
    {
        let p: usize = match self.pos {
            None => {
                return Err(Error::from_message("Invalid state"));
            },
            Some(p) => p,
        };
        if p >= self.results.len() {
            return Err(Error::from_message("ResultSet exhausted"));
        }
        let rw = match &self.results[p] {
            SybResult::Rows(rw) => rw,
            _ => {
                return Err(Error::from_message("Invalid state"));
            },
        };
        let ci: usize = match col {
            ColumnId::I32(i) => {
                if *i < 0 {
                    return Err(Error::from_message("Invalid column index"));
                }
                proof {
                    assert(*i as usize as int == *i as int);
                }
                *i as usize
            },
            ColumnId::String(s) => {
                let f = find_col(&rw.columns, s.as_str());
                if f >= rw.columns.len() {
                    return Err(Error::from_message("Invalid column index"));
                }
                f
            },
        };
        if ci >= rw.columns.len() {
            return Err(Error::from_message("Invalid column index"));
        }
        let rq: usize = match self.row_pos {
            None => {
                return Err(Error::from_message("Invalid state"));
            },
            Some(q) => q,
        };
        if rq >= rw.rows.len() {
            return Err(Error::from_message("Invalid state"));
        }
        let fmt = rw.columns[ci].fmt;
        proof {
            assert(rw.rows@[rq as int].buffers@.len() == rw.columns@.len());
        }
        let cell: Option<Vec<u8>> = match &rw.rows[rq].buffers[ci] {
            None => None,
            Some(b) => Some(b.clone()),
        };
        Ok((fmt, cell))
    }

    /// The accumulated diagnostic messages of this execution.
    pub fn messages(&self) -> (r: &Vec<Error>)
        ensures
            r@ == self.messages@,
    {
        &self.messages
    }

    /// The first diagnostic message, if any.
    pub fn error(&self) -> (r: Option<Error>)
        ensures
            self.messages@.len() == 0 ==> r is None,
            self.messages@.len() > 0 ==> r == Some(self.messages@[0]),
    {
        if self.messages.len() > 0 {
            Some(self.messages[0].clone())
        } else {
            None
        }
    }
}

/// Where the outer cursor stands after one advance.
pub open spec fn next_pos(p: int, len: int) -> int {
    if p < 0 {
        0
    } else if p < len {
        p + 1
    } else {
        p
    }
}

/// First column whose name matches, or the column count.
fn find_col(columns: &Vec<Column>, name: &str) -> (r: usize)
    ensures
        r as int == col_index_from(columns@, name@, 0),
        r <= columns@.len(),
{
    let n = columns.len();
    let mut k: usize = 0;
    while k < n
        invariant
            k <= n,
            n == columns@.len(),
            col_index_from(columns@, name@, 0) == col_index_from(columns@, name@, k as int),
        decreases n - k,
    {
        if crate::str_eq(columns[k].name.as_str(), name) {
            proof {
                assert(col_index_from(columns@, name@, k as int) == k as int);
            }
            return k;
        }
        proof {
            assert(col_index_from(columns@, name@, k as int) == col_index_from(
                columns@,
                name@,
                k + 1,
            ));
        }
        k = k + 1;
    }
    n
}

/// The first index at or after `from` of a column named `name`, or the
/// column count when there is none.
pub open spec fn col_index_from(columns: Seq<Column>, name: Seq<char>, from: int) -> int
    decreases columns.len() - from,
{
    if from < 0 || from >= columns.len() {
        columns.len() as int
    } else if columns[from].name@ == name {
        from
    } else {
        col_index_from(columns, name, from + 1)
    }
}

/// The outer position used by operations that seek the first row-bearing
/// item on their first use.
pub open spec fn eff_rows_pos(rs: ResultSet) -> int {
    if rs.pos is None {
        find_from(rs.results@, 0, ResultType::Rows)
    } else {
        pos_val(rs.pos)
    }
}

/// Where the outer cursor stands after such a seek.
pub open spec fn seek_rows_pos(pre: ResultSet, post: ResultSet) -> bool {
    post.pos == (if pre.pos is None {
        Some(eff_rows_pos(pre) as usize)
    } else {
        pre.pos
    })
}

/// What the current cell lookup yields: the column format and the cell
/// bytes, or the message of the error that explains why there is none.
pub open spec fn buffer_lookup(rs: ResultSet, col: ColumnId) -> Result<
    (ColFmt, Option<Seq<u8>>),
    Seq<char>,
> {
    let len = rs.results@.len() as int;
    if rs.pos is None {
        Err("Invalid state"@)
    } else if pos_val(rs.pos) >= len {
        Err("ResultSet exhausted"@)
    } else if !(rs.results@[pos_val(rs.pos)] is Rows) {
        Err("Invalid state"@)
    } else {
        let rw = rs.results@[pos_val(rs.pos)]->Rows_0;
        let ci = match col {
            ColumnId::I32(i) => if i < 0 {
                -1
            } else {
                i as int
            },
            ColumnId::String(s) => {
                let f = col_index_from(rw.columns@, s@, 0);
                if f == rw.columns@.len() {
                    -1
                } else {
                    f
                }
            },
        };
        if ci < 0 || ci >= rw.columns@.len() {
            Err("Invalid column index"@)
        } else if rs.row_pos is None {
            Err("Invalid state"@)
        } else if pos_val(rs.row_pos) >= rw.rows@.len() {
            Err("Invalid state"@)
        } else {
            let cell = rw.rows@[pos_val(rs.row_pos)].buffers@[ci];
            Ok(
                (
                    rw.columns@[ci].fmt,
                    match cell {
                        None => None,
                        Some(b) => Some(b@),
                    },
                ),
            )
        }
    }
}

/// What `next` does: where the cursors stand afterwards and what it
/// returns, as a relation between the state before and after.
pub open spec fn next_spec(pre: ResultSet, post: ResultSet, r: bool) -> bool {
    let len = pre.results@.len() as int;
    let p = if pre.pos is None {
        find_from(pre.results@, 0, ResultType::Rows)
    } else {
        pos_val(pre.pos)
    };
    &&& post.pos == (if pre.pos is None {
        Some(p as usize)
    } else {
        pre.pos
    })
    &&& (if 0 <= p < len && pre.results@[p] is Rows {
        let nrows = pre.results@[p]->Rows_0.rows@.len() as int;
        let q = next_pos(pos_val(pre.row_pos), nrows);
        post.row_pos == Some(q as usize) && r == (q < nrows)
    } else {
        post.row_pos == pre.row_pos && r == false
    })
}

pub open spec fn spec_result_type(rs: ResultSet) -> ResultType {
    match rs.pos {
        None => ResultType::Nothing,
        Some(p) => {
            if (p as int) < rs.results@.len() {
                res_type(rs.results@[p as int])
            } else {
                ResultType::Nothing
            }
        },
    }
}

} // verus!
