//! Row materialization: column bind planning and per-cell indicator
//! handling for fetched rows.
use vstd::prelude::*;

verus! {

use crate::convert::cell_view;
use crate::error::Error;
use crate::result_set::is_char_family;
use crate::result_set::char_family;
use crate::result_set::ColFmt;
use crate::result_set::Row;

/// The format a column is bound with: character-family columns get one
/// extra byte and a null-terminated fetch mode, everything else is bound
/// as described.
pub open spec fn adjusted_fmt(fmt: ColFmt) -> ColFmt {
    if is_char_family(fmt.datatype) {
        ColFmt { maxlength: (fmt.maxlength + 1) as i32, nullterm: true, ..fmt }
    } else {
        ColFmt { nullterm: false, ..fmt }
    }
}

/// Adjusts a described column's format for binding.
pub fn adjust_column_fmt(fmt: &ColFmt) -> (r: ColFmt)
    requires
        0 <= fmt.maxlength < 0x7fffffff,
    ensures
        r == adjusted_fmt(*fmt),
{
    if char_family(fmt.datatype) {
        ColFmt {
            datatype: fmt.datatype,
            maxlength: fmt.maxlength + 1,
            precision: fmt.precision,
            scale: fmt.scale,
            nullterm: true,
        }
    } else {
        ColFmt {
            datatype: fmt.datatype,
            maxlength: fmt.maxlength,
            precision: fmt.precision,
            scale: fmt.scale,
            nullterm: false,
        }
    }
}

/// One column's state after a fetch: the indicator, the reported data
/// length, and the bound receive buffer.
#[derive(Debug)]
pub struct BindData {
    pub indicator: i16,
    pub data_length: i32,
    pub buffer: Vec<u8>,
}

/// What one fetched cell materializes to: None for a NULL indicator, the
/// first `data_length` bytes on success (minus the synthetic terminator
/// for character columns), and an error for anything else — a truncation
/// indicator fails the whole materialization.
pub open spec fn cell_outcome(charlike: bool, ind: i16, dlen: int, buf: Seq<u8>) -> Result<
    Option<Seq<u8>>,
    Seq<char>,
> {
    if ind == -1 {
        Ok(None)
    } else if ind == 0 {
        if 0 <= dlen <= buf.len() {
            if charlike {
                if dlen >= 1 {
                    Ok(Some(buf.take(dlen - 1)))
                } else {
                    Err("Invalid data length"@)
                }
            } else {
                Ok(Some(buf.take(dlen)))
            }
        } else {
            Err("Invalid data length"@)
        }
    } else {
        Err("Data truncation occured"@)
    }
}

/// Materializes one cell from its bind state.
pub fn cell_from_bind(charlike: bool, indicator: i16, data_length: i32, buffer: &Vec<u8>) -> (r:
    Result<Option<Vec<u8>>, Error>)
    ensures
        ({
            match cell_outcome(charlike, indicator, data_length as int, buffer@) {
                Ok(c) => r matches Ok(cell) && cell_view(cell) == c,
                Err(m) => r matches Err(e) && e.desc@ == m,
            }
        }),
{
    if indicator == -1 {
        Ok(None)
    } else if indicator == 0 {
        if data_length < 0 || data_length as usize > buffer.len() {
            return Err(Error::from_message("Invalid data length"));
        }
        let len = data_length as usize;
        let end: usize = if charlike {
            if len < 1 {
                return Err(Error::from_message("Invalid data length"));
            }
            len - 1
        } else {
            len
        };
        let mut out: Vec<u8> = Vec::new();
        let mut k: usize = 0;
        while k < end
            invariant
                k <= end <= buffer@.len(),
                out@ == buffer@.take(k as int),
            decreases end - k,
        {
            out.push(buffer[k]);
            proof {
                assert(out@ =~= buffer@.take(k + 1 as int));
            }
            k = k + 1;
        }
        Ok(Some(out))
    } else {
        Err(Error::from_message("Data truncation occured"))
    }
}

/// Materializes one fetched row from the bind states; fails on the first
/// cell whose indicator signals truncation or whose lengths are
/// inconsistent.
pub fn build_row(charlike: &Vec<bool>, binds: &Vec<BindData>) -> (r: Result<Row, Error>)
    requires
        charlike@.len() == binds@.len(),
    ensures
        r matches Ok(row) ==> (row.buffers@.len() == binds@.len() && forall|i: int|
            0 <= i < binds@.len() ==> (cell_outcome(
                charlike@[i],
                (#[trigger] binds@[i]).indicator,
                binds@[i].data_length as int,
                binds@[i].buffer@,
            ) matches Ok(c) && cell_view(row.buffers@[i]) == c)),
        r matches Err(e) ==> exists|i: int|
            0 <= i < binds@.len() && (cell_outcome(
                charlike@[i],
                (#[trigger] binds@[i]).indicator,
                binds@[i].data_length as int,
                binds@[i].buffer@,
            ) matches Err(m) && e.desc@ == m),
{
    let n = binds.len();
    let mut buffers: Vec<Option<Vec<u8>>> = Vec::new();
    let mut i: usize = 0;
    while i < n
        invariant
            i <= n,
            n == binds@.len(),
            charlike@.len() == binds@.len(),
            buffers@.len() == i,
            forall|k: int|
                0 <= k < i ==> (cell_outcome(
                    charlike@[k],
                    (#[trigger] binds@[k]).indicator,
                    binds@[k].data_length as int,
                    binds@[k].buffer@,
                ) matches Ok(c) && cell_view(buffers@[k]) == c),
        decreases n - i,
    {
        let b = &binds[i];
        match cell_from_bind(charlike[i], b.indicator, b.data_length, &b.buffer) {
            Ok(cell) => {
                buffers.push(cell);
            },
            Err(e) => {
                return Err(e);
            },
        }
        i = i + 1;
    }
    Ok(Row { buffers })
}

} // verus!
