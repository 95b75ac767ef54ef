//! Typed access to materialized cells: direct reinterpretation where the
//! wire type already matches, and otherwise an exact description of the
//! conversion to ask the driver for, with verified finishing steps.
use vstd::prelude::*;

verus! {

use crate::column_id::ColumnId;
use crate::error::Error;
use crate::result_set::buffer_lookup;
use crate::result_set::ColFmt;
use crate::result_set::ResultSet;
use crate::result_set::WireType;
use crate::strutil::utf8_lossy;
use crate::strutil::utf8_lossy_of;
use crate::value::decimal_of_text;
use crate::value::decimal_parse_text;
use crate::value::Date;
use crate::value::DateTime;
use crate::value::Time;
use crate::value::Value;

/// The declared precision that marks a numeric column as holding a plain,
/// scale-0 value that fits a 64-bit integer.
pub const DEFAULT_NUMERIC_PRECISION: i32 = 18;

/// The destination format of a driver conversion: the target wire type
/// and buffer size, and whether precision and scale follow the source.
#[derive(Debug, Clone, Copy, PartialEq, Eq, Structural)]
pub struct DstFmt {
    pub datatype: WireType,
    pub maxlength: i32,
    pub precision_from_src: bool,
    pub scale_from_src: bool,
}

/// One conversion to ask the driver for: source format and bytes, and
/// the destination format.
#[derive(Debug)]
pub struct ConvReq {
    pub srcfmt: ColFmt,
    pub srcdata: Vec<u8>,
    pub dstfmt: DstFmt,
}

/// Outcome of a typed cell access: the value (None for SQL NULL), or the
/// conversion still needed.
#[derive(Debug)]
pub enum Fetch<T> {
    Done(Option<T>),
    Convert(ConvReq),
}

/// A date/time decomposition to ask the driver for.
#[derive(Debug)]
pub struct CrackReq {
    pub kind: WireType,
    pub data: Vec<u8>,
}

/// The calendar fields of a cracked wire date value. The month is
/// zero-based, as the driver reports it.
#[derive(Debug, Clone, Copy, PartialEq, Eq, Structural)]
pub struct CalendarFields {
    pub year: i32,
    pub month: i32,
    pub day: i32,
    pub hour: i32,
    pub minute: i32,
    pub second: i32,
    pub millisecond: i32,
}

/// Which verified finisher interprets a conversion's result bytes.
#[derive(Debug, Clone, Copy, PartialEq, Eq, Structural)]
pub enum ConvFinish {
    Utf8String,
    IntLe4,
    BigIntLe8,
    DecimalText,
}

/// One step of a generic value access.
#[derive(Debug)]
pub enum ValueFetch {
    Ready(Value),
    Convert(ConvReq, ConvFinish),
    Crack(CrackReq),
    Float(WireType, Vec<u8>),
}

/// The value of four little-endian bytes read as an unsigned integer.
pub open spec fn le_u32_val(b: Seq<u8>) -> int {
    b[0] + 256 * (b[1] as int) + 65536 * (b[2] as int) + 16777216 * (b[3] as int)
}

/// The value of four little-endian bytes read as a two's-complement
/// 32-bit integer.
pub open spec fn le_i32_val(b: Seq<u8>) -> int {
    if le_u32_val(b) >= 0x8000_0000 {
        le_u32_val(b) - 0x1_0000_0000
    } else {
        le_u32_val(b)
    }
}

pub open spec fn le_u64_val(b: Seq<u8>) -> int {
    b[0] + 0x100 * (b[1] as int) + 0x1_0000 * (b[2] as int) + 0x100_0000 * (b[3] as int)
        + 0x1_0000_0000 * (b[4] as int) + 0x100_0000_0000 * (b[5] as int) + 0x1_0000_0000_0000 * (
    b[6] as int) + 0x100_0000_0000_0000 * (b[7] as int)
}

/// The value of eight little-endian bytes read as a two's-complement
/// 64-bit integer.
pub open spec fn le_i64_val(b: Seq<u8>) -> int {
    if le_u64_val(b) >= 0x8000_0000_0000_0000 {
        le_u64_val(b) - 0x1_0000_0000_0000_0000
    } else {
        le_u64_val(b)
    }
}

/// Reads a 32-bit little-endian two's-complement integer.
pub fn i32_from_le(b: &Vec<u8>) -> (r: i32)
    requires
        b@.len() == 4,
    ensures
        r as int == le_i32_val(b@),
{
    let u: u32 = (b[0] as u32) + 256 * (b[1] as u32) + 65536 * (b[2] as u32) + 16777216 * (
    b[3] as u32);
    if u >= 0x8000_0000u32 {
        let v: i64 = (u as i64) - 0x1_0000_0000i64;
        assert(-0x8000_0000 <= v < 0);
        v as i32
    } else {
        u as i32
    }
}

/// Reads a 64-bit little-endian two's-complement integer.
pub fn i64_from_le(b: &Vec<u8>) -> (r: i64)
    requires
        b@.len() == 8,
    ensures
        r as int == le_i64_val(b@),
{
    let u: u64 = (b[0] as u64) + 0x100 * (b[1] as u64) + 0x1_0000 * (b[2] as u64) + 0x100_0000 * (
    b[3] as u64) + 0x1_0000_0000 * (b[4] as u64) + 0x100_0000_0000 * (b[5] as u64)
        + 0x1_0000_0000_0000 * (b[6] as u64) + 0x100_0000_0000_0000 * (b[7] as u64);
    if u >= 0x8000_0000_0000_0000u64 {
        let v: i64 = ((u - 0x8000_0000_0000_0000u64) as i64) + i64::MIN;
        v
    } else {
        u as i64
    }
}

/// Interprets a conversion result as a 32-bit integer.
pub fn finish_i32(b: &Vec<u8>) -> (r: Result<i32, Error>)
    ensures
        b@.len() == 4 ==> (r matches Ok(v) && v as int == le_i32_val(b@)),
        b@.len() != 4 ==> (r matches Err(e) && e.desc@ == "Invalid conversion result length"@),
{
    if b.len() == 4 {
        Ok(i32_from_le(b))
    } else {
        Err(Error::from_message("Invalid conversion result length"))
    }
}

/// Interprets a conversion result as a 64-bit integer.
pub fn finish_i64(b: &Vec<u8>) -> (r: Result<i64, Error>)
    ensures
        b@.len() == 8 ==> (r matches Ok(v) && v as int == le_i64_val(b@)),
        b@.len() != 8 ==> (r matches Err(e) && e.desc@ == "Invalid conversion result length"@),
{
    if b.len() == 8 {
        Ok(i64_from_le(b))
    } else {
        Err(Error::from_message("Invalid conversion result length"))
    }
}

/// Interprets a conversion result as a boolean: any non-zero integer.
pub fn finish_bool(b: &Vec<u8>) -> (r: Result<bool, Error>)
    ensures
        b@.len() == 8 ==> (r matches Ok(v) && v == (le_i64_val(b@) != 0)),
        b@.len() != 8 ==> (r matches Err(e) && e.desc@ == "Invalid conversion result length"@),
{
    match finish_i64(b) {
        Ok(v) => Ok(v != 0),
        Err(e) => Err(e),
    }
}

/// Interprets text conversion results: decodes the bytes as UTF-8.
pub fn finish_string(b: &Vec<u8>) -> (r: String)
    ensures
        r@ == utf8_lossy_of(b@),
{
    utf8_lossy(b)
}

/// Interprets a text conversion result as an exact decimal.
pub fn finish_decimal(b: &Vec<u8>) -> (r: Result<rust_decimal::Decimal, Error>)
    ensures
        decimal_of_text(utf8_lossy_of(b@)) matches Some(d) ==> r == Ok::<
            rust_decimal::Decimal,
            Error,
        >(d),
        decimal_of_text(utf8_lossy_of(b@)) is None ==> (r matches Err(e) && e.desc@
            == "Invalid decimal"@),
{
    let s = utf8_lossy(b);
    match decimal_parse_text(s.as_str()) {
        Some(d) => Ok(d),
        None => Err(Error::from_message("Invalid decimal")),
    }
}

/// A date from cracked calendar fields; the driver's month is zero-based.
pub fn date_from_fields(rec: &CalendarFields) -> (r: Result<Date, Error>)
    ensures
        spec_date_of(*rec) matches Some(d) ==> r == Ok::<Date, Error>(d),
        spec_date_of(*rec) is None ==> (r matches Err(e) && e.desc@ == "Invalid date"@),
{
    if rec.year < 0 || rec.month < 0 || rec.day < 0 {
        return Err(Error::from_message("Invalid date"));
    }
    if rec.month >= 12 {
        return Err(Error::from_message("Invalid date"));
    }
    match Date::new(rec.year as u32, (rec.month + 1) as u32, rec.day as u32) {
        Some(d) => Ok(d),
        None => Err(Error::from_message("Invalid date")),
    }
}

/// The date the cracked fields name, if they name one the model holds.
pub open spec fn spec_date_of(rec: CalendarFields) -> Option<Date> {
    if 0 <= rec.year <= 9999 && 0 <= rec.month < 12 && 1 <= rec.day && rec.day
        <= crate::value::days_in_month(rec.year as int, rec.month + 1) {
        Some(Date { year: rec.year as u32, month: (rec.month + 1) as u32, day: rec.day as u32 })
    } else {
        None
    }
}

/// A time of day from cracked calendar fields.
pub fn time_from_fields(rec: &CalendarFields) -> (r: Result<Time, Error>)
    ensures
        spec_time_of(*rec) matches Some(t) ==> r == Ok::<Time, Error>(t),
        spec_time_of(*rec) is None ==> (r matches Err(e) && e.desc@ == "Invalid time"@),
{
    if rec.hour < 0 || rec.minute < 0 || rec.second < 0 || rec.millisecond < 0 {
        return Err(Error::from_message("Invalid time"));
    }
    match Time::new(
        rec.hour as u32,
        rec.minute as u32,
        rec.second as u32,
        rec.millisecond as u32,
    ) {
        Some(t) => Ok(t),
        None => Err(Error::from_message("Invalid time")),
    }
}

/// The time of day the cracked fields name, when in range.
pub open spec fn spec_time_of(rec: CalendarFields) -> Option<Time> {
    if 0 <= rec.hour < 24 && 0 <= rec.minute < 60 && 0 <= rec.second < 60 && 0 <= rec.millisecond
        < 1000 {
        Some(
            Time {
                hour: rec.hour as u32,
                minute: rec.minute as u32,
                second: rec.second as u32,
                millisecond: rec.millisecond as u32,
            },
        )
    } else {
        None
    }
}

/// A date and time from cracked calendar fields.
pub fn datetime_from_fields(rec: &CalendarFields) -> (r: Result<DateTime, Error>)
    ensures
        spec_date_of(*rec) is None ==> (r matches Err(e) && e.desc@ == "Invalid date"@),
        spec_date_of(*rec) is Some && spec_time_of(*rec) is None ==> (r matches Err(e) && e.desc@
            == "Invalid time"@),
        ({
            match (spec_date_of(*rec), spec_time_of(*rec)) {
                (Some(d), Some(t)) => r == Ok::<DateTime, Error>(DateTime { date: d, time: t }),
                _ => true,
            }
        }),
{
    let d = match date_from_fields(rec) {
        Ok(d) => d,
        Err(e) => {
            proof {
                assert(spec_date_of(*rec) is None);
            }
            return Err(e);
        },
    };
    let t = match time_from_fields(rec) {
        Ok(t) => t,
        Err(e) => {
            proof {
                assert(spec_date_of(*rec) is Some);
                assert(spec_time_of(*rec) is None);
            }
            return Err(e);
        },
    };
    Ok(DateTime { date: d, time: t })
}

pub open spec fn cell_view(c: Option<Vec<u8>>) -> Option<Seq<u8>> {
    match c {
        None => None,
        Some(b) => Some(b@),
    }
}

/// What a 32-bit integer access yields for a cell: None for SQL NULL, the
/// reinterpreted value when the wire type already matches, and otherwise
/// the conversion to ask the driver for.
pub open spec fn int_fetch_spec(fmt: ColFmt, cell: Option<Seq<u8>>, r: Result<
    Fetch<i32>,
    Error,
>) -> bool {
    match cell {
        None => r matches Ok(f) && f matches Fetch::Done(v) && v is None,
        Some(b) => {
            if fmt.datatype == WireType::Int {
                if b.len() == 4 {
                    r matches Ok(f) && f matches Fetch::Done(v) && v matches Some(x) && x as int
                        == le_i32_val(b)
                } else {
                    r matches Err(e) && e.desc@ == "Invalid buffer length"@
                }
            } else {
                r matches Ok(f) && f matches Fetch::Convert(req) && req.srcfmt == fmt
                    && req.srcdata@ == b && req.dstfmt == (DstFmt {
                    datatype: WireType::Int,
                    maxlength: 4,
                    precision_from_src: false,
                    scale_from_src: false,
                })
            }
        },
    }
}

/// What a 64-bit integer access yields for a cell.
pub open spec fn long_fetch_spec(fmt: ColFmt, cell: Option<Seq<u8>>, r: Result<
    Fetch<i64>,
    Error,
>) -> bool {
    match cell {
        None => r matches Ok(f) && f matches Fetch::Done(v) && v is None,
        Some(b) => {
            if fmt.datatype == WireType::Long {
                if b.len() == 8 {
                    r matches Ok(f) && f matches Fetch::Done(v) && v matches Some(x) && x as int
                        == le_i64_val(b)
                } else {
                    r matches Err(e) && e.desc@ == "Invalid buffer length"@
                }
            } else {
                r matches Ok(f) && f matches Fetch::Convert(req) && req.srcfmt == fmt
                    && req.srcdata@ == b && req.dstfmt == (DstFmt {
                    datatype: WireType::Long,
                    maxlength: 8,
                    precision_from_src: false,
                    scale_from_src: false,
                })
            }
        },
    }
}

/// What a string access yields for a cell: character cells decode
/// directly; anything else converts to text, with a widened destination
/// for binary-sourced data.
pub open spec fn string_fetch_spec(fmt: ColFmt, cell: Option<Seq<u8>>, r: Result<
    Fetch<String>,
    Error,
>) -> bool {
    match cell {
        None => r matches Ok(f) && f matches Fetch::Done(v) && v is None,
        Some(b) => {
            if fmt.datatype == WireType::Char || fmt.datatype == WireType::Text {
                r matches Ok(f) && f matches Fetch::Done(v) && v matches Some(s) && s@
                    == utf8_lossy_of(b)
            } else if fmt.datatype == WireType::Binary || fmt.datatype == WireType::LongBinary
                || fmt.datatype == WireType::Image {
                if 2 * b.len() + 16 <= 0x7fffffff {
                    r matches Ok(f) && f matches Fetch::Convert(req) && req.srcfmt == fmt
                        && req.srcdata@ == b && req.dstfmt == (DstFmt {
                        datatype: WireType::Char,
                        maxlength: (2 * b.len() + 16) as i32,
                        precision_from_src: false,
                        scale_from_src: false,
                    })
                } else {
                    r matches Err(e) && e.desc@ == "Buffer too large to convert"@
                }
            } else {
                r matches Ok(f) && f matches Fetch::Convert(req) && req.srcfmt == fmt
                    && req.srcdata@ == b && req.dstfmt == (DstFmt {
                    datatype: WireType::Char,
                    maxlength: 128,
                    precision_from_src: false,
                    scale_from_src: false,
                })
            }
        },
    }
}

/// What a blob access yields for a cell.
pub open spec fn blob_fetch_spec(fmt: ColFmt, cell: Option<Seq<u8>>, r: Result<
    Fetch<Vec<u8>>,
    Error,
>) -> bool {
    match cell {
        None => r matches Ok(f) && f matches Fetch::Done(v) && v is None,
        Some(b) => {
            if fmt.datatype == WireType::Binary || fmt.datatype == WireType::Image {
                r matches Ok(f) && f matches Fetch::Done(v) && v matches Some(bytes) && bytes@ == b
            } else if fmt.datatype == WireType::VarBinary {
                r matches Err(e) && e.desc@ == "Unsupported datatype"@
            } else {
                r matches Ok(f) && f matches Fetch::Convert(req) && req.srcfmt == fmt
                    && req.srcdata@ == b && req.dstfmt == (DstFmt {
                    datatype: WireType::Binary,
                    maxlength: fmt.maxlength,
                    precision_from_src: false,
                    scale_from_src: false,
                })
            }
        },
    }
}

/// The numeric family a decimal access accepts.
pub open spec fn is_decimal_source(t: WireType) -> bool {
    t == WireType::Int || t == WireType::Bit || t == WireType::TinyInt || t == WireType::SmallInt
        || t == WireType::Numeric || t == WireType::Money || t == WireType::Money4 || t
        == WireType::Decimal || t == WireType::Real || t == WireType::Float
}

/// What a decimal access yields for a cell: numeric sources convert to
/// text, which `finish_decimal` parses exactly.
pub open spec fn decimal_fetch_spec(fmt: ColFmt, cell: Option<Seq<u8>>, r: Result<
    Fetch<rust_decimal::Decimal>,
    Error,
>) -> bool {
    match cell {
        None => r matches Ok(f) && f matches Fetch::Done(v) && v is None,
        Some(b) => {
            if is_decimal_source(fmt.datatype) {
                r matches Ok(f) && f matches Fetch::Convert(req) && req.srcfmt == fmt
                    && req.srcdata@ == b && req.dstfmt == (DstFmt {
                    datatype: WireType::Char,
                    maxlength: 1024,
                    precision_from_src: true,
                    scale_from_src: true,
                })
            } else {
                r matches Err(e) && e.desc@ == "Unsupported datatype"@
            }
        },
    }
}

/// What a date/time access yields for a cell: the crack request for the
/// driver, after the wire size is checked.
pub open spec fn daterec_fetch_spec(fmt: ColFmt, cell: Option<Seq<u8>>, r: Result<
    Fetch<CrackReq>,
    Error,
>) -> bool {
    match cell {
        None => r matches Ok(f) && f matches Fetch::Done(v) && v is None,
        Some(b) => {
            if is_date_kind(fmt.datatype) {
                if b.len() == date_wire_size(fmt.datatype) {
                    r matches Ok(f) && f matches Fetch::Done(v) && v matches Some(cr) && cr.kind
                        == fmt.datatype && cr.data@ == b
                } else {
                    r matches Err(e) && e.desc@ == "Invalid buffer length"@
                }
            } else {
                r matches Err(e) && e.desc@ == "Invalid conversion"@
            }
        },
    }
}

/// What a generic value access yields for a cell, per wire type.
pub open spec fn value_step_spec(fmt: ColFmt, cell: Option<Seq<u8>>, r: Result<
    ValueFetch,
    Error,
>) -> bool {
    match cell {
        None => r matches Ok(f) && f matches ValueFetch::Ready(v) && v == Value::Null,
        Some(b) => {
            let t = fmt.datatype;
            if t == WireType::Binary || t == WireType::Image {
                r matches Ok(f) && f matches ValueFetch::Ready(v) && v matches Value::Blob(bytes)
                    && bytes@ == b
            } else if t == WireType::Char || t == WireType::Text {
                r matches Ok(f) && f matches ValueFetch::Ready(v) && v matches Value::String(s)
                    && s@ == utf8_lossy_of(b)
            } else if t == WireType::UniChar {
                if b.len() <= 0x7fffffff {
                    r matches Ok(f) && f matches ValueFetch::Convert(req, fin) && req.srcfmt == fmt
                        && req.srcdata@ == b && fin == ConvFinish::Utf8String && req.dstfmt == (
                    DstFmt {
                        datatype: WireType::Char,
                        maxlength: b.len() as i32,
                        precision_from_src: false,
                        scale_from_src: false,
                    })
                } else {
                    r matches Err(e) && e.desc@ == "Buffer too large to convert"@
                }
            } else if is_date_kind(t) {
                if b.len() == date_wire_size(t) {
                    r matches Ok(f) && f matches ValueFetch::Crack(cr) && cr.kind == t && cr.data@
                        == b
                } else {
                    r matches Err(e) && e.desc@ == "Invalid buffer length"@
                }
            } else if t == WireType::Int {
                if b.len() == 4 {
                    r matches Ok(f) && f matches ValueFetch::Ready(v) && v matches Value::I32(x)
                        && x as int == le_i32_val(b)
                } else {
                    r matches Err(e) && e.desc@ == "Invalid buffer length"@
                }
            } else if t == WireType::Bit || t == WireType::TinyInt || t == WireType::SmallInt {
                r matches Ok(f) && f matches ValueFetch::Convert(req, fin) && req.srcfmt == fmt
                    && req.srcdata@ == b && fin == ConvFinish::IntLe4 && req.dstfmt == (DstFmt {
                    datatype: WireType::Int,
                    maxlength: 4,
                    precision_from_src: false,
                    scale_from_src: false,
                })
            } else if t == WireType::Money || t == WireType::Money4 || t == WireType::Decimal || t
                == WireType::Numeric {
                if fmt.precision == DEFAULT_NUMERIC_PRECISION && fmt.scale == 0 {
                    r matches Ok(f) && f matches ValueFetch::Convert(req, fin) && req.srcfmt == fmt
                        && req.srcdata@ == b && fin == ConvFinish::BigIntLe8 && req.dstfmt == (
                    DstFmt {
                        datatype: WireType::BigInt,
                        maxlength: 8,
                        precision_from_src: false,
                        scale_from_src: false,
                    })
                } else {
                    r matches Ok(f) && f matches ValueFetch::Convert(req, fin) && req.srcfmt == fmt
                        && req.srcdata@ == b && fin == ConvFinish::DecimalText && req.dstfmt == (
                    DstFmt {
                        datatype: WireType::Char,
                        maxlength: 1024,
                        precision_from_src: true,
                        scale_from_src: true,
                    })
                }
            } else if t == WireType::Real || t == WireType::Float {
                r matches Ok(f) && f matches ValueFetch::Float(ft, bytes) && ft == t && bytes@ == b
            } else {
                r matches Err(e) && e.desc@ == "Unsupported datatype"@
            }
        },
    }
}

/// One step of a generic value access, on a cell's format and bytes.
pub fn value_step(fmt: &ColFmt, cell: Option<Vec<u8>>) -> (r: Result<ValueFetch, Error>)
    ensures
        value_step_spec(*fmt, cell_view(cell), r),
{
    let b = match cell {
        None => {
            return Ok(ValueFetch::Ready(Value::Null));
        },
        Some(b) => b,
    };
    let t = fmt.datatype;
    if t == WireType::Binary || t == WireType::Image {
        Ok(ValueFetch::Ready(Value::Blob(b)))
    } else if t == WireType::Char || t == WireType::Text {
        Ok(ValueFetch::Ready(Value::String(utf8_lossy(&b))))
    } else if t == WireType::UniChar {
        if b.len() <= 0x7fffffffusize {
            let len = b.len() as i32;
            Ok(
                ValueFetch::Convert(
                    ConvReq {
                        srcfmt: *fmt,
                        srcdata: b,
                        dstfmt: DstFmt {
                            datatype: WireType::Char,
                            maxlength: len,
                            precision_from_src: false,
                            scale_from_src: false,
                        },
                    },
                    ConvFinish::Utf8String,
                ),
            )
        } else {
            Err(Error::from_message("Buffer too large to convert"))
        }
    } else if t == WireType::Date || t == WireType::Time || t == WireType::DateTime || t
        == WireType::DateTime4 {
        let want: usize = if t == WireType::DateTime {
            8
        } else {
            4
        };
        if b.len() == want {
            Ok(ValueFetch::Crack(CrackReq { kind: t, data: b }))
        } else {
            Err(Error::from_message("Invalid buffer length"))
        }
    } else if t == WireType::Int {
        if b.len() == 4 {
            Ok(ValueFetch::Ready(Value::I32(i32_from_le(&b))))
        } else {
            Err(Error::from_message("Invalid buffer length"))
        }
    } else if t == WireType::Bit || t == WireType::TinyInt || t == WireType::SmallInt {
        Ok(
            ValueFetch::Convert(
                ConvReq {
                    srcfmt: *fmt,
                    srcdata: b,
                    dstfmt: DstFmt {
                        datatype: WireType::Int,
                        maxlength: 4,
                        precision_from_src: false,
                        scale_from_src: false,
                    },
                },
                ConvFinish::IntLe4,
            ),
        )
    } else if t == WireType::Money || t == WireType::Money4 || t == WireType::Decimal || t
        == WireType::Numeric {
        if fmt.precision == DEFAULT_NUMERIC_PRECISION && fmt.scale == 0 {
            Ok(
                ValueFetch::Convert(
                    ConvReq {
                        srcfmt: *fmt,
                        srcdata: b,
                        dstfmt: DstFmt {
                            datatype: WireType::BigInt,
                            maxlength: 8,
                            precision_from_src: false,
                            scale_from_src: false,
                        },
                    },
                    ConvFinish::BigIntLe8,
                ),
            )
        } else {
            Ok(
                ValueFetch::Convert(
                    ConvReq {
                        srcfmt: *fmt,
                        srcdata: b,
                        dstfmt: DstFmt {
                            datatype: WireType::Char,
                            maxlength: 1024,
                            precision_from_src: true,
                            scale_from_src: true,
                        },
                    },
                    ConvFinish::DecimalText,
                ),
            )
        }
    } else if t == WireType::Real || t == WireType::Float {
        Ok(ValueFetch::Float(t, b))
    } else {
        Err(Error::from_message("Unsupported datatype"))
    }
}

/// Interprets a conversion's result bytes as the finisher directs.
pub fn value_finish(fin: ConvFinish, b: &Vec<u8>) -> (r: Result<Value, Error>)
    ensures
        ({
            match fin {
                ConvFinish::Utf8String => r matches Ok(v) && v matches Value::String(s) && s@
                    == utf8_lossy_of(b@),
                ConvFinish::IntLe4 => {
                    if b@.len() == 4 {
                        r matches Ok(v) && v matches Value::I32(x) && x as int == le_i32_val(b@)
                    } else {
                        r matches Err(e) && e.desc@ == "Invalid conversion result length"@
                    }
                },
                ConvFinish::BigIntLe8 => {
                    if b@.len() == 8 {
                        r matches Ok(v) && v matches Value::I64(x) && x as int == le_i64_val(b@)
                    } else {
                        r matches Err(e) && e.desc@ == "Invalid conversion result length"@
                    }
                },
                ConvFinish::DecimalText => {
                    match decimal_of_text(utf8_lossy_of(b@)) {
                        Some(d) => r == Ok::<Value, Error>(Value::Decimal(d)),
                        None => r matches Err(e) && e.desc@ == "Invalid decimal"@,
                    }
                },
            }
        }),
{
    match fin {
        ConvFinish::Utf8String => Ok(Value::String(utf8_lossy(b))),
        ConvFinish::IntLe4 => {
            match finish_i32(b) {
                Ok(v) => Ok(Value::I32(v)),
                Err(e) => Err(e),
            }
        },
        ConvFinish::BigIntLe8 => {
            match finish_i64(b) {
                Ok(v) => Ok(Value::I64(v)),
                Err(e) => Err(e),
            }
        },
        ConvFinish::DecimalText => {
            match finish_decimal(b) {
                Ok(d) => Ok(Value::Decimal(d)),
                Err(e) => Err(e),
            }
        },
    }
}

/// Assembles the semantic date/time value for a cracked wire value of the
/// given kind.
pub fn value_from_daterec(kind: WireType, rec: &CalendarFields) -> (r: Result<Value, Error>)
    ensures
        ({
            if kind == WireType::Date {
                match spec_date_of(*rec) {
                    Some(d) => r == Ok::<Value, Error>(Value::Date(d)),
                    None => r matches Err(e) && e.desc@ == "Invalid date"@,
                }
            } else if kind == WireType::Time {
                match spec_time_of(*rec) {
                    Some(t) => r == Ok::<Value, Error>(Value::Time(t)),
                    None => r matches Err(e) && e.desc@ == "Invalid time"@,
                }
            } else if kind == WireType::DateTime || kind == WireType::DateTime4 {
                match (spec_date_of(*rec), spec_time_of(*rec)) {
                    (Some(d), Some(t)) => r == Ok::<Value, Error>(
                        Value::DateTime(DateTime { date: d, time: t }),
                    ),
                    _ => r matches Err(e) && e.desc@ == "Invalid date"@,
                }
            } else {
                r matches Err(e) && e.desc@ == "Invalid conversion"@
            }
        }),
{
    if kind == WireType::Date {
        match date_from_fields(rec) {
            Ok(d) => Ok(Value::Date(d)),
            Err(e) => Err(e),
        }
    } else if kind == WireType::Time {
        match time_from_fields(rec) {
            Ok(t) => Ok(Value::Time(t)),
            Err(e) => Err(e),
        }
    } else if kind == WireType::DateTime || kind == WireType::DateTime4 {
        let d = match date_from_fields(rec) {
            Ok(d) => d,
            Err(_) => {
                return Err(Error::from_message("Invalid date"));
            },
        };
        match time_from_fields(rec) {
            Ok(t) => Ok(Value::DateTime(DateTime { date: d, time: t })),
            Err(_) => Err(Error::from_message("Invalid date")),
        }
    } else {
        Err(Error::from_message("Invalid conversion"))
    }
}

impl ResultSet {
    /// The current cell as a 32-bit integer: the value when the wire type
    /// already matches, None for SQL NULL, or the conversion still needed.
    pub fn get_i32(&self, col: &ColumnId) -> (r: Result<Fetch<i32>, Error>)
        requires
            self.wf(),
        ensures
            ({
                match buffer_lookup(*self, *col) {
                    Err(m) => r matches Err(e) && e.desc@ == m,
                    Ok(fc) => int_fetch_spec(fc.0, fc.1, r),
                }
            }),
    {
        let (fmt, cell) = match self.get_buffer(col) {
            Ok(x) => x,
            Err(e) => {
                return Err(e);
            },
        };
        let b = match cell {
            None => {
                return Ok(Fetch::Done(None));
            },
            Some(b) => b,
        };
        if fmt.datatype == WireType::Int {
            if b.len() == 4 {
                Ok(Fetch::Done(Some(i32_from_le(&b))))
            } else {
                Err(Error::from_message("Invalid buffer length"))
            }
        } else {
            Ok(
                Fetch::Convert(
                    ConvReq {
                        srcfmt: fmt,
                        srcdata: b,
                        dstfmt: DstFmt {
                            datatype: WireType::Int,
                            maxlength: 4,
                            precision_from_src: false,
                            scale_from_src: false,
                        },
                    },
                ),
            )
        }
    }

    /// The current cell as a 64-bit integer.
    pub fn get_i64(&self, col: &ColumnId) -> (r: Result<Fetch<i64>, Error>)
        requires
            self.wf(),
        ensures
            ({
                match buffer_lookup(*self, *col) {
                    Err(m) => r matches Err(e) && e.desc@ == m,
                    Ok(fc) => long_fetch_spec(fc.0, fc.1, r),
                }
            }),
    {
        let (fmt, cell) = match self.get_buffer(col) {
            Ok(x) => x,
            Err(e) => {
                return Err(e);
            },
        };
        let b = match cell {
            None => {
                return Ok(Fetch::Done(None));
            },
            Some(b) => b,
        };
        if fmt.datatype == WireType::Long {
            if b.len() == 8 {
                Ok(Fetch::Done(Some(i64_from_le(&b))))
            } else {
                Err(Error::from_message("Invalid buffer length"))
            }
        } else {
            Ok(
                Fetch::Convert(
                    ConvReq {
                        srcfmt: fmt,
                        srcdata: b,
                        dstfmt: DstFmt {
                            datatype: WireType::Long,
                            maxlength: 8,
                            precision_from_src: false,
                            scale_from_src: false,
                        },
                    },
                ),
            )
        }
    }

    /// The current cell as a boolean: any non-zero integer is true. The
    /// access goes through the 64-bit integer path.
    pub fn get_bool(&self, col: &ColumnId) -> (r: Result<Fetch<bool>, Error>)
        requires
            self.wf(),
        ensures
            ({
                match buffer_lookup(*self, *col) {
                    Err(m) => r matches Err(e) && e.desc@ == m,
                    Ok(fc) => bool_fetch_spec(fc.0, fc.1, r),
                }
            }),
    {
        let (fmt, cell) = match self.get_buffer(col) {
            Ok(x) => x,
            Err(e) => {
                return Err(e);
            },
        };
        let b = match cell {
            None => {
                return Ok(Fetch::Done(None));
            },
            Some(b) => b,
        };
        if fmt.datatype == WireType::Long {
            if b.len() == 8 {
                Ok(Fetch::Done(Some(i64_from_le(&b) != 0)))
            } else {
                Err(Error::from_message("Invalid buffer length"))
            }
        } else {
            Ok(
                Fetch::Convert(
                    ConvReq {
                        srcfmt: fmt,
                        srcdata: b,
                        dstfmt: DstFmt {
                            datatype: WireType::Long,
                            maxlength: 8,
                            precision_from_src: false,
                            scale_from_src: false,
                        },
                    },
                ),
            )
        }
    }

    /// The current cell as a string.
    pub fn get_string(&self, col: &ColumnId) -> (r: Result<Fetch<String>, Error>)
        requires
            self.wf(),
        ensures
            ({
                match buffer_lookup(*self, *col) {
                    Err(m) => r matches Err(e) && e.desc@ == m,
                    Ok(fc) => string_fetch_spec(fc.0, fc.1, r),
                }
            }),
    {
        let (fmt, cell) = match self.get_buffer(col) {
            Ok(x) => x,
            Err(e) => {
                return Err(e);
            },
        };
        let b = match cell {
            None => {
                return Ok(Fetch::Done(None));
            },
            Some(b) => b,
        };
        if fmt.datatype == WireType::Char || fmt.datatype == WireType::Text {
            Ok(Fetch::Done(Some(utf8_lossy(&b))))
        } else if fmt.datatype == WireType::Binary || fmt.datatype == WireType::LongBinary
            || fmt.datatype == WireType::Image {
            if b.len() <= 1073741815usize {
                let want = (2 * b.len() + 16) as i32;
                Ok(
                    Fetch::Convert(
                        ConvReq {
                            srcfmt: fmt,
                            srcdata: b,
                            dstfmt: DstFmt {
                                datatype: WireType::Char,
                                maxlength: want,
                                precision_from_src: false,
                                scale_from_src: false,
                            },
                        },
                    ),
                )
            } else {
                Err(Error::from_message("Buffer too large to convert"))
            }
        } else {
            Ok(
                Fetch::Convert(
                    ConvReq {
                        srcfmt: fmt,
                        srcdata: b,
                        dstfmt: DstFmt {
                            datatype: WireType::Char,
                            maxlength: 128,
                            precision_from_src: false,
                            scale_from_src: false,
                        },
                    },
                ),
            )
        }
    }

    /// The current cell as a byte vector.
    pub fn get_blob(&self, col: &ColumnId) -> (r: Result<Fetch<Vec<u8>>, Error>)
        requires
            self.wf(),
        ensures
            ({
                match buffer_lookup(*self, *col) {
                    Err(m) => r matches Err(e) && e.desc@ == m,
                    Ok(fc) => blob_fetch_spec(fc.0, fc.1, r),
                }
            }),
    {
        let (fmt, cell) = match self.get_buffer(col) {
            Ok(x) => x,
            Err(e) => {
                return Err(e);
            },
        };
        let b = match cell {
            None => {
                return Ok(Fetch::Done(None));
            },
            Some(b) => b,
        };
        if fmt.datatype == WireType::Binary || fmt.datatype == WireType::Image {
            Ok(Fetch::Done(Some(b)))
        } else if fmt.datatype == WireType::VarBinary {
            Err(Error::from_message("Unsupported datatype"))
        } else {
            Ok(
                Fetch::Convert(
                    ConvReq {
                        srcfmt: fmt,
                        srcdata: b,
                        dstfmt: DstFmt {
                            datatype: WireType::Binary,
                            maxlength: fmt.maxlength,
                            precision_from_src: false,
                            scale_from_src: false,
                        },
                    },
                ),
            )
        }
    }

    /// The current cell as an exact decimal.
    pub fn get_decimal(&self, col: &ColumnId) -> (r: Result<Fetch<rust_decimal::Decimal>, Error>)
        requires
            self.wf(),
        ensures
            ({
                match buffer_lookup(*self, *col) {
                    Err(m) => r matches Err(e) && e.desc@ == m,
                    Ok(fc) => decimal_fetch_spec(fc.0, fc.1, r),
                }
            }),
    {
        let (fmt, cell) = match self.get_buffer(col) {
            Ok(x) => x,
            Err(e) => {
                return Err(e);
            },
        };
        let b = match cell {
            None => {
                return Ok(Fetch::Done(None));
            },
            Some(b) => b,
        };
        if char_family_decimal(fmt.datatype) {
            Ok(
                Fetch::Convert(
                    ConvReq {
                        srcfmt: fmt,
                        srcdata: b,
                        dstfmt: DstFmt {
                            datatype: WireType::Char,
                            maxlength: 1024,
                            precision_from_src: true,
                            scale_from_src: true,
                        },
                    },
                ),
            )
        } else {
            Err(Error::from_message("Unsupported datatype"))
        }
    }

    /// The crack request for the current date/time cell.
    pub fn get_daterec(&self, col: &ColumnId) -> (r: Result<Fetch<CrackReq>, Error>)
        requires
            self.wf(),
        ensures
            ({
                match buffer_lookup(*self, *col) {
                    Err(m) => r matches Err(e) && e.desc@ == m,
                    Ok(fc) => daterec_fetch_spec(fc.0, fc.1, r),
                }
            }),
    {
        let (fmt, cell) = match self.get_buffer(col) {
            Ok(x) => x,
            Err(e) => {
                return Err(e);
            },
        };
        let b = match cell {
            None => {
                return Ok(Fetch::Done(None));
            },
            Some(b) => b,
        };
        let t = fmt.datatype;
        if t == WireType::Date || t == WireType::Time || t == WireType::DateTime || t
            == WireType::DateTime4 {
            let want: usize = if t == WireType::DateTime {
                8
            } else {
                4
            };
            if b.len() == want {
                Ok(Fetch::Done(Some(CrackReq { kind: t, data: b })))
            } else {
                Err(Error::from_message("Invalid buffer length"))
            }
        } else {
            Err(Error::from_message("Invalid conversion"))
        }
    }

    /// The current cell as a generic value, or the driver step still
    /// needed to produce it.
    pub fn get_value(&self, col: &ColumnId) -> (r: Result<ValueFetch, Error>)
        requires
            self.wf(),
        ensures
            ({
                match buffer_lookup(*self, *col) {
                    Err(m) => r matches Err(e) && e.desc@ == m,
                    Ok(fc) => value_step_spec(fc.0, fc.1, r),
                }
            }),
    {
        let (fmt, cell) = match self.get_buffer(col) {
            Ok(x) => x,
            Err(e) => {
                return Err(e);
            },
        };
        value_step(&fmt, cell)
    }
}

/// What a boolean access yields for a cell: the 64-bit integer path,
/// tested against zero.
pub open spec fn bool_fetch_spec(fmt: ColFmt, cell: Option<Seq<u8>>, r: Result<
    Fetch<bool>,
    Error,
>) -> bool {
    match cell {
        None => r matches Ok(f) && f matches Fetch::Done(v) && v is None,
        Some(b) => {
            if fmt.datatype == WireType::Long {
                if b.len() == 8 {
                    r matches Ok(f) && f matches Fetch::Done(v) && v matches Some(x) && x == (
                    le_i64_val(b) != 0)
                } else {
                    r matches Err(e) && e.desc@ == "Invalid buffer length"@
                }
            } else {
                r matches Ok(f) && f matches Fetch::Convert(req) && req.srcfmt == fmt
                    && req.srcdata@ == b && req.dstfmt == (DstFmt {
                    datatype: WireType::Long,
                    maxlength: 8,
                    precision_from_src: false,
                    scale_from_src: false,
                })
            }
        },
    }
}

fn char_family_decimal(t: WireType) -> (r: bool)
    ensures
        r == is_decimal_source(t),
{
    t == WireType::Int || t == WireType::Bit || t == WireType::TinyInt || t == WireType::SmallInt
        || t == WireType::Numeric || t == WireType::Money || t == WireType::Money4 || t
        == WireType::Decimal || t == WireType::Real || t == WireType::Float
}

/// How many bytes a wire date value of this kind occupies.
pub open spec fn date_wire_size(t: WireType) -> int {
    if t == WireType::DateTime {
        8
    } else {
        4
    }
}

pub open spec fn is_date_kind(t: WireType) -> bool {
    t == WireType::Date || t == WireType::Time || t == WireType::DateTime || t
        == WireType::DateTime4
}

} // verus!
