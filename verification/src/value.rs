//! Parameter values and the injection-safe SQL literal encoder.
use vstd::prelude::*;

verus! {

use crate::strutil::chars_of;
use crate::strutil::hex_text;
use crate::strutil::i_dec;
use crate::strutil::pad2;
use crate::strutil::pad3;
use crate::strutil::pad4;
use crate::strutil::push_hex;
use crate::strutil::push_i64_dec;
use crate::strutil::push_pad2;
use crate::strutil::push_pad3;
use crate::strutil::push_pad4;
use crate::strutil::string_from_chars;
use vstd::string::StringExecFns;

#[verifier::external_type_specification]
#[verifier::external_body]
pub struct ExDecimal(rust_decimal::Decimal);

/// Relies on rust_decimal's Clone impl: Decimal is a Copy type, so the
/// clone is the value itself.
pub assume_specification[ <rust_decimal::Decimal as core::clone::Clone>::clone ](
    d: &rust_decimal::Decimal,
) -> (r: rust_decimal::Decimal)
    ensures
        r == *d,
;

/// What rust_decimal's Display renders a value as; it depends on the value
/// alone.
pub uninterp spec fn decimal_text_of(d: rust_decimal::Decimal) -> Seq<char>;

/// What rust_decimal's Decimal::from_str_exact parses text to, None where
/// it rejects the text; it depends on the characters alone.
pub uninterp spec fn decimal_of_text(s: Seq<char>) -> Option<rust_decimal::Decimal>;

/// Relies on rust_decimal's Display impl for the literal text of a decimal.
#[verifier::external_body]
pub(crate) fn decimal_to_text(d: &rust_decimal::Decimal) -> (r: String)
    ensures
        r@ == decimal_text_of(*d),
{
    d.to_string()
}

/// Relies on rust_decimal's Decimal::from_str_exact to parse decimal text
/// without rounding.
#[verifier::external_body]
pub(crate) fn decimal_parse_text(s: &str) -> (r: Option<rust_decimal::Decimal>)
    ensures
        r == decimal_of_text(s@),
{
    rust_decimal::Decimal::from_str_exact(s).ok()
}

/// A calendar date.
#[derive(Debug, Clone, Copy, PartialEq, Eq, Structural)]
pub struct Date {
    pub year: u32,
    pub month: u32,
    pub day: u32,
}

/// A time of day with millisecond precision.
#[derive(Debug, Clone, Copy, PartialEq, Eq, Structural)]
pub struct Time {
    pub hour: u32,
    pub minute: u32,
    pub second: u32,
    pub millisecond: u32,
}

/// A calendar date joined with a time of day.
#[derive(Debug, Clone, Copy, PartialEq, Eq, Structural)]
pub struct DateTime {
    pub date: Date,
    pub time: Time,
}

pub open spec fn leap_year(y: int) -> bool {
    (y % 4 == 0 && y % 100 != 0) || y % 400 == 0
}

pub open spec fn days_in_month(y: int, m: int) -> int {
    if m == 2 {
        if leap_year(y) {
            29
        } else {
            28
        }
    } else if m == 4 || m == 6 || m == 9 || m == 11 {
        30
    } else {
        31
    }
}

impl Date {
    pub open spec fn wf(self) -> bool {
        self.year <= 9999 && 1 <= self.month <= 12 && 1 <= self.day && self.day
            <= days_in_month(self.year as int, self.month as int)
    }

    /// A date from calendar fields; None when they name no real date.
    pub fn new(year: u32, month: u32, day: u32) -> (r: Option<Date>)
        ensures
            r is Some <==> (Date { year, month, day }).wf(),
            r matches Some(d) ==> d == (Date { year, month, day }),
    {
        let ok = year <= 9999 && 1 <= month && month <= 12 && 1 <= day && day <= days_in_month_x(
            year,
            month,
        );
        if ok {
            Some(Date { year, month, day })
        } else {
            None
        }
    }
}

fn days_in_month_x(y: u32, m: u32) -> (r: u32)
    requires
        1 <= m <= 12,
    ensures
        r == days_in_month(y as int, m as int),
{
    if m == 2 {
        if (y % 4 == 0 && y % 100 != 0) || y % 400 == 0 {
            29
        } else {
            28
        }
    } else if m == 4 || m == 6 || m == 9 || m == 11 {
        30
    } else {
        31
    }
}

impl Time {
    pub open spec fn wf(self) -> bool {
        self.hour < 24 && self.minute < 60 && self.second < 60 && self.millisecond < 1000
    }

    /// A time of day; None when a field is out of range.
    pub fn new(hour: u32, minute: u32, second: u32, millisecond: u32) -> (r: Option<Time>)
        ensures
            r is Some <==> (Time { hour, minute, second, millisecond }).wf(),
            r matches Some(t) ==> t == (Time { hour, minute, second, millisecond }),
    {
        if hour < 24 && minute < 60 && second < 60 && millisecond < 1000 {
            Some(Time { hour, minute, second, millisecond })
        } else {
            None
        }
    }
}

impl DateTime {
    pub open spec fn wf(self) -> bool {
        self.date.wf() && self.time.wf()
    }

    pub fn new(date: Date, time: Time) -> (r: DateTime)
        ensures
            r == (DateTime { date, time }),
    {
        DateTime { date, time }
    }
}

/// A typed parameter value, encoded into generated SQL as a literal.
#[derive(Debug, PartialEq)]
pub enum Value {
    Null,
    String(String),
    I32(i32),
    I64(i64),
    Decimal(rust_decimal::Decimal),
    Date(Date),
    Time(Time),
    DateTime(DateTime),
    Blob(Vec<u8>),
}

impl Value {
    /// Date and time values carry fields in range; other variants always.
    pub open spec fn wf(self) -> bool {
        match self {
            Value::Date(d) => d.wf(),
            Value::Time(t) => t.wf(),
            Value::DateTime(dt) => dt.wf(),
            _ => true,
        }
    }
}

/// Equality of values by contents: the same variant, with string and blob
/// contents compared character for character and byte for byte.
pub open spec fn veq(a: Value, b: Value) -> bool {
    match (a, b) {
        (Value::Null, Value::Null) => true,
        (Value::String(x), Value::String(y)) => x@ == y@,
        (Value::I32(x), Value::I32(y)) => x == y,
        (Value::I64(x), Value::I64(y)) => x == y,
        (Value::Decimal(x), Value::Decimal(y)) => x == y,
        (Value::Date(x), Value::Date(y)) => x == y,
        (Value::Time(x), Value::Time(y)) => x == y,
        (Value::DateTime(x), Value::DateTime(y)) => x == y,
        (Value::Blob(x), Value::Blob(y)) => x@ == y@,
        _ => false,
    }
}

/// Values equal by contents encode to the same literal text and are
/// well-formed together.
pub proof fn lemma_veq_literal(a: Value, b: Value)
    requires
        veq(a, b),
    ensures
        sql_literal(a) == sql_literal(b),
        a.wf() == b.wf(),
{
}

impl Clone for Value {
    /// The clone holds the same contents as the original.
    fn clone(&self) -> (r: Self)
        ensures
            veq(r, *self),
    {
        match self {
            Value::Null => Value::Null,
            Value::String(s) => Value::String(s.clone()),
            Value::I32(i) => Value::I32(*i),
            Value::I64(i) => Value::I64(*i),
            Value::Decimal(d) => Value::Decimal(d.clone()),
            Value::Date(d) => Value::Date(*d),
            Value::Time(t) => Value::Time(*t),
            Value::DateTime(dt) => Value::DateTime(*dt),
            Value::Blob(b) => {
                let r = b.clone();
                assert(r@ =~= b@);
                Value::Blob(r)
            },
        }
    }
}

impl From<String> for Value {
    fn from(value: String) -> (r: Self) {
        Value::String(value)
    }
}

impl vstd::std_specs::convert::FromSpecImpl<String> for Value {
    open spec fn obeys_from_spec() -> bool {
        true
    }

    open spec fn from_spec(value: String) -> Self {
        Value::String(value)
    }
}

impl From<&str> for Value {
    fn from(value: &str) -> (r: Self)
        ensures
            r matches Value::String(s) && s@ == value@,
    {
        Value::String(value.to_owned())
    }
}

impl vstd::std_specs::convert::FromSpecImpl<&str> for Value {
    open spec fn obeys_from_spec() -> bool {
        false
    }

    open spec fn from_spec(value: &str) -> Self {
        vstd::pervasive::arbitrary()
    }
}

impl From<i32> for Value {
    fn from(value: i32) -> (r: Self) {
        Value::I32(value)
    }
}

impl vstd::std_specs::convert::FromSpecImpl<i32> for Value {
    open spec fn obeys_from_spec() -> bool {
        true
    }

    open spec fn from_spec(value: i32) -> Self {
        Value::I32(value)
    }
}

impl From<i64> for Value {
    fn from(value: i64) -> (r: Self) {
        Value::I64(value)
    }
}

impl vstd::std_specs::convert::FromSpecImpl<i64> for Value {
    open spec fn obeys_from_spec() -> bool {
        true
    }

    open spec fn from_spec(value: i64) -> Self {
        Value::I64(value)
    }
}

impl From<rust_decimal::Decimal> for Value {
    fn from(value: rust_decimal::Decimal) -> (r: Self) {
        Value::Decimal(value)
    }
}

impl vstd::std_specs::convert::FromSpecImpl<rust_decimal::Decimal> for Value {
    open spec fn obeys_from_spec() -> bool {
        true
    }

    open spec fn from_spec(value: rust_decimal::Decimal) -> Self {
        Value::Decimal(value)
    }
}

impl From<Date> for Value {
    fn from(value: Date) -> (r: Self) {
        Value::Date(value)
    }
}

impl vstd::std_specs::convert::FromSpecImpl<Date> for Value {
    open spec fn obeys_from_spec() -> bool {
        true
    }

    open spec fn from_spec(value: Date) -> Self {
        Value::Date(value)
    }
}

impl From<Time> for Value {
    fn from(value: Time) -> (r: Self) {
        Value::Time(value)
    }
}

impl vstd::std_specs::convert::FromSpecImpl<Time> for Value {
    open spec fn obeys_from_spec() -> bool {
        true
    }

    open spec fn from_spec(value: Time) -> Self {
        Value::Time(value)
    }
}

impl From<DateTime> for Value {
    fn from(value: DateTime) -> (r: Self) {
        Value::DateTime(value)
    }
}

impl vstd::std_specs::convert::FromSpecImpl<DateTime> for Value {
    open spec fn obeys_from_spec() -> bool {
        true
    }

    open spec fn from_spec(value: DateTime) -> Self {
        Value::DateTime(value)
    }
}

impl From<Vec<u8>> for Value {
    fn from(value: Vec<u8>) -> (r: Self) {
        Value::Blob(value)
    }
}

impl vstd::std_specs::convert::FromSpecImpl<Vec<u8>> for Value {
    open spec fn obeys_from_spec() -> bool {
        true
    }

    open spec fn from_spec(value: Vec<u8>) -> Self {
        Value::Blob(value)
    }
}

impl From<&[u8]> for Value {
    fn from(value: &[u8]) -> (r: Self)
        ensures
            r matches Value::Blob(b) && b@ == value@,
    {
        let mut out: Vec<u8> = Vec::new();
        let mut i: usize = 0;
        while i < value.len()
            invariant
                i <= value@.len(),
                out@ == value@.subrange(0, i as int),
            decreases value@.len() - i,
        {
            out.push(value[i]);
            proof {
                assert(out@ =~= value@.subrange(0, i + 1 as int));
            }
            i = i + 1;
        }
        proof {
            assert(value@.subrange(0, value@.len() as int) =~= value@);
        }
        Value::Blob(out)
    }
}

impl vstd::std_specs::convert::FromSpecImpl<&[u8]> for Value {
    open spec fn obeys_from_spec() -> bool {
        false
    }

    open spec fn from_spec(value: &[u8]) -> Self {
        vstd::pervasive::arbitrary()
    }
}

impl From<bool> for Value {
    fn from(value: bool) -> (r: Self) {
        if value {
            Value::I32(1)
        } else {
            Value::I32(0)
        }
    }
}

impl vstd::std_specs::convert::FromSpecImpl<bool> for Value {
    open spec fn obeys_from_spec() -> bool {
        true
    }

    open spec fn from_spec(value: bool) -> Self {
        if value {
            Value::I32(1)
        } else {
            Value::I32(0)
        }
    }
}

impl<T: Into<Value> + Clone> From<&T> for Value {
    fn from(value: &T) -> (r: Self) {
        value.clone().into()
    }
}

impl<T: Into<Value> + Clone> vstd::std_specs::convert::FromSpecImpl<&T> for Value {
    open spec fn obeys_from_spec() -> bool {
        false
    }

    open spec fn from_spec(value: &T) -> Self {
        vstd::pervasive::arbitrary()
    }
}

impl<T: Into<Value>> From<Option<T>> for Value {
    fn from(value: Option<T>) -> (r: Self) {
        match value {
            None => Value::Null,
            Some(v) => v.into(),
        }
    }
}

impl<T: Into<Value>> vstd::std_specs::convert::FromSpecImpl<Option<T>> for Value {
    open spec fn obeys_from_spec() -> bool {
        false
    }

    open spec fn from_spec(value: Option<T>) -> Self {
        vstd::pervasive::arbitrary()
    }
}

pub open spec fn null_text() -> Seq<char> {
    "null"@
}

/// Every embedded single quote doubled.
pub open spec fn escape_quotes(s: Seq<char>) -> Seq<char>
    decreases s.len(),
{
    if s.len() == 0 {
        Seq::empty()
    } else if s[0] == '\'' {
        seq!['\'', '\''] + escape_quotes(s.drop_first())
    } else {
        seq![s[0]] + escape_quotes(s.drop_first())
    }
}

/// The SQL string literal for `s`: wrapped in single quotes, embedded
/// single quotes doubled. This is the injection-safety boundary: no other
/// character is treated specially.
pub open spec fn quoted_text(s: Seq<char>) -> Seq<char> {
    seq!['\''] + escape_quotes(s) + seq!['\'']
}

pub open spec fn date_inner(d: Date) -> Seq<char> {
    pad4(d.year as int) + seq!['/'] + pad2(d.month as int) + seq!['/'] + pad2(d.day as int)
}

pub open spec fn time_inner(t: Time) -> Seq<char> {
    pad2(t.hour as int) + seq![':'] + pad2(t.minute as int) + seq![':'] + pad2(t.second as int) + (
    if t.millisecond > 0 {
        seq!['.'] + pad3(t.millisecond as int)
    } else {
        Seq::<char>::empty()
    })
}

pub open spec fn date_text(d: Date) -> Seq<char> {
    seq!['\''] + date_inner(d) + seq!['\'']
}

pub open spec fn time_text(t: Time) -> Seq<char> {
    seq!['\''] + time_inner(t) + seq!['\'']
}

pub open spec fn datetime_text(dt: DateTime) -> Seq<char> {
    seq!['\''] + date_inner(dt.date) + seq![' '] + time_inner(dt.time) + seq!['\'']
}

/// The SQL literal text a value encodes to.
pub open spec fn sql_literal(v: Value) -> Seq<char> {
    match v {
        Value::Null => null_text(),
        Value::String(s) => quoted_text(s@),
        Value::I32(i) => i_dec(i as int),
        Value::I64(i) => i_dec(i as int),
        Value::Decimal(d) => decimal_text_of(d),
        Value::Date(d) => date_text(d),
        Value::Time(t) => time_text(t),
        Value::DateTime(dt) => datetime_text(dt),
        Value::Blob(b) => seq!['0', 'x'] + hex_text(b@),
    }
}

/// Encodes `s` as a SQL string literal, doubling embedded single quotes.
pub fn write_string(s: &str) -> (r: String)
    ensures
        r@ == quoted_text(s@),
{
    let chars = chars_of(s);
    let mut out: Vec<char> = Vec::new();
    out.push('\'');
    let mut i: usize = 0;
    proof {
        assert(chars@.skip(0) =~= chars@);
        assert(out@ =~= seq!['\'']);
    }
    while i < chars.len()
        invariant
            i <= chars@.len(),
            seq!['\''] + escape_quotes(chars@) == out@ + escape_quotes(chars@.skip(i as int)),
        decreases chars@.len() - i,
    {
        let c = chars[i];
        proof {
            let t = chars@.skip(i as int);
            assert(t[0] == chars@[i as int]);
            assert(t.drop_first() =~= chars@.skip(i + 1 as int));
        }
        out.push(c);
        if c == '\'' {
            out.push('\'');
        }
        i = i + 1;
    }
    proof {
        assert(chars@.skip(chars@.len() as int) =~= Seq::<char>::empty());
        assert(out@ + Seq::<char>::empty() =~= out@);
    }
    out.push('\'');
    proof {
        assert(out@ =~= quoted_text(s@));
    }
    string_from_chars(&out)
}

fn push_date_inner(out: &mut Vec<char>, d: &Date)
    requires
        d.wf(),
    ensures
        final(out)@ == old(out)@ + date_inner(*d),
{
    push_pad4(out, d.year);
    out.push('/');
    push_pad2(out, d.month);
    out.push('/');
    push_pad2(out, d.day);
    assert(out@ =~= old(out)@ + date_inner(*d));
}

fn push_time_inner(out: &mut Vec<char>, t: &Time)
    requires
        t.wf(),
    ensures
        final(out)@ == old(out)@ + time_inner(*t),
{
    push_pad2(out, t.hour);
    out.push(':');
    push_pad2(out, t.minute);
    out.push(':');
    push_pad2(out, t.second);
    if t.millisecond > 0 {
        out.push('.');
        push_pad3(out, t.millisecond);
    }
    assert(out@ =~= old(out)@ + time_inner(*t));
}

/// Renders a value as a SQL literal fragment.
pub trait ToSql {
    /// The literal text this value encodes to.
    spec fn sql_text(&self) -> Seq<char>;

    /// When the value can be encoded.
    spec fn sql_wf(&self) -> bool;

    fn to_sql(&self) -> (r: String)
        requires
            self.sql_wf(),
        ensures
            r@ == self.sql_text(),
    ;
}

impl ToSql for Value {
    open spec fn sql_text(&self) -> Seq<char> {
        sql_literal(*self)
    }

    open spec fn sql_wf(&self) -> bool {
        self.wf()
    }

    fn to_sql(&self) -> (r: String) {
        match self {
            Value::Null => String::from_str("null"),
            Value::String(s) => write_string(s.as_str()),
            Value::I32(i) => {
                let mut out: Vec<char> = Vec::new();
                push_i64_dec(&mut out, *i as i64);
                string_from_chars(&out)
            },
            Value::I64(i) => {
                let mut out: Vec<char> = Vec::new();
                push_i64_dec(&mut out, *i);
                string_from_chars(&out)
            },
            Value::Decimal(d) => decimal_to_text(d),
            Value::Date(d) => {
                let mut out: Vec<char> = Vec::new();
                out.push('\'');
                push_date_inner(&mut out, d);
                out.push('\'');
                assert(out@ =~= date_text(*d));
                string_from_chars(&out)
            },
            Value::Time(t) => {
                let mut out: Vec<char> = Vec::new();
                out.push('\'');
                push_time_inner(&mut out, t);
                out.push('\'');
                assert(out@ =~= time_text(*t));
                string_from_chars(&out)
            },
            Value::DateTime(dt) => {
                let mut out: Vec<char> = Vec::new();
                out.push('\'');
                push_date_inner(&mut out, &dt.date);
                out.push(' ');
                push_time_inner(&mut out, &dt.time);
                out.push('\'');
                assert(out@ =~= datetime_text(*dt));
                string_from_chars(&out)
            },
            Value::Blob(b) => {
                let mut out: Vec<char> = Vec::new();
                out.push('0');
                out.push('x');
                push_hex(&mut out, b);
                assert(out@ =~= seq!['0', 'x'] + hex_text(b@));
                string_from_chars(&out)
            },
        }
    }
}

impl ToSql for i32 {
    open spec fn sql_text(&self) -> Seq<char> {
        i_dec(*self as int)
    }

    open spec fn sql_wf(&self) -> bool {
        true
    }

    fn to_sql(&self) -> (r: String) {
        let mut out: Vec<char> = Vec::new();
        push_i64_dec(&mut out, *self as i64);
        string_from_chars(&out)
    }
}

impl ToSql for i64 {
    open spec fn sql_text(&self) -> Seq<char> {
        i_dec(*self as int)
    }

    open spec fn sql_wf(&self) -> bool {
        true
    }

    fn to_sql(&self) -> (r: String) {
        let mut out: Vec<char> = Vec::new();
        push_i64_dec(&mut out, *self);
        string_from_chars(&out)
    }
}

impl ToSql for String {
    open spec fn sql_text(&self) -> Seq<char> {
        quoted_text(self@)
    }

    open spec fn sql_wf(&self) -> bool {
        true
    }

    fn to_sql(&self) -> (r: String) {
        write_string(self.as_str())
    }
}

impl ToSql for Vec<u8> {
    open spec fn sql_text(&self) -> Seq<char> {
        seq!['0', 'x'] + hex_text(self@)
    }

    open spec fn sql_wf(&self) -> bool {
        true
    }

    fn to_sql(&self) -> (r: String) {
        let mut out: Vec<char> = Vec::new();
        out.push('0');
        out.push('x');
        push_hex(&mut out, self);
        assert(out@ =~= seq!['0', 'x'] + hex_text(self@));
        string_from_chars(&out)
    }
}

} // verus!
