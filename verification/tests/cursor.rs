use freetds::column_id::ColumnId;
use freetds::convert::CalendarFields;
use freetds::convert::ConvFinish;
use freetds::convert::Fetch;
use freetds::convert::ValueFetch;
use freetds::convert::date_from_fields;
use freetds::convert::datetime_from_fields;
use freetds::convert::finish_decimal;
use freetds::convert::finish_i32;
use freetds::convert::time_from_fields;
use freetds::convert::value_finish;
use freetds::error::Type;
use freetds::execute::ExecBuilder;
use freetds::materialize::adjust_column_fmt;
use freetds::materialize::build_row;
use freetds::materialize::cell_from_bind;
use freetds::materialize::BindData;
use freetds::result_set::ColFmt;
use freetds::result_set::Column;
use freetds::result_set::ResultType;
use freetds::result_set::Row;
use freetds::result_set::Rows;
use freetds::result_set::WireType;
use freetds::Error;
use freetds::Value;

fn fmt_of(t: WireType) -> ColFmt {
    ColFmt { datatype: t, maxlength: 8, precision: 0, scale: 0, nullterm: false }
}

fn col(name: &str, t: WireType) -> Column {
    Column { name: name.to_string(), fmt: fmt_of(t) }
}

fn one_row_rows(columns: Vec<Column>, cells: Vec<Option<Vec<u8>>>) -> Rows {
    Rows::new(columns, vec![Row { buffers: cells }])
}

fn status_rows(code: i32) -> Rows {
    one_row_rows(
        vec![col("", WireType::Int)],
        vec![Some(code.to_le_bytes().to_vec())],
    )
}

#[test]
fn test_result_classification_order() {
    // A row-bearing result with two rows, then an update count, then a status.
    let mut b = ExecBuilder::new();
    let rows = Rows::new(
        vec![col("v", WireType::Int)],
        vec![
            Row { buffers: vec![Some(vec![1, 0, 0, 0])] },
            Row { buffers: vec![Some(vec![2, 0, 0, 0])] },
        ],
    );
    b.on_row_result(rows);
    b.on_command_done(3);
    b.on_status_result(status_rows(0)).unwrap();
    let mut rs = b.finish().unwrap();

    assert!(rs.next_results());
    assert!(rs.is_rows());
    assert!(rs.next());
    assert!(rs.next());
    assert!(!rs.next());

    assert!(rs.next_results());
    assert!(rs.is_update_count());
    assert_eq!(3, rs.update_count().unwrap());

    assert!(rs.next_results());
    assert!(rs.is_status());
    assert_eq!(0, rs.status().unwrap());

    assert!(!rs.next_results());
}

#[test]
fn test_generate_and_fetch() {
    // The end-to-end path that the library controls: compile, generate,
    // then read a materialized row through the fast paths.
    let parsed = freetds::parse_query("select ?, ?");
    let generated = freetds::generate_query(
        &parsed,
        &vec![Value::from(1i32), Value::from("a")],
    );
    assert_eq!("select 1, 'a'", generated);

    let mut b = ExecBuilder::new();
    let mut int_fmt = fmt_of(WireType::Int);
    int_fmt.maxlength = 4;
    let rows = Rows::new(
        vec![
            Column { name: "".to_string(), fmt: int_fmt },
            Column { name: "".to_string(), fmt: fmt_of(WireType::Char) },
        ],
        vec![Row { buffers: vec![Some(vec![1, 0, 0, 0]), Some(vec![b'a'])] }],
    );
    b.on_row_result(rows);
    let mut rs = b.finish().unwrap();
    assert!(rs.next());
    match rs.get_i32(&ColumnId::from(0)).unwrap() {
        Fetch::Done(v) => assert_eq!(v, Some(1)),
        Fetch::Convert(_) => panic!("expected the direct path"),
    }
    match rs.get_string(&ColumnId::from(1)).unwrap() {
        Fetch::Done(v) => assert_eq!(v, Some(String::from("a"))),
        Fetch::Convert(_) => panic!("expected the direct path"),
    }
    assert!(!rs.next());
}

#[test]
fn test_null_cell_every_accessor() {
    let mut b = ExecBuilder::new();
    let rows = one_row_rows(vec![col("c", WireType::Int)], vec![None]);
    b.on_row_result(rows);
    let mut rs = b.finish().unwrap();
    assert!(rs.next());
    let c = ColumnId::from(0);
    assert!(matches!(rs.get_i32(&c).unwrap(), Fetch::Done(None)));
    assert!(matches!(rs.get_i64(&c).unwrap(), Fetch::Done(None)));
    assert!(matches!(rs.get_bool(&c).unwrap(), Fetch::Done(None)));
    assert!(matches!(rs.get_string(&c).unwrap(), Fetch::Done(None)));
    assert!(matches!(rs.get_blob(&c).unwrap(), Fetch::Done(None)));
    assert!(matches!(rs.get_decimal(&c).unwrap(), Fetch::Done(None)));
    assert!(matches!(rs.get_daterec(&c).unwrap(), Fetch::Done(None)));
    match rs.get_value(&c).unwrap() {
        ValueFetch::Ready(v) => assert_eq!(v, Value::Null),
        _ => panic!("expected a ready null"),
    }
}

#[test]
fn test_truncation_fails_materialization() {
    let r = cell_from_bind(false, 5, 3, &vec![1, 2, 3, 4]);
    assert!(r.is_err());
    assert_eq!("Data truncation occured", r.err().unwrap().desc());

    let charlike = vec![false, false];
    let binds = vec![
        BindData { indicator: 0, data_length: 2, buffer: vec![7, 8] },
        BindData { indicator: 5, data_length: 0, buffer: vec![0, 0] },
    ];
    let r = build_row(&charlike, &binds);
    assert!(r.is_err());
    assert_eq!("Data truncation occured", r.err().unwrap().desc());
}

#[test]
fn test_cell_materialization() {
    // NULL indicator.
    assert_eq!(None, cell_from_bind(false, -1, 0, &vec![1, 2]).unwrap());
    // Plain copy of data_length bytes.
    assert_eq!(
        Some(vec![1u8, 2]),
        cell_from_bind(false, 0, 2, &vec![1, 2, 9, 9]).unwrap()
    );
    // Character data loses the synthetic trailing terminator.
    assert_eq!(
        Some(vec![b'a', b'b']),
        cell_from_bind(true, 0, 3, &vec![b'a', b'b', 0, 0]).unwrap()
    );
}

#[test]
fn test_bind_plan_adjusts_char_columns() {
    let f = adjust_column_fmt(&ColFmt {
        datatype: WireType::Char,
        maxlength: 10,
        precision: 0,
        scale: 0,
        nullterm: false,
    });
    assert_eq!(11, f.maxlength);
    assert!(f.nullterm);

    let f = adjust_column_fmt(&ColFmt {
        datatype: WireType::Int,
        maxlength: 4,
        precision: 0,
        scale: 0,
        nullterm: false,
    });
    assert_eq!(4, f.maxlength);
    assert!(!f.nullterm);
}

#[test]
fn test_failed_execution_reports_most_severe() {
    let mut b = ExecBuilder::new();
    let mut e1 = Error::from_message("informational");
    e1.severity = Some(10);
    let mut e2 = Error::from_message("an earlier failure");
    e2.severity = Some(16);
    let mut e3 = Error::from_message("the last of equal severity");
    e3.severity = Some(16);
    let mut e4 = Error::from_message("a mild afterthought");
    e4.severity = Some(10);
    b.add_messages(vec![e1, e2, e3, e4]);
    b.on_command_fail();
    let r = b.finish();
    assert!(r.is_err());
    assert_eq!("the last of equal severity", r.err().unwrap().desc());

    let mut b = ExecBuilder::new();
    b.on_command_fail();
    let r = b.finish();
    assert_eq!(
        "Query execution resulted in error",
        r.err().unwrap().desc()
    );
}

#[test]
fn test_nonzero_status_marks_failure() {
    let mut b = ExecBuilder::new();
    let mut e = Error::from_message("No such account -- nothing changed.");
    e.severity = Some(16);
    b.add_messages(vec![e]);
    b.on_status_result(status_rows(1)).unwrap();
    let r = b.finish();
    assert!(r.is_err());
    assert_eq!(
        "No such account -- nothing changed.",
        r.err().unwrap().desc()
    );
}

#[test]
fn test_cursor_error_states() {
    let mut b = ExecBuilder::new();
    b.on_row_result(one_row_rows(
        vec![col("c", WireType::Int)],
        vec![Some(vec![1, 0, 0, 0])],
    ));
    let mut rs = b.finish().unwrap();

    // Accessor before any cursor movement.
    let r = rs.get_i32(&ColumnId::from(0));
    assert_eq!("Invalid state", r.err().unwrap().desc());

    assert!(rs.next());
    // Unknown column name and out-of-range index.
    let r = rs.get_i32(&ColumnId::from("nope"));
    assert_eq!("Invalid column index", r.err().unwrap().desc());
    let r = rs.get_i32(&ColumnId::from(7));
    assert_eq!("Invalid column index", r.err().unwrap().desc());
    // Column lookup by name succeeds.
    assert!(matches!(
        rs.get_i32(&ColumnId::from("c")).unwrap(),
        Fetch::Done(Some(1))
    ));

    // Past the last result item.
    assert!(!rs.next_results());
    let r = rs.get_i32(&ColumnId::from(0));
    assert_eq!("ResultSet exhausted", r.err().unwrap().desc());

    // A status accessor pointed at a row result.
    let mut b = ExecBuilder::new();
    b.on_row_result(one_row_rows(vec![col("c", WireType::Int)], vec![None]));
    let mut rs = b.finish().unwrap();
    assert!(rs.next_results());
    assert_eq!(
        "ResultSet does not currently point to a status result",
        rs.status().err().unwrap().desc()
    );
    assert_eq!(
        "ResultSet does not currently point to an update count result",
        rs.update_count().err().unwrap().desc()
    );
}

#[test]
fn test_column_metadata() {
    let mut b = ExecBuilder::new();
    b.on_row_result(one_row_rows(
        vec![col("alpha", WireType::Int), col("beta", WireType::Char)],
        vec![None, None],
    ));
    let mut rs = b.finish().unwrap();
    // Both seek the first row-bearing item on their own.
    assert_eq!(2, rs.column_count().unwrap());
    assert_eq!("alpha", rs.column_name(0).unwrap());
    assert_eq!("beta", rs.column_name(1).unwrap());
    assert_eq!(
        "Invalid column index",
        rs.column_name(2).err().unwrap().desc()
    );

    let mut b = ExecBuilder::new();
    b.on_command_done(1);
    let mut rs = b.finish().unwrap();
    assert_eq!(
        "Query did not return rows",
        rs.column_count().err().unwrap().desc()
    );
}

#[test]
fn test_next_results_of_type() {
    let mut b = ExecBuilder::new();
    b.on_command_done(4);
    b.on_row_result(one_row_rows(vec![col("c", WireType::Int)], vec![None]));
    b.on_status_result(status_rows(0)).unwrap();
    let mut rs = b.finish().unwrap();
    assert!(rs.next_results_of_type(ResultType::Status));
    assert_eq!(0, rs.status().unwrap());
    assert!(!rs.next_results_of_type(ResultType::Rows));
}

#[test]
fn test_update_count_sentinel() {
    let mut b = ExecBuilder::new();
    b.on_command_done(-1);
    b.on_command_done(6);
    let mut rs = b.finish().unwrap();
    assert!(rs.next_results());
    assert!(rs.is_update_count());
    assert_eq!(6, rs.update_count().unwrap());
    assert!(!rs.next_results());
}

#[test]
fn test_conversion_finishers() {
    assert_eq!(1, finish_i32(&vec![1, 0, 0, 0]).unwrap());
    assert_eq!(-1, finish_i32(&vec![0xFF, 0xFF, 0xFF, 0xFF]).unwrap());
    assert_eq!(
        "Invalid conversion result length",
        finish_i32(&vec![1, 0]).err().unwrap().desc()
    );
    let d = finish_decimal(&Vec::from("1.23456789".as_bytes())).unwrap();
    assert_eq!(rust_decimal::Decimal::from_str_exact("1.23456789").unwrap(), d);
    assert_eq!(
        "Invalid decimal",
        finish_decimal(&Vec::from("que?".as_bytes()))
            .err()
            .unwrap()
            .desc()
    );
    match value_finish(ConvFinish::BigIntLe8, &vec![0, 0, 0, 0, 0, 0, 0, 0x80]) {
        Ok(Value::I64(v)) => assert_eq!(i64::MIN, v),
        _ => panic!("expected a 64-bit integer"),
    }
}

#[test]
fn test_date_assembly() {
    let rec = CalendarFields {
        year: 1986,
        month: 6,
        day: 4,
        hour: 10,
        minute: 1,
        second: 2,
        millisecond: 300,
    };
    let d = date_from_fields(&rec).unwrap();
    assert_eq!((1986, 7, 4), (d.year, d.month, d.day));
    let t = time_from_fields(&rec).unwrap();
    assert_eq!((10, 1, 2, 300), (t.hour, t.minute, t.second, t.millisecond));
    let dt = datetime_from_fields(&rec).unwrap();
    assert_eq!(d, dt.date);
    assert_eq!(t, dt.time);

    let bad = CalendarFields { month: 12, ..rec };
    assert_eq!("Invalid date", date_from_fields(&bad).err().unwrap().desc());
    let bad = CalendarFields { hour: 24, ..rec };
    assert_eq!("Invalid time", time_from_fields(&bad).err().unwrap().desc());
}

#[test]
fn test_error_display() {
    let e = Error {
        type_: Type::Server,
        code: Some(42),
        desc: String::from("boom"),
        severity: Some(14),
    };
    assert_eq!("Server error #0042 severity 14: boom", e.display_string());
    let e = Error::from_message("plain");
    assert_eq!("FreeTDS error: plain", e.display_string());
    let e = Error::from_failure("ct_connect");
    assert_eq!("ct_connect failed", e.desc());
    assert_eq!(Type::Library, e.type_());
    assert_eq!(None, e.code());
    assert_eq!(None, e.severity());
}

#[test]
fn test_builder_server_address() {
    let b = freetds::ConnectionBuilder::default()
        .host("dbhost")
        .port(1433)
        .username("sa")
        .password("")
        .client_charset("UTF-8")
        .tds_version(freetds::TdsVersion::Tds50)
        .login_timeout(5)
        .timeout(5);
    assert_eq!("dbhost:1433", b.server_address().unwrap());

    let b = freetds::ConnectionBuilder::default().host("dbhost");
    assert_eq!("dbhost:5000", b.server_address().unwrap());

    let b = freetds::ConnectionBuilder::default().server_name("named");
    assert_eq!("named", b.server_address().unwrap());

    let b = freetds::ConnectionBuilder::default().database("master");
    assert_eq!(Some(String::from("master")), b.get_database());
    assert_eq!(
        "Server host address not configured",
        b.server_address().err().unwrap().desc()
    );

    let _null = freetds::Null::null();
}

#[test]
fn test_value_step_decimal_paths() {
    let mut b = ExecBuilder::new();
    let fast = ColFmt {
        datatype: WireType::Numeric,
        maxlength: 8,
        precision: 18,
        scale: 0,
        nullterm: false,
    };
    let slow = ColFmt {
        datatype: WireType::Numeric,
        maxlength: 8,
        precision: 9,
        scale: 8,
        nullterm: false,
    };
    b.on_row_result(one_row_rows(
        vec![
            Column { name: "long".to_string(), fmt: fast },
            Column { name: "numeric".to_string(), fmt: slow },
        ],
        vec![Some(vec![0; 8]), Some(vec![0; 8])],
    ));
    let mut rs = b.finish().unwrap();
    assert!(rs.next());
    match rs.get_value(&ColumnId::from("long")).unwrap() {
        ValueFetch::Convert(req, fin) => {
            assert_eq!(ConvFinish::BigIntLe8, fin);
            assert_eq!(WireType::BigInt, req.dstfmt.datatype);
        }
        _ => panic!("expected the integer fast path request"),
    }
    match rs.get_value(&ColumnId::from("numeric")).unwrap() {
        ValueFetch::Convert(req, fin) => {
            assert_eq!(ConvFinish::DecimalText, fin);
            assert_eq!(WireType::Char, req.dstfmt.datatype);
            assert!(req.dstfmt.precision_from_src);
        }
        _ => panic!("expected the textual decimal request"),
    }
    match rs.get_decimal(&ColumnId::from("numeric")).unwrap() {
        Fetch::Convert(req) => assert_eq!(1024, req.dstfmt.maxlength),
        _ => panic!("expected a conversion request"),
    }
}

#[test]
fn test_unsupported_datatype() {
    let mut b = ExecBuilder::new();
    b.on_row_result(one_row_rows(
        vec![col("c", WireType::Unknown), col("d", WireType::Char)],
        vec![Some(vec![0]), Some(vec![b'x'])],
    ));
    let mut rs = b.finish().unwrap();
    assert!(rs.next());
    let r = rs.get_value(&ColumnId::from(0));
    assert_eq!("Unsupported datatype", r.err().unwrap().desc());
    let r = rs.get_decimal(&ColumnId::from("d"));
    assert_eq!("Unsupported datatype", r.err().unwrap().desc());
}

#[test]
fn test_lossy_text_decoding() {
    // Invalid UTF-8 becomes the replacement character rather than failing.
    assert_eq!(
        "\u{FFFD}",
        freetds::convert::finish_string(&vec![0xFF])
    );
    assert_eq!("abc", freetds::convert::finish_string(&Vec::from("abc".as_bytes())));
}
