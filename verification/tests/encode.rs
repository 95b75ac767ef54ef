use freetds::parse_query;
use freetds::generate_query;
use freetds::value::Date;
use freetds::value::DateTime;
use freetds::value::Time;
use freetds::value::ToSql;
use freetds::value::write_string;
use freetds::Value;
use rust_decimal::Decimal;

#[test]
fn test_from() {
    Value::from(None::<String>);
    Value::from("deadbeef".to_string());
    Value::from(0_i32);
    Value::from(0_i64);
    Value::from(Decimal::from(42));
    Value::from(Date::new(1980, 1, 1).unwrap());
    Value::from(Time::new(1, 1, 1, 0).unwrap());
    Value::from(DateTime::new(
        Date::new(1970, 1, 1).unwrap(),
        Time::new(0, 0, 0, 0).unwrap(),
    ));

    Value::from(&None::<String>);
    Value::from("deadbeef");
    Value::from(&0_i32);
    Value::from(&0_i64);
    Value::from(&Decimal::from(42));
    Value::from(&Date::new(1980, 1, 1).unwrap());
    Value::from(&Time::new(1, 1, 1, 0).unwrap());
    Value::from(&DateTime::new(
        Date::new(1970, 1, 1).unwrap(),
        Time::new(0, 0, 0, 0).unwrap(),
    ));
}

#[test]
fn test_to_sql() {
    assert_eq!("null", Value::from(None::<String>).to_sql());
    assert_eq!("'dead''beef'", Value::from("dead'beef").to_sql());
    assert_eq!("42", Value::from(42_i32).to_sql());
    assert_eq!("42", Value::from(42_i64).to_sql());
    assert_eq!("42", Value::from(Decimal::from(42)).to_sql());
    assert_eq!(
        "'1980/02/03'",
        Value::from(Date::new(1980, 2, 3).unwrap()).to_sql()
    );
    assert_eq!(
        "'01:02:03'",
        Value::from(Time::new(1, 2, 3, 0).unwrap()).to_sql()
    );
    assert_eq!(
        "'1980/02/03 01:02:03'",
        Value::from(DateTime::new(
            Date::new(1980, 2, 3).unwrap(),
            Time::new(1, 2, 3, 0).unwrap(),
        ))
        .to_sql()
    );
    assert_eq!(
        "0xDEADBEEF",
        Value::from(vec![0xDE_u8, 0xAD, 0xBE, 0xEF]).to_sql()
    );
}

#[test]
fn test_string_escaping() {
    assert_eq!("'dead''beef'", write_string("dead'beef"));
    assert_eq!("''", write_string(""));
    assert_eq!("''''''", write_string("''"));
    assert_eq!("null", Value::Null.to_sql());
}

#[test]
fn test_integer_extremes() {
    assert_eq!("-2147483648", Value::from(i32::MIN).to_sql());
    assert_eq!("2147483647", Value::from(i32::MAX).to_sql());
    assert_eq!("-9223372036854775808", Value::from(i64::MIN).to_sql());
    assert_eq!("9223372036854775807", Value::from(i64::MAX).to_sql());
    assert_eq!("0", Value::from(0_i32).to_sql());
}

#[test]
fn test_decimal_to_sql() {
    let d = Decimal::from_str_exact("1.100").unwrap();
    assert_eq!("1.100", Value::from(d).to_sql());
    let d = Decimal::from_str_exact("-0.5").unwrap();
    assert_eq!("-0.5", Value::from(d).to_sql());
}

#[test]
fn test_datetime_with_millis() {
    assert_eq!(
        "'1986/07/05 10:30:31.100'",
        Value::from(DateTime::new(
            Date::new(1986, 7, 5).unwrap(),
            Time::new(10, 30, 31, 100).unwrap(),
        ))
        .to_sql()
    );
    assert_eq!("'0007/08/09'", Value::from(Date::new(7, 8, 9).unwrap()).to_sql());
}

#[test]
fn test_date_validity() {
    assert!(Date::new(2024, 2, 29).is_some());
    assert!(Date::new(2023, 2, 29).is_none());
    assert!(Date::new(2000, 2, 29).is_some());
    assert!(Date::new(1900, 2, 29).is_none());
    assert!(Date::new(2023, 4, 31).is_none());
    assert!(Date::new(2023, 13, 1).is_none());
    assert!(Date::new(2023, 0, 1).is_none());
    assert!(Date::new(10000, 1, 1).is_none());
    assert!(Time::new(24, 0, 0, 0).is_none());
    assert!(Time::new(23, 59, 59, 999).is_some());
    assert!(Time::new(0, 60, 0, 0).is_none());
    assert!(Time::new(0, 0, 0, 1000).is_none());
}

#[test]
fn test_generate_query() {
    let s = "string: ?, i32: ?, i64: ?, date: ?, image: ?";
    let mut params: Vec<Value> = Vec::new();
    params.push(Value::from("aaa"));
    params.push(Value::from(1i32));
    params.push(Value::from(2i64));
    params.push(Value::from(DateTime::new(
        Date::new(1986, 7, 5).unwrap(),
        Time::new(10, 30, 31, 0).unwrap(),
    )));
    params.push(Value::from(vec![0xDE_u8, 0xAD_u8, 0xBE_u8, 0xEF_u8]));

    let parsed_query = parse_query(s);
    let generated = generate_query(&parsed_query, &params);
    assert_eq!(
        "string: 'aaa', i32: 1, i64: 2, date: '1986/07/05 10:30:31', image: 0xDEADBEEF",
        generated
    );
}

#[test]
fn test_missing_params_become_null() {
    let parsed = parse_query("? and ? and ?");
    let generated = generate_query(&parsed, &vec![Value::from(1i32)]);
    assert_eq!("1 and null and null", generated);

    let generated = generate_query(&parsed, &Vec::new());
    assert_eq!("null and null and null", generated);
}
