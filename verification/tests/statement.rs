use freetds::generate_query;
use freetds::ColumnId;
use freetds::Statement;
use freetds::Value;

#[test]
fn test_set_param() {
    let mut st = Statement::new("select ?, ?, ?, :param3, :param4");
    assert_eq!(st.params.len(), 5);

    st.set_param(ColumnId::from(0), Value::from("Manger"));
    st.set_param(ColumnId::from(1), Value::from(String::from("Chier")));
    st.set_param(ColumnId::from(2), Value::from(42));
    st.set_param(ColumnId::from(4), Value::from("arf".as_bytes()));

    assert_eq!(st.params[0], Value::from("Manger"));
    assert_eq!(st.params[1], Value::from("Chier"));
    assert_eq!(st.params[2], Value::I32(42));
    assert_eq!(st.params[3], Value::Null);
    assert_eq!(st.params[4], Value::Blob(vec![b'a', b'r', b'f']));
}

#[test]
fn test_double_param() {
    let mut st = Statement::new(":owner, :name, :name");
    st.set_param(ColumnId::from("owner"), Value::from("DIO"));
    st.set_param(ColumnId::from("name"), Value::from("ZA WARUDO"));
    assert_eq!(st.params[0], Value::from("DIO"));
    assert_eq!(st.params[1], Value::from("ZA WARUDO"));

    let text = generate_query(&st.query, &st.params);

    let expected = "'DIO', 'ZA WARUDO', 'ZA WARUDO'";
    assert_eq!(expected, text);
}

#[test]
fn test_statement_text_and_count() {
    let st = Statement::new("select :a, ?");
    assert_eq!(st.text(), "select :a, ?");
    assert_eq!(st.param_count(), 2);
    assert_eq!(st.params[0], Value::Null);
    assert_eq!(st.params[1], Value::Null);
}
