use freetds::parse_query;
use freetds::TextPiece;

#[test]
fn test_named_param() {
    let s = ":param";
    let query = parse_query(s);
    println!("{:?}", query.pieces);
    assert_eq!(query.pieces[0], TextPiece::Placeholder);
    assert_eq!(query.params[0], Some(String::from("param")));
    assert_eq!(query.pieces.len(), 1);
    assert_eq!(query.params.len(), 1);

    let s = "select :param";
    let query = parse_query(s);
    println!("{:?}", query.pieces);
    assert_eq!(query.pieces[0], TextPiece::Literal(String::from("select ")));
    assert_eq!(query.pieces[1], TextPiece::Placeholder);
    assert_eq!(query.params[0], Some(String::from("param")));
    assert_eq!(query.pieces.len(), 2);
    assert_eq!(query.params.len(), 1);

    let s = "select :param,";
    let query = parse_query(s);
    println!("{:?}", query.pieces);
    assert_eq!(query.pieces[0], TextPiece::Literal(String::from("select ")));
    assert_eq!(query.pieces[1], TextPiece::Placeholder);
    assert_eq!(query.pieces[2], TextPiece::Literal(String::from(",")));
    assert_eq!(query.params[0], Some(String::from("param")));
    assert_eq!(query.pieces.len(), 3);
    assert_eq!(query.params.len(), 1);
}

#[test]
fn test_parse_query() {
    let s = "?, '?', ?, \"?\", ? /* que? */, ? -- ?no?\nselect ?, :param1\n";
    let query = parse_query(s);

    assert_eq!(query.pieces[0], TextPiece::Placeholder);
    assert_eq!(query.pieces[1], TextPiece::Literal(String::from(", '?', ")));
    assert_eq!(query.pieces[2], TextPiece::Placeholder);
    assert_eq!(query.pieces[3], TextPiece::Literal(String::from(", \"?\", ")));
    assert_eq!(query.pieces[4], TextPiece::Placeholder);
    assert_eq!(query.pieces[5], TextPiece::Literal(String::from(" /* que? */, ")));
    assert_eq!(query.pieces[6], TextPiece::Placeholder);
    assert_eq!(query.pieces[7], TextPiece::Literal(String::from(" -- ?no?\nselect ")));
    assert_eq!(query.pieces[8], TextPiece::Placeholder);
    assert_eq!(query.pieces[9], TextPiece::Literal(String::from(", ")));
    assert_eq!(query.pieces[10], TextPiece::Placeholder);
    assert_eq!(query.pieces[11], TextPiece::Literal(String::from("\n")));

    println!("{:?}", query.pieces);
    println!("{:?}", query.params);

    assert_eq!(query.pieces.len(), 12);
    assert_eq!(query.params.len(), 6);

    let mut param_iter = query.params.iter();
    let concated: String = query
        .pieces
        .iter()
        .map(|p| match p {
            TextPiece::Literal(s) => String::from(s),
            TextPiece::Placeholder => {
                let param = param_iter.next().unwrap();
                match param {
                    Some(name) => format!(":{}", name),
                    None => String::from("?"),
                }
            }
        })
        .collect();
    assert_eq!(s, concated);
}

#[test]
fn test_placeholder_count() {
    let query = parse_query("?, '?', ?, \"?\", ? /* que? */, ? -- ?no?");
    assert_eq!(query.params.len(), 4);
    assert_eq!(query.pieces.len(), 8);
    let placeholders = query
        .pieces
        .iter()
        .filter(|p| matches!(p, TextPiece::Placeholder))
        .count();
    assert_eq!(placeholders, 4);
}

#[test]
fn test_unterminated_quote_and_comment() {
    let query = parse_query("select 'abc? and ?");
    assert_eq!(query.pieces.len(), 1);
    assert_eq!(
        query.pieces[0],
        TextPiece::Literal(String::from("select 'abc? and ?"))
    );
    assert_eq!(query.params.len(), 0);

    let query = parse_query("x /* y? ");
    assert_eq!(query.pieces.len(), 1);
    assert_eq!(query.pieces[0], TextPiece::Literal(String::from("x /* y? ")));

    let query = parse_query("x -- y?");
    assert_eq!(query.pieces.len(), 1);
    assert_eq!(query.pieces[0], TextPiece::Literal(String::from("x -- y?")));
}

#[test]
fn test_trailing_colon_is_literal() {
    let query = parse_query("select a:");
    assert_eq!(query.pieces.len(), 1);
    assert_eq!(query.pieces[0], TextPiece::Literal(String::from("select a:")));
    assert_eq!(query.params.len(), 0);

    let query = parse_query("a : b");
    assert_eq!(query.pieces.len(), 1);
    assert_eq!(query.pieces[0], TextPiece::Literal(String::from("a : b")));
}

#[test]
fn test_empty_query() {
    let query = parse_query("");
    assert_eq!(query.pieces.len(), 0);
    assert_eq!(query.params.len(), 0);
}

#[test]
fn test_param_index_positions() {
    let query = parse_query(":a, :b, :a");
    assert_eq!(query.param_index("a"), vec![0usize, 2usize]);
    assert_eq!(query.param_index("b"), vec![1usize]);
    assert_eq!(query.param_index("c"), Vec::<usize>::new());
}

#[test]
fn test_unicode_parameter_name() {
    let query = parse_query("select :h\u{e9}llo,");
    assert_eq!(query.params[0], Some(String::from("h\u{e9}llo")));
    assert_eq!(query.pieces.len(), 3);
}
