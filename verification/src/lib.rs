//! Execution core of a TDS database client driver: a query template
//! compiler that splits SQL text into literal runs and placeholders,
//! an injection-safe literal encoder, a query generator, and the result
//! multiplexing, materialization and value-conversion logic.
use vstd::prelude::*;

pub mod builder;
pub mod column_id;
pub mod convert;
pub mod execute;
pub mod materialize;
pub mod result_set;
pub mod statement;
pub mod value;
pub mod error;
pub mod strutil;

pub use crate::builder::ConnectionBuilder;
pub use crate::builder::TdsVersion;
pub use crate::column_id::ColumnId;
pub use crate::error::Error;
pub use crate::result_set::ResultSet;
pub use crate::result_set::ResultType;
pub use crate::statement::Statement;
pub use crate::value::Value;

verus! {

use crate::strutil::chars_of;
use crate::strutil::string_from_chars;
use crate::value::ToSql;
use vstd::string::StringExecFns;

/// Marker for a SQL NULL argument.
pub struct Null {}

impl Null {
    pub fn null() -> (r: Self)
        ensures
            r == (Null {}),
    {
        Null {}
    }
}

/// One compiled piece of a query: a literal run of text, or a placeholder.
#[derive(PartialEq, Debug, Clone)]
pub enum TextPiece {
    Literal(String),
    Placeholder,
}

/// Mathematical model of a compiled piece: literal text, or a placeholder
/// with its optional name.
pub enum PieceV {
    Literal(Seq<char>),
    Placeholder(Option<Seq<char>>),
}

/// Whether a character may continue a placeholder name.
pub uninterp spec fn char_alphanumeric(c: char) -> bool;

/// Relies on char::is_alphanumeric: the result depends on the character alone.
#[verifier::external_body]
fn is_alphanumeric_char(c: char) -> (r: bool)
    ensures
        r == char_alphanumeric(c),
{
    c.is_alphanumeric()
}

pub open spec fn name_char(c: char) -> bool {
    char_alphanumeric(c) || c == '_'
}

fn is_name_char(c: char) -> (r: bool)
    ensures
        r == name_char(c),
{
    is_alphanumeric_char(c) || c == '_'
}

/// Characters consumed until and including the first `q`, or all of `s`.
pub open spec fn scan_until(s: Seq<char>, q: char) -> int
    decreases s.len(),
{
    if s.len() == 0 {
        0
    } else if s[0] == q {
        1
    } else {
        1 + scan_until(s.drop_first(), q)
    }
}

/// Characters consumed until and including a `*/` pair, or all of `s`.
pub open spec fn scan_comment(s: Seq<char>) -> int
    decreases s.len(),
{
    if s.len() < 2 {
        s.len() as int
    } else if s[0] == '*' && s[1] == '/' {
        2
    } else {
        1 + scan_comment(s.drop_first())
    }
}

/// Length of the maximal prefix of name characters.
pub open spec fn scan_name(s: Seq<char>) -> int
    decreases s.len(),
{
    if s.len() == 0 {
        0
    } else if name_char(s[0]) {
        1 + scan_name(s.drop_first())
    } else {
        0
    }
}

proof fn lemma_scan_until_bounds(s: Seq<char>, q: char)
    ensures
        0 <= scan_until(s, q) <= s.len(),
    decreases s.len(),
{
    if s.len() != 0 && s[0] != q {
        lemma_scan_until_bounds(s.drop_first(), q);
    }
}

proof fn lemma_scan_comment_bounds(s: Seq<char>)
    ensures
        0 <= scan_comment(s) <= s.len(),
    decreases s.len(),
{
    if s.len() >= 2 && !(s[0] == '*' && s[1] == '/') {
        lemma_scan_comment_bounds(s.drop_first());
    }
}

proof fn lemma_scan_name_bounds(s: Seq<char>)
    ensures
        0 <= scan_name(s) <= s.len(),
    decreases s.len(),
{
    if s.len() != 0 && name_char(s[0]) {
        lemma_scan_name_bounds(s.drop_first());
    }
}

/// Literal characters consumed from the head of `s`: a whole quoted run,
/// a whole block comment, a whole line comment, or a single character.
pub open spec fn lit_run(s: Seq<char>) -> int
    recommends
        s.len() > 0,
{
    let c = s[0];
    if c == '\'' || c == '"' {
        1 + scan_until(s.drop_first(), c)
    } else if c == '/' && s.len() >= 2 && s[1] == '*' {
        2 + scan_comment(s.skip(2))
    } else if c == '-' && s.len() >= 2 && s[1] == '-' {
        1 + scan_until(s.drop_first(), '\n')
    } else {
        1
    }
}

proof fn lemma_lit_run_bounds(s: Seq<char>)
    requires
        s.len() > 0,
    ensures
        1 <= lit_run(s) <= s.len(),
{
    let c = s[0];
    if c == '\'' || c == '"' {
        lemma_scan_until_bounds(s.drop_first(), c);
    } else if c == '/' && s.len() >= 2 && s[1] == '*' {
        lemma_scan_comment_bounds(s.skip(2));
    } else if c == '-' && s.len() >= 2 && s[1] == '-' {
        lemma_scan_until_bounds(s.drop_first(), '\n');
    }
}

/// Joins literal text onto the front of a piece sequence, merging with a
/// leading literal piece so that literal runs stay maximal.
pub open spec fn prepend_lit(t: Seq<char>, rest: Seq<PieceV>) -> Seq<PieceV> {
    if t.len() == 0 {
        rest
    } else if rest.len() > 0 && rest[0] is Literal {
        seq![PieceV::Literal(t + rest[0]->Literal_0)] + rest.drop_first()
    } else {
        seq![PieceV::Literal(t)] + rest
    }
}

/// The compiled pieces of a query text: a single left-to-right scan that
/// copies quoted strings and comments verbatim, turns `?` into an unnamed
/// placeholder and `:name` into a named one, and otherwise accumulates
/// literal text.
pub open spec fn spec_parse(s: Seq<char>) -> Seq<PieceV>
    decreases s.len(),
    via spec_parse_decreases
{
    if s.len() == 0 {
        Seq::empty()
    } else if s[0] == '?' {
        seq![PieceV::Placeholder(None)] + spec_parse(s.drop_first())
    } else if s[0] == ':' && s.len() >= 2 && name_char(s[1]) {
        let n = scan_name(s.skip(1));
        seq![PieceV::Placeholder(Some(s.subrange(1, 1 + n)))] + spec_parse(s.skip(1 + n))
    } else {
        let k = lit_run(s);
        prepend_lit(s.take(k), spec_parse(s.skip(k)))
    }
}

#[via_fn]
proof fn spec_parse_decreases(s: Seq<char>) {
    if s.len() != 0 {
        if s[0] == '?' {
        } else if s[0] == ':' && s.len() >= 2 && name_char(s[1]) {
            lemma_scan_name_bounds(s.skip(1));
        } else {
            lemma_lit_run_bounds(s);
        }
    }
}

/// The source token a compiled piece stands for.
pub open spec fn piece_token(p: PieceV) -> Seq<char> {
    match p {
        PieceV::Literal(t) => t,
        PieceV::Placeholder(None) => seq!['?'],
        PieceV::Placeholder(Some(n)) => seq![':'] + n,
    }
}

/// Concatenation of the pieces' source tokens.
pub open spec fn recon(ps: Seq<PieceV>) -> Seq<char>
    decreases ps.len(),
{
    if ps.len() == 0 {
        Seq::empty()
    } else {
        piece_token(ps[0]) + recon(ps.drop_first())
    }
}

proof fn lemma_recon_cons(x: PieceV, rest: Seq<PieceV>)
    ensures
        recon(seq![x] + rest) == piece_token(x) + recon(rest),
{
    let s = seq![x] + rest;
    assert(s.len() > 0);
    assert(s[0] == x);
    assert(s.drop_first() =~= rest);
}

proof fn lemma_recon_prepend(t: Seq<char>, rest: Seq<PieceV>)
    ensures
        recon(prepend_lit(t, rest)) == t + recon(rest),
{
    if t.len() == 0 {
        assert(t + recon(rest) =~= recon(rest));
    } else if rest.len() > 0 && rest[0] is Literal {
        let u = rest[0]->Literal_0;
        lemma_recon_cons(PieceV::Literal(t + u), rest.drop_first());
        assert(recon(rest) == piece_token(rest[0]) + recon(rest.drop_first())) by {
            assert(rest.len() > 0);
        }
        assert((t + u) + recon(rest.drop_first()) =~= t + (u + recon(rest.drop_first())));
    } else {
        lemma_recon_cons(PieceV::Literal(t), rest);
    }
}

/// Round-trip law: concatenating the compiled pieces, with each placeholder
/// replaced by its original source token (`?` or `:name`), reproduces the
/// input text exactly.
pub proof fn lemma_parse_round_trip(s: Seq<char>)
    ensures
        recon(spec_parse(s)) == s,
    decreases s.len(),
{
    if s.len() == 0 {
        assert(recon(spec_parse(s)) =~= s);
    } else if s[0] == '?' {
        lemma_parse_round_trip(s.drop_first());
        lemma_recon_cons(PieceV::Placeholder(None), spec_parse(s.drop_first()));
        assert(seq!['?'] + s.drop_first() =~= s);
    } else if s[0] == ':' && s.len() >= 2 && name_char(s[1]) {
        let n = scan_name(s.skip(1));
        lemma_scan_name_bounds(s.skip(1));
        assert(s.skip(1).len() == s.len() - 1);
        lemma_parse_round_trip(s.skip(1 + n));
        let name = s.subrange(1, 1 + n);
        lemma_recon_cons(PieceV::Placeholder(Some(name)), spec_parse(s.skip(1 + n)));
        assert((seq![':'] + name) + s.skip(1 + n) =~= s);
    } else {
        let k = lit_run(s);
        lemma_lit_run_bounds(s);
        lemma_parse_round_trip(s.skip(k));
        lemma_recon_prepend(s.take(k), spec_parse(s.skip(k)));
        assert(s.take(k) + s.skip(k) =~= s);
    }
}

/// A compiled query: literal pieces and placeholders in source order, and,
/// aligned with the placeholders, the recorded parameter names.
#[derive(Debug, Clone)]
pub struct ParsedQuery {
    pub pieces: Vec<TextPiece>,
    pub params: Vec<Option<String>>,
}

/// Number of placeholder pieces.
pub open spec fn ph_count(pieces: Seq<TextPiece>) -> nat
    decreases pieces.len(),
{
    if pieces.len() == 0 {
        0
    } else {
        (if pieces[0] is Placeholder {
            1nat
        } else {
            0nat
        }) + ph_count(pieces.drop_first())
    }
}

pub open spec fn opt_name_view(p: Option<String>) -> Option<Seq<char>> {
    match p {
        None => None,
        Some(n) => Some(n@),
    }
}

/// Merges the piece list and the parameter-name table into the model:
/// the k-th placeholder piece carries the k-th recorded name.
pub open spec fn pieces_view(pieces: Seq<TextPiece>, params: Seq<Option<String>>) -> Seq<PieceV>
    decreases pieces.len(),
{
    if pieces.len() == 0 {
        Seq::empty()
    } else {
        match pieces[0] {
            TextPiece::Literal(t) => seq![PieceV::Literal(t@)] + pieces_view(
                pieces.drop_first(),
                params,
            ),
            TextPiece::Placeholder => {
                let pv = if params.len() == 0 {
                    None
                } else {
                    opt_name_view(params[0])
                };
                let rest = if params.len() == 0 {
                    params
                } else {
                    params.drop_first()
                };
                seq![PieceV::Placeholder(pv)] + pieces_view(pieces.drop_first(), rest)
            },
        }
    }
}

impl View for ParsedQuery {
    type V = Seq<PieceV>;

    open spec fn view(&self) -> Seq<PieceV> {
        pieces_view(self.pieces@, self.params@)
    }
}

impl ParsedQuery {
    /// One recorded name per placeholder piece.
    pub open spec fn wf(&self) -> bool {
        ph_count(self.pieces@) == self.params@.len()
    }

    /// Every placeholder position whose recorded name equals `name`,
    /// in increasing order.
    pub fn param_index(&self, name: &str) -> (r: Vec<usize>)
        ensures
            forall|k: int|
                0 <= k < r@.len() ==> r@[k] < self.params@.len() && opt_name_view(
                    self.params@[r@[k] as int],
                ) == Some(name@),
            forall|j: int|
                0 <= j < self.params@.len() && opt_name_view(self.params@[j]) == Some(name@)
                    ==> r@.contains(j as usize),
            forall|k1: int, k2: int| 0 <= k1 < k2 < r@.len() ==> r@[k1] < r@[k2],
    {
        let mut r: Vec<usize> = Vec::new();
        let mut j: usize = 0;
        while j < self.params.len()
            invariant
                j <= self.params@.len(),
                forall|k: int|
                    0 <= k < r@.len() ==> r@[k] < j && opt_name_view(self.params@[r@[k] as int])
                        == Some(name@),
                forall|i: int|
                    0 <= i < j && opt_name_view(self.params@[i]) == Some(name@) ==> r@.contains(
                        i as usize,
                    ),
                forall|k1: int, k2: int| 0 <= k1 < k2 < r@.len() ==> r@[k1] < r@[k2],
            decreases self.params@.len() - j,
        {
            let ghost old_r = r@;
            match &self.params[j] {
                Some(n) => {
                    if str_eq(n.as_str(), name) {
                        r.push(j);
                    }
                },
                None => {},
            }
            proof {
                assert(forall|k: int| 0 <= k < old_r.len() ==> r@[k] == old_r[k]);
                assert forall|i: int|
                    0 <= i < j + 1 && opt_name_view(self.params@[i]) == Some(
                        name@,
                    ) implies r@.contains(i as usize) by {
                    if i < j {
                        assert(old_r.contains(i as usize));
                        let k = choose|k: int|
                            0 <= k < old_r.len() && old_r[k] == i as usize;
                        assert(r@[k] == i as usize);
                        assert(r@.contains(i as usize));
                    } else {
                        assert(r@[r@.len() - 1] == j as usize);
                        assert(r@.contains(j as usize));
                    }
                }
            }
            j = j + 1;
        }
        r
    }
}

/// Relies on str's PartialEq: character-for-character equality.
#[verifier::external_body]
pub(crate) fn str_eq(a: &str, b: &str) -> (r: bool)
    ensures
        r == (a@ == b@),
{
    a == b
}

/// The SQL text generated from compiled pieces and positional parameter
/// values: literal pieces verbatim, each placeholder replaced by the next
/// value's literal encoding, and by `null` once the values run out.
pub open spec fn gen_text(pieces: Seq<TextPiece>, vals: Seq<crate::value::Value>) -> Seq<char>
    decreases pieces.len(),
{
    if pieces.len() == 0 {
        Seq::empty()
    } else {
        match pieces[0] {
            TextPiece::Literal(t) => t@ + gen_text(pieces.drop_first(), vals),
            TextPiece::Placeholder => {
                if vals.len() == 0 {
                    crate::value::null_text() + gen_text(pieces.drop_first(), vals)
                } else {
                    crate::value::sql_literal(vals[0]) + gen_text(
                        pieces.drop_first(),
                        vals.drop_first(),
                    )
                }
            },
        }
    }
}

/// Missing-parameter permissiveness: supplying one value fewer generates
/// the same text as supplying an explicit SQL NULL in its place, so a
/// short parameter list substitutes `null` for each unmatched placeholder
/// rather than failing.
pub proof fn lemma_missing_params_are_null(
    pieces: Seq<TextPiece>,
    vals: Seq<crate::value::Value>,
)
    ensures
        gen_text(pieces, vals.push(crate::value::Value::Null)) == gen_text(pieces, vals),
    decreases pieces.len(),
{
    let padded = vals.push(crate::value::Value::Null);
    if pieces.len() == 0 {
    } else {
        match pieces[0] {
            TextPiece::Literal(_) => {
                lemma_missing_params_are_null(pieces.drop_first(), vals);
            },
            TextPiece::Placeholder => {
                if vals.len() == 0 {
                    assert(padded.len() == 1);
                    assert(padded[0] == crate::value::Value::Null);
                    assert(padded.drop_first() =~= vals);
                    assert(crate::value::sql_literal(crate::value::Value::Null)
                        == crate::value::null_text());
                } else {
                    assert(padded[0] == vals[0]);
                    assert(padded.drop_first() =~= vals.drop_first().push(
                        crate::value::Value::Null,
                    ));
                    lemma_missing_params_are_null(pieces.drop_first(), vals.drop_first());
                }
            },
        }
    }
}

/// Re-assembles a compiled query into literal SQL, substituting the given
/// values positionally. A placeholder beyond the last value becomes `null`
/// rather than an error.
pub fn generate_query(query: &ParsedQuery, params: &Vec<crate::value::Value>) -> (r: String)
    requires
        forall|i: int| 0 <= i < params@.len() ==> (#[trigger] params@[i]).wf(),
    ensures
        r@ == gen_text(query.pieces@, params@),
{
    let mut out = String::new();
    let mut j: usize = 0;
    let mut i: usize = 0;
    proof {
        assert(query.pieces@.skip(0) =~= query.pieces@);
        assert(params@.skip(0) =~= params@);
    }
    while i < query.pieces.len()
        invariant
            i <= query.pieces@.len(),
            j <= params@.len(),
            forall|k: int| 0 <= k < params@.len() ==> (#[trigger] params@[k]).wf(),
            gen_text(query.pieces@, params@) == out@ + gen_text(
                query.pieces@.skip(i as int),
                params@.skip(j as int),
            ),
        decreases query.pieces@.len() - i,
    {
        let ghost ps = query.pieces@.skip(i as int);
        let ghost vs = params@.skip(j as int);
        proof {
            assert(ps[0] == query.pieces@[i as int]);
            assert(ps.drop_first() =~= query.pieces@.skip(i + 1 as int));
        }
        match &query.pieces[i] {
            TextPiece::Literal(s) => {
                out.append(s.as_str());
            },
            TextPiece::Placeholder => {
                if j < params.len() {
                    proof {
                        assert(vs[0] == params@[j as int]);
                        assert(vs.drop_first() =~= params@.skip(j + 1 as int));
                    }
                    let t = params[j].to_sql();
                    out.append(t.as_str());
                    j = j + 1;
                } else {
                    proof {
                        assert(vs =~= Seq::<crate::value::Value>::empty());
                    }
                    out.append("null");
                }
            },
        }
        i = i + 1;
    }
    proof {
        assert(query.pieces@.skip(query.pieces@.len() as int) =~= Seq::<TextPiece>::empty());
        assert(out@ + Seq::<char>::empty() =~= out@);
    }
    out
}

proof fn lemma_ph_count_push(pieces: Seq<TextPiece>, x: TextPiece)
    ensures
        ph_count(pieces.push(x)) == ph_count(pieces) + (if x is Placeholder {
            1nat
        } else {
            0nat
        }),
    decreases pieces.len(),
{
    if pieces.len() == 0 {
        assert(pieces.push(x)[0] == x);
        assert(pieces.push(x).drop_first() =~= Seq::<TextPiece>::empty());
        assert(ph_count(Seq::<TextPiece>::empty()) == 0);
    } else {
        assert(pieces.push(x)[0] == pieces[0]);
        assert(pieces.push(x).drop_first() =~= pieces.drop_first().push(x));
        lemma_ph_count_push(pieces.drop_first(), x);
    }
}

proof fn lemma_pv_push_lit(pieces: Seq<TextPiece>, params: Seq<Option<String>>, t: String)
    ensures
        pieces_view(pieces.push(TextPiece::Literal(t)), params) == pieces_view(
            pieces,
            params,
        ).push(PieceV::Literal(t@)),
    decreases pieces.len(),
{
    let p2 = pieces.push(TextPiece::Literal(t));
    if pieces.len() == 0 {
        assert(p2[0] == TextPiece::Literal(t));
        assert(p2.drop_first() =~= Seq::<TextPiece>::empty());
        assert(pieces_view(p2.drop_first(), params) == Seq::<PieceV>::empty());
        assert(pieces_view(p2, params) == seq![PieceV::Literal(t@)] + pieces_view(
            p2.drop_first(),
            params,
        ));
        assert(pieces_view(pieces, params) == Seq::<PieceV>::empty());
        assert(seq![PieceV::Literal(t@)] + Seq::<PieceV>::empty()
            =~= Seq::<PieceV>::empty().push(PieceV::Literal(t@)));
    } else {
        assert(p2[0] == pieces[0]);
        assert(p2.drop_first() =~= pieces.drop_first().push(TextPiece::Literal(t)));
        let x = PieceV::Literal(t@);
        match pieces[0] {
            TextPiece::Literal(u) => {
                lemma_pv_push_lit(pieces.drop_first(), params, t);
                let h = PieceV::Literal(u@);
                let b = pieces_view(pieces.drop_first(), params);
                assert(pieces_view(p2, params) == seq![h] + pieces_view(
                    p2.drop_first(),
                    params,
                ));
                assert(pieces_view(pieces, params) == seq![h] + b);
                assert(seq![h] + b.push(x) =~= (seq![h] + b).push(x));
            },
            TextPiece::Placeholder => {
                let pv = if params.len() == 0 {
                    None
                } else {
                    opt_name_view(params[0])
                };
                let rest = if params.len() == 0 {
                    params
                } else {
                    params.drop_first()
                };
                lemma_pv_push_lit(pieces.drop_first(), rest, t);
                let h = PieceV::Placeholder(pv);
                let b = pieces_view(pieces.drop_first(), rest);
                assert(pieces_view(p2, params) == seq![h] + pieces_view(
                    p2.drop_first(),
                    rest,
                ));
                assert(pieces_view(pieces, params) == seq![h] + b);
                assert(seq![h] + b.push(x) =~= (seq![h] + b).push(x));
            },
        }
    }
}

proof fn lemma_pv_push_ph(pieces: Seq<TextPiece>, params: Seq<Option<String>>, p: Option<String>)
    requires
        ph_count(pieces) == params.len(),
    ensures
        pieces_view(pieces.push(TextPiece::Placeholder), params.push(p)) == pieces_view(
            pieces,
            params,
        ).push(PieceV::Placeholder(opt_name_view(p))),
    decreases pieces.len(),
{
    let p2 = pieces.push(TextPiece::Placeholder);
    let q2 = params.push(p);
    if pieces.len() == 0 {
        assert(params.len() == 0);
        assert(p2[0] == TextPiece::Placeholder);
        assert(q2.len() == 1);
        assert(q2[0] == p);
        assert(p2.drop_first() =~= Seq::<TextPiece>::empty());
        assert(q2.drop_first() =~= Seq::<Option<String>>::empty());
        assert(pieces_view(p2.drop_first(), q2.drop_first()) == Seq::<PieceV>::empty());
        assert(pieces_view(p2, q2) == seq![PieceV::Placeholder(opt_name_view(p))] + pieces_view(
            p2.drop_first(),
            q2.drop_first(),
        ));
        assert(pieces_view(pieces, params) == Seq::<PieceV>::empty());
        assert(seq![PieceV::Placeholder(opt_name_view(p))] + Seq::<PieceV>::empty()
            =~= Seq::<PieceV>::empty().push(PieceV::Placeholder(opt_name_view(p))));
    } else {
        assert(p2[0] == pieces[0]);
        assert(p2.drop_first() =~= pieces.drop_first().push(TextPiece::Placeholder));
        let x = PieceV::Placeholder(opt_name_view(p));
        match pieces[0] {
            TextPiece::Literal(u) => {
                lemma_pv_push_ph(pieces.drop_first(), params, p);
                let h = PieceV::Literal(u@);
                let b = pieces_view(pieces.drop_first(), params);
                assert(pieces_view(p2, q2) == seq![h] + pieces_view(p2.drop_first(), q2));
                assert(pieces_view(pieces, params) == seq![h] + b);
                assert(seq![h] + b.push(x) =~= (seq![h] + b).push(x));
            },
            TextPiece::Placeholder => {
                assert(ph_count(pieces) >= 1);
                assert(params.len() >= 1);
                assert(q2.len() > 0);
                assert(q2[0] == params[0]);
                assert(q2.drop_first() =~= params.drop_first().push(p));
                lemma_pv_push_ph(pieces.drop_first(), params.drop_first(), p);
                let h = PieceV::Placeholder(opt_name_view(params[0]));
                let b = pieces_view(pieces.drop_first(), params.drop_first());
                assert(pieces_view(p2, q2) == seq![h] + pieces_view(
                    p2.drop_first(),
                    q2.drop_first(),
                ));
                assert(pieces_view(pieces, params) == seq![h] + b);
                assert(seq![h] + b.push(x) =~= (seq![h] + b).push(x));
            },
        }
    }
}

proof fn lemma_prepend_assoc(a: Seq<char>, b: Seq<char>, rest: Seq<PieceV>)
    ensures
        prepend_lit(a, prepend_lit(b, rest)) == prepend_lit(a + b, rest),
{
    if a.len() == 0 {
        assert(a + b =~= b);
    } else if b.len() == 0 {
        assert(a + b =~= a);
        if rest.len() > 0 && rest[0] is Literal {
            assert(a + rest[0]->Literal_0 =~= (a + b) + rest[0]->Literal_0);
        }
    } else {
        assert((a + b).len() > 0);
        if rest.len() > 0 && rest[0] is Literal {
            let u = rest[0]->Literal_0;
            let inner = seq![PieceV::Literal(b + u)] + rest.drop_first();
            assert(inner[0] is Literal);
            assert(a + (b + u) =~= (a + b) + u);
            assert(inner.drop_first() =~= rest.drop_first());
            assert(prepend_lit(a, inner) =~= prepend_lit(a + b, rest));
        } else {
            let inner = seq![PieceV::Literal(b)] + rest;
            assert(inner[0] is Literal);
            assert(a + b =~= a + b);
            assert(inner.drop_first() =~= rest);
            assert(prepend_lit(a, inner) =~= prepend_lit(a + b, rest));
        }
    }
}

fn find_until(v: &Vec<char>, start: usize, q: char) -> (end: usize)
    requires
        start <= v@.len(),
    ensures
        start <= end <= v@.len(),
        end - start == scan_until(v@.skip(start as int), q),
{
    let mut j = start;
    proof {
        lemma_scan_until_bounds(v@.skip(start as int), q);
    }
    while j < v.len() && v[j] != q
        invariant
            start <= j <= v@.len(),
            scan_until(v@.skip(start as int), q) == (j - start) + scan_until(
                v@.skip(j as int),
                q,
            ),
        decreases v@.len() - j,
    {
        proof {
            let s = v@.skip(j as int);
            assert(s[0] == v@[j as int]);
            assert(s.drop_first() =~= v@.skip(j + 1 as int));
        }
        j = j + 1;
    }
    if j < v.len() {
        proof {
            let s = v@.skip(j as int);
            assert(s[0] == v@[j as int]);
        }
        j + 1
    } else {
        proof {
            assert(v@.skip(j as int) =~= Seq::<char>::empty());
        }
        j
    }
}

fn find_comment_end(v: &Vec<char>, start: usize) -> (end: usize)
    requires
        start <= v@.len(),
    ensures
        start <= end <= v@.len(),
        end - start == scan_comment(v@.skip(start as int)),
{
    let mut j = start;
    while j < v.len() && j + 1 < v.len() && !(v[j] == '*' && v[j + 1] == '/')
        invariant
            start <= j <= v@.len(),
            scan_comment(v@.skip(start as int)) == (j - start) + scan_comment(v@.skip(j as int)),
        decreases v@.len() - j,
    {
        proof {
            let s = v@.skip(j as int);
            assert(s.len() >= 2);
            assert(s[0] == v@[j as int]);
            assert(s[1] == v@[j + 1 as int]);
            assert(s.drop_first() =~= v@.skip(j + 1 as int));
        }
        j = j + 1;
    }
    if j < v.len() && j + 1 < v.len() {
        proof {
            let s = v@.skip(j as int);
            assert(s.len() >= 2);
            assert(s[0] == v@[j as int]);
            assert(s[1] == v@[j + 1 as int]);
        }
        j + 2
    } else {
        proof {
            let s = v@.skip(j as int);
            assert(s.len() < 2);
        }
        v.len()
    }
}

fn find_name_end(v: &Vec<char>, start: usize) -> (end: usize)
    requires
        start <= v@.len(),
    ensures
        start <= end <= v@.len(),
        end - start == scan_name(v@.skip(start as int)),
{
    let mut j = start;
    while j < v.len() && is_name_char(v[j])
        invariant
            start <= j <= v@.len(),
            scan_name(v@.skip(start as int)) == (j - start) + scan_name(v@.skip(j as int)),
        decreases v@.len() - j,
    {
        proof {
            let s = v@.skip(j as int);
            assert(s[0] == v@[j as int]);
            assert(s.drop_first() =~= v@.skip(j + 1 as int));
        }
        j = j + 1;
    }
    proof {
        let s = v@.skip(j as int);
        if j < v@.len() {
            assert(s[0] == v@[j as int]);
            assert(scan_name(s) == 0);
        } else {
            assert(s =~= Seq::<char>::empty());
        }
    }
    j
}

fn append_range(cur: &mut Vec<char>, v: &Vec<char>, from: usize, to: usize)
    requires
        from <= to <= v@.len(),
    ensures
        final(cur)@ == old(cur)@ + v@.subrange(from as int, to as int),
{
    let mut j = from;
    while j < to
        invariant
            from <= j <= to <= v@.len(),
            cur@ == old(cur)@ + v@.subrange(from as int, j as int),
        decreases to - j,
    {
        cur.push(v[j]);
        proof {
            assert(cur@ =~= old(cur)@ + v@.subrange(from as int, j + 1 as int));
        }
        j = j + 1;
    }
}

/// Computes the end of the literal run that starts at `i`.
fn lit_end(v: &Vec<char>, i: usize) -> (end: usize)
    requires
        i < v@.len(),
    ensures
        i < end <= v@.len(),
        end - i == lit_run(v@.skip(i as int)),
{
    let n = v.len();
    let ghost s = v@.skip(i as int);
    proof {
        assert(s[0] == v@[i as int]);
        if s.len() >= 2 {
            assert(s[1] == v@[i + 1 as int]);
        }
        lemma_lit_run_bounds(s);
    }
    let c = v[i];
    if c == '\'' || c == '"' {
        let e = find_until(v, i + 1, c);
        proof {
            assert(s.drop_first() =~= v@.skip(i + 1 as int));
        }
        e
    } else if c == '/' && i + 1 < v.len() && v[i + 1] == '*' {
        let e = find_comment_end(v, i + 2);
        proof {
            assert(s.skip(2) =~= v@.skip(i + 2 as int));
        }
        e
    } else if c == '-' && i + 1 < v.len() && v[i + 1] == '-' {
        let e = find_until(v, i + 1, '\n');
        proof {
            assert(s.drop_first() =~= v@.skip(i + 1 as int));
        }
        e
    } else {
        i + 1
    }
}

/// Compiles SQL text into literal pieces and placeholders in one pass.
/// Placeholders inside quoted strings and comments are not recognized;
/// an unterminated quote or comment consumes to the end of the input.
pub fn parse_query(text: &str) -> (r: ParsedQuery)
    ensures
        r@ == spec_parse(text@),
        r.wf(),
{
    let v = chars_of(text);
    let mut pieces: Vec<TextPiece> = Vec::new();
    let mut params: Vec<Option<String>> = Vec::new();
    let mut cur: Vec<char> = Vec::new();
    let mut i: usize = 0;
    proof {
        assert(v@.skip(0) =~= v@);
        assert(Seq::<PieceV>::empty() + prepend_lit(cur@, spec_parse(v@)) =~= spec_parse(v@));
    }
    while i < v.len()
        invariant
            i <= v@.len(),
            v@ == text@,
            ph_count(pieces@) == params@.len(),
            spec_parse(v@) == pieces_view(pieces@, params@) + prepend_lit(
                cur@,
                spec_parse(v@.skip(i as int)),
            ),
        decreases v@.len() - i,
    {
        let ghost s = v@.skip(i as int);
        proof {
            assert(s[0] == v@[i as int]);
            if s.len() >= 2 {
                assert(s[1] == v@[i + 1 as int]);
            }
        }
        let c = v[i];
        if c == '?' {
            let ghost rest = spec_parse(v@.skip(i + 1 as int));
            let ghost ph = seq![PieceV::Placeholder(None)];
            proof {
                assert(s.drop_first() =~= v@.skip(i + 1 as int));
                assert(spec_parse(s) == ph + rest);
            }
            let ghost pieces0 = pieces@;
            let ghost cur0 = cur@;
            flush_literal(&mut pieces, &mut cur);
            proof {
                lemma_flush_view(pieces0, pieces@, params@, cur0, ph + rest);
                assert((ph + rest).len() > 0 && (ph + rest)[0] == PieceV::Placeholder(None));
            }
            let ghost pv1 = pieces_view(pieces@, params@);
            proof {
                lemma_pv_push_ph(pieces@, params@, None);
                lemma_ph_count_push(pieces@, TextPiece::Placeholder);
            }
            pieces.push(TextPiece::Placeholder);
            params.push(None);
            proof {
                assert(pieces_view(pieces@, params@) == pv1.push(PieceV::Placeholder(None)));
                assert(pv1.push(PieceV::Placeholder(None)) + rest =~= pv1 + (ph + rest));
                assert(prepend_lit(Seq::<char>::empty(), rest) == rest);
            }
            i = i + 1;
        } else if c == ':' && i + 1 < v.len() && is_name_char(v[i + 1]) {
            let ghost n = scan_name(s.skip(1));
            proof {
                assert(s.skip(1) =~= v@.skip(i + 1 as int));
                lemma_scan_name_bounds(s.skip(1));
            }
            let name_end = find_name_end(&v, i + 1);
            proof {
                assert(name_end - (i + 1) == n);
                assert(s.subrange(1, 1 + n) =~= v@.subrange(i + 1 as int, name_end as int));
                assert(s.skip(1 + n) =~= v@.skip(name_end as int));
            }
            let ghost rest = spec_parse(v@.skip(name_end as int));
            let ghost namev = s.subrange(1, 1 + n);
            proof {
                assert(spec_parse(s) == seq![PieceV::Placeholder(Some(namev))] + rest);
            }
            let mut name_chars: Vec<char> = Vec::new();
            append_range(&mut name_chars, &v, i + 1, name_end);
            let name = string_from_chars(&name_chars);
            let ghost ph = seq![PieceV::Placeholder(Some(namev))];
            proof {
                assert(name@ == namev);
                assert(spec_parse(s) == ph + rest);
            }
            let ghost pieces0 = pieces@;
            let ghost cur0 = cur@;
            flush_literal(&mut pieces, &mut cur);
            proof {
                lemma_flush_view(pieces0, pieces@, params@, cur0, ph + rest);
                assert((ph + rest).len() > 0 && (ph + rest)[0] == PieceV::Placeholder(
                    Some(namev),
                ));
            }
            let ghost pv1 = pieces_view(pieces@, params@);
            proof {
                lemma_pv_push_ph(pieces@, params@, Some(name));
                lemma_ph_count_push(pieces@, TextPiece::Placeholder);
            }
            pieces.push(TextPiece::Placeholder);
            params.push(Some(name));
            proof {
                assert(pieces_view(pieces@, params@) == pv1.push(
                    PieceV::Placeholder(Some(namev)),
                ));
                assert(pv1.push(PieceV::Placeholder(Some(namev))) + rest =~= pv1 + (ph + rest));
                assert(prepend_lit(Seq::<char>::empty(), rest) == rest);
            }
            i = name_end;
        } else {
            let ghost k = lit_run(s);
            proof {
                assert(spec_parse(s) == prepend_lit(s.take(k), spec_parse(s.skip(k))));
            }
            let run_end = lit_end(&v, i);
            proof {
                assert(s.take(k) =~= v@.subrange(i as int, run_end as int));
                assert(s.skip(k) =~= v@.skip(run_end as int));
            }
            let ghost cur0 = cur@;
            append_range(&mut cur, &v, i, run_end);
            proof {
                lemma_prepend_assoc(cur0, s.take(k), spec_parse(v@.skip(run_end as int)));
            }
            i = run_end;
        }
    }
    proof {
        assert(v@.skip(v@.len() as int) =~= Seq::<char>::empty());
    }
    let ghost pieces0 = pieces@;
    let ghost cur0 = cur@;
    flush_literal(&mut pieces, &mut cur);
    proof {
        lemma_flush_view(pieces0, pieces@, params@, cur0, Seq::<PieceV>::empty());
        assert(pieces_view(pieces@, params@) + Seq::<PieceV>::empty() =~= pieces_view(
            pieces@,
            params@,
        ));
        assert(pieces_view(pieces0, params@) + prepend_lit(cur0, Seq::<PieceV>::empty())
            =~= pieces_view(pieces0, params@) + prepend_lit(cur0, spec_parse(Seq::<char>::empty())));
    }
    ParsedQuery { pieces, params }
}

/// Closes the pending literal run, if any, as one `Literal` piece.
fn flush_literal(pieces: &mut Vec<TextPiece>, cur: &mut Vec<char>)
    ensures
        final(cur)@ == Seq::<char>::empty(),
        ph_count(final(pieces)@) == ph_count(old(pieces)@),
        old(cur)@.len() == 0 ==> final(pieces)@ == old(pieces)@,
        old(cur)@.len() > 0 ==> exists|s: String|
            s@ == old(cur)@ && final(pieces)@ == old(pieces)@.push(TextPiece::Literal(s)),
{
    if cur.len() > 0 {
        let s = string_from_chars(cur);
        let ghost p0 = pieces@;
        pieces.push(TextPiece::Literal(s));
        cur.clear();
        proof {
            lemma_ph_count_push(p0, TextPiece::Literal(s));
            assert(s@ == old(cur)@ && pieces@ == p0.push(TextPiece::Literal(s)));
        }
    }
}

/// After a flush, the view of the grown piece list followed by the pieces
/// still to come equals the old view followed by the pending literal text
/// merged in front of those pieces, provided they do not begin with a
/// literal piece.
proof fn lemma_flush_view(
    p0: Seq<TextPiece>,
    p1: Seq<TextPiece>,
    params: Seq<Option<String>>,
    cur: Seq<char>,
    rest: Seq<PieceV>,
)
    requires
        rest.len() > 0 ==> !(rest[0] is Literal),
        cur.len() == 0 ==> p1 == p0,
        cur.len() > 0 ==> exists|s: String| s@ == cur && p1 == p0.push(TextPiece::Literal(s)),
    ensures
        pieces_view(p1, params) + rest == pieces_view(p0, params) + prepend_lit(cur, rest),
{
    if cur.len() == 0 {
        assert(pieces_view(p1, params) + rest =~= pieces_view(p0, params) + prepend_lit(
            cur,
            rest,
        ));
    } else {
        let s = choose|s: String| s@ == cur && p1 == p0.push(TextPiece::Literal(s));
        lemma_pv_push_lit(p0, params, s);
        assert(prepend_lit(cur, rest) == seq![PieceV::Literal(cur)] + rest);
        assert(pieces_view(p1, params) + rest =~= pieces_view(p0, params) + (seq![
            PieceV::Literal(cur),
        ] + rest));
    }
}

} // verus!

