use vstd::prelude::*;

use crate::ast::{ColumnView, TableNameView};
use crate::grammar::{column_from, column_list, statements, table_name};
use crate::token::Token;

verus! {

/// Reading a token and handing it straight back leaves the stream as it was,
/// so that the next read gives the same token again.
pub proof fn lemma_restore_after_consume(s: Seq<Token>)
    requires
        s.len() > 0,
    ensures
        seq![s[0]] + s.drop_first() == s,
        (seq![s[0]] + s.drop_first())[0] == s[0],
{
    assert(seq![s[0]] + s.drop_first() =~= s);
}

/// Handing a token back and then reading gives that token, and leaves the
/// stream as it was before the token was handed back.
pub proof fn lemma_consume_after_restore(t: Token, s: Seq<Token>)
    ensures
        (seq![t] + s).len() > 0,
        (seq![t] + s)[0] == t,
        (seq![t] + s).drop_first() == s,
{
    assert((seq![t] + s).drop_first() =~= s);
}

/// Parsing the same tokens with the same default database gives the same
/// statements.
pub proof fn lemma_parse_deterministic(
    a: Seq<Token>,
    b: Seq<Token>,
    database_a: Option<Seq<char>>,
    database_b: Option<Seq<char>>,
)
    requires
        a == b,
        database_a == database_b,
    ensures
        statements(a, database_a) == statements(b, database_b),
{
}

/// `db.tbl` names table `tbl` of database `db`, whatever the default database,
/// and the tokens after it are left on the stream.
pub proof fn lemma_qualified_table_name(
    db: String,
    tbl: String,
    rest: Seq<Token>,
    default_database: Option<Seq<char>>,
)
    ensures
        table_name(
            seq![Token::Identifier(db), Token::Period, Token::Identifier(tbl)] + rest,
            default_database,
        ) == (Ok::<_, crate::error::Fault>(TableNameView { database: Some(db@), name: tbl@ }), rest),
{
    let ts = seq![Token::Identifier(db), Token::Period, Token::Identifier(tbl)] + rest;
    assert(ts.drop_first().drop_first().drop_first() =~= rest);
}

/// A table name with no `.` after it belongs to the default database, which
/// may be none; the token after it is left on the stream.
pub proof fn lemma_unqualified_table_name(
    tbl: String,
    rest: Seq<Token>,
    default_database: Option<Seq<char>>,
)
    requires
        rest.len() == 0 || !(rest[0] is Period),
    ensures
        table_name(seq![Token::Identifier(tbl)] + rest, default_database) == (
            Ok::<_, crate::error::Fault>(TableNameView { database: default_database, name: tbl@ }),
            rest,
        ),
{
    let ts = seq![Token::Identifier(tbl)] + rest;
    assert(ts.drop_first() =~= rest);
}

/// The tokens of `PRIMARY KEY`.
pub open spec fn primary_key_tokens() -> Seq<Token> {
    seq![Token::Primary, Token::Key]
}

/// The tokens of `NOT NULL`.
pub open spec fn not_null_tokens() -> Seq<Token> {
    seq![Token::Not, Token::Null]
}

/// The tokens of `COMMENT 'text'`.
pub open spec fn comment_tokens(text: String) -> Seq<Token> {
    seq![Token::Comment, Token::String(text)]
}

proof fn lemma_read_pair(pair: Seq<Token>, tail: Seq<Token>)
    requires
        pair.len() == 2,
    ensures
        (pair + tail).len() >= 2,
        (pair + tail)[0] == pair[0],
        (pair + tail).drop_first()[0] == pair[1],
        (pair + tail).drop_first().len() > 0,
        (pair + tail).drop_first().drop_first() == tail,
{
    assert((pair + tail).drop_first().drop_first() =~= tail);
}

/// `PRIMARY KEY` and `NOT NULL` may follow each other in either order.
pub proof fn lemma_primary_key_not_null_commute(tail: Seq<Token>, acc: ColumnView)
    ensures
        column_from(primary_key_tokens() + (not_null_tokens() + tail), acc) == column_from(
            not_null_tokens() + (primary_key_tokens() + tail),
            acc,
        ),
{
    let p = primary_key_tokens();
    let n = not_null_tokens();
    let acc_p = ColumnView { primary_key: true, not_null: true, ..acc };
    let acc_n = ColumnView { not_null: true, ..acc };
    lemma_read_pair(p, n + tail);
    lemma_read_pair(n, tail);
    lemma_read_pair(n, p + tail);
    lemma_read_pair(p, tail);
    assert(column_from(p + (n + tail), acc) == column_from(n + tail, acc_p));
    assert(column_from(n + tail, acc_p) == column_from(tail, ColumnView { not_null: true, ..acc_p }));
    assert(column_from(n + (p + tail), acc) == column_from(p + tail, acc_n));
    assert(column_from(p + tail, acc_n) == column_from(
        tail,
        ColumnView { primary_key: true, not_null: true, ..acc_n },
    ));
    assert(ColumnView { not_null: true, ..acc_p } == ColumnView {
        primary_key: true,
        not_null: true,
        ..acc_n
    });
}

/// `PRIMARY KEY` and `COMMENT 'text'` may follow each other in either order.
pub proof fn lemma_primary_key_comment_commute(text: String, tail: Seq<Token>, acc: ColumnView)
    ensures
        column_from(primary_key_tokens() + (comment_tokens(text) + tail), acc) == column_from(
            comment_tokens(text) + (primary_key_tokens() + tail),
            acc,
        ),
{
    let p = primary_key_tokens();
    let c = comment_tokens(text);
    let acc_p = ColumnView { primary_key: true, not_null: true, ..acc };
    let acc_c = ColumnView { comment: Some(text@), ..acc };
    lemma_read_pair(p, c + tail);
    lemma_read_pair(c, tail);
    lemma_read_pair(c, p + tail);
    lemma_read_pair(p, tail);
    assert(column_from(p + (c + tail), acc) == column_from(c + tail, acc_p));
    assert(column_from(c + tail, acc_p) == column_from(tail, ColumnView { comment: Some(text@), ..acc_p }));
    assert(column_from(c + (p + tail), acc) == column_from(p + tail, acc_c));
    assert(column_from(p + tail, acc_c) == column_from(
        tail,
        ColumnView { primary_key: true, not_null: true, ..acc_c },
    ));
    assert(ColumnView { comment: Some(text@), ..acc_p } == ColumnView {
        primary_key: true,
        not_null: true,
        ..acc_c
    });
}

/// `NOT NULL` and `COMMENT 'text'` may follow each other in either order.
pub proof fn lemma_not_null_comment_commute(text: String, tail: Seq<Token>, acc: ColumnView)
    ensures
        column_from(not_null_tokens() + (comment_tokens(text) + tail), acc) == column_from(
            comment_tokens(text) + (not_null_tokens() + tail),
            acc,
        ),
{
    let n = not_null_tokens();
    let c = comment_tokens(text);
    let acc_n = ColumnView { not_null: true, ..acc };
    let acc_c = ColumnView { comment: Some(text@), ..acc };
    lemma_read_pair(n, c + tail);
    lemma_read_pair(c, tail);
    lemma_read_pair(c, n + tail);
    lemma_read_pair(n, tail);
    assert(column_from(n + (c + tail), acc) == column_from(c + tail, acc_n));
    assert(column_from(c + tail, acc_n) == column_from(tail, ColumnView { comment: Some(text@), ..acc_n }));
    assert(column_from(c + (n + tail), acc) == column_from(n + tail, acc_c));
    assert(column_from(n + tail, acc_c) == column_from(tail, ColumnView { not_null: true, ..acc_c }));
    assert(ColumnView { comment: Some(text@), ..acc_n } == ColumnView { not_null: true, ..acc_c });
}

/// `PRIMARY KEY`, `NOT NULL` and `COMMENT 'text'` after a column's type give
/// the same column in all six orders, whatever follows them.
pub proof fn lemma_column_modifiers_any_order(text: String, tail: Seq<Token>, acc: ColumnView)
    ensures
        ({
            let p = primary_key_tokens();
            let n = not_null_tokens();
            let c = comment_tokens(text);
            let r = column_from(p + (n + (c + tail)), acc);
            &&& column_from(p + (c + (n + tail)), acc) == r
            &&& column_from(n + (p + (c + tail)), acc) == r
            &&& column_from(n + (c + (p + tail)), acc) == r
            &&& column_from(c + (p + (n + tail)), acc) == r
            &&& column_from(c + (n + (p + tail)), acc) == r
        }),
{
    let p = primary_key_tokens();
    let n = not_null_tokens();
    let c = comment_tokens(text);
    let acc_p = ColumnView { primary_key: true, not_null: true, ..acc };
    let acc_n = ColumnView { not_null: true, ..acc };
    let acc_c = ColumnView { comment: Some(text@), ..acc };
    // swaps behind a first modifier
    lemma_read_pair(p, n + (c + tail));
    lemma_read_pair(p, c + (n + tail));
    lemma_not_null_comment_commute(text, tail, acc_p);
    lemma_read_pair(n, p + (c + tail));
    lemma_read_pair(n, c + (p + tail));
    lemma_primary_key_comment_commute(text, tail, acc_n);
    lemma_read_pair(c, p + (n + tail));
    lemma_read_pair(c, n + (p + tail));
    lemma_primary_key_not_null_commute(tail, acc_c);
    // swaps of the first two modifiers
    lemma_primary_key_not_null_commute(c + tail, acc);
    lemma_primary_key_comment_commute(text, n + tail, acc);
    lemma_not_null_comment_commute(text, p + tail, acc);
}

/// A column list that parses leaves the `)` that closes it on the stream.
pub proof fn lemma_column_list_leaves_close(ts: Seq<Token>, acc: Seq<ColumnView>)
    ensures
        column_list(ts, acc).0 is Ok ==> column_list(ts, acc).1.len() > 0
            && column_list(ts, acc).1[0] is RightParentheses,
    decreases ts.len(),
{
    if ts.len() > 0 && !(ts[0] is RightParentheses) {
        let (column, rest) = crate::grammar::table_column(ts);
        if column is Ok && rest.len() < ts.len() {
            lemma_column_list_leaves_close(rest, acc.push(column->Ok_0));
        }
    }
}

} // verus!
