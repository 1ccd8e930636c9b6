use std::collections::VecDeque;

use vstd::prelude::*;
use vstd::string::StrSliceExecFns;

use crate::error::{is_fault, unreadable, ErrorKind, Fault, ParsingError};
use crate::parser::Parser;
use crate::text::{text_eq, to_upper, upper_of};
use crate::token::{Operator, Token};

verus! {

/// Whether `c` may start a bare word.
pub open spec fn is_word_start(c: char) -> bool {
    ('a' <= c && c <= 'z') || ('A' <= c && c <= 'Z') || c == '_'
}

/// Whether `c` is a decimal digit.
pub open spec fn is_digit(c: char) -> bool {
    '0' <= c && c <= '9'
}

/// Whether `c` may continue a bare word.
pub open spec fn is_word_char(c: char) -> bool {
    is_word_start(c) || is_digit(c)
}

/// Whether `c` separates tokens.
pub open spec fn is_space(c: char) -> bool {
    c == ' ' || c == '\t' || c == '\n' || c == '\r'
}

/// What a token says, with its text as a character sequence.
pub enum Lexeme {
    Plain(Token),
    Identifier(Seq<char>),
    Float(Seq<char>),
    Text(Seq<char>),
}

/// The lexeme of a token.
pub open spec fn lexeme(t: Token) -> Lexeme {
    match t {
        Token::Identifier(s) => Lexeme::Identifier(s@),
        Token::Float(s) => Lexeme::Float(s@),
        Token::String(s) => Lexeme::Text(s@),
        _ => Lexeme::Plain(t),
    }
}

/// The lexemes of a sequence of tokens.
pub open spec fn lexemes(ts: Seq<Token>) -> Seq<Lexeme> {
    ts.map_values(|t: Token| lexeme(t))
}

/// The first position from `k` on that holds no word character.
pub open spec fn word_end(s: Seq<char>, k: int) -> int
    decreases s.len() - k,
{
    if 0 <= k < s.len() && is_word_char(s[k]) {
        word_end(s, k + 1)
    } else {
        k
    }
}

/// The first position from `k` on that holds no digit.
pub open spec fn digits_end(s: Seq<char>, k: int) -> int
    decreases s.len() - k,
{
    if 0 <= k < s.len() && is_digit(s[k]) {
        digits_end(s, k + 1)
    } else {
        k
    }
}

/// The first position from `k` on that holds `q`, or the length of `s`.
pub open spec fn quote_end(s: Seq<char>, k: int, q: char) -> int
    decreases s.len() - k,
{
    if 0 <= k < s.len() && s[k] != q {
        quote_end(s, k + 1, q)
    } else {
        k
    }
}

/// The number that a sequence of decimal digits writes.
pub open spec fn digits_value(d: Seq<char>) -> int
    decreases d.len(),
{
    if d.len() == 0 {
        0
    } else {
        digits_value(d.drop_last()) * 10 + ((d.last() as u32) as int - ('0' as u32) as int)
    }
}

/// The keyword, boolean or word operator that an upper-cased word names, if any.
pub open spec fn keyword_of(upper: Seq<char>) -> Option<Token> {
    if upper == "CREATE"@ {
        Some(Token::Create)
    } else if upper == "ALTER"@ {
        Some(Token::Alter)
    } else if upper == "DROP"@ {
        Some(Token::Drop)
    } else if upper == "DATABASE"@ {
        Some(Token::Database)
    } else if upper == "TABLE"@ {
        Some(Token::Table)
    } else if upper == "INDEX"@ {
        Some(Token::Index)
    } else if upper == "ON"@ {
        Some(Token::On)
    } else if upper == "RENAME"@ {
        Some(Token::Rename)
    } else if upper == "TO"@ {
        Some(Token::To)
    } else if upper == "PRIMARY"@ {
        Some(Token::Primary)
    } else if upper == "KEY"@ {
        Some(Token::Key)
    } else if upper == "NOT"@ {
        Some(Token::Not)
    } else if upper == "NULL"@ {
        Some(Token::Null)
    } else if upper == "DEFAULT"@ {
        Some(Token::Default)
    } else if upper == "COMMENT"@ {
        Some(Token::Comment)
    } else if upper == "IF"@ {
        Some(Token::If)
    } else if upper == "EXISTS"@ {
        Some(Token::Exists)
    } else if upper == "COLUMN"@ {
        Some(Token::Column)
    } else if upper == "DATA"@ {
        Some(Token::Data)
    } else if upper == "TYPE"@ {
        Some(Token::Type)
    } else if upper == "SELECT"@ {
        Some(Token::Select)
    } else if upper == "TRUE"@ {
        Some(Token::Boolean(true))
    } else if upper == "FALSE"@ {
        Some(Token::Boolean(false))
    } else if upper == "AND"@ {
        Some(Token::Operator(Operator::And))
    } else if upper == "OR"@ {
        Some(Token::Operator(Operator::Or))
    } else {
        None
    }
}

/// The punctuation or operator at a character, given the character after it
/// (a space at the end of the text), with its width.
pub open spec fn punctuation(c: char, next: char) -> Option<(Token, usize)> {
    if c == '.' {
        Some((Token::Period, 1))
    } else if c == ',' {
        Some((Token::Comma, 1))
    } else if c == '(' {
        Some((Token::LeftParentheses, 1))
    } else if c == ')' {
        Some((Token::RightParentheses, 1))
    } else if c == ';' {
        Some((Token::SemiColon, 1))
    } else if c == '+' {
        Some((Token::Operator(Operator::Plus), 1))
    } else if c == '-' {
        Some((Token::Operator(Operator::Minus), 1))
    } else if c == '*' {
        Some((Token::Operator(Operator::Multiply), 1))
    } else if c == '/' {
        Some((Token::Operator(Operator::Divide), 1))
    } else if c == '%' {
        Some((Token::Operator(Operator::Modulo), 1))
    } else if c == '=' {
        Some((Token::Operator(Operator::Equal), 1))
    } else if c == '!' && next == '=' {
        Some((Token::Operator(Operator::NotEqual), 2))
    } else if c == '<' && next == '=' {
        Some((Token::Operator(Operator::LessOrEqual), 2))
    } else if c == '<' && next == '>' {
        Some((Token::Operator(Operator::NotEqual), 2))
    } else if c == '<' {
        Some((Token::Operator(Operator::Less), 1))
    } else if c == '>' && next == '=' {
        Some((Token::Operator(Operator::GreaterOrEqual), 2))
    } else if c == '>' {
        Some((Token::Operator(Operator::Greater), 1))
    } else {
        None
    }
}
/// The token that starts at position `i`, which holds no space, and the
/// position after it.
pub open spec fn scan(s: Seq<char>, i: int) -> Result<(Lexeme, int), Fault> {
    let c = s[i];
    if is_word_start(c) {
        let j = word_end(s, i + 1);
        let word = s.subrange(i, j);
        match keyword_of(upper_of(word)) {
            Some(t) => Ok((Lexeme::Plain(t), j)),
            None => Ok((Lexeme::Identifier(word), j)),
        }
    } else if is_digit(c) {
        let j = digits_end(s, i + 1);
        if j + 1 < s.len() && s[j] == '.' && is_digit(s[j + 1]) {
            let k = digits_end(s, j + 1);
            Ok((Lexeme::Float(s.subrange(i, k)), k))
        } else {
            let v = digits_value(s.subrange(i, j));
            if v <= i64::MAX {
                Ok((Lexeme::Plain(Token::Integer(v as i64)), j))
            } else {
                Err(unreadable("integer literal out of range"@))
            }
        }
    } else if c == '"' || c == '\'' {
        let j = quote_end(s, i + 1, c);
        if j >= s.len() {
            Err(unreadable("unterminated quotation"@))
        } else if c == '"' {
            Ok((Lexeme::Identifier(s.subrange(i + 1, j)), j + 1))
        } else {
            Ok((Lexeme::Text(s.subrange(i + 1, j)), j + 1))
        }
    } else {
        let next = if i + 1 < s.len() { s[i + 1] } else { ' ' };
        match punctuation(c, next) {
            Some((t, w)) => Ok((Lexeme::Plain(t), i + w)),
            None => Err(unreadable("unexpected character"@)),
        }
    }
}

/// The lexemes of `s` from position `i` on, ending with the end-of-stream
/// token; spaces separate tokens and are dropped.
pub open spec fn lex_from(s: Seq<char>, i: int) -> Result<Seq<Lexeme>, Fault>
    decreases s.len() - i,
{
    if i < 0 || i >= s.len() {
        Ok(seq![Lexeme::Plain(Token::EOF)])
    } else if is_space(s[i]) {
        lex_from(s, i + 1)
    } else {
        let scanned = scan(s, i);
        if scanned is Err {
            Err(scanned->Err_0)
        } else {
            let (l, j) = scanned->Ok_0;
            if i < j && j <= s.len() {
                match lex_from(s, j) {
                    Ok(rest) => Ok(seq![l] + rest),
                    Err(e) => Err(e),
                }
            } else {
                Err(unreadable("unexpected character"@))
            }
        }
    }
}

/// `done` followed by what `rest` holds, or the error of `rest`.
pub open spec fn prepend(done: Seq<Lexeme>, rest: Result<Seq<Lexeme>, Fault>) -> Result<
    Seq<Lexeme>,
    Fault,
> {
    match rest {
        Ok(r) => Ok(done + r),
        Err(e) => Err(e),
    }
}

fn word_start(c: char) -> (r: bool)
    ensures
        r == is_word_start(c),
{
    ('a' <= c && c <= 'z') || ('A' <= c && c <= 'Z') || c == '_'
}

fn digit(c: char) -> (r: bool)
    ensures
        r == is_digit(c),
{
    '0' <= c && c <= '9'
}

fn word_char(c: char) -> (r: bool)
    ensures
        r == is_word_char(c),
{
    word_start(c) || digit(c)
}

fn keyword(upper: &str) -> (r: Option<Token>)
    ensures
        r == keyword_of(upper@),
{
    if text_eq(upper, "CREATE") {
        Some(Token::Create)
    } else if text_eq(upper, "ALTER") {
        Some(Token::Alter)
    } else if text_eq(upper, "DROP") {
        Some(Token::Drop)
    } else if text_eq(upper, "DATABASE") {
        Some(Token::Database)
    } else if text_eq(upper, "TABLE") {
        Some(Token::Table)
    } else if text_eq(upper, "INDEX") {
        Some(Token::Index)
    } else if text_eq(upper, "ON") {
        Some(Token::On)
    } else if text_eq(upper, "RENAME") {
        Some(Token::Rename)
    } else if text_eq(upper, "TO") {
        Some(Token::To)
    } else if text_eq(upper, "PRIMARY") {
        Some(Token::Primary)
    } else if text_eq(upper, "KEY") {
        Some(Token::Key)
    } else if text_eq(upper, "NOT") {
        Some(Token::Not)
    } else if text_eq(upper, "NULL") {
        Some(Token::Null)
    } else if text_eq(upper, "DEFAULT") {
        Some(Token::Default)
    } else if text_eq(upper, "COMMENT") {
        Some(Token::Comment)
    } else if text_eq(upper, "IF") {
        Some(Token::If)
    } else if text_eq(upper, "EXISTS") {
        Some(Token::Exists)
    } else if text_eq(upper, "COLUMN") {
        Some(Token::Column)
    } else if text_eq(upper, "DATA") {
        Some(Token::Data)
    } else if text_eq(upper, "TYPE") {
        Some(Token::Type)
    } else if text_eq(upper, "SELECT") {
        Some(Token::Select)
    } else if text_eq(upper, "TRUE") {
        Some(Token::Boolean(true))
    } else if text_eq(upper, "FALSE") {
        Some(Token::Boolean(false))
    } else if text_eq(upper, "AND") {
        Some(Token::Operator(Operator::And))
    } else if text_eq(upper, "OR") {
        Some(Token::Operator(Operator::Or))
    } else {
        None
    }
}

fn punctuation_at(c: char, next: char) -> (r: Option<(Token, usize)>)
    ensures
        r == punctuation(c, next),
{
    if c == '.' {
        Some((Token::Period, 1))
    } else if c == ',' {
        Some((Token::Comma, 1))
    } else if c == '(' {
        Some((Token::LeftParentheses, 1))
    } else if c == ')' {
        Some((Token::RightParentheses, 1))
    } else if c == ';' {
        Some((Token::SemiColon, 1))
    } else if c == '+' {
        Some((Token::Operator(Operator::Plus), 1))
    } else if c == '-' {
        Some((Token::Operator(Operator::Minus), 1))
    } else if c == '*' {
        Some((Token::Operator(Operator::Multiply), 1))
    } else if c == '/' {
        Some((Token::Operator(Operator::Divide), 1))
    } else if c == '%' {
        Some((Token::Operator(Operator::Modulo), 1))
    } else if c == '=' {
        Some((Token::Operator(Operator::Equal), 1))
    } else if c == '!' && next == '=' {
        Some((Token::Operator(Operator::NotEqual), 2))
    } else if c == '<' && next == '=' {
        Some((Token::Operator(Operator::LessOrEqual), 2))
    } else if c == '<' && next == '>' {
        Some((Token::Operator(Operator::NotEqual), 2))
    } else if c == '<' {
        Some((Token::Operator(Operator::Less), 1))
    } else if c == '>' && next == '=' {
        Some((Token::Operator(Operator::GreaterOrEqual), 2))
    } else if c == '>' {
        Some((Token::Operator(Operator::Greater), 1))
    } else {
        None
    }
}

proof fn lemma_digits_value_grows(d: Seq<char>, k: int)
    requires
        0 <= k <= d.len(),
        forall|m: int| 0 <= m < d.len() ==> is_digit(#[trigger] d[m]),
    ensures
        0 <= digits_value(d.subrange(0, k)) <= digits_value(d),
    decreases d.len(),
{
    if k == d.len() {
        assert(d.subrange(0, k) =~= d);
        if d.len() > 0 {
            lemma_digits_value_grows(d.drop_last(), 0);
        }
    } else {
        lemma_digits_value_grows(d.drop_last(), k);
        assert(d.drop_last().subrange(0, k) =~= d.subrange(0, k));
    }
}

/// The value of the digits `chars[start..end]`, or `None` where it does not
/// fit in an `i64`.
fn value_of_digits(chars: &Vec<char>, start: usize, end: usize) -> (r: Option<i64>)
    requires
        start <= end <= chars@.len(),
        forall|k: int| start <= k < end ==> is_digit(#[trigger] chars@[k]),
    ensures
        match r {
            Some(v) => v as int == digits_value(chars@.subrange(start as int, end as int)),
            None => digits_value(chars@.subrange(start as int, end as int)) > i64::MAX,
        },
{
    let ghost d = chars@.subrange(start as int, end as int);
    let mut value: i64 = 0;
    let mut i = start;
    assert(chars@.subrange(start as int, start as int) =~= Seq::<char>::empty());
    while i < end
        invariant
            start <= i <= end <= chars@.len(),
            d == chars@.subrange(start as int, end as int),
            forall|k: int| start <= k < end ==> is_digit(#[trigger] chars@[k]),
            value as int == digits_value(chars@.subrange(start as int, i as int)),
            value >= 0,
        decreases end - i,
    {
        let ghost prefix = chars@.subrange(start as int, i as int + 1);
        assert(prefix.drop_last() =~= chars@.subrange(start as int, i as int));
        assert(prefix.last() == chars@[i as int]);
        let dg = (chars[i] as u32 - '0' as u32) as i64;
        assert(0 <= dg <= 9);
        if value > (i64::MAX - dg) / 10 {
            assert(value * 10 + dg > i64::MAX) by (nonlinear_arith)
                requires
                    value > (i64::MAX - dg) / 10,
                    0 <= dg <= 9,
            ;
            proof {
                assert(d.subrange(0, i - start + 1) =~= prefix);
                lemma_digits_value_grows(d, i - start + 1);
            }
            return None;
        }
        assert(value * 10 + dg <= i64::MAX) by (nonlinear_arith)
            requires
                value <= (i64::MAX - dg) / 10,
                0 <= dg <= 9,
                value >= 0,
        ;
        value = value * 10 + dg;
        i = i + 1;
    }
    Some(value)
}

fn invalid(message: &str) -> (r: ParsingError)
    ensures
        is_fault(r, unreadable(message@)),
{
    ParsingError::new(ErrorKind::InvalidText, message)
}

/// Splits SQL text into tokens, ending with the end-of-stream token.
///
/// Words are keywords in any case, or identifiers; `"..."` is a quoted
/// identifier and `'...'` a string literal; numbers are integers, or floats
/// where a fraction follows.
pub fn string_to_tokens(text: &str) -> (r: Result<Vec<Token>, ParsingError>)
    ensures
        match (r, lex_from(text@, 0)) {
            (Ok(tokens), Ok(ls)) => lexemes(tokens@) == ls,
            (Err(e), Err(f)) => is_fault(e, f),
            _ => false,
        },
{
    let n = text.unicode_len();
    let mut chars: Vec<char> = Vec::new();
    let mut k: usize = 0;
    while k < n
        invariant
            k <= n,
            n == text@.len(),
            chars@ == text@.subrange(0, k as int),
        decreases n - k,
    {
        chars.push(text.get_char(k));
        k = k + 1;
        assert(chars@ =~= text@.subrange(0, k as int));
    }
    assert(chars@ =~= text@);
    let ghost s = text@;
    let mut tokens: Vec<Token> = Vec::new();
    let mut i: usize = 0;
    assert(lexemes(tokens@) =~= Seq::<Lexeme>::empty());
    assert(Seq::<Lexeme>::empty() + lex_from(s, 0)->Ok_0 =~= lex_from(s, 0)->Ok_0);
    while i < n
        invariant
            i <= n,
            n == s.len(),
            s == text@,
            chars@ == s,
            prepend(lexemes(tokens@), lex_from(s, i as int)) == lex_from(s, 0),
        decreases n - i,
    {
        let ghost done = lexemes(tokens@);
        let c = chars[i];
        if c == ' ' || c == '\t' || c == '\n' || c == '\r' {
            i = i + 1;
            continue;
        }
        let start = i;
        let (token, end): (Token, usize) = if word_start(c) {
            i = i + 1;
            while i < n && word_char(chars[i])
                invariant
                    start < i <= n,
                    n == s.len(),
                    chars@ == s,
                    word_end(s, i as int) == word_end(s, start + 1),
                decreases n - i,
            {
                i = i + 1;
            }
            let word = text.substring_char(start, i);
            let upper = to_upper(word);
            match keyword(upper.as_str()) {
                Some(t) => (t, i),
                None => (Token::Identifier(word.to_owned()), i),
            }
        } else if digit(c) {
            i = i + 1;
            while i < n && digit(chars[i])
                invariant
                    start < i <= n,
                    n == s.len(),
                    chars@ == s,
                    forall|m: int| start <= m < i ==> is_digit(#[trigger] s[m]),
                    digits_end(s, i as int) == digits_end(s, start + 1),
                decreases n - i,
            {
                i = i + 1;
            }
            if i < n - 1 && chars[i] == '.' && digit(chars[i + 1]) {
                let j = i;
                i = i + 1;
                while i < n && digit(chars[i])
                    invariant
                        j < i <= n,
                        n == s.len(),
                        chars@ == s,
                        digits_end(s, i as int) == digits_end(s, j + 1),
                    decreases n - i,
                {
                    i = i + 1;
                }
                (Token::Float(text.substring_char(start, i).to_owned()), i)
            } else {
                match value_of_digits(&chars, start, i) {
                    Some(value) => (Token::Integer(value), i),
                    None => {
                        return Err(invalid("integer literal out of range"));
                    },
                }
            }
        } else if c == '"' || c == '\'' {
            i = i + 1;
            while i < n && chars[i] != c
                invariant
                    start < i <= n,
                    n == s.len(),
                    chars@ == s,
                    quote_end(s, i as int, c) == quote_end(s, start + 1, c),
                decreases n - i,
            {
                i = i + 1;
            }
            if i >= n {
                return Err(invalid("unterminated quotation"));
            }
            let inner = text.substring_char(start + 1, i).to_owned();
            if c == '"' {
                (Token::Identifier(inner), i + 1)
            } else {
                (Token::String(inner), i + 1)
            }
        } else {
            let next = if i + 1 < n { chars[i + 1] } else { ' ' };
            match punctuation_at(c, next) {
                Some((t, width)) => (t, i + width),
                None => {
                    return Err(invalid("unexpected character"));
                },
            }
        };
        assert(scan(s, start as int) == Ok::<(Lexeme, int), Fault>((lexeme(token), end as int)));
        tokens.push(token);
        assert(lexemes(tokens@) =~= done.push(lexeme(token)));
        i = end;
        proof {
            if lex_from(s, i as int) is Ok {
                let rest = lex_from(s, i as int)->Ok_0;
                assert(done.push(lexeme(token)) + rest =~= done + (seq![lexeme(token)] + rest));
            }
        }
    }
    let ghost done = lexemes(tokens@);
    tokens.push(Token::EOF);
    assert(lexemes(tokens@) =~= done + seq![Lexeme::Plain(Token::EOF)]);
    Ok(tokens)
}

impl Parser {
    /// A parser over the tokens of `text`.
    pub fn new(text: String) -> (r: Result<Parser, ParsingError>)
        ensures
            match (r, lex_from(text@, 0)) {
                (Ok(p), Ok(ls)) => lexemes(p.tokens@) == ls && p.current_token == Token::EOF,
                (Err(e), Err(f)) => is_fault(e, f),
                _ => false,
            },
    {
        let tokens = match string_to_tokens(text.as_str()) {
            Ok(tokens) => tokens,
            Err(e) => {
                return Err(e);
            },
        };
        let mut tokens = tokens;
        let ghost all = tokens@;
        let mut queue: VecDeque<Token> = VecDeque::new();
        while tokens.len() > 0
            invariant
                tokens@.len() <= all.len(),
                tokens@ == all.subrange(0, tokens@.len() as int),
                queue@ == all.subrange(tokens@.len() as int, all.len() as int),
            decreases tokens@.len(),
        {
            let ghost k = tokens@.len() as int;
            match tokens.pop() {
                Some(t) => {
                    queue.push_front(t);
                    assert(queue@ =~= all.subrange(k - 1, all.len() as int));
                    assert(tokens@ =~= all.subrange(0, k - 1));
                },
                None => {},
            }
        }
        assert(queue@ =~= all);
        Ok(Parser::with_tokens(queue))
    }
}

} // verus!
