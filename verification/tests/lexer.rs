use onigmo::lexer::{consume_byte, lex, lex_number, skip_spaces, Annot, LexErrorKind, Loc, Token,
    TokenKind};

fn kinds(tokens: &[Token]) -> Vec<TokenKind> {
    tokens.iter().map(|t| t.value.clone()).collect()
}

#[test]
fn lex_expression_with_every_token() {
    let tokens = lex("1 + 2 * (30 - 4) / 5").unwrap();
    assert_eq!(
        kinds(&tokens),
        vec![
            TokenKind::Number(1),
            TokenKind::Plus,
            TokenKind::Number(2),
            TokenKind::Asterisk,
            TokenKind::LParen,
            TokenKind::Number(30),
            TokenKind::Minus,
            TokenKind::Number(4),
            TokenKind::RParen,
            TokenKind::Slash,
            TokenKind::Number(5),
        ]
    );
    assert_eq!(tokens[0].loc, Loc(0, 1));
    assert_eq!(tokens[4].loc, Loc(8, 9));
    assert_eq!(tokens[5].loc, Loc(9, 11));
}

#[test]
fn lex_empty_and_blank_input() {
    assert_eq!(lex("").unwrap(), vec![]);
    assert_eq!(lex(" \t\n  ").unwrap(), vec![]);
}

#[test]
fn lex_reports_invalid_character() {
    let err = lex("12 % 3").unwrap_err();
    assert_eq!(err, Annot { value: LexErrorKind::InvalidChar('%'), loc: Loc(3, 4) });
}

#[test]
fn lex_number_reads_maximal_run() {
    let input = "007+1".as_bytes();
    let (token, end) = lex_number(input, 0).unwrap();
    assert_eq!(token, Annot { value: TokenKind::Number(7), loc: Loc(0, 3) });
    assert_eq!(end, 3);
}

#[test]
fn lex_number_largest_value_fits() {
    let tokens = lex("18446744073709551615").unwrap();
    assert_eq!(kinds(&tokens), vec![TokenKind::Number(u64::MAX)]);
}

#[test]
fn lex_number_overflow_is_an_error() {
    let err = lex("18446744073709551616").unwrap_err();
    assert_eq!(err, Annot { value: LexErrorKind::InvalidChar('1'), loc: Loc(0, 20) });
}

#[test]
fn consume_byte_demands_its_byte() {
    let input = "+-".as_bytes();
    assert_eq!(consume_byte(input, 0, b'+'), Ok((b'+', 1)));
    assert_eq!(
        consume_byte(input, 1, b'+'),
        Err(Annot { value: LexErrorKind::InvalidChar('-'), loc: Loc(1, 2) })
    );
    assert_eq!(
        consume_byte(input, 2, b'+'),
        Err(Annot { value: LexErrorKind::Eof, loc: Loc(2, 2) })
    );
}

#[test]
fn skip_spaces_stops_at_first_token() {
    let input = " \t\nab".as_bytes();
    let ((), end) = skip_spaces(input, 0);
    assert_eq!(end, 3);
    let ((), same) = skip_spaces(input, 4);
    assert_eq!(same, 4);
}

#[test]
fn loc_merge_covers_both_intervals() {
    let merged = Loc(3, 5).merge(&Loc(1, 4));
    assert_eq!(merged, Loc(1, 5));
    assert_eq!(Loc(0, 1).merge(&Loc(6, 9)), Loc(0, 9));
}

#[test]
fn token_helpers_build_annotated_kinds() {
    assert_eq!(Token::number(42, Loc(0, 2)).value, TokenKind::Number(42));
    assert_eq!(Token::plus(Loc(0, 1)).value, TokenKind::Plus);
    assert_eq!(Token::minus(Loc(0, 1)).value, TokenKind::Minus);
    assert_eq!(Token::asterisk(Loc(0, 1)).value, TokenKind::Asterisk);
    assert_eq!(Token::slash(Loc(0, 1)).value, TokenKind::Slash);
    assert_eq!(Token::lparen(Loc(0, 1)).value, TokenKind::LParen);
    assert_eq!(Token::rparen(Loc(0, 1)).value, TokenKind::RParen);
    let err = onigmo::lexer::LexError::eof(Loc(7, 7));
    assert_eq!(err.value, LexErrorKind::Eof);
    assert_eq!(err.loc, Loc(7, 7));
}
