use luafmt::lexer::{tokenize, Lexer, LexicalError, Token};

fn toks(src: &str) -> Vec<Token> {
    let chars: Vec<char> = src.chars().collect();
    match tokenize(&chars, 0) {
        Ok(items) => items.into_iter().map(|t| t.1).collect(),
        Err(e) => panic!("lexing failed for {:?}: {:?}", src, e),
    }
}

fn chars_of(s: &str) -> Vec<char> {
    s.chars().collect()
}

#[test]
fn keywords_and_names_are_told_apart() {
    assert_eq!(
        toks("while whilst do doo end"),
        vec![
            Token::While,
            Token::Variable(chars_of("whilst")),
            Token::Do,
            Token::Variable(chars_of("doo")),
            Token::End,
            Token::EOF,
        ]
    );
}

#[test]
fn two_character_operators_win_over_their_prefixes() {
    assert_eq!(
        toks("a // b .. c ... << >> <= >= == ~= ::"),
        vec![
            Token::Variable(chars_of("a")),
            Token::OpFloorDivision,
            Token::Variable(chars_of("b")),
            Token::OpConcatenation,
            Token::Variable(chars_of("c")),
            Token::VarArg,
            Token::OpLeftShift,
            Token::OpRightShift,
            Token::OpLessOrEqual,
            Token::OpGreaterOrEqual,
            Token::OpEquality,
            Token::OpInequality,
            Token::Label,
            Token::EOF,
        ]
    );
}

#[test]
fn numerals_keep_their_spelling() {
    assert_eq!(
        toks("0x1F 1.5e-3 .5 10"),
        vec![
            Token::Numeral(chars_of("0x1F")),
            Token::Numeral(chars_of("1.5e-3")),
            Token::Numeral(chars_of(".5")),
            Token::Numeral(chars_of("10")),
            Token::EOF,
        ]
    );
}

#[test]
fn strings_keep_escapes_and_drop_quotes() {
    assert_eq!(
        toks(r#"x = "a\"b" .. 'c'"#),
        vec![
            Token::Variable(chars_of("x")),
            Token::EqualsSign,
            Token::NormalStringLiteral(chars_of(r#"a\"b"#)),
            Token::OpConcatenation,
            Token::CharStringLiteral(chars_of("c")),
            Token::EOF,
        ]
    );
}

#[test]
fn long_brackets_carry_their_level() {
    assert_eq!(
        toks("s = [==[ a ]] b ]==]"),
        vec![
            Token::Variable(chars_of("s")),
            Token::EqualsSign,
            Token::MultilineStringLiteral(2, chars_of(" a ]] b ")),
            Token::EOF,
        ]
    );
}

#[test]
fn comments_produce_no_tokens() {
    assert_eq!(
        toks("a -- line\n--[[ long ]] b --[==[ deep ]==]"),
        vec![
            Token::Variable(chars_of("a")),
            Token::Variable(chars_of("b")),
            Token::EOF,
        ]
    );
}

#[test]
fn token_spans_tile_in_source_order() {
    let src = "local x = 1 + 2";
    let chars: Vec<char> = src.chars().collect();
    let items = tokenize(&chars, 0).unwrap();
    let mut prev_end = 0usize;
    for (l, _, r) in &items {
        assert!(prev_end <= *l && l <= r && *r <= chars.len());
        prev_end = *r;
    }
    let last = &items[items.len() - 1];
    assert_eq!((last.0, last.2), (chars.len(), chars.len()));
    assert_eq!(last.1, Token::EOF);
}

#[test]
fn the_lexer_hands_out_tokens_one_by_one() {
    let mut lexer = Lexer::new(chars_of("x=1"));
    assert_eq!(lexer.next_token(), Some(Ok((0, Token::Variable(chars_of("x")), 1))));
    assert_eq!(lexer.next_token(), Some(Ok((1, Token::EqualsSign, 2))));
    assert_eq!(lexer.next_token(), Some(Ok((2, Token::Numeral(chars_of("1")), 3))));
    assert_eq!(lexer.next_token(), Some(Ok((3, Token::EOF, 3))));
    assert_eq!(lexer.next_token(), None);
}

#[test]
fn a_stray_bracket_level_is_rejected() {
    let chars = chars_of("x = [=?");
    assert_eq!(tokenize(&chars, 0), Err(LexicalError::UnrecognizedSymbol(6, '?')));
}

#[test]
fn tokens_spell_themselves() {
    assert_eq!(luafmt::lexer::token_text(&Token::While), chars_of("while"));
    assert_eq!(luafmt::lexer::token_text(&Token::OpFloorDivision), chars_of("//"));
    assert_eq!(
        luafmt::lexer::token_text(&Token::NormalStringLiteral(chars_of("hi"))),
        chars_of("\"hi\"")
    );
    assert_eq!(
        luafmt::lexer::token_text(&Token::MultilineStringLiteral(2, chars_of("x"))),
        chars_of("[==[x]==]")
    );
    assert_eq!(luafmt::lexer::token_text(&Token::EOF), Vec::<char>::new());
}

#[test]
fn token_descriptions_follow_the_error_spelling() {
    assert_eq!(luafmt::lexer::token_description(&Token::EOF), chars_of("<EOF>"));
    assert_eq!(
        luafmt::lexer::token_description(&Token::Variable(chars_of("abc"))),
        chars_of("\"abc\"")
    );
    assert_eq!(
        luafmt::lexer::token_description(&Token::Numeral(chars_of("42"))),
        chars_of("\"42\"")
    );
    assert_eq!(luafmt::lexer::token_description(&Token::While), chars_of("while"));
    assert_eq!(
        luafmt::lexer::token_description(&Token::CharStringLiteral(chars_of("c"))),
        chars_of("'c'")
    );
}

#[test]
fn an_exponent_needs_a_digit_tail() {
    assert_eq!(toks("1e5"), vec![Token::Numeral(chars_of("1e5")), Token::EOF]);
    assert_eq!(
        toks("1e + 2"),
        vec![
            Token::Numeral(chars_of("1")),
            Token::Variable(chars_of("e")),
            Token::OpAddition,
            Token::Numeral(chars_of("2")),
            Token::EOF,
        ]
    );
}

#[test]
fn unclosed_literals_are_the_only_end_of_file_errors() {
    assert_eq!(tokenize(&chars_of("x = \"abc"), 0), Err(LexicalError::UnexpectedEOF));
    assert_eq!(tokenize(&chars_of("x = [=[ a ]]"), 0), Err(LexicalError::UnexpectedEOF));
    assert_eq!(tokenize(&chars_of("--[[ never"), 0), Err(LexicalError::UnexpectedEOF));
    assert_eq!(tokenize(&chars_of("x = [=="), 0), Err(LexicalError::UnexpectedEOF));
    assert!(tokenize(&chars_of("x = 'a\\''"), 0).is_ok());
}
