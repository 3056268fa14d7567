use ladder_compiler::error::{CompileError, ErrorKind};
use ladder_compiler::lexer::{classify, continues_word, CharacterClass, Lexer, Token, TokenType};

fn token(lexer: &mut Lexer) -> Token {
    match lexer.get_token() {
        Ok(token) => token,
        Err(error) => panic!("{}", error.message()),
    }
}

fn kinds(source: &str) -> Vec<TokenType> {
    let mut lexer = Lexer::new(source.to_string());
    let mut kinds = Vec::new();
    loop {
        let next = token(&mut lexer);
        let kind = *next.get_type();
        kinds.push(kind);
        if kind == TokenType::Eof {
            return kinds;
        }
    }
}

fn failure(source: &str) -> CompileError {
    let mut lexer = Lexer::new(source.to_string());
    loop {
        match lexer.get_token() {
            Ok(next) => assert_ne!(TokenType::Eof, *next.get_type()),
            Err(error) => return error,
        }
    }
}

#[test]
fn test_next_character() {
    let test_input = "test input".to_string();
    let mut lexer = Lexer::new(test_input.clone());
    assert_eq!(test_input.clone() + "\n", lexer.source_code());

    for (i, character) in test_input.chars().enumerate() {
        assert_eq!(character, lexer.current_character());
        assert_eq!(i, lexer.current_position());
        lexer.next_character();

        if i == test_input.len() - 1 {
            assert_eq!('\n', lexer.current_character());
            assert_eq!(i + 1, lexer.current_position());
        }
    }

    lexer.next_character();
    assert_eq!('\0', lexer.current_character());
}

#[test]
fn test_peek() {
    let test_input = "test input".to_string();
    let lexer = Lexer::new(test_input.clone());
    assert_eq!(test_input.chars().collect::<Vec<char>>()[1], lexer.peek());
    assert_eq!(test_input.chars().collect::<Vec<char>>()[0], lexer.current_character());
}

#[test]
fn test_get_token_success() {
    let test_input = "TASK<PERIOD=10.50> myTask # This is my task".to_string();
    let mut lexer = Lexer::new(test_input.clone());

    let mut token = token(&mut lexer);
    assert_eq!(TokenType::Task, *token.get_type());
    assert_eq!("TASK", token.get_text());

    token = self::token(&mut lexer);
    assert_eq!(TokenType::OpenAngle, *token.get_type());
    assert_eq!("<", token.get_text());

    token = self::token(&mut lexer);
    assert_eq!(TokenType::Period, *token.get_type());
    assert_eq!("PERIOD", token.get_text());

    token = self::token(&mut lexer);
    assert_eq!(TokenType::Eq, *token.get_type());
    assert_eq!("=", token.get_text());

    token = self::token(&mut lexer);
    assert_eq!(TokenType::Number, *token.get_type());
    assert_eq!("10.50", token.get_text());

    token = self::token(&mut lexer);
    assert_eq!(TokenType::CloseAngle, *token.get_type());
    assert_eq!(">", token.get_text());

    token = self::token(&mut lexer);
    assert_eq!(TokenType::Identifier, *token.get_type());
    assert_eq!("myTask", token.get_text());

    token = self::token(&mut lexer);
    assert_eq!(TokenType::NewLine, *token.get_type());
    assert_eq!("\n", token.get_text());

    token = self::token(&mut lexer);
    assert_eq!(TokenType::Eof, *token.get_type());
    assert_eq!("\0", token.get_text());
}

#[test]
fn test_get_token_success_2() {
    let test_input = "TAG[10] myTagArray = FALSE".to_string();
    let mut lexer = Lexer::new(test_input.clone());

    let mut token = token(&mut lexer);
    assert_eq!(TokenType::Tag, *token.get_type());
    assert_eq!("TAG", token.get_text());

    token = self::token(&mut lexer);
    assert_eq!(TokenType::OpenBracket, *token.get_type());
    assert_eq!("[", token.get_text());

    token = self::token(&mut lexer);
    assert_eq!(TokenType::Number, *token.get_type());
    assert_eq!("10", token.get_text());

    token = self::token(&mut lexer);
    assert_eq!(TokenType::CloseBracket, *token.get_type());
    assert_eq!("]", token.get_text());

    token = self::token(&mut lexer);
    assert_eq!(TokenType::Identifier, *token.get_type());
    assert_eq!("myTagArray", token.get_text());

    token = self::token(&mut lexer);
    assert_eq!(TokenType::Eq, *token.get_type());
    assert_eq!("=", token.get_text());

    token = self::token(&mut lexer);
    assert_eq!(TokenType::False, *token.get_type());
    assert_eq!("FALSE", token.get_text());
}

#[test]
fn test_get_token_success_3() {
    let test_input = "OTE myTagArray.0".to_string();
    let mut lexer = Lexer::new(test_input.clone());

    let mut token = token(&mut lexer);
    assert_eq!(TokenType::Ote, *token.get_type());
    assert_eq!("OTE", token.get_text());

    token = self::token(&mut lexer);
    assert_eq!(TokenType::Identifier, *token.get_type());
    assert_eq!("myTagArray", token.get_text());

    token = self::token(&mut lexer);
    assert_eq!(TokenType::Indexer, *token.get_type());
    assert_eq!(".", token.get_text());

    token = self::token(&mut lexer);
    assert_eq!(TokenType::Number, *token.get_type());
    assert_eq!("0", token.get_text());
}

#[test]
#[should_panic(expected = "Illegal character in number")]
fn test_get_token_failure_1() {
    let test_input = "TASK<PERIOD=10.> myTask # This is my task".to_string();
    let mut lexer = Lexer::new(test_input.clone());

    token(&mut lexer);
    token(&mut lexer);
    token(&mut lexer);
    token(&mut lexer);
    token(&mut lexer);
}

#[test]
#[should_panic(expected = "Unknown token: _")]
fn test_get_token_failure_2() {
    let test_input = "TASK<PERIOD=10.50> my_Task # This is my task".to_string();
    let mut lexer = Lexer::new(test_input.clone());

    token(&mut lexer);
    token(&mut lexer);
    token(&mut lexer);
    token(&mut lexer);
    token(&mut lexer);
    token(&mut lexer);
    token(&mut lexer);
    token(&mut lexer);
}

#[test]
fn every_keyword_has_its_kind() {
    let words = [
        ("TAG", TokenType::Tag),
        ("TASK", TokenType::Task),
        ("ENDTASK", TokenType::EndTask),
        ("PERIOD", TokenType::Period),
        ("EVENT", TokenType::Event),
        ("CONTINUOUS", TokenType::Continuous),
        ("ROUTINE", TokenType::Routine),
        ("ENDROUTINE", TokenType::EndRoutine),
        ("RUNG", TokenType::Rung),
        ("ENDRUNG", TokenType::EndRung),
        ("FALSE", TokenType::False),
        ("TRUE", TokenType::True),
        ("XIC", TokenType::Xic),
        ("XIO", TokenType::Xio),
        ("OTE", TokenType::Ote),
        ("OTL", TokenType::Otl),
        ("OTU", TokenType::Otu),
        ("JSR", TokenType::Jsr),
        ("RET", TokenType::Ret),
        ("EMIT", TokenType::Emit),
    ];
    for (word, kind) in words {
        assert_eq!(Some(kind), Token::is_keyword(word));
        assert_eq!(vec![kind, TokenType::NewLine, TokenType::Eof], kinds(word));
    }
}

#[test]
fn keywords_are_case_sensitive() {
    assert_eq!(None, Token::is_keyword("tag"));
    assert_eq!(None, Token::is_keyword("Task"));
    assert_eq!(None, Token::is_keyword("TAGS"));
    assert_eq!(None, Token::is_keyword(""));
    assert_eq!(
        vec![TokenType::Identifier, TokenType::Identifier, TokenType::NewLine, TokenType::Eof],
        kinds("rung Rung")
    );
}

#[test]
fn punctuation_tokens() {
    assert_eq!(
        vec![
            TokenType::Eq,
            TokenType::OpenAngle,
            TokenType::CloseAngle,
            TokenType::OpenBracket,
            TokenType::CloseBracket,
            TokenType::Indexer,
            TokenType::NewLine,
            TokenType::Eof
        ],
        kinds("=<>[].")
    );
}

#[test]
fn blanks_and_comments_are_skipped() {
    let mut lexer = Lexer::new(" \t\r TAG \t # a comment = < >\n\r\n  x".to_string());
    let first = token(&mut lexer);
    assert_eq!(TokenType::Tag, *first.get_type());
    assert_eq!(1, lexer.line_number());
    let second = token(&mut lexer);
    assert_eq!(TokenType::NewLine, *second.get_type());
    assert_eq!("\n", second.get_text());
    assert_eq!(2, lexer.line_number());
    assert_eq!(TokenType::NewLine, *token(&mut lexer).get_type());
    assert_eq!(3, lexer.line_number());
    let word = token(&mut lexer);
    assert_eq!(TokenType::Identifier, *word.get_type());
    assert_eq!("x", word.get_text());
    assert_eq!(TokenType::NewLine, *token(&mut lexer).get_type());
    assert_eq!(4, lexer.line_number());
    assert_eq!(TokenType::Eof, *token(&mut lexer).get_type());
    assert_eq!(TokenType::Eof, *token(&mut lexer).get_type());
}

#[test]
fn a_comment_keeps_its_end_of_line() {
    assert_eq!(vec![TokenType::NewLine, TokenType::Eof], kinds("# nothing but a comment"));
    assert_eq!(
        vec![TokenType::Ret, TokenType::NewLine, TokenType::Ret, TokenType::NewLine, TokenType::Eof],
        kinds("RET#one\nRET")
    );
}

#[test]
fn empty_source_is_one_blank_line() {
    let mut lexer = Lexer::new(String::new());
    assert_eq!("\n", lexer.source_code());
    assert_eq!('\n', lexer.current_character());
    assert_eq!('\0', lexer.peek());
    assert_eq!(TokenType::NewLine, *token(&mut lexer).get_type());
    let end = token(&mut lexer);
    assert_eq!(TokenType::Eof, *end.get_type());
    assert_eq!("\0", end.get_text());
    assert_eq!(1, lexer.current_position());
    lexer.next_character();
    assert_eq!(1, lexer.current_position());
    assert_eq!('\0', lexer.current_character());
}

#[test]
fn numbers_with_and_without_fraction() {
    let mut lexer = Lexer::new("007 3.14 42.0x".to_string());
    let whole = token(&mut lexer);
    assert_eq!(TokenType::Number, *whole.get_type());
    assert_eq!("007", whole.get_text());
    let fraction = token(&mut lexer);
    assert_eq!(TokenType::Number, *fraction.get_type());
    assert_eq!("3.14", fraction.get_text());
    let third = token(&mut lexer);
    assert_eq!("42.0", third.get_text());
    let word = token(&mut lexer);
    assert_eq!(TokenType::Identifier, *word.get_type());
    assert_eq!("x", word.get_text());
}

#[test]
fn a_second_point_starts_an_indexer() {
    assert_eq!(
        vec![TokenType::Number, TokenType::Indexer, TokenType::Number, TokenType::NewLine, TokenType::Eof],
        kinds("1.2.3")
    );
}

#[test]
fn a_point_without_digits_is_illegal() {
    let error = failure("TAG x = 5.");
    assert_eq!(ErrorKind::IllegalNumber, error.kind);
    assert_eq!("", error.subject);
    assert_eq!("Illegal character in number", error.message());
    assert_eq!(ErrorKind::IllegalNumber, failure("12.a").kind);
}

#[test]
fn unknown_characters_are_named() {
    let error = failure("TAG my_tag = TRUE");
    assert_eq!(ErrorKind::UnknownToken, error.kind);
    assert_eq!("_", error.subject);
    assert_eq!("Unknown token: _", error.message());
    assert_eq!("+", failure("+").subject);
}

#[test]
fn identifiers_hold_letters_and_digits() {
    let mut lexer = Lexer::new("a1b2 TASK1 x.y".to_string());
    let first = token(&mut lexer);
    assert_eq!(TokenType::Identifier, *first.get_type());
    assert_eq!("a1b2", first.get_text());
    let second = token(&mut lexer);
    assert_eq!(TokenType::Identifier, *second.get_type());
    assert_eq!("TASK1", second.get_text());
    assert_eq!("x", token(&mut lexer).get_text());
    assert_eq!(TokenType::Indexer, *token(&mut lexer).get_type());
    assert_eq!("y", token(&mut lexer).get_text());
}

#[test]
fn letters_beyond_ascii_make_identifiers() {
    let mut lexer = Lexer::new("caf\u{e9} \u{4eac}1".to_string());
    let first = token(&mut lexer);
    assert_eq!(TokenType::Identifier, *first.get_type());
    assert_eq!("caf\u{e9}", first.get_text());
    assert_eq!(4, lexer.current_position());
    let second = token(&mut lexer);
    assert_eq!(TokenType::Identifier, *second.get_type());
    assert_eq!("\u{4eac}1", second.get_text());
    assert_eq!(ErrorKind::UnknownToken, failure("\u{1f49d}").kind);
}

#[test]
fn a_nul_character_is_an_unknown_token() {
    let mut lexer = Lexer::new("a\0b".to_string());
    assert_eq!("a", token(&mut lexer).get_text());
    let error = lexer.get_token().unwrap_err();
    assert_eq!(ErrorKind::UnknownToken, error.kind);
    assert_eq!("\0", error.subject);

    let alone = failure("\0=");
    assert_eq!(ErrorKind::UnknownToken, alone.kind);
    assert_eq!("\0", alone.subject);
    assert_eq!(vec![TokenType::NewLine, TokenType::Eof], kinds("# a comment with \0 in it"));
}

#[test]
fn the_end_of_the_input_is_final() {
    let mut lexer = Lexer::new("x  # the rest".to_string());
    assert_eq!(TokenType::Identifier, *token(&mut lexer).get_type());
    assert_eq!(TokenType::NewLine, *token(&mut lexer).get_type());
    let end = lexer.current_position();
    assert_eq!(lexer.source_code().chars().count(), end);
    for _ in 0..5 {
        let last = token(&mut lexer);
        assert_eq!(TokenType::Eof, *last.get_type());
        assert_eq!("\0", last.get_text());
        assert_eq!(end, lexer.current_position());
        assert_eq!('\0', lexer.current_character());
    }
}

#[test]
fn the_blank_token_is_the_end_of_input() {
    let blank = Token::default();
    assert_eq!(TokenType::Eof, *blank.get_type());
    assert_eq!("", blank.get_text());
    let copy = blank.clone();
    assert_eq!(TokenType::Eof, *copy.get_type());
    assert_eq!(TokenType::Eof, TokenType::default());
}

#[test]
fn characters_are_classified() {
    assert_eq!(CharacterClass::Single(TokenType::Eq), classify('=', false));
    assert_eq!(CharacterClass::Single(TokenType::Indexer), classify('.', false));
    assert_eq!(CharacterClass::Single(TokenType::NewLine), classify('\n', false));
    assert_eq!(CharacterClass::Other, classify('\0', false));
    assert_eq!(CharacterClass::Other, classify('\0', true));
    assert_eq!(CharacterClass::Digit, classify('7', false));
    assert_eq!(CharacterClass::Digit, classify('7', true));
    assert_eq!(CharacterClass::Letter, classify('x', true));
    assert_eq!(CharacterClass::Other, classify('x', false));
    assert_eq!(CharacterClass::Other, classify('_', false));
    assert_eq!(CharacterClass::Single(TokenType::OpenAngle), classify('<', true));
    assert!(continues_word('x', true));
    assert!(continues_word('5', false));
    assert!(!continues_word('_', false));
    assert!(!continues_word('\0', true));
}

#[test]
fn kinds_have_names() {
    assert_eq!("TAG", TokenType::Tag.name());
    assert_eq!("an identifier", TokenType::Identifier.name());
    assert_eq!("end of line", TokenType::NewLine.name());
    assert_eq!(".", TokenType::Indexer.name());
}
