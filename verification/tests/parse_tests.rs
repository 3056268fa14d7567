use ladder_compiler::emitter::Emitter;
use ladder_compiler::error::{CompileError, ErrorKind};
use ladder_compiler::lexer::{Lexer, TokenType};
use ladder_compiler::parse::Parser;

fn ok<T>(result: Result<T, CompileError>) -> T {
    match result {
        Ok(value) => value,
        Err(error) => panic!("{}", error.message()),
    }
}

fn translate(source: &str) -> Result<String, CompileError> {
    let mut parser = Parser::new(Lexer::new(source.to_string()), Emitter::new("test.out"))?;
    parser.program()?;
    Ok(parser.output().to_string())
}

fn failure(source: &str) -> CompileError {
    match translate(source) {
        Ok(output) => panic!("translated to {:?}", output),
        Err(error) => error,
    }
}

#[test]
fn test_statement_tag_1() {
    let source_code = "TAG myTag = TRUE\nTAG myTag = FALSE".to_string();
    let mut par = ok(Parser::new(Lexer::new(source_code.clone()), Emitter::new("test.out")));
    ok(par.program());
}

#[test]
#[should_panic]
fn test_statement_tag_2() {
    let source_code = "TAG myTag = notAKeyword".to_string();
    let mut par = ok(Parser::new(Lexer::new(source_code.clone()), Emitter::new("test.out")));
    ok(par.program());
}

#[test]
#[should_panic]
fn test_statement_tag_3() {
    let source_code = "TAG myLongTagName = FALSE".to_string();
    let mut par = ok(Parser::new(Lexer::new(source_code.clone()), Emitter::new("test.out")));
    ok(par.program());
}

#[test]
fn test_statement_task_1() {
    let source_code = "TASK<PERIOD=1000> myTask".to_string();
    let mut par = ok(Parser::new(Lexer::new(source_code.clone()), Emitter::new("test.out")));
    ok(par.program());
}

#[test]
fn test_statement_task_2() {
    let source_code = "TASK<EVENT=myEvent> myTask".to_string();
    let mut par = ok(Parser::new(Lexer::new(source_code.clone()), Emitter::new("test.out")));
    ok(par.program());
}

#[test]
#[should_panic]
fn test_statement_task_3() {
    let source_code = "TASK<INVALID> myTask".to_string();
    let mut par = ok(Parser::new(Lexer::new(source_code.clone()), Emitter::new("test.out")));
    ok(par.program());
}

#[test]
fn test_statement_routine_success() {
    let source_code = "ROUTINE Main".to_string();
    let mut par = ok(Parser::new(Lexer::new(source_code.clone()), Emitter::new("test.out")));
    par.open_scope(TokenType::Task);

    ok(par.program());
}

#[test]
#[should_panic]
fn test_statement_routine_failure() {
    let source_code = "ROUTINE ".to_string();
    let mut par = ok(Parser::new(Lexer::new(source_code.clone()), Emitter::new("test.out")));
    ok(par.program());
}

#[test]
fn test_statement_rung_1() {
    let source_code = "RUNG".to_string();
    let mut par = ok(Parser::new(Lexer::new(source_code.clone()), Emitter::new("test.out")));
    par.open_scope(TokenType::Routine);

    ok(par.program());
}

#[test]
fn test_statement_rung_2() {
    let source_code = "RUNG myRung".to_string();
    let mut par = ok(Parser::new(Lexer::new(source_code.clone()), Emitter::new("test.out")));
    par.open_scope(TokenType::Routine);

    ok(par.program());
}

#[test]
fn test_statement_instructions() {
    let source_code =
        "XIC tag\nXIO tag\nOTE tag\nOTL tag\nOTU tag\nJSR routine\nEMIT event\nRET".to_string();
    let mut par = ok(Parser::new(Lexer::new(source_code.clone()), Emitter::new("test.out")));

    // Add tag to the symbols to avoid errors
    par.add_tag("tag", 0);

    // Event  and routine must exist
    par.add_routine("routine");
    par.add_event("event");

    ok(par.program());
}

#[test]
fn test_statement_end() {
    let source_code =
        "TASK<CONTINUOUS> task\nROUTINE Main\nRUNG\nENDRUNG\nENDROUTINE\nENDTASK".to_string();
    let mut par = ok(Parser::new(Lexer::new(source_code.clone()), Emitter::new("test.out")));

    ok(par.program());
}

#[test]
fn test_statement_tag_array_1() {
    let source_code = "TAG[10] array = FALSE\nOTE array.0".to_string();
    let mut par = ok(Parser::new(Lexer::new(source_code.clone()), Emitter::new("test.out")));
    ok(par.program());
}

#[test]
#[should_panic(expected = "Length of tag array must be greater than zero")]
fn test_statement_tag_array_2() {
    let source_code = "TAG[0] array = FALSE".to_string();
    let mut par = ok(Parser::new(Lexer::new(source_code.clone()), Emitter::new("test.out")));
    ok(par.program());
}

#[test]
#[should_panic]
fn test_statement_tag_array_3() {
    let source_code = "TAG[10] array = FALSE\nOTE array".to_string();
    let mut par = ok(Parser::new(Lexer::new(source_code.clone()), Emitter::new("test.out")));
    ok(par.program());
}

#[test]
#[should_panic(expected = "Referencing tag array before assignment")]
fn test_statement_tag_array_4() {
    let source_code = "OTE array.2".to_string();
    let mut par = ok(Parser::new(Lexer::new(source_code.clone()), Emitter::new("test.out")));
    ok(par.program());
}

#[test]
#[should_panic]
fn test_statement_tag_array_5() {
    let source_code = "TAG[10] array = FALSE\nOTE array.10".to_string();
    let mut par = ok(Parser::new(Lexer::new(source_code.clone()), Emitter::new("test.out")));
    ok(par.program());
}

#[test]
fn a_whole_program() {
    let source = "TAG t1 = TRUE # the first tag\n\
        TAG[10] arr = FALSE   # an array\n\
        \n\
        TASK<PERIOD=20> myTask\n\
        \tROUTINE Main\n\
        \t\tRUNG first\n\
        \t\t\tXIO t1\n\
        \t\t\tXIC arr.9\n\
        \t\t\tOTL arr.0\n\
        \t\t\tOTE t1\n\
        \t\t\tJSR other\n\
        \t\t\tEMIT alarm\n\
        \t\tENDRUNG\n\
        \tENDROUTINE\n\
        \tROUTINE other\n\
        \t\tRUNG\n\
        \t\t\tRET\n\
        \t\tENDRUNG\n\
        \tENDROUTINE\n\
        ENDTASK\n\
        TASK<EVENT=alarm> second\n\
        ROUTINE Main\n\
        ENDROUTINE\n\
        ENDTASK\n\
        TASK<CONTINUOUS> third\n\
        ROUTINE Main\n\
        RUNG\n\
        ENDRUNG\n\
        RUNG\n\
        XIC t1\n\
        ENDRUNG\n\
        ENDROUTINE\n\
        ENDTASK";
    let expected = "TAG t1 TRUE\n\
        TAG_ARRAY 10 arr FALSE\n\
        TASK PERIOD 20 myTask\n\
        {\n\
        def Main():\n\
        \trung_first_entry = True\n\
        \trung_first_entry &= not t1\n\
        \trung_first_entry &= arr.9\n\
        \tif rung_first_entry:\n\
        \t\tarr.0 = True\n\
        \t\tt1 = True\n\
        \t\tother()\n\
        \t\tEmitEvent('alarm')\n\
        \telse:\n\
        \t\tt1 = False\n\
        def other():\n\
        \trung_0_entry = True\n\
        \tif rung_0_entry:\n\
        \t\treturn\n\
        Main()\n\
        }\n\
        TASK EVENT alarm second\n\
        {\n\
        def Main():\n\
        \tpass\n\
        Main()\n\
        }\n\
        TASK  third\n\
        {\n\
        def Main():\n\
        \trung_0_entry = True\n\
        \trung_1_entry = True\n\
        \trung_1_entry &= t1\n\
        Main()\n\
        }\n";
    assert_eq!(expected, ok(translate(source)));
}

#[test]
fn a_source_without_statements_has_a_blank_line_where_a_statement_belongs() {
    assert_eq!(ErrorKind::InvalidStatement, failure("").kind);
    assert_eq!(ErrorKind::InvalidStatement, failure("# only a comment").kind);
}

#[test]
fn blank_lines_between_statements_collapse() {
    assert_eq!("TAG a TRUE\nTAG b FALSE\n", ok(translate("TAG a = TRUE\n\n\n  \nTAG b = FALSE\n\n")));
}

#[test]
fn a_blank_first_line_is_no_statement() {
    let error = failure("\nTAG a = TRUE");
    assert_eq!(ErrorKind::InvalidStatement, error.kind);
    assert_eq!("\n", error.subject);
}

#[test]
fn the_output_and_destination_can_be_read() {
    let mut parser = ok(Parser::new(Lexer::new("TAG a = TRUE".to_string()), Emitter::new("dest")));
    assert_eq!("", parser.output());
    ok(parser.program());
    assert_eq!("TAG a TRUE\n", parser.output());
    assert_eq!("TAG a TRUE\n", parser.emitter().code());
    assert_eq!("dest", parser.emitter().path());
}

#[test]
fn lexical_failures_show_at_construction() {
    let error = match Parser::new(Lexer::new("_".to_string()), Emitter::new("test.out")) {
        Ok(_) => panic!("constructed"),
        Err(error) => error,
    };
    assert_eq!(ErrorKind::UnknownToken, error.kind);
    assert_eq!("_", error.subject);
    let second = match Parser::new(Lexer::new("TAG 1.".to_string()), Emitter::new("test.out")) {
        Ok(_) => panic!("constructed"),
        Err(error) => error,
    };
    assert_eq!(ErrorKind::IllegalNumber, second.kind);
}

#[test]
fn a_lexical_failure_shows_when_the_token_enters_the_window() {
    // `TRUE` is never consumed: the bad character is read as lookahead first.
    let error = failure("TAG x = TRUE\n_");
    assert_eq!(ErrorKind::UnknownToken, error.kind);
    // With two tokens between, the syntax error comes first.
    let earlier = failure("TAG x TRUE\n_");
    assert_eq!(ErrorKind::UnexpectedToken(TokenType::Eq), earlier.kind);
    assert_eq!("TRUE", earlier.subject);
}

#[test]
fn array_elements_are_checked_against_the_declared_length() {
    let declared = "TAG[10] arr = FALSE\nTASK<CONTINUOUS> t\nROUTINE Main\nRUNG\n";
    let closing = "\nENDRUNG\nENDROUTINE\nENDTASK";
    assert!(translate(&format!("{}OTE arr.0{}", declared, closing)).is_ok());
    assert!(translate(&format!("{}OTE arr.9{}", declared, closing)).is_ok());
    assert!(translate(&format!("{}OTE arr.009{}", declared, closing)).is_ok());

    let beyond = failure(&format!("{}OTE arr.10{}", declared, closing));
    assert_eq!(ErrorKind::IndexOutOfBounds, beyond.kind);
    assert_eq!("10", beyond.subject);
    assert_eq!("Index 10 is out of bounds for the tag array", beyond.message());

    let bare = failure(&format!("{}OTE arr{}", declared, closing));
    assert_eq!(ErrorKind::UnexpectedToken(TokenType::Indexer), bare.kind);
    assert_eq!("\n", bare.subject);

    let fraction = failure(&format!("{}OTE arr.1.5{}", declared, closing));
    assert_eq!(ErrorKind::InvalidNumber, fraction.kind);
    assert_eq!("1.5", fraction.subject);

    let huge = failure(&format!("{}OTE arr.99999999999999999999999999{}", declared, closing));
    assert_eq!(ErrorKind::IndexOutOfBounds, huge.kind);
    assert_eq!("99999999999999999999999999", huge.subject);

    let word = failure(&format!("{}OTE arr.x{}", declared, closing));
    assert_eq!(ErrorKind::UnexpectedToken(TokenType::Number), word.kind);
}

#[test]
fn a_scalar_tag_takes_no_index() {
    let error = failure("TAG t = TRUE\nOTE t.0");
    assert_eq!(ErrorKind::UnexpectedToken(TokenType::NewLine), error.kind);
    assert_eq!(".", error.subject);
}

#[test]
fn the_first_declaration_of_a_tag_governs() {
    let closing = "\nENDRUNG\nENDROUTINE\nENDTASK";
    let head = "TASK<CONTINUOUS> t\nROUTINE Main\nRUNG\n";
    let array_first = format!("TAG[2] a = TRUE\nTAG[5] a = TRUE\nTAG a = TRUE\n{}", head);
    assert!(translate(&format!("{}OTE a.1{}", array_first, closing)).is_ok());
    assert_eq!(
        ErrorKind::IndexOutOfBounds,
        failure(&format!("{}OTE a.2{}", array_first, closing)).kind
    );
    let scalar_first = format!("TAG a = TRUE\nTAG[5] a = TRUE\n{}", head);
    assert!(translate(&format!("{}OTE a{}", scalar_first, closing)).is_ok());
    assert_eq!(
        ErrorKind::UnexpectedToken(TokenType::NewLine),
        failure(&format!("{}OTE a.1{}", scalar_first, closing)).kind
    );
}

#[test]
fn undeclared_tags_are_named() {
    let error = failure("XIC ghost");
    assert_eq!(ErrorKind::UndeclaredTag, error.kind);
    assert_eq!("ghost", error.subject);
    assert_eq!("Referencing tag ghost before assignment", error.message());
    // a tag declared after its use does not count
    assert_eq!(ErrorKind::UndeclaredTag, failure("OTE late\nTAG late = TRUE").kind);
}

#[test]
fn jump_targets_may_be_declared_later() {
    let source = "TASK<CONTINUOUS> t\nROUTINE Main\nRUNG\nJSR later\nENDRUNG\nENDROUTINE\n\
        ROUTINE later\nENDROUTINE\nENDTASK";
    assert!(translate(source).is_ok());
}

#[test]
fn events_may_be_declared_later() {
    let source = "TASK<CONTINUOUS> t\nROUTINE Main\nRUNG\nEMIT ring\nENDRUNG\nENDROUTINE\nENDTASK\n\
        TASK<EVENT=ring> u\nROUTINE Main\nENDROUTINE\nENDTASK";
    assert!(translate(source).is_ok());
}

#[test]
fn missing_targets_fail_after_the_last_statement() {
    let head = "TASK<CONTINUOUS> t\nROUTINE Main\nRUNG\nJSR nowhere\nENDRUNG\nENDROUTINE\nENDTASK";
    let error = failure(head);
    assert_eq!(ErrorKind::UndeclaredRoutine, error.kind);
    assert_eq!("nowhere", error.subject);
    assert_eq!("Routine nowhere does not exist", error.message());

    // what is wrong after the reference is reported, not the reference
    let later = failure(&format!("{}\nENDTASK", head));
    assert_eq!(ErrorKind::TooManyEnds, later.kind);

    let event = failure("TASK<CONTINUOUS> t\nROUTINE Main\nRUNG\nEMIT silent\nENDRUNG\nENDROUTINE\nENDTASK");
    assert_eq!(ErrorKind::UndeclaredEvent, event.kind);
    assert_eq!("silent", event.subject);
    assert_eq!("Emitted event silent does not correspond to a task", event.message());
}

#[test]
fn missing_events_are_reported_before_missing_routines() {
    let source = "TASK<CONTINUOUS> t\nROUTINE Main\nRUNG\nJSR nowhere\nEMIT silent\nENDRUNG\n\
        ENDROUTINE\nENDTASK";
    assert_eq!(ErrorKind::UndeclaredEvent, failure(source).kind);
}

#[test]
fn a_routine_is_no_event_and_an_event_is_no_routine() {
    let jump = "TASK<EVENT=e> t\nROUTINE Main\nRUNG\nJSR e\nENDRUNG\nENDROUTINE\nENDTASK";
    assert_eq!(ErrorKind::UndeclaredRoutine, failure(jump).kind);
    let emit = "TASK<EVENT=e> t\nROUTINE Main\nRUNG\nEMIT Main\nENDRUNG\nENDROUTINE\nENDTASK";
    assert_eq!(ErrorKind::UndeclaredEvent, failure(emit).kind);
}

#[test]
fn the_period_has_a_lower_bound() {
    let task = |period: &str| format!("TASK<PERIOD={}> t\nROUTINE Main\nENDROUTINE\nENDTASK", period);
    assert_eq!(
        "TASK PERIOD 20 t\n{\ndef Main():\n\tpass\nMain()\n}\n",
        ok(translate(&task("20")))
    );
    assert!(translate(&task("21")).is_ok());
    assert!(translate(&task("4294967295")).is_ok());
    assert!(translate(&task("0020")).is_ok());

    let short = failure(&task("19"));
    assert_eq!(ErrorKind::PeriodTooShort, short.kind);
    assert_eq!("Period below allowable limit 20", short.message());
    assert_eq!(ErrorKind::PeriodTooShort, failure(&task("0")).kind);

    assert_eq!(ErrorKind::PeriodTooShort, failure(&task("19.9")).kind);
    assert_eq!(ErrorKind::PeriodTooShort, failure(&task("000019.999")).kind);
    let almost = failure(&task("2.0"));
    assert_eq!(ErrorKind::PeriodTooShort, almost.kind);
    assert_eq!("2.0", almost.subject);
}

#[test]
fn the_period_may_have_a_fraction_and_any_size() {
    let task = |period: &str| format!("TASK<PERIOD={}> t\nROUTINE Main\nENDROUTINE\nENDTASK", period);
    assert_eq!(
        "TASK PERIOD 20.5 t\n{\ndef Main():\n\tpass\nMain()\n}\n",
        ok(translate(&task("20.5")))
    );
    assert_eq!(
        "TASK PERIOD 20.0 t\n{\ndef Main():\n\tpass\nMain()\n}\n",
        ok(translate(&task("20.0")))
    );
    assert!(translate(&task("1000.001")).is_ok());
    assert!(translate(&task("4294967296")).is_ok());
    assert_eq!(
        "TASK PERIOD 99999999999999999999999999 t\n{\ndef Main():\n\tpass\nMain()\n}\n",
        ok(translate(&task("99999999999999999999999999")))
    );
}

#[test]
fn a_nul_character_does_not_end_the_input() {
    let error = failure("\0=");
    assert_eq!(ErrorKind::UnknownToken, error.kind);
    assert_eq!("\0", error.subject);
    assert_eq!(ErrorKind::InvalidStatement, failure("=").kind);
    let later = failure("TAG a = TRUE\n\0\nTAG b = TRUE");
    assert_eq!(ErrorKind::UnknownToken, later.kind);
}

#[test]
fn every_task_needs_one_main_routine() {
    let none = failure("TASK<CONTINUOUS> t\nROUTINE other\nENDROUTINE\nENDTASK");
    assert_eq!(ErrorKind::MissingMain, none.kind);
    assert_eq!("There must be a single Main routine", none.message());
    assert_eq!(ErrorKind::MissingMain, failure("TASK<CONTINUOUS> t\nENDTASK").kind);

    let twice = failure(
        "TASK<CONTINUOUS> t\nROUTINE Main\nENDROUTINE\nROUTINE Main\nENDROUTINE\nENDTASK",
    );
    assert_eq!(ErrorKind::DuplicateMain, twice.kind);
    assert_eq!("There can only be one Main routine", twice.message());

    let two_tasks = "TASK<CONTINUOUS> t\nROUTINE Main\nENDROUTINE\nENDTASK\n\
        TASK<CONTINUOUS> u\nROUTINE Main\nENDROUTINE\nENDTASK";
    assert_eq!(
        "TASK  t\n{\ndef Main():\n\tpass\nMain()\n}\nTASK  u\n{\ndef Main():\n\tpass\nMain()\n}\n",
        ok(translate(two_tasks))
    );

    // the second task has no Main of its own
    let second = failure(
        "TASK<CONTINUOUS> t\nROUTINE Main\nENDROUTINE\nENDTASK\nTASK<CONTINUOUS> u\nENDTASK",
    );
    assert_eq!(ErrorKind::MissingMain, second.kind);
    // the name is matched exactly
    assert_eq!(
        ErrorKind::MissingMain,
        failure("TASK<CONTINUOUS> t\nROUTINE main\nENDROUTINE\nENDTASK").kind
    );
}

#[test]
fn scopes_nest_in_one_way_only() {
    assert_eq!(
        ErrorKind::NestedTask,
        failure("TASK<CONTINUOUS> t\nTASK<CONTINUOUS> u").kind
    );
    assert_eq!(ErrorKind::RoutineOutsideTask, failure("ROUTINE Main").kind);
    assert_eq!(
        ErrorKind::RoutineOutsideTask,
        failure("TASK<CONTINUOUS> t\nROUTINE Main\nROUTINE other").kind
    );
    assert_eq!(ErrorKind::RungOutsideRoutine, failure("RUNG").kind);
    assert_eq!(ErrorKind::RungOutsideRoutine, failure("TASK<CONTINUOUS> t\nRUNG").kind);
    assert_eq!(
        ErrorKind::RungOutsideRoutine,
        failure("TASK<CONTINUOUS> t\nROUTINE Main\nRUNG\nRUNG").kind
    );
    assert_eq!(ErrorKind::UnmatchedEndRung, failure("ENDRUNG").kind);
    assert_eq!(
        ErrorKind::UnmatchedEndRung,
        failure("TASK<CONTINUOUS> t\nROUTINE Main\nENDRUNG").kind
    );
    assert_eq!(ErrorKind::UnmatchedEndRoutine, failure("ENDROUTINE").kind);
    assert_eq!(
        ErrorKind::UnmatchedEndRoutine,
        failure("TASK<CONTINUOUS> t\nROUTINE Main\nRUNG\nENDROUTINE").kind
    );
    assert_eq!(ErrorKind::TooManyEnds, failure("ENDTASK").kind);
    assert_eq!(
        ErrorKind::UnmatchedEndTask,
        failure("TASK<CONTINUOUS> t\nROUTINE Main\nENDTASK").kind
    );
}

#[test]
fn scope_failures_have_messages() {
    assert_eq!("Tasks may not be inside of other structures", failure("TASK<CONTINUOUS> t\nTASK<CONTINUOUS> u").message());
    assert_eq!("Routines must be defined inside of a task", failure("ROUTINE Main").message());
    assert_eq!("Rungs must be defined inside of a routine", failure("RUNG").message());
    assert_eq!("Missing matching RUNG", failure("ENDRUNG").message());
    assert_eq!("Missing matching ENDRUNG", failure("ENDROUTINE").message());
    assert_eq!("Too many end statements", failure("ENDTASK").message());
    assert_eq!(
        "Missing matching ENDROUTINE",
        failure("TASK<CONTINUOUS> t\nROUTINE Main\nENDTASK").message()
    );
}

#[test]
fn tag_names_have_at_most_seven_characters() {
    assert_eq!("TAG abcdefg TRUE\n", ok(translate("TAG abcdefg = TRUE")));
    let long = failure("TAG abcdefgh = TRUE");
    assert_eq!(ErrorKind::TagNameTooLong, long.kind);
    assert_eq!("abcdefgh", long.subject);
    assert_eq!("Tag name abcdefgh too long. The limit is 7 characters", long.message());
    // seven letters that take more than seven bytes
    assert!(translate("TAG \u{e9}\u{e9}\u{e9}\u{e9}\u{e9}\u{e9}\u{e9} = TRUE").is_ok());
}

#[test]
fn tag_arrays_need_a_positive_integer_length() {
    assert_eq!("TAG_ARRAY 1 a TRUE\n", ok(translate("TAG[1] a = TRUE")));
    assert_eq!("TAG_ARRAY 007 a FALSE\n", ok(translate("TAG[007] a = FALSE")));
    assert_eq!(ErrorKind::EmptyTagArray, failure("TAG[0] a = TRUE").kind);
    assert_eq!(ErrorKind::EmptyTagArray, failure("TAG[000] a = TRUE").kind);
    assert_eq!(ErrorKind::InvalidNumber, failure("TAG[1.5] a = TRUE").kind);
    assert_eq!(
        ErrorKind::InvalidNumber,
        failure("TAG[99999999999999999999999999] a = TRUE").kind
    );
    assert_eq!(ErrorKind::UnexpectedToken(TokenType::Number), failure("TAG[x] a = TRUE").kind);
    assert_eq!(ErrorKind::UnexpectedToken(TokenType::CloseBracket), failure("TAG[1 a = TRUE").kind);
}

#[test]
fn syntax_failures_name_what_was_expected() {
    let error = failure("TAG myTag = notAKeyword");
    assert_eq!(ErrorKind::UnexpectedToken(TokenType::False), error.kind);
    assert_eq!("notAKeyword", error.subject);
    assert_eq!("Expected FALSE, but found notAKeyword", error.message());

    assert_eq!(ErrorKind::UnexpectedToken(TokenType::Identifier), failure("TAG = TRUE").kind);
    assert_eq!(ErrorKind::UnexpectedToken(TokenType::Eq), failure("TAG a TRUE").kind);
    assert_eq!(ErrorKind::UnexpectedToken(TokenType::NewLine), failure("TAG a = TRUE FALSE").kind);
    assert_eq!(ErrorKind::UnexpectedToken(TokenType::OpenAngle), failure("TASK t").kind);
    assert_eq!(
        ErrorKind::UnexpectedToken(TokenType::CloseAngle),
        failure("TASK<CONTINUOUS t").kind
    );
    assert_eq!(ErrorKind::UnexpectedToken(TokenType::Identifier), failure("TASK<CONTINUOUS>").kind);
    assert_eq!(ErrorKind::UnexpectedToken(TokenType::Eq), failure("TASK<PERIOD 20> t").kind);
    assert_eq!(ErrorKind::UnexpectedToken(TokenType::Number), failure("TASK<PERIOD=x> t").kind);
    assert_eq!(ErrorKind::UnexpectedToken(TokenType::Identifier), failure("TASK<EVENT=5> t").kind);
    assert_eq!(ErrorKind::UnexpectedToken(TokenType::Identifier), failure("XIC").kind);
    assert_eq!(
        ErrorKind::UnexpectedToken(TokenType::Identifier),
        failure("TASK<CONTINUOUS> t\nROUTINE").kind
    );

    let kind = failure("TASK<INVALID> myTask");
    assert_eq!(ErrorKind::InvalidTaskType, kind.kind);
    assert_eq!("INVALID", kind.subject);
    assert_eq!("Invalid task type INVALID", kind.message());

    let statement = failure("myTag = TRUE");
    assert_eq!(ErrorKind::InvalidStatement, statement.kind);
    assert_eq!("myTag", statement.subject);
    assert_eq!("Invalid statement at myTag", statement.message());
    assert_eq!(ErrorKind::InvalidStatement, failure("TRUE").kind);
    assert_eq!(ErrorKind::InvalidStatement, failure("5").kind);
}

#[test]
fn inputs_after_outputs_fail_in_the_parser_too() {
    let source = "TAG a = TRUE\nTAG b = TRUE\nTAG c = TRUE\nTASK<CONTINUOUS> t\nROUTINE Main\nRUNG\n\
        XIC a\nOTE b\nXIC c\nENDRUNG\nENDROUTINE\nENDTASK";
    let error = failure(source);
    assert_eq!(ErrorKind::InputAfterOutput, error.kind);
    assert_eq!("c", error.subject);
}

#[test]
fn seeded_tables_are_used() {
    let mut parser = ok(Parser::new(
        Lexer::new("RUNG\nXIC flags.3\nJSR helper\nEMIT ring\nENDRUNG\nENDROUTINE".to_string()),
        Emitter::new("test.out"),
    ));
    parser.open_scope(TokenType::Task);
    parser.open_scope(TokenType::Routine);
    parser.add_tag("flags", 4);
    parser.add_routine("helper");
    parser.add_event("ring");
    ok(parser.program());
    assert_eq!("", parser.output());
}

#[test]
fn seeded_jumps_still_need_their_routine() {
    let mut parser = ok(Parser::new(Lexer::new("JSR helper".to_string()), Emitter::new("test.out")));
    parser.add_routine("other");
    let error = parser.program().unwrap_err();
    assert_eq!(ErrorKind::UndeclaredRoutine, error.kind);
    assert_eq!("helper", error.subject);
}
