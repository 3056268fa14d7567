//! What a source text means: the state of a translation, and how each statement
//! of the grammar changes it or makes the translation fail.
//!
//! The parser reads with one token of lookahead and keeps the token before the
//! current one. A lexical failure therefore shows as soon as the offending token
//! enters the window, which is before the parser reaches it.

use crate::code_generation::GeneratorState;
use crate::emitter::EmitterState;
use crate::error::{ErrorKind, Failure};
use crate::lexer::{blank_token, scan, LexerState, TokenType, TokenView};
use crate::text::{decimal_value, whole_value};
use vstd::prelude::*;

verus! {

/// The shortest period that a periodic task may have.
pub const PERIOD_LOWER_BOUND: u32 = 20;

/// The longest name that a tag may have, in characters.
pub const TAG_CHARACTER_LIMIT: usize = 7;

/// A declared tag: a scalar if `length` is zero, else an array of that length.
pub struct TagView {
    pub name: Seq<char>,
    pub length: nat,
}

/// The length under which `name` was declared first, if it was declared.
/// Later declarations of the same name are kept and never found.
pub open spec fn lookup(tags: Seq<TagView>, name: Seq<char>) -> Option<nat> {
    lookup_from(tags, name, 0)
}

/// `lookup` among the declarations from index `from` on.
pub open spec fn lookup_from(tags: Seq<TagView>, name: Seq<char>, from: int) -> Option<nat>
    decreases tags.len() - from,
{
    if from < 0 || from >= tags.len() {
        None
    } else if tags[from].name == name {
        Some(tags[from].length)
    } else {
        lookup_from(tags, name, from + 1)
    }
}

/// The first of `names`, from index `from` on, that is not among `declared`.
pub open spec fn first_missing(names: Seq<Seq<char>>, declared: Seq<Seq<char>>, from: int)
    -> Option<Seq<char>>
    decreases names.len() - from,
{
    if from < 0 || from >= names.len() {
        None
    } else if !declared.contains(names[from]) {
        Some(names[from])
    } else {
        first_missing(names, declared, from + 1)
    }
}

/// The number of routine markers on a scope stack.
pub open spec fn open_routines(stack: Seq<TokenType>) -> nat
    decreases stack.len(),
{
    if stack.len() == 0 {
        0
    } else {
        open_routines(stack.drop_last()) + if stack.last() == TokenType::Routine {
            1nat
        } else {
            0nat
        }
    }
}

/// Whether the innermost open scope is of the given kind.
pub open spec fn innermost(stack: Seq<TokenType>, scope: TokenType) -> bool {
    stack.len() > 0 && stack.last() == scope
}

/// One for every token but the end-of-input token.
pub open spec fn live(token: TokenView) -> int {
    if token.kind == TokenType::Eof {
        0
    } else {
        1
    }
}

/// The state of a translation.
pub struct ParserState {
    /// The source text, with its final end-of-line character.
    pub source: Seq<char>,
    /// The cursor of the tokenizer, which is after the lookahead token.
    pub position: int,
    /// The token consumed last.
    pub previous: TokenView,
    /// The token that the parser is at.
    pub current: TokenView,
    /// The token after the current one.
    pub peek: TokenView,
    /// The tags declared so far, in order of declaration.
    pub tags: Seq<TagView>,
    /// The names of the routines declared so far.
    pub routines: Seq<Seq<char>>,
    /// The targets of the `JSR` instructions seen so far.
    pub jumps: Seq<Seq<char>>,
    /// The events that tasks were declared for so far.
    pub events: Seq<Seq<char>>,
    /// The targets of the `EMIT` instructions seen so far.
    pub emitted_events: Seq<Seq<char>>,
    /// The open scopes, innermost last.
    pub stack: Seq<TokenType>,
    /// Whether the open task has a routine named `Main`.
    pub main_flag: bool,
    /// The rung translator.
    pub generator: GeneratorState,
    /// The destination of the output.
    pub path: Seq<char>,
    /// The output text so far.
    pub output: Seq<char>,
}

/// A translation under way, or the failure that ended it.
pub enum Progress {
    Running(ParserState),
    Failed(Failure),
}

/// A failure of the given kind about `subject`.
pub open spec fn failed(kind: ErrorKind, subject: Seq<char>) -> Progress {
    Progress::Failed(Failure { kind, subject })
}

/// A bound on the number of tokens that are still to be consumed: the
/// characters not yet read, and the tokens in the window that are no
/// end-of-input token.
pub open spec fn budget(state: ParserState) -> int {
    (state.source.len() - state.position) + live(state.current) + live(state.peek)
}

/// Pushing a scope adds one to the open routines if it is a routine, else nothing.
pub proof fn lemma_open_routines_push(stack: Seq<TokenType>, scope: TokenType)
    ensures
        open_routines(stack.push(scope)) == open_routines(stack) + if scope == TokenType::Routine {
            1nat
        } else {
            0nat
        },
{
    assert(stack.push(scope).drop_last() =~= stack);
}

/// A stack holds no more routine markers than markers.
pub proof fn lemma_open_routines_bound(stack: Seq<TokenType>)
    ensures
        open_routines(stack) <= stack.len(),
    decreases stack.len(),
{
    if stack.len() > 0 {
        lemma_open_routines_bound(stack.drop_last());
    }
}

impl ParserState {
    /// The cursor of the tokenizer is within the text or just after it.
    pub open spec fn in_text(self) -> bool {
        0 <= self.position <= self.source.len()
    }

    /// The state before anything was read: an empty window, empty tables, no
    /// open scope, a new rung translator.
    pub open spec fn initial(lexer: LexerState, emitter: EmitterState) -> ParserState {
        ParserState {
            source: lexer.source,
            position: lexer.position,
            previous: blank_token(),
            current: blank_token(),
            peek: blank_token(),
            tags: Seq::empty(),
            routines: Seq::empty(),
            jumps: Seq::empty(),
            events: Seq::empty(),
            emitted_events: Seq::empty(),
            stack: Seq::empty(),
            main_flag: false,
            generator: GeneratorState::initial(),
            path: emitter.path,
            output: emitter.code,
        }
    }

    /// The state in which parsing starts: the window holds the first two tokens.
    pub open spec fn start(lexer: LexerState, emitter: EmitterState) -> Progress {
        ParserState::initial(lexer, emitter).advance().advance()
    }

    /// Moves the window one token on.
    pub open spec fn advance(self) -> Progress {
        match scan(self.source, self.position) {
            Ok((token, next)) => Progress::Running(
                ParserState {
                    previous: self.current,
                    current: self.peek,
                    peek: token,
                    position: next,
                    ..self
                },
            ),
            Err(failure) => Progress::Failed(failure),
        }
    }

    /// Consumes the current token, which has to be of the given kind.
    pub open spec fn expect(self, kind: TokenType) -> Progress {
        if self.current.kind == kind {
            self.advance()
        } else {
            failed(ErrorKind::UnexpectedToken(kind), self.current.text)
        }
    }

    /// Appends `text` to the output.
    pub open spec fn emit(self, text: Seq<char>) -> ParserState {
        ParserState { output: self.output + text, ..self }
    }

    /// Appends `text` and a line terminator to the output.
    pub open spec fn emit_line(self, text: Seq<char>) -> ParserState {
        ParserState { output: (self.output + text).push('\n'), ..self }
    }

    /// Opens a scope.
    pub open spec fn push_scope(self, scope: TokenType) -> ParserState {
        ParserState { stack: self.stack.push(scope), ..self }
    }

    /// Hands an instruction to the rung translator.
    pub open spec fn generate(self, kind: TokenType, target: Seq<char>) -> Progress {
        match self.generator.add_instruction(kind, target) {
            Ok(generator) => Progress::Running(ParserState { generator, ..self }),
            Err(failure) => Progress::Failed(failure),
        }
    }

    /// The period just consumed is not below the lower bound. The literal may
    /// have a fraction: its value is below the bound, which is an integer,
    /// exactly when its integer part is.
    pub open spec fn check_period(self) -> Progress {
        if whole_value(self.previous.text) < PERIOD_LOWER_BOUND {
            failed(ErrorKind::PeriodTooShort, self.previous.text)
        } else {
            Progress::Running(self)
        }
    }

    /// `PERIOD = <number>`.
    pub open spec fn period_type(self) -> Progress {
        self.expect(TokenType::Period).emit("PERIOD "@).expect(TokenType::Eq).expect(
            TokenType::Number,
        ).emit_previous().check_period()
    }

    /// `EVENT = <identifier>`; the event counts as declared from here on.
    pub open spec fn event_type(self) -> Progress {
        self.expect(TokenType::Event).emit("EVENT "@).expect(TokenType::Eq).expect(
            TokenType::Identifier,
        ).emit_previous().declare_event()
    }

    /// What stands between the angle brackets of a task.
    pub open spec fn task_kind(self) -> Progress {
        if self.current.kind == TokenType::Period {
            self.period_type()
        } else if self.current.kind == TokenType::Event {
            self.event_type()
        } else if self.current.kind == TokenType::Continuous {
            self.expect(TokenType::Continuous)
        } else {
            failed(ErrorKind::InvalidTaskType, self.current.text)
        }
    }

    /// A task statement, after its keyword.
    pub open spec fn task(self) -> Progress {
        if self.stack.len() != 0 {
            failed(ErrorKind::NestedTask, Seq::empty())
        } else {
            self.push_scope(TokenType::Task).emit("TASK "@).expect(
                TokenType::OpenAngle,
            ).task_kind().expect(TokenType::CloseAngle).expect(TokenType::Identifier).emit(
                " "@,
            ).emit_previous_line().emit_line("{"@)
        }
    }

    /// The routine whose name was just consumed is declared and begun.
    pub open spec fn begin_routine(self) -> Progress {
        let name = self.previous.text;
        let begun = ParserState {
            generator: self.generator.start_routine(name),
            routines: self.routines.push(name),
            ..self
        };
        if name == "Main"@ {
            if self.main_flag {
                failed(ErrorKind::DuplicateMain, Seq::empty())
            } else {
                Progress::Running(ParserState { main_flag: true, ..begun })
            }
        } else {
            Progress::Running(begun)
        }
    }

    /// A routine statement, after its keyword.
    pub open spec fn routine(self) -> Progress {
        if innermost(self.stack, TokenType::Task) {
            self.push_scope(TokenType::Routine).expect(TokenType::Identifier).begin_routine()
        } else {
            failed(ErrorKind::RoutineOutsideTask, Seq::empty())
        }
    }

    /// The rung is begun under the name just consumed.
    pub open spec fn begin_rung(self, name: Seq<char>) -> ParserState {
        ParserState { generator: self.generator.start_rung(name), ..self }
    }

    /// A rung statement, after its keyword.
    pub open spec fn rung(self) -> Progress {
        if innermost(self.stack, TokenType::Routine) {
            let opened = self.push_scope(TokenType::Rung);
            if opened.current.kind == TokenType::Identifier {
                opened.advance().begin_named_rung()
            } else {
                Progress::Running(opened.begin_rung(Seq::empty()))
            }
        } else {
            failed(ErrorKind::RungOutsideRoutine, Seq::empty())
        }
    }

    /// The element of the tag array `name` whose index was just consumed. The
    /// index has to be an integer below the length of the array, however large
    /// it is written.
    pub open spec fn element(self, kind: TokenType, name: Seq<char>, length: nat) -> Progress {
        let index = self.previous.text;
        match decimal_value(index) {
            Some(value) => if value >= length {
                failed(ErrorKind::IndexOutOfBounds, index)
            } else {
                self.generate(kind, name + "."@ + index)
            },
            None => failed(ErrorKind::InvalidNumber, index),
        }
    }

    /// The operand of an instruction, whose name was just consumed.
    ///
    /// Targets of `JSR` and `EMIT` are only recorded here. Any other operand has
    /// to be a declared tag and, if the tag is an array, to carry an index.
    pub open spec fn operand(self, kind: TokenType) -> Progress {
        let target = self.previous.text;
        if kind == TokenType::Jsr {
            ParserState { jumps: self.jumps.push(target), ..self }.generate(kind, target)
        } else if kind == TokenType::Emit {
            ParserState { emitted_events: self.emitted_events.push(target), ..self }.generate(
                kind,
                target,
            )
        } else {
            match lookup(self.tags, target) {
                None => failed(ErrorKind::UndeclaredTag, target),
                Some(length) => if length == 0 {
                    self.generate(kind, target)
                } else {
                    self.expect(TokenType::Indexer).expect(TokenType::Number).element(
                        kind,
                        target,
                        length,
                    )
                },
            }
        }
    }

    /// An instruction statement, after its keyword.
    pub open spec fn instruction(self) -> Progress {
        let kind = self.previous.kind;
        if kind == TokenType::Ret {
            self.generate(kind, Seq::empty())
        } else {
            self.expect(TokenType::Identifier).operand(kind)
        }
    }

    /// `ENDRUNG`, after its keyword.
    pub open spec fn end_rung(self) -> Progress {
        if innermost(self.stack, TokenType::Rung) {
            Progress::Running(
                ParserState {
                    stack: self.stack.drop_last(),
                    generator: self.generator.end_rung(),
                    ..self
                },
            )
        } else {
            failed(ErrorKind::UnmatchedEndRung, Seq::empty())
        }
    }

    /// `ENDROUTINE`, after its keyword.
    pub open spec fn end_routine(self) -> Progress {
        if innermost(self.stack, TokenType::Routine) {
            Progress::Running(
                ParserState {
                    stack: self.stack.drop_last(),
                    generator: self.generator.end_routine(),
                    ..self
                },
            )
        } else {
            failed(ErrorKind::UnmatchedEndRoutine, Seq::empty())
        }
    }

    /// `ENDTASK`, after its keyword: the text of the task's routines goes to the
    /// output, followed by the closing brace.
    pub open spec fn end_task(self) -> Progress {
        if self.stack.len() == 0 {
            failed(ErrorKind::TooManyEnds, Seq::empty())
        } else if self.stack.last() != TokenType::Task {
            failed(ErrorKind::UnmatchedEndTask, Seq::empty())
        } else if !self.main_flag {
            failed(ErrorKind::MissingMain, Seq::empty())
        } else {
            Progress::Running(
                ParserState {
                    stack: self.stack.drop_last(),
                    main_flag: false,
                    generator: GeneratorState::initial(),
                    ..self
                }.emit_line(self.generator.finished_text()).emit_line("}"@),
            )
        }
    }

    /// The length just consumed is an integer that fits in `usize` and is not zero.
    pub open spec fn check_length(self) -> Progress {
        match decimal_value(self.previous.text) {
            Some(length) => if length > usize::MAX {
                failed(ErrorKind::InvalidNumber, self.previous.text)
            } else if length == 0 {
                failed(ErrorKind::EmptyTagArray, Seq::empty())
            } else {
                Progress::Running(self)
            },
            None => failed(ErrorKind::InvalidNumber, self.previous.text),
        }
    }

    /// The tag whose name was just consumed has a name within the limit and is
    /// declared with the given length.
    pub open spec fn declare_tag(self, length: nat) -> Progress {
        let name = self.previous.text;
        if name.len() > TAG_CHARACTER_LIMIT {
            failed(ErrorKind::TagNameTooLong, name)
        } else {
            Progress::Running(ParserState { tags: self.tags.push(TagView { name, length }), ..self })
        }
    }

    /// `TRUE` or `FALSE`, echoed to the output.
    pub open spec fn initial_value(self) -> Progress {
        if self.current.kind == TokenType::True {
            self.expect(TokenType::True).emit_line(" TRUE"@)
        } else {
            self.expect(TokenType::False).emit_line(" FALSE"@)
        }
    }

    /// What follows the keyword and the optional length of a tag statement.
    pub open spec fn tag_declaration(self, length: nat) -> Progress {
        self.expect(TokenType::Identifier).emit_previous().declare_tag(length).expect(
            TokenType::Eq,
        ).initial_value()
    }

    /// `[<number>]` after the keyword of a tag statement, read up to the number.
    pub open spec fn array_length(self) -> Progress {
        self.expect(TokenType::OpenBracket).expect(TokenType::Number).check_length()
    }

    /// A tag statement, after its keyword.
    pub open spec fn tag(self) -> Progress {
        if self.current.kind == TokenType::OpenBracket {
            match self.array_length() {
                Progress::Running(read) => {
                    let length = decimal_value(read.previous.text).unwrap();
                    read.emit("TAG_ARRAY "@).emit(read.previous.text).emit(" "@).expect(
                        TokenType::CloseBracket,
                    ).tag_declaration(length)
                },
                Progress::Failed(failure) => Progress::Failed(failure),
            }
        } else {
            self.emit("TAG "@).tag_declaration(0)
        }
    }

    /// The end-of-line tokens at the current position are consumed.
    ///
    /// The test on the budget makes the definition terminate. It holds wherever
    /// the cursor is within the text.
    pub open spec fn blank_lines(self) -> Progress
        decreases budget(self),
    {
        if self.current.kind == TokenType::NewLine {
            match self.advance() {
                Progress::Running(next) => if 0 <= budget(next) < budget(self) {
                    next.blank_lines()
                } else {
                    Progress::Running(next)
                },
                Progress::Failed(failure) => Progress::Failed(failure),
            }
        } else {
            Progress::Running(self)
        }
    }

    /// One statement without the end of its line.
    pub open spec fn statement_body(self) -> Progress {
        let kind = self.current.kind;
        if kind == TokenType::Task {
            self.advance().task()
        } else if kind == TokenType::Routine {
            self.advance().routine()
        } else if kind == TokenType::Rung {
            self.advance().rung()
        } else if kind == TokenType::Xic || kind == TokenType::Xio || kind == TokenType::Ote
            || kind == TokenType::Otl || kind == TokenType::Otu || kind == TokenType::Jsr || kind
            == TokenType::Ret || kind == TokenType::Emit {
            self.advance().instruction()
        } else if kind == TokenType::EndRung {
            self.advance().end_rung()
        } else if kind == TokenType::EndRoutine {
            self.advance().end_routine()
        } else if kind == TokenType::EndTask {
            self.advance().end_task()
        } else if kind == TokenType::Tag {
            self.advance().tag()
        } else {
            failed(ErrorKind::InvalidStatement, self.current.text)
        }
    }

    /// One statement: its body, one end-of-line token, and the blank lines that
    /// follow.
    #[verifier::opaque]
    pub open spec fn statement(self) -> Progress {
        self.statement_body().expect(TokenType::NewLine).blank_lines()
    }

    /// All statements up to the end of the input.
    ///
    /// The test on the budget makes the definition terminate. It holds wherever
    /// the cursor is within the text, since every statement consumes a token.
    pub open spec fn statements(self) -> Progress
        decreases budget(self),
    {
        if self.current.kind == TokenType::Eof {
            Progress::Running(self)
        } else {
            match self.statement() {
                Progress::Running(next) => if 0 <= budget(next) < budget(self) {
                    next.statements()
                } else {
                    Progress::Running(next)
                },
                Progress::Failed(failure) => Progress::Failed(failure),
            }
        }
    }

    /// The checks that wait for the end of the input: every emitted event belongs
    /// to a task, and every jump leads to a routine. Events are checked first.
    pub open spec fn check_references(self) -> Progress {
        match first_missing(self.emitted_events, self.events, 0) {
            Some(event) => failed(ErrorKind::UndeclaredEvent, event),
            None => match first_missing(self.jumps, self.routines, 0) {
                Some(routine) => failed(ErrorKind::UndeclaredRoutine, routine),
                None => Progress::Running(self),
            },
        }
    }

    /// The whole translation: the statements, then the deferred checks.
    pub open spec fn program(self) -> Progress {
        self.statements().check_references()
    }
}

/// The steps of `ParserState`, for a translation that may have failed already:
/// a running translation takes the step, a failed one stays as it is.
impl Progress {
    pub open spec fn advance(self) -> Progress {
        match self {
            Progress::Running(state) => state.advance(),
            Progress::Failed(failure) => Progress::Failed(failure),
        }
    }

    pub open spec fn expect(self, kind: TokenType) -> Progress {
        match self {
            Progress::Running(state) => state.expect(kind),
            Progress::Failed(failure) => Progress::Failed(failure),
        }
    }

    pub open spec fn emit(self, text: Seq<char>) -> Progress {
        match self {
            Progress::Running(state) => Progress::Running(state.emit(text)),
            Progress::Failed(failure) => Progress::Failed(failure),
        }
    }

    pub open spec fn emit_line(self, text: Seq<char>) -> Progress {
        match self {
            Progress::Running(state) => Progress::Running(state.emit_line(text)),
            Progress::Failed(failure) => Progress::Failed(failure),
        }
    }

    /// Appends the text of the token consumed last to the output.
    pub open spec fn emit_previous(self) -> Progress {
        match self {
            Progress::Running(state) => Progress::Running(state.emit(state.previous.text)),
            Progress::Failed(failure) => Progress::Failed(failure),
        }
    }

    /// Appends the text of the token consumed last, and a line terminator, to the
    /// output.
    pub open spec fn emit_previous_line(self) -> Progress {
        match self {
            Progress::Running(state) => Progress::Running(state.emit_line(state.previous.text)),
            Progress::Failed(failure) => Progress::Failed(failure),
        }
    }

    /// The event whose name was just consumed counts as declared.
    pub open spec fn declare_event(self) -> Progress {
        match self {
            Progress::Running(state) => Progress::Running(
                ParserState { events: state.events.push(state.previous.text), ..state },
            ),
            Progress::Failed(failure) => Progress::Failed(failure),
        }
    }

    pub open spec fn check_period(self) -> Progress {
        match self {
            Progress::Running(state) => state.check_period(),
            Progress::Failed(failure) => Progress::Failed(failure),
        }
    }

    pub open spec fn check_length(self) -> Progress {
        match self {
            Progress::Running(state) => state.check_length(),
            Progress::Failed(failure) => Progress::Failed(failure),
        }
    }

    pub open spec fn task_kind(self) -> Progress {
        match self {
            Progress::Running(state) => state.task_kind(),
            Progress::Failed(failure) => Progress::Failed(failure),
        }
    }

    pub open spec fn task(self) -> Progress {
        match self {
            Progress::Running(state) => state.task(),
            Progress::Failed(failure) => Progress::Failed(failure),
        }
    }

    pub open spec fn begin_routine(self) -> Progress {
        match self {
            Progress::Running(state) => state.begin_routine(),
            Progress::Failed(failure) => Progress::Failed(failure),
        }
    }

    pub open spec fn routine(self) -> Progress {
        match self {
            Progress::Running(state) => state.routine(),
            Progress::Failed(failure) => Progress::Failed(failure),
        }
    }

    /// The rung is begun under the name just consumed.
    pub open spec fn begin_named_rung(self) -> Progress {
        match self {
            Progress::Running(state) => Progress::Running(state.begin_rung(state.previous.text)),
            Progress::Failed(failure) => Progress::Failed(failure),
        }
    }

    pub open spec fn rung(self) -> Progress {
        match self {
            Progress::Running(state) => state.rung(),
            Progress::Failed(failure) => Progress::Failed(failure),
        }
    }

    pub open spec fn element(self, kind: TokenType, name: Seq<char>, length: nat) -> Progress {
        match self {
            Progress::Running(state) => state.element(kind, name, length),
            Progress::Failed(failure) => Progress::Failed(failure),
        }
    }

    pub open spec fn operand(self, kind: TokenType) -> Progress {
        match self {
            Progress::Running(state) => state.operand(kind),
            Progress::Failed(failure) => Progress::Failed(failure),
        }
    }

    pub open spec fn instruction(self) -> Progress {
        match self {
            Progress::Running(state) => state.instruction(),
            Progress::Failed(failure) => Progress::Failed(failure),
        }
    }

    pub open spec fn end_rung(self) -> Progress {
        match self {
            Progress::Running(state) => state.end_rung(),
            Progress::Failed(failure) => Progress::Failed(failure),
        }
    }

    pub open spec fn end_routine(self) -> Progress {
        match self {
            Progress::Running(state) => state.end_routine(),
            Progress::Failed(failure) => Progress::Failed(failure),
        }
    }

    pub open spec fn end_task(self) -> Progress {
        match self {
            Progress::Running(state) => state.end_task(),
            Progress::Failed(failure) => Progress::Failed(failure),
        }
    }

    pub open spec fn declare_tag(self, length: nat) -> Progress {
        match self {
            Progress::Running(state) => state.declare_tag(length),
            Progress::Failed(failure) => Progress::Failed(failure),
        }
    }

    pub open spec fn initial_value(self) -> Progress {
        match self {
            Progress::Running(state) => state.initial_value(),
            Progress::Failed(failure) => Progress::Failed(failure),
        }
    }

    pub open spec fn tag_declaration(self, length: nat) -> Progress {
        match self {
            Progress::Running(state) => state.tag_declaration(length),
            Progress::Failed(failure) => Progress::Failed(failure),
        }
    }

    pub open spec fn tag(self) -> Progress {
        match self {
            Progress::Running(state) => state.tag(),
            Progress::Failed(failure) => Progress::Failed(failure),
        }
    }

    pub open spec fn blank_lines(self) -> Progress {
        match self {
            Progress::Running(state) => state.blank_lines(),
            Progress::Failed(failure) => Progress::Failed(failure),
        }
    }

    pub open spec fn check_references(self) -> Progress {
        match self {
            Progress::Running(state) => state.check_references(),
            Progress::Failed(failure) => Progress::Failed(failure),
        }
    }
}

} // verus!
