//! The parser: recognises the statements of the source text, keeps the symbol
//! tables and the scope stack, and drives the rung translator and the emitter.

use crate::code_generation::CodeGenerator;
use crate::emitter::Emitter;
use crate::error::{CompileError, ErrorKind};
use crate::lexer::{Lexer, Token, TokenType};
use crate::semantics::{
    budget, first_missing, lemma_open_routines_bound, lemma_open_routines_push, lookup,
    lookup_from, open_routines, ParserState, Progress, TagView, PERIOD_LOWER_BOUND,
    TAG_CHARACTER_LIMIT,
};
use crate::text::{
    contains_text, decimal_value, is_decimal_integer, lemma_texts_push, parse_number, same_text,
    texts, whole_value_below,
};
use vstd::prelude::*;
use vstd::string::*;

verus! {

/// A declared tag: a scalar if `length` is zero, else an array of that length.
struct TagDescriptor {
    name: String,
    length: usize,
}

/// The mathematical content of a list of tag descriptors.
spec fn tag_views(tags: Seq<TagDescriptor>) -> Seq<TagView> {
    Seq::new(tags.len(), |i: int| TagView { name: tags[i].name@, length: tags[i].length as nat })
}

/// How a step of the parser went, held against what the grammar says of it: on
/// success the parser is in the state that the grammar gives, on failure it
/// reports the failure that the grammar gives. Either way no token came back.
pub open spec fn outcome(
    before: ParserState,
    expected: Progress,
    result: Result<(), CompileError>,
    after: ParserState,
) -> bool {
    &&& budget(after) <= budget(before)
    &&& match expected {
        Progress::Running(state) => result is Ok && after == state,
        Progress::Failed(failure) => result is Err && result->Err_0@ == failure,
    }
}

/// Whether a step left the rung translator and the output text as they were.
pub open spec fn untouched(before: ParserState, after: ParserState) -> bool {
    after.generator == before.generator && after.output == before.output
}

/// Translates one source text.
pub struct Parser<'a> {
    lexer: Lexer,
    emitter: Emitter<'a>,
    code_generator: CodeGenerator,
    tags: Vec<TagDescriptor>,
    routines: Vec<String>,
    jumps: Vec<String>,
    events: Vec<String>,
    emitted_events: Vec<String>,
    stack: Vec<TokenType>,
    main_flag: bool,
    previous_token: Token,
    current_token: Token,
    peek_token: Token,
}

impl<'a> View for Parser<'a> {
    type V = ParserState;

    closed spec fn view(&self) -> ParserState {
        ParserState {
            source: self.lexer@.source,
            position: self.lexer@.position,
            previous: self.previous_token@,
            current: self.current_token@,
            peek: self.peek_token@,
            tags: tag_views(self.tags@),
            routines: texts(self.routines@),
            jumps: texts(self.jumps@),
            events: texts(self.events@),
            emitted_events: texts(self.emitted_events@),
            stack: self.stack@,
            main_flag: self.main_flag,
            generator: self.code_generator@,
            path: self.emitter@.path,
            output: self.emitter@.code,
        }
    }
}

/// The index of the first of `names` that is not among `declared`.
fn first_undeclared(names: &Vec<String>, declared: &Vec<String>) -> (r: Option<usize>)
    ensures
        match r {
            Some(i) => i < names.len() && first_missing(texts(names@), texts(declared@), 0)
                == Some(names[i as int]@),
            None => first_missing(texts(names@), texts(declared@), 0) is None,
        },
{
    let mut i: usize = 0;
    while i < names.len()
        invariant
            i <= names.len(),
            first_missing(texts(names@), texts(declared@), 0) == first_missing(
                texts(names@),
                texts(declared@),
                i as int,
            ),
        decreases names.len() - i,
    {
        if !contains_text(declared, names[i].as_str()) {
            return Some(i);
        }
        i += 1;
    }
    None
}

impl<'a> Parser<'a> {
    /// The invariant of a parser: its tokenizer is well formed, and the counters
    /// of the rung translator are bounded by what was opened and read.
    pub closed spec fn wf(&self) -> bool {
        &&& self.lexer.wf()
        &&& self@.generator.indentation <= open_routines(self@.stack)
        &&& self@.generator.rung_number + budget(self@) <= self@.source.len()
    }

    /// A well-formed parser has read no further than its text goes.
    pub proof fn lemma_budget_nonnegative(&self)
        requires
            self.wf(),
        ensures
            self@.in_text(),
            0 <= budget(self@),
    {
        self.lexer.lemma_cursor_in_text();
    }

    /// A parser for the text of `lexer` that writes to `emitter`, with the first
    /// two tokens read. Fails where one of them cannot be read.
    pub fn new(lexer: Lexer, emitter: Emitter<'a>) -> (r: Result<Parser<'a>, CompileError>)
        requires
            lexer.wf(),
        ensures
            match ParserState::start(lexer@, emitter@) {
                Progress::Running(state) => r is Ok && r->Ok_0@ == state && r->Ok_0.wf(),
                Progress::Failed(failure) => r is Err && r->Err_0@ == failure,
            },
    {
        let mut parser = Parser {
            lexer,
            emitter,
            code_generator: CodeGenerator::new(),
            tags: Vec::new(),
            routines: Vec::new(),
            jumps: Vec::new(),
            events: Vec::new(),
            emitted_events: Vec::new(),
            stack: Vec::new(),
            main_flag: false,
            previous_token: Token::default(),
            current_token: Token::default(),
            peek_token: Token::default(),
        };
        proof {
            lexer.lemma_cursor_in_text();
            assert(tag_views(parser.tags@) =~= Seq::<TagView>::empty());
            assert(texts(parser.routines@) =~= Seq::<Seq<char>>::empty());
            assert(texts(parser.jumps@) =~= Seq::<Seq<char>>::empty());
            assert(texts(parser.events@) =~= Seq::<Seq<char>>::empty());
            assert(texts(parser.emitted_events@) =~= Seq::<Seq<char>>::empty());
            assert(parser@ == ParserState::initial(lexer@, emitter@));
        }
        parser.next_token()?;
        parser.next_token()?;
        Ok(parser)
    }

    /// The output text so far.
    pub fn output(&self) -> (text: &str)
        ensures
            text@ == self@.output,
    {
        self.emitter.code()
    }

    /// The emitter, with the output text so far and its destination.
    pub fn emitter(&self) -> (emitter: &Emitter<'a>)
        ensures
            emitter@.code == self@.output,
            emitter@.path == self@.path,
    {
        &self.emitter
    }

    /// Opens a scope without reading anything.
    pub fn open_scope(&mut self, scope: TokenType)
        requires
            old(self).wf(),
        ensures
            final(self).wf(),
            final(self)@ == old(self)@.push_scope(scope),
    {
        proof {
            lemma_open_routines_push(self.stack@, scope);
        }
        self.stack.push(scope);
    }

    /// Declares a tag without reading anything.
    pub fn add_tag(&mut self, name: &str, length: usize)
        requires
            old(self).wf(),
        ensures
            final(self).wf(),
            final(self)@ == (ParserState {
                tags: old(self)@.tags.push(TagView { name: name@, length: length as nat }),
                ..old(self)@
            }),
    {
        let tag = TagDescriptor { name: String::from_str(name), length };
        proof {
            assert(tag_views(self.tags@.push(tag)) =~= tag_views(self.tags@).push(
                TagView { name: name@, length: length as nat },
            ));
        }
        self.tags.push(tag);
    }

    /// Declares a routine without reading anything.
    pub fn add_routine(&mut self, name: &str)
        requires
            old(self).wf(),
        ensures
            final(self).wf(),
            final(self)@ == (ParserState {
                routines: old(self)@.routines.push(name@),
                ..old(self)@
            }),
    {
        let name = String::from_str(name);
        proof {
            lemma_texts_push(self.routines@, name);
        }
        self.routines.push(name);
    }

    /// Declares an event without reading anything.
    pub fn add_event(&mut self, name: &str)
        requires
            old(self).wf(),
        ensures
            final(self).wf(),
            final(self)@ == (ParserState { events: old(self)@.events.push(name@), ..old(self)@ }),
    {
        let name = String::from_str(name);
        proof {
            lemma_texts_push(self.events@, name);
        }
        self.events.push(name);
    }

    fn check_token(&self, token_type: TokenType) -> (r: bool)
        ensures
            r == (self@.current.kind == token_type),
    {
        token_type == *self.current_token.get_type()
    }

    fn next_token(&mut self) -> (r: Result<(), CompileError>)
        requires
            old(self).wf(),
        ensures
            final(self).wf(),
            outcome(old(self)@, old(self)@.advance(), r, final(self)@),
            r is Err ==> untouched(old(self)@, final(self)@),
            r is Ok && old(self)@.current.kind != TokenType::Eof ==> budget(final(self)@) < budget(
                old(self)@,
            ),
    {
        let token = self.lexer.get_token()?;
        core::mem::swap(&mut self.previous_token, &mut self.current_token);
        core::mem::swap(&mut self.current_token, &mut self.peek_token);
        self.peek_token = token;
        Ok(())
    }

    fn match_token(&mut self, token_type: TokenType) -> (r: Result<(), CompileError>)
        requires
            old(self).wf(),
        ensures
            final(self).wf(),
            outcome(old(self)@, old(self)@.expect(token_type), r, final(self)@),
            r is Err ==> untouched(old(self)@, final(self)@),
            r is Ok && token_type != TokenType::Eof ==> budget(final(self)@) < budget(old(self)@),
    {
        if !self.check_token(token_type) {
            return Err(
                CompileError::new(
                    ErrorKind::UnexpectedToken(token_type),
                    self.current_token.get_text(),
                ),
            );
        }
        self.next_token()
    }
    /// The length under which `name` was declared first.
    fn find_tag(&self, name: &str) -> (r: Option<usize>)
        ensures
            match r {
                Some(length) => lookup(self@.tags, name@) == Some(length as nat),
                None => lookup(self@.tags, name@) is None,
            },
    {
        let mut i: usize = 0;
        while i < self.tags.len()
            invariant
                i <= self.tags.len(),
                lookup(tag_views(self.tags@), name@) == lookup_from(
                    tag_views(self.tags@),
                    name@,
                    i as int,
                ),
            decreases self.tags.len() - i,
        {
            if same_text(self.tags[i].name.as_str(), name) {
                return Some(self.tags[i].length);
            }
            i += 1;
        }
        None
    }

    /// Whether the innermost open scope is of the given kind.
    fn inside(&self, scope: TokenType) -> (r: bool)
        ensures
            r == crate::semantics::innermost(self@.stack, scope),
    {
        self.stack.len() > 0 && self.stack[self.stack.len() - 1] == scope
    }

    /// Hands an instruction to the rung translator.
    fn generate(&mut self, kind: TokenType, target: &str) -> (r: Result<(), CompileError>)
        requires
            old(self).wf(),
        ensures
            final(self).wf(),
            outcome(old(self)@, old(self)@.generate(kind, target@), r, final(self)@),
            r is Err ==> untouched(old(self)@, final(self)@),
    {
        self.code_generator.add_instruction(kind, target)
    }

    /// Translates the whole text. On success the output text is complete; a
    /// failure is the first one that the text holds.
    pub fn program(&mut self) -> (r: Result<(), CompileError>)
        requires
            old(self).wf(),
        ensures
            final(self).wf(),
            outcome(old(self)@, old(self)@.program(), r, final(self)@),
    {
        let ghost start = self@;
        while !self.check_token(TokenType::Eof)
            invariant
                self.wf(),
                start == old(self)@,
                budget(self@) <= budget(start),
                self@.statements() == start.statements(),
            decreases budget(self@),
        {
            proof {
                self.lemma_budget_nonnegative();
            }
            let step = self.statement();
            proof {
                self.lemma_budget_nonnegative();
            }
            match step {
                Err(e) => {
                    return Err(e);
                },
                Ok(()) => {},
            }
        }
        match first_undeclared(&self.emitted_events, &self.events) {
            Some(i) => {
                return Err(
                    CompileError::new(ErrorKind::UndeclaredEvent, self.emitted_events[i].as_str()),
                );
            },
            None => {},
        }
        match first_undeclared(&self.jumps, &self.routines) {
            Some(i) => {
                return Err(
                    CompileError::new(ErrorKind::UndeclaredRoutine, self.jumps[i].as_str()),
                );
            },
            None => {},
        }
        Ok(())
    }

    fn statement(&mut self) -> (r: Result<(), CompileError>)
        requires
            old(self).wf(),
        ensures
            final(self).wf(),
            outcome(old(self)@, old(self)@.statement(), r, final(self)@),
            r is Ok ==> budget(final(self)@) < budget(old(self)@),
    {
        proof {
            reveal(ParserState::statement);
        }
        let kind = *self.current_token.get_type();
        match kind {
            TokenType::Task => {
                self.next_token()?;
                self.task()?;
            },
            TokenType::Routine => {
                self.next_token()?;
                self.routine()?;
            },
            TokenType::Rung => {
                self.next_token()?;
                self.rung()?;
            },
            TokenType::Xic | TokenType::Xio | TokenType::Ote | TokenType::Otl | TokenType::Otu
            | TokenType::Jsr | TokenType::Ret | TokenType::Emit => {
                self.next_token()?;
                self.instruction()?;
            },
            TokenType::EndRung => {
                self.next_token()?;
                self.end_rung()?;
            },
            TokenType::EndRoutine => {
                self.next_token()?;
                self.end_routine()?;
            },
            TokenType::EndTask => {
                self.next_token()?;
                self.end_task()?;
            },
            TokenType::Tag => {
                self.next_token()?;
                self.tag()?;
            },
            _ => {
                return Err(
                    CompileError::new(ErrorKind::InvalidStatement, self.current_token.get_text()),
                );
            },
        }
        self.new_line()
    }

    fn task(&mut self) -> (r: Result<(), CompileError>)
        requires
            old(self).wf(),
        ensures
            final(self).wf(),
            outcome(old(self)@, old(self)@.task(), r, final(self)@),
    {
        if self.stack.len() != 0 {
            return Err(CompileError::bare(ErrorKind::NestedTask));
        }
        proof {
            lemma_open_routines_push(self.stack@, TokenType::Task);
        }
        self.stack.push(TokenType::Task);
        self.emitter.emit("TASK ");

        self.task_type()?;
        self.match_token(TokenType::Identifier)?;
        self.emitter.emit(" ");
        self.emitter.emit_line(self.previous_token.get_text());
        self.emitter.emit_line("{");
        Ok(())
    }

    fn task_type(&mut self) -> (r: Result<(), CompileError>)
        requires
            old(self).wf(),
        ensures
            final(self).wf(),
            outcome(
                old(self)@,
                old(self)@.expect(TokenType::OpenAngle).task_kind().expect(TokenType::CloseAngle),
                r,
                final(self)@,
            ),
    {
        self.match_token(TokenType::OpenAngle)?;
        if self.check_token(TokenType::Period) {
            self.period_type()?;
        } else if self.check_token(TokenType::Event) {
            self.event_type()?;
        } else if self.check_token(TokenType::Continuous) {
            self.match_token(TokenType::Continuous)?;
        } else {
            return Err(
                CompileError::new(ErrorKind::InvalidTaskType, self.current_token.get_text()),
            );
        }
        self.match_token(TokenType::CloseAngle)
    }

    fn period_type(&mut self) -> (r: Result<(), CompileError>)
        requires
            old(self).wf(),
        ensures
            final(self).wf(),
            outcome(old(self)@, old(self)@.period_type(), r, final(self)@),
    {
        self.match_token(TokenType::Period)?;
        self.emitter.emit("PERIOD ");
        self.match_token(TokenType::Eq)?;
        self.match_token(TokenType::Number)?;
        self.emitter.emit(self.previous_token.get_text());

        if whole_value_below(self.previous_token.get_text(), PERIOD_LOWER_BOUND as usize) {
            return Err(
                CompileError::new(ErrorKind::PeriodTooShort, self.previous_token.get_text()),
            );
        }
        Ok(())
    }

    fn event_type(&mut self) -> (r: Result<(), CompileError>)
        requires
            old(self).wf(),
        ensures
            final(self).wf(),
            outcome(old(self)@, old(self)@.event_type(), r, final(self)@),
    {
        self.match_token(TokenType::Event)?;
        self.emitter.emit("EVENT ");
        self.match_token(TokenType::Eq)?;
        self.match_token(TokenType::Identifier)?;
        self.emitter.emit(self.previous_token.get_text());

        let name = String::from_str(self.previous_token.get_text());
        proof {
            lemma_texts_push(self.events@, name);
        }
        self.events.push(name);
        Ok(())
    }

    fn routine(&mut self) -> (r: Result<(), CompileError>)
        requires
            old(self).wf(),
        ensures
            final(self).wf(),
            outcome(old(self)@, old(self)@.routine(), r, final(self)@),
    {
        if !self.inside(TokenType::Task) {
            return Err(CompileError::bare(ErrorKind::RoutineOutsideTask));
        }
        proof {
            lemma_open_routines_push(self.stack@, TokenType::Routine);
            lemma_open_routines_bound(self.stack@);
        }
        self.stack.push(TokenType::Routine);
        proof {
            assert(self.stack@.len() == self.stack.len());
        }
        self.match_token(TokenType::Identifier)?;
        self.code_generator.start_routine(self.previous_token.get_text());

        if same_text(self.previous_token.get_text(), "Main") {
            if self.main_flag {
                return Err(CompileError::bare(ErrorKind::DuplicateMain));
            } else {
                self.main_flag = true;
            }
        }
        let name = String::from_str(self.previous_token.get_text());
        proof {
            lemma_texts_push(self.routines@, name);
        }
        self.routines.push(name);
        Ok(())
    }

    fn rung(&mut self) -> (r: Result<(), CompileError>)
        requires
            old(self).wf(),
            old(self)@.generator.rung_number + budget(old(self)@) < old(self)@.source.len(),
        ensures
            final(self).wf(),
            outcome(old(self)@, old(self)@.rung(), r, final(self)@),
    {
        if !self.inside(TokenType::Routine) {
            return Err(CompileError::bare(ErrorKind::RungOutsideRoutine));
        }
        proof {
            lemma_open_routines_push(self.stack@, TokenType::Rung);
            self.lemma_budget_nonnegative();
            self.lexer.lemma_cursor_in_text();
        }
        self.stack.push(TokenType::Rung);

        if self.check_token(TokenType::Identifier) {
            self.next_token()?;
            proof {
                self.lemma_budget_nonnegative();
            }
            self.code_generator.start_rung(self.previous_token.get_text());
        } else {
            proof {
                reveal_strlit("");
                assert(""@ =~= Seq::<char>::empty());
            }
            self.code_generator.start_rung("");
        }
        Ok(())
    }

    fn instruction(&mut self) -> (r: Result<(), CompileError>)
        requires
            old(self).wf(),
        ensures
            final(self).wf(),
            outcome(old(self)@, old(self)@.instruction(), r, final(self)@),
            r is Err ==> untouched(old(self)@, final(self)@),
    {
        let instruction_type = *self.previous_token.get_type();
        if instruction_type == TokenType::Ret {
            proof {
                reveal_strlit("");
                assert(""@ =~= Seq::<char>::empty());
            }
            return self.generate(instruction_type, "");
        }
        self.match_token(TokenType::Identifier)?;
        let mut target = String::from_str(self.previous_token.get_text());

        if instruction_type == TokenType::Jsr {
            let jump = target.clone();
            proof {
                lemma_texts_push(self.jumps@, jump);
            }
            self.jumps.push(jump);
        } else if instruction_type == TokenType::Emit {
            let event = target.clone();
            proof {
                lemma_texts_push(self.emitted_events@, event);
            }
            self.emitted_events.push(event);
        } else {
            match self.find_tag(target.as_str()) {
                None => {
                    return Err(CompileError::new(ErrorKind::UndeclaredTag, target.as_str()));
                },
                Some(length) => {
                    if length != 0 {
                        self.match_token(TokenType::Indexer)?;
                        self.match_token(TokenType::Number)?;
                        target.append(".");
                        target.append(self.previous_token.get_text());
                        if !is_decimal_integer(self.previous_token.get_text()) {
                            return Err(
                                CompileError::new(
                                    ErrorKind::InvalidNumber,
                                    self.previous_token.get_text(),
                                ),
                            );
                        }
                        if parse_number(self.previous_token.get_text(), length - 1).is_none() {
                            return Err(
                                CompileError::new(
                                    ErrorKind::IndexOutOfBounds,
                                    self.previous_token.get_text(),
                                ),
                            );
                        }
                    }
                },
            }
        }
        self.generate(instruction_type, target.as_str())
    }

    fn end_rung(&mut self) -> (r: Result<(), CompileError>)
        requires
            old(self).wf(),
        ensures
            final(self).wf(),
            outcome(old(self)@, old(self)@.end_rung(), r, final(self)@),
            r is Err ==> final(self)@ == old(self)@,
    {
        if !self.inside(TokenType::Rung) {
            return Err(CompileError::bare(ErrorKind::UnmatchedEndRung));
        }
        self.stack.pop();
        self.code_generator.end_rung();
        Ok(())
    }

    fn end_routine(&mut self) -> (r: Result<(), CompileError>)
        requires
            old(self).wf(),
        ensures
            final(self).wf(),
            outcome(old(self)@, old(self)@.end_routine(), r, final(self)@),
            r is Err ==> final(self)@ == old(self)@,
    {
        if !self.inside(TokenType::Routine) {
            return Err(CompileError::bare(ErrorKind::UnmatchedEndRoutine));
        }
        self.stack.pop();
        self.code_generator.end_routine();
        Ok(())
    }

    fn end_task(&mut self) -> (r: Result<(), CompileError>)
        requires
            old(self).wf(),
        ensures
            final(self).wf(),
            outcome(old(self)@, old(self)@.end_task(), r, final(self)@),
            r is Err ==> final(self)@ == old(self)@,
    {
        if self.stack.len() == 0 {
            return Err(CompileError::bare(ErrorKind::TooManyEnds));
        }
        if !self.inside(TokenType::Task) {
            return Err(CompileError::bare(ErrorKind::UnmatchedEndTask));
        }
        if !self.main_flag {
            return Err(CompileError::bare(ErrorKind::MissingMain));
        }
        self.stack.pop();
        self.main_flag = false;

        let text = self.code_generator.finish_code_block();
        self.emitter.emit_line(text.as_str());
        self.emitter.emit_line("}");
        Ok(())
    }

    fn tag(&mut self) -> (r: Result<(), CompileError>)
        requires
            old(self).wf(),
        ensures
            final(self).wf(),
            outcome(old(self)@, old(self)@.tag(), r, final(self)@),
    {
        let mut length: usize = 0;
        if self.check_token(TokenType::OpenBracket) {
            length = self.tag_array()?;
        } else {
            self.emitter.emit("TAG ");
        }
        self.match_token(TokenType::Identifier)?;
        self.emitter.emit(self.previous_token.get_text());

        if self.previous_token.get_text().unicode_len() > TAG_CHARACTER_LIMIT {
            return Err(
                CompileError::new(ErrorKind::TagNameTooLong, self.previous_token.get_text()),
            );
        }
        self.add_tag_named_last(length);
        self.match_token(TokenType::Eq)?;

        if self.check_token(TokenType::True) {
            self.match_token(TokenType::True)?;
            self.emitter.emit_line(" TRUE");
        } else {
            self.match_token(TokenType::False)?;
            self.emitter.emit_line(" FALSE");
        }
        Ok(())
    }

    /// Declares the tag whose name was consumed last.
    fn add_tag_named_last(&mut self, length: usize)
        requires
            old(self).wf(),
        ensures
            final(self).wf(),
            final(self)@ == (ParserState {
                tags: old(self)@.tags.push(
                    TagView { name: old(self)@.previous.text, length: length as nat },
                ),
                ..old(self)@
            }),
    {
        let tag = TagDescriptor { name: String::from_str(self.previous_token.get_text()), length };
        proof {
            assert(tag_views(self.tags@.push(tag)) =~= tag_views(self.tags@).push(
                TagView { name: self@.previous.text, length: length as nat },
            ));
        }
        self.tags.push(tag);
    }

    fn tag_array(&mut self) -> (r: Result<usize, CompileError>)
        requires
            old(self).wf(),
        ensures
            final(self).wf(),
            budget(final(self)@) <= budget(old(self)@),
            match old(self)@.array_length() {
                Progress::Running(read) => match read.emit("TAG_ARRAY "@).emit(
                    read.previous.text,
                ).emit(" "@).expect(TokenType::CloseBracket) {
                    Progress::Running(state) => r is Ok && final(self)@ == state
                        && decimal_value(read.previous.text) == Some(r->Ok_0 as nat),
                    Progress::Failed(failure) => r is Err && r->Err_0@ == failure,
                },
                Progress::Failed(failure) => r is Err && r->Err_0@ == failure,
            },
    {
        self.match_token(TokenType::OpenBracket)?;
        self.match_token(TokenType::Number)?;

        let length = match parse_number(self.previous_token.get_text(), usize::MAX) {
            Some(length) => length,
            None => {
                return Err(
                    CompileError::new(ErrorKind::InvalidNumber, self.previous_token.get_text()),
                );
            },
        };
        if length == 0 {
            return Err(CompileError::bare(ErrorKind::EmptyTagArray));
        }
        self.emitter.emit("TAG_ARRAY ");
        self.emitter.emit(self.previous_token.get_text());
        self.emitter.emit(" ");

        self.match_token(TokenType::CloseBracket)?;
        Ok(length)
    }

    fn new_line(&mut self) -> (r: Result<(), CompileError>)
        requires
            old(self).wf(),
        ensures
            final(self).wf(),
            outcome(
                old(self)@,
                old(self)@.expect(TokenType::NewLine).blank_lines(),
                r,
                final(self)@,
            ),
            r is Ok ==> budget(final(self)@) < budget(old(self)@),
    {
        self.match_token(TokenType::NewLine)?;
        let ghost start = self@;
        while self.check_token(TokenType::NewLine)
            invariant
                self.wf(),
                old(self)@.expect(TokenType::NewLine) == Progress::Running(start),
                budget(start) < budget(old(self)@),
                budget(self@) <= budget(start),
                self@.blank_lines() == start.blank_lines(),
            decreases budget(self@),
        {
            proof {
                self.lemma_budget_nonnegative();
            }
            let step = self.next_token();
            proof {
                self.lemma_budget_nonnegative();
            }
            match step {
                Err(e) => {
                    return Err(e);
                },
                Ok(()) => {},
            }
        }
        Ok(())
    }
}

} // verus!
