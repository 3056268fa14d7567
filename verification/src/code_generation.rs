//! The rung translator: instruction events to statements of the target text.
//!
//! Every rung becomes an entry variable that starts true, one and-assignment per
//! contact instruction, and, where the rung has outputs, a block guarded by the
//! entry variable with an optional `else` branch.

use crate::error::{CompileError, ErrorKind, Failure};
use crate::lexer::TokenType;
use crate::text::{decimal, lemma_texts_push, push_decimal, texts};
use vstd::prelude::*;
use vstd::string::*;

verus! {

/// Contact instructions test a tag.
pub open spec fn is_input(kind: TokenType) -> bool {
    kind == TokenType::Xic || kind == TokenType::Xio
}

/// Output instructions act when the rung is true (and, for `OTE`, when it is
/// false).
pub open spec fn is_output(kind: TokenType) -> bool {
    kind == TokenType::Ote || kind == TokenType::Otl || kind == TokenType::Otu || kind
        == TokenType::Jsr || kind == TokenType::Ret || kind == TokenType::Emit
}

/// The leading tabs of a line at the given depth.
pub open spec fn indent(level: nat) -> Seq<char> {
    Seq::new(level, |i: int| '\t')
}

/// One line of target text: tabs, the statement, the line terminator.
pub open spec fn line(level: nat, statement: Seq<char>) -> Seq<char> {
    (indent(level) + statement).push('\n')
}

/// The lines of `statements`, in order, all at the given depth.
pub open spec fn block(level: nat, statements: Seq<Seq<char>>) -> Seq<char>
    decreases statements.len(),
{
    if statements.len() == 0 {
        Seq::empty()
    } else {
        block(level, statements.drop_last()) + line(level, statements.last())
    }
}

/// The name of the entry variable of a rung: after its own name if it has one,
/// else after its number within the routine.
pub open spec fn entry_variable(rung_name: Seq<char>, rung_number: nat) -> Seq<char> {
    if rung_name.len() == 0 {
        "rung_"@ + decimal(rung_number) + "_entry"@
    } else {
        "rung_"@ + rung_name + "_entry"@
    }
}

/// The statement that an output instruction runs while its rung is true.
pub open spec fn true_statement(kind: TokenType, target: Seq<char>) -> Seq<char>
    recommends
        is_output(kind),
{
    if kind == TokenType::Ret {
        "return"@
    } else if kind == TokenType::Jsr {
        target + "()"@
    } else if kind == TokenType::Otu {
        target + " = False"@
    } else if kind == TokenType::Emit {
        "EmitEvent('"@ + target + "')"@
    } else {
        target + " = True"@
    }
}

/// The mathematical content of a rung translator.
pub struct GeneratorState {
    /// The target text rendered so far.
    pub code: Seq<char>,
    /// The depth at which the next line is written.
    pub indentation: nat,
    /// The entry variable of the rung that was started last.
    pub rung_name: Seq<char>,
    /// The number of rungs started in the routine so far.
    pub rung_number: nat,
    /// Whether the current rung has an output instruction already.
    pub output_seen: bool,
    /// The statements to run while the rung is true, in order of appearance.
    pub if_true: Seq<Seq<char>>,
    /// The statements to run while the rung is false, in order of appearance.
    pub if_false: Seq<Seq<char>>,
}

impl GeneratorState {
    /// The state of a new translator.
    pub open spec fn initial() -> GeneratorState {
        GeneratorState {
            code: Seq::empty(),
            indentation: 0,
            rung_name: Seq::empty(),
            rung_number: 0,
            output_seen: false,
            if_true: Seq::empty(),
            if_false: Seq::empty(),
        }
    }

    /// Writes one statement as a line at the current depth.
    pub open spec fn emit(self, statement: Seq<char>) -> GeneratorState {
        GeneratorState { code: self.code + line(self.indentation, statement), ..self }
    }

    /// Opens the definition of a routine.
    pub open spec fn start_routine(self, name: Seq<char>) -> GeneratorState {
        let header = self.emit("def "@ + name + "():"@);
        GeneratorState { indentation: self.indentation + 1, ..header }
    }

    /// Closes the definition of a routine; one without rungs gets a placeholder
    /// statement as its body.
    pub open spec fn end_routine(self) -> GeneratorState {
        let body = if self.rung_number == 0 {
            self.emit("pass"@)
        } else {
            self
        };
        GeneratorState {
            indentation: if self.indentation > 0 {
                (self.indentation - 1) as nat
            } else {
                0
            },
            rung_number: 0,
            ..body
        }
    }

    /// Opens a rung: its entry variable is named, set to true, and made current.
    pub open spec fn start_rung(self, name: Seq<char>) -> GeneratorState {
        let variable = entry_variable(name, self.rung_number);
        GeneratorState {
            rung_name: variable,
            rung_number: self.rung_number + 1,
            output_seen: false,
            ..self.emit(variable + " = True"@)
        }
    }

    /// The text of the guarded block that closes the current rung.
    pub open spec fn conditional(self) -> Seq<char> {
        let when_true = if self.if_true.len() > 0 {
            line(self.indentation, "if "@ + self.rung_name + ":"@) + block(
                self.indentation + 1,
                self.if_true,
            )
        } else {
            Seq::empty()
        };
        let when_false = if self.if_false.len() > 0 {
            line(self.indentation, "else:"@) + block(self.indentation + 1, self.if_false)
        } else {
            Seq::empty()
        };
        when_true + when_false
    }

    /// Closes a rung: the pending statements are written, in the order in which
    /// their instructions came, and forgotten.
    pub open spec fn end_rung(self) -> GeneratorState {
        GeneratorState {
            code: self.code + self.conditional(),
            output_seen: false,
            if_true: Seq::empty(),
            if_false: Seq::empty(),
            ..self
        }
    }

    /// Adds a contact instruction to the current rung.
    pub open spec fn add_input(self, kind: TokenType, target: Seq<char>) -> Result<
        GeneratorState,
        Failure,
    > {
        if self.output_seen {
            Err(Failure { kind: ErrorKind::InputAfterOutput, subject: target })
        } else if kind == TokenType::Xic {
            Ok(self.emit(self.rung_name + " &= "@ + target))
        } else if kind == TokenType::Xio {
            Ok(self.emit(self.rung_name + " &= not "@ + target))
        } else {
            Err(Failure { kind: ErrorKind::InvalidInstruction, subject: target })
        }
    }

    /// Adds an output instruction to the current rung.
    pub open spec fn add_output(self, kind: TokenType, target: Seq<char>) -> Result<
        GeneratorState,
        Failure,
    > {
        if is_output(kind) {
            Ok(
                GeneratorState {
                    output_seen: true,
                    if_true: self.if_true.push(true_statement(kind, target)),
                    if_false: if kind == TokenType::Ote {
                        self.if_false.push(target + " = False"@)
                    } else {
                        self.if_false
                    },
                    ..self
                },
            )
        } else {
            Err(Failure { kind: ErrorKind::InvalidInstruction, subject: target })
        }
    }

    /// Adds an instruction of either class to the current rung.
    pub open spec fn add_instruction(self, kind: TokenType, target: Seq<char>) -> Result<
        GeneratorState,
        Failure,
    > {
        if is_input(kind) {
            self.add_input(kind, target)
        } else if is_output(kind) {
            self.add_output(kind, target)
        } else {
            Err(Failure { kind: ErrorKind::InvalidInstruction, subject: target })
        }
    }

    /// The finished text: what was rendered, then the call of the entry routine,
    /// with no line terminator after it.
    pub open spec fn finished_text(self) -> Seq<char> {
        self.code + indent(self.indentation) + "Main()"@
    }
}

/// Renders the routines of one task at a time.
pub struct CodeGenerator {
    current_code_block: String,
    indentation_level: usize,
    current_rung_name: String,
    rung_number: usize,
    output_instruction_flag: bool,
    if_block_instructions: Vec<String>,
    else_block_instructions: Vec<String>,
}

impl View for CodeGenerator {
    type V = GeneratorState;

    closed spec fn view(&self) -> GeneratorState {
        GeneratorState {
            code: self.current_code_block@,
            indentation: self.indentation_level as nat,
            rung_name: self.current_rung_name@,
            rung_number: self.rung_number as nat,
            output_seen: self.output_instruction_flag,
            if_true: texts(self.if_block_instructions@),
            if_false: texts(self.else_block_instructions@),
        }
    }
}

impl CodeGenerator {
    /// A translator that has rendered nothing yet.
    pub fn new() -> (generator: CodeGenerator)
        ensures
            generator@ == GeneratorState::initial(),
    {
        let generator = CodeGenerator {
            current_code_block: String::new(),
            indentation_level: 0,
            current_rung_name: String::new(),
            rung_number: 0,
            output_instruction_flag: false,
            if_block_instructions: Vec::new(),
            else_block_instructions: Vec::new(),
        };
        proof {
            assert(texts(generator.if_block_instructions@) =~= Seq::<Seq<char>>::empty());
            assert(texts(generator.else_block_instructions@) =~= Seq::<Seq<char>>::empty());
        }
        generator
    }

    /// Writes `level` tabs at the end of `buffer`.
    fn write_indent(buffer: &mut String, level: usize)
        ensures
            final(buffer)@ == old(buffer)@ + indent(level as nat),
    {
        let mut i: usize = 0;
        proof {
            assert(old(buffer)@ =~= old(buffer)@ + indent(0));
        }
        while i < level
            invariant
                i <= level,
                buffer@ == old(buffer)@ + indent(i as nat),
            decreases level - i,
        {
            buffer.push('\t');
            proof {
                assert((old(buffer)@ + indent(i as nat)).push('\t') =~= old(buffer)@ + indent(
                    (i + 1) as nat,
                ));
            }
            i += 1;
        }
    }

    /// Writes `statement` as one line at the given depth.
    fn write_line(buffer: &mut String, level: usize, statement: &str)
        ensures
            final(buffer)@ == old(buffer)@ + line(level as nat, statement@),
    {
        Self::write_indent(buffer, level);
        buffer.append(statement);
        buffer.push('\n');
        proof {
            assert(buffer@ =~= old(buffer)@ + line(level as nat, statement@));
        }
    }

    /// Writes one statement as a line at the current depth.
    pub fn add_to_code_block(&mut self, code: &str)
        ensures
            final(self)@ == old(self)@.emit(code@),
    {
        Self::write_line(&mut self.current_code_block, self.indentation_level, code);
    }

    /// Ends the text of a task with the call of its entry routine, hands the text
    /// out, and makes the translator new again.
    pub fn finish_code_block(&mut self) -> (text: String)
        ensures
            text@ == old(self)@.finished_text(),
            final(self)@ == GeneratorState::initial(),
    {
        let mut text = String::new();
        core::mem::swap(&mut text, &mut self.current_code_block);
        Self::write_indent(&mut text, self.indentation_level);
        text.append("Main()");
        *self = CodeGenerator::new();
        text
    }

    /// Opens the definition of a routine.
    pub fn start_routine(&mut self, routine_name: &str)
        requires
            old(self)@.indentation < usize::MAX,
        ensures
            final(self)@ == old(self)@.start_routine(routine_name@),
    {
        let mut header = String::from_str("def ");
        header.append(routine_name);
        header.append("():");
        self.add_to_code_block(header.as_str());
        self.indentation_level += 1;
    }

    /// Closes the definition of a routine. At the outermost level the margin
    /// stays where it is.
    pub fn end_routine(&mut self)
        ensures
            final(self)@ == old(self)@.end_routine(),
    {
        if self.rung_number == 0 {
            self.add_to_code_block("pass");
        }
        if self.indentation_level > 0 {
            self.indentation_level -= 1;
        }
        self.rung_number = 0;
    }

    /// Opens a rung. An empty `rung_name` stands for a rung without a name.
    pub fn start_rung(&mut self, rung_name: &str)
        requires
            old(self)@.rung_number < usize::MAX,
        ensures
            final(self)@ == old(self)@.start_rung(rung_name@),
    {
        let mut variable = String::from_str("rung_");
        if rung_name.is_empty() {
            push_decimal(&mut variable, self.rung_number);
        } else {
            variable.append(rung_name);
        }
        variable.append("_entry");
        self.rung_number += 1;

        let mut statement = variable.clone();
        statement.append(" = True");
        self.add_to_code_block(statement.as_str());
        self.current_rung_name = variable;
        self.output_instruction_flag = false;
    }

    /// Writes `statement` as one line, one level below the given depth.
    fn write_inner_line(buffer: &mut String, level: usize, statement: &str)
        ensures
            final(buffer)@ == old(buffer)@ + line(level as nat + 1, statement@),
    {
        Self::write_indent(buffer, level);
        buffer.push('\t');
        buffer.append(statement);
        buffer.push('\n');
        proof {
            assert(indent(level as nat).push('\t') =~= indent(level as nat + 1));
            assert(buffer@ =~= old(buffer)@ + line(level as nat + 1, statement@));
        }
    }

    /// Writes `statements` as lines, one level below the given depth.
    fn write_block(buffer: &mut String, level: usize, statements: &Vec<String>)
        ensures
            final(buffer)@ == old(buffer)@ + block(level as nat + 1, texts(statements@)),
    {
        let mut i: usize = 0;
        proof {
            assert(texts(statements@).take(0) =~= Seq::<Seq<char>>::empty());
            assert(old(buffer)@ =~= old(buffer)@ + block(
                level as nat + 1,
                texts(statements@).take(0),
            ));
        }
        while i < statements.len()
            invariant
                i <= statements.len(),
                buffer@ == old(buffer)@ + block(
                    level as nat + 1,
                    texts(statements@).take(i as int),
                ),
            decreases statements.len() - i,
        {
            Self::write_inner_line(buffer, level, statements[i].as_str());
            proof {
                let done = texts(statements@).take(i as int);
                let next = texts(statements@).take(i + 1);
                assert(next.drop_last() =~= done);
                assert(next.last() == statements@[i as int]@);
                assert(buffer@ =~= old(buffer)@ + block(level as nat + 1, next));
            }
            i += 1;
        }
        proof {
            assert(texts(statements@).take(statements@.len() as int) =~= texts(statements@));
        }
    }

    /// Closes a rung: writes the guarded block of its outputs, if it has any.
    pub fn end_rung(&mut self)
        ensures
            final(self)@ == old(self)@.end_rung(),
    {
        let ghost before = self@;
        if self.if_block_instructions.len() > 0 {
            let mut guard = String::from_str("if ");
            guard.append(self.current_rung_name.as_str());
            guard.append(":");
            Self::write_line(&mut self.current_code_block, self.indentation_level, guard.as_str());
            Self::write_block(
                &mut self.current_code_block,
                self.indentation_level,
                &self.if_block_instructions,
            );
        }
        if self.else_block_instructions.len() > 0 {
            Self::write_line(&mut self.current_code_block, self.indentation_level, "else:");
            Self::write_block(
                &mut self.current_code_block,
                self.indentation_level,
                &self.else_block_instructions,
            );
        }
        self.if_block_instructions = Vec::new();
        self.else_block_instructions = Vec::new();
        self.output_instruction_flag = false;
        proof {
            assert(texts(self.if_block_instructions@) =~= Seq::<Seq<char>>::empty());
            assert(texts(self.else_block_instructions@) =~= Seq::<Seq<char>>::empty());
            assert(self.current_code_block@ =~= before.code + before.conditional());
        }
    }

    /// Adds a contact instruction to the current rung. On a failure nothing has
    /// changed.
    pub fn add_input_instruction(&mut self, instruction: &TokenType, target: &str) -> (r: Result<
        (),
        CompileError,
    >)
        ensures
            match old(self)@.add_input(*instruction, target@) {
                Ok(state) => r is Ok && final(self)@ == state,
                Err(failure) => r is Err && r->Err_0@ == failure && final(self)@ == old(self)@,
            },
    {
        if self.output_instruction_flag {
            return Err(CompileError::new(ErrorKind::InputAfterOutput, target));
        }
        let mut statement = self.current_rung_name.clone();
        if *instruction == TokenType::Xic {
            statement.append(" &= ");
        } else if *instruction == TokenType::Xio {
            statement.append(" &= not ");
        } else {
            return Err(CompileError::new(ErrorKind::InvalidInstruction, target));
        }
        statement.append(target);
        self.add_to_code_block(statement.as_str());
        Ok(())
    }

    /// Adds an output instruction to the current rung. On a failure nothing has
    /// changed.
    pub fn add_output_instruction(&mut self, instruction: &TokenType, target: &str) -> (r: Result<
        (),
        CompileError,
    >)
        ensures
            match old(self)@.add_output(*instruction, target@) {
                Ok(state) => r is Ok && final(self)@ == state,
                Err(failure) => r is Err && r->Err_0@ == failure && final(self)@ == old(self)@,
            },
    {
        let mut statement = String::new();
        match *instruction {
            TokenType::Ret => {
                statement.append("return");
                proof {
                    assert(statement@ =~= "return"@);
                }
            },
            TokenType::Jsr => {
                statement.append(target);
                statement.append("()");
                proof {
                    assert(statement@ =~= target@ + "()"@);
                }
            },
            TokenType::Otl | TokenType::Ote => {
                statement.append(target);
                statement.append(" = True");
                proof {
                    assert(statement@ =~= target@ + " = True"@);
                }
            },
            TokenType::Otu => {
                statement.append(target);
                statement.append(" = False");
                proof {
                    assert(statement@ =~= target@ + " = False"@);
                }
            },
            TokenType::Emit => {
                statement.append("EmitEvent('");
                statement.append(target);
                statement.append("')");
                proof {
                    assert(statement@ =~= "EmitEvent('"@ + target@ + "')"@);
                }
            },
            _ => {
                return Err(CompileError::new(ErrorKind::InvalidInstruction, target));
            },
        }
        proof {
            lemma_texts_push(self.if_block_instructions@, statement);
        }
        self.if_block_instructions.push(statement);
        if *instruction == TokenType::Ote {
            let mut otherwise = String::from_str(target);
            otherwise.append(" = False");
            proof {
                lemma_texts_push(self.else_block_instructions@, otherwise);
            }
            self.else_block_instructions.push(otherwise);
        }
        self.output_instruction_flag = true;
        Ok(())
    }

    /// Adds an instruction to the current rung. On a failure nothing has changed.
    pub fn add_instruction(&mut self, instruction: TokenType, target: &str) -> (r: Result<
        (),
        CompileError,
    >)
        ensures
            match old(self)@.add_instruction(instruction, target@) {
                Ok(state) => r is Ok && final(self)@ == state,
                Err(failure) => r is Err && r->Err_0@ == failure && final(self)@ == old(self)@,
            },
    {
        if instruction == TokenType::Xic || instruction == TokenType::Xio {
            self.add_input_instruction(&instruction, target)
        } else if instruction == TokenType::Ote || instruction == TokenType::Otl || instruction
            == TokenType::Otu || instruction == TokenType::Jsr || instruction == TokenType::Ret
            || instruction == TokenType::Emit {
            self.add_output_instruction(&instruction, target)
        } else {
            Err(CompileError::new(ErrorKind::InvalidInstruction, target))
        }
    }
}

} // verus!
