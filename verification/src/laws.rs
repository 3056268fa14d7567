//! Laws of the translation, stated over the semantics and proved.

use crate::code_generation::{block, is_input, is_output, line, GeneratorState};
use crate::error::{ErrorKind, Failure};
use crate::lexer::{lemma_scan_progress, TokenType};
use crate::semantics::{
    budget, failed, innermost, lookup, lookup_from, ParserState, Progress, TagView,
    PERIOD_LOWER_BOUND,
};
use crate::text::{
    all_digits, decimal, decimal_value, digits_value, lemma_whole_part_of_fraction,
    lemma_whole_part_of_integer, whole_value,
};
use vstd::prelude::*;

verus! {

/// A contact instruction: the tag it tests, and whether it asks for the tag to
/// be clear (`XIO`) or set (`XIC`).
pub struct Contact {
    pub negated: bool,
    pub tag: Seq<char>,
}

impl Contact {
    /// The instruction token of the contact.
    pub open spec fn kind(self) -> TokenType {
        if self.negated {
            TokenType::Xio
        } else {
            TokenType::Xic
        }
    }

    /// The statement that the contact becomes in a rung with entry variable
    /// `rung`.
    pub open spec fn statement(self, rung: Seq<char>) -> Seq<char> {
        if self.negated {
            rung + " &= not "@ + self.tag
        } else {
            rung + " &= "@ + self.tag
        }
    }

    /// What the contact contributes to its rung when the tags have the values
    /// `tags`.
    pub open spec fn holds(self, tags: spec_fn(Seq<char>) -> bool) -> bool {
        if self.negated {
            !tags(self.tag)
        } else {
            tags(self.tag)
        }
    }
}

/// The statements of a run of contacts, in order.
pub open spec fn contact_statements(rung: Seq<char>, contacts: Seq<Contact>) -> Seq<Seq<char>> {
    Seq::new(contacts.len(), |i: int| contacts[i].statement(rung))
}

/// The translator after a run of contacts was added to it, one after the other.
pub open spec fn add_contacts(generator: GeneratorState, contacts: Seq<Contact>) -> Result<
    GeneratorState,
    Failure,
>
    decreases contacts.len(),
{
    if contacts.len() == 0 {
        Ok(generator)
    } else {
        match add_contacts(generator, contacts.drop_last()) {
            Ok(added) => added.add_instruction(contacts.last().kind(), contacts.last().tag),
            Err(failure) => Err(failure),
        }
    }
}

/// The value that the statements of a rung leave in its entry variable, reading
/// the entry statement as an assignment of true and `&=` as "and" with the
/// operand: the statements run in the order in which they are written.
pub open spec fn entry_value(contacts: Seq<Contact>, tags: spec_fn(Seq<char>) -> bool) -> bool
    decreases contacts.len(),
{
    if contacts.len() == 0 {
        true
    } else {
        entry_value(contacts.drop_last(), tags) && contacts.last().holds(tags)
    }
}

/// Contacts added to a rung that has no output yet become one statement each,
/// written in the order of their appearance, and change nothing else.
pub proof fn lemma_contacts_in_order(generator: GeneratorState, contacts: Seq<Contact>)
    requires
        !generator.output_seen,
    ensures
        add_contacts(generator, contacts) == Ok::<GeneratorState, Failure>(
            GeneratorState {
                code: generator.code + block(
                    generator.indentation,
                    contact_statements(generator.rung_name, contacts),
                ),
                ..generator
            },
        ),
    decreases contacts.len(),
{
    let statements = contact_statements(generator.rung_name, contacts);
    if contacts.len() == 0 {
        assert(generator.code + block(generator.indentation, statements) =~= generator.code);
    } else {
        let before = contacts.drop_last();
        lemma_contacts_in_order(generator, before);
        let earlier = contact_statements(generator.rung_name, before);
        assert(statements.drop_last() =~= earlier);
        assert(statements.last() == contacts.last().statement(generator.rung_name));
        assert((generator.code + block(generator.indentation, earlier)) + line(
            generator.indentation,
            statements.last(),
        ) =~= generator.code + block(generator.indentation, statements));
    }
}

/// The entry variable of a rung of contacts ends up true exactly when every
/// contact holds: it is the conjunction of the tags, each negated for `XIO`.
pub proof fn lemma_entry_value_is_conjunction(
    contacts: Seq<Contact>,
    tags: spec_fn(Seq<char>) -> bool,
)
    ensures
        entry_value(contacts, tags) <==> forall|i: int|
            0 <= i < contacts.len() ==> (#[trigger] contacts[i]).holds(tags),
    decreases contacts.len(),
{
    if contacts.len() > 0 {
        let before = contacts.drop_last();
        lemma_entry_value_is_conjunction(before, tags);
        if entry_value(contacts, tags) {
            assert forall|i: int| 0 <= i < contacts.len() implies (#[trigger] contacts[i]).holds(
                tags,
            ) by {
                if i < before.len() {
                    assert(before[i] == contacts[i]);
                }
            }
        } else if contacts.last().holds(tags) {
            let i = choose|i: int| 0 <= i < before.len() && !(#[trigger] before[i]).holds(tags);
            assert(before[i] == contacts[i]);
        }
    }
}

/// A rung that gets contacts only ends without a guarded block: between rungs
/// nothing is pending, and ending the rung writes nothing.
pub proof fn lemma_rung_without_outputs(
    generator: GeneratorState,
    name: Seq<char>,
    contacts: Seq<Contact>,
)
    requires
        generator.if_true.len() == 0,
        generator.if_false.len() == 0,
    ensures
        add_contacts(generator.start_rung(name), contacts) matches Ok(rung) && rung.end_rung().code
            == rung.code,
{
    let started = generator.start_rung(name);
    lemma_contacts_in_order(started, contacts);
    let rung = add_contacts(started, contacts)->Ok_0;
    assert(rung.code + rung.conditional() =~= rung.code);
}

/// Once a rung has an output, every contact is refused, whatever came between.
pub proof fn lemma_input_after_output(
    generator: GeneratorState,
    output: TokenType,
    target: Seq<char>,
    input: TokenType,
    operand: Seq<char>,
)
    requires
        is_output(output),
        is_input(input),
    ensures
        generator.add_instruction(output, target) matches Ok(rung) && rung.output_seen
            && rung.add_instruction(input, operand) == Err::<GeneratorState, Failure>(
            Failure { kind: ErrorKind::InputAfterOutput, subject: operand },
        ),
{
}

/// Outputs keep a rung closed to contacts: adding an output never clears the
/// mark that an output was seen.
pub proof fn lemma_outputs_keep_the_mark(
    generator: GeneratorState,
    output: TokenType,
    target: Seq<char>,
)
    requires
        generator.output_seen,
    ensures
        generator.add_instruction(output, target) matches Ok(rung) ==> rung.output_seen,
{
}

/// `OTE` assigns its target in both branches; `OTL` and `OTU` add nothing to the
/// false branch.
pub proof fn lemma_coil_branches(generator: GeneratorState, target: Seq<char>)
    ensures
        generator.add_instruction(TokenType::Ote, target) matches Ok(rung) && rung.if_true
            == generator.if_true.push(target + " = True"@) && rung.if_false
            == generator.if_false.push(target + " = False"@),
        generator.add_instruction(TokenType::Otl, target) matches Ok(rung) && rung.if_true
            == generator.if_true.push(target + " = True"@) && rung.if_false == generator.if_false,
        generator.add_instruction(TokenType::Otu, target) matches Ok(rung) && rung.if_true
            == generator.if_true.push(target + " = False"@) && rung.if_false == generator.if_false,
{
}

/// No output instruction but `OTE` adds to the false branch.
pub proof fn lemma_only_ote_has_a_false_branch(
    generator: GeneratorState,
    kind: TokenType,
    target: Seq<char>,
)
    requires
        kind != TokenType::Ote,
    ensures
        generator.add_instruction(kind, target) matches Ok(rung) ==> rung.if_false
            == generator.if_false,
{
}

/// Opening a rung names its entry variable after the rung or, for a rung
/// without a name, after the number of rungs that the routine had before. It
/// writes the one line that sets the variable to true, and it counts the rung
/// whether the rung has a name or not.
pub proof fn lemma_rung_entry(generator: GeneratorState, name: Seq<char>)
    ensures
        ({
            let variable = if name.len() == 0 {
                "rung_"@ + decimal(generator.rung_number) + "_entry"@
            } else {
                "rung_"@ + name + "_entry"@
            };
            generator.start_rung(name) == (GeneratorState {
                code: generator.code + line(generator.indentation, variable + " = True"@),
                rung_name: variable,
                rung_number: generator.rung_number + 1,
                output_seen: false,
                ..generator
            })
        }),
{
}

/// Closing a rung with outputs writes the guard on the entry variable, then the
/// statements of the true branch one level deeper and in the order of their
/// instructions, then an `else` branch of the same shape if, and only if, there
/// are statements for it. Nothing is pending afterwards, and the depth is kept.
pub proof fn lemma_rung_block(generator: GeneratorState)
    requires
        generator.if_true.len() > 0,
    ensures
        generator.end_rung() == (GeneratorState {
            code: generator.code + line(
                generator.indentation,
                "if "@ + generator.rung_name + ":"@,
            ) + block(generator.indentation + 1, generator.if_true) + if generator.if_false.len()
                > 0 {
                line(generator.indentation, "else:"@) + block(
                    generator.indentation + 1,
                    generator.if_false,
                )
            } else {
                Seq::<char>::empty()
            },
            output_seen: false,
            if_true: Seq::empty(),
            if_false: Seq::empty(),
            ..generator
        }),
{
    let guard = line(generator.indentation, "if "@ + generator.rung_name + ":"@);
    let body = block(generator.indentation + 1, generator.if_true);
    let otherwise = if generator.if_false.len() > 0 {
        line(generator.indentation, "else:"@) + block(
            generator.indentation + 1,
            generator.if_false,
        )
    } else {
        Seq::<char>::empty()
    };
    assert(generator.code + generator.conditional() =~= generator.code + guard + body
        + otherwise);
}

/// Closing a rung without outputs writes nothing and keeps the depth.
pub proof fn lemma_rung_without_block(generator: GeneratorState)
    requires
        generator.if_true.len() == 0,
        generator.if_false.len() == 0,
    ensures
        generator.end_rung() == (GeneratorState { output_seen: false, ..generator }),
{
    assert(generator.code + generator.conditional() =~= generator.code);
    assert(generator.if_true =~= Seq::<Seq<char>>::empty());
    assert(generator.if_false =~= Seq::<Seq<char>>::empty());
}

/// A routine without rungs is its header and one placeholder statement, one
/// level deeper.
pub proof fn lemma_empty_routine(generator: GeneratorState, name: Seq<char>)
    requires
        generator.rung_number == 0,
    ensures
        generator.start_routine(name).end_routine() == (GeneratorState {
            code: generator.code + line(generator.indentation, "def "@ + name + "():"@) + line(
                generator.indentation + 1,
                "pass"@,
            ),
            ..generator
        }),
{
}

/// A routine with a rung gets no placeholder: closing it writes nothing.
pub proof fn lemma_routine_with_rungs(generator: GeneratorState)
    requires
        generator.rung_number > 0,
    ensures
        generator.end_routine().code == generator.code,
{
}

/// The declaration that is found for a name is the first one with that name.
pub proof fn lemma_first_declaration_wins(tags: Seq<TagView>, name: Seq<char>, first: int)
    requires
        0 <= first < tags.len(),
        tags[first].name == name,
        forall|i: int| 0 <= i < first ==> (#[trigger] tags[i]).name != name,
    ensures
        lookup(tags, name) == Some(tags[first].length),
{
    lemma_lookup_from(tags, name, first, 0);
}

proof fn lemma_lookup_from(tags: Seq<TagView>, name: Seq<char>, first: int, from: int)
    requires
        0 <= from <= first < tags.len(),
        tags[first].name == name,
        forall|i: int| 0 <= i < first ==> (#[trigger] tags[i]).name != name,
    ensures
        lookup_from(tags, name, from) == Some(tags[first].length),
    decreases first - from,
{
    if from < first {
        lemma_lookup_from(tags, name, first, from + 1);
    }
}

/// A name that no declaration has is not found.
pub proof fn lemma_undeclared_is_not_found(tags: Seq<TagView>, name: Seq<char>)
    requires
        forall|i: int| 0 <= i < tags.len() ==> (#[trigger] tags[i]).name != name,
    ensures
        lookup(tags, name) is None,
{
    lemma_not_found_from(tags, name, 0);
}

proof fn lemma_not_found_from(tags: Seq<TagView>, name: Seq<char>, from: int)
    requires
        0 <= from,
        forall|i: int| 0 <= i < tags.len() ==> (#[trigger] tags[i]).name != name,
    ensures
        lookup_from(tags, name, from) is None,
    decreases tags.len() - from,
{
    if from < tags.len() {
        lemma_not_found_from(tags, name, from + 1);
    }
}

/// An index into a tag array is accepted exactly when it is below the declared
/// length; the operand is then the name, a point and the index as written. An
/// index of any size that is not below the length is out of bounds.
pub proof fn lemma_index_bound(
    state: ParserState,
    kind: TokenType,
    name: Seq<char>,
    length: nat,
    index: nat,
)
    requires
        decimal_value(state.previous.text) == Some(index),
    ensures
        index < length ==> state.element(kind, name, length) == state.generate(
            kind,
            name + "."@ + state.previous.text,
        ),
        index >= length ==> state.element(kind, name, length) == failed(
            ErrorKind::IndexOutOfBounds,
            state.previous.text,
        ),
{
}

/// The operand of a contact or coil that names a tag array has to go on with
/// an index.
pub proof fn lemma_array_needs_index(state: ParserState, kind: TokenType, length: nat)
    requires
        kind != TokenType::Jsr,
        kind != TokenType::Emit,
        lookup(state.tags, state.previous.text) == Some(length),
        length > 0,
        state.current.kind != TokenType::Indexer,
    ensures
        state.operand(kind) == failed(
            ErrorKind::UnexpectedToken(TokenType::Indexer),
            state.current.text,
        ),
{
}

/// A period is accepted exactly when the integer part of its literal is at
/// least the lower bound, which is 20; it is never refused for another reason.
pub proof fn lemma_period_bound(state: ParserState)
    ensures
        PERIOD_LOWER_BOUND == 20,
        whole_value(state.previous.text) >= 20 ==> state.check_period() == Progress::Running(
            state,
        ),
        whole_value(state.previous.text) < 20 ==> state.check_period() == failed(
            ErrorKind::PeriodTooShort,
            state.previous.text,
        ),
{
}

/// A period written without a fraction is accepted exactly when it is at least
/// 20, however large it is.
pub proof fn lemma_period_of_integer(state: ParserState, period: nat)
    requires
        decimal_value(state.previous.text) == Some(period),
    ensures
        period >= 20 ==> state.check_period() == Progress::Running(state),
        period < 20 ==> state.check_period() == failed(
            ErrorKind::PeriodTooShort,
            state.previous.text,
        ),
{
    lemma_whole_part_of_integer(state.previous.text);
}

/// A period written with a fraction is accepted exactly when what stands before
/// the point is at least 20: the fraction cannot lift a value to the bound.
pub proof fn lemma_period_with_fraction(
    state: ParserState,
    whole: Seq<char>,
    fraction: Seq<char>,
)
    requires
        all_digits(whole),
        state.previous.text == whole + seq!['.'] + fraction,
    ensures
        digits_value(whole) >= 20 ==> state.check_period() == Progress::Running(state),
        digits_value(whole) < 20 ==> state.check_period() == failed(
            ErrorKind::PeriodTooShort,
            state.previous.text,
        ),
{
    lemma_whole_part_of_fraction(whole, fraction);
}

/// A task closes exactly when it is the innermost open scope and has its
/// `Main`. Closing it pops the scope, forgets the `Main`, makes the rung
/// translator new, and appends the text of the task's routines and the closing
/// brace, each on a line of its own, to the output.
pub proof fn lemma_task_end(state: ParserState)
    ensures
        state.end_task() is Running <==> innermost(state.stack, TokenType::Task)
            && state.main_flag,
        state.end_task() matches Progress::Running(closed) ==> closed == (ParserState {
            stack: state.stack.drop_last(),
            main_flag: false,
            generator: GeneratorState::initial(),
            output: ((state.output + state.generator.finished_text()).push('\n') + "}"@).push(
                '\n',
            ),
            ..state
        }),
{
}

/// A task cannot close without a routine named `Main`.
pub proof fn lemma_task_needs_main(state: ParserState)
    requires
        !state.main_flag,
    ensures
        state.end_task() is Failed,
{
}

/// A second routine named `Main` in the same task is refused.
pub proof fn lemma_second_main_fails(state: ParserState)
    requires
        state.main_flag,
        state.previous.text == "Main"@,
    ensures
        state.begin_routine() == failed(ErrorKind::DuplicateMain, Seq::empty()),
{
}

/// Closing a task forgets its `Main`, so the next task can have one of its own,
/// and has to.
pub proof fn lemma_main_is_per_task(state: ParserState, next: ParserState)
    requires
        state.end_task() is Running,
        next.main_flag == state.end_task()->Running_0.main_flag,
        next.previous.text == "Main"@,
    ensures
        state.main_flag,
        !next.main_flag,
        next.begin_routine() matches Progress::Running(begun) && begun.main_flag,
{
}

/// The failures that show where they are caused. The two others, an undeclared
/// event and an undeclared routine, wait for the end of the input.
pub open spec fn immediate(kind: ErrorKind) -> bool {
    kind != ErrorKind::UndeclaredEvent && kind != ErrorKind::UndeclaredRoutine
}

/// Whether a failure, if there is one, is immediate.
pub open spec fn fails_immediately(progress: Progress) -> bool {
    progress matches Progress::Failed(failure) ==> immediate(failure.kind)
}

proof fn lemma_advance_fails_immediately(state: ParserState)
    ensures
        fails_immediately(state.advance()),
        forall|kind: TokenType| fails_immediately(#[trigger] state.expect(kind)),
{
}

proof fn lemma_generate_fails_immediately(state: ParserState, kind: TokenType, target: Seq<char>)
    ensures
        fails_immediately(state.generate(kind, target)),
{
}

proof fn lemma_task_fails_immediately(state: ParserState)
    ensures
        fails_immediately(state.task()),
{
}

proof fn lemma_routine_fails_immediately(state: ParserState)
    ensures
        fails_immediately(state.routine()),
        fails_immediately(state.rung()),
        fails_immediately(state.end_rung()),
        fails_immediately(state.end_routine()),
        fails_immediately(state.end_task()),
{
}

proof fn lemma_instruction_fails_immediately(state: ParserState)
    ensures
        fails_immediately(state.instruction()),
{
}

proof fn lemma_tag_fails_immediately(state: ParserState)
    ensures
        fails_immediately(state.tag()),
{
}

proof fn lemma_blank_lines_fail_immediately(state: ParserState)
    ensures
        fails_immediately(state.blank_lines()),
    decreases budget(state),
{
    if state.current.kind == TokenType::NewLine {
        match state.advance() {
            Progress::Running(next) => {
                if 0 <= budget(next) < budget(state) {
                    lemma_blank_lines_fail_immediately(next);
                }
            },
            Progress::Failed(failure) => {},
        }
    }
}

proof fn lemma_statement_fails_immediately(state: ParserState)
    ensures
        fails_immediately(state.statement()),
{
    reveal(ParserState::statement);
    let body = state.statement_body();
    assert(fails_immediately(body)) by {
        match state.advance() {
            Progress::Running(next) => {
                lemma_task_fails_immediately(next);
                lemma_routine_fails_immediately(next);
                lemma_instruction_fails_immediately(next);
                lemma_tag_fails_immediately(next);
            },
            Progress::Failed(failure) => {},
        }
    }
    match body {
        Progress::Running(parsed) => {
            match parsed.expect(TokenType::NewLine) {
                Progress::Running(next) => {
                    lemma_blank_lines_fail_immediately(next);
                },
                Progress::Failed(failure) => {},
            }
        },
        Progress::Failed(failure) => {},
    }
}

/// No statement fails for an event or a routine that is not declared: a
/// reference may come before its declaration.
pub proof fn lemma_statements_fail_immediately(state: ParserState)
    ensures
        fails_immediately(state.statements()),
    decreases budget(state),
{
    if state.current.kind != TokenType::Eof {
        lemma_statement_fails_immediately(state);
        match state.statement() {
            Progress::Running(next) => {
                if 0 <= budget(next) < budget(state) {
                    lemma_statements_fail_immediately(next);
                }
            },
            Progress::Failed(failure) => {},
        }
    }
}

/// Whether a step from `before` stays within the text of `before` and consumes
/// part of it or nothing.
pub open spec fn consumes(before: ParserState, after: Progress) -> bool {
    after matches Progress::Running(state) ==> state.in_text() && state.source == before.source
        && budget(state) <= budget(before)
}

/// Whether a step from `before` stays within the text of `before` and consumes
/// part of it.
pub open spec fn consumes_some(before: ParserState, after: Progress) -> bool {
    after matches Progress::Running(state) ==> state.in_text() && state.source == before.source
        && budget(state) < budget(before)
}

/// Moving the window on consumes the current token.
proof fn lemma_advance_consumes()
    ensures
        forall|state: ParserState|
            state.in_text() ==> consumes(state, #[trigger] state.advance()) && (state.current.kind
                != TokenType::Eof ==> consumes_some(state, state.advance())),
{
    assert forall|state: ParserState| state.in_text() implies consumes(
        state,
        #[trigger] state.advance(),
    ) && (state.current.kind != TokenType::Eof ==> consumes_some(state, state.advance())) by {
        lemma_scan_progress(state.source, state.position);
    }
}

proof fn lemma_task_consumes(state: ParserState)
    requires
        state.in_text(),
    ensures
        consumes(state, state.task()),
{
    lemma_advance_consumes();
}

proof fn lemma_scopes_consume(state: ParserState)
    requires
        state.in_text(),
    ensures
        consumes(state, state.routine()),
        consumes(state, state.rung()),
        consumes(state, state.end_rung()),
        consumes(state, state.end_routine()),
        consumes(state, state.end_task()),
{
    lemma_advance_consumes();
}

proof fn lemma_instruction_consumes(state: ParserState)
    requires
        state.in_text(),
    ensures
        consumes(state, state.instruction()),
{
    lemma_advance_consumes();
}

proof fn lemma_tag_consumes(state: ParserState)
    requires
        state.in_text(),
    ensures
        consumes(state, state.tag()),
{
    lemma_advance_consumes();
}

proof fn lemma_blank_lines_consume(state: ParserState)
    requires
        state.in_text(),
    ensures
        consumes(state, state.blank_lines()),
        state.blank_lines() matches Progress::Running(next) ==> next.current.kind
            != TokenType::NewLine,
    decreases budget(state),
{
    lemma_advance_consumes();
    if state.current.kind == TokenType::NewLine {
        match state.advance() {
            Progress::Running(next) => {
                lemma_blank_lines_consume(next);
            },
            Progress::Failed(failure) => {},
        }
    }
}

/// Every statement consumes at least one token of the text.
pub proof fn lemma_statement_consumes(state: ParserState)
    requires
        state.in_text(),
    ensures
        consumes_some(state, state.statement()),
{
    reveal(ParserState::statement);
    lemma_advance_consumes();
    let body = state.statement_body();
    assert(consumes_some(state, body)) by {
        match state.advance() {
            Progress::Running(next) => {
                lemma_task_consumes(next);
                lemma_scopes_consume(next);
                lemma_instruction_consumes(next);
                lemma_tag_consumes(next);
            },
            Progress::Failed(failure) => {},
        }
    }
    match body {
        Progress::Running(parsed) => {
            match parsed.expect(TokenType::NewLine) {
                Progress::Running(next) => {
                    lemma_blank_lines_consume(next);
                },
                Progress::Failed(failure) => {},
            }
        },
        Progress::Failed(failure) => {},
    }
}

/// Parsing goes on until a statement fails or the end of the input is reached:
/// where the statements of a text are parsed without a failure, nothing of the
/// text is left.
pub proof fn lemma_statements_reach_the_end(state: ParserState)
    requires
        state.in_text(),
    ensures
        consumes(state, state.statements()),
        state.statements() matches Progress::Running(parsed) ==> parsed.current.kind
            == TokenType::Eof,
    decreases budget(state),
{
    if state.current.kind != TokenType::Eof {
        lemma_statement_consumes(state);
        match state.statement() {
            Progress::Running(next) => {
                lemma_statements_reach_the_end(next);
            },
            Progress::Failed(failure) => {},
        }
    }
}

/// A translation that fails for an undeclared event or routine has parsed every
/// statement of its source, up to the end of the input, without a failure: the
/// references are resolved at the end, against everything that the source
/// declares.
pub proof fn lemma_references_are_resolved_last(state: ParserState)
    requires
        state.in_text(),
    ensures
        (state.program() matches Progress::Failed(failure) && !immediate(failure.kind)) ==> (
        state.statements() matches Progress::Running(parsed) && parsed.current.kind
            == TokenType::Eof && parsed.check_references() == state.program()),
{
    lemma_statements_fail_immediately(state);
    lemma_statements_reach_the_end(state);
}

} // verus!
