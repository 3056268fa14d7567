//! The single failure type of the translator.

use crate::lexer::{kind_name, TokenType};
use vstd::prelude::*;
use vstd::string::*;

verus! {

/// What went wrong. Every failure is fatal: translation stops at the first one.
#[derive(Debug, Clone, Copy, PartialEq, Eq, Structural)]
pub enum ErrorKind {
    /// A `.` inside a number literal is not followed by a digit.
    IllegalNumber,
    /// A character that starts no token.
    UnknownToken,
    /// The grammar asks for a token of the given kind at this place.
    UnexpectedToken(TokenType),
    /// A token that starts no statement.
    InvalidStatement,
    /// A task opened inside another structure.
    NestedTask,
    /// The bracketed clause of a task is no period, event or `CONTINUOUS`.
    InvalidTaskType,
    /// A number literal that is no unsigned integer of the range required.
    InvalidNumber,
    /// A task period below the lower bound.
    PeriodTooShort,
    /// A routine opened outside a task.
    RoutineOutsideTask,
    /// A second routine named `Main` in one task.
    DuplicateMain,
    /// A rung opened outside a routine.
    RungOutsideRoutine,
    /// An instruction names a tag that no earlier line declares.
    UndeclaredTag,
    /// An index that is not below the declared length of its tag array.
    IndexOutOfBounds,
    /// `ENDRUNG` where the innermost open scope is no rung.
    UnmatchedEndRung,
    /// `ENDROUTINE` where the innermost open scope is no routine.
    UnmatchedEndRoutine,
    /// `ENDTASK` where the innermost open scope is no task.
    UnmatchedEndTask,
    /// `ENDTASK` with no scope open.
    TooManyEnds,
    /// A task closed without a routine named `Main`.
    MissingMain,
    /// A tag name longer than the limit.
    TagNameTooLong,
    /// A tag array declared with length zero.
    EmptyTagArray,
    /// An `EMIT` names an event that no task declares.
    UndeclaredEvent,
    /// A `JSR` names a routine that is declared nowhere.
    UndeclaredRoutine,
    /// A contact instruction after an output instruction of the same rung.
    InputAfterOutput,
    /// A token kind that is no rung instruction.
    InvalidInstruction,
}

/// The mathematical content of a failure: its kind and the text it is about
/// (the offending character, token text or name; empty where there is none).
pub struct Failure {
    pub kind: ErrorKind,
    pub subject: Seq<char>,
}

/// The words before the subject in the message of a failure.
pub open spec fn opening(kind: ErrorKind) -> Seq<char> {
    match kind {
        ErrorKind::UnexpectedToken(expected) => "Expected "@ + kind_name(expected) + ", but found "@,
        ErrorKind::IllegalNumber => "Illegal character in number"@,
        ErrorKind::UnknownToken => "Unknown token: "@,
        ErrorKind::InvalidStatement => "Invalid statement at "@,
        ErrorKind::NestedTask => "Tasks may not be inside of other structures"@,
        ErrorKind::InvalidTaskType => "Invalid task type "@,
        ErrorKind::InvalidNumber => "Invalid number "@,
        ErrorKind::PeriodTooShort => "Period below allowable limit 20"@,
        ErrorKind::RoutineOutsideTask => "Routines must be defined inside of a task"@,
        ErrorKind::DuplicateMain => "There can only be one Main routine"@,
        ErrorKind::RungOutsideRoutine => "Rungs must be defined inside of a routine"@,
        ErrorKind::UndeclaredTag => "Referencing tag "@,
        ErrorKind::IndexOutOfBounds => "Index "@,
        ErrorKind::UnmatchedEndRung => "Missing matching RUNG"@,
        ErrorKind::UnmatchedEndRoutine => "Missing matching ENDRUNG"@,
        ErrorKind::UnmatchedEndTask => "Missing matching ENDROUTINE"@,
        ErrorKind::TooManyEnds => "Too many end statements"@,
        ErrorKind::MissingMain => "There must be a single Main routine"@,
        ErrorKind::TagNameTooLong => "Tag name "@,
        ErrorKind::EmptyTagArray => "Length of tag array must be greater than zero"@,
        ErrorKind::UndeclaredEvent => "Emitted event "@,
        ErrorKind::UndeclaredRoutine => "Routine "@,
        ErrorKind::InputAfterOutput => "Input instruction appears after an output instruction"@,
        ErrorKind::InvalidInstruction => "Invalid instruction"@,
    }
}

/// Whether the message of a failure names its subject.
pub open spec fn names_subject(kind: ErrorKind) -> bool {
    match kind {
        ErrorKind::UnexpectedToken(_) => true,
        ErrorKind::IllegalNumber => false,
        ErrorKind::UnknownToken => true,
        ErrorKind::InvalidStatement => true,
        ErrorKind::NestedTask => false,
        ErrorKind::InvalidTaskType => true,
        ErrorKind::InvalidNumber => true,
        ErrorKind::PeriodTooShort => false,
        ErrorKind::RoutineOutsideTask => false,
        ErrorKind::DuplicateMain => false,
        ErrorKind::RungOutsideRoutine => false,
        ErrorKind::UndeclaredTag => true,
        ErrorKind::IndexOutOfBounds => true,
        ErrorKind::UnmatchedEndRung => false,
        ErrorKind::UnmatchedEndRoutine => false,
        ErrorKind::UnmatchedEndTask => false,
        ErrorKind::TooManyEnds => false,
        ErrorKind::MissingMain => false,
        ErrorKind::TagNameTooLong => true,
        ErrorKind::EmptyTagArray => false,
        ErrorKind::UndeclaredEvent => true,
        ErrorKind::UndeclaredRoutine => true,
        ErrorKind::InputAfterOutput => false,
        ErrorKind::InvalidInstruction => false,
    }
}

/// The words after the subject in the message of a failure.
pub open spec fn closing(kind: ErrorKind) -> Seq<char> {
    match kind {
        ErrorKind::UndeclaredTag => " before assignment"@,
        ErrorKind::IndexOutOfBounds => " is out of bounds for the tag array"@,
        ErrorKind::TagNameTooLong => " too long. The limit is 7 characters"@,
        ErrorKind::UndeclaredEvent => " does not correspond to a task"@,
        ErrorKind::UndeclaredRoutine => " does not exist"@,
        _ => ""@,
    }
}

impl Failure {
    /// The message of the failure, for a human reader.
    pub open spec fn message(self) -> Seq<char> {
        if names_subject(self.kind) {
            opening(self.kind) + self.subject + closing(self.kind)
        } else {
            opening(self.kind)
        }
    }
}

/// A failed translation.
#[derive(Debug, Clone)]
pub struct CompileError {
    pub kind: ErrorKind,
    pub subject: String,
}

impl View for CompileError {
    type V = Failure;

    open spec fn view(&self) -> Failure {
        Failure { kind: self.kind, subject: self.subject@ }
    }
}

impl CompileError {
    /// A failure of the given kind about `subject`.
    pub fn new(kind: ErrorKind, subject: &str) -> (e: CompileError)
        ensures
            e@ == (Failure { kind, subject: subject@ }),
    {
        CompileError { kind, subject: String::from_str(subject) }
    }

    /// A failure of the given kind with no subject.
    pub fn bare(kind: ErrorKind) -> (e: CompileError)
        ensures
            e@ == (Failure { kind, subject: Seq::<char>::empty() }),
    {
        CompileError { kind, subject: String::new() }
    }

    /// The words before the subject in the message.
    fn opening(&self) -> (text: String)
        ensures
            text@ == opening(self.kind),
    {
        match self.kind {
            ErrorKind::UnexpectedToken(expected) => {
                let mut text = String::from_str("Expected ");
                text.append(expected.name());
                text.append(", but found ");
                text
            },
            ErrorKind::IllegalNumber => String::from_str("Illegal character in number"),
            ErrorKind::UnknownToken => String::from_str("Unknown token: "),
            ErrorKind::InvalidStatement => String::from_str("Invalid statement at "),
            ErrorKind::NestedTask => String::from_str("Tasks may not be inside of other structures"),
            ErrorKind::InvalidTaskType => String::from_str("Invalid task type "),
            ErrorKind::InvalidNumber => String::from_str("Invalid number "),
            ErrorKind::PeriodTooShort => String::from_str("Period below allowable limit 20"),
            ErrorKind::RoutineOutsideTask => String::from_str("Routines must be defined inside of a task"),
            ErrorKind::DuplicateMain => String::from_str("There can only be one Main routine"),
            ErrorKind::RungOutsideRoutine => String::from_str("Rungs must be defined inside of a routine"),
            ErrorKind::UndeclaredTag => String::from_str("Referencing tag "),
            ErrorKind::IndexOutOfBounds => String::from_str("Index "),
            ErrorKind::UnmatchedEndRung => String::from_str("Missing matching RUNG"),
            ErrorKind::UnmatchedEndRoutine => String::from_str("Missing matching ENDRUNG"),
            ErrorKind::UnmatchedEndTask => String::from_str("Missing matching ENDROUTINE"),
            ErrorKind::TooManyEnds => String::from_str("Too many end statements"),
            ErrorKind::MissingMain => String::from_str("There must be a single Main routine"),
            ErrorKind::TagNameTooLong => String::from_str("Tag name "),
            ErrorKind::EmptyTagArray => String::from_str("Length of tag array must be greater than zero"),
            ErrorKind::UndeclaredEvent => String::from_str("Emitted event "),
            ErrorKind::UndeclaredRoutine => String::from_str("Routine "),
            ErrorKind::InputAfterOutput => String::from_str("Input instruction appears after an output instruction"),
            ErrorKind::InvalidInstruction => String::from_str("Invalid instruction"),
        }
    }

    /// The words after the subject in the message.
    fn closing(&self) -> (text: &'static str)
        ensures
            text@ == closing(self.kind),
    {
        match self.kind {
            ErrorKind::UndeclaredTag => " before assignment",
            ErrorKind::IndexOutOfBounds => " is out of bounds for the tag array",
            ErrorKind::TagNameTooLong => " too long. The limit is 7 characters",
            ErrorKind::UndeclaredEvent => " does not correspond to a task",
            ErrorKind::UndeclaredRoutine => " does not exist",
            _ => "",
        }
    }

    /// Whether the message names the subject.
    fn names_subject(&self) -> (named: bool)
        ensures
            named == names_subject(self.kind),
    {
        match self.kind {
            ErrorKind::UnexpectedToken(_) => true,
            ErrorKind::IllegalNumber => false,
            ErrorKind::UnknownToken => true,
            ErrorKind::InvalidStatement => true,
            ErrorKind::NestedTask => false,
            ErrorKind::InvalidTaskType => true,
            ErrorKind::InvalidNumber => true,
            ErrorKind::PeriodTooShort => false,
            ErrorKind::RoutineOutsideTask => false,
            ErrorKind::DuplicateMain => false,
            ErrorKind::RungOutsideRoutine => false,
            ErrorKind::UndeclaredTag => true,
            ErrorKind::IndexOutOfBounds => true,
            ErrorKind::UnmatchedEndRung => false,
            ErrorKind::UnmatchedEndRoutine => false,
            ErrorKind::UnmatchedEndTask => false,
            ErrorKind::TooManyEnds => false,
            ErrorKind::MissingMain => false,
            ErrorKind::TagNameTooLong => true,
            ErrorKind::EmptyTagArray => false,
            ErrorKind::UndeclaredEvent => true,
            ErrorKind::UndeclaredRoutine => true,
            ErrorKind::InputAfterOutput => false,
            ErrorKind::InvalidInstruction => false,
        }
    }

    /// The message of the failure, for a human reader.
    pub fn message(&self) -> (text: String)
        ensures
            text@ == self@.message(),
    {
        let mut text = self.opening();
        if self.names_subject() {
            text.append(self.subject.as_str());
            text.append(self.closing());
        }
        text
    }
}

} // verus!
