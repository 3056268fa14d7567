//! The buffer that collects the translated text until it is written out.

use vstd::prelude::*;
use vstd::string::*;

verus! {

/// The mathematical content of an emitter: where the text is to go, and the
/// text collected so far.
pub struct EmitterState {
    pub path: Seq<char>,
    pub code: Seq<char>,
}

/// Collects translated text for one destination.
pub struct Emitter<'a> {
    full_path: &'a str,
    compiled_code: String,
}

impl<'a> View for Emitter<'a> {
    type V = EmitterState;

    closed spec fn view(&self) -> EmitterState {
        EmitterState { path: self.full_path@, code: self.compiled_code@ }
    }
}

impl<'a> Emitter<'a> {
    /// An emitter for the destination `full_path` with no text yet.
    pub fn new(full_path: &'a str) -> (emitter: Emitter<'a>)
        ensures
            emitter@ == (EmitterState { path: full_path@, code: Seq::empty() }),
    {
        Emitter { full_path, compiled_code: String::new() }
    }

    /// Appends `chunk` to the text.
    pub fn emit(&mut self, chunk: &str)
        ensures
            final(self)@ == (EmitterState { code: old(self)@.code + chunk@, ..old(self)@ }),
    {
        self.compiled_code.append(chunk);
    }

    /// Appends `chunk` and a line terminator to the text.
    pub fn emit_line(&mut self, chunk: &str)
        ensures
            final(self)@ == (EmitterState {
                code: (old(self)@.code + chunk@).push('\n'),
                ..old(self)@
            }),
    {
        self.compiled_code.append(chunk);
        self.compiled_code.push('\n');
    }

    /// The destination that the text is meant for.
    pub fn path(&self) -> (path: &'a str)
        ensures
            path@ == self@.path,
    {
        self.full_path
    }

    /// The text collected so far.
    pub fn code(&self) -> (code: &str)
        ensures
            code@ == self@.code,
    {
        self.compiled_code.as_str()
    }
}

} // verus!
