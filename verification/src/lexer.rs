//! The tokenizer: source text to typed tokens, one at a time.

use crate::error::{CompileError, ErrorKind, Failure};
use crate::text::{
    alphabetic, digits_end, is_decimal_digit, is_digit, lemma_digits_end_in_text, same_text,
};
use vstd::prelude::*;
use vstd::string::*;

verus! {

/// The kinds of token.
#[derive(Debug, PartialEq, Eq, Clone, Copy, Structural)]
pub enum TokenType {
    Eof,
    NewLine,
    Number,
    Identifier,
    Tag,
    Task,
    EndTask,
    Period,
    Event,
    Continuous,
    Routine,
    EndRoutine,
    Rung,
    EndRung,
    False,
    True,
    Xic,
    Xio,
    Ote,
    Otl,
    Otu,
    Jsr,
    Ret,
    Emit,
    Eq,
    OpenAngle,
    CloseAngle,
    OpenBracket,
    CloseBracket,
    Indexer,
}

impl Default for TokenType {
    fn default() -> (kind: TokenType)
        ensures
            kind == TokenType::Eof,
    {
        TokenType::Eof
    }
}

/// How a kind of token is called in a message.
pub open spec fn kind_name(kind: TokenType) -> Seq<char> {
    match kind {
        TokenType::Eof => "end of input"@,
        TokenType::NewLine => "end of line"@,
        TokenType::Number => "a number"@,
        TokenType::Identifier => "an identifier"@,
        TokenType::Tag => "TAG"@,
        TokenType::Task => "TASK"@,
        TokenType::EndTask => "ENDTASK"@,
        TokenType::Period => "PERIOD"@,
        TokenType::Event => "EVENT"@,
        TokenType::Continuous => "CONTINUOUS"@,
        TokenType::Routine => "ROUTINE"@,
        TokenType::EndRoutine => "ENDROUTINE"@,
        TokenType::Rung => "RUNG"@,
        TokenType::EndRung => "ENDRUNG"@,
        TokenType::False => "FALSE"@,
        TokenType::True => "TRUE"@,
        TokenType::Xic => "XIC"@,
        TokenType::Xio => "XIO"@,
        TokenType::Ote => "OTE"@,
        TokenType::Otl => "OTL"@,
        TokenType::Otu => "OTU"@,
        TokenType::Jsr => "JSR"@,
        TokenType::Ret => "RET"@,
        TokenType::Emit => "EMIT"@,
        TokenType::Eq => "="@,
        TokenType::OpenAngle => "<"@,
        TokenType::CloseAngle => ">"@,
        TokenType::OpenBracket => "["@,
        TokenType::CloseBracket => "]"@,
        TokenType::Indexer => "."@,
    }
}

impl TokenType {
    /// How this kind of token is called in a message.
    pub fn name(&self) -> (name: &'static str)
        ensures
            name@ == kind_name(*self),
    {
        match self {
            TokenType::Eof => "end of input",
            TokenType::NewLine => "end of line",
            TokenType::Number => "a number",
            TokenType::Identifier => "an identifier",
            TokenType::Tag => "TAG",
            TokenType::Task => "TASK",
            TokenType::EndTask => "ENDTASK",
            TokenType::Period => "PERIOD",
            TokenType::Event => "EVENT",
            TokenType::Continuous => "CONTINUOUS",
            TokenType::Routine => "ROUTINE",
            TokenType::EndRoutine => "ENDROUTINE",
            TokenType::Rung => "RUNG",
            TokenType::EndRung => "ENDRUNG",
            TokenType::False => "FALSE",
            TokenType::True => "TRUE",
            TokenType::Xic => "XIC",
            TokenType::Xio => "XIO",
            TokenType::Ote => "OTE",
            TokenType::Otl => "OTL",
            TokenType::Otu => "OTU",
            TokenType::Jsr => "JSR",
            TokenType::Ret => "RET",
            TokenType::Emit => "EMIT",
            TokenType::Eq => "=",
            TokenType::OpenAngle => "<",
            TokenType::CloseAngle => ">",
            TokenType::OpenBracket => "[",
            TokenType::CloseBracket => "]",
            TokenType::Indexer => ".",
        }
    }
}

/// The mathematical content of a token: its kind and the characters it spans.
pub struct TokenView {
    pub kind: TokenType,
    pub text: Seq<char>,
}

/// A token of the source text.
#[derive(Debug, Clone)]
pub struct Token {
    text: String,
    token_type: TokenType,
}

impl View for Token {
    type V = TokenView;

    closed spec fn view(&self) -> TokenView {
        TokenView { kind: self.token_type, text: self.text@ }
    }
}

impl Default for Token {
    /// The end-of-input token with empty text.
    fn default() -> (token: Token)
        ensures
            token@ == blank_token(),
    {
        Token { text: String::new(), token_type: TokenType::Eof }
    }
}

/// The token that fills the slots of a lookahead window before anything was read.
pub open spec fn blank_token() -> TokenView {
    TokenView { kind: TokenType::Eof, text: Seq::empty() }
}

/// The kind that the word `text` has as a keyword. Keywords are matched in their
/// exact uppercase spelling.
pub open spec fn keyword(text: Seq<char>) -> Option<TokenType> {
    if text == "TAG"@ {
        Some(TokenType::Tag)
    } else if text == "TASK"@ {
        Some(TokenType::Task)
    } else if text == "ENDTASK"@ {
        Some(TokenType::EndTask)
    } else if text == "PERIOD"@ {
        Some(TokenType::Period)
    } else if text == "EVENT"@ {
        Some(TokenType::Event)
    } else if text == "CONTINUOUS"@ {
        Some(TokenType::Continuous)
    } else if text == "ROUTINE"@ {
        Some(TokenType::Routine)
    } else if text == "ENDROUTINE"@ {
        Some(TokenType::EndRoutine)
    } else if text == "RUNG"@ {
        Some(TokenType::Rung)
    } else if text == "ENDRUNG"@ {
        Some(TokenType::EndRung)
    } else if text == "FALSE"@ {
        Some(TokenType::False)
    } else if text == "TRUE"@ {
        Some(TokenType::True)
    } else if text == "XIC"@ {
        Some(TokenType::Xic)
    } else if text == "XIO"@ {
        Some(TokenType::Xio)
    } else if text == "OTE"@ {
        Some(TokenType::Ote)
    } else if text == "OTL"@ {
        Some(TokenType::Otl)
    } else if text == "OTU"@ {
        Some(TokenType::Otu)
    } else if text == "JSR"@ {
        Some(TokenType::Jsr)
    } else if text == "RET"@ {
        Some(TokenType::Ret)
    } else if text == "EMIT"@ {
        Some(TokenType::Emit)
    } else {
        None
    }
}

impl Token {
    /// The kind of the token.
    pub fn get_type(&self) -> (kind: &TokenType)
        ensures
            *kind == self@.kind,
    {
        &self.token_type
    }

    /// The characters that the token spans.
    pub fn get_text(&self) -> (text: &str)
        ensures
            text@ == self@.text,
    {
        self.text.as_str()
    }

    /// The keyword kind of a word, if it is a keyword.
    pub fn is_keyword(token_text: &str) -> (kind: Option<TokenType>)
        ensures
            kind == keyword(token_text@),
    {
        if same_text(token_text, "TAG") {
            Some(TokenType::Tag)
        } else if same_text(token_text, "TASK") {
            Some(TokenType::Task)
        } else if same_text(token_text, "ENDTASK") {
            Some(TokenType::EndTask)
        } else if same_text(token_text, "PERIOD") {
            Some(TokenType::Period)
        } else if same_text(token_text, "EVENT") {
            Some(TokenType::Event)
        } else if same_text(token_text, "CONTINUOUS") {
            Some(TokenType::Continuous)
        } else if same_text(token_text, "ROUTINE") {
            Some(TokenType::Routine)
        } else if same_text(token_text, "ENDROUTINE") {
            Some(TokenType::EndRoutine)
        } else if same_text(token_text, "RUNG") {
            Some(TokenType::Rung)
        } else if same_text(token_text, "ENDRUNG") {
            Some(TokenType::EndRung)
        } else if same_text(token_text, "FALSE") {
            Some(TokenType::False)
        } else if same_text(token_text, "TRUE") {
            Some(TokenType::True)
        } else if same_text(token_text, "XIC") {
            Some(TokenType::Xic)
        } else if same_text(token_text, "XIO") {
            Some(TokenType::Xio)
        } else if same_text(token_text, "OTE") {
            Some(TokenType::Ote)
        } else if same_text(token_text, "OTL") {
            Some(TokenType::Otl)
        } else if same_text(token_text, "OTU") {
            Some(TokenType::Otu)
        } else if same_text(token_text, "JSR") {
            Some(TokenType::Jsr)
        } else if same_text(token_text, "RET") {
            Some(TokenType::Ret)
        } else if same_text(token_text, "EMIT") {
            Some(TokenType::Emit)
        } else {
            None
        }
    }
}

/// The character under a cursor at `pos`: the NUL character once the cursor has
/// passed the end of the text.
pub open spec fn char_at(src: Seq<char>, pos: int) -> char {
    if 0 <= pos < src.len() {
        src[pos]
    } else {
        '\0'
    }
}

/// The cursor one character further; a cursor at the end stays there.
pub open spec fn advance(src: Seq<char>, pos: int) -> int {
    if pos < src.len() {
        pos + 1
    } else {
        pos
    }
}

/// Space, tab and carriage return separate tokens and mean nothing else.
pub open spec fn is_blank(c: char) -> bool {
    c == ' ' || c == '\t' || c == '\r'
}

/// The first position at or after `pos` that holds no blank.
pub open spec fn skip_blanks(src: Seq<char>, pos: int) -> int
    decreases src.len() - pos,
{
    if 0 <= pos < src.len() && is_blank(src[pos]) {
        skip_blanks(src, pos + 1)
    } else {
        pos
    }
}

/// The first position at or after `pos` that holds an end-of-line character.
pub open spec fn line_end(src: Seq<char>, pos: int) -> int
    decreases src.len() - pos,
{
    if 0 <= pos < src.len() && src[pos] != '\n' {
        line_end(src, pos + 1)
    } else {
        pos
    }
}

/// A comment runs from `#` up to, and not including, the end of its line.
pub open spec fn skip_comment(src: Seq<char>, pos: int) -> int {
    if char_at(src, pos) == '#' {
        line_end(src, pos)
    } else {
        pos
    }
}

/// Whether the character `c`, of which `letter` says whether it is alphabetic,
/// continues a word: letters and decimal digits do, the NUL character never.
pub open spec fn word_character(c: char, letter: bool) -> bool {
    c != '\0' && (letter || is_digit(c))
}

/// The characters that continue a word.
pub open spec fn is_word_char(c: char) -> bool {
    word_character(c, alphabetic(c))
}

/// The first position at or after `pos` that holds no word character.
pub open spec fn word_end(src: Seq<char>, pos: int) -> int
    decreases src.len() - pos,
{
    if 0 <= pos < src.len() && is_word_char(src[pos]) {
        word_end(src, pos + 1)
    } else {
        pos
    }
}

/// The kind of the token that the single character `c` makes, if it makes one.
pub open spec fn punctuation(c: char) -> Option<TokenType> {
    if c == '=' {
        Some(TokenType::Eq)
    } else if c == '<' {
        Some(TokenType::OpenAngle)
    } else if c == '>' {
        Some(TokenType::CloseAngle)
    } else if c == '[' {
        Some(TokenType::OpenBracket)
    } else if c == ']' {
        Some(TokenType::CloseBracket)
    } else if c == '\n' {
        Some(TokenType::NewLine)
    } else if c == '.' {
        Some(TokenType::Indexer)
    } else {
        None
    }
}

/// The number literal that starts at `start`: one or more digits, then
/// optionally a `.` and one or more digits.
pub open spec fn scan_number(src: Seq<char>, start: int) -> Result<(TokenView, int), Failure> {
    let whole = digits_end(src, start + 1);
    if char_at(src, whole) == '.' {
        if is_digit(char_at(src, whole + 1)) {
            let end = digits_end(src, whole + 1);
            Ok((TokenView { kind: TokenType::Number, text: src.subrange(start, end) }, end))
        } else {
            Err(Failure { kind: ErrorKind::IllegalNumber, subject: Seq::empty() })
        }
    } else {
        Ok((TokenView { kind: TokenType::Number, text: src.subrange(start, whole) }, whole))
    }
}

/// The keyword or identifier that starts at `start`.
pub open spec fn scan_word(src: Seq<char>, start: int) -> (TokenView, int) {
    let end = word_end(src, start + 1);
    let text = src.subrange(start, end);
    let kind = match keyword(text) {
        Some(kind) => kind,
        None => TokenType::Identifier,
    };
    (TokenView { kind, text }, end)
}

/// What a character can start.
#[derive(Debug, PartialEq, Eq, Clone, Copy, Structural)]
pub enum CharacterClass {
    /// A token of its own, of the given kind.
    Single(TokenType),
    /// A number literal.
    Digit,
    /// A keyword or an identifier.
    Letter,
    /// No token.
    Other,
}

/// The class of the character `c`, of which `letter` says whether it is
/// alphabetic. The NUL character starts no token; of the others, punctuation
/// comes first, then digits, then letters.
pub open spec fn character_class(c: char, letter: bool) -> CharacterClass {
    if c == '\0' {
        CharacterClass::Other
    } else {
        match punctuation(c) {
            Some(kind) => CharacterClass::Single(kind),
            None => if is_digit(c) {
                CharacterClass::Digit
            } else if letter {
                CharacterClass::Letter
            } else {
                CharacterClass::Other
            },
        }
    }
}

/// The end-of-input token. Its text is one NUL character.
pub open spec fn end_of_input() -> TokenView {
    TokenView { kind: TokenType::Eof, text: seq!['\0'] }
}

/// The next token of `src` for a cursor at `pos`, with the cursor after it; or the
/// lexical failure met on the way.
///
/// Blanks and a comment before the token are skipped. The end-of-input token
/// comes exactly when nothing of the text is left after them, and leaves the
/// cursor where it is. A character that starts no token, the NUL character
/// among them, is an unknown token.
pub open spec fn scan(src: Seq<char>, pos: int) -> Result<(TokenView, int), Failure> {
    let start = skip_comment(src, skip_blanks(src, pos));
    let c = char_at(src, start);
    if start >= src.len() {
        Ok((end_of_input(), start))
    } else {
        match character_class(c, alphabetic(c)) {
            CharacterClass::Single(kind) => Ok((TokenView { kind, text: seq![c] }, start + 1)),
            CharacterClass::Digit => scan_number(src, start),
            CharacterClass::Letter => Ok(scan_word(src, start)),
            CharacterClass::Other => Err(
                Failure { kind: ErrorKind::UnknownToken, subject: seq![c] },
            ),
        }
    }
}

/// The class of the character `c`, of which `letter` says whether it is
/// alphabetic.
pub fn classify(c: char, letter: bool) -> (class: CharacterClass)
    ensures
        class == character_class(c, letter),
{
    if c == '\0' {
        CharacterClass::Other
    } else if c == '=' {
        CharacterClass::Single(TokenType::Eq)
    } else if c == '<' {
        CharacterClass::Single(TokenType::OpenAngle)
    } else if c == '>' {
        CharacterClass::Single(TokenType::CloseAngle)
    } else if c == '[' {
        CharacterClass::Single(TokenType::OpenBracket)
    } else if c == ']' {
        CharacterClass::Single(TokenType::CloseBracket)
    } else if c == '\n' {
        CharacterClass::Single(TokenType::NewLine)
    } else if c == '.' {
        CharacterClass::Single(TokenType::Indexer)
    } else if is_decimal_digit(c) {
        CharacterClass::Digit
    } else if letter {
        CharacterClass::Letter
    } else {
        CharacterClass::Other
    }
}

/// Whether the character `c`, of which `letter` says whether it is alphabetic,
/// continues a word.
pub fn continues_word(c: char, letter: bool) -> (continues: bool)
    ensures
        continues == word_character(c, letter),
{
    c != '\0' && (letter || is_decimal_digit(c))
}

/// The number of end-of-line characters before position `pos`.
pub open spec fn newlines(src: Seq<char>, pos: int) -> nat
    decreases pos,
{
    if pos <= 0 || pos > src.len() {
        0
    } else {
        newlines(src, pos - 1) + if src[pos - 1] == '\n' {
            1nat
        } else {
            0nat
        }
    }
}

/// The mathematical content of a tokenizer: the text, which ends with the
/// end-of-line character added at construction, and the cursor into it.
pub struct LexerState {
    pub source: Seq<char>,
    pub position: int,
}

/// A cursor over a source text that hands out its tokens in order.
pub struct Lexer {
    source_code: String,
    characters: Vec<char>,
    line_number: usize,
    current_character: char,
    current_position: usize,
}

impl View for Lexer {
    type V = LexerState;

    closed spec fn view(&self) -> LexerState {
        LexerState { source: self.characters@, position: self.current_position as int }
    }
}

/// The characters of `text`, in order.
fn characters_of(text: &str) -> (characters: Vec<char>)
    ensures
        characters@ == text@,
{
    broadcast use vstd::string::group_string_axioms;

    let mut characters: Vec<char> = Vec::new();
    for c in it: text.chars()
        invariant
            it.seq() == text@,
            characters@ == text@.take(it.index()),
    {
        characters.push(c);
    }
    characters
}

impl Lexer {
    /// The invariant of a tokenizer: the text ends with an end-of-line character,
    /// the cursor is within the text or just after it, and the cached character
    /// and the line counter agree with the cursor.
    pub closed spec fn wf(&self) -> bool {
        &&& self.source_code@ == self.characters@
        &&& self.characters@.len() > 0
        &&& self.characters@.last() == '\n'
        &&& self.characters@.len() < usize::MAX
        &&& self.current_position <= self.characters@.len()
        &&& self.current_character == char_at(self.characters@, self.current_position as int)
        &&& self.line_number == 1 + newlines(self.characters@, self.current_position as int)
        &&& self.line_number <= self.current_position + 1
    }

    /// The cursor of a well-formed tokenizer is within the text or just after it,
    /// and the text is shorter than the largest `usize`.
    pub proof fn lemma_cursor_in_text(&self)
        requires
            self.wf(),
        ensures
            0 <= self@.position <= self@.source.len() < usize::MAX,
    {
    }

    /// A tokenizer at the start of `source_code`, to which one end-of-line
    /// character is appended so that the last statement is terminated.
    pub fn new(source_code: String) -> (lexer: Lexer)
        requires
            source_code@.len() + 2 <= usize::MAX,
        ensures
            lexer.wf(),
            lexer@ == (LexerState { source: source_code@.push('\n'), position: 0 }),
    {
        let mut source_code = source_code;
        source_code.push('\n');
        let characters = characters_of(source_code.as_str());
        let first = characters[0];
        Lexer {
            source_code,
            characters,
            line_number: 1,
            current_character: first,
            current_position: 0,
        }
    }

    /// The whole text, with the end-of-line character that was appended.
    pub fn source_code(&self) -> (text: &str)
        requires
            self.wf(),
        ensures
            text@ == self@.source,
    {
        self.source_code.as_str()
    }

    /// The character under the cursor; NUL at the end of the text.
    pub fn current_character(&self) -> (c: char)
        requires
            self.wf(),
        ensures
            c == char_at(self@.source, self@.position),
    {
        self.current_character
    }

    /// The position of the cursor, counted in characters from the start.
    pub fn current_position(&self) -> (position: usize)
        requires
            self.wf(),
        ensures
            position == self@.position,
            position <= self@.source.len(),
    {
        self.current_position
    }

    /// The line of the cursor, counted from one.
    pub fn line_number(&self) -> (line: usize)
        requires
            self.wf(),
        ensures
            line == 1 + newlines(self@.source, self@.position),
    {
        self.line_number
    }

    /// Moves the cursor one character on; at the end of the text it stays.
    pub fn next_character(&mut self)
        requires
            old(self).wf(),
        ensures
            final(self).wf(),
            final(self)@.source == old(self)@.source,
            final(self)@.position == advance(old(self)@.source, old(self)@.position),
    {
        if self.current_position < self.characters.len() {
            if self.current_character == '\n' {
                self.line_number += 1;
            }
            self.current_position += 1;
        }
        if self.current_position < self.characters.len() {
            self.current_character = self.characters[self.current_position];
        } else {
            self.current_character = '\0';
        }
    }

    /// The character after the one under the cursor; NUL if there is none.
    pub fn peek(&self) -> (c: char)
        requires
            self.wf(),
        ensures
            c == char_at(self@.source, self@.position + 1),
    {
        if self.current_position + 1 >= self.characters.len() {
            return '\0';
        }
        self.characters[self.current_position + 1]
    }

    fn skip_whitespace(&mut self)
        requires
            old(self).wf(),
        ensures
            final(self).wf(),
            final(self)@.source == old(self)@.source,
            final(self)@.position == skip_blanks(old(self)@.source, old(self)@.position),
            old(self)@.position <= final(self)@.position,
    {
        while self.current_character == ' ' || self.current_character == '\t'
            || self.current_character == '\r'
            invariant
                self.wf(),
                self@.source == old(self)@.source,
                old(self)@.position <= self@.position,
                skip_blanks(self@.source, self@.position) == skip_blanks(
                    old(self)@.source,
                    old(self)@.position,
                ),
            decreases self@.source.len() - self@.position,
        {
            self.next_character();
        }
    }

    fn skip_comment(&mut self)
        requires
            old(self).wf(),
        ensures
            final(self).wf(),
            final(self)@.source == old(self)@.source,
            final(self)@.position == skip_comment(old(self)@.source, old(self)@.position),
            old(self)@.position <= final(self)@.position,
    {
        if self.current_character == '#' {
            while self.current_character != '\n'
                invariant
                    self.wf(),
                    self@.source == old(self)@.source,
                    old(self)@.position <= self@.position < self@.source.len(),
                    line_end(self@.source, self@.position) == line_end(
                        old(self)@.source,
                        old(self)@.position,
                    ),
                decreases self@.source.len() - self@.position,
            {
                self.next_character();
            }
        }
    }

    /// The characters from `start` up to, and not including, `end`, as a string.
    fn slice(&self, start: usize, end: usize) -> (text: String)
        requires
            self.wf(),
            start <= end <= self@.source.len(),
        ensures
            text@ == self@.source.subrange(start as int, end as int),
    {
        let mut text = String::new();
        let mut i = start;
        while i < end
            invariant
                start <= i <= end <= self.characters@.len(),
                text@ == self.characters@.subrange(start as int, i as int),
            decreases end - i,
        {
            text.push(self.characters[i]);
            proof {
                assert(self.characters@.subrange(start as int, i as int).push(
                    self.characters@[i as int],
                ) =~= self.characters@.subrange(start as int, i + 1));
            }
            i += 1;
        }
        text
    }

    /// Moves the cursor to the last digit of the run of digits that it is in.
    fn digits(&mut self)
        requires
            old(self).wf(),
            old(self)@.position < old(self)@.source.len(),
        ensures
            final(self).wf(),
            final(self)@.source == old(self)@.source,
            final(self)@.position + 1 == digits_end(
                old(self)@.source,
                old(self)@.position + 1,
            ),
            old(self)@.position <= final(self)@.position < final(self)@.source.len(),
    {
        while is_decimal_digit(self.peek())
            invariant
                self.wf(),
                self@.source == old(self)@.source,
                old(self)@.position <= self@.position < self@.source.len(),
                digits_end(self@.source, self@.position + 1) == digits_end(
                    old(self)@.source,
                    old(self)@.position + 1,
                ),
            decreases self@.source.len() - self@.position,
        {
            self.next_character();
        }
    }

    /// The token that starts with the digit under the cursor.
    fn number(&mut self) -> (r: Result<Token, CompileError>)
        requires
            old(self).wf(),
            is_digit(char_at(old(self)@.source, old(self)@.position)),
        ensures
            final(self).wf(),
            final(self)@.source == old(self)@.source,
            old(self)@.position <= final(self)@.position < final(self)@.source.len(),
            match scan_number(old(self)@.source, old(self)@.position) {
                Ok((token, next)) => r is Ok && r->Ok_0@ == token && final(self)@.position + 1
                    == next,
                Err(failure) => r is Err && r->Err_0@ == failure,
            },
    {
        let start = self.current_position;
        self.digits();
        if self.peek() == '.' {
            self.next_character();
            if !is_decimal_digit(self.peek()) {
                return Err(CompileError::bare(ErrorKind::IllegalNumber));
            }
            self.digits();
        }
        let text = self.slice(start, self.current_position + 1);
        Ok(Token { text, token_type: TokenType::Number })
    }

    /// The token that starts with the letter under the cursor.
    fn word(&mut self) -> (token: Token)
        requires
            old(self).wf(),
            old(self)@.position < old(self)@.source.len(),
        ensures
            final(self).wf(),
            final(self)@.source == old(self)@.source,
            old(self)@.position <= final(self)@.position < final(self)@.source.len(),
            token@ == scan_word(old(self)@.source, old(self)@.position).0,
            final(self)@.position + 1 == scan_word(old(self)@.source, old(self)@.position).1,
    {
        let start = self.current_position;
        while self.current_position + 1 < self.characters.len() && continues_word(
            self.peek(),
            self.peek().is_alphabetic(),
        )
            invariant
                self.wf(),
                self@.source == old(self)@.source,
                old(self)@.position <= self@.position < self@.source.len(),
                word_end(self@.source, self@.position + 1) == word_end(
                    old(self)@.source,
                    old(self)@.position + 1,
                ),
            decreases self@.source.len() - self@.position,
        {
            self.next_character();
        }
        let text = self.slice(start, self.current_position + 1);
        let kind = match Token::is_keyword(text.as_str()) {
            Some(kind) => kind,
            None => TokenType::Identifier,
        };
        Token { text, token_type: kind }
    }

    /// The token of one character that is under the cursor.
    fn single(&self, kind: TokenType) -> (token: Token)
        requires
            self.wf(),
        ensures
            token@ == (TokenView {
                kind,
                text: seq![char_at(self@.source, self@.position)],
            }),
    {
        let mut text = String::new();
        text.push(self.current_character);
        proof {
            assert(text@ =~= seq![self.current_character]);
        }
        Token { text, token_type: kind }
    }

    /// Reads the next token and moves the cursor past it.
    ///
    /// A failure leaves the text as it was; the cursor is then of no further use.
    /// The cursor never moves backwards, and every token but the end-of-input
    /// token moves it forwards. Once the end of the input was returned, every
    /// later call returns it again.
    pub fn get_token(&mut self) -> (r: Result<Token, CompileError>)
        requires
            old(self).wf(),
        ensures
            final(self).wf(),
            final(self)@.source == old(self)@.source,
            old(self)@.position <= final(self)@.position,
            match scan(old(self)@.source, old(self)@.position) {
                Ok((token, next)) => r is Ok && r->Ok_0@ == token && final(self)@.position == next,
                Err(failure) => r is Err && r->Err_0@ == failure,
            },
            r matches Ok(token) && token@.kind != TokenType::Eof ==> old(self)@.position
                < final(self)@.position,
    {
        self.skip_whitespace();
        self.skip_comment();
        if self.current_position >= self.characters.len() {
            return Ok(self.single(TokenType::Eof));
        }
        let c = self.current_character;
        let token = match classify(c, c.is_alphabetic()) {
            CharacterClass::Single(kind) => self.single(kind),
            CharacterClass::Digit => self.number()?,
            CharacterClass::Letter => self.word(),
            CharacterClass::Other => {
                let mut subject = String::new();
                subject.push(c);
                proof {
                    assert(subject@ =~= seq![c]);
                }
                return Err(CompileError { kind: ErrorKind::UnknownToken, subject });
            },
        };
        self.next_character();
        Ok(token)
    }
}

/// Skipping blanks moves a cursor forwards and keeps it within the text.
pub proof fn lemma_skip_blanks_in_text(src: Seq<char>, pos: int)
    requires
        0 <= pos <= src.len(),
    ensures
        pos <= skip_blanks(src, pos) <= src.len(),
    decreases src.len() - pos,
{
    if pos < src.len() && is_blank(src[pos]) {
        lemma_skip_blanks_in_text(src, pos + 1);
    }
}

/// The end of a line is at or after the cursor and within the text.
pub proof fn lemma_line_end_in_text(src: Seq<char>, pos: int)
    requires
        0 <= pos <= src.len(),
    ensures
        pos <= line_end(src, pos) <= src.len(),
    decreases src.len() - pos,
{
    if pos < src.len() && src[pos] != '\n' {
        lemma_line_end_in_text(src, pos + 1);
    }
}

/// The end of a word is at or after the cursor and within the text.
pub proof fn lemma_word_end_in_text(src: Seq<char>, pos: int)
    requires
        0 <= pos <= src.len(),
    ensures
        pos <= word_end(src, pos) <= src.len(),
    decreases src.len() - pos,
{
    if pos < src.len() && is_word_char(src[pos]) {
        lemma_word_end_in_text(src, pos + 1);
    }
}

/// Scanning never moves the cursor backwards or out of the text. Every token
/// but the end-of-input token takes at least one character, and the
/// end-of-input token comes with the cursor at the end of the text.
pub proof fn lemma_scan_progress(src: Seq<char>, pos: int)
    requires
        0 <= pos <= src.len(),
    ensures
        scan(src, pos) matches Ok((token, next)) ==> pos <= next <= src.len() && (token.kind
            != TokenType::Eof ==> pos < next) && (token.kind == TokenType::Eof ==> next
            == src.len()),
{
    let blanks = skip_blanks(src, pos);
    lemma_skip_blanks_in_text(src, pos);
    lemma_line_end_in_text(src, blanks);
    let start = skip_comment(src, blanks);
    if start < src.len() {
        lemma_digits_end_in_text(src, start + 1);
        lemma_word_end_in_text(src, start + 1);
        let whole = digits_end(src, start + 1);
        if whole < src.len() {
            lemma_digits_end_in_text(src, whole + 1);
        }
    }
}

/// The end of the input is final: a cursor from which the end-of-input token was
/// read gives the end-of-input token again, and stays where it is, however
/// often it is asked.
pub proof fn lemma_end_of_input_is_absorbing(src: Seq<char>, pos: int)
    requires
        0 <= pos <= src.len(),
    ensures
        scan(src, pos) matches Ok((token, next)) ==> (token.kind == TokenType::Eof ==> scan(
            src,
            next,
        ) == Ok::<(TokenView, int), Failure>((end_of_input(), next))),
{
    lemma_scan_progress(src, pos);
}

/// The end-of-input token is read exactly where only blanks and a comment are
/// left of the text: a NUL character within the text does not end the input.
pub proof fn lemma_end_of_input_is_the_end(src: Seq<char>, pos: int)
    requires
        0 <= pos <= src.len(),
    ensures
        scan(src, pos) matches Ok((token, next)) ==> (token.kind == TokenType::Eof
            <==> skip_comment(src, skip_blanks(src, pos)) == src.len()),
        char_at(src, skip_comment(src, skip_blanks(src, pos))) == '\0' && skip_comment(
            src,
            skip_blanks(src, pos),
        ) < src.len() ==> scan(src, pos) == Err::<(TokenView, int), Failure>(
            Failure { kind: ErrorKind::UnknownToken, subject: seq!['\0'] },
        ),
{
    let blanks = skip_blanks(src, pos);
    lemma_skip_blanks_in_text(src, pos);
    lemma_line_end_in_text(src, blanks);
}

} // verus!
