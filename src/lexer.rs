use vstd::prelude::*;

pub mod token;

use token::{BraceSide, BraceType, Identifier, Lexeme, LitKind, Literal, Separator, Token};

verus! {

/// Where the scanner stands: `line` counts from 1, `column` is the number of characters
/// consumed on the current line, and `offset` the number consumed in all.
#[derive(Debug, PartialEq, Eq, Structural, Clone, Copy)]
pub struct Position {
    pub line: usize,
    pub column: usize,
    pub offset: usize,
}

impl Position {
    fn advance(&mut self)
        requires
            old(self).column < usize::MAX,
            old(self).offset < usize::MAX,
        ensures
            final(self).line == old(self).line,
            final(self).column == old(self).column + 1,
            final(self).offset == old(self).offset + 1,
    {
        self.column = self.column + 1;
        self.offset = self.offset + 1;
    }

    fn newline(&mut self)
        requires
            old(self).line < usize::MAX,
        ensures
            final(self).line == old(self).line + 1,
            final(self).column == 0,
            final(self).offset == old(self).offset,
    {
        self.column = 0;
        self.line = self.line + 1;
    }
}

/// Line of the character at index `i` of `s`, counting the newlines before it.
pub open spec fn line_at(s: Seq<char>, i: int) -> int
    decreases i,
{
    if i <= 0 {
        1
    } else if s[i - 1] == '\n' {
        line_at(s, i - 1) + 1
    } else {
        line_at(s, i - 1)
    }
}

/// Number of characters between the last newline before index `i` and `i`.
pub open spec fn column_at(s: Seq<char>, i: int) -> int
    decreases i,
{
    if i <= 0 {
        0
    } else if s[i - 1] == '\n' {
        0
    } else {
        column_at(s, i - 1) + 1
    }
}

/// The position reached once the first `i` characters of `s` are consumed.
pub open spec fn position_at(s: Seq<char>, i: int) -> Position {
    Position { line: line_at(s, i) as usize, column: column_at(s, i) as usize, offset: i as usize }
}

proof fn lemma_position_bounds(s: Seq<char>, i: int)
    requires
        0 <= i <= s.len(),
    ensures
        1 <= line_at(s, i) <= i + 1,
        0 <= column_at(s, i) <= i,
    decreases i,
{
    if i > 0 {
        lemma_position_bounds(s, i - 1);
    }
}

#[derive(Debug, PartialEq, Eq, Structural, Clone, Copy)]
pub enum ErrorKind {
    /// The character fits no category of the configuration nor the fixed punctuation.
    UnknownCharacter,
    /// A second decimal point inside a numeric literal.
    InvalidNumericLiteral,
}

/// A diagnostic: what went wrong, on which character, and where.
#[derive(Debug, PartialEq, Eq, Structural, Clone, Copy)]
pub struct Error {
    pub kind: ErrorKind,
    pub ch: char,
    pub pos: Position,
}

impl Error {
    fn new(kind: ErrorKind, ch: char, pos: Position) -> (r: Error)
        ensures
            r == (Error { kind, ch, pos }),
    {
        Error { kind, ch, pos }
    }

    /// What went wrong, naming the offending character.
    pub fn reason(&self) -> (r: String)
        ensures
            r@ == reason_text(*self),
    {
        let mut r = String::new();
        match self.kind {
            ErrorKind::UnknownCharacter => {
                r.append("Unknown character: '");
                r.push(self.ch);
                r.append("'");
            },
            ErrorKind::InvalidNumericLiteral => {
                r.append("Invalid character '");
                r.push(self.ch);
                r.append("': expected whitespace or separator");
            },
        }
        r
    }

    /// The reason followed by the line and column where it happened.
    pub fn message(&self) -> (r: String)
        ensures
            r@ == message_text(*self),
    {
        let mut r = self.reason();
        r.append(", at line: ");
        push_decimal(&mut r, self.pos.line);
        r.append(", column: ");
        push_decimal(&mut r, self.pos.column);
        r.append(".");
        r
    }
}

pub open spec fn reason_text(e: Error) -> Seq<char> {
    match e.kind {
        ErrorKind::UnknownCharacter => "Unknown character: '"@ + seq![e.ch] + "'"@,
        ErrorKind::InvalidNumericLiteral => "Invalid character '"@ + seq![e.ch]
            + "': expected whitespace or separator"@,
    }
}

pub open spec fn message_text(e: Error) -> Seq<char> {
    reason_text(e) + ", at line: "@ + decimal(e.pos.line as nat) + ", column: "@ + decimal(
        e.pos.column as nat,
    ) + "."@
}

pub open spec fn digit_char(d: nat) -> char {
    if d == 0 {
        '0'
    } else if d == 1 {
        '1'
    } else if d == 2 {
        '2'
    } else if d == 3 {
        '3'
    } else if d == 4 {
        '4'
    } else if d == 5 {
        '5'
    } else if d == 6 {
        '6'
    } else if d == 7 {
        '7'
    } else if d == 8 {
        '8'
    } else {
        '9'
    }
}

/// The decimal digits of `n`, most significant first.
pub open spec fn decimal(n: nat) -> Seq<char>
    decreases n,
{
    if n < 10 {
        seq![digit_char(n)]
    } else {
        decimal(n / 10).push(digit_char(n % 10))
    }
}

fn digit_of(d: usize) -> (c: char)
    requires
        d < 10,
    ensures
        c == digit_char(d as nat),
{
    if d == 0 {
        '0'
    } else if d == 1 {
        '1'
    } else if d == 2 {
        '2'
    } else if d == 3 {
        '3'
    } else if d == 4 {
        '4'
    } else if d == 5 {
        '5'
    } else if d == 6 {
        '6'
    } else if d == 7 {
        '7'
    } else if d == 8 {
        '8'
    } else {
        '9'
    }
}

fn push_decimal(out: &mut String, n: usize)
    ensures
        final(out)@ == old(out)@ + decimal(n as nat),
    decreases n,
{
    if n >= 10 {
        push_decimal(out, n / 10);
    }
    out.push(digit_of(n % 10));
    assert(final(out)@ =~= old(out)@ + decimal(n as nat));
}

/// Unicode's Alphabetic property, as `char::is_alphabetic` decides it.
pub uninterp spec fn alphabetic(c: char) -> bool;

/// Unicode's numeric general categories, as `char::is_numeric` decides them.
pub uninterp spec fn numeric(c: char) -> bool;

/// Relies on `char::is_alphabetic`: whether the character has the Alphabetic property.
pub assume_specification[ char::is_alphabetic ](c: char) -> (r: bool)
    ensures
        r == alphabetic(c),
;

/// Relies on `char::is_numeric`: whether the character is in one of Unicode's number categories.
pub assume_specification[ char::is_numeric ](c: char) -> (r: bool)
    ensures
        r == numeric(c),
;

/// Relies on `String::push`: appends one character.
pub assume_specification[ String::push ](s: &mut String, ch: char)
    ensures
        final(s)@ == old(s)@.push(ch),
;

/// A letter: ASCII letters, and beyond ASCII whatever Unicode calls alphabetic.
pub open spec fn is_letter(c: char) -> bool {
    ('a' <= c <= 'z') || ('A' <= c <= 'Z') || (c > '\u{7f}' && alphabetic(c))
}

/// A digit: ASCII digits, and beyond ASCII whatever Unicode calls numeric.
pub open spec fn is_digit(c: char) -> bool {
    ('0' <= c <= '9') || (c > '\u{7f}' && numeric(c))
}

fn letter(c: char) -> (r: bool)
    ensures
        r == is_letter(c),
{
    if ('a' <= c && c <= 'z') || ('A' <= c && c <= 'Z') {
        true
    } else {
        c > '\u{7f}' && c.is_alphabetic()
    }
}

fn digit(c: char) -> (r: bool)
    ensures
        r == is_digit(c),
{
    if '0' <= c && c <= '9' {
        true
    } else {
        c > '\u{7f}' && c.is_numeric()
    }
}

/// Unicode's White_Space property, the set that `str::trim` strips.
pub open spec fn is_white(c: char) -> bool {
    ('\u{9}' <= c <= '\u{d}') || c == ' ' || c == '\u{85}' || c == '\u{a0}' || c == '\u{1680}'
        || ('\u{2000}' <= c <= '\u{200a}') || c == '\u{2028}' || c == '\u{2029}' || c
        == '\u{202f}' || c == '\u{205f}' || c == '\u{3000}'
}

fn white(c: char) -> (r: bool)
    ensures
        r == is_white(c),
{
    ('\u{9}' <= c && c <= '\u{d}') || c == ' ' || c == '\u{85}' || c == '\u{a0}' || c
        == '\u{1680}' || ('\u{2000}' <= c && c <= '\u{200a}') || c == '\u{2028}' || c
        == '\u{2029}' || c == '\u{202f}' || c == '\u{205f}' || c == '\u{3000}'
}

/// What the caller configures for one scan.
pub struct Config {
    pub reserved: Seq<Seq<char>>,
    pub symbols: Seq<Seq<char>>,
    pub quotes: Seq<char>,
    pub comments: Seq<char>,
}

/// A scan in progress: the configuration, the text with its trailing newline, and how many
/// characters have been consumed.
pub struct ScanState {
    pub cfg: Config,
    pub src: Seq<char>,
    pub at: nat,
}

/// What one pull of the stream hands out: nothing once the stream is over, else a token or an error.
pub open spec fn item_view(r: Option<Result<Token, Error>>) -> Option<Result<Lexeme, Error>> {
    match r {
        None => None,
        Some(Ok(t)) => Some(Ok(t@)),
        Some(Err(e)) => Some(Err(e)),
    }
}

pub open spec fn is_blank(c: char) -> bool {
    c == ' ' || c == '\t'
}

pub open spec fn is_ident_char(c: char) -> bool {
    is_letter(c) || is_digit(c) || c == '_'
}

/// Whether `c` on its own is a configured symbol.
pub open spec fn is_symbol(cfg: Config, c: char) -> bool {
    cfg.symbols.contains(seq![c])
}

/// Whether `c` followed by `p` is a configured two-character symbol.
pub open spec fn is_pair(cfg: Config, c: char, p: char) -> bool {
    cfg.symbols.contains(seq![c, p])
}

/// The fixed punctuation: braces and the comma.
pub open spec fn punctuation(c: char) -> Option<Lexeme> {
    if c == '(' {
        Some(Lexeme::Brace(BraceType::Paren(BraceSide::Left)))
    } else if c == ')' {
        Some(Lexeme::Brace(BraceType::Paren(BraceSide::Right)))
    } else if c == '[' {
        Some(Lexeme::Brace(BraceType::Bracket(BraceSide::Left)))
    } else if c == ']' {
        Some(Lexeme::Brace(BraceType::Bracket(BraceSide::Right)))
    } else if c == '{' {
        Some(Lexeme::Brace(BraceType::Curly(BraceSide::Left)))
    } else if c == '}' {
        Some(Lexeme::Brace(BraceType::Curly(BraceSide::Right)))
    } else if c == ',' {
        Some(Lexeme::Sep(Separator::Comma))
    } else {
        None
    }
}

/// Index just past the first newline at or after `j` (or the end of `s`).
pub open spec fn comment_end(s: Seq<char>, j: int) -> int
    decreases s.len() - j,
{
    if j < 0 || j >= s.len() {
        j
    } else if s[j] == '\n' {
        j + 1
    } else {
        comment_end(s, j + 1)
    }
}

/// Index of the first character at or after `j` that is the quote `q`, or of the trailing newline.
pub open spec fn string_end(s: Seq<char>, j: int, q: char) -> int
    decreases s.len() - j,
{
    if 0 <= j && j + 1 < s.len() && s[j] != q {
        string_end(s, j + 1, q)
    } else {
        j
    }
}

/// Index of the first character at or after `j` that cannot continue an identifier.
pub open spec fn ident_end(s: Seq<char>, j: int) -> int
    decreases s.len() - j,
{
    if 0 <= j && j + 1 < s.len() && is_ident_char(s[j]) {
        ident_end(s, j + 1)
    } else {
        j
    }
}

/// Scans the rest of a numeric literal from `j`, `float` telling whether a decimal point
/// was seen. Gives whether it succeeded, where it stopped, and whether it saw a point.
/// It fails just after consuming a second decimal point.
pub open spec fn number_end(s: Seq<char>, j: int, float: bool) -> (bool, int, bool)
    decreases s.len() - j,
{
    if 0 <= j && j + 1 < s.len() && (is_digit(s[j]) || s[j] == '.') {
        if s[j] == '.' {
            if float {
                (false, j + 1, true)
            } else {
                number_end(s, j + 1, true)
            }
        } else {
            number_end(s, j + 1, float)
        }
    } else {
        (true, j, float)
    }
}

/// A string literal whose opening quote `q` was consumed just before `j`: its contents, and
/// the index after the closing quote (or of the trailing newline, when none closes it).
pub open spec fn string_result(s: Seq<char>, j: int, q: char) -> (Result<Lexeme, Error>, int) {
    let e = string_end(s, j, q);
    (Ok(Lexeme::Lit(LitKind::Str, s.subrange(j, e))), if e + 1 < s.len() { e + 1 } else { e })
}

/// A symbol led by `c`, consumed just before `j`: two characters when `c` and the next one
/// form a configured symbol, else `c` alone.
pub open spec fn symbol_result(cfg: Config, s: Seq<char>, c: char, j: int) -> (Result<Lexeme, Error>, int) {
    if j + 1 < s.len() && is_pair(cfg, c, s[j]) {
        (Ok(Lexeme::Sym(seq![c, s[j]])), j + 1)
    } else {
        (Ok(Lexeme::Sym(seq![c])), j)
    }
}

/// An identifier led by the character at `j - 1`, reserved when the whole word is configured so.
pub open spec fn ident_result(cfg: Config, s: Seq<char>, j: int) -> (Result<Lexeme, Error>, int) {
    let e = ident_end(s, j);
    let w = s.subrange(j - 1, e);
    (Ok(Lexeme::Ident(cfg.reserved.contains(w), w)), e)
}

/// A numeric literal led by the digit at `j - 1`: an integer, a float when it holds one
/// decimal point, or an error on a second one.
pub open spec fn number_result(s: Seq<char>, j: int) -> (Result<Lexeme, Error>, int) {
    let (ok, k, float) = number_end(s, j, false);
    if ok {
        (Ok(Lexeme::Lit(if float { LitKind::Float } else { LitKind::Int }, s.subrange(j - 1, k))), k)
    } else {
        (Err(Error { kind: ErrorKind::InvalidNumericLiteral, ch: '.', pos: position_at(s, k) }), k)
    }
}

/// What the character `c`, just consumed with the cursor now at `j`, makes: `None` when it
/// emits nothing (blanks, newlines, comments) and scanning goes on from the index given.
pub open spec fn lex_result(cfg: Config, s: Seq<char>, c: char, j: int) -> (Option<Result<Lexeme, Error>>, int) {
    if j >= s.len() {
        (Some(Ok(Lexeme::EOF)), j)
    } else if is_blank(c) {
        (None, j)
    } else if cfg.comments.contains(c) {
        let k = comment_end(s, j);
        if k >= s.len() {
            (Some(Ok(Lexeme::EOF)), k)
        } else {
            (None, k)
        }
    } else if cfg.quotes.contains(c) {
        let (r, k) = string_result(s, j, c);
        (Some(r), k)
    } else if is_symbol(cfg, c) {
        let (r, k) = symbol_result(cfg, s, c, j);
        (Some(r), k)
    } else if is_letter(c) || c == '_' {
        let (r, k) = ident_result(cfg, s, j);
        (Some(r), k)
    } else if is_digit(c) {
        let (r, k) = number_result(s, j);
        (Some(r), k)
    } else if c == '\n' {
        (None, j)
    } else {
        match punctuation(c) {
            Some(t) => (Some(Ok(t)), j),
            None => (
                Some(Err(Error { kind: ErrorKind::UnknownCharacter, ch: c, pos: position_at(s, j) })),
                j,
            ),
        }
    }
}

/// One pull of the stream from index `i`: consume characters until one of them emits an
/// item; `None` once everything is consumed.
pub open spec fn dispatch(cfg: Config, s: Seq<char>, i: int) -> (Option<Result<Lexeme, Error>>, int)
    decreases s.len() - i,
{
    if i < 0 || i >= s.len() {
        (None, i)
    } else {
        let (r, k) = lex_result(cfg, s, s[i], i + 1);
        if r is Some {
            (r, k)
        } else if i < k <= s.len() {
            dispatch(cfg, s, k)
        } else {
            (None, k)
        }
    }
}

/// One pull of the stream: the item handed out and the state after it.
pub open spec fn step(st: ScanState) -> (Option<Result<Lexeme, Error>>, ScanState) {
    let (r, k) = dispatch(st.cfg, st.src, st.at as int);
    (r, ScanState { cfg: st.cfg, src: st.src, at: k as nat })
}

/// Every item that pulling the stream from `st` until it is over hands out, in order.
pub open spec fn drain(st: ScanState) -> Seq<Result<Lexeme, Error>>
    decreases st.src.len() - st.at,
{
    let (r, next) = step(st);
    match r {
        None => Seq::empty(),
        Some(x) => if st.at < next.at <= st.src.len() {
            seq![x] + drain(next)
        } else {
            seq![x]
        },
    }
}

/// Index of the first character at or after `i` that is not white space.
pub open spec fn skip_white(s: Seq<char>, i: int) -> int
    decreases s.len() - i,
{
    if 0 <= i < s.len() && is_white(s[i]) {
        skip_white(s, i + 1)
    } else {
        i
    }
}

/// Index just past the last character before `j`, and not before `lo`, that is not white space.
pub open spec fn back_white(s: Seq<char>, lo: int, j: int) -> int
    decreases j - lo,
{
    if lo < j && j <= s.len() && is_white(s[j - 1]) {
        back_white(s, lo, j - 1)
    } else {
        j
    }
}

/// `s` without leading and trailing white space.
pub open spec fn trimmed(s: Seq<char>) -> Seq<char> {
    let lo = skip_white(s, 0);
    s.subrange(lo, back_white(s, lo, s.len() as int))
}

/// The state before the first pull of a stream over `text`: the text is trimmed and gets
/// one trailing newline.
pub open spec fn initial(text: Seq<char>, cfg: Config) -> ScanState {
    ScanState { cfg, src: trimmed(text).push('\n'), at: 0 }
}

/// The words held by the scanner, as sequences of characters.
pub open spec fn words(ws: Seq<Vec<char>>) -> Seq<Seq<char>> {
    ws.map_values(|w: Vec<char>| w@)
}

fn contains_char(v: &Vec<char>, c: char) -> (r: bool)
    ensures
        r == v@.contains(c),
{
    let mut i: usize = 0;
    while i < v.len()
        invariant
            i <= v.len(),
            forall|k: int| 0 <= k < i ==> v@[k] != c,
        decreases v.len() - i,
    {
        if v[i] == c {
            return true;
        }
        i = i + 1;
    }
    false
}

/// Whether `w` spells out the characters of `s` from `from` to `to`.
fn spells(w: &Vec<char>, s: &Vec<char>, from: usize, to: usize) -> (r: bool)
    requires
        from <= to <= s.len(),
    ensures
        r == (w@ == s@.subrange(from as int, to as int)),
{
    if w.len() != to - from {
        return false;
    }
    let mut i: usize = 0;
    while i < w.len()
        invariant
            w.len() == to - from,
            from <= to <= s.len(),
            i <= w.len(),
            forall|k: int| 0 <= k < i ==> w@[k] == s@[from + k],
        decreases w.len() - i,
    {
        if w[i] != s[from + i] {
            assert(w@[i as int] != s@.subrange(from as int, to as int)[i as int]);
            return false;
        }
        i = i + 1;
    }
    assert(w@ =~= s@.subrange(from as int, to as int));
    true
}

/// The characters of `s` from `from` to `to`, as a `String`.
fn text_of(s: &Vec<char>, from: usize, to: usize) -> (r: String)
    requires
        from <= to <= s.len(),
    ensures
        r@ == s@.subrange(from as int, to as int),
{
    let mut r = String::new();
    let mut i: usize = from;
    while i < to
        invariant
            from <= i <= to <= s.len(),
            r@ == s@.subrange(from as int, i as int),
        decreases to - i,
    {
        r.push(s[i]);
        assert(r@ =~= s@.subrange(from as int, i + 1));
        i = i + 1;
    }
    r
}

/// The scanner proper: the configuration, the text with its trailing newline, a cursor
/// into it and the position the cursor has reached.
struct Lexer {
    reserved: Vec<Vec<char>>,
    symbols: Vec<Vec<char>>,
    strings: Vec<char>,
    comments: Vec<char>,
    chars: Vec<char>,
    idx: usize,
    pos: Position,
}

impl Lexer {
    spec fn model(&self) -> ScanState {
        ScanState {
            cfg: Config {
                reserved: words(self.reserved@),
                symbols: words(self.symbols@),
                quotes: self.strings@,
                comments: self.comments@,
            },
            src: self.chars@,
            at: self.idx as nat,
        }
    }

    /// The cursor stays within the text, and the position is the one that the consumed
    /// characters give.
    spec fn wf(&self) -> bool {
        &&& self.chars@.len() < usize::MAX
        &&& self.idx <= self.chars@.len()
        &&& self.pos == position_at(self.chars@, self.idx as int)
    }

    /// Same configuration and text as `other`.
    spec fn keeps(&self, other: Lexer) -> bool {
        &&& self.reserved@ == other.reserved@
        &&& self.symbols@ == other.symbols@
        &&& self.strings@ == other.strings@
        &&& self.comments@ == other.comments@
        &&& self.chars@ == other.chars@
    }

    fn new(
        chars: Vec<char>,
        reserved: Vec<Vec<char>>,
        symbols: Vec<Vec<char>>,
        strings: Vec<char>,
        comments: Vec<char>,
    ) -> (r: Lexer)
        requires
            chars@.len() + 1 < usize::MAX,
        ensures
            r.wf(),
            r.model() == (ScanState {
                cfg: Config {
                    reserved: words(reserved@),
                    symbols: words(symbols@),
                    quotes: strings@,
                    comments: comments@,
                },
                src: chars@.push('\n'),
                at: 0,
            }),
    {
        let mut chars = chars;
        chars.push('\n');
        Lexer {
            reserved,
            symbols,
            strings,
            comments,
            chars,
            idx: 0,
            pos: Position { line: 1, column: 0, offset: 0 },
        }
    }

    /// Consumes the next character; the one place where the position moves.
    fn bump(&mut self) -> (c: char)
        requires
            old(self).wf(),
            old(self).idx < old(self).chars@.len(),
        ensures
            final(self).wf(),
            final(self).keeps(*old(self)),
            final(self).idx == old(self).idx + 1,
            c == old(self).chars@[old(self).idx as int],
    {
        let c = self.chars[self.idx];
        proof {
            lemma_position_bounds(self.chars@, self.idx as int);
        }
        self.idx = self.idx + 1;
        self.pos.advance();
        if c == '\n' {
            self.pos.newline();
        }
        c
    }

    fn is_symbol(&self, c: char) -> (r: bool)
        ensures
            r == is_symbol(self.model().cfg, c),
    {
        let mut i: usize = 0;
        while i < self.symbols.len()
            invariant
                i <= self.symbols.len(),
                forall|k: int| 0 <= k < i ==> self.symbols@[k]@ != seq![c],
            decreases self.symbols.len() - i,
        {
            let sy = &self.symbols[i];
            if sy.len() == 1 && sy[0] == c {
                assert(sy@ =~= seq![c]);
                assert(words(self.symbols@)[i as int] == seq![c]);
                return true;
            }
            assert(sy@ != seq![c]) by {
                if sy@.len() == 1 {
                    assert(sy@[0] != seq![c][0]);
                }
            }
            i = i + 1;
        }
        assert(!words(self.symbols@).contains(seq![c]));
        false
    }

    fn is_pair(&self, c: char, p: char) -> (r: bool)
        ensures
            r == is_pair(self.model().cfg, c, p),
    {
        let mut i: usize = 0;
        while i < self.symbols.len()
            invariant
                i <= self.symbols.len(),
                forall|k: int| 0 <= k < i ==> self.symbols@[k]@ != seq![c, p],
            decreases self.symbols.len() - i,
        {
            let sy = &self.symbols[i];
            if sy.len() == 2 && sy[0] == c && sy[1] == p {
                assert(sy@ =~= seq![c, p]);
                assert(words(self.symbols@)[i as int] == seq![c, p]);
                return true;
            }
            assert(sy@ != seq![c, p]) by {
                if sy@.len() == 2 {
                    assert(sy@[0] != seq![c, p][0] || sy@[1] != seq![c, p][1]);
                }
            }
            i = i + 1;
        }
        assert(!words(self.symbols@).contains(seq![c, p]));
        false
    }

    /// Whether the characters from `from` to `to` form a reserved word.
    fn is_reserved(&self, from: usize, to: usize) -> (r: bool)
        requires
            from <= to <= self.chars.len(),
        ensures
            r == self.model().cfg.reserved.contains(self.chars@.subrange(from as int, to as int)),
    {
        let ghost w = self.chars@.subrange(from as int, to as int);
        let mut i: usize = 0;
        while i < self.reserved.len()
            invariant
                i <= self.reserved.len(),
                from <= to <= self.chars.len(),
                w == self.chars@.subrange(from as int, to as int),
                forall|k: int| 0 <= k < i ==> self.reserved@[k]@ != w,
            decreases self.reserved.len() - i,
        {
            if spells(&self.reserved[i], &self.chars, from, to) {
                assert(words(self.reserved@)[i as int] == w);
                return true;
            }
            i = i + 1;
        }
        assert(!words(self.reserved@).contains(w));
        false
    }
    fn num(&mut self, c: char) -> (r: Result<Token, Error>)
        requires
            old(self).wf(),
            0 < old(self).idx,
            c == old(self).chars@[old(self).idx - 1],
        ensures
            final(self).wf(),
            final(self).keeps(*old(self)),
            old(self).idx <= final(self).idx,
            (item_view(Some(r))->0, final(self).idx as int) == number_result(old(self).chars@, old(self).idx as int),
    {
        let ghost s = self.chars@;
        let ghost j = self.idx as int;
        let start = self.idx - 1;
        let mut float = false;
        while self.idx + 1 < self.chars.len() && (digit(self.chars[self.idx]) || self.chars[self.idx] == '.')
            invariant
                self.wf(),
                self.chars@ == s,
                self.keeps(*old(self)),
                start < self.idx,
                c == s[j - 1],
                start == j - 1,
                j == old(self).idx,
                number_end(s, self.idx as int, float) == number_end(s, j, false),
            decreases self.chars@.len() - self.idx,
        {
            let ghost i0 = self.idx as int;
            let d = self.bump();
            if d == '.' {
                if float {
                    assert(number_end(s, i0, float) == (false, i0 + 1, true));
                    return Err(Error::new(ErrorKind::InvalidNumericLiteral, d, self.pos));
                }
                float = true;
            }
        }
        let text = text_of(&self.chars, start, self.idx);
        if float {
            Ok(Token::Lit(Literal::Float(text)))
        } else {
            Ok(Token::Lit(Literal::Int(text)))
        }
    }

    fn str(&mut self, q: char) -> (r: Token)
        requires
            old(self).wf(),
        ensures
            final(self).wf(),
            final(self).keeps(*old(self)),
            old(self).idx <= final(self).idx,
            (Ok::<Lexeme, Error>(r@), final(self).idx as int) == string_result(old(self).chars@, old(self).idx as int, q),
    {
        let ghost s = self.chars@;
        let ghost j = self.idx as int;
        let start = self.idx;
        while self.idx + 1 < self.chars.len() && self.chars[self.idx] != q
            invariant
                self.wf(),
                self.chars@ == s,
                self.keeps(*old(self)),
                start <= self.idx,
                start == j,
                string_end(s, self.idx as int, q) == string_end(s, j, q),
            decreases self.chars@.len() - self.idx,
        {
            self.bump();
        }
        let end = self.idx;
        if self.idx + 1 < self.chars.len() {
            self.bump();
        }
        Token::Lit(Literal::Str(text_of(&self.chars, start, end)))
    }

    fn ident(&mut self, c: char) -> (r: Token)
        requires
            old(self).wf(),
            0 < old(self).idx,
            c == old(self).chars@[old(self).idx - 1],
        ensures
            final(self).wf(),
            final(self).keeps(*old(self)),
            old(self).idx <= final(self).idx,
            (Ok::<Lexeme, Error>(r@), final(self).idx as int) == ident_result(old(self).model().cfg, old(self).chars@, old(self).idx as int),
    {
        let ghost s = self.chars@;
        let ghost j = self.idx as int;
        let start = self.idx - 1;
        while self.idx + 1 < self.chars.len() && (letter(self.chars[self.idx]) || digit(self.chars[self.idx]) || self.chars[self.idx] == '_')
            invariant
                self.wf(),
                self.chars@ == s,
                self.keeps(*old(self)),
                start < self.idx,
                start == j - 1,
                ident_end(s, self.idx as int) == ident_end(s, j),
            decreases self.chars@.len() - self.idx,
        {
            self.bump();
        }
        let reserved = self.is_reserved(start, self.idx);
        let word = text_of(&self.chars, start, self.idx);
        if reserved {
            Token::Ident(Identifier::Reserved(word))
        } else {
            Token::Ident(Identifier::Normal(word))
        }
    }

    fn symbol(&mut self, c: char) -> (r: Token)
        requires
            old(self).wf(),
        ensures
            final(self).wf(),
            final(self).keeps(*old(self)),
            old(self).idx <= final(self).idx,
            (Ok::<Lexeme, Error>(r@), final(self).idx as int) == symbol_result(old(self).model().cfg, old(self).chars@, c, old(self).idx as int),
    {
        let mut sym = String::new();
        sym.push(c);
        if self.idx + 1 < self.chars.len() && self.is_pair(c, self.chars[self.idx]) {
            let d = self.bump();
            sym.push(d);
            assert(sym@ =~= seq![c, d]);
        } else {
            assert(sym@ =~= seq![c]);
        }
        Token::Sym(sym)
    }

    /// Decides what the character `c`, just consumed, makes. `None` means that it emits
    /// nothing (a blank, a newline or a comment) and that scanning goes on.
    fn lex(&mut self, c: char) -> (r: Option<Result<Token, Error>>)
        requires
            old(self).wf(),
            0 < old(self).idx,
            c == old(self).chars@[old(self).idx - 1],
        ensures
            final(self).wf(),
            final(self).keeps(*old(self)),
            old(self).idx <= final(self).idx,
            (item_view(r), final(self).idx as int) == lex_result(old(self).model().cfg, old(self).chars@, c, old(self).idx as int),
    {
        if self.idx >= self.chars.len() {
            Some(Ok(Token::EOF))
        } else if c == ' ' || c == '\t' {
            None
        } else if contains_char(&self.comments, c) {
            let ghost s = self.chars@;
            let ghost j = self.idx as int;
            let mut done = false;
            while !done && self.idx < self.chars.len()
                invariant
                    self.wf(),
                    self.chars@ == s,
                    self.keeps(*old(self)),
                    j == old(self).idx,
                    j <= self.idx,
                    !done ==> comment_end(s, self.idx as int) == comment_end(s, j),
                    done ==> self.idx as int == comment_end(s, j),
                decreases self.chars@.len() - self.idx,
            {
                let d = self.bump();
                if d == '\n' {
                    done = true;
                }
            }
            if self.idx >= self.chars.len() {
                Some(Ok(Token::EOF))
            } else {
                None
            }
        } else if contains_char(&self.strings, c) {
            Some(Ok(self.str(c)))
        } else if self.is_symbol(c) {
            Some(Ok(self.symbol(c)))
        } else if letter(c) || c == '_' {
            Some(Ok(self.ident(c)))
        } else if digit(c) {
            Some(self.num(c))
        } else if c == '\n' {
            None
        } else if c == '(' {
            Some(Ok(Token::Brace(BraceType::Paren(BraceSide::Left))))
        } else if c == ')' {
            Some(Ok(Token::Brace(BraceType::Paren(BraceSide::Right))))
        } else if c == '[' {
            Some(Ok(Token::Brace(BraceType::Bracket(BraceSide::Left))))
        } else if c == ']' {
            Some(Ok(Token::Brace(BraceType::Bracket(BraceSide::Right))))
        } else if c == '{' {
            Some(Ok(Token::Brace(BraceType::Curly(BraceSide::Left))))
        } else if c == '}' {
            Some(Ok(Token::Brace(BraceType::Curly(BraceSide::Right))))
        } else if c == ',' {
            Some(Ok(Token::Sep(Separator::Comma)))
        } else {
            Some(Err(Error::new(ErrorKind::UnknownCharacter, c, self.pos)))
        }
    }

    /// Pulls one item: consumes characters until one emits a token or an error.
    fn next(&mut self) -> (r: Option<Result<Token, Error>>)
        requires
            old(self).wf(),
        ensures
            final(self).wf(),
            final(self).keeps(*old(self)),
            (item_view(r), final(self).idx as int) == dispatch(old(self).model().cfg, old(self).chars@, old(self).idx as int),
    {
        loop
            invariant
                self.wf(),
                self.keeps(*old(self)),
                dispatch(self.model().cfg, self.chars@, self.idx as int) == dispatch(old(self).model().cfg, old(self).chars@, old(self).idx as int),
            decreases self.chars@.len() - self.idx,
        {
            if self.idx >= self.chars.len() {
                return None;
            }
            let c = self.bump();
            let r = self.lex(c);
            if r.is_some() {
                return r;
            }
        }
    }

}

/// The characters of `s`, in order.
fn chars_of(s: &str) -> (r: Vec<char>)
    ensures
        r@ == s@,
{
    let mut v: Vec<char> = Vec::new();
    for c in it: s.chars()
        invariant
            v@ == it.seq().take(it.index() as int),
    {
        v.push(c);
    }
    proof {
        broadcast use vstd::string::axiom_spec_iter;
    }
    assert(v@ =~= s@);
    v
}

/// `v` without leading and trailing white space, as `str::trim` strips it.
fn trim(v: &Vec<char>) -> (r: Vec<char>)
    ensures
        r@ == trimmed(v@),
{
    let mut lo: usize = 0;
    while lo < v.len() && white(v[lo])
        invariant
            lo <= v.len(),
            skip_white(v@, lo as int) == skip_white(v@, 0),
        decreases v.len() - lo,
    {
        lo = lo + 1;
    }
    let mut hi: usize = v.len();
    while lo < hi && white(v[hi - 1])
        invariant
            lo <= hi <= v.len(),
            lo == skip_white(v@, 0),
            back_white(v@, lo as int, hi as int) == back_white(v@, lo as int, v.len() as int),
        decreases hi - lo,
    {
        hi = hi - 1;
    }
    let mut r: Vec<char> = Vec::new();
    let mut i: usize = lo;
    while i < hi
        invariant
            lo <= i <= hi <= v.len(),
            r@ == v@.subrange(lo as int, i as int),
        decreases hi - i,
    {
        r.push(v[i]);
        assert(r@ =~= v@.subrange(lo as int, i + 1));
        i = i + 1;
    }
    r
}

/// The words of a configuration, as sequences of characters.
pub open spec fn str_words(ws: Seq<&str>) -> Seq<Seq<char>> {
    ws.map_values(|w: &str| w@)
}

fn words_of(ws: &[&str]) -> (r: Vec<Vec<char>>)
    ensures
        words(r@) == str_words(ws@),
{
    let mut r: Vec<Vec<char>> = Vec::new();
    let mut i: usize = 0;
    while i < ws.len()
        invariant
            i <= ws@.len(),
            r@.len() == i,
            forall|k: int| 0 <= k < i ==> r@[k]@ == ws@[k]@,
        decreases ws@.len() - i,
    {
        r.push(chars_of(ws[i]));
        i = i + 1;
    }
    assert(words(r@) =~= str_words(ws@));
    r
}

/// The characters of `cs`, in an owned vector.
fn char_vec(cs: &[char]) -> (r: Vec<char>)
    ensures
        r@ == cs@,
{
    let mut r: Vec<char> = Vec::new();
    let mut i: usize = 0;
    while i < cs.len()
        invariant
            i <= cs@.len(),
            r@ == cs@.subrange(0, i as int),
        decreases cs@.len() - i,
    {
        r.push(cs[i]);
        assert(r@ =~= cs@.subrange(0, i + 1));
        i = i + 1;
    }
    assert(r@ =~= cs@);
    r
}

/// A pull-based stream of tokens over a text. It hands out one token or one error per
/// pull, ends with `Token::EOF`, and after that hands out nothing.
pub struct TokenStream {
    lexer: Lexer,
}

impl View for TokenStream {
    type V = ScanState;

    closed spec fn view(&self) -> ScanState {
        self.lexer.model()
    }
}

impl TokenStream {
    /// The stream's internal invariant, which its constructors establish and `next` keeps.
    pub closed spec fn wf(&self) -> bool {
        self.lexer.wf()
    }

    /// A stream over `s` with the given reserved words and symbols, strings quoted by `"`
    /// and no comments.
    pub fn new(s: &str, reserved: &[&str], symbols: &[&str]) -> (r: TokenStream)
        requires
            s@.len() + 1 < usize::MAX,
        ensures
            r.wf(),
            r@ == initial(
                s@,
                Config {
                    reserved: str_words(reserved@),
                    symbols: str_words(symbols@),
                    quotes: seq!['"'],
                    comments: seq![],
                },
            ),
    {
        let quotes = ['"'];
        let none: [char; 0] = [];
        let r = TokenStream::with_delimiters(s, reserved, symbols, quotes.as_slice(), none.as_slice());
        assert(quotes@ =~= seq!['"']);
        assert(none@ =~= Seq::<char>::empty());
        r
    }

    /// A stream over `s`, with `strings` the characters that open and close a string
    /// literal and `comments` those that start a comment running to the end of the line.
    pub fn with_delimiters(
        s: &str,
        reserved: &[&str],
        symbols: &[&str],
        strings: &[char],
        comments: &[char],
    ) -> (r: TokenStream)
        requires
            s@.len() + 1 < usize::MAX,
        ensures
            r.wf(),
            r@ == initial(
                s@,
                Config {
                    reserved: str_words(reserved@),
                    symbols: str_words(symbols@),
                    quotes: strings@,
                    comments: comments@,
                },
            ),
    {
        let text = chars_of(s);
        let text = trim(&text);
        proof {
            lemma_trimmed_len(s@);
        }
        TokenStream {
            lexer: Lexer::new(text, words_of(reserved), words_of(symbols), char_vec(strings), char_vec(comments)),
        }
    }

    /// The next token or error; `None` once `Token::EOF` has been handed out.
    pub fn next(&mut self) -> (r: Option<Result<Token, Error>>)
        requires
            old(self).wf(),
        ensures
            final(self).wf(),
            step(old(self)@) == (item_view(r), final(self)@),
    {
        self.lexer.next()
    }
}

proof fn lemma_skip_white_bounds(s: Seq<char>, i: int)
    requires
        0 <= i <= s.len(),
    ensures
        i <= skip_white(s, i) <= s.len(),
    decreases s.len() - i,
{
    if i < s.len() && is_white(s[i]) {
        lemma_skip_white_bounds(s, i + 1);
    }
}

proof fn lemma_back_white_bounds(s: Seq<char>, lo: int, j: int)
    requires
        lo <= j <= s.len(),
    ensures
        lo <= back_white(s, lo, j) <= j,
    decreases j - lo,
{
    if lo < j && is_white(s[j - 1]) {
        lemma_back_white_bounds(s, lo, j - 1);
    }
}

proof fn lemma_trimmed_len(s: Seq<char>)
    ensures
        trimmed(s).len() <= s.len(),
{
    lemma_skip_white_bounds(s, 0);
    lemma_back_white_bounds(s, skip_white(s, 0), s.len() as int);
}

proof fn lemma_comment_end(s: Seq<char>, j: int)
    requires
        0 <= j < s.len(),
    ensures
        j < comment_end(s, j) <= s.len(),
    decreases s.len() - j,
{
    if s[j] != '\n' {
        if j + 1 < s.len() {
            lemma_comment_end(s, j + 1);
        } else {
            assert(comment_end(s, j + 1) == j + 1);
        }
    }
}

proof fn lemma_string_end(s: Seq<char>, j: int, q: char)
    requires
        0 <= j < s.len(),
    ensures
        j <= string_end(s, j, q) < s.len(),
    decreases s.len() - j,
{
    if j + 1 < s.len() && s[j] != q {
        lemma_string_end(s, j + 1, q);
    }
}

proof fn lemma_ident_end(s: Seq<char>, j: int)
    requires
        0 <= j < s.len(),
    ensures
        j <= ident_end(s, j) < s.len(),
    decreases s.len() - j,
{
    if j + 1 < s.len() && is_ident_char(s[j]) {
        lemma_ident_end(s, j + 1);
    }
}

proof fn lemma_number_end(s: Seq<char>, j: int, float: bool)
    requires
        0 <= j < s.len(),
    ensures
        j <= number_end(s, j, float).1 < s.len(),
    decreases s.len() - j,
{
    if j + 1 < s.len() && (is_digit(s[j]) || s[j] == '.') {
        if !(s[j] == '.' && float) {
            lemma_number_end(s, j + 1, float || s[j] == '.');
        }
    }
}

/// From any index before the end, a pull hands out an item and moves on; the item is `EOF`
/// exactly when the pull consumed the last character.
proof fn lemma_dispatch(cfg: Config, s: Seq<char>, i: int)
    requires
        0 <= i < s.len(),
    ensures
        dispatch(cfg, s, i).0 is Some,
        i < dispatch(cfg, s, i).1 <= s.len(),
        (dispatch(cfg, s, i).0 == Some(Ok::<Lexeme, Error>(Lexeme::EOF))) == (dispatch(cfg, s, i).1 == s.len()),
    decreases s.len() - i,
{
    let c = s[i];
    let j = i + 1;
    if j < s.len() {
        lemma_comment_end(s, j);
        lemma_string_end(s, j, c);
        lemma_ident_end(s, j);
        lemma_number_end(s, j, false);
        let k = lex_result(cfg, s, c, j).1;
        if lex_result(cfg, s, c, j).0 is None {
            lemma_dispatch(cfg, s, k);
        }
    }
}

proof fn lemma_drain(st: ScanState)
    requires
        st.at < st.src.len(),
    ensures
        drain(st).len() > 0,
        drain(st).last() == Ok::<Lexeme, Error>(Lexeme::EOF),
        forall|k: int| 0 <= k < drain(st).len() - 1 ==> drain(st)[k] != Ok::<Lexeme, Error>(Lexeme::EOF),
    decreases st.src.len() - st.at,
{
    lemma_dispatch(st.cfg, st.src, st.at as int);
    let next = step(st).1;
    if next.at < st.src.len() {
        lemma_drain(next);
        let x = step(st).0->0;
        assert(drain(st) == seq![x] + drain(next));
        assert forall|k: int| 0 <= k < drain(st).len() - 1 implies drain(st)[k] != Ok::<Lexeme, Error>(Lexeme::EOF) by {
            if k > 0 {
                assert(drain(st)[k] == drain(next)[k - 1]);
            }
        }
    } else {
        assert(drain(next) == Seq::<Result<Lexeme, Error>>::empty());
    }
}

/// Every stream ends with `EOF`, handed out once: it is the last item, and no earlier item is `EOF`.
pub proof fn lemma_single_end(text: Seq<char>, cfg: Config)
    ensures
        drain(initial(text, cfg)).len() > 0,
        drain(initial(text, cfg)).last() == Ok::<Lexeme, Error>(Lexeme::EOF),
        forall|k: int|
            0 <= k < drain(initial(text, cfg)).len() - 1 ==> drain(initial(text, cfg))[k] != Ok::<
                Lexeme,
                Error,
            >(Lexeme::EOF),
{
    lemma_drain(initial(text, cfg));
}

/// Two streams over the same text and the same configuration hand out the same items in
/// the same order, errors and their positions included.
pub proof fn lemma_same_input_same_items(text1: Seq<char>, cfg1: Config, text2: Seq<char>, cfg2: Config)
    requires
        text1 == text2,
        cfg1 == cfg2,
    ensures
        drain(initial(text1, cfg1)) == drain(initial(text2, cfg2)),
{
}

proof fn lemma_digits_run(s: Seq<char>, j: int, n: int)
    requires
        1 <= j <= n,
        s.len() == n + 1,
        s[n] == '\n',
        forall|i: int| 0 <= i < n ==> '0' <= #[trigger] s[i] <= '9',
    ensures
        number_end(s, j, false) == (true, n, false),
    decreases n - j,
{
    if j < n {
        lemma_digits_run(s, j + 1, n);
    }
}

/// A text of ASCII digits alone makes one integer literal holding those digits, then `EOF`,
/// provided its first digit is configured as neither a quote, a comment start nor a symbol.
pub proof fn lemma_digits_make_one_integer(text: Seq<char>, cfg: Config)
    requires
        text.len() > 0,
        forall|i: int| 0 <= i < text.len() ==> '0' <= #[trigger] text[i] <= '9',
        !cfg.quotes.contains(text[0]),
        !cfg.comments.contains(text[0]),
        !is_symbol(cfg, text[0]),
    ensures
        drain(initial(text, cfg)) == seq![
            Ok::<Lexeme, Error>(Lexeme::Lit(LitKind::Int, text)),
            Ok::<Lexeme, Error>(Lexeme::EOF),
        ],
{
    let n = text.len() as int;
    assert(skip_white(text, 0) == 0);
    assert(back_white(text, 0, n) == n);
    assert(trimmed(text) =~= text);
    let st = initial(text, cfg);
    let s = st.src;
    assert(s == text.push('\n'));
    assert(forall|i: int| 0 <= i < n ==> s[i] == text[i]);
    lemma_digits_run(s, 1, n);
    assert(s.subrange(0, n) =~= text);
    assert(number_result(s, 1) == (Ok::<Lexeme, Error>(Lexeme::Lit(LitKind::Int, text)), n));
    assert(lex_result(cfg, s, s[0], 1) == (Some(Ok::<Lexeme, Error>(Lexeme::Lit(LitKind::Int, text))), n));
    assert(dispatch(cfg, s, 0) == (Some(Ok::<Lexeme, Error>(Lexeme::Lit(LitKind::Int, text))), n));
    let st1 = step(st).1;
    assert(st1.at == n);
    assert(dispatch(cfg, s, n) == (Some(Ok::<Lexeme, Error>(Lexeme::EOF)), n + 1));
    let st2 = step(st1).1;
    assert(dispatch(cfg, s, n + 1) == (None::<Result<Lexeme, Error>>, n + 1));
    assert(drain(st2) == Seq::<Result<Lexeme, Error>>::empty());
    assert(drain(st1) =~= seq![Ok::<Lexeme, Error>(Lexeme::EOF)]);
    assert(drain(st) =~= seq![
        Ok::<Lexeme, Error>(Lexeme::Lit(LitKind::Int, text)),
        Ok::<Lexeme, Error>(Lexeme::EOF),
    ]);
}

/// The text of the item, when it is a symbol.
pub open spec fn symbol_of(r: Option<Result<Lexeme, Error>>) -> Option<Seq<char>> {
    match r {
        Some(Ok(Lexeme::Sym(t))) => Some(t),
        _ => None,
    }
}

/// Every symbol that a pull hands out is one of the configured symbols.
pub proof fn lemma_symbols_are_configured(cfg: Config, s: Seq<char>, i: int)
    ensures
        symbol_of(dispatch(cfg, s, i).0) is Some ==> cfg.symbols.contains(symbol_of(dispatch(cfg, s, i).0)->0),
    decreases s.len() - i,
{
    if 0 <= i < s.len() {
        let c = s[i];
        let j = i + 1;
        let (r, k) = lex_result(cfg, s, c, j);
        if r is None && i < k <= s.len() {
            lemma_symbols_are_configured(cfg, s, k);
        }
        if j < s.len() && is_symbol(cfg, c) && j + 1 < s.len() && is_pair(cfg, c, s[j]) {
            assert(symbol_result(cfg, s, c, j).0 == Ok::<Lexeme, Error>(Lexeme::Sym(seq![c, s[j]])));
        }
    }
}

} // verus!
