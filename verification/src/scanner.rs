use vstd::prelude::*;
use vstd::string::StrSliceExecFns;
use vstd::string::StringExecFns;
use crate::chars::{is_ws_char, is_digit_char, is_ident_start_char, is_ident_char};
use crate::chars::{char_is_ws, char_is_digit, char_is_ident_start, char_is_ident};
use crate::coords::{
    line_at, line_start_at, coord_at, lemma_coord_bounds, lemma_coord_step_no_newline,
    lemma_coord_step_newline,
};
use crate::scan_model::{
    ScanError, ident_end, digits_end, number_end, keyword_or_id_kind, punct_at, token_model_at,
    eof_token_model, cons_token, scan_spec_from, scan_spec, tokens_after, lemma_ident_end_bounds,
    lemma_digits_end_bounds, lemma_number_end_bounds, lemma_tokens_after_push,
};
use crate::token::{Token, TokenKind, TokenModel, TextCoord, Span};

verus! {

/// The kind of the given word: the keyword's own kind when the word is in the
/// fixed keyword set, the generic identifier marker otherwise.
pub fn lookup_word_kind(w: &String) -> (k: TokenKind)
    ensures
        k == keyword_or_id_kind(w@),
{
    if *w == String::from_str("and") {
        TokenKind::KwAnd
    } else if *w == String::from_str("entry") {
        TokenKind::KwEntry
    } else if *w == String::from_str("false") {
        TokenKind::KwFalse
    } else if *w == String::from_str("fn") {
        TokenKind::KwFn
    } else if *w == String::from_str("fragment") {
        TokenKind::KwFragment
    } else if *w == String::from_str("in") {
        TokenKind::KwIn
    } else if *w == String::from_str("let") {
        TokenKind::KwLet
    } else if *w == String::from_str("loc") {
        TokenKind::KwLoc
    } else if *w == String::from_str("not") {
        TokenKind::KwNot
    } else if *w == String::from_str("or") {
        TokenKind::KwOr
    } else if *w == String::from_str("out") {
        TokenKind::KwOut
    } else if *w == String::from_str("return") {
        TokenKind::KwReturn
    } else if *w == String::from_str("true") {
        TokenKind::KwTrue
    } else if *w == String::from_str("vec2") {
        TokenKind::KwVec2
    } else if *w == String::from_str("vec3") {
        TokenKind::KwVec3
    } else if *w == String::from_str("vec4") {
        TokenKind::KwVec4
    } else if *w == String::from_str("vertex") {
        TokenKind::KwVertex
    } else if *w == String::from_str("void") {
        TokenKind::KwVoid
    } else {
        TokenKind::Id
    }
}

/// The scanner: a single left-to-right pass over the source text, producing
/// the whole token list at once. It owns a character cursor and line/column
/// bookkeeping, and is exhausted after one pass.
pub struct Scanner {
    pub file: String,
    pub n: usize,
    pub next_char: usize,
    pub tokens: Vec<Token>,
    pub seen_newlines: usize,
    pub line_start: usize,
}

impl Scanner {
    /// The characters of the source text.
    pub open spec fn src(self) -> Seq<char> {
        self.file@
    }

    /// The cursor: the position scanning continues from.
    pub open spec fn pos(self) -> int {
        self.next_char as int
    }

    /// The models of the tokens emitted so far.
    pub open spec fn emitted(self) -> Seq<TokenModel> {
        self.tokens@.map_values(|t: Token| t@)
    }

    /// Basic well-formedness: the stored length is the character count of the
    /// source, the cursor stays within it, and the text is short enough that
    /// every 1-based coordinate fits a `usize`.
    pub open spec fn wf(self) -> bool {
        &&& self.n == self.file@.len()
        &&& self.next_char <= self.n
        &&& self.file@.len() < usize::MAX
    }

    /// The line bookkeeping agrees with the true coordinates of the cursor:
    /// `seen_newlines` counts the newlines before it and `line_start` is the
    /// first position of the line it lies on.
    pub open spec fn coords_ok(self) -> bool {
        &&& self.seen_newlines + 1 == line_at(self.file@, self.next_char as int)
        &&& self.line_start == line_start_at(self.file@, self.next_char as int)
    }

    /// A fresh scanner over the given source text, with the cursor at the
    /// start and no tokens emitted.
    pub fn new(file: String) -> (s: Scanner)
        requires
            file@.len() < usize::MAX,
        ensures
            s.wf(),
            s.coords_ok(),
            s.src() == file@,
            s.pos() == 0,
            s.tokens@.len() == 0,
    {
        let n = file.as_str().unicode_len();
        Scanner { file, n, next_char: 0, tokens: Vec::new(), seen_newlines: 0, line_start: 0 }
    }

    /// Whether any character is left to scan.
    pub fn has_next(&self) -> (b: bool)
        requires
            self.wf(),
        ensures
            b == (self.pos() < self.src().len()),
    {
        self.next_char < self.n
    }

    /// The character under the cursor, or the premature-end failure when the
    /// input is exhausted.
    pub fn current(&self) -> (r: Result<char, ScanError>)
        requires
            self.wf(),
        ensures
            match r {
                Ok(c) => self.pos() < self.src().len() && c == self.src()[self.pos()],
                Err(e) => self.pos() >= self.src().len() && e == (ScanError::NoMoreChars {
                    at: self.next_char,
                }),
            },
    {
        if !self.has_next() {
            return Err(ScanError::NoMoreChars { at: self.next_char });
        }
        Ok(self.file.as_str().get_char(self.next_char))
    }

    /// Consumes the expected character, or reports the character actually
    /// found (or the premature end of the input) without advancing.
    pub fn match_char(&mut self, expected: char) -> (r: Result<(), ScanError>)
        requires
            old(self).wf(),
        ensures
            final(self).wf(),
            final(self).src() == old(self).src(),
            final(self).n == old(self).n,
            final(self).tokens == old(self).tokens,
            final(self).seen_newlines == old(self).seen_newlines,
            final(self).line_start == old(self).line_start,
            match r {
                Ok(()) => old(self).pos() < old(self).src().len() && old(self).src()[old(
                    self,
                ).pos()] == expected && final(self).pos() == old(self).pos() + 1,
                Err(e) => final(self).pos() == old(self).pos() && (if old(self).pos() >= old(
                    self,
                ).src().len() {
                    e == (ScanError::NoMoreChars { at: old(self).next_char })
                } else {
                    old(self).src()[old(self).pos()] != expected && e
                        == (ScanError::UnexpectedChar {
                        found: old(self).src()[old(self).pos()],
                        at: old(self).next_char,
                    })
                }),
            },
            old(self).coords_ok() && expected != '\n' && r is Ok ==> final(self).coords_ok(),
    {
        if !self.has_next() {
            return Err(ScanError::NoMoreChars { at: self.next_char });
        }
        let c = self.file.as_str().get_char(self.next_char);
        if c != expected {
            return Err(ScanError::UnexpectedChar { found: c, at: self.next_char });
        }
        proof {
            if expected != '\n' {
                lemma_coord_step_no_newline(self.file@, self.next_char as int);
            }
        }
        self.next_char = self.next_char + 1;
        Ok(())
    }

    /// The line/column coordinate of position `index`, computed from the line
    /// bookkeeping: one more than the newlines seen, and the 1-based offset
    /// from the recorded line start. Where the bookkeeping agrees with the
    /// true coordinates of `index` (as it does for every position on the line
    /// the cursor stands on), the result is exactly `coord_at`.
    pub fn index_to_coord(&self, index: usize) -> (tc: TextCoord)
        requires
            self.seen_newlines < usize::MAX,
            self.line_start <= index < usize::MAX,
        ensures
            tc.line_number == self.seen_newlines + 1,
            tc.column == index - self.line_start + 1,
            self.seen_newlines + 1 == line_at(self.file@, index as int) && self.line_start
                == line_start_at(self.file@, index as int) ==> tc == coord_at(
                self.file@,
                index as int,
            ),
    {
        TextCoord { line_number: self.seen_newlines + 1, column: index - self.line_start + 1 }
    }

    /// Consumes the maximal whitespace run under the cursor, counting
    /// newlines. Skipped whitespace leaves the outcome of scanning the rest of
    /// the input unchanged.
    pub fn whitespace(&mut self) -> (r: Result<(), ScanError>)
        requires
            old(self).wf(),
            old(self).coords_ok(),
            old(self).pos() < old(self).src().len(),
            is_ws_char(old(self).src()[old(self).pos()]),
        ensures
            final(self).wf(),
            final(self).coords_ok(),
            final(self).src() == old(self).src(),
            final(self).n == old(self).n,
            final(self).tokens == old(self).tokens,
            old(self).pos() <= final(self).pos() <= final(self).src().len(),
            final(self).pos() == final(self).src().len() || !is_ws_char(
                final(self).src()[final(self).pos()],
            ),
            scan_spec_from(final(self).src(), final(self).pos()) == scan_spec_from(
                old(self).src(),
                old(self).pos(),
            ),
            r is Ok,
    {
        let ghost src = self.file@;
        let ghost i0 = self.next_char as int;
        loop
            invariant
                self.wf(),
                self.coords_ok(),
                self.file@ == src,
                self.n == old(self).n,
                self.tokens == old(self).tokens,
                i0 <= self.next_char as int <= src.len(),
                scan_spec_from(src, self.next_char as int) == scan_spec_from(src, i0),
            ensures
                self.wf(),
                self.coords_ok(),
                self.file@ == src,
                self.n == old(self).n,
                self.tokens == old(self).tokens,
                i0 <= self.next_char as int <= src.len(),
                scan_spec_from(src, self.next_char as int) == scan_spec_from(src, i0),
                self.next_char as int == src.len() || !is_ws_char(src[self.next_char as int]),
            decreases src.len() - self.next_char,
        {
            if !self.has_next() {
                break;
            }
            let c = self.file.as_str().get_char(self.next_char);
            if !char_is_ws(c) {
                break;
            }
            proof {
                lemma_coord_bounds(src, self.next_char as int);
                if c == '\n' {
                    lemma_coord_step_newline(src, self.next_char as int);
                } else {
                    lemma_coord_step_no_newline(src, self.next_char as int);
                }
                assert(scan_spec_from(src, self.next_char as int) == scan_spec_from(
                    src,
                    self.next_char as int + 1,
                ));
            }
            if c == '\n' {
                self.seen_newlines = self.seen_newlines + 1;
                self.line_start = self.next_char + 1;
            }
            self.next_char = self.next_char + 1;
        }
        Ok(())
    }

    /// Consumes the identifier beginning under the cursor: the maximal run of
    /// letters, digits and underscores.
    pub fn identifier(&mut self) -> (r: Result<(), ScanError>)
        requires
            old(self).wf(),
            old(self).coords_ok(),
            old(self).pos() < old(self).src().len(),
            is_ident_start_char(old(self).src()[old(self).pos()]),
        ensures
            final(self).wf(),
            final(self).coords_ok(),
            final(self).src() == old(self).src(),
            final(self).n == old(self).n,
            final(self).tokens == old(self).tokens,
            old(self).pos() < final(self).pos() <= final(self).src().len(),
            final(self).pos() == ident_end(old(self).src(), old(self).pos()),
            r is Ok,
    {
        let ghost src = self.file@;
        let ghost i0 = self.next_char as int;
        loop
            invariant
                self.wf(),
                self.coords_ok(),
                self.file@ == src,
                self.n == old(self).n,
                self.tokens == old(self).tokens,
                i0 <= self.next_char as int <= src.len(),
                ident_end(src, self.next_char as int) == ident_end(src, i0),
                self.next_char as int == i0 ==> i0 < src.len() && is_ident_char(src[i0]),
            ensures
                self.wf(),
                self.coords_ok(),
                self.file@ == src,
                self.n == old(self).n,
                self.tokens == old(self).tokens,
                i0 <= self.next_char as int <= src.len(),
                ident_end(src, self.next_char as int) == ident_end(src, i0),
                self.next_char as int == i0 ==> i0 < src.len() && is_ident_char(src[i0]),
                self.next_char as int == src.len() || !is_ident_char(src[self.next_char as int]),
            decreases src.len() - self.next_char,
        {
            if !self.has_next() {
                break;
            }
            let c = self.file.as_str().get_char(self.next_char);
            if !char_is_ident(c) {
                break;
            }
            proof {
                lemma_coord_step_no_newline(src, self.next_char as int);
            }
            self.next_char = self.next_char + 1;
        }
        proof {
            lemma_ident_end_bounds(src, i0);
            assert(ident_end(src, self.next_char as int) == self.next_char as int);
        }
        Ok(())
    }

    /// Consumes the number literal beginning under the cursor: a run of
    /// digits, then optionally one `.` followed by a further run of digits.
    pub fn literal_number(&mut self) -> (r: Result<(), ScanError>)
        requires
            old(self).wf(),
            old(self).coords_ok(),
            old(self).pos() < old(self).src().len(),
            is_digit_char(old(self).src()[old(self).pos()]),
        ensures
            final(self).wf(),
            final(self).coords_ok(),
            final(self).src() == old(self).src(),
            final(self).n == old(self).n,
            final(self).tokens == old(self).tokens,
            old(self).pos() < final(self).pos() <= final(self).src().len(),
            final(self).pos() == number_end(old(self).src(), old(self).pos()),
            r is Ok,
    {
        let ghost src = self.file@;
        let ghost i0 = self.next_char as int;
        loop
            invariant
                self.wf(),
                self.coords_ok(),
                self.file@ == src,
                self.n == old(self).n,
                self.tokens == old(self).tokens,
                i0 <= self.next_char as int <= src.len(),
                digits_end(src, self.next_char as int) == digits_end(src, i0),
                self.next_char as int == i0 ==> i0 < src.len() && is_digit_char(src[i0]),
            ensures
                self.wf(),
                self.coords_ok(),
                self.file@ == src,
                self.n == old(self).n,
                self.tokens == old(self).tokens,
                i0 <= self.next_char as int <= src.len(),
                digits_end(src, self.next_char as int) == digits_end(src, i0),
                self.next_char as int == i0 ==> i0 < src.len() && is_digit_char(src[i0]),
                self.next_char as int == src.len() || !is_digit_char(src[self.next_char as int]),
            decreases src.len() - self.next_char,
        {
            if !self.has_next() {
                break;
            }
            let c = self.file.as_str().get_char(self.next_char);
            if !char_is_digit(c) {
                break;
            }
            proof {
                lemma_coord_step_no_newline(src, self.next_char as int);
            }
            self.next_char = self.next_char + 1;
        }
        let ghost d = digits_end(src, i0);
        proof {
            lemma_digits_end_bounds(src, i0);
            assert(digits_end(src, self.next_char as int) == self.next_char as int);
        }
        if self.has_next() {
            let c = self.file.as_str().get_char(self.next_char);
            if c == '.' {
                proof {
                    lemma_coord_step_no_newline(src, self.next_char as int);
                }
                self.next_char = self.next_char + 1;
                let ghost j0 = self.next_char as int;
                loop
                    invariant
                        self.wf(),
                        self.coords_ok(),
                        self.file@ == src,
                        self.n == old(self).n,
                        self.tokens == old(self).tokens,
                        j0 <= self.next_char as int <= src.len(),
                        digits_end(src, self.next_char as int) == digits_end(src, j0),
                    ensures
                        self.wf(),
                        self.coords_ok(),
                        self.file@ == src,
                        self.n == old(self).n,
                        self.tokens == old(self).tokens,
                        j0 <= self.next_char as int <= src.len(),
                        digits_end(src, self.next_char as int) == digits_end(src, j0),
                        self.next_char as int == src.len() || !is_digit_char(
                            src[self.next_char as int],
                        ),
                    decreases src.len() - self.next_char,
                {
                    if !self.has_next() {
                        break;
                    }
                    let c2 = self.file.as_str().get_char(self.next_char);
                    if !char_is_digit(c2) {
                        break;
                    }
                    proof {
                        lemma_coord_step_no_newline(src, self.next_char as int);
                    }
                    self.next_char = self.next_char + 1;
                }
                proof {
                    assert(digits_end(src, self.next_char as int) == self.next_char as int);
                }
            }
        }
        proof {
            lemma_number_end_bounds(src, i0);
        }
        Ok(())
    }

    /// Consumes the punctuation or operator token under the cursor, trying
    /// two-character forms before their one-character prefixes, and returns
    /// its kind. A character that starts no token is a scan failure, as is a
    /// `!` that the input ends on or that no `=` follows.
    pub fn punct(&mut self) -> (r: Result<TokenKind, ScanError>)
        requires
            old(self).wf(),
            old(self).coords_ok(),
            old(self).pos() < old(self).src().len(),
            !is_ws_char(old(self).src()[old(self).pos()]),
            !is_ident_start_char(old(self).src()[old(self).pos()]),
            !is_digit_char(old(self).src()[old(self).pos()]),
        ensures
            final(self).wf(),
            final(self).coords_ok(),
            final(self).src() == old(self).src(),
            final(self).n == old(self).n,
            final(self).tokens == old(self).tokens,
            match r {
                Ok(k) => punct_at(old(self).src(), old(self).pos()) == Ok::<_, ScanError>(
                    (k, final(self).pos()),
                ) && old(self).pos() < final(self).pos() <= final(self).src().len(),
                Err(e) => punct_at(old(self).src(), old(self).pos()) == Err::<
                    (TokenKind, int),
                    _,
                >(e),
            },
    {
        let c = self.file.as_str().get_char(self.next_char);
        if c == '-' {
            match self.match_char('-') {
                Ok(()) => {},
                Err(e) => { return Err(e); },
            }
            if self.has_next() {
                let c2 = match self.current() {
                    Ok(x) => x,
                    Err(e) => { return Err(e); },
                };
                if c2 == '>' {
                    match self.match_char('>') {
                        Ok(()) => {},
                        Err(e) => { return Err(e); },
                    }
                    return Ok(TokenKind::Arrow);
                }
            }
            Ok(TokenKind::Minus)
        } else if c == '<' {
            match self.match_char('<') {
                Ok(()) => {},
                Err(e) => { return Err(e); },
            }
            if self.has_next() {
                let c2 = match self.current() {
                    Ok(x) => x,
                    Err(e) => { return Err(e); },
                };
                if c2 == '=' {
                    match self.match_char('=') {
                        Ok(()) => {},
                        Err(e) => { return Err(e); },
                    }
                    return Ok(TokenKind::Le);
                }
            }
            Ok(TokenKind::Lt)
        } else if c == '>' {
            match self.match_char('>') {
                Ok(()) => {},
                Err(e) => { return Err(e); },
            }
            if self.has_next() {
                let c2 = match self.current() {
                    Ok(x) => x,
                    Err(e) => { return Err(e); },
                };
                if c2 == '=' {
                    match self.match_char('=') {
                        Ok(()) => {},
                        Err(e) => { return Err(e); },
                    }
                    return Ok(TokenKind::Ge);
                }
            }
            Ok(TokenKind::Gt)
        } else if c == '=' {
            match self.match_char('=') {
                Ok(()) => {},
                Err(e) => { return Err(e); },
            }
            if self.has_next() {
                let c2 = match self.current() {
                    Ok(x) => x,
                    Err(e) => { return Err(e); },
                };
                if c2 == '=' {
                    match self.match_char('=') {
                        Ok(()) => {},
                        Err(e) => { return Err(e); },
                    }
                    return Ok(TokenKind::EqEq);
                }
            }
            Ok(TokenKind::Assign)
        } else if c == '!' {
            match self.match_char('!') {
                Ok(()) => {},
                Err(e) => { return Err(e); },
            }
            match self.match_char('=') {
                Ok(()) => {},
                Err(e) => { return Err(e); },
            }
            Ok(TokenKind::BangEq)
        } else if c == '(' {
            match self.match_char('(') {
                Ok(()) => {},
                Err(e) => { return Err(e); },
            }
            Ok(TokenKind::LParen)
        } else if c == ')' {
            match self.match_char(')') {
                Ok(()) => {},
                Err(e) => { return Err(e); },
            }
            Ok(TokenKind::RParen)
        } else if c == '{' {
            match self.match_char('{') {
                Ok(()) => {},
                Err(e) => { return Err(e); },
            }
            Ok(TokenKind::LBrace)
        } else if c == '}' {
            match self.match_char('}') {
                Ok(()) => {},
                Err(e) => { return Err(e); },
            }
            Ok(TokenKind::RBrace)
        } else if c == '[' {
            match self.match_char('[') {
                Ok(()) => {},
                Err(e) => { return Err(e); },
            }
            Ok(TokenKind::LBracket)
        } else if c == ']' {
            match self.match_char(']') {
                Ok(()) => {},
                Err(e) => { return Err(e); },
            }
            Ok(TokenKind::RBracket)
        } else if c == ':' {
            match self.match_char(':') {
                Ok(()) => {},
                Err(e) => { return Err(e); },
            }
            Ok(TokenKind::Colon)
        } else if c == ';' {
            match self.match_char(';') {
                Ok(()) => {},
                Err(e) => { return Err(e); },
            }
            Ok(TokenKind::Semi)
        } else if c == ',' {
            match self.match_char(',') {
                Ok(()) => {},
                Err(e) => { return Err(e); },
            }
            Ok(TokenKind::Comma)
        } else if c == '+' {
            match self.match_char('+') {
                Ok(()) => {},
                Err(e) => { return Err(e); },
            }
            Ok(TokenKind::Plus)
        } else if c == '*' {
            match self.match_char('*') {
                Ok(()) => {},
                Err(e) => { return Err(e); },
            }
            Ok(TokenKind::Star)
        } else if c == '/' {
            match self.match_char('/') {
                Ok(()) => {},
                Err(e) => { return Err(e); },
            }
            Ok(TokenKind::Slash)
        } else if c == '%' {
            match self.match_char('%') {
                Ok(()) => {},
                Err(e) => { return Err(e); },
            }
            Ok(TokenKind::Percent)
        } else if c == '&' {
            match self.match_char('&') {
                Ok(()) => {},
                Err(e) => { return Err(e); },
            }
            Ok(TokenKind::Amp)
        } else if c == '|' {
            match self.match_char('|') {
                Ok(()) => {},
                Err(e) => { return Err(e); },
            }
            Ok(TokenKind::Pipe)
        } else {
            Err(ScanError::UnexpectedChar { found: c, at: self.next_char })
        }
    }

    /// Scans the whole source text: the token list up to and including the
    /// synthetic end-of-input token, or the first scan failure. The result is
    /// exactly what `scan_spec` gives on the source text.
    pub fn scan(&mut self) -> (r: Result<Vec<Token>, ScanError>)
        requires
            old(self).wf(),
            old(self).coords_ok(),
            old(self).pos() == 0,
            old(self).tokens@.len() == 0,
        ensures
            final(self).wf(),
            match r {
                Ok(toks) => scan_spec(old(self).src()) == Ok::<_, ScanError>(
                    toks@.map_values(|t: Token| t@),
                ),
                Err(e) => scan_spec(old(self).src()) == Err::<Seq<TokenModel>, _>(e),
            },
    {
        let ghost src = self.file@;
        proof {
            assert(self.emitted() =~= Seq::<TokenModel>::empty());
            match scan_spec_from(src, 0) {
                Ok(ts) => {
                    assert(Seq::<TokenModel>::empty() + ts =~= ts);
                },
                Err(_) => {},
            }
        }
        loop
            invariant
                self.wf(),
                self.coords_ok(),
                self.file@ == src,
                src == old(self).src(),
                0 <= self.next_char as int <= src.len(),
                tokens_after(self.emitted(), scan_spec_from(src, self.next_char as int))
                    == scan_spec(src),
            ensures
                self.wf(),
                self.coords_ok(),
                self.file@ == src,
                tokens_after(self.emitted(), scan_spec_from(src, self.next_char as int))
                    == scan_spec(src),
                self.next_char as int == src.len(),
            decreases src.len() - self.next_char,
        {
            if !self.has_next() {
                break;
            }
            let start = self.next_char;
            proof {
                lemma_coord_bounds(src, self.next_char as int);
            }
            let start_coord = self.index_to_coord(start);
            let c = match self.current() {
                Ok(x) => x,
                Err(e) => { return Err(e); },
            };
            let scanned: Option<TokenKind>;
            if char_is_ws(c) {
                match self.whitespace() {
                    Ok(()) => {},
                    Err(e) => { return Err(e); },
                }
                continue;
            } else if char_is_ident_start(c) {
                match self.identifier() {
                    Ok(()) => {},
                    Err(e) => { return Err(e); },
                }
                scanned = None;
            } else if char_is_digit(c) {
                match self.literal_number() {
                    Ok(()) => {},
                    Err(e) => { return Err(e); },
                }
                scanned = Some(TokenKind::NumLit);
            } else {
                match self.punct() {
                    Ok(k) => {
                        scanned = Some(k);
                    },
                    Err(e) => {
                        proof {
                            assert(scan_spec_from(src, start as int) == Err::<
                                Seq<TokenModel>,
                                _,
                            >(e));
                        }
                        return Err(e);
                    },
                }
            }
            let end = self.next_char;
            proof {
                lemma_coord_bounds(src, self.next_char as int);
            }
            let end_coord = self.index_to_coord(end);
            let value = self.file.as_str().substring_char(start, end).to_owned();
            let kind = match scanned {
                None => lookup_word_kind(&value),
                Some(k) => k,
            };
            let token = Token { kind, value, span: Span { start: start_coord, end: end_coord } };
            proof {
                let ghost pre = self.emitted();
                assert(token@ == token_model_at(src, kind, start as int, end as int));
                assert(scan_spec_from(src, start as int) == cons_token(
                    token@,
                    scan_spec_from(src, end as int),
                ));
                lemma_tokens_after_push(pre, token@, scan_spec_from(src, end as int));
            }
            let ghost pre_tokens = self.tokens@;
            self.tokens.push(token);
            proof {
                assert(self.emitted() =~= pre_tokens.map_values(|t: Token| t@).push(token@));
            }
        }
        proof {
            lemma_coord_bounds(src, self.next_char as int);
        }
        let eof_coord = self.index_to_coord(self.next_char);
        let eof = Token {
            kind: TokenKind::Eof,
            value: String::new(),
            span: Span { start: eof_coord, end: eof_coord },
        };
        proof {
            let ghost pre = self.emitted();
            assert(eof@ =~= eof_token_model(src));
            assert(scan_spec_from(src, src.len() as int) == Ok::<_, ScanError>(
                seq![eof_token_model(src)],
            ));
            assert(cons_token(eof@, Ok(Seq::<TokenModel>::empty())) == Ok::<_, ScanError>(
                seq![eof_token_model(src)],
            )) by {
                assert(seq![eof_token_model(src)] + Seq::<TokenModel>::empty()
                    =~= seq![eof_token_model(src)]);
            }
            lemma_tokens_after_push(pre, eof@, Ok(Seq::<TokenModel>::empty()));
        }
        let ghost pre_tokens = self.tokens@;
        self.tokens.push(eof);
        proof {
            assert(self.emitted() =~= pre_tokens.map_values(|t: Token| t@) + seq![eof@]);
            assert(scan_spec(src) == Ok::<_, ScanError>(self.emitted()));
        }
        let mut out: Vec<Token> = Vec::new();
        let mut k: usize = 0;
        while k < self.tokens.len()
            invariant
                0 <= k <= self.tokens.len(),
                out@.len() == k,
                forall|i: int| 0 <= i < k ==> out@[i]@ == self.tokens@[i]@,
                self.wf(),
                src == old(self).src(),
                scan_spec(src) == Ok::<_, ScanError>(self.emitted()),
            decreases self.tokens.len() - k,
        {
            let t = (&self.tokens[k]).clone();
            out.push(t);
            k = k + 1;
        }
        proof {
            assert(out@.map_values(|t: Token| t@) =~= self.emitted());
        }
        Ok(out)
    }
}

} // verus!
