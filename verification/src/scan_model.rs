use vstd::prelude::*;
use crate::chars::{is_ws_char, is_digit_char, is_ident_start_char, is_ident_char};
use crate::coords::span_at;
use crate::token::{TokenKind, TokenModel};

verus! {

/// A failure of the scanning pass: a character no token may contain at the
/// position it was met, or input that ended where a token still needed a
/// character. `at` is the character offset into the source text.
#[derive(Clone, Copy, PartialEq, Eq, Structural, Debug)]
pub enum ScanError {
    UnexpectedChar { found: char, at: usize },
    NoMoreChars { at: usize },
}

/// One past the last position of the identifier-character run beginning at `i`.
pub open spec fn ident_end(src: Seq<char>, i: int) -> int
    decreases src.len() - i,
{
    if i < src.len() && is_ident_char(src[i]) {
        ident_end(src, i + 1)
    } else {
        i
    }
}

/// One past the last position of the digit run beginning at `i`.
pub open spec fn digits_end(src: Seq<char>, i: int) -> int
    decreases src.len() - i,
{
    if i < src.len() && is_digit_char(src[i]) {
        digits_end(src, i + 1)
    } else {
        i
    }
}

/// One past the last position of the number literal beginning at `i`: a run of
/// digits, then optionally one `.` followed by a further (possibly empty) run
/// of digits.
pub open spec fn number_end(src: Seq<char>, i: int) -> int {
    let d = digits_end(src, i);
    if d < src.len() && src[d] == '.' {
        digits_end(src, d + 1)
    } else {
        d
    }
}

/// The kind of a scanned word: the keyword's own kind when the lexeme is in
/// the fixed keyword set, the generic identifier marker otherwise.
pub open spec fn keyword_or_id_kind(text: Seq<char>) -> TokenKind {
    if text == "and"@ {
        TokenKind::KwAnd
    } else if text == "entry"@ {
        TokenKind::KwEntry
    } else if text == "false"@ {
        TokenKind::KwFalse
    } else if text == "fn"@ {
        TokenKind::KwFn
    } else if text == "fragment"@ {
        TokenKind::KwFragment
    } else if text == "in"@ {
        TokenKind::KwIn
    } else if text == "let"@ {
        TokenKind::KwLet
    } else if text == "loc"@ {
        TokenKind::KwLoc
    } else if text == "not"@ {
        TokenKind::KwNot
    } else if text == "or"@ {
        TokenKind::KwOr
    } else if text == "out"@ {
        TokenKind::KwOut
    } else if text == "return"@ {
        TokenKind::KwReturn
    } else if text == "true"@ {
        TokenKind::KwTrue
    } else if text == "vec2"@ {
        TokenKind::KwVec2
    } else if text == "vec3"@ {
        TokenKind::KwVec3
    } else if text == "vec4"@ {
        TokenKind::KwVec4
    } else if text == "vertex"@ {
        TokenKind::KwVertex
    } else if text == "void"@ {
        TokenKind::KwVoid
    } else {
        TokenKind::Id
    }
}

/// The punctuation or operator token beginning at position `i` (which must not
/// start whitespace, a word or a number): its kind and one past its last
/// character. Two-character forms are attempted before their one-character
/// prefixes. A character that starts no token is a scan failure, as is a `!`
/// that the input ends on or that no `=` follows.
pub open spec fn punct_at(src: Seq<char>, i: int) -> Result<(TokenKind, int), ScanError> {
    let c = src[i];
    if c == '-' {
        if i + 1 < src.len() && src[i + 1] == '>' {
            Ok((TokenKind::Arrow, i + 2))
        } else {
            Ok((TokenKind::Minus, i + 1))
        }
    } else if c == '<' {
        if i + 1 < src.len() && src[i + 1] == '=' {
            Ok((TokenKind::Le, i + 2))
        } else {
            Ok((TokenKind::Lt, i + 1))
        }
    } else if c == '>' {
        if i + 1 < src.len() && src[i + 1] == '=' {
            Ok((TokenKind::Ge, i + 2))
        } else {
            Ok((TokenKind::Gt, i + 1))
        }
    } else if c == '=' {
        if i + 1 < src.len() && src[i + 1] == '=' {
            Ok((TokenKind::EqEq, i + 2))
        } else {
            Ok((TokenKind::Assign, i + 1))
        }
    } else if c == '!' {
        if i + 1 >= src.len() {
            Err(ScanError::NoMoreChars { at: (i + 1) as usize })
        } else if src[i + 1] == '=' {
            Ok((TokenKind::BangEq, i + 2))
        } else {
            Err(ScanError::UnexpectedChar { found: src[i + 1], at: (i + 1) as usize })
        }
    } else if c == '(' {
        Ok((TokenKind::LParen, i + 1))
    } else if c == ')' {
        Ok((TokenKind::RParen, i + 1))
    } else if c == '{' {
        Ok((TokenKind::LBrace, i + 1))
    } else if c == '}' {
        Ok((TokenKind::RBrace, i + 1))
    } else if c == '[' {
        Ok((TokenKind::LBracket, i + 1))
    } else if c == ']' {
        Ok((TokenKind::RBracket, i + 1))
    } else if c == ':' {
        Ok((TokenKind::Colon, i + 1))
    } else if c == ';' {
        Ok((TokenKind::Semi, i + 1))
    } else if c == ',' {
        Ok((TokenKind::Comma, i + 1))
    } else if c == '+' {
        Ok((TokenKind::Plus, i + 1))
    } else if c == '*' {
        Ok((TokenKind::Star, i + 1))
    } else if c == '/' {
        Ok((TokenKind::Slash, i + 1))
    } else if c == '%' {
        Ok((TokenKind::Percent, i + 1))
    } else if c == '&' {
        Ok((TokenKind::Amp, i + 1))
    } else if c == '|' {
        Ok((TokenKind::Pipe, i + 1))
    } else {
        Err(ScanError::UnexpectedChar { found: c, at: i as usize })
    }
}

/// The token occupying the region `[start, end)` of `src`, with the given kind.
pub open spec fn token_model_at(src: Seq<char>, kind: TokenKind, start: int, end: int) -> TokenModel {
    TokenModel { kind, text: src.subrange(start, end), span: span_at(src, start, end) }
}

/// The synthetic end-of-input token, placed at the end coordinate of `src`.
pub open spec fn eof_token_model(src: Seq<char>) -> TokenModel {
    TokenModel {
        kind: TokenKind::Eof,
        text: Seq::empty(),
        span: span_at(src, src.len() as int, src.len() as int),
    }
}

/// Prefixes a token onto the outcome of scanning the rest of the input; a
/// failure further right aborts the whole pass.
pub open spec fn cons_token(
    t: TokenModel,
    rest: Result<Seq<TokenModel>, ScanError>,
) -> Result<Seq<TokenModel>, ScanError> {
    match rest {
        Ok(ts) => Ok(seq![t] + ts),
        Err(e) => Err(e),
    }
}

/// The outcome of scanning `src` from position `i` on: the token sequence up
/// to and including the synthetic end-of-input token, or the first scan
/// failure. Whitespace is consumed and discarded; a word is cut at the longest
/// identifier-character run and classified by the keyword set; a number
/// literal is cut by `number_end`; everything else must be punctuation or an
/// operator.
pub open spec fn scan_spec_from(src: Seq<char>, i: int) -> Result<Seq<TokenModel>, ScanError>
    decreases src.len() - i + 1,
        via scan_spec_from_dec
{
    if i >= src.len() {
        Ok(seq![eof_token_model(src)])
    } else if is_ws_char(src[i]) {
        scan_spec_from(src, i + 1)
    } else if is_ident_start_char(src[i]) {
        let j = ident_end(src, i);
        cons_token(
            token_model_at(src, keyword_or_id_kind(src.subrange(i, j)), i, j),
            scan_spec_from(src, j),
        )
    } else if is_digit_char(src[i]) {
        let j = number_end(src, i);
        cons_token(token_model_at(src, TokenKind::NumLit, i, j), scan_spec_from(src, j))
    } else {
        match punct_at(src, i) {
            Ok((kind, j)) => cons_token(token_model_at(src, kind, i, j), scan_spec_from(src, j)),
            Err(e) => Err(e),
        }
    }
}

/// The outcome of scanning all of `src`.
pub open spec fn scan_spec(src: Seq<char>) -> Result<Seq<TokenModel>, ScanError> {
    scan_spec_from(src, 0)
}

/// Prefixes the already-emitted tokens onto the outcome of scanning the rest
/// of the input.
pub open spec fn tokens_after(
    pre: Seq<TokenModel>,
    rest: Result<Seq<TokenModel>, ScanError>,
) -> Result<Seq<TokenModel>, ScanError> {
    match rest {
        Ok(ts) => Ok(pre + ts),
        Err(e) => Err(e),
    }
}

/// Emitting one more token and scanning on is the same as scanning on from
/// before the token.
pub proof fn lemma_tokens_after_push(
    pre: Seq<TokenModel>,
    t: TokenModel,
    rest: Result<Seq<TokenModel>, ScanError>,
)
    ensures
        tokens_after(pre.push(t), rest) == tokens_after(pre, cons_token(t, rest)),
{
    match rest {
        Ok(ts) => {
            assert(pre.push(t) + ts =~= pre + (seq![t] + ts));
        },
        Err(_) => {},
    }
}

/// An identifier run neither retreats nor runs past the end of the input.
pub proof fn lemma_ident_end_bounds(src: Seq<char>, i: int)
    ensures
        i <= ident_end(src, i),
        i <= src.len() ==> ident_end(src, i) <= src.len(),
    decreases src.len() - i,
{
    if i < src.len() && is_ident_char(src[i]) {
        lemma_ident_end_bounds(src, i + 1);
    }
}

/// A digit run neither retreats nor runs past the end of the input.
pub proof fn lemma_digits_end_bounds(src: Seq<char>, i: int)
    ensures
        i <= digits_end(src, i),
        i <= src.len() ==> digits_end(src, i) <= src.len(),
    decreases src.len() - i,
{
    if i < src.len() && is_digit_char(src[i]) {
        lemma_digits_end_bounds(src, i + 1);
    }
}

/// A number literal neither retreats nor runs past the end of the input, and
/// consumes at least its first character when that is a digit.
pub proof fn lemma_number_end_bounds(src: Seq<char>, i: int)
    ensures
        i <= number_end(src, i),
        i <= src.len() ==> number_end(src, i) <= src.len(),
        i < src.len() && is_digit_char(src[i]) ==> i < number_end(src, i),
{
    lemma_digits_end_bounds(src, i);
    lemma_digits_end_bounds(src, i + 1);
    let d = digits_end(src, i);
    if d < src.len() && src[d] == '.' {
        lemma_digits_end_bounds(src, d + 1);
    }
}

#[via_fn]
proof fn scan_spec_from_dec(src: Seq<char>, i: int) {
    lemma_ident_end_bounds(src, i + 1);
    lemma_number_end_bounds(src, i);
}

/// A digit run ends exactly at the first position that is not a digit.
pub proof fn lemma_digits_end_characterize(s: Seq<char>, i: int, k: int)
    requires
        0 <= i <= k <= s.len(),
        forall|j: int| i <= j < k ==> is_digit_char(#[trigger] s[j]),
        k == s.len() || !is_digit_char(s[k]),
    ensures
        digits_end(s, i) == k,
    decreases k - i,
{
    if i < k {
        lemma_digits_end_characterize(s, i + 1, k);
    }
}

/// `s` consists of `k` digits and then, unless `k` is its length, one `.`
/// followed by digits to the end.
pub open spec fn number_literal_shape(s: Seq<char>, k: int) -> bool {
    &&& 1 <= k <= s.len()
    &&& forall|i: int| 0 <= i < k ==> is_digit_char(#[trigger] s[i])
    &&& (k == s.len() || (s[k] == '.' && forall|i: int|
        k < i < s.len() ==> is_digit_char(#[trigger] s[i])))
}

/// The text of a well-formed number literal: a nonempty run of digits,
/// optionally followed by one `.` and a further (possibly empty) run of
/// digits.
pub open spec fn is_number_literal_text(s: Seq<char>) -> bool {
    exists|k: int| number_literal_shape(s, k)
}

/// Round-trip law for number literals: scanning the text of a well-formed
/// number literal yields exactly that literal (with the identical lexeme,
/// normalized in no way) followed by the end-of-input token.
pub proof fn lemma_number_literal_round_trip(s: Seq<char>)
    requires
        is_number_literal_text(s),
    ensures
        scan_spec(s) matches Ok(ts) && ts.len() == 2 && ts[0].kind == TokenKind::NumLit
            && ts[0].text == s && ts[1].kind == TokenKind::Eof,
{
    let k = choose|k: int| number_literal_shape(s, k);
    assert(number_literal_shape(s, k));
    assert(is_digit_char(s[0]));
    lemma_digits_end_characterize(s, 0, k);
    if k < s.len() {
        assert(!is_digit_char(s[k]));
        lemma_digits_end_characterize(s, k + 1, s.len() as int);
    }
    assert(number_end(s, 0) == s.len());
    assert(!is_ws_char(s[0]) && !is_ident_start_char(s[0]));
    assert(s.subrange(0, s.len() as int) =~= s);
    let tok = token_model_at(s, TokenKind::NumLit, 0, s.len() as int);
    assert(scan_spec_from(s, s.len() as int) == Ok::<_, ScanError>(seq![eof_token_model(s)]));
    assert(scan_spec(s) == Ok::<_, ScanError>(seq![tok] + seq![eof_token_model(s)]));
    let ts = scan_spec(s)->Ok_0;
    assert(ts.len() == 2 && ts[0] == tok && ts[1] == eof_token_model(s));
}

/// Idempotence of scanning: the outcome is a function of the source text
/// alone, so scanning equal texts yields byte-identical token sequences
/// (kinds, lexemes and spans alike), however often the scan is repeated.
pub proof fn lemma_scan_deterministic(src1: Seq<char>, src2: Seq<char>)
    requires
        src1 == src2,
    ensures
        scan_spec(src1) == scan_spec(src2),
{
}

} // verus!
