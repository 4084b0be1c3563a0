//! Lexical scanning. Source text becomes a forward-only token sequence:
//! keywords, identifiers, the punctuation `{ } ( ) : , -> @ + .`, with
//! whitespace skipped. The scanner is total on its model: `tokens_from` says
//! for every text exactly which tokens it yields, or that it has a character
//! that begins no token.

use vstd::prelude::*;
use vstd::string::StrSliceExecFns;
use vstd::string::StringExecFns;
use crate::error::{GErr, PError, PResult};

verus! {

/// The kind of one token.
#[derive(Debug, Clone, Copy, PartialEq, Eq, Structural, Hash)]
pub enum TokenKind {
    /// The keyword `data`.
    Data,
    /// The keyword `module`.
    Module,
    /// A run of letters, digits and underscores that is not a keyword.
    Identifier,
    /// `{`
    BracketBegin,
    /// `}`
    BracketEnd,
    /// `(`
    ParenthesisBegin,
    /// `)`
    ParenthesisEnd,
    /// `:`
    Mapping,
    /// `,`
    Separater,
    /// `->`
    Allow,
    /// `@`
    AtMark,
    /// `+`
    Plus,
    /// `.`
    Accessor,
}

/// Mathematical model of a [`Token`].
pub ghost struct GToken {
    pub kind: TokenKind,
    pub id: Seq<char>,
}

/// One token: its kind, and for identifiers and keywords the text as written.
#[derive(Debug, PartialEq)]
pub struct Token {
    pub kind: TokenKind,
    pub id: String,
}

impl View for Token {
    type V = GToken;

    open spec fn view(&self) -> GToken {
        GToken { kind: self.kind, id: self.id@ }
    }
}

impl Clone for Token {
    fn clone(&self) -> (r: Token)
        ensures
            r == self,
    {
        Token { kind: self.kind, id: self.id.clone() }
    }
}

impl Token {
    /// The identifier text this token was read from.
    pub fn get_id(&self) -> (r: String)
        ensures
            r@ == self@.id,
    {
        self.id.clone()
    }
}

/// The token sequence of a token vector, at the model level.
pub open spec fn view_tokens(v: Seq<Token>) -> Seq<GToken> {
    v.map_values(|t: Token| t@)
}

/// Whitespace skipped between tokens.
pub open spec fn is_space(c: char) -> bool {
    c == ' ' || c == '\n' || c == '\t' || c == '\r'
}

/// Characters an identifier or keyword is made of.
pub open spec fn is_id_char(c: char) -> bool {
    ('a' as u32 <= c as u32 && c as u32 <= 'z' as u32)
    || ('A' as u32 <= c as u32 && c as u32 <= 'Z' as u32)
    || ('0' as u32 <= c as u32 && c as u32 <= '9' as u32)
    || c == '_'
}

/// First position at or after `i` that holds no whitespace.
pub open spec fn skip_ws(s: Seq<char>, i: int) -> int
    decreases s.len() - i,
{
    if 0 <= i && i < s.len() && is_space(s[i]) {
        skip_ws(s, i + 1)
    } else {
        i
    }
}

/// End of the identifier run that starts at or continues through `i`.
pub open spec fn id_end(s: Seq<char>, i: int) -> int
    decreases s.len() - i,
{
    if 0 <= i && i < s.len() && is_id_char(s[i]) {
        id_end(s, i + 1)
    } else {
        i
    }
}

/// The token kind of a single punctuation character, if it is one.
pub open spec fn punct_kind(c: char) -> Option<TokenKind> {
    if c == '{' {
        Some(TokenKind::BracketBegin)
    } else if c == '}' {
        Some(TokenKind::BracketEnd)
    } else if c == '(' {
        Some(TokenKind::ParenthesisBegin)
    } else if c == ')' {
        Some(TokenKind::ParenthesisEnd)
    } else if c == ':' {
        Some(TokenKind::Mapping)
    } else if c == ',' {
        Some(TokenKind::Separater)
    } else if c == '@' {
        Some(TokenKind::AtMark)
    } else if c == '+' {
        Some(TokenKind::Plus)
    } else if c == '.' {
        Some(TokenKind::Accessor)
    } else {
        None
    }
}

/// The kind an identifier run denotes: a keyword, or a plain identifier.
pub open spec fn word_kind(w: Seq<char>) -> TokenKind {
    if w == "data"@ {
        TokenKind::Data
    } else if w == "module"@ {
        TokenKind::Module
    } else {
        TokenKind::Identifier
    }
}

/// One token scanned at position `j` (not whitespace, in range), with the
/// position just after it; `None` if the character begins no token.
pub open spec fn scan_token(s: Seq<char>, j: int) -> Option<(GToken, int)> {
    let c = s[j];
    if is_id_char(c) {
        let k = id_end(s, j);
        Some((GToken { kind: word_kind(s.subrange(j, k)), id: s.subrange(j, k) }, k))
    } else if c == '-' {
        if j + 1 < s.len() && s[j + 1] == '>' {
            Some((GToken { kind: TokenKind::Allow, id: Seq::empty() }, j + 2))
        } else {
            None
        }
    } else {
        match punct_kind(c) {
            Some(kd) => Some((GToken { kind: kd, id: Seq::empty() }, j + 1)),
            None => None,
        }
    }
}

/// The whole token sequence of `s` from position `i` on, or `None` if a
/// character that begins no token is reached. (The index arithmetic is clamped
/// so the recursion visibly advances; the scanner never leaves the clamped
/// range, so the clamps change nothing.)
pub open spec fn tokens_from(s: Seq<char>, i: int) -> Option<Seq<GToken>>
    decreases s.len() - i,
{
    let j0 = skip_ws(s, i);
    let j = if j0 < i { i } else if j0 > s.len() { s.len() as int } else { j0 };
    if j >= s.len() {
        Some(Seq::empty())
    } else {
        match scan_token(s, j) {
            None => None,
            Some((t, k)) => {
                let k1 = if k > s.len() { s.len() as int } else { k };
                let k2 = if k1 > i { k1 } else { i + 1 };
                match tokens_from(s, k2) {
                    None => None,
                    Some(rest) => Some(seq![t] + rest),
                }
            },
        }
    }
}

/// The error reported for a character that begins no token.
pub open spec fn lex_err() -> GErr {
    GErr::Syntax { expected: TokenKind::Identifier, found: None }
}

fn is_space_e(c: char) -> (r: bool)
    ensures
        r == is_space(c),
{
    c == ' ' || c == '\n' || c == '\t' || c == '\r'
}

fn is_id_char_e(c: char) -> (r: bool)
    ensures
        r == is_id_char(c),
{
    ('a' as u32 <= c as u32 && c as u32 <= 'z' as u32)
    || ('A' as u32 <= c as u32 && c as u32 <= 'Z' as u32)
    || ('0' as u32 <= c as u32 && c as u32 <= '9' as u32)
    || c == '_'
}

/// Scans all tokens of `s` from `i` on into `acc`.
fn lex_from(s: &str, n: usize, i: usize, acc: &mut Vec<Token>) -> (r: Result<(), PError>)
    requires
        i <= s@.len(),
        n == s@.len(),
    ensures
        match tokens_from(s@, i as int) {
            Some(ts) => r is Ok && view_tokens(final(acc)@) == view_tokens(old(acc)@) + ts,
            None => r matches Err(e) && e@ == lex_err(),
        },
    decreases s@.len() - i,
{
    let mut j = i;
    while j < n && is_space_e(s.get_char(j))
        invariant
            i <= j <= n,
            n == s@.len(),
            skip_ws(s@, i as int) == skip_ws(s@, j as int),
        decreases n - j,
    {
        j += 1;
    }
    assert(skip_ws(s@, i as int) == j);
    if j == n {
        assert(view_tokens(acc@) =~= view_tokens(acc@) + Seq::<GToken>::empty());
        return Ok(());
    }
    let c = s.get_char(j);
    let (tok, next): (Token, usize) = if is_id_char_e(c) {
        let mut k = j + 1;
        while k < n && is_id_char_e(s.get_char(k))
            invariant
                j < k <= n,
                n == s@.len(),
                id_end(s@, j as int) == id_end(s@, k as int),
            decreases n - k,
        {
            k += 1;
        }
        assert(id_end(s@, j as int) == k);
        let word = s.substring_char(j, k).to_owned();
        let kind = if word.eq(&"data".to_owned()) {
            TokenKind::Data
        } else if word.eq(&"module".to_owned()) {
            TokenKind::Module
        } else {
            TokenKind::Identifier
        };
        (Token { kind, id: word }, k)
    } else if c == '-' {
        if j + 1 < n && s.get_char(j + 1) == '>' {
            (Token { kind: TokenKind::Allow, id: String::new() }, j + 2)
        } else {
            return Err(PError::Syntax { expected: TokenKind::Identifier, found: None });
        }
    } else {
        let kd = match c {
            '{' => TokenKind::BracketBegin,
            '}' => TokenKind::BracketEnd,
            '(' => TokenKind::ParenthesisBegin,
            ')' => TokenKind::ParenthesisEnd,
            ':' => TokenKind::Mapping,
            ',' => TokenKind::Separater,
            '@' => TokenKind::AtMark,
            '+' => TokenKind::Plus,
            '.' => TokenKind::Accessor,
            _ => {
                return Err(PError::Syntax { expected: TokenKind::Identifier, found: None });
            },
        };
        (Token { kind: kd, id: String::new() }, j + 1)
    };
    assert(scan_token(s@, j as int) == Some((tok@, next as int)));
    let ghost acc_before = acc@;
    acc.push(tok);
    assert(view_tokens(acc@) =~= view_tokens(acc_before) + seq![tok@]);
    let r = lex_from(s, n, next, acc);
    proof {
        if tokens_from(s@, next as int) is Some {
            let rest = tokens_from(s@, next as int)->Some_0;
            assert(tokens_from(s@, i as int) == Some(seq![tok@] + rest));
            assert(view_tokens(acc_before) + seq![tok@] + rest
                =~= view_tokens(acc_before) + (seq![tok@] + rest));
        }
    }
    r
}

/// A pre-scanned token stream and a cursor over it.
pub struct Tokenizer {
    pub tokens: Vec<Token>,
    pub pos: usize,
}

/// The next token has kind `k`.
pub open spec fn at_kind(ts: Seq<GToken>, pos: int, k: TokenKind) -> bool {
    0 <= pos < ts.len() && ts[pos].kind == k
}

/// The kind at a position, or `None` past the end.
pub open spec fn kind_at(ts: Seq<GToken>, pos: int) -> Option<TokenKind> {
    if 0 <= pos < ts.len() {
        Some(ts[pos].kind)
    } else {
        None
    }
}

impl Tokenizer {
    /// The model of the stream: the scanned tokens.
    pub open spec fn toks(&self) -> Seq<GToken> {
        view_tokens(self.tokens@)
    }

    /// Scans the whole text up front. Fails exactly where the text holds a
    /// character that begins no token.
    pub fn new(text: &str) -> (r: PResult<Tokenizer>)
        ensures
            match tokens_from(text@, 0) {
                Some(ts) => r matches Ok(t) && t.toks() == ts && t.pos == 0,
                None => r matches Err(e) && e@ == lex_err(),
            },
    {
        let n = text.unicode_len();
        let mut acc: Vec<Token> = Vec::new();
        match lex_from(text, n, 0, &mut acc) {
            Ok(()) => {
                proof {
                    if tokens_from(text@, 0) is Some {
                        assert(view_tokens(Seq::<Token>::empty())
                            + tokens_from(text@, 0)->Some_0
                            =~= tokens_from(text@, 0)->Some_0);
                    }
                }
                Ok(Tokenizer { tokens: acc, pos: 0 })
            },
            Err(e) => Err(e),
        }
    }

    /// Tokens remain before the cursor reaches the end.
    pub fn has_token(&self) -> (r: bool)
        ensures
            r == (self.pos < self.toks().len()),
    {
        self.pos < self.tokens.len()
    }

    /// The kind of the next token, or `None` at the end of the stream.
    pub fn peek(&self) -> (r: Option<TokenKind>)
        ensures
            r == kind_at(self.toks(), self.pos as int),
    {
        if self.pos < self.tokens.len() {
            Some(self.tokens[self.pos].kind)
        } else {
            None
        }
    }

    /// Non-consuming check: the next token is of kind `kind`.
    pub fn check(&self, kind: TokenKind) -> (r: bool)
        ensures
            r == at_kind(self.toks(), self.pos as int, kind),
    {
        self.pos < self.tokens.len() && self.tokens[self.pos].kind == kind
    }

    /// Optional match: consumes and returns the next token if it is of kind
    /// `kind`, otherwise consumes nothing and signals absence.
    pub fn expect(&mut self, kind: TokenKind) -> (r: Option<Token>)
        ensures
            final(self).toks() == old(self).toks(),
            at_kind(old(self).toks(), old(self).pos as int, kind) ==> {
                &&& r matches Some(t) && t@ == old(self).toks()[old(self).pos as int]
                &&& final(self).pos == old(self).pos + 1
            },
            !at_kind(old(self).toks(), old(self).pos as int, kind) ==> {
                &&& r is None
                &&& final(self).pos == old(self).pos
            },
    {
        if self.pos < self.tokens.len() && self.tokens[self.pos].kind == kind {
            let t = self.tokens[self.pos].clone();
            self.pos = self.pos + 1;
            Some(t)
        } else {
            None
        }
    }

    /// Mandatory match: like [`Tokenizer::expect`], but its absence is a
    /// syntax error naming the expected and the found kind.
    pub fn request(&mut self, kind: TokenKind) -> (r: PResult<Token>)
        ensures
            final(self).toks() == old(self).toks(),
            at_kind(old(self).toks(), old(self).pos as int, kind) ==> {
                &&& r matches Ok(t) && t@ == old(self).toks()[old(self).pos as int]
                &&& final(self).pos == old(self).pos + 1
            },
            !at_kind(old(self).toks(), old(self).pos as int, kind) ==> {
                &&& r matches Err(e) && e@ == (GErr::Syntax {
                    expected: kind,
                    found: kind_at(old(self).toks(), old(self).pos as int),
                })
                &&& final(self).pos == old(self).pos
            },
    {
        if self.pos < self.tokens.len() && self.tokens[self.pos].kind == kind {
            let t = self.tokens[self.pos].clone();
            self.pos = self.pos + 1;
            Ok(t)
        } else {
            let found = if self.pos < self.tokens.len() {
                Some(self.tokens[self.pos].kind)
            } else {
                None
            };
            Err(PError::Syntax { expected: kind, found })
        }
    }
}

} // verus!
