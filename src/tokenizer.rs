//! The tokenizer: turns query text into a finite sequence of tokens that
//! ends in exactly one end marker, or stops at the first malformed string
//! literal.
use vstd::prelude::*;
use vstd::std_specs::iter::IteratorSpec;
use crate::text::{char_is_alnum, char_is_space, is_alnum, is_space, push_char, to_upper, upper_of};
use crate::token::{keyword_spec, Keyword, SpecToken, Token};

verus! {

/// What a tokenizer still has to hand out: its tokens, and the message of
/// the error that stops it, if one does.
pub struct TokenStream {
    pub toks: Seq<SpecToken>,
    pub err: Option<Seq<char>>,
}

pub open spec fn is_digit(c: char) -> bool {
    '0' <= c <= '9'
}

/// A character that may start an identifier or keyword.
pub open spec fn is_word_start(c: char) -> bool {
    ('a' <= c <= 'z') || ('A' <= c <= 'Z') || c == '_'
}

/// A character that may continue an identifier or keyword.
pub open spec fn is_word_char(c: char) -> bool {
    is_alnum(c) || c == '_'
}

pub open spec fn is_quote(c: char) -> bool {
    c == '\'' || c == '"'
}

/// The first position at or after `p` that does not hold white space.
pub open spec fn skip_space(cs: Seq<char>, p: int) -> int
    decreases cs.len() - p,
{
    if 0 <= p < cs.len() && is_space(cs[p]) {
        skip_space(cs, p + 1)
    } else {
        p
    }
}

/// The end of the run of decimal digits that starts at `p`.
pub open spec fn digits_end(cs: Seq<char>, p: int) -> int
    decreases cs.len() - p,
{
    if 0 <= p < cs.len() && is_digit(cs[p]) {
        digits_end(cs, p + 1)
    } else {
        p
    }
}

/// The end of the run of word characters that starts at `p`.
pub open spec fn word_end(cs: Seq<char>, p: int) -> int
    decreases cs.len() - p,
{
    if 0 <= p < cs.len() && is_word_char(cs[p]) {
        word_end(cs, p + 1)
    } else {
        p
    }
}

/// The first position at or after `p` that holds a quote character, or the
/// end of the text.
pub open spec fn quote_end(cs: Seq<char>, p: int) -> int
    decreases cs.len() - p,
{
    if 0 <= p < cs.len() && !is_quote(cs[p]) {
        quote_end(cs, p + 1)
    } else {
        p
    }
}

/// The number that a run of decimal digits spells.
pub open spec fn digits_value(ds: Seq<char>) -> nat
    decreases ds.len(),
{
    if ds.len() == 0 {
        0
    } else {
        digits_value(ds.drop_last()) * 10 + (ds.last() as u32 - 48) as nat
    }
}

/// The token for a run of digits: its value, or an invalid marker when the
/// value does not fit in 64 bits.
pub open spec fn number_token(ds: Seq<char>) -> SpecToken {
    if digits_value(ds) <= u64::MAX {
        SpecToken::Number(digits_value(ds) as u64)
    } else {
        SpecToken::Invalid('0')
    }
}

/// The token for a word: the keyword it spells in any case, else an
/// identifier that keeps the word as written.
pub open spec fn word_token(w: Seq<char>) -> SpecToken {
    match keyword_spec(upper_of(w)) {
        Some(k) => SpecToken::Keyword(k),
        None => SpecToken::Identifier(w),
    }
}

pub open spec fn unterminated_message(quote: char) -> Seq<char> {
    "Unterminated string starting with "@ + seq![quote]
}

pub open spec fn mismatched_message(quote: char, found: char) -> Seq<char> {
    "Mismatched quotes: string started with "@ + seq![quote] + " but found "@ + seq![found]
}

/// The token that starts at `p`, which holds no white space, and the
/// position after it.
pub open spec fn scan(cs: Seq<char>, p: int) -> (Result<SpecToken, Seq<char>>, int) {
    if p < 0 || p >= cs.len() {
        (Ok(SpecToken::Eof), p)
    } else {
        let c = cs[p];
        if is_digit(c) {
            let e = digits_end(cs, p);
            (Ok(number_token(cs.subrange(p, e))), e)
        } else if is_word_start(c) {
            let e = word_end(cs, p);
            (Ok(word_token(cs.subrange(p, e))), e)
        } else if is_quote(c) {
            let e = quote_end(cs, p + 1);
            if e >= cs.len() {
                (Err(unterminated_message(c)), e)
            } else if cs[e] != c {
                (Err(mismatched_message(c, cs[e])), e + 1)
            } else {
                (Ok(SpecToken::Str(cs.subrange(p + 1, e))), e + 1)
            }
        } else if c == '>' || c == '<' || c == '!' {
            if p + 1 < cs.len() && cs[p + 1] == '=' {
                (
                    Ok(
                        if c == '>' {
                            SpecToken::GreaterThanOrEqual
                        } else if c == '<' {
                            SpecToken::LessThanOrEqual
                        } else {
                            SpecToken::NotEqual
                        },
                    ),
                    p + 2,
                )
            } else {
                (
                    Ok(
                        if c == '>' {
                            SpecToken::GreaterThan
                        } else if c == '<' {
                            SpecToken::LessThan
                        } else {
                            SpecToken::Invalid('!')
                        },
                    ),
                    p + 1,
                )
            }
        } else {
            (Ok(single_char_token(c)), p + 1)
        }
    }
}

/// The token of a character that stands alone.
pub open spec fn single_char_token(c: char) -> SpecToken {
    if c == '(' {
        SpecToken::LeftParentheses
    } else if c == ')' {
        SpecToken::RightParentheses
    } else if c == ',' {
        SpecToken::Comma
    } else if c == ';' {
        SpecToken::Semicolon
    } else if c == '=' {
        SpecToken::Equal
    } else if c == '*' {
        SpecToken::Star
    } else if c == '/' {
        SpecToken::Divide
    } else if c == '+' {
        SpecToken::Plus
    } else if c == '-' {
        SpecToken::Minus
    } else {
        SpecToken::Invalid(c)
    }
}

/// One step of the tokenizer from position `p`: the next token or error,
/// and the position after it.
pub open spec fn next_token_spec(cs: Seq<char>, p: int) -> (Result<SpecToken, Seq<char>>, int) {
    scan(cs, skip_space(cs, p))
}

/// All that the tokenizer hands out from position `p`: every token up to
/// and including the end marker, or the tokens before the first error and
/// that error.
pub open spec fn lex_from(cs: Seq<char>, p: int) -> TokenStream
    decreases cs.len() - p,
{
    let (r, q) = next_token_spec(cs, p);
    match r {
        Err(m) => TokenStream { toks: Seq::empty(), err: Some(m) },
        Ok(t) => {
            if t is Eof {
                TokenStream { toks: seq![SpecToken::Eof], err: None }
            } else if p < q <= cs.len() {
                let rest = lex_from(cs, q);
                TokenStream { toks: seq![t] + rest.toks, err: rest.err }
            } else {
                TokenStream { toks: Seq::empty(), err: None }
            }
        },
    }
}

/// The tokens of a whole text.
pub open spec fn tokenize_spec(cs: Seq<char>) -> TokenStream {
    lex_from(cs, 0)
}

/// The value of a tokenizer step as plain sequences.
pub open spec fn step_view(r: Result<Token, String>) -> Result<SpecToken, Seq<char>> {
    match r {
        Ok(t) => Ok(t@),
        Err(m) => Err(m@),
    }
}

/// A cursor over the characters of a query that hands out one token at a
/// time.
pub struct Tokenizer {
    chars: Vec<char>,
    pos: usize,
    reached_end: bool,
}

impl Tokenizer {
    /// The characters of the query.
    pub closed spec fn text(&self) -> Seq<char> {
        self.chars@
    }

    /// The position of the next character to read.
    pub closed spec fn pos(&self) -> int {
        self.pos as int
    }

    /// Whether the end marker has been handed out.
    pub closed spec fn done(&self) -> bool {
        self.reached_end
    }

    pub open spec fn wf(&self) -> bool {
        0 <= self.pos() <= self.text().len()
    }

    /// What the tokenizer still has to hand out.
    pub open spec fn rest(&self) -> TokenStream {
        if self.done() {
            TokenStream { toks: Seq::empty(), err: None }
        } else {
            lex_from(self.text(), self.pos())
        }
    }

    /// A tokenizer at the start of `input`.
    pub fn new(input: &str) -> (r: Tokenizer)
        ensures
            r.wf(),
            r.text() == input@,
            r.pos() == 0,
            !r.done(),
            r.rest() == tokenize_spec(input@),
    {
        let mut chars: Vec<char> = Vec::new();
        let mut it = input.chars();
        loop
            invariant
                it.obeys_prophetic_iter_laws(),
                it.decrease() is Some,
                chars@ + it.remaining() == input@,
            ensures
                chars@ == input@,
            decreases it.decrease()->0,
        {
            match it.next() {
                Some(c) => {
                    chars.push(c);
                },
                None => {
                    assert(it.remaining().len() == 0);
                    assert(chars@ + it.remaining() =~= chars@);
                    break;
                },
            }
        }
        Tokenizer { chars, pos: 0, reached_end: false }
    }
}

impl Tokenizer {
    /// The character under the cursor, if any.
    fn current(&self) -> (r: Option<char>)
        requires
            self.wf(),
        ensures
            r == (if self.pos() < self.text().len() {
                Some(self.text()[self.pos()])
            } else {
                None
            }),
    {
        if self.pos < self.chars.len() {
            Some(self.chars[self.pos])
        } else {
            None
        }
    }

    /// Moves the cursor past the run of white space under it.
    fn skip_whitespace(&mut self)
        requires
            old(self).wf(),
        ensures
            final(self).wf(),
            final(self).text() == old(self).text(),
            final(self).done() == old(self).done(),
            final(self).pos() == skip_space(old(self).text(), old(self).pos()),
            old(self).pos() <= final(self).pos(),
    {
        while self.pos < self.chars.len() && char_is_space(self.chars[self.pos])
            invariant
                self.wf(),
                self.text() == old(self).text(),
                self.done() == old(self).done(),
                skip_space(self.text(), self.pos()) == skip_space(old(self).text(), old(self).pos()),
                old(self).pos() <= self.pos(),
            decreases self.chars.len() - self.pos,
        {
            self.pos = self.pos + 1;
        }
    }

    /// Reads the run of decimal digits under the cursor as one number.
    fn read_number(&mut self) -> (r: Token)
        requires
            old(self).wf(),
            old(self).pos() < old(self).text().len(),
            is_digit(old(self).text()[old(self).pos()]),
        ensures
            final(self).wf(),
            final(self).text() == old(self).text(),
            final(self).done() == old(self).done(),
            (Ok::<SpecToken, Seq<char>>(r@), final(self).pos()) == scan(old(self).text(), old(self).pos()),
            old(self).pos() < final(self).pos(),
    {
        let ghost cs = self.text();
        let start = self.pos;
        let mut value: u64 = 0;
        let mut overflow = false;
        while self.pos < self.chars.len() && '0' <= self.chars[self.pos] && self.chars[self.pos] <= '9'
            invariant
                self.wf(),
                self.text() == cs,
                self.done() == old(self).done(),
                start <= self.pos(),
                start == old(self).pos(),
                digits_end(cs, self.pos()) == digits_end(cs, start as int),
                !overflow ==> value == digits_value(cs.subrange(start as int, self.pos())),
                overflow ==> digits_value(cs.subrange(start as int, self.pos())) > u64::MAX,
            decreases self.chars.len() - self.pos,
        {
            let c = self.chars[self.pos];
            let d: u64 = (c as u32 - 48) as u64;
            proof {
                let ds = cs.subrange(start as int, self.pos() + 1);
                assert(ds.drop_last() =~= cs.subrange(start as int, self.pos()));
                assert(ds.last() == c);
            }
            if !overflow {
                match value.checked_mul(10) {
                    Some(v) => match v.checked_add(d) {
                        Some(w) => {
                            value = w;
                        },
                        None => {
                            overflow = true;
                        },
                    },
                    None => {
                        overflow = true;
                    },
                }
            }
            self.pos = self.pos + 1;
        }
        if overflow {
            Token::Invalid('0')
        } else {
            Token::Number(value)
        }
    }

    /// Reads the word under the cursor as a keyword, matched without regard
    /// to case, or else as an identifier.
    fn read_identifier_or_keyword(&mut self) -> (r: Token)
        requires
            old(self).wf(),
            old(self).pos() < old(self).text().len(),
            is_word_start(old(self).text()[old(self).pos()]),
        ensures
            final(self).wf(),
            final(self).text() == old(self).text(),
            final(self).done() == old(self).done(),
            (Ok::<SpecToken, Seq<char>>(r@), final(self).pos()) == scan(old(self).text(), old(self).pos()),
            old(self).pos() < final(self).pos(),
    {
        let ghost cs = self.text();
        let start = self.pos;
        let mut word = String::new();
        while self.pos < self.chars.len() && (char_is_alnum(self.chars[self.pos]) || self.chars[self.pos] == '_')
            invariant
                self.wf(),
                self.text() == cs,
                self.done() == old(self).done(),
                start <= self.pos(),
                start == old(self).pos(),
                word_end(cs, self.pos()) == word_end(cs, start as int),
                word@ == cs.subrange(start as int, self.pos()),
            decreases self.chars.len() - self.pos,
        {
            push_char(&mut word, self.chars[self.pos]);
            proof {
                assert(word@ =~= cs.subrange(start as int, self.pos() + 1));
            }
            self.pos = self.pos + 1;
        }
        let upper = to_upper(word.as_str());
        match Keyword::from_upper(upper.as_str()) {
            Some(k) => Token::Keyword(k),
            None => Token::Identifier(word),
        }
    }

    /// Reads a string literal that opens with `quote` under the cursor. It
    /// must close with the same quote character.
    fn read_string(&mut self, quote: char) -> (r: Result<Token, String>)
        requires
            old(self).wf(),
            old(self).pos() < old(self).text().len(),
            old(self).text()[old(self).pos()] == quote,
            is_quote(quote),
        ensures
            final(self).wf(),
            final(self).text() == old(self).text(),
            final(self).done() == old(self).done(),
            (step_view(r), final(self).pos()) == scan(old(self).text(), old(self).pos()),
            old(self).pos() < final(self).pos(),
    {
        let ghost cs = self.text();
        let start = self.pos;
        assert(self.pos < self.chars.len());
        self.pos = self.pos + 1;
        let mut value = String::new();
        while self.pos < self.chars.len() && self.chars[self.pos] != '\'' && self.chars[self.pos] != '"'
            invariant
                self.wf(),
                self.text() == cs,
                self.done() == old(self).done(),
                start < self.pos(),
                start == old(self).pos(),
                quote_end(cs, self.pos()) == quote_end(cs, start + 1),
                value@ == cs.subrange(start + 1, self.pos()),
            decreases self.chars.len() - self.pos,
        {
            push_char(&mut value, self.chars[self.pos]);
            proof {
                assert(value@ =~= cs.subrange(start + 1, self.pos() + 1));
            }
            self.pos = self.pos + 1;
        }
        if self.pos >= self.chars.len() {
            let mut m = "Unterminated string starting with ".to_owned();
            push_char(&mut m, quote);
            assert(m@ =~= unterminated_message(quote));
            return Err(m);
        }
        let c = self.chars[self.pos];
        self.pos = self.pos + 1;
        if c != quote {
            let mut m = "Mismatched quotes: string started with ".to_owned();
            push_char(&mut m, quote);
            m.append(" but found ");
            push_char(&mut m, c);
            assert(m@ =~= mismatched_message(quote, c));
            return Err(m);
        }
        Ok(Token::String(value))
    }

    /// Reads the next token, after any white space. At the end of the text
    /// this is the end marker, and the cursor stays where it is.
    pub fn next_token(&mut self) -> (r: Result<Token, String>)
        requires
            old(self).wf(),
        ensures
            final(self).wf(),
            final(self).text() == old(self).text(),
            final(self).done() == old(self).done(),
            (step_view(r), final(self).pos()) == next_token_spec(old(self).text(), old(self).pos()),
            old(self).pos() <= final(self).pos(),
            r matches Ok(t) && !(t is Eof) ==> old(self).pos() < final(self).pos(),
    {
        self.skip_whitespace();
        match self.current() {
            None => Ok(Token::Eof),
            Some(c) => {
                assert(self.pos < self.chars.len());
                if '0' <= c && c <= '9' {
                    Ok(self.read_number())
                } else if ('a' <= c && c <= 'z') || ('A' <= c && c <= 'Z') || c == '_' {
                    Ok(self.read_identifier_or_keyword())
                } else if c == '\'' || c == '"' {
                    self.read_string(c)
                } else if c == '>' || c == '<' || c == '!' {
                    self.pos = self.pos + 1;
                    let follows_equal = match self.current() {
                        Some(n) => n == '=',
                        None => false,
                    };
                    if follows_equal {
                        assert(self.pos < self.chars.len());
                        self.pos = self.pos + 1;
                        if c == '>' {
                            Ok(Token::GreaterThanOrEqual)
                        } else if c == '<' {
                            Ok(Token::LessThanOrEqual)
                        } else {
                            Ok(Token::NotEqual)
                        }
                    } else if c == '>' {
                        Ok(Token::GreaterThan)
                    } else if c == '<' {
                        Ok(Token::LessThan)
                    } else {
                        Ok(Token::Invalid('!'))
                    }
                } else {
                    self.pos = self.pos + 1;
                    if c == '(' {
                        Ok(Token::LeftParentheses)
                    } else if c == ')' {
                        Ok(Token::RightParentheses)
                    } else if c == ',' {
                        Ok(Token::Comma)
                    } else if c == ';' {
                        Ok(Token::Semicolon)
                    } else if c == '=' {
                        Ok(Token::Equal)
                    } else if c == '*' {
                        Ok(Token::Star)
                    } else if c == '/' {
                        Ok(Token::Divide)
                    } else if c == '+' {
                        Ok(Token::Plus)
                    } else if c == '-' {
                        Ok(Token::Minus)
                    } else {
                        Ok(Token::Invalid(c))
                    }
                }
            },
        }
    }

    /// Hands out the next token or error. After the end marker has been
    /// handed out once, there is nothing more.
    pub fn next(&mut self) -> (r: Option<Result<Token, String>>)
        requires
            old(self).wf(),
        ensures
            final(self).wf(),
            final(self).text() == old(self).text(),
            old(self).done() ==> r is None && final(self).done(),
            !old(self).done() ==> r is Some && (step_view(r->Some_0), final(self).pos())
                == next_token_spec(old(self).text(), old(self).pos()) && final(self).done()
                == (step_view(r->Some_0) == Ok::<SpecToken, Seq<char>>(SpecToken::Eof)),
            r is None ==> final(self).rest() == old(self).rest(),
            r matches Some(Ok(t)) ==> old(self).rest().toks == seq![t@] + final(self).rest().toks
                && old(self).rest().err == final(self).rest().err,
            r matches Some(Err(m)) ==> old(self).rest().toks.len() == 0 && old(self).rest().err
                == Some(m@),
    {
        if self.reached_end {
            return None;
        }
        let r = self.next_token();
        if let Ok(Token::Eof) = r {
            self.reached_end = true;
            proof {
                assert(seq![SpecToken::Eof] + self.rest().toks =~= seq![SpecToken::Eof]);
            }
        }
        Some(r)
    }

    /// Every token up to and including the end marker, or the first error.
    pub fn collect_tokens(self) -> (r: Result<Vec<Token>, String>)
        requires
            self.wf(),
        ensures
            match self.rest().err {
                None => r matches Ok(v) && v@.map_values(|t: Token| t@) == self.rest().toks,
                Some(m) => r matches Err(e) && e@ == m,
            },
    {
        let mut t = self;
        let mut out: Vec<Token> = Vec::new();
        loop
            invariant
                t.wf(),
                self.rest().toks == out@.map_values(|t: Token| t@) + t.rest().toks,
                self.rest().err == t.rest().err,
            decreases t.rest().toks.len(),
        {
            match t.next() {
                None => {
                    proof {
                        assert(out@.map_values(|t: Token| t@) + t.rest().toks =~= out@.map_values(|t: Token| t@));
                    }
                    return Ok(out);
                },
                Some(Err(m)) => {
                    return Err(m);
                },
                Some(Ok(tok)) => {
                    let ghost before = out@;
                    out.push(tok);
                    proof {
                        assert(out@.map_values(|t: Token| t@) =~= before.map_values(|t: Token| t@).push(tok@));
                        assert(out@.map_values(|t: Token| t@) + t.rest().toks =~= before.map_values(|t: Token| t@) + (seq![tok@] + t.rest().toks));
                    }
                },
            }
        }
    }
}

} // verus!
