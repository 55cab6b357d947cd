//! Tokens of a schema source: words, quoted strings and single punctuation
//! bytes, with whitespace and comments dropped. One byte at a time.
use vstd::prelude::*;

verus! {

#[derive(Clone, Copy, Debug, PartialEq, Eq, Structural)]
pub enum TokKind {
    Word,
    Str,
    Punct,
}

/// A token and the byte range that it covers.
#[derive(Clone, Copy, Debug, PartialEq, Eq, Structural)]
pub struct Token {
    pub kind: TokKind,
    pub start: usize,
    pub end: usize,
}

/// Where the lexer stands between two bytes.
#[derive(Clone, Copy, Debug, PartialEq, Eq, Structural)]
pub enum LexState {
    Normal,
    InWord { start: usize },
    Slash { at: usize },
    LineComment,
    Block { start: usize },
    BlockStar { start: usize },
    InStr { start: usize, quote: u8 },
    StrEscape { start: usize, quote: u8 },
    Failed { at: usize },
}

pub const UNDERSCORE: u8 = 95;
pub const DOT: u8 = 46;
pub const SPACE: u8 = 32;
pub const TAB: u8 = 9;
pub const NEWLINE: u8 = 10;
pub const RETURN: u8 = 13;
pub const SLASH: u8 = 47;
pub const STAR: u8 = 42;
pub const DQUOTE: u8 = 34;
pub const SQUOTE: u8 = 39;
pub const BACKSLASH: u8 = 92;

/// Letters, digits, `_` and `.`: the bytes of names and numbers.
pub open spec fn is_word_byte(c: u8) -> bool {
    (97 <= c <= 122) || (65 <= c <= 90) || (48 <= c <= 57) || c == UNDERSCORE || c == DOT
}

pub open spec fn is_space(c: u8) -> bool {
    c == SPACE || c == TAB || c == NEWLINE || c == RETURN
}

/// One byte read from the plain state.
pub open spec fn start_spec(pos: usize, c: u8) -> (LexState, Seq<Token>) {
    if is_space(c) {
        (LexState::Normal, Seq::empty())
    } else if is_word_byte(c) {
        (LexState::InWord { start: pos }, Seq::empty())
    } else if c == SLASH {
        (LexState::Slash { at: pos }, Seq::empty())
    } else if c == DQUOTE || c == SQUOTE {
        (LexState::InStr { start: pos, quote: c }, Seq::empty())
    } else {
        (LexState::Normal, seq![Token { kind: TokKind::Punct, start: pos, end: (pos + 1) as usize }])
    }
}

/// One byte read from any state: the next state and the tokens completed.
pub open spec fn step_spec(st: LexState, pos: usize, c: u8) -> (LexState, Seq<Token>) {
    match st {
        LexState::Normal => start_spec(pos, c),
        LexState::InWord { start } => if is_word_byte(c) {
            (st, Seq::empty())
        } else {
            let (s, t) = start_spec(pos, c);
            (s, seq![Token { kind: TokKind::Word, start, end: pos }] + t)
        },
        LexState::Slash { at } => if c == SLASH {
            (LexState::LineComment, Seq::empty())
        } else if c == STAR {
            (LexState::Block { start: at }, Seq::empty())
        } else {
            let (s, t) = start_spec(pos, c);
            (s, seq![Token { kind: TokKind::Punct, start: at, end: (at + 1) as usize }] + t)
        },
        LexState::LineComment => if c == NEWLINE {
            (LexState::Normal, Seq::empty())
        } else {
            (st, Seq::empty())
        },
        LexState::Block { start } => if c == STAR {
            (LexState::BlockStar { start }, Seq::empty())
        } else {
            (st, Seq::empty())
        },
        LexState::BlockStar { start } => if c == SLASH {
            (LexState::Normal, Seq::empty())
        } else if c == STAR {
            (st, Seq::empty())
        } else {
            (LexState::Block { start }, Seq::empty())
        },
        LexState::InStr { start, quote } => if c == BACKSLASH {
            (LexState::StrEscape { start, quote }, Seq::empty())
        } else if c == quote {
            (LexState::Normal, seq![Token { kind: TokKind::Str, start, end: (pos + 1) as usize }])
        } else if c == NEWLINE {
            (LexState::Failed { at: start }, Seq::empty())
        } else {
            (st, Seq::empty())
        },
        LexState::StrEscape { start, quote } => (LexState::InStr { start, quote }, Seq::empty()),
        LexState::Failed { .. } => (st, Seq::empty()),
    }
}

/// The state and tokens after the first `n` bytes.
pub open spec fn lex_prefix(b: Seq<u8>, n: int) -> (LexState, Seq<Token>)
    decreases n,
{
    if n <= 0 {
        (LexState::Normal, Seq::empty())
    } else {
        let (st, toks) = lex_prefix(b, n - 1);
        let (st2, more) = step_spec(st, (n - 1) as usize, b[n - 1]);
        (st2, toks + more)
    }
}

/// The tokens of a whole source, or the offset of the comment or string
/// that it leaves open.
pub open spec fn lex_spec(b: Seq<u8>) -> Result<Seq<Token>, usize> {
    let (st, toks) = lex_prefix(b, b.len() as int);
    match st {
        LexState::InWord { start } => Ok(
            toks.push(Token { kind: TokKind::Word, start, end: b.len() as usize }),
        ),
        LexState::Slash { at } => Ok(
            toks.push(Token { kind: TokKind::Punct, start: at, end: (at + 1) as usize }),
        ),
        LexState::Block { start } => Err(start),
        LexState::BlockStar { start } => Err(start),
        LexState::InStr { start, .. } => Err(start),
        LexState::StrEscape { start, .. } => Err(start),
        LexState::Failed { at } => Err(at),
        _ => Ok(toks),
    }
}

fn is_word(c: u8) -> (r: bool)
    ensures
        r == is_word_byte(c),
{
    (97 <= c && c <= 122) || (65 <= c && c <= 90) || (48 <= c && c <= 57) || c == UNDERSCORE
        || c == DOT
}

fn start(pos: usize, c: u8, toks: &mut Vec<Token>) -> (st: LexState)
    requires
        pos < usize::MAX,
    ensures
        (st, final(toks)@) == (start_spec(pos, c).0, old(toks)@ + start_spec(pos, c).1),
{
    if c == SPACE || c == TAB || c == NEWLINE || c == RETURN {
        assert(old(toks)@ + Seq::<Token>::empty() =~= old(toks)@);
        LexState::Normal
    } else if is_word(c) {
        assert(old(toks)@ + Seq::<Token>::empty() =~= old(toks)@);
        LexState::InWord { start: pos }
    } else if c == SLASH {
        assert(old(toks)@ + Seq::<Token>::empty() =~= old(toks)@);
        LexState::Slash { at: pos }
    } else if c == DQUOTE || c == SQUOTE {
        assert(old(toks)@ + Seq::<Token>::empty() =~= old(toks)@);
        LexState::InStr { start: pos, quote: c }
    } else {
        let t = Token { kind: TokKind::Punct, start: pos, end: pos + 1 };
        toks.push(t);
        assert(final(toks)@ =~= old(toks)@ + seq![t]);
        LexState::Normal
    }
}

fn step(st: LexState, pos: usize, c: u8, toks: &mut Vec<Token>) -> (r: LexState)
    requires
        pos < usize::MAX,
        match st {
            LexState::Slash { at } => at < usize::MAX,
            _ => true,
        },
    ensures
        r == step_spec(st, pos, c).0,
        final(toks)@ == old(toks)@ + step_spec(st, pos, c).1,
{
    let ghost before = toks@;
    proof {
        assert(before + Seq::<Token>::empty() =~= before);
    }
    match st {
        LexState::Normal => start(pos, c, toks),
        LexState::InWord { start: s } => {
            if is_word(c) {
                st
            } else {
                let w = Token { kind: TokKind::Word, start: s, end: pos };
                toks.push(w);
                let r = start(pos, c, toks);
                assert(final(toks)@ =~= before + (seq![w] + start_spec(pos, c).1));
                r
            }
        },
        LexState::Slash { at } => {
            if c == SLASH {
                LexState::LineComment
            } else if c == STAR {
                LexState::Block { start: at }
            } else {
                let p = Token { kind: TokKind::Punct, start: at, end: at + 1 };
                toks.push(p);
                let r = start(pos, c, toks);
                assert(final(toks)@ =~= before + (seq![p] + start_spec(pos, c).1));
                r
            }
        },
        LexState::LineComment => {
            if c == NEWLINE {
                LexState::Normal
            } else {
                st
            }
        },
        LexState::Block { start: s } => {
            if c == STAR {
                LexState::BlockStar { start: s }
            } else {
                st
            }
        },
        LexState::BlockStar { start: s } => {
            if c == SLASH {
                LexState::Normal
            } else if c == STAR {
                st
            } else {
                LexState::Block { start: s }
            }
        },
        LexState::InStr { start: s, quote } => {
            if c == BACKSLASH {
                LexState::StrEscape { start: s, quote }
            } else if c == quote {
                let t = Token { kind: TokKind::Str, start: s, end: pos + 1 };
                toks.push(t);
                assert(final(toks)@ =~= before + seq![t]);
                LexState::Normal
            } else if c == NEWLINE {
                LexState::Failed { at: s }
            } else {
                st
            }
        },
        LexState::StrEscape { start: s, quote } => LexState::InStr { start: s, quote },
        LexState::Failed { .. } => st,
    }
}

/// Every position that a state holds lies before the byte being read.
pub open spec fn state_below(st: LexState, n: int) -> bool {
    match st {
        LexState::InWord { start } => start < n,
        LexState::Slash { at } => at < n,
        LexState::Block { start } => start < n,
        LexState::BlockStar { start } => start < n,
        LexState::InStr { start, .. } => start < n,
        LexState::StrEscape { start, .. } => start < n,
        LexState::Failed { at } => at < n,
        _ => true,
    }
}

/// Every token covers a non-empty range of the first `n` bytes.
pub open spec fn tokens_within(toks: Seq<Token>, n: int) -> bool {
    forall|i: int| 0 <= i < toks.len() ==> (#[trigger] toks[i]).start < toks[i].end <= n
}

proof fn lemma_step_within(st: LexState, pos: usize, c: u8)
    requires
        state_below(st, pos as int),
        pos < usize::MAX,
    ensures
        tokens_within(step_spec(st, pos, c).1, pos + 1),
{
    let t = start_spec(pos, c).1;
    assert(tokens_within(t, pos + 1));
    match st {
        LexState::InWord { start } => {
            if !is_word_byte(c) {
                let w = Token { kind: TokKind::Word, start, end: pos };
                assert forall|i: int| 0 <= i < (seq![w] + t).len() implies (#[trigger] (seq![w]
                    + t)[i]).start < (seq![w] + t)[i].end <= pos + 1 by {
                    if i > 0 {
                        assert((seq![w] + t)[i] == t[i - 1]);
                    }
                }
            }
        },
        LexState::Slash { at } => {
            if c != SLASH && c != STAR {
                let w = Token { kind: TokKind::Punct, start: at, end: (at + 1) as usize };
                assert forall|i: int| 0 <= i < (seq![w] + t).len() implies (#[trigger] (seq![w]
                    + t)[i]).start < (seq![w] + t)[i].end <= pos + 1 by {
                    if i > 0 {
                        assert((seq![w] + t)[i] == t[i - 1]);
                    }
                }
            }
        },
        _ => {},
    }
}

proof fn lemma_state_below(b: Seq<u8>, n: int)
    requires
        0 <= n <= b.len(),
        b.len() < usize::MAX,
    ensures
        state_below(lex_prefix(b, n).0, n),
        tokens_within(lex_prefix(b, n).1, n),
    decreases n,
{
    if n > 0 {
        lemma_state_below(b, n - 1);
        let (st, toks) = lex_prefix(b, n - 1);
        let more = step_spec(st, (n - 1) as usize, b[n - 1]).1;
        lemma_step_within(st, (n - 1) as usize, b[n - 1]);
        assert forall|i: int| 0 <= i < (toks + more).len() implies (#[trigger] (toks + more)[i]).start
            < (toks + more)[i].end <= n by {
            if i >= toks.len() {
                assert((toks + more)[i] == more[i - toks.len()]);
            }
        }
    }
}

/// Splits a source into tokens, or gives the offset of a comment or string
/// left open.
pub fn lex(b: &Vec<u8>) -> (r: Result<Vec<Token>, usize>)
    requires
        b.len() < usize::MAX,
    ensures
        match r {
            Ok(t) => lex_spec(b@) == Ok::<Seq<Token>, usize>(t@) && tokens_within(t@, b.len() as int),
            Err(e) => lex_spec(b@) == Err::<Seq<Token>, usize>(e),
        },
{
    let mut toks: Vec<Token> = Vec::new();
    let mut st = LexState::Normal;
    let mut i: usize = 0;
    assert(toks@ =~= Seq::<Token>::empty());
    while i < b.len()
        invariant
            i <= b.len(),
            b.len() < usize::MAX,
            (st, toks@) == lex_prefix(b@, i as int),
        decreases b.len() - i,
    {
        proof {
            lemma_state_below(b@, i as int);
        }
        st = step(st, i, b[i], &mut toks);
        i += 1;
    }
    proof {
        lemma_state_below(b@, i as int);
    }
    match st {
        LexState::InWord { start: s } => {
            toks.push(Token { kind: TokKind::Word, start: s, end: b.len() });
            Ok(toks)
        },
        LexState::Slash { at } => {
            toks.push(Token { kind: TokKind::Punct, start: at, end: at + 1 });
            Ok(toks)
        },
        LexState::Block { start: s } => Err(s),
        LexState::BlockStar { start: s } => Err(s),
        LexState::InStr { start: s, .. } => Err(s),
        LexState::StrEscape { start: s, .. } => Err(s),
        LexState::Failed { at } => Err(at),
        _ => Ok(toks),
    }
}

} // verus!
