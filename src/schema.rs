//! Reads the declarations of one schema source: its package, and the
//! messages, enums, oneofs and services that it declares, each message, enum
//! and oneof under its fully-qualified name.
use vstd::prelude::*;
use crate::lexer::{lex, lex_spec, tokens_within, TokKind, Token, DOT};
use crate::model::{BuildError, DeclKind, ErrorView, SchemaFile, TypeDecl};

verus! {

pub const OPEN_BRACE: u8 = 123;
pub const CLOSE_BRACE: u8 = 125;
pub const SEMICOLON: u8 = 59;

#[derive(Clone, Copy, Debug, PartialEq, Eq, Structural)]
pub enum Keyword {
    Message,
    Enum,
    Oneof,
    Service,
    Package,
}

/// A brace-delimited scope: the body of a named declaration, or any other.
#[derive(Clone, Copy, Debug, PartialEq, Eq, Structural)]
pub struct Scope {
    pub named: bool,
    pub start: usize,
    pub end: usize,
}

/// What the scanner expects next.
#[derive(Clone, Copy, Debug, PartialEq, Eq, Structural)]
pub enum Pending {
    Idle,
    Declaring { kw: Keyword },
    Named { kw: Keyword, start: usize, end: usize },
    Package,
    PackageName { start: usize, end: usize },
}

/// The scanner's state between two tokens.
pub struct Scan {
    pub package: Option<(usize, usize)>,
    pub scopes: Seq<Scope>,
    pub pending: Pending,
    pub decls: Seq<(Seq<char>, DeclKind)>,
    pub services: Seq<Seq<char>>,
    pub failed: Option<usize>,
}

pub open spec fn keyword_of(w: Seq<u8>) -> Option<Keyword> {
    if w == seq![109u8, 101, 115, 115, 97, 103, 101] {
        Some(Keyword::Message)
    } else if w == seq![101u8, 110, 117, 109] {
        Some(Keyword::Enum)
    } else if w == seq![111u8, 110, 101, 111, 102] {
        Some(Keyword::Oneof)
    } else if w == seq![115u8, 101, 114, 118, 105, 99, 101] {
        Some(Keyword::Service)
    } else if w == seq![112u8, 97, 99, 107, 97, 103, 101] {
        Some(Keyword::Package)
    } else {
        None
    }
}

pub open spec fn word(b: Seq<u8>, t: Token) -> Seq<u8> {
    b.subrange(t.start as int, t.end as int)
}

pub open spec fn is_punct(b: Seq<u8>, t: Token, c: u8) -> bool {
    t.kind == TokKind::Punct && b[t.start as int] == c
}

pub open spec fn ascii(w: Seq<u8>) -> Seq<char> {
    w.map_values(|x: u8| x as char)
}

/// The names of the enclosing named scopes, each followed by a dot.
pub open spec fn scope_prefix(b: Seq<u8>, scopes: Seq<Scope>) -> Seq<u8>
    decreases scopes.len(),
{
    if scopes.len() == 0 {
        Seq::empty()
    } else {
        let p = scope_prefix(b, scopes.drop_last());
        let s = scopes.last();
        if s.named {
            p + b.subrange(s.start as int, s.end as int) + seq![DOT]
        } else {
            p
        }
    }
}

/// The fully-qualified name of a declaration at the current scope.
pub open spec fn qualified(b: Seq<u8>, s: Scan, start: usize, end: usize) -> Seq<u8> {
    let pkg = match s.package {
        Some((a, e)) => b.subrange(a as int, e as int) + seq![DOT],
        None => Seq::empty(),
    };
    pkg + scope_prefix(b, s.scopes) + b.subrange(start as int, end as int)
}

pub open spec fn decl_kind(k: Keyword) -> DeclKind {
    match k {
        Keyword::Message => DeclKind::Message,
        Keyword::Enum => DeclKind::Enum,
        _ => DeclKind::Oneof,
    }
}

pub open spec fn anon() -> Scope {
    Scope { named: false, start: 0, end: 0 }
}

/// A token read with nothing pending.
pub open spec fn idle_step(b: Seq<u8>, s: Scan, t: Token) -> Scan {
    if t.kind == TokKind::Word {
        match keyword_of(word(b, t)) {
            Some(Keyword::Package) => if s.scopes.len() == 0 {
                Scan { pending: Pending::Package, ..s }
            } else {
                s
            },
            Some(k) => Scan { pending: Pending::Declaring { kw: k }, ..s },
            None => s,
        }
    } else if is_punct(b, t, OPEN_BRACE) {
        Scan { scopes: s.scopes.push(anon()), ..s }
    } else if is_punct(b, t, CLOSE_BRACE) {
        if s.scopes.len() == 0 {
            Scan { failed: Some(t.start), ..s }
        } else {
            Scan { scopes: s.scopes.drop_last(), ..s }
        }
    } else {
        s
    }
}

/// The opening brace of a declaration: record it and enter its scope.
pub open spec fn declare(b: Seq<u8>, s: Scan, k: Keyword, start: usize, end: usize) -> Scan {
    if k == Keyword::Service {
        Scan {
            pending: Pending::Idle,
            services: s.services.push(ascii(b.subrange(start as int, end as int))),
            scopes: s.scopes.push(anon()),
            ..s
        }
    } else {
        Scan {
            pending: Pending::Idle,
            decls: s.decls.push((ascii(qualified(b, s, start, end)), decl_kind(k))),
            scopes: s.scopes.push(Scope { named: true, start, end }),
            ..s
        }
    }
}

pub open spec fn scan_step(b: Seq<u8>, s: Scan, t: Token) -> Scan {
    if s.failed is Some {
        s
    } else {
        match s.pending {
            Pending::Idle => idle_step(b, s, t),
            Pending::Declaring { kw } => if t.kind == TokKind::Word {
                Scan { pending: Pending::Named { kw, start: t.start, end: t.end }, ..s }
            } else {
                idle_step(b, Scan { pending: Pending::Idle, ..s }, t)
            },
            Pending::Named { kw, start, end } => if is_punct(b, t, OPEN_BRACE) {
                declare(b, s, kw, start, end)
            } else {
                idle_step(b, Scan { pending: Pending::Idle, ..s }, t)
            },
            Pending::Package => if t.kind == TokKind::Word {
                Scan { pending: Pending::PackageName { start: t.start, end: t.end }, ..s }
            } else {
                Scan { failed: Some(t.start), ..s }
            },
            Pending::PackageName { start, end } => if is_punct(b, t, SEMICOLON) {
                Scan { package: Some((start, end)), pending: Pending::Idle, ..s }
            } else {
                Scan { failed: Some(t.start), ..s }
            },
        }
    }
}

pub open spec fn initial_scan() -> Scan {
    Scan {
        package: None,
        scopes: Seq::empty(),
        pending: Pending::Idle,
        decls: Seq::empty(),
        services: Seq::empty(),
        failed: None,
    }
}

pub open spec fn scan_prefix(b: Seq<u8>, toks: Seq<Token>, n: int) -> Scan
    decreases n,
{
    if n <= 0 {
        initial_scan()
    } else {
        scan_step(b, scan_prefix(b, toks, n - 1), toks[n - 1])
    }
}

/// The declarations and services of a source, or the offset where it is
/// malformed: a comment or string left open, a stray closing brace, a
/// malformed package statement, or a scope left open at the end.
pub open spec fn schema_spec(b: Seq<u8>) -> Result<
    (Seq<(Seq<char>, DeclKind)>, Seq<Seq<char>>),
    usize,
> {
    match lex_spec(b) {
        Err(p) => Err(p),
        Ok(toks) => {
            let s = scan_prefix(b, toks, toks.len() as int);
            if s.failed is Some {
                Err(s.failed->Some_0)
            } else if s.scopes.len() > 0 || s.pending is Package || s.pending is PackageName {
                Err(b.len() as usize)
            } else {
                Ok((s.decls, s.services))
            }
        },
    }
}

struct ScanState {
    package: Option<(usize, usize)>,
    scopes: Vec<Scope>,
    pending: Pending,
    decls: Vec<TypeDecl>,
    services: Vec<String>,
    failed: Option<usize>,
}

impl View for ScanState {
    type V = Scan;

    closed spec fn view(&self) -> Scan {
        Scan {
            package: self.package,
            scopes: self.scopes@,
            pending: self.pending,
            decls: self.decls@.map_values(|d: TypeDecl| d@),
            services: self.services@.map_values(|s: String| s@),
            failed: self.failed,
        }
    }
}

/// Every byte range that the state holds lies within the first `n` bytes.
spec fn ranges_within(s: Scan, n: int) -> bool {
    &&& (s.package matches Some((a, e)) ==> a <= e <= n)
    &&& forall|i: int| 0 <= i < s.scopes.len() ==> (#[trigger] s.scopes[i]).start <= s.scopes[i].end <= n
    &&& (s.pending matches Pending::Named { start, end, .. } ==> start <= end <= n)
    &&& (s.pending matches Pending::PackageName { start, end } ==> start <= end <= n)
}

/// Relies on std's `String::push`: the character is appended.
#[verifier::external_body]
fn push_char(s: &mut String, c: char)
    ensures
        final(s)@ == old(s)@.push(c),
{
    s.push(c);
}

fn append_ascii(s: &mut String, b: &Vec<u8>, start: usize, end: usize)
    requires
        start <= end <= b.len(),
    ensures
        final(s)@ == old(s)@ + ascii(b@.subrange(start as int, end as int)),
{
    let ghost init = s@;
    let mut i: usize = start;
    while i < end
        invariant
            start <= i <= end,
            end <= b.len(),
            s@ == init + ascii(b@.subrange(start as int, i as int)),
        decreases end - i,
    {
        let c = b[i] as char;
        push_char(s, c);
        assert(ascii(b@.subrange(start as int, i + 1)) =~= ascii(b@.subrange(start as int, i as int)).push(
            b@[i as int] as char,
        ));
        i += 1;
    }
    assert(s@ =~= init + ascii(b@.subrange(start as int, end as int)));
}

proof fn lemma_ascii_concat(x: Seq<u8>, y: Seq<u8>)
    ensures
        ascii(x + y) == ascii(x) + ascii(y),
{
    assert(ascii(x + y) =~= ascii(x) + ascii(y));
}

fn qualified_name(b: &Vec<u8>, st: &ScanState, start: usize, end: usize) -> (r: String)
    requires
        ranges_within(st@, b.len() as int),
        start <= end <= b.len(),
    ensures
        r@ == ascii(qualified(b@, st@, start, end)),
{
    let mut r = String::new();
    let ghost pkg = match st@.package {
        Some((a, e)) => b@.subrange(a as int, e as int) + seq![DOT],
        None => Seq::empty(),
    };
    match st.package {
        Some((a, e)) => {
            append_ascii(&mut r, b, a, e);
            push_char(&mut r, DOT as char);
            proof {
                lemma_ascii_concat(b@.subrange(a as int, e as int), seq![DOT]);
                assert(ascii(seq![DOT]) =~= seq![DOT as char]);
            }
        },
        None => {},
    }
    assert(r@ =~= ascii(pkg));
    let ghost sv = st@.scopes;
    let mut i: usize = 0;
    while i < st.scopes.len()
        invariant
            i <= st.scopes.len(),
            sv == st@.scopes,
            sv == st.scopes@,
            ranges_within(st@, b.len() as int),
            r@ == ascii(pkg + scope_prefix(b@, sv.take(i as int))),
        decreases st.scopes.len() - i,
    {
        let sc = st.scopes[i];
        assert(sv.take(i + 1).drop_last() =~= sv.take(i as int));
        assert(sc.start <= sc.end <= b.len());
        if sc.named {
            append_ascii(&mut r, b, sc.start, sc.end);
            push_char(&mut r, DOT as char);
            proof {
                let prev = pkg + scope_prefix(b@, sv.take(i as int));
                let w = b@.subrange(sc.start as int, sc.end as int);
                lemma_ascii_concat(prev, w);
                lemma_ascii_concat(prev + w, seq![DOT]);
                assert(ascii(seq![DOT]) =~= seq![DOT as char]);
                assert(pkg + scope_prefix(b@, sv.take(i + 1)) =~= prev + w + seq![DOT]);
            }
        }
        i += 1;
    }
    assert(sv.take(i as int) =~= sv);
    append_ascii(&mut r, b, start, end);
    proof {
        lemma_ascii_concat(pkg + scope_prefix(b@, sv), b@.subrange(start as int, end as int));
    }
    r
}

fn word_is(b: &Vec<u8>, t: Token, kw: &Vec<u8>) -> (r: bool)
    requires
        t.start <= t.end <= b.len(),
    ensures
        r == (word(b@, t) == kw@),
{
    if t.end - t.start != kw.len() {
        return false;
    }
    let mut i: usize = 0;
    while i < kw.len()
        invariant
            t.start <= t.end <= b.len(),
            t.end - t.start == kw.len(),
            i <= kw.len(),
            forall|k: int| 0 <= k < i ==> word(b@, t)[k] == kw@[k],
        decreases kw.len() - i,
    {
        if b[t.start + i] != kw[i] {
            assert(word(b@, t)[i as int] != kw@[i as int]);
            return false;
        }
        i += 1;
    }
    assert(word(b@, t) =~= kw@);
    true
}

fn keyword(b: &Vec<u8>, t: Token) -> (r: Option<Keyword>)
    requires
        t.start <= t.end <= b.len(),
    ensures
        r == keyword_of(word(b@, t)),
{
    if word_is(b, t, &vec![109u8, 101, 115, 115, 97, 103, 101]) {
        Some(Keyword::Message)
    } else if word_is(b, t, &vec![101u8, 110, 117, 109]) {
        Some(Keyword::Enum)
    } else if word_is(b, t, &vec![111u8, 110, 101, 111, 102]) {
        Some(Keyword::Oneof)
    } else if word_is(b, t, &vec![115u8, 101, 114, 118, 105, 99, 101]) {
        Some(Keyword::Service)
    } else if word_is(b, t, &vec![112u8, 97, 99, 107, 97, 103, 101]) {
        Some(Keyword::Package)
    } else {
        None
    }
}

fn punct_is(b: &Vec<u8>, t: Token, c: u8) -> (r: bool)
    requires
        t.start < b.len(),
    ensures
        r == is_punct(b@, t, c),
{
    t.kind == TokKind::Punct && b[t.start] == c
}

fn idle(b: &Vec<u8>, st: &mut ScanState, t: Token)
    requires
        ranges_within(old(st)@, b.len() as int),
        t.start < t.end <= b.len(),
    ensures
        final(st)@ == idle_step(b@, old(st)@, t),
        ranges_within(final(st)@, b.len() as int),
{
    if t.kind == TokKind::Word {
        match keyword(b, t) {
            Some(Keyword::Package) => {
                if st.scopes.len() == 0 {
                    st.pending = Pending::Package;
                }
            },
            Some(k) => {
                st.pending = Pending::Declaring { kw: k };
            },
            None => {},
        }
    } else if punct_is(b, t, OPEN_BRACE) {
        st.scopes.push(Scope { named: false, start: 0, end: 0 });
    } else if punct_is(b, t, CLOSE_BRACE) {
        if st.scopes.len() == 0 {
            st.failed = Some(t.start);
        } else {
            st.scopes.pop();
        }
    }
    assert(final(st)@ =~= idle_step(b@, old(st)@, t)) by {
        assert(final(st)@.scopes =~= idle_step(b@, old(st)@, t).scopes);
    }
}

fn step(b: &Vec<u8>, st: &mut ScanState, t: Token)
    requires
        ranges_within(old(st)@, b.len() as int),
        t.start < t.end <= b.len(),
    ensures
        final(st)@ == scan_step(b@, old(st)@, t),
        ranges_within(final(st)@, b.len() as int),
{
    if st.failed.is_some() {
        return;
    }
    match st.pending {
        Pending::Idle => idle(b, st, t),
        Pending::Declaring { kw } => {
            if t.kind == TokKind::Word {
                st.pending = Pending::Named { kw, start: t.start, end: t.end };
            } else {
                st.pending = Pending::Idle;
                idle(b, st, t);
            }
        },
        Pending::Named { kw, start, end } => {
            if punct_is(b, t, OPEN_BRACE) {
                let ghost s0 = st@;
                if kw == Keyword::Service {
                    let mut name = String::new();
                    append_ascii(&mut name, b, start, end);
                    assert(name@ =~= ascii(b@.subrange(start as int, end as int)));
                    st.services.push(name);
                    st.scopes.push(Scope { named: false, start: 0, end: 0 });
                } else {
                    let name = qualified_name(b, st, start, end);
                    let kind = match kw {
                        Keyword::Message => DeclKind::Message,
                        Keyword::Enum => DeclKind::Enum,
                        _ => DeclKind::Oneof,
                    };
                    st.decls.push(TypeDecl { name, kind });
                    st.scopes.push(Scope { named: true, start, end });
                }
                st.pending = Pending::Idle;
                assert(st@ =~= declare(b@, s0, kw, start, end)) by {
                    assert(st@.scopes =~= declare(b@, s0, kw, start, end).scopes);
                    assert(st@.decls =~= declare(b@, s0, kw, start, end).decls);
                    assert(st@.services =~= declare(b@, s0, kw, start, end).services);
                }
            } else {
                st.pending = Pending::Idle;
                idle(b, st, t);
            }
        },
        Pending::Package => {
            if t.kind == TokKind::Word {
                st.pending = Pending::PackageName { start: t.start, end: t.end };
            } else {
                st.failed = Some(t.start);
            }
        },
        Pending::PackageName { start, end } => {
            if punct_is(b, t, SEMICOLON) {
                st.package = Some((start, end));
                st.pending = Pending::Idle;
            } else {
                st.failed = Some(t.start);
            }
        },
    }
}

/// Reads the declarations of the schema source `src` found at `path`, or
/// reports where it is malformed. A source of `usize::MAX` bytes, whose end
/// offset cannot be told apart, is refused at its start.
pub fn parse_schema(path: &String, src: &Vec<u8>) -> (r: Result<SchemaFile, BuildError>)
    ensures
        src.len() == usize::MAX ==> r is Err && r->Err_0@ == (ErrorView::Parse { file: path@, offset: 0 }),
        src.len() < usize::MAX ==> match schema_spec(src@) {
            Ok((decls, services)) => r is Ok && r->Ok_0.path@ == path@
                && r->Ok_0.types@.map_values(|d: TypeDecl| d@) == decls
                && r->Ok_0.services@.map_values(|s: String| s@) == services,
            Err(at) => r is Err && r->Err_0@ == (ErrorView::Parse { file: path@, offset: at as nat }),
        },
{
    if src.len() == usize::MAX {
        return Err(BuildError::Parse { file: path.clone(), offset: 0 });
    }
    let toks = match lex(src) {
        Ok(t) => t,
        Err(at) => {
            return Err(BuildError::Parse { file: path.clone(), offset: at });
        },
    };
    let mut st = ScanState {
        package: None,
        scopes: Vec::new(),
        pending: Pending::Idle,
        decls: Vec::new(),
        services: Vec::new(),
        failed: None,
    };
    assert(st@ =~= initial_scan()) by {
        assert(st@.decls =~= Seq::<(Seq<char>, DeclKind)>::empty());
        assert(st@.services =~= Seq::<Seq<char>>::empty());
    }
    let mut i: usize = 0;
    while i < toks.len()
        invariant
            i <= toks.len(),
            tokens_within(toks@, src.len() as int),
            ranges_within(st@, src.len() as int),
            st@ == scan_prefix(src@, toks@, i as int),
        decreases toks.len() - i,
    {
        let t = toks[i];
        assert(toks@[i as int].start < toks@[i as int].end <= src.len());
        step(src, &mut st, t);
        i += 1;
    }
    match st.failed {
        Some(at) => Err(BuildError::Parse { file: path.clone(), offset: at }),
        None => {
            let open_package = match st.pending {
                Pending::Package => true,
                Pending::PackageName { .. } => true,
                _ => false,
            };
            if st.scopes.len() > 0 || open_package {
                Err(BuildError::Parse { file: path.clone(), offset: src.len() })
            } else {
                Ok(SchemaFile { path: path.clone(), types: st.decls, services: st.services })
            }
        },
    }
}

} // verus!
