use vstd::prelude::*;

verus! {

/// Surface syntax could not be read. `NotAscii` is reported before anything
/// else; `BadByte` is a character outside the grammar; `Syntax` is a token
/// stream that does not fit the grammar. `TooDeep` is the parser's resource
/// bound, generous enough that no token stream that fits in memory reaches
/// it.
pub enum ParseError {
    NotAscii,
    BadByte,
    Syntax,
    TooDeep,
}

pub enum Token {
    Ident(usize),
    KwStruct,
    KwTrait,
    KwImpl,
    KwFor,
    KwWhere,
    KwForAll,
    KwExists,
    KwIf,
    Lt,
    Gt,
    LBrace,
    RBrace,
    LParen,
    RParen,
    Comma,
    Colon,
    FatArrow,
}

pub enum TokenList {
    Nil,
    Cons(Token, Box<TokenList>),
}

/// The number of tokens, saturating at usize::MAX, which no list held in
/// memory reaches.
pub open spec fn spec_token_count(l: TokenList) -> usize
    decreases l,
{
    match l {
        TokenList::Nil => 0,
        TokenList::Cons(t, rest) => {
            let n = spec_token_count(*rest);
            if n == usize::MAX {
                n
            } else {
                (n + 1) as usize
            }
        },
    }
}

fn token_count(l: &TokenList) -> (r: usize)
    ensures
        r == spec_token_count(*l),
    decreases *l,
{
    match l {
        TokenList::Nil => 0,
        TokenList::Cons(t, rest) => {
            let n = token_count(rest);
            if n == usize::MAX {
                n
            } else {
                n + 1
            }
        },
    }
}

// ---------------------------------------------------------------------------
// The surface abstract syntax tree, as handed to lowering. Identifiers are
// indices into the interned name table built while tokenizing.

/// A surface type: a name applied to arguments.
pub struct TyAst {
    pub name: usize,
    pub args: TyAstList,
}

pub enum TyAstList {
    Nil,
    Cons(Box<TyAst>, Box<TyAstList>),
}

/// A trait bound `self_ty: trait_name<args>`.
pub struct WhereAst {
    pub self_ty: TyAst,
    pub trait_name: usize,
    pub args: TyAstList,
}

pub enum WhereAstList {
    Nil,
    Cons(WhereAst, Box<WhereAstList>),
}

pub enum IdList {
    Nil,
    Cons(usize, Box<IdList>),
}

pub enum ItemAst {
    StructDef { name: usize, params: IdList },
    TraitDef { name: usize, params: IdList },
    ImplDef {
        params: IdList,
        trait_name: usize,
        trait_args: TyAstList,
        self_ty: TyAst,
        wheres: WhereAstList,
    },
}

pub enum ItemAstList {
    Nil,
    Cons(ItemAst, Box<ItemAstList>),
}

pub enum GoalAst {
    Atom(WhereAst),
    And(Box<GoalAst>, Box<GoalAst>),
    Implies(WhereAst, Box<GoalAst>),
    ForAll(usize, Box<GoalAst>),
    Exists(usize, Box<GoalAst>),
}

// ---------------------------------------------------------------------------
// Bytes.

pub open spec fn spec_is_space(b: u8) -> bool {
    b == 32 || b == 9 || b == 10 || b == 13
}

fn is_space(b: u8) -> (r: bool)
    ensures
        r == spec_is_space(b),
{
    b == 32 || b == 9 || b == 10 || b == 13
}

pub open spec fn spec_is_ident_start(b: u8) -> bool {
    (65 <= b && b <= 90) || (97 <= b && b <= 122) || b == 95
}

fn is_ident_start(b: u8) -> (r: bool)
    ensures
        r == spec_is_ident_start(b),
{
    (65 <= b && b <= 90) || (97 <= b && b <= 122) || b == 95
}

pub open spec fn spec_is_ident_char(b: u8) -> bool {
    spec_is_ident_start(b) || (48 <= b && b <= 57)
}

fn is_ident_char(b: u8) -> (r: bool)
    ensures
        r == spec_is_ident_char(b),
{
    is_ident_start(b) || (48 <= b && b <= 57)
}

/// The first position at or after `pos` that does not continue an
/// identifier.
pub open spec fn spec_scan_ident_end(bytes: Seq<u8>, pos: int) -> int
    decreases bytes.len() - pos,
{
    if 0 <= pos < bytes.len() && spec_is_ident_char(bytes[pos]) {
        spec_scan_ident_end(bytes, pos + 1)
    } else {
        pos
    }
}

proof fn lemma_scan_ident_end_bounds(bytes: Seq<u8>, pos: int)
    requires
        0 <= pos <= bytes.len(),
    ensures
        pos <= spec_scan_ident_end(bytes, pos) <= bytes.len(),
    decreases bytes.len() - pos,
{
    if pos < bytes.len() && spec_is_ident_char(bytes[pos]) {
        lemma_scan_ident_end_bounds(bytes, pos + 1);
    }
}

fn scan_ident_end(bytes: &[u8], pos: usize) -> (r: usize)
    requires
        pos <= bytes@.len(),
    ensures
        pos <= r <= bytes@.len(),
        r == spec_scan_ident_end(bytes@, pos as int),
    decreases bytes@.len() - pos,
{
    if pos < bytes.len() && is_ident_char(bytes[pos]) {
        scan_ident_end(bytes, pos + 1)
    } else {
        pos
    }
}

fn copy_range(bytes: &[u8], a: usize, b: usize) -> (r: Vec<u8>)
    requires
        a <= b <= bytes@.len(),
    ensures
        r@ == bytes@.subrange(a as int, b as int),
{
    let mut out: Vec<u8> = Vec::new();
    let mut i: usize = a;
    proof {
        assert(out@ =~= bytes@.subrange(a as int, a as int));
    }
    while i < b
        invariant
            a <= i <= b <= bytes@.len(),
            out@ == bytes@.subrange(a as int, i as int),
        decreases b - i,
    {
        out.push(bytes[i]);
        i = i + 1;
        proof {
            assert(out@ =~= bytes@.subrange(a as int, i as int));
        }
    }
    out
}

fn bytes_eq(a: &Vec<u8>, b: &Vec<u8>) -> (r: bool)
    ensures
        r == (a@ == b@),
{
    if a.len() != b.len() {
        return false;
    }
    let mut i: usize = 0;
    while i < a.len()
        invariant
            i <= a@.len(),
            a@.len() == b@.len(),
            forall|j: int| 0 <= j < i ==> a@[j] == b@[j],
        decreases a@.len() - i,
    {
        if a[i] != b[i] {
            return false;
        }
        i = i + 1;
    }
    proof {
        assert(a@ =~= b@);
    }
    true
}

// ---------------------------------------------------------------------------
// Interning: equal spellings get equal ids; a new spelling is appended.

pub open spec fn spec_find_name(names: Seq<Seq<u8>>, w: Seq<u8>, i: int) -> Option<usize>
    decreases names.len() - i,
{
    if i < 0 || i >= names.len() {
        Option::None
    } else if names[i] == w {
        Option::Some(i as usize)
    } else {
        spec_find_name(names, w, i + 1)
    }
}

pub open spec fn spec_intern_at(names: Seq<Seq<u8>>, w: Seq<u8>, i: int) -> (usize, Seq<Seq<u8>>) {
    match spec_find_name(names, w, i) {
        Option::Some(j) => (j, names),
        Option::None => (names.len() as usize, names.push(w)),
    }
}

pub open spec fn spec_intern(names: Seq<Seq<u8>>, w: Seq<u8>) -> (usize, Seq<Seq<u8>>) {
    spec_intern_at(names, w, 0)
}

fn intern_at(names: &mut Vec<Vec<u8>>, w: Vec<u8>, i: usize) -> (id: usize)
    ensures
        id == spec_intern_at(old(names).deep_view(), w@, i as int).0,
        final(names).deep_view() == spec_intern_at(old(names).deep_view(), w@, i as int).1,
    decreases names@.len() - i,
{
    if i >= names.len() {
        let id = names.len();
        let ghost old_dv = names.deep_view();
        let ghost wv = w@;
        names.push(w);
        proof {
            assert(names.deep_view() =~~= old_dv.push(wv));
        }
        id
    } else {
        let same = bytes_eq(&names[i], &w);
        proof {
            assert(names.deep_view()[i as int] =~= names@[i as int]@);
        }
        if same {
            i
        } else {
            intern_at(names, w, i + 1)
        }
    }
}

fn intern(names: &mut Vec<Vec<u8>>, w: Vec<u8>) -> (id: usize)
    ensures
        id == spec_intern(old(names).deep_view(), w@).0,
        final(names).deep_view() == spec_intern(old(names).deep_view(), w@).1,
{
    intern_at(names, w, 0)
}

// ---------------------------------------------------------------------------
// Keyword spellings, by byte value.

/// The keyword a spelling stands for, if any: `struct`, `trait`, `impl`,
/// `for`, `where`, `forall`, `exists`, `if`.
pub open spec fn spec_kw_of(w: Seq<u8>) -> Option<Token> {
    if w.len() == 6 && w[0] == 115 && w[1] == 116 && w[2] == 114 && w[3] == 117 && w[4] == 99
        && w[5] == 116 {
        Option::Some(Token::KwStruct)
    } else if w.len() == 5 && w[0] == 116 && w[1] == 114 && w[2] == 97 && w[3] == 105 && w[4]
        == 116 {
        Option::Some(Token::KwTrait)
    } else if w.len() == 4 && w[0] == 105 && w[1] == 109 && w[2] == 112 && w[3] == 108 {
        Option::Some(Token::KwImpl)
    } else if w.len() == 3 && w[0] == 102 && w[1] == 111 && w[2] == 114 {
        Option::Some(Token::KwFor)
    } else if w.len() == 5 && w[0] == 119 && w[1] == 104 && w[2] == 101 && w[3] == 114 && w[4]
        == 101 {
        Option::Some(Token::KwWhere)
    } else if w.len() == 6 && w[0] == 102 && w[1] == 111 && w[2] == 114 && w[3] == 97 && w[4]
        == 108 && w[5] == 108 {
        Option::Some(Token::KwForAll)
    } else if w.len() == 6 && w[0] == 101 && w[1] == 120 && w[2] == 105 && w[3] == 115 && w[4]
        == 116 && w[5] == 115 {
        Option::Some(Token::KwExists)
    } else if w.len() == 2 && w[0] == 105 && w[1] == 102 {
        Option::Some(Token::KwIf)
    } else {
        Option::None
    }
}

fn kw_of(w: &Vec<u8>) -> (r: Option<Token>)
    ensures
        r == spec_kw_of(w@),
{
    if w.len() == 6 && w[0] == 115 && w[1] == 116 && w[2] == 114 && w[3] == 117 && w[4] == 99
        && w[5] == 116 {
        Option::Some(Token::KwStruct)
    } else if w.len() == 5 && w[0] == 116 && w[1] == 114 && w[2] == 97 && w[3] == 105 && w[4]
        == 116 {
        Option::Some(Token::KwTrait)
    } else if w.len() == 4 && w[0] == 105 && w[1] == 109 && w[2] == 112 && w[3] == 108 {
        Option::Some(Token::KwImpl)
    } else if w.len() == 3 && w[0] == 102 && w[1] == 111 && w[2] == 114 {
        Option::Some(Token::KwFor)
    } else if w.len() == 5 && w[0] == 119 && w[1] == 104 && w[2] == 101 && w[3] == 114 && w[4]
        == 101 {
        Option::Some(Token::KwWhere)
    } else if w.len() == 6 && w[0] == 102 && w[1] == 111 && w[2] == 114 && w[3] == 97 && w[4]
        == 108 && w[5] == 108 {
        Option::Some(Token::KwForAll)
    } else if w.len() == 6 && w[0] == 101 && w[1] == 120 && w[2] == 105 && w[3] == 115 && w[4]
        == 116 && w[5] == 115 {
        Option::Some(Token::KwExists)
    } else if w.len() == 2 && w[0] == 105 && w[1] == 102 {
        Option::Some(Token::KwIf)
    } else {
        Option::None
    }
}

// ---------------------------------------------------------------------------
// The tokenizer: whitespace is skipped, identifiers are interned or read as
// keywords, and the punctuation is the grammar's own.

pub open spec fn spec_tokenize_at(
    bytes: Seq<u8>,
    pos: int,
    names: Seq<Seq<u8>>,
) -> Result<(TokenList, Seq<Seq<u8>>), ParseError>
    decreases bytes.len() - pos,
        via spec_tokenize_at_dec
{
    if pos < 0 || pos >= bytes.len() {
        Result::Ok((TokenList::Nil, names))
    } else {
        let b = bytes[pos];
        if spec_is_space(b) {
            spec_tokenize_at(bytes, pos + 1, names)
        } else if spec_is_ident_start(b) {
            let end = spec_scan_ident_end(bytes, pos + 1);
            let word = bytes.subrange(pos, end);
            match spec_kw_of(word) {
                Option::Some(k) => match spec_tokenize_at(bytes, end, names) {
                    Result::Ok((ts, n2)) => Result::Ok((TokenList::Cons(k, Box::new(ts)), n2)),
                    Result::Err(e) => Result::Err(e),
                },
                Option::None => {
                    let (id, n1) = spec_intern(names, word);
                    match spec_tokenize_at(bytes, end, n1) {
                        Result::Ok((ts, n2)) => Result::Ok(
                            (TokenList::Cons(Token::Ident(id), Box::new(ts)), n2),
                        ),
                        Result::Err(e) => Result::Err(e),
                    }
                },
            }
        } else if b == 61 {
            if pos + 1 < bytes.len() && bytes[pos + 1] == 62 {
                match spec_tokenize_at(bytes, pos + 2, names) {
                    Result::Ok((ts, n2)) => Result::Ok(
                        (TokenList::Cons(Token::FatArrow, Box::new(ts)), n2),
                    ),
                    Result::Err(e) => Result::Err(e),
                }
            } else {
                Result::Err(ParseError::BadByte)
            }
        } else {
            let tok = if b == 60 {
                Option::Some(Token::Lt)
            } else if b == 62 {
                Option::Some(Token::Gt)
            } else if b == 123 {
                Option::Some(Token::LBrace)
            } else if b == 125 {
                Option::Some(Token::RBrace)
            } else if b == 40 {
                Option::Some(Token::LParen)
            } else if b == 41 {
                Option::Some(Token::RParen)
            } else if b == 44 {
                Option::Some(Token::Comma)
            } else if b == 58 {
                Option::Some(Token::Colon)
            } else {
                Option::None
            };
            match tok {
                Option::Some(t) => match spec_tokenize_at(bytes, pos + 1, names) {
                    Result::Ok((ts, n2)) => Result::Ok((TokenList::Cons(t, Box::new(ts)), n2)),
                    Result::Err(e) => Result::Err(e),
                },
                Option::None => Result::Err(ParseError::BadByte),
            }
        }
    }
}

#[via_fn]
proof fn spec_tokenize_at_dec(bytes: Seq<u8>, pos: int, names: Seq<Seq<u8>>) {
    if 0 <= pos < bytes.len() {
        lemma_scan_ident_end_bounds(bytes, pos + 1);
    }
}

fn tokenize_at(bytes: &[u8], pos: usize, names: &mut Vec<Vec<u8>>) -> (r: Result<
    TokenList,
    ParseError,
>)
    requires
        pos <= bytes@.len(),
    ensures
        r matches Result::Ok(ts) ==> spec_tokenize_at(bytes@, pos as int, old(names).deep_view())
            == Result::<(TokenList, Seq<Seq<u8>>), ParseError>::Ok(
            (ts, final(names).deep_view()),
        ),
        r matches Result::Err(e) ==> spec_tokenize_at(bytes@, pos as int, old(names).deep_view())
            == Result::<(TokenList, Seq<Seq<u8>>), ParseError>::Err(e),
    decreases bytes@.len() - pos,
{
    if pos >= bytes.len() {
        return Result::Ok(TokenList::Nil);
    }
    let b = bytes[pos];
    if is_space(b) {
        return tokenize_at(bytes, pos + 1, names);
    }
    if is_ident_start(b) {
        let end = scan_ident_end(bytes, pos + 1);
        proof {
            lemma_scan_ident_end_bounds(bytes@, pos + 1 as int);
        }
        let word = copy_range(bytes, pos, end);
        let tok = match kw_of(&word) {
            Option::Some(k) => k,
            Option::None => Token::Ident(intern(names, word)),
        };
        let rest = tokenize_at(bytes, end, names);
        return match rest {
            Result::Ok(ts) => Result::Ok(TokenList::Cons(tok, Box::new(ts))),
            Result::Err(e) => Result::Err(e),
        };
    }
    let tok = if b == 60 {
        Token::Lt
    } else if b == 62 {
        Token::Gt
    } else if b == 123 {
        Token::LBrace
    } else if b == 125 {
        Token::RBrace
    } else if b == 40 {
        Token::LParen
    } else if b == 41 {
        Token::RParen
    } else if b == 44 {
        Token::Comma
    } else if b == 58 {
        Token::Colon
    } else if b == 61 {
        if pos + 1 < bytes.len() && bytes[pos + 1] == 62 {
            let rest = tokenize_at(bytes, pos + 2, names);
            return match rest {
                Result::Ok(ts) => Result::Ok(TokenList::Cons(Token::FatArrow, Box::new(ts))),
                Result::Err(e) => Result::Err(e),
            };
        } else {
            return Result::Err(ParseError::BadByte);
        }
    } else {
        return Result::Err(ParseError::BadByte);
    };
    let rest = tokenize_at(bytes, pos + 1, names);
    match rest {
        Result::Ok(ts) => Result::Ok(TokenList::Cons(tok, Box::new(ts))),
        Result::Err(e) => Result::Err(e),
    }
}

/// What tokenizing text gives: an error on non-ASCII text, else the token
/// list and the name table that `spec_tokenize_at` builds from the bytes.
pub open spec fn spec_tokenize(
    text: Seq<char>,
    names: Seq<Seq<u8>>,
) -> Result<(TokenList, Seq<Seq<u8>>), ParseError> {
    if !vstd::utf8::is_ascii_chars(text) {
        Result::Err(ParseError::NotAscii)
    } else {
        spec_tokenize_at(Seq::new(text.len(), |i: int| text[i] as u8), 0, names)
    }
}

/// Breaks program or goal text into tokens, interning identifiers into
/// `names`.
pub fn tokenize(text: &str, names: &mut Vec<Vec<u8>>) -> (r: Result<TokenList, ParseError>)
    ensures
        r matches Result::Ok(ts) ==> spec_tokenize(text@, old(names).deep_view()) == Result::<
            (TokenList, Seq<Seq<u8>>),
            ParseError,
        >::Ok((ts, final(names).deep_view())),
        r matches Result::Err(e) ==> spec_tokenize(text@, old(names).deep_view()) == Result::<
            (TokenList, Seq<Seq<u8>>),
            ParseError,
        >::Err(e),
{
    if !text.is_ascii() {
        return Result::Err(ParseError::NotAscii);
    }
    let bytes = text.as_bytes();
    proof {
        vstd::string::is_ascii_spec_bytes(text);
        assert(bytes@ =~= Seq::new(text@.len(), |i: int| text@[i] as u8));
    }
    tokenize_at(bytes, 0, names)
}


// ---------------------------------------------------------------------------
// Recursive descent over the token list. Each function consumes a prefix and
// hands back the rest. The spec functions below describe each step exactly;
// the executable functions return precisely what they describe. Every call
// spends one unit of fuel; the entry points grant far more fuel than one
// unit per token, so `TooDeep` is never reached by a stream that fits in
// memory.

pub open spec fn spec_parse_ty(toks: TokenList, fuel: nat) -> Result<
    (TyAst, TokenList),
    ParseError,
>
    decreases fuel,
{
    if fuel == 0 {
        Result::Err(ParseError::TooDeep)
    } else {
        match toks {
            TokenList::Cons(Token::Ident(n), rest) => match *rest {
                TokenList::Cons(Token::Lt, rest2) => match spec_parse_ty_args(
                    *rest2,
                    (fuel - 1) as nat,
                ) {
                    Result::Ok((args, rem)) => Result::Ok((TyAst { name: n, args }, rem)),
                    Result::Err(e) => Result::Err(e),
                },
                _ => Result::Ok((TyAst { name: n, args: TyAstList::Nil }, *rest)),
            },
            _ => Result::Err(ParseError::Syntax),
        }
    }
}

/// Comma-separated types up to the closing angle bracket.
pub open spec fn spec_parse_ty_args(toks: TokenList, fuel: nat) -> Result<
    (TyAstList, TokenList),
    ParseError,
>
    decreases fuel,
{
    if fuel == 0 {
        Result::Err(ParseError::TooDeep)
    } else {
        match spec_parse_ty(toks, (fuel - 1) as nat) {
            Result::Ok((first, rem)) => match rem {
                TokenList::Cons(Token::Gt, rest) => Result::Ok(
                    (TyAstList::Cons(Box::new(first), Box::new(TyAstList::Nil)), *rest),
                ),
                TokenList::Cons(Token::Comma, rest) => match spec_parse_ty_args(
                    *rest,
                    (fuel - 1) as nat,
                ) {
                    Result::Ok((more, rem2)) => Result::Ok(
                        (TyAstList::Cons(Box::new(first), Box::new(more)), rem2),
                    ),
                    Result::Err(e) => Result::Err(e),
                },
                _ => Result::Err(ParseError::Syntax),
            },
            Result::Err(e) => Result::Err(e),
        }
    }
}

/// A trait bound `Ty: Name` or `Ty: Name<Args>`.
pub open spec fn spec_parse_bound(toks: TokenList, fuel: nat) -> Result<
    (WhereAst, TokenList),
    ParseError,
>
    decreases fuel,
{
    if fuel == 0 {
        Result::Err(ParseError::TooDeep)
    } else {
        match spec_parse_ty(toks, (fuel - 1) as nat) {
            Result::Ok((self_ty, rem)) => match rem {
                TokenList::Cons(Token::Colon, rest) => match *rest {
                    TokenList::Cons(Token::Ident(n), rest2) => match *rest2 {
                        TokenList::Cons(Token::Lt, rest3) => match spec_parse_ty_args(
                            *rest3,
                            (fuel - 1) as nat,
                        ) {
                            Result::Ok((args, rem2)) => Result::Ok(
                                (WhereAst { self_ty, trait_name: n, args }, rem2),
                            ),
                            Result::Err(e) => Result::Err(e),
                        },
                        _ => Result::Ok(
                            (WhereAst { self_ty, trait_name: n, args: TyAstList::Nil }, *rest2),
                        ),
                    },
                    _ => Result::Err(ParseError::Syntax),
                },
                _ => Result::Err(ParseError::Syntax),
            },
            Result::Err(e) => Result::Err(e),
        }
    }
}

/// `A, B, C>` as a list of parameter names (the opening bracket is already
/// consumed).
pub open spec fn spec_parse_params(toks: TokenList, fuel: nat) -> Result<
    (IdList, TokenList),
    ParseError,
>
    decreases fuel,
{
    if fuel == 0 {
        Result::Err(ParseError::TooDeep)
    } else {
        match toks {
            TokenList::Cons(Token::Ident(n), rest) => match *rest {
                TokenList::Cons(Token::Gt, rest2) => Result::Ok(
                    (IdList::Cons(n, Box::new(IdList::Nil)), *rest2),
                ),
                TokenList::Cons(Token::Comma, rest2) => match spec_parse_params(
                    *rest2,
                    (fuel - 1) as nat,
                ) {
                    Result::Ok((more, rem)) => Result::Ok((IdList::Cons(n, Box::new(more)), rem)),
                    Result::Err(e) => Result::Err(e),
                },
                _ => Result::Err(ParseError::Syntax),
            },
            _ => Result::Err(ParseError::Syntax),
        }
    }
}

/// Parameter list when one is present: `<...>` or nothing.
pub open spec fn spec_parse_opt_params(toks: TokenList, fuel: nat) -> Result<
    (IdList, TokenList),
    ParseError,
>
    decreases fuel,
{
    if fuel == 0 {
        Result::Err(ParseError::TooDeep)
    } else {
        match toks {
            TokenList::Cons(Token::Lt, rest) => spec_parse_params(*rest, (fuel - 1) as nat),
            _ => Result::Ok((IdList::Nil, toks)),
        }
    }
}

/// Comma-separated bounds, ending right before the opening brace.
pub open spec fn spec_parse_wheres(toks: TokenList, fuel: nat) -> Result<
    (WhereAstList, TokenList),
    ParseError,
>
    decreases fuel,
{
    if fuel == 0 {
        Result::Err(ParseError::TooDeep)
    } else {
        match spec_parse_bound(toks, (fuel - 1) as nat) {
            Result::Ok((first, rem)) => match rem {
                TokenList::Cons(Token::Comma, rest) => match spec_parse_wheres(
                    *rest,
                    (fuel - 1) as nat,
                ) {
                    Result::Ok((more, rem2)) => Result::Ok(
                        (WhereAstList::Cons(first, Box::new(more)), rem2),
                    ),
                    Result::Err(e) => Result::Err(e),
                },
                _ => Result::Ok((WhereAstList::Cons(first, Box::new(WhereAstList::Nil)), rem)),
            },
            Result::Err(e) => Result::Err(e),
        }
    }
}

pub open spec fn spec_expect_braces(toks: TokenList) -> Result<TokenList, ParseError> {
    match toks {
        TokenList::Cons(Token::LBrace, rest) => match *rest {
            TokenList::Cons(Token::RBrace, rest2) => Result::Ok(*rest2),
            _ => Result::Err(ParseError::Syntax),
        },
        _ => Result::Err(ParseError::Syntax),
    }
}

/// The items of a program, until the tokens run out.
pub open spec fn spec_parse_items(toks: TokenList, fuel: nat) -> Result<ItemAstList, ParseError>
    decreases fuel,
{
    if fuel == 0 {
        Result::Err(ParseError::TooDeep)
    } else {
        match toks {
            TokenList::Nil => Result::Ok(ItemAstList::Nil),
            TokenList::Cons(Token::KwStruct, rest) => match *rest {
                TokenList::Cons(Token::Ident(n), rest2) => match spec_parse_opt_params(
                    *rest2,
                    (fuel - 1) as nat,
                ) {
                    Result::Ok((params, rem)) => match spec_expect_braces(rem) {
                        Result::Ok(rem2) => match spec_parse_items(rem2, (fuel - 1) as nat) {
                            Result::Ok(more) => Result::Ok(
                                ItemAstList::Cons(
                                    ItemAst::StructDef { name: n, params },
                                    Box::new(more),
                                ),
                            ),
                            Result::Err(e) => Result::Err(e),
                        },
                        Result::Err(e) => Result::Err(e),
                    },
                    Result::Err(e) => Result::Err(e),
                },
                _ => Result::Err(ParseError::Syntax),
            },
            TokenList::Cons(Token::KwTrait, rest) => match *rest {
                TokenList::Cons(Token::Ident(n), rest2) => match spec_parse_opt_params(
                    *rest2,
                    (fuel - 1) as nat,
                ) {
                    Result::Ok((params, rem)) => match spec_expect_braces(rem) {
                        Result::Ok(rem2) => match spec_parse_items(rem2, (fuel - 1) as nat) {
                            Result::Ok(more) => Result::Ok(
                                ItemAstList::Cons(
                                    ItemAst::TraitDef { name: n, params },
                                    Box::new(more),
                                ),
                            ),
                            Result::Err(e) => Result::Err(e),
                        },
                        Result::Err(e) => Result::Err(e),
                    },
                    Result::Err(e) => Result::Err(e),
                },
                _ => Result::Err(ParseError::Syntax),
            },
            TokenList::Cons(Token::KwImpl, rest) => match spec_parse_opt_params(
                *rest,
                (fuel - 1) as nat,
            ) {
                Result::Ok((params, rem)) => match rem {
                    TokenList::Cons(Token::Ident(n), rest2) => {
                        let head = match *rest2 {
                            TokenList::Cons(Token::Lt, rest3) => match spec_parse_ty_args(
                                *rest3,
                                (fuel - 1) as nat,
                            ) {
                                Result::Ok((args, rem2)) => Result::Ok((args, rem2)),
                                Result::Err(e) => Result::Err(e),
                            },
                            _ => Result::Ok((TyAstList::Nil, *rest2)),
                        };
                        match head {
                            Result::Ok((trait_args, rem2)) => match rem2 {
                                TokenList::Cons(Token::KwFor, rest4) => match spec_parse_ty(
                                    *rest4,
                                    (fuel - 1) as nat,
                                ) {
                                    Result::Ok((self_ty, rem4)) => {
                                        let wh = match rem4 {
                                            TokenList::Cons(Token::KwWhere, rest5) => {
                                                spec_parse_wheres(*rest5, (fuel - 1) as nat)
                                            },
                                            _ => Result::Ok((WhereAstList::Nil, rem4)),
                                        };
                                        match wh {
                                            Result::Ok((wheres, rem5)) => match spec_expect_braces(
                                                rem5,
                                            ) {
                                                Result::Ok(rem6) => match spec_parse_items(
                                                    rem6,
                                                    (fuel - 1) as nat,
                                                ) {
                                                    Result::Ok(more) => Result::Ok(
                                                        ItemAstList::Cons(
                                                            ItemAst::ImplDef {
                                                                params,
                                                                trait_name: n,
                                                                trait_args,
                                                                self_ty,
                                                                wheres,
                                                            },
                                                            Box::new(more),
                                                        ),
                                                    ),
                                                    Result::Err(e) => Result::Err(e),
                                                },
                                                Result::Err(e) => Result::Err(e),
                                            },
                                            Result::Err(e) => Result::Err(e),
                                        }
                                    },
                                    Result::Err(e) => Result::Err(e),
                                },
                                _ => Result::Err(ParseError::Syntax),
                            },
                            Result::Err(e) => Result::Err(e),
                        }
                    },
                    _ => Result::Err(ParseError::Syntax),
                },
                Result::Err(e) => Result::Err(e),
            },
            _ => Result::Err(ParseError::Syntax),
        }
    }
}

// Goals. `goal := unit (',' goal)?`; a unit is a quantifier, an `if`, a
// parenthesized goal, or a bound, optionally followed by `=>` and a unit.

pub open spec fn spec_parse_goal_expr(toks: TokenList, fuel: nat) -> Result<
    (GoalAst, TokenList),
    ParseError,
>
    decreases fuel,
{
    if fuel == 0 {
        Result::Err(ParseError::TooDeep)
    } else {
        match spec_parse_goal_unit(toks, (fuel - 1) as nat) {
            Result::Ok((first, rem)) => match rem {
                TokenList::Cons(Token::Comma, rest) => match spec_parse_goal_expr(
                    *rest,
                    (fuel - 1) as nat,
                ) {
                    Result::Ok((second, rem2)) => Result::Ok(
                        (GoalAst::And(Box::new(first), Box::new(second)), rem2),
                    ),
                    Result::Err(e) => Result::Err(e),
                },
                _ => Result::Ok((first, rem)),
            },
            Result::Err(e) => Result::Err(e),
        }
    }
}

/// Binder names inside a quantifier: nested binders, the first declared name
/// outermost.
pub open spec fn spec_parse_quant_body(toks: TokenList, universal: bool, fuel: nat) -> Result<
    (GoalAst, TokenList),
    ParseError,
>
    decreases fuel,
{
    if fuel == 0 {
        Result::Err(ParseError::TooDeep)
    } else {
        match toks {
            TokenList::Cons(Token::Ident(n), rest) => match *rest {
                TokenList::Cons(Token::Comma, rest2) => match spec_parse_quant_body(
                    *rest2,
                    universal,
                    (fuel - 1) as nat,
                ) {
                    Result::Ok((inner, rem)) => if universal {
                        Result::Ok((GoalAst::ForAll(n, Box::new(inner)), rem))
                    } else {
                        Result::Ok((GoalAst::Exists(n, Box::new(inner)), rem))
                    },
                    Result::Err(e) => Result::Err(e),
                },
                TokenList::Cons(Token::Gt, rest2) => match *rest2 {
                    TokenList::Cons(Token::LBrace, rest3) => match spec_parse_goal_expr(
                        *rest3,
                        (fuel - 1) as nat,
                    ) {
                        Result::Ok((inner, rem)) => match rem {
                            TokenList::Cons(Token::RBrace, rest4) => if universal {
                                Result::Ok((GoalAst::ForAll(n, Box::new(inner)), *rest4))
                            } else {
                                Result::Ok((GoalAst::Exists(n, Box::new(inner)), *rest4))
                            },
                            _ => Result::Err(ParseError::Syntax),
                        },
                        Result::Err(e) => Result::Err(e),
                    },
                    _ => Result::Err(ParseError::Syntax),
                },
                _ => Result::Err(ParseError::Syntax),
            },
            _ => Result::Err(ParseError::Syntax),
        }
    }
}

pub open spec fn spec_parse_goal_unit(toks: TokenList, fuel: nat) -> Result<
    (GoalAst, TokenList),
    ParseError,
>
    decreases fuel,
{
    if fuel == 0 {
        Result::Err(ParseError::TooDeep)
    } else {
        match toks {
            TokenList::Cons(Token::KwForAll, rest) => match *rest {
                TokenList::Cons(Token::Lt, rest2) => spec_parse_quant_body(
                    *rest2,
                    true,
                    (fuel - 1) as nat,
                ),
                _ => Result::Err(ParseError::Syntax),
            },
            TokenList::Cons(Token::KwExists, rest) => match *rest {
                TokenList::Cons(Token::Lt, rest2) => spec_parse_quant_body(
                    *rest2,
                    false,
                    (fuel - 1) as nat,
                ),
                _ => Result::Err(ParseError::Syntax),
            },
            TokenList::Cons(Token::KwIf, rest) => match *rest {
                TokenList::Cons(Token::LParen, rest2) => match spec_parse_bound(
                    *rest2,
                    (fuel - 1) as nat,
                ) {
                    Result::Ok((hyp, rem)) => match rem {
                        TokenList::Cons(Token::RParen, rest3) => match *rest3 {
                            TokenList::Cons(Token::LBrace, rest4) => match spec_parse_goal_expr(
                                *rest4,
                                (fuel - 1) as nat,
                            ) {
                                Result::Ok((body, rem2)) => match rem2 {
                                    TokenList::Cons(Token::RBrace, rest5) => Result::Ok(
                                        (GoalAst::Implies(hyp, Box::new(body)), *rest5),
                                    ),
                                    _ => Result::Err(ParseError::Syntax),
                                },
                                Result::Err(e) => Result::Err(e),
                            },
                            _ => Result::Err(ParseError::Syntax),
                        },
                        _ => Result::Err(ParseError::Syntax),
                    },
                    Result::Err(e) => Result::Err(e),
                },
                _ => Result::Err(ParseError::Syntax),
            },
            TokenList::Cons(Token::LParen, rest) => match spec_parse_goal_expr(
                *rest,
                (fuel - 1) as nat,
            ) {
                Result::Ok((inner, rem)) => match rem {
                    TokenList::Cons(Token::RParen, rest2) => Result::Ok((inner, *rest2)),
                    _ => Result::Err(ParseError::Syntax),
                },
                Result::Err(e) => Result::Err(e),
            },
            _ => match spec_parse_bound(toks, (fuel - 1) as nat) {
                Result::Ok((bound, rem)) => match rem {
                    TokenList::Cons(Token::FatArrow, rest) => match spec_parse_goal_unit(
                        *rest,
                        (fuel - 1) as nat,
                    ) {
                        Result::Ok((body, rem2)) => Result::Ok(
                            (GoalAst::Implies(bound, Box::new(body)), rem2),
                        ),
                        Result::Err(e) => Result::Err(e),
                    },
                    _ => Result::Ok((GoalAst::Atom(bound), rem)),
                },
                Result::Err(e) => Result::Err(e),
            },
        }
    }
}


// ---------------------------------------------------------------------------
// The executable parser: each function returns exactly what its spec
// function describes.

fn parse_ty<'a>(toks: &'a TokenList, fuel: usize) -> (r: Result<(TyAst, &'a TokenList), ParseError>)
    ensures
        r matches Result::Ok(p) ==> spec_parse_ty(*toks, fuel as nat) == Result::<
            (TyAst, TokenList),
            ParseError,
        >::Ok((p.0, *p.1)),
        r matches Result::Err(e) ==> spec_parse_ty(*toks, fuel as nat) == Result::<
            (TyAst, TokenList),
            ParseError,
        >::Err(e),
    decreases fuel,
{
    if fuel == 0 {
        return Result::Err(ParseError::TooDeep);
    }
    match toks {
        TokenList::Cons(Token::Ident(n), rest) => match &**rest {
            TokenList::Cons(Token::Lt, rest2) => match parse_ty_args(rest2, fuel - 1) {
                Result::Ok((args, rem)) => Result::Ok((TyAst { name: *n, args }, rem)),
                Result::Err(e) => Result::Err(e),
            },
            _ => Result::Ok((TyAst { name: *n, args: TyAstList::Nil }, rest)),
        },
        _ => Result::Err(ParseError::Syntax),
    }
}

fn parse_ty_args<'a>(toks: &'a TokenList, fuel: usize) -> (r: Result<
    (TyAstList, &'a TokenList),
    ParseError,
>)
    ensures
        r matches Result::Ok(p) ==> spec_parse_ty_args(*toks, fuel as nat) == Result::<
            (TyAstList, TokenList),
            ParseError,
        >::Ok((p.0, *p.1)),
        r matches Result::Err(e) ==> spec_parse_ty_args(*toks, fuel as nat) == Result::<
            (TyAstList, TokenList),
            ParseError,
        >::Err(e),
    decreases fuel,
{
    if fuel == 0 {
        return Result::Err(ParseError::TooDeep);
    }
    match parse_ty(toks, fuel - 1) {
        Result::Ok((first, rem)) => match rem {
            TokenList::Cons(Token::Gt, rest) => Result::Ok(
                (TyAstList::Cons(Box::new(first), Box::new(TyAstList::Nil)), rest),
            ),
            TokenList::Cons(Token::Comma, rest) => match parse_ty_args(rest, fuel - 1) {
                Result::Ok((more, rem2)) => Result::Ok(
                    (TyAstList::Cons(Box::new(first), Box::new(more)), rem2),
                ),
                Result::Err(e) => Result::Err(e),
            },
            _ => Result::Err(ParseError::Syntax),
        },
        Result::Err(e) => Result::Err(e),
    }
}

fn parse_bound<'a>(toks: &'a TokenList, fuel: usize) -> (r: Result<
    (WhereAst, &'a TokenList),
    ParseError,
>)
    ensures
        r matches Result::Ok(p) ==> spec_parse_bound(*toks, fuel as nat) == Result::<
            (WhereAst, TokenList),
            ParseError,
        >::Ok((p.0, *p.1)),
        r matches Result::Err(e) ==> spec_parse_bound(*toks, fuel as nat) == Result::<
            (WhereAst, TokenList),
            ParseError,
        >::Err(e),
    decreases fuel,
{
    if fuel == 0 {
        return Result::Err(ParseError::TooDeep);
    }
    match parse_ty(toks, fuel - 1) {
        Result::Ok((self_ty, rem)) => match rem {
            TokenList::Cons(Token::Colon, rest) => match &**rest {
                TokenList::Cons(Token::Ident(n), rest2) => match &**rest2 {
                    TokenList::Cons(Token::Lt, rest3) => match parse_ty_args(rest3, fuel - 1) {
                        Result::Ok((args, rem2)) => Result::Ok(
                            (WhereAst { self_ty, trait_name: *n, args }, rem2),
                        ),
                        Result::Err(e) => Result::Err(e),
                    },
                    _ => Result::Ok(
                        (WhereAst { self_ty, trait_name: *n, args: TyAstList::Nil }, rest2),
                    ),
                },
                _ => Result::Err(ParseError::Syntax),
            },
            _ => Result::Err(ParseError::Syntax),
        },
        Result::Err(e) => Result::Err(e),
    }
}

fn parse_params<'a>(toks: &'a TokenList, fuel: usize) -> (r: Result<
    (IdList, &'a TokenList),
    ParseError,
>)
    ensures
        r matches Result::Ok(p) ==> spec_parse_params(*toks, fuel as nat) == Result::<
            (IdList, TokenList),
            ParseError,
        >::Ok((p.0, *p.1)),
        r matches Result::Err(e) ==> spec_parse_params(*toks, fuel as nat) == Result::<
            (IdList, TokenList),
            ParseError,
        >::Err(e),
    decreases fuel,
{
    if fuel == 0 {
        return Result::Err(ParseError::TooDeep);
    }
    match toks {
        TokenList::Cons(Token::Ident(n), rest) => match &**rest {
            TokenList::Cons(Token::Gt, rest2) => Result::Ok(
                (IdList::Cons(*n, Box::new(IdList::Nil)), rest2),
            ),
            TokenList::Cons(Token::Comma, rest2) => match parse_params(rest2, fuel - 1) {
                Result::Ok((more, rem)) => Result::Ok((IdList::Cons(*n, Box::new(more)), rem)),
                Result::Err(e) => Result::Err(e),
            },
            _ => Result::Err(ParseError::Syntax),
        },
        _ => Result::Err(ParseError::Syntax),
    }
}

fn parse_opt_params<'a>(toks: &'a TokenList, fuel: usize) -> (r: Result<
    (IdList, &'a TokenList),
    ParseError,
>)
    ensures
        r matches Result::Ok(p) ==> spec_parse_opt_params(*toks, fuel as nat) == Result::<
            (IdList, TokenList),
            ParseError,
        >::Ok((p.0, *p.1)),
        r matches Result::Err(e) ==> spec_parse_opt_params(*toks, fuel as nat) == Result::<
            (IdList, TokenList),
            ParseError,
        >::Err(e),
    decreases fuel,
{
    if fuel == 0 {
        return Result::Err(ParseError::TooDeep);
    }
    match toks {
        TokenList::Cons(Token::Lt, rest) => parse_params(rest, fuel - 1),
        _ => Result::Ok((IdList::Nil, toks)),
    }
}

fn parse_wheres<'a>(toks: &'a TokenList, fuel: usize) -> (r: Result<
    (WhereAstList, &'a TokenList),
    ParseError,
>)
    ensures
        r matches Result::Ok(p) ==> spec_parse_wheres(*toks, fuel as nat) == Result::<
            (WhereAstList, TokenList),
            ParseError,
        >::Ok((p.0, *p.1)),
        r matches Result::Err(e) ==> spec_parse_wheres(*toks, fuel as nat) == Result::<
            (WhereAstList, TokenList),
            ParseError,
        >::Err(e),
    decreases fuel,
{
    if fuel == 0 {
        return Result::Err(ParseError::TooDeep);
    }
    match parse_bound(toks, fuel - 1) {
        Result::Ok((first, rem)) => match rem {
            TokenList::Cons(Token::Comma, rest) => match parse_wheres(rest, fuel - 1) {
                Result::Ok((more, rem2)) => Result::Ok(
                    (WhereAstList::Cons(first, Box::new(more)), rem2),
                ),
                Result::Err(e) => Result::Err(e),
            },
            _ => Result::Ok((WhereAstList::Cons(first, Box::new(WhereAstList::Nil)), rem)),
        },
        Result::Err(e) => Result::Err(e),
    }
}

fn expect_braces<'a>(toks: &'a TokenList) -> (r: Result<&'a TokenList, ParseError>)
    ensures
        r matches Result::Ok(p) ==> spec_expect_braces(*toks) == Result::<
            TokenList,
            ParseError,
        >::Ok(*p),
        r matches Result::Err(e) ==> spec_expect_braces(*toks) == Result::<
            TokenList,
            ParseError,
        >::Err(e),
{
    match toks {
        TokenList::Cons(Token::LBrace, rest) => match &**rest {
            TokenList::Cons(Token::RBrace, rest2) => Result::Ok(rest2),
            _ => Result::Err(ParseError::Syntax),
        },
        _ => Result::Err(ParseError::Syntax),
    }
}

fn parse_items(toks: &TokenList, fuel: usize) -> (r: Result<ItemAstList, ParseError>)
    ensures
        r == spec_parse_items(*toks, fuel as nat),
    decreases fuel,
{
    if fuel == 0 {
        return Result::Err(ParseError::TooDeep);
    }
    match toks {
        TokenList::Nil => Result::Ok(ItemAstList::Nil),
        TokenList::Cons(Token::KwStruct, rest) => match &**rest {
            TokenList::Cons(Token::Ident(n), rest2) => match parse_opt_params(rest2, fuel - 1) {
                Result::Ok((params, rem)) => match expect_braces(rem) {
                    Result::Ok(rem2) => match parse_items(rem2, fuel - 1) {
                        Result::Ok(more) => Result::Ok(
                            ItemAstList::Cons(
                                ItemAst::StructDef { name: *n, params },
                                Box::new(more),
                            ),
                        ),
                        Result::Err(e) => Result::Err(e),
                    },
                    Result::Err(e) => Result::Err(e),
                },
                Result::Err(e) => Result::Err(e),
            },
            _ => Result::Err(ParseError::Syntax),
        },
        TokenList::Cons(Token::KwTrait, rest) => match &**rest {
            TokenList::Cons(Token::Ident(n), rest2) => match parse_opt_params(rest2, fuel - 1) {
                Result::Ok((params, rem)) => match expect_braces(rem) {
                    Result::Ok(rem2) => match parse_items(rem2, fuel - 1) {
                        Result::Ok(more) => Result::Ok(
                            ItemAstList::Cons(
                                ItemAst::TraitDef { name: *n, params },
                                Box::new(more),
                            ),
                        ),
                        Result::Err(e) => Result::Err(e),
                    },
                    Result::Err(e) => Result::Err(e),
                },
                Result::Err(e) => Result::Err(e),
            },
            _ => Result::Err(ParseError::Syntax),
        },
        TokenList::Cons(Token::KwImpl, rest) => match parse_opt_params(rest, fuel - 1) {
            Result::Ok((params, rem)) => match rem {
                TokenList::Cons(Token::Ident(n), rest2) => {
                    let head = match &**rest2 {
                        TokenList::Cons(Token::Lt, rest3) => match parse_ty_args(rest3, fuel - 1) {
                            Result::Ok((args, rem2)) => Result::Ok((args, rem2)),
                            Result::Err(e) => Result::Err(e),
                        },
                        _ => Result::Ok((TyAstList::Nil, &**rest2)),
                    };
                    match head {
                        Result::Ok((trait_args, rem2)) => match rem2 {
                            TokenList::Cons(Token::KwFor, rest4) => match parse_ty(
                                rest4,
                                fuel - 1,
                            ) {
                                Result::Ok((self_ty, rem4)) => {
                                    let wh = match rem4 {
                                        TokenList::Cons(Token::KwWhere, rest5) => parse_wheres(
                                            rest5,
                                            fuel - 1,
                                        ),
                                        _ => Result::Ok((WhereAstList::Nil, rem4)),
                                    };
                                    match wh {
                                        Result::Ok((wheres, rem5)) => match expect_braces(rem5) {
                                            Result::Ok(rem6) => match parse_items(rem6, fuel - 1) {
                                                Result::Ok(more) => Result::Ok(
                                                    ItemAstList::Cons(
                                                        ItemAst::ImplDef {
                                                            params,
                                                            trait_name: *n,
                                                            trait_args,
                                                            self_ty,
                                                            wheres,
                                                        },
                                                        Box::new(more),
                                                    ),
                                                ),
                                                Result::Err(e) => Result::Err(e),
                                            },
                                            Result::Err(e) => Result::Err(e),
                                        },
                                        Result::Err(e) => Result::Err(e),
                                    }
                                },
                                Result::Err(e) => Result::Err(e),
                            },
                            _ => Result::Err(ParseError::Syntax),
                        },
                        Result::Err(e) => Result::Err(e),
                    }
                },
                _ => Result::Err(ParseError::Syntax),
            },
            Result::Err(e) => Result::Err(e),
        },
        _ => Result::Err(ParseError::Syntax),
    }
}

fn parse_goal_expr<'a>(toks: &'a TokenList, fuel: usize) -> (r: Result<
    (GoalAst, &'a TokenList),
    ParseError,
>)
    ensures
        r matches Result::Ok(p) ==> spec_parse_goal_expr(*toks, fuel as nat) == Result::<
            (GoalAst, TokenList),
            ParseError,
        >::Ok((p.0, *p.1)),
        r matches Result::Err(e) ==> spec_parse_goal_expr(*toks, fuel as nat) == Result::<
            (GoalAst, TokenList),
            ParseError,
        >::Err(e),
    decreases fuel,
{
    if fuel == 0 {
        return Result::Err(ParseError::TooDeep);
    }
    match parse_goal_unit(toks, fuel - 1) {
        Result::Ok((first, rem)) => match rem {
            TokenList::Cons(Token::Comma, rest) => match parse_goal_expr(rest, fuel - 1) {
                Result::Ok((second, rem2)) => Result::Ok(
                    (GoalAst::And(Box::new(first), Box::new(second)), rem2),
                ),
                Result::Err(e) => Result::Err(e),
            },
            _ => Result::Ok((first, rem)),
        },
        Result::Err(e) => Result::Err(e),
    }
}

fn parse_quant_body<'a>(toks: &'a TokenList, universal: bool, fuel: usize) -> (r: Result<
    (GoalAst, &'a TokenList),
    ParseError,
>)
    ensures
        r matches Result::Ok(p) ==> spec_parse_quant_body(*toks, universal, fuel as nat)
            == Result::<(GoalAst, TokenList), ParseError>::Ok((p.0, *p.1)),
        r matches Result::Err(e) ==> spec_parse_quant_body(*toks, universal, fuel as nat)
            == Result::<(GoalAst, TokenList), ParseError>::Err(e),
    decreases fuel,
{
    if fuel == 0 {
        return Result::Err(ParseError::TooDeep);
    }
    match toks {
        TokenList::Cons(Token::Ident(n), rest) => match &**rest {
            TokenList::Cons(Token::Comma, rest2) => match parse_quant_body(
                rest2,
                universal,
                fuel - 1,
            ) {
                Result::Ok((inner, rem)) => if universal {
                    Result::Ok((GoalAst::ForAll(*n, Box::new(inner)), rem))
                } else {
                    Result::Ok((GoalAst::Exists(*n, Box::new(inner)), rem))
                },
                Result::Err(e) => Result::Err(e),
            },
            TokenList::Cons(Token::Gt, rest2) => match &**rest2 {
                TokenList::Cons(Token::LBrace, rest3) => match parse_goal_expr(rest3, fuel - 1) {
                    Result::Ok((inner, rem)) => match rem {
                        TokenList::Cons(Token::RBrace, rest4) => if universal {
                            Result::Ok((GoalAst::ForAll(*n, Box::new(inner)), &**rest4))
                        } else {
                            Result::Ok((GoalAst::Exists(*n, Box::new(inner)), &**rest4))
                        },
                        _ => Result::Err(ParseError::Syntax),
                    },
                    Result::Err(e) => Result::Err(e),
                },
                _ => Result::Err(ParseError::Syntax),
            },
            _ => Result::Err(ParseError::Syntax),
        },
        _ => Result::Err(ParseError::Syntax),
    }
}

fn parse_goal_unit<'a>(toks: &'a TokenList, fuel: usize) -> (r: Result<
    (GoalAst, &'a TokenList),
    ParseError,
>)
    ensures
        r matches Result::Ok(p) ==> spec_parse_goal_unit(*toks, fuel as nat) == Result::<
            (GoalAst, TokenList),
            ParseError,
        >::Ok((p.0, *p.1)),
        r matches Result::Err(e) ==> spec_parse_goal_unit(*toks, fuel as nat) == Result::<
            (GoalAst, TokenList),
            ParseError,
        >::Err(e),
    decreases fuel,
{
    if fuel == 0 {
        return Result::Err(ParseError::TooDeep);
    }
    match toks {
        TokenList::Cons(Token::KwForAll, rest) => match &**rest {
            TokenList::Cons(Token::Lt, rest2) => parse_quant_body(rest2, true, fuel - 1),
            _ => Result::Err(ParseError::Syntax),
        },
        TokenList::Cons(Token::KwExists, rest) => match &**rest {
            TokenList::Cons(Token::Lt, rest2) => parse_quant_body(rest2, false, fuel - 1),
            _ => Result::Err(ParseError::Syntax),
        },
        TokenList::Cons(Token::KwIf, rest) => match &**rest {
            TokenList::Cons(Token::LParen, rest2) => match parse_bound(rest2, fuel - 1) {
                Result::Ok((hyp, rem)) => match rem {
                    TokenList::Cons(Token::RParen, rest3) => match &**rest3 {
                        TokenList::Cons(Token::LBrace, rest4) => match parse_goal_expr(
                            rest4,
                            fuel - 1,
                        ) {
                            Result::Ok((body, rem2)) => match rem2 {
                                TokenList::Cons(Token::RBrace, rest5) => Result::Ok(
                                    (GoalAst::Implies(hyp, Box::new(body)), &**rest5),
                                ),
                                _ => Result::Err(ParseError::Syntax),
                            },
                            Result::Err(e) => Result::Err(e),
                        },
                        _ => Result::Err(ParseError::Syntax),
                    },
                    _ => Result::Err(ParseError::Syntax),
                },
                Result::Err(e) => Result::Err(e),
            },
            _ => Result::Err(ParseError::Syntax),
        },
        TokenList::Cons(Token::LParen, rest) => match parse_goal_expr(rest, fuel - 1) {
            Result::Ok((inner, rem)) => match rem {
                TokenList::Cons(Token::RParen, rest2) => Result::Ok((inner, &**rest2)),
                _ => Result::Err(ParseError::Syntax),
            },
            Result::Err(e) => Result::Err(e),
        },
        _ => match parse_bound(toks, fuel - 1) {
            Result::Ok((bound, rem)) => match rem {
                TokenList::Cons(Token::FatArrow, rest) => match parse_goal_unit(rest, fuel - 1) {
                    Result::Ok((body, rem2)) => Result::Ok(
                        (GoalAst::Implies(bound, Box::new(body)), rem2),
                    ),
                    Result::Err(e) => Result::Err(e),
                },
                _ => Result::Ok((GoalAst::Atom(bound), rem)),
            },
            Result::Err(e) => Result::Err(e),
        },
    }
}

// ---------------------------------------------------------------------------
// Entry points. The fuel grants many units per token, far more than one
// descent step ever needs.

pub open spec fn spec_parse_fuel(count: usize) -> usize {
    if count > (usize::MAX - 16) / 8 {
        usize::MAX
    } else {
        (8 * count + 16) as usize
    }
}

fn parse_fuel(count: usize) -> (r: usize)
    ensures
        r == spec_parse_fuel(count),
{
    if count > (usize::MAX - 16) / 8 {
        usize::MAX
    } else {
        8 * count + 16
    }
}

/// What parsing a whole token stream as a program gives.
pub open spec fn spec_parse_program_tokens(toks: TokenList) -> Result<ItemAstList, ParseError> {
    spec_parse_items(toks, spec_parse_fuel(spec_token_count(toks)) as nat)
}

/// The whole token stream as one program.
pub fn parse_program_tokens(toks: &TokenList) -> (r: Result<ItemAstList, ParseError>)
    ensures
        r == spec_parse_program_tokens(*toks),
{
    let fuel = parse_fuel(token_count(toks));
    parse_items(toks, fuel)
}

/// What parsing a whole token stream as one goal gives: the goal, with no
/// token left over.
pub open spec fn spec_parse_goal_tokens(toks: TokenList) -> Result<GoalAst, ParseError> {
    match spec_parse_goal_expr(toks, spec_parse_fuel(spec_token_count(toks)) as nat) {
        Result::Ok(p) => match p.1 {
            TokenList::Nil => Result::Ok(p.0),
            TokenList::Cons(t, rest) => Result::Err(ParseError::Syntax),
        },
        Result::Err(e) => Result::Err(e),
    }
}

/// The whole token stream as one goal.
pub fn parse_goal_tokens(toks: &TokenList) -> (r: Result<GoalAst, ParseError>)
    ensures
        r == spec_parse_goal_tokens(*toks),
{
    let fuel = parse_fuel(token_count(toks));
    match parse_goal_expr(toks, fuel) {
        Result::Ok((g, rem)) => match rem {
            TokenList::Nil => Result::Ok(g),
            TokenList::Cons(t, rest) => Result::Err(ParseError::Syntax),
        },
        Result::Err(e) => Result::Err(e),
    }
}

} // verus!
