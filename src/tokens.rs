//! The token model that the generator emits, and its rendering to text.
use vstd::prelude::*;

verus! {

/// Punctuation emitted by the generator.
#[derive(Clone, Copy, Debug, PartialEq, Eq, Structural)]
pub enum Punct {
    Amp,
    Star,
    Dot,
    Comma,
    Colon,
    PathSep,
    RArrow,
    FatArrow,
    Lt,
    Gt,
    Pound,
    Semi,
}

/// Keywords emitted by the generator.
#[derive(Clone, Copy, Debug, PartialEq, Eq, Structural)]
pub enum Keyword {
    Impl,
    For,
    Async,
    Fn,
    SelfValue,
    SelfType,
    Await,
    Match,
    Mod,
    Use,
    Super,
    Pub,
    Struct,
    Enum,
}

/// Group delimiters.
#[derive(Clone, Copy, Debug, PartialEq, Eq, Structural)]
pub enum Delim {
    Paren,
    Brace,
    Bracket,
}

/// One emitted token. `Verbatim` carries a fragment taken unchanged from the
/// input declaration (a type, a path, a visibility, a generics list).
#[derive(Debug)]
pub enum Token {
    Ident(String),
    Index(u32),
    Keyword(Keyword),
    Punct(Punct),
    Open(Delim),
    Close(Delim),
    Verbatim(String),
}

/// The mathematical value of a token.
pub enum TokenView {
    Ident(Seq<char>),
    Index(nat),
    Keyword(Keyword),
    Punct(Punct),
    Open(Delim),
    Close(Delim),
    Verbatim(Seq<char>),
}

impl View for Token {
    type V = TokenView;

    open spec fn view(&self) -> TokenView {
        match self {
            Token::Ident(s) => TokenView::Ident(s@),
            Token::Index(n) => TokenView::Index(*n as nat),
            Token::Keyword(k) => TokenView::Keyword(*k),
            Token::Punct(p) => TokenView::Punct(*p),
            Token::Open(d) => TokenView::Open(*d),
            Token::Close(d) => TokenView::Close(*d),
            Token::Verbatim(s) => TokenView::Verbatim(s@),
        }
    }
}

/// The view of a token vector.
pub open spec fn toks(v: Seq<Token>) -> Seq<TokenView> {
    v.map_values(|t: Token| t@)
}

/// Appends one token.
pub fn push_token(out: &mut Vec<Token>, t: Token)
    ensures
        toks(final(out)@) == toks(old(out)@).push(t@),
{
    let ghost t_view = t@;
    out.push(t);
    assert(toks(out@) =~= toks(old(out)@).push(t_view));
}

/// Appends a whole token vector.
pub fn append_tokens(out: &mut Vec<Token>, more: Vec<Token>)
    ensures
        toks(final(out)@) == toks(old(out)@) + toks(more@),
{
    let mut more = more;
    let ghost m = more@;
    out.append(&mut more);
    assert(toks(out@) =~= toks(old(out)@) + toks(m));
}

/// Decimal text of one digit.
pub open spec fn digit_text(d: nat) -> Seq<char> {
    if d == 0 {
        "0"@
    } else if d == 1 {
        "1"@
    } else if d == 2 {
        "2"@
    } else if d == 3 {
        "3"@
    } else if d == 4 {
        "4"@
    } else if d == 5 {
        "5"@
    } else if d == 6 {
        "6"@
    } else if d == 7 {
        "7"@
    } else if d == 8 {
        "8"@
    } else {
        "9"@
    }
}

/// Decimal text of a natural number, without leading zeros.
pub open spec fn decimal(n: nat) -> Seq<char>
    decreases n,
{
    if n < 10 {
        digit_text(n)
    } else {
        decimal(n / 10) + digit_text(n % 10)
    }
}

fn digit_str(d: u32) -> (r: &'static str)
    requires
        d < 10,
    ensures
        r@ == digit_text(d as nat),
{
    if d == 0 {
        "0"
    } else if d == 1 {
        "1"
    } else if d == 2 {
        "2"
    } else if d == 3 {
        "3"
    } else if d == 4 {
        "4"
    } else if d == 5 {
        "5"
    } else if d == 6 {
        "6"
    } else if d == 7 {
        "7"
    } else if d == 8 {
        "8"
    } else {
        "9"
    }
}

/// Appends the decimal text of `n` to `out`.
pub fn push_decimal(out: &mut String, n: u32)
    ensures
        final(out)@ == old(out)@ + decimal(n as nat),
    decreases n,
{
    if n >= 10 {
        push_decimal(out, n / 10);
    }
    out.append(digit_str(n % 10));
    assert(final(out)@ =~= old(out)@ + decimal(n as nat));
}

/// The source text of a keyword.
pub open spec fn keyword_text(x: Keyword) -> Seq<char> {
    match x {
        Keyword::Impl => "impl"@,
        Keyword::For => "for"@,
        Keyword::Async => "async"@,
        Keyword::Fn => "fn"@,
        Keyword::SelfValue => "self"@,
        Keyword::SelfType => "Self"@,
        Keyword::Await => "await"@,
        Keyword::Match => "match"@,
        Keyword::Mod => "mod"@,
        Keyword::Use => "use"@,
        Keyword::Super => "super"@,
        Keyword::Pub => "pub"@,
        Keyword::Struct => "struct"@,
        Keyword::Enum => "enum"@,
    }
}

/// The source text of a punctuation token.
pub open spec fn punct_text(x: Punct) -> Seq<char> {
    match x {
        Punct::Amp => "&"@,
        Punct::Star => "*"@,
        Punct::Dot => "."@,
        Punct::Comma => ","@,
        Punct::Colon => ":"@,
        Punct::PathSep => "::"@,
        Punct::RArrow => "->"@,
        Punct::FatArrow => "=>"@,
        Punct::Lt => "<"@,
        Punct::Gt => ">"@,
        Punct::Pound => "#"@,
        Punct::Semi => ";"@,
    }
}

/// The source text of an opening delimiter.
pub open spec fn open_text(x: Delim) -> Seq<char> {
    match x {
        Delim::Paren => "("@,
        Delim::Brace => "{"@,
        Delim::Bracket => "["@,
    }
}

/// The source text of a closing delimiter.
pub open spec fn close_text(x: Delim) -> Seq<char> {
    match x {
        Delim::Paren => ")"@,
        Delim::Brace => "}"@,
        Delim::Bracket => "]"@,
    }
}

fn keyword_str(x: Keyword) -> (r: &'static str)
    ensures
        r@ == keyword_text(x),
{
    match x {
        Keyword::Impl => "impl",
        Keyword::For => "for",
        Keyword::Async => "async",
        Keyword::Fn => "fn",
        Keyword::SelfValue => "self",
        Keyword::SelfType => "Self",
        Keyword::Await => "await",
        Keyword::Match => "match",
        Keyword::Mod => "mod",
        Keyword::Use => "use",
        Keyword::Super => "super",
        Keyword::Pub => "pub",
        Keyword::Struct => "struct",
        Keyword::Enum => "enum",
    }
}

fn punct_str(x: Punct) -> (r: &'static str)
    ensures
        r@ == punct_text(x),
{
    match x {
        Punct::Amp => "&",
        Punct::Star => "*",
        Punct::Dot => ".",
        Punct::Comma => ",",
        Punct::Colon => ":",
        Punct::PathSep => "::",
        Punct::RArrow => "->",
        Punct::FatArrow => "=>",
        Punct::Lt => "<",
        Punct::Gt => ">",
        Punct::Pound => "#",
        Punct::Semi => ";",
    }
}

fn open_str(x: Delim) -> (r: &'static str)
    ensures
        r@ == open_text(x),
{
    match x {
        Delim::Paren => "(",
        Delim::Brace => "{",
        Delim::Bracket => "[",
    }
}

fn close_str(x: Delim) -> (r: &'static str)
    ensures
        r@ == close_text(x),
{
    match x {
        Delim::Paren => ")",
        Delim::Brace => "}",
        Delim::Bracket => "]",
    }
}

/// The source text of one token.
pub open spec fn token_text(t: TokenView) -> Seq<char> {
    match t {
        TokenView::Ident(s) => s,
        TokenView::Index(n) => decimal(n),
        TokenView::Keyword(k) => keyword_text(k),
        TokenView::Punct(p) => punct_text(p),
        TokenView::Open(d) => open_text(d),
        TokenView::Close(d) => close_text(d),
        TokenView::Verbatim(s) => s,
    }
}

/// The text of a token sequence: each token followed by one space.
pub open spec fn render_text(s: Seq<TokenView>) -> Seq<char>
    decreases s.len(),
{
    if s.len() == 0 {
        Seq::empty()
    } else {
        render_text(s.drop_last()) + token_text(s.last()) + " "@
    }
}

/// Appends the text of one token to `out`.
pub fn push_token_text(out: &mut String, t: &Token)
    ensures
        final(out)@ == old(out)@ + token_text(t@),
{
    match t {
        Token::Ident(s) => out.append(s.as_str()),
        Token::Index(n) => push_decimal(out, *n),
        Token::Keyword(k) => out.append(keyword_str(*k)),
        Token::Punct(p) => out.append(punct_str(*p)),
        Token::Open(d) => out.append(open_str(*d)),
        Token::Close(d) => out.append(close_str(*d)),
        Token::Verbatim(s) => out.append(s.as_str()),
    }
}

/// Renders a token sequence as source text, one space after each token.
pub fn render(tokens: &Vec<Token>) -> (r: String)
    ensures
        r@ == render_text(toks(tokens@)),
{
    let mut out = String::new();
    let mut i: usize = 0;
    while i < tokens.len()
        invariant
            i <= tokens.len(),
            out@ == render_text(toks(tokens@.take(i as int))),
        decreases tokens.len() - i,
    {
        push_token_text(&mut out, &tokens[i]);
        out.append(" ");
        proof {
            assert(toks(tokens@.take(i + 1)).drop_last() =~= toks(tokens@.take(i as int)));
        }
        i = i + 1;
    }
    assert(tokens@.take(i as int) =~= tokens@);
    out
}

impl Token {
    /// A copy of this token.
    pub fn duplicate(&self) -> (r: Token)
        ensures
            r@ == self@,
    {
        match self {
            Token::Ident(s) => Token::Ident(s.clone()),
            Token::Index(n) => Token::Index(*n),
            Token::Keyword(k) => Token::Keyword(*k),
            Token::Punct(p) => Token::Punct(*p),
            Token::Open(d) => Token::Open(*d),
            Token::Close(d) => Token::Close(*d),
            Token::Verbatim(s) => Token::Verbatim(s.clone()),
        }
    }
}

/// An identifier token with the given text.
pub fn ident_token(s: &str) -> (r: Token)
    ensures
        r@ == TokenView::Ident(s@),
{
    Token::Ident(String::from_str(s))
}

/// A verbatim token holding a copy of `s`.
pub fn verbatim_token(s: &String) -> (r: Token)
    ensures
        r@ == TokenView::Verbatim(s@),
{
    Token::Verbatim(s.clone())
}

/// Appends copies of the tokens of `more`.
pub fn extend_tokens(out: &mut Vec<Token>, more: &Vec<Token>)
    ensures
        toks(final(out)@) == toks(old(out)@) + toks(more@),
{
    let mut i: usize = 0;
    while i < more.len()
        invariant
            i <= more.len(),
            toks(out@) == toks(old(out)@) + toks(more@.take(i as int)),
        decreases more.len() - i,
    {
        push_token(out, more[i].duplicate());
        assert(toks(more@.take(i + 1)) =~= toks(more@.take(i as int)).push(more@[i as int]@));
        i = i + 1;
    }
    assert(more@.take(i as int) =~= more@);
}

/// The views of a list of token vectors.
pub open spec fn nested(v: Seq<Vec<Token>>) -> Seq<Seq<TokenView>> {
    v.map_values(|x: Vec<Token>| toks(x@))
}

/// Each item followed by a comma.
pub open spec fn comma_list(items: Seq<Seq<TokenView>>) -> Seq<TokenView>
    decreases items.len(),
{
    if items.len() == 0 {
        Seq::empty()
    } else {
        comma_list(items.drop_last()) + items.last() + seq![TokenView::Punct(Punct::Comma)]
    }
}

/// Each name, as an identifier, followed by a comma.
pub open spec fn name_list(names: Seq<Seq<char>>) -> Seq<TokenView>
    decreases names.len(),
{
    if names.len() == 0 {
        Seq::empty()
    } else {
        name_list(names.drop_last()) + seq![TokenView::Ident(names.last()), TokenView::Punct(Punct::Comma)]
    }
}

/// The views of a list of strings.
pub open spec fn texts(v: Seq<String>) -> Seq<Seq<char>> {
    v.map_values(|s: String| s@)
}

/// Appends each item followed by a comma.
pub fn push_comma_list(out: &mut Vec<Token>, items: &Vec<Vec<Token>>)
    ensures
        toks(final(out)@) == toks(old(out)@) + comma_list(nested(items@)),
{
    let mut i: usize = 0;
    while i < items.len()
        invariant
            i <= items.len(),
            toks(out@) == toks(old(out)@) + comma_list(nested(items@.take(i as int))),
        decreases items.len() - i,
    {
        extend_tokens(out, &items[i]);
        push_token(out, Token::Punct(Punct::Comma));
        assert(nested(items@.take(i + 1)).drop_last() =~= nested(items@.take(i as int)));
        i = i + 1;
    }
    assert(items@.take(i as int) =~= items@);
}

/// Appends each name, as an identifier, followed by a comma.
pub fn push_name_list(out: &mut Vec<Token>, names: &Vec<String>)
    ensures
        toks(final(out)@) == toks(old(out)@) + name_list(texts(names@)),
{
    let mut i: usize = 0;
    while i < names.len()
        invariant
            i <= names.len(),
            toks(out@) == toks(old(out)@) + name_list(texts(names@.take(i as int))),
        decreases names.len() - i,
    {
        push_token(out, Token::Ident(names[i].clone()));
        push_token(out, Token::Punct(Punct::Comma));
        assert(texts(names@.take(i + 1)).drop_last() =~= texts(names@.take(i as int)));
        i = i + 1;
    }
    assert(names@.take(i as int) =~= names@);
}

/// The items one after another.
pub open spec fn concat(items: Seq<Seq<TokenView>>) -> Seq<TokenView>
    decreases items.len(),
{
    if items.len() == 0 {
        Seq::empty()
    } else {
        concat(items.drop_last()) + items.last()
    }
}

/// Concatenation after one more item.
pub proof fn lemma_concat_push(items: Seq<Seq<TokenView>>, x: Seq<TokenView>)
    ensures
        concat(items.push(x)) == concat(items) + x,
{
    assert(items.push(x).drop_last() =~= items);
}

/// The lists one after another.
pub open spec fn flat<A>(s: Seq<Seq<A>>) -> Seq<A>
    decreases s.len(),
{
    if s.len() == 0 {
        Seq::empty()
    } else {
        flat(s.drop_last()) + s.last()
    }
}

} // verus!
