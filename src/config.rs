//! The block configuration: `<companion type> [, strategy = "<name>"]`.
use vstd::prelude::*;
use crate::model::Strategy;

verus! {

/// What kind of token a configuration token is.
#[derive(Clone, Debug)]
pub enum TokenKind {
    /// An identifier; its name is the token's text.
    Ident,
    /// A single punctuation character, and whether it is joint: directly
    /// followed by the next punctuation character (the first `:` of `::`,
    /// the `-` of `->`, the `'` of a lifetime).
    Punct(char, bool),
    /// A literal.
    Literal,
    /// Any other token (a delimited group).
    Other,
}

/// A token of the configuration, with its source text.
#[derive(Clone, Debug)]
pub struct Token {
    pub kind: TokenKind,
    pub text: String,
}

/// A parsed configuration.
#[derive(Clone, Debug)]
pub struct BlockingImplArgs {
    /// The companion type as source text.
    pub async_type: String,
    pub strategy: Strategy,
}

/// Why a configuration was refused.
#[derive(PartialEq, Eq, Structural, Clone, Copy, Debug)]
pub enum ConfigErrorKind {
    /// No companion type before the first top-level comma, or tokens that
    /// do not form a type.
    ExpectedType,
    /// The comma is not followed by an identifier.
    ExpectedIdent,
    /// The identifier after the comma is not `strategy`.
    ExpectedStrategy,
    /// `strategy` is not followed by `=`.
    ExpectedEq,
    /// `=` is not followed by a string literal.
    ExpectedStr,
    /// The string names no strategy.
    UnknownStrategy,
    /// Tokens follow the strategy's name.
    Unexpected,
}

/// A refused configuration: why, the index of the offending token (the
/// number of tokens where the input ended too early), and for an unknown
/// strategy the name it gave.
#[derive(Clone, Debug)]
pub struct ConfigError {
    pub kind: ConfigErrorKind,
    pub at: usize,
    pub value: Option<String>,
}

/// What syn's string-literal parser makes of a literal's source text: its
/// unescaped value, or nothing when the text is no string literal.
pub uninterp spec fn string_literal_value(text: Seq<char>) -> Option<Seq<char>>;

/// Whether syn's type parser accepts the whole text as one type.
pub uninterp spec fn is_type_text(text: Seq<char>) -> bool;

/// Relies on `syn::parse_str::<syn::LitStr>` and `syn::LitStr::value`: the
/// unescaped value of a string literal, or `None` for any other text.
#[verifier::external_body]
fn literal_value(text: &str) -> (r: Option<String>)
    ensures
        r matches Some(v) ==> string_literal_value(text@) == Some(v@),
        r is None ==> string_literal_value(text@) is None,
{
    match syn::parse_str::<syn::LitStr>(text) {
        Ok(lit) => Some(lit.value()),
        Err(_) => None,
    }
}

/// Relies on `syn::parse_str::<syn::Type>`: whether the text is one type.
#[verifier::external_body]
fn parses_as_type(text: &str) -> (r: bool)
    ensures
        r == is_type_text(text@),
{
    syn::parse_str::<syn::Type>(text).is_ok()
}

pub open spec fn is_punct(t: Token, c: char) -> bool {
    t.kind matches TokenKind::Punct(p, _) && p == c
}

pub open spec fn is_joint(t: Token) -> bool {
    t.kind matches TokenKind::Punct(_, joint) && joint
}

/// The `>` at `i` closes an angle bracket: it is not the tip of an arrow `->`.
pub open spec fn closes_angle(toks: Seq<Token>, i: int) -> bool {
    &&& is_punct(toks[i], '>')
    &&& !(i > 0 && is_punct(toks[i - 1], '-') && is_joint(toks[i - 1]))
}

/// The index of the first comma outside angle brackets at or after `i`, or
/// the length of the input when there is none; `depth` is the number of
/// unclosed `<` before `i`.
pub open spec fn type_end(toks: Seq<Token>, i: int, depth: nat) -> int
    decreases toks.len() - i,
{
    if i < 0 || i >= toks.len() {
        toks.len() as int
    } else if is_punct(toks[i], ',') && depth == 0 {
        i
    } else if is_punct(toks[i], '<') {
        type_end(toks, i + 1, depth + 1)
    } else if closes_angle(toks, i) && depth > 0 {
        type_end(toks, i + 1, (depth - 1) as nat)
    } else {
        type_end(toks, i + 1, depth)
    }
}

/// What stands between a token and the next: nothing after a joint
/// punctuation character, a single space otherwise.
pub open spec fn separator(t: Token) -> Seq<char> {
    if is_joint(t) {
        Seq::empty()
    } else {
        " "@
    }
}

/// The tokens' texts, each pair separated as `separator` says.
pub open spec fn tokens_text(toks: Seq<Token>) -> Seq<char>
    decreases toks.len(),
{
    if toks.len() == 0 {
        Seq::empty()
    } else if toks.len() == 1 {
        toks[0].text@
    } else {
        tokens_text(toks.drop_last()) + separator(toks[toks.len() - 2]) + toks.last().text@
    }
}

pub open spec fn strategy_named(v: Seq<char>) -> Option<Strategy> {
    if v == "spawn_blocking"@ {
        Some(Strategy::SpawnBlocking)
    } else if v == "block_in_place"@ {
        Some(Strategy::BlockInPlace)
    } else {
        None
    }
}

/// Why the configuration tokens are refused, and where, if they are.
pub open spec fn config_fault(toks: Seq<Token>) -> Option<(ConfigErrorKind, usize)> {
    let k = type_end(toks, 0, 0);
    let n = toks.len();
    if k == 0 || !is_type_text(type_text(toks)) {
        Some((ConfigErrorKind::ExpectedType, 0))
    } else if k == n {
        None
    } else if k + 1 >= n || !(toks[k + 1].kind is Ident) {
        Some((ConfigErrorKind::ExpectedIdent, (k + 1) as usize))
    } else if toks[k + 1].text@ != "strategy"@ {
        Some((ConfigErrorKind::ExpectedStrategy, (k + 1) as usize))
    } else if k + 2 >= n || !is_punct(toks[k + 2], '=') {
        Some((ConfigErrorKind::ExpectedEq, (k + 2) as usize))
    } else if k + 3 >= n || !(toks[k + 3].kind is Literal) || string_literal_value(
        toks[k + 3].text@,
    ) is None {
        Some((ConfigErrorKind::ExpectedStr, (k + 3) as usize))
    } else if strategy_named(string_literal_value(toks[k + 3].text@)->Some_0) is None {
        Some((ConfigErrorKind::UnknownStrategy, (k + 3) as usize))
    } else if k + 4 < n {
        Some((ConfigErrorKind::Unexpected, (k + 4) as usize))
    } else {
        None
    }
}

/// The value of the string literal in the strategy clause.
pub open spec fn clause_value(toks: Seq<Token>) -> Seq<char> {
    string_literal_value(toks[type_end(toks, 0, 0) + 3].text@)->Some_0
}

/// The companion type's text.
pub open spec fn type_text(toks: Seq<Token>) -> Seq<char> {
    tokens_text(toks.subrange(0, type_end(toks, 0, 0)))
}

/// The strategy that accepted configuration tokens select.
pub open spec fn chosen_strategy(toks: Seq<Token>) -> Strategy {
    if type_end(toks, 0, 0) == toks.len() {
        Strategy::SpawnBlocking
    } else {
        strategy_named(clause_value(toks))->Some_0
    }
}

pub open spec fn config_message(kind: ConfigErrorKind, value: Seq<char>) -> Seq<char> {
    match kind {
        ConfigErrorKind::ExpectedType => "expected a type"@,
        ConfigErrorKind::ExpectedIdent => "expected identifier"@,
        ConfigErrorKind::ExpectedStrategy => "expected `strategy`"@,
        ConfigErrorKind::ExpectedEq => "expected `=`"@,
        ConfigErrorKind::ExpectedStr => "expected string literal"@,
        ConfigErrorKind::UnknownStrategy => "unknown strategy \""@ + value
            + "\", expected \"spawn_blocking\" or \"block_in_place\""@,
        ConfigErrorKind::Unexpected => "unexpected token"@,
    }
}

pub open spec fn value_or_empty(v: Option<String>) -> Seq<char> {
    match v {
        Some(s) => s@,
        None => Seq::empty(),
    }
}

impl ConfigError {
    /// The diagnostic text of this error.
    pub fn message(&self) -> (r: String)
        ensures
            r@ == config_message(self.kind, value_or_empty(self.value)),
    {
        match self.kind {
            ConfigErrorKind::ExpectedType => String::from_str("expected a type"),
            ConfigErrorKind::ExpectedIdent => String::from_str("expected identifier"),
            ConfigErrorKind::ExpectedStrategy => String::from_str("expected `strategy`"),
            ConfigErrorKind::ExpectedEq => String::from_str("expected `=`"),
            ConfigErrorKind::ExpectedStr => String::from_str("expected string literal"),
            ConfigErrorKind::UnknownStrategy => {
                let mut m = String::from_str("unknown strategy \"");
                match &self.value {
                    Some(v) => m.append(v.as_str()),
                    None => {},
                }
                m.append("\", expected \"spawn_blocking\" or \"block_in_place\"");
                m
            },
            ConfigErrorKind::Unexpected => String::from_str("unexpected token"),
        }
    }
}

fn token_is_punct(t: &Token, c: char) -> (r: bool)
    ensures
        r == is_punct(*t, c),
{
    match &t.kind {
        TokenKind::Punct(p, _) => *p == c,
        _ => false,
    }
}

fn token_is_joint(t: &Token) -> (r: bool)
    ensures
        r == is_joint(*t),
{
    match &t.kind {
        TokenKind::Punct(_, joint) => *joint,
        _ => false,
    }
}

fn token_closes_angle(toks: &Vec<Token>, i: usize) -> (r: bool)
    requires
        i < toks@.len(),
    ensures
        r == closes_angle(toks@, i as int),
{
    token_is_punct(&toks[i], '>') && !(i > 0 && token_is_punct(&toks[i - 1], '-') && token_is_joint(
        &toks[i - 1],
    ))
}

/// The index where the companion type ends.
fn find_type_end(toks: &Vec<Token>) -> (r: usize)
    ensures
        r as int == type_end(toks@, 0, 0),
        r <= toks@.len(),
{
    let mut i: usize = 0;
    let mut depth: usize = 0;
    while i < toks.len()
        invariant
            0 <= i <= toks@.len(),
            depth <= i,
            type_end(toks@, 0, 0) == type_end(toks@, i as int, depth as nat),
        decreases toks@.len() - i,
    {
        let t = &toks[i];
        if token_is_punct(t, ',') && depth == 0 {
            return i;
        } else if token_is_punct(t, '<') {
            depth = depth + 1;
        } else if token_closes_angle(toks, i) && depth > 0 {
            depth = depth - 1;
        }
        i += 1;
    }
    i
}

fn join_tokens(toks: &Vec<Token>, end: usize) -> (r: String)
    requires
        end <= toks@.len(),
    ensures
        r@ == tokens_text(toks@.subrange(0, end as int)),
{
    let mut out = String::new();
    let mut i: usize = 0;
    while i < end
        invariant
            0 <= i <= end <= toks@.len(),
            out@ == tokens_text(toks@.subrange(0, i as int)),
        decreases end - i,
    {
        let ghost next = toks@.subrange(0, i + 1);
        assert(next.drop_last() == toks@.subrange(0, i as int));
        if i > 0 {
            assert(next[next.len() - 2] == toks@[i - 1]);
            if !token_is_joint(&toks[i - 1]) {
                out.append(" ");
            }
        }
        out.append(toks[i].text.as_str());
        assert(i > 0 ==> out@ =~= tokens_text(next.drop_last()) + separator(next[next.len() - 2]) + next.last().text@);
        i += 1;
    }
    out
}

fn strategy_from_name(v: &String) -> (r: Option<Strategy>)
    ensures
        r == strategy_named(v@),
{
    let spawn = String::from_str("spawn_blocking");
    let in_place = String::from_str("block_in_place");
    if *v == spawn {
        Some(Strategy::SpawnBlocking)
    } else if *v == in_place {
        Some(Strategy::BlockInPlace)
    } else {
        None
    }
}

fn fault(kind: ConfigErrorKind, at: usize) -> (r: ConfigError)
    ensures
        r.kind == kind,
        r.at == at,
        r.value is None,
{
    ConfigError { kind, at, value: None }
}

/// Parses the configuration tokens. The companion type runs up to the first
/// comma outside angle brackets and must parse as a type; the optional clause
/// after it must be `strategy = "spawn_blocking"` or
/// `strategy = "block_in_place"`, and without it the strategy is
/// `spawn_blocking`. The first problem found ends the parse.
pub fn parse_blocking_impl_args(toks: &Vec<Token>) -> (r: Result<BlockingImplArgs, ConfigError>)
    ensures
        r is Ok <==> config_fault(toks@) is None,
        r matches Ok(a) ==> a.async_type@ == type_text(toks@) && a.strategy == chosen_strategy(toks@),
        r matches Err(e) ==> config_fault(toks@) == Some((e.kind, e.at)),
        r matches Err(e) ==> (e.kind == ConfigErrorKind::UnknownStrategy <==> e.value is Some),
        r matches Err(e) ==> (e.value matches Some(v) ==> v@ == clause_value(toks@)),
{
    let k = find_type_end(toks);
    let n = toks.len();
    let async_type = join_tokens(toks, k);
    if k == 0 || !parses_as_type(async_type.as_str()) {
        return Err(fault(ConfigErrorKind::ExpectedType, 0));
    }
    let mut strategy = Strategy::default();
    if k < n {
        if k + 1 >= n {
            return Err(fault(ConfigErrorKind::ExpectedIdent, k + 1));
        }
        let ident = &toks[k + 1];
        match ident.kind {
            TokenKind::Ident => {},
            _ => {
                return Err(fault(ConfigErrorKind::ExpectedIdent, k + 1));
            },
        }
        let keyword = String::from_str("strategy");
        if !(ident.text == keyword) {
            return Err(fault(ConfigErrorKind::ExpectedStrategy, k + 1));
        }
        if k + 2 >= n || !token_is_punct(&toks[k + 2], '=') {
            return Err(fault(ConfigErrorKind::ExpectedEq, k + 2));
        }
        if k + 3 >= n {
            return Err(fault(ConfigErrorKind::ExpectedStr, k + 3));
        }
        let lit = &toks[k + 3];
        match lit.kind {
            TokenKind::Literal => {},
            _ => {
                return Err(fault(ConfigErrorKind::ExpectedStr, k + 3));
            },
        }
        let value = match literal_value(lit.text.as_str()) {
            Some(v) => v,
            None => {
                return Err(fault(ConfigErrorKind::ExpectedStr, k + 3));
            },
        };
        match strategy_from_name(&value) {
            Some(s) => {
                strategy = s;
            },
            None => {
                return Err(
                    ConfigError { kind: ConfigErrorKind::UnknownStrategy, at: k + 3, value: Some(value) },
                );
            },
        }
        if k + 4 < n {
            return Err(fault(ConfigErrorKind::Unexpected, k + 4));
        }
    }
    Ok(BlockingImplArgs { async_type, strategy })
}

} // verus!
