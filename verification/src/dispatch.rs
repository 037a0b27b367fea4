use vstd::prelude::*;
use lightningcss::visitor::VisitTypes;
use crate::plan::JsKind;
use crate::types::{VisitKind, kind_bit, visit_flags, visits_kind};

verus! {

/// The kinds of CSS rule, one for each variant of lightningcss's `CssRule`.
#[derive(PartialEq, Eq, Structural, Clone, Copy, Debug)]
pub enum RuleKind {
    Media,
    Import,
    Style,
    Keyframes,
    FontFace,
    FontPaletteValues,
    Page,
    Supports,
    CounterStyle,
    Namespace,
    CustomMedia,
    LayerBlock,
    LayerStatement,
    Property,
    Container,
    MozDocument,
    Nesting,
    Viewport,
    Scope,
    StartingStyle,
    Unknown,
    Ignored,
    Custom,
}

/// The name under which a visitor for rules of `kind` is looked up in the
/// object of rule visitors; none for rules that are never handed to a visitor.
pub open spec fn spec_rule_name(kind: RuleKind) -> Option<Seq<char>> {
    match kind {
        RuleKind::Media => Some("media"@),
        RuleKind::Import => Some("import"@),
        RuleKind::Style => Some("style"@),
        RuleKind::Keyframes => Some("keyframes"@),
        RuleKind::FontFace => Some("font-face"@),
        RuleKind::FontPaletteValues => Some("font-palette-values"@),
        RuleKind::Page => Some("page"@),
        RuleKind::Supports => Some("supports"@),
        RuleKind::CounterStyle => Some("counter-style"@),
        RuleKind::Namespace => Some("namespace"@),
        RuleKind::CustomMedia => Some("custom-media"@),
        RuleKind::LayerBlock => Some("layer-block"@),
        RuleKind::LayerStatement => Some("layer-statement"@),
        RuleKind::Property => Some("property"@),
        RuleKind::Container => Some("container"@),
        RuleKind::MozDocument => Some("moz-document"@),
        RuleKind::Nesting => Some("nesting"@),
        RuleKind::Viewport => Some("viewport"@),
        RuleKind::Scope => Some("scope"@),
        RuleKind::StartingStyle => Some("starting-style"@),
        RuleKind::Unknown => Some("unknown"@),
        RuleKind::Ignored | RuleKind::Custom => None,
    }
}

/// The name under which a visitor for rules of `kind` is looked up; `None`
/// for ignored and custom rules, which no visitor sees.
pub fn rule_name(kind: RuleKind) -> (name: Option<&'static str>)
    ensures
        match name {
            Some(n) => spec_rule_name(kind) == Some(n@),
            None => spec_rule_name(kind) is None,
        },
{
    match kind {
        RuleKind::Media => Some("media"),
        RuleKind::Import => Some("import"),
        RuleKind::Style => Some("style"),
        RuleKind::Keyframes => Some("keyframes"),
        RuleKind::FontFace => Some("font-face"),
        RuleKind::FontPaletteValues => Some("font-palette-values"),
        RuleKind::Page => Some("page"),
        RuleKind::Supports => Some("supports"),
        RuleKind::CounterStyle => Some("counter-style"),
        RuleKind::Namespace => Some("namespace"),
        RuleKind::CustomMedia => Some("custom-media"),
        RuleKind::LayerBlock => Some("layer-block"),
        RuleKind::LayerStatement => Some("layer-statement"),
        RuleKind::Property => Some("property"),
        RuleKind::Container => Some("container"),
        RuleKind::MozDocument => Some("moz-document"),
        RuleKind::Nesting => Some("nesting"),
        RuleKind::Viewport => Some("viewport"),
        RuleKind::Scope => Some("scope"),
        RuleKind::StartingStyle => Some("starting-style"),
        RuleKind::Unknown => Some("unknown"),
        RuleKind::Ignored | RuleKind::Custom => None,
    }
}

/// The kinds of CSS token that have visitors keyed by name.
#[derive(PartialEq, Eq, Structural, Clone, Copy, Debug)]
pub enum TokenType {
    Ident,
    AtKeyword,
    Hash,
    IdHash,
    String,
    Number,
    Percentage,
    Dimension,
    /// Any other token (delimiters, white space, brackets and the like).
    Other,
}

/// The name under which a visitor for tokens of type `t` is looked up in the
/// object of token visitors.
pub open spec fn spec_token_type_name(t: TokenType) -> Option<Seq<char>> {
    match t {
        TokenType::Ident => Some("ident"@),
        TokenType::AtKeyword => Some("at-keyword"@),
        TokenType::Hash => Some("hash"@),
        TokenType::IdHash => Some("id-hash"@),
        TokenType::String => Some("string"@),
        TokenType::Number => Some("number"@),
        TokenType::Percentage => Some("percentage"@),
        TokenType::Dimension => Some("dimension"@),
        TokenType::Other => None,
    }
}

/// The name under which a visitor for tokens of type `t` is looked up; `None`
/// for tokens that only the general token visitor sees.
pub fn token_type_name(t: TokenType) -> (name: Option<&'static str>)
    ensures
        match name {
            Some(n) => spec_token_type_name(t) == Some(n@),
            None => spec_token_type_name(t) is None,
        },
{
    match t {
        TokenType::Ident => Some("ident"),
        TokenType::AtKeyword => Some("at-keyword"),
        TokenType::Hash => Some("hash"),
        TokenType::IdHash => Some("id-hash"),
        TokenType::String => Some("string"),
        TokenType::Number => Some("number"),
        TokenType::Percentage => Some("percentage"),
        TokenType::Dimension => Some("dimension"),
        TokenType::Other => None,
    }
}

/// The kinds of item in a list of tokens (a custom property's value).
#[derive(PartialEq, Eq, Structural, Clone, Copy, Debug)]
pub enum TokenValueKind {
    Token(TokenType),
    /// A `var()` reference.
    Var,
    /// An `env()` reference.
    Env,
    /// A custom function.
    Function,
    /// Anything else: a color, a url, a length and the like.
    Other,
}

/// How a visitor keyed by a name is found under a property of an object of
/// visitors that may itself hold one visitor or visitors by name.
#[derive(PartialEq, Eq, Structural, Clone, Copy, Debug)]
pub enum CustomLookup {
    /// The property is a function: it is the visitor.
    Direct,
    /// The property is an object: the visitor is its property of the name.
    ByName,
    /// There is no visitor.
    Missing,
}

/// How the visitor is found under a property that holds what `kind` says.
pub fn custom_lookup(kind: JsKind) -> (res: CustomLookup)
    ensures
        res == match kind {
            JsKind::Function => CustomLookup::Direct,
            JsKind::Object => CustomLookup::ByName,
            JsKind::Other => CustomLookup::Missing,
        },
{
    match kind {
        JsKind::Function => CustomLookup::Direct,
        JsKind::Object => CustomLookup::ByName,
        JsKind::Other => CustomLookup::Missing,
    }
}

/// The kinds of value that an environment-variable visitor may hand back for
/// an `env()` in a media query.
#[derive(PartialEq, Eq, Structural, Clone, Copy, Debug)]
pub enum EnvValueKind {
    Length,
    Resolution,
    /// A number token.
    Number,
    /// An identifier token.
    Ident,
    /// Any other value.
    Other,
}

/// The kinds of media feature value that an `env()` may be replaced by.
#[derive(PartialEq, Eq, Structural, Clone, Copy, Debug)]
pub enum MediaValueKind {
    Length,
    Resolution,
    Number,
    Ident,
}

/// A visitor handed back a value that cannot stand in a media query.
#[derive(PartialEq, Eq, Structural, Clone, Copy, Debug)]
pub struct InvalidMediaEnvValue;

/// What the `env()` in a media query becomes, given the kind of value its
/// visitor handed back: nothing changes when there is no value; a length, a
/// resolution, a number or an identifier takes its place; any other value is
/// refused.
pub fn media_env_replacement(answer: Option<EnvValueKind>) -> (res: Result<Option<MediaValueKind>, InvalidMediaEnvValue>)
    ensures
        res == match answer {
            None => Ok(None),
            Some(EnvValueKind::Length) => Ok(Some(MediaValueKind::Length)),
            Some(EnvValueKind::Resolution) => Ok(Some(MediaValueKind::Resolution)),
            Some(EnvValueKind::Number) => Ok(Some(MediaValueKind::Number)),
            Some(EnvValueKind::Ident) => Ok(Some(MediaValueKind::Ident)),
            Some(EnvValueKind::Other) => Err(InvalidMediaEnvValue),
        },
{
    match answer {
        None => Ok(None),
        Some(EnvValueKind::Length) => Ok(Some(MediaValueKind::Length)),
        Some(EnvValueKind::Resolution) => Ok(Some(MediaValueKind::Resolution)),
        Some(EnvValueKind::Number) => Ok(Some(MediaValueKind::Number)),
        Some(EnvValueKind::Ident) => Ok(Some(MediaValueKind::Ident)),
        Some(EnvValueKind::Other) => Err(InvalidMediaEnvValue),
    }
}

/// Whether a media feature value is handed to the environment-variable
/// visitors: it must be an `env()`, and environment variables must be visited.
pub fn visits_media_env(types: &VisitTypes, is_env: bool) -> (res: bool)
    ensures
        res == (is_env && visit_flags(*types).contains(kind_bit(VisitKind::EnvironmentVariables))),
{
    visits_kind(types, VisitKind::EnvironmentVariables) && is_env
}

} // verus!
