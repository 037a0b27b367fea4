use vstd::prelude::*;
use crate::dispatch::{TokenType, TokenValueKind, spec_token_type_name, token_type_name};
use crate::plan::{JsKind, VisitorKey, KEY_COUNT, key_index, index_of_key, key_bits, requested_flags, spec_held, kept_visitor_kinds_are_visited, spec_key_name, kind_of, key_taken, keyed_by_name};
use crate::types::{VisitKind, kind_bit};
use crate::visitors::VisitStage;

verus! {

/// A kept property of the visitor object, read as a visitor: the key it is
/// kept under, and how it must be kept (as a function or as an object of
/// visitors by name) for the lookup to find it.
#[derive(PartialEq, Eq, Structural, Clone, Copy, Debug)]
pub struct Lookup {
    pub key: VisitorKey,
    pub held: JsKind,
}

pub open spec fn function_at(key: VisitorKey) -> Lookup {
    Lookup { key, held: JsKind::Function }
}

pub open spec fn object_at(key: VisitorKey) -> Lookup {
    Lookup { key, held: JsKind::Object }
}

/// Where the visitors for a node are looked up at one stage: the general
/// visitor, and the object in which a visitor is looked up by the node's name.
#[derive(PartialEq, Eq, Clone, Copy, Debug)]
pub struct Route {
    pub general: Option<Lookup>,
    pub by_name: Option<Lookup>,
}

/// The route for rules: `Rule`/`RuleExit` as functions, and the rule visitors
/// by name in the `Rule` object when entering; when exiting, by name in the
/// `RuleExit` property, which is only ever kept as a function.
pub open spec fn spec_rule_route(stage: VisitStage) -> Route {
    match stage {
        VisitStage::Enter => Route {
            general: Some(function_at(VisitorKey::Rule)),
            by_name: Some(object_at(VisitorKey::Rule)),
        },
        VisitStage::Exit => Route {
            general: Some(function_at(VisitorKey::RuleExit)),
            by_name: Some(function_at(VisitorKey::RuleExit)),
        },
    }
}

pub fn rule_route(stage: VisitStage) -> (route: Route)
    ensures
        route == spec_rule_route(stage),
{
    match stage {
        VisitStage::Enter => Route {
            general: Some(Lookup { key: VisitorKey::Rule, held: JsKind::Function }),
            by_name: Some(Lookup { key: VisitorKey::Rule, held: JsKind::Object }),
        },
        VisitStage::Exit => Route {
            general: Some(Lookup { key: VisitorKey::RuleExit, held: JsKind::Function }),
            by_name: Some(Lookup { key: VisitorKey::RuleExit, held: JsKind::Function }),
        },
    }
}

/// The route for declarations: `Declaration`/`DeclarationExit` as functions,
/// and as objects of visitors by property name.
pub open spec fn spec_declaration_route(stage: VisitStage) -> Route {
    let key = match stage {
        VisitStage::Enter => VisitorKey::Declaration,
        VisitStage::Exit => VisitorKey::DeclarationExit,
    };
    Route { general: Some(function_at(key)), by_name: Some(object_at(key)) }
}

pub fn declaration_route(stage: VisitStage) -> (route: Route)
    ensures
        route == spec_declaration_route(stage),
{
    let key = match stage {
        VisitStage::Enter => VisitorKey::Declaration,
        VisitStage::Exit => VisitorKey::DeclarationExit,
    };
    Route {
        general: Some(Lookup { key, held: JsKind::Function }),
        by_name: Some(Lookup { key, held: JsKind::Object }),
    }
}

/// The route for environment variables (in token lists and media queries):
/// `EnvironmentVariable`/`EnvironmentVariableExit` as functions, and as
/// objects of visitors by variable name.
pub open spec fn spec_env_route(stage: VisitStage) -> Route {
    let key = match stage {
        VisitStage::Enter => VisitorKey::EnvironmentVariable,
        VisitStage::Exit => VisitorKey::EnvironmentVariableExit,
    };
    Route { general: Some(function_at(key)), by_name: Some(object_at(key)) }
}

pub fn env_route(stage: VisitStage) -> (route: Route)
    ensures
        route == spec_env_route(stage),
{
    let key = match stage {
        VisitStage::Enter => VisitorKey::EnvironmentVariable,
        VisitStage::Exit => VisitorKey::EnvironmentVariableExit,
    };
    Route {
        general: Some(Lookup { key, held: JsKind::Function }),
        by_name: Some(Lookup { key, held: JsKind::Object }),
    }
}

/// The kinds of value that have one visitor each (no visitors by name).
#[derive(PartialEq, Eq, Structural, Clone, Copy, Debug)]
pub enum ValueKind {
    Length,
    Angle,
    Ratio,
    Resolution,
    Time,
    Color,
    Image,
    Url,
    MediaQuery,
    SupportsCondition,
    CustomIdent,
    DashedIdent,
    Selector,
}

/// The visitor for a value of `kind` at `stage`: images, media queries and
/// supports conditions have enter and exit visitors, the others an enter
/// visitor only.
pub open spec fn spec_value_route(kind: ValueKind, stage: VisitStage) -> Option<Lookup> {
    match (kind, stage) {
        (ValueKind::Length, VisitStage::Enter) => Some(function_at(VisitorKey::Length)),
        (ValueKind::Angle, VisitStage::Enter) => Some(function_at(VisitorKey::Angle)),
        (ValueKind::Ratio, VisitStage::Enter) => Some(function_at(VisitorKey::Ratio)),
        (ValueKind::Resolution, VisitStage::Enter) => Some(function_at(VisitorKey::Resolution)),
        (ValueKind::Time, VisitStage::Enter) => Some(function_at(VisitorKey::Time)),
        (ValueKind::Color, VisitStage::Enter) => Some(function_at(VisitorKey::Color)),
        (ValueKind::Image, VisitStage::Enter) => Some(function_at(VisitorKey::Image)),
        (ValueKind::Image, VisitStage::Exit) => Some(function_at(VisitorKey::ImageExit)),
        (ValueKind::Url, VisitStage::Enter) => Some(function_at(VisitorKey::Url)),
        (ValueKind::MediaQuery, VisitStage::Enter) => Some(function_at(VisitorKey::MediaQuery)),
        (ValueKind::MediaQuery, VisitStage::Exit) => Some(function_at(VisitorKey::MediaQueryExit)),
        (ValueKind::SupportsCondition, VisitStage::Enter) => Some(function_at(VisitorKey::SupportsCondition)),
        (ValueKind::SupportsCondition, VisitStage::Exit) => Some(function_at(VisitorKey::SupportsConditionExit)),
        (ValueKind::CustomIdent, VisitStage::Enter) => Some(function_at(VisitorKey::CustomIdent)),
        (ValueKind::DashedIdent, VisitStage::Enter) => Some(function_at(VisitorKey::DashedIdent)),
        (ValueKind::Selector, VisitStage::Enter) => Some(function_at(VisitorKey::Selector)),
        _ => None,
    }
}

pub fn value_route(kind: ValueKind, stage: VisitStage) -> (lookup: Option<Lookup>)
    ensures
        lookup == spec_value_route(kind, stage),
{
    let key = match (kind, stage) {
        (ValueKind::Length, VisitStage::Enter) => VisitorKey::Length,
        (ValueKind::Angle, VisitStage::Enter) => VisitorKey::Angle,
        (ValueKind::Ratio, VisitStage::Enter) => VisitorKey::Ratio,
        (ValueKind::Resolution, VisitStage::Enter) => VisitorKey::Resolution,
        (ValueKind::Time, VisitStage::Enter) => VisitorKey::Time,
        (ValueKind::Color, VisitStage::Enter) => VisitorKey::Color,
        (ValueKind::Image, VisitStage::Enter) => VisitorKey::Image,
        (ValueKind::Image, VisitStage::Exit) => VisitorKey::ImageExit,
        (ValueKind::Url, VisitStage::Enter) => VisitorKey::Url,
        (ValueKind::MediaQuery, VisitStage::Enter) => VisitorKey::MediaQuery,
        (ValueKind::MediaQuery, VisitStage::Exit) => VisitorKey::MediaQueryExit,
        (ValueKind::SupportsCondition, VisitStage::Enter) => VisitorKey::SupportsCondition,
        (ValueKind::SupportsCondition, VisitStage::Exit) => VisitorKey::SupportsConditionExit,
        (ValueKind::CustomIdent, VisitStage::Enter) => VisitorKey::CustomIdent,
        (ValueKind::DashedIdent, VisitStage::Enter) => VisitorKey::DashedIdent,
        (ValueKind::Selector, VisitStage::Enter) => VisitorKey::Selector,
        _ => {
            return None;
        },
    };
    Some(Lookup { key, held: JsKind::Function })
}

/// The name by which a visitor for an item of a token list is looked up.
#[derive(PartialEq, Eq, Structural, Clone, Copy, Debug)]
pub enum TokenName {
    /// The custom function's name.
    FunctionName,
    /// The environment variable's name.
    EnvironmentVariableName,
    /// The name of the token's type (see [`token_type_name`]).
    TokenType(TokenType),
}

/// Where the visitors for an item of a token list are looked up at one stage.
#[derive(PartialEq, Eq, Clone, Copy, Debug)]
pub struct TokenRoute {
    pub general: Option<Lookup>,
    pub by_name: Option<(Lookup, TokenName)>,
}

/// The route for an item of kind `kind` at `stage`; none for items that no
/// token visitor sees. Tokens go to `Token` and to the `Token` object by type
/// name, and only when entered; `var()` to `Variable`/`VariableExit`; `env()`
/// to `EnvironmentVariable`/`EnvironmentVariableExit` and the objects of the
/// same keys by variable name; custom functions to `Function`/`FunctionExit`
/// and the objects of the same keys by function name.
pub open spec fn spec_token_route(kind: TokenValueKind, stage: VisitStage) -> Option<TokenRoute> {
    match kind {
        TokenValueKind::Token(t) => Some(
            match stage {
                VisitStage::Enter => TokenRoute {
                    general: Some(function_at(VisitorKey::Token)),
                    by_name: if spec_token_type_name(t) is Some {
                        Some((object_at(VisitorKey::Token), TokenName::TokenType(t)))
                    } else {
                        None
                    },
                },
                VisitStage::Exit => TokenRoute { general: None, by_name: None },
            },
        ),
        TokenValueKind::Var => Some(TokenRoute {
            general: Some(function_at(
                match stage {
                    VisitStage::Enter => VisitorKey::Variable,
                    VisitStage::Exit => VisitorKey::VariableExit,
                },
            )),
            by_name: None,
        }),
        TokenValueKind::Env => {
            let key = match stage {
                VisitStage::Enter => VisitorKey::EnvironmentVariable,
                VisitStage::Exit => VisitorKey::EnvironmentVariableExit,
            };
            Some(TokenRoute {
                general: Some(function_at(key)),
                by_name: Some((object_at(key), TokenName::EnvironmentVariableName)),
            })
        },
        TokenValueKind::Function => {
            let key = match stage {
                VisitStage::Enter => VisitorKey::Function,
                VisitStage::Exit => VisitorKey::FunctionExit,
            };
            Some(TokenRoute {
                general: Some(function_at(key)),
                by_name: Some((object_at(key), TokenName::FunctionName)),
            })
        },
        TokenValueKind::Other => None,
    }
}

pub fn token_route(kind: TokenValueKind, stage: VisitStage) -> (route: Option<TokenRoute>)
    ensures
        route == spec_token_route(kind, stage),
{
    let enter = stage == VisitStage::Enter;
    match kind {
        TokenValueKind::Token(t) => {
            if enter {
                let by_name = match token_type_name(t) {
                    Some(_) => Some((Lookup { key: VisitorKey::Token, held: JsKind::Object }, TokenName::TokenType(t))),
                    None => None,
                };
                Some(TokenRoute {
                    general: Some(Lookup { key: VisitorKey::Token, held: JsKind::Function }),
                    by_name,
                })
            } else {
                Some(TokenRoute { general: None, by_name: None })
            }
        },
        TokenValueKind::Var => {
            let key = if enter { VisitorKey::Variable } else { VisitorKey::VariableExit };
            Some(TokenRoute { general: Some(Lookup { key, held: JsKind::Function }), by_name: None })
        },
        TokenValueKind::Env => {
            let key = if enter { VisitorKey::EnvironmentVariable } else { VisitorKey::EnvironmentVariableExit };
            Some(TokenRoute {
                general: Some(Lookup { key, held: JsKind::Function }),
                by_name: Some((Lookup { key, held: JsKind::Object }, TokenName::EnvironmentVariableName)),
            })
        },
        TokenValueKind::Function => {
            let key = if enter { VisitorKey::Function } else { VisitorKey::FunctionExit };
            Some(TokenRoute {
                general: Some(Lookup { key, held: JsKind::Function }),
                by_name: Some((Lookup { key, held: JsKind::Object }, TokenName::FunctionName)),
            })
        },
        TokenValueKind::Other => None,
    }
}

/// The position of the kept property that `lookup` finds, given how each
/// property is kept (`held[key_index(k)]`, as [`crate::plan::plan_visitor`]
/// decides): found where the property is kept as the lookup expects.
pub fn resolve(held: &Vec<JsKind>, lookup: Option<Lookup>) -> (res: Option<usize>)
    requires
        held.len() == KEY_COUNT,
    ensures
        res == match lookup {
            Some(l) => if held@[key_index(l.key)] == l.held && l.held != JsKind::Other {
                Some(key_index(l.key) as usize)
            } else {
                None::<usize>
            },
            None => None::<usize>,
        },
{
    match lookup {
        Some(l) => {
            let i = index_of_key(l.key);
            if held[i] == l.held && l.held != JsKind::Other {
                Some(i)
            } else {
                None
            }
        },
        None => None,
    }
}

/// A lookup that finds a kept property finds a visitor whose node kinds are
/// visited: with `held` as the plan keeps the properties, no route leads to a
/// visitor that the walk would never reach.
pub proof fn found_visitor_kinds_are_visited(kinds: Seq<JsKind>, lookup: Lookup)
    requires
        kinds.len() == KEY_COUNT,
        spec_held(kinds, lookup.key) == lookup.held,
        lookup.held != JsKind::Other,
    ensures
        key_bits(lookup.key).subset_of(requested_flags(kinds)),
{
    kept_visitor_kinds_are_visited(kinds, lookup.key);
}

/// The name of a visitor at `stage`: the enter visitor bears the base name,
/// the exit visitor the base name followed by `Exit`.
pub open spec fn stage_name(base: Seq<char>, stage: VisitStage) -> Seq<char> {
    match stage {
        VisitStage::Enter => base,
        VisitStage::Exit => base + "Exit"@,
    }
}

/// The exit keys are named after their enter keys.
proof fn lemma_exit_names()
    ensures
        "RuleExit"@ == "Rule"@ + "Exit"@,
        "DeclarationExit"@ == "Declaration"@ + "Exit"@,
        "ImageExit"@ == "Image"@ + "Exit"@,
        "MediaQueryExit"@ == "MediaQuery"@ + "Exit"@,
        "SupportsConditionExit"@ == "SupportsCondition"@ + "Exit"@,
        "VariableExit"@ == "Variable"@ + "Exit"@,
        "EnvironmentVariableExit"@ == "EnvironmentVariable"@ + "Exit"@,
        "FunctionExit"@ == "Function"@ + "Exit"@,
{
    reveal_strlit("Exit");
    reveal_strlit("Rule");
    reveal_strlit("RuleExit");
    reveal_strlit("Declaration");
    reveal_strlit("DeclarationExit");
    reveal_strlit("Image");
    reveal_strlit("ImageExit");
    reveal_strlit("MediaQuery");
    reveal_strlit("MediaQueryExit");
    reveal_strlit("SupportsCondition");
    reveal_strlit("SupportsConditionExit");
    reveal_strlit("Variable");
    reveal_strlit("VariableExit");
    reveal_strlit("EnvironmentVariable");
    reveal_strlit("EnvironmentVariableExit");
    reveal_strlit("Function");
    reveal_strlit("FunctionExit");
    assert("RuleExit"@ =~= "Rule"@ + "Exit"@);
    assert("DeclarationExit"@ =~= "Declaration"@ + "Exit"@);
    assert("ImageExit"@ =~= "Image"@ + "Exit"@);
    assert("MediaQueryExit"@ =~= "MediaQuery"@ + "Exit"@);
    assert("SupportsConditionExit"@ =~= "SupportsCondition"@ + "Exit"@);
    assert("VariableExit"@ =~= "Variable"@ + "Exit"@);
    assert("EnvironmentVariableExit"@ =~= "EnvironmentVariable"@ + "Exit"@);
    assert("FunctionExit"@ =~= "Function"@ + "Exit"@);
}

/// Whether values of `kind` have an exit visitor as well as an enter visitor.
pub open spec fn staged(kind: ValueKind) -> bool {
    kind == ValueKind::Image || kind == ValueKind::MediaQuery || kind == ValueKind::SupportsCondition
}

/// The name of the visitor object's property for values of `kind`: the
/// kind's own name.
pub open spec fn value_kind_name(kind: ValueKind) -> Seq<char> {
    match kind {
        ValueKind::Length => "Length"@,
        ValueKind::Angle => "Angle"@,
        ValueKind::Ratio => "Ratio"@,
        ValueKind::Resolution => "Resolution"@,
        ValueKind::Time => "Time"@,
        ValueKind::Color => "Color"@,
        ValueKind::Image => "Image"@,
        ValueKind::Url => "Url"@,
        ValueKind::MediaQuery => "MediaQuery"@,
        ValueKind::SupportsCondition => "SupportsCondition"@,
        ValueKind::CustomIdent => "CustomIdent"@,
        ValueKind::DashedIdent => "DashedIdent"@,
        ValueKind::Selector => "Selector"@,
    }
}

/// The `VisitTypes` flag that lightningcss checks before it hands values of
/// `kind` to a visitor (the flag of its `#[visit(visit_*, FLAG)]` attribute).
pub open spec fn gating_kind(kind: ValueKind) -> VisitKind {
    match kind {
        ValueKind::Length => VisitKind::Lengths,
        ValueKind::Angle => VisitKind::Angles,
        ValueKind::Ratio => VisitKind::Ratios,
        ValueKind::Resolution => VisitKind::Resolutions,
        ValueKind::Time => VisitKind::Times,
        ValueKind::Color => VisitKind::Colors,
        ValueKind::Image => VisitKind::Images,
        ValueKind::Url => VisitKind::Urls,
        ValueKind::MediaQuery => VisitKind::MediaQueries,
        ValueKind::SupportsCondition => VisitKind::SupportsConditions,
        ValueKind::CustomIdent => VisitKind::CustomIdents,
        ValueKind::DashedIdent => VisitKind::DashedIdents,
        ValueKind::Selector => VisitKind::Selectors,
    }
}

/// Every value kind is handed, when entered, to the function kept under the
/// property named after the kind; kinds with an exit visitor are handed, when
/// exited, to the function under the same name followed by `Exit`, and the
/// others to nothing. The property of each asks to visit exactly the flag
/// that lightningcss checks for values of that kind.
pub proof fn value_route_finds_visitor_of_its_kind(kind: ValueKind)
    ensures
        spec_value_route(kind, VisitStage::Enter) matches Some(l) && {
            &&& l.held == JsKind::Function
            &&& spec_key_name(l.key) == value_kind_name(kind)
            &&& key_bits(l.key) == set![kind_bit(gating_kind(kind))]
        },
        staged(kind) ==> (spec_value_route(kind, VisitStage::Exit) matches Some(l) && {
            &&& l.held == JsKind::Function
            &&& spec_key_name(l.key) == stage_name(value_kind_name(kind), VisitStage::Exit)
            &&& key_bits(l.key) == set![kind_bit(gating_kind(kind))]
        }),
        !staged(kind) ==> spec_value_route(kind, VisitStage::Exit) is None,
{
    lemma_exit_names();
}

/// A declaration is looked up, at each stage, in the properties named
/// `Declaration` (entering) and `DeclarationExit` (exiting): by property name
/// in the object kept there, and otherwise in the function kept there; both
/// ask to visit properties, the flag lightningcss checks for declaration
/// blocks.
pub proof fn declaration_route_by_property_name(stage: VisitStage)
    ensures
        spec_declaration_route(stage).general matches Some(g) && spec_declaration_route(stage).by_name matches Some(b)
            && {
            &&& g.key == b.key
            &&& g.held == JsKind::Function
            &&& b.held == JsKind::Object
            &&& spec_key_name(g.key) == stage_name("Declaration"@, stage)
            &&& key_bits(g.key) == set![kind_bit(VisitKind::Properties)]
        },
{
    lemma_exit_names();
}

/// An environment variable is looked up, at each stage, in the properties
/// named `EnvironmentVariable` (entering) and `EnvironmentVariableExit`
/// (exiting): by variable name in the object kept there, and otherwise in the
/// function kept there. Both ask to visit environment variables and the token
/// lists and media queries they stand in, and an `env()` in a token list is
/// looked up in the same places as one in a media query.
pub proof fn env_route_by_variable_name(stage: VisitStage)
    ensures
        spec_env_route(stage).general matches Some(g) && spec_env_route(stage).by_name matches Some(b) && {
            &&& g.key == b.key
            &&& g.held == JsKind::Function
            &&& b.held == JsKind::Object
            &&& spec_key_name(g.key) == stage_name("EnvironmentVariable"@, stage)
            &&& key_bits(g.key) == set![
                kind_bit(VisitKind::Tokens),
                kind_bit(VisitKind::MediaQueries),
                kind_bit(VisitKind::EnvironmentVariables),
            ]
        },
        spec_token_route(TokenValueKind::Env, stage) == Some(TokenRoute {
            general: spec_env_route(stage).general,
            by_name: Some((spec_env_route(stage).by_name.unwrap(), TokenName::EnvironmentVariableName)),
        }),
{
    lemma_exit_names();
}

/// Rules are looked up, at each stage, in the properties named `Rule`
/// (entering) and `RuleExit` (exiting): by rule name in the `Rule` object
/// when entering, and in the `RuleExit` function's own properties when
/// exiting; otherwise in the function kept there. Both ask to visit rules.
pub proof fn rule_route_by_rule_name(stage: VisitStage)
    ensures
        spec_rule_route(stage).general matches Some(g) && spec_rule_route(stage).by_name matches Some(b) && {
            &&& g.key == b.key
            &&& g.held == JsKind::Function
            &&& b.held == match stage {
                VisitStage::Enter => JsKind::Object,
                VisitStage::Exit => JsKind::Function,
            }
            &&& spec_key_name(g.key) == stage_name("Rule"@, stage)
            &&& key_bits(g.key) == set![kind_bit(VisitKind::Rules)]
        },
{
    lemma_exit_names();
}

/// Items of token lists are looked up by their kind: `var()` in the
/// functions named `Variable`/`VariableExit`, with no visitors by name;
/// custom functions in `Function`/`FunctionExit`, by function name in the
/// objects kept under the same names; `env()` in
/// `EnvironmentVariable`/`EnvironmentVariableExit`, by variable name likewise;
/// tokens, only when entered, in `Token`, by type name in the `Token` object
/// where the type has a name. Every one asks to visit tokens; other items are
/// not handed to token visitors.
pub proof fn token_route_by_item_kind(kind: TokenValueKind, stage: VisitStage)
    ensures
        match kind {
            TokenValueKind::Var => spec_token_route(kind, stage) matches Some(r) && r.general matches Some(g) && {
                &&& g.held == JsKind::Function
                &&& spec_key_name(g.key) == stage_name("Variable"@, stage)
                &&& key_bits(g.key) == set![kind_bit(VisitKind::Tokens)]
                &&& r.by_name is None
            },
            TokenValueKind::Function => spec_token_route(kind, stage) matches Some(r) && r.general matches Some(g)
                && r.by_name matches Some(b) && {
                &&& g.held == JsKind::Function
                &&& b.0 == Lookup { key: g.key, held: JsKind::Object }
                &&& b.1 == TokenName::FunctionName
                &&& spec_key_name(g.key) == stage_name("Function"@, stage)
                &&& key_bits(g.key) == set![kind_bit(VisitKind::Tokens)]
            },
            TokenValueKind::Env => spec_token_route(kind, stage) matches Some(r) && r.general matches Some(g)
                && r.by_name matches Some(b) && {
                &&& g.held == JsKind::Function
                &&& b.0 == Lookup { key: g.key, held: JsKind::Object }
                &&& b.1 == TokenName::EnvironmentVariableName
                &&& spec_key_name(g.key) == stage_name("EnvironmentVariable"@, stage)
                &&& key_bits(g.key).contains(kind_bit(VisitKind::Tokens))
            },
            TokenValueKind::Token(t) => spec_token_route(kind, stage) matches Some(r) && match stage {
                VisitStage::Enter => r.general matches Some(g) && {
                    &&& g.held == JsKind::Function
                    &&& spec_key_name(g.key) == "Token"@
                    &&& key_bits(g.key) == set![kind_bit(VisitKind::Tokens)]
                    &&& (r.by_name is Some <==> spec_token_type_name(t) is Some)
                    &&& r.by_name matches Some(b) ==> b == (Lookup { key: g.key, held: JsKind::Object }, TokenName::TokenType(t))
                },
                VisitStage::Exit => r.general is None && r.by_name is None,
            },
            TokenValueKind::Other => spec_token_route(kind, stage) is None,
        },
{
    lemma_exit_names();
}

/// Whether some route looks up visitors by name in an object kept under `key`.
pub open spec fn looked_up_by_name(key: VisitorKey) -> bool {
    exists|stage: VisitStage| {
        ||| #[trigger] spec_rule_route(stage).by_name == Some(object_at(key))
        ||| spec_declaration_route(stage).by_name == Some(object_at(key))
        ||| spec_env_route(stage).by_name == Some(object_at(key))
        ||| spec_token_route(TokenValueKind::Function, stage) matches Some(r) && r.by_name matches Some(b) && b.0
            == object_at(key)
        ||| spec_token_route(TokenValueKind::Token(TokenType::Ident), stage) matches Some(r) && r.by_name matches Some(
            b,
        ) && b.0 == object_at(key)
    }
}

/// An object under a key is kept exactly where some route looks up visitors
/// by name in it: an object under any other key is never read.
pub proof fn objects_kept_where_looked_up_by_name(key: VisitorKey)
    ensures
        keyed_by_name(key) <==> looked_up_by_name(key),
{
    assert(spec_token_type_name(TokenType::Ident) is Some);
    if keyed_by_name(key) {
        match key {
            VisitorKey::Rule | VisitorKey::Declaration | VisitorKey::EnvironmentVariable | VisitorKey::Function
            | VisitorKey::Token => {
                assert(spec_rule_route(VisitStage::Enter).by_name == Some(object_at(key)) || spec_declaration_route(
                    VisitStage::Enter,
                ).by_name == Some(object_at(key)) || spec_env_route(VisitStage::Enter).by_name == Some(object_at(key))
                    || (spec_token_route(TokenValueKind::Function, VisitStage::Enter) matches Some(r) && r.by_name matches Some(b)
                    && b.0 == object_at(key)) || (spec_token_route(TokenValueKind::Token(TokenType::Ident), VisitStage::Enter) matches Some(r)
                    && r.by_name matches Some(b) && b.0 == object_at(key)));
            },
            _ => {
                assert(spec_rule_route(VisitStage::Exit).by_name == Some(object_at(key)) || spec_declaration_route(
                    VisitStage::Exit,
                ).by_name == Some(object_at(key)) || spec_env_route(VisitStage::Exit).by_name == Some(object_at(key))
                    || (spec_token_route(TokenValueKind::Function, VisitStage::Exit) matches Some(r) && r.by_name matches Some(b)
                    && b.0 == object_at(key)));
            },
        }
    }
}

/// Whatever the visitor object holds, the node kinds that only one value
/// kind's visitors ask for are visited exactly when a function is kept under
/// one of the properties of that value kind (for instance, angles are visited
/// exactly when `Angle` is a function).
pub proof fn value_flag_iff_its_visitor(kinds: Seq<JsKind>, kind: ValueKind)
    requires
        kinds.len() == KEY_COUNT,
        kind != ValueKind::MediaQuery,
    ensures
        requested_flags(kinds).contains(kind_bit(gating_kind(kind))) <==> (
            (spec_value_route(kind, VisitStage::Enter) matches Some(l) && kind_of(kinds, l.key) == JsKind::Function)
            || (spec_value_route(kind, VisitStage::Exit) matches Some(l) && kind_of(kinds, l.key) == JsKind::Function)
        ),
{
    let bit = kind_bit(gating_kind(kind));
    if requested_flags(kinds).contains(bit) {
        let key = choose|key: VisitorKey| #[trigger] key_taken(kinds, key) && key_bits(key).contains(bit);
        assert(key_taken(kinds, key) && key_bits(key).contains(bit));
        assert(!keyed_by_name(key) || !key_bits(key).contains(bit));
    } else {
        if let Some(l) = spec_value_route(kind, VisitStage::Enter) {
            if kind_of(kinds, l.key) == JsKind::Function {
                assert(key_taken(kinds, l.key) && key_bits(l.key).contains(bit));
            }
        }
        if let Some(l) = spec_value_route(kind, VisitStage::Exit) {
            if kind_of(kinds, l.key) == JsKind::Function {
                assert(key_taken(kinds, l.key) && key_bits(l.key).contains(bit));
            }
        }
    }
}

} // verus!
