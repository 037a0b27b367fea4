use vstd::prelude::*;
use lightningcss::visitor::VisitTypes;
use crate::types::{VisitKind, kind_bit, visit_flags, visit_type, no_visit_types, union_visit_types};

verus! {

/// The properties of a JavaScript visitor object that name visitors.
#[derive(PartialEq, Eq, Structural, Clone, Copy, Debug)]
pub enum VisitorKey {
    Rule,
    RuleExit,
    Declaration,
    DeclarationExit,
    Length,
    Angle,
    Ratio,
    Resolution,
    Time,
    Color,
    Image,
    ImageExit,
    Url,
    MediaQuery,
    MediaQueryExit,
    SupportsCondition,
    SupportsConditionExit,
    Variable,
    VariableExit,
    EnvironmentVariable,
    EnvironmentVariableExit,
    CustomIdent,
    DashedIdent,
    Function,
    FunctionExit,
    Selector,
    Token,
}

/// The number of visitor keys.
pub const KEY_COUNT: usize = 27;

/// What a property of the visitor object holds, as JavaScript's `typeof` tells it.
#[derive(PartialEq, Eq, Structural, Clone, Copy, Debug)]
pub enum JsKind {
    /// A function: a visitor for every node of the key's kind.
    Function,
    /// An object (not null): visitors keyed by the name of a node.
    Object,
    /// Anything else, an absent property included.
    Other,
}

/// The position of `key` among the visitor keys, in the order they are declared.
pub open spec fn key_index(key: VisitorKey) -> int {
    match key {
        VisitorKey::Rule => 0,
        VisitorKey::RuleExit => 1,
        VisitorKey::Declaration => 2,
        VisitorKey::DeclarationExit => 3,
        VisitorKey::Length => 4,
        VisitorKey::Angle => 5,
        VisitorKey::Ratio => 6,
        VisitorKey::Resolution => 7,
        VisitorKey::Time => 8,
        VisitorKey::Color => 9,
        VisitorKey::Image => 10,
        VisitorKey::ImageExit => 11,
        VisitorKey::Url => 12,
        VisitorKey::MediaQuery => 13,
        VisitorKey::MediaQueryExit => 14,
        VisitorKey::SupportsCondition => 15,
        VisitorKey::SupportsConditionExit => 16,
        VisitorKey::Variable => 17,
        VisitorKey::VariableExit => 18,
        VisitorKey::EnvironmentVariable => 19,
        VisitorKey::EnvironmentVariableExit => 20,
        VisitorKey::CustomIdent => 21,
        VisitorKey::DashedIdent => 22,
        VisitorKey::Function => 23,
        VisitorKey::FunctionExit => 24,
        VisitorKey::Selector => 25,
        VisitorKey::Token => 26,
    }
}

/// The key at position `i` (the inverse of [`key_index`]).
pub open spec fn spec_key_at(i: int) -> VisitorKey {
    if i <= 0 { VisitorKey::Rule }
    else if i == 1 { VisitorKey::RuleExit }
    else if i == 2 { VisitorKey::Declaration }
    else if i == 3 { VisitorKey::DeclarationExit }
    else if i == 4 { VisitorKey::Length }
    else if i == 5 { VisitorKey::Angle }
    else if i == 6 { VisitorKey::Ratio }
    else if i == 7 { VisitorKey::Resolution }
    else if i == 8 { VisitorKey::Time }
    else if i == 9 { VisitorKey::Color }
    else if i == 10 { VisitorKey::Image }
    else if i == 11 { VisitorKey::ImageExit }
    else if i == 12 { VisitorKey::Url }
    else if i == 13 { VisitorKey::MediaQuery }
    else if i == 14 { VisitorKey::MediaQueryExit }
    else if i == 15 { VisitorKey::SupportsCondition }
    else if i == 16 { VisitorKey::SupportsConditionExit }
    else if i == 17 { VisitorKey::Variable }
    else if i == 18 { VisitorKey::VariableExit }
    else if i == 19 { VisitorKey::EnvironmentVariable }
    else if i == 20 { VisitorKey::EnvironmentVariableExit }
    else if i == 21 { VisitorKey::CustomIdent }
    else if i == 22 { VisitorKey::DashedIdent }
    else if i == 23 { VisitorKey::Function }
    else if i == 24 { VisitorKey::FunctionExit }
    else if i == 25 { VisitorKey::Selector }
    else { VisitorKey::Token }
}

/// The name of the visitor object's property for `key`.
pub open spec fn spec_key_name(key: VisitorKey) -> Seq<char> {
    match key {
        VisitorKey::Rule => "Rule"@,
        VisitorKey::RuleExit => "RuleExit"@,
        VisitorKey::Declaration => "Declaration"@,
        VisitorKey::DeclarationExit => "DeclarationExit"@,
        VisitorKey::Length => "Length"@,
        VisitorKey::Angle => "Angle"@,
        VisitorKey::Ratio => "Ratio"@,
        VisitorKey::Resolution => "Resolution"@,
        VisitorKey::Time => "Time"@,
        VisitorKey::Color => "Color"@,
        VisitorKey::Image => "Image"@,
        VisitorKey::ImageExit => "ImageExit"@,
        VisitorKey::Url => "Url"@,
        VisitorKey::MediaQuery => "MediaQuery"@,
        VisitorKey::MediaQueryExit => "MediaQueryExit"@,
        VisitorKey::SupportsCondition => "SupportsCondition"@,
        VisitorKey::SupportsConditionExit => "SupportsConditionExit"@,
        VisitorKey::Variable => "Variable"@,
        VisitorKey::VariableExit => "VariableExit"@,
        VisitorKey::EnvironmentVariable => "EnvironmentVariable"@,
        VisitorKey::EnvironmentVariableExit => "EnvironmentVariableExit"@,
        VisitorKey::CustomIdent => "CustomIdent"@,
        VisitorKey::DashedIdent => "DashedIdent"@,
        VisitorKey::Function => "Function"@,
        VisitorKey::FunctionExit => "FunctionExit"@,
        VisitorKey::Selector => "Selector"@,
        VisitorKey::Token => "Token"@,
    }
}

/// The flag bits of the node kinds that a visitor under `key` asks to visit.
pub open spec fn key_bits(key: VisitorKey) -> Set<u32> {
    match key {
        VisitorKey::Rule | VisitorKey::RuleExit => set![kind_bit(VisitKind::Rules)],
        VisitorKey::Declaration | VisitorKey::DeclarationExit => set![kind_bit(VisitKind::Properties)],
        VisitorKey::Length => set![kind_bit(VisitKind::Lengths)],
        VisitorKey::Angle => set![kind_bit(VisitKind::Angles)],
        VisitorKey::Ratio => set![kind_bit(VisitKind::Ratios)],
        VisitorKey::Resolution => set![kind_bit(VisitKind::Resolutions)],
        VisitorKey::Time => set![kind_bit(VisitKind::Times)],
        VisitorKey::Color => set![kind_bit(VisitKind::Colors)],
        VisitorKey::Image | VisitorKey::ImageExit => set![kind_bit(VisitKind::Images)],
        VisitorKey::Url => set![kind_bit(VisitKind::Urls)],
        VisitorKey::MediaQuery | VisitorKey::MediaQueryExit => set![kind_bit(VisitKind::MediaQueries)],
        VisitorKey::SupportsCondition | VisitorKey::SupportsConditionExit => set![kind_bit(VisitKind::SupportsConditions)],
        VisitorKey::Variable | VisitorKey::VariableExit => set![kind_bit(VisitKind::Tokens)],
        VisitorKey::EnvironmentVariable | VisitorKey::EnvironmentVariableExit => set![
            kind_bit(VisitKind::Tokens),
            kind_bit(VisitKind::MediaQueries),
            kind_bit(VisitKind::EnvironmentVariables),
        ],
        VisitorKey::CustomIdent => set![kind_bit(VisitKind::CustomIdents)],
        VisitorKey::DashedIdent => set![kind_bit(VisitKind::DashedIdents)],
        VisitorKey::Function | VisitorKey::FunctionExit => set![kind_bit(VisitKind::Tokens)],
        VisitorKey::Selector => set![kind_bit(VisitKind::Selectors)],
        VisitorKey::Token => set![kind_bit(VisitKind::Tokens)],
    }
}

/// Whether the visitor object is also read for an object of named visitors
/// under `key` (every key is read for a function).
pub open spec fn keyed_by_name(key: VisitorKey) -> bool {
    match key {
        VisitorKey::Rule | VisitorKey::Declaration | VisitorKey::DeclarationExit
        | VisitorKey::EnvironmentVariable | VisitorKey::EnvironmentVariableExit
        | VisitorKey::Function | VisitorKey::FunctionExit | VisitorKey::Token => true,
        _ => false,
    }
}

/// What the visitor object holds under `key`; `kinds` is indexed by [`key_index`].
pub open spec fn kind_of(kinds: Seq<JsKind>, key: VisitorKey) -> JsKind {
    kinds[key_index(key)]
}

/// Whether the property under `key` is taken as a visitor: a function always,
/// an object where the key is also read for named visitors.
pub open spec fn key_taken(kinds: Seq<JsKind>, key: VisitorKey) -> bool {
    kind_of(kinds, key) == JsKind::Function
        || (kind_of(kinds, key) == JsKind::Object && keyed_by_name(key))
}

/// The flags of the node kinds that the visitor object asks to visit: those
/// of every key whose property is taken as a visitor.
pub open spec fn requested_flags(kinds: Seq<JsKind>) -> Set<u32> {
    Set::new(|bit: u32| exists|key: VisitorKey| #[trigger] key_taken(kinds, key) && key_bits(key).contains(bit))
}

/// How the property under `key` is kept: as a visitor function, as an object
/// of visitors by name (only for the keys read for one), or not at all.
pub open spec fn spec_held(kinds: Seq<JsKind>, key: VisitorKey) -> JsKind {
    if kind_of(kinds, key) == JsKind::Function {
        JsKind::Function
    } else if kind_of(kinds, key) == JsKind::Object && keyed_by_name(key) {
        JsKind::Object
    } else {
        JsKind::Other
    }
}

/// What a JavaScript visitor object becomes: how the property under each key
/// is kept (`held[key_index(k)]`), and which node kinds it asks to visit.
pub struct VisitorPlan {
    pub held: Vec<JsKind>,
    pub types: VisitTypes,
}

/// The name of the visitor object's property for `key`.
pub fn key_name(key: VisitorKey) -> (name: &'static str)
    ensures
        name@ == spec_key_name(key),
{
    match key {
        VisitorKey::Rule => "Rule",
        VisitorKey::RuleExit => "RuleExit",
        VisitorKey::Declaration => "Declaration",
        VisitorKey::DeclarationExit => "DeclarationExit",
        VisitorKey::Length => "Length",
        VisitorKey::Angle => "Angle",
        VisitorKey::Ratio => "Ratio",
        VisitorKey::Resolution => "Resolution",
        VisitorKey::Time => "Time",
        VisitorKey::Color => "Color",
        VisitorKey::Image => "Image",
        VisitorKey::ImageExit => "ImageExit",
        VisitorKey::Url => "Url",
        VisitorKey::MediaQuery => "MediaQuery",
        VisitorKey::MediaQueryExit => "MediaQueryExit",
        VisitorKey::SupportsCondition => "SupportsCondition",
        VisitorKey::SupportsConditionExit => "SupportsConditionExit",
        VisitorKey::Variable => "Variable",
        VisitorKey::VariableExit => "VariableExit",
        VisitorKey::EnvironmentVariable => "EnvironmentVariable",
        VisitorKey::EnvironmentVariableExit => "EnvironmentVariableExit",
        VisitorKey::CustomIdent => "CustomIdent",
        VisitorKey::DashedIdent => "DashedIdent",
        VisitorKey::Function => "Function",
        VisitorKey::FunctionExit => "FunctionExit",
        VisitorKey::Selector => "Selector",
        VisitorKey::Token => "Token",
    }
}

/// The key at position `i` among the visitor keys.
pub fn key_at(i: usize) -> (key: VisitorKey)
    requires
        i < KEY_COUNT,
    ensures
        key == spec_key_at(i as int),
        key_index(key) == i,
{
    if i == 0 { VisitorKey::Rule }
    else if i == 1 { VisitorKey::RuleExit }
    else if i == 2 { VisitorKey::Declaration }
    else if i == 3 { VisitorKey::DeclarationExit }
    else if i == 4 { VisitorKey::Length }
    else if i == 5 { VisitorKey::Angle }
    else if i == 6 { VisitorKey::Ratio }
    else if i == 7 { VisitorKey::Resolution }
    else if i == 8 { VisitorKey::Time }
    else if i == 9 { VisitorKey::Color }
    else if i == 10 { VisitorKey::Image }
    else if i == 11 { VisitorKey::ImageExit }
    else if i == 12 { VisitorKey::Url }
    else if i == 13 { VisitorKey::MediaQuery }
    else if i == 14 { VisitorKey::MediaQueryExit }
    else if i == 15 { VisitorKey::SupportsCondition }
    else if i == 16 { VisitorKey::SupportsConditionExit }
    else if i == 17 { VisitorKey::Variable }
    else if i == 18 { VisitorKey::VariableExit }
    else if i == 19 { VisitorKey::EnvironmentVariable }
    else if i == 20 { VisitorKey::EnvironmentVariableExit }
    else if i == 21 { VisitorKey::CustomIdent }
    else if i == 22 { VisitorKey::DashedIdent }
    else if i == 23 { VisitorKey::Function }
    else if i == 24 { VisitorKey::FunctionExit }
    else if i == 25 { VisitorKey::Selector }
    else { VisitorKey::Token }
}

/// The position of `key` among the visitor keys.
pub fn index_of_key(key: VisitorKey) -> (i: usize)
    ensures
        i == key_index(key),
        i < KEY_COUNT,
{
    match key {
        VisitorKey::Rule => 0,
        VisitorKey::RuleExit => 1,
        VisitorKey::Declaration => 2,
        VisitorKey::DeclarationExit => 3,
        VisitorKey::Length => 4,
        VisitorKey::Angle => 5,
        VisitorKey::Ratio => 6,
        VisitorKey::Resolution => 7,
        VisitorKey::Time => 8,
        VisitorKey::Color => 9,
        VisitorKey::Image => 10,
        VisitorKey::ImageExit => 11,
        VisitorKey::Url => 12,
        VisitorKey::MediaQuery => 13,
        VisitorKey::MediaQueryExit => 14,
        VisitorKey::SupportsCondition => 15,
        VisitorKey::SupportsConditionExit => 16,
        VisitorKey::Variable => 17,
        VisitorKey::VariableExit => 18,
        VisitorKey::EnvironmentVariable => 19,
        VisitorKey::EnvironmentVariableExit => 20,
        VisitorKey::CustomIdent => 21,
        VisitorKey::DashedIdent => 22,
        VisitorKey::Function => 23,
        VisitorKey::FunctionExit => 24,
        VisitorKey::Selector => 25,
        VisitorKey::Token => 26,
    }
}

/// The `VisitTypes` of the node kinds that a visitor under `key` asks to visit.
pub fn key_visit_types(key: VisitorKey) -> (types: VisitTypes)
    ensures
        visit_flags(types) == key_bits(key),
{
    let res = match key {
        VisitorKey::Rule | VisitorKey::RuleExit => visit_type(VisitKind::Rules),
        VisitorKey::Declaration | VisitorKey::DeclarationExit => visit_type(VisitKind::Properties),
        VisitorKey::Length => visit_type(VisitKind::Lengths),
        VisitorKey::Angle => visit_type(VisitKind::Angles),
        VisitorKey::Ratio => visit_type(VisitKind::Ratios),
        VisitorKey::Resolution => visit_type(VisitKind::Resolutions),
        VisitorKey::Time => visit_type(VisitKind::Times),
        VisitorKey::Color => visit_type(VisitKind::Colors),
        VisitorKey::Image | VisitorKey::ImageExit => visit_type(VisitKind::Images),
        VisitorKey::Url => visit_type(VisitKind::Urls),
        VisitorKey::MediaQuery | VisitorKey::MediaQueryExit => visit_type(VisitKind::MediaQueries),
        VisitorKey::SupportsCondition | VisitorKey::SupportsConditionExit => visit_type(VisitKind::SupportsConditions),
        VisitorKey::Variable | VisitorKey::VariableExit => visit_type(VisitKind::Tokens),
        VisitorKey::EnvironmentVariable | VisitorKey::EnvironmentVariableExit => {
            let tokens_and_media = union_visit_types(visit_type(VisitKind::Tokens), visit_type(VisitKind::MediaQueries));
            let all = union_visit_types(tokens_and_media, visit_type(VisitKind::EnvironmentVariables));
            assert(visit_flags(all) =~= key_bits(key));
            all
        },
        VisitorKey::CustomIdent => visit_type(VisitKind::CustomIdents),
        VisitorKey::DashedIdent => visit_type(VisitKind::DashedIdents),
        VisitorKey::Function | VisitorKey::FunctionExit => visit_type(VisitKind::Tokens),
        VisitorKey::Selector => visit_type(VisitKind::Selectors),
        VisitorKey::Token => visit_type(VisitKind::Tokens),
    };
    res
}

/// Whether the property under `key` is taken as a visitor.
pub fn is_taken(kinds: &Vec<JsKind>, key: VisitorKey) -> (res: bool)
    requires
        kinds.len() == KEY_COUNT,
    ensures
        res == key_taken(kinds@, key),
{
    let kind = kinds[index_of_key(key)];
    let by_name = match key {
        VisitorKey::Rule | VisitorKey::Declaration | VisitorKey::DeclarationExit
        | VisitorKey::EnvironmentVariable | VisitorKey::EnvironmentVariableExit
        | VisitorKey::Function | VisitorKey::FunctionExit | VisitorKey::Token => true,
        _ => false,
    };
    kind == JsKind::Function || (kind == JsKind::Object && by_name)
}

/// How the property under `key` is kept.
pub fn held_as(kinds: &Vec<JsKind>, key: VisitorKey) -> (res: JsKind)
    requires
        kinds.len() == KEY_COUNT,
    ensures
        res == spec_held(kinds@, key),
        (res != JsKind::Other) == key_taken(kinds@, key),
{
    let kind = kinds[index_of_key(key)];
    if kind == JsKind::Function {
        JsKind::Function
    } else if kind == JsKind::Object && is_taken(kinds, key) {
        JsKind::Object
    } else {
        JsKind::Other
    }
}

/// The node kinds that a visitor object asks to visit: those of every key
/// whose property is taken as a visitor.
pub fn requested_types(kinds: &Vec<JsKind>) -> (types: VisitTypes)
    requires
        kinds.len() == KEY_COUNT,
    ensures
        visit_flags(types) == requested_flags(kinds@),
{
    let mut types = no_visit_types();
    let mut i: usize = 0;
    while i < KEY_COUNT
        invariant
            i <= KEY_COUNT,
            kinds.len() == KEY_COUNT,
            visit_flags(types) == Set::new(|bit: u32| exists|j: int| 0 <= j < i
                && #[trigger] key_taken(kinds@, spec_key_at(j)) && key_bits(spec_key_at(j)).contains(bit)),
        decreases KEY_COUNT - i,
    {
        let key = key_at(i);
        let ghost before = visit_flags(types);
        if is_taken(kinds, key) {
            types = union_visit_types(types, key_visit_types(key));
        }
        assert(visit_flags(types) =~= Set::new(|bit: u32| exists|j: int| 0 <= j < i + 1
            && #[trigger] key_taken(kinds@, spec_key_at(j)) && key_bits(spec_key_at(j)).contains(bit))) by {
            assert forall|bit: u32| (exists|j: int| 0 <= j < i + 1
                && #[trigger] key_taken(kinds@, spec_key_at(j)) && key_bits(spec_key_at(j)).contains(bit))
                implies visit_flags(types).contains(bit) by {
                let j = choose|j: int| 0 <= j < i + 1
                    && #[trigger] key_taken(kinds@, spec_key_at(j)) && key_bits(spec_key_at(j)).contains(bit);
                if j < i {
                    assert(before.contains(bit));
                }
            }
        }
        i = i + 1;
    }
    assert(visit_flags(types) =~= requested_flags(kinds@)) by {
        assert forall|bit: u32| #[trigger] requested_flags(kinds@).contains(bit)
            implies visit_flags(types).contains(bit) by {
            let key = choose|key: VisitorKey| #[trigger] key_taken(kinds@, key) && key_bits(key).contains(bit);
            assert(spec_key_at(key_index(key)) == key);
            assert(key_taken(kinds@, spec_key_at(key_index(key))));
        }
        assert forall|bit: u32| visit_flags(types).contains(bit)
            implies #[trigger] requested_flags(kinds@).contains(bit) by {
            let j = choose|j: int| 0 <= j < KEY_COUNT
                && #[trigger] key_taken(kinds@, spec_key_at(j)) && key_bits(spec_key_at(j)).contains(bit);
            assert(key_taken(kinds@, spec_key_at(j)));
        }
    }
    types
}

/// Decides how each property of a JavaScript visitor object is kept, and
/// which node kinds it asks to visit. `kinds[key_index(k)]` is what the object
/// holds under key `k`.
pub fn plan_visitor(kinds: &Vec<JsKind>) -> (plan: VisitorPlan)
    requires
        kinds.len() == KEY_COUNT,
    ensures
        plan.held@.len() == KEY_COUNT,
        forall|key: VisitorKey| #[trigger] plan.held@[key_index(key)] == spec_held(kinds@, key),
        visit_flags(plan.types) == requested_flags(kinds@),
{
    let mut held: Vec<JsKind> = Vec::new();
    let mut i: usize = 0;
    while i < KEY_COUNT
        invariant
            i <= KEY_COUNT,
            kinds.len() == KEY_COUNT,
            held@.len() == i,
            forall|j: int| 0 <= j < i ==> #[trigger] held@[j] == spec_held(kinds@, spec_key_at(j)),
        decreases KEY_COUNT - i,
    {
        let key = key_at(i);
        held.push(held_as(kinds, key));
        i = i + 1;
    }
    assert forall|key: VisitorKey| #[trigger] held@[key_index(key)] == spec_held(kinds@, key) by {
        assert(spec_key_at(key_index(key)) == key);
    }
    VisitorPlan { held, types: requested_types(kinds) }
}

/// A property kept as a visitor never goes unused: the node kinds it visits
/// are among those that the visitor object asks to visit.
pub proof fn kept_visitor_kinds_are_visited(kinds: Seq<JsKind>, key: VisitorKey)
    requires
        kinds.len() == KEY_COUNT,
        spec_held(kinds, key) != JsKind::Other,
    ensures
        key_bits(key).subset_of(requested_flags(kinds)),
{
    assert(key_taken(kinds, key));
    assert forall|bit: u32| key_bits(key).contains(bit) implies #[trigger] requested_flags(kinds).contains(bit) by {
        assert(key_taken(kinds, key) && key_bits(key).contains(bit));
    }
}

/// The flags of the node kinds that a visitor object may ask to visit: every
/// flag but those of variables and functions, which no key carries.
pub open spec fn visitable_flags() -> Set<u32> {
    set![
        kind_bit(VisitKind::Rules),
        kind_bit(VisitKind::Properties),
        kind_bit(VisitKind::Lengths),
        kind_bit(VisitKind::Angles),
        kind_bit(VisitKind::Ratios),
        kind_bit(VisitKind::Resolutions),
        kind_bit(VisitKind::Times),
        kind_bit(VisitKind::Colors),
        kind_bit(VisitKind::Images),
        kind_bit(VisitKind::Urls),
        kind_bit(VisitKind::MediaQueries),
        kind_bit(VisitKind::SupportsConditions),
        kind_bit(VisitKind::Tokens),
        kind_bit(VisitKind::EnvironmentVariables),
        kind_bit(VisitKind::CustomIdents),
        kind_bit(VisitKind::DashedIdents),
        kind_bit(VisitKind::Selectors),
    ]
}

/// Whatever the visitor object holds, visiting environment variables brings
/// visiting tokens and media queries with it (an `env()` stands in both), and
/// no flag is asked for but those of [`visitable_flags`].
pub proof fn requested_flags_are_consistent(kinds: Seq<JsKind>)
    requires
        kinds.len() == KEY_COUNT,
    ensures
        requested_flags(kinds).contains(kind_bit(VisitKind::EnvironmentVariables)) ==> {
            &&& requested_flags(kinds).contains(kind_bit(VisitKind::Tokens))
            &&& requested_flags(kinds).contains(kind_bit(VisitKind::MediaQueries))
        },
        requested_flags(kinds).subset_of(visitable_flags()),
{
    let env = kind_bit(VisitKind::EnvironmentVariables);
    if requested_flags(kinds).contains(env) {
        let key = choose|key: VisitorKey| #[trigger] key_taken(kinds, key) && key_bits(key).contains(env);
        assert(key == VisitorKey::EnvironmentVariable || key == VisitorKey::EnvironmentVariableExit);
        assert(key_bits(key).contains(kind_bit(VisitKind::Tokens)));
        assert(key_bits(key).contains(kind_bit(VisitKind::MediaQueries)));
    }
    assert forall|bit: u32| #[trigger] requested_flags(kinds).contains(bit) implies visitable_flags().contains(bit) by {
        let key = choose|key: VisitorKey| #[trigger] key_taken(kinds, key) && key_bits(key).contains(bit);
        assert(key_bits(key).subset_of(visitable_flags()));
    }
}

/// A visitor object with no function and no object under any key asks to
/// visit nothing.
pub proof fn empty_visitor_visits_nothing(kinds: Seq<JsKind>)
    requires
        kinds.len() == KEY_COUNT,
        forall|i: int| 0 <= i < KEY_COUNT ==> kinds[i] == JsKind::Other,
    ensures
        requested_flags(kinds) == Set::<u32>::empty(),
{
    assert forall|bit: u32| !#[trigger] requested_flags(kinds).contains(bit) by {
        if requested_flags(kinds).contains(bit) {
            let key = choose|key: VisitorKey| #[trigger] key_taken(kinds, key) && key_bits(key).contains(bit);
            assert(kinds[key_index(key)] == JsKind::Other);
        }
    }
    assert(requested_flags(kinds) =~= Set::<u32>::empty());
}

} // verus!
