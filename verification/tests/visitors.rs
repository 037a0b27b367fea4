use lightningcss::visitor::VisitTypes;
use lightningcss_node::dispatch::{
    custom_lookup, media_env_replacement, rule_name, token_type_name, visits_media_env, CustomLookup, EnvValueKind,
    InvalidMediaEnvValue, MediaValueKind, RuleKind, TokenType, TokenValueKind,
};
use lightningcss_node::list::{
    fill_step, finish_node, map_step, plan_exit, try_fill_step, try_map_step, ExitDone, ExitPlan, ValueOrVec,
};
use lightningcss_node::routes::{
    declaration_route, env_route, resolve, rule_route, token_route, value_route, Lookup, TokenName, ValueKind,
};
use lightningcss_node::outcome::{apply_answer, record_error};
use lightningcss_node::plan::{key_at, key_name, plan_visitor, JsKind, VisitorKey, KEY_COUNT};
use lightningcss_node::plan::{key_visit_types, requested_types};
use lightningcss_node::types::{flag_bit, visit_type, visits_kind, VisitKind};
use lightningcss_node::visitors::{choose_visitor, VisitStage, Visitors};

fn value_of(answer: &Option<ValueOrVec<u32>>) -> Vec<u32> {
    match answer {
        None => vec![],
        Some(ValueOrVec::Value(v)) => vec![*v],
        Some(ValueOrVec::Vec(v)) => v.clone(),
    }
}

/// Walks `list` as the bridge does, the visitor answering `answers[k]` for the
/// `k`-th node it is handed.
fn walk(list: &mut Vec<u32>, answers: Vec<Option<ValueOrVec<u32>>>) -> Vec<u32> {
    let mut seen = vec![];
    let mut answers = answers.into_iter();
    let mut i = 0;
    while i < list.len() {
        seen.push(list[i]);
        let answer = answers.next().unwrap();
        i = map_step(list, i, answer);
    }
    seen
}

#[test]
fn visitors_pick_by_stage() {
    let v = Visitors::new(Some(1), Some(2));
    assert_eq!(v.for_stage(VisitStage::Enter), Some(&1));
    assert_eq!(v.for_stage(VisitStage::Exit), Some(&2));
    let only_enter: Visitors<u32> = Visitors::new(Some(5), None);
    assert_eq!(only_enter.for_stage(VisitStage::Enter), Some(&5));
    assert_eq!(only_enter.for_stage(VisitStage::Exit), None);
}

#[test]
fn specific_visitor_wins_over_general() {
    assert_eq!(choose_visitor(Some("media"), Some("rule")), Some("media"));
    assert_eq!(choose_visitor(None, Some("rule")), Some("rule"));
    assert_eq!(choose_visitor(Some("media"), None), Some("media"));
    assert_eq!(choose_visitor::<&str>(None, None), None);
}

#[test]
fn no_answer_keeps_node() {
    let mut list = vec![1, 2, 3];
    assert_eq!(map_step(&mut list, 1, None), 2);
    assert_eq!(list, vec![1, 2, 3]);
}

#[test]
fn value_answer_replaces_node() {
    let mut list = vec![1, 2, 3];
    assert_eq!(map_step(&mut list, 2, Some(ValueOrVec::Value(9))), 3);
    assert_eq!(list, vec![1, 2, 9]);
}

#[test]
fn array_answer_splices_nodes_in() {
    let mut list = vec![1, 2, 3];
    assert_eq!(map_step(&mut list, 1, Some(ValueOrVec::Vec(vec![7, 8, 9]))), 4);
    assert_eq!(list, vec![1, 7, 8, 9, 3]);
    let mut list = vec![1, 2, 3];
    assert_eq!(map_step(&mut list, 0, Some(ValueOrVec::Vec(vec![4]))), 1);
    assert_eq!(list, vec![4, 2, 3]);
}

#[test]
fn empty_array_removes_node() {
    let mut list = vec![1, 2, 3];
    assert_eq!(map_step(&mut list, 1, Some(ValueOrVec::Vec(vec![]))), 1);
    assert_eq!(list, vec![1, 3]);
    let mut list = vec![1];
    assert_eq!(map_step(&mut list, 0, Some(ValueOrVec::Vec(vec![]))), 0);
    assert_eq!(list, Vec::<u32>::new());
}

#[test]
fn rule_lists_fill_removed_places() {
    let mut list = vec![1, 2, 3];
    assert_eq!(fill_step(&mut list, 1, Some(ValueOrVec::Vec(vec![])), 0), 1);
    assert_eq!(list, vec![1, 0, 3]);
    assert_eq!(fill_step(&mut list, 1, None, 0), 2);
    assert_eq!(list, vec![1, 0, 3]);
    assert_eq!(fill_step(&mut list, 2, Some(ValueOrVec::Vec(vec![5, 6])), 0), 4);
    assert_eq!(list, vec![1, 0, 5, 6]);
    assert_eq!(fill_step(&mut list, 0, Some(ValueOrVec::Value(4)), 0), 1);
    assert_eq!(list, vec![4, 0, 5, 6]);
}

#[test]
fn walk_visits_each_original_node_once() {
    let mut list = vec![10, 20, 30, 40];
    let answers = vec![
        Some(ValueOrVec::Vec(vec![11, 12])),
        Some(ValueOrVec::Vec(vec![])),
        None,
        Some(ValueOrVec::Value(41)),
    ];
    let expected: Vec<u32> = answers
        .iter()
        .zip([10, 20, 30, 40])
        .flat_map(|(a, n)| if a.is_none() { vec![n] } else { value_of(a) })
        .collect();
    let seen = walk(&mut list, answers);
    assert_eq!(seen, vec![10, 20, 30, 40]);
    assert_eq!(list, vec![11, 12, 30, 41]);
    assert_eq!(list, expected);
}

#[test]
fn exit_answer_overrides_enter_answer() {
    let r = finish_node(ExitDone::Replaced(1, Some(ValueOrVec::Value(2))));
    assert!(matches!(r, Some(ValueOrVec::Value(2))));
    let r = finish_node(ExitDone::Replaced(1, None));
    assert!(matches!(r, Some(ValueOrVec::Value(1))));
    let r = finish_node(ExitDone::Kept(Some(ValueOrVec::Vec(vec![3, 4]))));
    assert!(matches!(r, Some(ValueOrVec::Vec(v)) if v == vec![3, 4]));
    let r: Option<ValueOrVec<u32>> = finish_node(ExitDone::Kept(None));
    assert!(r.is_none());
    let r = finish_node(ExitDone::Expanded(vec![5, 6]));
    assert!(matches!(r, Some(ValueOrVec::Vec(v)) if v == vec![5, 6]));
}

#[test]
fn visit_type_flags_match_lightningcss() {
    let pairs = [
        (VisitKind::Rules, VisitTypes::RULES),
        (VisitKind::Properties, VisitTypes::PROPERTIES),
        (VisitKind::Urls, VisitTypes::URLS),
        (VisitKind::Colors, VisitTypes::COLORS),
        (VisitKind::Images, VisitTypes::IMAGES),
        (VisitKind::Lengths, VisitTypes::LENGTHS),
        (VisitKind::Angles, VisitTypes::ANGLES),
        (VisitKind::Ratios, VisitTypes::RATIOS),
        (VisitKind::Resolutions, VisitTypes::RESOLUTIONS),
        (VisitKind::Times, VisitTypes::TIMES),
        (VisitKind::CustomIdents, VisitTypes::CUSTOM_IDENTS),
        (VisitKind::DashedIdents, VisitTypes::DASHED_IDENTS),
        (VisitKind::Variables, VisitTypes::VARIABLES),
        (VisitKind::EnvironmentVariables, VisitTypes::ENVIRONMENT_VARIABLES),
        (VisitKind::MediaQueries, VisitTypes::MEDIA_QUERIES),
        (VisitKind::SupportsConditions, VisitTypes::SUPPORTS_CONDITIONS),
        (VisitKind::Selectors, VisitTypes::SELECTORS),
        (VisitKind::Functions, VisitTypes::FUNCTIONS),
        (VisitKind::Tokens, VisitTypes::TOKENS),
    ];
    for (kind, flag) in pairs {
        assert!(visit_type(kind) == flag);
        assert_eq!(flag_bit(kind), flag.bits());
    }
}

#[test]
fn visit_types_union_and_contains() {
    let both = requested_types(&kinds_with(&[(VisitorKey::Rule, JsKind::Function), (VisitorKey::Token, JsKind::Function)]));
    assert!(both == VisitTypes::RULES | VisitTypes::TOKENS);
    assert!(visits_kind(&both, VisitKind::Rules));
    assert!(visits_kind(&both, VisitKind::Tokens));
    assert!(!visits_kind(&both, VisitKind::Properties));
    assert!(!visits_kind(&both, VisitKind::Colors));
    let empty = requested_types(&vec![JsKind::Other; KEY_COUNT]);
    assert!(empty == VisitTypes::empty());
    assert!(!visits_kind(&empty, VisitKind::Rules));
    assert!(!visits_kind(&VisitTypes::TOKENS, VisitKind::Rules));
    assert!(visits_kind(&VisitTypes::all(), VisitKind::Selectors));
}

#[test]
fn key_flags() {
    assert!(key_visit_types(VisitorKey::EnvironmentVariableExit)
        == VisitTypes::TOKENS | VisitTypes::MEDIA_QUERIES | VisitTypes::ENVIRONMENT_VARIABLES);
    assert!(key_visit_types(VisitorKey::FunctionExit) == VisitTypes::TOKENS);
    assert!(key_visit_types(VisitorKey::Variable) == VisitTypes::TOKENS);
    assert!(key_visit_types(VisitorKey::ImageExit) == VisitTypes::IMAGES);
    assert!(key_visit_types(VisitorKey::DeclarationExit) == VisitTypes::PROPERTIES);
    assert!(key_visit_types(VisitorKey::Selector) == VisitTypes::SELECTORS);
}

#[test]
fn keys_are_named_as_the_visitor_object_spells_them() {
    let names: Vec<&str> = (0..KEY_COUNT).map(|i| key_name(key_at(i))).collect();
    assert_eq!(
        names,
        vec![
            "Rule",
            "RuleExit",
            "Declaration",
            "DeclarationExit",
            "Length",
            "Angle",
            "Ratio",
            "Resolution",
            "Time",
            "Color",
            "Image",
            "ImageExit",
            "Url",
            "MediaQuery",
            "MediaQueryExit",
            "SupportsCondition",
            "SupportsConditionExit",
            "Variable",
            "VariableExit",
            "EnvironmentVariable",
            "EnvironmentVariableExit",
            "CustomIdent",
            "DashedIdent",
            "Function",
            "FunctionExit",
            "Selector",
            "Token",
        ]
    );
}

fn kinds_with(entries: &[(VisitorKey, JsKind)]) -> Vec<JsKind> {
    let mut kinds = vec![JsKind::Other; KEY_COUNT];
    for i in 0..KEY_COUNT {
        for (key, kind) in entries {
            if key_at(i) == *key {
                kinds[i] = *kind;
            }
        }
    }
    kinds
}

fn held_at(held: &[JsKind], key: VisitorKey) -> JsKind {
    held[(0..KEY_COUNT).find(|i| key_at(*i) == key).unwrap()]
}

fn found(held: &Vec<JsKind>, lookup: Option<Lookup>) -> Option<VisitorKey> {
    resolve(held, lookup).map(key_at)
}

#[test]
fn empty_visitor_object_visits_nothing() {
    let plan = plan_visitor(&vec![JsKind::Other; KEY_COUNT]);
    assert!(plan.types == VisitTypes::empty());
    assert_eq!(plan.held, vec![JsKind::Other; KEY_COUNT]);
    assert_eq!(found(&plan.held, rule_route(VisitStage::Enter).general), None);
    assert_eq!(found(&plan.held, value_route(ValueKind::Selector, VisitStage::Enter)), None);
}

#[test]
fn rule_function_and_exit_object() {
    let kinds = kinds_with(&[(VisitorKey::Rule, JsKind::Function), (VisitorKey::RuleExit, JsKind::Object)]);
    let plan = plan_visitor(&kinds);
    assert_eq!(held_at(&plan.held, VisitorKey::Rule), JsKind::Function);
    // RuleExit is never read as an object of visitors by name.
    assert_eq!(held_at(&plan.held, VisitorKey::RuleExit), JsKind::Other);
    assert_eq!(found(&plan.held, rule_route(VisitStage::Enter).general), Some(VisitorKey::Rule));
    assert_eq!(found(&plan.held, rule_route(VisitStage::Enter).by_name), None);
    assert_eq!(found(&plan.held, rule_route(VisitStage::Exit).general), None);
    assert_eq!(found(&plan.held, rule_route(VisitStage::Exit).by_name), None);
    assert!(plan.types == VisitTypes::RULES);
}

#[test]
fn rule_object_keeps_a_map_of_rule_visitors() {
    let kinds = kinds_with(&[(VisitorKey::Rule, JsKind::Object), (VisitorKey::RuleExit, JsKind::Function)]);
    let plan = plan_visitor(&kinds);
    assert_eq!(found(&plan.held, rule_route(VisitStage::Enter).general), None);
    assert_eq!(found(&plan.held, rule_route(VisitStage::Enter).by_name), Some(VisitorKey::Rule));
    assert_eq!(found(&plan.held, rule_route(VisitStage::Exit).general), Some(VisitorKey::RuleExit));
    assert_eq!(found(&plan.held, rule_route(VisitStage::Exit).by_name), Some(VisitorKey::RuleExit));
    assert!(plan.types == VisitTypes::RULES);
}

#[test]
fn object_under_a_function_only_key_is_ignored() {
    let kinds = kinds_with(&[(VisitorKey::Length, JsKind::Object), (VisitorKey::Color, JsKind::Function)]);
    let plan = plan_visitor(&kinds);
    assert_eq!(held_at(&plan.held, VisitorKey::Length), JsKind::Other);
    assert_eq!(found(&plan.held, value_route(ValueKind::Length, VisitStage::Enter)), None);
    assert_eq!(found(&plan.held, value_route(ValueKind::Color, VisitStage::Enter)), Some(VisitorKey::Color));
    assert!(plan.types == VisitTypes::COLORS);
}

#[test]
fn environment_variables_visit_tokens_and_media_queries() {
    let kinds = kinds_with(&[(VisitorKey::EnvironmentVariableExit, JsKind::Object)]);
    let plan = plan_visitor(&kinds);
    let exit = env_route(VisitStage::Exit);
    assert_eq!(found(&plan.held, exit.by_name), Some(VisitorKey::EnvironmentVariableExit));
    assert_eq!(found(&plan.held, exit.general), None);
    assert!(plan.types == VisitTypes::TOKENS | VisitTypes::MEDIA_QUERIES | VisitTypes::ENVIRONMENT_VARIABLES);
}

#[test]
fn every_key_sets_its_flags() {
    let kinds = vec![JsKind::Function; KEY_COUNT];
    let plan = plan_visitor(&kinds);
    let expected = VisitTypes::RULES
        | VisitTypes::PROPERTIES
        | VisitTypes::LENGTHS
        | VisitTypes::ANGLES
        | VisitTypes::RATIOS
        | VisitTypes::RESOLUTIONS
        | VisitTypes::TIMES
        | VisitTypes::COLORS
        | VisitTypes::IMAGES
        | VisitTypes::URLS
        | VisitTypes::MEDIA_QUERIES
        | VisitTypes::SUPPORTS_CONDITIONS
        | VisitTypes::TOKENS
        | VisitTypes::ENVIRONMENT_VARIABLES
        | VisitTypes::CUSTOM_IDENTS
        | VisitTypes::DASHED_IDENTS
        | VisitTypes::SELECTORS;
    assert!(plan.types == expected);
    assert!(!plan.types.contains(VisitTypes::VARIABLES));
    assert!(!plan.types.contains(VisitTypes::FUNCTIONS));
    assert_eq!(plan.held, vec![JsKind::Function; KEY_COUNT]);
    let token = token_route(TokenValueKind::Token(TokenType::Ident), VisitStage::Enter).unwrap();
    assert_eq!(found(&plan.held, token.general), Some(VisitorKey::Token));
    assert_eq!(found(&plan.held, token.by_name.map(|(l, _)| l)), None);
    let function = token_route(TokenValueKind::Function, VisitStage::Exit).unwrap();
    assert_eq!(found(&plan.held, function.general), Some(VisitorKey::FunctionExit));
}

#[test]
fn selector_and_token_objects() {
    let kinds = kinds_with(&[(VisitorKey::Selector, JsKind::Object), (VisitorKey::Token, JsKind::Object)]);
    let plan = plan_visitor(&kinds);
    assert_eq!(found(&plan.held, value_route(ValueKind::Selector, VisitStage::Enter)), None);
    let token = token_route(TokenValueKind::Token(TokenType::Number), VisitStage::Enter).unwrap();
    assert_eq!(found(&plan.held, token.by_name.map(|(l, _)| l)), Some(VisitorKey::Token));
    assert_eq!(token.by_name.map(|(_, n)| n), Some(TokenName::TokenType(TokenType::Number)));
    assert!(plan.types == VisitTypes::TOKENS);
}

#[test]
fn token_routes() {
    let f = |key| Some(Lookup { key, held: JsKind::Function });
    let o = |key| Lookup { key, held: JsKind::Object };
    let r = token_route(TokenValueKind::Token(TokenType::Other), VisitStage::Enter).unwrap();
    assert_eq!(r.general, f(VisitorKey::Token));
    assert_eq!(r.by_name, None);
    let r = token_route(TokenValueKind::Token(TokenType::Hash), VisitStage::Exit).unwrap();
    assert_eq!(r.general, None);
    assert_eq!(r.by_name, None);
    let r = token_route(TokenValueKind::Var, VisitStage::Exit).unwrap();
    assert_eq!(r.general, f(VisitorKey::VariableExit));
    assert_eq!(r.by_name, None);
    let r = token_route(TokenValueKind::Env, VisitStage::Enter).unwrap();
    assert_eq!(r.general, f(VisitorKey::EnvironmentVariable));
    assert_eq!(r.by_name, Some((o(VisitorKey::EnvironmentVariable), TokenName::EnvironmentVariableName)));
    let r = token_route(TokenValueKind::Function, VisitStage::Enter).unwrap();
    assert_eq!(r.general, f(VisitorKey::Function));
    assert_eq!(r.by_name, Some((o(VisitorKey::Function), TokenName::FunctionName)));
    assert_eq!(token_route(TokenValueKind::Other, VisitStage::Enter), None);
}

#[test]
fn declaration_and_value_routes() {
    let r = declaration_route(VisitStage::Exit);
    assert_eq!(r.general, Some(Lookup { key: VisitorKey::DeclarationExit, held: JsKind::Function }));
    assert_eq!(r.by_name, Some(Lookup { key: VisitorKey::DeclarationExit, held: JsKind::Object }));
    assert_eq!(value_route(ValueKind::Length, VisitStage::Exit), None);
    assert_eq!(
        value_route(ValueKind::Image, VisitStage::Exit),
        Some(Lookup { key: VisitorKey::ImageExit, held: JsKind::Function })
    );
    assert_eq!(
        value_route(ValueKind::SupportsCondition, VisitStage::Enter),
        Some(Lookup { key: VisitorKey::SupportsCondition, held: JsKind::Function })
    );
    assert_eq!(
        value_route(ValueKind::MediaQuery, VisitStage::Exit),
        Some(Lookup { key: VisitorKey::MediaQueryExit, held: JsKind::Function })
    );
}

#[test]
fn failed_step_leaves_list_and_ends_walk() {
    let mut list = vec![1, 2, 3];
    assert_eq!(try_map_step(&mut list, 1, Err::<Option<ValueOrVec<u32>>, &str>("bad")), Err("bad"));
    assert_eq!(list, vec![1, 2, 3]);
    assert_eq!(try_map_step::<u32, &str>(&mut list, 1, Ok(Some(ValueOrVec::Vec(vec![]))) ), Ok(1));
    assert_eq!(list, vec![1, 3]);
    assert_eq!(try_fill_step(&mut list, 0, Err::<Option<ValueOrVec<u32>>, &str>("bad"), 0), Err("bad"));
    assert_eq!(list, vec![1, 3]);
    assert_eq!(try_fill_step::<u32, &str>(&mut list, 0, Ok(Some(ValueOrVec::Vec(vec![]))), 0), Ok(0));
    assert_eq!(list, vec![0, 3]);
}

#[test]
fn walk_stops_at_first_failure() {
    let mut list = vec![10, 20, 30, 40];
    let answers: Vec<Result<Option<ValueOrVec<u32>>, &str>> =
        vec![Ok(Some(ValueOrVec::Vec(vec![11, 12]))), Ok(None), Err("third"), Ok(Some(ValueOrVec::Value(41)))];
    let mut answers = answers.into_iter();
    let mut i = 0;
    let mut error = None;
    while i < list.len() {
        list[i] += 1; // the visitor's own change to the node
        match try_map_step(&mut list, i, answers.next().unwrap()) {
            Ok(next) => i = next,
            Err(e) => {
                error = Some(e);
                break;
            }
        }
    }
    assert_eq!(error, Some("third"));
    assert_eq!(list, vec![11, 12, 21, 31, 40]);
}

#[test]
fn rule_walk_visits_each_rule_once_plus_placeholders() {
    let mut list = vec![1, 2, 3];
    let mut answers = vec![
        Some(ValueOrVec::Vec(vec![])),
        Some(ValueOrVec::Vec(vec![7, 8])),
        Some(ValueOrVec::Vec(vec![])),
    ]
    .into_iter();
    let mut seen = vec![];
    let mut i = 0;
    while i < list.len() {
        seen.push(list[i]);
        // The placeholder is left as it is; the original rules get their answers.
        let answer = if list[i] == 0 { None } else { answers.next().unwrap() };
        i = fill_step(&mut list, i, answer, 0);
    }
    assert_eq!(seen, vec![1, 0, 2, 3, 0]);
    assert_eq!(list, vec![0, 7, 8, 0]);
}

#[test]
fn rule_names() {
    let table = [
        (RuleKind::Media, Some("media")),
        (RuleKind::Import, Some("import")),
        (RuleKind::Style, Some("style")),
        (RuleKind::Keyframes, Some("keyframes")),
        (RuleKind::FontFace, Some("font-face")),
        (RuleKind::FontPaletteValues, Some("font-palette-values")),
        (RuleKind::Page, Some("page")),
        (RuleKind::Supports, Some("supports")),
        (RuleKind::CounterStyle, Some("counter-style")),
        (RuleKind::Namespace, Some("namespace")),
        (RuleKind::CustomMedia, Some("custom-media")),
        (RuleKind::LayerBlock, Some("layer-block")),
        (RuleKind::LayerStatement, Some("layer-statement")),
        (RuleKind::Property, Some("property")),
        (RuleKind::Container, Some("container")),
        (RuleKind::MozDocument, Some("moz-document")),
        (RuleKind::Nesting, Some("nesting")),
        (RuleKind::Viewport, Some("viewport")),
        (RuleKind::Scope, Some("scope")),
        (RuleKind::StartingStyle, Some("starting-style")),
        (RuleKind::Unknown, Some("unknown")),
        (RuleKind::Ignored, None),
        (RuleKind::Custom, None),
    ];
    for (kind, name) in table {
        assert_eq!(rule_name(kind), name);
    }
}

#[test]
fn token_names() {
    assert_eq!(token_type_name(TokenType::Ident), Some("ident"));
    assert_eq!(token_type_name(TokenType::AtKeyword), Some("at-keyword"));
    assert_eq!(token_type_name(TokenType::Hash), Some("hash"));
    assert_eq!(token_type_name(TokenType::IdHash), Some("id-hash"));
    assert_eq!(token_type_name(TokenType::String), Some("string"));
    assert_eq!(token_type_name(TokenType::Number), Some("number"));
    assert_eq!(token_type_name(TokenType::Percentage), Some("percentage"));
    assert_eq!(token_type_name(TokenType::Dimension), Some("dimension"));
    assert_eq!(token_type_name(TokenType::Other), None);

}

#[test]
fn custom_visitors_by_property_kind() {
    assert_eq!(custom_lookup(JsKind::Function), CustomLookup::Direct);
    assert_eq!(custom_lookup(JsKind::Object), CustomLookup::ByName);
    assert_eq!(custom_lookup(JsKind::Other), CustomLookup::Missing);
}

#[test]
fn media_env_values() {
    assert_eq!(media_env_replacement(None), Ok(None));
    assert_eq!(media_env_replacement(Some(EnvValueKind::Length)), Ok(Some(MediaValueKind::Length)));
    assert_eq!(media_env_replacement(Some(EnvValueKind::Resolution)), Ok(Some(MediaValueKind::Resolution)));
    assert_eq!(media_env_replacement(Some(EnvValueKind::Number)), Ok(Some(MediaValueKind::Number)));
    assert_eq!(media_env_replacement(Some(EnvValueKind::Ident)), Ok(Some(MediaValueKind::Ident)));
    assert_eq!(media_env_replacement(Some(EnvValueKind::Other)), Err(InvalidMediaEnvValue));
}

#[test]
fn media_env_needs_env_value_and_flag() {
    let env = VisitTypes::ENVIRONMENT_VARIABLES | VisitTypes::TOKENS;
    assert!(visits_media_env(&env, true));
    assert!(!visits_media_env(&env, false));
    assert!(!visits_media_env(&VisitTypes::MEDIA_QUERIES, true));
}

#[test]
fn errors_are_kept_in_order() {
    let mut errors: Vec<&str> = vec!["first"];
    assert_eq!(record_error(Ok::<u32, &str>(3), &mut errors), Some(3));
    assert_eq!(errors, vec!["first"]);
    assert_eq!(record_error(Err::<u32, &str>("second"), &mut errors), None);
    assert_eq!(errors, vec!["first", "second"]);
}

#[test]
fn answers_for_single_values() {
    let mut errors: Vec<&str> = vec![];
    let mut value = 1;
    apply_answer(&mut value, Ok(Some(2)), &mut errors);
    assert_eq!(value, 2);
    apply_answer(&mut value, Ok(None), &mut errors);
    assert_eq!(value, 2);
    apply_answer(&mut value, Err("bad"), &mut errors);
    assert_eq!(value, 2);
    assert_eq!(errors, vec!["bad"]);
}

#[test]
fn exit_plan_follows_enter_answer() {
    assert!(matches!(plan_exit(Some(ValueOrVec::Value(3u32))), ExitPlan::Replaced(3)));
    assert!(matches!(plan_exit(Some(ValueOrVec::Vec(vec![1u32, 2]))), ExitPlan::Expanded(v) if v == vec![1, 2]));
    assert!(matches!(plan_exit::<u32>(None), ExitPlan::Kept));
}

#[test]
fn one_node_array_acts_as_node() {
    let mut a = vec![1, 2, 3];
    let mut b = vec![1, 2, 3];
    let na = map_step(&mut a, 1, Some(ValueOrVec::Vec(vec![5])));
    let nb = map_step(&mut b, 1, Some(ValueOrVec::Value(5)));
    assert_eq!(a, b);
    assert_eq!(na, nb);
}
