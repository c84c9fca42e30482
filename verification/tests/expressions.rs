use bevy::animation::AnimationTargetId;
use bevy::prelude::Name;
use bevy_vrm1::system_param::child_searcher::ChildSearcher;
use bevy_vrm1::vrm::expressions::{
    apply_initialize_expressions, convert_to_node, expression_setups, obtain_expression_nodes,
    BindExpressionNode, ExpressionNode, MorphTargetBind, Preset, VrmExpressionRegistry,
};
use bevy_vrm1::vrm::{Vrm, VrmExpression};
use bevy_vrm1::vrma::animation::animation_graph::{
    apply_regenerate_expression_clips, expression_replacements,
};
use bevy_vrm1::vrma::animation::expressions::VrmaExpressionNames;
use bevy_vrm1::vrma::animation::AnimationTargets;

const VRM: u64 = 1;
const FACE: u64 = 2;
const BODY: u64 = 3;
const EXPRESSIONS: u64 = 4;
const HAPPY: u64 = 5;
const SAD: u64 = 6;
const ANGRY: u64 = 7;
const VRMA: u64 = 10;
const CLIP_HAPPY: u64 = 11;
const CLIP_SAD: u64 = 12;
const CLIP_ANGRY: u64 = 13;

fn target(name: &str) -> AnimationTargetId {
    AnimationTargetId::from_name(&Name::new(name.to_string()))
}

fn node_names() -> Vec<Option<String>> {
    vec![Some("Face".to_string()), None, Some("Body".to_string())]
}

fn bind(node: usize, index: usize) -> MorphTargetBind {
    MorphTargetBind { node, index }
}

fn preset(name: &str, binds: Option<Vec<MorphTargetBind>>) -> Preset {
    Preset { name: name.to_string(), morph_target_binds: binds }
}

fn registry() -> VrmExpressionRegistry {
    VrmExpressionRegistry::new(
        &vec![
            preset("happy", Some(vec![bind(0, 3), bind(1, 4), bind(2, 5), bind(9, 6)])),
            preset("sad", Some(vec![bind(1, 0)])),
            preset("angry", None),
        ],
        &node_names(),
    )
}

/// 1 avatar
/// ├── 2 "Face"
/// ├── 3 "Body"
/// ├── 4 expressions
/// │   ├── 5 "happy"
/// │   ├── 6 "sad"
/// │   └── 7 "angry"
/// └── 10 clip
///     ├── 11 "happy"
///     ├── 12 "sad"
///     └── 13 "angry"
fn scene() -> ChildSearcher {
    let mut searcher = ChildSearcher::new();
    assert!(searcher.spawn(VRM, None, None));
    assert!(searcher.spawn_child(VRM, FACE, Some("Face".to_string()), None));
    assert!(searcher.spawn_child(VRM, BODY, Some("Body".to_string()), None));
    assert!(searcher.spawn_child(VRM, EXPRESSIONS, Some(Vrm::EXPRESSIONS_ROOT.to_string()), None));
    assert!(searcher.spawn_child(EXPRESSIONS, HAPPY, Some("happy".to_string()), None));
    assert!(searcher.spawn_child(EXPRESSIONS, SAD, Some("sad".to_string()), None));
    assert!(searcher.spawn_child(EXPRESSIONS, ANGRY, Some("angry".to_string()), None));
    assert!(searcher.spawn_child(VRM, VRMA, None, None));
    assert!(searcher.spawn_child(VRMA, CLIP_HAPPY, Some("happy".to_string()), None));
    assert!(searcher.spawn_child(VRMA, CLIP_SAD, Some("sad".to_string()), None));
    assert!(searcher.spawn_child(VRMA, CLIP_ANGRY, Some("angry".to_string()), None));
    searcher
}

fn targets(nodes: &[u64]) -> AnimationTargets {
    let mut targets = AnimationTargets::new();
    for node in nodes {
        targets.insert(*node, target(&format!("node{node}")));
    }
    targets
}

fn names(list: &[&str]) -> Vec<VrmExpression> {
    list.iter().map(|name| VrmExpression::new(name)).collect()
}

fn sorted_entries(registry: &VrmExpressionRegistry) -> Vec<(String, Vec<(String, usize)>)> {
    let mut entries: Vec<(String, Vec<(String, usize)>)> = registry
        .entries()
        .into_iter()
        .map(|(expression, nodes)| {
            (
                expression.0,
                nodes.into_iter().map(|node| (node.name, node.morph_target_index)).collect(),
            )
        })
        .collect();
    entries.sort();
    entries
}

#[test]
fn test_obtain_expression_nodes() {
    let registry = VrmExpressionRegistry::new(
        &vec![preset("happy", Some(vec![bind(0, 0)]))],
        &vec![Some("Test".to_string())],
    );
    let mut searcher = ChildSearcher::new();
    let vrm_entity = 1;
    assert!(searcher.spawn(vrm_entity, None, None));
    assert!(searcher.spawn_child(vrm_entity, 2, Some("Test".to_string()), None));

    let setups = apply_initialize_expressions(vrm_entity, &registry, &searcher);
    let expressions_root = 3;
    assert!(searcher.spawn_child(
        vrm_entity,
        expressions_root,
        Some(Vrm::EXPRESSIONS_ROOT.to_string()),
        None
    ));
    let mut next = 4;
    for setup in setups.iter() {
        assert!(searcher.spawn_child(expressions_root, next, Some(setup.expression.0.clone()), None));
        next += 1;
    }

    searcher.find_expressions_root(vrm_entity).expect("Expression root not found");
    searcher.find_from_name(vrm_entity, "happy").expect("Expression node not found");
    assert_eq!(setups.len(), 1);
    assert_eq!(setups[0].nodes.0, vec![BindExpressionNode { expression_entity: 2, index: 0 }]);
}

#[test]
fn bind_is_named_after_its_node() {
    let node = convert_to_node(&bind(2, 7), &node_names()).unwrap();
    assert_eq!(node.name, "Body");
    assert_eq!(node.morph_target_index, 7);
}

#[test]
fn bind_without_a_named_node_gives_nothing() {
    assert!(convert_to_node(&bind(1, 7), &node_names()).is_none());
    assert!(convert_to_node(&bind(3, 7), &node_names()).is_none());
    assert!(convert_to_node(&bind(0, 7), &vec![]).is_none());
}

#[test]
fn expression_registry_keeps_the_binds_with_a_node() {
    assert_eq!(
        sorted_entries(&registry()),
        vec![
            ("happy".to_string(), vec![("Face".to_string(), 3), ("Body".to_string(), 5)]),
            ("sad".to_string(), vec![]),
        ]
    );
}

#[test]
fn expression_registry_takes_the_later_of_two_presets_of_one_name() {
    let registry = VrmExpressionRegistry::new(
        &vec![
            preset("happy", Some(vec![bind(0, 1)])),
            preset("happy", None),
            preset("happy", Some(vec![bind(2, 2)])),
        ],
        &node_names(),
    );
    assert_eq!(
        sorted_entries(&registry),
        vec![("happy".to_string(), vec![("Body".to_string(), 2)])]
    );
}

#[test]
fn expression_registry_of_no_expressions_is_empty() {
    assert!(VrmExpressionRegistry::new(&vec![], &node_names()).entries().is_empty());
    assert!(VrmExpressionRegistry::new(&vec![preset("happy", None)], &node_names())
        .entries()
        .is_empty());
}

#[test]
fn expression_nodes_are_found_by_name() {
    let nodes = vec![
        ExpressionNode { name: "Body".to_string(), morph_target_index: 5 },
        ExpressionNode { name: "Gone".to_string(), morph_target_index: 6 },
        ExpressionNode { name: "Face".to_string(), morph_target_index: 3 },
        ExpressionNode { name: "Face".to_string(), morph_target_index: 4 },
    ];
    assert_eq!(
        obtain_expression_nodes(VRM, &scene(), &nodes),
        vec![
            BindExpressionNode { expression_entity: BODY, index: 5 },
            BindExpressionNode { expression_entity: FACE, index: 3 },
            BindExpressionNode { expression_entity: FACE, index: 4 },
        ]
    );
    assert_eq!(obtain_expression_nodes(VRMA, &scene(), &nodes), vec![]);
    assert_eq!(obtain_expression_nodes(VRM, &scene(), &vec![]), vec![]);
}

#[test]
fn every_expression_is_set_up_once() {
    let mut setups: Vec<(String, Vec<BindExpressionNode>)> =
        apply_initialize_expressions(VRM, &registry(), &scene())
            .into_iter()
            .map(|setup| (setup.expression.0, setup.nodes.0))
            .collect();
    setups.sort_by(|a, b| a.0.cmp(&b.0));
    assert_eq!(
        setups,
        vec![
            (
                "happy".to_string(),
                vec![
                    BindExpressionNode { expression_entity: FACE, index: 3 },
                    BindExpressionNode { expression_entity: BODY, index: 5 },
                ]
            ),
            ("sad".to_string(), vec![]),
        ]
    );
}

#[test]
fn expression_setups_follow_the_order_of_the_pairs() {
    let pairs = vec![
        (
            VrmExpression::new("sad"),
            vec![ExpressionNode { name: "Face".to_string(), morph_target_index: 1 }],
        ),
        (VrmExpression::new("happy"), vec![]),
    ];
    let setups: Vec<(String, Vec<BindExpressionNode>)> = expression_setups(&pairs, VRM, &scene())
        .into_iter()
        .map(|setup| (setup.expression.0, setup.nodes.0))
        .collect();
    assert_eq!(
        setups,
        vec![
            ("sad".to_string(), vec![BindExpressionNode { expression_entity: FACE, index: 1 }]),
            ("happy".to_string(), vec![]),
        ]
    );
}

#[test]
fn clip_names_the_expressions_of_its_description() {
    let preset = vec!["happy".to_string(), "blink".to_string()];
    let names: Vec<String> =
        VrmaExpressionNames::new(Some(&preset)).0.into_iter().map(|name| name.0).collect();
    assert_eq!(names, preset);
    assert!(VrmaExpressionNames::new(None).0.is_empty());
    assert!(VrmaExpressionNames::new(Some(&vec![])).0.is_empty());
}

#[test]
fn curves_of_an_expression_move_to_the_avatar() {
    let moves = expression_replacements(
        &names(&["sad", "happy"]),
        VRMA,
        EXPRESSIONS,
        &scene(),
        &targets(&[HAPPY, SAD, CLIP_HAPPY, CLIP_SAD]),
    );
    assert_eq!(moves.len(), 2);
    assert_eq!((moves[0].from, moves[0].to), (target("node12"), target("node6")));
    assert_eq!((moves[1].from, moves[1].to), (target("node11"), target("node5")));
}

#[test]
fn expression_without_a_node_on_one_side_is_passed_over() {
    let moves = expression_replacements(
        &names(&["surprised", "happy"]),
        VRMA,
        EXPRESSIONS,
        &scene(),
        &targets(&[HAPPY, CLIP_HAPPY]),
    );
    assert_eq!(moves.len(), 1);
    assert_eq!((moves[0].from, moves[0].to), (target("node11"), target("node5")));
}

#[test]
fn moves_end_at_a_node_that_cannot_be_animated() {
    let all = names(&["happy", "sad", "angry"]);
    let without_clip_sad = targets(&[HAPPY, SAD, ANGRY, CLIP_HAPPY, CLIP_ANGRY]);
    let moves = expression_replacements(&all, VRMA, EXPRESSIONS, &scene(), &without_clip_sad);
    assert_eq!(moves.len(), 1);
    assert_eq!((moves[0].from, moves[0].to), (target("node11"), target("node5")));
    let without_sad = targets(&[HAPPY, ANGRY, CLIP_HAPPY, CLIP_SAD, CLIP_ANGRY]);
    let moves = expression_replacements(&all, VRMA, EXPRESSIONS, &scene(), &without_sad);
    assert_eq!(moves.len(), 1);
    let without_happy = targets(&[SAD, ANGRY, CLIP_HAPPY, CLIP_SAD, CLIP_ANGRY]);
    assert!(expression_replacements(&all, VRMA, EXPRESSIONS, &scene(), &without_happy).is_empty());
}

#[test]
fn expression_curves_of_a_clip_are_moved_for_the_registry() {
    let all = targets(&[HAPPY, SAD, ANGRY, CLIP_HAPPY, CLIP_SAD, CLIP_ANGRY]);
    let mut moves: Vec<(AnimationTargetId, AnimationTargetId)> =
        apply_regenerate_expression_clips(VRMA, VRM, &registry(), &scene(), &all)
            .into_iter()
            .map(|replacement| (replacement.from, replacement.to))
            .collect();
    moves.sort();
    let mut expected =
        vec![(target("node11"), target("node5")), (target("node12"), target("node6"))];
    expected.sort();
    assert_eq!(moves, expected);
}

#[test]
fn avatar_without_expressions_root_has_no_expression_curves_moved() {
    let mut searcher = ChildSearcher::new();
    assert!(searcher.spawn(VRM, None, None));
    assert!(searcher.spawn_child(VRM, HAPPY, Some("happy".to_string()), None));
    assert!(searcher.spawn_child(VRM, VRMA, None, None));
    assert!(searcher.spawn_child(VRMA, CLIP_HAPPY, Some("happy".to_string()), None));
    let all = targets(&[HAPPY, CLIP_HAPPY]);
    assert!(apply_regenerate_expression_clips(VRMA, VRM, &registry(), &searcher, &all).is_empty());
}
