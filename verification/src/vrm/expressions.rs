//! The expressions of a model: which morph targets of which nodes each of
//! them drives.
//!
//! A model names, for each expression, the nodes it drives by their index.
//! The registry keeps them by node name; a node without a name is left out.
//! Once the model stands in the scene, each expression is bound to the nodes
//! of that name that are found below the model.

use crate::names::{name_of, node_name};
use crate::sequences::{lemma_filter_map_step, lemma_origins, origins};
use crate::system_param::child_searcher::{search, ChildSearcher, NodeView};
use crate::vrm::VrmExpression;
use crate::Entity;
use bevy::platform::collections::HashMap;
use vstd::prelude::*;

verus! {

/// One morph target that an expression drives, as the model names it: the
/// index of the node and the index of the morph target on that node.
#[derive(Debug, Clone, Copy)]
pub struct MorphTargetBind {
    pub node: usize,
    pub index: usize,
}

/// One expression of a model: its name and the morph targets it drives, if
/// the model names any.
pub struct Preset {
    pub name: String,
    pub morph_target_binds: Option<Vec<MorphTargetBind>>,
}

/// One morph target that an expression drives, by the name of its node.
#[derive(Debug)]
pub struct ExpressionNode {
    pub name: String,
    pub morph_target_index: usize,
}

/// What an expression node holds.
pub struct ExpressionNodeView {
    pub name: Seq<char>,
    pub morph_target_index: usize,
}

impl View for ExpressionNode {
    type V = ExpressionNodeView;

    open spec fn view(&self) -> ExpressionNodeView {
        ExpressionNodeView { name: self.name@, morph_target_index: self.morph_target_index }
    }
}

impl Clone for ExpressionNode {
    fn clone(&self) -> (copy: Self)
        ensures
            copy@ == self@,
    {
        ExpressionNode { name: self.name.clone(), morph_target_index: self.morph_target_index }
    }
}

/// One morph target that an expression drives, by its node in the scene.
#[derive(Debug, Clone, Copy, PartialEq, Eq, Structural)]
pub struct BindExpressionNode {
    pub expression_entity: Entity,
    pub index: usize,
}

/// The morph targets that an expression drives in the scene.
pub struct RetargetExpressionNodes(pub Vec<BindExpressionNode>);

/// The views of expression nodes.
pub open spec fn node_views(nodes: Seq<ExpressionNode>) -> Seq<ExpressionNodeView> {
    nodes.map_values(|node: ExpressionNode| node@)
}

/// A bind by the name of its node, if the node has a name in `node_names`.
pub open spec fn node_pick(node_names: Seq<Option<String>>) -> spec_fn(MorphTargetBind) -> Option<
    ExpressionNodeView,
> {
    |bind: MorphTargetBind|
        match name_of(bind.node, node_names) {
            Some(name) => Some(ExpressionNodeView { name, morph_target_index: bind.index }),
            None => None,
        }
}

/// Looks up the name of a bind's node. A bind whose node has no name in
/// `node_names` gives nothing.
pub fn convert_to_node(bind: &MorphTargetBind, node_names: &Vec<Option<String>>) -> (node: Option<
    ExpressionNode,
>)
    ensures
        match node {
            Some(node) => node_pick(node_names@)(*bind) == Some(node@),
            None => node_pick(node_names@)(*bind) is None,
        },
{
    match node_name(bind.node, node_names) {
        Some(name) => Some(ExpressionNode { name, morph_target_index: bind.index }),
        None => None,
    }
}

fn convert_binds(binds: &Vec<MorphTargetBind>, node_names: &Vec<Option<String>>) -> (nodes: Vec<
    ExpressionNode,
>)
    ensures
        node_views(nodes@) == binds@.filter_map(node_pick(node_names@)),
{
    let ghost pick = node_pick(node_names@);
    let mut nodes: Vec<ExpressionNode> = Vec::new();
    let mut i: usize = 0;
    while i < binds.len()
        invariant
            i <= binds.len(),
            pick == node_pick(node_names@),
            node_views(nodes@) == binds@.take(i as int).filter_map(pick),
        decreases binds.len() - i,
    {
        proof {
            lemma_filter_map_step(binds@, pick, i as int);
        }
        if let Some(node) = convert_to_node(&binds[i], node_names) {
            let ghost before = node_views(nodes@);
            nodes.push(node);
            assert(node_views(nodes@) =~= before.push(node@));
        }
        i += 1;
    }
    assert(binds@.take(binds.len() as int) =~= binds@);
    nodes
}

/// What a map from expression names to expression nodes holds.
pub uninterp spec fn expression_nodes(map: HashMap<String, Vec<ExpressionNode>>) -> Map<
    Seq<char>,
    Seq<ExpressionNodeView>,
>;

/// `bevy::platform::collections::HashMap::new`: the new map holds nothing.
#[verifier::external_body]
fn expressions_new() -> (map: HashMap<String, Vec<ExpressionNode>>)
    ensures
        expression_nodes(map) =~= Map::empty(),
{
    HashMap::new()
}

/// `bevy::platform::collections::HashMap::insert`: afterwards the map holds
/// `nodes` under `expression`, in place of what it held there, and is
/// otherwise unchanged.
#[verifier::external_body]
fn expressions_insert(
    map: &mut HashMap<String, Vec<ExpressionNode>>,
    expression: String,
    nodes: Vec<ExpressionNode>,
)
    ensures
        expression_nodes(*final(map)) == expression_nodes(*old(map)).insert(
            expression@,
            node_views(nodes@),
        ),
{
    map.insert(expression, nodes);
}

/// `bevy::platform::collections::HashMap::iter`, each pair copied out: every
/// pair of the result is held by the map, every key of the map occurs in the
/// result, and no key occurs twice. The order of the pairs is not stated.
#[verifier::external_body]
fn expressions_pairs(map: &HashMap<String, Vec<ExpressionNode>>) -> (pairs: Vec<
    (VrmExpression, Vec<ExpressionNode>),
>)
    ensures
        lists_expressions(pairs@, expression_nodes(*map)),
{
    map.iter().map(|(expression, nodes)| (VrmExpression(expression.clone()), nodes.clone())).collect()
}

/// `pairs` holds every entry of `registry` once and nothing else.
pub open spec fn lists_expressions(
    pairs: Seq<(VrmExpression, Vec<ExpressionNode>)>,
    registry: Map<Seq<char>, Seq<ExpressionNodeView>>,
) -> bool {
    &&& forall|i: int|
        0 <= i < pairs.len() ==> registry.contains_key((#[trigger] pairs[i]).0@)
            && registry[pairs[i].0@] == node_views(pairs[i].1@)
    &&& forall|expression: Seq<char>| #[trigger]
        registry.contains_key(expression) ==> exists|i: int|
            0 <= i < pairs.len() && (#[trigger] pairs[i]).0@ == expression
    &&& forall|i: int, j: int|
        0 <= i < j < pairs.len() ==> (#[trigger] pairs[i]).0@ != (#[trigger] pairs[j]).0@
}

/// The registry that `presets` and `node_names` give: each expression that
/// names morph targets is kept under its name with those of its morph
/// targets whose node has a name, a later preset replacing an earlier one of
/// the same name.
pub open spec fn resolved_expressions(
    presets: Seq<Preset>,
    node_names: Seq<Option<String>>,
) -> Map<Seq<char>, Seq<ExpressionNodeView>>
    decreases presets.len(),
{
    if presets.len() == 0 {
        Map::empty()
    } else {
        let before = resolved_expressions(presets.drop_last(), node_names);
        match presets.last().morph_target_binds {
            Some(binds) => before.insert(
                presets.last().name@,
                binds@.filter_map(node_pick(node_names)),
            ),
            None => before,
        }
    }
}

/// The morph targets of each expression of a model, by node name.
pub struct VrmExpressionRegistry(HashMap<String, Vec<ExpressionNode>>);

impl View for VrmExpressionRegistry {
    type V = Map<Seq<char>, Seq<ExpressionNodeView>>;

    closed spec fn view(&self) -> Map<Seq<char>, Seq<ExpressionNodeView>> {
        expression_nodes(self.0)
    }
}

impl VrmExpressionRegistry {
    /// Builds the registry from the model's expressions and the names of the
    /// model's nodes. An expression that names no morph targets is left
    /// out; a morph target whose node has no name in `node_names` is left
    /// out of its expression.
    pub fn new(presets: &Vec<Preset>, node_names: &Vec<Option<String>>) -> (registry: Self)
        ensures
            registry@ == resolved_expressions(presets@, node_names@),
    {
        let mut map = expressions_new();
        let mut i: usize = 0;
        while i < presets.len()
            invariant
                i <= presets.len(),
                expression_nodes(map) == resolved_expressions(
                    presets@.take(i as int),
                    node_names@,
                ),
            decreases presets.len() - i,
        {
            assert(presets@.take(i + 1).drop_last() =~= presets@.take(i as int));
            if let Some(binds) = &presets[i].morph_target_binds {
                let nodes = convert_binds(binds, node_names);
                expressions_insert(&mut map, presets[i].name.clone(), nodes);
            }
            i += 1;
        }
        assert(presets@.take(presets.len() as int) =~= presets@);
        VrmExpressionRegistry(map)
    }

    /// The expressions of the registry, each with its nodes, in no stated
    /// order: every pair is in the registry, every expression of the
    /// registry occurs, and none occurs twice.
    pub fn entries(&self) -> (pairs: Vec<(VrmExpression, Vec<ExpressionNode>)>)
        ensures
            lists_expressions(pairs@, self@),
    {
        expressions_pairs(&self.0)
    }
}

/// A morph target by its node in the scene, if a node of its name stands
/// below `vrm`.
pub open spec fn bind_pick(vrm: Entity, nodes: Seq<NodeView>) -> spec_fn(ExpressionNodeView) -> Option<
    BindExpressionNode,
> {
    |node: ExpressionNodeView|
        match search(nodes, vrm, node.name, false) {
            Some(expression_entity) => Some(
                BindExpressionNode { expression_entity, index: node.morph_target_index },
            ),
            None => None,
        }
}

/// The morph targets of an expression in the scene, in the order of the
/// expression's nodes. A node that is not found below `vrm` is passed over.
pub open spec fn bound_nodes(
    expression_nodes: Seq<ExpressionNodeView>,
    vrm: Entity,
    nodes: Seq<NodeView>,
) -> Seq<BindExpressionNode> {
    expression_nodes.filter_map(bind_pick(vrm, nodes))
}

/// Finds the nodes of an expression below `vrm_entity`. The result lists,
/// in the order of `nodes`, the morph target of each node that is found.
pub fn obtain_expression_nodes(
    vrm_entity: Entity,
    searcher: &ChildSearcher,
    nodes: &Vec<ExpressionNode>,
) -> (binds: Vec<BindExpressionNode>)
    ensures
        binds@ == bound_nodes(node_views(nodes@), vrm_entity, searcher@),
{
    let ghost pick = bind_pick(vrm_entity, searcher@);
    let mut binds: Vec<BindExpressionNode> = Vec::new();
    let mut i: usize = 0;
    while i < nodes.len()
        invariant
            i <= nodes.len(),
            pick == bind_pick(vrm_entity, searcher@),
            binds@ == node_views(nodes@).take(i as int).filter_map(pick),
        decreases nodes.len() - i,
    {
        proof {
            lemma_filter_map_step(node_views(nodes@), pick, i as int);
        }
        if let Some(expression_entity) = searcher.find_from_name(vrm_entity, nodes[i].name.as_str()) {
            binds.push(
                BindExpressionNode { expression_entity, index: nodes[i].morph_target_index },
            );
        }
        i += 1;
    }
    assert(node_views(nodes@).take(nodes.len() as int) =~= node_views(nodes@));
    binds
}

/// An expression as it is set up in the scene: a node of its own, named
/// after it, that carries the morph targets it drives.
pub struct ExpressionSetup {
    pub expression: VrmExpression,
    pub nodes: RetargetExpressionNodes,
}

/// What the setup of an expression holds.
pub struct ExpressionSetupView {
    pub expression: Seq<char>,
    pub nodes: Seq<BindExpressionNode>,
}

impl View for ExpressionSetup {
    type V = ExpressionSetupView;

    open spec fn view(&self) -> ExpressionSetupView {
        ExpressionSetupView { expression: self.expression@, nodes: self.nodes.0@ }
    }
}

/// The views of expression setups.
pub open spec fn setup_views(setups: Seq<ExpressionSetup>) -> Seq<ExpressionSetupView> {
    setups.map_values(|setup: ExpressionSetup| setup@)
}

/// The setup of one expression with its nodes.
pub open spec fn setup_pick(vrm: Entity, nodes: Seq<NodeView>) -> spec_fn(
    (VrmExpression, Vec<ExpressionNode>),
) -> Option<ExpressionSetupView> {
    |pair: (VrmExpression, Vec<ExpressionNode>)|
        Some(
            ExpressionSetupView {
                expression: pair.0@,
                nodes: bound_nodes(node_views(pair.1@), vrm, nodes),
            },
        )
}

/// Sets up the given expressions, each with the nodes given for it, in
/// their order.
pub fn expression_setups(
    pairs: &Vec<(VrmExpression, Vec<ExpressionNode>)>,
    vrm_entity: Entity,
    searcher: &ChildSearcher,
) -> (setups: Vec<ExpressionSetup>)
    ensures
        setup_views(setups@) == pairs@.filter_map(setup_pick(vrm_entity, searcher@)),
{
    let ghost pick = setup_pick(vrm_entity, searcher@);
    let mut setups: Vec<ExpressionSetup> = Vec::new();
    let mut i: usize = 0;
    while i < pairs.len()
        invariant
            i <= pairs.len(),
            pick == setup_pick(vrm_entity, searcher@),
            setup_views(setups@) == pairs@.take(i as int).filter_map(pick),
        decreases pairs.len() - i,
    {
        proof {
            lemma_filter_map_step(pairs@, pick, i as int);
        }
        let setup = ExpressionSetup {
            expression: pairs[i].0.clone(),
            nodes: RetargetExpressionNodes(
                obtain_expression_nodes(vrm_entity, searcher, &pairs[i].1),
            ),
        };
        let ghost before = setup_views(setups@);
        setups.push(setup);
        assert(setup_views(setups@) =~= before.push(setup@));
        i += 1;
    }
    assert(pairs@.take(pairs.len() as int) =~= pairs@);
    setups
}

/// `setups` holds the setup of every expression of the registry once, and
/// nothing else.
pub open spec fn sets_up_registry(
    setups: Seq<ExpressionSetupView>,
    registry: Map<Seq<char>, Seq<ExpressionNodeView>>,
    vrm: Entity,
    nodes: Seq<NodeView>,
) -> bool {
    &&& forall|i: int|
        0 <= i < setups.len() ==> registry.contains_key((#[trigger] setups[i]).expression)
            && setups[i].nodes == bound_nodes(registry[setups[i].expression], vrm, nodes)
    &&& forall|expression: Seq<char>| #[trigger]
        registry.contains_key(expression) ==> exists|i: int|
            0 <= i < setups.len() && (#[trigger] setups[i]).expression == expression
    &&& forall|i: int, j: int|
        0 <= i < j < setups.len() ==> (#[trigger] setups[i]).expression != (
        #[trigger] setups[j]).expression
}

/// Whatever the order of the pairs, the setups of the entries of a registry
/// are the setups of the registry's expressions, each once.
pub proof fn lemma_sets_up_registry(
    pairs: Seq<(VrmExpression, Vec<ExpressionNode>)>,
    registry: Map<Seq<char>, Seq<ExpressionNodeView>>,
    vrm: Entity,
    nodes: Seq<NodeView>,
)
    requires
        lists_expressions(pairs, registry),
    ensures
        sets_up_registry(pairs.filter_map(setup_pick(vrm, nodes)), registry, vrm, nodes),
{
    let pick = setup_pick(vrm, nodes);
    lemma_origins(pairs, pick);
    let out = pairs.filter_map(pick);
    let from = origins(pairs, pick);
    assert forall|i: int| 0 <= i < out.len() implies registry.contains_key(
        (#[trigger] out[i]).expression,
    ) && out[i].nodes == bound_nodes(registry[out[i].expression], vrm, nodes) by {
        let k = from[i];
        assert(pick(pairs[k]) == Some(out[i]));
        assert(registry.contains_key(pairs[k].0@) && registry[pairs[k].0@] == node_views(
            pairs[k].1@,
        ));
    }
    assert forall|expression: Seq<char>| #[trigger]
        registry.contains_key(expression) implies exists|i: int|
        0 <= i < out.len() && (#[trigger] out[i]).expression == expression by {
        let k = choose|k: int| 0 <= k < pairs.len() && (#[trigger] pairs[k]).0@ == expression;
        assert(pick(pairs[k]) is Some);
        assert(from.contains(k));
        let i = choose|i: int| 0 <= i < from.len() && from[i] == k;
        assert(pick(pairs[from[i]]) == Some(out[i]));
        assert(out[i].expression == expression);
    }
    assert forall|i: int, j: int| 0 <= i < j < out.len() implies (#[trigger] out[i]).expression
        != (#[trigger] out[j]).expression by {
        let k = from[i];
        let l = from[j];
        assert(k < l);
        assert(pick(pairs[k]) == Some(out[i]));
        assert(pick(pairs[l]) == Some(out[j]));
        assert(pairs[k].0@ != pairs[l].0@);
    }
}

/// Sets up the expressions of the model `vrm_entity`: one setup for every
/// expression of the registry, with the morph targets of those of its nodes
/// that are found below the model, in no stated order.
pub fn apply_initialize_expressions(
    vrm_entity: Entity,
    registry: &VrmExpressionRegistry,
    searcher: &ChildSearcher,
) -> (setups: Vec<ExpressionSetup>)
    ensures
        sets_up_registry(setup_views(setups@), registry@, vrm_entity, searcher@),
{
    let pairs = registry.entries();
    proof {
        lemma_sets_up_registry(pairs@, registry@, vrm_entity, searcher@);
    }
    expression_setups(&pairs, vrm_entity, searcher)
}

} // verus!
