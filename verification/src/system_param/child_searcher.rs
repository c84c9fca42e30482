//! Name-based search for a node below a given root.
//!
//! The scene is held as a list of nodes in which every child stands after its
//! parent. A search walks the nodes below the root in depth-first order,
//! parents before children and children in their stored order, and returns
//! the first node whose name, or whose bone name, equals the target.

use crate::names::same_text;
use crate::vrm::humanoid_bone::{lists, HumanoidBoneRegistry};
use crate::vrm::{Vrm, VrmBone};
use crate::Entity;
use vstd::prelude::*;

verus! {

/// What the library reads of one node: its identifier, its name and bone
/// name if it has them, and the positions of its parent and of its children
/// in the list of nodes.
pub struct NodeView {
    pub entity: Entity,
    pub name: Option<Seq<char>>,
    pub bone: Option<Seq<char>>,
    pub parent: Option<int>,
    pub children: Seq<int>,
}

struct SceneNode {
    entity: Entity,
    name: Option<String>,
    bone: Option<VrmBone>,
    parent: Option<usize>,
    children: Vec<usize>,
}

impl View for SceneNode {
    type V = NodeView;

    closed spec fn view(&self) -> NodeView {
        NodeView {
            entity: self.entity,
            name: match self.name {
                Some(name) => Some(name@),
                None => None,
            },
            bone: match self.bone {
                Some(bone) => Some(bone@),
                None => None,
            },
            parent: match self.parent {
                Some(parent) => Some(parent as int),
                None => None,
            },
            children: self.children@.map_values(|c: usize| c as int),
        }
    }
}

/// Every child stands after its parent and inside the list, a node is a
/// child of its parent and of no other node, and no identifier occurs twice.
pub open spec fn well_formed(nodes: Seq<NodeView>) -> bool {
    &&& forall|i: int, k: int|
        0 <= i < nodes.len() && 0 <= k < nodes[i].children.len() ==> i
            < #[trigger] nodes[i].children[k] < nodes.len() && nodes[nodes[i].children[k]].parent
            == Some(i)
    &&& forall|i: int|
        0 <= i < nodes.len() ==> match (#[trigger] nodes[i]).parent {
            Some(p) => 0 <= p < i && nodes[p].children.contains(i),
            None => true,
        }
    &&& forall|i: int, j: int|
        0 <= i < j < nodes.len() ==> #[trigger] nodes[i].entity != #[trigger] nodes[j].entity
}

/// The nodes at and below position `i`, in depth-first order.
pub open spec fn subtree(nodes: Seq<NodeView>, i: int) -> Seq<int>
    decreases nodes.len() - i, 1int, 0int,
{
    if 0 <= i < nodes.len() {
        seq![i] + forest(nodes, i, 0)
    } else {
        Seq::empty()
    }
}

/// The nodes below the children of `i` from the `k`-th child on, in
/// depth-first order.
pub open spec fn forest(nodes: Seq<NodeView>, i: int, k: int) -> Seq<int>
    decreases nodes.len() - i, 0int, nodes[i].children.len() - k,
{
    if 0 <= i < nodes.len() && 0 <= k < nodes[i].children.len() {
        let c = nodes[i].children[k];
        if i < c < nodes.len() {
            subtree(nodes, c) + forest(nodes, i, k + 1)
        } else {
            forest(nodes, i, k + 1)
        }
    } else {
        Seq::empty()
    }
}

/// Whether a node carries the target as its bone name (`is_bone`) or as its
/// name.
pub open spec fn node_matches(node: NodeView, target: Seq<char>, is_bone: bool) -> bool {
    if is_bone {
        node.bone == Some(target)
    } else {
        node.name == Some(target)
    }
}

/// The first position in `order` whose node matches the target.
pub open spec fn first_match(
    nodes: Seq<NodeView>,
    order: Seq<int>,
    target: Seq<char>,
    is_bone: bool,
) -> Option<int>
    decreases order.len(),
{
    if order.len() == 0 {
        None
    } else if 0 <= order[0] < nodes.len() && node_matches(nodes[order[0]], target, is_bone) {
        Some(order[0])
    } else {
        first_match(nodes, order.drop_first(), target, is_bone)
    }
}

/// The position of the node with the given identifier.
pub open spec fn position(nodes: Seq<NodeView>, entity: Entity) -> Option<int> {
    if exists|i: int| 0 <= i < nodes.len() && (#[trigger] nodes[i]).entity == entity {
        Some(choose|i: int| 0 <= i < nodes.len() && (#[trigger] nodes[i]).entity == entity)
    } else {
        None
    }
}

/// The result of a search below `root`: the first matching node in
/// depth-first order, if the root exists and a node below it matches.
pub open spec fn search(
    nodes: Seq<NodeView>,
    root: Entity,
    target: Seq<char>,
    is_bone: bool,
) -> Option<Entity> {
    match position(nodes, root) {
        Some(i) => match first_match(nodes, subtree(nodes, i), target, is_bone) {
            Some(j) => Some(nodes[j].entity),
            None => None,
        },
        None => None,
    }
}

/// A match in the front part of an order is the match of the whole order;
/// without one, the match is that of the back part.
pub proof fn lemma_first_match_concat(
    nodes: Seq<NodeView>,
    front: Seq<int>,
    back: Seq<int>,
    target: Seq<char>,
    is_bone: bool,
)
    ensures
        first_match(nodes, front + back, target, is_bone) == match first_match(
            nodes,
            front,
            target,
            is_bone,
        ) {
            Some(j) => Some(j),
            None => first_match(nodes, back, target, is_bone),
        },
    decreases front.len(),
{
    if front.len() == 0 {
        assert(front + back =~= back);
    } else {
        assert((front + back)[0] == front[0]);
        assert((front + back).drop_first() =~= front.drop_first() + back);
        lemma_first_match_concat(nodes, front.drop_first(), back, target, is_bone);
    }
}

/// A search result is a node that matches the target.
pub proof fn lemma_first_match_matches(
    nodes: Seq<NodeView>,
    order: Seq<int>,
    target: Seq<char>,
    is_bone: bool,
)
    ensures
        match first_match(nodes, order, target, is_bone) {
            Some(j) => 0 <= j < nodes.len() && order.contains(j) && node_matches(
                nodes[j],
                target,
                is_bone,
            ),
            None => forall|k: int|
                0 <= k < order.len() && 0 <= #[trigger] order[k] < nodes.len() ==> !node_matches(
                    nodes[order[k]],
                    target,
                    is_bone,
                ),
        },
    decreases order.len(),
{
    if order.len() == 0 {
    } else if 0 <= order[0] < nodes.len() && node_matches(nodes[order[0]], target, is_bone) {
        assert(order.contains(order[0]));
    } else {
        let rest = order.drop_first();
        lemma_first_match_matches(nodes, rest, target, is_bone);
        match first_match(nodes, rest, target, is_bone) {
            Some(j) => {
                let k = choose|k: int| 0 <= k < rest.len() && rest[k] == j;
                assert(order[k + 1] == j);
            },
            None => {
                assert forall|k: int|
                    0 <= k < order.len() && 0 <= #[trigger] order[k] < nodes.len()
                    implies !node_matches(nodes[order[k]], target, is_bone) by {
                    if k > 0 {
                        assert(rest[k - 1] == order[k]);
                    }
                }
            },
        }
    }
}

/// A search result is a node of the scene that matches the target.
pub proof fn lemma_search_result(
    nodes: Seq<NodeView>,
    root: Entity,
    target: Seq<char>,
    is_bone: bool,
)
    requires
        well_formed(nodes),
    ensures
        match search(nodes, root, target, is_bone) {
            Some(entity) => match position(nodes, entity) {
                Some(j) => 0 <= j < nodes.len() && nodes[j].entity == entity && node_matches(
                    nodes[j],
                    target,
                    is_bone,
                ),
                None => false,
            },
            None => true,
        },
{
    if let Some(i) = position(nodes, root) {
        lemma_first_match_matches(nodes, subtree(nodes, i), target, is_bone);
        if let Some(j) = first_match(nodes, subtree(nodes, i), target, is_bone) {
            lemma_position_of_node(nodes, j);
        }
    }
}

/// A search result stands at or below the root of the search.
pub proof fn lemma_search_stays_below_root(
    nodes: Seq<NodeView>,
    root: Entity,
    target: Seq<char>,
    is_bone: bool,
)
    ensures
        match search(nodes, root, target, is_bone) {
            Some(entity) => descendants_in(nodes, root).contains(entity),
            None => true,
        },
{
    if let Some(i) = position(nodes, root) {
        let order = subtree(nodes, i);
        lemma_first_match_matches(nodes, order, target, is_bone);
        if let Some(j) = first_match(nodes, order, target, is_bone) {
            let k = choose|k: int| 0 <= k < order.len() && order[k] == j;
            assert(entities_at(nodes, order)[k] == nodes[j].entity);
        }
    }
}

/// With distinct identifiers, the position of a node's identifier is the
/// node's own position.
pub proof fn lemma_position_of_node(nodes: Seq<NodeView>, i: int)
    requires
        well_formed(nodes),
        0 <= i < nodes.len(),
    ensures
        position(nodes, nodes[i].entity) == Some(i),
{
    let entity = nodes[i].entity;
    let j = choose|j: int| 0 <= j < nodes.len() && (#[trigger] nodes[j]).entity == entity;
    if j < i {
        assert(nodes[j].entity != nodes[i].entity);
    } else if i < j {
        assert(nodes[i].entity != nodes[j].entity);
    }
}

/// A node without children, below the node at `parent` if there is one.
pub open spec fn leaf(
    entity: Entity,
    name: Option<String>,
    bone: Option<VrmBone>,
    parent: Option<int>,
) -> NodeView {
    NodeView {
        entity,
        name: match name {
            Some(name) => Some(name@),
            None => None,
        },
        bone: match bone {
            Some(bone) => Some(bone@),
            None => None,
        },
        parent,
        children: Seq::empty(),
    }
}

/// The scene after `node` was added as the last child of the node at `p`.
pub open spec fn with_child(nodes: Seq<NodeView>, p: int, node: NodeView) -> Seq<NodeView> {
    nodes.update(
        p,
        NodeView { children: nodes[p].children.push(nodes.len() as int), ..nodes[p] },
    ).push(node)
}

proof fn lemma_push_leaf(nodes: Seq<NodeView>, node: NodeView)
    requires
        well_formed(nodes),
        position(nodes, node.entity) is None,
        node.children.len() == 0,
        node.parent is None,
    ensures
        well_formed(nodes.push(node)),
{
    let after = nodes.push(node);
    assert forall|i: int, j: int| 0 <= i < j < after.len() implies #[trigger] after[i].entity
        != #[trigger] after[j].entity by {
        if j == nodes.len() {
            assert(nodes[i].entity != node.entity);
        }
    }
    assert forall|i: int, k: int| 0 <= i < after.len() && 0 <= k < after[i].children.len() implies i
        < #[trigger] after[i].children[k] < after.len() && after[after[i].children[k]].parent
        == Some(i) by {
        assert(after[i].children[k] == nodes[i].children[k]);
    }
    assert forall|i: int| 0 <= i < after.len() implies match (#[trigger] after[i]).parent {
        Some(p) => 0 <= p < i && after[p].children.contains(i),
        None => true,
    } by {
        if i < nodes.len() {
            assert(after[i] == nodes[i]);
        }
    }
}

proof fn lemma_with_child(nodes: Seq<NodeView>, p: int, node: NodeView)
    requires
        well_formed(nodes),
        0 <= p < nodes.len(),
        position(nodes, node.entity) is None,
        node.children.len() == 0,
        node.parent == Some(p),
    ensures
        well_formed(with_child(nodes, p, node)),
{
    let after = with_child(nodes, p, node);
    assert forall|i: int, j: int| 0 <= i < j < after.len() implies #[trigger] after[i].entity
        != #[trigger] after[j].entity by {
        if j == nodes.len() {
            assert(nodes[i].entity != node.entity);
        }
    }
    assert forall|i: int, k: int| 0 <= i < after.len() && 0 <= k < after[i].children.len() implies i
        < #[trigger] after[i].children[k] < after.len() && after[after[i].children[k]].parent
        == Some(i) by {
        if i == p {
            if k < nodes[p].children.len() {
                assert(after[i].children[k] == nodes[p].children[k]);
            }
        } else if i < nodes.len() {
            assert(after[i].children[k] == nodes[i].children[k]);
        }
    }
    assert forall|i: int| 0 <= i < after.len() implies match (#[trigger] after[i]).parent {
        Some(q) => 0 <= q < i && after[q].children.contains(i),
        None => true,
    } by {
        if i < nodes.len() {
            assert(after[i].parent == nodes[i].parent);
            if let Some(q) = nodes[i].parent {
                let k = choose|k: int| 0 <= k < nodes[q].children.len() && nodes[q].children[k] == i;
                assert(after[q].children[k] == i);
            }
        } else {
            assert(after[p].children[nodes[p].children.len() as int] == i);
        }
    }
}

/// The parent of the node with the given identifier.
pub open spec fn parent_in(nodes: Seq<NodeView>, entity: Entity) -> Option<Entity> {
    match position(nodes, entity) {
        Some(i) => match nodes[i].parent {
            Some(p) => Some(nodes[p].entity),
            None => None,
        },
        None => None,
    }
}

/// The identifiers of the nodes at the given positions.
pub open spec fn entities_at(nodes: Seq<NodeView>, order: Seq<int>) -> Seq<Entity> {
    Seq::new(order.len(), |k: int| nodes[order[k]].entity)
}

/// The children of the node with the given identifier, in their order.
pub open spec fn children_in(nodes: Seq<NodeView>, entity: Entity) -> Seq<Entity> {
    match position(nodes, entity) {
        Some(i) => entities_at(nodes, nodes[i].children),
        None => Seq::empty(),
    }
}

/// The nodes at and below the node with the given identifier, in
/// depth-first order.
pub open spec fn descendants_in(nodes: Seq<NodeView>, entity: Entity) -> Seq<Entity> {
    match position(nodes, entity) {
        Some(i) => entities_at(nodes, subtree(nodes, i)),
        None => Seq::empty(),
    }
}

fn matches_target(node: &SceneNode, target_name: &str, is_bone: bool) -> (hit: bool)
    ensures
        hit == node_matches(node@, target_name@, is_bone),
{
    if is_bone {
        match &node.bone {
            Some(bone) => same_text(bone.as_str(), target_name),
            None => false,
        }
    } else {
        match &node.name {
            Some(name) => same_text(name.as_str(), target_name),
            None => false,
        }
    }
}

spec fn views(nodes: Seq<SceneNode>) -> Seq<NodeView> {
    nodes.map_values(|node: SceneNode| node@)
}

/// Depth-first search from the node at `index`.
fn find_entity(target_name: &str, is_bone: bool, index: usize, nodes: &Vec<SceneNode>) -> (found:
    Option<usize>)
    requires
        well_formed(views(nodes@)),
        index < nodes.len(),
    ensures
        match found {
            Some(j) => first_match(
                views(nodes@),
                subtree(views(nodes@), index as int),
                target_name@,
                is_bone,
            ) == Some(j as int) && j < nodes.len(),
            None => first_match(
                views(nodes@),
                subtree(views(nodes@), index as int),
                target_name@,
                is_bone,
            ) is None,
        },
    decreases nodes.len() - index,
{
    let ghost all = views(nodes@);
    let ghost target = target_name@;
    let node = &nodes[index];
    assert(all[index as int] == node@);
    proof {
        lemma_first_match_concat(
            all,
            seq![index as int],
            forest(all, index as int, 0),
            target,
            is_bone,
        );
        assert(seq![index as int].drop_first() =~= Seq::<int>::empty());
    }
    if matches_target(node, target_name, is_bone) {
        return Some(index);
    }
    assert(first_match(all, seq![index as int], target, is_bone) is None) by {
        assert(first_match(all, Seq::<int>::empty(), target, is_bone) is None);
    }
    let mut k: usize = 0;
    while k < node.children.len()
        invariant
            all == views(nodes@),
            target == target_name@,
            well_formed(all),
            index < nodes.len(),
            node == &nodes[index as int],
            all[index as int] == node@,
            k <= node.children.len(),
            first_match(all, subtree(all, index as int), target, is_bone) == first_match(
                all,
                forest(all, index as int, k as int),
                target,
                is_bone,
            ),
        decreases node.children.len() - k,
    {
        let child = node.children[k];
        assert(all[index as int].children[k as int] == child as int);
        proof {
            lemma_first_match_concat(
                all,
                subtree(all, child as int),
                forest(all, index as int, k as int + 1),
                target,
                is_bone,
            );
        }
        if let Some(found) = find_entity(target_name, is_bone, child, nodes) {
            return Some(found);
        }
        k += 1;
    }
    None
}

/// Appends the nodes at and below `index`, in depth-first order.
fn collect(index: usize, nodes: &Vec<SceneNode>, found: &mut Vec<Entity>)
    requires
        well_formed(views(nodes@)),
        index < nodes.len(),
    ensures
        final(found)@ == old(found)@ + entities_at(
            views(nodes@),
            subtree(views(nodes@), index as int),
        ),
    decreases nodes.len() - index,
{
    let ghost all = views(nodes@);
    let ghost start = found@;
    let node = &nodes[index];
    assert(all[index as int] == node@);
    found.push(node.entity);
    let ghost mut done: Seq<int> = Seq::empty();
    assert(found@ =~= start + entities_at(all, seq![index as int] + done));
    assert(done + forest(all, index as int, 0) =~= forest(all, index as int, 0));
    let mut k: usize = 0;
    while k < node.children.len()
        invariant
            all == views(nodes@),
            well_formed(all),
            index < nodes.len(),
            node == &nodes[index as int],
            all[index as int] == node@,
            k <= node.children.len(),
            found@ == start + entities_at(all, seq![index as int] + done),
            done + forest(all, index as int, k as int) == forest(all, index as int, 0),
        decreases node.children.len() - k,
    {
        let child = node.children[k];
        assert(all[index as int].children[k as int] == child as int);
        collect(child, nodes, found);
        proof {
            let more = done + subtree(all, child as int);
            assert(found@ =~= start + entities_at(all, seq![index as int] + more));
            assert(more + forest(all, index as int, k as int + 1) =~= done + forest(
                all,
                index as int,
                k as int,
            ));
            done = more;
        }
        k += 1;
    }
    assert(done =~= forest(all, index as int, 0));
}

/// A snapshot of the scene that resolves names to nodes.
pub struct ChildSearcher {
    nodes: Vec<SceneNode>,
}

impl View for ChildSearcher {
    type V = Seq<NodeView>;

    closed spec fn view(&self) -> Seq<NodeView> {
        views(self.nodes@)
    }
}

impl ChildSearcher {
    #[verifier::type_invariant]
    pub open spec fn inv(&self) -> bool {
        well_formed(self@)
    }

    /// A scene without nodes.
    pub fn new() -> (searcher: Self)
        ensures
            searcher@.len() == 0,
    {
        let searcher = ChildSearcher { nodes: Vec::new() };
        assert(searcher@ =~= Seq::empty());
        searcher
    }

    /// Adds a node without a parent. Nothing is added if the identifier is
    /// already in use.
    pub fn spawn(&mut self, entity: Entity, name: Option<String>, bone: Option<VrmBone>) -> (added:
        bool)
        ensures
            added == position(old(self)@, entity).is_none(),
            added ==> final(self)@ == old(self)@.push(leaf(entity, name, bone, None)),
            !added ==> final(self)@ == old(self)@,
    {
        proof {
            use_type_invariant(&*self);
        }
        if self.index_of(entity).is_some() {
            return false;
        }
        let ghost before = self@;
        let node = SceneNode { entity, name, bone, parent: None, children: Vec::new() };
        assert(node@ =~= leaf(entity, name, bone, None)) by {
            assert(node@.children =~= Seq::empty());
        }
        proof {
            lemma_push_leaf(before, node@);
        }
        let mut nodes = Vec::new();
        core::mem::swap(&mut nodes, &mut self.nodes);
        nodes.push(node);
        assert(views(nodes@) =~= before.push(leaf(entity, name, bone, None)));
        self.nodes = nodes;
        true
    }

    /// Adds a node as the last child of `parent`. Nothing is added if the
    /// parent is unknown or the identifier is already in use.
    pub fn spawn_child(
        &mut self,
        parent: Entity,
        entity: Entity,
        name: Option<String>,
        bone: Option<VrmBone>,
    ) -> (added: bool)
        ensures
            added == (position(old(self)@, parent).is_some() && position(
                old(self)@,
                entity,
            ).is_none()),
            added ==> final(self)@ == with_child(
                old(self)@,
                position(old(self)@, parent).unwrap(),
                leaf(entity, name, bone, position(old(self)@, parent)),
            ),
            !added ==> final(self)@ == old(self)@,
    {
        proof {
            use_type_invariant(&*self);
        }
        let Some(p) = self.index_of(parent) else {
            return false;
        };
        if self.index_of(entity).is_some() {
            return false;
        }
        let ghost before = self@;
        let at = self.nodes.len();
        let node = SceneNode { entity, name, bone, parent: Some(p), children: Vec::new() };
        assert(node@ =~= leaf(entity, name, bone, Some(p as int))) by {
            assert(node@.children =~= Seq::empty());
        }
        proof {
            lemma_with_child(before, p as int, node@);
        }
        let mut nodes = Vec::new();
        core::mem::swap(&mut nodes, &mut self.nodes);
        nodes.push(node);
        nodes[p].children.push(at);
        assert(views(nodes@) =~= with_child(
            before,
            p as int,
            leaf(entity, name, bone, Some(p as int)),
        )) by {
            assert(nodes@[p as int]@.children =~= before[p as int].children.push(at as int));
        }
        self.nodes = nodes;
        true
    }

    fn index_of(&self, entity: Entity) -> (found: Option<usize>)
        ensures
            match found {
                Some(i) => position(self@, entity) == Some(i as int) && i < self@.len(),
                None => position(self@, entity) is None,
            },
    {
        proof {
            use_type_invariant(self);
        }
        let mut i: usize = 0;
        while i < self.nodes.len()
            invariant
                i <= self.nodes.len(),
                well_formed(self@),
                forall|j: int| 0 <= j < i ==> (#[trigger] self@[j]).entity != entity,
            decreases self.nodes.len() - i,
        {
            if self.nodes[i].entity == entity {
                assert(self@[i as int].entity == entity);
                proof {
                    lemma_position_of_node(self@, i as int);
                }
                return Some(i);
            }
            i += 1;
        }
        None
    }

    /// Whether the scene holds a node with this identifier.
    pub fn contains(&self, entity: Entity) -> (known: bool)
        ensures
            known == position(self@, entity).is_some(),
    {
        self.index_of(entity).is_some()
    }

    fn find(&self, root: Entity, target_name: &str, is_bone: bool) -> (found: Option<Entity>)
        ensures
            found == search(self@, root, target_name@, is_bone),
    {
        proof {
            use_type_invariant(self);
        }
        match self.index_of(root) {
            Some(i) => match find_entity(target_name, is_bone, i, &self.nodes) {
                Some(j) => {
                    assert(self@[j as int].entity == self.nodes[j as int].entity);
                    Some(self.nodes[j].entity)
                },
                None => None,
            },
            None => None,
        }
    }

    /// The parent of `entity`, if the node exists and has one.
    pub fn parent_of(&self, entity: Entity) -> (parent: Option<Entity>)
        ensures
            parent == parent_in(self@, entity),
    {
        proof {
            use_type_invariant(self);
        }
        match self.index_of(entity) {
            Some(i) => {
                assert(self@[i as int].parent == self.nodes[i as int]@.parent);
                match self.nodes[i].parent {
                    Some(p) => {
                        assert(self@[p as int].entity == self.nodes[p as int].entity);
                        Some(self.nodes[p].entity)
                    },
                    None => None,
                }
            },
            None => None,
        }
    }

    /// The children of `entity`, in their order. An unknown node has none.
    pub fn children_of(&self, entity: Entity) -> (found: Vec<Entity>)
        ensures
            found@ == children_in(self@, entity),
    {
        proof {
            use_type_invariant(self);
        }
        let mut found: Vec<Entity> = Vec::new();
        if let Some(i) = self.index_of(entity) {
            let node = &self.nodes[i];
            assert(self@[i as int] == node@);
            let mut k: usize = 0;
            while k < node.children.len()
                invariant
                    well_formed(self@),
                    i < self.nodes.len(),
                    node == &self.nodes[i as int],
                    self@[i as int] == node@,
                    k <= node.children.len(),
                    found@ == entities_at(self@, self@[i as int].children.take(k as int)),
                decreases node.children.len() - k,
            {
                let child = node.children[k];
                assert(self@[i as int].children[k as int] == child as int);
                assert(self@[child as int].entity == self.nodes[child as int].entity);
                found.push(self.nodes[child].entity);
                assert(found@ =~= entities_at(
                    self@,
                    self@[i as int].children.take(k as int + 1),
                ));
                k += 1;
            }
            assert(self@[i as int].children.take(k as int) =~= self@[i as int].children);
        }
        found
    }

    /// The nodes at and below `entity`, in depth-first order. An unknown
    /// node has none.
    pub fn descendants(&self, entity: Entity) -> (found: Vec<Entity>)
        ensures
            found@ == descendants_in(self@, entity),
    {
        proof {
            use_type_invariant(self);
        }
        let mut found: Vec<Entity> = Vec::new();
        if let Some(i) = self.index_of(entity) {
            collect(i, &self.nodes, &mut found);
            assert(found@ =~= entities_at(self@, subtree(self@, i as int)));
        }
        found
    }

    /// Whether every bone of the registry has its node below `root`.
    pub fn has_been_spawned_all_bones(&self, root: Entity, bone_registry: &HumanoidBoneRegistry) -> (all:
        bool)
        ensures
            all == forall|bone: Seq<char>| #[trigger]
                bone_registry@.contains_key(bone) ==> search(
                    self@,
                    root,
                    bone_registry@[bone],
                    false,
                ) is Some,
    {
        let pairs = bone_registry.entries();
        let mut i: usize = 0;
        while i < pairs.len()
            invariant
                i <= pairs.len(),
                lists(pairs@, bone_registry@),
                forall|k: int|
                    0 <= k < i ==> search(self@, root, (#[trigger] pairs[k]).1@, false) is Some,
            decreases pairs.len() - i,
        {
            if self.find_from_name(root, pairs[i].1.as_str()).is_none() {
                assert(bone_registry@.contains_key(pairs[i as int].0@));
                return false;
            }
            i += 1;
        }
        assert forall|bone: Seq<char>| #[trigger] bone_registry@.contains_key(bone) implies search(
            self@,
            root,
            bone_registry@[bone],
            false,
        ) is Some by {
            let k = choose|k: int| 0 <= k < pairs.len() && (#[trigger] pairs[k]).0@ == bone;
            assert(search(self@, root, pairs[k].1@, false) is Some);
        }
        true
    }

    /// The node below `vrm` that is named as the root bone of an avatar.
    pub fn find_root_bone(&self, vrm: Entity) -> (found: Option<Entity>)
        ensures
            found == search(self@, vrm, Vrm::ROOT_BONE@, false),
    {
        self.find_from_name(vrm, Vrm::ROOT_BONE)
    }

    /// The node below `vrm` that is named as the root of the expressions.
    pub fn find_expressions_root(&self, vrm: Entity) -> (found: Option<Entity>)
        ensures
            found == search(self@, vrm, Vrm::EXPRESSIONS_ROOT@, false),
    {
        self.find_from_name(vrm, Vrm::EXPRESSIONS_ROOT)
    }

    /// The first node at or below `root`, in depth-first order, whose name is
    /// `target_name`.
    pub fn find_from_name(&self, root: Entity, target_name: &str) -> (found: Option<Entity>)
        ensures
            found == search(self@, root, target_name@, false),
    {
        self.find(root, target_name, false)
    }

    /// The first node at or below `root`, in depth-first order, whose bone
    /// name is `target_name`.
    pub fn find_from_bone_name(&self, root: Entity, target_name: &VrmBone) -> (found: Option<
        Entity,
    >)
        ensures
            found == search(self@, root, target_name@, true),
    {
        self.find(root, target_name.as_str(), true)
    }
}

} // verus!
