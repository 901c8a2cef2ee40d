//! The Sway layout tree and the search for the tracked window in it.
use vstd::prelude::*;
use crate::geometry::{Rect, HeliumGeometry, fullscreen_flag, is_target, is_fullscreen, app_id_is_target};

verus! {

/// Kind of a node of the Sway layout tree.
#[derive(Clone, Copy, Debug, PartialEq, Eq, Structural)]
pub enum NodeType {
    Root,
    Output,
    Workspace,
    Con,
    FloatingCon,
    Dockarea,
}

/// The part of a Sway layout tree node that the search reads.
#[derive(Debug)]
pub struct SwayNode {
    pub node_type: NodeType,
    pub app_id: Option<String>,
    pub rect: Rect,
    pub fullscreen_mode: Option<u8>,
    pub visible: Option<bool>,
    pub nodes: Vec<SwayNode>,
    pub floating_nodes: Vec<SwayNode>,
}

/// Geometry recorded for a matching node.
pub open spec fn node_geometry(node: SwayNode) -> HeliumGeometry {
    HeliumGeometry {
        x: node.rect.x,
        y: node.rect.y,
        width: node.rect.width,
        height: node.rect.height,
        fullscreen: fullscreen_flag(node.fullscreen_mode),
        visible: match node.visible { Some(v) => v, None => false },
    }
}

/// Whether a node itself is a window of the tracked browser.
pub open spec fn node_matches(node: SwayNode) -> bool {
    (node.node_type == NodeType::Con || node.node_type == NodeType::FloatingCon)
        && is_target(node.app_id)
}

/// Geometries of all matching nodes of a tree, in pre-order, tiling children
/// before floating children.
pub open spec fn helium_nodes(node: SwayNode) -> Seq<HeliumGeometry>
    decreases node, 1nat,
{
    let own = if node_matches(node) { seq![node_geometry(node)] } else { Seq::empty() };
    own + helium_nodes_in(node.nodes@) + helium_nodes_in(node.floating_nodes@)
}

/// Geometries of all matching nodes of a sequence of trees, in order.
pub open spec fn helium_nodes_in(nodes: Seq<SwayNode>) -> Seq<HeliumGeometry>
    decreases nodes, 0nat,
{
    if nodes.len() == 0 {
        Seq::empty()
    } else {
        helium_nodes_in(nodes.drop_last()) + helium_nodes(nodes.last())
    }
}

/// The window that the search settles on among the matching windows: the last
/// visible one, or the last one when none is visible, or none when there are none.
pub open spec fn preferred(candidates: Seq<HeliumGeometry>) -> Option<HeliumGeometry>
    decreases candidates.len(),
{
    if candidates.len() == 0 {
        None
    } else {
        let last = candidates.last();
        match preferred(candidates.drop_last()) {
            None => Some(last),
            Some(best) => if last.visible || !best.visible { Some(last) } else { Some(best) },
        }
    }
}

fn node_geometry_of(node: &SwayNode) -> (g: HeliumGeometry)
    ensures
        g == node_geometry(*node),
{
    HeliumGeometry {
        x: node.rect.x,
        y: node.rect.y,
        width: node.rect.width,
        height: node.rect.height,
        fullscreen: is_fullscreen(node.fullscreen_mode),
        visible: match node.visible {
            Some(v) => v,
            None => false,
        },
    }
}

fn collect_helium_nodes(node: &SwayNode, results: &mut Vec<HeliumGeometry>)
    ensures
        final(results)@ == old(results)@ + helium_nodes(*node),
    decreases node,
{
    let ghost start = results@;
    if (node.node_type == NodeType::Con || node.node_type == NodeType::FloatingCon)
        && app_id_is_target(&node.app_id) {
        results.push(node_geometry_of(node));
    }
    let ghost own = results@;
    let mut i: usize = 0;
    while i < node.nodes.len()
        invariant
            i <= node.nodes.len(),
            results@ == own + helium_nodes_in(node.nodes@.take(i as int)),
        decreases node.nodes.len() - i,
    {
        proof {
            assert(decreases_to!(node => node.nodes@[i as int]));
        }
        collect_helium_nodes(&node.nodes[i], results);
        proof {
            assert(node.nodes@.take(i + 1).drop_last() =~= node.nodes@.take(i as int));
        }
        i = i + 1;
    }
    proof {
        assert(node.nodes@.take(i as int) =~= node.nodes@);
    }
    let ghost tiled = results@;
    let mut j: usize = 0;
    while j < node.floating_nodes.len()
        invariant
            j <= node.floating_nodes.len(),
            results@ == tiled + helium_nodes_in(node.floating_nodes@.take(j as int)),
        decreases node.floating_nodes.len() - j,
    {
        proof {
            assert(decreases_to!(node => node.floating_nodes@[j as int]));
        }
        collect_helium_nodes(&node.floating_nodes[j], results);
        proof {
            assert(node.floating_nodes@.take(j + 1).drop_last()
                =~= node.floating_nodes@.take(j as int));
        }
        j = j + 1;
    }
    proof {
        assert(node.floating_nodes@.take(j as int) =~= node.floating_nodes@);
        assert(results@ =~= start + helium_nodes(*node));
    }
}

/// Chooses among matching windows as the search does: a later window wins over
/// an earlier one unless the earlier one is visible and the later one is not.
pub fn preferred_window(candidates: &Vec<HeliumGeometry>) -> (res: Option<HeliumGeometry>)
    ensures
        res == preferred(candidates@),
{
    let mut best: Option<HeliumGeometry> = None;
    let mut i: usize = 0;
    while i < candidates.len()
        invariant
            i <= candidates.len(),
            best == preferred(candidates@.take(i as int)),
        decreases candidates.len() - i,
    {
        let g = candidates[i];
        proof {
            assert(candidates@.take(i + 1).drop_last() =~= candidates@.take(i as int));
        }
        best = match best {
            None => Some(g),
            Some(b) => if g.visible || !b.visible { Some(g) } else { Some(b) },
        };
        i = i + 1;
    }
    proof {
        assert(candidates@.take(i as int) =~= candidates@);
    }
    best
}

/// Finds the browser window in a layout tree: among all its windows, the last
/// visible one, else the last one.
pub fn find_helium(tree: &SwayNode) -> (res: Option<HeliumGeometry>)
    ensures
        res == preferred(helium_nodes(*tree)),
{
    let mut all: Vec<HeliumGeometry> = Vec::new();
    collect_helium_nodes(tree, &mut all);
    proof {
        assert(all@ =~= helium_nodes(*tree));
    }
    preferred_window(&all)
}

/// The search prefers a visible window: it finds a window exactly when there is
/// one; the window found is visible exactly when some window is visible; and it
/// is the last window of the list whose visibility it has.
pub proof fn lemma_preferred_is_last_of_best_visibility(candidates: Seq<HeliumGeometry>)
    ensures
        preferred(candidates) is None <==> candidates.len() == 0,
        candidates.len() > 0 ==> (preferred(candidates).unwrap().visible <==> exists|k: int|
            0 <= k < candidates.len() && #[trigger] candidates[k].visible),
        candidates.len() > 0 ==> exists|i: int|
            0 <= i < candidates.len() && preferred(candidates) == Some(candidates[i]) && (forall|j: int|
                i < j < candidates.len() ==> #[trigger] candidates[j].visible != candidates[i].visible),
    decreases candidates.len(),
{
    if candidates.len() > 0 {
        let init = candidates.drop_last();
        let last_index = candidates.len() - 1;
        lemma_preferred_is_last_of_best_visibility(init);
        if init.len() == 0 {
            assert(preferred(candidates) == Some(candidates[last_index]));
        } else {
            let best = preferred(init).unwrap();
            let i0 = choose|i: int|
                0 <= i < init.len() && preferred(init) == Some(init[i]) && (forall|j: int|
                    i < j < init.len() ==> #[trigger] init[j].visible != init[i].visible);
            if candidates[last_index].visible || !best.visible {
                assert(preferred(candidates) == Some(candidates[last_index]));
                if !candidates[last_index].visible {
                    assert forall|k: int| 0 <= k < candidates.len() implies !#[trigger] candidates[k].visible by {
                        if k < last_index {
                            assert(init[k] == candidates[k]);
                            if init[k].visible {
                                assert(exists|k2: int| 0 <= k2 < init.len() && #[trigger] init[k2].visible);
                            }
                        }
                    }
                }
            } else {
                assert(preferred(candidates) == Some(best));
                assert(candidates[i0] == init[i0]);
                assert forall|j: int| i0 < j < candidates.len() implies #[trigger] candidates[j].visible
                    != candidates[i0].visible by {
                    if j < last_index {
                        assert(init[j] == candidates[j]);
                    }
                }
                let k0 = choose|k: int| 0 <= k < init.len() && #[trigger] init[k].visible;
                assert(candidates[k0].visible);
            }
        }
    }
}

/// The node reached from `node` by following `path`: each step picks a tiling
/// child (`false`) or a floating child (`true`) by its index.
pub open spec fn descendant(node: SwayNode, path: Seq<(bool, int)>) -> Option<SwayNode>
    decreases path.len(),
{
    if path.len() == 0 {
        Some(node)
    } else {
        let children = if path[0].0 { node.floating_nodes@ } else { node.nodes@ };
        let i = path[0].1;
        if 0 <= i < children.len() {
            descendant(children[i], path.drop_first())
        } else {
            None
        }
    }
}

proof fn lemma_concat_contains_left(a: Seq<HeliumGeometry>, b: Seq<HeliumGeometry>, g: HeliumGeometry)
    requires
        a.contains(g),
    ensures
        (a + b).contains(g),
{
    let k = choose|k: int| 0 <= k < a.len() && a[k] == g;
    assert((a + b)[k] == g);
}

proof fn lemma_concat_contains_right(a: Seq<HeliumGeometry>, b: Seq<HeliumGeometry>, g: HeliumGeometry)
    requires
        b.contains(g),
    ensures
        (a + b).contains(g),
{
    let k = choose|k: int| 0 <= k < b.len() && b[k] == g;
    assert((a + b)[a.len() + k] == g);
}

proof fn lemma_in_contains(nodes: Seq<SwayNode>, i: int, g: HeliumGeometry)
    requires
        0 <= i < nodes.len(),
        helium_nodes(nodes[i]).contains(g),
    ensures
        helium_nodes_in(nodes).contains(g),
    decreases nodes.len(),
{
    let init = nodes.drop_last();
    if i == nodes.len() - 1 {
        lemma_concat_contains_right(helium_nodes_in(init), helium_nodes(nodes.last()), g);
    } else {
        assert(init[i] == nodes[i]);
        lemma_in_contains(init, i, g);
        lemma_concat_contains_left(helium_nodes_in(init), helium_nodes(nodes.last()), g);
    }
}

proof fn lemma_descendant_candidate(node: SwayNode, path: Seq<(bool, int)>, d: SwayNode)
    requires
        descendant(node, path) == Some(d),
        node_matches(d),
    ensures
        helium_nodes(node).contains(node_geometry(d)),
    decreases path.len(),
{
    let g = node_geometry(d);
    let own = if node_matches(node) { seq![node_geometry(node)] } else { Seq::empty() };
    let tiled = helium_nodes_in(node.nodes@);
    let floating = helium_nodes_in(node.floating_nodes@);
    if path.len() == 0 {
        assert(own[0] == g);
        lemma_concat_contains_left(own, tiled, g);
        lemma_concat_contains_left(own + tiled, floating, g);
    } else {
        let children = if path[0].0 { node.floating_nodes@ } else { node.nodes@ };
        let i = path[0].1;
        lemma_descendant_candidate(children[i], path.drop_first(), d);
        lemma_in_contains(children, i, g);
        if path[0].0 {
            lemma_concat_contains_right(own + tiled, floating, g);
        } else {
            lemma_concat_contains_right(own, tiled, g);
            lemma_concat_contains_left(own + tiled, floating, g);
        }
    }
}

/// Every browser window of the tree is a candidate of the search, whatever its
/// depth and whatever kind of node it hangs under (tiled or floating, under a
/// workspace or a split container): a tiling or floating container reached by
/// any path whose app id is "helium" contributes its rectangle, fullscreen
/// state and visibility; the search then finds a window, and a visible one
/// when that container is visible.
pub proof fn lemma_browser_window_found(tree: SwayNode, path: Seq<(bool, int)>, d: SwayNode)
    requires
        descendant(tree, path) == Some(d),
        d.node_type == NodeType::Con || d.node_type == NodeType::FloatingCon,
        d.app_id matches Some(id) && id@ == seq!['h', 'e', 'l', 'i', 'u', 'm'],
    ensures
        helium_nodes(tree).contains(
            HeliumGeometry {
                x: d.rect.x,
                y: d.rect.y,
                width: d.rect.width,
                height: d.rect.height,
                fullscreen: d.fullscreen_mode matches Some(m) && m > 0,
                visible: d.visible == Some(true),
            },
        ),
        preferred(helium_nodes(tree)) is Some,
        d.visible == Some(true) ==> preferred(helium_nodes(tree))->Some_0.visible,
{
    lemma_descendant_candidate(tree, path, d);
    let g = node_geometry(d);
    let cands = helium_nodes(tree);
    lemma_preferred_is_last_of_best_visibility(cands);
    let k = choose|k: int| 0 <= k < cands.len() && cands[k] == g;
    if d.visible == Some(true) {
        assert(cands[k].visible);
    }
}

/// Whether `g` is the geometry of a browser window reached from `node` by `path`.
spec fn found_at(node: SwayNode, path: Seq<(bool, int)>, g: HeliumGeometry) -> bool {
    &&& descendant(node, path) is Some
    &&& node_matches(descendant(node, path)->Some_0)
    &&& node_geometry(descendant(node, path)->Some_0) == g
}

proof fn lemma_step_into(node: SwayNode, floating: bool, k: int, path: Seq<(bool, int)>)
    requires
        0 <= k < (if floating { node.floating_nodes@ } else { node.nodes@ }).len(),
    ensures
        descendant(node, seq![(floating, k)] + path) == descendant(
            (if floating { node.floating_nodes@ } else { node.nodes@ })[k],
            path,
        ),
{
    let p2 = seq![(floating, k)] + path;
    assert(p2[0] == (floating, k));
    assert(p2.drop_first() =~= path);
}

proof fn lemma_candidate_found(node: SwayNode, i: int)
    requires
        0 <= i < helium_nodes(node).len(),
    ensures
        exists|path: Seq<(bool, int)>| #[trigger] found_at(node, path, helium_nodes(node)[i]),
    decreases node, 1nat,
{
    let own = if node_matches(node) { seq![node_geometry(node)] } else { Seq::empty() };
    let tiled = helium_nodes_in(node.nodes@);
    let floating = helium_nodes_in(node.floating_nodes@);
    let g = helium_nodes(node)[i];
    if i < own.len() {
        assert(found_at(node, Seq::empty(), g));
    } else if i < own.len() + tiled.len() {
        assert(g == tiled[i - own.len()]);
        lemma_candidate_found_in(node.nodes@, i - own.len());
        let (k, path) = choose|k: int, path: Seq<(bool, int)>|
            0 <= k < node.nodes@.len() && #[trigger] found_at(node.nodes@[k], path, g);
        lemma_step_into(node, false, k, path);
        assert(found_at(node, seq![(false, k)] + path, g));
    } else {
        assert(g == floating[i - own.len() - tiled.len()]);
        lemma_candidate_found_in(node.floating_nodes@, i - own.len() - tiled.len());
        let (k, path) = choose|k: int, path: Seq<(bool, int)>|
            0 <= k < node.floating_nodes@.len() && #[trigger] found_at(node.floating_nodes@[k], path, g);
        lemma_step_into(node, true, k, path);
        assert(found_at(node, seq![(true, k)] + path, g));
    }
}

proof fn lemma_candidate_found_in(nodes: Seq<SwayNode>, i: int)
    requires
        0 <= i < helium_nodes_in(nodes).len(),
    ensures
        exists|k: int, path: Seq<(bool, int)>|
            0 <= k < nodes.len() && #[trigger] found_at(nodes[k], path, helium_nodes_in(nodes)[i]),
    decreases nodes, 0nat,
{
    let init = nodes.drop_last();
    let before = helium_nodes_in(init);
    let g = helium_nodes_in(nodes)[i];
    if i < before.len() {
        assert(g == before[i]);
        lemma_candidate_found_in(init, i);
        let (k, path) = choose|k: int, path: Seq<(bool, int)>|
            0 <= k < init.len() && #[trigger] found_at(init[k], path, g);
        assert(init[k] == nodes[k]);
        assert(found_at(nodes[k], path, g));
    } else {
        let last = nodes.len() - 1;
        assert(g == helium_nodes(nodes[last])[i - before.len()]);
        lemma_candidate_found(nodes[last], i - before.len());
        let path = choose|path: Seq<(bool, int)>| #[trigger] found_at(nodes[last], path, g);
        assert(found_at(nodes[last], path, g));
    }
}

/// The search finds nothing that is not a browser window of the tree: every
/// candidate is the rectangle, fullscreen state and visibility of a tiling or
/// floating container with app id "helium" reached from the root by some path.
pub proof fn lemma_every_candidate_is_a_browser_window(tree: SwayNode, i: int)
    requires
        0 <= i < helium_nodes(tree).len(),
    ensures
        exists|path: Seq<(bool, int)>| {
            &&& #[trigger] descendant(tree, path) matches Some(d)
            &&& d.node_type == NodeType::Con || d.node_type == NodeType::FloatingCon
            &&& d.app_id matches Some(id) && id@ == seq!['h', 'e', 'l', 'i', 'u', 'm']
            &&& helium_nodes(tree)[i] == HeliumGeometry {
                x: d.rect.x,
                y: d.rect.y,
                width: d.rect.width,
                height: d.rect.height,
                fullscreen: d.fullscreen_mode matches Some(m) && m > 0,
                visible: d.visible == Some(true),
            }
        },
{
    lemma_candidate_found(tree, i);
    let path = choose|path: Seq<(bool, int)>| #[trigger] found_at(tree, path, helium_nodes(tree)[i]);
    assert(descendant(tree, path) is Some);
}

} // verus!
