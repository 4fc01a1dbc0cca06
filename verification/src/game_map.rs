//! Procedural map generation: a grid of rooms joined by downward edges,
//! walked bottom row to top row, with room types assigned at the end. The
//! engine itself only reads the finished map through `GameMap`'s methods.

use vstd::prelude::*;
use crate::rng::rng_range;
use crate::state::{GameMap, MapNode, MAP_HEIGHT, MAP_WIDTH};
use crate::types::RoomType;

verus! {

pub const PATH_DENSITY: usize = 6;
pub const ANCESTOR_GAP_MIN: usize = 3;
pub const ANCESTOR_GAP_MAX: usize = 5;

/// A well-formed node grid: the fixed dimensions, and every edge target a
/// valid column.
pub open spec fn grid_wf(g: Vec<Vec<Option<MapNode>>>) -> bool {
    &&& g@.len() == MAP_HEIGHT
    &&& forall|y: int| 0 <= y < MAP_HEIGHT ==> (#[trigger] g@[y])@.len() == MAP_WIDTH
    &&& forall|y: int, x: int| 0 <= y < MAP_HEIGHT && 0 <= x < MAP_WIDTH
        ==> ((#[trigger] g@[y]@[x]) matches Some(n)
            ==> forall|k: int| 0 <= k < n.x_next@.len() ==> #[trigger] n.x_next@[k] < MAP_WIDTH)
}

pub fn initialize_nodes() -> (r: Vec<Vec<Option<MapNode>>>)
    ensures
        grid_wf(r),
        forall|y: int, x: int| 0 <= y < MAP_HEIGHT && 0 <= x < MAP_WIDTH
            ==> (#[trigger] r@[y]@[x]) is None,
{
    let mut nodes: Vec<Vec<Option<MapNode>>> = Vec::new();
    while nodes.len() < MAP_HEIGHT
        invariant
            nodes@.len() <= MAP_HEIGHT,
            forall|y: int| 0 <= y < nodes@.len() ==> (#[trigger] nodes@[y])@.len() == MAP_WIDTH,
            forall|y: int, x: int| 0 <= y < nodes@.len() && 0 <= x < MAP_WIDTH
                ==> (#[trigger] nodes@[y]@[x]) is None,
        decreases MAP_HEIGHT - nodes@.len(),
    {
        let mut row: Vec<Option<MapNode>> = Vec::new();
        while row.len() < MAP_WIDTH
            invariant
                row@.len() <= MAP_WIDTH,
                forall|x: int| 0 <= x < row@.len() ==> (#[trigger] row@[x]) is None,
            decreases MAP_WIDTH - row@.len(),
        {
            row.push(None);
        }
        nodes.push(row);
    }
    nodes
}

/// Replace the slot `(y, x)` of the grid.
fn set_node(nodes: &mut Vec<Vec<Option<MapNode>>>, y: usize, x: usize, node: Option<MapNode>)
    requires
        y < old(nodes)@.len(),
        x < old(nodes)@[y as int]@.len(),
    ensures
        final(nodes)@.len() == old(nodes)@.len(),
        final(nodes)@[y as int]@ == old(nodes)@[y as int]@.update(x as int, node),
        forall|y2: int| 0 <= y2 < old(nodes)@.len() && y2 != y
            ==> final(nodes)@[y2] == old(nodes)@[y2],
{
    let mut row = nodes.remove(y);
    row.remove(x);
    row.insert(x, node);
    nodes.insert(y, row);
    proof {
        assert(final(nodes)@[y as int]@ =~= old(nodes)@[y as int]@.update(x as int, node));
        assert forall|y2: int| 0 <= y2 < old(nodes)@.len() && y2 != y
            implies final(nodes)@[y2] == old(nodes)@[y2] by {
        }
    }
}

fn vec_contains(v: &Vec<usize>, val: usize) -> (r: bool)
    ensures
        r == v@.contains(val),
{
    let mut i: usize = 0;
    while i < v.len()
        invariant
            i <= v@.len(),
            forall|j: int| 0 <= j < i ==> v@[j] != val,
        decreases v@.len() - i,
    {
        if v[i] == val {
            proof {
                assert(v@.contains(val));
            }
            return true;
        }
        i = i + 1;
    }
    proof {
        assert(!v@.contains(val)) by {
            if v@.contains(val) {
                let j = choose|j: int| 0 <= j < v@.len() && v@[j] == val;
                assert(v@[j] != val);
            }
        }
    }
    false
}

/// Parents of `(y, x)`: the nodes of the row above with an edge into
/// column `x`, as `(row, column)` pairs.
fn get_node_parents(
    y: usize,
    x: usize,
    nodes: &Vec<Vec<Option<MapNode>>>,
) -> (r: Vec<(usize, usize)>)
    requires
        grid_wf(*nodes),
        y <= MAP_HEIGHT,
    ensures
        forall|j: int| 0 <= j < r@.len()
            ==> (#[trigger] r@[j]).0 < MAP_HEIGHT && r@[j].1 < MAP_WIDTH,
{
    let mut parents: Vec<(usize, usize)> = Vec::new();
    if y == 0 {
        return parents;
    }
    let y_parent = y - 1;
    let mut xi: usize = 0;
    while xi < MAP_WIDTH
        invariant
            grid_wf(*nodes),
            y_parent < MAP_HEIGHT,
            xi <= MAP_WIDTH,
            forall|j: int| 0 <= j < parents@.len()
                ==> (#[trigger] parents@[j]).0 < MAP_HEIGHT && parents@[j].1 < MAP_WIDTH,
        decreases MAP_WIDTH - xi,
    {
        if let Some(n) = &nodes[y_parent][xi] {
            if vec_contains(&n.x_next, x) {
                parents.push((y_parent, xi));
            }
        }
        xi = xi + 1;
    }
    parents
}

/// The entry with the largest column, later entries winning ties.
fn max_by_x(v: &Vec<(usize, usize)>) -> (r: Option<(usize, usize)>)
    ensures
        r is Some <==> v@.len() > 0,
        r matches Some(p) ==> v@.contains(p),
{
    if v.len() == 0 {
        return None;
    }
    let mut best = v[0];
    let mut i: usize = 1;
    while i < v.len()
        invariant
            1 <= i <= v@.len(),
            v@.len() > 0,
            v@.contains(best),
        decreases v@.len() - i,
    {
        if v[i].1 >= best.1 {
            best = v[i];
        }
        i = i + 1;
    }
    Some(best)
}

/// The entry with the smallest column, earlier entries winning ties.
fn min_by_x(v: &Vec<(usize, usize)>) -> (r: Option<(usize, usize)>)
    ensures
        r is Some <==> v@.len() > 0,
        r matches Some(p) ==> v@.contains(p),
{
    if v.len() == 0 {
        return None;
    }
    let mut best = v[0];
    let mut i: usize = 1;
    while i < v.len()
        invariant
            1 <= i <= v@.len(),
            v@.len() > 0,
            v@.contains(best),
        decreases v@.len() - i,
    {
        if v[i].1 < best.1 {
            best = v[i];
        }
        i = i + 1;
    }
    Some(best)
}

/// Nearest shared ancestor of two same-row nodes, if one lies within
/// `max_gap` rows.
fn get_common_ancestor(
    node1: (usize, usize),
    node2: (usize, usize),
    nodes: &Vec<Vec<Option<MapNode>>>,
    max_gap: usize,
) -> (r: Option<(usize, usize)>)
    requires
        grid_wf(*nodes),
        node1.0 <= MAP_HEIGHT,
        node2.0 <= MAP_HEIGHT,
    ensures
        r matches Some(p) ==> p.0 < MAP_HEIGHT && p.1 < MAP_WIDTH,
{
    if node1.0 != node2.0 || node1.1 == node2.1 {
        return None;
    }

    let (left, right) = if node1.1 < node2.0 { (node1, node2) } else { (node2, node1) };

    let parents_left = get_node_parents(left.0, left.1, nodes);
    if parents_left.len() == 0 {
        return None;
    }
    let parents_right = get_node_parents(right.0, right.1, nodes);
    if parents_right.len() == 0 {
        return None;
    }

    let mut y_cur = node1.0;
    let y_min = if node1.0 >= max_gap { node1.0 - max_gap } else { 0 };
    while y_cur >= y_min && y_cur > 0
        invariant
            parents_left@.len() > 0,
            parents_right@.len() > 0,
            forall|j: int| 0 <= j < parents_left@.len()
                ==> (#[trigger] parents_left@[j]).0 < MAP_HEIGHT
                    && parents_left@[j].1 < MAP_WIDTH,
        decreases y_cur,
    {
        let pl = match max_by_x(&parents_left) {
            Some(p) => p,
            None => { return None; },
        };
        let pr = match min_by_x(&parents_right) {
            Some(p) => p,
            None => { return None; },
        };
        if pl.0 == pr.0 && pl.1 == pr.1 {
            return Some(pl);
        }
        y_cur = y_cur - 1;
    }
    None
}

/// Pick the column of the next row to extend a path to, steering away from
/// columns that would merge freshly split paths and trimming crossings.
fn create_target(
    y_source: usize,
    x_source: usize,
    nodes: &Vec<Vec<Option<MapNode>>>,
    rng: &mut rand::rngs::SmallRng,
) -> (r: (usize, usize))
    requires
        grid_wf(*nodes),
        y_source < MAP_HEIGHT - 1,
        x_source < MAP_WIDTH,
    ensures
        r.0 == y_source + 1,
        r.1 < MAP_WIDTH,
{
    let y_target = y_source + 1;

    let offset_x: i64 = if x_source == 0 {
        rng_range(rng, 0, 1)
    } else if x_source == MAP_WIDTH - 1 {
        rng_range(rng, -1, 0)
    } else {
        rng_range(rng, -1, 1)
    };

    let mut xt: i64 = x_source as i64 + offset_x;
    if xt < 0 {
        xt = 0;
    }
    if xt > MAP_WIDTH as i64 - 1 {
        xt = MAP_WIDTH as i64 - 1;
    }
    let mut x_target: usize = xt as usize;

    // Steer away from targets that would share a recent ancestor with the
    // source path.
    let target_parents = get_node_parents(y_target, x_target, nodes);
    let mut pi: usize = 0;
    while pi < target_parents.len()
        invariant
            grid_wf(*nodes),
            y_source < MAP_HEIGHT - 1,
            y_target == y_source + 1,
            x_source < MAP_WIDTH,
            x_target < MAP_WIDTH,
            pi <= target_parents@.len(),
            forall|j: int| 0 <= j < target_parents@.len()
                ==> (#[trigger] target_parents@[j]).0 < MAP_HEIGHT
                    && target_parents@[j].1 < MAP_WIDTH,
        decreases target_parents@.len() - pi,
    {
        let parent = target_parents[pi];
        if !(parent.0 == y_source && parent.1 == x_source) {
            if let Some(ancestor) = get_common_ancestor(
                parent,
                (y_source, x_source),
                nodes,
                ANCESTOR_GAP_MAX,
            ) {
                let ancestor_gap: i64 = y_target as i64 - ancestor.0 as i64;
                if ancestor_gap < ANCESTOR_GAP_MIN as i64 {
                    let new_offset: i64 = if x_target > x_source {
                        rng_range(rng, -1, 0)
                    } else if x_target == x_source {
                        rng_range(rng, -1, 1)
                    } else {
                        rng_range(rng, 0, 1)
                    };
                    let mut nx: i64 = x_source as i64 + new_offset;
                    if nx < 0 {
                        nx = 0;
                    }
                    if nx > MAP_WIDTH as i64 - 1 {
                        nx = MAP_WIDTH as i64 - 1;
                    }
                    x_target = nx as usize;
                }
            }
        }
        pi = pi + 1;
    }

    // Prevent edge crossings: adopt the left neighbour's furthest-right
    // target and the right neighbour's furthest-left target.
    if x_source > 0 {
        let x_left = x_source - 1;
        if let Some(node_left) = &nodes[y_source][x_left] {
            let mut k: usize = 0;
            while k < node_left.x_next.len()
                invariant
                    grid_wf(*nodes),
                    y_source < MAP_HEIGHT,
                    x_left < MAP_WIDTH,
                    x_target < MAP_WIDTH,
                    k <= node_left.x_next@.len(),
                    nodes@[y_source as int]@[x_left as int] == Some(*node_left),
                decreases node_left.x_next@.len() - k,
            {
                let x_t = node_left.x_next[k];
                if x_t > x_target {
                    x_target = x_t;
                }
                k = k + 1;
            }
        }
    }

    if x_source < MAP_WIDTH - 1 {
        let x_right = x_source + 1;
        if let Some(node_right) = &nodes[y_source][x_right] {
            let mut k: usize = 0;
            while k < node_right.x_next.len()
                invariant
                    x_target < MAP_WIDTH,
                    k <= node_right.x_next@.len(),
                decreases node_right.x_next@.len() - k,
            {
                let x_t = node_right.x_next[k];
                if x_t < x_target {
                    x_target = x_t;
                }
                k = k + 1;
            }
        }
    }

    (y_target, x_target)
}

/// Drop duplicate first-row edges (several start nodes reaching the same
/// second-row column), and start nodes left with no edges at all.
fn trim_redundant_first_row_edges(nodes: &mut Vec<Vec<Option<MapNode>>>)
    requires
        grid_wf(*old(nodes)),
    ensures
        grid_wf(*final(nodes)),
{
    let mut x_seen: Vec<usize> = Vec::new();
    let mut x_remove: Vec<usize> = Vec::new();

    let mut x_source: usize = 0;
    while x_source < MAP_WIDTH
        invariant
            grid_wf(*nodes),
            x_source <= MAP_WIDTH,
            forall|j: int| 0 <= j < x_remove@.len() ==> #[trigger] x_remove@[j] < MAP_WIDTH,
        decreases MAP_WIDTH - x_source,
    {
        let node = match &nodes[0][x_source] {
            Some(n) => {
                let mut kept: Vec<usize> = Vec::new();
                let mut k: usize = 0;
                while k < n.x_next.len()
                    invariant
                        forall|j: int| 0 <= j < n.x_next@.len()
                            ==> #[trigger] n.x_next@[j] < MAP_WIDTH,
                        forall|j: int| 0 <= j < kept@.len()
                            ==> #[trigger] kept@[j] < MAP_WIDTH,
                        k <= n.x_next@.len(),
                    decreases n.x_next@.len() - k,
                {
                    let x = n.x_next[k];
                    if !vec_contains(&x_seen, x) {
                        x_seen.push(x);
                        kept.push(x);
                    }
                    k = k + 1;
                }
                if kept.len() == 0 {
                    x_remove.push(x_source);
                }
                Some(MapNode {
                    y: n.y,
                    x: n.x,
                    room_type: n.room_type,
                    x_next: kept,
                })
            },
            None => None,
        };
        set_node(nodes, 0, x_source, node);
        proof {
            assert forall|y: int, x: int| 0 <= y < MAP_HEIGHT && 0 <= x < MAP_WIDTH
                implies ((#[trigger] nodes@[y]@[x]) matches Some(n)
                    ==> forall|k2: int| 0 <= k2 < n.x_next@.len()
                        ==> #[trigger] n.x_next@[k2] < MAP_WIDTH) by {
            }
        }
        x_source = x_source + 1;
    }

    let mut ri: usize = 0;
    while ri < x_remove.len()
        invariant
            grid_wf(*nodes),
            ri <= x_remove@.len(),
            forall|j: int| 0 <= j < x_remove@.len() ==> #[trigger] x_remove@[j] < MAP_WIDTH,
        decreases x_remove@.len() - ri,
    {
        let x = x_remove[ri];
        set_node(nodes, 0, x, None);
        ri = ri + 1;
    }
}

/// Assign room types: a quarter of the nodes become rest sites, shuffled
/// among the positions; the last row is forced to all rest sites.
fn assign_room_types(nodes: &mut Vec<Vec<Option<MapNode>>>, rng: &mut rand::rngs::SmallRng)
    requires
        grid_wf(*old(nodes)),
    ensures
        grid_wf(*final(nodes)),
        forall|x: int| 0 <= x < MAP_WIDTH
            ==> ((#[trigger] final(nodes)@[MAP_HEIGHT - 1]@[x]) matches Some(n)
                ==> n.room_type == RoomType::RestSite),
{
    // Collect all occupied positions.
    let mut positions: Vec<(usize, usize)> = Vec::new();
    let mut y: usize = 0;
    while y < MAP_HEIGHT
        invariant
            grid_wf(*nodes),
            y <= MAP_HEIGHT,
            positions@.len() <= y * MAP_WIDTH,
            forall|j: int| 0 <= j < positions@.len()
                ==> (#[trigger] positions@[j]).0 < MAP_HEIGHT && positions@[j].1 < MAP_WIDTH,
        decreases MAP_HEIGHT - y,
    {
        let mut x: usize = 0;
        while x < MAP_WIDTH
            invariant
                grid_wf(*nodes),
                y < MAP_HEIGHT,
                x <= MAP_WIDTH,
                positions@.len() <= y * MAP_WIDTH + x,
                forall|j: int| 0 <= j < positions@.len()
                    ==> (#[trigger] positions@[j]).0 < MAP_HEIGHT && positions@[j].1 < MAP_WIDTH,
            decreases MAP_WIDTH - x,
        {
            if nodes[y][x].is_some() {
                positions.push((y, x));
            }
            x = x + 1;
        }
        y = y + 1;
    }

    let num_nodes = positions.len();
    proof {
        assert(num_nodes <= MAP_HEIGHT * MAP_WIDTH);
    }
    let num_rest = num_nodes / 4;

    let mut types: Vec<RoomType> = Vec::new();
    while types.len() < num_nodes
        invariant
            types@.len() <= num_nodes,
        decreases num_nodes - types@.len(),
    {
        if types.len() < num_rest {
            types.push(RoomType::RestSite);
        } else {
            types.push(RoomType::CombatMonster);
        }
    }

    // Shuffle the type list.
    let mut i: usize = types.len();
    while i > 1
        invariant
            types@.len() == num_nodes,
            num_nodes <= MAP_HEIGHT * MAP_WIDTH,
            i <= types@.len(),
        decreases i,
    {
        i = i - 1;
        let j = rng_range(rng, 0, i as i64) as usize;
        let a = types[i];
        let b = types[j];
        let mut t2 = types;
        t2.remove(i);
        t2.insert(i, b);
        t2.remove(j);
        t2.insert(j, a);
        types = t2;
    }

    // Write the types back onto the occupied positions.
    let mut p: usize = 0;
    while p < positions.len()
        invariant
            grid_wf(*nodes),
            p <= positions@.len(),
            types@.len() == num_nodes,
            num_nodes == positions@.len(),
            forall|j: int| 0 <= j < positions@.len()
                ==> (#[trigger] positions@[j]).0 < MAP_HEIGHT && positions@[j].1 < MAP_WIDTH,
        decreases positions@.len() - p,
    {
        let (py, px) = positions[p];
        let replacement = match &nodes[py][px] {
            Some(n) => Some(MapNode {
                y: n.y,
                x: n.x,
                room_type: types[p],
                x_next: {
                    let mut c: Vec<usize> = Vec::new();
                    let mut k: usize = 0;
                    while k < n.x_next.len()
                        invariant
                            forall|j: int| 0 <= j < n.x_next@.len()
                                ==> #[trigger] n.x_next@[j] < MAP_WIDTH,
                            forall|j: int| 0 <= j < c@.len() ==> #[trigger] c@[j] < MAP_WIDTH,
                            k <= n.x_next@.len(),
                        decreases n.x_next@.len() - k,
                    {
                        c.push(n.x_next[k]);
                        k = k + 1;
                    }
                    c
                },
            }),
            None => None,
        };
        set_node(nodes, py, px, replacement);
        p = p + 1;
    }

    // The final row holds only rest sites.
    let mut x: usize = 0;
    while x < MAP_WIDTH
        invariant
            grid_wf(*nodes),
            x <= MAP_WIDTH,
            forall|x2: int| 0 <= x2 < x
                ==> ((#[trigger] nodes@[MAP_HEIGHT - 1]@[x2]) matches Some(n)
                    ==> n.room_type == RoomType::RestSite),
        decreases MAP_WIDTH - x,
    {
        let replacement = match &nodes[MAP_HEIGHT - 1][x] {
            Some(n) => Some(MapNode {
                y: n.y,
                x: n.x,
                room_type: RoomType::RestSite,
                x_next: {
                    let mut c: Vec<usize> = Vec::new();
                    let mut k: usize = 0;
                    while k < n.x_next.len()
                        invariant
                            forall|j: int| 0 <= j < n.x_next@.len()
                                ==> #[trigger] n.x_next@[j] < MAP_WIDTH,
                            forall|j: int| 0 <= j < c@.len() ==> #[trigger] c@[j] < MAP_WIDTH,
                            k <= n.x_next@.len(),
                        decreases n.x_next@.len() - k,
                    {
                        c.push(n.x_next[k]);
                        k = k + 1;
                    }
                    c
                },
            }),
            None => None,
        };
        set_node(nodes, MAP_HEIGHT - 1, x, replacement);
        x = x + 1;
    }
}

/// Generate a fresh map: trace `PATH_DENSITY` downward paths through the
/// grid, then trim redundant first-row edges and assign room types. The
/// result is well-formed, has no active position, and its bottom-most
/// playable row holds only rest sites.
pub fn generate_map(rng: &mut rand::rngs::SmallRng) -> (r: GameMap)
    ensures
        r.wf(),
        grid_wf(r.nodes),
        r.active_y is None,
        r.active_x is None,
        forall|x: int| 0 <= x < MAP_WIDTH
            ==> ((#[trigger] r.nodes@[MAP_HEIGHT - 1]@[x]) matches Some(n)
                ==> n.room_type == RoomType::RestSite),
{
    let mut nodes = initialize_nodes();

    let mut x_source_first: usize = 0;

    let mut d: usize = 0;
    while d < PATH_DENSITY
        invariant
            grid_wf(nodes),
            x_source_first < MAP_WIDTH,
        decreases PATH_DENSITY - d,
    {
        let mut x_source: usize = rng_range(rng, 0, MAP_WIDTH as i64 - 1) as usize;
        if d == 0 {
            x_source_first = x_source;
        }
        if d == 1 && x_source == x_source_first {
            // Redraw uniformly among the other columns in one draw.
            let alt = rng_range(rng, 0, MAP_WIDTH as i64 - 2) as usize;
            x_source = if alt >= x_source_first { alt + 1 } else { alt };
        }

        let mut y_source: usize = 0;
        if nodes[y_source][x_source].is_none() {
            set_node(&mut nodes, y_source, x_source, Some(MapNode {
                y: y_source,
                x: x_source,
                room_type: RoomType::CombatMonster,
                x_next: Vec::new(),
            }));
        }

        while y_source < MAP_HEIGHT - 1
            invariant
                grid_wf(nodes),
                x_source < MAP_WIDTH,
            decreases MAP_HEIGHT - y_source,
        {
            let (y_target, x_target) = create_target(y_source, x_source, &nodes, rng);

            if nodes[y_target][x_target].is_none() {
                set_node(&mut nodes, y_target, x_target, Some(MapNode {
                    y: y_target,
                    x: x_target,
                    room_type: RoomType::CombatMonster,
                    x_next: Vec::new(),
                }));
            }

            // Add the edge from the source node, if not already present.
            let replacement = match &nodes[y_source][x_source] {
                Some(n) => {
                    let mut c: Vec<usize> = Vec::new();
                    let mut k: usize = 0;
                    while k < n.x_next.len()
                        invariant
                            forall|j: int| 0 <= j < n.x_next@.len()
                                ==> #[trigger] n.x_next@[j] < MAP_WIDTH,
                            forall|j: int| 0 <= j < c@.len() ==> #[trigger] c@[j] < MAP_WIDTH,
                            k <= n.x_next@.len(),
                        decreases n.x_next@.len() - k,
                    {
                        c.push(n.x_next[k]);
                        k = k + 1;
                    }
                    if !vec_contains(&c, x_target) {
                        c.push(x_target);
                    }
                    Some(MapNode { y: n.y, x: n.x, room_type: n.room_type, x_next: c })
                },
                None => None,
            };
            set_node(&mut nodes, y_source, x_source, replacement);

            y_source = y_target;
            x_source = x_target;
        }

        d = d + 1;
    }

    trim_redundant_first_row_edges(&mut nodes);
    assign_room_types(&mut nodes, rng);

    GameMap {
        nodes,
        active_y: None,
        active_x: None,
        boss_room_y: MAP_HEIGHT,
    }
}

} // verus!
