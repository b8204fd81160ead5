//! Ordering paths so that what lies below a path comes before it.

use vstd::prelude::*;
use vstd::string::*;
use crate::path::is_relative;
use crate::path::is_same_path;
use crate::path::lemma_below_is_deeper;
use crate::path::path_below;
use crate::path::path_components;
use crate::path::path_is_relative;
use crate::path::starts_with;
use crate::text::views;

verus! {

/// Whether every path comes before the paths that it lies below.
pub open spec fn descendants_first(sorted: Seq<Seq<char>>) -> bool {
    forall|i: int, j: int|
        0 <= i < sorted.len() && 0 <= j < sorted.len() && path_below(
            #[trigger] sorted[i],
            #[trigger] sorted[j],
        ) ==> i < j
}

/// Whether `order` holds each of the numbers from `0` up to `n` once.
pub open spec fn is_index_permutation(order: Seq<int>, n: int) -> bool {
    &&& order.len() == n
    &&& forall|k: int| 0 <= k < n ==> 0 <= #[trigger] order[k] < n
    &&& forall|j: int, k: int| 0 <= j < k < n ==> #[trigger] order[j] != #[trigger] order[k]
}

/// The positions of `order` as integers.
pub open spec fn as_ints(order: Seq<usize>) -> Seq<int> {
    order.map_values(|x: usize| x as int)
}

/// `output` as `input` read in the order `order`.
pub open spec fn is_reordering_by(input: Seq<Seq<char>>, output: Seq<Seq<char>>, order: Seq<int>) -> bool {
    &&& is_index_permutation(order, input.len() as int)
    &&& output.len() == input.len()
    &&& forall|k: int| 0 <= k < output.len() ==> #[trigger] output[k] == input[order[k]]
}

/// Whether `output` holds the items of `input` in some order: every item as often
/// as `input` holds it.
pub open spec fn is_reordering(input: Seq<Seq<char>>, output: Seq<Seq<char>>) -> bool {
    exists|order: Seq<int>| #[trigger] is_reordering_by(input, output, order)
}

/// The position of the first relative path of `paths`, or `paths.len()`.
pub open spec fn spec_first_relative(paths: Seq<Seq<char>>) -> int
    decreases paths.len(),
{
    if paths.len() == 0 {
        0
    } else if spec_first_relative(paths.drop_last()) < paths.len() - 1 {
        spec_first_relative(paths.drop_last())
    } else if path_is_relative(paths.last()) {
        paths.len() - 1
    } else {
        paths.len() as int
    }
}

/// The position that is found holds a relative path unless it is the end, and no
/// relative path comes before it.
pub proof fn lemma_first_relative(paths: Seq<Seq<char>>)
    ensures
        0 <= spec_first_relative(paths) <= paths.len(),
        spec_first_relative(paths) < paths.len() ==> path_is_relative(
            paths[spec_first_relative(paths)],
        ),
        forall|k: int| 0 <= k < spec_first_relative(paths) ==> !path_is_relative(#[trigger] paths[k]),
    decreases paths.len(),
{
    if paths.len() > 0 {
        lemma_first_relative(paths.drop_last());
        assert forall|k: int| 0 <= k < spec_first_relative(paths) implies !path_is_relative(
            #[trigger] paths[k],
        ) by {
            if k < paths.len() - 1 {
                assert(paths.drop_last()[k] == paths[k]);
            }
        }
        if spec_first_relative(paths.drop_last()) < paths.len() - 1 {
            assert(paths.drop_last()[spec_first_relative(paths.drop_last())]
                == paths[spec_first_relative(paths.drop_last())]);
        }
    }
}

/// A path that cannot be ordered because it is relative.
#[derive(Debug, PartialEq, Eq)]
pub struct RelativePathError {
    pub path: String,
}

impl RelativePathError {
    /// The message of the error.
    pub fn to_string(&self) -> (text: String)
        ensures
            text@ == "Path is relative: "@ + self.path@,
    {
        String::from_str("Path is relative: ").concat(self.path.as_str())
    }
}

/// Whether row `i` of the table `m` marks column `j`: item `i` must come before item `j`.
spec fn edge(m: Seq<Vec<bool>>, i: int, j: int) -> bool {
    m[i]@[j]
}

/// A square table whose marks lead from deeper items to shallower ones.
spec fn is_graph(m: Seq<Vec<bool>>, depth: Seq<nat>) -> bool {
    &&& depth.len() == m.len()
    &&& forall|i: int| 0 <= i < m.len() ==> (#[trigger] m[i])@.len() == m.len()
    &&& forall|i: int, j: int|
        0 <= i < m.len() && 0 <= j < m.len() && #[trigger] edge(m, i, j) ==> depth[i] > depth[j]
}

/// How many of the first `upto` items must come before `j` and have no place yet.
spec fn pending(m: Seq<Vec<bool>>, pos: Seq<int>, j: int, upto: int) -> nat
    decreases upto,
{
    if upto <= 0 {
        0
    } else {
        pending(m, pos, j, upto - 1) + if edge(m, upto - 1, j) && pos[upto - 1] < 0 {
            1nat
        } else {
            0nat
        }
    }
}

/// How many of the first `upto` items have a place.
spec fn placed(pos: Seq<int>, upto: int) -> nat
    decreases upto,
{
    if upto <= 0 {
        0
    } else {
        placed(pos, upto - 1) + if pos[upto - 1] >= 0 {
            1nat
        } else {
            0nat
        }
    }
}

/// The greatest of the first `upto` depths.
spec fn max_depth(depth: Seq<nat>, upto: int) -> nat
    decreases upto,
{
    if upto <= 0 {
        0
    } else if depth[upto - 1] > max_depth(depth, upto - 1) {
        depth[upto - 1]
    } else {
        max_depth(depth, upto - 1)
    }
}

proof fn lemma_max_depth(depth: Seq<nat>, upto: int, i: int)
    requires
        0 <= i < upto <= depth.len(),
    ensures
        depth[i] <= max_depth(depth, upto),
    decreases upto,
{
    if i < upto - 1 {
        lemma_max_depth(depth, upto - 1, i);
    }
}

proof fn lemma_pending_place(m: Seq<Vec<bool>>, pos: Seq<int>, x: int, at: int, j: int, upto: int)
    requires
        0 <= x < pos.len(),
        pos[x] < 0,
        at >= 0,
        0 <= upto <= pos.len(),
    ensures
        pending(m, pos, j, upto) == pending(m, pos.update(x, at), j, upto) + if x < upto && edge(
            m,
            x,
            j,
        ) {
            1nat
        } else {
            0nat
        },
    decreases upto,
{
    if upto > 0 {
        lemma_pending_place(m, pos, x, at, j, upto - 1);
    }
}

proof fn lemma_pending_none(m: Seq<Vec<bool>>, pos: Seq<int>, j: int, upto: int)
    requires
        pending(m, pos, j, upto) == 0,
    ensures
        forall|i: int| 0 <= i < upto && #[trigger] edge(m, i, j) ==> pos[i] >= 0,
    decreases upto,
{
    if upto > 0 {
        lemma_pending_none(m, pos, j, upto - 1);
    }
}

proof fn lemma_pending_some(m: Seq<Vec<bool>>, pos: Seq<int>, j: int, upto: int) -> (i: int)
    requires
        pending(m, pos, j, upto) > 0,
    ensures
        0 <= i < upto,
        edge(m, i, j),
        pos[i] < 0,
    decreases upto,
{
    if edge(m, upto - 1, j) && pos[upto - 1] < 0 {
        upto - 1
    } else {
        lemma_pending_some(m, pos, j, upto - 1)
    }
}

proof fn lemma_placed_place(pos: Seq<int>, x: int, at: int, upto: int)
    requires
        0 <= x < pos.len(),
        pos[x] < 0,
        at >= 0,
        0 <= upto <= pos.len(),
    ensures
        placed(pos.update(x, at), upto) == placed(pos, upto) + if x < upto {
            1nat
        } else {
            0nat
        },
        placed(pos, upto) <= upto,
        x < upto ==> placed(pos, upto) < upto,
    decreases upto,
{
    if upto > 0 {
        lemma_placed_place(pos, x, at, upto - 1);
    }
}

proof fn lemma_placed_all(pos: Seq<int>, upto: int)
    requires
        0 <= upto <= pos.len(),
        forall|i: int| 0 <= i < upto ==> #[trigger] pos[i] >= 0,
    ensures
        placed(pos, upto) == upto,
    decreases upto,
{
    if upto > 0 {
        lemma_placed_all(pos, upto - 1);
    }
}

/// What holds between the rounds of the sort. `pos` gives each placed item its place
/// in `out`, `qpos` each waiting item its place in `queue`; both are `-1` elsewhere.
spec fn sorting(
    m: Seq<Vec<bool>>,
    out: Seq<usize>,
    queue: Seq<usize>,
    indeg: Seq<usize>,
    pos: Seq<int>,
    qpos: Seq<int>,
) -> bool {
    let n = m.len();
    &&& pos.len() == n
    &&& qpos.len() == n
    &&& indeg.len() == n
    &&& placed(pos, n as int) == out.len()
    &&& forall|a: int| 0 <= a < out.len() ==> (#[trigger] out[a]) < n && pos[out[a] as int] == a
    &&& forall|i: int|
        0 <= i < n ==> -1 <= #[trigger] pos[i] < out.len() && (pos[i] >= 0 ==> out[pos[i]] == i)
    &&& forall|i: int, j: int|
        0 <= i < n && 0 <= j < n && #[trigger] edge(m, i, j) && pos[j] >= 0 ==> 0 <= pos[i] < pos[j]
    &&& forall|q: int|
        0 <= q < queue.len() ==> {
            &&& (#[trigger] queue[q]) < n
            &&& qpos[queue[q] as int] == q
            &&& pos[queue[q] as int] < 0
            &&& indeg[queue[q] as int] == 0
        }
    &&& forall|j: int|
        0 <= j < n ==> -1 <= #[trigger] qpos[j] < queue.len() && (qpos[j] >= 0 ==> queue[qpos[j]] == j)
}

/// The count of each item is right, and every item that waits for nothing is queued.
spec fn counted(m: Seq<Vec<bool>>, indeg: Seq<usize>, pos: Seq<int>, qpos: Seq<int>) -> bool {
    let n = m.len() as int;
    &&& forall|j: int| 0 <= j < n ==> #[trigger] indeg[j] == pending(m, pos, j, n)
    &&& forall|j: int| 0 <= j < n && pos[j] < 0 && #[trigger] indeg[j] == 0 ==> qpos[j] >= 0
}

/// With an empty queue no item is left without a place: an item without one would
/// wait for a deeper item without one, and depths are bounded.
proof fn lemma_none_left(
    m: Seq<Vec<bool>>,
    depth: Seq<nat>,
    indeg: Seq<usize>,
    pos: Seq<int>,
    qpos: Seq<int>,
    j: int,
)
    requires
        is_graph(m, depth),
        pos.len() == m.len(),
        indeg.len() == m.len(),
        counted(m, indeg, pos, qpos),
        forall|k: int| 0 <= k < m.len() ==> #[trigger] qpos[k] < 0,
        0 <= j < m.len(),
    ensures
        pos[j] >= 0,
    decreases max_depth(depth, m.len() as int) - depth[j],
{
    if pos[j] < 0 {
        let n = m.len() as int;
        assert(indeg[j] == pending(m, pos, j, n));
        assert(qpos[j] < 0);
        assert(indeg[j] != 0);
        let i = lemma_pending_some(m, pos, j, n);
        assert(edge(m, i, j));
        lemma_max_depth(depth, n, i);
        lemma_none_left(m, depth, indeg, pos, qpos, i);
    }
}

/// Kahn's algorithm on the table `m`: repeatedly takes an item that waits for
/// nothing, places it, and lowers the count of the items that waited for it.
#[verifier::rlimit(50)]
fn sort_indices(m: &Vec<Vec<bool>>, Ghost(depth): Ghost<Seq<nat>>) -> (out: Vec<usize>)
    requires
        is_graph(m@, depth),
    ensures
        out@.len() == m@.len(),
        forall|a: int| 0 <= a < out@.len() ==> (#[trigger] out@[a]) < m@.len(),
        forall|a: int, b: int| 0 <= a < b < out@.len() ==> #[trigger] out@[a] != #[trigger] out@[b],
        forall|a: int, b: int|
            0 <= a < out@.len() && 0 <= b < out@.len() && #[trigger] edge(
                m@,
                out@[a] as int,
                out@[b] as int,
            ) ==> a < b,
{
    let n = m.len();
    let ghost unplaced = Seq::new(n as nat, |i: int| -1int);
    let mut indeg: Vec<usize> = Vec::new();
    let mut j: usize = 0;
    while j < n
        invariant
            n == m@.len(),
            is_graph(m@, depth),
            j <= n,
            indeg@.len() == j,
            unplaced == Seq::new(n as nat, |i: int| -1int),
            forall|k: int| 0 <= k < j ==> #[trigger] indeg@[k] == pending(m@, unplaced, k, n as int),
        decreases n - j,
    {
        let mut count: usize = 0;
        let mut i: usize = 0;
        while i < n
            invariant
                n == m@.len(),
                is_graph(m@, depth),
                j < n,
                i <= n,
                count <= i,
                count == pending(m@, unplaced, j as int, i as int),
                unplaced == Seq::new(n as nat, |i: int| -1int),
            decreases n - i,
        {
            if m[i][j] {
                count = count + 1;
            }
            i = i + 1;
        }
        indeg.push(count);
        j = j + 1;
    }
    let mut queue: Vec<usize> = Vec::new();
    let ghost mut qpos = Seq::new(n as nat, |i: int| -1int);
    let mut j: usize = 0;
    while j < n
        invariant
            n == m@.len(),
            j <= n,
            indeg@.len() == n,
            qpos.len() == n,
            queue@.len() <= j,
            forall|q: int|
                0 <= q < queue@.len() ==> {
                    &&& (#[trigger] queue@[q]) < j
                    &&& qpos[queue@[q] as int] == q
                    &&& indeg@[queue@[q] as int] == 0
                },
            forall|k: int|
                0 <= k < n ==> -1 <= #[trigger] qpos[k] < queue@.len() && (qpos[k] >= 0 ==> queue@[qpos[k]]
                    == k),
            forall|k: int| 0 <= k < j && #[trigger] indeg@[k] == 0 ==> qpos[k] >= 0,
            forall|k: int| j <= k < n ==> #[trigger] qpos[k] == -1,
        decreases n - j,
    {
        if indeg[j] == 0 {
            proof {
                qpos = qpos.update(j as int, queue@.len() as int);
            }
            queue.push(j);
        }
        j = j + 1;
    }
    let mut out: Vec<usize> = Vec::new();
    let ghost mut pos = unplaced;
    proof {
        lemma_placed_none(pos, n as int);
    }
    while queue.len() > 0
        invariant
            n == m@.len(),
            is_graph(m@, depth),
            sorting(m@, out@, queue@, indeg@, pos, qpos),
            counted(m@, indeg@, pos, qpos),
        decreases n - out@.len(),
    {
        let x = queue[queue.len() - 1];
        let ghost old_pos = pos;
        let ghost old_qpos = qpos;
        let ghost old_queue = queue@;
        let ghost old_out = out@;
        proof {
            assert(old_queue[old_queue.len() - 1] == x);
            lemma_placed_place(pos, x as int, out@.len() as int, n as int);
            lemma_pending_none(m@, pos, x as int, n as int);
            assert(indeg@[x as int] == pending(m@, pos, x as int, n as int));
            pos = pos.update(x as int, out@.len() as int);
            qpos = qpos.update(x as int, -1);
        }
        queue.pop();
        out.push(x);
        proof {
            assert forall|i: int, k: int|
                0 <= i < n && 0 <= k < n && #[trigger] edge(m@, i, k) && pos[k] >= 0 implies 0 <= pos[i]
                < pos[k] by {
                if k == x {
                    assert(old_pos[i] >= 0);
                } else {
                    assert(old_pos[k] >= 0);
                }
            }
            assert forall|q: int| 0 <= q < queue@.len() implies {
                &&& (#[trigger] queue@[q]) < n
                &&& qpos[queue@[q] as int] == q
                &&& pos[queue@[q] as int] < 0
                &&& indeg@[queue@[q] as int] == 0
            } by {
                assert(queue@[q] == old_queue[q]);
                assert(old_qpos[old_queue[q] as int] == q);
            }
            assert forall|a: int| 0 <= a < out@.len() implies (#[trigger] out@[a]) < n && pos[out@[a] as int]
                == a by {
                if a < old_out.len() {
                    assert(out@[a] == old_out[a]);
                }
            }
            assert forall|k: int| 0 <= k < n implies -1 <= #[trigger] qpos[k] < queue@.len() && (qpos[k]
                >= 0 ==> queue@[qpos[k]] == k) by {
                if k != x {
                    assert(old_qpos[k] == qpos[k]);
                    if qpos[k] >= 0 {
                        assert(old_queue[old_qpos[k]] == k);
                    }
                }
            }
            assert(sorting(m@, out@, queue@, indeg@, pos, qpos));
        }
        let mut j: usize = 0;
        while j < n
            invariant
                n == m@.len(),
                is_graph(m@, depth),
                j <= n,
                x < n,
                old_pos.len() == n,
                old_pos[x as int] < 0,
                out@.len() >= 1,
                pos == old_pos.update(x as int, out@.len() - 1),
                sorting(m@, out@, queue@, indeg@, pos, qpos),
                forall|k: int|
                    0 <= k < n ==> #[trigger] indeg@[k] == if k < j {
                        pending(m@, pos, k, n as int)
                    } else {
                        pending(m@, old_pos, k, n as int)
                    },
                forall|k: int| 0 <= k < n && pos[k] < 0 && #[trigger] indeg@[k] == 0 ==> qpos[k] >= 0,
            decreases n - j,
        {
            proof {
                lemma_pending_place(m@, old_pos, x as int, out@.len() - 1, j as int, n as int);
            }
            if m[x][j] {
                assert(edge(m@, x as int, j as int));
                let ghost before_queue = queue@;
                let ghost before_indeg = indeg@;
                let waiting = indeg[j] - 1;
                indeg.set(j, waiting);
                proof {
                    assert(qpos[j as int] < 0) by {
                        if qpos[j as int] >= 0 {
                            assert(before_queue[qpos[j as int]] == j);
                            assert(before_indeg[before_queue[qpos[j as int]] as int] == 0);
                        }
                    }
                    assert forall|q: int| 0 <= q < queue@.len() implies indeg@[(
                    #[trigger] queue@[q]) as int] == 0 by {
                        assert(qpos[queue@[q] as int] == q);
                    }
                }
                if waiting == 0 {
                    proof {
                        assert(pos[j as int] < 0) by {
                            if pos[j as int] >= 0 {
                                assert(0 <= pos[x as int] < pos[j as int]);
                            }
                        }
                        qpos = qpos.update(j as int, queue@.len() as int);
                    }
                    queue.push(j);
                    proof {
                        assert forall|q: int| 0 <= q < queue@.len() implies {
                            &&& (#[trigger] queue@[q]) < n
                            &&& qpos[queue@[q] as int] == q
                            &&& pos[queue@[q] as int] < 0
                            &&& indeg@[queue@[q] as int] == 0
                        } by {
                            if q < before_queue.len() {
                                assert(queue@[q] == before_queue[q]);
                            }
                        }
                        assert forall|k: int| 0 <= k < n implies -1 <= #[trigger] qpos[k] < queue@.len()
                            && (qpos[k] >= 0 ==> queue@[qpos[k]] == k) by {
                            if k != j && qpos[k] >= 0 {
                                assert(queue@[qpos[k]] == before_queue[qpos[k]]);
                            }
                        }
                    }
                }
                assert(sorting(m@, out@, queue@, indeg@, pos, qpos));
            }
            j = j + 1;
        }
    }
    proof {
        assert forall|k: int| 0 <= k < n implies pos[k] >= 0 by {
            lemma_none_left(m@, depth, indeg@, pos, qpos, k);
        }
        lemma_placed_all(pos, n as int);
        assert forall|a: int, b: int| 0 <= a < b < out@.len() implies #[trigger] out@[a]
            != #[trigger] out@[b] by {
            assert(pos[out@[a] as int] == a);
            assert(pos[out@[b] as int] == b);
        }
        assert forall|a: int, b: int|
            0 <= a < out@.len() && 0 <= b < out@.len() && #[trigger] edge(
                m@,
                out@[a] as int,
                out@[b] as int,
            ) implies a < b by {
            assert(pos[out@[a] as int] == a);
            assert(pos[out@[b] as int] == b);
        }
    }
    out
}

proof fn lemma_placed_none(pos: Seq<int>, upto: int)
    requires
        0 <= upto <= pos.len(),
        forall|i: int| 0 <= i < upto ==> #[trigger] pos[i] < 0,
    ensures
        placed(pos, upto) == 0,
    decreases upto,
{
    if upto > 0 {
        lemma_placed_none(pos, upto - 1);
    }
}

/// The table of "lies below" among `paths`: row `i` marks column `j` where path `i`
/// lies below path `j`.
fn below_table(paths: &Vec<String>) -> (m: Vec<Vec<bool>>)
    ensures
        m@.len() == paths@.len(),
        forall|i: int| 0 <= i < m@.len() ==> (#[trigger] m@[i])@.len() == paths@.len(),
        forall|i: int, j: int|
            0 <= i < paths@.len() && 0 <= j < paths@.len() ==> #[trigger] edge(m@, i, j) == path_below(
                paths@[i]@,
                paths@[j]@,
            ),
{
    let n = paths.len();
    let mut m: Vec<Vec<bool>> = Vec::new();
    let mut i: usize = 0;
    while i < n
        invariant
            n == paths@.len(),
            i <= n,
            m@.len() == i,
            forall|k: int| 0 <= k < i ==> (#[trigger] m@[k])@.len() == n,
            forall|k: int, j: int|
                0 <= k < i && 0 <= j < n ==> #[trigger] edge(m@, k, j) == path_below(
                    paths@[k]@,
                    paths@[j]@,
                ),
        decreases n - i,
    {
        let mut row: Vec<bool> = Vec::new();
        let mut j: usize = 0;
        while j < n
            invariant
                n == paths@.len(),
                i < n,
                j <= n,
                row@.len() == j,
                forall|k: int| 0 <= k < j ==> #[trigger] row@[k] == path_below(paths@[i as int]@, paths@[k]@),
            decreases n - j,
        {
            let below = starts_with(paths[i].as_str(), paths[j].as_str()) && !is_same_path(
                paths[i].as_str(),
                paths[j].as_str(),
            );
            row.push(below);
            j = j + 1;
        }
        let ghost before = m@;
        m.push(row);
        proof {
            assert forall|k: int, j: int| 0 <= k < i + 1 && 0 <= j < n implies #[trigger] edge(m@, k, j)
                == path_below(paths@[k]@, paths@[j]@) by {
                if k < i {
                    assert(m@[k] == before[k]);
                    assert(edge(before, k, j) == path_below(paths@[k]@, paths@[j]@));
                }
            }
        }
        i = i + 1;
    }
    m
}

/// The order in which to take `paths` so that every path comes before the paths it
/// lies below: the positions of the paths, each once. See [`topological_sort`].
///
/// Fails on a relative path, with the first one of `paths`.
#[verifier::rlimit(50)]
pub fn topological_order(paths: &Vec<String>) -> (order: Result<Vec<usize>, RelativePathError>)
    ensures
        match order {
            Ok(order) => {
                &&& spec_first_relative(views(paths@)) == paths@.len()
                &&& is_index_permutation(as_ints(order@), paths@.len() as int)
                &&& forall|a: int, b: int|
                    0 <= a < order@.len() && 0 <= b < order@.len() && path_below(
                        #[trigger] paths@[order@[a] as int]@,
                        #[trigger] paths@[order@[b] as int]@,
                    ) ==> a < b
            },
            Err(error) => {
                &&& spec_first_relative(views(paths@)) < paths@.len()
                &&& error.path@ == paths@[spec_first_relative(views(paths@))]@
            },
        },
{
    let n = paths.len();
    let mut i: usize = 0;
    while i < n
        invariant
            n == paths@.len(),
            i <= n,
            forall|k: int| 0 <= k < i ==> !path_is_relative(#[trigger] views(paths@)[k]),
        decreases n - i,
    {
        if is_relative(paths[i].as_str()) {
            proof {
                lemma_first_relative(views(paths@));
                assert(path_is_relative(views(paths@)[i as int]));
            }
            return Err(RelativePathError { path: paths[i].clone() });
        }
        i = i + 1;
    }
    proof {
        lemma_first_relative(views(paths@));
    }
    let m = below_table(paths);
    let ghost depth = Seq::new(n as nat, |k: int| path_components(paths@[k]@).len());
    proof {
        assert forall|a: int, b: int| 0 <= a < n && 0 <= b < n && #[trigger] edge(m@, a, b) implies depth[a]
            > depth[b] by {
            lemma_below_is_deeper(paths@[a]@, paths@[b]@);
        }
    }
    let order = sort_indices(&m, Ghost(depth));
    proof {
        assert(is_index_permutation(as_ints(order@), n as int));
        assert forall|a: int, b: int|
            0 <= a < order@.len() && 0 <= b < order@.len() && path_below(
                #[trigger] paths@[order@[a] as int]@,
                #[trigger] paths@[order@[b] as int]@,
            ) implies a < b by {
            assert(edge(m@, order@[a] as int, order@[b] as int));
        }
    }
    Ok(order)
}

/// Sorts paths so that every path comes before the paths it lies below.
///
/// A path lies below another where the other is a prefix of it, by whole components,
/// and the two are not the same path. Every path is kept, as often as it is given.
/// Among paths that do not lie below one another, those given later come first,
/// except that a path is taken up as soon as nothing below it is left.
///
/// Fails on a relative path, with the first one of `paths`.
///
/// This is Kahn's algorithm.
pub fn topological_sort(paths: &Vec<String>) -> (sorted: Result<Vec<String>, RelativePathError>)
    ensures
        match sorted {
            Ok(sorted) => {
                &&& spec_first_relative(views(paths@)) == paths@.len()
                &&& sorted@.len() == paths@.len()
                &&& is_reordering(views(paths@), views(sorted@))
                &&& descendants_first(views(sorted@))
            },
            Err(error) => {
                &&& spec_first_relative(views(paths@)) < paths@.len()
                &&& error.path@ == paths@[spec_first_relative(views(paths@))]@
            },
        },
{
    let n = paths.len();
    let order = match topological_order(paths) {
        Ok(order) => order,
        Err(error) => {
            return Err(error);
        },
    };
    proof {
        assert forall|a: int| 0 <= a < order@.len() implies (#[trigger] order@[a]) < n by {
            assert(as_ints(order@)[a] == order@[a]);
        }
    }
    let mut sorted: Vec<String> = Vec::new();
    let mut k: usize = 0;
    while k < n
        invariant
            n == paths@.len(),
            order@.len() == n,
            k <= n,
            sorted@.len() == k,
            forall|a: int| 0 <= a < order@.len() ==> (#[trigger] order@[a]) < n,
            forall|a: int| 0 <= a < k ==> (#[trigger] sorted@[a])@ == paths@[order@[a] as int]@,
        decreases n - k,
    {
        sorted.push(paths[order[k]].clone());
        k = k + 1;
    }
    proof {
        let by = as_ints(order@);
        assert forall|a: int| 0 <= a < by.len() implies #[trigger] by[a] == order@[a] as int by {}
        let input = views(paths@);
        let output = views(sorted@);
        assert(is_index_permutation(by, n as int));
        assert(is_reordering_by(input, output, by));
        assert forall|a: int, b: int|
            0 <= a < output.len() && 0 <= b < output.len() && path_below(
                #[trigger] output[a],
                #[trigger] output[b],
            ) implies a < b by {
            assert(output[a] == paths@[order@[a] as int]@);
            assert(output[b] == paths@[order@[b] as int]@);
        }
    }
    Ok(sorted)
}

} // verus!
