//! Welding of vertices: positions that fall into one cell of a fine grid become
//! one vertex, and the faces refer to vertices by index.
use std::collections::HashMap;
use vstd::prelude::*;

verus! {

/// Number of grid cells per unit of length, along each axis.
pub const CELLS_PER_UNIT: i32 = 4096;

/// The grid cell of a quantized position, as a triple of integers.
pub open spec fn cell(position: [i32; 3]) -> (int, int, int) {
    (position[0] as int, position[1] as int, position[2] as int)
}

/// Whether no position before the `i`-th falls into the cell of the `i`-th.
pub open spec fn is_first(cells: Seq<[i32; 3]>, i: int) -> bool {
    forall|j: int| 0 <= j < i ==> cell(#[trigger] cells[j]) != cell(cells[i])
}

/// Whether `unique` and `indices` weld `cells`: `unique` lists, in rising
/// order, where a cell occurs for the first time, and `indices` gives for each
/// position the place in `unique` of the first occurrence of its cell.
pub open spec fn welds(cells: Seq<[i32; 3]>, unique: Seq<usize>, indices: Seq<u32>) -> bool {
    &&& indices.len() == cells.len()
    &&& forall|m: int|
        0 <= m < unique.len() ==> (#[trigger] unique[m]) < cells.len() && is_first(
            cells,
            unique[m] as int,
        )
    &&& forall|m: int, n: int| 0 <= m < n < unique.len() ==> unique[m] < unique[n]
    &&& forall|k: int|
        0 <= k < cells.len() ==> (#[trigger] indices[k]) < unique.len() && cell(
            cells[unique[indices[k] as int] as int],
        ) == cell(cells[k])
}

/// The vertices that are left of a list of positions, and the index list that
/// refers to them.
#[derive(Debug, PartialEq, Eq)]
pub struct Welded {
    /// For each vertex that is kept, the place of its position in the list.
    pub unique: Vec<usize>,
    /// For each position of the list, the index of the vertex that stands for it.
    pub indices: Vec<u32>,
}

/// The three coordinates of a cell as one number: each coordinate shifted to be
/// non-negative, then written side by side, 32 bits each.
pub open spec fn packed(position: [i32; 3]) -> int {
    (position[0] + 0x8000_0000) * 0x1_0000_0000_0000_0000 + (position[1] + 0x8000_0000)
        * 0x1_0000_0000 + (position[2] + 0x8000_0000)
}

/// Two positions have the same number exactly if they fall into the same cell.
pub proof fn lemma_packed_tells_cells_apart(a: [i32; 3], b: [i32; 3])
    ensures
        packed(a) == packed(b) <==> cell(a) == cell(b),
        0 <= packed(a) < 0x1_0000_0000_0000_0000_0000_0000,
{
}

/// Writes the three coordinates of a cell as one number.
fn pack(position: &[i32; 3]) -> (key: u128)
    ensures
        key == packed(*position),
{
    let x: u128 = (position[0] as i64 + 0x8000_0000) as u128;
    let y: u128 = (position[1] as i64 + 0x8000_0000) as u128;
    let z: u128 = (position[2] as i64 + 0x8000_0000) as u128;
    x * 0x1_0000_0000_0000_0000 + y * 0x1_0000_0000 + z
}

/// Welds a list of quantized positions: keeps the first position of each grid
/// cell as a vertex, in the order of the list, and gives each position the
/// index of the vertex of its cell.
pub fn weld(cells: &Vec<[i32; 3]>) -> (welded: Welded)
    requires
        cells.len() <= u32::MAX,
    ensures
        welds(cells@, welded.unique@, welded.indices@),
{
    broadcast use vstd::std_specs::hash::group_hash_axioms;

    let mut unique: Vec<usize> = Vec::new();
    let mut indices: Vec<u32> = Vec::new();
    let mut index_map: HashMap<u128, u32> = HashMap::new();
    let mut k: usize = 0;
    while k < cells.len()
        invariant
            k <= cells.len(),
            cells.len() <= u32::MAX,
            indices.len() == k,
            unique.len() <= k,
            forall|m: int|
                0 <= m < unique.len() ==> (#[trigger] unique[m]) < k && is_first(
                    cells@,
                    unique[m] as int,
                ),
            forall|m: int, n: int| 0 <= m < n < unique.len() ==> unique[m] < unique[n],
            forall|i: int|
                0 <= i < k ==> (#[trigger] indices[i]) < unique.len() && cell(
                    cells[unique[indices[i] as int] as int],
                ) == cell(cells[i]),
            forall|i: int|
                0 <= i < k ==> index_map@.contains_key(packed(#[trigger] cells[i]) as u128),
            forall|p: u128| #[trigger]
                index_map@.contains_key(p) ==> index_map@[p] < unique.len() && packed(
                    cells[unique[index_map@[p] as int] as int],
                ) == p,
        decreases cells.len() - k,
    {
        let key = pack(&cells[k]);
        let found = index_map.get(&key);
        let index: u32 = match found {
            Some(index) => {
                proof {
                    lemma_packed_tells_cells_apart(
                        cells[unique[index_map@[key] as int] as int],
                        cells[k as int],
                    );
                }
                *index
            },
            None => {
                let fresh: u32 = unique.len() as u32;
                proof {
                    assert forall|j: int| 0 <= j < k implies cell(#[trigger] cells[j]) != cell(
                        cells[k as int],
                    ) by {
                        lemma_packed_tells_cells_apart(cells[j], cells[k as int]);
                        assert(index_map@.contains_key(packed(cells[j]) as u128));
                    }
                    assert(is_first(cells@, k as int));
                }
                unique.push(k);
                index_map.insert(key, fresh);
                fresh
            },
        };
        indices.push(index);
        proof {
            lemma_packed_tells_cells_apart(cells[k as int], cells[k as int]);
        }
        k = k + 1;
    }
    Welded { unique, indices }
}

/// In a welding, the vertex of a position that is the first of its cell is
/// that position itself.
pub proof fn lemma_first_keeps_itself(
    cells: Seq<[i32; 3]>,
    unique: Seq<usize>,
    indices: Seq<u32>,
    first: int,
)
    requires
        welds(cells, unique, indices),
        0 <= first < cells.len(),
        is_first(cells, first),
    ensures
        indices[first] < unique.len(),
        unique[indices[first] as int] == first,
{
    let kept = unique[indices[first] as int] as int;
    assert(cell(cells[kept]) == cell(cells[first]));
    assert(is_first(cells, kept));
    if kept < first {
        assert(cell(cells[kept]) != cell(cells[first]));
    }
    if first < kept {
        assert(cell(cells[first]) != cell(cells[kept]));
    }
}

/// Two weldings of one list keep the same positions up to any place that both
/// reach.
proof fn lemma_weldings_agree_up_to(
    cells: Seq<[i32; 3]>,
    unique: Seq<usize>,
    indices: Seq<u32>,
    other_unique: Seq<usize>,
    other_indices: Seq<u32>,
    m: int,
)
    requires
        welds(cells, unique, indices),
        welds(cells, other_unique, other_indices),
        0 <= m <= unique.len(),
        m <= other_unique.len(),
    ensures
        forall|j: int| 0 <= j < m ==> unique[j] == other_unique[j],
    decreases m,
{
    if m > 0 {
        lemma_weldings_agree_up_to(cells, unique, indices, other_unique, other_indices, m - 1);
        let a = unique[m - 1] as int;
        let b = other_unique[m - 1] as int;
        lemma_first_keeps_itself(cells, other_unique, other_indices, a);
        lemma_first_keeps_itself(cells, unique, indices, b);
        let p = other_indices[a] as int;
        let q = indices[b] as int;
        if a < b {
            // `a` stands in the other list before place `m - 1`, where both lists agree
            assert(other_unique[p] == a);
            assert(p < m - 1) by {
                if p >= m - 1 {
                    if p > m - 1 {
                        assert(other_unique[m - 1] < other_unique[p]);
                    }
                }
            }
            assert(unique[p] == other_unique[p]);
            assert(unique[p] < unique[m - 1]);
        }
        if b < a {
            assert(unique[q] == b);
            assert(q < m - 1) by {
                if q >= m - 1 {
                    if q > m - 1 {
                        assert(unique[m - 1] < unique[q]);
                    }
                }
            }
            assert(unique[q] == other_unique[q]);
            assert(other_unique[q] < other_unique[m - 1]);
        }
    }
}

/// A list of positions has one welding only: `welds` leaves nothing open.
pub proof fn lemma_welding_is_unique(
    cells: Seq<[i32; 3]>,
    unique: Seq<usize>,
    indices: Seq<u32>,
    other_unique: Seq<usize>,
    other_indices: Seq<u32>,
)
    requires
        welds(cells, unique, indices),
        welds(cells, other_unique, other_indices),
    ensures
        unique == other_unique,
        indices == other_indices,
{
    let shorter = if unique.len() <= other_unique.len() {
        unique.len() as int
    } else {
        other_unique.len() as int
    };
    lemma_weldings_agree_up_to(cells, unique, indices, other_unique, other_indices, shorter);
    if unique.len() < other_unique.len() {
        // the next position of the longer list stands in the shorter one too
        let extra = other_unique[shorter] as int;
        lemma_first_keeps_itself(cells, unique, indices, extra);
        let p = indices[extra] as int;
        assert(unique[p] == other_unique[p]);
        assert(other_unique[p] < other_unique[shorter]);
    }
    if other_unique.len() < unique.len() {
        let extra = unique[shorter] as int;
        lemma_first_keeps_itself(cells, other_unique, other_indices, extra);
        let p = other_indices[extra] as int;
        assert(unique[p] == other_unique[p]);
        assert(unique[p] < unique[shorter]);
    }
    assert(unique =~= other_unique);
    assert forall|k: int| 0 <= k < cells.len() implies indices[k] == other_indices[k] by {
        let a = indices[k] as int;
        let b = other_indices[k] as int;
        let kept = unique[a] as int;
        let other_kept = unique[b] as int;
        assert(cell(cells[kept]) == cell(cells[k]));
        assert(cell(cells[other_kept]) == cell(cells[k]));
        assert(is_first(cells, kept));
        assert(is_first(cells, other_kept));
        if kept < other_kept {
            assert(cell(cells[kept]) != cell(cells[other_kept]));
        }
        if other_kept < kept {
            assert(cell(cells[other_kept]) != cell(cells[kept]));
        }
        if a < b {
            assert(unique[a] < unique[b]);
        }
        if b < a {
            assert(unique[b] < unique[a]);
        }
    }
    assert(indices =~= other_indices);
}

/// Whether an index list is made of whole triangles.
pub fn forms_triangles(indices: &Vec<u32>) -> (whole: bool)
    ensures
        whole == (indices@.len() % 3 == 0),
{
    indices.len() % 3 == 0
}

/// Number of copies of the geometry that the frames go round.
pub const GEOMETRY_BUFFER_COUNT: usize = 3;

/// The copy of the geometry that the frame with this number draws.
pub open spec fn drawn_buffer(frame: int) -> int {
    frame % (GEOMETRY_BUFFER_COUNT as int)
}

/// The copy of the geometry that is updated during the frame with this
/// number: the one before the copy that the frame draws, going round.
pub open spec fn updated_buffer(frame: int) -> int {
    (drawn_buffer(frame) + GEOMETRY_BUFFER_COUNT - 1) % (GEOMETRY_BUFFER_COUNT as int)
}

/// The copy of the geometry that a frame draws.
pub fn current_geometry_buffer(frame: usize) -> (current: usize)
    ensures
        current == drawn_buffer(frame as int),
        current < GEOMETRY_BUFFER_COUNT,
{
    frame % GEOMETRY_BUFFER_COUNT
}

/// The copy of the geometry that is updated while a frame draws the copy
/// `current`.
pub fn next_geometry_buffer(current: usize) -> (next: usize)
    requires
        current < GEOMETRY_BUFFER_COUNT,
    ensures
        next == (current + GEOMETRY_BUFFER_COUNT - 1) % (GEOMETRY_BUFFER_COUNT as int),
        next < GEOMETRY_BUFFER_COUNT,
{
    (current + GEOMETRY_BUFFER_COUNT - 1) % GEOMETRY_BUFFER_COUNT
}

/// The copy that is updated during a frame is never the one that the frame
/// draws, nor the one that the next frame draws: it is drawn two frames on.
pub proof fn lemma_updated_buffer_is_not_drawn(frame: int)
    requires
        frame >= 0,
    ensures
        updated_buffer(frame) != drawn_buffer(frame),
        updated_buffer(frame) != drawn_buffer(frame + 1),
        updated_buffer(frame) == drawn_buffer(frame + 2),
{
}

} // verus!
