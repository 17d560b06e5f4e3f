use vstd::prelude::*;

verus! {

/// Vertices of the cube: four for each of its six faces.
pub const CUBE_VERTEX_COUNT: u16 = 24;

/// Indices of the cube: two triangles for each face.
pub const CUBE_INDEX_COUNT: u32 = 36;

/// Vertices of the full-screen background quad.
pub const SKY_VERTEX_COUNT: u16 = 4;

/// Indices of the background quad: two triangles.
pub const SKY_INDEX_COUNT: u32 = 6;

/// The corner of a quad that the `k`-th index of its two triangles names.
/// Triangles (0, 1, 2) and (0, 2, 3) in the first winding; (3, 2, 0) and
/// (2, 1, 0), the same two triangles turned the other way, in the reversed
/// one.
pub open spec fn quad_corner(k: int, reversed: bool) -> int {
    if !reversed {
        if k == 0 { 0 } else if k == 1 { 1 } else if k == 2 { 2 } else if k == 3 { 0 } else if k == 4 { 2 } else { 3 }
    } else {
        if k == 0 { 3 } else if k == 1 { 2 } else if k == 2 { 0 } else if k == 3 { 2 } else if k == 4 { 1 } else { 0 }
    }
}

/// The `i`-th index of the cube. Face `f` owns vertices `4f .. 4f + 3`; the
/// faces of odd number lie opposite an even one and are wound the other way,
/// so that each face is front-facing from outside the cube.
pub open spec fn cube_index(i: int) -> int {
    4 * (i / 6) + quad_corner(i % 6, (i / 6) % 2 == 1)
}

fn quad_corner_exec(k: u16, reversed: bool) -> (r: u16)
    requires
        k < 6,
    ensures
        r == quad_corner(k as int, reversed),
        r < 4,
{
    if !reversed {
        if k == 0 { 0 } else if k == 1 { 1 } else if k == 2 { 2 } else if k == 3 { 0 } else if k == 4 { 2 } else { 3 }
    } else {
        if k == 0 { 3 } else if k == 1 { 2 } else if k == 2 { 0 } else if k == 3 { 2 } else if k == 4 { 1 } else { 0 }
    }
}

/// The cube's index list: 36 indices, each naming one of its 24 vertices and
/// each triangle lying within a single face.
pub fn cube_indices() -> (r: Vec<u16>)
    ensures
        r@.len() == CUBE_INDEX_COUNT,
        forall|i: int| 0 <= i < r@.len() ==> r@[i] == cube_index(i),
        forall|i: int| 0 <= i < r@.len() ==> r@[i] < CUBE_VERTEX_COUNT,
        forall|i: int|
            0 <= i < r@.len() ==> 4 * (i / 6) <= #[trigger] r@[i] < 4 * (i / 6) + 4,
{
    let mut r: Vec<u16> = Vec::new();
    let mut face: u16 = 0;
    while face < 6
        invariant
            face <= 6,
            r@.len() == 6 * face,
            forall|i: int| 0 <= i < r@.len() ==> r@[i] == cube_index(i),
        decreases 6 - face,
    {
        let mut k: u16 = 0;
        while k < 6
            invariant
                face < 6,
                k <= 6,
                r@.len() == 6 * face + k,
                forall|i: int| 0 <= i < r@.len() ==> r@[i] == cube_index(i),
            decreases 6 - k,
        {
            let corner = quad_corner_exec(k, face % 2 == 1);
            proof {
                let i = 6 * face + k;
                assert(i / 6 == face as int && i % 6 == k as int) by (nonlinear_arith)
                    requires i == 6 * face + k, 0 <= k < 6, 0 <= face;
            }
            r.push(4 * face + corner);
            k = k + 1;
        }
        face = face + 1;
    }
    proof {
        assert forall|i: int| 0 <= i < r@.len() implies 4 * (i / 6) <= #[trigger] r@[i] < 4 * (i / 6) + 4 && r@[i] < CUBE_VERTEX_COUNT by {
            assert(r@[i] == cube_index(i));
            assert(0 <= i / 6 < 6);
        }
    }
    r
}

/// The background quad's index list: its two triangles over vertices 0 to 3.
pub fn sky_indices() -> (r: Vec<u16>)
    ensures
        r@.len() == SKY_INDEX_COUNT,
        forall|i: int| 0 <= i < r@.len() ==> r@[i] == quad_corner(i, false),
        forall|i: int| 0 <= i < r@.len() ==> r@[i] < SKY_VERTEX_COUNT,
{
    let mut r: Vec<u16> = Vec::new();
    let mut k: u16 = 0;
    while k < 6
        invariant
            k <= 6,
            r@.len() == k,
            forall|i: int| 0 <= i < r@.len() ==> r@[i] == quad_corner(i, false),
            forall|i: int| 0 <= i < r@.len() ==> r@[i] < SKY_VERTEX_COUNT,
        decreases 6 - k,
    {
        let corner = quad_corner_exec(k, false);
        r.push(corner);
        k = k + 1;
    }
    r
}

} // verus!
