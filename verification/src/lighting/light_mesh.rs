use vstd::prelude::*;

verus! {

/// Number of sides of the disc that a light is drawn with.
pub const LIGHT_MESH_SIDES: u32 = 32;

/// Number of vertices of the disc: its centre, then one on the rim per side.
pub const LIGHT_MESH_VERTICES: u32 = 33;

/// Whether `indices` is the triangle list of a disc with `sides` sides,
/// whose vertex 0 is the centre and whose vertices from 1 on lie on the rim:
/// for each side `i`, counted from 1, the triangle of the centre, vertex `i`
/// and vertex `i + 1`; then the triangle of the centre, the last vertex of
/// the rim and the first.
pub open spec fn is_fan(indices: Seq<u32>, sides: int) -> bool {
    &&& indices.len() == 3 * (sides + 1)
    &&& forall|t: int|
        #![trigger indices[3 * t]]
        0 <= t < sides ==> indices[3 * t] == 0 && indices[3 * t + 1] == t + 1 && indices[3 * t
            + 2] == t + 2
    &&& indices[3 * sides] == 0
    &&& indices[3 * sides + 1] == sides
    &&& indices[3 * sides + 2] == 1
}

/// The triangle list of the disc of a light.
pub fn light_mesh_indices() -> (indices: Vec<u32>)
    ensures
        is_fan(indices@, LIGHT_MESH_SIDES as int),
{
    let mut indices: Vec<u32> = Vec::with_capacity(99);
    let mut i: u32 = 1;
    while i <= LIGHT_MESH_SIDES
        invariant
            1 <= i <= LIGHT_MESH_SIDES + 1,
            indices@.len() == 3 * (i - 1),
            forall|t: int|
                #![trigger indices@[3 * t]]
                0 <= t < i - 1 ==> indices@[3 * t] == 0 && indices@[3 * t + 1] == t + 1
                    && indices@[3 * t + 2] == t + 2,
        decreases LIGHT_MESH_SIDES + 1 - i,
    {
        let ghost before = indices@;
        indices.push(0);
        indices.push(i);
        indices.push(i + 1);
        assert forall|t: int| #![trigger indices@[3 * t]] 0 <= t < i implies indices@[3 * t] == 0
            && indices@[3 * t + 1] == t + 1 && indices@[3 * t + 2] == t + 2 by {
            if t < i - 1 {
                assert(indices@[3 * t] == before[3 * t]);
            }
        }
        i += 1;
    }
    let ghost before = indices@;
    indices.push(0);
    indices.push(LIGHT_MESH_SIDES);
    indices.push(1);
    assert forall|t: int| #![trigger indices@[3 * t]] 0 <= t < LIGHT_MESH_SIDES implies indices@[3
        * t] == 0 && indices@[3 * t + 1] == t + 1 && indices@[3 * t + 2] == t + 2 by {
        assert(indices@[3 * t] == before[3 * t]);
    }
    indices
}

} // verus!
