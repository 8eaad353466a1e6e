//! The instances that are drawn: one per dynamic body of the simulation.
//! Where the bodies start, which of them are drawn, how an instance is laid
//! out in its buffer, and when that buffer has to be replaced.

use vstd::prelude::*;
use crate::geometry::{
    vertex_attributes,
    VertexAttribute,
    VertexBufferLayout,
    VertexFormat,
    VertexStepMode,
};

verus! {

/// Number of bytes one instance takes in the instance buffer: a matrix of
/// four rows of four 32-bit components.
pub const INSTANCE_RAW_SIZE: u64 = 64;

/// The attributes of an instance: the four rows of its model matrix, at
/// locations 5 to 8.
pub open spec fn instance_attributes() -> Seq<VertexAttribute> {
    seq![
        VertexAttribute { format: VertexFormat::Float32x4, offset: 0, shader_location: 5 },
        VertexAttribute { format: VertexFormat::Float32x4, offset: 16, shader_location: 6 },
        VertexAttribute { format: VertexFormat::Float32x4, offset: 32, shader_location: 7 },
        VertexAttribute { format: VertexFormat::Float32x4, offset: 48, shader_location: 8 },
    ]
}

/// The layout of the instance buffer.
///
/// The buffer is advanced once per instance, not once per vertex. A matrix
/// takes four shader locations, one per row.
pub fn instance_desc() -> (layout: VertexBufferLayout)
    ensures
        layout.array_stride == INSTANCE_RAW_SIZE,
        layout.step_mode == VertexStepMode::Instance,
        layout.attributes@ == instance_attributes(),
        layout.is_packed(),
{
    let mut attributes: Vec<VertexAttribute> = Vec::new();
    attributes.push(
        VertexAttribute { format: VertexFormat::Float32x4, offset: 0, shader_location: 5 },
    );
    attributes.push(
        VertexAttribute { format: VertexFormat::Float32x4, offset: 16, shader_location: 6 },
    );
    attributes.push(
        VertexAttribute { format: VertexFormat::Float32x4, offset: 32, shader_location: 7 },
    );
    attributes.push(
        VertexAttribute { format: VertexFormat::Float32x4, offset: 48, shader_location: 8 },
    );
    assert(attributes@ =~= instance_attributes());
    VertexBufferLayout {
        array_stride: INSTANCE_RAW_SIZE,
        step_mode: VertexStepMode::Instance,
        attributes,
    }
}

/// The vertex buffer and the instance buffer feed one shader: no location
/// is claimed by both.
pub proof fn lemma_layouts_share_no_location(i: int, j: int)
    requires
        0 <= i < vertex_attributes().len(),
        0 <= j < instance_attributes().len(),
    ensures
        vertex_attributes()[i].shader_location != instance_attributes()[j].shader_location,
{
}

/// How new instance data gets into the instance buffer.
#[derive(Clone, Copy, Debug, PartialEq, Eq, Structural)]
pub enum BufferUpdate {
    /// The buffer has another size than the data: make a new buffer.
    Recreate,
    /// The data fits the buffer exactly: write into it.
    Write,
}

/// Says how the data of `instance_count` instances gets into a buffer of
/// `buffer_size` bytes: written in place if the buffer is exactly as large
/// as the data, into a new buffer otherwise.
pub fn instance_buffer_update(instance_count: usize, buffer_size: u64) -> (update: BufferUpdate)
    ensures
        update == if instance_count * INSTANCE_RAW_SIZE == buffer_size {
            BufferUpdate::Write
        } else {
            BufferUpdate::Recreate
        },
{
    let count: u64 = instance_count as u64;
    if buffer_size % INSTANCE_RAW_SIZE == 0 && buffer_size / INSTANCE_RAW_SIZE == count {
        BufferUpdate::Write
    } else {
        BufferUpdate::Recreate
    }
}

/// Picks the bodies that are drawn: the positions of the dynamic ones, in
/// ascending order, each once and none left out.
pub fn select_dynamic(is_dynamic: &[bool]) -> (selected: Vec<usize>)
    ensures
        forall|k: int| 0 <= k < selected@.len() ==> selected@[k] < is_dynamic@.len() && is_dynamic@[selected@[k] as int],
        forall|k: int, l: int| 0 <= k < l < selected@.len() ==> selected@[k] < selected@[l],
        forall|i: int| 0 <= i < is_dynamic@.len() && is_dynamic@[i] ==> selected@.contains(i as usize),
{
    let mut selected: Vec<usize> = Vec::new();
    let mut i: usize = 0;
    while i < is_dynamic.len()
        invariant
            i <= is_dynamic@.len(),
            forall|k: int| 0 <= k < selected@.len() ==> selected@[k] < i && is_dynamic@[selected@[k] as int],
            forall|k: int, l: int| 0 <= k < l < selected@.len() ==> selected@[k] < selected@[l],
            forall|j: int| 0 <= j < i && is_dynamic@[j] ==> selected@.contains(j as usize),
        decreases is_dynamic@.len() - i,
    {
        if is_dynamic[i] {
            let ghost before = selected@;
            selected.push(i);
            proof {
                assert(selected@[before.len() as int] == i);
                assert forall|j: int| 0 <= j < i + 1 && is_dynamic@[j] implies selected@.contains(
                    j as usize,
                ) by {
                    if j < i {
                        let k = choose|k: int| 0 <= k < before.len() && before[k] == j as usize;
                        assert(selected@[k] == j as usize);
                    }
                }
            }
        }
        i += 1;
    }
    selected
}

/// Height at which the bodies start.
pub const SPAWN_HEIGHT: i32 = 35;

/// Number of bodies along each side of the square they start in.
pub const SPAWN_GRID_SIDE: i32 = 2;

/// Where the body in column `x` of row `z` starts.
pub open spec fn spawn_position(x: int, z: int) -> (i32, i32, i32) {
    ((2 * x - 4) as i32, SPAWN_HEIGHT, (2 * z - 4) as i32)
}

/// The starting positions of the bodies, row by row: a square grid above
/// the ground, two units from one body to the next.
pub fn spawn_positions() -> (positions: Vec<(i32, i32, i32)>)
    ensures
        positions@.len() == SPAWN_GRID_SIDE * SPAWN_GRID_SIDE,
        forall|i: int|
            0 <= i < positions@.len() ==> positions@[i] == spawn_position(
                i % (SPAWN_GRID_SIDE as int),
                i / (SPAWN_GRID_SIDE as int),
            ),
{
    let mut positions: Vec<(i32, i32, i32)> = Vec::new();
    let mut z: i32 = 0;
    while z < SPAWN_GRID_SIDE
        invariant
            0 <= z <= SPAWN_GRID_SIDE,
            positions@.len() == z * SPAWN_GRID_SIDE,
            forall|i: int|
                0 <= i < positions@.len() ==> positions@[i] == spawn_position(
                    i % (SPAWN_GRID_SIDE as int),
                    i / (SPAWN_GRID_SIDE as int),
                ),
        decreases SPAWN_GRID_SIDE - z,
    {
        let mut x: i32 = 0;
        while x < SPAWN_GRID_SIDE
            invariant
                0 <= z < SPAWN_GRID_SIDE,
                0 <= x <= SPAWN_GRID_SIDE,
                positions@.len() == z * SPAWN_GRID_SIDE + x,
                forall|i: int|
                    0 <= i < positions@.len() ==> positions@[i] == spawn_position(
                        i % (SPAWN_GRID_SIDE as int),
                        i / (SPAWN_GRID_SIDE as int),
                    ),
            decreases SPAWN_GRID_SIDE - x,
        {
            positions.push((x * 2 - 4, SPAWN_HEIGHT, z * 2 - 4));
            x += 1;
        }
        z += 1;
    }
    positions
}

} // verus!
