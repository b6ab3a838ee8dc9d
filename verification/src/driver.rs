//! The fixed vocabulary of graphics-driver primitives the library consumes.
//!
//! A verified operation never talks to the driver itself: it returns a
//! sequence of [`DriverCall`] values describing exactly which driver
//! primitives to invoke and in what order. The unverified backend executes
//! them one by one against the real driver, resolving each object role
//! (vertex array, vertex buffer, index buffer, instance buffer, program,
//! transient stage objects) to the concrete handle it generated for the
//! owning mesh or program.

use vstd::prelude::*;

use crate::shader::StageKind;
use crate::types::BufferUsageHint;
use crate::types::PrimitveType;
use crate::types::VertexAttribute;

verus! {

/// One graphics-driver primitive, addressed by object role rather than by
/// raw handle. Buffer uploads carry the lane count of the data; the data
/// itself travels beside the call list, owned by the caller or returned by
/// the operation that produced it.
#[derive(Clone, Copy, Debug, PartialEq, Eq)]
pub enum DriverCall {
    CreateVertexArray,
    CreateVertexBuffer,
    CreateIndexBuffer,
    CreateInstanceBuffer,
    BindVertexArray,
    UnbindVertexArray,
    /// Upload the mesh's vertex data: `len` 32-bit lanes.
    UploadVertexData { len: usize, usage: BufferUsageHint },
    /// Upload the mesh's index data: `len` 32-bit indices.
    UploadIndexData { len: usize, usage: BufferUsageHint },
    /// Allocate and fill the instance buffer with `len` 32-bit lanes.
    UploadInstanceData { len: usize },
    /// Overwrite the existing instance buffer in place with `len` lanes.
    UpdateInstanceData { len: usize },
    /// Enable `attribute.location` and bind it with the attribute's size,
    /// stride and offset; `divisor` 0 advances per vertex, 1 per instance.
    BindAttribute { attribute: VertexAttribute, divisor: u32 },
    DrawArrays { topology: PrimitveType, vertex_count: i32 },
    DrawElements { topology: PrimitveType, index_count: i32 },
    DrawArraysInstanced { topology: PrimitveType, vertex_count: i32, instance_count: i32 },
    DrawElementsInstanced { topology: PrimitveType, index_count: i32, instance_count: i32 },
    DeleteVertexArray,
    DeleteVertexBuffer,
    DeleteIndexBuffer,
    DeleteInstanceBuffer,
    CreateProgram,
    /// Allocate the transient stage object with index `index`.
    CreateStage { index: usize, kind: StageKind },
    /// Compile stage `index` from its source text.
    CompileStage { index: usize },
    /// Attach compiled stage `index` to the program being built.
    AttachStage { index: usize },
    LinkProgram,
    /// Release the transient stage object with index `index`.
    DeleteStage { index: usize },
    DeleteProgram,
    UseProgram,
    Uniform1i { location: i32, value: i32 },
    Uniform1f { location: i32, x: u32 },
    Uniform2f { location: i32, x: u32, y: u32 },
    Uniform3f { location: i32, x: u32, y: u32, z: u32 },
    Uniform4f { location: i32, x: u32, y: u32, z: u32, w: u32 },
    /// Upload a 3x3 matrix, column-major, non-transposed.
    UniformMatrix3fv { location: i32, columns3: [u32; 9] },
    /// Upload a 4x4 matrix, column-major, non-transposed.
    UniformMatrix4fv { location: i32, columns4: [u32; 16] },
    /// Set the viewport to cover a surface of this size.
    SetViewport { width: u32, height: u32 },
    /// Set the clear color; components are 32-bit float bit patterns.
    SetClearColor { red: u32, green: u32, blue: u32, alpha: u32 },
    EnableDepthTest,
    /// Clear both the color and the depth buffer.
    ClearColorAndDepthBuffers,
}

impl DriverCall {
    /// Whether this call dispatches a draw.
    pub open spec fn is_draw(self) -> bool {
        match self {
            DriverCall::DrawArrays { .. } => true,
            DriverCall::DrawElements { .. } => true,
            DriverCall::DrawArraysInstanced { .. } => true,
            DriverCall::DrawElementsInstanced { .. } => true,
            _ => false,
        }
    }

    /// Whether this call dispatches an indexed draw.
    pub open spec fn is_indexed_draw(self) -> bool {
        match self {
            DriverCall::DrawElements { .. } => true,
            DriverCall::DrawElementsInstanced { .. } => true,
            _ => false,
        }
    }

    /// Whether this call dispatches an instanced draw.
    pub open spec fn is_instanced_draw(self) -> bool {
        match self {
            DriverCall::DrawArraysInstanced { .. } => true,
            DriverCall::DrawElementsInstanced { .. } => true,
            _ => false,
        }
    }
}

/// How many calls of a sequence dispatch a draw.
pub open spec fn draw_count(calls: Seq<DriverCall>) -> int
    decreases calls.len(),
{
    if calls.len() == 0 {
        0
    } else {
        draw_count(calls.drop_last()) + if calls.last().is_draw() {
            1int
        } else {
            0int
        }
    }
}

} // verus!
