//! The tagged value type shared by uniform upload and instance-attribute
//! flattening, and the small plain enums describing buffers and primitives.
//!
//! A 32-bit floating-point component never appears in the library as a
//! float: it is carried as its bit pattern in a `u32`, and the unverified
//! backend reinterprets the bits when it hands the data to the driver.

use vstd::prelude::*;

verus! {

/// A tagged shader value: scalar, packed vector, or column-major matrix.
///
/// The variant tag fully determines the component count and the upload
/// routine. Floating-point components are stored as `u32` bit patterns;
/// matrices are stored column-major.
#[derive(Clone, Copy, Debug, PartialEq, Eq)]
pub enum ShaderDataType {
    Int(i32),
    Float(u32),
    Vec2(u32, u32),
    Vec3(u32, u32, u32),
    Vec4(u32, u32, u32, u32),
    Mat3([u32; 9]),
    Mat4([u32; 16]),
}

/// One 32-bit lane of a packed buffer handed to the driver.
///
/// `Float` lanes carry a bit pattern that is passed through unchanged;
/// `Int` lanes carry an integer that the backend converts to the nearest
/// 32-bit floating-point value at upload time.
#[derive(Clone, Copy, Debug, PartialEq, Eq)]
pub enum BufferLane {
    Float(u32),
    Int(i32),
}

impl ShaderDataType {
    /// How many 32-bit lanes this value occupies in a packed buffer.
    pub open spec fn lane_len(self) -> int {
        match self {
            ShaderDataType::Int(_) => 1,
            ShaderDataType::Float(_) => 1,
            ShaderDataType::Vec2(_, _) => 2,
            ShaderDataType::Vec3(_, _, _) => 3,
            ShaderDataType::Vec4(_, _, _, _) => 4,
            ShaderDataType::Mat3(_) => 9,
            ShaderDataType::Mat4(_) => 16,
        }
    }

    /// How many vertex-attribute slots this value occupies: one for
    /// scalars and vectors, one per column for matrices.
    pub open spec fn slot_len(self) -> int {
        match self {
            ShaderDataType::Mat3(_) => 3,
            ShaderDataType::Mat4(_) => 4,
            _ => 1,
        }
    }

    /// The packed lanes of this value, in upload order (column-major for
    /// matrices).
    pub open spec fn lanes(self) -> Seq<BufferLane> {
        match self {
            ShaderDataType::Int(i) => seq![BufferLane::Int(i)],
            ShaderDataType::Float(b) => seq![BufferLane::Float(b)],
            ShaderDataType::Vec2(x, y) => seq![BufferLane::Float(x), BufferLane::Float(y)],
            ShaderDataType::Vec3(x, y, z) => seq![
                BufferLane::Float(x),
                BufferLane::Float(y),
                BufferLane::Float(z),
            ],
            ShaderDataType::Vec4(x, y, z, w) => seq![
                BufferLane::Float(x),
                BufferLane::Float(y),
                BufferLane::Float(z),
                BufferLane::Float(w),
            ],
            ShaderDataType::Mat3(m) => m@.map_values(|b: u32| BufferLane::Float(b)),
            ShaderDataType::Mat4(m) => m@.map_values(|b: u32| BufferLane::Float(b)),
        }
    }

    /// Two values have the same shape when their variant tags agree; the
    /// components themselves may differ.
    pub open spec fn same_shape(self, other: ShaderDataType) -> bool {
        match (self, other) {
            (ShaderDataType::Int(_), ShaderDataType::Int(_)) => true,
            (ShaderDataType::Float(_), ShaderDataType::Float(_)) => true,
            (ShaderDataType::Vec2(_, _), ShaderDataType::Vec2(_, _)) => true,
            (ShaderDataType::Vec3(_, _, _), ShaderDataType::Vec3(_, _, _)) => true,
            (ShaderDataType::Vec4(_, _, _, _), ShaderDataType::Vec4(_, _, _, _)) => true,
            (ShaderDataType::Mat3(_), ShaderDataType::Mat3(_)) => true,
            (ShaderDataType::Mat4(_), ShaderDataType::Mat4(_)) => true,
            _ => false,
        }
    }

    /// The number of lanes is determined by the shape alone.
    pub proof fn lemma_same_shape_same_len(self, other: ShaderDataType)
        requires
            self.same_shape(other),
        ensures
            self.lane_len() == other.lane_len(),
            self.slot_len() == other.slot_len(),
    {
    }

    /// How many 32-bit lanes this value occupies in a packed buffer.
    pub fn lane_count(&self) -> (n: usize)
        ensures
            n as int == self.lane_len(),
            1 <= n <= 16,
    {
        match self {
            ShaderDataType::Int(_) => 1,
            ShaderDataType::Float(_) => 1,
            ShaderDataType::Vec2(_, _) => 2,
            ShaderDataType::Vec3(_, _, _) => 3,
            ShaderDataType::Vec4(_, _, _, _) => 4,
            ShaderDataType::Mat3(_) => 9,
            ShaderDataType::Mat4(_) => 16,
        }
    }

    /// Whether `self` and `other` have the same shape (variant tag).
    pub fn shape_matches(&self, other: &ShaderDataType) -> (r: bool)
        ensures
            r == self.same_shape(*other),
    {
        match (self, other) {
            (ShaderDataType::Int(_), ShaderDataType::Int(_)) => true,
            (ShaderDataType::Float(_), ShaderDataType::Float(_)) => true,
            (ShaderDataType::Vec2(_, _), ShaderDataType::Vec2(_, _)) => true,
            (ShaderDataType::Vec3(_, _, _), ShaderDataType::Vec3(_, _, _)) => true,
            (ShaderDataType::Vec4(_, _, _, _), ShaderDataType::Vec4(_, _, _, _)) => true,
            (ShaderDataType::Mat3(_), ShaderDataType::Mat3(_)) => true,
            (ShaderDataType::Mat4(_), ShaderDataType::Mat4(_)) => true,
            _ => false,
        }
    }
}

/// A driver residency hint for buffer uploads; no functional effect.
#[derive(Clone, Copy, Debug, PartialEq, Eq)]
pub enum BufferUsageHint {
    StaticDraw,
    DynamicDraw,
    StreamDraw,
}

/// How consecutive vertices or indices assemble into primitives.
#[derive(Clone, Copy, Debug, PartialEq, Eq)]
pub enum PrimitveType {
    Point,
    Line,
    LineStrip,
    LineLoop,
    Triangle,
    TriangleStrip,
    TriangleFan,
}

/// One vertex-attribute binding: slot index, component count, stride and
/// offset, the latter two measured in 32-bit components.
#[derive(Clone, Copy, Debug, PartialEq, Eq)]
pub struct VertexAttribute {
    pub location: u32,
    pub size: i32,
    pub stride: i32,
    pub offset: usize,
}

impl VertexAttribute {
    /// Build an attribute binding from its four raw fields.
    pub fn new(location: u32, size: i32, stride: i32, offset: usize) -> (r: VertexAttribute)
        ensures
            r == (VertexAttribute { location, size, stride, offset }),
    {
        VertexAttribute { location, size, stride, offset }
    }
}

} // verus!
