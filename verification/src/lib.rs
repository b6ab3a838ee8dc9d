//! A minimal real-time rendering runtime, verified with Verus.
//!
//! The library owns the bookkeeping of a GPU-side rendering engine: meshes
//! with interleaved vertex/instance buffers, shader programs with a uniform
//! location cache, and a frame-loop controller with optional frame pacing.
//! Every graphics-driver interaction is expressed as a value of
//! [`DriverCall`] or [`LoopAction`]: the verified code decides *which* calls
//! to issue and in what order, and an unverified backend executes them
//! against the real driver and window system.

pub mod driver;
pub mod mesh;
pub mod shader;
pub mod types;
pub mod window;

pub use driver::DriverCall;
pub use mesh::InstanceUpload;
pub use mesh::Mesh;
pub use mesh::MeshConfig;
pub use mesh::MeshError;
pub use shader::Shader;
pub use shader::ShaderBuilder;
pub use shader::ShaderError;
pub use shader::StageKind;
pub use shader::UniformOutcome;
pub use types::BufferLane;
pub use types::BufferUsageHint;
pub use types::PrimitveType;
pub use types::ShaderDataType;
pub use types::VertexAttribute;
pub use window::FrameLoop;
pub use window::GlConfig;
pub use window::LoopAction;
pub use window::WindowConfig;
