//! The buffer/mesh manager.
//!
//! A [`Mesh`] starts empty, with no driver-side objects, so it can be
//! declared before a graphics context exists. It is initialized exactly
//! once with vertex (and optionally index) data; per-instance data may be
//! attached or replaced afterwards. Every operation returns the exact
//! sequence of [`DriverCall`]s the backend must issue.

use vstd::prelude::*;
use vstd::pervasive::unreached;

use crate::driver::draw_count;
use crate::driver::DriverCall;
use crate::types::BufferLane;
use crate::types::BufferUsageHint;
use crate::types::PrimitveType;
use crate::types::ShaderDataType;
use crate::types::VertexAttribute;

verus! {

/// Everything `Mesh::new` needs: vertex lanes (32-bit float bit patterns),
/// optional indices, manually supplied attribute bindings, a residency
/// hint and the primitive topology.
pub struct MeshConfig {
    pub vertices: Vec<u32>,
    pub indices: Option<Vec<u32>>,
    pub attributes: Vec<VertexAttribute>,
    pub buffer_usage_hint: BufferUsageHint,
    pub primitive_type: PrimitveType,
}

impl Default for MeshConfig {
    /// An empty static triangle mesh configuration.
    fn default() -> (c: MeshConfig)
        ensures
            c.vertices@ == Seq::<u32>::empty(),
            c.indices is None,
            c.attributes@ == Seq::<VertexAttribute>::empty(),
            c.buffer_usage_hint == BufferUsageHint::StaticDraw,
            c.primitive_type == PrimitveType::Triangle,
    {
        MeshConfig {
            vertices: Vec::new(),
            indices: None,
            attributes: Vec::new(),
            buffer_usage_hint: BufferUsageHint::StaticDraw,
            primitive_type: PrimitveType::Triangle,
        }
    }
}

/// Why a mesh operation was refused. Each case leaves the mesh unchanged
/// and issues no driver calls.
#[derive(Clone, Copy, Debug, PartialEq, Eq)]
pub enum MeshError {
    /// `new` was called on a mesh that already owns driver objects;
    /// repeating it would leak them.
    AlreadyInitialized,
    /// Instance data was supplied before the mesh was initialized.
    NotInitialized,
    /// The maximum attribute stride was not positive, so no vertex count
    /// can be derived.
    InvalidStride,
    /// The per-instance value list was empty, so no layout can be derived.
    NoInstances,
    /// An instance's value list differs in shape from the first one.
    ShapeMismatch,
    /// The existing instance buffer was allocated for a different data
    /// size and cannot be updated in place.
    SizeMismatch,
}

/// The abstract state of a mesh: whether it owns driver objects, the
/// derived counts, and the configured topology. `instance_buffer` records
/// the lane capacity the instance buffer was allocated with.
pub ghost struct MeshView {
    pub initialized: bool,
    pub vertex_count: int,
    pub index_count: int,
    pub instance_count: int,
    pub has_index_buffer: bool,
    pub instance_buffer: Option<int>,
    pub topology: Option<PrimitveType>,
}

/// A mesh: ownership bookkeeping for one vertex-array binding, one vertex
/// buffer, an optional index buffer and an optional instance buffer.
pub struct Mesh {
    initialized: bool,
    has_index_buffer: bool,
    instance_buffer: Option<usize>,
    vertex_count: i32,
    index_count: i32,
    instance_count: i32,
    primitive_type: Option<PrimitveType>,
}

impl View for Mesh {
    type V = MeshView;

    closed spec fn view(&self) -> MeshView {
        MeshView {
            initialized: self.initialized,
            vertex_count: self.vertex_count as int,
            index_count: self.index_count as int,
            instance_count: self.instance_count as int,
            has_index_buffer: self.has_index_buffer,
            instance_buffer: match self.instance_buffer {
                Some(n) => Some(n as int),
                None => None,
            },
            topology: self.primitive_type,
        }
    }
}

/// The largest stride among the attributes of one buffer, or 1 when there
/// are none: the true per-vertex stride the buffer is laid out with.
pub open spec fn stride_of(attrs: Seq<VertexAttribute>) -> int
    decreases attrs.len(),
{
    if attrs.len() == 0 {
        1
    } else if attrs.len() == 1 {
        attrs[0].stride as int
    } else {
        let rest = stride_of(attrs.drop_last());
        if attrs.last().stride as int > rest {
            attrs.last().stride as int
        } else {
            rest
        }
    }
}

/// Each attribute rebound with the true per-buffer stride `stride`.
pub open spec fn rebind_stride(attrs: Seq<VertexAttribute>, stride: i32) -> Seq<VertexAttribute> {
    Seq::new(
        attrs.len(),
        |i: int|
            VertexAttribute {
                location: attrs[i].location,
                size: attrs[i].size,
                stride,
                offset: attrs[i].offset,
            },
    )
}

/// One `BindAttribute` call per attribute, all with the same divisor.
pub open spec fn attribute_calls(attrs: Seq<VertexAttribute>, divisor: u32) -> Seq<DriverCall> {
    Seq::new(attrs.len(), |i: int| DriverCall::BindAttribute { attribute: attrs[i], divisor })
}

/// The exact driver-call sequence of a successful `Mesh::new`: create and
/// bind the vertex array, create and fill the vertex buffer, bind each
/// attribute per vertex with the true stride, optionally create and fill
/// the index buffer, then unbind.
pub open spec fn init_calls(
    vertex_len: usize,
    index_len: Option<usize>,
    attrs: Seq<VertexAttribute>,
    stride: i32,
    usage: BufferUsageHint,
) -> Seq<DriverCall> {
    seq![
        DriverCall::CreateVertexArray,
        DriverCall::BindVertexArray,
        DriverCall::CreateVertexBuffer,
        DriverCall::UploadVertexData { len: vertex_len, usage },
    ] + attribute_calls(rebind_stride(attrs, stride), 0) + (match index_len {
        Some(n) => seq![
            DriverCall::CreateIndexBuffer,
            DriverCall::UploadIndexData { len: n, usage },
        ],
        None => Seq::<DriverCall>::empty(),
    }) + seq![DriverCall::UnbindVertexArray]
}

impl Mesh {
    /// A mesh is well formed when its counts are non-negative and it owns
    /// secondary objects, or records a topology, only once initialized.
    pub open spec fn wf(self) -> bool {
        &&& self@.vertex_count >= 0
        &&& self@.index_count >= 0
        &&& self@.instance_count >= 0
        &&& (self@.initialized <==> self@.topology is Some)
        &&& !self@.initialized ==> {
            &&& self@.vertex_count == 0
            &&& self@.index_count == 0
            &&& self@.instance_count == 0
            &&& !self@.has_index_buffer
            &&& self@.instance_buffer is None
        }
        &&& self@.instance_buffer matches Some(cap) ==> cap >= 0
    }

    /// Create an empty mesh: no driver objects, all counts zero. Valid
    /// before a graphics context exists; issues no driver calls.
    pub fn empty() -> (m: Mesh)
        ensures
            m.wf(),
            !m@.initialized,
            m@.vertex_count == 0,
            m@.index_count == 0,
            m@.instance_count == 0,
            !m@.has_index_buffer,
            m@.instance_buffer is None,
            m@.topology is None,
    {
        Mesh {
            initialized: false,
            has_index_buffer: false,
            instance_buffer: None,
            vertex_count: 0,
            index_count: 0,
            instance_count: 0,
            primitive_type: None,
        }
    }

    /// Whether the mesh owns driver objects.
    pub fn is_initialized(&self) -> (b: bool)
        ensures
            b == self@.initialized,
    {
        self.initialized
    }

    /// The number of vertices derived at initialization.
    pub fn vertex_count(&self) -> (n: i32)
        ensures
            n as int == self@.vertex_count,
    {
        self.vertex_count
    }

    /// The number of indices uploaded at initialization; 0 when the mesh
    /// is not indexed.
    pub fn index_count(&self) -> (n: i32)
        ensures
            n as int == self@.index_count,
    {
        self.index_count
    }

    /// The number of instances derived from the last instance-data
    /// attachment; 0 when the mesh is not instanced.
    pub fn instance_count(&self) -> (n: i32)
        ensures
            n as int == self@.instance_count,
    {
        self.instance_count
    }

    /// Initialize the mesh: allocate a vertex-array binding and a vertex
    /// buffer, upload the vertex lanes under the configured usage hint,
    /// bind every attribute with the maximum stride across `attributes`,
    /// and optionally allocate and fill an index buffer. The vertex count
    /// is the lane count divided by that maximum stride.
    ///
    /// Refused with `AlreadyInitialized` on a mesh that already owns
    /// driver objects, and with `InvalidStride` when the maximum stride is
    /// not positive.
    pub fn new(&mut self, config: &MeshConfig) -> (r: Result<Vec<DriverCall>, MeshError>)
        requires
            old(self).wf(),
            config.vertices@.len() <= i32::MAX,
            config.indices matches Some(idx) ==> idx@.len() <= i32::MAX,
        ensures
            final(self).wf(),
            r is Ok <==> !old(self)@.initialized && stride_of(config.attributes@) > 0,
            r is Err ==> *final(self) == *old(self),
            old(self)@.initialized ==> r == Result::<Vec<DriverCall>, MeshError>::Err(
                MeshError::AlreadyInitialized,
            ),
            !old(self)@.initialized && stride_of(config.attributes@) <= 0 ==> r == Result::<
                Vec<DriverCall>,
                MeshError,
            >::Err(MeshError::InvalidStride),
            r matches Ok(calls) ==> {
                &&& final(self)@.initialized
                &&& final(self)@.vertex_count == config.vertices@.len() as int / stride_of(
                    config.attributes@,
                )
                &&& final(self)@.index_count == (match config.indices {
                    Some(idx) => idx@.len() as int,
                    None => 0,
                })
                &&& final(self)@.instance_count == 0
                &&& final(self)@.has_index_buffer == (config.indices is Some)
                &&& final(self)@.instance_buffer is None
                &&& final(self)@.topology == Some(config.primitive_type)
                &&& calls@ == init_calls(
                    config.vertices.len(),
                    match config.indices {
                        Some(idx) => Some(idx@.len() as usize),
                        None => None,
                    },
                    config.attributes@,
                    stride_of(config.attributes@) as i32,
                    config.buffer_usage_hint,
                )
            },
    {
        self.init(
            &config.vertices,
            config.indices.as_ref(),
            &config.attributes,
            config.buffer_usage_hint,
            config.primitive_type,
        )
    }

    /// The shared initialization path behind `new` and
    /// `new_with_indices`; see `new` for what it allocates, uploads and
    /// refuses.
    fn init(
        &mut self,
        vertices: &Vec<u32>,
        indices: Option<&Vec<u32>>,
        attributes: &Vec<VertexAttribute>,
        usage: BufferUsageHint,
        topology: PrimitveType,
    ) -> (r: Result<Vec<DriverCall>, MeshError>)
        requires
            old(self).wf(),
            vertices@.len() <= i32::MAX,
            indices matches Some(idx) ==> idx@.len() <= i32::MAX,
        ensures
            final(self).wf(),
            r is Ok <==> !old(self)@.initialized && stride_of(attributes@) > 0,
            r is Err ==> *final(self) == *old(self),
            old(self)@.initialized ==> r == Result::<Vec<DriverCall>, MeshError>::Err(
                MeshError::AlreadyInitialized,
            ),
            !old(self)@.initialized && stride_of(attributes@) <= 0 ==> r == Result::<
                Vec<DriverCall>,
                MeshError,
            >::Err(MeshError::InvalidStride),
            r matches Ok(calls) ==> {
                &&& final(self)@.initialized
                &&& final(self)@.vertex_count == vertices@.len() as int / stride_of(attributes@)
                &&& final(self)@.index_count == (match indices {
                    Some(idx) => idx@.len() as int,
                    None => 0,
                })
                &&& final(self)@.instance_count == 0
                &&& final(self)@.has_index_buffer == (indices is Some)
                &&& final(self)@.instance_buffer is None
                &&& final(self)@.topology == Some(topology)
                &&& calls@ == init_calls(
                    vertices.len(),
                    match indices {
                        Some(idx) => Some(idx@.len() as usize),
                        None => None,
                    },
                    attributes@,
                    stride_of(attributes@) as i32,
                    usage,
                )
            },
    {
        if self.initialized {
            return Err(MeshError::AlreadyInitialized);
        }
        let stride = max_stride(attributes);
        if stride <= 0 {
            return Err(MeshError::InvalidStride);
        }

        let mut calls: Vec<DriverCall> = Vec::new();
        calls.push(DriverCall::CreateVertexArray);
        calls.push(DriverCall::BindVertexArray);
        calls.push(DriverCall::CreateVertexBuffer);
        calls.push(DriverCall::UploadVertexData { len: vertices.len(), usage });

        let ghost prefix = calls@;
        let ghost rebound = rebind_stride(attributes@, stride);
        let mut i: usize = 0;
        while i < attributes.len()
            invariant
                i <= attributes@.len(),
                rebound == rebind_stride(attributes@, stride),
                calls@ == prefix + attribute_calls(rebound, 0).take(i as int),
            decreases attributes@.len() - i,
        {
            let a = attributes[i];
            calls.push(
                DriverCall::BindAttribute {
                    attribute: VertexAttribute {
                        location: a.location,
                        size: a.size,
                        stride,
                        offset: a.offset,
                    },
                    divisor: 0,
                },
            );
            proof {
                assert(attribute_calls(rebound, 0).take(i + 1) == attribute_calls(
                    rebound,
                    0,
                ).take(i as int).push(DriverCall::BindAttribute {
                    attribute: rebound[i as int],
                    divisor: 0,
                }));
            }
            i = i + 1;
        }
        proof {
            assert(attribute_calls(rebound, 0).take(attributes@.len() as int) == attribute_calls(
                rebound,
                0,
            ));
        }

        let index_count: i32;
        match indices {
            Some(idx) => {
                calls.push(DriverCall::CreateIndexBuffer);
                calls.push(DriverCall::UploadIndexData { len: idx.len(), usage });
                index_count = idx.len() as i32;
            },
            None => {
                index_count = 0;
            },
        }
        calls.push(DriverCall::UnbindVertexArray);

        self.initialized = true;
        self.has_index_buffer = match indices {
            Some(_) => true,
            None => false,
        };
        self.instance_buffer = None;
        self.vertex_count = (vertices.len() / (stride as usize)) as i32;
        self.index_count = index_count;
        self.instance_count = 0;
        self.primitive_type = Some(topology);

        proof {
            assert(calls@ =~= init_calls(
                vertices.len(),
                match indices {
                    Some(idx) => Some(idx@.len() as usize),
                    None => None,
                },
                attributes@,
                stride,
                usage,
            ));
        }
        Ok(calls)
    }

    /// Initialize the mesh from vertex lanes, indices and attributes,
    /// with a static residency hint and triangle topology.
    pub fn new_with_indices(
        &mut self,
        vertices: &Vec<u32>,
        indices: &Vec<u32>,
        attributes: &Vec<VertexAttribute>,
    ) -> (r: Result<Vec<DriverCall>, MeshError>)
        requires
            old(self).wf(),
            vertices@.len() <= i32::MAX,
            indices@.len() <= i32::MAX,
        ensures
            final(self).wf(),
            r is Ok <==> !old(self)@.initialized && stride_of(attributes@) > 0,
            r is Err ==> *final(self) == *old(self),
            old(self)@.initialized ==> r == Result::<Vec<DriverCall>, MeshError>::Err(
                MeshError::AlreadyInitialized,
            ),
            !old(self)@.initialized && stride_of(attributes@) <= 0 ==> r == Result::<
                Vec<DriverCall>,
                MeshError,
            >::Err(MeshError::InvalidStride),
            r matches Ok(calls) ==> {
                &&& final(self)@.initialized
                &&& final(self)@.vertex_count == vertices@.len() as int / stride_of(attributes@)
                &&& final(self)@.index_count == indices@.len() as int
                &&& final(self)@.instance_count == 0
                &&& final(self)@.has_index_buffer
                &&& final(self)@.instance_buffer is None
                &&& final(self)@.topology == Some(PrimitveType::Triangle)
                &&& calls@ == init_calls(
                    vertices.len(),
                    Some(indices.len()),
                    attributes@,
                    stride_of(attributes@) as i32,
                    BufferUsageHint::StaticDraw,
                )
            },
    {
        self.init(
            vertices,
            Some(indices),
            attributes,
            BufferUsageHint::StaticDraw,
            PrimitveType::Triangle,
        )
    }

    /// Derive a packed interleaved layout by scanning the first
    /// instance's value sequence once, flatten all instances into one
    /// packed buffer, and attach it to the mesh: each derived attribute
    /// is bound with divisor 1, so it advances once per instance.
    ///
    /// Refused with `NotInitialized` before the mesh owns a vertex array,
    /// with `NoInstances` for an empty instance sequence, with
    /// `ShapeMismatch` when any instance differs in shape from the first,
    /// and with `SizeMismatch` when an existing instance buffer was
    /// allocated for a different data size.
    pub fn set_instance_attributes(
        &mut self,
        data: &Vec<Vec<ShaderDataType>>,
        starting_location: u32,
    ) -> (r: Result<InstanceUpload, MeshError>)
        requires
            old(self).wf(),
            data@.len() > 0 ==> starting_location as int + shape_slots(data@[0]@) <= u32::MAX,
            data@.len() > 0 ==> data@.len() * shape_lanes(data@[0]@) <= i32::MAX,
        ensures
            final(self).wf(),
            r is Err ==> *final(self) == *old(self),
            r is Ok <==> {
                &&& old(self)@.initialized
                &&& data@.len() > 0
                &&& all_same_shape(data@)
                &&& (old(self)@.instance_buffer matches Some(cap) ==> cap == data@.len()
                    * shape_lanes(data@[0]@))
            },
            !old(self)@.initialized ==> r == Result::<InstanceUpload, MeshError>::Err(
                MeshError::NotInitialized,
            ),
            old(self)@.initialized && data@.len() == 0 ==> r == Result::<
                InstanceUpload,
                MeshError,
            >::Err(MeshError::NoInstances),
            old(self)@.initialized && data@.len() > 0 && !all_same_shape(data@) ==> r == Result::<
                InstanceUpload,
                MeshError,
            >::Err(MeshError::ShapeMismatch),
            (old(self)@.initialized && data@.len() > 0 && all_same_shape(data@) && (old(
                self,
            )@.instance_buffer matches Some(cap) && cap != data@.len() * shape_lanes(data@[0]@)))
                ==> r == Result::<InstanceUpload, MeshError>::Err(MeshError::SizeMismatch),
            r matches Ok(up) ==> {
                &&& up.data@ == flat_instances(data@)
                &&& up.data@.len() == data@.len() * shape_lanes(data@[0]@)
                &&& up.calls@ == instance_calls(
                    old(self)@.instance_buffer is None,
                    up.data.len(),
                    derived_layout(
                        data@[0]@,
                        starting_location as int,
                        0,
                        shape_lanes(data@[0]@) as i32,
                    ),
                )
                &&& final(self)@.instance_count == (if shape_lanes(data@[0]@) > 0 {
                    data@.len() as int
                } else {
                    0
                })
                &&& final(self)@.instance_buffer == Some(data@.len() * shape_lanes(data@[0]@))
                &&& final(self)@.initialized == old(self)@.initialized
                &&& final(self)@.vertex_count == old(self)@.vertex_count
                &&& final(self)@.index_count == old(self)@.index_count
                &&& final(self)@.has_index_buffer == old(self)@.has_index_buffer
                &&& final(self)@.topology == old(self)@.topology
            },
    {
        if !self.initialized {
            return Err(MeshError::NotInitialized);
        }
        if data.len() == 0 {
            return Err(MeshError::NoInstances);
        }
        if !all_shapes_match(data) {
            return Err(MeshError::ShapeMismatch);
        }
        proof {
            lemma_flat_lanes_len(data@[0]@);
            assert(shape_lanes(data@[0]@) <= data@.len() * shape_lanes(data@[0]@))
                by (nonlinear_arith)
                requires
                    data@.len() >= 1,
                    shape_lanes(data@[0]@) >= 0,
            ;
        }
        let per: usize = shape_lane_count(&data[0]);
        proof {
            assert(per <= i32::MAX);
        }
        let total: usize = data.len() * per;
        match self.instance_buffer {
            Some(cap) => {
                if cap != total {
                    return Err(MeshError::SizeMismatch);
                }
            },
            None => {},
        }
        let attrs = build_instance_layout(&data[0], starting_location, per as i32);
        let lanes = flatten_instances(data);
        proof {
            lemma_flat_instances_len(data@);
            lemma_layout_props(data@[0]@, starting_location as int, 0, per as i32);
            if data@[0]@.len() > 0 {
                lemma_stride_of_uniform(attrs@, per as i32);
                vstd::arithmetic::div_mod::lemma_div_by_multiple(data@.len() as int, per as int);
            }
        }
        let fresh = match self.instance_buffer {
            Some(_) => false,
            None => true,
        };
        let calls = match self.set_instance_data(total, &attrs) {
            Ok(c) => c,
            Err(e) => {
                return Err(e);
            },
        };
        Ok(InstanceUpload { calls, data: lanes })
    }

    /// Attach a pre-flattened instance buffer of `lane_len` lanes under
    /// the given attribute bindings: allocate the buffer on first use, or
    /// overwrite it in place when it was allocated for exactly this size.
    /// The instance count is the lane count divided by the maximum
    /// attribute stride.
    fn set_instance_data(&mut self, lane_len: usize, attributes: &Vec<VertexAttribute>) -> (r:
        Result<Vec<DriverCall>, MeshError>)
        requires
            old(self).wf(),
            old(self)@.initialized,
            stride_of(attributes@) >= 1,
            lane_len <= i32::MAX,
        ensures
            final(self).wf(),
            r is Err ==> *final(self) == *old(self),
            r is Ok <==> (old(self)@.instance_buffer matches Some(cap) ==> cap == lane_len as int),
            r is Err ==> r == Result::<Vec<DriverCall>, MeshError>::Err(MeshError::SizeMismatch),
            r matches Ok(calls) ==> {
                &&& calls@ == instance_calls(
                    old(self)@.instance_buffer is None,
                    lane_len,
                    attributes@,
                )
                &&& final(self)@.instance_buffer == Some(lane_len as int)
                &&& final(self)@.instance_count == lane_len as int / stride_of(attributes@)
                &&& final(self)@.initialized == old(self)@.initialized
                &&& final(self)@.vertex_count == old(self)@.vertex_count
                &&& final(self)@.index_count == old(self)@.index_count
                &&& final(self)@.has_index_buffer == old(self)@.has_index_buffer
                &&& final(self)@.topology == old(self)@.topology
            },
    {
        let fresh: bool;
        match self.instance_buffer {
            Some(cap) => {
                if cap != lane_len {
                    return Err(MeshError::SizeMismatch);
                }
                fresh = false;
            },
            None => {
                fresh = true;
            },
        }

        let mut calls: Vec<DriverCall> = Vec::new();
        calls.push(DriverCall::BindVertexArray);
        if fresh {
            calls.push(DriverCall::CreateInstanceBuffer);
            calls.push(DriverCall::UploadInstanceData { len: lane_len });
        } else {
            calls.push(DriverCall::UpdateInstanceData { len: lane_len });
        }

        let ghost prefix = calls@;
        let mut i: usize = 0;
        while i < attributes.len()
            invariant
                i <= attributes@.len(),
                calls@ == prefix + attribute_calls(attributes@, 1).take(i as int),
            decreases attributes@.len() - i,
        {
            calls.push(DriverCall::BindAttribute { attribute: attributes[i], divisor: 1 });
            proof {
                assert(attribute_calls(attributes@, 1).take(i + 1) == attribute_calls(
                    attributes@,
                    1,
                ).take(i as int).push(DriverCall::BindAttribute {
                    attribute: attributes@[i as int],
                    divisor: 1,
                }));
            }
            i = i + 1;
        }
        proof {
            assert(attribute_calls(attributes@, 1).take(attributes@.len() as int)
                == attribute_calls(attributes@, 1));
        }
        calls.push(DriverCall::UnbindVertexArray);

        let stride = max_stride(attributes);
        self.instance_buffer = Some(lane_len);
        self.instance_count = (lane_len / (stride as usize)) as i32;

        proof {
            assert(calls@ =~= instance_calls(
                old(self)@.instance_buffer is None,
                lane_len,
                attributes@,
            ));
        }
        Ok(calls)
    }

    /// Select and issue the draw call: a no-op on an uninitialized mesh,
    /// otherwise exactly one of the four dispatch variants chosen by
    /// whether the mesh has indices and whether it has instances, with
    /// the configured topology.
    pub fn draw(&self) -> (calls: Vec<DriverCall>)
        requires
            self.wf(),
        ensures
            calls@ == draw_calls(self@),
            !self@.initialized ==> calls@.len() == 0,
    {
        if !self.initialized {
            return Vec::new();
        }
        let topology = match self.primitive_type {
            Some(t) => t,
            None => unreached(),
        };

        let mut calls: Vec<DriverCall> = Vec::new();
        calls.push(DriverCall::BindVertexArray);
        if self.instance_count > 0 {
            if self.index_count > 0 {
                calls.push(
                    DriverCall::DrawElementsInstanced {
                        topology,
                        index_count: self.index_count,
                        instance_count: self.instance_count,
                    },
                );
            } else {
                calls.push(
                    DriverCall::DrawArraysInstanced {
                        topology,
                        vertex_count: self.vertex_count,
                        instance_count: self.instance_count,
                    },
                );
            }
        } else {
            if self.index_count > 0 {
                calls.push(
                    DriverCall::DrawElements { topology, index_count: self.index_count },
                );
            } else {
                calls.push(DriverCall::DrawArrays { topology, vertex_count: self.vertex_count });
            }
        }
        calls.push(DriverCall::UnbindVertexArray);
        proof {
            assert(calls@ =~= draw_calls(self@));
        }
        calls
    }

    /// Release every driver object the mesh owns, each exactly once, and
    /// return the mesh to its empty state. Safe on a never-initialized
    /// mesh: zero driver calls.
    pub fn release(&mut self) -> (calls: Vec<DriverCall>)
        requires
            old(self).wf(),
        ensures
            final(self).wf(),
            calls@ == release_calls(old(self)@),
            !old(self)@.initialized ==> calls@.len() == 0,
            !final(self)@.initialized,
            final(self)@.vertex_count == 0,
            final(self)@.index_count == 0,
            final(self)@.instance_count == 0,
            !final(self)@.has_index_buffer,
            final(self)@.instance_buffer is None,
            final(self)@.topology is None,
    {
        let mut calls: Vec<DriverCall> = Vec::new();
        if self.initialized {
            calls.push(DriverCall::DeleteVertexArray);
            calls.push(DriverCall::DeleteVertexBuffer);
            if self.has_index_buffer {
                calls.push(DriverCall::DeleteIndexBuffer);
            }
            match self.instance_buffer {
                Some(_) => {
                    calls.push(DriverCall::DeleteInstanceBuffer);
                },
                None => {},
            }
        }
        self.initialized = false;
        self.has_index_buffer = false;
        self.instance_buffer = None;
        self.vertex_count = 0;
        self.index_count = 0;
        self.instance_count = 0;
        self.primitive_type = None;
        proof {
            assert(calls@ =~= release_calls(old(self)@));
        }
        calls
    }
}

/// What a successful instance-data attachment hands the backend: the
/// driver calls to issue, and the packed lane buffer the upload call
/// refers to.
#[derive(Debug, PartialEq, Eq)]
pub struct InstanceUpload {
    pub calls: Vec<DriverCall>,
    pub data: Vec<BufferLane>,
}

/// The exact driver-call sequence of `Mesh::draw`.
pub open spec fn draw_calls(m: MeshView) -> Seq<DriverCall> {
    if !m.initialized {
        Seq::<DriverCall>::empty()
    } else {
        seq![DriverCall::BindVertexArray, draw_dispatch(m), DriverCall::UnbindVertexArray]
    }
}

/// The single dispatch variant an initialized mesh draws with: indexed
/// iff it has indices, instanced iff it has instances, never a
/// non-instanced call when the instance count is positive.
pub open spec fn draw_dispatch(m: MeshView) -> DriverCall {
    let topology = m.topology->Some_0;
    if m.instance_count > 0 {
        if m.index_count > 0 {
            DriverCall::DrawElementsInstanced {
                topology,
                index_count: m.index_count as i32,
                instance_count: m.instance_count as i32,
            }
        } else {
            DriverCall::DrawArraysInstanced {
                topology,
                vertex_count: m.vertex_count as i32,
                instance_count: m.instance_count as i32,
            }
        }
    } else {
        if m.index_count > 0 {
            DriverCall::DrawElements { topology, index_count: m.index_count as i32 }
        } else {
            DriverCall::DrawArrays { topology, vertex_count: m.vertex_count as i32 }
        }
    }
}

/// The exact driver-call sequence of `Mesh::release`: one delete per
/// owned object.
pub open spec fn release_calls(m: MeshView) -> Seq<DriverCall> {
    if !m.initialized {
        Seq::<DriverCall>::empty()
    } else {
        seq![DriverCall::DeleteVertexArray, DriverCall::DeleteVertexBuffer] + (if m.has_index_buffer {
            seq![DriverCall::DeleteIndexBuffer]
        } else {
            Seq::<DriverCall>::empty()
        }) + (if m.instance_buffer is Some {
            seq![DriverCall::DeleteInstanceBuffer]
        } else {
            Seq::<DriverCall>::empty()
        })
    }
}

/// Law: an initialized mesh draws with exactly one dispatch call, and
/// that call is indexed exactly when the mesh has indices and instanced
/// exactly when it has instances.
pub proof fn lemma_draw_selection(m: MeshView)
    requires
        m.initialized,
    ensures
        draw_calls(m).len() == 3,
        draw_count(draw_calls(m)) == 1,
        draw_calls(m)[1].is_draw(),
        !draw_calls(m)[0].is_draw(),
        !draw_calls(m)[2].is_draw(),
        draw_calls(m)[1].is_indexed_draw() <==> m.index_count > 0,
        draw_calls(m)[1].is_instanced_draw() <==> m.instance_count > 0,
{
    let s = draw_calls(m);
    assert(s.drop_last() =~= seq![DriverCall::BindVertexArray, draw_dispatch(m)]);
    assert(s.drop_last().drop_last() =~= seq![DriverCall::BindVertexArray]);
    assert(s.drop_last().drop_last().drop_last() =~= Seq::<DriverCall>::empty());
    assert(draw_count(s.drop_last().drop_last().drop_last()) == 0);
    assert(draw_count(s.drop_last().drop_last()) == 0);
    assert(draw_count(s.drop_last()) == 1);
    assert(draw_count(s) == 1);
}

/// Law: flattening instances each shaped as one 3-vector, one 4x4 matrix
/// and one scalar packs exactly 20 lanes per instance, and the derived
/// layout is one 3-component binding at the starting slot and offset 0,
/// four 4-component column bindings at the next four slots and offsets
/// 3, 7, 11 and 15, and one scalar binding at the slot after them and
/// offset 19, all carrying stride 20.
pub proof fn lemma_vec3_mat4_float_round_trip(data: Seq<Vec<ShaderDataType>>, start: int)
    requires
        data.len() > 0,
        all_same_shape(data),
        data[0]@.len() == 3,
        data[0]@[0] is Vec3,
        data[0]@[1] is Mat4,
        data[0]@[2] is Float,
    ensures
        shape_lanes(data[0]@) == 20,
        shape_slots(data[0]@) == 6,
        flat_instances(data).len() == data.len() * 20,
        derived_layout(data[0]@, start, 0, 20) =~= seq![
            va(start, 3, 20, 0),
            va(start + 1, 4, 20, 3),
            va(start + 2, 4, 20, 7),
            va(start + 3, 4, 20, 11),
            va(start + 4, 4, 20, 15),
            va(start + 5, 1, 20, 19),
        ],
{
    let s = data[0]@;
    let e0 = Seq::<ShaderDataType>::empty();
    let e1 = seq![s[0]];
    let e2 = seq![s[0], s[1]];
    assert(e1.drop_last() =~= e0);
    assert(e2.drop_last() =~= e1);
    assert(s.drop_last() =~= e2);
    assert(shape_lanes(e0) == 0);
    assert(shape_lanes(e1) == 3);
    assert(shape_lanes(e2) == 19);
    assert(shape_lanes(s) == 20);
    assert(shape_slots(e0) == 0);
    assert(shape_slots(e1) == 1);
    assert(shape_slots(e2) == 5);
    assert(shape_slots(s) == 6);
    lemma_flat_instances_len(data);
    assert(derived_layout(e0, start, 0, 20) =~= Seq::<VertexAttribute>::empty());
    assert(derived_layout(e1, start, 0, 20) =~= value_attrs(s[0], start, 0, 20));
    assert(derived_layout(e2, start, 0, 20) =~= value_attrs(s[0], start, 0, 20) + value_attrs(
        s[1],
        start + 1,
        3,
        20,
    ));
    assert(derived_layout(s, start, 0, 20) =~= value_attrs(s[0], start, 0, 20) + value_attrs(
        s[1],
        start + 1,
        3,
        20,
    ) + value_attrs(s[2], start + 5, 19, 20));
}

/// Law: a never-initialized mesh performs zero driver calls, whether it
/// is drawn or destroyed.
pub proof fn lemma_uninitialized_mesh_no_calls(m: MeshView)
    requires
        !m.initialized,
    ensures
        draw_calls(m).len() == 0,
        release_calls(m).len() == 0,
{
}

/// The total number of 32-bit lanes one instance of this shape occupies:
/// the packed per-instance stride.
pub open spec fn shape_lanes(shape: Seq<ShaderDataType>) -> int
    decreases shape.len(),
{
    if shape.len() == 0 {
        0
    } else {
        shape_lanes(shape.drop_last()) + shape.last().lane_len()
    }
}

/// The total number of attribute slots one instance of this shape
/// occupies.
pub open spec fn shape_slots(shape: Seq<ShaderDataType>) -> int
    decreases shape.len(),
{
    if shape.len() == 0 {
        0
    } else {
        shape_slots(shape.drop_last()) + shape.last().slot_len()
    }
}

/// Two value lists have the same shape: same length, and the same variant
/// tag position by position.
pub open spec fn shapes_eq(a: Seq<ShaderDataType>, b: Seq<ShaderDataType>) -> bool {
    &&& a.len() == b.len()
    &&& forall|j: int| 0 <= j < a.len() ==> a[j].same_shape(b[j])
}

/// Every instance has the shape of the first one.
pub open spec fn all_same_shape(data: Seq<Vec<ShaderDataType>>) -> bool {
    forall|i: int| 0 <= i < data.len() ==> shapes_eq(data[0]@, #[trigger] data[i]@)
}

/// The packed lanes of one instance's value list, in order.
pub open spec fn flat_lanes(vals: Seq<ShaderDataType>) -> Seq<BufferLane>
    decreases vals.len(),
{
    if vals.len() == 0 {
        Seq::<BufferLane>::empty()
    } else {
        flat_lanes(vals.drop_last()) + vals.last().lanes()
    }
}

/// The whole instance sequence flattened into one packed buffer, in
/// instance order.
pub open spec fn flat_instances(data: Seq<Vec<ShaderDataType>>) -> Seq<BufferLane>
    decreases data.len(),
{
    if data.len() == 0 {
        Seq::<BufferLane>::empty()
    } else {
        flat_instances(data.drop_last()) + flat_lanes(data.last()@)
    }
}

/// The attribute bindings one value derives: one slot for a scalar or a
/// vector, one slot per column for a matrix, at consecutive locations and
/// consecutive lane offsets.
pub open spec fn value_attrs(v: ShaderDataType, loc: int, off: int, stride: i32) -> Seq<
    VertexAttribute,
> {
    match v {
        ShaderDataType::Int(_) => seq![va(loc, 1, stride, off)],
        ShaderDataType::Float(_) => seq![va(loc, 1, stride, off)],
        ShaderDataType::Vec2(_, _) => seq![va(loc, 2, stride, off)],
        ShaderDataType::Vec3(_, _, _) => seq![va(loc, 3, stride, off)],
        ShaderDataType::Vec4(_, _, _, _) => seq![va(loc, 4, stride, off)],
        ShaderDataType::Mat3(_) => Seq::new(3, |c: int| va(loc + c, 3, stride, off + 3 * c)),
        ShaderDataType::Mat4(_) => Seq::new(4, |c: int| va(loc + c, 4, stride, off + 4 * c)),
    }
}

/// Shorthand for an attribute binding whose location and offset come from
/// layout arithmetic.
pub open spec fn va(loc: int, size: i32, stride: i32, off: int) -> VertexAttribute {
    VertexAttribute { location: loc as u32, size, stride, offset: off as usize }
}

/// The attribute layout derived by scanning a shape once: slots assigned
/// sequentially from `start`, offsets packed from `base`, every binding
/// carrying the same per-instance `stride`.
pub open spec fn derived_layout(shape: Seq<ShaderDataType>, start: int, base: int, stride: i32) -> Seq<
    VertexAttribute,
>
    decreases shape.len(),
{
    if shape.len() == 0 {
        Seq::<VertexAttribute>::empty()
    } else {
        derived_layout(shape.drop_last(), start, base, stride) + value_attrs(
            shape.last(),
            start + shape_slots(shape.drop_last()),
            base + shape_lanes(shape.drop_last()),
            stride,
        )
    }
}

/// The exact driver-call sequence of a successful instance-data
/// attachment: bind the vertex array, allocate and fill the instance
/// buffer (or overwrite it in place), bind each derived attribute with
/// divisor 1, then unbind.
pub open spec fn instance_calls(fresh: bool, len: usize, attrs: Seq<VertexAttribute>) -> Seq<
    DriverCall,
> {
    seq![DriverCall::BindVertexArray] + (if fresh {
        seq![DriverCall::CreateInstanceBuffer, DriverCall::UploadInstanceData { len }]
    } else {
        seq![DriverCall::UpdateInstanceData { len }]
    }) + attribute_calls(attrs, 1) + seq![DriverCall::UnbindVertexArray]
}

/// Prefixes of a shape have non-decreasing slot and lane totals, and both
/// totals dominate the prefix length.
proof fn lemma_shape_counts_monotone(shape: Seq<ShaderDataType>, i: int, j: int)
    requires
        0 <= i <= j <= shape.len(),
    ensures
        shape_slots(shape.take(i)) <= shape_slots(shape.take(j)),
        shape_lanes(shape.take(i)) <= shape_lanes(shape.take(j)),
        shape_slots(shape.take(j)) - shape_slots(shape.take(i)) >= j - i,
        shape_lanes(shape.take(j)) - shape_lanes(shape.take(i)) >= j - i,
    decreases j - i,
{
    if i < j {
        lemma_shape_counts_monotone(shape, i, j - 1);
        assert(shape.take(j).drop_last() == shape.take(j - 1));
    }
}

/// A flattened value list has exactly `shape_lanes` lanes.
proof fn lemma_flat_lanes_len(vals: Seq<ShaderDataType>)
    ensures
        flat_lanes(vals).len() == shape_lanes(vals),
        shape_lanes(vals) >= vals.len(),
        shape_slots(vals) >= vals.len(),
    decreases vals.len(),
{
    if vals.len() > 0 {
        lemma_flat_lanes_len(vals.drop_last());
    }
}

/// Lane and slot totals depend on the shape alone.
proof fn lemma_shapes_eq_counts(a: Seq<ShaderDataType>, b: Seq<ShaderDataType>)
    requires
        shapes_eq(a, b),
    ensures
        shape_lanes(a) == shape_lanes(b),
        shape_slots(a) == shape_slots(b),
    decreases a.len(),
{
    if a.len() > 0 {
        assert(shapes_eq(a.drop_last(), b.drop_last()));
        lemma_shapes_eq_counts(a.drop_last(), b.drop_last());
        a.last().lemma_same_shape_same_len(b.last());
    }
}

/// When every instance shares the first one's shape, the flattened buffer
/// holds exactly one stride of lanes per instance.
proof fn lemma_flat_instances_len(data: Seq<Vec<ShaderDataType>>)
    requires
        all_same_shape(data),
        data.len() > 0,
    ensures
        flat_instances(data).len() == data.len() * shape_lanes(data[0]@),
    decreases data.len(),
{
    let per = shape_lanes(data[0]@);
    lemma_flat_lanes_len(data.last()@);
    assert(shapes_eq(data[0]@, data.last()@));
    lemma_shapes_eq_counts(data[0]@, data.last()@);
    if data.len() == 1 {
        assert(flat_instances(data) == flat_instances(data.drop_last()) + flat_lanes(
            data.last()@,
        ));
        assert(flat_instances(data.drop_last()).len() == 0);
    } else {
        let rest = data.drop_last();
        assert(rest[0] == data[0]);
        assert(all_same_shape(rest)) by {
            assert forall|i: int| 0 <= i < rest.len() implies shapes_eq(
                rest[0]@,
                #[trigger] rest[i]@,
            ) by {
                assert(rest[i] == data[i]);
            }
        }
        lemma_flat_instances_len(rest);
        assert((data.len() - 1) * per + per == data.len() * per) by (nonlinear_arith);
    }
}

/// A derived layout has one binding per slot, and every binding carries
/// the given stride.
proof fn lemma_layout_props(shape: Seq<ShaderDataType>, start: int, base: int, stride: i32)
    ensures
        derived_layout(shape, start, base, stride).len() == shape_slots(shape),
        forall|i: int|
            0 <= i < shape_slots(shape) ==> #[trigger] derived_layout(
                shape,
                start,
                base,
                stride,
            )[i].stride == stride,
    decreases shape.len(),
{
    if shape.len() > 0 {
        lemma_layout_props(shape.drop_last(), start, base, stride);
    }
}

/// A non-empty attribute list whose bindings all carry stride `s` has
/// maximum stride `s`.
proof fn lemma_stride_of_uniform(attrs: Seq<VertexAttribute>, s: i32)
    requires
        attrs.len() > 0,
        forall|i: int| 0 <= i < attrs.len() ==> #[trigger] attrs[i].stride == s,
    ensures
        stride_of(attrs) == s as int,
    decreases attrs.len(),
{
    if attrs.len() > 1 {
        lemma_stride_of_uniform(attrs.drop_last(), s);
    }
}

/// The largest stride among `attrs`, or 1 when the list is empty.
fn max_stride(attrs: &Vec<VertexAttribute>) -> (s: i32)
    ensures
        s as int == stride_of(attrs@),
{
    if attrs.len() == 0 {
        return 1;
    }
    let mut s: i32 = attrs[0].stride;
    let mut i: usize = 1;
    while i < attrs.len()
        invariant
            1 <= i <= attrs@.len(),
            attrs@.len() >= 1,
            s as int == stride_of(attrs@.take(i as int)),
        decreases attrs@.len() - i,
    {
        proof {
            assert(attrs@.take(i + 1).drop_last() == attrs@.take(i as int));
        }
        if attrs[i].stride > s {
            s = attrs[i].stride;
        }
        i = i + 1;
    }
    proof {
        assert(attrs@.take(attrs@.len() as int) == attrs@);
    }
    s
}

/// The packed per-instance lane total of one value list.
fn shape_lane_count(shape: &Vec<ShaderDataType>) -> (n: usize)
    requires
        shape_lanes(shape@) <= usize::MAX,
    ensures
        n as int == shape_lanes(shape@),
{
    let mut n: usize = 0;
    let mut i: usize = 0;
    while i < shape.len()
        invariant
            i <= shape@.len(),
            shape_lanes(shape@) <= usize::MAX,
            n as int == shape_lanes(shape@.take(i as int)),
        decreases shape@.len() - i,
    {
        proof {
            assert(shape@.take(i + 1).drop_last() == shape@.take(i as int));
            assert(shape@.take(i + 1).last() == shape@[i as int]);
            lemma_shape_counts_monotone(shape@, i + 1, shape@.len() as int);
            assert(shape@.take(shape@.len() as int) == shape@);
        }
        n = n + shape[i].lane_count();
        i = i + 1;
    }
    proof {
        assert(shape@.take(shape@.len() as int) == shape@);
    }
    n
}

/// Derive the attribute layout of one shape: slots assigned sequentially
/// from `starting_location`, offsets packed, every binding carrying the
/// full per-instance `stride`.
fn build_instance_layout(shape: &Vec<ShaderDataType>, starting_location: u32, stride: i32) -> (attrs:
    Vec<VertexAttribute>)
    requires
        starting_location as int + shape_slots(shape@) <= u32::MAX,
        shape_lanes(shape@) <= usize::MAX,
    ensures
        attrs@ == derived_layout(shape@, starting_location as int, 0, stride),
{
    let mut attrs: Vec<VertexAttribute> = Vec::new();
    let mut loc: u32 = starting_location;
    let mut off: usize = 0;
    let mut i: usize = 0;
    while i < shape.len()
        invariant
            i <= shape@.len(),
            starting_location as int + shape_slots(shape@) <= u32::MAX,
            shape_lanes(shape@) <= usize::MAX,
            loc as int == starting_location as int + shape_slots(shape@.take(i as int)),
            off as int == shape_lanes(shape@.take(i as int)),
            attrs@ == derived_layout(shape@.take(i as int), starting_location as int, 0, stride),
        decreases shape@.len() - i,
    {
        proof {
            assert(shape@.take(i + 1).drop_last() == shape@.take(i as int));
            assert(shape@.take(i + 1).last() == shape@[i as int]);
            lemma_shape_counts_monotone(shape@, 0, i as int);
            lemma_shape_counts_monotone(shape@, i + 1, shape@.len() as int);
            assert(shape@.take(0) == Seq::<ShaderDataType>::empty());
            assert(shape@.take(shape@.len() as int) == shape@);
        }
        let v = shape[i];
        let ghost gloc = loc as int;
        let ghost goff = off as int;
        match v {
            ShaderDataType::Int(_) => {
                attrs.push(VertexAttribute::new(loc, 1, stride, off));
                loc = loc + 1;
                off = off + 1;
            },
            ShaderDataType::Float(_) => {
                attrs.push(VertexAttribute::new(loc, 1, stride, off));
                loc = loc + 1;
                off = off + 1;
            },
            ShaderDataType::Vec2(_, _) => {
                attrs.push(VertexAttribute::new(loc, 2, stride, off));
                loc = loc + 1;
                off = off + 2;
            },
            ShaderDataType::Vec3(_, _, _) => {
                attrs.push(VertexAttribute::new(loc, 3, stride, off));
                loc = loc + 1;
                off = off + 3;
            },
            ShaderDataType::Vec4(_, _, _, _) => {
                attrs.push(VertexAttribute::new(loc, 4, stride, off));
                loc = loc + 1;
                off = off + 4;
            },
            ShaderDataType::Mat3(_) => {
                attrs.push(VertexAttribute::new(loc, 3, stride, off));
                attrs.push(VertexAttribute::new(loc + 1, 3, stride, off + 3));
                attrs.push(VertexAttribute::new(loc + 2, 3, stride, off + 6));
                proof {
                    assert(value_attrs(v, gloc, goff, stride) =~= seq![
                        va(gloc, 3, stride, goff),
                        va(gloc + 1, 3, stride, goff + 3),
                        va(gloc + 2, 3, stride, goff + 6),
                    ]);
                }
                loc = loc + 3;
                off = off + 9;
            },
            ShaderDataType::Mat4(_) => {
                attrs.push(VertexAttribute::new(loc, 4, stride, off));
                attrs.push(VertexAttribute::new(loc + 1, 4, stride, off + 4));
                attrs.push(VertexAttribute::new(loc + 2, 4, stride, off + 8));
                attrs.push(VertexAttribute::new(loc + 3, 4, stride, off + 12));
                proof {
                    assert(value_attrs(v, gloc, goff, stride) =~= seq![
                        va(gloc, 4, stride, goff),
                        va(gloc + 1, 4, stride, goff + 4),
                        va(gloc + 2, 4, stride, goff + 8),
                        va(gloc + 3, 4, stride, goff + 12),
                    ]);
                }
                loc = loc + 4;
                off = off + 16;
            },
        }
        proof {
            assert(attrs@ =~= derived_layout(
                shape@.take(i + 1),
                starting_location as int,
                0,
                stride,
            ));
        }
        i = i + 1;
    }
    proof {
        assert(shape@.take(shape@.len() as int) == shape@);
    }
    attrs
}

/// Append the packed lanes of one value to the buffer being built.
fn push_value_lanes(out: &mut Vec<BufferLane>, v: &ShaderDataType)
    ensures
        final(out)@ == old(out)@ + v.lanes(),
{
    match v {
        ShaderDataType::Int(i) => {
            out.push(BufferLane::Int(*i));
        },
        ShaderDataType::Float(b) => {
            out.push(BufferLane::Float(*b));
        },
        ShaderDataType::Vec2(x, y) => {
            out.push(BufferLane::Float(*x));
            out.push(BufferLane::Float(*y));
        },
        ShaderDataType::Vec3(x, y, z) => {
            out.push(BufferLane::Float(*x));
            out.push(BufferLane::Float(*y));
            out.push(BufferLane::Float(*z));
        },
        ShaderDataType::Vec4(x, y, z, w) => {
            out.push(BufferLane::Float(*x));
            out.push(BufferLane::Float(*y));
            out.push(BufferLane::Float(*z));
            out.push(BufferLane::Float(*w));
        },
        ShaderDataType::Mat3(m) => {
            let mut k: usize = 0;
            while k < 9
                invariant
                    k <= 9,
                    v matches ShaderDataType::Mat3(mm) && mm@ == m@,
                    v.lanes().len() == 9,
                    out@ == old(out)@ + v.lanes().take(k as int),
                decreases 9 - k,
            {
                out.push(BufferLane::Float(m[k]));
                proof {
                    assert(v.lanes().take(k + 1) =~= v.lanes().take(k as int).push(
                        BufferLane::Float(m@[k as int]),
                    ));
                }
                k = k + 1;
            }
            proof {
                assert(v.lanes().take(9) == v.lanes());
            }
        },
        ShaderDataType::Mat4(m) => {
            let mut k: usize = 0;
            while k < 16
                invariant
                    k <= 16,
                    v matches ShaderDataType::Mat4(mm) && mm@ == m@,
                    v.lanes().len() == 16,
                    out@ == old(out)@ + v.lanes().take(k as int),
                decreases 16 - k,
            {
                out.push(BufferLane::Float(m[k]));
                proof {
                    assert(v.lanes().take(k + 1) =~= v.lanes().take(k as int).push(
                        BufferLane::Float(m@[k as int]),
                    ));
                }
                k = k + 1;
            }
            proof {
                assert(v.lanes().take(16) == v.lanes());
            }
        },
    }
    proof {
        assert(final(out)@ =~= old(out)@ + v.lanes());
    }
}

/// Flatten the full instance sequence into one packed buffer, in instance
/// order.
fn flatten_instances(data: &Vec<Vec<ShaderDataType>>) -> (out: Vec<BufferLane>)
    ensures
        out@ == flat_instances(data@),
{
    let mut out: Vec<BufferLane> = Vec::new();
    let mut i: usize = 0;
    while i < data.len()
        invariant
            i <= data@.len(),
            out@ == flat_instances(data@.take(i as int)),
        decreases data@.len() - i,
    {
        let inst = &data[i];
        let ghost before = out@;
        let mut j: usize = 0;
        while j < inst.len()
            invariant
                j <= inst@.len(),
                i < data@.len(),
                inst@ == data@[i as int]@,
                before == flat_instances(data@.take(i as int)),
                out@ == before + flat_lanes(inst@.take(j as int)),
            decreases inst@.len() - j,
        {
            push_value_lanes(&mut out, &inst[j]);
            proof {
                assert(inst@.take(j + 1).drop_last() == inst@.take(j as int));
                assert(inst@.take(j + 1).last() == inst@[j as int]);
                assert(out@ =~= before + flat_lanes(inst@.take(j + 1)));
            }
            j = j + 1;
        }
        proof {
            assert(inst@.take(inst@.len() as int) == inst@);
            assert(data@.take(i + 1).drop_last() == data@.take(i as int));
            assert(data@.take(i + 1).last() == data@[i as int]);
            assert(out@ =~= flat_instances(data@.take(i + 1)));
        }
        i = i + 1;
    }
    proof {
        assert(data@.take(data@.len() as int) == data@);
    }
    out
}

/// Whether two value lists have the same shape, position by position.
fn shapes_match(a: &Vec<ShaderDataType>, b: &Vec<ShaderDataType>) -> (r: bool)
    ensures
        r == shapes_eq(a@, b@),
{
    if a.len() != b.len() {
        return false;
    }
    let mut j: usize = 0;
    while j < a.len()
        invariant
            j <= a@.len(),
            a@.len() == b@.len(),
            forall|t: int| 0 <= t < j ==> a@[t].same_shape(#[trigger] b@[t]),
        decreases a@.len() - j,
    {
        if !a[j].shape_matches(&b[j]) {
            return false;
        }
        j = j + 1;
    }
    true
}

/// Whether every instance has the shape of the first one.
fn all_shapes_match(data: &Vec<Vec<ShaderDataType>>) -> (r: bool)
    ensures
        r == all_same_shape(data@),
{
    if data.len() == 0 {
        return true;
    }
    let first = &data[0];
    proof {
        assert(shapes_eq(data@[0]@, data@[0]@));
    }
    let mut i: usize = 1;
    while i < data.len()
        invariant
            1 <= i <= data@.len(),
            first@ == data@[0]@,
            forall|t: int| 0 <= t < i ==> shapes_eq(data@[0]@, #[trigger] data@[t]@),
        decreases data@.len() - i,
    {
        if !shapes_match(first, &data[i]) {
            return false;
        }
        i = i + 1;
    }
    true
}

} // verus!
