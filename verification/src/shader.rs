//! The shader program manager.
//!
//! A [`Shader`] owns at most one driver-side program and a cache of
//! uniform locations keyed by name, so that a name — present in the
//! program or not — is queried from the driver at most once. A
//! [`ShaderBuilder`] drives the multi-stage compile-and-link protocol,
//! releasing every transient stage object on every exit path.

use vstd::prelude::*;
use vstd::string::StringExecFns;

use crate::driver::DriverCall;
use crate::types::ShaderDataType;

verus! {

/// The kind of one shader stage.
#[derive(Clone, Copy, Debug, PartialEq, Eq)]
pub enum StageKind {
    Vertex,
    Fragment,
    Geometry,
    Compute,
}

/// Why a shader operation failed. Compile and link errors carry the
/// driver's diagnostic log verbatim.
#[derive(Clone, Debug, PartialEq, Eq)]
pub enum ShaderError {
    Compile(String),
    Link(String),
    /// The program was bound while it had no driver-side handle: a usage
    /// error, asymmetric with drawing an uninitialized mesh on purpose —
    /// drawing nothing is safe, rendering with no program is not.
    NotLinked,
}

/// What `Shader::set_uniform` decided.
#[derive(Clone, Copy, Debug, PartialEq, Eq)]
pub enum UniformOutcome {
    /// The name has never been looked up: query the driver once, store
    /// the result (found or not), and ask again.
    NeedsQuery,
    /// The name is cached as absent from the program: a silent no-op,
    /// since shaders legally omit unused uniforms.
    Skipped,
    /// The name is cached at a real location: issue this upload call.
    Upload(DriverCall),
}

/// The abstract state of a shader: whether it owns a linked program, and
/// the cached location of every name looked up so far (-1 meaning
/// "absent from the program; never ask again").
pub ghost struct ShaderView {
    pub linked: bool,
    pub cache: Map<Seq<char>, int>,
}

/// The location cache as a map: later entries override earlier ones.
pub open spec fn cache_map(entries: Seq<(String, i32)>) -> Map<Seq<char>, int>
    decreases entries.len(),
{
    if entries.len() == 0 {
        Map::<Seq<char>, int>::empty()
    } else {
        cache_map(entries.drop_last()).insert(entries.last().0@, entries.last().1 as int)
    }
}

/// The cache holds the last stored location of each name.
proof fn lemma_cache_map_last_match(entries: Seq<(String, i32)>, k: Seq<char>)
    ensures
        cache_map(entries).contains_key(k) <==> exists|i: int|
            0 <= i < entries.len() && #[trigger] entries[i].0@ == k,
        forall|i: int|
            {
                &&& 0 <= i < entries.len()
                &&& #[trigger] entries[i].0@ == k
                &&& forall|t: int| i < t < entries.len() ==> #[trigger] entries[t].0@ != k
            } ==> cache_map(entries)[k] == entries[i].1 as int,
    decreases entries.len(),
{
    if entries.len() > 0 {
        lemma_cache_map_last_match(entries.drop_last(), k);
        assert forall|i: int|
            0 <= i < entries.len() - 1 && #[trigger] entries[i].0@ == k implies entries.drop_last()[i].0@
            == k by {}
    }
}

/// The state after one location is stored: the cache transition of
/// `Shader::store_uniform_location`.
pub open spec fn with_cached_location(s: ShaderView, name: Seq<char>, location: int) -> ShaderView {
    ShaderView { linked: s.linked, cache: s.cache.insert(name, location) }
}

/// What `set_uniform` decides on a given state: query once on a miss,
/// skip silently on the "absent" sentinel, upload otherwise.
pub open spec fn uniform_outcome(s: ShaderView, name: Seq<char>, value: ShaderDataType) -> UniformOutcome {
    if !s.cache.contains_key(name) {
        UniformOutcome::NeedsQuery
    } else if s.cache[name] == -1 {
        UniformOutcome::Skipped
    } else {
        UniformOutcome::Upload(upload_call(s.cache[name] as i32, value))
    }
}

/// The type-specific upload call matching a value's variant.
pub open spec fn upload_call(location: i32, value: ShaderDataType) -> DriverCall {
    match value {
        ShaderDataType::Int(v) => DriverCall::Uniform1i { location, value: v },
        ShaderDataType::Float(b) => DriverCall::Uniform1f { location, x: b },
        ShaderDataType::Vec2(x, y) => DriverCall::Uniform2f { location, x, y },
        ShaderDataType::Vec3(x, y, z) => DriverCall::Uniform3f { location, x, y, z },
        ShaderDataType::Vec4(x, y, z, w) => DriverCall::Uniform4f { location, x, y, z, w },
        ShaderDataType::Mat3(m) => DriverCall::UniformMatrix3fv { location, columns3: m },
        ShaderDataType::Mat4(m) => DriverCall::UniformMatrix4fv { location, columns4: m },
    }
}

/// A shader program: a driver-side handle (present once linked) plus the
/// uniform-location cache.
pub struct Shader {
    linked: bool,
    uniform_cache: Vec<(String, i32)>,
}

impl View for Shader {
    type V = ShaderView;

    closed spec fn view(&self) -> ShaderView {
        ShaderView { linked: self.linked, cache: cache_map(self.uniform_cache@) }
    }
}

impl Shader {
    /// Create an empty shader: no driver-side program, empty cache.
    /// Valid before a graphics context exists; issues no driver calls.
    pub fn empty() -> (s: Shader)
        ensures
            !s@.linked,
            s@.cache == Map::<Seq<char>, int>::empty(),
    {
        Shader { linked: false, uniform_cache: Vec::new() }
    }

    /// Whether the shader owns a linked program.
    pub fn is_linked(&self) -> (b: bool)
        ensures
            b == self@.linked,
    {
        self.linked
    }

    /// Activate the program for subsequent draws. Binding a shader that
    /// has no program is a usage error.
    pub fn bind(&self) -> (r: Result<DriverCall, ShaderError>)
        ensures
            r is Ok <==> self@.linked,
            self@.linked ==> r == Result::<DriverCall, ShaderError>::Ok(DriverCall::UseProgram),
            !self@.linked ==> r == Result::<DriverCall, ShaderError>::Err(ShaderError::NotLinked),
    {
        if self.linked {
            Ok(DriverCall::UseProgram)
        } else {
            Err(ShaderError::NotLinked)
        }
    }

    /// The cached location of a name, if it was ever stored.
    fn cached_location(&self, name: &String) -> (r: Option<i32>)
        ensures
            match r {
                Some(loc) => self@.cache.contains_key(name@) && self@.cache[name@] == loc as int,
                None => !self@.cache.contains_key(name@),
            },
    {
        proof {
            lemma_cache_map_last_match(self.uniform_cache@, name@);
        }
        let n = self.uniform_cache.len();
        let mut i: usize = n;
        while i > 0
            invariant
                i <= n,
                n == self.uniform_cache@.len(),
                forall|t: int| i <= t < n ==> #[trigger] self.uniform_cache@[t].0@ != name@,
            decreases i,
        {
            i = i - 1;
            let entry = &self.uniform_cache[i];
            if entry.0 == *name {
                proof {
                    lemma_cache_map_last_match(self.uniform_cache@, name@);
                    assert(self.uniform_cache@[i as int].0@ == name@);
                    assert(forall|t: int|
                        (i as int) < t < n ==> #[trigger] self.uniform_cache@[t].0@ != name@);
                    assert(self@.cache.contains_key(name@));
                    assert(self@.cache[name@] == self.uniform_cache@[i as int].1 as int);
                }
                return Some(entry.1);
            }
        }
        None
    }

    /// Decide what setting a uniform does: query the driver once when the
    /// name was never looked up, skip silently when it is cached as
    /// absent, and dispatch the type-specific upload call otherwise.
    pub fn set_uniform(&self, name: &str, value: &ShaderDataType) -> (r: UniformOutcome)
        ensures
            r == uniform_outcome(self@, name@, *value),
    {
        let owned = String::from_str(name);
        match self.cached_location(&owned) {
            None => UniformOutcome::NeedsQuery,
            Some(location) => {
                if location == -1 {
                    UniformOutcome::Skipped
                } else {
                    match value {
                        ShaderDataType::Int(v) => UniformOutcome::Upload(
                            DriverCall::Uniform1i { location, value: *v },
                        ),
                        ShaderDataType::Float(b) => UniformOutcome::Upload(
                            DriverCall::Uniform1f { location, x: *b },
                        ),
                        ShaderDataType::Vec2(x, y) => UniformOutcome::Upload(
                            DriverCall::Uniform2f { location, x: *x, y: *y },
                        ),
                        ShaderDataType::Vec3(x, y, z) => UniformOutcome::Upload(
                            DriverCall::Uniform3f { location, x: *x, y: *y, z: *z },
                        ),
                        ShaderDataType::Vec4(x, y, z, w) => UniformOutcome::Upload(
                            DriverCall::Uniform4f { location, x: *x, y: *y, z: *z, w: *w },
                        ),
                        ShaderDataType::Mat3(m) => UniformOutcome::Upload(
                            DriverCall::UniformMatrix3fv { location, columns3: *m },
                        ),
                        ShaderDataType::Mat4(m) => UniformOutcome::Upload(
                            DriverCall::UniformMatrix4fv { location, columns4: *m },
                        ),
                    }
                }
            },
        }
    }

    /// Store the driver's answer for a name — a real location, or -1 for
    /// "absent from the program" — so it is never queried again.
    pub fn store_uniform_location(&mut self, name: String, location: i32)
        ensures
            final(self)@ == with_cached_location(old(self)@, name@, location as int),
    {
        self.uniform_cache.push((name, location));
        proof {
            assert(self.uniform_cache@.drop_last() =~= old(self).uniform_cache@);
            assert(self.uniform_cache@.last() == (name, location));
        }
    }

    /// Release the program handle if one is owned; the cache is kept.
    /// Safe on a never-linked shader: zero driver calls.
    pub fn release(&mut self) -> (calls: Vec<DriverCall>)
        ensures
            old(self)@.linked ==> calls@ == seq![DriverCall::DeleteProgram],
            !old(self)@.linked ==> calls@.len() == 0,
            !final(self)@.linked,
            final(self)@.cache == old(self)@.cache,
    {
        let mut calls: Vec<DriverCall> = Vec::new();
        if self.linked {
            calls.push(DriverCall::DeleteProgram);
        }
        self.linked = false;
        proof {
            if old(self)@.linked {
                assert(calls@ =~= seq![DriverCall::DeleteProgram]);
            }
        }
        calls
    }
}

/// Where the build protocol stands: compiling stages one by one, waiting
/// for the link result, or finished.
#[derive(Clone, Copy, Debug, PartialEq, Eq)]
pub enum BuildPhase {
    Compiling,
    Linking,
    Done,
}

/// The abstract state of a program build: the stages to compile, how
/// many have compiled and attached so far, and the protocol phase.
pub ghost struct ShaderBuilderView {
    pub stages: Seq<(StageKind, Seq<char>)>,
    pub compiled: int,
    pub phase: BuildPhase,
}

/// The stage list as kinds and source texts.
pub open spec fn stages_view(stages: Seq<(StageKind, String)>) -> Seq<(StageKind, Seq<char>)> {
    stages.map_values(|p: (StageKind, String)| (p.0, p.1@))
}

/// One `DeleteStage` call for each of the first `n` stage objects: the
/// cleanup owed whenever the build ends, successfully or not.
pub open spec fn delete_stage_calls(n: int) -> Seq<DriverCall> {
    Seq::new(n as nat, |i: int| DriverCall::DeleteStage { index: i as usize })
}

/// Drives one program build: compile each stage, attach it, link, and
/// release every transient stage object on every exit path. The driver's
/// answers (compile and link outcomes) are fed back through
/// `stage_compiled` and `link_outcome`.
pub struct ShaderBuilder {
    stages: Vec<(StageKind, String)>,
    compiled: usize,
    phase: BuildPhase,
}

impl View for ShaderBuilder {
    type V = ShaderBuilderView;

    closed spec fn view(&self) -> ShaderBuilderView {
        ShaderBuilderView {
            stages: stages_view(self.stages@),
            compiled: self.compiled as int,
            phase: self.phase,
        }
    }
}

impl ShaderBuilder {
    /// A builder is well formed while its progress counter stays within
    /// the stage list and matches its phase.
    pub open spec fn wf(self) -> bool {
        &&& self@.stages.len() >= 1
        &&& 0 <= self@.compiled <= self@.stages.len()
        &&& self@.phase is Compiling ==> self@.compiled < self@.stages.len()
        &&& self@.phase is Linking ==> self@.compiled == self@.stages.len()
    }

    /// Start building a program from at least one stage: create the
    /// program object, then create and compile the first stage.
    pub fn new(stages: Vec<(StageKind, String)>) -> (r: (ShaderBuilder, Vec<DriverCall>))
        requires
            stages@.len() >= 1,
        ensures
            r.0.wf(),
            r.0@.stages == stages_view(stages@),
            r.0@.compiled == 0,
            r.0@.phase is Compiling,
            r.1@ == seq![
                DriverCall::CreateProgram,
                DriverCall::CreateStage { index: 0, kind: stages@[0].0 },
                DriverCall::CompileStage { index: 0 },
            ],
    {
        let kind0 = stages[0].0;
        let b = ShaderBuilder { stages, compiled: 0, phase: BuildPhase::Compiling };
        let mut calls: Vec<DriverCall> = Vec::new();
        calls.push(DriverCall::CreateProgram);
        calls.push(DriverCall::CreateStage { index: 0, kind: kind0 });
        calls.push(DriverCall::CompileStage { index: 0 });
        proof {
            assert(calls@ =~= seq![
                DriverCall::CreateProgram,
                DriverCall::CreateStage { index: 0, kind: kind0 },
                DriverCall::CompileStage { index: 0 },
            ]);
        }
        (b, calls)
    }

    /// How many stages the build was started with.
    pub fn stage_count(&self) -> (n: usize)
        ensures
            n as int == self@.stages.len(),
    {
        self.stages.len()
    }

    /// The kind of one stage.
    pub fn stage_kind(&self, index: usize) -> (k: StageKind)
        requires
            index < self@.stages.len(),
        ensures
            k == self@.stages[index as int].0,
    {
        self.stages[index].0
    }

    /// The source text of one stage.
    pub fn stage_source(&self, index: usize) -> (s: &String)
        requires
            index < self@.stages.len(),
        ensures
            s@ == self@.stages[index as int].1,
    {
        &self.stages[index].1
    }

    /// Where the protocol stands.
    pub fn phase(&self) -> (p: BuildPhase)
        ensures
            p == self@.phase,
    {
        self.phase
    }

    /// Feed back the driver's verdict on the stage just compiled. On
    /// success the stage is attached and the build moves on: to the next
    /// stage, or to linking after the last one. On failure the build
    /// ends, every stage object created so far and the program object
    /// are released, and the compile error carries the driver's log
    /// verbatim.
    pub fn stage_compiled(&mut self, success: bool, log: String) -> (r: (
        Vec<DriverCall>,
        Option<ShaderError>,
    ))
        requires
            old(self).wf(),
            old(self)@.phase is Compiling,
        ensures
            final(self).wf(),
            final(self)@.stages == old(self)@.stages,
            success ==> r.1 is None && final(self)@.compiled == old(self)@.compiled + 1,
            success && old(self)@.compiled + 1 < old(self)@.stages.len() ==> {
                &&& final(self)@.phase is Compiling
                &&& r.0@ == seq![
                    DriverCall::AttachStage { index: old(self)@.compiled as usize },
                    DriverCall::CreateStage {
                        index: (old(self)@.compiled + 1) as usize,
                        kind: old(self)@.stages[old(self)@.compiled + 1].0,
                    },
                    DriverCall::CompileStage { index: (old(self)@.compiled + 1) as usize },
                ]
            },
            success && old(self)@.compiled + 1 == old(self)@.stages.len() ==> {
                &&& final(self)@.phase is Linking
                &&& r.0@ == seq![
                    DriverCall::AttachStage { index: old(self)@.compiled as usize },
                    DriverCall::LinkProgram,
                ]
            },
            !success ==> {
                &&& r.1 == Some(ShaderError::Compile(log))
                &&& final(self)@.phase is Done
                &&& r.0@ == delete_stage_calls(old(self)@.compiled + 1) + seq![
                    DriverCall::DeleteProgram,
                ]
            },
    {
        let mut calls: Vec<DriverCall> = Vec::new();
        let n = self.stages.len();
        proof {
            assert(self.compiled < n);
        }
        if success {
            let idx = self.compiled;
            calls.push(DriverCall::AttachStage { index: idx });
            self.compiled = idx + 1;
            if self.compiled < self.stages.len() {
                let kind = self.stages[self.compiled].0;
                calls.push(DriverCall::CreateStage { index: self.compiled, kind });
                calls.push(DriverCall::CompileStage { index: self.compiled });
                proof {
                    assert(calls@ =~= seq![
                        DriverCall::AttachStage { index: idx },
                        DriverCall::CreateStage {
                            index: (idx + 1) as usize,
                            kind: old(self)@.stages[idx + 1].0,
                        },
                        DriverCall::CompileStage { index: (idx + 1) as usize },
                    ]);
                }
            } else {
                self.phase = BuildPhase::Linking;
                calls.push(DriverCall::LinkProgram);
                proof {
                    assert(calls@ =~= seq![
                        DriverCall::AttachStage { index: idx },
                        DriverCall::LinkProgram,
                    ]);
                }
            }
            (calls, None)
        } else {
            self.phase = BuildPhase::Done;
            let created = self.compiled + 1;
            let mut j: usize = 0;
            while j < created
                invariant
                    j <= created,
                    calls@ == delete_stage_calls(j as int),
                decreases created - j,
            {
                calls.push(DriverCall::DeleteStage { index: j });
                proof {
                    assert(calls@ =~= delete_stage_calls(j + 1));
                }
                j = j + 1;
            }
            calls.push(DriverCall::DeleteProgram);
            proof {
                assert(calls@ =~= delete_stage_calls(old(self)@.compiled + 1) + seq![
                    DriverCall::DeleteProgram,
                ]);
            }
            (calls, Some(ShaderError::Compile(log)))
        }
    }

    /// Feed back the driver's verdict on the link. Every transient stage
    /// object is released regardless; on failure the program object is
    /// released too and the link error carries the driver's log
    /// verbatim; on success the linked shader is handed out with an
    /// empty uniform cache.
    pub fn link_outcome(&mut self, success: bool, log: String) -> (r: (
        Vec<DriverCall>,
        Result<Shader, ShaderError>,
    ))
        requires
            old(self).wf(),
            old(self)@.phase is Linking,
        ensures
            final(self)@.phase is Done,
            final(self)@.stages == old(self)@.stages,
            r.0@ == delete_stage_calls(old(self)@.stages.len() as int) + (if success {
                Seq::<DriverCall>::empty()
            } else {
                seq![DriverCall::DeleteProgram]
            }),
            success ==> (r.1 matches Ok(sh) && sh@.linked && sh@.cache == Map::<
                Seq<char>,
                int,
            >::empty()),
            !success ==> r.1 == Result::<Shader, ShaderError>::Err(ShaderError::Link(log)),
    {
        self.phase = BuildPhase::Done;
        let total = self.stages.len();
        let mut calls: Vec<DriverCall> = Vec::new();
        let mut j: usize = 0;
        while j < total
            invariant
                j <= total,
                calls@ == delete_stage_calls(j as int),
            decreases total - j,
        {
            calls.push(DriverCall::DeleteStage { index: j });
            proof {
                assert(calls@ =~= delete_stage_calls(j + 1));
            }
            j = j + 1;
        }
        if success {
            proof {
                assert(calls@ =~= delete_stage_calls(old(self)@.stages.len() as int)
                    + Seq::<DriverCall>::empty());
            }
            (calls, Ok(Shader { linked: true, uniform_cache: Vec::new() }))
        } else {
            calls.push(DriverCall::DeleteProgram);
            proof {
                assert(calls@ =~= delete_stage_calls(old(self)@.stages.len() as int) + seq![
                    DriverCall::DeleteProgram,
                ]);
            }
            (calls, Err(ShaderError::Link(log)))
        }
    }
}

/// Law: a uniform name is queried at most once per shader lifetime. Once
/// its location is stored — found or not — `set_uniform` on that name
/// never asks again, and storing other names never brings the question
/// back.
pub proof fn lemma_uniform_query_at_most_once(
    s: ShaderView,
    name: Seq<char>,
    location: int,
    other: Seq<char>,
    other_location: int,
    value: ShaderDataType,
)
    ensures
        uniform_outcome(with_cached_location(s, name, location), name, value)
            != UniformOutcome::NeedsQuery,
        uniform_outcome(s, name, value) != UniformOutcome::NeedsQuery ==> uniform_outcome(
            with_cached_location(s, other, other_location),
            name,
            value,
        ) != UniformOutcome::NeedsQuery,
{
}

} // verus!
