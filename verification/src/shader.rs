//! Shader programs and the builder that gathers their stages.

use vstd::prelude::*;
use vstd::string::StringSliceAdditionalSpecFns;

use crate::command::{
    keeps_framebuffer, keeps_program, lemma_keeps_program_concat, lemma_program_kept, run_calls,
    GlCall, GlState,
};
use crate::glenum::{FRAGMENT_SHADER, GEOMETRY_SHADER, VERTEX_SHADER};

verus! {

/// The sources a [`ShaderBuilder`] holds for each stage, where it has one.
pub struct ShaderSources {
    pub vertex: Option<String>,
    pub geometry: Option<String>,
    pub fragment: Option<String>,
}

/// One stage to compile: its OpenGL shader type and its source.
pub struct ShaderStage {
    pub kind: u32,
    pub source: String,
}

/// Gathers the sources of the stages of a shader program.
///
/// Only the stages that are given are compiled and linked; OpenGL supplies
/// the default for the others (a vertex and a fragment shader are enough).
pub struct ShaderBuilder {
    vertex: Option<String>,
    geom: Option<String>,
    frag: Option<String>,
}

impl View for ShaderBuilder {
    type V = ShaderSources;

    closed spec fn view(&self) -> ShaderSources {
        ShaderSources { vertex: self.vertex, geometry: self.geom, fragment: self.frag }
    }
}

/// The stage of type `kind` with source `source`, if there is one.
pub open spec fn stage_of(source: Option<String>, kind: u32) -> Seq<ShaderStage> {
    match source {
        Some(s) => seq![ShaderStage { kind, source: s }],
        None => Seq::empty(),
    }
}

/// The stages to compile, in the order vertex, geometry, fragment.
pub open spec fn shader_stages(s: ShaderSources) -> Seq<ShaderStage> {
    stage_of(s.vertex, VERTEX_SHADER) + stage_of(s.geometry, GEOMETRY_SHADER) + stage_of(
        s.fragment,
        FRAGMENT_SHADER,
    )
}

/// The calls that compile the shader `shader` from `source`.
pub open spec fn compile_calls_of(shader: u32, source: String) -> Seq<GlCall> {
    seq![GlCall::ShaderSource { shader, source }, GlCall::CompileShader { shader }]
}

/// The calls that attach each shader of `shaders` to `program`, in order,
/// and link it.
pub open spec fn link_calls_of(program: u32, shaders: Seq<u32>) -> Seq<GlCall> {
    shaders.map_values(|s: u32| GlCall::AttachShader { program, shader: s }) + seq![
        GlCall::LinkProgram { program },
    ]
}

/// The calls that release the shaders `shaders` once they are linked.
pub open spec fn release_calls_of(shaders: Seq<u32>) -> Seq<GlCall> {
    shaders.map_values(|s: u32| GlCall::DeleteShader { shader: s })
}

/// The call that makes `program` the one in use.
pub open spec fn use_program_calls(program: u32) -> Seq<GlCall> {
    seq![GlCall::UseProgram { program }]
}

/// What follows the link calls, given the status word of `GL_LINK_STATUS`:
/// the release of the linked stages when linking succeeded, nothing when it
/// failed (the host reports the failure and keeps the stages).
pub fn release_after_link(status: i32, release: Vec<GlCall>) -> (r: Option<Vec<GlCall>>)
    ensures
        status != 0 ==> r == Some(release),
        status == 0 ==> r is None,
{
    if status_ok(status) {
        Some(release)
    } else {
        None
    }
}

fn clone_source(source: &Option<String>) -> (r: Option<String>)
    ensures
        r == *source,
{
    match source {
        Some(s) => Some(s.clone()),
        None => None,
    }
}

fn push_stage(stages: &mut Vec<ShaderStage>, source: &Option<String>, kind: u32)
    ensures
        final(stages)@ == old(stages)@ + stage_of(*source, kind),
{
    match source {
        Some(s) => {
            stages.push(ShaderStage { kind, source: s.clone() });
        },
        None => {},
    }
}

/// Whether `text` can be handed to OpenGL as a C string, that is whether it
/// holds no NUL byte.
pub fn is_c_compatible(text: &str) -> (r: bool)
    ensures
        r == !text.spec_bytes().contains(0u8),
{
    let bytes = text.as_bytes();
    let n = bytes.len();
    for i in 0..n
        invariant
            n == bytes@.len(),
            bytes@ == text.spec_bytes(),
            forall|j: int| 0 <= j < i ==> bytes@[j] != 0u8,
    {
        if bytes[i] == 0u8 {
            assert(bytes@[i as int] == 0u8);
            return false;
        }
    }
    true
}

/// Whether a compile or link status word reports success (it is not
/// `GL_FALSE`).
pub fn status_ok(status: i32) -> (r: bool)
    ensures
        r == (status != 0),
{
    status != 0
}

/// Whether the text `chars` can be handed to OpenGL as a C string: its
/// UTF-8 encoding holds no NUL byte.
pub open spec fn c_compatible(chars: Seq<char>) -> bool {
    !vstd::utf8::encode_utf8(chars).contains(0u8)
}

/// Why building a shader program stopped.
#[derive(Debug, Clone, Copy, PartialEq, Eq, Structural)]
pub enum BuildError {
    /// The source of stage `stage` holds a NUL byte; it was not compiled.
    NulInSource { stage: usize },
    /// Stage `stage` failed to compile.
    CompileFailed { stage: usize },
}

/// The next step of building a program from its stages.
#[derive(Debug, Clone, Copy, PartialEq, Eq, Structural)]
pub enum BuildStep {
    /// Create and compile the shader of stage `index`.
    Compile { index: usize },
    /// Every stage compiled: create the program and link.
    Link,
    /// Stop: no further stage is compiled and no program is created.
    Abort(BuildError),
}

/// The step that comes when the stages before `index` have compiled: stage
/// `index` if it exists (unless its source is no C string), the link
/// otherwise.
pub open spec fn step_at(stages: Seq<ShaderStage>, index: int) -> BuildStep {
    if index >= stages.len() {
        BuildStep::Link
    } else if !c_compatible(stages[index].source@) {
        BuildStep::Abort(BuildError::NulInSource { stage: index as usize })
    } else {
        BuildStep::Compile { index: index as usize }
    }
}

/// The step reached from the start after compiling with the statuses
/// `statuses`, one per compiled stage, in order. A stop, or the link, is
/// final: later statuses change nothing.
pub open spec fn steps_after(stages: Seq<ShaderStage>, statuses: Seq<i32>) -> BuildStep
    decreases statuses.len(),
{
    if statuses.len() == 0 {
        step_at(stages, 0)
    } else {
        match steps_after(stages, statuses.drop_last()) {
            BuildStep::Compile { index } => if statuses.last() == 0 {
                BuildStep::Abort(BuildError::CompileFailed { stage: index })
            } else {
                step_at(stages, index + 1)
            },
            other => other,
        }
    }
}

fn step_at_exec(stages: &Vec<ShaderStage>, index: usize) -> (r: BuildStep)
    requires
        index <= stages@.len(),
    ensures
        r == step_at(stages@, index as int),
{
    if index >= stages.len() {
        BuildStep::Link
    } else if !is_c_compatible(stages[index].source.as_str()) {
        BuildStep::Abort(BuildError::NulInSource { stage: index })
    } else {
        BuildStep::Compile { index }
    }
}

/// The first step of building a program from `stages` (in the order of
/// [`ShaderBuilder::stages`]).
pub fn first_step(stages: &Vec<ShaderStage>) -> (r: BuildStep)
    ensures
        r == step_at(stages@, 0),
        r == steps_after(stages@, Seq::empty()),
{
    step_at_exec(stages, 0)
}

/// The step after stage `index` was compiled and `glGetShaderiv` reported
/// the compile status `status`: a failure stops the build there, otherwise
/// the next stage, or the link after the last one.
pub fn compile_step(stages: &Vec<ShaderStage>, index: usize, status: i32) -> (r: BuildStep)
    requires
        index < stages@.len(),
    ensures
        status == 0 ==> r == BuildStep::Abort(BuildError::CompileFailed { stage: index }),
        status != 0 ==> r == step_at(stages@, index + 1),
{
    let n = stages.len();
    if !status_ok(status) {
        BuildStep::Abort(BuildError::CompileFailed { stage: index })
    } else {
        assert(index < n);
        step_at_exec(stages, index + 1)
    }
}

impl ShaderBuilder {
    pub fn new() -> (r: Self)
        ensures
            r@ == (ShaderSources { vertex: None, geometry: None, fragment: None }),
    {
        ShaderBuilder { vertex: None, geom: None, frag: None }
    }

    /// The builder with `source` as its vertex stage.
    pub fn vertex_from_source(&self, source: String) -> (r: Self)
        ensures
            r@ == (ShaderSources { vertex: Some(source), ..self@ }),
    {
        ShaderBuilder {
            vertex: Some(source),
            geom: clone_source(&self.geom),
            frag: clone_source(&self.frag),
        }
    }

    /// The builder with `source` as its geometry stage.
    pub fn geometry_from_source(&self, source: String) -> (r: Self)
        ensures
            r@ == (ShaderSources { geometry: Some(source), ..self@ }),
    {
        ShaderBuilder {
            vertex: clone_source(&self.vertex),
            geom: Some(source),
            frag: clone_source(&self.frag),
        }
    }

    /// The builder with `source` as its fragment stage.
    pub fn fragment_from_source(&self, source: String) -> (r: Self)
        ensures
            r@ == (ShaderSources { fragment: Some(source), ..self@ }),
    {
        ShaderBuilder {
            vertex: clone_source(&self.vertex),
            geom: clone_source(&self.geom),
            frag: Some(source),
        }
    }

    /// The stages to compile: each stage that has a source, in the order
    /// vertex, geometry, fragment, with its OpenGL shader type.
    pub fn stages(&self) -> (r: Vec<ShaderStage>)
        ensures
            r@ == shader_stages(self@),
    {
        let mut stages: Vec<ShaderStage> = Vec::new();
        push_stage(&mut stages, &self.vertex, VERTEX_SHADER);
        push_stage(&mut stages, &self.geom, GEOMETRY_SHADER);
        push_stage(&mut stages, &self.frag, FRAGMENT_SHADER);
        assert(stages@ == shader_stages(self@));
        stages
    }

    /// The calls that compile the shader `shader` (from `glCreateShader`)
    /// from `source`. The host checks the compile status afterwards.
    pub fn compile_calls(shader: u32, source: String) -> (r: Vec<GlCall>)
        ensures
            r@ == compile_calls_of(shader, source),
    {
        let mut calls: Vec<GlCall> = Vec::new();
        calls.push(GlCall::ShaderSource { shader, source });
        calls.push(GlCall::CompileShader { shader });
        calls
    }

    /// The program `program` (from `glCreateProgram`) made of `shaders`, the
    /// compiled stages in the order of [`ShaderBuilder::stages`]: the shader,
    /// the calls that attach the stages and link (after which the host checks
    /// the link status), and the calls that release the stages.
    pub fn build(&self, program: u32, shaders: &Vec<u32>) -> (r: (Shader, Vec<GlCall>, Vec<GlCall>))
        requires
            shaders@.len() == shader_stages(self@).len(),
        ensures
            r.0@ == program,
            r.1@ == link_calls_of(program, shaders@),
            r.2@ == release_calls_of(shaders@),
    {
        let n = shaders.len();
        let mut link: Vec<GlCall> = Vec::new();
        let mut release: Vec<GlCall> = Vec::new();
        for i in 0..n
            invariant
                n == shaders@.len(),
                link@ == shaders@.take(i as int).map_values(
                    |s: u32| GlCall::AttachShader { program, shader: s },
                ),
                release@ == release_calls_of(shaders@.take(i as int)),
        {
            link.push(GlCall::AttachShader { program, shader: shaders[i] });
            release.push(GlCall::DeleteShader { shader: shaders[i] });
            assert(shaders@.take(i + 1) =~= shaders@.take(i as int).push(shaders@[i as int]));
        }
        assert(shaders@.take(n as int) =~= shaders@);
        link.push(GlCall::LinkProgram { program });
        (Shader { program }, link, release)
    }
}

/// A linked shader program.
pub struct Shader {
    program: u32,
}

impl View for Shader {
    type V = u32;

    /// The OpenGL name of the program.
    closed spec fn view(&self) -> u32 {
        self.program
    }
}

impl Shader {
    /// The OpenGL name of the program, for uniform lookups.
    pub fn program(&self) -> (r: u32)
        ensures
            r == self@,
    {
        self.program
    }

    /// Makes the program the one the following draw calls use. It stays in
    /// use until another program is bound.
    pub fn bind(&self) -> (r: Vec<GlCall>)
        ensures
            r@ == use_program_calls(self@),
    {
        let mut calls: Vec<GlCall> = Vec::new();
        calls.push(GlCall::UseProgram { program: self.program });
        calls
    }

    /// The call that sets the integer uniform at `location` (from
    /// `glGetUniformLocation` on this program) to `value`.
    pub fn set_int(&self, location: i32, value: i32) -> (r: Vec<GlCall>)
        ensures
            r@ == seq![GlCall::Uniform1i { location, value }],
    {
        let mut calls: Vec<GlCall> = Vec::new();
        calls.push(GlCall::Uniform1i { location, value });
        calls
    }

    /// The calls that release the program.
    pub fn delete_calls(&self) -> (r: Vec<GlCall>)
        ensures
            r@ == seq![GlCall::DeleteProgram { program: self@ }],
    {
        let mut calls: Vec<GlCall> = Vec::new();
        calls.push(GlCall::DeleteProgram { program: self.program });
        calls
    }
}

/// Each stage is compiled exactly when its source is given, with the OpenGL
/// type of that stage and that source, vertex before geometry before
/// fragment.
pub proof fn lemma_stages_follow_sources(s: ShaderSources)
    ensures
        shader_stages(s).len() == (if s.vertex is Some { 1int } else { 0 }) + (if s.geometry is Some {
            1int
        } else {
            0
        }) + (if s.fragment is Some { 1int } else { 0 }),
        s.vertex matches Some(v) ==> shader_stages(s)[0] == (ShaderStage {
            kind: VERTEX_SHADER,
            source: v,
        }),
        s.fragment matches Some(f) ==> shader_stages(s).last() == (ShaderStage {
            kind: FRAGMENT_SHADER,
            source: f,
        }),
        forall|i: int|
            0 <= i < shader_stages(s).len() ==> {
                let k = (#[trigger] shader_stages(s)[i]).kind;
                k == VERTEX_SHADER || k == GEOMETRY_SHADER || k == FRAGMENT_SHADER
            },
{
}

/// Setting one stage leaves the others as they were.
pub proof fn lemma_stage_setters_independent(s: ShaderSources, v: String, g: String, f: String)
    ensures
        (ShaderSources { vertex: Some(v), ..ShaderSources { fragment: Some(f), ..s } })
            == (ShaderSources { fragment: Some(f), ..ShaderSources { vertex: Some(v), ..s } }),
        (ShaderSources { geometry: Some(g), ..s }).vertex == s.vertex,
        (ShaderSources { geometry: Some(g), ..s }).fragment == s.fragment,
{
}

/// Linking attaches every compiled shader, in order, before the single link,
/// and the release afterwards deletes exactly the shaders that were
/// attached, in the same order.
pub proof fn lemma_attached_shaders_are_released(program: u32, shaders: Seq<u32>)
    ensures
        link_calls_of(program, shaders).len() == shaders.len() + 1,
        release_calls_of(shaders).len() == shaders.len(),
        link_calls_of(program, shaders).last() == (GlCall::LinkProgram { program }),
        forall|i: int|
            0 <= i < shaders.len() ==> {
                &&& #[trigger] link_calls_of(program, shaders)[i] == (GlCall::AttachShader {
                    program,
                    shader: shaders[i],
                })
                &&& release_calls_of(shaders)[i] == (GlCall::DeleteShader { shader: shaders[i] })
            },
{
}

proof fn lemma_mapped_calls_keep_program(program: u32, shaders: Seq<u32>)
    ensures
        keeps_program(shaders.map_values(|s: u32| GlCall::AttachShader { program, shader: s })),
        keeps_program(release_calls_of(shaders)),
    decreases shaders.len(),
{
    if shaders.len() > 0 {
        let prefix = shaders.drop_last();
        lemma_mapped_calls_keep_program(program, prefix);
        assert(shaders.map_values(|s: u32| GlCall::AttachShader { program, shader: s }).drop_last()
            =~= prefix.map_values(|s: u32| GlCall::AttachShader { program, shader: s }));
        assert(release_calls_of(shaders).drop_last() =~= release_calls_of(prefix));
    }
}

/// Compiling, linking and releasing stages switch no program: only binding a
/// shader does.
pub proof fn lemma_building_keeps_program(program: u32, shaders: Seq<u32>, shader: u32, source: String)
    ensures
        keeps_program(compile_calls_of(shader, source)),
        keeps_program(link_calls_of(program, shaders)),
        keeps_program(release_calls_of(shaders)),
{
    reveal_with_fuel(keeps_program, 3);
    lemma_mapped_calls_keep_program(program, shaders);
    lemma_keeps_program_concat(
        shaders.map_values(|s: u32| GlCall::AttachShader { program, shader: s }),
        seq![GlCall::LinkProgram { program }],
    );
}

/// Setting a uniform switches neither the program nor the framebuffer.
pub proof fn lemma_uniform_keeps_bindings(location: i32, value: i32)
    ensures
        keeps_program(seq![GlCall::Uniform1i { location, value }]),
        keeps_framebuffer(seq![GlCall::Uniform1i { location, value }]),
{
    reveal_with_fuel(keeps_program, 2);
    reveal_with_fuel(keeps_framebuffer, 2);
}

/// A bound shader stays bound: after binding it, any run of calls that
/// switch no program (drawing meshes, binding textures and framebuffers,
/// creating and resizing them, clearing) keeps it in use, and every draw in
/// that run renders with it.
pub proof fn lemma_shader_stays_bound(s: GlState, program: u32, cs: Seq<GlCall>)
    requires
        keeps_program(cs),
    ensures
        keeps_framebuffer(use_program_calls(program)),
        run_calls(s, use_program_calls(program)).program == program,
        run_calls(run_calls(s, use_program_calls(program)), cs).program == program,
        forall|i: int|
            s.draws.len() <= i < run_calls(run_calls(s, use_program_calls(program)), cs).draws.len()
                ==> (#[trigger] run_calls(run_calls(s, use_program_calls(program)), cs).draws[i]).program
                == program,
{
    reveal_with_fuel(run_calls, 2);
    reveal_with_fuel(keeps_framebuffer, 2);
    let s1 = run_calls(s, use_program_calls(program));
    assert(s1.draws == s.draws);
    lemma_program_kept(s1, cs);
}

/// The steps are taken one compile status at a time: feeding one more status
/// to a build that asked for stage `index` gives [`compile_step`]'s answer.
pub proof fn lemma_build_step(stages: Seq<ShaderStage>, statuses: Seq<i32>, status: i32)
    ensures
        steps_after(stages, statuses) matches BuildStep::Compile { index } ==> steps_after(
            stages,
            statuses.push(status),
        ) == (if status == 0 {
            BuildStep::Abort(BuildError::CompileFailed { stage: index })
        } else {
            step_at(stages, index + 1)
        }),
        !(steps_after(stages, statuses) is Compile) ==> steps_after(stages, statuses.push(status))
            == steps_after(stages, statuses),
{
    assert(statuses.push(status).drop_last() =~= statuses);
}

/// While a build is going on, the stage it asks for is the one after the
/// statuses given so far, all of which reported success, and every stage up
/// to it has a C-string source.
pub proof fn lemma_build_progress(stages: Seq<ShaderStage>, statuses: Seq<i32>)
    requires
        stages.len() <= usize::MAX,
    ensures
        steps_after(stages, statuses) matches BuildStep::Compile { index } ==> {
            &&& index == statuses.len()
            &&& index < stages.len()
            &&& forall|i: int| 0 <= i < statuses.len() ==> #[trigger] statuses[i] != 0
            &&& forall|i: int| 0 <= i <= index ==> c_compatible((#[trigger] stages[i]).source@)
        },
        steps_after(stages, statuses) matches BuildStep::Abort(BuildError::CompileFailed { stage })
            ==> stage < statuses.len() && statuses[stage as int] == 0,
    decreases statuses.len(),
{
    if statuses.len() > 0 {
        let prefix = statuses.drop_last();
        lemma_build_progress(stages, prefix);
        assert(statuses.last() == statuses[statuses.len() - 1]);
        assert forall|i: int| 0 <= i < prefix.len() implies prefix[i] == statuses[i] by {}
    }
}

/// A program is linked only when every stage has a C-string source and
/// compiled: the build compiles the stages in order, stops at the first one
/// that fails, and then creates no program.
pub proof fn lemma_link_only_after_every_stage(stages: Seq<ShaderStage>, statuses: Seq<i32>)
    requires
        stages.len() <= usize::MAX,
    ensures
        steps_after(stages, statuses) is Link ==> {
            &&& statuses.len() >= stages.len()
            &&& forall|i: int| 0 <= i < stages.len() ==> #[trigger] statuses[i] != 0
            &&& forall|i: int| 0 <= i < stages.len() ==> c_compatible((#[trigger] stages[i]).source@)
        },
    decreases statuses.len(),
{
    if statuses.len() > 0 {
        let prefix = statuses.drop_last();
        lemma_link_only_after_every_stage(stages, prefix);
        lemma_build_progress(stages, prefix);
        assert(statuses.last() == statuses[statuses.len() - 1]);
        assert forall|i: int| 0 <= i < prefix.len() implies prefix[i] == statuses[i] by {}
    }
}

/// The first stage that fails stops the build: when the stages before stage
/// `k` have C-string sources and compiled, and stage `k` has a NUL byte in
/// its source or fails to compile, the build ends there whatever follows.
pub proof fn lemma_first_failure_stops(stages: Seq<ShaderStage>, statuses: Seq<i32>, k: int)
    requires
        stages.len() <= usize::MAX,
        0 <= k < stages.len(),
        forall|i: int| 0 <= i < k ==> c_compatible((#[trigger] stages[i]).source@),
        forall|i: int| 0 <= i < k && i < statuses.len() ==> #[trigger] statuses[i] != 0,
    ensures
        !c_compatible(stages[k].source@) && statuses.len() >= k ==> steps_after(stages, statuses)
            == BuildStep::Abort(BuildError::NulInSource { stage: k as usize }),
        c_compatible(stages[k].source@) && statuses.len() > k && statuses[k] == 0 ==> steps_after(
            stages,
            statuses,
        ) == BuildStep::Abort(BuildError::CompileFailed { stage: k as usize }),
    decreases statuses.len(),
{
    if statuses.len() > 0 {
        let prefix = statuses.drop_last();
        assert forall|i: int| 0 <= i < k && i < prefix.len() implies #[trigger] prefix[i] != 0 by {
            assert(prefix[i] == statuses[i]);
        }
        lemma_first_failure_stops(stages, prefix, k);
        lemma_build_progress(stages, prefix);
        assert(statuses.last() == statuses[statuses.len() - 1]);
        if statuses.len() > k + 1 {
            assert(prefix[k] == statuses[k]);
        } else if statuses.len() == k + 1 {
            lemma_reaches(stages, prefix);
        }
    }
    if statuses.len() <= k {
        lemma_reaches(stages, statuses);
    }
}

proof fn lemma_reaches(stages: Seq<ShaderStage>, statuses: Seq<i32>)
    requires
        stages.len() <= usize::MAX,
        statuses.len() <= stages.len(),
        forall|i: int| 0 <= i < statuses.len() ==> c_compatible((#[trigger] stages[i]).source@),
        forall|i: int| 0 <= i < statuses.len() ==> #[trigger] statuses[i] != 0,
    ensures
        steps_after(stages, statuses) == step_at(stages, statuses.len() as int),
    decreases statuses.len(),
{
    if statuses.len() > 0 {
        let prefix = statuses.drop_last();
        assert forall|i: int| 0 <= i < prefix.len() implies #[trigger] prefix[i] != 0 by {
            assert(prefix[i] == statuses[i]);
        }
        lemma_reaches(stages, prefix);
        assert(statuses.last() == statuses[statuses.len() - 1]);
        assert(c_compatible(stages[prefix.len() as int].source@));
    }
}

} // verus!
