//! The OpenGL operations this library asks a host to perform.
//!
//! Each variant is one call of the OpenGL API with its arguments, named after
//! the function it stands for. A list of them is run front to back, each on
//! the context that the previous ones left.

use vstd::prelude::*;

use crate::glenum::{FRAMEBUFFER, TEXTURE_2D};

verus! {

#[derive(Debug, Clone, PartialEq, Eq)]
pub enum GlCall {
    /// `glBindVertexArray(array)`
    BindVertexArray { array: u32 },
    /// `glBindBuffer(target, buffer)`
    BindBuffer { target: u32, buffer: u32 },
    /// `glBufferData(target, size, data, usage)`; `data` holds the 32-bit
    /// words to upload (integers, or the bit patterns of `f32` values).
    BufferData { target: u32, size: isize, data: Vec<u32>, usage: u32 },
    /// `glVertexAttribPointer(index, components, kind, normalized, stride, 0)`
    VertexAttribPointer { index: u32, components: i32, kind: u32, normalized: u8, stride: i32 },
    /// `glEnableVertexAttribArray(index)`
    EnableVertexAttribArray { index: u32 },
    /// `glDrawElements(mode, count, kind, 0)`
    DrawElements { mode: u32, count: i32, kind: u32 },
    /// `glDeleteVertexArrays(1, &array)`
    DeleteVertexArray { array: u32 },
    /// `glDeleteBuffers(1, &buffer)`
    DeleteBuffer { buffer: u32 },
    /// `glShaderSource(shader, 1, &source, null)`
    ShaderSource { shader: u32, source: String },
    /// `glCompileShader(shader)`
    CompileShader { shader: u32 },
    /// `glAttachShader(program, shader)`
    AttachShader { program: u32, shader: u32 },
    /// `glLinkProgram(program)`
    LinkProgram { program: u32 },
    /// `glDeleteShader(shader)`
    DeleteShader { shader: u32 },
    /// `glUseProgram(program)`
    UseProgram { program: u32 },
    /// `glDeleteProgram(program)`
    DeleteProgram { program: u32 },
    /// `glUniform1i(location, value)`
    Uniform1i { location: i32, value: i32 },
    /// `glActiveTexture(unit)`
    ActiveTexture { unit: u32 },
    /// `glBindTexture(target, texture)`
    BindTexture { target: u32, texture: u32 },
    /// `glTexParameteri(target, pname, param)`
    TexParameteri { target: u32, pname: u32, param: i32 },
    /// `glTexImage2D(target, level, internal_format, width, height, 0, format,
    /// kind, pixels)`; `None` leaves the storage uninitialised.
    TexImage2D {
        target: u32,
        level: i32,
        internal_format: i32,
        width: i32,
        height: i32,
        format: u32,
        kind: u32,
        pixels: Option<Vec<u8>>,
    },
    /// `glGenerateMipmap(target)`
    GenerateMipmap { target: u32 },
    /// `glDeleteTextures(1, &texture)`
    DeleteTexture { texture: u32 },
    /// `glBindFramebuffer(target, framebuffer)`
    BindFramebuffer { target: u32, framebuffer: u32 },
    /// `glFramebufferTexture2D(target, attachment, textarget, texture, level)`
    FramebufferTexture2D { target: u32, attachment: u32, textarget: u32, texture: u32, level: i32 },
    /// `glDeleteFramebuffers(1, &framebuffer)`
    DeleteFramebuffer { framebuffer: u32 },
    /// `glViewport(x, y, width, height)`
    Viewport { x: i32, y: i32, width: i32, height: i32 },
    /// `glClear(mask)`
    Clear { mask: u32 },
}

/// One `glDrawElements` as the context saw it: the program in use, the bound
/// vertex array, the number of indices and the bound framebuffer.
pub struct DrawRecord {
    pub program: u32,
    pub vertex_array: u32,
    pub count: i32,
    pub framebuffer: u32,
}

/// The part of an OpenGL context's state that this library's promises speak
/// of: the bindings of vertex array, program, active texture unit, the
/// `TEXTURE_2D` texture of each unit and the framebuffer, and the draws made
/// so far.
pub struct GlState {
    pub vertex_array: u32,
    pub program: u32,
    pub active_unit: u32,
    pub textures: Map<u32, u32>,
    pub framebuffer: u32,
    pub draws: Seq<DrawRecord>,
}

/// The state after the call `c`. Deleting a bound object unbinds it, as
/// OpenGL does; deleting the program in use keeps it in use.
pub open spec fn apply_call(s: GlState, c: GlCall) -> GlState {
    match c {
        GlCall::BindVertexArray { array } => GlState { vertex_array: array, ..s },
        GlCall::UseProgram { program } => GlState { program, ..s },
        GlCall::ActiveTexture { unit } => GlState { active_unit: unit, ..s },
        GlCall::BindTexture { target, texture } => if target == TEXTURE_2D {
            GlState { textures: s.textures.insert(s.active_unit, texture), ..s }
        } else {
            s
        },
        GlCall::BindFramebuffer { target, framebuffer } => if target == FRAMEBUFFER {
            GlState { framebuffer, ..s }
        } else {
            s
        },
        GlCall::DrawElements { mode, count, kind } => GlState {
            draws: s.draws.push(
                DrawRecord {
                    program: s.program,
                    vertex_array: s.vertex_array,
                    count,
                    framebuffer: s.framebuffer,
                },
            ),
            ..s
        },
        GlCall::DeleteVertexArray { array } => if s.vertex_array == array {
            GlState { vertex_array: 0, ..s }
        } else {
            s
        },
        GlCall::DeleteTexture { texture } => GlState {
            textures: Map::new(
                |u: u32| s.textures.dom().contains(u),
                |u: u32|
                    if s.textures[u] == texture {
                        0
                    } else {
                        s.textures[u]
                    },
            ),
            ..s
        },
        GlCall::DeleteFramebuffer { framebuffer } => if s.framebuffer == framebuffer {
            GlState { framebuffer: 0, ..s }
        } else {
            s
        },
        _ => s,
    }
}

/// The state after the calls `cs`, run front to back.
pub open spec fn run_calls(s: GlState, cs: Seq<GlCall>) -> GlState
    decreases cs.len(),
{
    if cs.len() == 0 {
        s
    } else {
        apply_call(run_calls(s, cs.drop_last()), cs.last())
    }
}

/// Running two lists one after the other is running their concatenation.
pub proof fn lemma_run_concat(s: GlState, a: Seq<GlCall>, b: Seq<GlCall>)
    ensures
        run_calls(s, a + b) == run_calls(run_calls(s, a), b),
    decreases b.len(),
{
    if b.len() == 0 {
        assert(a + b =~= a);
    } else {
        lemma_run_concat(s, a, b.drop_last());
        assert((a + b).drop_last() =~= a + b.drop_last());
        assert((a + b).last() == b.last());
    }
}

/// Whether no call of `cs` switches the program in use.
pub open spec fn keeps_program(cs: Seq<GlCall>) -> bool
    decreases cs.len(),
{
    cs.len() == 0 || (keeps_program(cs.drop_last()) && !(cs.last() is UseProgram))
}

/// A run of calls that switch no program leaves the program in use, and
/// every draw it makes uses that program.
pub proof fn lemma_program_kept(s: GlState, cs: Seq<GlCall>)
    requires
        keeps_program(cs),
    ensures
        run_calls(s, cs).program == s.program,
        run_calls(s, cs).draws.len() >= s.draws.len(),
        forall|i: int| 0 <= i < s.draws.len() ==> #[trigger] run_calls(s, cs).draws[i] == s.draws[i],
        forall|i: int|
            s.draws.len() <= i < run_calls(s, cs).draws.len() ==> (#[trigger] run_calls(
                s,
                cs,
            ).draws[i]).program == s.program,
    decreases cs.len(),
{
    if cs.len() > 0 {
        lemma_program_kept(s, cs.drop_last());
    }
}

/// Concatenating runs that switch no program gives such a run.
pub proof fn lemma_keeps_program_concat(a: Seq<GlCall>, b: Seq<GlCall>)
    requires
        keeps_program(a),
        keeps_program(b),
    ensures
        keeps_program(a + b),
    decreases b.len(),
{
    if b.len() == 0 {
        assert(a + b =~= a);
    } else {
        lemma_keeps_program_concat(a, b.drop_last());
        assert((a + b).drop_last() =~= a + b.drop_last());
        assert((a + b).last() == b.last());
    }
}

/// Whether no call of `cs` binds or deletes a framebuffer.
pub open spec fn keeps_framebuffer(cs: Seq<GlCall>) -> bool
    decreases cs.len(),
{
    cs.len() == 0 || (keeps_framebuffer(cs.drop_last()) && !(cs.last() is BindFramebuffer)
        && !(cs.last() is DeleteFramebuffer))
}

/// A run of calls that bind and delete no framebuffer leaves the bound
/// framebuffer as it was, and every draw it makes renders into it.
pub proof fn lemma_framebuffer_kept(s: GlState, cs: Seq<GlCall>)
    requires
        keeps_framebuffer(cs),
    ensures
        run_calls(s, cs).framebuffer == s.framebuffer,
        run_calls(s, cs).draws.len() >= s.draws.len(),
        forall|i: int| 0 <= i < s.draws.len() ==> #[trigger] run_calls(s, cs).draws[i] == s.draws[i],
        forall|i: int|
            s.draws.len() <= i < run_calls(s, cs).draws.len() ==> (#[trigger] run_calls(
                s,
                cs,
            ).draws[i]).framebuffer == s.framebuffer,
    decreases cs.len(),
{
    if cs.len() > 0 {
        lemma_framebuffer_kept(s, cs.drop_last());
    }
}

/// Concatenating runs that bind and delete no framebuffer gives such a run.
pub proof fn lemma_keeps_framebuffer_concat(a: Seq<GlCall>, b: Seq<GlCall>)
    requires
        keeps_framebuffer(a),
        keeps_framebuffer(b),
    ensures
        keeps_framebuffer(a + b),
    decreases b.len(),
{
    if b.len() == 0 {
        assert(a + b =~= a);
    } else {
        lemma_keeps_framebuffer_concat(a, b.drop_last());
        assert((a + b).drop_last() =~= a + b.drop_last());
        assert((a + b).last() == b.last());
    }
}

} // verus!
