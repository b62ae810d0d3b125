//! Indexed triangle meshes: a vertex array with a position buffer, an index
//! buffer and any number of extra per-vertex attribute buffers.

use vstd::prelude::*;

use crate::command::{
    keeps_framebuffer, keeps_program, run_calls, DrawRecord, GlCall, GlState,
};
use crate::glenum::{ARRAY_BUFFER, ELEMENT_ARRAY_BUFFER, FALSE, FLOAT, STATIC_DRAW, TRIANGLES, UNSIGNED_INT};

verus! {

/// The size in bytes of the 32-bit words that vertex, index and attribute
/// data are made of (`f32` and `u32`).
pub const WORD_BYTES: usize = 4;

/// What a [`Mesh`] holds: the OpenGL names of its vertex array, position
/// buffer, index buffer and attribute buffers (in the order they were added),
/// and the number of indices drawn.
pub struct MeshView {
    pub vao: u32,
    pub vbo: u32,
    pub ebo: u32,
    pub attr_vbos: Seq<u32>,
    pub index_count: i32,
}

#[derive(Clone)]
pub struct Mesh {
    vao: u32,
    vbo: u32,
    ebo: u32,
    attr_vbos: Vec<u32>,
    index_count: i32,
}

impl View for Mesh {
    type V = MeshView;

    closed spec fn view(&self) -> MeshView {
        MeshView {
            vao: self.vao,
            vbo: self.vbo,
            ebo: self.ebo,
            attr_vbos: self.attr_vbos@,
            index_count: self.index_count,
        }
    }
}

/// The byte size of `len` 32-bit words, as `glBufferData` takes it.
pub open spec fn byte_size(len: nat) -> isize {
    (len * 4) as isize
}

/// Upload of the words `data` into the buffer bound to `target`.
pub open spec fn buffer_data_call(target: u32, data: Vec<u32>) -> GlCall {
    GlCall::BufferData {
        target,
        size: byte_size(data@.len()),
        data,
        usage: STATIC_DRAW,
    }
}

/// Float attribute `index` of `components` tightly packed floats per vertex.
pub open spec fn float_attribute_call(index: u32, components: i32) -> GlCall {
    GlCall::VertexAttribPointer {
        index,
        components,
        kind: FLOAT,
        normalized: FALSE,
        stride: (components * 4) as i32,
    }
}

/// The calls that fill a new mesh: positions of `vertex_size` floats each
/// into attribute 0 of `vbo`, and the indices into `ebo`, recorded in `vao`.
pub open spec fn mesh_setup_calls(
    vao: u32,
    vbo: u32,
    ebo: u32,
    vertices: Vec<u32>,
    indices: Vec<u32>,
    vertex_size: i32,
) -> Seq<GlCall> {
    seq![
        GlCall::BindVertexArray { array: vao },
        GlCall::BindBuffer { target: ARRAY_BUFFER, buffer: vbo },
        buffer_data_call(ARRAY_BUFFER, vertices),
        float_attribute_call(0, vertex_size),
        GlCall::EnableVertexAttribArray { index: 0 },
        GlCall::BindBuffer { target: ELEMENT_ARRAY_BUFFER, buffer: ebo },
        buffer_data_call(ELEMENT_ARRAY_BUFFER, indices),
        GlCall::BindVertexArray { array: 0 },
    ]
}

/// The calls that add attribute `index` of `components` floats per vertex,
/// read from `vbo`, to the vertex array `vao`.
pub open spec fn attribute_calls(
    vao: u32,
    vbo: u32,
    index: u32,
    components: i32,
    data: Vec<u32>,
) -> Seq<GlCall> {
    seq![
        GlCall::BindVertexArray { array: vao },
        GlCall::BindBuffer { target: ARRAY_BUFFER, buffer: vbo },
        buffer_data_call(ARRAY_BUFFER, data),
        float_attribute_call(index, components),
        GlCall::EnableVertexAttribArray { index },
        GlCall::BindVertexArray { array: 0 },
    ]
}

/// The indices of a quad: the triangles of corners 0, 1, 3 and 3, 1, 2.
pub open spec fn quad_indices() -> Seq<u32> {
    seq![0u32, 1, 3, 3, 1, 2]
}

/// The calls that draw the mesh as triangles.
pub open spec fn draw_calls(m: MeshView) -> Seq<GlCall> {
    seq![
        GlCall::BindVertexArray { array: m.vao },
        GlCall::DrawElements { mode: TRIANGLES, count: m.index_count, kind: UNSIGNED_INT },
        GlCall::BindVertexArray { array: 0 },
    ]
}

/// The buffers a mesh owns: positions, indices, then its attribute buffers.
pub open spec fn owned_buffers(m: MeshView) -> Seq<u32> {
    seq![m.vbo, m.ebo] + m.attr_vbos
}

/// The calls that release everything the mesh owns.
pub open spec fn mesh_delete_calls(m: MeshView) -> Seq<GlCall> {
    seq![GlCall::DeleteVertexArray { array: m.vao }] + owned_buffers(m).map_values(
        |b: u32| GlCall::DeleteBuffer { buffer: b },
    )
}

fn buffer_data(target: u32, data: Vec<u32>) -> (r: GlCall)
    requires
        data@.len() * 4 <= isize::MAX,
    ensures
        r == buffer_data_call(target, data),
{
    let size = (data.len() * WORD_BYTES) as isize;
    GlCall::BufferData { target, size, data, usage: STATIC_DRAW }
}

fn float_attribute(index: u32, components: i32) -> (r: GlCall)
    requires
        i32::MIN <= components * 4 <= i32::MAX,
    ensures
        r == float_attribute_call(index, components),
{
    GlCall::VertexAttribPointer {
        index,
        components,
        kind: FLOAT,
        normalized: FALSE,
        stride: components * 4,
    }
}

impl Mesh {
    /// A mesh under the names `vao`, `vbo` and `ebo` (from
    /// `glGenVertexArrays` and `glGenBuffers`) with the positions `vertices`
    /// (the bit patterns of the floats, `vertex_size` per vertex) and the
    /// triangle indices `indices`, and the calls that upload them.
    pub fn new(
        vao: u32,
        vbo: u32,
        ebo: u32,
        vertices: Vec<u32>,
        indices: Vec<u32>,
        vertex_size: i32,
    ) -> (r: (Mesh, Vec<GlCall>))
        requires
            vertices@.len() * 4 <= isize::MAX,
            indices@.len() * 4 <= isize::MAX,
            i32::MIN <= vertex_size * 4 <= i32::MAX,
        ensures
            r.0@ == (MeshView {
                vao,
                vbo,
                ebo,
                attr_vbos: Seq::empty(),
                index_count: indices@.len() as i32,
            }),
            r.1@ == mesh_setup_calls(vao, vbo, ebo, vertices, indices, vertex_size),
    {
        let index_count = indices.len() as i32;
        let mut calls: Vec<GlCall> = Vec::new();
        calls.push(GlCall::BindVertexArray { array: vao });
        calls.push(GlCall::BindBuffer { target: ARRAY_BUFFER, buffer: vbo });
        calls.push(buffer_data(ARRAY_BUFFER, vertices));
        calls.push(float_attribute(0, vertex_size));
        calls.push(GlCall::EnableVertexAttribArray { index: 0 });
        calls.push(GlCall::BindBuffer { target: ELEMENT_ARRAY_BUFFER, buffer: ebo });
        calls.push(buffer_data(ELEMENT_ARRAY_BUFFER, indices));
        calls.push(GlCall::BindVertexArray { array: 0 });
        let mesh = Mesh { vao, vbo, ebo, attr_vbos: Vec::new(), index_count };
        (mesh, calls)
    }

    /// A quad under the names `vao`, `vbo` and `ebo` with the corners `c0`,
    /// `c1`, `c2`, `c3` (each the bit patterns of one position, all of one
    /// size) drawn as the two triangles `c0 c1 c3` and `c3 c1 c2`, and the
    /// calls that upload it.
    pub fn quad(
        vao: u32,
        vbo: u32,
        ebo: u32,
        c0: Vec<u32>,
        c1: Vec<u32>,
        c2: Vec<u32>,
        c3: Vec<u32>,
    ) -> (r: (Mesh, Vec<GlCall>))
        requires
            c1@.len() == c0@.len(),
            c2@.len() == c0@.len(),
            c3@.len() == c0@.len(),
            c0@.len() * 16 <= isize::MAX,
            i32::MIN <= (c0@.len() as i32) * 4 <= i32::MAX,
        ensures
            r.0@ == (MeshView { vao, vbo, ebo, attr_vbos: Seq::empty(), index_count: 6 }),
            exists|vertices: Vec<u32>, indices: Vec<u32>|
                #![trigger mesh_setup_calls(vao, vbo, ebo, vertices, indices, c0@.len() as i32)]
                vertices@ == c0@ + c1@ + c2@ + c3@ && indices@ == quad_indices() && r.1@
                    == mesh_setup_calls(vao, vbo, ebo, vertices, indices, c0@.len() as i32),
    {
        let vertex_size = c0.len() as i32;
        let mut vertices: Vec<u32> = Vec::new();
        let mut c0 = c0;
        let mut c1 = c1;
        let mut c2 = c2;
        let mut c3 = c3;
        let ghost (s0, s1, s2, s3) = (c0@, c1@, c2@, c3@);
        vertices.append(&mut c0);
        vertices.append(&mut c1);
        vertices.append(&mut c2);
        vertices.append(&mut c3);
        assert(vertices@ == s0 + s1 + s2 + s3);
        let mut indices: Vec<u32> = Vec::new();
        indices.push(0);
        indices.push(1);
        indices.push(3);
        indices.push(3);
        indices.push(1);
        indices.push(2);
        assert(indices@ == quad_indices());
        let ghost (vs, is) = (vertices, indices);
        let r = Mesh::new(vao, vbo, ebo, vertices, indices, vertex_size);
        assert(r.1@ == mesh_setup_calls(vao, vbo, ebo, vs, is, s0.len() as i32));
        r
    }

    fn add_attribute(&mut self, vbo: u32, loc: u32, components: i32, data: Vec<u32>) -> (r: Vec<
        GlCall,
    >)
        requires
            data@.len() * 4 <= isize::MAX,
            i32::MIN <= components * 4 <= i32::MAX,
        ensures
            final(self)@ == (MeshView { attr_vbos: old(self)@.attr_vbos.push(vbo), ..old(self)@ }),
            r@ == attribute_calls(old(self)@.vao, vbo, loc, components, data),
    {
        let mut calls: Vec<GlCall> = Vec::new();
        calls.push(GlCall::BindVertexArray { array: self.vao });
        calls.push(GlCall::BindBuffer { target: ARRAY_BUFFER, buffer: vbo });
        calls.push(buffer_data(ARRAY_BUFFER, data));
        calls.push(float_attribute(loc, components));
        calls.push(GlCall::EnableVertexAttribArray { index: loc });
        calls.push(GlCall::BindVertexArray { array: 0 });
        self.attr_vbos.push(vbo);
        calls
    }

    /// Adds attribute `loc` of two floats per vertex, stored in the buffer
    /// `vbo` (from `glGenBuffers`); `data` holds the bit patterns of the
    /// floats, two per vertex.
    pub fn attr_vec2(&mut self, vbo: u32, loc: u32, data: Vec<u32>) -> (r: Vec<GlCall>)
        requires
            data@.len() * 4 <= isize::MAX,
        ensures
            final(self)@ == (MeshView { attr_vbos: old(self)@.attr_vbos.push(vbo), ..old(self)@ }),
            r@ == attribute_calls(old(self)@.vao, vbo, loc, 2, data),
    {
        self.add_attribute(vbo, loc, 2, data)
    }

    /// Adds attribute `loc` of one float per vertex, stored in the buffer
    /// `vbo` (from `glGenBuffers`); `data` holds the bit patterns of the
    /// floats.
    pub fn attr_float(&mut self, vbo: u32, loc: u32, data: Vec<u32>) -> (r: Vec<GlCall>)
        requires
            data@.len() * 4 <= isize::MAX,
        ensures
            final(self)@ == (MeshView { attr_vbos: old(self)@.attr_vbos.push(vbo), ..old(self)@ }),
            r@ == attribute_calls(old(self)@.vao, vbo, loc, 1, data),
    {
        self.add_attribute(vbo, loc, 1, data)
    }

    pub fn draw(&self) -> (r: Vec<GlCall>)
        ensures
            r@ == draw_calls(self@),
    {
        let mut calls: Vec<GlCall> = Vec::new();
        calls.push(GlCall::BindVertexArray { array: self.vao });
        calls.push(
            GlCall::DrawElements { mode: TRIANGLES, count: self.index_count, kind: UNSIGNED_INT },
        );
        calls.push(GlCall::BindVertexArray { array: 0 });
        calls
    }

    /// The calls that release the vertex array and every buffer of the mesh.
    pub fn delete_calls(&self) -> (r: Vec<GlCall>)
        ensures
            r@ == mesh_delete_calls(self@),
    {
        let mut calls: Vec<GlCall> = Vec::new();
        calls.push(GlCall::DeleteVertexArray { array: self.vao });
        calls.push(GlCall::DeleteBuffer { buffer: self.vbo });
        calls.push(GlCall::DeleteBuffer { buffer: self.ebo });
        let n = self.attr_vbos.len();
        let ghost owned = owned_buffers(self@);
        let ghost deletes = owned.map_values(|b: u32| GlCall::DeleteBuffer { buffer: b });
        for i in 0..n
            invariant
                n == self.attr_vbos@.len(),
                owned == owned_buffers(self@),
                deletes == owned.map_values(|b: u32| GlCall::DeleteBuffer { buffer: b }),
                calls@ == seq![GlCall::DeleteVertexArray { array: self.vao }] + deletes.take(
                    i + 2,
                ),
        {
            calls.push(GlCall::DeleteBuffer { buffer: self.attr_vbos[i] });
            assert(deletes.take(i + 3) =~= deletes.take(i + 2).push(deletes[i + 2]));
        }
        assert(deletes.take(n + 2) =~= deletes);
        calls
    }
}

/// Releasing a mesh deletes its vertex array and every buffer it owns, each
/// once, and nothing else.
pub proof fn lemma_release_is_complete(m: MeshView)
    ensures
        mesh_delete_calls(m).len() == owned_buffers(m).len() + 1,
        mesh_delete_calls(m)[0] == (GlCall::DeleteVertexArray { array: m.vao }),
        forall|i: int|
            0 <= i < owned_buffers(m).len() ==> #[trigger] mesh_delete_calls(m)[i + 1]
                == (GlCall::DeleteBuffer { buffer: owned_buffers(m)[i] }),
{
}

/// A buffer added as an attribute becomes one of the buffers the mesh owns,
/// after those it owned before.
pub proof fn lemma_attribute_buffer_is_owned(m: MeshView, vbo: u32)
    ensures
        owned_buffers(MeshView { attr_vbos: m.attr_vbos.push(vbo), ..m }) == owned_buffers(m).push(
            vbo,
        ),
{
    assert(owned_buffers(MeshView { attr_vbos: m.attr_vbos.push(vbo), ..m }) =~= owned_buffers(
        m,
    ).push(vbo));
}

/// A new mesh draws as many indices as it uploaded, from its own vertex
/// array.
pub proof fn lemma_draw_uses_uploaded_indices(
    vao: u32,
    vbo: u32,
    ebo: u32,
    vertices: Vec<u32>,
    indices: Vec<u32>,
    vertex_size: i32,
)
    ensures
        ({
            let m = MeshView {
                vao,
                vbo,
                ebo,
                attr_vbos: Seq::empty(),
                index_count: indices@.len() as i32,
            };
            &&& mesh_setup_calls(vao, vbo, ebo, vertices, indices, vertex_size)[6]
                == buffer_data_call(ELEMENT_ARRAY_BUFFER, indices)
            &&& draw_calls(m)[0] == (GlCall::BindVertexArray { array: vao })
            &&& draw_calls(m)[1] == (GlCall::DrawElements {
                mode: TRIANGLES,
                count: indices@.len() as i32,
                kind: UNSIGNED_INT,
            })
        }),
{
}

/// The two triangles of a quad share the diagonal from corner 1 to corner 3
/// and together use each of the four corners.
pub proof fn lemma_quad_covers_its_corners()
    ensures
        quad_indices().len() == 6,
        quad_indices()[1] == quad_indices()[4] && quad_indices()[2] == quad_indices()[3],
        forall|c: u32| c < 4 ==> #[trigger] quad_indices().contains(c),
{
    assert forall|c: u32| c < 4 implies #[trigger] quad_indices().contains(c) by {
        if c == 0 {
            assert(quad_indices()[0] == c);
        } else if c == 1 {
            assert(quad_indices()[1] == c);
        } else if c == 2 {
            assert(quad_indices()[5] == c);
        } else {
            assert(quad_indices()[2] == c);
        }
    }
}

/// The mesh `m` after the attribute buffers `vbos` were added, in order.
pub open spec fn with_attributes(m: MeshView, vbos: Seq<u32>) -> MeshView {
    MeshView { attr_vbos: m.attr_vbos + vbos, ..m }
}

/// Adding attributes changes neither what a mesh draws nor how: after any
/// number of them its draw calls are those it had before. Each
/// [`Mesh::attr_vec2`] or [`Mesh::attr_float`] is one step of such a run.
pub proof fn lemma_draw_after_attributes(m: MeshView, vbos: Seq<u32>, vbo: u32)
    ensures
        draw_calls(with_attributes(m, vbos)) == draw_calls(m),
        with_attributes(m, Seq::empty()) == m,
        (MeshView {
            attr_vbos: with_attributes(m, vbos).attr_vbos.push(vbo),
            ..with_attributes(m, vbos)
        }) == with_attributes(m, vbos.push(vbo)),
{
    assert(m.attr_vbos + Seq::<u32>::empty() =~= m.attr_vbos);
    assert((m.attr_vbos + vbos).push(vbo) =~= m.attr_vbos + vbos.push(vbo));
}

/// Filling a mesh, adding an attribute and drawing switch no program and
/// leave no vertex array bound. Filling and adding touch no other binding
/// and draw nothing; drawing makes exactly one draw, of the mesh's vertex
/// array and index count, with the program and framebuffer in use.
pub proof fn lemma_mesh_bindings(
    s: GlState,
    m: MeshView,
    vao: u32,
    vbo: u32,
    ebo: u32,
    vertices: Vec<u32>,
    indices: Vec<u32>,
    vertex_size: i32,
    index: u32,
    components: i32,
    data: Vec<u32>,
)
    ensures
        ({
            let setup = mesh_setup_calls(vao, vbo, ebo, vertices, indices, vertex_size);
            let after = run_calls(s, setup);
            &&& keeps_program(setup)
            &&& keeps_framebuffer(setup)
            &&& after == GlState { vertex_array: 0, ..s }
        }),
        ({
            let add = attribute_calls(vao, vbo, index, components, data);
            &&& keeps_program(add)
            &&& keeps_framebuffer(add)
            &&& run_calls(s, add) == GlState { vertex_array: 0, ..s }
        }),
        ({
            let draw = draw_calls(m);
            &&& keeps_program(draw)
            &&& keeps_framebuffer(draw)
            &&& run_calls(s, draw) == GlState {
                vertex_array: 0,
                draws: s.draws.push(
                    DrawRecord {
                        program: s.program,
                        vertex_array: m.vao,
                        count: m.index_count,
                        framebuffer: s.framebuffer,
                    },
                ),
                ..s
            }
        }),
{
    reveal_with_fuel(run_calls, 9);
    reveal_with_fuel(keeps_program, 9);
    reveal_with_fuel(keeps_framebuffer, 9);
}

/// What a vertex array records of one attribute: the buffer it reads, the
/// number of floats per vertex and the stride in bytes.
pub struct AttributeSource {
    pub buffer: u32,
    pub components: i32,
    pub stride: i32,
}

/// The buffer state of an OpenGL context: the bound vertex array and array
/// buffer, the index buffer that each vertex array records, the words each
/// buffer holds, the attributes each vertex array records (by vertex array
/// and attribute index) and which of them are enabled.
pub struct BufferState {
    pub vertex_array: u32,
    pub array_buffer: u32,
    pub element_buffers: Map<u32, u32>,
    pub contents: Map<u32, Seq<u32>>,
    pub attributes: Map<(u32, u32), AttributeSource>,
    pub enabled: Set<(u32, u32)>,
}

/// The buffer state after the call `c`: the index buffer binding belongs to
/// the bound vertex array, an upload fills the buffer bound to its target,
/// an attribute pointer and its enabling are recorded in the bound vertex
/// array.
pub open spec fn apply_buffer_call(b: BufferState, c: GlCall) -> BufferState {
    match c {
        GlCall::BindVertexArray { array } => BufferState { vertex_array: array, ..b },
        GlCall::BindBuffer { target, buffer } => if target == ARRAY_BUFFER {
            BufferState { array_buffer: buffer, ..b }
        } else if target == ELEMENT_ARRAY_BUFFER {
            BufferState { element_buffers: b.element_buffers.insert(b.vertex_array, buffer), ..b }
        } else {
            b
        },
        GlCall::BufferData { target, size, data, usage } => if target == ARRAY_BUFFER {
            BufferState { contents: b.contents.insert(b.array_buffer, data@), ..b }
        } else if target == ELEMENT_ARRAY_BUFFER && b.element_buffers.dom().contains(
            b.vertex_array,
        ) {
            BufferState {
                contents: b.contents.insert(b.element_buffers[b.vertex_array], data@),
                ..b
            }
        } else {
            b
        },
        GlCall::VertexAttribPointer { index, components, kind, normalized, stride } => BufferState {
            attributes: b.attributes.insert(
                (b.vertex_array, index),
                AttributeSource { buffer: b.array_buffer, components, stride },
            ),
            ..b
        },
        GlCall::EnableVertexAttribArray { index } => BufferState {
            enabled: b.enabled.insert((b.vertex_array, index)),
            ..b
        },
        _ => b,
    }
}

/// The buffer state after the calls `cs`, run front to back.
pub open spec fn run_buffer_calls(b: BufferState, cs: Seq<GlCall>) -> BufferState
    decreases cs.len(),
{
    if cs.len() == 0 {
        b
    } else {
        apply_buffer_call(run_buffer_calls(b, cs.drop_last()), cs.last())
    }
}

/// Filling a new mesh puts the vertices in its vertex buffer and the indices
/// in its index buffer, makes its vertex array record that index buffer and
/// read attribute 0 from the vertex buffer, `vertex_size` floats per vertex
/// tightly packed, and enables that attribute; then no vertex array is bound.
pub proof fn lemma_setup_fills_the_mesh_buffers(
    b: BufferState,
    vao: u32,
    vbo: u32,
    ebo: u32,
    vertices: Vec<u32>,
    indices: Vec<u32>,
    vertex_size: i32,
)
    requires
        vbo != ebo,
    ensures
        ({
            let after = run_buffer_calls(
                b,
                mesh_setup_calls(vao, vbo, ebo, vertices, indices, vertex_size),
            );
            &&& after.contents[vbo] == vertices@
            &&& after.contents[ebo] == indices@
            &&& after.element_buffers[vao] == ebo
            &&& after.attributes[(vao, 0u32)] == AttributeSource {
                buffer: vbo,
                components: vertex_size,
                stride: (vertex_size * 4) as i32,
            }
            &&& after.enabled.contains((vao, 0u32))
            &&& after.vertex_array == 0
            &&& after.array_buffer == vbo
        }),
{
    reveal_with_fuel(run_buffer_calls, 9);
}

/// Adding an attribute puts the data in the attribute's buffer and makes the
/// mesh's own vertex array read attribute `index` from it, `components`
/// floats per vertex tightly packed, enabled; the index buffer the vertex
/// array records and every other attribute stay as they were.
pub proof fn lemma_attribute_recorded_in_the_mesh(
    b: BufferState,
    vao: u32,
    vbo: u32,
    index: u32,
    components: i32,
    data: Vec<u32>,
    other: (u32, u32),
)
    ensures
        ({
            let after = run_buffer_calls(b, attribute_calls(vao, vbo, index, components, data));
            &&& after.contents[vbo] == data@
            &&& after.attributes[(vao, index)] == AttributeSource {
                buffer: vbo,
                components,
                stride: (components * 4) as i32,
            }
            &&& after.enabled.contains((vao, index))
            &&& after.element_buffers == b.element_buffers
            &&& (other != (vao, index) ==> after.attributes.dom().contains(other)
                == b.attributes.dom().contains(other) && (b.attributes.dom().contains(other)
                ==> after.attributes[other] == b.attributes[other]))
            &&& after.vertex_array == 0
        }),
{
    reveal_with_fuel(run_buffer_calls, 7);
}

} // verus!
