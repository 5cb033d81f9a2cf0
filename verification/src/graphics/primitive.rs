use vstd::prelude::*;
use crate::graphics::gl::{self, BufferSource, GlCall};
use crate::graphics::texture::Texture;

verus! {

/// Offset of a vertex's texture coordinates: after three position floats.
pub const UV_OFFSET: u32 = 12;

/// Offset of a vertex's colour: after three position and two texture floats.
pub const COLOR_OFFSET: u32 = 20;

/// The GPU side of a textured, indexed primitive: its index list, its
/// vertex and index buffer names (0 until made) and its texture.
#[derive(Clone, Debug)]
pub struct Primitive {
    pub indices: Vec<u32>,
    pub vbo: u32,
    pub ibo: u32,
    pub texture: Texture,
}

/// Calls that enable the vertex arrays a primitive is drawn from.
pub open spec fn enable_calls() -> Seq<GlCall> {
    seq![
        GlCall::EnableClientState(gl::VERTEX_ARRAY),
        GlCall::EnableClientState(gl::TEXTURE_COORD_ARRAY),
        GlCall::EnableClientState(gl::COLOR_ARRAY),
        GlCall::VertexPointer { offset: 0 },
        GlCall::TexCoordPointer { offset: UV_OFFSET },
        GlCall::ColorPointer { size: 4, ty: gl::UNSIGNED_BYTE, offset: COLOR_OFFSET },
    ]
}

/// Calls that disable those arrays again.
pub open spec fn disable_calls() -> Seq<GlCall> {
    seq![
        GlCall::DisableClientState(gl::VERTEX_ARRAY),
        GlCall::DisableClientState(gl::TEXTURE_COORD_ARRAY),
        GlCall::DisableClientState(gl::COLOR_ARRAY),
    ]
}

/// Calls that draw primitive `p`.
pub open spec fn draw_calls(p: Primitive) -> Seq<GlCall> {
    seq![GlCall::BindTexture { target: gl::TEXTURE_2D, texture: p.texture.gl_id }]
        + enable_calls()
        + seq![
            GlCall::BindBuffer { target: gl::ARRAY_BUFFER, buffer: p.vbo },
            GlCall::BindBuffer { target: gl::ELEMENT_ARRAY_BUFFER, buffer: p.ibo },
            GlCall::DrawElements {
                mode: gl::TRIANGLES,
                count: p.indices@.len() as usize,
                ty: gl::UNSIGNED_INT,
                offset: 0,
            },
        ]
        + disable_calls()
}

/// Calls that upload a primitive's arrays into buffers `vbo` and `ibo`.
pub open spec fn buffer_calls(vbo: u32, ibo: u32) -> Seq<GlCall> {
    seq![
        GlCall::BindBuffer { target: gl::ARRAY_BUFFER, buffer: vbo },
        GlCall::BufferData { target: gl::ARRAY_BUFFER, source: BufferSource::Vertices, usage: gl::STATIC_DRAW },
        GlCall::BindBuffer { target: gl::ELEMENT_ARRAY_BUFFER, buffer: ibo },
        GlCall::BufferData { target: gl::ELEMENT_ARRAY_BUFFER, source: BufferSource::Indices, usage: gl::STATIC_DRAW },
        GlCall::BindBuffer { target: gl::ARRAY_BUFFER, buffer: 0 },
    ]
}

/// A buffer name after buffering: the one it had, or `fresh` if it had none.
pub open spec fn kept_or_fresh(current: u32, fresh: u32) -> u32 {
    if current == 0 {
        fresh
    } else {
        current
    }
}

impl Primitive {
    /// A primitive with the given indices and texture, without buffers.
    pub fn new(indices: Vec<u32>, texture: Texture) -> (res: Self)
        ensures
            res.indices@ == indices@,
            res.texture == texture,
            res.vbo == 0,
            res.ibo == 0,
    {
        Primitive { indices, vbo: 0, ibo: 0, texture }
    }

    /// The index list of a rectangle over four vertices: two triangles.
    pub fn rect_indices() -> (res: Vec<u32>)
        ensures
            res@ == seq![0u32, 1, 2, 2, 3, 0],
    {
        let res: Vec<u32> = vec![0, 1, 2, 2, 3, 0];
        assert(res@ =~= seq![0u32, 1, 2, 2, 3, 0]);
        res
    }

    /// Whether buffering needs a fresh vertex buffer name.
    pub fn needs_vertex_buffer(&self) -> (res: bool)
        ensures
            res == (self.vbo == 0),
    {
        self.vbo == 0
    }

    /// Whether buffering needs a fresh index buffer name.
    pub fn needs_index_buffer(&self) -> (res: bool)
        ensures
            res == (self.ibo == 0),
    {
        self.ibo == 0
    }

    /// Calls that enable the vertex arrays the primitive is drawn from.
    pub fn enable_client_state(&self) -> (res: Vec<GlCall>)
        ensures
            res@ == enable_calls(),
    {
        let mut calls: Vec<GlCall> = Vec::new();
        calls.push(GlCall::EnableClientState(gl::VERTEX_ARRAY));
        calls.push(GlCall::EnableClientState(gl::TEXTURE_COORD_ARRAY));
        calls.push(GlCall::EnableClientState(gl::COLOR_ARRAY));
        calls.push(GlCall::VertexPointer { offset: 0 });
        calls.push(GlCall::TexCoordPointer { offset: UV_OFFSET });
        calls.push(GlCall::ColorPointer { size: 4, ty: gl::UNSIGNED_BYTE, offset: COLOR_OFFSET });
        assert(calls@ =~= enable_calls());
        calls
    }

    /// Calls that disable the vertex arrays again.
    pub fn disable_client_state(&self) -> (res: Vec<GlCall>)
        ensures
            res@ == disable_calls(),
    {
        let mut calls: Vec<GlCall> = Vec::new();
        calls.push(GlCall::DisableClientState(gl::VERTEX_ARRAY));
        calls.push(GlCall::DisableClientState(gl::TEXTURE_COORD_ARRAY));
        calls.push(GlCall::DisableClientState(gl::COLOR_ARRAY));
        assert(calls@ =~= disable_calls());
        calls
    }

    /// Calls that draw the primitive: bind its texture and buffers, draw
    /// its triangles, and disable the vertex arrays again.
    pub fn draw(&self) -> (res: Vec<GlCall>)
        ensures
            res@ == draw_calls(*self),
    {
        let mut calls: Vec<GlCall> = Vec::new();
        calls.push(self.texture.bind());
        let mut enable = self.enable_client_state();
        calls.append(&mut enable);
        calls.push(GlCall::BindBuffer { target: gl::ARRAY_BUFFER, buffer: self.vbo });
        calls.push(GlCall::BindBuffer { target: gl::ELEMENT_ARRAY_BUFFER, buffer: self.ibo });
        calls.push(GlCall::DrawElements {
            mode: gl::TRIANGLES,
            count: self.indices.len(),
            ty: gl::UNSIGNED_INT,
            offset: 0,
        });
        let mut disable = self.disable_client_state();
        calls.append(&mut disable);
        assert(calls@ =~= draw_calls(*self));
        calls
    }

    /// Gives the primitive buffer names where it has none (`fresh_vbo`,
    /// `fresh_ibo`, made by the driver for this call) and returns the calls
    /// that upload its vertices and indices into them.
    pub fn buffer(&mut self, fresh_vbo: u32, fresh_ibo: u32) -> (res: Vec<GlCall>)
        ensures
            final(self).vbo == kept_or_fresh(old(self).vbo, fresh_vbo),
            final(self).ibo == kept_or_fresh(old(self).ibo, fresh_ibo),
            final(self).indices@ == old(self).indices@,
            final(self).texture == old(self).texture,
            res@ == buffer_calls(final(self).vbo, final(self).ibo),
    {
        if self.vbo == 0 {
            self.vbo = fresh_vbo;
        }
        if self.ibo == 0 {
            self.ibo = fresh_ibo;
        }
        let mut calls: Vec<GlCall> = Vec::new();
        calls.push(GlCall::BindBuffer { target: gl::ARRAY_BUFFER, buffer: self.vbo });
        calls.push(GlCall::BufferData { target: gl::ARRAY_BUFFER, source: BufferSource::Vertices, usage: gl::STATIC_DRAW });
        calls.push(GlCall::BindBuffer { target: gl::ELEMENT_ARRAY_BUFFER, buffer: self.ibo });
        calls.push(GlCall::BufferData { target: gl::ELEMENT_ARRAY_BUFFER, source: BufferSource::Indices, usage: gl::STATIC_DRAW });
        calls.push(GlCall::BindBuffer { target: gl::ARRAY_BUFFER, buffer: 0 });
        assert(calls@ =~= buffer_calls(self.vbo, self.ibo));
        calls
    }
}

/// Buffer names, once given, stay: buffering again with any fresh names
/// keeps them.
pub proof fn lemma_buffer_names_stable(current: u32, fresh1: u32, fresh2: u32)
    requires
        current != 0 || fresh1 != 0,
    ensures
        kept_or_fresh(kept_or_fresh(current, fresh1), fresh2) == kept_or_fresh(current, fresh1),
{
}

/// Drawing binds the primitive's own texture and buffers and draws all its
/// indices as triangles, with the vertex, texture-coordinate and colour
/// arrays enabled and pointed into the vertex at their offsets; afterwards
/// it disables exactly the arrays it enabled.
pub proof fn lemma_draw_enables_what_it_uses(p: Primitive)
    ensures
        draw_calls(p).len() == 13,
        draw_calls(p)[0] == (GlCall::BindTexture { target: 0xDE1, texture: p.texture.gl_id }),
        draw_calls(p)[1] == GlCall::EnableClientState(0x8074),
        draw_calls(p)[2] == GlCall::EnableClientState(0x8078),
        draw_calls(p)[3] == GlCall::EnableClientState(0x8076),
        draw_calls(p)[4] == (GlCall::VertexPointer { offset: 0 }),
        draw_calls(p)[5] == (GlCall::TexCoordPointer { offset: 12 }),
        draw_calls(p)[6] == (GlCall::ColorPointer { size: 4, ty: 0x1401, offset: 20 }),
        draw_calls(p)[7] == (GlCall::BindBuffer { target: 0x8892, buffer: p.vbo }),
        draw_calls(p)[8] == (GlCall::BindBuffer { target: 0x8893, buffer: p.ibo }),
        draw_calls(p)[9] == (GlCall::DrawElements {
            mode: 0x0004,
            count: p.indices@.len() as usize,
            ty: 0x1405,
            offset: 0,
        }),
        forall|i: int|
            10 <= i < 13 ==> (#[trigger] draw_calls(p)[i] matches GlCall::DisableClientState(a)
                && enable_calls().contains(GlCall::EnableClientState(a))),
        draw_calls(p)[10] == GlCall::DisableClientState(0x8074),
        draw_calls(p)[11] == GlCall::DisableClientState(0x8078),
        draw_calls(p)[12] == GlCall::DisableClientState(0x8076),
{
    let d = draw_calls(p);
    assert(enable_calls()[0] == GlCall::EnableClientState(0x8074));
    assert(enable_calls()[1] == GlCall::EnableClientState(0x8078));
    assert(enable_calls()[2] == GlCall::EnableClientState(0x8076));
    assert forall|i: int|
        10 <= i < 13 implies (#[trigger] d[i] matches GlCall::DisableClientState(a)
            && enable_calls().contains(GlCall::EnableClientState(a))) by {
        if i == 10 {
            assert(enable_calls()[0] == GlCall::EnableClientState(0x8074));
        } else if i == 11 {
            assert(enable_calls()[1] == GlCall::EnableClientState(0x8078));
        } else {
            assert(enable_calls()[2] == GlCall::EnableClientState(0x8076));
        }
    }
}

/// Buffering uploads the vertices into the vertex buffer and the indices
/// into the index buffer, each bound to its own target, and unbinds the
/// vertex buffer at the end; a primitive keeps a buffer name it has and
/// takes the fresh one only where it has none.
pub proof fn lemma_buffer_uploads(vbo: u32, ibo: u32, current: u32, fresh: u32)
    ensures
        buffer_calls(vbo, ibo).len() == 5,
        buffer_calls(vbo, ibo)[0] == (GlCall::BindBuffer { target: 0x8892, buffer: vbo }),
        buffer_calls(vbo, ibo)[1] == (GlCall::BufferData {
            target: 0x8892,
            source: BufferSource::Vertices,
            usage: 0x88E4,
        }),
        buffer_calls(vbo, ibo)[2] == (GlCall::BindBuffer { target: 0x8893, buffer: ibo }),
        buffer_calls(vbo, ibo)[3] == (GlCall::BufferData {
            target: 0x8893,
            source: BufferSource::Indices,
            usage: 0x88E4,
        }),
        buffer_calls(vbo, ibo)[4] == (GlCall::BindBuffer { target: 0x8892, buffer: 0 }),
        current != 0 ==> kept_or_fresh(current, fresh) == current,
        current == 0 ==> kept_or_fresh(current, fresh) == fresh,
{
}

} // verus!
