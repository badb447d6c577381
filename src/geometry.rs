use vstd::prelude::*;

verus! {

/// How the GPU assembles vertices into primitives.
#[derive(Clone, Copy, Debug, PartialEq, Eq, Structural)]
pub enum DrawMode {
    Points,
    Lines,
    LineStrip,
    Triangles,
    TriangleStrip,
    TriangleFan,
}

/// Geometry handed once to the render pipeline. Coordinates are in
/// normalized device units; the quads drawn here only need whole values.
pub struct PrimitiveData {
    /// Vertex positions, two components per vertex.
    pub pos_data: Vec<i8>,
    /// Texture coordinates, two components per vertex, if any.
    pub tex_data: Option<Vec<i8>>,
    /// Number of vertices.
    pub count: usize,
    /// Number of primitive instances.
    pub data_per_primitive: usize,
    pub draw_mode: DrawMode,
}

impl PrimitiveData {
    /// Positions, and texture coordinates if present, hold two components for
    /// each declared vertex.
    pub open spec fn wf(&self) -> bool {
        &&& self.pos_data@.len() == 2 * self.count
        &&& match self.tex_data {
            Some(t) => t@.len() == 2 * self.count,
            None => true,
        }
    }

    /// Whether the arrays agree with the vertex count; geometry that does not
    /// must not reach the GPU.
    pub fn is_well_formed(&self) -> (r: bool)
        ensures
            r == self.wf(),
    {
        let pos_ok = self.pos_data.len() % 2 == 0 && self.pos_data.len() / 2 == self.count;
        match &self.tex_data {
            Some(t) => pos_ok && t.len() % 2 == 0 && t.len() / 2 == self.count,
            None => pos_ok,
        }
    }
}

/// Positions of the full-screen quad, as a fan from the bottom-left corner.
pub open spec fn quad_positions() -> Seq<i8> {
    seq![-1i8, -1i8, -1i8, 1i8, 1i8, 1i8, 1i8, -1i8]
}

/// Texture coordinates of the full-screen quad, with the image's first row at
/// the top of the screen.
pub open spec fn quad_tex_coords() -> Seq<i8> {
    seq![0i8, 1i8, 0i8, 0i8, 1i8, 0i8, 1i8, 1i8]
}

/// The full-screen textured quad: four vertices drawn as one triangle fan.
pub fn create_primitive() -> (data: PrimitiveData)
    ensures
        data.wf(),
        data.pos_data@ == quad_positions(),
        data.tex_data.is_some(),
        data.tex_data.unwrap()@ == quad_tex_coords(),
        data.pos_data@.len() == 8,
        data.tex_data.unwrap()@.len() == 8,
        data.count == 4,
        data.data_per_primitive == 1,
        data.draw_mode == DrawMode::TriangleFan,
{
    let mut pos_data: Vec<i8> = Vec::new();
    pos_data.push(-1);
    pos_data.push(-1);
    pos_data.push(-1);
    pos_data.push(1);
    pos_data.push(1);
    pos_data.push(1);
    pos_data.push(1);
    pos_data.push(-1);

    let mut tex_data: Vec<i8> = Vec::new();
    tex_data.push(0);
    tex_data.push(1);
    tex_data.push(0);
    tex_data.push(0);
    tex_data.push(1);
    tex_data.push(0);
    tex_data.push(1);
    tex_data.push(1);

    assert(pos_data@ =~= quad_positions());
    assert(tex_data@ =~= quad_tex_coords());
    PrimitiveData {
        pos_data,
        tex_data: Some(tex_data),
        count: 4,
        data_per_primitive: 1,
        draw_mode: DrawMode::TriangleFan,
    }
}

} // verus!
