use vstd::prelude::*;
use crate::mesh::Mesh;

verus! {

/// A surface material: three colour responses and a shininess exponent.
#[derive(Copy, Clone, Debug)]
pub struct Material<S> {
    pub ambient: [S; 3],
    pub diffuse: [S; 3],
    pub specular: [S; 3],
    pub shininess: S,
}

/// The materials of a vertex list as parallel flat channels: three
/// components per vertex for each colour response, one for the shininess.
pub struct MeshMaterial<S> {
    pub ambient: Vec<S>,
    pub diffuse: Vec<S>,
    pub specular: Vec<S>,
    pub shininess: Vec<S>,
}

/// The ambient channel: three components per material.
pub open spec fn flat_ambient<S>(materials: Seq<Material<S>>) -> Seq<S> {
    Seq::new(3 * materials.len(), |i: int| materials[i / 3].ambient[i % 3])
}

/// The diffuse channel: three components per material.
pub open spec fn flat_diffuse<S>(materials: Seq<Material<S>>) -> Seq<S> {
    Seq::new(3 * materials.len(), |i: int| materials[i / 3].diffuse[i % 3])
}

/// The specular channel: three components per material.
pub open spec fn flat_specular<S>(materials: Seq<Material<S>>) -> Seq<S> {
    Seq::new(3 * materials.len(), |i: int| materials[i / 3].specular[i % 3])
}

/// The shininess channel: one component per material.
pub open spec fn flat_shininess<S>(materials: Seq<Material<S>>) -> Seq<S> {
    Seq::new(materials.len(), |i: int| materials[i].shininess)
}

/// The colour channel: four components per colour.
pub open spec fn flat_colors<S>(colors: Seq<[S; 4]>) -> Seq<S> {
    Seq::new(4 * colors.len(), |i: int| colors[i / 4][i % 4])
}

/// Lays the ambient responses out as one flat channel.
pub fn flatten_ambient<S: Copy>(materials: &Vec<Material<S>>) -> (r: Vec<S>)
    ensures
        r@ == flat_ambient(materials@),
{
    let mut r: Vec<S> = Vec::new();
    let mut k: usize = 0;
    while k < materials.len()
        invariant
            k <= materials.len(),
            r@.len() == 3 * k,
            forall|i: int| 0 <= i < 3 * k ==> #[trigger] r@[i] == materials@[i / 3].ambient[i % 3],
        decreases materials.len() - k,
    {
        let item = materials[k].ambient;
        r.push(item[0]);
        r.push(item[1]);
        r.push(item[2]);
        k = k + 1;
    }
    assert(r@ =~= flat_ambient(materials@));
    r
}

/// Lays the diffuse responses out as one flat channel.
pub fn flatten_diffuse<S: Copy>(materials: &Vec<Material<S>>) -> (r: Vec<S>)
    ensures
        r@ == flat_diffuse(materials@),
{
    let mut r: Vec<S> = Vec::new();
    let mut k: usize = 0;
    while k < materials.len()
        invariant
            k <= materials.len(),
            r@.len() == 3 * k,
            forall|i: int| 0 <= i < 3 * k ==> #[trigger] r@[i] == materials@[i / 3].diffuse[i % 3],
        decreases materials.len() - k,
    {
        let item = materials[k].diffuse;
        r.push(item[0]);
        r.push(item[1]);
        r.push(item[2]);
        k = k + 1;
    }
    assert(r@ =~= flat_diffuse(materials@));
    r
}

/// Lays the specular responses out as one flat channel.
pub fn flatten_specular<S: Copy>(materials: &Vec<Material<S>>) -> (r: Vec<S>)
    ensures
        r@ == flat_specular(materials@),
{
    let mut r: Vec<S> = Vec::new();
    let mut k: usize = 0;
    while k < materials.len()
        invariant
            k <= materials.len(),
            r@.len() == 3 * k,
            forall|i: int| 0 <= i < 3 * k ==> #[trigger] r@[i] == materials@[i / 3].specular[i % 3],
        decreases materials.len() - k,
    {
        let item = materials[k].specular;
        r.push(item[0]);
        r.push(item[1]);
        r.push(item[2]);
        k = k + 1;
    }
    assert(r@ =~= flat_specular(materials@));
    r
}

/// Collects the shininess exponents as one channel.
pub fn flatten_shininess<S: Copy>(materials: &Vec<Material<S>>) -> (r: Vec<S>)
    ensures
        r@ == flat_shininess(materials@),
{
    let mut r: Vec<S> = Vec::new();
    let mut k: usize = 0;
    while k < materials.len()
        invariant
            k <= materials.len(),
            r@.len() == k,
            forall|i: int| 0 <= i < k ==> #[trigger] r@[i] == materials@[i].shininess,
        decreases materials.len() - k,
    {
        r.push(materials[k].shininess);
        k = k + 1;
    }
    assert(r@ =~= flat_shininess(materials@));
    r
}

/// Lays a list of materials out as the four channels of a mesh.
pub fn get_mesh_material<S: Copy>(materials: &Vec<Material<S>>) -> (r: MeshMaterial<S>)
    ensures
        r.ambient@ == flat_ambient(materials@),
        r.diffuse@ == flat_diffuse(materials@),
        r.specular@ == flat_specular(materials@),
        r.shininess@ == flat_shininess(materials@),
{
    MeshMaterial {
        ambient: flatten_ambient(materials),
        diffuse: flatten_diffuse(materials),
        specular: flatten_specular(materials),
        shininess: flatten_shininess(materials),
    }
}

/// Lays a list of four-component colours out as one flat channel.
pub fn flatten_colors<S: Copy>(colors: &Vec<[S; 4]>) -> (r: Vec<S>)
    ensures
        r@ == flat_colors(colors@),
{
    let mut r: Vec<S> = Vec::new();
    let mut k: usize = 0;
    while k < colors.len()
        invariant
            k <= colors.len(),
            r@.len() == 4 * k,
            forall|i: int| 0 <= i < 4 * k ==> #[trigger] r@[i] == colors@[i / 4][i % 4],
        decreases colors.len() - k,
    {
        let item = colors[k];
        r.push(item[0]);
        r.push(item[1]);
        r.push(item[2]);
        r.push(item[3]);
        k = k + 1;
    }
    assert(r@ =~= flat_colors(colors@));
    r
}

/// A coloured mesh with its colours laid out flat: four components per
/// vertex beside three position and three normal components.
pub struct Shape<S> {
    pub vertices: Vec<S>,
    pub colors: Vec<S>,
    pub indices: Vec<u32>,
    pub normals: Vec<S>,
    pub index_count: i32,
}

/// Turns a mesh whose attribute is a four-component colour into a shape.
/// The position, normal and index buffers pass through unchanged.
pub fn generate_shape<S: Copy>(mesh: Mesh<S, [S; 4]>) -> (r: Shape<S>)
    ensures
        r.vertices@ == mesh.vertices@,
        r.normals@ == mesh.normals@,
        r.indices@ == mesh.indices@,
        r.index_count == mesh.index_count,
        r.colors@ == flat_colors(mesh.attributes@),
{
    let colors = flatten_colors(&mesh.attributes);
    Shape {
        vertices: mesh.vertices,
        colors,
        indices: mesh.indices,
        normals: mesh.normals,
        index_count: mesh.index_count,
    }
}

} // verus!
