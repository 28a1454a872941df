//! A model: meshes, each with the texture maps of its material.
use vstd::prelude::*;
use vstd::string::StringExecFns;
use crate::resource_manager::{ResourceManager, Resources};
use crate::shader::Shader;
use crate::texture::Texture;

verus! {

/// One texture map of a mesh, by the part it plays in shading.
#[derive(Clone, Copy, Debug, PartialEq, Eq, Structural)]
pub enum MeshTexture {
    DiffuseMap(Texture),
    SpecularMap(Texture),
    NormalMap(Texture),
}

/// The texture files that a material names, each relative to the model's
/// directory. An empty name stands for no map.
pub struct Material {
    pub diffuse_texture: String,
    pub specular_texture: String,
    pub normal_texture: String,
}

/// The texture files that a material names, as plain values.
pub struct MaterialNames {
    pub diffuse_texture: Seq<char>,
    pub specular_texture: Seq<char>,
    pub normal_texture: Seq<char>,
}

impl View for Material {
    type V = MaterialNames;

    open spec fn view(&self) -> MaterialNames {
        MaterialNames {
            diffuse_texture: self.diffuse_texture@,
            specular_texture: self.specular_texture@,
            normal_texture: self.normal_texture@,
        }
    }
}

/// One mesh to draw: its place among the model's meshes and the shader
/// program that draws it.
#[derive(Clone, Copy, Debug, PartialEq, Eq, Structural)]
pub struct MeshDraw {
    pub mesh: usize,
    pub shader: Shader,
}

/// Texture maps found so far, and the registry after the requests for
/// them.
pub struct MapsBuilt {
    pub maps: Seq<MeshTexture>,
    pub resources: Resources,
}

/// Meshes built so far, each as its texture maps, and the registry after
/// the requests for them.
pub struct MeshesBuilt {
    pub meshes: Seq<Seq<MeshTexture>>,
    pub resources: Resources,
}

/// The file of a texture that a material names: the model's directory, a
/// slash and the name.
pub open spec fn texture_file(directory: Seq<char>, name: Seq<char>) -> Seq<char> {
    directory + "/"@ + name
}

/// The maps after one more name of a material: a name that is not empty
/// requests the texture of its file, under the file's own name, and adds
/// the map that `wrap` makes of it.
pub open spec fn with_map(
    built: MapsBuilt,
    directory: Seq<char>,
    name: Seq<char>,
    wrap: spec_fn(Texture) -> MeshTexture,
) -> MapsBuilt {
    if name.len() == 0 {
        built
    } else {
        let file = texture_file(directory, name);
        MapsBuilt {
            maps: built.maps.push(wrap(built.resources.texture_handle(file))),
            resources: built.resources.with_texture(file, file),
        }
    }
}

/// The maps of a mesh with the given material, if it has one: the diffuse
/// map, the specular map and the normal map, in this order, as far as the
/// material names them.
pub open spec fn mesh_maps(r: Resources, directory: Seq<char>, material: Option<MaterialNames>) -> MapsBuilt {
    let none = MapsBuilt { maps: Seq::empty(), resources: r };
    match material {
        None => none,
        Some(m) => with_map(
            with_map(
                with_map(
                    none,
                    directory,
                    m.diffuse_texture,
                    |t: Texture| MeshTexture::DiffuseMap(t),
                ),
                directory,
                m.specular_texture,
                |t: Texture| MeshTexture::SpecularMap(t),
            ),
            directory,
            m.normal_texture,
            |t: Texture| MeshTexture::NormalMap(t),
        ),
    }
}

/// The material of a mesh, given the place of its material among the
/// model's materials.
pub open spec fn material_of(materials: Seq<MaterialNames>, id: Option<usize>) -> Option<MaterialNames> {
    match id {
        Some(i) => Some(materials[i as int]),
        None => None,
    }
}

/// The first `count` meshes of a model, built in order on the registry
/// `r`.
pub open spec fn build_meshes(
    r: Resources,
    directory: Seq<char>,
    mesh_materials: Seq<Option<usize>>,
    materials: Seq<MaterialNames>,
    count: nat,
) -> MeshesBuilt
    decreases count,
{
    if count == 0 {
        MeshesBuilt { meshes: Seq::empty(), resources: r }
    } else {
        let before = build_meshes(r, directory, mesh_materials, materials, (count - 1) as nat);
        let mesh = mesh_maps(
            before.resources,
            directory,
            material_of(materials, mesh_materials[count - 1]),
        );
        MeshesBuilt { meshes: before.meshes.push(mesh.maps), resources: mesh.resources }
    }
}

/// The draw list of a model with `count` meshes: each mesh once, in
/// order, with the given shader program.
pub open spec fn draw_list(count: nat, shader: Shader) -> Seq<MeshDraw> {
    Seq::new(count, |i: int| MeshDraw { mesh: i as usize, shader })
}

/// The plain values of a vector of materials.
pub open spec fn names_of(materials: Seq<Material>) -> Seq<MaterialNames> {
    Seq::new(materials.len(), |i: int| materials[i]@)
}

/// One mesh of a model: its texture maps.
pub struct Mesh {
    textures: Vec<MeshTexture>,
}

impl View for Mesh {
    type V = Seq<MeshTexture>;

    closed spec fn view(&self) -> Seq<MeshTexture> {
        self.textures@
    }
}

impl Mesh {
    /// The mesh's texture maps, in the order in which they are bound.
    pub fn textures(&self) -> (textures: &Vec<MeshTexture>)
        ensures
            textures@ == self@,
    {
        &self.textures
    }
}

/// A model.
pub struct Model {
    meshes: Vec<Mesh>,
}

impl View for Model {
    type V = Seq<Seq<MeshTexture>>;

    closed spec fn view(&self) -> Seq<Seq<MeshTexture>> {
        Seq::new(self.meshes@.len(), |i: int| self.meshes@[i]@)
    }
}

/// Requests the texture of one name of a material, if the name is not
/// empty.
fn load_map(resources: &mut ResourceManager, directory: &str, name: &str) -> (texture: Option<Texture>)
    requires
        old(resources).wf(),
    ensures
        final(resources).wf(),
        name@.len() == 0 ==> texture.is_none() && final(resources)@ == old(resources)@,
        name@.len() != 0 ==> texture == Some(
            old(resources)@.texture_handle(texture_file(directory@, name@)),
        ) && final(resources)@ == old(resources)@.with_texture(
            texture_file(directory@, name@),
            texture_file(directory@, name@),
        ),
{
    if name.is_empty() {
        None
    } else {
        let filename: String = String::from_str(directory).concat("/").concat(name);
        Some(resources.load_texture(filename.as_str(), filename.clone()))
    }
}

impl Model {
    /// Builds a model from what its file holds: for each mesh the place of
    /// its material, if it has one, and the materials. Every texture that
    /// a material names is requested from the registry under the name of
    /// its file in `directory`.
    pub fn new(
        resources: &mut ResourceManager,
        directory: &str,
        mesh_materials: &Vec<Option<usize>>,
        materials: &Vec<Material>,
    ) -> (model: Model)
        requires
            old(resources).wf(),
            forall|i: int|
                0 <= i < mesh_materials@.len() ==> ((#[trigger] mesh_materials@[i]) matches Some(id)
                    ==> id < materials@.len()),
        ensures
            final(resources).wf(),
            model@ == build_meshes(
                old(resources)@,
                directory@,
                mesh_materials@,
                names_of(materials@),
                mesh_materials@.len(),
            ).meshes,
            final(resources)@ == build_meshes(
                old(resources)@,
                directory@,
                mesh_materials@,
                names_of(materials@),
                mesh_materials@.len(),
            ).resources,
    {
        let mut meshes: Vec<Mesh> = Vec::new();
        let ghost names = names_of(materials@);
        let mut i: usize = 0;
        while i < mesh_materials.len()
            invariant
                i <= mesh_materials@.len(),
                names == names_of(materials@),
                forall|k: int|
                    0 <= k < mesh_materials@.len() ==> ((#[trigger] mesh_materials@[k]) matches Some(
                        id,
                    ) ==> id < materials@.len()),
                resources.wf(),
                meshes@.len() == i,
                forall|k: int|
                    0 <= k < i ==> (#[trigger] meshes@[k])@ == build_meshes(
                        old(resources)@,
                        directory@,
                        mesh_materials@,
                        names,
                        i as nat,
                    ).meshes[k],
                build_meshes(old(resources)@, directory@, mesh_materials@, names, i as nat).meshes.len()
                    == i,
                resources@ == build_meshes(
                    old(resources)@,
                    directory@,
                    mesh_materials@,
                    names,
                    i as nat,
                ).resources,
            decreases mesh_materials@.len() - i,
        {
            let mut textures: Vec<MeshTexture> = Vec::new();
            match mesh_materials[i] {
                Some(material_id) => {
                    let material: &Material = &materials[material_id];
                    assert(names[material_id as int] == material@);
                    match load_map(resources, directory, material.diffuse_texture.as_str()) {
                        Some(texture) => {
                            textures.push(MeshTexture::DiffuseMap(texture));
                        },
                        None => {},
                    }
                    match load_map(resources, directory, material.specular_texture.as_str()) {
                        Some(texture) => {
                            textures.push(MeshTexture::SpecularMap(texture));
                        },
                        None => {},
                    }
                    match load_map(resources, directory, material.normal_texture.as_str()) {
                        Some(texture) => {
                            textures.push(MeshTexture::NormalMap(texture));
                        },
                        None => {},
                    }
                },
                None => {},
            }
            meshes.push(Mesh { textures });
            i = i + 1;
        }
        let model = Model { meshes };
        proof {
            let built = build_meshes(
                old(resources)@,
                directory@,
                mesh_materials@,
                names,
                mesh_materials@.len(),
            );
            assert(model@ =~= built.meshes);
        }
        model
    }

    /// The meshes to draw with a shader program: each mesh of the model
    /// once, in order.
    pub fn draw(&self, shader: &Shader) -> (list: Vec<MeshDraw>)
        ensures
            list@ == draw_list(self@.len(), *shader),
    {
        let mut list: Vec<MeshDraw> = Vec::new();
        let mut i: usize = 0;
        while i < self.meshes.len()
            invariant
                i <= self.meshes@.len(),
                list@ == draw_list(i as nat, *shader),
            decreases self.meshes@.len() - i,
        {
            list.push(MeshDraw { mesh: i, shader: *shader });
            assert(list@ =~= draw_list((i + 1) as nat, *shader));
            i = i + 1;
        }
        list
    }

    /// The number of meshes.
    pub fn mesh_count(&self) -> (count: usize)
        ensures
            count == self@.len(),
    {
        self.meshes.len()
    }

    /// The mesh at a place in the drawing order.
    pub fn mesh(&self, index: usize) -> (mesh: &Mesh)
        requires
            index < self@.len(),
        ensures
            mesh@ == self@[index as int],
    {
        &self.meshes[index]
    }
}

} // verus!
