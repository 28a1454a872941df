//! The registry of textures and shader programs. Each name is loaded at
//! most once: the registry hands out one handle per name and records, in
//! order, which files the handles stand for.
use vstd::prelude::*;
use vstd::hash_map::StringHashMap;
use crate::shader::Shader;
use crate::texture::Texture;

verus! {

/// One texture to load, as plain values: the name it is known by and the
/// image file it comes from.
pub struct TextureLoad {
    pub name: Seq<char>,
    pub path: Seq<char>,
}

/// One shader program to load, as plain values.
pub struct ShaderLoad {
    pub name: Seq<char>,
    pub vertex_path: Seq<char>,
    pub fragment_path: Seq<char>,
}

/// What a registry holds, as plain values. `texture_loads[i]` is the load
/// behind the texture handle with id `i`, and likewise for shaders.
pub struct Resources {
    pub textures: Map<Seq<char>, Texture>,
    pub texture_loads: Seq<TextureLoad>,
    pub shaders: Map<Seq<char>, Shader>,
    pub shader_loads: Seq<ShaderLoad>,
}

impl Resources {
    /// The registry that holds nothing.
    pub open spec fn empty() -> Resources {
        Resources {
            textures: Map::empty(),
            texture_loads: Seq::empty(),
            shaders: Map::empty(),
            shader_loads: Seq::empty(),
        }
    }

    /// Names and loads correspond one to one: a name's handle points at the
    /// load recorded under that name, and every load is some name's.
    pub open spec fn wf(self) -> bool {
        &&& forall|n: Seq<char>| #[trigger]
            self.textures.contains_key(n) ==> self.textures[n].id < self.texture_loads.len()
                && self.texture_loads[self.textures[n].id as int].name == n
        &&& forall|i: int|
            0 <= i < self.texture_loads.len() ==> self.textures.contains_key(
                (#[trigger] self.texture_loads[i]).name,
            ) && self.textures[self.texture_loads[i].name].id == i
        &&& forall|n: Seq<char>| #[trigger]
            self.shaders.contains_key(n) ==> self.shaders[n].id < self.shader_loads.len()
                && self.shader_loads[self.shaders[n].id as int].name == n
        &&& forall|i: int|
            0 <= i < self.shader_loads.len() ==> self.shaders.contains_key(
                (#[trigger] self.shader_loads[i]).name,
            ) && self.shaders[self.shader_loads[i].name].id == i
    }

    /// The handle that a request for the texture `name` returns.
    pub open spec fn texture_handle(self, name: Seq<char>) -> Texture {
        if self.textures.contains_key(name) {
            self.textures[name]
        } else {
            Texture { id: self.texture_loads.len() as usize }
        }
    }

    /// The registry after a request for the texture `name` from the file
    /// `path`: unchanged if the name is known, else with one more load.
    pub open spec fn with_texture(self, path: Seq<char>, name: Seq<char>) -> Resources {
        if self.textures.contains_key(name) {
            self
        } else {
            Resources {
                textures: self.textures.insert(name, self.texture_handle(name)),
                texture_loads: self.texture_loads.push(TextureLoad { name, path }),
                ..self
            }
        }
    }

    /// The handle that a request for the shader program `name` returns.
    pub open spec fn shader_handle(self, name: Seq<char>) -> Shader {
        if self.shaders.contains_key(name) {
            self.shaders[name]
        } else {
            Shader { id: self.shader_loads.len() as usize }
        }
    }

    /// The registry after a request for the shader program `name`.
    pub open spec fn with_shader(
        self,
        vertex_path: Seq<char>,
        fragment_path: Seq<char>,
        name: Seq<char>,
    ) -> Resources {
        if self.shaders.contains_key(name) {
            self
        } else {
            Resources {
                shaders: self.shaders.insert(name, self.shader_handle(name)),
                shader_loads: self.shader_loads.push(
                    ShaderLoad { name, vertex_path, fragment_path },
                ),
                ..self
            }
        }
    }
}

/// A second request for a texture name changes nothing and returns the
/// handle of the first, whatever file the second request names.
pub proof fn texture_request_is_idempotent(
    r: Resources,
    first_path: Seq<char>,
    second_path: Seq<char>,
    name: Seq<char>,
)
    ensures
        r.with_texture(first_path, name).with_texture(second_path, name) == r.with_texture(
            first_path,
            name,
        ),
        r.with_texture(first_path, name).texture_handle(name) == r.texture_handle(name),
{
}

/// A second request for a shader name changes nothing and returns the
/// handle of the first, whatever files the second request names.
pub proof fn shader_request_is_idempotent(
    r: Resources,
    first_vertex: Seq<char>,
    first_fragment: Seq<char>,
    second_vertex: Seq<char>,
    second_fragment: Seq<char>,
    name: Seq<char>,
)
    ensures
        r.with_shader(first_vertex, first_fragment, name).with_shader(
            second_vertex,
            second_fragment,
            name,
        ) == r.with_shader(first_vertex, first_fragment, name),
        r.with_shader(first_vertex, first_fragment, name).shader_handle(name) == r.shader_handle(
            name,
        ),
{
}

/// A request keeps every handle that was given out before it, and the loads
/// recorded before it stay as they were: the registry only grows.
pub proof fn texture_request_keeps_earlier(
    r: Resources,
    path: Seq<char>,
    name: Seq<char>,
    earlier: Seq<char>,
)
    requires
        r.textures.contains_key(earlier),
    ensures
        r.with_texture(path, name).textures.contains_key(earlier),
        r.with_texture(path, name).textures[earlier] == r.textures[earlier],
        r.texture_loads.is_prefix_of(r.with_texture(path, name).texture_loads),
{
}

/// A texture request keeps the registry well formed, as long as its loads
/// can still be counted in a `usize`.
pub proof fn texture_request_keeps_wf(r: Resources, path: Seq<char>, name: Seq<char>)
    requires
        r.wf(),
        r.texture_loads.len() < usize::MAX,
    ensures
        r.with_texture(path, name).wf(),
{
    let t = r.with_texture(path, name);
    if !r.textures.contains_key(name) {
        assert forall|i: int| 0 <= i < t.texture_loads.len() implies t.textures.contains_key(
            (#[trigger] t.texture_loads[i]).name,
        ) && t.textures[t.texture_loads[i].name].id == i by {
            if i < r.texture_loads.len() {
                assert(r.texture_loads[i] == t.texture_loads[i]);
            }
        }
    }
}

/// A shader request keeps the registry well formed, as long as its loads
/// can still be counted in a `usize`.
pub proof fn shader_request_keeps_wf(
    r: Resources,
    vertex_path: Seq<char>,
    fragment_path: Seq<char>,
    name: Seq<char>,
)
    requires
        r.wf(),
        r.shader_loads.len() < usize::MAX,
    ensures
        r.with_shader(vertex_path, fragment_path, name).wf(),
{
    let s = r.with_shader(vertex_path, fragment_path, name);
    if !r.shaders.contains_key(name) {
        assert forall|i: int| 0 <= i < s.shader_loads.len() implies s.shaders.contains_key(
            (#[trigger] s.shader_loads[i]).name,
        ) && s.shaders[s.shader_loads[i].name].id == i by {
            if i < r.shader_loads.len() {
                assert(r.shader_loads[i] == s.shader_loads[i]);
            }
        }
    }
}

/// In a well-formed registry no name was loaded twice.
pub proof fn loads_are_distinct(r: Resources, i: int, j: int)
    requires
        r.wf(),
        0 <= i < j < r.texture_loads.len(),
    ensures
        r.texture_loads[i].name != r.texture_loads[j].name,
{
}

/// A texture's name and the image file it is loaded from.
pub struct TextureSource {
    pub name: String,
    pub path: String,
}

impl View for TextureSource {
    type V = TextureLoad;

    open spec fn view(&self) -> TextureLoad {
        TextureLoad { name: self.name@, path: self.path@ }
    }
}

/// A shader program's name and the two source files it is built from.
pub struct ShaderSource {
    pub name: String,
    pub vertex_path: String,
    pub fragment_path: String,
}

impl View for ShaderSource {
    type V = ShaderLoad;

    open spec fn view(&self) -> ShaderLoad {
        ShaderLoad {
            name: self.name@,
            vertex_path: self.vertex_path@,
            fragment_path: self.fragment_path@,
        }
    }
}

/// The registry. It never forgets a name and never loads one twice.
pub struct ResourceManager {
    texture_pool: StringHashMap<Texture>,
    texture_sources: Vec<TextureSource>,
    shader_pool: StringHashMap<Shader>,
    shader_sources: Vec<ShaderSource>,
}

impl View for ResourceManager {
    type V = Resources;

    closed spec fn view(&self) -> Resources {
        Resources {
            textures: self.texture_pool@,
            texture_loads: Seq::new(
                self.texture_sources@.len(),
                |i: int| self.texture_sources@[i]@,
            ),
            shaders: self.shader_pool@,
            shader_loads: Seq::new(self.shader_sources@.len(), |i: int| self.shader_sources@[i]@),
        }
    }
}

impl ResourceManager {
    /// Names and loads correspond one to one.
    pub open spec fn wf(&self) -> bool {
        self@.wf()
    }

    /// An empty registry.
    pub fn new() -> (r: ResourceManager)
        ensures
            r.wf(),
            r@ == Resources::empty(),
    {
        let r = ResourceManager {
            texture_pool: StringHashMap::new(),
            texture_sources: Vec::new(),
            shader_pool: StringHashMap::new(),
            shader_sources: Vec::new(),
        };
        assert(r@.texture_loads =~= Seq::empty());
        assert(r@.shader_loads =~= Seq::empty());
        r
    }

    /// The handle of the texture `name`. The first request for a name
    /// records `img_file_name` as the file to load and gives the name the
    /// next free handle; every later request returns that handle and records
    /// nothing, whatever file it names.
    pub fn load_texture(&mut self, img_file_name: &str, name: String) -> (texture: Texture)
        requires
            old(self).wf(),
        ensures
            final(self).wf(),
            final(self)@ == old(self)@.with_texture(img_file_name@, name@),
            texture == old(self)@.texture_handle(name@),
    {
        match self.texture_pool.get(name.as_str()) {
            Some(known) => {
                return *known;
            },
            None => {},
        }
        let texture = Texture { id: self.texture_sources.len() };
        self.texture_pool.insert(name.clone(), texture);
        self.texture_sources.push(TextureSource { name, path: img_file_name.to_owned() });
        proof {
            let after = old(self)@.with_texture(img_file_name@, name@);
            assert(self@.texture_loads =~= after.texture_loads);
            assert(self@.shader_loads =~= after.shader_loads);
            assert(self.texture_sources@.len() == old(self)@.texture_loads.len() + 1);
            assert(self.texture_sources@.len() == self.texture_sources.len());
            texture_request_keeps_wf(old(self)@, img_file_name@, name@);
        }
        texture
    }

    /// The handle of the shader program `name`. The first request for a
    /// name records the two source files and gives the name the next free
    /// handle; every later request returns that handle and records nothing.
    pub fn load_shader(&mut self, vx_shader_path: &str, fg_shader_path: &str, name: String) -> (shader:
        Shader)
        requires
            old(self).wf(),
        ensures
            final(self).wf(),
            final(self)@ == old(self)@.with_shader(vx_shader_path@, fg_shader_path@, name@),
            shader == old(self)@.shader_handle(name@),
    {
        match self.shader_pool.get(name.as_str()) {
            Some(known) => {
                return *known;
            },
            None => {},
        }
        let shader = Shader { id: self.shader_sources.len() };
        self.shader_pool.insert(name.clone(), shader);
        self.shader_sources.push(
            ShaderSource {
                name,
                vertex_path: vx_shader_path.to_owned(),
                fragment_path: fg_shader_path.to_owned(),
            },
        );
        proof {
            let after = old(self)@.with_shader(vx_shader_path@, fg_shader_path@, name@);
            assert(self@.texture_loads =~= after.texture_loads);
            assert(self@.shader_loads =~= after.shader_loads);
            assert(self.shader_sources@.len() == old(self)@.shader_loads.len() + 1);
            assert(self.shader_sources@.len() == self.shader_sources.len());
            shader_request_keeps_wf(old(self)@, vx_shader_path@, fg_shader_path@, name@);
        }
        shader
    }

    /// Whether the texture `name` was requested before.
    pub fn has_texture(&self, name: &str) -> (known: bool)
        ensures
            known == self@.textures.contains_key(name@),
    {
        self.texture_pool.contains_key(name)
    }

    /// Whether the shader program `name` was requested before.
    pub fn has_shader(&self, name: &str) -> (known: bool)
        ensures
            known == self@.shaders.contains_key(name@),
    {
        self.shader_pool.contains_key(name)
    }

    /// The handle of a texture that was requested before.
    pub fn get_texture(&self, name: String) -> (texture: Texture)
        requires
            self@.textures.contains_key(name@),
        ensures
            texture == self@.textures[name@],
    {
        *self.texture_pool.get(name.as_str()).unwrap()
    }

    /// The handle of a shader program that was requested before.
    pub fn get_shader(&self, name: String) -> (shader: Shader)
        requires
            self@.shaders.contains_key(name@),
        ensures
            shader == self@.shaders[name@],
    {
        *self.shader_pool.get(name.as_str()).unwrap()
    }

    /// The textures to load, in the order of their handles: the texture
    /// with id `i` comes from `texture_sources()[i]`.
    pub fn texture_sources(&self) -> (sources: &Vec<TextureSource>)
        ensures
            sources@.len() == self@.texture_loads.len(),
            forall|i: int| 0 <= i < sources@.len() ==> sources@[i]@ == self@.texture_loads[i],
    {
        &self.texture_sources
    }

    /// The shader programs to load, in the order of their handles.
    pub fn shader_sources(&self) -> (sources: &Vec<ShaderSource>)
        ensures
            sources@.len() == self@.shader_loads.len(),
            forall|i: int| 0 <= i < sources@.len() ==> sources@[i]@ == self@.shader_loads[i],
    {
        &self.shader_sources
    }
}

} // verus!
