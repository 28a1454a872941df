use breakout::model::{Material, MeshDraw, MeshTexture, Model};
use breakout::resource_manager::ResourceManager;
use breakout::shader::Shader;
use breakout::texture::Texture;

fn material(diffuse: &str, specular: &str, normal: &str) -> Material {
    Material {
        diffuse_texture: diffuse.to_string(),
        specular_texture: specular.to_string(),
        normal_texture: normal.to_string(),
    }
}

#[test]
fn a_model_requests_the_textures_of_its_materials() {
    let mut resources = ResourceManager::new();
    let materials = vec![
        material("body.png", "", "body_n.png"),
        material("glass.png", "glass_s.png", ""),
        material("", "", ""),
    ];
    let meshes = vec![Some(1), None, Some(0), Some(2), Some(1)];
    let model = Model::new(&mut resources, "models/car", &meshes, &materials);
    assert_eq!(model.mesh_count(), 5);
    assert_eq!(
        model.mesh(0).textures(),
        &vec![
            MeshTexture::DiffuseMap(Texture { id: 0 }),
            MeshTexture::SpecularMap(Texture { id: 1 }),
        ]
    );
    assert_eq!(model.mesh(1).textures(), &vec![]);
    assert_eq!(
        model.mesh(2).textures(),
        &vec![MeshTexture::DiffuseMap(Texture { id: 2 }), MeshTexture::NormalMap(Texture { id: 3 })]
    );
    assert_eq!(model.mesh(3).textures(), &vec![]);
    assert_eq!(model.mesh(4).textures(), model.mesh(0).textures());
    let listed: Vec<(&str, &str)> = resources
        .texture_sources()
        .iter()
        .map(|s| (s.name.as_str(), s.path.as_str()))
        .collect();
    assert_eq!(
        listed,
        vec![
            ("models/car/glass.png", "models/car/glass.png"),
            ("models/car/glass_s.png", "models/car/glass_s.png"),
            ("models/car/body.png", "models/car/body.png"),
            ("models/car/body_n.png", "models/car/body_n.png"),
        ]
    );
}

#[test]
fn a_model_with_all_three_maps_binds_them_in_order() {
    let mut resources = ResourceManager::new();
    let materials = vec![material("d.png", "s.png", "n.png")];
    let model = Model::new(&mut resources, "", &vec![Some(0)], &materials);
    assert_eq!(
        model.mesh(0).textures(),
        &vec![
            MeshTexture::DiffuseMap(Texture { id: 0 }),
            MeshTexture::SpecularMap(Texture { id: 1 }),
            MeshTexture::NormalMap(Texture { id: 2 }),
        ]
    );
    assert_eq!(resources.texture_sources()[0].path, "/d.png");
    assert_eq!(resources.texture_sources()[2].name, "/n.png");
}

#[test]
fn a_model_without_meshes_draws_nothing() {
    let mut resources = ResourceManager::new();
    let model = Model::new(&mut resources, "models", &vec![], &vec![]);
    assert_eq!(model.mesh_count(), 0);
    assert_eq!(model.draw(&Shader { id: 3 }), vec![]);
    assert_eq!(resources.texture_sources().len(), 0);
}

#[test]
fn a_model_draws_each_mesh_once_in_order() {
    let mut resources = ResourceManager::new();
    let model = Model::new(&mut resources, "models", &vec![None, None, None], &vec![]);
    assert_eq!(
        model.draw(&Shader { id: 3 }),
        vec![
            MeshDraw { mesh: 0, shader: Shader { id: 3 } },
            MeshDraw { mesh: 1, shader: Shader { id: 3 } },
            MeshDraw { mesh: 2, shader: Shader { id: 3 } },
        ]
    );
}
