use breakout::resource_manager::ResourceManager;
use breakout::shader::Shader;
use breakout::texture::Texture;

#[test]
fn cache_idempotence() {
    let mut resources = ResourceManager::new();
    let first = resources.load_texture("resources/textures/paddle.png", "paddle".to_string());
    let second = resources.load_texture("no/such/file \u{0}??", "paddle".to_string());
    assert_eq!(second, first);
    assert_eq!(resources.texture_sources().len(), 1);
    assert_eq!(resources.texture_sources()[0].name, "paddle");
    assert_eq!(resources.texture_sources()[0].path, "resources/textures/paddle.png");
    assert_eq!(resources.get_texture("paddle".to_string()), first);
}

#[test]
fn each_new_name_gets_the_next_handle() {
    let mut resources = ResourceManager::new();
    assert_eq!(resources.load_texture("a.png", "a".to_string()), Texture { id: 0 });
    assert_eq!(resources.load_texture("b.png", "b".to_string()), Texture { id: 1 });
    assert_eq!(resources.load_texture("a.png", "c".to_string()), Texture { id: 2 });
    assert_eq!(resources.load_texture("z.png", "b".to_string()), Texture { id: 1 });
    assert_eq!(resources.load_texture("z.png", "a".to_string()), Texture { id: 0 });
    assert_eq!(resources.load_texture("d.png", "".to_string()), Texture { id: 3 });
    let sources = resources.texture_sources();
    let listed: Vec<(&str, &str)> =
        sources.iter().map(|s| (s.name.as_str(), s.path.as_str())).collect();
    assert_eq!(listed, vec![("a", "a.png"), ("b", "b.png"), ("c", "a.png"), ("", "d.png")]);
    assert_eq!(resources.get_texture("c".to_string()), Texture { id: 2 });
    assert_eq!(resources.get_texture("".to_string()), Texture { id: 3 });
}

#[test]
fn a_new_registry_holds_nothing() {
    let resources = ResourceManager::new();
    assert!(!resources.has_texture("paddle"));
    assert!(!resources.has_shader("sprite"));
    assert_eq!(resources.texture_sources().len(), 0);
    assert_eq!(resources.shader_sources().len(), 0);
}

#[test]
fn has_texture_tells_what_was_requested() {
    let mut resources = ResourceManager::new();
    resources.load_texture("paddle.png", "paddle".to_string());
    assert!(resources.has_texture("paddle"));
    assert!(!resources.has_texture("paddle.png"));
    assert!(!resources.has_texture("Paddle"));
    assert!(!resources.has_shader("paddle"));
}

#[test]
fn shaders_are_loaded_once_per_name() {
    let mut resources = ResourceManager::new();
    let first = resources.load_shader("sprite.vs", "sprite.fs", "sprite".to_string());
    let other = resources.load_shader("model.vs", "model.fs", "model".to_string());
    let again = resources.load_shader("other.vs", "other.fs", "sprite".to_string());
    assert_eq!(first, Shader { id: 0 });
    assert_eq!(other, Shader { id: 1 });
    assert_eq!(again, first);
    let sources = resources.shader_sources();
    assert_eq!(sources.len(), 2);
    assert_eq!(sources[0].name, "sprite");
    assert_eq!(sources[0].vertex_path, "sprite.vs");
    assert_eq!(sources[0].fragment_path, "sprite.fs");
    assert_eq!(sources[1].name, "model");
    assert_eq!(sources[1].vertex_path, "model.vs");
    assert_eq!(sources[1].fragment_path, "model.fs");
    assert!(resources.has_shader("sprite"));
    assert_eq!(resources.get_shader("sprite".to_string()), first);
    assert_eq!(resources.get_shader("model".to_string()), other);
}

#[test]
fn textures_and_shaders_are_kept_apart() {
    let mut resources = ResourceManager::new();
    let texture = resources.load_texture("sprite.png", "sprite".to_string());
    let shader = resources.load_shader("sprite.vs", "sprite.fs", "sprite".to_string());
    assert_eq!(texture, Texture { id: 0 });
    assert_eq!(shader, Shader { id: 0 });
    assert_eq!(resources.texture_sources().len(), 1);
    assert_eq!(resources.shader_sources().len(), 1);
    assert_eq!(resources.get_texture("sprite".to_string()), texture);
    assert_eq!(resources.get_shader("sprite".to_string()), shader);
}

#[test]
fn many_requests_for_one_name_load_it_once() {
    let mut resources = ResourceManager::new();
    let first = resources.load_texture("block.png", "block".to_string());
    for i in 0..100 {
        let path = format!("path/{}", i);
        assert_eq!(resources.load_texture(&path, "block".to_string()), first);
    }
    assert_eq!(resources.texture_sources().len(), 1);
    assert_eq!(resources.texture_sources()[0].path, "block.png");
}
