use breakout::fixed::Fixed;
use breakout::game_level::{check_grid, color_of_tile, GameLevel, LevelError};
use breakout::game_object::GameObject;
use breakout::level_text::{blank, parse_number, parse_row, parse_tiles};
use breakout::resource_manager::ResourceManager;
use breakout::shader::Shader;
use breakout::sprite_renderer::SpriteRenderer;
use breakout::texture::Texture;
use breakout::vector::{Vec2, Vec3};

fn at(x: i32, y: i32) -> Vec2 {
    Vec2::new(Fixed::from_int(x), Fixed::from_int(y))
}

fn tenths(r: i64, g: i64, b: i64) -> Vec3 {
    Vec3::new(Fixed::from_raw(r * 100), Fixed::from_raw(g * 100), Fixed::from_raw(b * 100))
}

fn loaded(source: &str, width: u32, height: u32) -> (GameLevel, ResourceManager) {
    let mut resources = ResourceManager::new();
    let mut level = GameLevel::new();
    assert_eq!(level.load(&mut resources, source.as_bytes(), width, height), Ok(()));
    (level, resources)
}

fn check_brick(
    brick: &GameObject,
    position: Vec2,
    size: Vec2,
    color: Vec3,
    solid: bool,
    texture: Texture,
) {
    assert_eq!(brick.get_position(), position);
    assert_eq!(brick.get_size(), size);
    assert_eq!(brick.get_color(), color);
    assert_eq!(brick.is_solid(), solid);
    assert_eq!(brick.get_texture(), texture);
    assert_eq!(brick.get_velocity(), at(0, 0));
    assert_eq!(brick.get_rotation(), Fixed::zero());
    assert!(!brick.is_destroyed());
}

#[test]
fn level_decode() {
    let (level, resources) = loaded("1 2\n0 3\n", 200, 100);
    assert_eq!(level.brick_count(), 3);
    let solid = resources.get_texture("block_solid".to_string());
    let block = resources.get_texture("block".to_string());
    check_brick(level.brick(0), at(0, 0), at(100, 50), tenths(8, 8, 7), true, solid);
    check_brick(level.brick(1), at(100, 0), at(100, 50), tenths(2, 6, 10), false, block);
    check_brick(level.brick(2), at(100, 50), at(100, 50), tenths(0, 7, 0), false, block);
}

#[test]
fn level_decode_with_the_empty_tile_last() {
    let (level, resources) = loaded("1 2\n3 0\n", 200, 100);
    assert_eq!(level.brick_count(), 3);
    let solid = resources.get_texture("block_solid".to_string());
    let block = resources.get_texture("block".to_string());
    check_brick(level.brick(0), at(0, 0), at(100, 50), tenths(8, 8, 7), true, solid);
    check_brick(level.brick(1), at(100, 0), at(100, 50), tenths(2, 6, 10), false, block);
    check_brick(level.brick(2), at(0, 50), at(100, 50), tenths(0, 7, 0), false, block);
}

#[test]
fn level_decode_from_a_grid() {
    let mut resources = ResourceManager::new();
    let mut level = GameLevel::new();
    let grid = vec![vec![1, 2], vec![0, 3]];
    assert_eq!(level.create_bricks(&mut resources, grid, 200, 100), Ok(()));
    assert_eq!(level.brick_count(), 3);
    assert_eq!(level.brick(0).get_position(), at(0, 0));
    assert_eq!(level.brick(1).get_position(), at(100, 0));
    assert_eq!(level.brick(2).get_position(), at(100, 50));
    assert!(level.brick(0).is_solid());
    assert!(!level.brick(1).is_solid());
    assert!(!level.brick(2).is_solid());
}

#[test]
fn every_tile_code_has_its_brick() {
    let (level, resources) = loaded("0 1 2 3 4 5 6 7 4294967295", 900, 10);
    assert_eq!(level.brick_count(), 5);
    let solid = resources.get_texture("block_solid".to_string());
    let block = resources.get_texture("block".to_string());
    check_brick(level.brick(0), at(100, 0), at(100, 10), tenths(8, 8, 7), true, solid);
    check_brick(level.brick(1), at(200, 0), at(100, 10), tenths(2, 6, 10), false, block);
    check_brick(level.brick(2), at(300, 0), at(100, 10), tenths(0, 7, 0), false, block);
    check_brick(level.brick(3), at(400, 0), at(100, 10), tenths(8, 8, 4), false, block);
    check_brick(level.brick(4), at(500, 0), at(100, 10), tenths(10, 5, 0), false, block);
}

#[test]
fn the_tile_table() {
    assert_eq!(color_of_tile(0), None);
    assert_eq!(color_of_tile(1), Some(tenths(8, 8, 7)));
    assert_eq!(color_of_tile(2), Some(tenths(2, 6, 10)));
    assert_eq!(color_of_tile(3), Some(tenths(0, 7, 0)));
    assert_eq!(color_of_tile(4), Some(tenths(8, 8, 4)));
    assert_eq!(color_of_tile(5), Some(tenths(10, 5, 0)));
    assert_eq!(color_of_tile(6), None);
    assert_eq!(color_of_tile(u32::MAX), None);
}

#[test]
fn bricks_come_row_by_row_from_the_top() {
    let (level, _) = loaded("2 3\n4 5\n2 3\n", 20, 30);
    assert_eq!(level.brick_count(), 6);
    let places: Vec<Vec2> = (0..6).map(|i| level.brick(i).get_position()).collect();
    assert_eq!(places, vec![at(0, 0), at(10, 0), at(0, 10), at(10, 10), at(0, 20), at(10, 20)]);
}

#[test]
fn a_brick_size_that_is_no_whole_number_is_rounded_down_to_thousandths() {
    let (level, _) = loaded("1 1 1\n1 1 1\n1 1 1\n", 800, 100);
    assert_eq!(level.brick_count(), 9);
    let unit = Vec2::new(Fixed::from_raw(266_666), Fixed::from_raw(33_333));
    assert_eq!(level.brick(0).get_size(), unit);
    assert_eq!(level.brick(8).get_size(), unit);
    assert_eq!(
        level.brick(8).get_position(),
        Vec2::new(Fixed::from_raw(533_332), Fixed::from_raw(66_666))
    );
    assert_eq!(level.brick(4).get_position(), Vec2::new(Fixed::from_raw(266_666), Fixed::from_raw(33_333)));
}

#[test]
fn each_kind_of_brick_loads_its_texture_once() {
    let (_, resources) = loaded("2 1 1 2\n1 2 2 1\n", 400, 100);
    let sources = resources.texture_sources();
    assert_eq!(sources.len(), 2);
    assert_eq!(sources[0].name, "block");
    assert_eq!(sources[0].path, "resources/textures/block.png");
    assert_eq!(sources[1].name, "block_solid");
    assert_eq!(sources[1].path, "resources/textures/block_solid.png");
    assert_eq!(resources.get_texture("block".to_string()), Texture { id: 0 });
    assert_eq!(resources.get_texture("block_solid".to_string()), Texture { id: 1 });
}

#[test]
fn a_level_without_bricks_loads_no_texture() {
    let (level, resources) = loaded("0 0\n9 0\n", 400, 100);
    assert_eq!(level.brick_count(), 0);
    assert_eq!(resources.texture_sources().len(), 0);
}

#[test]
fn blank_lines_and_blanks_around_tokens_are_skipped() {
    let (level, _) = loaded("\n\n  1\t2  \r\n\r\n \x0c \n0 3", 200, 100);
    assert_eq!(level.brick_count(), 3);
    assert_eq!(level.brick(2).get_position(), at(100, 50));
    assert_eq!(level.brick(2).get_size(), at(100, 50));
}

#[test]
fn parse_tiles_reads_rows_as_they_stand() {
    assert_eq!(parse_tiles(b"1 2\n0 3\n"), Ok(vec![vec![1, 2], vec![0, 3]]));
    assert_eq!(parse_tiles(b"1 2\n0 3"), Ok(vec![vec![1, 2], vec![0, 3]]));
    assert_eq!(parse_tiles(b""), Ok(vec![]));
    assert_eq!(parse_tiles(b"\n \n\t\r\n"), Ok(vec![]));
    assert_eq!(parse_tiles(b"1\n2 3\n\n4 5 6\n"), Ok(vec![vec![1], vec![2, 3], vec![4, 5, 6]]));
    assert_eq!(parse_tiles(b"007 +5 4294967295"), Ok(vec![vec![7, 5, 4294967295]]));
}

#[test]
fn parse_tiles_refuses_what_is_no_number() {
    assert_eq!(parse_tiles(b"1 2\n0 x\n"), Err(LevelError::InvalidTile));
    assert_eq!(parse_tiles(b"1 -2"), Err(LevelError::InvalidTile));
    assert_eq!(parse_tiles(b"1.5"), Err(LevelError::InvalidTile));
    assert_eq!(parse_tiles(b"4294967296"), Err(LevelError::InvalidTile));
    assert_eq!(parse_tiles(b"1,2"), Err(LevelError::InvalidTile));
    assert_eq!(parse_tiles(b"1 2\x0b3"), Err(LevelError::InvalidTile));
    assert_eq!(parse_tiles("1 2\n\u{e9}".as_bytes()), Err(LevelError::InvalidTile));
}

#[test]
fn parse_number_reads_decimal_numerals() {
    assert_eq!(parse_number(b"0"), Some(0));
    assert_eq!(parse_number(b"5"), Some(5));
    assert_eq!(parse_number(b"+5"), Some(5));
    assert_eq!(parse_number(b"0000000000000012"), Some(12));
    assert_eq!(parse_number(b"4294967295"), Some(u32::MAX));
    assert_eq!(parse_number(b"+4294967295"), Some(u32::MAX));
    assert_eq!(parse_number(b"4294967296"), None);
    assert_eq!(parse_number(b"42949672950"), None);
    assert_eq!(parse_number(b"99999999999999999999999999"), None);
    assert_eq!(parse_number(b""), None);
    assert_eq!(parse_number(b"+"), None);
    assert_eq!(parse_number(b"++1"), None);
    assert_eq!(parse_number(b"-1"), None);
    assert_eq!(parse_number(b"1+"), None);
    assert_eq!(parse_number(b"12a"), None);
    assert_eq!(parse_number(b"0x10"), None);
    assert_eq!(parse_number(b" 1"), None);
}

#[test]
fn parse_number_agrees_with_the_standard_parser() {
    let tokens: [&str; 12] =
        ["0", "1", "+1", "-1", "", "+", "4294967295", "4294967296", "00", "1_0", "١", "12 "];
    for token in tokens {
        assert_eq!(parse_number(token.as_bytes()), token.parse::<u32>().ok());
    }
}

#[test]
fn parse_row_splits_at_blanks() {
    assert_eq!(parse_row(b"1 2 3"), Ok(vec![1, 2, 3]));
    assert_eq!(parse_row(b"  1\t\t2\r"), Ok(vec![1, 2]));
    assert_eq!(parse_row(b""), Ok(vec![]));
    assert_eq!(parse_row(b"   "), Ok(vec![]));
    assert_eq!(parse_row(b"1 two 3"), Err(LevelError::InvalidTile));
}

#[test]
fn the_blanks_are_the_five_ascii_ones() {
    for b in 0u8..=255 {
        assert_eq!(blank(b), b.is_ascii_whitespace());
    }
}

#[test]
fn a_level_text_with_a_bad_token_is_refused() {
    let mut resources = ResourceManager::new();
    let mut level = GameLevel::new();
    assert_eq!(level.load(&mut resources, b"1 2\n0 3\n", 200, 100), Ok(()));
    assert_eq!(level.brick_count(), 3);
    assert_eq!(level.load(&mut resources, b"1 2\n0 a\n", 200, 100), Err(LevelError::InvalidTile));
    assert_eq!(level.brick_count(), 0);
    assert_eq!(resources.texture_sources().len(), 2);
}

#[test]
fn an_empty_level_text_is_refused() {
    let mut resources = ResourceManager::new();
    let mut level = GameLevel::new();
    assert_eq!(level.load(&mut resources, b"", 200, 100), Err(LevelError::EmptyGrid));
    assert_eq!(level.load(&mut resources, b"\n  \n", 200, 100), Err(LevelError::EmptyGrid));
    assert_eq!(level.brick_count(), 0);
    assert_eq!(resources.texture_sources().len(), 0);
}

#[test]
fn a_ragged_level_text_is_refused() {
    let mut resources = ResourceManager::new();
    let mut level = GameLevel::new();
    assert_eq!(level.load(&mut resources, b"1 2\n3\n", 200, 100), Err(LevelError::RaggedGrid));
    assert_eq!(level.load(&mut resources, b"1 2\n3 4 5\n", 200, 100), Err(LevelError::RaggedGrid));
    assert_eq!(level.brick_count(), 0);
    assert_eq!(resources.texture_sources().len(), 0);
}

#[test]
fn a_level_too_small_for_its_grid_is_refused() {
    let mut resources = ResourceManager::new();
    let mut level = GameLevel::new();
    assert_eq!(level.load(&mut resources, b"1 2\n0 3\n", 0, 100), Err(LevelError::EmptyBrick));
    assert_eq!(level.load(&mut resources, b"1 2\n0 3\n", 200, 0), Err(LevelError::EmptyBrick));
    assert_eq!(level.brick_count(), 0);
    assert_eq!(resources.texture_sources().len(), 0);
    // one thousandth per brick is enough
    let grid = vec![vec![2; 1000]];
    assert_eq!(level.create_bricks(&mut resources, grid, 1, 1), Ok(()));
    assert_eq!(level.brick(999).get_position(), Vec2::new(Fixed::from_raw(999), Fixed::zero()));
    let grid = vec![vec![2; 1001]];
    assert_eq!(level.create_bricks(&mut resources, grid, 1, 1), Err(LevelError::EmptyBrick));
}

#[test]
fn a_bad_token_is_reported_before_a_ragged_row() {
    let mut resources = ResourceManager::new();
    let mut level = GameLevel::new();
    assert_eq!(level.load(&mut resources, b"1 2\n3\nx y\n", 200, 100), Err(LevelError::InvalidTile));
}

#[test]
fn check_grid_names_what_is_wrong() {
    assert_eq!(check_grid(&vec![], 200, 100), Err(LevelError::EmptyGrid));
    assert_eq!(check_grid(&vec![vec![]], 200, 100), Err(LevelError::EmptyGrid));
    assert_eq!(check_grid(&vec![vec![], vec![1]], 200, 100), Err(LevelError::EmptyGrid));
    assert_eq!(check_grid(&vec![vec![1], vec![]], 200, 100), Err(LevelError::RaggedGrid));
    assert_eq!(check_grid(&vec![vec![1, 2], vec![1]], 0, 0), Err(LevelError::RaggedGrid));
    assert_eq!(check_grid(&vec![vec![1, 2], vec![1, 2]], 0, 1), Err(LevelError::EmptyBrick));
    assert_eq!(check_grid(&vec![vec![1, 2], vec![1, 2]], 1, 1), Ok(()));
}

#[test]
fn create_bricks_adds_behind_the_bricks_that_are_there() {
    let mut resources = ResourceManager::new();
    let mut level = GameLevel::new();
    assert_eq!(level.create_bricks(&mut resources, vec![vec![1]], 10, 10), Ok(()));
    assert_eq!(level.create_bricks(&mut resources, vec![vec![0, 5]], 10, 10), Ok(()));
    assert_eq!(level.brick_count(), 2);
    assert!(level.brick(0).is_solid());
    assert_eq!(level.brick(0).get_size(), at(10, 10));
    assert!(!level.brick(1).is_solid());
    assert_eq!(level.brick(1).get_position(), at(5, 0));
    assert_eq!(level.brick(1).get_size(), at(5, 10));
    // a grid that is refused changes nothing
    assert_eq!(
        level.create_bricks(&mut resources, vec![vec![1], vec![]], 10, 10),
        Err(LevelError::RaggedGrid)
    );
    assert_eq!(level.brick_count(), 2);
}

#[test]
fn load_replaces_the_bricks() {
    let mut resources = ResourceManager::new();
    let mut level = GameLevel::new();
    assert_eq!(level.load(&mut resources, b"1 2 3", 30, 10), Ok(()));
    assert_eq!(level.brick_count(), 3);
    assert_eq!(level.load(&mut resources, b"4", 30, 10), Ok(()));
    assert_eq!(level.brick_count(), 1);
    assert_eq!(level.brick(0).get_size(), at(30, 10));
    assert_eq!(level.brick(0).get_color(), tenths(8, 8, 4));
}

#[test]
fn completion_flag_semantics() {
    let (mut level, _) = loaded("2", 100, 100);
    assert_eq!(level.brick_count(), 1);
    assert!(level.is_complete());
    level.destroy_brick(0);
    assert!(level.brick(0).is_destroyed());
    assert!(!level.is_complete());
}

#[test]
fn solid_bricks_do_not_count_for_completion() {
    let (level, _) = loaded("1 1\n1 1", 100, 100);
    assert!(!level.is_complete());
    let (mut level, _) = loaded("1 2\n3 1", 100, 100);
    assert!(level.is_complete());
    level.destroy_brick(1);
    assert!(level.is_complete());
    level.destroy_brick(2);
    assert!(!level.is_complete());
    level.destroy_brick(0);
    assert!(!level.is_complete());
    assert!(!GameLevel::new().is_complete());
}

#[test]
fn destroy_brick_changes_one_brick_only() {
    let (mut level, _) = loaded("2 3 4", 300, 10);
    level.destroy_brick(1);
    assert!(!level.brick(0).is_destroyed());
    assert!(level.brick(1).is_destroyed());
    assert!(!level.brick(2).is_destroyed());
    assert_eq!(level.brick(1).get_position(), at(100, 0));
    assert_eq!(level.brick(1).get_color(), tenths(0, 7, 0));
    assert_eq!(level.brick_count(), 3);
}

#[test]
fn a_level_draws_the_bricks_that_still_stand() {
    let (mut level, resources) = loaded("1 2\n0 3\n", 200, 100);
    level.destroy_brick(1);
    let mut renderer = SpriteRenderer::new(Shader { id: 0 });
    level.draw(&mut renderer);
    let sprites = renderer.sprites();
    assert_eq!(sprites.len(), 2);
    assert_eq!(sprites[0].position, at(0, 0));
    assert_eq!(sprites[0].size, at(100, 50));
    assert_eq!(sprites[0].color, tenths(8, 8, 7));
    assert_eq!(sprites[0].rotate, Fixed::zero());
    assert_eq!(sprites[0].texture, resources.get_texture("block_solid".to_string()));
    assert_eq!(sprites[1].position, at(100, 50));
    assert_eq!(sprites[1].color, tenths(0, 7, 0));
    assert_eq!(sprites[1].texture, resources.get_texture("block".to_string()));
    // a second draw queues behind the first
    level.draw(&mut renderer);
    assert_eq!(renderer.sprites().len(), 4);
    assert_eq!(renderer.sprites()[2], renderer.sprites()[0]);
}
