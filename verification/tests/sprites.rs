use breakout::fixed::Fixed;
use breakout::shader::Shader;
use breakout::sprite_renderer::{Sprite, SpriteRenderer, Transform};
use breakout::texture::Texture;
use breakout::vector::{Vec2, Vec3};

fn at(x: i32, y: i32) -> Vec2 {
    Vec2::new(Fixed::from_int(x), Fixed::from_int(y))
}

fn white() -> Vec3 {
    Vec3::new(Fixed::from_int(1), Fixed::from_int(1), Fixed::from_int(1))
}

#[test]
fn a_new_renderer_has_nothing_queued() {
    let renderer = SpriteRenderer::new(Shader { id: 7 });
    assert_eq!(renderer.sprites().len(), 0);
    assert_eq!(renderer.get_shader(), Shader { id: 7 });
}

#[test]
fn sprites_are_queued_in_drawing_order() {
    let mut renderer = SpriteRenderer::new(Shader { id: 7 });
    renderer.draw(&Texture { id: 1 }, at(1, 2), at(3, 4), Fixed::from_int(45), white());
    renderer.draw(&Texture { id: 2 }, at(5, 6), at(7, 8), Fixed::zero(), white());
    assert_eq!(
        renderer.sprites(),
        &vec![
            Sprite {
                texture: Texture { id: 1 },
                position: at(1, 2),
                size: at(3, 4),
                rotate: Fixed::from_int(45),
                color: white(),
            },
            Sprite {
                texture: Texture { id: 2 },
                position: at(5, 6),
                size: at(7, 8),
                rotate: Fixed::zero(),
                color: white(),
            },
        ]
    );
    assert_eq!(renderer.get_shader(), Shader { id: 7 });
    renderer.clear();
    assert_eq!(renderer.sprites().len(), 0);
    assert_eq!(renderer.get_shader(), Shader { id: 7 });
}

#[test]
fn the_model_transform_turns_a_sprite_about_its_centre() {
    let sprite = Sprite {
        texture: Texture { id: 0 },
        position: at(200, 200),
        size: at(300, 400),
        rotate: Fixed::from_int(45),
        color: white(),
    };
    assert_eq!(
        sprite.model_transform(),
        vec![
            Transform::Translate(at(200, 200)),
            Transform::Translate(at(150, 200)),
            Transform::Rotate(Fixed::from_int(45)),
            Transform::Translate(at(-150, -200)),
            Transform::Scale(at(300, 400)),
        ]
    );
}

#[test]
fn half_of_an_odd_size_is_rounded_toward_zero() {
    let sprite = Sprite {
        texture: Texture { id: 0 },
        position: at(0, 0),
        size: Vec2::new(Fixed::from_raw(25_001), Fixed::from_raw(1)),
        rotate: Fixed::zero(),
        color: white(),
    };
    let steps = sprite.model_transform();
    assert_eq!(steps[1], Transform::Translate(Vec2::new(Fixed::from_raw(12_500), Fixed::zero())));
    assert_eq!(steps[3], Transform::Translate(Vec2::new(Fixed::from_raw(-12_500), Fixed::zero())));
    assert_eq!(steps[4], Transform::Scale(Vec2::new(Fixed::from_raw(25_001), Fixed::from_raw(1))));
}

#[test]
fn the_model_transform_takes_any_size() {
    let sprite = Sprite {
        texture: Texture { id: 0 },
        position: Vec2::new(Fixed::from_raw(i64::MIN), Fixed::from_raw(i64::MAX)),
        size: Vec2::new(Fixed::from_raw(i64::MIN), Fixed::from_raw(i64::MAX)),
        rotate: Fixed::from_raw(i64::MIN),
        color: white(),
    };
    let steps = sprite.model_transform();
    assert_eq!(steps.len(), 5);
    assert_eq!(
        steps[1],
        Transform::Translate(Vec2::new(Fixed::from_raw(i64::MIN / 2), Fixed::from_raw(i64::MAX / 2)))
    );
    assert_eq!(
        steps[3],
        Transform::Translate(Vec2::new(
            Fixed::from_raw(-(i64::MIN / 2)),
            Fixed::from_raw(-(i64::MAX / 2))
        ))
    );
}
