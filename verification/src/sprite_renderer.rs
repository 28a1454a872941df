//! The list of sprites that a frame draws. Entities queue their sprites
//! here in drawing order; whoever owns the screen turns each one into a
//! textured quad.
use vstd::prelude::*;
use crate::fixed::{fixed, quotient, quotient_bounds, Fixed};
use crate::shader::Shader;
use crate::texture::Texture;
use crate::vector::{Vec2, Vec3};

verus! {

/// One textured rectangle to draw: where its top-left corner is, how large
/// it is, by how many degrees it is turned about its own centre, and the
/// colour that tints its texture.
#[derive(Clone, Copy, Debug, PartialEq, Eq, Structural)]
pub struct Sprite {
    pub texture: Texture,
    pub position: Vec2,
    pub size: Vec2,
    pub rotate: Fixed,
    pub color: Vec3,
}

/// One step of the transform that takes the unit square, with corners
/// (0,0) and (1,1), to a sprite's place on the screen.
#[derive(Clone, Copy, Debug, PartialEq, Eq, Structural)]
pub enum Transform {
    /// Move by a vector.
    Translate(Vec2),
    /// Turn about the origin by an angle in degrees.
    Rotate(Fixed),
    /// Stretch each axis by a factor.
    Scale(Vec2),
}

/// Half of an extent, rounded toward zero to thousandths.
pub open spec fn half_of(size: Vec2) -> Vec2 {
    Vec2 { x: fixed(quotient(size.x.raw as int, 2)), y: fixed(quotient(size.y.raw as int, 2)) }
}

/// The opposite of a vector.
pub open spec fn opposite(v: Vec2) -> Vec2 {
    Vec2 { x: fixed(-v.x.raw), y: fixed(-v.y.raw) }
}

impl Sprite {
    /// The steps of the sprite's model transform, outermost first: each
    /// step applies to what the steps after it have made of the unit
    /// square. The square is scaled to the sprite's size, moved so that its
    /// centre is at the origin, turned, moved back, and moved to the
    /// sprite's position; so the sprite turns about its own centre.
    pub open spec fn model_steps(self) -> Seq<Transform> {
        seq![
            Transform::Translate(self.position),
            Transform::Translate(half_of(self.size)),
            Transform::Rotate(self.rotate),
            Transform::Translate(opposite(half_of(self.size))),
            Transform::Scale(self.size),
        ]
    }

    /// The steps of the sprite's model transform, outermost first.
    pub fn model_transform(&self) -> (steps: Vec<Transform>)
        ensures
            steps@ == self.model_steps(),
    {
        proof {
            quotient_bounds(self.size.x.raw as int, 2);
            quotient_bounds(self.size.y.raw as int, 2);
        }
        let half: Vec2 = Vec2::new(self.size.x.per(2), self.size.y.per(2));
        let back: Vec2 = Vec2::new(half.x.negated(), half.y.negated());
        let mut steps: Vec<Transform> = Vec::new();
        steps.push(Transform::Translate(self.position));
        steps.push(Transform::Translate(half));
        steps.push(Transform::Rotate(self.rotate));
        steps.push(Transform::Translate(back));
        steps.push(Transform::Scale(self.size));
        assert(steps@ =~= self.model_steps());
        steps
    }
}

/// Sprites queued for drawing, oldest first, and the shader program that
/// draws them.
pub struct SpriteRenderer {
    shader: Shader,
    queue: Vec<Sprite>,
}

impl View for SpriteRenderer {
    type V = Seq<Sprite>;

    closed spec fn view(&self) -> Seq<Sprite> {
        self.queue@
    }
}

impl SpriteRenderer {
    /// The shader program that draws the sprites.
    pub closed spec fn shader(&self) -> Shader {
        self.shader
    }

    /// A renderer with nothing queued.
    pub fn new(shader: Shader) -> (r: SpriteRenderer)
        ensures
            r@ == Seq::<Sprite>::empty(),
            r.shader() == shader,
    {
        SpriteRenderer { shader, queue: Vec::new() }
    }

    /// Queues one sprite behind those already queued.
    pub fn draw(&mut self, texture: &Texture, position: Vec2, size: Vec2, rotate: Fixed, color: Vec3)
        ensures
            final(self)@ == old(self)@.push(
                Sprite { texture: *texture, position, size, rotate, color },
            ),
            final(self).shader() == old(self).shader(),
    {
        self.queue.push(Sprite { texture: *texture, position, size, rotate, color });
    }

    /// The queued sprites, in drawing order.
    pub fn sprites(&self) -> (queued: &Vec<Sprite>)
        ensures
            queued@ == self@,
    {
        &self.queue
    }

    /// The shader program that draws the sprites.
    pub fn get_shader(&self) -> (shader: Shader)
        ensures
            shader == self.shader(),
    {
        self.shader
    }

    /// Empties the queue, once its sprites are on the screen.
    pub fn clear(&mut self)
        ensures
            final(self)@ == Seq::<Sprite>::empty(),
            final(self).shader() == old(self).shader(),
    {
        self.queue.clear();
    }
}

} // verus!
