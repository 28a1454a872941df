//! The entity shared by bricks, the paddle and the ball.
use vstd::prelude::*;
use crate::fixed::Fixed;
use crate::sprite_renderer::{Sprite, SpriteRenderer};
use crate::texture::Texture;
use crate::vector::{Vec2, Vec3};

verus! {

/// What an entity holds, as plain values.
pub struct ObjectState {
    pub position: Vec2,
    pub size: Vec2,
    pub velocity: Vec2,
    pub color: Vec3,
    pub rotation: Fixed,
    pub solid: bool,
    pub texture: Texture,
    pub destroyed: bool,
}

/// Whether an extent is positive on both axes, as every entity's is.
pub open spec fn is_extent(size: Vec2) -> bool {
    size.x.raw > 0 && size.y.raw > 0
}

/// Whether the intervals `[start, start + extent]` and
/// `[other_start, other_start + other_extent]` share a point. Intervals
/// that only touch do.
pub open spec fn spans_meet(start: Fixed, extent: Fixed, other_start: Fixed, other_extent: Fixed) -> bool {
    start.raw + extent.raw >= other_start.raw && other_start.raw + other_extent.raw >= start.raw
}

impl ObjectState {
    /// Whether the axis-aligned rectangles of two entities share a point.
    /// Rotation plays no part, and edges that only touch count.
    pub open spec fn overlaps(self, other: ObjectState) -> bool {
        spans_meet(self.position.x, self.size.x, other.position.x, other.size.x) && spans_meet(
            self.position.y,
            self.size.y,
            other.position.y,
            other.size.y,
        )
    }

    /// The sprite that shows the entity.
    pub open spec fn sprite(self) -> Sprite {
        Sprite {
            texture: self.texture,
            position: self.position,
            size: self.size,
            rotate: self.rotation,
            color: self.color,
        }
    }
}

/// The collision test does not depend on the order of the two entities.
pub proof fn collision_is_symmetric(a: ObjectState, b: ObjectState)
    ensures
        a.overlaps(b) == b.overlaps(a),
{
}

/// Touching counts: two entities of which one begins on the x axis exactly
/// where the other ends collide, if they meet on the y axis.
pub proof fn touching_counts_as_collision(a: ObjectState, b: ObjectState)
    requires
        is_extent(a.size),
        is_extent(b.size),
        a.position.x.raw + a.size.x.raw == b.position.x.raw,
        spans_meet(a.position.y, a.size.y, b.position.y, b.size.y),
    ensures
        a.overlaps(b),
{
}

/// A game entity: where it is, how large it is, how it moves and looks,
/// whether it is solid, and whether it has been destroyed. Its extent is
/// positive on both axes, it stays solid or not as it was made, and once
/// destroyed it stays destroyed.
#[derive(Debug)]
pub struct GameObject {
    position: Vec2,
    size: Vec2,
    velocity: Vec2,
    color: Vec3,
    rotation: Fixed,
    solid: bool,
    texture: Texture,
    destroyed: bool,
}

impl View for GameObject {
    type V = ObjectState;

    closed spec fn view(&self) -> ObjectState {
        ObjectState {
            position: self.position,
            size: self.size,
            velocity: self.velocity,
            color: self.color,
            rotation: self.rotation,
            solid: self.solid,
            texture: self.texture,
            destroyed: self.destroyed,
        }
    }
}

impl GameObject {
    #[verifier::type_invariant]
    spec fn positive_extent(self) -> bool {
        is_extent(self.size)
    }

    /// A new entity, not destroyed.
    pub fn new(
        position: Vec2,
        size: Vec2,
        velocity: Vec2,
        color: Vec3,
        rotation: Fixed,
        texture: Texture,
        solid: bool,
    ) -> (object: GameObject)
        requires
            is_extent(size),
        ensures
            object@ == (ObjectState {
                position,
                size,
                velocity,
                color,
                rotation,
                solid,
                texture,
                destroyed: false,
            }),
    {
        GameObject { position, size, velocity, color, rotation, solid, texture, destroyed: false }
    }

    /// Queues the entity's sprite for drawing.
    pub fn draw(&self, renderer: &mut SpriteRenderer)
        ensures
            final(renderer)@ == old(renderer)@.push(self@.sprite()),
            final(renderer).shader() == old(renderer).shader(),
    {
        renderer.draw(&self.texture, self.position, self.size, self.rotation, self.color);
    }

    /// Whether the entity has been destroyed.
    pub fn is_destroyed(&self) -> (destroyed: bool)
        ensures
            destroyed == self@.destroyed,
    {
        self.destroyed
    }

    /// Whether the entity is solid: a brick that nothing destroys.
    pub fn is_solid(&self) -> (solid: bool)
        ensures
            solid == self@.solid,
    {
        self.solid
    }

    /// Marks the entity as destroyed. Nothing undoes this.
    pub fn set_destroyed(&mut self)
        ensures
            final(self)@ == (ObjectState { destroyed: true, ..old(self)@ }),
    {
        proof {
            use_type_invariant(&*self);
        }
        self.destroyed = true;
    }

    /// Where the entity's top-left corner is.
    pub fn get_position(&self) -> (position: Vec2)
        ensures
            position == self@.position,
    {
        self.position
    }

    /// The entity's extent, positive on both axes.
    pub fn get_size(&self) -> (size: Vec2)
        ensures
            size == self@.size,
            is_extent(size),
    {
        proof {
            use_type_invariant(self);
        }
        self.size
    }

    /// The entity's velocity.
    pub fn get_velocity(&self) -> (velocity: Vec2)
        ensures
            velocity == self@.velocity,
    {
        self.velocity
    }

    /// The colour that tints the entity's texture.
    pub fn get_color(&self) -> (color: Vec3)
        ensures
            color == self@.color,
    {
        self.color
    }

    /// By how many degrees the entity is turned about its centre.
    pub fn get_rotation(&self) -> (rotation: Fixed)
        ensures
            rotation == self@.rotation,
    {
        self.rotation
    }

    /// The entity's texture.
    pub fn get_texture(&self) -> (texture: Texture)
        ensures
            texture == self@.texture,
    {
        self.texture
    }

    /// Moves the entity to `position`.
    pub fn set_position(&mut self, position: Vec2)
        ensures
            final(self)@ == (ObjectState { position, ..old(self)@ }),
    {
        proof {
            use_type_invariant(&*self);
        }
        self.position = position;
    }

    /// Gives the entity the velocity `velocity`.
    pub fn set_velocity(&mut self, velocity: Vec2)
        ensures
            final(self)@ == (ObjectState { velocity, ..old(self)@ }),
    {
        proof {
            use_type_invariant(&*self);
        }
        self.velocity = velocity;
    }

    /// Whether this entity's rectangle and `check_obj`'s share a point.
    pub fn check_collision(&self, check_obj: &GameObject) -> (hit: bool)
        ensures
            hit == self@.overlaps(check_obj@),
    {
        let p1 = self.position;
        let s1 = self.size;
        let p2 = check_obj.position;
        let s2 = check_obj.size;

        let col_x = (p1.x.raw as i128) + (s1.x.raw as i128) >= (p2.x.raw as i128) && (p2.x.raw as i128)
            + (s2.x.raw as i128) >= (p1.x.raw as i128);
        let col_y = (p1.y.raw as i128) + (s1.y.raw as i128) >= (p2.y.raw as i128) && (p2.y.raw as i128)
            + (s2.y.raw as i128) >= (p1.y.raw as i128);
        col_x && col_y
    }
}

} // verus!
