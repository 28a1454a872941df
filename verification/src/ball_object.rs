//! The ball: an entity that sticks to the paddle until it is launched and
//! then bounces off the left, right and top walls.
use vstd::prelude::*;
use crate::fixed::{fits, fixed, product, Fixed, SCALE};
use crate::game_object::{is_extent, GameObject, ObjectState};
use crate::sprite_renderer::SpriteRenderer;
use crate::texture::Texture;
use crate::vector::{Vec2, Vec3};

verus! {

/// What a ball holds, as plain values.
pub struct BallState {
    pub object: ObjectState,
    pub radius: Fixed,
    pub stuck: bool,
}

impl BallState {
    /// Where the ball's left edge would be after the time `dt` without
    /// walls, in thousandths.
    pub open spec fn moved_x(self, dt: Fixed) -> int {
        self.object.position.x.raw + product(self.object.velocity.x, dt)
    }

    /// Where the ball's top edge would be after the time `dt` without
    /// walls, in thousandths.
    pub open spec fn moved_y(self, dt: Fixed) -> int {
        self.object.position.y.raw + product(self.object.velocity.y, dt)
    }

    /// Whether the move brings the ball to the left wall or beyond.
    pub open spec fn hits_left(self, dt: Fixed) -> bool {
        self.moved_x(dt) <= 0
    }

    /// Whether the move brings the ball's right edge to the right wall or
    /// beyond. A ball at the left wall is not tested against the right one.
    pub open spec fn hits_right(self, dt: Fixed, window_width: u32) -> bool {
        !self.hits_left(dt) && self.moved_x(dt) + self.object.size.x.raw >= window_width * SCALE
    }

    /// Whether the move brings the ball to the top wall or beyond.
    pub open spec fn hits_top(self, dt: Fixed) -> bool {
        self.moved_y(dt) <= 0
    }

    /// Whether the ball after the move can be held: a ball that falls has
    /// to stay in range, and a speed that a wall reverses needs an
    /// opposite. A stuck ball can always be moved.
    pub open spec fn can_move(self, dt: Fixed, window_width: u32) -> bool {
        self.stuck || {
            &&& self.moved_y(dt) <= i64::MAX
            &&& self.hits_left(dt) || self.hits_right(dt, window_width) ==> fits(
                -self.object.velocity.x.raw,
            )
            &&& self.hits_top(dt) ==> fits(-self.object.velocity.y.raw)
        }
    }

    /// The ball after the time `dt` between walls `window_width` apart. A
    /// stuck ball stays as it is. A free ball moves by its velocity times
    /// `dt`; at the left or the right wall it is put back against the wall
    /// with its horizontal speed reversed, and at the top wall likewise
    /// with its vertical speed. Nothing holds it back at the bottom.
    pub open spec fn after_move(self, dt: Fixed, window_width: u32) -> BallState {
        if self.stuck {
            self
        } else {
            let turns_x = self.hits_left(dt) || self.hits_right(dt, window_width);
            let x = if self.hits_left(dt) {
                0
            } else if self.hits_right(dt, window_width) {
                window_width * SCALE - self.object.size.x.raw
            } else {
                self.moved_x(dt)
            };
            let y = if self.hits_top(dt) {
                0
            } else {
                self.moved_y(dt)
            };
            let velocity = Vec2 {
                x: if turns_x {
                    fixed(-self.object.velocity.x.raw)
                } else {
                    self.object.velocity.x
                },
                y: if self.hits_top(dt) {
                    fixed(-self.object.velocity.y.raw)
                } else {
                    self.object.velocity.y
                },
            };
            BallState {
                object: ObjectState {
                    position: Vec2 { x: fixed(x), y: fixed(y) },
                    velocity,
                    ..self.object
                },
                ..self
            }
        }
    }
}

/// A stuck ball can always be moved, and the move leaves it as it is,
/// whatever its velocity and the time step.
pub proof fn stuck_ball_stays(ball: BallState, dt: Fixed, window_width: u32)
    requires
        ball.stuck,
    ensures
        ball.can_move(dt, window_width),
        ball.after_move(dt, window_width) == ball,
{
}

/// A free ball that reaches a wall is put back against that wall with its
/// speed toward the wall reversed; on an axis on which it reaches no wall
/// it is where its velocity took it, with its speed unchanged.
pub proof fn walls_turn_the_ball(ball: BallState, dt: Fixed, window_width: u32)
    requires
        !ball.stuck,
        is_extent(ball.object.size),
        ball.can_move(dt, window_width),
    ensures
        ({
            let after = ball.after_move(dt, window_width).object;
            let before = ball.object;
            &&& ball.hits_left(dt) ==> after.position.x.raw == 0 && after.velocity.x.raw
                == -before.velocity.x.raw
            &&& ball.hits_right(dt, window_width) ==> after.position.x.raw == window_width * SCALE
                - before.size.x.raw && after.velocity.x.raw == -before.velocity.x.raw
            &&& !ball.hits_left(dt) && !ball.hits_right(dt, window_width) ==> after.position.x.raw
                == ball.moved_x(dt) && after.velocity.x == before.velocity.x
            &&& ball.hits_top(dt) ==> after.position.y.raw == 0 && after.velocity.y.raw
                == -before.velocity.y.raw
            &&& !ball.hits_top(dt) ==> after.position.y.raw == ball.moved_y(dt) && after.velocity.y
                == before.velocity.y
        }),
{
}

/// A free ball that is no wider than the window is between the left and
/// the right wall after every move, and not above the top wall.
pub proof fn ball_stays_between_walls(ball: BallState, dt: Fixed, window_width: u32)
    requires
        !ball.stuck,
        is_extent(ball.object.size),
        ball.object.size.x.raw <= window_width * SCALE,
        ball.can_move(dt, window_width),
    ensures
        ({
            let after = ball.after_move(dt, window_width).object;
            &&& 0 <= after.position.x.raw
            &&& after.position.x.raw + after.size.x.raw <= window_width * SCALE
            &&& 0 <= after.position.y.raw
        }),
{
}

/// A move changes nothing of a ball but its position and its velocity.
pub proof fn move_keeps_the_rest(ball: BallState, dt: Fixed, window_width: u32)
    ensures
        ({
            let after = ball.after_move(dt, window_width);
            after == (BallState {
                object: ObjectState {
                    position: after.object.position,
                    velocity: after.object.velocity,
                    ..ball.object
                },
                ..ball
            })
        }),
{
}

/// The ball.
pub struct BallObject {
    game_object: GameObject,
    radius: Fixed,
    stuck: bool,
}

impl View for BallObject {
    type V = BallState;

    closed spec fn view(&self) -> BallState {
        BallState { object: self.game_object@, radius: self.radius, stuck: self.stuck }
    }
}

impl BallObject {
    /// A new ball: white, not turned, twice its radius wide and high, and
    /// stuck.
    pub fn new(position: Vec2, radius: Fixed, velocity: Vec2, texture: Texture) -> (ball: BallObject)
        requires
            radius.raw > 0,
            fits(2 * radius.raw),
        ensures
            ball@ == (BallState {
                object: ObjectState {
                    position,
                    size: Vec2 { x: fixed(2 * radius.raw), y: fixed(2 * radius.raw) },
                    velocity,
                    color: Vec3 { x: fixed(1000), y: fixed(1000), z: fixed(1000) },
                    rotation: fixed(0),
                    solid: false,
                    texture,
                    destroyed: false,
                },
                radius,
                stuck: true,
            }),
    {
        let diameter: Fixed = radius.times(2);
        BallObject {
            game_object: GameObject::new(
                position,
                Vec2::new(diameter, diameter),
                velocity,
                Vec3::new(Fixed::from_int(1), Fixed::from_int(1), Fixed::from_int(1)),
                Fixed::zero(),
                texture,
                false,
            ),
            radius,
            stuck: true,
        }
    }

    /// Queues the ball's sprite for drawing.
    pub fn draw(&self, renderer: &mut SpriteRenderer)
        ensures
            final(renderer)@ == old(renderer)@.push(self@.object.sprite()),
            final(renderer).shader() == old(renderer).shader(),
    {
        self.game_object.draw(renderer);
    }

    /// Moves the ball by the time `dt` between walls `window_width` apart
    /// and returns where it is then. A stuck ball does not move, whatever
    /// its velocity and `dt`.
    pub fn do_move(&mut self, dt: Fixed, window_width: u32) -> (position: Vec2)
        requires
            old(self)@.can_move(dt, window_width),
        ensures
            final(self)@ == old(self)@.after_move(dt, window_width),
            position == final(self)@.object.position,
            old(self)@.stuck ==> final(self)@ == old(self)@ && position == old(self)@.object.position,
    {
        let mut position: Vec2 = self.game_object.get_position();
        let size_x: Fixed = self.game_object.get_size().x;

        if !self.stuck {
            let mut velocity: Vec2 = self.game_object.get_velocity();

            let moved_x: i128 = position.x.advanced(velocity.x, dt);
            let moved_y: i128 = position.y.advanced(velocity.y, dt);
            let right_wall: i128 = (window_width as i128) * (SCALE as i128);

            if moved_x <= 0 {
                velocity.x = velocity.x.negated();
                position.x = Fixed::zero();
            } else if moved_x + (size_x.raw as i128) >= right_wall {
                velocity.x = velocity.x.negated();
                position.x = Fixed::from_raw((right_wall - (size_x.raw as i128)) as i64);
            } else {
                position.x = Fixed::from_raw(moved_x as i64);
            }

            if moved_y <= 0 {
                velocity.y = velocity.y.negated();
                position.y = Fixed::zero();
            } else {
                position.y = Fixed::from_raw(moved_y as i64);
            }

            self.game_object.set_velocity(velocity);
            self.game_object.set_position(position);
        }
        position
    }

    /// Puts the ball at `position` with the velocity `velocity`. Whether
    /// the ball is stuck does not change: a caller that starts a new round
    /// sticks the ball again with `set_stuck`.
    pub fn reset(&mut self, position: Vec2, velocity: Vec2)
        ensures
            final(self)@ == (BallState {
                object: ObjectState { position, velocity, ..old(self)@.object },
                ..old(self)@
            }),
    {
        self.game_object.set_velocity(velocity);
        self.game_object.set_position(position);
    }

    /// Sticks the ball to the paddle, or launches it.
    pub fn set_stuck(&mut self, stuck: bool)
        ensures
            final(self)@ == (BallState { stuck, ..old(self)@ }),
    {
        self.stuck = stuck;
    }

    /// Whether the ball is stuck to the paddle.
    pub fn is_stuck(&self) -> (stuck: bool)
        ensures
            stuck == self@.stuck,
    {
        self.stuck
    }

    /// The ball's radius.
    pub fn get_radius(&self) -> (radius: Fixed)
        ensures
            radius == self@.radius,
    {
        self.radius
    }

    /// The entity that the ball is.
    pub fn game_object(&self) -> (object: &GameObject)
        ensures
            object@ == self@.object,
    {
        &self.game_object
    }
}

} // verus!
