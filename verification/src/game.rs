//! The game: its state tag, the paddle, the levels and the frame it draws.
use vstd::prelude::*;
use crate::fixed::{clamp, fixed, product, quotient, quotient_bounds, Fixed, SCALE};
use crate::game_level::{
    check_grid, grid_error, lay_out, level_error, level_grid, visible_sprites, GameLevel, Layout,
    LevelError,
};
use crate::game_object::{GameObject, ObjectState};
use crate::level_text::{parse_tiles, tiles_of};
use crate::resource_manager::{ResourceManager, Resources};
use crate::shader::Shader;
use crate::sprite_renderer::{Sprite, SpriteRenderer};
use crate::texture::Texture;
use crate::vector::{Vec2, Vec3};

verus! {

/// What the game is doing.
#[derive(Clone, Copy, Debug, PartialEq, Eq, Structural)]
pub enum GameState {
    GameActive,
    GameMenu,
    GameWin,
}

/// A key, as far as the game tells keys apart.
#[derive(Clone, Copy, Debug, PartialEq, Eq, Structural)]
pub enum Key {
    Left,
    Right,
    A,
    D,
    Other,
}

/// What a started game holds besides its state tag, as plain values.
pub struct SceneState {
    pub shader: Shader,
    pub sprites: Seq<Sprite>,
    pub face_texture: Texture,
    pub background_texture: Texture,
    pub player: ObjectState,
    pub levels: Seq<Seq<ObjectState>>,
    pub level: nat,
}

/// What a game holds, as plain values. `scene` is `None` until the game is
/// started.
pub struct GameView {
    pub resources: Resources,
    pub state: GameState,
    pub width: u32,
    pub height: u32,
    pub scene: Option<SceneState>,
}

/// The colour that leaves a texture as it is.
pub open spec fn white() -> Vec3 {
    Vec3 { x: fixed(1000), y: fixed(1000), z: fixed(1000) }
}

/// The paddle of a new game: 100 wide and 20 high, centred at the bottom
/// of the window, with a speed of 500 along the x axis.
pub open spec fn initial_player(width: u32, height: u32, texture: Texture) -> ObjectState {
    ObjectState {
        position: Vec2 {
            x: fixed(quotient(width * SCALE - 100 * SCALE, 2)),
            y: fixed(height * SCALE - 20 * SCALE),
        },
        size: Vec2 { x: fixed(100 * SCALE), y: fixed(20 * SCALE) },
        velocity: Vec2 { x: fixed(500 * SCALE), y: fixed(0) },
        color: white(),
        rotation: fixed(0),
        solid: false,
        texture,
        destroyed: false,
    }
}

/// The registry after the requests that starting a game makes before it
/// builds its levels: the sprite shader, then the textures of the
/// background, the face and the paddle.
pub open spec fn with_game_resources(r: Resources) -> Resources {
    r.with_shader("src/shaders/sprite.vs"@, "src/shaders/sprite.fs"@, "sprite"@).with_texture(
        "resources/textures/background.jpg"@,
        "background"@,
    ).with_texture("resources/textures/awesomeface.png"@, "face"@).with_texture(
        "resources/textures/paddle.png"@,
        "paddle"@,
    )
}

/// One level of a new game, built on the registry `r`: the grid laid out
/// over the upper half of the window.
pub open spec fn new_level(r: Resources, grid: Seq<Seq<u32>>, width: u32, height: u32) -> Layout {
    lay_out(Layout { bricks: Seq::empty(), resources: r }, grid, width, height / 2)
}

/// The sprites of one frame, in drawing order: the background over the
/// whole window, the face, the bricks of the current level that still
/// stand, and the paddle.
pub open spec fn frame(scene: SceneState, width: u32, height: u32) -> Seq<Sprite> {
    seq![
        Sprite {
            texture: scene.background_texture,
            position: Vec2 { x: fixed(0), y: fixed(0) },
            size: Vec2 { x: fixed(width * SCALE), y: fixed(height * SCALE) },
            rotate: fixed(0),
            color: white(),
        },
        Sprite {
            texture: scene.face_texture,
            position: Vec2 { x: fixed(200 * SCALE), y: fixed(200 * SCALE) },
            size: Vec2 { x: fixed(300 * SCALE), y: fixed(400 * SCALE) },
            rotate: fixed(45 * SCALE),
            color: Vec3 { x: fixed(0), y: fixed(1000), z: fixed(0) },
        },
    ] + visible_sprites(scene.levels[scene.level as int]).push(scene.player.sprite())
}

/// Where the paddle's left edge is after a key was held for the time `dt`:
/// moved by its speed times `dt`, to the left for `Left` and `A`, to the
/// right for `Right` and `D`, and kept where half of the paddle is still
/// inside the window on either side. Other keys leave it where it is.
pub open spec fn paddle_x(player: ObjectState, width: u32, dt: Fixed, key: Key) -> int {
    let step = product(player.velocity.x, dt);
    let half = quotient(player.size.x.raw as int, 2);
    match key {
        Key::Left | Key::A => clamp(player.position.x.raw - step, -half, width * SCALE - half),
        Key::Right | Key::D => clamp(player.position.x.raw + step, -half, width * SCALE - half),
        Key::Other => player.position.x.raw as int,
    }
}

/// Whatever the time step, a key that moves the paddle leaves at least
/// half of the paddle inside the window.
pub proof fn paddle_stays_in_range(player: ObjectState, width: u32, dt: Fixed, key: Key)
    requires
        player.size.x.raw > 0,
        key != Key::Other,
    ensures
        -quotient(player.size.x.raw as int, 2) <= paddle_x(player, width, dt, key) <= width * SCALE
            - quotient(player.size.x.raw as int, 2),
{
    quotient_bounds(player.size.x.raw as int, 2);
}

impl GameView {
    /// The registry is well formed, and the current level is one of the
    /// levels.
    pub open spec fn wf(self) -> bool {
        &&& self.resources.wf()
        &&& self.scene matches Some(scene) ==> scene.level < scene.levels.len()
    }

    /// The game after a key was held for the time `dt`. Only a started,
    /// active game reacts, and only its paddle moves.
    pub open spec fn after_input(self, dt: Fixed, key: Key) -> GameView {
        match self.scene {
            Some(scene) if self.state == GameState::GameActive => GameView {
                scene: Some(
                    SceneState {
                        player: ObjectState {
                            position: Vec2 {
                                x: fixed(paddle_x(scene.player, self.width, dt, key)),
                                y: scene.player.position.y,
                            },
                            ..scene.player
                        },
                        ..scene
                    },
                ),
                ..self
            },
            _ => self,
        }
    }

    /// The game after a frame was drawn: the sprite queue holds exactly
    /// that frame.
    pub open spec fn after_render(self) -> GameView {
        match self.scene {
            Some(scene) => GameView {
                scene: Some(SceneState { sprites: frame(scene, self.width, self.height), ..scene }),
                ..self
            },
            None => self,
        }
    }

    /// Why a game cannot be started from four level texts, if it cannot:
    /// the error of the first text that cannot be loaded.
    pub open spec fn start_error(self, one: Seq<u8>, two: Seq<u8>, three: Seq<u8>, four: Seq<u8>) -> Option<
        LevelError,
    > {
        let half = (self.height / 2) as u32;
        if level_error(one, self.width, half).is_some() {
            level_error(one, self.width, half)
        } else if level_error(two, self.width, half).is_some() {
            level_error(two, self.width, half)
        } else if level_error(three, self.width, half).is_some() {
            level_error(three, self.width, half)
        } else {
            level_error(four, self.width, half)
        }
    }

    /// The game started from four level texts that can be loaded: the
    /// resources requested in order, the paddle in its first place, the
    /// four levels built, the first of them current, nothing queued.
    pub open spec fn started(self, one: Seq<u8>, two: Seq<u8>, three: Seq<u8>, four: Seq<u8>) -> GameView {
        let base = with_game_resources(self.resources);
        let first = new_level(base, level_grid(one), self.width, self.height);
        let second = new_level(first.resources, level_grid(two), self.width, self.height);
        let third = new_level(second.resources, level_grid(three), self.width, self.height);
        let fourth = new_level(third.resources, level_grid(four), self.width, self.height);
        GameView {
            resources: fourth.resources,
            scene: Some(
                SceneState {
                    shader: self.resources.shader_handle("sprite"@),
                    sprites: Seq::empty(),
                    face_texture: base.textures["face"@],
                    background_texture: base.textures["background"@],
                    player: initial_player(self.width, self.height, base.textures["paddle"@]),
                    levels: seq![first.bricks, second.bricks, third.bricks, fourth.bricks],
                    level: 0,
                },
            ),
            ..self
        }
    }
}

struct Scene {
    sprite_renderer: SpriteRenderer,
    face_texture: Texture,
    background_texture: Texture,
    player: GameObject,
    game_levels: Vec<GameLevel>,
    level: usize,
}

impl View for Scene {
    type V = SceneState;

    closed spec fn view(&self) -> SceneState {
        SceneState {
            shader: self.sprite_renderer.shader(),
            sprites: self.sprite_renderer@,
            face_texture: self.face_texture,
            background_texture: self.background_texture,
            player: self.player@,
            levels: Seq::new(self.game_levels@.len(), |i: int| self.game_levels@[i]@),
            level: self.level as nat,
        }
    }
}

/// The game.
pub struct Game {
    resource_manager: ResourceManager,
    game_state: GameState,
    width: u32,
    height: u32,
    scene: Option<Scene>,
}

impl View for Game {
    type V = GameView;

    closed spec fn view(&self) -> GameView {
        GameView {
            resources: self.resource_manager@,
            state: self.game_state,
            width: self.width,
            height: self.height,
            scene: match self.scene {
                Some(scene) => Some(scene@),
                None => None,
            },
        }
    }
}

impl Game {
    /// The registry is well formed, and the current level is one of the
    /// levels.
    pub open spec fn wf(&self) -> bool {
        self@.wf()
    }

    /// An active game for a window of the given extent, not yet started.
    pub fn new(resource_manager: ResourceManager, width: u32, height: u32) -> (game: Game)
        requires
            resource_manager.wf(),
        ensures
            game.wf(),
            game@ == (GameView {
                resources: resource_manager@,
                state: GameState::GameActive,
                width,
                height,
                scene: None,
            }),
    {
        Game { resource_manager, game_state: GameState::GameActive, width, height, scene: None }
    }

    /// Starts the game from the texts of its four levels. Where one of
    /// them cannot be loaded the game stays as it was.
    pub fn init(&mut self, one: &[u8], two: &[u8], three: &[u8], four: &[u8]) -> (r: Result<
        (),
        LevelError,
    >)
        requires
            old(self).wf(),
        ensures
            final(self).wf(),
            match old(self)@.start_error(one@, two@, three@, four@) {
                Some(e) => r == Err::<(), LevelError>(e) && final(self)@ == old(self)@,
                None => r == Ok::<(), LevelError>(()) && final(self)@ == old(self)@.started(
                    one@,
                    two@,
                    three@,
                    four@,
                ),
            },
    {
        let level_height: u32 = self.height / 2;
        let first_tiles = match Self::read_level(one, self.width, level_height) {
            Ok(tiles) => tiles,
            Err(e) => {
                return Err(e);
            },
        };
        let second_tiles = match Self::read_level(two, self.width, level_height) {
            Ok(tiles) => tiles,
            Err(e) => {
                return Err(e);
            },
        };
        let third_tiles = match Self::read_level(three, self.width, level_height) {
            Ok(tiles) => tiles,
            Err(e) => {
                return Err(e);
            },
        };
        let fourth_tiles = match Self::read_level(four, self.width, level_height) {
            Ok(tiles) => tiles,
            Err(e) => {
                return Err(e);
            },
        };

        let sprite_shader: Shader = self.resource_manager.load_shader(
            "src/shaders/sprite.vs",
            "src/shaders/sprite.fs",
            "sprite".to_owned(),
        );
        let sprite_renderer = SpriteRenderer::new(sprite_shader);

        let background_texture: Texture = self.resource_manager.load_texture(
            "resources/textures/background.jpg",
            "background".to_owned(),
        );
        let face_texture: Texture = self.resource_manager.load_texture(
            "resources/textures/awesomeface.png",
            "face".to_owned(),
        );
        let paddle_texture: Texture = self.resource_manager.load_texture(
            "resources/textures/paddle.png",
            "paddle".to_owned(),
        );
        proof {
            reveal_strlit("background");
            reveal_strlit("face");
            reveal_strlit("paddle");
            assert("background"@ != "face"@) by {
                assert("background"@.len() != "face"@.len());
            }
            assert("background"@ != "paddle"@) by {
                assert("background"@.len() != "paddle"@.len());
            }
            assert("face"@ != "paddle"@) by {
                assert("face"@.len() != "paddle"@.len());
            }
        }

        let player_size: Vec2 = Vec2::new(Fixed::from_int(100), Fixed::from_int(20));
        let player: GameObject = GameObject::new(
            Vec2::new(
                Fixed::from_u32(self.width).minus(player_size.x).per(2),
                Fixed::from_u32(self.height).minus(player_size.y),
            ),
            player_size,
            Vec2::new(Fixed::from_int(500), Fixed::zero()),
            Vec3::new(Fixed::from_int(1), Fixed::from_int(1), Fixed::from_int(1)),
            Fixed::zero(),
            paddle_texture,
            false,
        );

        let mut game_levels: Vec<GameLevel> = Vec::new();

        let mut game_level = GameLevel::new();
        let _ = game_level.create_bricks(
            &mut self.resource_manager,
            first_tiles,
            self.width,
            level_height,
        );
        game_levels.push(game_level);

        let mut game_level = GameLevel::new();
        let _ = game_level.create_bricks(
            &mut self.resource_manager,
            second_tiles,
            self.width,
            level_height,
        );
        game_levels.push(game_level);

        let mut game_level = GameLevel::new();
        let _ = game_level.create_bricks(
            &mut self.resource_manager,
            third_tiles,
            self.width,
            level_height,
        );
        game_levels.push(game_level);

        let mut game_level = GameLevel::new();
        let _ = game_level.create_bricks(
            &mut self.resource_manager,
            fourth_tiles,
            self.width,
            level_height,
        );
        game_levels.push(game_level);

        let objs = Scene {
            sprite_renderer,
            face_texture,
            background_texture,
            player,
            game_levels,
            level: 0,
        };
        proof {
            let want = old(self)@.started(one@, two@, three@, four@).scene.unwrap();
            assert(objs@.levels =~= want.levels);
        }
        self.scene = Some(objs);
        Ok(())
    }

    /// Reads one level text as a grid that can be laid out over a level of
    /// the given extent.
    fn read_level(source: &[u8], level_width: u32, level_height: u32) -> (r: Result<
        Vec<Vec<u32>>,
        LevelError,
    >)
        ensures
            match r {
                Ok(tiles) => level_error(source@, level_width, level_height).is_none() && tiles_of(
                    tiles@,
                ) == level_grid(source@),
                Err(e) => level_error(source@, level_width, level_height) == Some(e),
            },
    {
        match parse_tiles(source) {
            Ok(tiles) => match check_grid(&tiles, level_width, level_height) {
                Ok(_) => Ok(tiles),
                Err(e) => Err(e),
            },
            Err(e) => Err(e),
        }
    }

    /// Moves the paddle for a key that was held for the time `dt`. A game
    /// that is not active, or not started, ignores keys.
    pub fn process_input(&mut self, dt: Fixed, key: Key)
        requires
            old(self).wf(),
        ensures
            final(self).wf(),
            final(self)@ == old(self)@.after_input(dt, key),
    {
        if self.game_state != GameState::GameActive {
            return ;
        }
        let width: u32 = self.width;
        match &mut self.scene {
            Some(objs) => {
                let position: Vec2 = objs.player.get_position();
                let size: Vec2 = objs.player.get_size();
                let step: i128 = objs.player.get_velocity().x.wide_product(dt);
                proof {
                    quotient_bounds(size.x.raw as int, 2);
                }
                let half: i128 = (size.x.raw / 2) as i128;
                let low: i128 = -half;
                let high: i128 = (width as i128) * (SCALE as i128) - half;
                let target: i128 = match key {
                    Key::Left | Key::A => (position.x.raw as i128) - step,
                    Key::Right | Key::D => (position.x.raw as i128) + step,
                    Key::Other => position.x.raw as i128,
                };
                let x: i128 = match key {
                    Key::Other => target,
                    _ => if target < low {
                        low
                    } else if target > high {
                        high
                    } else {
                        target
                    },
                };
                objs.player.set_position(Vec2::new(Fixed::from_raw(x as i64), position.y));
            },
            None => {},
        }
    }

    /// Advances the game by the time `dt`. Nothing moves by itself yet:
    /// the game stays as it is.
    pub fn update(&mut self, _dt: Fixed)
        ensures
            final(self)@ == old(self)@,
    {
    }

    /// Draws one frame: replaces what the sprite queue holds by the
    /// sprites of the background, the face, the current level and the
    /// paddle, in this order. A game that is not started draws nothing.
    pub fn render(&mut self, _dt: Fixed)
        requires
            old(self).wf(),
        ensures
            final(self).wf(),
            final(self)@ == old(self)@.after_render(),
    {
        let width: u32 = self.width;
        let height: u32 = self.height;
        match &mut self.scene {
            Some(objs) => {
                let ghost scene = objs@;
                objs.sprite_renderer.clear();
                objs.sprite_renderer.draw(
                    &objs.background_texture,
                    Vec2::new(Fixed::zero(), Fixed::zero()),
                    Vec2::new(Fixed::from_u32(width), Fixed::from_u32(height)),
                    Fixed::zero(),
                    Vec3::new(Fixed::from_int(1), Fixed::from_int(1), Fixed::from_int(1)),
                );
                objs.sprite_renderer.draw(
                    &objs.face_texture,
                    Vec2::new(Fixed::from_int(200), Fixed::from_int(200)),
                    Vec2::new(Fixed::from_int(300), Fixed::from_int(400)),
                    Fixed::from_int(45),
                    Vec3::new(Fixed::zero(), Fixed::from_int(1), Fixed::zero()),
                );
                objs.game_levels[objs.level].draw(&mut objs.sprite_renderer);
                objs.player.draw(&mut objs.sprite_renderer);
                proof {
                    assert(objs@.sprites =~= frame(scene, width, height));
                    assert(objs@.levels =~= scene.levels);
                }
            },
            None => {},
        }
    }

    /// Sets the state tag.
    pub fn set_state(&mut self, state: GameState)
        ensures
            final(self)@ == (GameView { state, ..old(self)@ }),
    {
        self.game_state = state;
    }

    /// The state tag.
    pub fn state(&self) -> (state: GameState)
        ensures
            state == self@.state,
    {
        self.game_state
    }

    /// The registry, with the loads that the game has asked for.
    pub fn resources(&self) -> (resources: &ResourceManager)
        ensures
            resources@ == self@.resources,
    {
        &self.resource_manager
    }

    /// The sprites of the frame that was drawn last, in drawing order;
    /// nothing for a game that is not started.
    pub fn sprites(&self) -> (sprites: Vec<Sprite>)
        ensures
            sprites@ == match self@.scene {
                Some(scene) => scene.sprites,
                None => Seq::<Sprite>::empty(),
            },
    {
        match &self.scene {
            Some(objs) => objs.sprite_renderer.sprites().clone(),
            None => Vec::new(),
        }
    }

    /// The paddle, once the game is started.
    pub fn player(&self) -> (player: Option<&GameObject>)
        ensures
            match player {
                Some(object) => self@.scene.is_some() && object@ == self@.scene.unwrap().player,
                None => self@.scene.is_none(),
            },
    {
        match &self.scene {
            Some(objs) => Some(&objs.player),
            None => None,
        }
    }
}

} // verus!
