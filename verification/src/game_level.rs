//! A level: the bricks that a grid of tile codes lays out.
use vstd::prelude::*;
use crate::fixed::{fixed, quotient, quotient_bounds, Fixed, SCALE};
use crate::game_object::{is_extent, GameObject, ObjectState};
use crate::level_text::{all_numbers, numbers, parse_tiles, tiles_of, token_rows};
use crate::resource_manager::{ResourceManager, Resources};
use crate::sprite_renderer::{Sprite, SpriteRenderer};
use crate::texture::Texture;
use crate::vector::{Vec2, Vec3};

verus! {

/// Why a level could not be built.
#[derive(Clone, Copy, Debug, PartialEq, Eq, Structural)]
pub enum LevelError {
    /// A token of the level text is not a number that a `u32` can hold.
    InvalidTile,
    /// The grid has no row, or its first row has no tile.
    EmptyGrid,
    /// A row is not as long as the first one.
    RaggedGrid,
    /// The level is so small for its grid that a brick would have no
    /// extent.
    EmptyBrick,
}

/// The tile code of the solid brick, which nothing destroys.
pub const SOLID_TILE: u32 = 1;

/// The colour of the brick that a tile code stands for; `None` for a code
/// that stands for no brick, such as 0.
pub open spec fn tile_color(code: u32) -> Option<Vec3> {
    if code == 1 {
        Some(Vec3 { x: fixed(800), y: fixed(800), z: fixed(700) })
    } else if code == 2 {
        Some(Vec3 { x: fixed(200), y: fixed(600), z: fixed(1000) })
    } else if code == 3 {
        Some(Vec3 { x: fixed(0), y: fixed(700), z: fixed(0) })
    } else if code == 4 {
        Some(Vec3 { x: fixed(800), y: fixed(800), z: fixed(400) })
    } else if code == 5 {
        Some(Vec3 { x: fixed(1000), y: fixed(500), z: fixed(0) })
    } else {
        None
    }
}

/// The name under which the bricks of one kind share their texture.
pub open spec fn brick_texture_name(solid: bool) -> Seq<char> {
    if solid {
        "block_solid"@
    } else {
        "block"@
    }
}

/// The image file of the texture that the bricks of one kind share.
pub open spec fn brick_texture_path(solid: bool) -> Seq<char> {
    if solid {
        "resources/textures/block_solid.png"@
    } else {
        "resources/textures/block.png"@
    }
}

/// The extent of one brick: the level's extent divided by the number of
/// columns and of rows, rounded down to thousandths.
pub open spec fn unit_size(level_width: u32, level_height: u32, columns: int, rows: int) -> Vec2 {
    Vec2 {
        x: fixed(quotient(level_width * SCALE, columns)),
        y: fixed(quotient(level_height * SCALE, rows)),
    }
}

/// The brick that stands at a column and row of the grid, for a tile code
/// that stands for a brick.
pub open spec fn brick_at(code: u32, column: int, row: int, unit: Vec2, texture: Texture) -> ObjectState {
    ObjectState {
        position: Vec2 { x: fixed(unit.x.raw * column), y: fixed(unit.y.raw * row) },
        size: unit,
        velocity: Vec2 { x: fixed(0), y: fixed(0) },
        color: tile_color(code).unwrap(),
        rotation: fixed(0),
        solid: code == SOLID_TILE,
        texture,
        destroyed: false,
    }
}

/// Bricks laid out so far, and the registry after the requests for their
/// textures.
pub struct Layout {
    pub bricks: Seq<ObjectState>,
    pub resources: Resources,
}

/// The layout after one more tile: a code that stands for a brick requests
/// the texture of its kind and adds the brick behind the others.
pub open spec fn place_tile(built: Layout, code: u32, column: int, row: int, unit: Vec2) -> Layout {
    if tile_color(code).is_some() {
        let solid = code == SOLID_TILE;
        Layout {
            bricks: built.bricks.push(
                brick_at(
                    code,
                    column,
                    row,
                    unit,
                    built.resources.texture_handle(brick_texture_name(solid)),
                ),
            ),
            resources: built.resources.with_texture(
                brick_texture_path(solid),
                brick_texture_name(solid),
            ),
        }
    } else {
        built
    }
}

/// The layout after the first `count` tiles of one row, from the left.
pub open spec fn place_row(built: Layout, tiles: Seq<u32>, row: int, unit: Vec2, count: nat) -> Layout
    decreases count,
{
    if count == 0 {
        built
    } else {
        place_tile(
            place_row(built, tiles, row, unit, (count - 1) as nat),
            tiles[count - 1],
            count - 1,
            row,
            unit,
        )
    }
}

/// The layout after the first `count` rows of a grid, from the top.
pub open spec fn place_rows(built: Layout, grid: Seq<Seq<u32>>, unit: Vec2, count: nat) -> Layout
    decreases count,
{
    if count == 0 {
        built
    } else {
        place_row(
            place_rows(built, grid, unit, (count - 1) as nat),
            grid[count - 1],
            count - 1,
            unit,
            grid[count - 1].len(),
        )
    }
}

/// Whether every row is as long as the first.
pub open spec fn is_rectangular(grid: Seq<Seq<u32>>) -> bool {
    forall|r: int| 0 <= r < grid.len() ==> (#[trigger] grid[r]).len() == grid[0].len()
}

/// Why a grid cannot be laid out over a level of the given extent, if it
/// cannot.
pub open spec fn grid_error(grid: Seq<Seq<u32>>, level_width: u32, level_height: u32) -> Option<
    LevelError,
> {
    if grid.len() == 0 || grid[0].len() == 0 {
        Some(LevelError::EmptyGrid)
    } else if !is_rectangular(grid) {
        Some(LevelError::RaggedGrid)
    } else if !is_extent(unit_size(level_width, level_height, grid[0].len() as int, grid.len() as int)) {
        Some(LevelError::EmptyBrick)
    } else {
        None
    }
}

/// The layout of a whole grid over a level of the given extent, on top of
/// what was built before.
pub open spec fn lay_out(built: Layout, grid: Seq<Seq<u32>>, level_width: u32, level_height: u32) -> Layout {
    place_rows(
        built,
        grid,
        unit_size(level_width, level_height, grid[0].len() as int, grid.len() as int),
        grid.len(),
    )
}

/// The grid that a level text describes, if all its tokens are numbers.
pub open spec fn level_grid(source: Seq<u8>) -> Seq<Seq<u32>> {
    numbers(token_rows(source))
}

/// Why a level text cannot be loaded, if it cannot.
pub open spec fn level_error(source: Seq<u8>, level_width: u32, level_height: u32) -> Option<LevelError> {
    if !all_numbers(token_rows(source)) {
        Some(LevelError::InvalidTile)
    } else {
        grid_error(level_grid(source), level_width, level_height)
    }
}

/// The sprites of the bricks that still stand, in the bricks' order.
pub open spec fn visible_sprites(bricks: Seq<ObjectState>) -> Seq<Sprite> {
    bricks.filter(|b: ObjectState| !b.destroyed).map_values(|b: ObjectState| b.sprite())
}

/// Whether a brick that can be destroyed still stands.
pub open spec fn has_standing_brick(bricks: Seq<ObjectState>) -> bool {
    exists|i: int| 0 <= i < bricks.len() && !(#[trigger] bricks[i]).solid && !bricks[i].destroyed
}

/// A level with one brick left that can be destroyed is still being
/// played, and destroying that brick clears it.
pub proof fn last_brick_clears_the_level(bricks: Seq<ObjectState>, last: int)
    requires
        0 <= last < bricks.len(),
        !bricks[last].solid,
        !bricks[last].destroyed,
        forall|i: int| 0 <= i < bricks.len() && i != last ==> (#[trigger] bricks[i]).solid || bricks[i].destroyed,
    ensures
        has_standing_brick(bricks),
        !has_standing_brick(bricks.update(last, ObjectState { destroyed: true, ..bricks[last] })),
{
}

/// Whether every brick has the texture that the registry holds under the
/// name of the brick's kind.
pub open spec fn shares_textures(built: Layout) -> bool {
    forall|i: int|
        0 <= i < built.bricks.len() ==> built.resources.textures.contains_key(
            brick_texture_name((#[trigger] built.bricks[i]).solid),
        ) && built.bricks[i].texture == built.resources.textures[brick_texture_name(
            built.bricks[i].solid,
        )]
}

/// Placing a tile keeps the bricks' textures shared.
proof fn place_tile_shares_textures(built: Layout, code: u32, column: int, row: int, unit: Vec2)
    requires
        shares_textures(built),
    ensures
        shares_textures(place_tile(built, code, column, row, unit)),
{
    let next = place_tile(built, code, column, row, unit);
    assert forall|i: int| 0 <= i < next.bricks.len() implies next.resources.textures.contains_key(
        brick_texture_name((#[trigger] next.bricks[i]).solid),
    ) && next.bricks[i].texture == next.resources.textures[brick_texture_name(
        next.bricks[i].solid,
    )] by {
        if i < built.bricks.len() {
            assert(next.bricks[i] == built.bricks[i]);
        }
    }
}

/// Placing tiles of a row keeps the bricks' textures shared.
proof fn place_row_shares_textures(built: Layout, tiles: Seq<u32>, row: int, unit: Vec2, count: nat)
    requires
        shares_textures(built),
    ensures
        shares_textures(place_row(built, tiles, row, unit, count)),
    decreases count,
{
    if count > 0 {
        place_row_shares_textures(built, tiles, row, unit, (count - 1) as nat);
        place_tile_shares_textures(
            place_row(built, tiles, row, unit, (count - 1) as nat),
            tiles[count - 1],
            count - 1,
            row,
            unit,
        );
    }
}

/// Placing rows keeps the bricks' textures shared.
proof fn place_rows_shares_textures(built: Layout, grid: Seq<Seq<u32>>, unit: Vec2, count: nat)
    requires
        shares_textures(built),
    ensures
        shares_textures(place_rows(built, grid, unit, count)),
    decreases count,
{
    if count > 0 {
        place_rows_shares_textures(built, grid, unit, (count - 1) as nat);
        place_row_shares_textures(
            place_rows(built, grid, unit, (count - 1) as nat),
            grid[count - 1],
            count - 1,
            unit,
            grid[count - 1].len(),
        );
    }
}

/// All solid bricks of a level share one texture of the registry, and all
/// bricks that can be destroyed share another.
pub proof fn bricks_share_textures(
    resources: Resources,
    grid: Seq<Seq<u32>>,
    level_width: u32,
    level_height: u32,
)
    ensures
        shares_textures(
            lay_out(Layout { bricks: Seq::empty(), resources }, grid, level_width, level_height),
        ),
{
    place_rows_shares_textures(
        Layout { bricks: Seq::empty(), resources },
        grid,
        unit_size(level_width, level_height, grid[0].len() as int, grid.len() as int),
        grid.len(),
    );
}

/// The colour of the brick that a tile code stands for.
pub fn color_of_tile(code: u32) -> (color: Option<Vec3>)
    ensures
        color == tile_color(code),
{
    if code == 1 {
        Some(Vec3::new(Fixed::from_raw(800), Fixed::from_raw(800), Fixed::from_raw(700)))
    } else if code == 2 {
        Some(Vec3::new(Fixed::from_raw(200), Fixed::from_raw(600), Fixed::from_raw(1000)))
    } else if code == 3 {
        Some(Vec3::new(Fixed::from_raw(0), Fixed::from_raw(700), Fixed::from_raw(0)))
    } else if code == 4 {
        Some(Vec3::new(Fixed::from_raw(800), Fixed::from_raw(800), Fixed::from_raw(400)))
    } else if code == 5 {
        Some(Vec3::new(Fixed::from_raw(1000), Fixed::from_raw(500), Fixed::from_raw(0)))
    } else {
        None
    }
}

/// Checks that a grid can be laid out: that it has a tile, that its rows
/// are equally long, and that a brick has an extent.
pub fn check_grid(tile_data: &Vec<Vec<u32>>, level_width: u32, level_height: u32) -> (r: Result<
    (),
    LevelError,
>)
    ensures
        r == match grid_error(tiles_of(tile_data@), level_width, level_height) {
            Some(e) => Err::<(), LevelError>(e),
            None => Ok::<(), LevelError>(()),
        },
{
    let ghost grid = tiles_of(tile_data@);
    let height: usize = tile_data.len();
    if height == 0 {
        return Err(LevelError::EmptyGrid);
    }
    let width: usize = tile_data[0].len();
    if width == 0 {
        return Err(LevelError::EmptyGrid);
    }
    let mut y: usize = 1;
    while y < height
        invariant
            1 <= y <= height,
            height == tile_data@.len(),
            width == tile_data@[0]@.len(),
            width > 0,
            grid == tiles_of(tile_data@),
            forall|r: int| 0 <= r < y ==> (#[trigger] grid[r]).len() == width,
        decreases height - y,
    {
        if tile_data[y].len() != width {
            assert(grid[y as int].len() != grid[0].len());
            assert(!is_rectangular(grid));
            return Err(LevelError::RaggedGrid);
        }
        y = y + 1;
    }
    let unit_width: Fixed = Fixed::from_u32(level_width).per(width);
    let unit_height: Fixed = Fixed::from_u32(level_height).per(height);
    if unit_width.raw <= 0 || unit_height.raw <= 0 {
        return Err(LevelError::EmptyBrick);
    }
    Ok(())
}

/// The bricks of one level, in the order in which they are drawn: row by
/// row from the top, each row from the left.
pub struct GameLevel {
    bricks: Vec<GameObject>,
}

impl View for GameLevel {
    type V = Seq<ObjectState>;

    closed spec fn view(&self) -> Seq<ObjectState> {
        Seq::new(self.bricks@.len(), |i: int| self.bricks@[i]@)
    }
}

impl GameLevel {
    /// A level without bricks.
    pub fn new() -> (level: GameLevel)
        ensures
            level@ == Seq::<ObjectState>::empty(),
    {
        let level = GameLevel { bricks: Vec::new() };
        assert(level@ =~= Seq::empty());
        level
    }

    /// Replaces the level's bricks by those that a level text describes,
    /// laid out over a rectangle of the given extent. A text that cannot be
    /// loaded leaves the level without bricks and the registry as it was.
    pub fn load(
        &mut self,
        resources: &mut ResourceManager,
        source: &[u8],
        level_width: u32,
        level_height: u32,
    ) -> (r: Result<(), LevelError>)
        requires
            old(resources).wf(),
        ensures
            final(resources).wf(),
            match level_error(source@, level_width, level_height) {
                Some(e) => {
                    &&& r == Err::<(), LevelError>(e)
                    &&& final(self)@ == Seq::<ObjectState>::empty()
                    &&& final(resources)@ == old(resources)@
                },
                None => {
                    let built = lay_out(
                        Layout { bricks: Seq::empty(), resources: old(resources)@ },
                        level_grid(source@),
                        level_width,
                        level_height,
                    );
                    &&& r == Ok::<(), LevelError>(())
                    &&& final(self)@ == built.bricks
                    &&& final(resources)@ == built.resources
                },
            },
    {
        self.bricks.clear();
        assert(self@ =~= Seq::empty());
        match parse_tiles(source) {
            Ok(tile_data) => self.create_bricks(resources, tile_data, level_width, level_height),
            Err(e) => Err(e),
        }
    }

    /// Adds the bricks of a grid of tile codes behind the level's bricks.
    /// The code 1 stands for a solid brick, the codes 2 to 5 for bricks of
    /// four colours that can be destroyed, and any other code for no brick.
    /// A grid that cannot be laid out changes nothing.
    pub fn create_bricks(
        &mut self,
        resources: &mut ResourceManager,
        tile_data: Vec<Vec<u32>>,
        level_width: u32,
        level_height: u32,
    ) -> (r: Result<(), LevelError>)
        requires
            old(resources).wf(),
        ensures
            final(resources).wf(),
            match grid_error(tiles_of(tile_data@), level_width, level_height) {
                Some(e) => {
                    &&& r == Err::<(), LevelError>(e)
                    &&& final(self)@ == old(self)@
                    &&& final(resources)@ == old(resources)@
                },
                None => {
                    let built = lay_out(
                        Layout { bricks: old(self)@, resources: old(resources)@ },
                        tiles_of(tile_data@),
                        level_width,
                        level_height,
                    );
                    &&& r == Ok::<(), LevelError>(())
                    &&& final(self)@ == built.bricks
                    &&& final(resources)@ == built.resources
                },
            },
    {
        match check_grid(&tile_data, level_width, level_height) {
            Err(e) => {
                return Err(e);
            },
            Ok(_) => {},
        }
        let ghost grid = tiles_of(tile_data@);
        let ghost start = Layout { bricks: old(self)@, resources: old(resources)@ };
        let height: usize = tile_data.len();
        let width: usize = tile_data[0].len();
        assert(grid[0].len() == width);

        let unit_width: Fixed = Fixed::from_u32(level_width).per(width);
        let unit_height: Fixed = Fixed::from_u32(level_height).per(height);
        let size: Vec2 = Vec2::new(unit_width, unit_height);
        assert(size == unit_size(level_width, level_height, width as int, height as int));
        proof {
            quotient_bounds(level_width * SCALE, width as int);
            quotient_bounds(level_height * SCALE, height as int);
        }

        let mut y: usize = 0;
        while y < height
            invariant
                y <= height,
                height == tile_data@.len(),
                grid == tiles_of(tile_data@),
                is_rectangular(grid),
                grid[0].len() == width,
                size == (Vec2 { x: unit_width, y: unit_height }),
                is_extent(size),
                unit_width.raw * width <= level_width * SCALE,
                unit_height.raw * height <= level_height * SCALE,
                resources.wf(),
                self@ == place_rows(start, grid, size, y as nat).bricks,
                resources@ == place_rows(start, grid, size, y as nat).resources,
            decreases height - y,
        {
            let ghost above = place_rows(start, grid, size, y as nat);
            assert(grid[y as int].len() == width);
            let mut x: usize = 0;
            while x < width
                invariant
                    x <= width,
                    y < height,
                    height == tile_data@.len(),
                    grid == tiles_of(tile_data@),
                    grid[y as int].len() == width,
                    size == (Vec2 { x: unit_width, y: unit_height }),
                    is_extent(size),
                    unit_width.raw * width <= level_width * SCALE,
                    unit_height.raw * height <= level_height * SCALE,
                    resources.wf(),
                    self@ == place_row(above, grid[y as int], y as int, size, x as nat).bricks,
                    resources@ == place_row(above, grid[y as int], y as int, size, x as nat).resources,
                decreases width - x,
            {
                let ghost before = place_row(above, grid[y as int], y as int, size, x as nat);
                let code: u32 = tile_data[y][x];
                assert(code == grid[y as int][x as int]);
                match color_of_tile(code) {
                    Some(color) => {
                        let solid: bool = code == SOLID_TILE;
                        proof {
                            assert(0 <= unit_width.raw * x <= unit_width.raw * width)
                                by (nonlinear_arith)
                                requires
                                    unit_width.raw > 0,
                                    0 <= x < width,
                            ;
                            assert(0 <= unit_height.raw * y <= unit_height.raw * height)
                                by (nonlinear_arith)
                                requires
                                    unit_height.raw > 0,
                                    0 <= y < height,
                            ;
                        }
                        let position: Vec2 = Vec2::new(unit_width.times(x), unit_height.times(y));
                        let texture: Texture = if solid {
                            resources.load_texture(
                                "resources/textures/block_solid.png",
                                "block_solid".to_owned(),
                            )
                        } else {
                            resources.load_texture("resources/textures/block.png", "block".to_owned())
                        };
                        let brick: GameObject = GameObject::new(
                            position,
                            size,
                            Vec2::new(Fixed::zero(), Fixed::zero()),
                            color,
                            Fixed::zero(),
                            texture,
                            solid,
                        );
                        assert(brick@ == brick_at(code, x as int, y as int, size, texture));
                        self.bricks.push(brick);
                        assert(self@ =~= before.bricks.push(brick@));
                    },
                    None => {},
                }
                x = x + 1;
            }
            y = y + 1;
        }
        Ok(())
    }

    /// Queues the sprites of the bricks that still stand, in the bricks'
    /// order. Destroyed bricks are left out.
    pub fn draw(&self, renderer: &mut SpriteRenderer)
        ensures
            final(renderer)@ == old(renderer)@ + visible_sprites(self@),
            final(renderer).shader() == old(renderer).shader(),
    {
        let ghost standing = |b: ObjectState| !b.destroyed;
        let ghost sprite_of = |b: ObjectState| b.sprite();
        let mut i: usize = 0;
        proof {
            assert(self@.take(0) =~= Seq::empty());
            assert(visible_sprites(self@.take(0)) =~= Seq::empty());
            assert(renderer@ + Seq::<Sprite>::empty() =~= renderer@);
        }
        while i < self.bricks.len()
            invariant
                i <= self.bricks@.len(),
                renderer@ == old(renderer)@ + visible_sprites(self@.take(i as int)),
                renderer.shader() == old(renderer).shader(),
            decreases self.bricks@.len() - i,
        {
            let tile: &GameObject = &self.bricks[i];
            proof {
                let seen = self@.take(i as int);
                assert(self@.take(i + 1) =~= seen.push(tile@));
                seen.lemma_filter_push(tile@, |b: ObjectState| !b.destroyed);
                if !tile@.destroyed {
                    assert(visible_sprites(seen.push(tile@)) =~= visible_sprites(seen).push(
                        tile@.sprite(),
                    ));
                    assert(old(renderer)@ + visible_sprites(seen).push(tile@.sprite()) =~= (old(
                        renderer,
                    )@ + visible_sprites(seen)).push(tile@.sprite()));
                }
            }
            if !tile.is_destroyed() {
                tile.draw(renderer);
            }
            i = i + 1;
        }
        assert(self@.take(i as int) =~= self@);
    }

    /// Whether a brick that can be destroyed still stands: `true` while
    /// the level is still being played, `false` once it is cleared.
    pub fn is_complete(&self) -> (standing: bool)
        ensures
            standing == has_standing_brick(self@),
    {
        let mut i: usize = 0;
        while i < self.bricks.len()
            invariant
                i <= self.bricks@.len(),
                forall|k: int| 0 <= k < i ==> (#[trigger] self@[k]).solid || self@[k].destroyed,
            decreases self.bricks@.len() - i,
        {
            let tile: &GameObject = &self.bricks[i];
            if !tile.is_solid() && !tile.is_destroyed() {
                assert(!self@[i as int].solid && !self@[i as int].destroyed);
                return true;
            }
            i = i + 1;
        }
        false
    }

    /// The number of bricks, destroyed ones included.
    pub fn brick_count(&self) -> (count: usize)
        ensures
            count == self@.len(),
    {
        self.bricks.len()
    }

    /// The brick at a place in the drawing order.
    pub fn brick(&self, index: usize) -> (brick: &GameObject)
        requires
            index < self@.len(),
        ensures
            brick@ == self@[index as int],
    {
        &self.bricks[index]
    }

    /// Destroys the brick at a place in the drawing order.
    pub fn destroy_brick(&mut self, index: usize)
        requires
            index < old(self)@.len(),
        ensures
            final(self)@ == old(self)@.update(
                index as int,
                ObjectState { destroyed: true, ..old(self)@[index as int] },
            ),
    {
        self.bricks[index].set_destroyed();
        assert(self@ =~= old(self)@.update(
            index as int,
            ObjectState { destroyed: true, ..old(self)@[index as int] },
        ));
    }
}

} // verus!
