//! A small world to look at: a lawn with a pond, some rock, and trees.
//!
//! The ground is laid out on a grid of cells, one unit wide and deep. Every
//! block of it stands on one cell, between two heights. A tree stands where
//! its planter puts it.
use vstd::prelude::*;
use crate::cube::NEG_ONE_BITS;
use crate::cube_tex::TexturedCube;
use crate::material::Material;
use crate::scalar::Scalar;
use crate::scalar::ONE_BITS;
use crate::scene::Object;
use crate::scene::Scene;
use crate::texture::Texture;
use crate::vec3::Vec3;

verus! {

/// The lawn reaches this many cells from the middle cell on either axis.
pub const LAWN_REACH: i32 = 2;

/// The ground can be laid on a cell that is less than this far from the
/// middle cell on either axis: the corners of farther cells may have no
/// pattern of their own.
pub const CELL_LIMIT: i32 = 0xff_fff0;

/// The pattern of 0.06, the height of the turf.
pub const TURF_TOP_BITS: u32 = 0x3d75_c28f;

/// The pattern of 0.06 + 0.5, the height of the rock.
pub const ROCK_TOP_BITS: u32 = 0x3f0f_5c29;

/// The pattern of -0.2, the depth of the pond.
pub const POND_BED_BITS: u32 = 0xbe4c_cccd;

/// The pattern of 0.75, the opacity of water.
pub const WATER_ALPHA_BITS: u32 = 0x3f40_0000;

/// The pattern of 2, the height of a trunk.
pub const TRUNK_TOP_BITS: u32 = 0x4000_0000;

/// The patterns of 2 + 0.6, of that and 0.6, and of that and 0.6 again: the
/// heights of the three layers of leaves on a trunk.
pub const CROWN_1_BITS: u32 = 0x4026_6666;

pub const CROWN_2_BITS: u32 = 0x404c_cccc;

pub const CROWN_3_BITS: u32 = 0x4073_3332;

/// The pattern of 1.6, the height of a short trunk.
pub const SHORT_TRUNK_TOP_BITS: u32 = 0x3fcc_cccd;

/// The patterns of 1.6 + 0.6, and of that and 0.6: the heights of the two
/// layers of leaves on a short trunk.
pub const SHORT_CROWN_1_BITS: u32 = 0x400c_cccd;

pub const SHORT_CROWN_2_BITS: u32 = 0x4033_3334;

/// A white surface that only scatters light, of the given opacity. Painted
/// with an image it shows the image as it is.
pub open spec fn plain_spec(alpha: u32) -> Material {
    Material {
        diffuse: Vec3::of_bits(ONE_BITS, ONE_BITS, ONE_BITS),
        albedo: [Scalar { bits: ONE_BITS }, Scalar { bits: 0 }, Scalar { bits: 0 }, Scalar { bits: 0 }],
        specular: Scalar { bits: 0 },
        refractive_index: Scalar { bits: 0 },
        alpha: Scalar { bits: alpha },
    }
}

/// How far a block reaches along one axis: from `lo` to `hi`.
#[derive(Clone, Copy, Debug, PartialEq, Eq, Structural)]
pub struct Extent {
    pub lo: Scalar,
    pub hi: Scalar,
}

/// Where a tree stands.
///
/// `x` and `z` are the extents of the cell of the trunk. `around_x` holds the
/// extents of the three columns of cells that the leaves may fill, the one
/// before the trunk, the one of the trunk and the one after it, and
/// `around_z` the same for the three rows. A tree may stand anywhere: the
/// extents are for its planter to work out.
#[derive(Clone, Copy, Debug, PartialEq, Eq)]
pub struct TreeSite {
    pub x: Extent,
    pub z: Extent,
    pub around_x: [Extent; 3],
    pub around_z: [Extent; 3],
}

/// The block that reaches over `xe` and `ze` between the heights `low` and
/// `high`.
pub open spec fn block_on<'a>(
    xe: Extent,
    ze: Extent,
    low: u32,
    high: u32,
    material: Material,
    tex: &'a Texture,
) -> Object<'a> {
    Object::TexCube(
        TexturedCube {
            min: Vec3 { x: xe.lo, y: Scalar { bits: low }, z: ze.lo },
            max: Vec3 { x: xe.hi, y: Scalar { bits: high }, z: ze.hi },
            material,
            tex,
        },
    )
}

/// The extent of the `n`-th cell along an axis: from `n` to `n + 1`.
pub open spec fn cell_extent(n: int) -> Extent {
    Extent { lo: Scalar::of_int(n), hi: Scalar::of_int(n + 1) }
}

/// The block on the cell `(x, z)` between the heights `low` and `high`.
pub open spec fn block<'a>(x: int, z: int, low: u32, high: u32, material: Material, tex: &'a Texture) -> Object<
    'a,
> {
    block_on(cell_extent(x), cell_extent(z), low, high, material, tex)
}

/// One block on each of the cells around a tree that `cells` names, all
/// between the heights `low` and `high`. A cell is named by its column and
/// its row, each counted from that of the trunk: -1, 0 or 1.
pub open spec fn leaves<'a>(
    site: TreeSite,
    cells: Seq<(int, int)>,
    low: u32,
    high: u32,
    material: Material,
    tex: &'a Texture,
) -> Seq<Object<'a>> {
    Seq::new(
        cells.len(),
        |i: int| block_on(site.around_x[cells[i].0 + 1], site.around_z[cells[i].1 + 1], low, high, material, tex),
    )
}

/// The cells of the pond, in the order in which their water is laid.
pub open spec fn pond() -> Seq<(int, int)> {
    seq![(-1, 0), (0, 0), (1, 0), (0, 1)]
}

/// The cells of the rock, in the order in which it is laid.
pub open spec fn rocks() -> Seq<(int, int)> {
    seq![(0, -1), (1, -1), (1, 0)]
}

/// Whether the cell `(x, z)` is one of the pond.
pub open spec fn is_pond(x: int, z: int) -> bool {
    pond().contains((x, z))
}

/// What stands on the `n`-th cell of the lawn, the cells counted row by row:
/// earth and turf, or nothing where the pond is.
pub open spec fn lawn_cell<'a>(n: int, side: &'a Texture, top: &'a Texture) -> Seq<Object<'a>> {
    let x = n % 5 - LAWN_REACH;
    let z = n / 5 - LAWN_REACH;
    if is_pond(x, z) {
        Seq::empty()
    } else {
        seq![
            block(x, z, NEG_ONE_BITS, 0, plain_spec(ONE_BITS), side),
            block(x, z, 0, TURF_TOP_BITS, plain_spec(ONE_BITS), top),
        ]
    }
}

/// What stands on the first `n` cells of the lawn.
pub open spec fn lawn<'a>(n: nat, side: &'a Texture, top: &'a Texture) -> Seq<Object<'a>>
    decreases n,
{
    if n == 0 {
        Seq::empty()
    } else {
        lawn((n - 1) as nat, side, top) + lawn_cell(n - 1, side, top)
    }
}

/// One block on each of the cells `x + dx`, `z + dz` for `(dx, dz)` in
/// `cells`, all between the heights `low` and `high`.
pub open spec fn layer<'a>(
    x: int,
    z: int,
    cells: Seq<(int, int)>,
    low: u32,
    high: u32,
    material: Material,
    tex: &'a Texture,
) -> Seq<Object<'a>> {
    Seq::new(cells.len(), |i: int| block(x + cells[i].0, z + cells[i].1, low, high, material, tex))
}

/// The lawn with its pond: earth and turf on every cell of the lawn but
/// those of the pond, then the rock, then the water.
pub open spec fn ground<'a>(
    grass_side: &'a Texture,
    grass_top: &'a Texture,
    water: &'a Texture,
    bedrock: &'a Texture,
) -> Seq<Object<'a>> {
    lawn(25, grass_side, grass_top) + layer(
        0,
        0,
        rocks(),
        TURF_TOP_BITS,
        ROCK_TOP_BITS,
        plain_spec(ONE_BITS),
        bedrock,
    ) + layer(0, 0, pond(), POND_BED_BITS, 0, plain_spec(WATER_ALPHA_BITS), water)
}

/// The cells of the lowest layer of leaves, from the cell of the trunk.
pub open spec fn plus_cells() -> Seq<(int, int)> {
    seq![(0, 0), (1, 0), (-1, 0), (0, 1), (0, -1)]
}

/// The cells of the middle layer of leaves, from the cell of the trunk.
pub open spec fn ring_cells() -> Seq<(int, int)> {
    seq![(-1, -1), (0, -1), (1, -1), (-1, 0), (1, 0), (-1, 1), (0, 1), (1, 1)]
}

/// The cells of the wide layer of leaves of a big tree.
pub open spec fn square_cells() -> Seq<(int, int)> {
    seq![(-1, -1), (0, -1), (1, -1), (-1, 0), (0, 0), (1, 0), (-1, 1), (0, 1), (1, 1)]
}

/// The cells of the one layer of leaves around a short trunk.
pub open spec fn cross_cells() -> Seq<(int, int)> {
    seq![(1, 0), (-1, 0), (0, 1), (0, -1)]
}

/// A tree: a trunk, a plus of leaves, a ring of leaves on that, and one
/// block of leaves on top.
pub open spec fn tree<'a>(site: TreeSite, trunk: &'a Texture, leaf: &'a Texture) -> Seq<Object<'a>> {
    let m = plain_spec(ONE_BITS);
    seq![block_on(site.x, site.z, 0, TRUNK_TOP_BITS, m, trunk)] + leaves(
        site,
        plus_cells(),
        TRUNK_TOP_BITS,
        CROWN_1_BITS,
        m,
        leaf,
    ) + leaves(site, ring_cells(), CROWN_1_BITS, CROWN_2_BITS, m, leaf) + seq![
        block_on(site.x, site.z, CROWN_2_BITS, CROWN_3_BITS, m, leaf),
    ]
}

/// A big tree: a trunk, one block of leaves, a square of leaves on that, and
/// one block of leaves on top.
pub open spec fn big_tree<'a>(site: TreeSite, trunk: &'a Texture, leaf: &'a Texture) -> Seq<Object<'a>> {
    let m = plain_spec(ONE_BITS);
    seq![
        block_on(site.x, site.z, 0, TRUNK_TOP_BITS, m, trunk),
        block_on(site.x, site.z, TRUNK_TOP_BITS, CROWN_1_BITS, m, leaf),
    ] + leaves(site, square_cells(), CROWN_1_BITS, CROWN_2_BITS, m, leaf) + seq![
        block_on(site.x, site.z, CROWN_2_BITS, CROWN_3_BITS, m, leaf),
    ]
}

/// A small tree: a short trunk, a cross of leaves around its top, and one
/// block of leaves on top.
pub open spec fn small_tree<'a>(site: TreeSite, trunk: &'a Texture, leaf: &'a Texture) -> Seq<Object<'a>> {
    let m = plain_spec(ONE_BITS);
    seq![block_on(site.x, site.z, 0, SHORT_TRUNK_TOP_BITS, m, trunk)] + leaves(
        site,
        cross_cells(),
        SHORT_TRUNK_TOP_BITS,
        SHORT_CROWN_1_BITS,
        m,
        leaf,
    ) + seq![block_on(site.x, site.z, SHORT_CROWN_1_BITS, SHORT_CROWN_2_BITS, m, leaf)]
}

/// A white surface that only scatters light, see [`plain_spec`].
fn plain(alpha: u32) -> (r: Material)
    ensures
        r == plain_spec(alpha),
{
    let one: Scalar = Scalar::from_bits(ONE_BITS);
    let zero: Scalar = Scalar::from_bits(0);
    Material::new(Vec3::new(one, one, one), zero, [one, zero, zero, zero], zero, Scalar::from_bits(alpha))
}

/// Whether the cell `(x, z)` is one of the pond.
fn in_pond(x: i32, z: i32) -> (r: bool)
    ensures
        r == is_pond(x as int, z as int),
{
    let r: bool = (z == 0 && -1 <= x && x <= 1) || (x == 0 && z == 1);
    proof {
        let p = pond();
        let c = (x as int, z as int);
        if r {
            assert(p[0] == (-1int, 0int) && p[1] == (0int, 0int) && p[2] == (1int, 0int) && p[3] == (
                0int,
                1int,
            ));
            assert(p[0] == c || p[1] == c || p[2] == c || p[3] == c);
        } else {
            assert forall|i: int| 0 <= i < p.len() implies p[i] != c by {}
        }
    }
    r
}

/// Adds the block on the cell `(x, z)` between the heights `low` and `high`.
fn add_block<'a>(
    scene: &mut Scene<'a>,
    x: i32,
    z: i32,
    low: u32,
    high: u32,
    material: Material,
    tex: &'a Texture,
)
    requires
        -CELL_LIMIT <= x <= CELL_LIMIT,
        -CELL_LIMIT <= z <= CELL_LIMIT,
    ensures
        final(scene).objects@ == old(scene).objects@.push(
            block(x as int, z as int, low, high, material, tex),
        ),
{
    let xe: Extent = Extent { lo: Scalar::from_int(x), hi: Scalar::from_int(x + 1) };
    let ze: Extent = Extent { lo: Scalar::from_int(z), hi: Scalar::from_int(z + 1) };
    add_block_on(scene, xe, ze, low, high, material, tex);
}

/// Adds the block that reaches over `xe` and `ze` between the heights `low`
/// and `high`.
fn add_block_on<'a>(
    scene: &mut Scene<'a>,
    xe: Extent,
    ze: Extent,
    low: u32,
    high: u32,
    material: Material,
    tex: &'a Texture,
)
    ensures
        final(scene).objects@ == old(scene).objects@.push(block_on(xe, ze, low, high, material, tex)),
{
    let min: Vec3 = Vec3::new(xe.lo, Scalar::from_bits(low), ze.lo);
    let max: Vec3 = Vec3::new(xe.hi, Scalar::from_bits(high), ze.hi);
    scene.add_textured_cube(min, max, material, tex);
}

/// Adds one block on each of the cells around a tree that `cells` names, in
/// their order.
fn add_leaves<'a>(
    scene: &mut Scene<'a>,
    site: &TreeSite,
    cells: &Vec<(i32, i32)>,
    low: u32,
    high: u32,
    material: Material,
    tex: &'a Texture,
)
    requires
        forall|i: int| 0 <= i < cells@.len() ==> -1 <= (#[trigger] cells@[i]).0 <= 1 && -1 <= cells@[i].1 <= 1,
    ensures
        final(scene).objects@ == old(scene).objects@ + leaves(
            *site,
            cells@.map_values(|c: (i32, i32)| (c.0 as int, c.1 as int)),
            low,
            high,
            material,
            tex,
        ),
{
    let ghost at = cells@.map_values(|c: (i32, i32)| (c.0 as int, c.1 as int));
    let ghost all = leaves(*site, at, low, high, material, tex);
    let mut i: usize = 0;
    while i < cells.len()
        invariant
            i <= cells@.len(),
            forall|k: int|
                0 <= k < cells@.len() ==> -1 <= (#[trigger] cells@[k]).0 <= 1 && -1 <= cells@[k].1 <= 1,
            at == cells@.map_values(|c: (i32, i32)| (c.0 as int, c.1 as int)),
            all == leaves(*site, at, low, high, material, tex),
            scene.objects@ == old(scene).objects@ + all.subrange(0, i as int),
        decreases cells@.len() - i,
    {
        let c: (i32, i32) = cells[i];
        let column: usize = (c.0 + 1) as usize;
        let row: usize = (c.1 + 1) as usize;
        add_block_on(scene, site.around_x[column], site.around_z[row], low, high, material, tex);
        proof {
            assert(at[i as int] == (c.0 as int, c.1 as int));
            assert(all[i as int] == block_on(
                site.around_x[c.0 + 1],
                site.around_z[c.1 + 1],
                low,
                high,
                material,
                tex,
            ));
            assert(all.subrange(0, i + 1) =~= all.subrange(0, i as int).push(all[i as int]));
            assert(scene.objects@ =~= old(scene).objects@ + all.subrange(0, i + 1));
        }
        i = i + 1;
    }
    proof {
        assert(all.subrange(0, i as int) =~= all);
    }
}

/// Adds one block on each of the cells `x + dx`, `z + dz` for `(dx, dz)` in
/// `cells`, in their order.
fn add_layer<'a>(
    scene: &mut Scene<'a>,
    x: i32,
    z: i32,
    cells: &Vec<(i32, i32)>,
    low: u32,
    high: u32,
    material: Material,
    tex: &'a Texture,
)
    requires
        -CELL_LIMIT < x < CELL_LIMIT,
        -CELL_LIMIT < z < CELL_LIMIT,
        forall|i: int| 0 <= i < cells@.len() ==> -1 <= (#[trigger] cells@[i]).0 <= 1 && -1 <= cells@[i].1 <= 1,
    ensures
        final(scene).objects@ == old(scene).objects@ + layer(
            x as int,
            z as int,
            cells@.map_values(|c: (i32, i32)| (c.0 as int, c.1 as int)),
            low,
            high,
            material,
            tex,
        ),
{
    let ghost at = cells@.map_values(|c: (i32, i32)| (c.0 as int, c.1 as int));
    let ghost all = layer(x as int, z as int, at, low, high, material, tex);
    let mut i: usize = 0;
    while i < cells.len()
        invariant
            i <= cells@.len(),
            -CELL_LIMIT < x < CELL_LIMIT,
            -CELL_LIMIT < z < CELL_LIMIT,
            forall|k: int|
                0 <= k < cells@.len() ==> -1 <= (#[trigger] cells@[k]).0 <= 1 && -1 <= cells@[k].1 <= 1,
            at == cells@.map_values(|c: (i32, i32)| (c.0 as int, c.1 as int)),
            all == layer(x as int, z as int, at, low, high, material, tex),
            scene.objects@ == old(scene).objects@ + all.subrange(0, i as int),
        decreases cells@.len() - i,
    {
        let c: (i32, i32) = cells[i];
        add_block(scene, x + c.0, z + c.1, low, high, material, tex);
        proof {
            assert(at[i as int] == (c.0 as int, c.1 as int));
            assert(all[i as int] == block(x + c.0, z + c.1, low, high, material, tex));
            assert(all.subrange(0, i + 1) =~= all.subrange(0, i as int).push(all[i as int]));
            assert(scene.objects@ =~= old(scene).objects@ + all.subrange(0, i + 1));
        }
        i = i + 1;
    }
    proof {
        assert(all.subrange(0, i as int) =~= all);
    }
}

/// Lays the lawn with its pond behind what the scene holds: earth and turf
/// on every cell of the lawn but those of the pond, then the rock, then the
/// water, see [`ground`].
pub fn build_grass_and_water<'a>(
    scene: &mut Scene<'a>,
    grass_side: &'a Texture,
    grass_top: &'a Texture,
    water: &'a Texture,
    bedrock: &'a Texture,
)
    ensures
        final(scene).objects@ == old(scene).objects@ + ground(grass_side, grass_top, water, bedrock),
{
    let mat_white: Material = plain(ONE_BITS);
    let mat_water: Material = plain(WATER_ALPHA_BITS);

    let mut z: i32 = -LAWN_REACH;
    while z <= LAWN_REACH
        invariant
            -LAWN_REACH <= z <= LAWN_REACH + 1,
            mat_white == plain_spec(ONE_BITS),
            scene.objects@ == old(scene).objects@ + lawn((5 * (z + LAWN_REACH)) as nat, grass_side, grass_top),
        decreases LAWN_REACH + 1 - z,
    {
        let mut x: i32 = -LAWN_REACH;
        while x <= LAWN_REACH
            invariant
                -LAWN_REACH <= z <= LAWN_REACH,
                -LAWN_REACH <= x <= LAWN_REACH + 1,
                mat_white == plain_spec(ONE_BITS),
                scene.objects@ == old(scene).objects@ + lawn(
                    (5 * (z + LAWN_REACH) + (x + LAWN_REACH)) as nat,
                    grass_side,
                    grass_top,
                ),
            decreases LAWN_REACH + 1 - x,
        {
            let ghost n = 5 * (z + LAWN_REACH) + (x + LAWN_REACH);
            let ghost before = scene.objects@;
            if !in_pond(x, z) {
                add_block(scene, x, z, NEG_ONE_BITS, 0, mat_white, grass_side);
                add_block(scene, x, z, 0, TURF_TOP_BITS, mat_white, grass_top);
            }
            proof {
                assert(n % 5 - LAWN_REACH == x && n / 5 - LAWN_REACH == z);
                assert(scene.objects@ =~= before + lawn_cell(n, grass_side, grass_top));
                assert(lawn((n + 1) as nat, grass_side, grass_top) == lawn(n as nat, grass_side, grass_top)
                    + lawn_cell(n, grass_side, grass_top));
                assert(scene.objects@ =~= old(scene).objects@ + lawn(
                    (n + 1) as nat,
                    grass_side,
                    grass_top,
                ));
            }
            x = x + 1;
        }
        z = z + 1;
    }

    let raised: Vec<(i32, i32)> = vec![(0, -1), (1, -1), (1, 0)];
    let wet: Vec<(i32, i32)> = vec![(-1, 0), (0, 0), (1, 0), (0, 1)];
    proof {
        assert(raised@.map_values(|c: (i32, i32)| (c.0 as int, c.1 as int)) =~= rocks());
        assert(wet@.map_values(|c: (i32, i32)| (c.0 as int, c.1 as int)) =~= pond());
    }
    add_layer(scene, 0, 0, &raised, TURF_TOP_BITS, ROCK_TOP_BITS, mat_white, bedrock);
    add_layer(scene, 0, 0, &wet, POND_BED_BITS, 0, mat_water, water);
    proof {
        assert(scene.objects@ =~= old(scene).objects@ + ground(grass_side, grass_top, water, bedrock));
    }
}

/// Plants a tree behind what the scene holds, see [`tree`].
pub fn add_tree<'a>(scene: &mut Scene<'a>, site: &TreeSite, trunk_tex: &'a Texture, leaf_tex: &'a Texture)
    ensures
        final(scene).objects@ == old(scene).objects@ + tree(*site, trunk_tex, leaf_tex),
{
    let mat_neutral: Material = plain(ONE_BITS);
    let layer1: Vec<(i32, i32)> = vec![(0, 0), (1, 0), (-1, 0), (0, 1), (0, -1)];
    let layer2: Vec<(i32, i32)> = vec![(-1, -1), (0, -1), (1, -1), (-1, 0), (1, 0), (-1, 1), (0, 1), (1, 1)];
    proof {
        assert(layer1@.map_values(|c: (i32, i32)| (c.0 as int, c.1 as int)) =~= plus_cells());
        assert(layer2@.map_values(|c: (i32, i32)| (c.0 as int, c.1 as int)) =~= ring_cells());
    }
    add_block_on(scene, site.x, site.z, 0, TRUNK_TOP_BITS, mat_neutral, trunk_tex);
    add_leaves(scene, site, &layer1, TRUNK_TOP_BITS, CROWN_1_BITS, mat_neutral, leaf_tex);
    add_leaves(scene, site, &layer2, CROWN_1_BITS, CROWN_2_BITS, mat_neutral, leaf_tex);
    add_block_on(scene, site.x, site.z, CROWN_2_BITS, CROWN_3_BITS, mat_neutral, leaf_tex);
    proof {
        assert(scene.objects@ =~= old(scene).objects@ + tree(*site, trunk_tex, leaf_tex));
    }
}

/// Plants a big tree behind what the scene holds, see [`big_tree`].
pub fn add_tree_big<'a>(scene: &mut Scene<'a>, site: &TreeSite, trunk_tex: &'a Texture, leaf_tex: &'a Texture)
    ensures
        final(scene).objects@ == old(scene).objects@ + big_tree(*site, trunk_tex, leaf_tex),
{
    let mat_neutral: Material = plain(ONE_BITS);
    let square: Vec<(i32, i32)> = vec![
        (-1, -1),
        (0, -1),
        (1, -1),
        (-1, 0),
        (0, 0),
        (1, 0),
        (-1, 1),
        (0, 1),
        (1, 1),
    ];
    proof {
        assert(square@.map_values(|c: (i32, i32)| (c.0 as int, c.1 as int)) =~= square_cells());
    }
    add_block_on(scene, site.x, site.z, 0, TRUNK_TOP_BITS, mat_neutral, trunk_tex);
    add_block_on(scene, site.x, site.z, TRUNK_TOP_BITS, CROWN_1_BITS, mat_neutral, leaf_tex);
    add_leaves(scene, site, &square, CROWN_1_BITS, CROWN_2_BITS, mat_neutral, leaf_tex);
    add_block_on(scene, site.x, site.z, CROWN_2_BITS, CROWN_3_BITS, mat_neutral, leaf_tex);
    proof {
        assert(scene.objects@ =~= old(scene).objects@ + big_tree(*site, trunk_tex, leaf_tex));
    }
}

/// Plants a small tree behind what the scene holds, see [`small_tree`].
pub fn add_tree_small<'a>(scene: &mut Scene<'a>, site: &TreeSite, trunk_tex: &'a Texture, leaf_tex: &'a Texture)
    ensures
        final(scene).objects@ == old(scene).objects@ + small_tree(*site, trunk_tex, leaf_tex),
{
    let mat_neutral: Material = plain(ONE_BITS);
    let cross: Vec<(i32, i32)> = vec![(1, 0), (-1, 0), (0, 1), (0, -1)];
    proof {
        assert(cross@.map_values(|c: (i32, i32)| (c.0 as int, c.1 as int)) =~= cross_cells());
    }
    add_block_on(scene, site.x, site.z, 0, SHORT_TRUNK_TOP_BITS, mat_neutral, trunk_tex);
    add_leaves(scene, site, &cross, SHORT_TRUNK_TOP_BITS, SHORT_CROWN_1_BITS, mat_neutral, leaf_tex);
    add_block_on(scene, site.x, site.z, SHORT_CROWN_1_BITS, SHORT_CROWN_2_BITS, mat_neutral, leaf_tex);
    proof {
        assert(scene.objects@ =~= old(scene).objects@ + small_tree(*site, trunk_tex, leaf_tex));
    }
}

} // verus!
