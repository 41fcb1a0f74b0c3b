//! The level of the walkthrough: a floor, walls around and within it, doorways, a
//! hallway, a cluster of columns, and a sky above, lit by one lamp.

use vstd::prelude::*;
use crate::fixed::{Fixed, Vector3};
use crate::scene::{
    count_of, lemma_count_of_absent, lemma_count_of_add, lemma_count_of_uniform, AddressMode,
    GeometryHandle, Image, Material, MaterialHandle, Placement, Rgb, Rotation, Scene, SceneObject,
    Shape, TextureHandle, TextureRequest, Tint, UvScale,
};

verus! {

/// The shapes of the level, by their handles.
#[derive(Clone, Copy, Debug, PartialEq, Eq, Structural)]
pub struct Meshes {
    pub cube: GeometryHandle,
    pub floor: GeometryHandle,
    pub sphere: GeometryHandle,
    pub wall: GeometryHandle,
    pub back_wall: GeometryHandle,
    pub partition: GeometryHandle,
    pub end_wall: GeometryHandle,
    pub long_wall: GeometryHandle,
    pub jamb: GeometryHandle,
    pub short_jamb: GeometryHandle,
    pub hallway: GeometryHandle,
    pub column: GeometryHandle,
    pub sky: GeometryHandle,
}

/// The materials of the level, by their handles.
#[derive(Clone, Copy, Debug, PartialEq, Eq, Structural)]
pub struct Surfaces {
    pub blue: MaterialHandle,
    pub red: MaterialHandle,
    pub white: MaterialHandle,
    pub marble: MaterialHandle,
    pub floor_plain: MaterialHandle,
    pub skybox: MaterialHandle,
    pub floor_tiled: MaterialHandle,
}

/// The level: its scene, and the handles of the scene's shapes and materials.
#[derive(Clone, Debug, PartialEq, Eq)]
pub struct Level {
    pub scene: Scene,
    pub meshes: Meshes,
    pub surfaces: Surfaces,
}

/// A lamp that shines from one point to all sides.
#[derive(Clone, Copy, Debug, PartialEq, Eq, Structural)]
pub struct PointLight {
    pub color: Tint,
    pub shadows_enabled: bool,
    pub position: Vector3,
}

/// The handles of the level's shapes: they are made in this order.
pub open spec fn level_meshes() -> Meshes {
    Meshes {
        cube: GeometryHandle { index: 0 },
        floor: GeometryHandle { index: 1 },
        sphere: GeometryHandle { index: 2 },
        wall: GeometryHandle { index: 3 },
        back_wall: GeometryHandle { index: 4 },
        partition: GeometryHandle { index: 5 },
        end_wall: GeometryHandle { index: 6 },
        long_wall: GeometryHandle { index: 7 },
        jamb: GeometryHandle { index: 8 },
        short_jamb: GeometryHandle { index: 9 },
        hallway: GeometryHandle { index: 10 },
        column: GeometryHandle { index: 11 },
        sky: GeometryHandle { index: 12 },
    }
}

/// The handles of the level's materials: they are made in this order.
pub open spec fn level_surfaces() -> Surfaces {
    Surfaces {
        blue: MaterialHandle { index: 0 },
        red: MaterialHandle { index: 1 },
        white: MaterialHandle { index: 2 },
        marble: MaterialHandle { index: 3 },
        floor_plain: MaterialHandle { index: 4 },
        skybox: MaterialHandle { index: 5 },
        floor_tiled: MaterialHandle { index: 6 },
    }
}

/// The textures that the level asks for, each to be repeated beyond its edges. The
/// floor's is asked for twice: once plainly repeated, and once mirrored at each repeat
/// for the tiled floor.
pub open spec fn level_textures() -> Seq<TextureRequest> {
    seq![
        TextureRequest { image: Image::Marble, address_mode: AddressMode::Repeat },
        TextureRequest { image: Image::Skybox, address_mode: AddressMode::Repeat },
        TextureRequest { image: Image::Floor, address_mode: AddressMode::Repeat },
        TextureRequest { image: Image::Floor, address_mode: AddressMode::MirrorRepeat },
    ]
}

/// The shapes of the level, each with its measures.
pub open spec fn level_geometries() -> Seq<Shape> {
    seq![
        Shape::cuboid_of(1_000, 1_000, 1_000),
        Shape::Plane {
            normal: Vector3::of_thousandths(0, 100_000, 0),
            half_width: Fixed::of_thousandths(20_000),
            half_depth: Fixed::of_thousandths(35_000),
        },
        Shape::Sphere { radius: Fixed::of_thousandths(500) },
        Shape::cuboid_of(200, 4_000, 3_000),
        Shape::cuboid_of(50_000, 5_000, 350),
        Shape::cuboid_of(5_000, 5_000, 200),
        Shape::cuboid_of(9_000, 5_000, 350),
        Shape::cuboid_of(80_000, 5_000, 350),
        Shape::cuboid_of(2_000, 5_000, 150),
        Shape::cuboid_of(1_000, 5_000, 150),
        Shape::cuboid_of(5_000, 5_000, 150),
        Shape::Cylinder {
            radius: Fixed::of_thousandths(300),
            height: Fixed::of_thousandths(5_000),
        },
        Shape::Circle { radius: Fixed::of_thousandths(100_000) },
    ]
}

/// A texture shown as it is, blended by its alpha and not lit, and laid out `scale`
/// thousandths of a time along each axis of the surface.
pub open spec fn backdrop(texture: TextureHandle, scale: int) -> Material {
    Material::Textured {
        texture,
        alpha_blend: true,
        unlit: true,
        emissive: Rgb {
            red: Fixed::of_thousandths(0),
            green: Fixed::of_thousandths(0),
            blue: Fixed::of_thousandths(0),
        },
        uv_scale: UvScale { u: Fixed::of_thousandths(scale), v: Fixed::of_thousandths(scale) },
    }
}

/// The floor's material: lit, with a faint glow of its own, the texture laid out twenty
/// times each way.
pub open spec fn tiled_floor(texture: TextureHandle) -> Material {
    Material::Textured {
        texture,
        alpha_blend: false,
        unlit: false,
        emissive: Rgb {
            red: Fixed::of_thousandths(244),
            green: Fixed::of_thousandths(166),
            blue: Fixed::of_thousandths(172),
        },
        uv_scale: UvScale { u: Fixed::of_thousandths(20_000), v: Fixed::of_thousandths(20_000) },
    }
}

/// The materials of the level. The sky's texture, like the floor's, is laid out twenty
/// times each way, so that it is repeated across the sky and not stretched over it.
pub open spec fn level_materials() -> Seq<Material> {
    seq![
        Material::Plain { color: Tint::Blue700 },
        Material::Plain { color: Tint::Red950 },
        Material::Plain { color: Tint::White },
        backdrop(TextureHandle { index: 0 }, 1_000),
        backdrop(TextureHandle { index: 2 }, 1_000),
        backdrop(TextureHandle { index: 1 }, 20_000),
        tiled_floor(TextureHandle { index: 3 }),
    ]
}

/// An object of the level, placed at the given numbers of thousandths.
pub open spec fn placed(
    geometry: GeometryHandle,
    material: MaterialHandle,
    x: int,
    y: int,
    z: int,
    rotation: Rotation,
) -> SceneObject {
    SceneObject { geometry, material, placement: Placement::of_thousandths(x, y, z, rotation) }
}

/// The floor, at the origin.
pub open spec fn floor_objects() -> Seq<SceneObject> {
    seq![
        placed(level_meshes().floor, level_surfaces().floor_tiled, 0, 0, 0, Rotation::Identity),
    ]
}

/// The tall wall, the two long walls along the sides, and the wall at the back.
pub open spec fn wall_objects() -> Seq<SceneObject> {
    seq![
        placed(level_meshes().wall, level_surfaces().white, -3_000, 2_000, 0, Rotation::Identity),
        placed(
            level_meshes().long_wall,
            level_surfaces().white,
            20_000,
            0,
            0,
            Rotation::QuarterYaw,
        ),
        placed(level_meshes().long_wall, level_surfaces().white, 0, 0, 0, Rotation::QuarterYaw),
        placed(
            level_meshes().back_wall,
            level_surfaces().white,
            0,
            0,
            35_000,
            Rotation::Identity,
        ),
    ]
}

/// Objects of one shape and one material, all turned the same way, that stand on the
/// ground at each of `sites`; a site is given by its thousandths along X and along Z.
pub open spec fn row_objects(
    geometry: GeometryHandle,
    material: MaterialHandle,
    rotation: Rotation,
    sites: Seq<(int, int)>,
) -> Seq<SceneObject> {
    Seq::new(
        sites.len(),
        |i: int| placed(geometry, material, sites[i].0, 0, sites[i].1, rotation),
    )
}

/// Where the partitions stand: eighteen units along X, one in each row.
pub open spec fn partition_sites() -> Seq<(int, int)> {
    seq![
        (18_000, 27_000),
        (18_000, 23_000),
        (18_000, 20_000),
        (18_000, 16_000),
        (18_000, 14_000),
        (18_000, 9_000),
        (18_000, 5_000),
    ]
}

/// The partitions between the rooms.
pub open spec fn partition_objects() -> Seq<SceneObject> {
    row_objects(
        level_meshes().partition,
        level_surfaces().white,
        Rotation::Identity,
        partition_sites(),
    )
}

/// Where the jambs of the doorways stand.
pub open spec fn jamb_sites() -> Seq<(int, int)> {
    seq![(15_500, 26_000), (15_500, 23_000), (15_500, 20_000)]
}

/// The jambs of the doorways, each turned to run along Z.
pub open spec fn jamb_objects() -> Seq<SceneObject> {
    row_objects(level_meshes().jamb, level_surfaces().white, Rotation::QuarterYaw, jamb_sites())
}

/// The two segments of the hallway, and the wall at the near end.
pub open spec fn hallway_objects() -> Seq<SceneObject> {
    seq![
        placed(
            level_meshes().hallway,
            level_surfaces().white,
            15_500,
            0,
            11_500,
            Rotation::QuarterYaw,
        ),
        placed(
            level_meshes().short_jamb,
            level_surfaces().white,
            15_500,
            0,
            13_000,
            Rotation::QuarterYaw,
        ),
        placed(
            level_meshes().end_wall,
            level_surfaces().white,
            16_000,
            0,
            0,
            Rotation::Identity,
        ),
    ]
}

/// Where the columns stand.
pub open spec fn column_sites() -> Seq<(int, int)> {
    seq![
        (13_000, 25_000),
        (13_000, 24_000),
        (13_000, 23_000),
        (13_000, 22_000),
        (12_000, 25_000),
        (11_000, 25_000),
        (10_000, 25_000),
        (9_000, 25_000),
        (9_000, 24_000),
        (9_000, 23_000),
        (9_000, 22_000),
        (12_000, 24_000),
        (11_000, 23_000),
        (10_000, 22_000),
    ]
}

/// The columns: one shape and one material, placed at each site.
pub open spec fn column_objects() -> Seq<SceneObject> {
    row_objects(
        level_meshes().column,
        level_surfaces().marble,
        Rotation::Identity,
        column_sites(),
    )
}

/// The sky: a disc high above the floor, turned to lie flat.
pub open spec fn sky_objects() -> Seq<SceneObject> {
    seq![
        placed(level_meshes().sky, level_surfaces().skybox, 0, 65_000, 0, Rotation::QuarterPitch),
    ]
}

/// The objects of the level.
pub open spec fn level_objects() -> Seq<SceneObject> {
    floor_objects() + wall_objects() + partition_objects() + jamb_objects() + hallway_objects()
        + column_objects() + sky_objects()
}

/// Whether `scene` is the scene of the level.
pub open spec fn is_level(scene: Scene) -> bool {
    &&& scene.textures@ == level_textures()
    &&& scene.geometries@ == level_geometries()
    &&& scene.materials@ == level_materials()
    &&& scene.objects@ == level_objects()
}

/// How many objects of the level have the shape `geometry`.
pub open spec fn census(geometry: GeometryHandle) -> nat {
    if geometry == level_meshes().floor {
        1
    } else if geometry == level_meshes().wall {
        1
    } else if geometry == level_meshes().long_wall {
        2
    } else if geometry == level_meshes().back_wall {
        1
    } else if geometry == level_meshes().partition {
        7
    } else if geometry == level_meshes().jamb {
        3
    } else if geometry == level_meshes().hallway {
        1
    } else if geometry == level_meshes().short_jamb {
        1
    } else if geometry == level_meshes().end_wall {
        1
    } else if geometry == level_meshes().column {
        14
    } else if geometry == level_meshes().sky {
        1
    } else {
        0
    }
}

/// Building the level twice gives the same level: two scenes of the level have the same
/// textures, shapes, materials and objects, each in the same order, and so each shape is
/// placed as often in the one as in the other.
pub proof fn lemma_level_is_determined(first: Scene, second: Scene)
    requires
        is_level(first),
        is_level(second),
    ensures
        first.textures@ == second.textures@,
        first.geometries@ == second.geometries@,
        first.materials@ == second.materials@,
        first.objects@ == second.objects@,
        forall|geometry: GeometryHandle|
            count_of(first.objects@, geometry) == count_of(second.objects@, geometry),
{
}

/// In the level, each shape is placed as often as the census says.
pub proof fn lemma_level_census(geometry: GeometryHandle)
    ensures
        count_of(level_objects(), geometry) == census(geometry),
{
    let floor = floor_objects();
    let walls = wall_objects();
    let partitions = partition_objects();
    let jambs = jamb_objects();
    let hallway = hallway_objects();
    let columns = column_objects();
    let sky = sky_objects();
    lemma_count_of_add(floor, walls, geometry);
    lemma_count_of_add(floor + walls, partitions, geometry);
    lemma_count_of_add(floor + walls + partitions, jambs, geometry);
    lemma_count_of_add(floor + walls + partitions + jambs, hallway, geometry);
    lemma_count_of_add(floor + walls + partitions + jambs + hallway, columns, geometry);
    lemma_count_of_add(floor + walls + partitions + jambs + hallway + columns, sky, geometry);
    lemma_count_of_group(floor, level_meshes().floor, geometry);
    lemma_count_of_group(partitions, level_meshes().partition, geometry);
    lemma_count_of_group(jambs, level_meshes().jamb, geometry);
    lemma_count_of_group(columns, level_meshes().column, geometry);
    lemma_count_of_group(sky, level_meshes().sky, geometry);
    reveal_with_fuel(count_of, 5);
}

/// Among objects that all have the shape `shape`, the number of that shape is the number
/// of the objects, and the number of any other shape is zero.
proof fn lemma_count_of_group(
    objects: Seq<SceneObject>,
    shape: GeometryHandle,
    geometry: GeometryHandle,
)
    requires
        forall|i: int| 0 <= i < objects.len() ==> objects[i].geometry == shape,
    ensures
        count_of(objects, geometry) == if geometry == shape {
            objects.len()
        } else {
            0
        },
{
    if geometry == shape {
        lemma_count_of_uniform(objects, geometry);
    } else {
        lemma_count_of_absent(objects, geometry);
    }
}

/// In the level, every column has the one marble material.
pub proof fn lemma_columns_share_marble(i: int)
    requires
        0 <= i < level_objects().len(),
        level_objects()[i].geometry == level_meshes().column,
    ensures
        level_objects()[i].material == level_surfaces().marble,
{
}

/// No two columns stand on the same site: their centres are a whole unit apart or more,
/// along X or along Z.
pub proof fn lemma_columns_stand_apart(i: int, j: int)
    requires
        0 <= i < j < column_sites().len(),
    ensures
        column_sites()[i].0 - column_sites()[j].0 >= 1_000 || column_sites()[j].0
            - column_sites()[i].0 >= 1_000 || column_sites()[i].1 - column_sites()[j].1 >= 1_000
            || column_sites()[j].1 - column_sites()[i].1 >= 1_000,
{
}

/// Whether `scene` holds the palettes of the level, under the handles of `meshes` and
/// `surfaces`.
pub open spec fn furnished(scene: Scene, meshes: Meshes, surfaces: Surfaces) -> bool {
    &&& meshes == level_meshes()
    &&& surfaces == level_surfaces()
    &&& scene.geometries@.len() == 13
    &&& scene.materials@.len() == 7
}

/// Places the floor.
fn spawn_floor(scene: &mut Scene, meshes: &Meshes, surfaces: &Surfaces)
    requires
        furnished(*old(scene), *meshes, *surfaces),
    ensures
        final(scene).extends(*old(scene), floor_objects()),
        old(scene).well_formed() ==> final(scene).well_formed(),
{
    scene.spawn(
        meshes.floor,
        surfaces.floor_tiled,
        Placement::from_thousandths(0, 0, 0, Rotation::Identity),
    );
    proof {
        assert(final(scene).objects@ =~= old(scene).objects@ + floor_objects());
    }
}

/// Places the tall wall, the two long walls and the back wall.
fn spawn_walls(scene: &mut Scene, meshes: &Meshes, surfaces: &Surfaces)
    requires
        furnished(*old(scene), *meshes, *surfaces),
    ensures
        final(scene).extends(*old(scene), wall_objects()),
        old(scene).well_formed() ==> final(scene).well_formed(),
{
    scene.spawn(
        meshes.wall,
        surfaces.white,
        Placement::from_thousandths(-3_000, 2_000, 0, Rotation::Identity),
    );
    scene.spawn(
        meshes.long_wall,
        surfaces.white,
        Placement::from_thousandths(20_000, 0, 0, Rotation::QuarterYaw),
    );
    scene.spawn(
        meshes.long_wall,
        surfaces.white,
        Placement::from_thousandths(0, 0, 0, Rotation::QuarterYaw),
    );
    scene.spawn(
        meshes.back_wall,
        surfaces.white,
        Placement::from_thousandths(0, 0, 35_000, Rotation::Identity),
    );
    proof {
        assert(final(scene).objects@ =~= old(scene).objects@ + wall_objects());
    }
}

/// The sites of a table, as whole numbers of thousandths.
pub open spec fn sites_of(table: Seq<(i32, i32)>) -> Seq<(int, int)> {
    table.map_values(|site: (i32, i32)| (site.0 as int, site.1 as int))
}

/// Places one object of the given shape and material, turned as given, at each site of
/// the table, in the table's order.
fn spawn_row(
    scene: &mut Scene,
    geometry: GeometryHandle,
    material: MaterialHandle,
    rotation: Rotation,
    sites: &Vec<(i32, i32)>,
)
    requires
        old(scene).has_geometry(geometry),
        old(scene).has_material(material),
    ensures
        final(scene).extends(
            *old(scene),
            row_objects(geometry, material, rotation, sites_of(sites@)),
        ),
        old(scene).well_formed() ==> final(scene).well_formed(),
{
    proof {
        assert(scene.objects@ =~= old(scene).objects@ + row_objects(
            geometry,
            material,
            rotation,
            sites_of(sites@),
        ).take(0));
    }
    let mut next: usize = 0;
    while next < sites.len()
        invariant
            next <= sites@.len(),
            scene.has_geometry(geometry),
            scene.has_material(material),
            scene.extends(
                *old(scene),
                row_objects(geometry, material, rotation, sites_of(sites@)).take(next as int),
            ),
            old(scene).well_formed() ==> scene.well_formed(),
        decreases sites@.len() - next,
    {
        let site: (i32, i32) = sites[next];
        scene.spawn(geometry, material, Placement::from_thousandths(site.0, 0, site.1, rotation));
        proof {
            let row = row_objects(geometry, material, rotation, sites_of(sites@));
            assert(row.take(next + 1) =~= row.take(next as int).push(row[next as int]));
        }
        next = next + 1;
    }
    proof {
        let row = row_objects(geometry, material, rotation, sites_of(sites@));
        assert(row.take(next as int) =~= row);
    }
}

/// Places the partitions, row by row.
fn spawn_partitions(scene: &mut Scene, meshes: &Meshes, surfaces: &Surfaces)
    requires
        furnished(*old(scene), *meshes, *surfaces),
    ensures
        final(scene).extends(*old(scene), partition_objects()),
        old(scene).well_formed() ==> final(scene).well_formed(),
{
    let sites: Vec<(i32, i32)> = vec![
        (18_000, 27_000),
        (18_000, 23_000),
        (18_000, 20_000),
        (18_000, 16_000),
        (18_000, 14_000),
        (18_000, 9_000),
        (18_000, 5_000),
    ];
    proof {
        assert(sites_of(sites@) =~= partition_sites());
    }
    spawn_row(scene, meshes.partition, surfaces.white, Rotation::Identity, &sites);
}

/// Places the jambs of the doorways, row by row.
fn spawn_jambs(scene: &mut Scene, meshes: &Meshes, surfaces: &Surfaces)
    requires
        furnished(*old(scene), *meshes, *surfaces),
    ensures
        final(scene).extends(*old(scene), jamb_objects()),
        old(scene).well_formed() ==> final(scene).well_formed(),
{
    let sites: Vec<(i32, i32)> = vec![(15_500, 26_000), (15_500, 23_000), (15_500, 20_000)];
    proof {
        assert(sites_of(sites@) =~= jamb_sites());
    }
    spawn_row(scene, meshes.jamb, surfaces.white, Rotation::QuarterYaw, &sites);
}

/// Places the two segments of the hallway and the wall at its near end.
fn spawn_hallway(scene: &mut Scene, meshes: &Meshes, surfaces: &Surfaces)
    requires
        furnished(*old(scene), *meshes, *surfaces),
    ensures
        final(scene).extends(*old(scene), hallway_objects()),
        old(scene).well_formed() ==> final(scene).well_formed(),
{
    scene.spawn(
        meshes.hallway,
        surfaces.white,
        Placement::from_thousandths(15_500, 0, 11_500, Rotation::QuarterYaw),
    );
    scene.spawn(
        meshes.short_jamb,
        surfaces.white,
        Placement::from_thousandths(15_500, 0, 13_000, Rotation::QuarterYaw),
    );
    scene.spawn(
        meshes.end_wall,
        surfaces.white,
        Placement::from_thousandths(16_000, 0, 0, Rotation::Identity),
    );
    proof {
        assert(final(scene).objects@ =~= old(scene).objects@ + hallway_objects());
    }
}

/// Places the columns, site by site.
fn spawn_columns(scene: &mut Scene, meshes: &Meshes, surfaces: &Surfaces)
    requires
        furnished(*old(scene), *meshes, *surfaces),
    ensures
        final(scene).extends(*old(scene), column_objects()),
        old(scene).well_formed() ==> final(scene).well_formed(),
{
    let sites: Vec<(i32, i32)> = vec![
        (13_000, 25_000),
        (13_000, 24_000),
        (13_000, 23_000),
        (13_000, 22_000),
        (12_000, 25_000),
        (11_000, 25_000),
        (10_000, 25_000),
        (9_000, 25_000),
        (9_000, 24_000),
        (9_000, 23_000),
        (9_000, 22_000),
        (12_000, 24_000),
        (11_000, 23_000),
        (10_000, 22_000),
    ];
    proof {
        assert(sites_of(sites@) =~= column_sites());
    }
    spawn_row(scene, meshes.column, surfaces.marble, Rotation::Identity, &sites);
}

/// Places the sky.
fn spawn_sky(scene: &mut Scene, meshes: &Meshes, surfaces: &Surfaces)
    requires
        furnished(*old(scene), *meshes, *surfaces),
    ensures
        final(scene).extends(*old(scene), sky_objects()),
        old(scene).well_formed() ==> final(scene).well_formed(),
{
    scene.spawn(
        meshes.sky,
        surfaces.skybox,
        Placement::from_thousandths(0, 65_000, 0, Rotation::QuarterPitch),
    );
    proof {
        assert(final(scene).objects@ =~= old(scene).objects@ + sky_objects());
    }
}

/// A texture shown as it is, laid out `scale` thousandths of a time along each axis.
fn backdrop_material(texture: TextureHandle, scale: i32) -> (material: Material)
    ensures
        material == backdrop(texture, scale as int),
{
    Material::Textured {
        texture,
        alpha_blend: true,
        unlit: true,
        emissive: Rgb {
            red: Fixed::from_thousandths(0),
            green: Fixed::from_thousandths(0),
            blue: Fixed::from_thousandths(0),
        },
        uv_scale: UvScale {
            u: Fixed::from_thousandths(scale),
            v: Fixed::from_thousandths(scale),
        },
    }
}

/// The floor's material.
fn tiled_floor_material(texture: TextureHandle) -> (material: Material)
    ensures
        material == tiled_floor(texture),
{
    Material::Textured {
        texture,
        alpha_blend: false,
        unlit: false,
        emissive: Rgb {
            red: Fixed::from_thousandths(244),
            green: Fixed::from_thousandths(166),
            blue: Fixed::from_thousandths(172),
        },
        uv_scale: UvScale {
            u: Fixed::from_thousandths(20_000),
            v: Fixed::from_thousandths(20_000),
        },
    }
}

/// Makes the shapes of the level, but for the sky.
fn add_meshes(scene: &mut Scene) -> (meshes: Meshes)
    requires
        old(scene).geometries@.len() == 0,
    ensures
        meshes == (Meshes { sky: meshes.sky, ..level_meshes() }),
        final(scene).geometries@ == level_geometries().take(12),
        final(scene).textures@ == old(scene).textures@,
        final(scene).materials@ == old(scene).materials@,
        final(scene).objects@ == old(scene).objects@,
        old(scene).well_formed() ==> final(scene).well_formed(),
{
    let cube = scene.add_geometry(Shape::cuboid(1_000, 1_000, 1_000));
    let floor = scene.add_geometry(
        Shape::Plane {
            normal: Vector3::from_thousandths(0, 100_000, 0),
            half_width: Fixed::from_thousandths(20_000),
            half_depth: Fixed::from_thousandths(35_000),
        },
    );
    let sphere = scene.add_geometry(Shape::Sphere { radius: Fixed::from_thousandths(500) });
    let wall = scene.add_geometry(Shape::cuboid(200, 4_000, 3_000));
    let back_wall = scene.add_geometry(Shape::cuboid(50_000, 5_000, 350));
    let partition = scene.add_geometry(Shape::cuboid(5_000, 5_000, 200));
    let end_wall = scene.add_geometry(Shape::cuboid(9_000, 5_000, 350));
    let long_wall = scene.add_geometry(Shape::cuboid(80_000, 5_000, 350));
    let jamb = scene.add_geometry(Shape::cuboid(2_000, 5_000, 150));
    let short_jamb = scene.add_geometry(Shape::cuboid(1_000, 5_000, 150));
    let hallway = scene.add_geometry(Shape::cuboid(5_000, 5_000, 150));
    let column = scene.add_geometry(
        Shape::Cylinder {
            radius: Fixed::from_thousandths(300),
            height: Fixed::from_thousandths(5_000),
        },
    );
    proof {
        assert(final(scene).geometries@ =~= level_geometries().take(12));
    }
    Meshes {
        cube,
        floor,
        sphere,
        wall,
        back_wall,
        partition,
        end_wall,
        long_wall,
        jamb,
        short_jamb,
        hallway,
        column,
        sky: column,
    }
}

/// How the textures of the level are addressed where nothing else is said: repeated, so
/// that a tiled surface shows no seams.
pub fn default_sampling() -> (mode: AddressMode)
    ensures
        mode == AddressMode::Repeat,
{
    AddressMode::Repeat
}

/// The level, built once: its textures asked for, its shapes and materials made, and
/// every object placed. Each call gives the same level. Each texture is asked for in a
/// mode that repeats it beyond its edges. The floor's material and the sky's lay their
/// texture out more than once each way. Each shape is placed as often as the census
/// says, and every column has the one column shape and the one marble material.
pub fn spawn_world() -> (level: Level)
    ensures
        is_level(level.scene),
        level.meshes == level_meshes(),
        level.surfaces == level_surfaces(),
        level.scene.well_formed(),
        level.scene.textures_wrap(),
        level.scene.repeats_texture(level.surfaces.floor_tiled),
        level.scene.repeats_texture(level.surfaces.skybox),
        forall|geometry: GeometryHandle|
            count_of(level.scene.objects@, geometry) == census(geometry),
        level.scene.shares_material(level.meshes.column, level.surfaces.marble),
{
    let mut scene = Scene::new();
    let partial = add_meshes(&mut scene);
    let blue = scene.add_material(Material::Plain { color: Tint::Blue700 });
    let red = scene.add_material(Material::Plain { color: Tint::Red950 });
    let white = scene.add_material(Material::Plain { color: Tint::White });
    let marble_texture = scene.load_texture(
        TextureRequest { image: Image::Marble, address_mode: default_sampling() },
    );
    let sky_texture = scene.load_texture(
        TextureRequest { image: Image::Skybox, address_mode: default_sampling() },
    );
    let floor_texture = scene.load_texture(
        TextureRequest { image: Image::Floor, address_mode: default_sampling() },
    );
    let marble = scene.add_material(backdrop_material(marble_texture, 1_000));
    let floor_plain = scene.add_material(backdrop_material(floor_texture, 1_000));
    let skybox = scene.add_material(backdrop_material(sky_texture, 20_000));
    let sky = scene.add_geometry(Shape::Circle { radius: Fixed::from_thousandths(100_000) });
    let tiled_texture = scene.load_texture(
        TextureRequest { image: Image::Floor, address_mode: AddressMode::MirrorRepeat },
    );
    let floor_tiled = scene.add_material(tiled_floor_material(tiled_texture));
    let meshes = Meshes { sky, ..partial };
    let surfaces = Surfaces { blue, red, white, marble, floor_plain, skybox, floor_tiled };
    proof {
        assert(scene.textures@ =~= level_textures());
        assert(scene.geometries@ =~= level_geometries());
        assert(scene.materials@ =~= level_materials());
    }
    spawn_floor(&mut scene, &meshes, &surfaces);
    spawn_walls(&mut scene, &meshes, &surfaces);
    spawn_partitions(&mut scene, &meshes, &surfaces);
    spawn_jambs(&mut scene, &meshes, &surfaces);
    spawn_hallway(&mut scene, &meshes, &surfaces);
    spawn_columns(&mut scene, &meshes, &surfaces);
    spawn_sky(&mut scene, &meshes, &surfaces);
    proof {
        assert(scene.objects@ =~= level_objects());
        assert forall|geometry: GeometryHandle|
            count_of(scene.objects@, geometry) == census(geometry) by {
            lemma_level_census(geometry);
        }
        assert forall|i: int|
            0 <= i < scene.objects@.len() && (#[trigger] scene.objects@[i]).geometry
                == meshes.column implies scene.objects@[i].material == surfaces.marble by {
            lemma_columns_share_marble(i);
        }
    }
    Level { scene, meshes, surfaces }
}

/// The lamp of the level: high above the origin, neutral in colour, casting shadows.
pub fn spawn_lights() -> (light: PointLight)
    ensures
        light.color == Tint::Neutral300,
        light.shadows_enabled,
        light.position == Vector3::of_thousandths(0, 45_000, 0),
{
    PointLight {
        color: Tint::Neutral300,
        shadows_enabled: true,
        position: Vector3::from_thousandths(0, 45_000, 0),
    }
}

} // verus!
