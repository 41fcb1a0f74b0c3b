//! A static scene: palettes of textures, shapes and materials, each entry made once and
//! named by a handle, and objects that place a shape with a material in the world.

use vstd::prelude::*;
use crate::fixed::{Fixed, Vector3};

verus! {

/// A shape, dimensioned by its own measures.
#[derive(Clone, Copy, Debug, PartialEq, Eq, Structural)]
pub enum Shape {
    /// A box, centred on its origin.
    Cuboid { x_length: Fixed, y_length: Fixed, z_length: Fixed },
    /// A flat rectangle through the origin that faces along `normal`.
    Plane { normal: Vector3, half_width: Fixed, half_depth: Fixed },
    Sphere { radius: Fixed },
    /// An upright cylinder, centred on its origin.
    Cylinder { radius: Fixed, height: Fixed },
    /// A flat disc.
    Circle { radius: Fixed },
}

/// The named colours that the walkthrough uses.
#[derive(Clone, Copy, Debug, PartialEq, Eq, Structural)]
pub enum Tint {
    Blue700,
    Red950,
    White,
    Neutral300,
}

/// The images that the walkthrough uses as textures.
#[derive(Clone, Copy, Debug, PartialEq, Eq, Structural)]
pub enum Image {
    Marble,
    Skybox,
    Floor,
}

impl Image {
    /// Where the image is kept among the assets.
    pub open spec fn path_text(self) -> Seq<char> {
        match self {
            Image::Marble => "textures/marble.png"@,
            Image::Skybox => "textures/skybox.png"@,
            Image::Floor => "textures/floor.png"@,
        }
    }

    /// Where the image is kept among the assets.
    pub fn path(self) -> (path: &'static str)
        ensures
            path@ == self.path_text(),
    {
        match self {
            Image::Marble => "textures/marble.png",
            Image::Skybox => "textures/skybox.png",
            Image::Floor => "textures/floor.png",
        }
    }
}

/// What a texture shows beyond its edges.
#[derive(Clone, Copy, Debug, PartialEq, Eq, Structural)]
pub enum AddressMode {
    /// The edge's colour goes on: a repeated pattern would show seams.
    ClampToEdge,
    /// The image is repeated.
    Repeat,
    /// The image is repeated, every other time mirrored.
    MirrorRepeat,
}

impl AddressMode {
    /// Whether a texture addressed in this mode is repeated beyond its edges, mirrored
    /// or not.
    pub open spec fn wraps(self) -> bool {
        self == AddressMode::Repeat || self == AddressMode::MirrorRepeat
    }

    /// Whether a texture addressed in this mode is repeated beyond its edges, mirrored
    /// or not.
    pub fn is_wrapping(self) -> (wrapping: bool)
        ensures
            wrapping == self.wraps(),
    {
        match self {
            AddressMode::ClampToEdge => false,
            AddressMode::Repeat => true,
            AddressMode::MirrorRepeat => true,
        }
    }
}

/// A request for a texture: the image, and how it is addressed along both of its axes.
#[derive(Clone, Copy, Debug, PartialEq, Eq, Structural)]
pub struct TextureRequest {
    pub image: Image,
    pub address_mode: AddressMode,
}

/// The name of a texture of a scene.
#[derive(Clone, Copy, Debug, PartialEq, Eq, Structural)]
pub struct TextureHandle {
    pub index: usize,
}

/// The name of a shape of a scene.
#[derive(Clone, Copy, Debug, PartialEq, Eq, Structural)]
pub struct GeometryHandle {
    pub index: usize,
}

/// The name of a material of a scene.
#[derive(Clone, Copy, Debug, PartialEq, Eq, Structural)]
pub struct MaterialHandle {
    pub index: usize,
}

/// A colour by its red, green and blue parts.
#[derive(Clone, Copy, Debug, PartialEq, Eq, Structural)]
pub struct Rgb {
    pub red: Fixed,
    pub green: Fixed,
    pub blue: Fixed,
}

/// How often a texture is laid out across a surface, along each of its two axes.
#[derive(Clone, Copy, Debug, PartialEq, Eq, Structural)]
pub struct UvScale {
    pub u: Fixed,
    pub v: Fixed,
}

/// What a surface looks like.
#[derive(Clone, Copy, Debug, PartialEq, Eq, Structural)]
pub enum Material {
    /// One colour all over.
    Plain { color: Tint },
    /// A texture, laid out `uv_scale` times across the surface.
    Textured {
        texture: TextureHandle,
        alpha_blend: bool,
        unlit: bool,
        emissive: Rgb,
        uv_scale: UvScale,
    },
}

impl Material {
    /// Whether the material lays a texture out more than once along each axis of the
    /// surface, so that the image is repeated across it and not stretched over it.
    pub open spec fn repeats(self) -> bool {
        match self {
            Material::Plain { .. } => false,
            Material::Textured { uv_scale, .. } => uv_scale.u@ > 1_000_000 && uv_scale.v@
                > 1_000_000,
        }
    }

    /// Whether the material lays a texture out more than once along each axis of the
    /// surface.
    pub fn is_repeating(&self) -> (repeating: bool)
        ensures
            repeating == self.repeats(),
    {
        match self {
            Material::Plain { .. } => false,
            Material::Textured { uv_scale, .. } => uv_scale.u.micros > 1_000_000
                && uv_scale.v.micros > 1_000_000,
        }
    }
}

/// A turn about one axis of the world.
#[derive(Clone, Copy, Debug, PartialEq, Eq, Structural)]
pub enum Rotation {
    /// No turn.
    Identity,
    /// A quarter turn about the upright axis.
    QuarterYaw,
    /// A quarter turn about the X axis.
    QuarterPitch,
}

/// Where an object stands and how it is turned. Nothing is stretched.
#[derive(Clone, Copy, Debug, PartialEq, Eq, Structural)]
pub struct Placement {
    pub translation: Vector3,
    pub rotation: Rotation,
}

impl Placement {
    /// The placement at the given numbers of thousandths along the three axes.
    pub open spec fn of_thousandths(x: int, y: int, z: int, rotation: Rotation) -> Placement {
        Placement { translation: Vector3::of_thousandths(x, y, z), rotation }
    }

    /// The placement at the given numbers of thousandths along the three axes.
    pub fn from_thousandths(x: i32, y: i32, z: i32, rotation: Rotation) -> (placement: Placement)
        ensures
            placement == Placement::of_thousandths(x as int, y as int, z as int, rotation),
    {
        Placement { translation: Vector3::from_thousandths(x, y, z), rotation }
    }
}

impl Shape {
    /// The box with the given lengths, in thousandths.
    pub open spec fn cuboid_of(x: int, y: int, z: int) -> Shape {
        Shape::Cuboid {
            x_length: Fixed::of_thousandths(x),
            y_length: Fixed::of_thousandths(y),
            z_length: Fixed::of_thousandths(z),
        }
    }

    /// The box with the given lengths, in thousandths.
    pub fn cuboid(x: i32, y: i32, z: i32) -> (shape: Shape)
        ensures
            shape == Shape::cuboid_of(x as int, y as int, z as int),
    {
        Shape::Cuboid {
            x_length: Fixed::from_thousandths(x),
            y_length: Fixed::from_thousandths(y),
            z_length: Fixed::from_thousandths(z),
        }
    }
}

/// One object of a scene: a shape and a material, by their handles, and a placement.
#[derive(Clone, Copy, Debug, PartialEq, Eq, Structural)]
pub struct SceneObject {
    pub geometry: GeometryHandle,
    pub material: MaterialHandle,
    pub placement: Placement,
}

/// How many of `objects` have the shape `geometry`.
pub open spec fn count_of(objects: Seq<SceneObject>, geometry: GeometryHandle) -> nat
    decreases objects.len(),
{
    if objects.len() == 0 {
        0
    } else {
        count_of(objects.drop_last(), geometry) + if objects.last().geometry == geometry {
            1nat
        } else {
            0nat
        }
    }
}

/// The number of a shape in two runs of objects, one after the other, is the sum of its
/// numbers in the two.
pub proof fn lemma_count_of_add(
    front: Seq<SceneObject>,
    back: Seq<SceneObject>,
    geometry: GeometryHandle,
)
    ensures
        count_of(front + back, geometry) == count_of(front, geometry) + count_of(back, geometry),
    decreases back.len(),
{
    if back.len() == 0 {
        assert(front + back =~= front);
    } else {
        lemma_count_of_add(front, back.drop_last(), geometry);
        assert((front + back).drop_last() =~= front + back.drop_last());
    }
}

/// Where every object of a run has the shape `geometry`, the number of that shape is the
/// length of the run.
pub proof fn lemma_count_of_uniform(objects: Seq<SceneObject>, geometry: GeometryHandle)
    requires
        forall|i: int| 0 <= i < objects.len() ==> objects[i].geometry == geometry,
    ensures
        count_of(objects, geometry) == objects.len(),
    decreases objects.len(),
{
    if objects.len() > 0 {
        lemma_count_of_uniform(objects.drop_last(), geometry);
    }
}

/// Where no object of a run has the shape `geometry`, the number of that shape is zero.
pub proof fn lemma_count_of_absent(objects: Seq<SceneObject>, geometry: GeometryHandle)
    requires
        forall|i: int| 0 <= i < objects.len() ==> objects[i].geometry != geometry,
    ensures
        count_of(objects, geometry) == 0,
    decreases objects.len(),
{
    if objects.len() > 0 {
        lemma_count_of_absent(objects.drop_last(), geometry);
    }
}

/// A scene under construction, and the scene once it is built. Palette entries and
/// objects are only ever added.
#[derive(Clone, Debug, PartialEq, Eq)]
pub struct Scene {
    pub textures: Vec<TextureRequest>,
    pub geometries: Vec<Shape>,
    pub materials: Vec<Material>,
    pub objects: Vec<SceneObject>,
}

impl Scene {
    /// Whether `handle` names a texture of this scene.
    pub open spec fn has_texture(self, handle: TextureHandle) -> bool {
        handle.index < self.textures@.len()
    }

    /// Whether `handle` names a shape of this scene.
    pub open spec fn has_geometry(self, handle: GeometryHandle) -> bool {
        handle.index < self.geometries@.len()
    }

    /// Whether `handle` names a material of this scene.
    pub open spec fn has_material(self, handle: MaterialHandle) -> bool {
        handle.index < self.materials@.len()
    }

    /// Whether `material` uses only what this scene holds.
    pub open spec fn can_hold(self, material: Material) -> bool {
        match material {
            Material::Plain { .. } => true,
            Material::Textured { texture, .. } => self.has_texture(texture),
        }
    }

    /// Whether every handle in the scene names an entry of the scene.
    pub open spec fn well_formed(self) -> bool {
        &&& forall|i: int|
            0 <= i < self.materials@.len() ==> self.can_hold(#[trigger] self.materials@[i])
        &&& forall|i: int|
            0 <= i < self.objects@.len() ==> self.has_geometry(
                (#[trigger] self.objects@[i]).geometry,
            ) && self.has_material(self.objects@[i].material)
    }

    /// Whether every texture of the scene is asked for in a mode that repeats it beyond
    /// its edges, mirrored or not.
    pub open spec fn textures_wrap(self) -> bool {
        forall|i: int|
            0 <= i < self.textures@.len() ==> (#[trigger] self.textures@[i]).address_mode.wraps()
    }

    /// Whether the material `handle` is one of this scene that repeats its texture
    /// across the surface.
    pub open spec fn repeats_texture(self, handle: MaterialHandle) -> bool {
        self.has_material(handle) && self.materials@[handle.index as int].repeats()
    }

    /// Whether every object with the shape `geometry` has the material `material`.
    pub open spec fn shares_material(self, geometry: GeometryHandle, material: MaterialHandle) -> bool {
        forall|i: int|
            0 <= i < self.objects@.len() && (#[trigger] self.objects@[i]).geometry == geometry
                ==> self.objects@[i].material == material
    }

    /// Whether this scene is `before` with the objects of `added` after its own, and
    /// nothing else changed.
    pub open spec fn extends(self, before: Scene, added: Seq<SceneObject>) -> bool {
        &&& self.textures@ == before.textures@
        &&& self.geometries@ == before.geometries@
        &&& self.materials@ == before.materials@
        &&& self.objects@ == before.objects@ + added
    }

    /// A scene without anything in it.
    pub fn new() -> (scene: Scene)
        ensures
            scene.textures@.len() == 0,
            scene.geometries@.len() == 0,
            scene.materials@.len() == 0,
            scene.objects@.len() == 0,
            scene.well_formed(),
    {
        Scene {
            textures: Vec::new(),
            geometries: Vec::new(),
            materials: Vec::new(),
            objects: Vec::new(),
        }
    }

    /// Asks for a texture, and gives the handle by which the scene knows it.
    pub fn load_texture(&mut self, request: TextureRequest) -> (handle: TextureHandle)
        ensures
            handle.index == old(self).textures@.len(),
            final(self).textures@ == old(self).textures@.push(request),
            final(self).geometries@ == old(self).geometries@,
            final(self).materials@ == old(self).materials@,
            final(self).objects@ == old(self).objects@,
            old(self).well_formed() ==> final(self).well_formed(),
    {
        let handle = TextureHandle { index: self.textures.len() };
        self.textures.push(request);
        handle
    }

    /// Adds a shape, and gives the handle by which the scene knows it.
    pub fn add_geometry(&mut self, shape: Shape) -> (handle: GeometryHandle)
        ensures
            handle.index == old(self).geometries@.len(),
            final(self).geometries@ == old(self).geometries@.push(shape),
            final(self).textures@ == old(self).textures@,
            final(self).materials@ == old(self).materials@,
            final(self).objects@ == old(self).objects@,
            old(self).well_formed() ==> final(self).well_formed(),
    {
        let handle = GeometryHandle { index: self.geometries.len() };
        self.geometries.push(shape);
        handle
    }

    /// Adds a material, and gives the handle by which the scene knows it.
    pub fn add_material(&mut self, material: Material) -> (handle: MaterialHandle)
        requires
            old(self).can_hold(material),
        ensures
            handle.index == old(self).materials@.len(),
            final(self).materials@ == old(self).materials@.push(material),
            final(self).textures@ == old(self).textures@,
            final(self).geometries@ == old(self).geometries@,
            final(self).objects@ == old(self).objects@,
            old(self).well_formed() ==> final(self).well_formed(),
    {
        let handle = MaterialHandle { index: self.materials.len() };
        self.materials.push(material);
        handle
    }

    /// Places the shape `geometry` with the material `material` in the world.
    pub fn spawn(&mut self, geometry: GeometryHandle, material: MaterialHandle, placement: Placement)
        requires
            old(self).has_geometry(geometry),
            old(self).has_material(material),
        ensures
            final(self).objects@ == old(self).objects@.push(
                SceneObject { geometry, material, placement },
            ),
            final(self).textures@ == old(self).textures@,
            final(self).geometries@ == old(self).geometries@,
            final(self).materials@ == old(self).materials@,
            old(self).well_formed() ==> final(self).well_formed(),
    {
        self.objects.push(SceneObject { geometry, material, placement });
    }

    /// How the texture `handle` is addressed.
    pub fn address_mode_of(&self, handle: TextureHandle) -> (mode: AddressMode)
        requires
            self.has_texture(handle),
        ensures
            mode == self.textures@[handle.index as int].address_mode,
    {
        self.textures[handle.index].address_mode
    }

    /// How many objects have the shape `geometry`.
    pub fn placements_of(&self, geometry: GeometryHandle) -> (count: usize)
        ensures
            count == count_of(self.objects@, geometry),
    {
        let mut count: usize = 0;
        let mut seen: usize = 0;
        while seen < self.objects.len()
            invariant
                seen <= self.objects@.len(),
                count <= seen,
                count == count_of(self.objects@.take(seen as int), geometry),
            decreases self.objects@.len() - seen,
        {
            proof {
                assert(self.objects@.take(seen + 1).drop_last() =~= self.objects@.take(
                    seen as int,
                ));
            }
            if self.objects[seen].geometry.index == geometry.index {
                count = count + 1;
            }
            seen = seen + 1;
        }
        proof {
            assert(self.objects@.take(seen as int) =~= self.objects@);
        }
        count
    }
}

} // verus!
