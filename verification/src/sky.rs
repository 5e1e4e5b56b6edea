//! The sky sphere: how it is built, how it follows the camera, and how it
//! takes up a changed material.

use vstd::prelude::*;
use crate::material::AtmosphereMat;
use crate::resource::{SharedMaterial, SharedMaterialView};
use crate::scalar::{lemma_abs, lemma_neg_keeps_magnitude, Scalar};
use crate::transform::GlobalTransform;

verus! {

/// The name tag of the sky sphere, by which a host finds it.
pub const SKY_SPHERE_NAME: &'static str = "Sky Sphere";

/// How often the faces of the sky sphere's icosahedron are split.
pub const SKY_SPHERE_SUBDIVISIONS: usize = 2;

/// The radius that the plugin was configured with. It is set once, when the
/// plugin is built, and only read after that.
#[derive(Clone, Copy, Debug)]
pub struct SkyRadius(Scalar);

impl View for SkyRadius {
    type V = Scalar;

    closed spec fn view(&self) -> Scalar {
        self.0
    }
}

impl SkyRadius {
    /// The configured radius `radius`.
    pub fn new(radius: Scalar) -> (r: SkyRadius)
        ensures
            r@ == radius,
    {
        SkyRadius(radius)
    }

    /// The radius as it was configured.
    pub fn get(&self) -> (radius: Scalar)
        ensures
            radius == self@,
    {
        self.0
    }
}

/// A sphere made by splitting the faces of an icosahedron. The sign of the
/// radius says which way the faces look: outward where it is clear, inward,
/// to a viewer inside the sphere, where it is set.
#[derive(Clone, Copy, Debug, PartialEq, Eq, Structural)]
pub struct Icosphere {
    pub radius: Scalar,
    pub subdivisions: usize,
}

impl Icosphere {
    /// How far the sphere reaches from its centre, whichever way it faces.
    pub open spec fn bounding_radius(self) -> Scalar {
        self.radius.absolute()
    }

    /// Whether the faces look at the centre.
    pub open spec fn inward_facing(self) -> bool {
        self.radius.sign_negative()
    }

    /// How far the sphere reaches from its centre.
    pub fn get_bounding_radius(&self) -> (r: Scalar)
        ensures
            r == self.bounding_radius(),
    {
        self.radius.abs()
    }

    /// Whether the faces look at the centre.
    pub fn is_inward_facing(&self) -> (b: bool)
        ensures
            b == self.inward_facing(),
    {
        self.radius.is_sign_negative()
    }
}

/// Everything the sky entity is spawned with.
#[derive(Clone, Copy, Debug, PartialEq, Eq)]
pub struct SkySphere {
    /// The dome's geometry.
    pub mesh: Icosphere,
    /// The sphere's own copy of the material.
    pub material: AtmosphereMat,
    /// Where the sphere is in the world.
    pub transform: GlobalTransform,
    /// The sphere casts no shadow.
    pub not_shadow_caster: bool,
    /// The sphere's name tag.
    pub name: &'static str,
}

/// The sky sphere for a configured radius and a material: an icosphere of
/// the negated radius, so that a positive radius gives faces that look
/// inward, at the origin, casting no shadow, under its name.
pub open spec fn sky_sphere(radius: Scalar, material: AtmosphereMat) -> SkySphere {
    SkySphere {
        mesh: Icosphere { radius: radius.negated(), subdivisions: SKY_SPHERE_SUBDIVISIONS },
        material,
        transform: GlobalTransform::spec_identity(),
        not_shadow_caster: true,
        name: SKY_SPHERE_NAME,
    }
}

/// The material the sky sphere starts with: the configured one where the
/// host supplied one, else the Earth preset.
pub open spec fn initial_material(config: Option<AtmosphereMat>) -> AtmosphereMat {
    match config {
        Some(m) => m,
        None => AtmosphereMat::earth(),
    }
}

/// Builds the sky sphere, once, at startup.
///
/// The sphere gets a copy of `config`, or the Earth preset where there is
/// none, and the configured radius negated. Whatever the configured radius,
/// the sphere reaches as far as its absolute value. So it reaches as far as
/// configured unless the configured radius is below zero or not a number;
/// where the sign is clear the two are the same bit for bit, and the faces
/// look inward.
pub fn atmosphere_add_sky_sphere(
    sky_radius: &SkyRadius,
    config: Option<&AtmosphereMat>,
) -> (sky: SkySphere)
    ensures
        sky == sky_sphere(
            sky_radius@,
            initial_material(
                match config {
                    Some(m) => Some(*m),
                    None => None,
                },
            ),
        ),
        sky.mesh.bounding_radius() == sky_radius@.absolute(),
        !sky_radius@.nan() && !sky_radius@.negative() ==> sky.mesh.bounding_radius().same_number(
            sky_radius@,
        ),
        !sky_radius@.sign_negative() ==> sky.mesh.bounding_radius() == sky_radius@
            && sky.mesh.inward_facing(),
{
    let material = match config {
        None => AtmosphereMat::default(),
        Some(c) => *c,
    };
    proof {
        lemma_neg_keeps_magnitude(sky_radius@);
        lemma_abs(sky_radius@);
    }
    SkySphere {
        mesh: Icosphere { radius: sky_radius.get().neg(), subdivisions: SKY_SPHERE_SUBDIVISIONS },
        material,
        transform: GlobalTransform::identity(),
        not_shadow_caster: true,
        name: SKY_SPHERE_NAME,
    }
}

/// Moves the sky sphere to the active camera, every frame, after the
/// transforms of the frame have been propagated.
///
/// `camera` is the world transform of the active camera, `None` where no
/// camera is active or the active one has no transform. `sky` is the world
/// transform of the sky sphere, `None` where there is no sphere; where the
/// host finds more than one it hands over the first it meets, and the
/// others stay where they are. With both there, the sphere takes the
/// camera's translation and keeps its own rotation and scale; else nothing
/// changes.
pub fn atmosphere_sky_follow(camera: Option<&GlobalTransform>, sky: Option<&mut GlobalTransform>)
    ensures
        match sky {
            Some(s) => *final(s) == sky_after_follow(
                match camera {
                    Some(c) => Some(*c),
                    None => None,
                },
                *s,
            ),
            None => true,
        },
{
    if let Some(camera_transform) = camera {
        if let Some(sky_transform) = sky {
            sky_transform.translation = camera_transform.translation;
        }
    }
}

/// Where the sky sphere is after following: at the camera, as it was turned
/// and scaled before; where it was, if there is no camera.
pub open spec fn sky_after_follow(
    camera: Option<GlobalTransform>,
    sky: GlobalTransform,
) -> GlobalTransform {
    match camera {
        Some(c) => sky.moved_to(c.translation),
        None => sky,
    }
}

/// Copies the shared material into the sky sphere's own when the shared one
/// was written.
///
/// `config` is the shared material, `None` where the host has none. `seen`
/// is the version of it that this last took up, `None` where it took up
/// nothing yet. `sky_mat` is the sphere's own material, `None` where there
/// is no sphere or its material cannot be had in this frame; where the host
/// finds more than one sphere it hands over the first it meets.
///
/// With both materials there, the sphere's becomes a copy of the shared one
/// if that was written since the version in `seen`, and `seen` moves to the
/// version that is there now. So each write is taken up once, and a frame
/// without a write leaves the sphere's material as it is, also where the
/// host has changed it by hand. With either missing nothing changes: a
/// write that could not be taken up waits for a later frame.
pub fn atmosphere_dynamic_sky(
    config: Option<&SharedMaterial>,
    seen: &mut Option<u64>,
    sky_mat: Option<&mut AtmosphereMat>,
)
    ensures
        match sky_mat {
            Some(m) => {
                &&& *final(m) == material_after_sync(shared_of(config), *old(seen), *m)
                &&& *final(seen) == seen_after_sync(shared_of(config), *old(seen), true)
            },
            None => *final(seen) == seen_after_sync(shared_of(config), *old(seen), false),
        },
{
    if let Some(shared) = config {
        if let Some(bound) = sky_mat {
            if shared.is_changed_since(*seen) {
                *bound = *shared.get();
            }
            *seen = Some(shared.version());
        }
    }
}

/// What the host's shared material holds, if it has one.
pub open spec fn shared_of(config: Option<&SharedMaterial>) -> Option<SharedMaterialView> {
    match config {
        Some(shared) => Some(shared@),
        None => None,
    }
}

/// The sky sphere's material after a sync: the shared one if there is one
/// and it was written since the version in `seen`, else the sphere's own as
/// it was.
pub open spec fn material_after_sync(
    config: Option<SharedMaterialView>,
    seen: Option<u64>,
    bound: AtmosphereMat,
) -> AtmosphereMat {
    match config {
        Some(shared) if shared.changed_since(seen) => shared.value,
        _ => bound,
    }
}

/// The version that the sync has taken up after it ran: the one that is
/// there now, if there is a shared material and the sphere has a material
/// to take it up; else the one it had taken up before.
pub open spec fn seen_after_sync(
    config: Option<SharedMaterialView>,
    seen: Option<u64>,
    bound: bool,
) -> Option<u64> {
    match config {
        Some(shared) if bound => Some(shared.version),
        _ => seen,
    }
}

} // verus!
