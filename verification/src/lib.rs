//! A procedural sky dome that follows the active camera.
//!
//! The crate holds the decisions of the sky subsystem as verified functions
//! on plain values: which systems a configuration schedules, what the sky
//! sphere is built from, how it follows the camera, when the shared
//! material is copied into the sphere's own, and how a material is laid out
//! for the shader. The host engine stores the entities and runs the frame
//! loop; it hands these functions what it looked up and applies what they
//! return.
//!
//! Real numbers are held as their single-precision bit patterns
//! ([`Scalar`]): the sky never computes with them, so nothing is lost.

pub mod material;
pub mod plugin;
pub mod resource;
pub mod scalar;
pub mod schedule;
pub mod session;
pub mod sky;
pub mod transform;
pub mod uniform;

pub use material::AtmosphereMat;
pub use plugin::AtmospherePlugin;
pub use resource::SharedMaterial;
pub use scalar::Scalar;
pub use schedule::{
    run_stage, run_system, Setup, ShaderStage, SkyShader, SkyState, SkySystem,
    SKY_FRAGMENT_SHADER_ID, SKY_VERTEX_SHADER_ID,
};
pub use session::{Atmosphere, Phase};
pub use sky::{
    atmosphere_add_sky_sphere, atmosphere_dynamic_sky, atmosphere_sky_follow, Icosphere,
    SkyRadius, SkySphere, SKY_SPHERE_NAME, SKY_SPHERE_SUBDIVISIONS,
};
pub use transform::{GlobalTransform, Quat, Vec3};
pub use uniform::{pack, UniformMember, UNIFORM_WORDS};
