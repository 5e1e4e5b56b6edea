//! The systems of the sky, the stages they run in, and one run of a system.

use vstd::prelude::*;
use crate::material::AtmosphereMat;
use crate::resource::{SharedMaterial, SharedMaterialView};
use crate::scalar::Scalar;
use crate::sky::{
    atmosphere_add_sky_sphere, atmosphere_dynamic_sky, atmosphere_sky_follow, initial_material,
    material_after_sync, seen_after_sync, shared_of, sky_after_follow, sky_sphere, SkyRadius,
    SkySphere,
};
use crate::transform::GlobalTransform;

verus! {

/// A system of the sky.
#[derive(Clone, Copy, Debug, PartialEq, Eq, Structural)]
pub enum SkySystem {
    /// Builds the sky sphere.
    AddSkySphere,
    /// Moves the sky sphere to the active camera.
    SkyFollow,
    /// Copies a changed shared material into the sky sphere's own.
    DynamicSky,
}

/// The stage of the graphics pipeline that a shader is written for.
#[derive(Clone, Copy, Debug, PartialEq, Eq, Structural)]
pub enum ShaderStage {
    /// Passes position and view direction through.
    Vertex,
    /// Computes the colour of the sky.
    Fragment,
}

/// A shader of the sky and the identifier under which the host's registry
/// of shaders knows it.
#[derive(Clone, Copy, Debug, PartialEq, Eq, Structural)]
pub struct SkyShader {
    pub id: u64,
    pub stage: ShaderStage,
}

/// The identifier of the sky's vertex shader.
pub const SKY_VERTEX_SHADER_ID: u64 = 0x5a4b_3c2d_1e0f_a1b2;

/// The identifier of the sky's fragment shader.
pub const SKY_FRAGMENT_SHADER_ID: u64 = 0x6c7d_8e9f_a0b1_c2d3;

/// What the plugin adds to an application, as lists of systems and values.
pub struct SetupView {
    pub shaders: Seq<SkyShader>,
    pub startup: Seq<SkySystem>,
    pub update: Seq<SkySystem>,
    pub last: Seq<SkySystem>,
    pub sky_radius: Scalar,
}

impl SetupView {
    /// Whether `system` runs in any stage.
    pub open spec fn schedules(self, system: SkySystem) -> bool {
        self.startup.contains(system) || self.update.contains(system) || self.last.contains(
            system,
        )
    }
}

/// What the plugin adds to an application: the systems of each stage, in
/// the order in which they run, and the configured radius.
#[derive(Debug)]
pub struct Setup {
    /// The shaders that the sky's material is drawn with.
    pub shaders: Vec<SkyShader>,
    /// Run once, before the first frame.
    pub startup: Vec<SkySystem>,
    /// Run every frame.
    pub update: Vec<SkySystem>,
    /// Run every frame after the transforms were propagated, so that the
    /// camera is where it will be drawn from.
    pub last: Vec<SkySystem>,
    /// The configured radius, for the system that builds the sphere.
    pub sky_radius: SkyRadius,
}

impl View for Setup {
    type V = SetupView;

    open spec fn view(&self) -> SetupView {
        SetupView {
            shaders: self.shaders@,
            startup: self.startup@,
            update: self.update@,
            last: self.last@,
            sky_radius: self.sky_radius@,
        }
    }
}

/// What the systems of the sky keep between their runs.
#[derive(Clone, Copy, Debug)]
pub struct SkyState {
    /// The sky sphere, once it is built. There is never more than one.
    pub sky: Option<SkySphere>,
    /// The version of the shared material that the sync last took up.
    pub seen: Option<u64>,
}

/// What the host shows the systems in one run.
pub struct Host {
    /// The world transform of the active camera, if there is one.
    pub camera: Option<GlobalTransform>,
    /// The shared material, if the host has one.
    pub shared: Option<SharedMaterialView>,
}

impl Host {
    /// The value of the shared material, if the host has one.
    pub open spec fn config(self) -> Option<AtmosphereMat> {
        match self.shared {
            Some(shared) => Some(shared.value),
            None => None,
        }
    }
}

impl SkyState {
    /// Before anything has run: no sphere, nothing seen.
    pub open spec fn initial() -> SkyState {
        SkyState { sky: None, seen: None }
    }

    /// The state with the sphere built, if it was not: from the configured
    /// radius and the host's material, or the Earth preset. A sphere that
    /// exists is left as it is, so there is never a second one.
    pub open spec fn built(self, radius: Scalar, host: Host) -> SkyState {
        match self.sky {
            Some(_) => self,
            None => SkyState {
                sky: Some(sky_sphere(radius, initial_material(host.config()))),
                seen: self.seen,
            },
        }
    }

    /// The state with the sphere moved to the host's camera.
    pub open spec fn followed(self, host: Host) -> SkyState {
        match self.sky {
            Some(sky) => SkyState {
                sky: Some(
                    SkySphere { transform: sky_after_follow(host.camera, sky.transform), ..sky },
                ),
                seen: self.seen,
            },
            None => self,
        }
    }

    /// The state after the sync looked at the host's shared material: the
    /// sphere's material is the shared one if that was written since the
    /// version that the sync last took up, and the sync has now taken up
    /// the version that is there. Without a shared material or without a
    /// sphere nothing changes.
    pub open spec fn synced(self, host: Host) -> SkyState {
        match self.sky {
            Some(sky) => SkyState {
                sky: Some(
                    SkySphere {
                        material: material_after_sync(host.shared, self.seen, sky.material),
                        ..sky
                    },
                ),
                seen: seen_after_sync(host.shared, self.seen, true),
            },
            None => self,
        }
    }

    /// The state after one run of `system`.
    pub open spec fn step(self, system: SkySystem, radius: Scalar, host: Host) -> SkyState {
        match system {
            SkySystem::AddSkySphere => self.built(radius, host),
            SkySystem::SkyFollow => self.followed(host),
            SkySystem::DynamicSky => self.synced(host),
        }
    }

    /// The state after the systems of one stage have run, first to last.
    pub open spec fn run(self, systems: Seq<SkySystem>, radius: Scalar, host: Host) -> SkyState
        decreases systems.len(),
    {
        if systems.len() == 0 {
            self
        } else {
            self.run(systems.drop_last(), radius, host).step(systems.last(), radius, host)
        }
    }
}

/// A stage without systems changes nothing.
pub proof fn lemma_run_none(state: SkyState, radius: Scalar, host: Host)
    ensures
        state.run(Seq::empty(), radius, host) == state,
{
}

/// A stage of one system is one run of that system.
pub proof fn lemma_run_one(state: SkyState, system: SkySystem, radius: Scalar, host: Host)
    ensures
        state.run(seq![system], radius, host) == state.step(system, radius, host),
{
    reveal_with_fuel(SkyState::run, 2);
    assert(seq![system].drop_last() =~= Seq::empty());
}

/// What the host shows, from what it hands over.
pub open spec fn host_of(
    camera: Option<&GlobalTransform>,
    shared: Option<&SharedMaterial>,
) -> Host {
    Host {
        camera: match camera {
            Some(c) => Some(*c),
            None => None,
        },
        shared: shared_of(shared),
    }
}

/// Runs `system` once.
///
/// `camera` is the world transform of the active camera and `shared` the
/// host's shared material, each `None` where the host has none.
pub fn run_system(
    system: SkySystem,
    sky_radius: &SkyRadius,
    camera: Option<&GlobalTransform>,
    shared: Option<&SharedMaterial>,
    state: &mut SkyState,
)
    ensures
        *final(state) == old(state).step(system, sky_radius@, host_of(camera, shared)),
{
    match system {
        SkySystem::AddSkySphere => {
            if state.sky.is_none() {
                let config = match shared {
                    Some(s) => Some(s.get()),
                    None => None,
                };
                state.sky = Some(atmosphere_add_sky_sphere(sky_radius, config));
            }
        },
        SkySystem::SkyFollow => {
            if let Some(mut sky) = state.sky {
                atmosphere_sky_follow(camera, Some(&mut sky.transform));
                state.sky = Some(sky);
            }
        },
        SkySystem::DynamicSky => {
            let mut seen = state.seen;
            if let Some(mut sky) = state.sky {
                atmosphere_dynamic_sky(shared, &mut seen, Some(&mut sky.material));
                state.sky = Some(sky);
            } else {
                atmosphere_dynamic_sky(shared, &mut seen, None);
            }
            state.seen = seen;
        },
    }
}

/// Runs the systems of one stage, first to last.
pub fn run_stage(
    systems: &Vec<SkySystem>,
    sky_radius: &SkyRadius,
    camera: Option<&GlobalTransform>,
    shared: Option<&SharedMaterial>,
    state: &mut SkyState,
)
    ensures
        *final(state) == old(state).run(systems@, sky_radius@, host_of(camera, shared)),
{
    let ghost host = host_of(camera, shared);
    let mut i: usize = 0;
    while i < systems.len()
        invariant
            i <= systems.len(),
            host == host_of(camera, shared),
            *state == old(state).run(systems@.take(i as int), sky_radius@, host),
        decreases systems.len() - i,
    {
        proof {
            let next = systems@.take(i as int + 1);
            assert(next.drop_last() == systems@.take(i as int));
            assert(next.last() == systems@[i as int]);
        }
        run_system(systems[i], sky_radius, camera, shared, state);
        i += 1;
    }
    proof {
        assert(systems@.take(i as int) == systems@);
    }
}

} // verus!
