//! One running sky: the plugin's schedule, driven from startup through the
//! frames.

use vstd::prelude::*;
use crate::material::AtmosphereMat;
use crate::plugin::AtmospherePlugin;
use crate::resource::{lemma_written_all, version_count, SharedMaterial, SharedMaterialView};
use crate::scalar::{lemma_abs, lemma_neg_keeps_magnitude};
use crate::schedule::{
    host_of, lemma_run_none, lemma_run_one, run_stage, Host, Setup, SkyState, SkySystem,
};
use crate::sky::{initial_material, sky_sphere, SkySphere};
use crate::transform::GlobalTransform;

verus! {

/// How far a running sky has come.
#[derive(Clone, Copy, Debug, PartialEq, Eq, Structural)]
pub enum Phase {
    /// The sky sphere is not built yet.
    Uninitialized,
    /// The sky sphere is built and no frame has run since.
    Built,
    /// The sky sphere is kept up frame after frame. Nothing leads out of
    /// this phase.
    SteadyState,
}

/// What a running sky holds.
pub struct AtmosphereView {
    /// The configuration it was made with.
    pub plugin: AtmospherePlugin,
    /// What its systems keep between their runs.
    pub state: SkyState,
    /// Whether a frame has run with the sphere built.
    pub steady: bool,
}

impl AtmosphereView {
    /// A sky on which nothing has run yet.
    pub open spec fn initial(plugin: AtmospherePlugin) -> AtmosphereView {
        AtmosphereView { plugin, state: SkyState::initial(), steady: false }
    }

    /// How far the sky has come.
    pub open spec fn phase(self) -> Phase {
        if self.state.sky is None {
            Phase::Uninitialized
        } else if self.steady {
            Phase::SteadyState
        } else {
            Phase::Built
        }
    }

    /// The sky after startup: the sphere is built if it was not.
    pub open spec fn after_startup(self, host: Host) -> AtmosphereView {
        AtmosphereView {
            plugin: self.plugin,
            state: self.state.built(self.plugin.sky_radius, host),
            steady: self.steady,
        }
    }

    /// The sky after one frame: first the sync, if the sky is dynamic, then
    /// the follow.
    pub open spec fn after_update(self, host: Host) -> AtmosphereView {
        let synced = if self.plugin.dynamic {
            self.state.synced(host)
        } else {
            self.state
        };
        AtmosphereView {
            plugin: self.plugin,
            state: synced.followed(host),
            steady: self.steady || self.state.sky is Some,
        }
    }

    /// The sky after the host has put `material` in the sphere's place for
    /// it. Without a sphere nothing changes.
    pub open spec fn with_sky_material(self, material: AtmosphereMat) -> AtmosphereView {
        AtmosphereView {
            plugin: self.plugin,
            state: SkyState {
                sky: match self.state.sky {
                    Some(sky) => Some(SkySphere { material, ..sky }),
                    None => None,
                },
                seen: self.state.seen,
            },
            steady: self.steady,
        }
    }

    /// The sky after the host has put the sphere at `transform`. Without a
    /// sphere nothing changes.
    pub open spec fn with_sky_transform(self, transform: GlobalTransform) -> AtmosphereView {
        AtmosphereView {
            plugin: self.plugin,
            state: SkyState {
                sky: match self.state.sky {
                    Some(sky) => Some(SkySphere { transform, ..sky }),
                    None => None,
                },
                seen: self.state.seen,
            },
            steady: self.steady,
        }
    }
}

/// One running sky. It is made from a configuration, started once, and
/// then updated every frame for as long as the host runs.
///
/// The sky holds the one sphere there is, so no system has to look for it
/// among the entities, and the version of the shared material that the sync
/// last saw, so that each write is taken up once.
#[derive(Debug)]
pub struct Atmosphere {
    plugin: AtmospherePlugin,
    setup: Setup,
    state: SkyState,
    steady: bool,
}

impl View for Atmosphere {
    type V = AtmosphereView;

    closed spec fn view(&self) -> AtmosphereView {
        AtmosphereView { plugin: self.plugin, state: self.state, steady: self.steady }
    }
}

impl Atmosphere {
    /// The stages hold what the configuration schedules, and nothing else.
    #[verifier::type_invariant]
    spec fn scheduled_as_configured(self) -> bool {
        self.setup@ == self.plugin.schedule()
    }

    /// A sky for the configuration `plugin`, on which nothing has run yet.
    /// What runs in each stage is settled here, once.
    pub fn new(plugin: AtmospherePlugin) -> (sky: Atmosphere)
        ensures
            sky@ == AtmosphereView::initial(plugin),
            sky@.phase() == Phase::Uninitialized,
    {
        let setup = plugin.build();
        Atmosphere { plugin, setup, state: SkyState { sky: None, seen: None }, steady: false }
    }

    /// The configuration that the sky was made with.
    pub fn plugin(&self) -> (plugin: AtmospherePlugin)
        ensures
            plugin == self@.plugin,
    {
        self.plugin
    }

    /// How far the sky has come.
    pub fn phase(&self) -> (phase: Phase)
        ensures
            phase == self@.phase(),
    {
        if self.state.sky.is_none() {
            Phase::Uninitialized
        } else if self.steady {
            Phase::SteadyState
        } else {
            Phase::Built
        }
    }

    /// The sky sphere as it is now, `None` before it is built.
    pub fn sky(&self) -> (sky: Option<SkySphere>)
        ensures
            sky == self@.state.sky,
    {
        self.state.sky
    }

    /// Runs the startup stage.
    ///
    /// `shared` is the host's shared material, `None` where it has none.
    /// The sphere is built from it, or from the Earth preset; a sphere that
    /// is there already stays as it is.
    pub fn startup(&mut self, shared: Option<&SharedMaterial>)
        ensures
            final(self)@ == old(self)@.after_startup(host_of(None, shared)),
            final(self)@.state.sky is Some,
    {
        proof {
            use_type_invariant(&*self);
            lemma_run_one(
                self.state,
                SkySystem::AddSkySphere,
                self.plugin.sky_radius,
                host_of(None, shared),
            );
            assert(self.setup@.startup =~= seq![SkySystem::AddSkySphere]);
        }
        let mut state = self.state;
        run_stage(&self.setup.startup, &self.setup.sky_radius, None, shared, &mut state);
        self.state = state;
    }

    /// Runs one frame: the update stage, then the last stage.
    ///
    /// `camera` is the world transform of the active camera, as it is after
    /// the transforms of the frame were propagated, and `shared` the host's
    /// shared material; each is `None` where the host has none.
    pub fn update(&mut self, camera: Option<&GlobalTransform>, shared: Option<&SharedMaterial>)
        ensures
            final(self)@ == old(self)@.after_update(host_of(camera, shared)),
    {
        let ghost host = host_of(camera, shared);
        proof {
            use_type_invariant(&*self);
            lemma_run_none(self.state, self.plugin.sky_radius, host);
            lemma_run_one(self.state, SkySystem::DynamicSky, self.plugin.sky_radius, host);
            if self.plugin.dynamic {
                assert(self.setup@.update =~= seq![SkySystem::DynamicSky]);
            } else {
                assert(self.setup@.update =~= Seq::<SkySystem>::empty());
            }
            assert(self.setup@.last =~= seq![SkySystem::SkyFollow]);
        }
        let mut state = self.state;
        let built = state.sky.is_some();
        run_stage(&self.setup.update, &self.setup.sky_radius, camera, shared, &mut state);
        proof {
            lemma_run_one(state, SkySystem::SkyFollow, self.plugin.sky_radius, host);
        }
        run_stage(&self.setup.last, &self.setup.sky_radius, camera, shared, &mut state);
        self.state = state;
        if built {
            self.steady = true;
        }
    }

    /// Puts `material` in the place of the sphere's own, as a system of the
    /// host does that changes the sky by hand. Without a sphere nothing
    /// changes.
    pub fn set_sky_material(&mut self, material: AtmosphereMat)
        ensures
            final(self)@ == old(self)@.with_sky_material(material),
    {
        proof {
            use_type_invariant(&*self);
        }
        if let Some(mut sky) = self.state.sky {
            sky.material = material;
            self.state.sky = Some(sky);
        }
    }

    /// Puts the sphere at `transform`, as a system of the host does that
    /// turns or scales the sky. Without a sphere nothing changes.
    pub fn set_sky_transform(&mut self, transform: GlobalTransform)
        ensures
            final(self)@ == old(self)@.with_sky_transform(transform),
    {
        proof {
            use_type_invariant(&*self);
        }
        if let Some(mut sky) = self.state.sky {
            sky.transform = transform;
            self.state.sky = Some(sky);
        }
    }
}

/// Startup builds the one sky sphere: afterwards there is a sphere, made
/// from the host's material or the Earth preset, and it reaches as far as
/// the absolute value of the configured radius. That is as far as
/// configured, unless the configured radius is below zero or not a number;
/// where the configured sign is clear the two are the same bit for bit, and
/// the sphere looks inward. A second startup changes nothing.
pub proof fn lemma_startup_builds_once(plugin: AtmospherePlugin, host: Host, again: Host)
    ensures
        ({
            let started = AtmosphereView::initial(plugin).after_startup(host);
            &&& started.phase() == Phase::Built
            &&& started.state.sky == Some(
                sky_sphere(plugin.sky_radius, initial_material(host.config())),
            )
            &&& started.state.sky.unwrap().mesh.bounding_radius() == plugin.sky_radius.absolute()
            &&& !plugin.sky_radius.nan() && !plugin.sky_radius.negative()
                ==> started.state.sky.unwrap().mesh.bounding_radius().same_number(
                plugin.sky_radius,
            )
            &&& !plugin.sky_radius.sign_negative() ==> {
                &&& started.state.sky.unwrap().mesh.bounding_radius() == plugin.sky_radius
                &&& started.state.sky.unwrap().mesh.inward_facing()
            }
            &&& started.after_startup(again) == started
        }),
{
    lemma_neg_keeps_magnitude(plugin.sky_radius);
    lemma_abs(plugin.sky_radius);
}

/// A frame never makes or loses the sphere and changes nothing of it but
/// where it is and what material it has. Before the sphere is built the sky
/// stays uninitialized; once it is built, every frame leaves the sky in its
/// steady state.
pub proof fn lemma_update_keeps_the_sphere(sky: AtmosphereView, host: Host)
    ensures
        ({
            let after = sky.after_update(host);
            &&& after.plugin == sky.plugin
            &&& after.state.sky is Some <==> sky.state.sky is Some
            &&& sky.phase() == Phase::Uninitialized ==> after.phase() == Phase::Uninitialized
            &&& sky.phase() != Phase::Uninitialized ==> after.phase() == Phase::SteadyState
            &&& sky.state.sky is Some ==> {
                &&& after.state.sky.unwrap().mesh == sky.state.sky.unwrap().mesh
                &&& after.state.sky.unwrap().name == sky.state.sky.unwrap().name
                &&& after.state.sky.unwrap().not_shadow_caster
                    == sky.state.sky.unwrap().not_shadow_caster
            }
        }),
{
}

/// After a frame with an active camera the sphere is where the camera is,
/// turned and scaled as before. After a frame without one it is where it
/// was. This holds whether or not the sky is dynamic.
pub proof fn lemma_update_follows_camera(sky: AtmosphereView, host: Host)
    requires
        sky.state.sky is Some,
    ensures
        ({
            let before = sky.state.sky.unwrap().transform;
            let after = sky.after_update(host).state.sky.unwrap().transform;
            &&& after.rotation == before.rotation
            &&& after.scale == before.scale
            &&& host.camera is Some ==> after.translation == host.camera.unwrap().translation
            &&& host.camera is None ==> after.translation == before.translation
        }),
{
}

/// A dynamic sky takes up each write to the shared material once.
///
/// Let the sync have seen the shared material as it is, or nothing yet.
/// After a write, the next frame leaves the sphere with the written value
/// and the sync caught up. A frame after that, with no write in between,
/// leaves the sphere's material as it finds it: the written value, or
/// whatever the host has put in its place by hand.
pub proof fn lemma_sync_takes_each_write_once(
    sky: AtmosphereView,
    shared: SharedMaterialView,
    value: AtmosphereMat,
    by_hand: AtmosphereMat,
    camera: Option<GlobalTransform>,
    later_camera: Option<GlobalTransform>,
)
    requires
        sky.plugin.dynamic,
        sky.state.sky is Some,
        sky.state.seen is None || sky.state.seen == Some(shared.version),
    ensures
        ({
            let written = shared.written(value);
            let first = sky.after_update(Host { camera, shared: Some(written) });
            let later = Host { camera: later_camera, shared: Some(written) };
            &&& first.state.sky.unwrap().material == value
            &&& first.state.seen == Some(written.version)
            &&& first.after_update(later).state.sky.unwrap().material == value
            &&& first.with_sky_material(by_hand).after_update(later).state.sky.unwrap().material
                == by_hand
        }),
{
}

/// A dynamic sky takes up the last of several writes.
///
/// Let the sync have seen the shared material as it is, or nothing yet.
/// After any number of writes, fewer than there are versions, the next
/// frame leaves the sphere with the value that was written last.
pub proof fn lemma_sync_takes_the_last_write(
    sky: AtmosphereView,
    shared: SharedMaterialView,
    values: Seq<AtmosphereMat>,
    camera: Option<GlobalTransform>,
)
    requires
        sky.plugin.dynamic,
        sky.state.sky is Some,
        sky.state.seen is None || sky.state.seen == Some(shared.version),
        0 < values.len() < version_count(),
    ensures
        ({
            let written = shared.written_all(values);
            let after = sky.after_update(Host { camera, shared: Some(written) });
            &&& after.state.sky.unwrap().material == values.last()
            &&& after.state.seen == Some(written.version)
        }),
{
    lemma_written_all(shared, values);
}

/// A frame in which the host shows what it showed the frame before changes
/// nothing: the sphere is at the camera already, and the sync has seen the
/// shared material as it is.
pub proof fn lemma_update_settles(sky: AtmosphereView, host: Host)
    ensures
        sky.after_update(host).after_update(host) == sky.after_update(host),
{
}

/// The sync and the follow do not get in each other's way: whichever runs
/// first in a frame, the frame ends the same.
pub proof fn lemma_sync_and_follow_commute(state: SkyState, host: Host)
    ensures
        state.synced(host).followed(host) == state.followed(host).synced(host),
{
}

/// A sky that is not dynamic never touches the sphere's material: the sync
/// is in no stage, and whatever the host does to the shared material, a
/// frame leaves the sphere's material, and what the sync has seen, as they
/// were.
pub proof fn lemma_static_sky_keeps_material(sky: AtmosphereView, host: Host)
    requires
        !sky.plugin.dynamic,
    ensures
        !sky.plugin.schedule().schedules(SkySystem::DynamicSky),
        sky.after_update(host).state.seen == sky.state.seen,
        sky.state.sky is Some ==> sky.after_update(host).state.sky.unwrap().material
            == sky.state.sky.unwrap().material,
{
    let setup = sky.plugin.schedule();
    assert(setup.startup =~= seq![SkySystem::AddSkySphere]);
    assert(setup.last =~= seq![SkySystem::SkyFollow]);
}

} // verus!
