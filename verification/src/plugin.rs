//! The plugin's configuration and what it schedules.

use vstd::prelude::*;
use crate::scalar::Scalar;
use crate::schedule::{
    Setup, SetupView, ShaderStage, SkyShader, SkySystem, SKY_FRAGMENT_SHADER_ID,
    SKY_VERTEX_SHADER_ID,
};
use crate::sky::SkyRadius;

verus! {

/// The bits of ten, the radius of the sky sphere where none is configured.
pub const DEFAULT_SKY_RADIUS_BITS: u32 = 0x4120_0000;

/// Sets up the sky and the systems that control it.
#[derive(Clone, Copy, Debug, PartialEq, Eq, Structural)]
pub struct AtmospherePlugin {
    /// If set, the sky sphere takes up the shared material whenever the
    /// host writes it. If not, the system that does so is not scheduled at
    /// all, and the host brings a change to the sky by a system of its own.
    pub dynamic: bool,
    /// The radius of the sky sphere.
    pub sky_radius: Scalar,
}

impl AtmospherePlugin {
    /// The configuration of a host that configures nothing: a sky that is
    /// not dynamic, of radius ten.
    pub open spec fn spec_default() -> AtmospherePlugin {
        AtmospherePlugin { dynamic: false, sky_radius: Scalar { bits: DEFAULT_SKY_RADIUS_BITS } }
    }

    /// What this configuration adds to an application. The two shaders
    /// are registered under their identifiers. The sphere is built at
    /// startup and follows the camera in the last stage of every frame; the
    /// sync runs every frame if the sky is dynamic, and is in no stage if it
    /// is not.
    pub open spec fn schedule(self) -> SetupView {
        SetupView {
            shaders: seq![
                SkyShader { id: SKY_VERTEX_SHADER_ID, stage: ShaderStage::Vertex },
                SkyShader { id: SKY_FRAGMENT_SHADER_ID, stage: ShaderStage::Fragment },
            ],
            startup: seq![SkySystem::AddSkySphere],
            update: if self.dynamic {
                seq![SkySystem::DynamicSky]
            } else {
                Seq::empty()
            },
            last: seq![SkySystem::SkyFollow],
            sky_radius: self.sky_radius,
        }
    }

    /// Composes what the plugin adds to an application.
    pub fn build(&self) -> (setup: Setup)
        ensures
            setup@ == self.schedule(),
            setup@.schedules(SkySystem::AddSkySphere),
            setup@.schedules(SkySystem::SkyFollow),
            setup@.schedules(SkySystem::DynamicSky) == self.dynamic,
    {
        let mut shaders: Vec<SkyShader> = Vec::new();
        shaders.push(SkyShader { id: SKY_VERTEX_SHADER_ID, stage: ShaderStage::Vertex });
        shaders.push(SkyShader { id: SKY_FRAGMENT_SHADER_ID, stage: ShaderStage::Fragment });
        let mut startup: Vec<SkySystem> = Vec::new();
        startup.push(SkySystem::AddSkySphere);
        let mut last: Vec<SkySystem> = Vec::new();
        last.push(SkySystem::SkyFollow);
        let mut update: Vec<SkySystem> = Vec::new();
        if self.dynamic {
            update.push(SkySystem::DynamicSky);
        }
        let setup = Setup {
            shaders,
            startup,
            update,
            last,
            sky_radius: SkyRadius::new(self.sky_radius),
        };
        proof {
            let expected = self.schedule();
            assert(setup@.shaders =~= expected.shaders);
            assert(setup@.startup =~= expected.startup);
            assert(setup@.update =~= expected.update);
            assert(setup@.last =~= expected.last);
            assert(setup@.startup[0] == SkySystem::AddSkySphere);
            assert(setup@.last[0] == SkySystem::SkyFollow);
            if self.dynamic {
                assert(setup@.update[0] == SkySystem::DynamicSky);
            }
        }
        setup
    }
}

impl Default for AtmospherePlugin {
    /// A sky that is not dynamic, of radius ten.
    fn default() -> (plugin: AtmospherePlugin)
        ensures
            plugin == AtmospherePlugin::spec_default(),
    {
        AtmospherePlugin { dynamic: false, sky_radius: Scalar::from_bits(DEFAULT_SKY_RADIUS_BITS) }
    }
}

} // verus!
