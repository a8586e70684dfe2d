//! The resolved configuration of a run.
use crate::numbers::Real;
use crate::text::texts;
use vstd::prelude::*;

verus! {

#[derive(Clone, Copy, Debug, PartialEq, Eq, Structural)]
pub enum Renderer {
    Cairo,
    OpenGl,
}

/// Operating system a render profile targets.
#[derive(Clone, Copy, Debug, PartialEq, Eq, Structural)]
pub enum Platform {
    Linux,
    Macos,
    Windows,
}

/// One set of render settings.
pub struct RenderProfile {
    pub name: String,
    pub renderer: Renderer,
    pub platform: Platform,
    /// Frames per second.
    pub frame_rate: Real,
    /// Seconds per frame: one divided by the frame rate.
    pub frame_seconds: Real,
    pub pixel_width: u32,
    pub pixel_height: u32,
    pub working_directory: String,
    pub assets_dir: String,
    /// Fonts assumed installed; empty when no allowlist is configured.
    pub allowed_fonts: Vec<String>,
}

impl RenderProfile {
    pub open spec fn spec_pixel_area(&self) -> int {
        self.pixel_width * self.pixel_height
    }

    /// Pixels per frame.
    pub fn pixel_area(&self) -> (area: u64)
        ensures
            area == self.spec_pixel_area(),
    {
        let width: u64 = self.pixel_width as u64;
        let height: u64 = self.pixel_height as u64;
        assert(0 <= width * height <= 0xFFFF_FFFF * 0xFFFF_FFFF) by (nonlinear_arith)
            requires
                0 <= width <= 0xFFFF_FFFF,
                0 <= height <= 0xFFFF_FFFF,
        ;
        width * height
    }
}

/// The effective configuration.
pub struct ResolvedConfig {
    /// Profiles analyzed in this run.
    pub active_profiles: Vec<RenderProfile>,
}

/// Names of a list of profiles.
pub open spec fn profile_names(profiles: Seq<RenderProfile>) -> Seq<Seq<char>> {
    Seq::new(profiles.len(), |i: int| profiles[i].name@)
}

/// Names of the Cairo profiles of a list, in order.
pub open spec fn cairo_names(profiles: Seq<RenderProfile>) -> Seq<Seq<char>>
    decreases profiles.len(),
{
    if profiles.len() == 0 {
        Seq::empty()
    } else if profiles.last().renderer == Renderer::Cairo {
        cairo_names(profiles.drop_last()).push(profiles.last().name@)
    } else {
        cairo_names(profiles.drop_last())
    }
}

/// Names of the profiles of a list that target a renderer, in order.
pub open spec fn renderer_names(profiles: Seq<RenderProfile>, renderer: Renderer) -> Seq<Seq<char>>
    decreases profiles.len(),
{
    if profiles.len() == 0 {
        Seq::empty()
    } else if profiles.last().renderer == renderer {
        renderer_names(profiles.drop_last(), renderer).push(profiles.last().name@)
    } else {
        renderer_names(profiles.drop_last(), renderer)
    }
}

impl ResolvedConfig {
    /// Names of the active profiles.
    pub fn active_profile_names(&self) -> (names: Vec<String>)
        ensures
            texts(names@) == profile_names(self.active_profiles@),
    {
        let mut names: Vec<String> = Vec::new();
        let mut i: usize = 0;
        while i < self.active_profiles.len()
            invariant
                i <= self.active_profiles@.len(),
                names@.len() == i,
                forall|j: int|
                    0 <= j < i ==> (#[trigger] names@[j])@ == self.active_profiles@[j].name@,
            decreases self.active_profiles@.len() - i,
        {
            names.push(self.active_profiles[i].name.clone());
            i += 1;
        }
        assert(texts(names@) =~= profile_names(self.active_profiles@));
        names
    }

    /// Names of the active Cairo profiles.
    pub fn cairo_profile_names(&self) -> (names: Vec<String>)
        ensures
            texts(names@) == cairo_names(self.active_profiles@),
    {
        let mut names: Vec<String> = Vec::new();
        let mut i: usize = 0;
        assert(texts(names@) =~= cairo_names(self.active_profiles@.take(0)));
        while i < self.active_profiles.len()
            invariant
                i <= self.active_profiles@.len(),
                texts(names@) == cairo_names(self.active_profiles@.take(i as int)),
            decreases self.active_profiles@.len() - i,
        {
            let ghost before = names@;
            assert(self.active_profiles@.take(i + 1).drop_last()
                =~= self.active_profiles@.take(i as int));
            if self.active_profiles[i].renderer == Renderer::Cairo {
                names.push(self.active_profiles[i].name.clone());
                assert(texts(names@) =~= texts(before).push(names@.last()@));
            }
            i += 1;
        }
        assert(self.active_profiles@.take(i as int) =~= self.active_profiles@);
        names
    }

    /// Names of the active profiles that target `renderer`.
    pub fn renderer_profile_names(&self, renderer: Renderer) -> (names: Vec<String>)
        ensures
            texts(names@) == renderer_names(self.active_profiles@, renderer),
    {
        let mut names: Vec<String> = Vec::new();
        let mut i: usize = 0;
        assert(texts(names@) =~= renderer_names(self.active_profiles@.take(0), renderer));
        while i < self.active_profiles.len()
            invariant
                i <= self.active_profiles@.len(),
                texts(names@) == renderer_names(self.active_profiles@.take(i as int), renderer),
            decreases self.active_profiles@.len() - i,
        {
            let ghost before = names@;
            assert(self.active_profiles@.take(i + 1).drop_last()
                =~= self.active_profiles@.take(i as int));
            if self.active_profiles[i].renderer == renderer {
                names.push(self.active_profiles[i].name.clone());
                assert(texts(names@) =~= texts(before).push(names@.last()@));
            }
            i += 1;
        }
        assert(self.active_profiles@.take(i as int) =~= self.active_profiles@);
        names
    }
}

} // verus!
