//! Facts about string literals: TeX escapes, Pango markup, and asset paths.
use crate::source::AllocationSite;
use vstd::prelude::*;

verus! {

/// A Python escape that swallows the start of a TeX command.
pub struct TexCollision {
    /// The escape as written.
    pub escape: String,
    /// The TeX command that is lost, without its backslash.
    pub command: String,
    /// Name of the control character that Python puts in its place.
    pub control_character: String,
}

/// Colliding escapes of one literal, in order.
pub struct TexFact {
    pub site: AllocationSite,
    pub collisions: Vec<TexCollision>,
}

/// What is provably wrong with a markup literal.
pub struct MarkupError {
    pub message: String,
    /// The tag that is never closed, when that is the error.
    pub unclosed: Option<String>,
}

/// Markup facts of one literal.
pub struct MarkupFact {
    pub site: AllocationSite,
    pub error: Option<MarkupError>,
    /// First tag that is opened and closed in the literal.
    pub matched_pair: Option<String>,
}

/// How the search for an asset ends under one render profile.
pub enum AssetResolution {
    Found,
    /// The path cannot be checked on this machine.
    Unverifiable,
    /// The path matches only when case is ignored.
    CaseOnlyMismatch { corrected: String },
    NotFound { tried: Vec<String> },
}

/// Asset search of one literal.
pub struct AssetFact {
    pub site: AllocationSite,
    /// Results in the order of the active profiles.
    pub resolutions: Vec<AssetResolution>,
    /// Whether a matching file stands next to the source file.
    pub next_to_source: bool,
    /// Whether the path is absolute and outside the project.
    pub outside_project: bool,
    /// File-system probes in the order of the active profiles.
    pub probes: Vec<AssetProbe>,
}

/// What the file system answers about an asset under one render profile.
pub struct AssetProbe {
    /// Whether the working directory exists.
    pub working_directory: bool,
    /// Whether each path that Manim tries exists as written: below the
    /// working directory, below the assets directory, and there with each
    /// known extension.
    pub exact: Vec<bool>,
    /// Whether the literal matches when case is ignored, below the working
    /// directory and below the assets directory.
    pub literal_matches: Vec<bool>,
    /// The on-disk spelling that each extended name matches when case is
    /// ignored.
    pub extended_matches: Vec<Option<String>>,
}

/// Facts about the string literals of a project.
pub struct LiteralFacts {
    pub tex: Vec<TexFact>,
    pub markup: Vec<MarkupFact>,
    pub assets: Vec<AssetFact>,
}

/// The first TeX fact, from `i` on, about the literal at `site`.
pub open spec fn tex_from(list: Seq<TexFact>, site: AllocationSite, i: int) -> Option<TexFact>
    decreases list.len() - i,
{
    if i < 0 || i >= list.len() {
        None
    } else if list[i].site == site {
        Some(list[i])
    } else {
        tex_from(list, site, i + 1)
    }
}

/// The first markup fact, from `i` on, about the literal at `site`.
pub open spec fn markup_from(list: Seq<MarkupFact>, site: AllocationSite, i: int) -> Option<
    MarkupFact,
>
    decreases list.len() - i,
{
    if i < 0 || i >= list.len() {
        None
    } else if list[i].site == site {
        Some(list[i])
    } else {
        markup_from(list, site, i + 1)
    }
}

/// The first asset fact, from `i` on, about the literal at `site`.
pub open spec fn asset_from(list: Seq<AssetFact>, site: AllocationSite, i: int) -> Option<AssetFact>
    decreases list.len() - i,
{
    if i < 0 || i >= list.len() {
        None
    } else if list[i].site == site {
        Some(list[i])
    } else {
        asset_from(list, site, i + 1)
    }
}

impl LiteralFacts {
    /// TeX facts of the literal at `site`.
    pub fn tex_at(&self, site: AllocationSite) -> (fact: Option<&TexFact>)
        ensures
            match fact {
                Some(found) => tex_from(self.tex@, site, 0) == Some(*found),
                None => tex_from(self.tex@, site, 0) is None,
            },
    {
        let mut i: usize = 0;
        while i < self.tex.len()
            invariant
                i <= self.tex@.len(),
                tex_from(self.tex@, site, 0) == tex_from(self.tex@, site, i as int),
            decreases self.tex@.len() - i,
        {
            if self.tex[i].site == site {
                return Some(&self.tex[i]);
            }
            i += 1;
        }
        None
    }

    /// Markup facts of the literal at `site`.
    pub fn markup_at(&self, site: AllocationSite) -> (fact: Option<&MarkupFact>)
        ensures
            match fact {
                Some(found) => markup_from(self.markup@, site, 0) == Some(*found),
                None => markup_from(self.markup@, site, 0) is None,
            },
    {
        let mut i: usize = 0;
        while i < self.markup.len()
            invariant
                i <= self.markup@.len(),
                markup_from(self.markup@, site, 0) == markup_from(self.markup@, site, i as int),
            decreases self.markup@.len() - i,
        {
            if self.markup[i].site == site {
                return Some(&self.markup[i]);
            }
            i += 1;
        }
        None
    }

    /// Asset facts of the literal at `site`.
    pub fn asset_at(&self, site: AllocationSite) -> (fact: Option<&AssetFact>)
        ensures
            match fact {
                Some(found) => asset_from(self.assets@, site, 0) == Some(*found),
                None => asset_from(self.assets@, site, 0) is None,
            },
    {
        let mut i: usize = 0;
        while i < self.assets.len()
            invariant
                i <= self.assets@.len(),
                asset_from(self.assets@, site, 0) == asset_from(self.assets@, site, i as int),
            decreases self.assets@.len() - i,
        {
            if self.assets[i].site == site {
                return Some(&self.assets[i]);
            }
            i += 1;
        }
        None
    }

    /// Facts about no literal.
    pub fn empty() -> (facts: LiteralFacts)
        ensures
            facts.tex@.len() == 0,
            facts.markup@.len() == 0,
            facts.assets@.len() == 0,
    {
        LiteralFacts { tex: Vec::new(), markup: Vec::new(), assets: Vec::new() }
    }
}

} // verus!
