//! Bookkeeping for a presentation surface: its size, the choice of its
//! texture format, the search for a usable backend, and the region of it that
//! a mesh covers.

use vstd::prelude::*;

verus! {

/// Width and height of a surface in texels.
#[derive(Clone, Copy, Debug, PartialEq, Eq)]
pub struct SurfaceSize {
    pub width: u32,
    pub height: u32,
}

impl SurfaceSize {
    /// A surface can be configured only with a size that has texels.
    pub open spec fn drawable(self) -> bool {
        self.width > 0 && self.height > 0
    }

    /// Takes over a new window size. A size without texels, as a minimised
    /// window reports it, is ignored. Returns whether the size was taken and
    /// the surface has to be configured again.
    pub fn resize(&mut self, width: u32, height: u32) -> (reconfigure: bool)
        ensures
            reconfigure == (SurfaceSize { width, height }).drawable(),
            reconfigure ==> *final(self) == (SurfaceSize { width, height }),
            !reconfigure ==> *final(self) == *old(self),
    {
        if width > 0 && height > 0 {
            self.width = width;
            self.height = height;
            true
        } else {
            false
        }
    }
}

/// Picks a surface format out of those a surface supports. `preferred[i]`
/// says whether the `i`-th supported format is one the caller would like (an
/// sRGB one, say). The first such format is picked; where there is none, the
/// first format is.
pub fn preferred_format(preferred: &[bool]) -> (index: usize)
    requires
        preferred@.len() > 0,
    ensures
        index < preferred@.len(),
        forall|j: int| 0 <= j < index ==> !preferred@[j],
        !preferred@[index as int] ==> index == 0 && forall|j: int|
            0 <= j < preferred@.len() ==> !preferred@[j],
{
    let mut i: usize = 0;
    while i < preferred.len()
        invariant
            i <= preferred@.len(),
            forall|j: int| 0 <= j < i ==> !preferred@[j],
        decreases preferred@.len() - i,
    {
        if preferred[i] {
            return i;
        }
        i = i + 1;
    }
    0
}

/// A step in the search for a graphics backend with at least one adapter.
/// Backends are numbered in the order in which they are to be tried.
#[derive(Clone, Copy, Debug, PartialEq, Eq)]
pub enum Search {
    /// Ask the backend with this number for its adapters.
    Probe(usize),
    /// Use the backend with this number.
    Found(usize),
    /// No backend has an adapter.
    Exhausted,
}

/// The first step of a search among `candidates` backends.
pub open spec fn first_step(candidates: nat) -> Search {
    if candidates > 0 {
        Search::Probe(0)
    } else {
        Search::Exhausted
    }
}

/// The step after backend `probed` of `candidates` was found to have adapters
/// (`usable`) or none.
pub open spec fn next_step(candidates: nat, probed: nat, usable: bool) -> Search {
    if usable {
        Search::Found(probed as usize)
    } else if probed + 1 < candidates {
        Search::Probe((probed + 1) as usize)
    } else {
        Search::Exhausted
    }
}

/// Where a search ends that is about to probe backend `probed`, given for
/// each backend whether it has adapters.
pub open spec fn outcome_from(usable: Seq<bool>, probed: nat) -> Search
    decreases usable.len() - probed,
{
    if probed >= usable.len() {
        Search::Exhausted
    } else {
        match next_step(usable.len(), probed, usable[probed as int]) {
            Search::Probe(_) => outcome_from(usable, probed + 1),
            done => done,
        }
    }
}

/// Where a whole search ends, given for each backend whether it has adapters.
pub open spec fn outcome(usable: Seq<bool>) -> Search {
    match first_step(usable.len()) {
        Search::Probe(_) => outcome_from(usable, 0),
        done => done,
    }
}

/// A search that is about to probe backend `from` finds the first backend at
/// or after it that has adapters, and is exhausted only where there is none.
pub proof fn lemma_outcome_from(usable: Seq<bool>, from: nat)
    requires
        from <= usable.len() <= usize::MAX,
    ensures
        match outcome_from(usable, from) {
            Search::Found(i) => from <= i < usable.len() && usable[i as int] && forall|j: int|
                from <= j < i ==> !usable[j],
            Search::Exhausted => forall|j: int| from <= j < usable.len() ==> !usable[j],
            Search::Probe(_) => false,
        },
    decreases usable.len() - from,
{
    if from < usable.len() && !usable[from as int] {
        lemma_outcome_from(usable, from + 1);
    }
}

/// A whole search picks the first backend that has adapters, and is exhausted
/// only where none has.
pub proof fn lemma_search_finds_first(usable: Seq<bool>)
    requires
        usable.len() <= usize::MAX,
    ensures
        match outcome(usable) {
            Search::Found(i) => i < usable.len() && usable[i as int] && forall|j: int|
                0 <= j < i ==> !usable[j],
            Search::Exhausted => forall|j: int| 0 <= j < usable.len() ==> !usable[j],
            Search::Probe(_) => false,
        },
{
    lemma_outcome_from(usable, 0);
}

/// Starts the search for a backend among `candidates` of them.
pub fn begin_search(candidates: usize) -> (step: Search)
    ensures
        step == first_step(candidates as nat),
{
    if candidates > 0 {
        Search::Probe(0)
    } else {
        Search::Exhausted
    }
}

/// Continues the search once backend `probed` has answered: it is used if it
/// has adapters, else the next one is tried, until none is left.
pub fn continue_search(candidates: usize, probed: usize, usable: bool) -> (step: Search)
    ensures
        step == next_step(candidates as nat, probed as nat, usable),
{
    if usable {
        Search::Found(probed)
    } else if candidates > 0 && probed < candidates - 1 {
        Search::Probe(probed + 1)
    } else {
        Search::Exhausted
    }
}

/// A rectangle of texels inside a texture.
#[derive(Clone, Copy, Debug, PartialEq, Eq)]
pub struct CopyRegion {
    pub x: u32,
    pub y: u32,
    pub width: u32,
    pub height: u32,
}

/// A mesh's extent and corner in texels of a surface. Clip space spans two
/// units across the surface, so a length in clip units covers half as many
/// surface widths.
///
/// `mesh_width` and `mesh_height` are the mesh's size in whole clip units;
/// `corner_x` and `corner_y` are its corner in clip units already multiplied
/// by the surface's width and height.
pub open spec fn region_of(
    mesh_width: u32,
    mesh_height: u32,
    corner_x: u32,
    corner_y: u32,
    surface: SurfaceSize,
) -> Option<CopyRegion> {
    if mesh_width * surface.width <= u32::MAX && mesh_height * surface.height <= u32::MAX {
        Some(
            CopyRegion {
                x: corner_x / 2,
                y: corner_y / 2,
                width: ((mesh_width * surface.width) / 2) as u32,
                height: ((mesh_height * surface.height) / 2) as u32,
            },
        )
    } else {
        None
    }
}

/// The region of a surface-sized texture that a mesh covers, or `None` where
/// the mesh scaled to the surface does not fit in 32 bits.
pub fn copy_region(
    mesh_width: u32,
    mesh_height: u32,
    corner_x: u32,
    corner_y: u32,
    surface: SurfaceSize,
) -> (region: Option<CopyRegion>)
    ensures
        region == region_of(mesh_width, mesh_height, corner_x, corner_y, surface),
{
    let width = match mesh_width.checked_mul(surface.width) {
        Some(scaled) => scaled / 2,
        None => {
            return None;
        },
    };
    let height = match mesh_height.checked_mul(surface.height) {
        Some(scaled) => scaled / 2,
        None => {
            return None;
        },
    };
    Some(CopyRegion { x: corner_x / 2, y: corner_y / 2, width, height })
}

} // verus!
