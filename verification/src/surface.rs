//! Choice of the texture format the window surface is configured with.
use vstd::prelude::*;

verus! {

/// The index of the format to render in, given for each format the surface
/// supports (in the order the surface lists them) whether it is an sRGB
/// format: the first sRGB format, or the first format when none is sRGB.
pub fn pick_surface_format(srgb: &Vec<bool>) -> (index: usize)
    requires
        srgb.len() > 0,
    ensures
        index < srgb.len(),
        forall|j: int| 0 <= j < index ==> !srgb[j],
        srgb[index as int] || index == 0,
        (exists|j: int| 0 <= j < srgb.len() && srgb[j]) ==> srgb[index as int],
{
    let mut i: usize = 0;
    while i < srgb.len()
        invariant
            i <= srgb.len(),
            forall|j: int| 0 <= j < i ==> !srgb[j],
        decreases srgb.len() - i,
    {
        if srgb[i] {
            return i;
        }
        i += 1;
    }
    0
}

} // verus!
