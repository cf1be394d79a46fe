//! Choosing the pixel format in which a surface presents: the first
//! sRGB-encoded format that the surface offers, or its first format when it
//! offers none that is sRGB-encoded.

use vstd::prelude::*;
use wgpu::TextureFormat;
use crate::gpu::format_is_srgb;

verus! {

/// The position of the first `true` in `flags`, or `flags.len()` if there is none.
pub open spec fn first_set(flags: Seq<bool>) -> int
    decreases flags.len(),
{
    if flags.len() == 0 {
        0
    } else if flags[0] {
        0
    } else {
        1 + first_set(flags.drop_first())
    }
}

/// The position to prefer among candidates of which `flags` marks the wanted
/// ones: that of the first wanted candidate, or 0 where none is wanted.
pub open spec fn preferred(flags: Seq<bool>) -> int {
    if first_set(flags) < flags.len() {
        first_set(flags)
    } else {
        0
    }
}

/// For each format, in order, whether it is sRGB-encoded.
pub open spec fn srgb_flags(formats: Seq<TextureFormat>) -> Seq<bool> {
    formats.map_values(|f: TextureFormat| format_is_srgb(f))
}

/// The format to present in, out of a surface's `formats`.
pub open spec fn preferred_format(formats: Seq<TextureFormat>) -> TextureFormat
    recommends
        formats.len() > 0,
{
    formats[preferred(srgb_flags(formats))]
}

/// `first_set` is the least position that holds `true`: nothing before it is
/// set, it lies within `flags` or just behind it, and where it lies within, it
/// is set.
pub proof fn lemma_first_set(flags: Seq<bool>)
    ensures
        0 <= first_set(flags) <= flags.len(),
        forall|j: int| 0 <= j < first_set(flags) ==> !flags[j],
        first_set(flags) < flags.len() ==> flags[first_set(flags)],
    decreases flags.len(),
{
    if flags.len() > 0 && !flags[0] {
        let rest = flags.drop_first();
        lemma_first_set(rest);
        assert forall|j: int| 0 <= j < first_set(flags) implies !flags[j] by {
            if j > 0 {
                assert(flags[j] == rest[j - 1]);
            }
        }
        assert(first_set(rest) < rest.len() ==> flags[first_set(flags)] == rest[first_set(rest)]);
    }
}

/// The preferred position is a position of `flags`, and no candidate before
/// it is wanted. Where some candidate is wanted, the preferred one is; where
/// none is, the preferred position is 0.
pub proof fn lemma_preferred(flags: Seq<bool>)
    requires
        flags.len() > 0,
    ensures
        0 <= preferred(flags) < flags.len(),
        forall|j: int| 0 <= j < preferred(flags) ==> !flags[j],
        (exists|i: int| 0 <= i < flags.len() && flags[i]) ==> flags[preferred(flags)],
        (forall|i: int| 0 <= i < flags.len() ==> !flags[i]) ==> preferred(flags) == 0,
{
    lemma_first_set(flags);
}

/// The chosen format is one of the offered formats, and no format offered
/// before it is sRGB-encoded. If any offered format is sRGB-encoded, the
/// chosen one is. If none is, the first offered format is chosen.
pub proof fn lemma_preferred_format(formats: Seq<TextureFormat>)
    requires
        formats.len() > 0,
    ensures
        0 <= preferred(srgb_flags(formats)) < formats.len(),
        preferred_format(formats) == formats[preferred(srgb_flags(formats))],
        forall|j: int|
            0 <= j < preferred(srgb_flags(formats)) ==> !format_is_srgb(#[trigger] formats[j]),
        (exists|i: int| 0 <= i < formats.len() && format_is_srgb(#[trigger] formats[i]))
            ==> format_is_srgb(preferred_format(formats)),
        (forall|i: int| 0 <= i < formats.len() ==> !format_is_srgb(#[trigger] formats[i]))
            ==> preferred_format(formats) == formats[0],
{
    let flags = srgb_flags(formats);
    lemma_preferred(flags);
    let k = preferred(flags);
    assert forall|j: int| 0 <= j < k implies !format_is_srgb(#[trigger] formats[j]) by {
        assert(flags[j] == format_is_srgb(formats[j]));
    }
    assert(flags[k] == format_is_srgb(formats[k]));
    if exists|i: int| 0 <= i < formats.len() && format_is_srgb(#[trigger] formats[i]) {
        let i = choose|i: int| 0 <= i < formats.len() && format_is_srgb(#[trigger] formats[i]);
        assert(flags[i]);
    }
}

/// Picks among candidates, of which `flags` marks the wanted ones: the first
/// wanted candidate, or the first candidate of all where none is wanted.
pub fn preferred_index(flags: &Vec<bool>) -> (index: usize)
    ensures
        index == preferred(flags@),
        flags.len() > 0 ==> index < flags.len(),
{
    proof {
        lemma_first_set(flags@);
    }
    let mut i: usize = 0;
    while i < flags.len()
        invariant
            i <= flags.len(),
            forall|j: int| 0 <= j < i ==> !flags@[j],
            0 <= first_set(flags@) <= flags.len(),
            forall|j: int| 0 <= j < first_set(flags@) ==> !flags@[j],
            first_set(flags@) < flags.len() ==> flags@[first_set(flags@)],
        decreases flags.len() - i,
    {
        if flags[i] {
            return i;
        }
        i += 1;
    }
    0
}

/// Asks the backend of each format whether it is sRGB-encoded.
pub fn srgb_flags_of(formats: &Vec<TextureFormat>) -> (flags: Vec<bool>)
    ensures
        flags@ == srgb_flags(formats@),
{
    let mut flags: Vec<bool> = Vec::new();
    let mut i: usize = 0;
    while i < formats.len()
        invariant
            i <= formats.len(),
            flags@.len() == i,
            forall|j: int| 0 <= j < i ==> flags@[j] == format_is_srgb(formats@[j]),
        decreases formats.len() - i,
    {
        flags.push(formats[i].is_srgb());
        i += 1;
    }
    assert(flags@ =~= srgb_flags(formats@));
    flags
}

/// Chooses the format to present in: the first sRGB-encoded format among
/// `formats`, or the first format where none is sRGB-encoded.
pub fn select_format(formats: &Vec<TextureFormat>) -> (format: TextureFormat)
    requires
        formats.len() > 0,
    ensures
        format == preferred_format(formats@),
{
    let flags = srgb_flags_of(formats);
    let index = preferred_index(&flags);
    formats[index]
}

} // verus!
