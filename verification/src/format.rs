//! Choice of the presentation format among those a surface reports.

use vstd::prelude::*;

verus! {

/// `wgpu::TextureFormat`, carried through without a look inside.
#[verifier::external_type_specification]
#[verifier::external_body]
pub struct ExTextureFormat(wgpu::TextureFormat);

/// Whether `wgpu::TextureFormat::is_srgb` holds of a format.
pub uninterp spec fn format_is_srgb(format: wgpu::TextureFormat) -> bool;

/// Calls `wgpu::TextureFormat::is_srgb`, which compares the format with the
/// one it becomes when its sRGB suffix is stripped. The result depends on the
/// format alone and is given the name `format_is_srgb`.
#[verifier::external_body]
pub(crate) fn is_srgb(format: &wgpu::TextureFormat) -> (flag: bool)
    ensures
        flag == format_is_srgb(*format),
{
    format.is_srgb()
}

/// The first position of `flags` that is set, and their number where none is.
pub open spec fn first_set(flags: Seq<bool>) -> int
    decreases flags.len(),
{
    if flags.len() == 0 {
        0
    } else if flags[0] {
        0
    } else {
        1 + first_set(flags.skip(1))
    }
}

/// The position that is preferred among `flags`: the first one that is set,
/// and position 0 where none is.
pub open spec fn preferred_position(flags: Seq<bool>) -> int {
    if first_set(flags) < flags.len() {
        first_set(flags)
    } else {
        0
    }
}

/// The sRGB flag of each format, in order.
pub open spec fn srgb_flags(formats: Seq<wgpu::TextureFormat>) -> Seq<bool> {
    Seq::new(formats.len(), |i: int| format_is_srgb(formats[i]))
}

/// The format that is preferred among those reported: the first sRGB one,
/// and the first reported where none is sRGB.
pub open spec fn preferred_format(formats: Seq<wgpu::TextureFormat>) -> wgpu::TextureFormat
    recommends
        formats.len() > 0,
{
    formats[preferred_position(srgb_flags(formats))]
}

/// `first_set` is the position before which no flag is set and at which one
/// is, or the length where no flag is set at all.
pub proof fn lemma_first_set(flags: Seq<bool>, at: int)
    requires
        0 <= at <= flags.len(),
        forall|j: int| 0 <= j < at ==> !#[trigger] flags[j],
        at < flags.len() ==> flags[at],
    ensures
        first_set(flags) == at,
    decreases at,
{
    if at > 0 {
        let rest = flags.skip(1);
        assert forall|j: int| 0 <= j < at - 1 implies !#[trigger] rest[j] by {
            assert(rest[j] == flags[j + 1]);
        }
        lemma_first_set(rest, at - 1);
    }
}

/// Where some flag is set, the preferred position holds the first set flag;
/// where none is, it is position 0.
pub proof fn lemma_preferred_position(flags: Seq<bool>)
    requires
        flags.len() > 0,
    ensures
        0 <= preferred_position(flags) < flags.len(),
        forall|j: int| 0 <= j < preferred_position(flags) ==> !#[trigger] flags[j],
        (exists|j: int| 0 <= j < flags.len() && flags[j]) ==> flags[preferred_position(flags)],
        (forall|j: int| 0 <= j < flags.len() ==> !#[trigger] flags[j]) ==> preferred_position(
            flags,
        ) == 0,
{
    lemma_first_set_bounds(flags);
}

proof fn lemma_first_set_bounds(flags: Seq<bool>)
    ensures
        0 <= first_set(flags) <= flags.len(),
        forall|j: int| 0 <= j < first_set(flags) ==> !#[trigger] flags[j],
        first_set(flags) < flags.len() ==> flags[first_set(flags)],
    decreases flags.len(),
{
    if flags.len() > 0 && !flags[0] {
        let rest = flags.skip(1);
        lemma_first_set_bounds(rest);
        assert forall|j: int| 0 <= j < first_set(flags) implies !#[trigger] flags[j] by {
            if j > 0 {
                assert(rest[j - 1] == flags[j]);
            }
        }
        if first_set(flags) < flags.len() {
            assert(rest[first_set(rest)] == flags[first_set(rest) + 1]);
        }
    }
}

/// Picks the first set flag, falling back to position 0 where no flag is set.
pub fn pick_preferred(flags: &Vec<bool>) -> (at: usize)
    requires
        flags.len() > 0,
    ensures
        at < flags.len(),
        at == preferred_position(flags@),
{
    let mut i: usize = 0;
    while i < flags.len()
        invariant
            i <= flags.len(),
            forall|j: int| 0 <= j < i ==> !#[trigger] flags@[j],
        decreases flags.len() - i,
    {
        if flags[i] {
            proof {
                lemma_first_set(flags@, i as int);
            }
            return i;
        }
        i += 1;
    }
    proof {
        lemma_first_set(flags@, flags.len() as int);
    }
    0
}

/// Picks the presentation format: the position of the first reported format
/// that is sRGB, and position 0 where none is.
pub fn select_format(formats: &Vec<wgpu::TextureFormat>) -> (at: usize)
    requires
        formats.len() > 0,
    ensures
        at < formats.len(),
        at == preferred_position(srgb_flags(formats@)),
{
    let mut flags: Vec<bool> = Vec::new();
    let mut i: usize = 0;
    while i < formats.len()
        invariant
            i <= formats.len(),
            flags@ == srgb_flags(formats@).take(i as int),
        decreases formats.len() - i,
    {
        let flag = is_srgb(&formats[i]);
        flags.push(flag);
        proof {
            assert(flags@ =~= srgb_flags(formats@).take(i + 1));
        }
        i += 1;
    }
    proof {
        assert(flags@ =~= srgb_flags(formats@));
    }
    pick_preferred(&flags)
}

} // verus!
