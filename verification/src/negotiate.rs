//! Format negotiation: choosing the presentation pixel format from the
//! capability set a (surface, adapter) pair reports.

use vstd::prelude::*;
use crate::formats::SurfaceFormat;

verus! {

/// The ordered set of pixel formats a (surface, adapter) pair supports for
/// presentation, queried once at surface creation and static for the
/// surface's lifetime.
pub struct SurfaceCapabilities {
    pub formats: Vec<SurfaceFormat>,
}

/// A fatal misconfiguration of the device/surface pairing.
#[derive(Clone, Copy, PartialEq, Eq, Structural, Debug)]
pub enum ConfigError {
    /// The capability set is empty: the pairing is unusable and surface
    /// creation must be aborted rather than a format guessed.
    NoSupportedFormats,
}

/// The position of the first gamma-corrected entry, if any.
pub open spec fn first_srgb_index(formats: Seq<SurfaceFormat>) -> Option<int>
    decreases formats.len(),
{
    if formats.len() == 0 {
        None
    } else if formats[0].spec_is_srgb() {
        Some(0int)
    } else {
        match first_srgb_index(formats.drop_first()) {
            Some(i) => Some(i + 1),
            None => None,
        }
    }
}

/// The position negotiation chooses from a non-empty capability sequence:
/// the first gamma-corrected entry when one exists, else the first entry.
pub open spec fn spec_negotiated_index(formats: Seq<SurfaceFormat>) -> int {
    match first_srgb_index(formats) {
        Some(i) => i,
        None => 0int,
    }
}

/// The format negotiation chooses from a non-empty capability sequence.
pub open spec fn spec_negotiate(formats: Seq<SurfaceFormat>) -> SurfaceFormat {
    formats[spec_negotiated_index(formats)]
}

/// What `first_srgb_index` finds: a position that holds a gamma-corrected
/// format and is preceded by none, or a guarantee that there is none.
pub proof fn lemma_first_srgb_index_props(formats: Seq<SurfaceFormat>)
    ensures
        match first_srgb_index(formats) {
            Some(i) => 0 <= i < formats.len() && formats[i].spec_is_srgb() && (forall|j: int|
                0 <= j < i ==> !formats[j].spec_is_srgb()),
            None => forall|j: int| 0 <= j < formats.len() ==> !formats[j].spec_is_srgb(),
        },
    decreases formats.len(),
{
    if formats.len() == 0 {
    } else if formats[0].spec_is_srgb() {
    } else {
        let rest = formats.drop_first();
        lemma_first_srgb_index_props(rest);
        assert(forall|j: int| 0 <= j < rest.len() ==> rest[j] == formats[j + 1]);
        match first_srgb_index(rest) {
            Some(i) => {
                assert(formats[i + 1] == rest[i]);
                assert(forall|j: int| 1 <= j < i + 1 ==> formats[j] == rest[j - 1]);
            },
            None => {
                assert(forall|j: int| 1 <= j < formats.len() ==> formats[j] == rest[j - 1]);
            },
        }
    }
}

/// The negotiated position is always in range for a non-empty set.
pub proof fn lemma_negotiated_index_in_range(formats: Seq<SurfaceFormat>)
    requires
        formats.len() > 0,
    ensures
        0 <= spec_negotiated_index(formats) < formats.len(),
{
    lemma_first_srgb_index_props(formats);
}

/// Law: for any non-empty capability set, the negotiated format is a
/// member of that set.
pub proof fn lemma_negotiated_format_in_set(formats: Seq<SurfaceFormat>)
    requires
        formats.len() > 0,
    ensures
        formats.contains(spec_negotiate(formats)),
{
    lemma_negotiated_index_in_range(formats);
    assert(formats[spec_negotiated_index(formats)] == spec_negotiate(formats));
}

/// Law: if the capability set holds a gamma-corrected 8-bit format
/// anywhere, the negotiated format is gamma-corrected.
pub proof fn lemma_negotiated_srgb_when_available(formats: Seq<SurfaceFormat>)
    requires
        exists|i: int| 0 <= i < formats.len() && formats[i].spec_is_srgb(),
    ensures
        spec_negotiate(formats).spec_is_srgb(),
{
    lemma_first_srgb_index_props(formats);
    assert(first_srgb_index(formats) is Some);
}

/// Law: the negotiated format is the first gamma-corrected entry in set
/// order, whenever one exists.
pub proof fn lemma_negotiated_prefers_first_srgb(formats: Seq<SurfaceFormat>, k: int)
    requires
        0 <= k < formats.len(),
        formats[k].spec_is_srgb(),
        forall|j: int| 0 <= j < k ==> !formats[j].spec_is_srgb(),
    ensures
        spec_negotiated_index(formats) == k,
        spec_negotiate(formats) == formats[k],
{
    lemma_first_srgb_index_props(formats);
}

/// Law: with no gamma-corrected entry, the first entry is the fallback.
pub proof fn lemma_negotiated_fallback_first(formats: Seq<SurfaceFormat>)
    requires
        formats.len() > 0,
        forall|j: int| 0 <= j < formats.len() ==> !formats[j].spec_is_srgb(),
    ensures
        spec_negotiated_index(formats) == 0,
        spec_negotiate(formats) == formats[0],
{
    lemma_first_srgb_index_props(formats);
}

/// Select the position of the presentation format: the first
/// gamma-corrected entry when one exists, else the first entry; an empty
/// capability set is the fatal misconfiguration.
pub fn negotiate_format_index(formats: &Vec<SurfaceFormat>) -> (r: Result<usize, ConfigError>)
    ensures
        formats@.len() == 0 ==> r == Err::<usize, ConfigError>(ConfigError::NoSupportedFormats),
        formats@.len() > 0 ==> (r matches Ok(i) && i as int == spec_negotiated_index(formats@)),
{
    let n = formats.len();
    let mut i: usize = 0;
    while i < n
        invariant
            n == formats@.len(),
            0 <= i <= n,
            forall|j: int| 0 <= j < i ==> !formats@[j].spec_is_srgb(),
        decreases n - i,
    {
        if formats[i].is_srgb() {
            proof {
                lemma_negotiated_prefers_first_srgb(formats@, i as int);
            }
            return Ok(i);
        }
        i += 1;
    }
    if n == 0 {
        Err(ConfigError::NoSupportedFormats)
    } else {
        proof {
            lemma_negotiated_fallback_first(formats@);
        }
        Ok(0)
    }
}

/// Choose the presentation format itself from the capability set.
pub fn negotiate_format(formats: &Vec<SurfaceFormat>) -> (r: Result<SurfaceFormat, ConfigError>)
    ensures
        formats@.len() == 0 ==> r == Err::<SurfaceFormat, ConfigError>(
            ConfigError::NoSupportedFormats,
        ),
        formats@.len() > 0 ==> r == Ok::<SurfaceFormat, ConfigError>(spec_negotiate(formats@)),
{
    match negotiate_format_index(formats) {
        Ok(i) => {
            proof {
                lemma_negotiated_index_in_range(formats@);
            }
            Ok(formats[i])
        },
        Err(e) => Err(e),
    }
}

} // verus!
