//! Graphics pipeline capability sets and what each enables.

use vstd::prelude::*;

verus! {

/// `THINCLIENT` flag of a version 8 / 8.1 capability set.
pub const CAPS_V8_THIN_CLIENT: u32 = 0x1;
/// `SMALL_CACHE` flag of a version 8 / 8.1 / 10 / 10.4+ capability set.
pub const CAPS_SMALL_CACHE: u32 = 0x2;
/// `AVC420_ENABLED` flag of a version 8.1 capability set.
pub const CAPS_V81_AVC420_ENABLED: u32 = 0x10;
/// `AVC_DISABLED` flag of a version 10+ capability set.
pub const CAPS_V10_AVC_DISABLED: u32 = 0x20;
/// `AVC_THINCLIENT` flag of a version 10.3+ capability set.
pub const CAPS_V103_AVC_THIN_CLIENT: u32 = 0x40;

/// A capability set that the client advertises or the server confirms.
#[derive(Debug, Clone, Copy, PartialEq, Eq, Structural)]
pub enum CapabilitySet {
    V8 { flags: u32 },
    V8_1 { flags: u32 },
    V10 { flags: u32 },
    V10_1,
    V10_2 { flags: u32 },
    V10_3 { flags: u32 },
    V10_4 { flags: u32 },
    V10_5 { flags: u32 },
    V10_6 { flags: u32 },
    V10_6Err { flags: u32 },
    V10_7 { flags: u32 },
    /// A version this implementation does not know.
    Unknown { version: u32 },
}

/// What the negotiated capability set enables.
#[derive(Debug, Clone, Copy, PartialEq, Eq, Structural)]
pub struct CodecCapabilities {
    /// AVC420 (H.264 4:2:0) is available.
    pub avc420: bool,
    /// AVC444 (H.264 4:4:4) is available.
    pub avc444: bool,
    /// Small cache mode.
    pub small_cache: bool,
    /// Thin client mode.
    pub thin_client: bool,
}

impl Default for CodecCapabilities {
    /// Nothing enabled.
    fn default() -> (r: CodecCapabilities)
        ensures
            r == (CodecCapabilities { avc420: false, avc444: false, small_cache: false, thin_client: false }),
    {
        CodecCapabilities { avc420: false, avc444: false, small_cache: false, thin_client: false }
    }
}

/// Every bit of `bit` is set in `flags`.
pub open spec fn has_flag(flags: u32, bit: u32) -> bool {
    flags & bit == bit
}

/// Codec capabilities with AVC enabled unless `AVC_DISABLED` is set.
pub open spec fn avc_unless_disabled(flags: u32, small_cache: bool, thin_client: bool) -> CodecCapabilities {
    CodecCapabilities {
        avc420: !has_flag(flags, 0x20),
        avc444: !has_flag(flags, 0x20),
        small_cache,
        thin_client,
    }
}

/// What a capability set enables: version 8 no AVC; 8.1 AVC420 when
/// enabled; 10 and later both AVC codecs unless disabled (10.1 always); an
/// unknown version nothing.
pub open spec fn codec_caps_of(cap: CapabilitySet) -> CodecCapabilities {
    match cap {
        CapabilitySet::V8 { flags } => CodecCapabilities {
            avc420: false,
            avc444: false,
            small_cache: has_flag(flags, 0x2),
            thin_client: has_flag(flags, 0x1),
        },
        CapabilitySet::V8_1 { flags } => CodecCapabilities {
            avc420: has_flag(flags, 0x10),
            avc444: false,
            small_cache: has_flag(flags, 0x2),
            thin_client: has_flag(flags, 0x1),
        },
        CapabilitySet::V10 { flags } | CapabilitySet::V10_2 { flags } => avc_unless_disabled(
            flags,
            has_flag(flags, 0x2),
            false,
        ),
        CapabilitySet::V10_1 => CodecCapabilities {
            avc420: true,
            avc444: true,
            small_cache: false,
            thin_client: false,
        },
        CapabilitySet::V10_3 { flags } => avc_unless_disabled(flags, false, has_flag(flags, 0x40)),
        CapabilitySet::V10_4 { flags }
        | CapabilitySet::V10_5 { flags }
        | CapabilitySet::V10_6 { flags }
        | CapabilitySet::V10_6Err { flags }
        | CapabilitySet::V10_7 { flags } => avc_unless_disabled(
            flags,
            has_flag(flags, 0x2),
            has_flag(flags, 0x40),
        ),
        CapabilitySet::Unknown { .. } => CodecCapabilities {
            avc420: false,
            avc444: false,
            small_cache: false,
            thin_client: false,
        },
    }
}

fn flag_set(flags: u32, bit: u32) -> (r: bool)
    ensures
        r == has_flag(flags, bit),
{
    flags & bit == bit
}

fn avc_caps(flags: u32, small_cache: bool, thin_client: bool) -> (r: CodecCapabilities)
    ensures
        r == avc_unless_disabled(flags, small_cache, thin_client),
{
    let disabled = flag_set(flags, CAPS_V10_AVC_DISABLED);
    CodecCapabilities { avc420: !disabled, avc444: !disabled, small_cache, thin_client }
}

impl CodecCapabilities {
    /// What the negotiated capability set enables.
    pub fn from_capability_set(cap: &CapabilitySet) -> (r: CodecCapabilities)
        ensures
            r == codec_caps_of(*cap),
    {
        match cap {
            CapabilitySet::V8 { flags } => CodecCapabilities {
                avc420: false,
                avc444: false,
                small_cache: flag_set(*flags, CAPS_SMALL_CACHE),
                thin_client: flag_set(*flags, CAPS_V8_THIN_CLIENT),
            },
            CapabilitySet::V8_1 { flags } => CodecCapabilities {
                avc420: flag_set(*flags, CAPS_V81_AVC420_ENABLED),
                avc444: false,
                small_cache: flag_set(*flags, CAPS_SMALL_CACHE),
                thin_client: flag_set(*flags, CAPS_V8_THIN_CLIENT),
            },
            CapabilitySet::V10 { flags } | CapabilitySet::V10_2 { flags } => {
                avc_caps(*flags, flag_set(*flags, CAPS_SMALL_CACHE), false)
            },
            CapabilitySet::V10_1 => CodecCapabilities {
                avc420: true,
                avc444: true,
                small_cache: false,
                thin_client: false,
            },
            CapabilitySet::V10_3 { flags } => avc_caps(*flags, false, flag_set(*flags, CAPS_V103_AVC_THIN_CLIENT)),
            CapabilitySet::V10_4 { flags }
            | CapabilitySet::V10_5 { flags }
            | CapabilitySet::V10_6 { flags }
            | CapabilitySet::V10_6Err { flags }
            | CapabilitySet::V10_7 { flags } => avc_caps(
                *flags,
                flag_set(*flags, CAPS_SMALL_CACHE),
                flag_set(*flags, CAPS_V103_AVC_THIN_CLIENT),
            ),
            CapabilitySet::Unknown { .. } => CodecCapabilities::default(),
        }
    }
}

/// The capability sets advertised by default: version 10.7 (both AVC
/// codecs), version 8.1 (AVC420 only) and version 8 (no AVC), each with the
/// small cache.
pub open spec fn default_capabilities() -> Seq<CapabilitySet> {
    seq![
        CapabilitySet::V10_7 { flags: 0x2 },
        CapabilitySet::V8_1 { flags: 0x12 },
        CapabilitySet::V8 { flags: 0x2 },
    ]
}

/// The default capability sets, in order of preference.
pub fn default_capability_sets() -> (r: Vec<CapabilitySet>)
    ensures
        r@ == default_capabilities(),
{
    let mut v = Vec::new();
    v.push(CapabilitySet::V10_7 { flags: CAPS_SMALL_CACHE });
    v.push(CapabilitySet::V8_1 { flags: CAPS_V81_AVC420_ENABLED | CAPS_SMALL_CACHE });
    v.push(CapabilitySet::V8 { flags: CAPS_SMALL_CACHE });
    assert(CAPS_V81_AVC420_ENABLED | CAPS_SMALL_CACHE == 0x12) by (bit_vector);
    assert(v@ =~= default_capabilities());
    v
}

/// The sets to advertise: all of `sets` when an H.264 decoder is present;
/// otherwise those that do not need AVC420, or version 8 with the small
/// cache when none remains.
pub open spec fn advertised_capabilities(sets: Seq<CapabilitySet>, has_decoder: bool) -> Seq<CapabilitySet> {
    if has_decoder {
        sets
    } else {
        let kept = sets.filter(|c: CapabilitySet| !codec_caps_of(c).avc420);
        if kept.len() == 0 {
            seq![CapabilitySet::V8 { flags: 0x2 }]
        } else {
            kept
        }
    }
}

/// Chooses the sets to advertise from the handler's `sets`.
pub fn select_capabilities(sets: Vec<CapabilitySet>, has_decoder: bool) -> (r: Vec<CapabilitySet>)
    ensures
        r@ == advertised_capabilities(sets@, has_decoder),
{
    if has_decoder {
        return sets;
    }
    let mut kept: Vec<CapabilitySet> = Vec::new();
    let n = sets.len();
    for i in 0..n
        invariant
            n == sets@.len(),
            kept@ == sets@.subrange(0, i as int).filter(|c: CapabilitySet| !codec_caps_of(c).avc420),
    {
        let c = &sets[i];
        proof {
            reveal(Seq::filter);
            assert(sets@.subrange(0, i + 1).drop_last() =~= sets@.subrange(0, i as int));
        }
        if !CodecCapabilities::from_capability_set(c).avc420 {
            kept.push(*c);
        }
    }
    assert(sets@.subrange(0, n as int) =~= sets@);
    if kept.len() == 0 {
        let mut v = Vec::new();
        v.push(CapabilitySet::V8 { flags: CAPS_SMALL_CACHE });
        v
    } else {
        kept
    }
}

/// AVC negotiation by capability version: version 8 enables no AVC codec;
/// 8.1 enables AVC420 exactly when its AVC420_ENABLED flag (0x10) is set,
/// never AVC444; every version from 10 on enables both AVC420 and AVC444
/// exactly when its AVC_DISABLED flag (0x20) is clear, except 10.1, which
/// has no flags and always enables both; an unknown version enables none.
pub proof fn lemma_avc_by_version(flags: u32, version: u32)
    ensures
        !codec_caps_of(CapabilitySet::V8 { flags }).avc420 && !codec_caps_of(CapabilitySet::V8 { flags }).avc444,
        codec_caps_of(CapabilitySet::V8_1 { flags }).avc420 == (flags & 0x10u32 == 0x10u32),
        !codec_caps_of(CapabilitySet::V8_1 { flags }).avc444,
        codec_caps_of(CapabilitySet::V10_1).avc420 && codec_caps_of(CapabilitySet::V10_1).avc444,
        !codec_caps_of(CapabilitySet::Unknown { version }).avc420,
        !codec_caps_of(CapabilitySet::Unknown { version }).avc444,
        forall|cap: CapabilitySet|
            (cap == CapabilitySet::V10 { flags } || cap == CapabilitySet::V10_2 { flags } || cap
                == CapabilitySet::V10_3 { flags } || cap == CapabilitySet::V10_4 { flags } || cap
                == CapabilitySet::V10_5 { flags } || cap == CapabilitySet::V10_6 { flags } || cap
                == CapabilitySet::V10_6Err { flags } || cap == CapabilitySet::V10_7 { flags }) ==> {
                &&& #[trigger] codec_caps_of(cap).avc420 == (flags & 0x20u32 != 0x20u32)
                &&& codec_caps_of(cap).avc444 == (flags & 0x20u32 != 0x20u32)
            },
{
}

/// Setting AVC_DISABLED (0x20) on a version 10 or later capability set
/// (other than 10.1) turns both AVC codecs off whatever the other flags
/// are, and changes nothing else of what the set enables.
pub proof fn lemma_avc_disabled_turns_avc_off(flags: u32)
    ensures
        forall|mk: spec_fn(u32) -> CapabilitySet|
            (mk == (|f: u32| CapabilitySet::V10 { flags: f }) || mk == (|f: u32| CapabilitySet::V10_2 { flags: f })
                || mk == (|f: u32| CapabilitySet::V10_3 { flags: f }) || mk == (|f: u32| CapabilitySet::V10_4 {
                flags: f,
            }) || mk == (|f: u32| CapabilitySet::V10_5 { flags: f }) || mk == (|f: u32| CapabilitySet::V10_6 {
                flags: f,
            }) || mk == (|f: u32| CapabilitySet::V10_6Err { flags: f }) || mk == (|f: u32| CapabilitySet::V10_7 {
                flags: f,
            })) ==> {
                let off = #[trigger] codec_caps_of(mk(flags | 0x20u32));
                let on = codec_caps_of(mk(flags & !0x20u32));
                &&& !off.avc420 && !off.avc444
                &&& on.avc420 && on.avc444
                &&& off.small_cache == on.small_cache
                &&& off.thin_client == on.thin_client
            },
{
    assert((flags | 0x20u32) & 0x20u32 == 0x20u32) by (bit_vector);
    assert((flags & !0x20u32) & 0x20u32 != 0x20u32) by (bit_vector);
    assert((flags | 0x20u32) & 0x2u32 == (flags & !0x20u32) & 0x2u32) by (bit_vector);
    assert((flags | 0x20u32) & 0x40u32 == (flags & !0x20u32) & 0x40u32) by (bit_vector);
}

/// The cache and thin-client flags by capability version: SMALL_CACHE
/// (0x2) counts for versions 8, 8.1, 10, 10.2 and 10.4 to 10.7; the thin
/// client flag is THIN_CLIENT (0x1) for 8 and 8.1 and AVC_THIN_CLIENT (0x40)
/// for 10.3 to 10.7; neither counts for any other version.
pub proof fn lemma_cache_and_thin_client_by_version(flags: u32, version: u32)
    ensures
        codec_caps_of(CapabilitySet::V8 { flags }).small_cache == (flags & 0x2u32 == 0x2u32),
        codec_caps_of(CapabilitySet::V8 { flags }).thin_client == (flags & 0x1u32 == 0x1u32),
        codec_caps_of(CapabilitySet::V8_1 { flags }).small_cache == (flags & 0x2u32 == 0x2u32),
        codec_caps_of(CapabilitySet::V8_1 { flags }).thin_client == (flags & 0x1u32 == 0x1u32),
        codec_caps_of(CapabilitySet::V10 { flags }).small_cache == (flags & 0x2u32 == 0x2u32),
        !codec_caps_of(CapabilitySet::V10 { flags }).thin_client,
        codec_caps_of(CapabilitySet::V10_2 { flags }).small_cache == (flags & 0x2u32 == 0x2u32),
        !codec_caps_of(CapabilitySet::V10_2 { flags }).thin_client,
        !codec_caps_of(CapabilitySet::V10_1).small_cache && !codec_caps_of(CapabilitySet::V10_1).thin_client,
        !codec_caps_of(CapabilitySet::V10_3 { flags }).small_cache,
        codec_caps_of(CapabilitySet::V10_3 { flags }).thin_client == (flags & 0x40u32 == 0x40u32),
        forall|cap: CapabilitySet|
            (cap == CapabilitySet::V10_4 { flags } || cap == CapabilitySet::V10_5 { flags } || cap
                == CapabilitySet::V10_6 { flags } || cap == CapabilitySet::V10_6Err { flags } || cap
                == CapabilitySet::V10_7 { flags }) ==> {
                &&& #[trigger] codec_caps_of(cap).small_cache == (flags & 0x2u32 == 0x2u32)
                &&& codec_caps_of(cap).thin_client == (flags & 0x40u32 == 0x40u32)
            },
        !codec_caps_of(CapabilitySet::Unknown { version }).small_cache,
        !codec_caps_of(CapabilitySet::Unknown { version }).thin_client,
{
}

} // verus!
