//! The discrete decisions about the particles of the animation: which kind an
//! extra particle is, which particles the connection lines join, and which
//! colour and classes a particle is drawn with.
use vstd::prelude::*;
use crate::phase::{AnimationPhase, StableSubPhase};

verus! {

/// The role a particle plays. Text particles are `Core`; the others decorate.
#[derive(Clone, Copy, PartialEq, Eq, Structural, Debug)]
pub enum ParticleType {
    Core,
    Orbiter,
    Swarm,
    Fragment,
    Connector,
}

/// The kind of the `i`-th decorative particle.
pub open spec fn kind_for_extra(i: nat) -> ParticleType {
    if i % 5 == 0 {
        ParticleType::Orbiter
    } else if i % 5 == 2 {
        ParticleType::Fragment
    } else if i % 5 == 3 {
        ParticleType::Connector
    } else {
        ParticleType::Swarm
    }
}

/// The kind of the `i`-th decorative particle: kinds repeat every five
/// particles, as orbiter, swarm, fragment, connector, swarm.
pub fn extra_particle_kind(i: usize) -> (k: ParticleType)
    ensures
        k == kind_for_extra(i as nat),
{
    match i % 5 {
        0 => ParticleType::Orbiter,
        1 => ParticleType::Swarm,
        2 => ParticleType::Fragment,
        3 => ParticleType::Connector,
        _ => ParticleType::Swarm,
    }
}

/// Whether a decorative particle of this kind gets the short lifetime range
/// (fragments and connectors) rather than the long one.
pub fn short_lived(kind: ParticleType) -> (b: bool)
    ensures
        b == (kind == ParticleType::Fragment || kind == ParticleType::Connector),
{
    match kind {
        ParticleType::Fragment | ParticleType::Connector => true,
        _ => false,
    }
}

/// A connection line between two particles, as first laid out: both ends and
/// the initial strength, in tenths.
#[derive(Clone, Copy, PartialEq, Eq, Structural, Debug)]
pub struct ConnectionSeed {
    pub particle1_idx: usize,
    pub particle2_idx: usize,
    pub strength_tenths: u8,
}

/// The positions of the text particles, in increasing order.
pub open spec fn text_indices(is_text: Seq<bool>) -> Seq<usize>
    decreases is_text.len(),
{
    if is_text.len() == 0 {
        seq![]
    } else {
        let earlier = text_indices(is_text.drop_last());
        if is_text.last() {
            earlier.push((is_text.len() - 1) as usize)
        } else {
            earlier
        }
    }
}

/// `n - k`, or zero when that is negative.
pub open spec fn minus_or_zero(n: nat, k: nat) -> nat {
    if n >= k {
        (n - k) as nat
    } else {
        0
    }
}

/// The connections for particles whose text flags are `is_text`: first each
/// text particle to the next one (strength 8 tenths), then each to the one
/// after next (strength 4 tenths).
pub open spec fn connection_layout(is_text: Seq<bool>) -> Seq<ConnectionSeed> {
    let core = text_indices(is_text);
    let adjacent = minus_or_zero(core.len(), 1);
    let skipping = minus_or_zero(core.len(), 2);
    Seq::new(
        adjacent + skipping,
        |k: int|
            if k < adjacent {
                ConnectionSeed { particle1_idx: core[k], particle2_idx: core[k + 1], strength_tenths: 8 }
            } else {
                ConnectionSeed {
                    particle1_idx: core[k - adjacent],
                    particle2_idx: core[k - adjacent + 2],
                    strength_tenths: 4,
                }
            },
    )
}

/// The text positions are increasing positions of text particles.
pub proof fn lemma_text_indices_sorted(is_text: Seq<bool>)
    requires
        is_text.len() <= usize::MAX,
    ensures
        text_indices(is_text).len() <= is_text.len(),
        forall|k: int|
            0 <= k < text_indices(is_text).len() ==> (#[trigger] text_indices(is_text)[k]) < is_text.len()
                && is_text[text_indices(is_text)[k] as int],
        forall|j: int, k: int|
            0 <= j < k < text_indices(is_text).len() ==> text_indices(is_text)[j] < text_indices(
                is_text,
            )[k],
    decreases is_text.len(),
{
    if is_text.len() > 0 {
        let prefix = is_text.drop_last();
        lemma_text_indices_sorted(prefix);
        assert forall|k: int| 0 <= k < text_indices(prefix).len() implies is_text[text_indices(
            prefix,
        )[k] as int] by {
            assert(is_text[text_indices(prefix)[k] as int] == prefix[text_indices(prefix)[k] as int]);
        }
    }
}

/// Lays out the connection lines between the text particles, given for each
/// particle whether it belongs to the text.
pub fn initialize_connections(is_text: &Vec<bool>) -> (cs: Vec<ConnectionSeed>)
    ensures
        cs@ == connection_layout(is_text@),
{
    let mut core_indices: Vec<usize> = Vec::new();
    let mut i: usize = 0;
    while i < is_text.len()
        invariant
            i <= is_text.len(),
            core_indices@ == text_indices(is_text@.take(i as int)),
        decreases is_text.len() - i,
    {
        assert(is_text@.take(i + 1).drop_last() =~= is_text@.take(i as int));
        if is_text[i] {
            core_indices.push(i);
        }
        i = i + 1;
    }
    assert(is_text@.take(is_text.len() as int) =~= is_text@);
    let ghost core = core_indices@;
    let ghost adjacent = minus_or_zero(core.len(), 1);
    let n = core_indices.len();
    let mut connections: Vec<ConnectionSeed> = Vec::new();
    let mut k: usize = 0;
    let first_count: usize = if n >= 1 { n - 1 } else { 0 };
    while k < first_count
        invariant
            n == core.len(),
            core == core_indices@,
            first_count == adjacent,
            k <= first_count,
            connections@ == connection_layout(is_text@).take(k as int),
            core == text_indices(is_text@),
            adjacent == minus_or_zero(core.len(), 1),
        decreases first_count - k,
    {
        connections.push(
            ConnectionSeed {
                particle1_idx: core_indices[k],
                particle2_idx: core_indices[k + 1],
                strength_tenths: 8,
            },
        );
        assert(connections@ =~= connection_layout(is_text@).take(k + 1));
        k = k + 1;
    }
    let second_count: usize = if n >= 2 { n - 2 } else { 0 };
    let mut j: usize = 0;
    while j < second_count
        invariant
            n == core.len(),
            core == core_indices@,
            first_count == adjacent,
            second_count == minus_or_zero(core.len(), 2),
            j <= second_count,
            connections@ == connection_layout(is_text@).take(first_count + j),
            core == text_indices(is_text@),
            adjacent == minus_or_zero(core.len(), 1),
        decreases second_count - j,
    {
        connections.push(
            ConnectionSeed {
                particle1_idx: core_indices[j],
                particle2_idx: core_indices[j + 2],
                strength_tenths: 4,
            },
        );
        assert(connections@ =~= connection_layout(is_text@).take(first_count + j + 1));
        j = j + 1;
    }
    assert(connections@ =~= connection_layout(is_text@));
    connections
}

/// Every connection joins two distinct text particles, the earlier one first;
/// with `n >= 2` text particles there are `2n - 3` connections.
pub proof fn lemma_connections_join_text_particles(is_text: Seq<bool>, k: int)
    requires
        is_text.len() <= usize::MAX,
        0 <= k < connection_layout(is_text).len(),
    ensures
        ({
            let c = connection_layout(is_text)[k];
            &&& c.particle1_idx < c.particle2_idx < is_text.len()
            &&& is_text[c.particle1_idx as int]
            &&& is_text[c.particle2_idx as int]
        }),
        text_indices(is_text).len() >= 2 ==> connection_layout(is_text).len() == 2 * text_indices(
            is_text,
        ).len() - 3,
{
    lemma_text_indices_sorted(is_text);
    let core = text_indices(is_text);
    let adjacent = minus_or_zero(core.len(), 1);
    if k < adjacent {
        assert(core[k] < core[k + 1]);
    } else {
        assert(core[k - adjacent] < core[k - adjacent + 2]);
    }
}

/// Whether the connection lines take part in a phase: they do while the
/// particles converge and while the text is stable, and not while the
/// particles scatter or dissolve.
pub fn connections_active(phase: AnimationPhase) -> (b: bool)
    ensures
        b == (phase is Converge || phase is Stable),
{
    match phase {
        AnimationPhase::Scatter(_) => false,
        AnimationPhase::Converge(_) => true,
        AnimationPhase::Stable(_) => true,
        AnimationPhase::Dissolve(_) => false,
    }
}

/// The colours a particle can be drawn in.
pub struct ColorScheme {
    pub primary: &'static str,
    pub secondary: &'static str,
    pub accent: &'static str,
    pub background: &'static str,
}

impl Default for ColorScheme {
    /// Green text, blue decoration, magenta accents, no background.
    fn default() -> (s: ColorScheme)
        ensures
            s.primary@ == "#00ff88"@,
            s.secondary@ == "#0088ff"@,
            s.accent@ == "#ff00ff"@,
            s.background@ == "transparent"@,
    {
        proof {
            reveal_strlit("#00ff88");
            reveal_strlit("#0088ff");
            reveal_strlit("#ff00ff");
            reveal_strlit("transparent");
        }
        ColorScheme {
            primary: "#00ff88",
            secondary: "#0088ff",
            accent: "#ff00ff",
            background: "transparent",
        }
    }
}

/// The text ripples or shimmers in these phases.
pub open spec fn text_is_accented(phase: AnimationPhase) -> bool {
    phase == AnimationPhase::Stable(StableSubPhase::Ripple) || phase == AnimationPhase::Stable(
        StableSubPhase::Shimmer,
    )
}

/// The text glows while it is stable, except while shimmering or about to dissolve.
pub open spec fn text_glows(phase: AnimationPhase) -> bool {
    &&& phase is Stable
    &&& phase != AnimationPhase::Stable(StableSubPhase::PreDissolve)
    &&& phase != AnimationPhase::Stable(StableSubPhase::Shimmer)
}

/// The colour of a particle: text in the accent colour while it ripples or
/// shimmers and in the primary colour otherwise; orbiters in the accent colour;
/// every other decorative particle in the secondary colour.
pub fn particle_color(
    scheme: &ColorScheme,
    is_text: bool,
    kind: ParticleType,
    phase: AnimationPhase,
) -> (c: &'static str)
    ensures
        c == (if is_text {
            if text_is_accented(phase) {
                scheme.accent
            } else {
                scheme.primary
            }
        } else if kind == ParticleType::Orbiter {
            scheme.accent
        } else {
            scheme.secondary
        }),
{
    if is_text {
        match phase {
            AnimationPhase::Stable(StableSubPhase::Ripple) | AnimationPhase::Stable(
                StableSubPhase::Shimmer,
            ) => scheme.accent,
            _ => scheme.primary,
        }
    } else {
        match kind {
            ParticleType::Orbiter => scheme.accent,
            _ => scheme.secondary,
        }
    }
}

/// The CSS classes of a particle: text particles glow in most stable phases.
pub fn particle_classes(is_text: bool, phase: AnimationPhase) -> (c: &'static str)
    ensures
        is_text && text_glows(phase) ==> c@ == "particle metallic-glow"@,
        !(is_text && text_glows(phase)) ==> c@ == "particle"@,
{
    proof {
        reveal_strlit("particle metallic-glow");
        reveal_strlit("particle");
    }
    let glows = match phase {
        AnimationPhase::Stable(s) => match s {
            StableSubPhase::PreDissolve | StableSubPhase::Shimmer => false,
            _ => true,
        },
        _ => false,
    };
    if is_text && glows {
        "particle metallic-glow"
    } else {
        "particle"
    }
}

/// Text is drawn in the accent colour exactly while it ripples or shimmers:
/// in every other phase, the other stable ones included, it is primary.
pub proof fn lemma_text_accent_only_when_rippling_or_shimmering(phase: AnimationPhase)
    ensures
        text_is_accented(phase) <==> (phase matches AnimationPhase::Stable(s) && (s
            == StableSubPhase::Ripple || s == StableSubPhase::Shimmer)),
        !text_is_accented(AnimationPhase::Stable(StableSubPhase::Pulse)),
        !text_is_accented(AnimationPhase::Stable(StableSubPhase::Orbit)),
        !text_is_accented(AnimationPhase::Stable(StableSubPhase::PreDissolve)),
{
}

} // verus!
