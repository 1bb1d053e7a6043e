use vstd::prelude::*;

verus! {

/// The builds of the game that the splitter knows.
#[derive(Clone, Copy, PartialEq, Eq, Structural, Debug, Hash)]
pub enum GameVersion {
    Retail,
    /// The 32-bit decompilation up to v1.3.0.
    Decompilation32bit1_0_0,
    /// The 32-bit decompilation from v1.3.1 on.
    Decompilation32bit1_3_1,
    Decompilation64bit1_0_0,
    Decompilation64bit1_3_1,
    /// The 64-bit decompilation from v1.3.2 on.
    Decompilation64bit1_3_2,
}

/// Which of the known code signatures were found in the game's main module.
#[derive(Clone, Copy, Debug)]
pub struct SignatureMatches {
    pub retail_32: bool,
    pub decomp_32_1_0_0: bool,
    pub decomp_32_1_3_1: bool,
    /// The 32-bit code that clears the game clock at the start of a run.
    pub decomp_32_clock_reset: bool,
    pub decomp_64_1_0_0: bool,
    pub decomp_64_1_3_1: bool,
    pub decomp_64_1_3_2: bool,
    /// The 64-bit code that clears the game clock at the start of a run.
    pub decomp_64_clock_reset: bool,
}

/// A build of the game, told apart once when the splitter attaches.
#[derive(Clone, Copy, PartialEq, Eq, Structural, Debug, Hash)]
pub struct Build {
    pub version: GameVersion,
    /// The centisecond counter is not cleared when a run starts.
    pub has_centisecs_bug: bool,
}

/// The build that the signatures found show, trying the builds of the
/// machine's word size in a fixed order. The retail build always has the
/// centisecond bug; the first decompilations have it unless the code that
/// clears the clock is there; the later ones never do.
pub open spec fn build_for(is_64_bit: bool, found: SignatureMatches) -> Option<Build> {
    if !is_64_bit {
        if found.retail_32 {
            Some(Build { version: GameVersion::Retail, has_centisecs_bug: true })
        } else if found.decomp_32_1_0_0 {
            Some(Build { version: GameVersion::Decompilation32bit1_0_0, has_centisecs_bug: !found.decomp_32_clock_reset })
        } else if found.decomp_32_1_3_1 {
            Some(Build { version: GameVersion::Decompilation32bit1_3_1, has_centisecs_bug: false })
        } else {
            None
        }
    } else {
        if found.decomp_64_1_0_0 {
            Some(Build { version: GameVersion::Decompilation64bit1_0_0, has_centisecs_bug: !found.decomp_64_clock_reset })
        } else if found.decomp_64_1_3_1 {
            Some(Build { version: GameVersion::Decompilation64bit1_3_1, has_centisecs_bug: false })
        } else if found.decomp_64_1_3_2 {
            Some(Build { version: GameVersion::Decompilation64bit1_3_2, has_centisecs_bug: false })
        } else {
            None
        }
    }
}

/// Tells the build apart from the signatures found; none when no build's
/// signature is there.
pub fn detect_build(is_64_bit: bool, found: &SignatureMatches) -> (r: Option<Build>)
    ensures
        r == build_for(is_64_bit, *found),
{
    if !is_64_bit {
        if found.retail_32 {
            Some(Build { version: GameVersion::Retail, has_centisecs_bug: true })
        } else if found.decomp_32_1_0_0 {
            Some(Build { version: GameVersion::Decompilation32bit1_0_0, has_centisecs_bug: !found.decomp_32_clock_reset })
        } else if found.decomp_32_1_3_1 {
            Some(Build { version: GameVersion::Decompilation32bit1_3_1, has_centisecs_bug: false })
        } else {
            None
        }
    } else if found.decomp_64_1_0_0 {
        Some(Build { version: GameVersion::Decompilation64bit1_0_0, has_centisecs_bug: !found.decomp_64_clock_reset })
    } else if found.decomp_64_1_3_1 {
        Some(Build { version: GameVersion::Decompilation64bit1_3_1, has_centisecs_bug: false })
    } else if found.decomp_64_1_3_2 {
        Some(Build { version: GameVersion::Decompilation64bit1_3_2, has_centisecs_bug: false })
    } else {
        None
    }
}

} // verus!
