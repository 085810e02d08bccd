//! What is particular to each boss: how a win is told, how the phases are
//! told, and what to make of the start of its logs.

use crate::target::Target;
use vstd::prelude::*;

verus! {

/// How it is told whether the group won.
#[derive(Debug, Clone, Copy, PartialEq, Eq, Structural)]
pub enum SuccessRule {
    /// By damage close to the reward, or by the death of the boss.
    Default,
    /// By the invulnerability having toggled this often, and by the boss
    /// having left combat before the last player did.
    ToggleCount(usize),
    /// By the second invulnerability coming on.
    SecondInvuln,
}

/// How the phases are told.
#[derive(Debug, Clone, Copy, PartialEq, Eq, Structural)]
pub enum PhaseRule {
    /// By the toggles of the invulnerability.
    Invulns,
    /// By the toggles of the invulnerability, with the time between the
    /// phases listed as splits.
    InvulnsAndSplits,
    /// By the casts and toggles of a boss that is fought in two stages,
    /// each an encounter of its own.
    TwoStage,
}

#[derive(Debug, Clone, Copy, PartialEq, Eq, Structural)]
pub struct Strategy {
    pub success: SuccessRule,
    pub phases: PhaseRule,
    /// Whether a toggle of the invulnerability at the very start of a log
    /// stems from before the fight.
    pub opening_toggle: bool,
    /// The maximum health that the boss has at the least in a fight that
    /// counts.
    pub min_health: u64,
}

/// How often the invulnerability of Artsariiv toggles in a fight that the
/// group wins.
pub const ARTS_TOGGLES: usize = 4;

/// How often the invulnerability of Arkk toggles in a fight that the group
/// wins.
pub const ARKK_TOGGLES: usize = 10;

/// The maximum health below which Skorvald is not in challenge mode.
pub const SKORVALD_CM_HEALTH: u64 = 5526980;

/// The strategy for each target. The two stages of the two-stage boss are
/// no targets of a log; they stand here with the rules of the stages.
pub open spec fn spec_strategy(target: Target) -> Strategy {
    let plain = Strategy {
        success: SuccessRule::Default,
        phases: PhaseRule::Invulns,
        opening_toggle: false,
        min_health: 0,
    };
    match target {
        Target::Mama => Strategy { opening_toggle: true, ..plain },
        Target::Siax => Strategy { phases: PhaseRule::InvulnsAndSplits, ..plain },
        Target::Enso => Strategy { opening_toggle: true, ..plain },
        Target::Skor => Strategy { min_health: SKORVALD_CM_HEALTH, ..plain },
        Target::Arts => Strategy { success: SuccessRule::ToggleCount(ARTS_TOGGLES), ..plain },
        Target::Arkk => Strategy { success: SuccessRule::ToggleCount(ARKK_TOGGLES), ..plain },
        Target::Ai => Strategy {
            success: SuccessRule::SecondInvuln,
            phases: PhaseRule::TwoStage,
            ..plain
        },
        Target::AiElemental | Target::AiDark => Strategy { phases: PhaseRule::TwoStage, ..plain },
        Target::Golem => plain,
    }
}

pub fn strategy(target: Target) -> (s: Strategy)
    ensures
        s == spec_strategy(target),
{
    let plain = Strategy {
        success: SuccessRule::Default,
        phases: PhaseRule::Invulns,
        opening_toggle: false,
        min_health: 0,
    };
    match target {
        Target::Mama => Strategy { opening_toggle: true, ..plain },
        Target::Siax => Strategy { phases: PhaseRule::InvulnsAndSplits, ..plain },
        Target::Enso => Strategy { opening_toggle: true, ..plain },
        Target::Skor => Strategy { min_health: SKORVALD_CM_HEALTH, ..plain },
        Target::Arts => Strategy { success: SuccessRule::ToggleCount(ARTS_TOGGLES), ..plain },
        Target::Arkk => Strategy { success: SuccessRule::ToggleCount(ARKK_TOGGLES), ..plain },
        Target::Ai => Strategy {
            success: SuccessRule::SecondInvuln,
            phases: PhaseRule::TwoStage,
            ..plain
        },
        Target::AiElemental | Target::AiDark => Strategy { phases: PhaseRule::TwoStage, ..plain },
        Target::Golem => plain,
    }
}

} // verus!
