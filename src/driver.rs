use vstd::prelude::*;

verus! {

/// The steps of one run, in dependency order: the low-level project's lockfile,
/// the mid-tier project's pins of it, the mid-tier and top-level lockfiles, the
/// top-level pins, then the prebuilt artifacts.
#[derive(Clone, Copy, Debug, PartialEq, Eq, Structural)]
pub enum Stage {
    LowerLock,
    MiddlePins,
    MiddleLock,
    UpperLock,
    UpperPins,
    Artifacts,
    Done,
}

/// The step after `s`, given whether `s` found that an update is required. A
/// pin check that requires an update ends the run: findings further down are
/// noise until the upstream pins are fixed.
pub open spec fn stage_after(s: Stage, update_required: bool) -> Stage {
    match s {
        Stage::LowerLock => Stage::MiddlePins,
        Stage::MiddlePins => if update_required {
            Stage::Done
        } else {
            Stage::MiddleLock
        },
        Stage::MiddleLock => Stage::UpperLock,
        Stage::UpperLock => Stage::UpperPins,
        Stage::UpperPins => if update_required {
            Stage::Done
        } else {
            Stage::Artifacts
        },
        Stage::Artifacts => Stage::Done,
        Stage::Done => Stage::Done,
    }
}

/// The step after `s`.
pub fn next_stage(s: Stage, update_required: bool) -> (r: Stage)
    ensures
        r == stage_after(s, update_required),
{
    match s {
        Stage::LowerLock => Stage::MiddlePins,
        Stage::MiddlePins => if update_required {
            Stage::Done
        } else {
            Stage::MiddleLock
        },
        Stage::MiddleLock => Stage::UpperLock,
        Stage::UpperLock => Stage::UpperPins,
        Stage::UpperPins => if update_required {
            Stage::Done
        } else {
            Stage::Artifacts
        },
        Stage::Artifacts => Stage::Done,
        Stage::Done => Stage::Done,
    }
}

} // verus!
