use vstd::prelude::*;

use crate::kinds::GameKinds;

verus! {

/// Fox's and Falco's neutral special (the laser), which keeps the fighter's momentum.
pub open spec fn is_laser(k: GameKinds, status_kind: i32, fighter_kind: i32) -> bool {
    (fighter_kind == k.fighter.falco || fighter_kind == k.fighter.fox) && status_kind
        == k.status.special_n
}

/// The kinetic type to force when the game changes a fighter's kinetic type:
/// `Some(-1)` (keep the current one) during Fox's and Falco's laser, otherwise
/// `None` (let the game choose).
pub fn change_kinetic_momentum_related(kinds: &GameKinds, status_kind: i32, fighter_kind: i32) -> (kinetic: Option<i32>)
    ensures
        kinetic == (if is_laser(*kinds, status_kind, fighter_kind) {
            Some(-1i32)
        } else {
            None
        }),
{
    let mut should_change_kinetic = false;
    if (fighter_kind == kinds.fighter.falco || fighter_kind == kinds.fighter.fox) && status_kind
        == kinds.status.special_n {
        should_change_kinetic = true;
    }
    if should_change_kinetic {
        return Some(-1);
    }
    None
}

/// Decides whether a jump sets the fighter's horizontal speed from the jump
/// momentum rules: it does for every fighter but Nana.
pub fn status_jump_sub_hook(kinds: &GameKinds, fighter_kind: i32) -> (apply_momentum: bool)
    ensures
        apply_momentum <==> fighter_kind != kinds.fighter.nana,
{
    fighter_kind != kinds.fighter.nana
}

/// Fighters whose aerial attacks keep the game's own air drift.
pub open spec fn keeps_game_aerial_drift(k: GameKinds, f: i32) -> bool {
    let fk = k.fighter;
    ||| f == fk.ness
    ||| f == fk.mewtwo
    ||| f == fk.lucas
    ||| f == fk.ryu
    ||| f == fk.ken
    ||| f == fk.nana
    ||| f == fk.popo
    ||| f == fk.simon
    ||| f == fk.richter
    ||| f == fk.dolly
}

/// What the game reports when an aerial attack starts.
#[derive(Clone, Copy, Debug)]
pub struct AerialInput {
    pub fighter_kind: i32,
    pub prev_status_0: i32,
    pub prev_status_1: i32,
    /// Frames spent in the air.
    pub frame_in_air: i32,
    /// The fighter moves against the direction it faces.
    pub speed_is_backward: bool,
}

/// What happens to an aerial attack's horizontal speed.
#[derive(Clone, Copy, Debug, PartialEq, Eq)]
pub struct AerialPlan {
    /// Compute the speed with the jump momentum rules, as for an aerial attack
    /// (this also clears a pending footstool), in place of the stored momentum.
    pub recompute_melee_momentum: bool,
    /// Set the fighter's horizontal speed: to the recomputed speed when there is
    /// one, else to the stored momentum capped by the maximum air speed.
    pub apply_speed: bool,
}

/// An aerial attack input on the first frame of a short hop (the short-hop
/// macro) or a drop through a platform, while moving forward.
pub open spec fn is_short_hop_aerial(k: GameKinds, a: AerialInput) -> bool {
    &&& a.frame_in_air <= 1
    &&& a.prev_status_1 == k.status.jump_squat
    &&& !a.speed_is_backward
    &&& !(a.prev_status_0 == k.status.pass || a.prev_status_0 == k.status.fall)
}

/// The aerial attack's speed handling.
pub open spec fn aerial_plan(k: GameKinds, a: AerialInput) -> AerialPlan {
    if keeps_game_aerial_drift(k, a.fighter_kind) {
        AerialPlan { recompute_melee_momentum: false, apply_speed: false }
    } else {
        AerialPlan {
            recompute_melee_momentum: is_short_hop_aerial(k, a),
            apply_speed: a.prev_status_0 == k.status.jump || a.prev_status_0
                == k.status.jump_squat,
        }
    }
}

/// Decides how an aerial attack's horizontal speed is set.
pub fn status_attack_air_hook(kinds: &GameKinds, aerial: &AerialInput) -> (plan: AerialPlan)
    ensures
        plan == aerial_plan(*kinds, *aerial),
{
    let fk = &kinds.fighter;
    let f = aerial.fighter_kind;
    if f == fk.ness || f == fk.mewtwo || f == fk.lucas || f == fk.ryu || f == fk.ken || f
        == fk.nana || f == fk.popo || f == fk.simon || f == fk.richter || f == fk.dolly {
        return AerialPlan { recompute_melee_momentum: false, apply_speed: false };
    }
    let st = &kinds.status;
    let prev_status_check = aerial.prev_status_0 == st.jump || aerial.prev_status_0
        == st.jump_squat;
    let recompute = aerial.frame_in_air <= 1 && aerial.prev_status_1 == st.jump_squat
        && !aerial.speed_is_backward && !(aerial.prev_status_0 == st.pass || aerial.prev_status_0
        == st.fall);
    AerialPlan { recompute_melee_momentum: recompute, apply_speed: prev_status_check }
}

} // verus!
