use vstd::prelude::*;

use crate::hooks::{aerial_plan, status_jump_sub_hook, AerialInput, AerialPlan};
use crate::kinds::GameKinds;
use crate::slots::{PlayerSlots, PLAYER_COUNT};

verus! {

// ---------------------------------------------------------------------------
// Status groups
// ---------------------------------------------------------------------------

/// Grounded movement from which a plain jump keeps the fighter's velocity.
pub open spec fn is_ground_movement(k: GameKinds, s: i32) -> bool {
    s == k.status.dash || s == k.status.run || s == k.status.walk
}

/// Sonic's side and down special statuses, which keep their speed into a jump.
pub open spec fn is_sonic_special(k: GameKinds, s: i32) -> bool {
    ||| s == k.status.special_s
    ||| s == k.character_status.sonic_special_s_dash
    ||| s == k.character_status.sonic_special_s_end
    ||| s == k.character_status.sonic_special_s_turn
    ||| s == k.status.special_lw
    ||| s == k.character_status.sonic_special_lw_end
}

/// Dashing or running before the jump squat.
pub open spec fn is_dash_or_run(k: GameKinds, s: i32) -> bool {
    s == k.status.dash || s == k.status.run || s == k.status.turn_dash
}

/// Turning around out of a run before the jump squat.
pub open spec fn is_turn_run(k: GameKinds, s: i32) -> bool {
    s == k.status.turn_run || s == k.status.turn_run_brake
}

/// Walking before the jump squat.
pub open spec fn is_walk(k: GameKinds, s: i32) -> bool {
    s == k.status.walk || s == k.status.walk_brake
}

/// A status that ends the pivot window (standing still or a plain turn).
pub open spec fn is_wait_or_turn(k: GameKinds, s: i32) -> bool {
    s == k.status.wait || s == k.status.turn
}

/// Fighters whose neutral special keeps the momentum they had in the air.
pub open spec fn keeps_neutral_special_momentum(k: GameKinds, f: i32) -> bool {
    ||| f == k.fighter.captain
    ||| f == k.fighter.mario
    ||| f == k.fighter.luigi
    ||| f == k.fighter.pikachu
    ||| f == k.fighter.pichu
}

fn ground_movement(k: &GameKinds, s: i32) -> (r: bool)
    ensures
        r == is_ground_movement(*k, s),
{
    s == k.status.dash || s == k.status.run || s == k.status.walk
}

fn sonic_special(k: &GameKinds, s: i32) -> (r: bool)
    ensures
        r == is_sonic_special(*k, s),
{
    s == k.status.special_s || s == k.character_status.sonic_special_s_dash
        || s == k.character_status.sonic_special_s_end
        || s == k.character_status.sonic_special_s_turn || s == k.status.special_lw
        || s == k.character_status.sonic_special_lw_end
}

fn dash_or_run(k: &GameKinds, s: i32) -> (r: bool)
    ensures
        r == is_dash_or_run(*k, s),
{
    s == k.status.dash || s == k.status.run || s == k.status.turn_dash
}

fn turn_run(k: &GameKinds, s: i32) -> (r: bool)
    ensures
        r == is_turn_run(*k, s),
{
    s == k.status.turn_run || s == k.status.turn_run_brake
}

fn walk(k: &GameKinds, s: i32) -> (r: bool)
    ensures
        r == is_walk(*k, s),
{
    s == k.status.walk || s == k.status.walk_brake
}

fn wait_or_turn(k: &GameKinds, s: i32) -> (r: bool)
    ensures
        r == is_wait_or_turn(*k, s),
{
    s == k.status.wait || s == k.status.turn
}

fn neutral_special_keeper(k: &GameKinds, f: i32) -> (r: bool)
    ensures
        r == keeps_neutral_special_momentum(*k, f),
{
    f == k.fighter.captain || f == k.fighter.mario || f == k.fighter.luigi
        || f == k.fighter.pikachu || f == k.fighter.pichu
}

// ---------------------------------------------------------------------------
// Per-frame bookkeeping
// ---------------------------------------------------------------------------

/// What the game reports about a fighter on one frame.
#[derive(Clone, Copy, Debug)]
pub struct FrameInput {
    pub status_kind: i32,
    pub situation_kind: i32,
    pub fighter_kind: i32,
    /// The previous status, then the one before it, then the one before that.
    pub prev_status_0: i32,
    pub prev_status_1: i32,
    pub prev_status_2: i32,
    /// The hash of the motion that is playing.
    pub motion_kind: u64,
    /// The motion is at most on its first frame.
    pub first_frame: bool,
    /// The control stick is exactly centred horizontally.
    pub stick_neutral: bool,
}

/// What the frame's bookkeeping does, in the order in which it is done.
#[derive(Clone, Copy, Debug, PartialEq, Eq)]
pub struct FramePlan {
    /// Store the ratio of maximum air speed to maximum run speed.
    pub record_jump_speed_ratio: bool,
    /// Ask the game to turn the turn dash into a dash.
    pub request_dash: bool,
    /// Pivot (turn around, enter the turn status, get the pivot boost) out of a turn dash.
    pub pivot_from_turn_dash: bool,
    /// Pivot out of a dash that followed a turn dash.
    pub pivot_from_dash: bool,
    /// Recompute how much of the run's speed a turn-around jump may keep.
    pub update_rar_leniency: bool,
    /// Store the horizontal speed at the start of the jump squat.
    pub record_jump_squat_velocity: bool,
    /// Remember that a footstool jump happened.
    pub mark_footstool: bool,
    /// Store the current horizontal speed.
    pub record_momentum: bool,
    /// Store the current horizontal speed for special moves.
    pub record_special_momentum: bool,
    /// Set the neutral special's speed to the stored special momentum, when the
    /// fighter moves faster than the threshold.
    pub conserve_special_momentum: bool,
}

/// The pivot out of a turn dash: first frame, coming from a turn dash or dash
/// that did not itself start from standing or turning, with the stick centred.
pub open spec fn pivots_from_turn_dash(k: GameKinds, f: FrameInput) -> bool {
    &&& f.status_kind == k.status.turn_dash
    &&& f.first_frame
    &&& (f.prev_status_0 == k.status.turn_dash || f.prev_status_0 == k.status.dash)
    &&& !is_wait_or_turn(k, f.prev_status_1)
    &&& f.stick_neutral
}

/// The pivot out of a dash that came from a turn dash.
pub open spec fn pivots_from_dash(k: GameKinds, f: FrameInput) -> bool {
    &&& f.status_kind == k.status.dash
    &&& f.first_frame
    &&& f.prev_status_0 == k.status.turn_dash
    &&& (f.prev_status_1 == k.status.turn_dash || f.prev_status_1 == k.status.dash)
    &&& !is_wait_or_turn(k, f.prev_status_2)
    &&& f.stick_neutral
}

/// A neutral special started in the air on its first frame by a fighter that keeps momentum.
pub open spec fn conserves_special_momentum(k: GameKinds, f: FrameInput) -> bool {
    &&& f.situation_kind == k.situation_air
    &&& f.first_frame
    &&& keeps_neutral_special_momentum(k, f.fighter_kind)
    &&& f.status_kind == k.status.special_n
}

/// The bookkeeping due on a frame.
pub open spec fn frame_plan(k: GameKinds, f: FrameInput) -> FramePlan {
    let s = f.status_kind;
    let jumping = s == k.status.jump_squat || s == k.status.jump;
    let conserve = conserves_special_momentum(k, f);
    FramePlan {
        record_jump_speed_ratio: s == k.status.entry,
        request_dash: s == k.status.turn_dash,
        pivot_from_turn_dash: pivots_from_turn_dash(k, f),
        pivot_from_dash: pivots_from_dash(k, f),
        update_rar_leniency: is_turn_run(k, s),
        record_jump_squat_velocity: s == k.status.jump_squat && f.first_frame,
        mark_footstool: f.motion_kind == k.step_jump_motion,
        record_momentum: jumping || s == k.status.pass || f.situation_kind == k.situation_air,
        record_special_momentum: jumping || (conserve && f.prev_status_0 != k.status.jump),
        conserve_special_momentum: conserve,
    }
}

fn plan_frame(k: &GameKinds, f: &FrameInput) -> (plan: FramePlan)
    ensures
        plan == frame_plan(*k, *f),
{
    let s = f.status_kind;
    let first = f.first_frame;

    let pivot_from_turn_dash = s == k.status.turn_dash && first && (f.prev_status_0
        == k.status.turn_dash || f.prev_status_0 == k.status.dash) && !wait_or_turn(
        k,
        f.prev_status_1,
    ) && f.stick_neutral;

    let pivot_from_dash = s == k.status.dash && first && f.prev_status_0 == k.status.turn_dash
        && (f.prev_status_1 == k.status.turn_dash || f.prev_status_1 == k.status.dash)
        && !wait_or_turn(k, f.prev_status_2) && f.stick_neutral;

    let air = f.situation_kind == k.situation_air;
    let jumping = s == k.status.jump_squat || s == k.status.jump;

    let mut conserve = false;
    let mut special_from_neutral_special = false;
    if air && first {
        if neutral_special_keeper(k, f.fighter_kind) && s == k.status.special_n {
            if f.prev_status_0 != k.status.jump {
                special_from_neutral_special = true;
            }
            conserve = true;
        }
    }

    FramePlan {
        record_jump_speed_ratio: s == k.status.entry,
        request_dash: s == k.status.turn_dash,
        pivot_from_turn_dash,
        pivot_from_dash,
        update_rar_leniency: turn_run(k, s),
        record_jump_squat_velocity: s == k.status.jump_squat && first,
        mark_footstool: f.motion_kind == k.step_jump_motion,
        record_momentum: jumping || s == k.status.pass || air,
        record_special_momentum: jumping || special_from_neutral_special,
        conserve_special_momentum: conserve,
    }
}

// ---------------------------------------------------------------------------
// Jump momentum
// ---------------------------------------------------------------------------

/// How the horizontal speed of a jump (or of an aerial attack started out of a
/// jump) is made from the fighter's parameters and inputs. With `a` the jump's
/// base horizontal speed, `m` its velocity multiplier, `s` the stick's
/// horizontal position, `v` the current horizontal velocity, `j` the velocity
/// stored at the start of the jump squat, `r` the stored turn-run leniency and
/// `sign` the sign function, each formula is named below. The result is then
/// capped on both sides by the fighter's maximum air speed.
#[derive(Clone, Copy, Debug, PartialEq, Eq)]
pub enum JumpFormula {
    /// `0`
    NoMomentum,
    /// `a * sign(v) + m * v`
    SignedVelocityCarry,
    /// `a * s + m * v * 0.55`
    StickWithDampedVelocity,
    /// `a * s * 0.1 + m * v`
    DampedStickWithVelocity,
    /// `a * sign(j) + m * j`
    JumpSquatCarry,
    /// `a * s`
    StickOnly,
    /// `a * sign(j) * r + m * j`
    LenientJumpSquatCarry,
    /// `a * s + m * j * 0.1`
    StickWithTinyJumpSquatCarry,
    /// `a * s * 0.1 + m * v * 0.55`
    WalkReversal,
    /// `a * sign(j) * sign(s) * s + m * j * 0.55`
    WalkCarry,
    /// `a * sign(v) * 0.5 + m * v`
    SpecialMoveCarry,
}

/// What the game reports when a jump's speed is computed.
#[derive(Clone, Copy, Debug)]
pub struct JumpContext {
    pub fighter_kind: i32,
    pub prev_status_0: i32,
    pub prev_status_1: i32,
    pub prev_status_2: i32,
    /// The speed is for an aerial attack started right out of the jump, not for the jump.
    pub is_aerial_attack: bool,
    /// The velocity stored at the start of the jump squat is at least 0.9 in size.
    pub jump_squat_velocity_fast: bool,
    /// The stick points against the direction the fighter faces.
    pub stick_against_facing: bool,
}

/// The status the fighter was in before its jump squat: one status back for a
/// jump, two for an aerial attack started out of the jump.
pub open spec fn status_before_jump_squat(c: JumpContext) -> i32 {
    if c.is_aerial_attack {
        c.prev_status_2
    } else {
        c.prev_status_1
    }
}

/// A jump (not an aerial attack) with the stick held against the facing direction.
pub open spec fn stick_reversal(c: JumpContext) -> bool {
    c.stick_against_facing && !c.is_aerial_attack
}

/// Special moves after which a jump keeps the move's speed.
pub open spec fn special_move_exception(k: GameKinds, c: JumpContext) -> bool {
    let p = c.prev_status_1;
    let f = c.fighter_kind;
    ||| p == k.character_status.ike_special_s_dash && f == k.fighter.ike
    ||| (p == k.status.special_s || p == k.character_status.pit_special_s_end) && f
        == k.fighter.pit
    ||| (p == k.status.special_s || p == k.character_status.pzenigame_special_s_loop || p
        == k.character_status.pzenigame_special_s_end) && f == k.fighter.pzenigame
    ||| is_sonic_special(k, p) && f == k.fighter.sonic
}

/// A jump that did not come out of a jump squat (a double jump, a footstool, ...).
pub open spec fn is_jump_without_squat(k: GameKinds, c: JumpContext) -> bool {
    c.prev_status_0 != k.status.jump_squat && c.prev_status_1 != k.status.jump_squat
}

/// The formula for carrying the jump squat's velocity, by its size.
pub open spec fn carried_velocity_formula(c: JumpContext) -> JumpFormula {
    if c.jump_squat_velocity_fast {
        if stick_reversal(c) {
            JumpFormula::DampedStickWithVelocity
        } else {
            JumpFormula::JumpSquatCarry
        }
    } else {
        JumpFormula::StickOnly
    }
}

/// The formula for a jump out of a jump squat, by what came before the squat.
pub open spec fn jump_squat_formula(k: GameKinds, c: JumpContext) -> JumpFormula {
    let before = status_before_jump_squat(c);
    let reversed = stick_reversal(c);
    if is_dash_or_run(k, before) {
        carried_velocity_formula(c)
    } else if is_turn_run(k, before) {
        if reversed {
            JumpFormula::LenientJumpSquatCarry
        } else {
            JumpFormula::StickWithTinyJumpSquatCarry
        }
    } else if before == k.status.run_brake {
        if reversed {
            JumpFormula::DampedStickWithVelocity
        } else {
            JumpFormula::LenientJumpSquatCarry
        }
    } else if is_walk(k, before) {
        if reversed {
            JumpFormula::WalkReversal
        } else {
            JumpFormula::WalkCarry
        }
    } else {
        carried_velocity_formula(c)
    }
}

/// The formula for a jump's horizontal speed, given whether a footstool is pending.
pub open spec fn jump_formula(k: GameKinds, c: JumpContext, footstool: bool) -> JumpFormula {
    if special_move_exception(k, c) {
        JumpFormula::SpecialMoveCarry
    } else if is_jump_without_squat(k, c) {
        if footstool {
            JumpFormula::NoMomentum
        } else if is_ground_movement(k, c.prev_status_1) || (is_sonic_special(k, c.prev_status_0)
            && c.fighter_kind == k.fighter.sonic) {
            JumpFormula::SignedVelocityCarry
        } else {
            JumpFormula::StickWithDampedVelocity
        }
    } else {
        jump_squat_formula(k, c)
    }
}

fn carried_velocity(c: &JumpContext) -> (r: JumpFormula)
    ensures
        r == carried_velocity_formula(*c),
{
    if c.jump_squat_velocity_fast {
        if c.stick_against_facing && !c.is_aerial_attack {
            JumpFormula::DampedStickWithVelocity
        } else {
            JumpFormula::JumpSquatCarry
        }
    } else {
        JumpFormula::StickOnly
    }
}

fn select_jump_formula(k: &GameKinds, c: &JumpContext, footstool: bool) -> (r: JumpFormula)
    ensures
        r == jump_formula(*k, *c, footstool),
{
    let aerial = c.is_aerial_attack;
    let reversed = c.stick_against_facing && !aerial;
    let mut formula;
    if c.prev_status_0 != k.status.jump_squat && c.prev_status_1 != k.status.jump_squat {
        if footstool {
            formula = JumpFormula::NoMomentum;
        } else if ground_movement(k, c.prev_status_1) || (sonic_special(k, c.prev_status_0)
            && c.fighter_kind == k.fighter.sonic) {
            formula = JumpFormula::SignedVelocityCarry;
        } else {
            formula = JumpFormula::StickWithDampedVelocity;
        }
    } else {
        let before = if aerial {
            c.prev_status_2
        } else {
            c.prev_status_1
        };
        if dash_or_run(k, before) {
            formula = carried_velocity(c);
        } else if turn_run(k, before) {
            formula =
            if reversed {
                JumpFormula::LenientJumpSquatCarry
            } else {
                JumpFormula::StickWithTinyJumpSquatCarry
            };
        } else if before == k.status.run_brake {
            formula =
            if reversed {
                JumpFormula::DampedStickWithVelocity
            } else {
                JumpFormula::LenientJumpSquatCarry
            };
        } else if walk(k, before) {
            formula = if reversed {
                JumpFormula::WalkReversal
            } else {
                JumpFormula::WalkCarry
            };
        } else {
            formula = carried_velocity(c);
        }
    }

    let p = c.prev_status_1;
    let f = c.fighter_kind;
    let cs = &k.character_status;
    if (p == cs.ike_special_s_dash && f == k.fighter.ike) || ((p == k.status.special_s || p
        == cs.pit_special_s_end) && f == k.fighter.pit) || ((p == k.status.special_s || p
        == cs.pzenigame_special_s_loop || p == cs.pzenigame_special_s_end) && f
        == k.fighter.pzenigame) || (sonic_special(k, p) && f == k.fighter.sonic) {
        formula = JumpFormula::SpecialMoveCarry;
    }
    formula
}

// ---------------------------------------------------------------------------
// The plugin's state
// ---------------------------------------------------------------------------

/// A table after `value` is stored for `player` when `record` holds.
pub open spec fn recorded<S>(table: Seq<S>, record: bool, player: int, value: S) -> Seq<S> {
    if record {
        table.update(player, value)
    } else {
        table
    }
}

/// A table after the value, if there is one, is stored for `player`.
pub open spec fn recorded_if_some<S>(table: Seq<S>, player: int, value: Option<S>) -> Seq<S> {
    match value {
        Some(v) => table.update(player, v),
        None => table,
    }
}

/// What the momentum rules remember between frames: one value of type `S` per
/// player in each table, and whether a footstool jump is pending. The footstool
/// flag is shared by all players.
pub struct MomentumState<S> {
    /// Maximum air speed over maximum run speed, stored when a fighter enters.
    pub jump_speed_ratio: PlayerSlots<S>,
    /// The horizontal speed last seen while jumping or airborne.
    pub curr_momentum: PlayerSlots<S>,
    /// The horizontal speed kept for momentum-conserving special moves.
    pub curr_momentum_specials: PlayerSlots<S>,
    /// The horizontal speed at the start of the jump squat.
    pub js_vel: PlayerSlots<S>,
    /// How much of a run's speed a turn-around jump may keep.
    pub rar_leniency: PlayerSlots<S>,
    /// A footstool jump happened and no jump speed has been computed since.
    pub footstool: bool,
}

impl<S: Copy> MomentumState<S> {
    /// Every table holds `zero` for every player, and no footstool is pending.
    pub open spec fn is_fresh(&self, zero: S) -> bool {
        &&& self.jump_speed_ratio@ == Seq::new(PLAYER_COUNT as nat, |i: int| zero)
        &&& self.curr_momentum@ == Seq::new(PLAYER_COUNT as nat, |i: int| zero)
        &&& self.curr_momentum_specials@ == Seq::new(PLAYER_COUNT as nat, |i: int| zero)
        &&& self.js_vel@ == Seq::new(PLAYER_COUNT as nat, |i: int| zero)
        &&& self.rar_leniency@ == Seq::new(PLAYER_COUNT as nat, |i: int| zero)
        &&& !self.footstool
    }

    /// Every table has one slot per player.
    pub open spec fn tables_sized(&self) -> bool {
        &&& self.jump_speed_ratio@.len() == PLAYER_COUNT
        &&& self.curr_momentum@.len() == PLAYER_COUNT
        &&& self.curr_momentum_specials@.len() == PLAYER_COUNT
        &&& self.js_vel@.len() == PLAYER_COUNT
        &&& self.rar_leniency@.len() == PLAYER_COUNT
    }

    /// The tables of `self` and `other` hold the same values.
    pub open spec fn same_tables(&self, other: &Self) -> bool {
        &&& self.jump_speed_ratio@ == other.jump_speed_ratio@
        &&& self.curr_momentum@ == other.curr_momentum@
        &&& self.curr_momentum_specials@ == other.curr_momentum_specials@
        &&& self.js_vel@ == other.js_vel@
        &&& self.rar_leniency@ == other.rar_leniency@
    }

    /// The state at the start of a session.
    pub fn new(zero: S) -> (state: Self)
        ensures
            state.is_fresh(zero),
            state.tables_sized(),
            !state.footstool,
            forall|p: int|
                0 <= p < PLAYER_COUNT ==> #[trigger] state.jump_speed_ratio@[p] == zero
                    && state.curr_momentum@[p] == zero && state.curr_momentum_specials@[p] == zero
                    && state.js_vel@[p] == zero && state.rar_leniency@[p] == zero,
    {
        MomentumState {
            jump_speed_ratio: PlayerSlots::new(zero),
            curr_momentum: PlayerSlots::new(zero),
            curr_momentum_specials: PlayerSlots::new(zero),
            js_vel: PlayerSlots::new(zero),
            rar_leniency: PlayerSlots::new(zero),
            footstool: false,
        }
    }

    /// Decides a frame's bookkeeping for a fighter and remembers a footstool
    /// jump. The tables are filled afterwards by `record_frame`, once the
    /// plan's pivots (which change the fighter's speed) have happened.
    pub fn momentum_transfer_helper(&mut self, kinds: &GameKinds, frame: &FrameInput) -> (plan:
        FramePlan)
        ensures
            plan == frame_plan(*kinds, *frame),
            final(self).footstool == (old(self).footstool
                || plan.mark_footstool),
            final(self).jump_speed_ratio@ == old(self).jump_speed_ratio@,
            final(self).curr_momentum@ == old(self).curr_momentum@,
            final(self).curr_momentum_specials@ == old(self).curr_momentum_specials@,
            final(self).js_vel@ == old(self).js_vel@,
            final(self).rar_leniency@ == old(self).rar_leniency@,
    {
        let plan = plan_frame(kinds, frame);
        if plan.mark_footstool {
            self.footstool = true;
        }
        plan
    }

    /// Chooses the formula for a jump's horizontal speed and clears the
    /// pending footstool.
    pub fn calc_melee_momentum(&mut self, kinds: &GameKinds, context: &JumpContext) -> (formula:
        JumpFormula)
        ensures
            formula == jump_formula(*kinds, *context, old(self).footstool),
            !final(self).footstool,
            final(self).jump_speed_ratio@ == old(self).jump_speed_ratio@,
            final(self).curr_momentum@ == old(self).curr_momentum@,
            final(self).curr_momentum_specials@ == old(self).curr_momentum_specials@,
            final(self).js_vel@ == old(self).js_vel@,
            final(self).rar_leniency@ == old(self).rar_leniency@,
    {
        let formula = select_jump_formula(kinds, context, self.footstool);
        self.footstool = false;
        formula
    }

    /// Stores a frame's values in the player's slots, as the frame's plan says:
    /// the jump speed ratio and the turn-run leniency when they are given (they
    /// are given exactly when the plan records them), and the fighter's current
    /// horizontal `speed` as the jump-squat velocity, the momentum and the
    /// special momentum when the plan records each.
    pub fn record_frame(
        &mut self,
        plan: &FramePlan,
        player: usize,
        ratio: Option<S>,
        leniency: Option<S>,
        speed: S,
    )
        requires
            old(self).tables_sized(),
            player < PLAYER_COUNT,
            plan.record_jump_speed_ratio <==> ratio is Some,
            plan.update_rar_leniency <==> leniency is Some,
        ensures
            final(self).tables_sized(),
            final(self).footstool == old(self).footstool,
            final(self).jump_speed_ratio@ == recorded_if_some(
                old(self).jump_speed_ratio@,
                player as int,
                ratio,
            ),
            final(self).rar_leniency@ == recorded_if_some(
                old(self).rar_leniency@,
                player as int,
                leniency,
            ),
            final(self).js_vel@ == recorded(
                old(self).js_vel@,
                plan.record_jump_squat_velocity,
                player as int,
                speed,
            ),
            final(self).curr_momentum@ == recorded(
                old(self).curr_momentum@,
                plan.record_momentum,
                player as int,
                speed,
            ),
            final(self).curr_momentum_specials@ == recorded(
                old(self).curr_momentum_specials@,
                plan.record_special_momentum,
                player as int,
                speed,
            ),
    {
        if let Some(r) = ratio {
            self.jump_speed_ratio.set(player, r);
        }
        if let Some(l) = leniency {
            self.rar_leniency.set(player, l);
        }
        if plan.record_jump_squat_velocity {
            self.js_vel.set(player, speed);
        }
        if plan.record_momentum {
            self.curr_momentum.set(player, speed);
        }
        if plan.record_special_momentum {
            self.curr_momentum_specials.set(player, speed);
        }
    }

    /// The speed a conserved neutral special is set to: the player's stored
    /// special momentum, when the plan conserves it.
    pub fn conserved_speed(&self, plan: &FramePlan, player: usize) -> (speed: Option<S>)
        requires
            self.tables_sized(),
            player < PLAYER_COUNT,
        ensures
            speed == (if plan.conserve_special_momentum {
                Some(self.curr_momentum_specials@[player as int])
            } else {
                None
            }),
    {
        if plan.conserve_special_momentum {
            Some(self.curr_momentum_specials.get(player))
        } else {
            None
        }
    }

    /// A jump's step: every fighter but Nana gets the jump-speed formula, which
    /// consumes a pending footstool; Nana's jump leaves the state alone.
    pub fn status_jump_step(&mut self, kinds: &GameKinds, context: &JumpContext) -> (formula:
        Option<JumpFormula>)
        requires
            !context.is_aerial_attack,
        ensures
            formula == (if context.fighter_kind != kinds.fighter.nana {
                Some(jump_formula(*kinds, *context, old(self).footstool))
            } else {
                None
            }),
            final(self).footstool == (old(self).footstool && context.fighter_kind
                == kinds.fighter.nana),
            final(self).same_tables(old(self)),
    {
        if status_jump_sub_hook(kinds, context.fighter_kind) {
            Some(self.calc_melee_momentum(kinds, context))
        } else {
            None
        }
    }

    /// An aerial attack's step: the aerial plan, and the jump-speed formula for
    /// an aerial attack exactly when the plan recomputes it, which consumes a
    /// pending footstool.
    pub fn aerial_step(&mut self, kinds: &GameKinds, aerial: &AerialInput, context: &JumpContext) -> (result: (
        AerialPlan,
        Option<JumpFormula>,
    ))
        requires
            context.is_aerial_attack,
            context.fighter_kind == aerial.fighter_kind,
            context.prev_status_0 == aerial.prev_status_0,
            context.prev_status_1 == aerial.prev_status_1,
        ensures
            result.0 == aerial_plan(*kinds, *aerial),
            result.1 == (if result.0.recompute_melee_momentum {
                Some(jump_formula(*kinds, *context, old(self).footstool))
            } else {
                None
            }),
            final(self).footstool == (old(self).footstool && !result.0.recompute_melee_momentum),
            final(self).same_tables(old(self)),
    {
        let plan = crate::hooks::status_attack_air_hook(kinds, aerial);
        if plan.recompute_melee_momentum {
            let formula = self.calc_melee_momentum(kinds, context);
            (plan, Some(formula))
        } else {
            (plan, None)
        }
    }
}

} // verus!
