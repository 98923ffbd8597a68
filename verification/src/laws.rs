use vstd::prelude::*;

use crate::hooks::{aerial_plan, is_laser, keeps_game_aerial_drift, AerialInput, AerialPlan};
use crate::object::{category_of, hook_module_name};
use crate::slots::PLAYER_COUNT;
use crate::kinds::GameKinds;
use crate::momentum::{
    frame_plan, is_jump_without_squat, jump_formula, keeps_neutral_special_momentum,
    recorded, recorded_if_some, special_move_exception, FrameInput, JumpContext, JumpFormula,
    MomentumState,
};

verus! {

/// A footstool jump gets no horizontal momentum: after a frame that plays the
/// footstool motion, the next jump computed without a jump squat and outside the
/// special-move exceptions gets the zero formula, whatever was pending before.
pub proof fn lemma_footstool_jump_has_no_momentum(
    k: GameKinds,
    pending: bool,
    frame: FrameInput,
    jump: JumpContext,
)
    requires
        frame.motion_kind == k.step_jump_motion,
        is_jump_without_squat(k, jump),
        !special_move_exception(k, jump),
    ensures
        jump_formula(k, jump, pending || frame_plan(k, frame).mark_footstool)
            == JumpFormula::NoMomentum,
{
}

/// Zero momentum comes only from a pending footstool: once the footstool has
/// been consumed, no jump gets the zero formula.
pub proof fn lemma_no_momentum_only_after_footstool(k: GameKinds, jump: JumpContext)
    ensures
        jump_formula(k, jump, false) != JumpFormula::NoMomentum,
{
}

/// The special-move exceptions win over every other rule, footstool included.
pub proof fn lemma_special_moves_keep_their_speed(k: GameKinds, jump: JumpContext, pending: bool)
    requires
        special_move_exception(k, jump),
    ensures
        jump_formula(k, jump, pending) == JumpFormula::SpecialMoveCarry,
{
}

/// Holding the stick backwards damps the stick's part only for jumps: an aerial
/// attack never gets a reversal formula.
pub proof fn lemma_aerial_attacks_never_reverse(k: GameKinds, jump: JumpContext, pending: bool)
    requires
        jump.is_aerial_attack,
    ensures
        jump_formula(k, jump, pending) != JumpFormula::DampedStickWithVelocity,
        jump_formula(k, jump, pending) != JumpFormula::WalkReversal,
{
}

/// A pivot needs a centred stick on the first frame of a dash or turn dash.
pub proof fn lemma_pivot_needs_neutral_stick(k: GameKinds, frame: FrameInput)
    ensures
        frame_plan(k, frame).pivot_from_turn_dash || frame_plan(k, frame).pivot_from_dash
            ==> frame.stick_neutral && frame.first_frame,
{
}

/// At most one pivot happens per frame, as long as the game numbers dash and
/// turn dash differently.
pub proof fn lemma_at_most_one_pivot(k: GameKinds, frame: FrameInput)
    requires
        k.status.dash != k.status.turn_dash,
    ensures
        !(frame_plan(k, frame).pivot_from_turn_dash && frame_plan(k, frame).pivot_from_dash),
{
}

/// While a fighter is airborne its momentum is recorded every frame.
pub proof fn lemma_airborne_momentum_is_recorded(k: GameKinds, frame: FrameInput)
    requires
        frame.situation_kind == k.situation_air,
    ensures
        frame_plan(k, frame).record_momentum,
{
}

/// Only the listed fighters keep the speed of a neutral special started in the
/// air, and only on its first frame.
pub proof fn lemma_special_momentum_conserved_only_for_keepers(k: GameKinds, frame: FrameInput)
    requires
        frame_plan(k, frame).conserve_special_momentum,
    ensures
        keeps_neutral_special_momentum(k, frame.fighter_kind),
        frame.status_kind == k.status.special_n,
        frame.situation_kind == k.situation_air,
        frame.first_frame,
{
}

/// The fighters that keep the game's own air drift are never touched by the
/// aerial rules.
pub proof fn lemma_game_drift_fighters_untouched(k: GameKinds, aerial: AerialInput)
    requires
        keeps_game_aerial_drift(k, aerial.fighter_kind),
    ensures
        aerial_plan(k, aerial) == (AerialPlan {
            recompute_melee_momentum: false,
            apply_speed: false,
        }),
{
}

/// An aerial attack's speed is set only right out of a jump or a jump squat.
pub proof fn lemma_aerial_speed_only_out_of_jump(k: GameKinds, aerial: AerialInput)
    requires
        aerial_plan(k, aerial).apply_speed,
    ensures
        aerial.prev_status_0 == k.status.jump || aerial.prev_status_0 == k.status.jump_squat,
{
}

/// The speed a conserved neutral special is set to is the speed recorded on
/// the same frame, unless the special came straight out of a jump; then the
/// stored special momentum from before the frame is kept.
pub proof fn lemma_conserved_speed_is_recorded_speed<S>(
    k: GameKinds,
    frame: FrameInput,
    specials: Seq<S>,
    player: int,
    speed: S,
)
    requires
        frame_plan(k, frame).conserve_special_momentum,
        0 <= player < specials.len(),
    ensures
        frame.prev_status_0 != k.status.jump ==> recorded(
            specials,
            frame_plan(k, frame).record_special_momentum,
            player,
            speed,
        )[player] == speed,
        frame.prev_status_0 == k.status.jump && k.status.special_n != k.status.jump
            && k.status.special_n != k.status.jump_squat ==> recorded(
            specials,
            frame_plan(k, frame).record_special_momentum,
            player,
            speed,
        ) == specials,
{
}

// ---------------------------------------------------------------------------
// The rules, stated over the game constants
// ---------------------------------------------------------------------------

/// A frame's bookkeeping, field by field, in terms of the frame itself:
/// - the jump speed ratio is recorded on entry, and a turn dash asks for a dash;
/// - a turn dash pivots on its first frame with the stick centred when it
///   follows a turn dash or a dash that did not follow standing or turning;
/// - a dash pivots on its first frame with the stick centred when it follows a
///   turn dash, which followed a turn dash or dash, which did not follow
///   standing or turning;
/// - the turn-run leniency is updated in a turn run or its brake;
/// - the jump-squat velocity is recorded on the jump squat's first frame;
/// - a footstool is marked when the footstool motion plays;
/// - momentum is recorded in a jump squat, a jump, a pass, or in the air;
/// - Captain Falcon, Mario, Luigi, Pikachu and Pichu keep their momentum
///   through a neutral special started in the air, on its first frame;
/// - special momentum is recorded in a jump squat or a jump, and for such a
///   neutral special unless it came straight out of a jump.
pub proof fn lemma_frame_plan_rules(k: GameKinds, f: FrameInput)
    ensures
        frame_plan(k, f).record_jump_speed_ratio <==> f.status_kind == k.status.entry,
        frame_plan(k, f).request_dash <==> f.status_kind == k.status.turn_dash,
        frame_plan(k, f).pivot_from_turn_dash <==> (f.status_kind == k.status.turn_dash
            && f.first_frame && f.stick_neutral && (f.prev_status_0 == k.status.turn_dash
            || f.prev_status_0 == k.status.dash) && f.prev_status_1 != k.status.wait
            && f.prev_status_1 != k.status.turn),
        frame_plan(k, f).pivot_from_dash <==> (f.status_kind == k.status.dash && f.first_frame
            && f.stick_neutral && f.prev_status_0 == k.status.turn_dash && (f.prev_status_1
            == k.status.turn_dash || f.prev_status_1 == k.status.dash) && f.prev_status_2
            != k.status.wait && f.prev_status_2 != k.status.turn),
        frame_plan(k, f).update_rar_leniency <==> (f.status_kind == k.status.turn_run
            || f.status_kind == k.status.turn_run_brake),
        frame_plan(k, f).record_jump_squat_velocity <==> (f.status_kind == k.status.jump_squat
            && f.first_frame),
        frame_plan(k, f).mark_footstool <==> f.motion_kind == k.step_jump_motion,
        frame_plan(k, f).record_momentum <==> (f.status_kind == k.status.jump_squat
            || f.status_kind == k.status.jump || f.status_kind == k.status.pass
            || f.situation_kind == k.situation_air),
        frame_plan(k, f).conserve_special_momentum <==> (f.situation_kind == k.situation_air
            && f.first_frame && f.status_kind == k.status.special_n && (f.fighter_kind
            == k.fighter.captain || f.fighter_kind == k.fighter.mario || f.fighter_kind
            == k.fighter.luigi || f.fighter_kind == k.fighter.pikachu || f.fighter_kind
            == k.fighter.pichu)),
        frame_plan(k, f).record_special_momentum <==> (f.status_kind == k.status.jump_squat
            || f.status_kind == k.status.jump || (f.situation_kind == k.situation_air
            && f.first_frame && f.status_kind == k.status.special_n && f.prev_status_0
            != k.status.jump && (f.fighter_kind == k.fighter.captain || f.fighter_kind
            == k.fighter.mario || f.fighter_kind == k.fighter.luigi || f.fighter_kind
            == k.fighter.pikachu || f.fighter_kind == k.fighter.pichu))),
{
}

/// The special-move exceptions, fighter by fighter: a jump right after Ike's
/// side-special dash, Pit's side special or its end, Squirtle's side special,
/// its loop or its end, or Sonic's side or down special (any of their parts)
/// keeps the move's speed; no other fighter ever gets that formula.
pub proof fn lemma_special_move_exception_rules(k: GameKinds, c: JumpContext, pending: bool)
    ensures
        c.fighter_kind == k.fighter.ike && c.prev_status_1 == k.character_status.ike_special_s_dash
            ==> jump_formula(k, c, pending) == JumpFormula::SpecialMoveCarry,
        c.fighter_kind == k.fighter.pit && (c.prev_status_1 == k.status.special_s
            || c.prev_status_1 == k.character_status.pit_special_s_end) ==> jump_formula(
            k,
            c,
            pending,
        ) == JumpFormula::SpecialMoveCarry,
        c.fighter_kind == k.fighter.pzenigame && (c.prev_status_1 == k.status.special_s
            || c.prev_status_1 == k.character_status.pzenigame_special_s_loop || c.prev_status_1
            == k.character_status.pzenigame_special_s_end) ==> jump_formula(k, c, pending)
            == JumpFormula::SpecialMoveCarry,
        c.fighter_kind == k.fighter.sonic && (c.prev_status_1 == k.status.special_s
            || c.prev_status_1 == k.character_status.sonic_special_s_dash || c.prev_status_1
            == k.character_status.sonic_special_s_end || c.prev_status_1
            == k.character_status.sonic_special_s_turn || c.prev_status_1 == k.status.special_lw
            || c.prev_status_1 == k.character_status.sonic_special_lw_end) ==> jump_formula(
            k,
            c,
            pending,
        ) == JumpFormula::SpecialMoveCarry,
        c.fighter_kind != k.fighter.ike && c.fighter_kind != k.fighter.pit && c.fighter_kind
            != k.fighter.pzenigame && c.fighter_kind != k.fighter.sonic ==> jump_formula(
            k,
            c,
            pending,
        ) != JumpFormula::SpecialMoveCarry,
{
}

/// A jump that did not come out of a jump squat: zero after a footstool, else
/// the signed velocity carried out of a dash, run or walk, else the stick with
/// damped velocity.
pub proof fn lemma_jump_without_squat_rules(k: GameKinds, c: JumpContext, pending: bool)
    requires
        c.prev_status_0 != k.status.jump_squat,
        c.prev_status_1 != k.status.jump_squat,
        c.fighter_kind != k.fighter.ike,
        c.fighter_kind != k.fighter.pit,
        c.fighter_kind != k.fighter.pzenigame,
        c.fighter_kind != k.fighter.sonic,
    ensures
        pending ==> jump_formula(k, c, pending) == JumpFormula::NoMomentum,
        !pending && (c.prev_status_1 == k.status.dash || c.prev_status_1 == k.status.run
            || c.prev_status_1 == k.status.walk) ==> jump_formula(k, c, pending)
            == JumpFormula::SignedVelocityCarry,
        !pending && c.prev_status_1 != k.status.dash && c.prev_status_1 != k.status.run
            && c.prev_status_1 != k.status.walk ==> jump_formula(k, c, pending)
            == JumpFormula::StickWithDampedVelocity,
{
}

/// Sonic keeps his velocity when he jumps (without a jump squat) straight out
/// of his side or down special.
pub proof fn lemma_sonic_jump_out_of_special(k: GameKinds, c: JumpContext)
    requires
        c.fighter_kind == k.fighter.sonic,
        c.prev_status_0 != k.status.jump_squat,
        c.prev_status_1 != k.status.jump_squat,
        c.prev_status_0 == k.status.special_s || c.prev_status_0
            == k.character_status.sonic_special_s_dash || c.prev_status_0
            == k.character_status.sonic_special_s_end || c.prev_status_0
            == k.character_status.sonic_special_s_turn || c.prev_status_0 == k.status.special_lw
            || c.prev_status_0 == k.character_status.sonic_special_lw_end,
    ensures
        jump_formula(k, c, false) == JumpFormula::SignedVelocityCarry || jump_formula(k, c, false)
            == JumpFormula::SpecialMoveCarry,
{
}

/// A jump (not an aerial attack) out of a jump squat is chosen by the status
/// one back from the squat (`prev_status_1`), and by whether the stick is held
/// against the facing direction: out of a dash, run or turn dash, a fast
/// squat carries its velocity (or damps the stick when reversed) and a slow
/// one uses the stick; out of a turn run, the lenient carry when reversed, else
/// the stick with a tiny carry; out of a run brake, the damped stick when
/// reversed, else the lenient carry; out of a walk, the walk reversal or the
/// walk carry; out of anything else, as out of a dash.
pub proof fn lemma_jump_out_of_squat_rules(k: GameKinds, c: JumpContext, pending: bool)
    requires
        !c.is_aerial_attack,
        c.prev_status_0 == k.status.jump_squat || c.prev_status_1 == k.status.jump_squat,
        c.fighter_kind != k.fighter.ike,
        c.fighter_kind != k.fighter.pit,
        c.fighter_kind != k.fighter.pzenigame,
        c.fighter_kind != k.fighter.sonic,
    ensures
        ({
            let h = c.prev_status_1;
            let r = jump_formula(k, c, pending);
            let dashing = h == k.status.dash || h == k.status.run || h == k.status.turn_dash;
            let turning = h == k.status.turn_run || h == k.status.turn_run_brake;
            let braking = h == k.status.run_brake;
            let walking = h == k.status.walk || h == k.status.walk_brake;
            let carry = if c.jump_squat_velocity_fast {
                if c.stick_against_facing {
                    JumpFormula::DampedStickWithVelocity
                } else {
                    JumpFormula::JumpSquatCarry
                }
            } else {
                JumpFormula::StickOnly
            };
            &&& dashing ==> r == carry
            &&& turning && !dashing ==> r == (if c.stick_against_facing {
                JumpFormula::LenientJumpSquatCarry
            } else {
                JumpFormula::StickWithTinyJumpSquatCarry
            })
            &&& braking && !dashing && !turning ==> r == (if c.stick_against_facing {
                JumpFormula::DampedStickWithVelocity
            } else {
                JumpFormula::LenientJumpSquatCarry
            })
            &&& walking && !dashing && !turning && !braking ==> r == (if c.stick_against_facing {
                JumpFormula::WalkReversal
            } else {
                JumpFormula::WalkCarry
            })
            &&& !dashing && !turning && !braking && !walking ==> r == carry
        }),
{
}

/// An aerial attack out of a jump squat is chosen by the status two back
/// (`prev_status_2`, the one before the squat), whatever `prev_status_1` is,
/// and never by the stick's direction: out of a dash, run or turn dash, a fast
/// squat carries its velocity and a slow one uses the stick; out of a turn
/// run, the stick with a tiny carry; out of a run brake, the lenient carry;
/// out of a walk, the walk carry; out of anything else, as out of a dash.
pub proof fn lemma_aerial_out_of_squat_rules(k: GameKinds, c: JumpContext, pending: bool)
    requires
        c.is_aerial_attack,
        c.prev_status_0 == k.status.jump_squat || c.prev_status_1 == k.status.jump_squat,
        c.fighter_kind != k.fighter.ike,
        c.fighter_kind != k.fighter.pit,
        c.fighter_kind != k.fighter.pzenigame,
        c.fighter_kind != k.fighter.sonic,
    ensures
        ({
            let h = c.prev_status_2;
            let r = jump_formula(k, c, pending);
            let dashing = h == k.status.dash || h == k.status.run || h == k.status.turn_dash;
            let turning = h == k.status.turn_run || h == k.status.turn_run_brake;
            let braking = h == k.status.run_brake;
            let walking = h == k.status.walk || h == k.status.walk_brake;
            let carry = if c.jump_squat_velocity_fast {
                JumpFormula::JumpSquatCarry
            } else {
                JumpFormula::StickOnly
            };
            &&& dashing ==> r == carry
            &&& turning && !dashing ==> r == JumpFormula::StickWithTinyJumpSquatCarry
            &&& braking && !dashing && !turning ==> r == JumpFormula::LenientJumpSquatCarry
            &&& walking && !dashing && !turning && !braking ==> r == JumpFormula::WalkCarry
            &&& !dashing && !turning && !braking && !walking ==> r == carry
        }),
{
}

/// An aerial attack's plan in terms of its inputs: Ness, Mewtwo, Lucas, Ryu,
/// Ken, Nana, Popo, Simon, Richter and Terry keep the game's drift; for every
/// other fighter the speed is set exactly when the attack comes straight out of
/// a jump or a jump squat, and recomputed exactly on the first frame in the air
/// after a jump squat, moving forward, not out of a pass or a fall.
pub proof fn lemma_aerial_plan_rules(k: GameKinds, a: AerialInput)
    ensures
        ({
            let f = a.fighter_kind;
            let fk = k.fighter;
            let drift = f == fk.ness || f == fk.mewtwo || f == fk.lucas || f == fk.ryu || f
                == fk.ken || f == fk.nana || f == fk.popo || f == fk.simon || f == fk.richter
                || f == fk.dolly;
            let p = aerial_plan(k, a);
            &&& drift ==> !p.apply_speed && !p.recompute_melee_momentum
            &&& !drift ==> (p.apply_speed <==> (a.prev_status_0 == k.status.jump
                || a.prev_status_0 == k.status.jump_squat))
            &&& !drift ==> (p.recompute_melee_momentum <==> (a.frame_in_air <= 1
                && a.prev_status_1 == k.status.jump_squat && !a.speed_is_backward
                && a.prev_status_0 != k.status.pass && a.prev_status_0 != k.status.fall))
        }),
{
}

/// The laser rule: the kinetic type is kept only in a neutral special, and in
/// Fox's or Falco's neutral special always.
pub proof fn lemma_laser_rules(k: GameKinds, status_kind: i32, fighter_kind: i32)
    ensures
        is_laser(k, status_kind, fighter_kind) ==> status_kind == k.status.special_n,
        is_laser(k, status_kind, fighter_kind) ==> fighter_kind == k.fighter.fox || fighter_kind
            == k.fighter.falco,
        (fighter_kind == k.fighter.fox || fighter_kind == k.fighter.falco) && status_kind
            == k.status.special_n ==> is_laser(k, status_kind, fighter_kind),
{
}

/// The category is the info word divided by 2^28, modulo 256.
pub proof fn lemma_category_is_high_byte(info: u64)
    ensures
        category_of(info) == (info / 0x1000_0000) % 256,
        0 <= category_of(info) < 256,
{
    assert((info >> 28u64) == info / 0x1000_0000) by (bit_vector);
}

/// The hooks are installed on the module named "common".
pub proof fn lemma_hook_module_is_common()
    ensures
        hook_module_name() == "common"@,
{
    reveal_strlit("common");
    assert(hook_module_name() =~= "common"@);
}

/// Storing in a table per a plan's flag: with the flag set, the player's slot
/// then holds the value and every other slot is kept; with it clear, or with no
/// value given, the table is kept.
pub proof fn lemma_recording_rules<S>(table: Seq<S>, player: int, other: int, value: S)
    requires
        0 <= player < table.len(),
        0 <= other < table.len(),
        other != player,
    ensures
        recorded(table, true, player, value)[player] == value,
        recorded(table, true, player, value)[other] == table[other],
        recorded(table, true, player, value).len() == table.len(),
        recorded(table, false, player, value) == table,
        recorded_if_some(table, player, Some(value))[player] == value,
        recorded_if_some(table, player, Some(value))[other] == table[other],
        recorded_if_some(table, player, Some(value)).len() == table.len(),
        recorded_if_some(table, player, None) == table,
{
}

/// What the state predicates mean: sized tables have one slot per player, and
/// two states with the same tables agree slot by slot.
pub proof fn lemma_state_predicates<S: Copy>(a: MomentumState<S>, b: MomentumState<S>, p: int)
    requires
        0 <= p < PLAYER_COUNT,
    ensures
        a.tables_sized() ==> a.jump_speed_ratio@.len() == PLAYER_COUNT && a.curr_momentum@.len()
            == PLAYER_COUNT && a.curr_momentum_specials@.len() == PLAYER_COUNT
            && a.js_vel@.len() == PLAYER_COUNT && a.rar_leniency@.len() == PLAYER_COUNT,
        a.same_tables(&b) ==> a.jump_speed_ratio@[p] == b.jump_speed_ratio@[p]
            && a.curr_momentum@[p] == b.curr_momentum@[p] && a.curr_momentum_specials@[p]
            == b.curr_momentum_specials@[p] && a.js_vel@[p] == b.js_vel@[p] && a.rar_leniency@[p]
            == b.rar_leniency@[p],
        a.same_tables(&b) ==> a.jump_speed_ratio@.len() == b.jump_speed_ratio@.len()
            && a.curr_momentum@.len() == b.curr_momentum@.len() && a.curr_momentum_specials@.len()
            == b.curr_momentum_specials@.len() && a.js_vel@.len() == b.js_vel@.len()
            && a.rar_leniency@.len() == b.rar_leniency@.len(),
{
}

} // verus!
