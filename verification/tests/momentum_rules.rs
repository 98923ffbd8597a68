use momentum_transfer::hooks::{
    change_kinetic_momentum_related, status_attack_air_hook, status_jump_sub_hook, AerialInput,
    AerialPlan,
};
use momentum_transfer::kinds::{CharacterStatusKinds, FighterKinds, GameKinds, StatusKinds};
use momentum_transfer::momentum::{FrameInput, FramePlan, JumpContext, JumpFormula, MomentumState};

const STEP_JUMP: u64 = 0x0a_1234_5678;

fn kinds() -> GameKinds {
    GameKinds {
        status: StatusKinds {
            entry: 30,
            wait: 0,
            walk: 1,
            walk_brake: 2,
            dash: 3,
            turn: 6,
            turn_dash: 4,
            run: 5,
            run_brake: 7,
            turn_run: 8,
            turn_run_brake: 9,
            jump_squat: 10,
            jump: 11,
            pass: 12,
            fall: 13,
            special_n: 20,
            special_s: 21,
            special_lw: 22,
        },
        character_status: CharacterStatusKinds {
            sonic_special_s_dash: 40,
            sonic_special_s_end: 41,
            sonic_special_s_turn: 42,
            sonic_special_lw_end: 43,
            ike_special_s_dash: 44,
            pit_special_s_end: 45,
            pzenigame_special_s_loop: 46,
            pzenigame_special_s_end: 47,
        },
        fighter: FighterKinds {
            mario: 100,
            luigi: 101,
            pikachu: 102,
            pichu: 103,
            captain: 104,
            ness: 105,
            lucas: 106,
            mewtwo: 107,
            ryu: 108,
            ken: 109,
            dolly: 110,
            popo: 111,
            nana: 112,
            simon: 113,
            richter: 114,
            fox: 120,
            falco: 121,
            sonic: 115,
            ike: 116,
            pit: 117,
            pzenigame: 118,
        },
        situation_air: 2,
        category_fighter: 0,
        step_jump_motion: STEP_JUMP,
    }
}

const GROUND: i32 = 0;
const AIR: i32 = 2;
const MARIO: i32 = 100;

fn frame(status: i32, situation: i32, prev: [i32; 3]) -> FrameInput {
    FrameInput {
        status_kind: status,
        situation_kind: situation,
        fighter_kind: MARIO,
        prev_status_0: prev[0],
        prev_status_1: prev[1],
        prev_status_2: prev[2],
        motion_kind: 0,
        first_frame: true,
        stick_neutral: true,
    }
}

fn quiet_plan() -> FramePlan {
    FramePlan {
        record_jump_speed_ratio: false,
        request_dash: false,
        pivot_from_turn_dash: false,
        pivot_from_dash: false,
        update_rar_leniency: false,
        record_jump_squat_velocity: false,
        mark_footstool: false,
        record_momentum: false,
        record_special_momentum: false,
        conserve_special_momentum: false,
    }
}

fn plan_of(f: FrameInput) -> FramePlan {
    let mut state: MomentumState<f32> = MomentumState::new(0.0);
    state.momentum_transfer_helper(&kinds(), &f)
}

fn jump(prev: [i32; 3], aerial: bool, fast: bool, against: bool) -> JumpContext {
    JumpContext {
        fighter_kind: MARIO,
        prev_status_0: prev[0],
        prev_status_1: prev[1],
        prev_status_2: prev[2],
        is_aerial_attack: aerial,
        jump_squat_velocity_fast: fast,
        stick_against_facing: against,
    }
}

fn formula_of(c: JumpContext, footstool: bool) -> JumpFormula {
    let mut state: MomentumState<f32> = MomentumState::new(0.0);
    state.footstool = footstool;
    let f = state.calc_melee_momentum(&kinds(), &c);
    assert!(!state.footstool);
    f
}

// ---- per-frame bookkeeping ----------------------------------------------

#[test]
fn idle_frame_plans_nothing() {
    assert_eq!(plan_of(frame(0, GROUND, [0, 0, 0])), quiet_plan());
}

#[test]
fn entry_records_jump_speed_ratio() {
    let plan = plan_of(frame(30, GROUND, [0, 0, 0]));
    assert_eq!(plan, FramePlan { record_jump_speed_ratio: true, ..quiet_plan() });
}

#[test]
fn turn_dash_requests_dash_and_pivots_on_neutral_stick() {
    let plan = plan_of(frame(4, GROUND, [3, 5, 0]));
    assert_eq!(
        plan,
        FramePlan { request_dash: true, pivot_from_turn_dash: true, ..quiet_plan() }
    );
}

#[test]
fn turn_dash_without_neutral_stick_does_not_pivot() {
    let mut f = frame(4, GROUND, [3, 5, 0]);
    f.stick_neutral = false;
    assert_eq!(plan_of(f), FramePlan { request_dash: true, ..quiet_plan() });
}

#[test]
fn turn_dash_after_wait_does_not_pivot() {
    let plan = plan_of(frame(4, GROUND, [3, 0, 0]));
    assert!(!plan.pivot_from_turn_dash);
    assert!(plan.request_dash);
}

#[test]
fn turn_dash_after_first_frame_does_not_pivot() {
    let mut f = frame(4, GROUND, [4, 3, 5]);
    f.first_frame = false;
    assert!(!plan_of(f).pivot_from_turn_dash);
}

#[test]
fn dash_out_of_turn_dash_pivots() {
    let plan = plan_of(frame(3, GROUND, [4, 3, 5]));
    assert_eq!(plan, FramePlan { pivot_from_dash: true, ..quiet_plan() });
}

#[test]
fn dash_out_of_turn_dash_after_turn_does_not_pivot() {
    assert!(!plan_of(frame(3, GROUND, [4, 3, 6])).pivot_from_dash);
    assert!(!plan_of(frame(3, GROUND, [3, 3, 5])).pivot_from_dash);
}

#[test]
fn turn_run_updates_leniency() {
    assert!(plan_of(frame(8, GROUND, [5, 0, 0])).update_rar_leniency);
    assert!(plan_of(frame(9, GROUND, [8, 0, 0])).update_rar_leniency);
    assert!(!plan_of(frame(7, GROUND, [5, 0, 0])).update_rar_leniency);
}

#[test]
fn jump_squat_records_velocity_on_first_frame_only() {
    let plan = plan_of(frame(10, GROUND, [5, 0, 0]));
    assert_eq!(
        plan,
        FramePlan {
            record_jump_squat_velocity: true,
            record_momentum: true,
            record_special_momentum: true,
            ..quiet_plan()
        }
    );
    let mut later = frame(10, GROUND, [5, 0, 0]);
    later.first_frame = false;
    assert!(!plan_of(later).record_jump_squat_velocity);
}

#[test]
fn pass_records_momentum_but_not_special_momentum() {
    let plan = plan_of(frame(12, GROUND, [0, 0, 0]));
    assert!(plan.record_momentum);
    assert!(!plan.record_special_momentum);
}

#[test]
fn airborne_frames_record_momentum() {
    let mut f = frame(13, AIR, [11, 10, 0]);
    f.first_frame = false;
    assert_eq!(plan_of(f), FramePlan { record_momentum: true, ..quiet_plan() });
}

#[test]
fn footstool_motion_is_remembered() {
    let k = kinds();
    let mut state: MomentumState<f32> = MomentumState::new(0.0);
    let mut f = frame(11, AIR, [0, 0, 0]);
    f.motion_kind = STEP_JUMP;
    let plan = state.momentum_transfer_helper(&k, &f);
    assert!(plan.mark_footstool);
    assert!(state.footstool);
    let calm = frame(13, AIR, [11, 0, 0]);
    let plan2 = state.momentum_transfer_helper(&k, &calm);
    assert!(!plan2.mark_footstool);
    assert!(state.footstool);
}

#[test]
fn neutral_special_after_jump_conserves_without_rerecording() {
    let plan = plan_of(frame(20, AIR, [11, 10, 0]));
    assert!(plan.conserve_special_momentum);
    assert!(!plan.record_special_momentum);
    assert!(plan.record_momentum);
}

#[test]
fn neutral_special_after_fall_records_and_conserves() {
    let plan = plan_of(frame(20, AIR, [13, 11, 0]));
    assert!(plan.conserve_special_momentum);
    assert!(plan.record_special_momentum);
}

#[test]
fn neutral_special_of_other_fighter_does_not_conserve() {
    let mut f = frame(20, AIR, [13, 11, 0]);
    f.fighter_kind = 120;
    let plan = plan_of(f);
    assert!(!plan.conserve_special_momentum);
    assert!(!plan.record_special_momentum);
}

#[test]
fn grounded_neutral_special_does_not_conserve() {
    assert!(!plan_of(frame(20, GROUND, [0, 0, 0])).conserve_special_momentum);
}

#[test]
fn helper_leaves_tables_unchanged() {
    let mut state: MomentumState<f32> = MomentumState::new(1.5);
    state.momentum_transfer_helper(&kinds(), &frame(10, AIR, [5, 0, 0]));
    for p in 0..8 {
        assert_eq!(state.curr_momentum.get(p), 1.5);
        assert_eq!(state.js_vel.get(p), 1.5);
        assert_eq!(state.jump_speed_ratio.get(p), 1.5);
        assert_eq!(state.curr_momentum_specials.get(p), 1.5);
        assert_eq!(state.rar_leniency.get(p), 1.5);
    }
}

// ---- jump formulas -------------------------------------------------------

#[test]
fn footstool_jump_gets_no_momentum() {
    assert_eq!(formula_of(jump([0, 0, 0], false, true, false), true), JumpFormula::NoMomentum);
}

#[test]
fn footstool_is_consumed_by_one_jump() {
    let k = kinds();
    let mut state: MomentumState<f32> = MomentumState::new(0.0);
    let mut f = frame(11, AIR, [0, 0, 0]);
    f.motion_kind = STEP_JUMP;
    state.momentum_transfer_helper(&k, &f);
    let c = jump([0, 0, 0], false, false, false);
    assert_eq!(state.calc_melee_momentum(&k, &c), JumpFormula::NoMomentum);
    assert!(!state.footstool);
    assert_eq!(state.calc_melee_momentum(&k, &c), JumpFormula::StickWithDampedVelocity);
}

#[test]
fn jump_after_ground_movement_carries_velocity() {
    assert_eq!(
        formula_of(jump([0, 3, 0], false, false, false), false),
        JumpFormula::SignedVelocityCarry
    );
    assert_eq!(
        formula_of(jump([0, 1, 0], false, false, false), false),
        JumpFormula::SignedVelocityCarry
    );
}

#[test]
fn sonic_jump_out_of_spin_carries_velocity() {
    let mut c = jump([40, 0, 0], false, false, false);
    c.fighter_kind = 115;
    assert_eq!(formula_of(c, false), JumpFormula::SignedVelocityCarry);
}

#[test]
fn plain_double_jump_uses_stick_and_damped_velocity() {
    assert_eq!(
        formula_of(jump([11, 13, 0], false, false, false), false),
        JumpFormula::StickWithDampedVelocity
    );
}

#[test]
fn dash_jump_fast_carries_jump_squat_velocity() {
    assert_eq!(
        formula_of(jump([10, 3, 0], false, true, false), false),
        JumpFormula::JumpSquatCarry
    );
}

#[test]
fn dash_jump_fast_reversed_damps_the_stick() {
    assert_eq!(
        formula_of(jump([10, 5, 0], false, true, true), false),
        JumpFormula::DampedStickWithVelocity
    );
}

#[test]
fn dash_jump_slow_uses_stick_only() {
    assert_eq!(formula_of(jump([10, 4, 0], false, false, true), false), JumpFormula::StickOnly);
}

#[test]
fn aerial_attack_looks_two_statuses_back() {
    // An aerial attack out of a jump: the jump squat is one status further back.
    assert_eq!(
        formula_of(jump([11, 10, 3], true, true, true), false),
        JumpFormula::JumpSquatCarry
    );
    assert_eq!(formula_of(jump([11, 10, 3], true, false, false), false), JumpFormula::StickOnly);
}

#[test]
fn turn_run_jump_formulas() {
    assert_eq!(
        formula_of(jump([10, 8, 0], false, false, true), false),
        JumpFormula::LenientJumpSquatCarry
    );
    assert_eq!(
        formula_of(jump([10, 9, 0], false, false, false), false),
        JumpFormula::StickWithTinyJumpSquatCarry
    );
}

#[test]
fn run_brake_jump_formulas() {
    assert_eq!(
        formula_of(jump([10, 7, 0], false, false, true), false),
        JumpFormula::DampedStickWithVelocity
    );
    assert_eq!(
        formula_of(jump([10, 7, 0], false, false, false), false),
        JumpFormula::LenientJumpSquatCarry
    );
}

#[test]
fn walk_jump_formulas() {
    assert_eq!(
        formula_of(jump([10, 2, 0], false, true, true), false),
        JumpFormula::WalkReversal
    );
    assert_eq!(formula_of(jump([10, 1, 0], false, true, false), false), JumpFormula::WalkCarry);
}

#[test]
fn standing_jump_formulas() {
    assert_eq!(formula_of(jump([10, 0, 0], false, false, false), false), JumpFormula::StickOnly);
    assert_eq!(
        formula_of(jump([10, 0, 0], false, true, false), false),
        JumpFormula::JumpSquatCarry
    );
    assert_eq!(
        formula_of(jump([10, 0, 0], false, true, true), false),
        JumpFormula::DampedStickWithVelocity
    );
}

#[test]
fn special_move_exceptions_keep_speed() {
    let cases = [(116, 44), (117, 21), (117, 45), (118, 46), (118, 47), (115, 43), (115, 22)];
    for (fighter, prev1) in cases {
        let mut c = jump([10, prev1, 0], false, false, false);
        c.fighter_kind = fighter;
        assert_eq!(formula_of(c, true), JumpFormula::SpecialMoveCarry);
    }
    // The same statuses do nothing for another fighter.
    let c = jump([10, 44, 0], false, false, false);
    assert_eq!(formula_of(c, false), JumpFormula::StickOnly);
}

#[test]
fn aerial_attacks_never_get_reversal_formulas() {
    for prev2 in [0, 1, 2, 3, 4, 5, 7, 8, 9] {
        for fast in [false, true] {
            let f = formula_of(jump([11, 10, prev2], true, fast, true), false);
            assert_ne!(f, JumpFormula::DampedStickWithVelocity);
            assert_ne!(f, JumpFormula::WalkReversal);
        }
    }
}

// ---- hooks ---------------------------------------------------------------

#[test]
fn lasers_keep_their_kinetic_type() {
    let k = kinds();
    assert_eq!(change_kinetic_momentum_related(&k, 20, 120), Some(-1));
    assert_eq!(change_kinetic_momentum_related(&k, 20, 121), Some(-1));
    assert_eq!(change_kinetic_momentum_related(&k, 21, 120), None);
    assert_eq!(change_kinetic_momentum_related(&k, 20, MARIO), None);
}

#[test]
fn nana_jump_is_left_to_the_game() {
    let k = kinds();
    assert!(!status_jump_sub_hook(&k, 112));
    assert!(status_jump_sub_hook(&k, 111));
    assert!(status_jump_sub_hook(&k, MARIO));
}

fn aerial(fighter: i32, prev0: i32, prev1: i32, frame_in_air: i32, backward: bool) -> AerialInput {
    AerialInput {
        fighter_kind: fighter,
        prev_status_0: prev0,
        prev_status_1: prev1,
        frame_in_air,
        speed_is_backward: backward,
    }
}

#[test]
fn short_hop_aerial_recomputes_and_applies() {
    let plan = status_attack_air_hook(&kinds(), &aerial(MARIO, 11, 10, 1, false));
    assert_eq!(plan, AerialPlan { recompute_melee_momentum: true, apply_speed: true });
}

#[test]
fn backward_short_hop_aerial_uses_stored_momentum() {
    let plan = status_attack_air_hook(&kinds(), &aerial(MARIO, 11, 10, 1, true));
    assert_eq!(plan, AerialPlan { recompute_melee_momentum: false, apply_speed: true });
}

#[test]
fn late_aerial_uses_stored_momentum() {
    let plan = status_attack_air_hook(&kinds(), &aerial(MARIO, 11, 10, 2, false));
    assert_eq!(plan, AerialPlan { recompute_melee_momentum: false, apply_speed: true });
}

#[test]
fn aerial_after_fall_is_left_alone() {
    let plan = status_attack_air_hook(&kinds(), &aerial(MARIO, 13, 10, 1, false));
    assert_eq!(plan, AerialPlan { recompute_melee_momentum: false, apply_speed: false });
    let plan = status_attack_air_hook(&kinds(), &aerial(MARIO, 12, 10, 1, false));
    assert_eq!(plan, AerialPlan { recompute_melee_momentum: false, apply_speed: false });
}

#[test]
fn aerial_after_other_status_recomputes_without_applying() {
    let plan = status_attack_air_hook(&kinds(), &aerial(MARIO, 50, 10, 0, false));
    assert_eq!(plan, AerialPlan { recompute_melee_momentum: true, apply_speed: false });
}

#[test]
fn game_drift_fighters_are_untouched() {
    let k = kinds();
    for fighter in [105, 106, 107, 108, 109, 110, 111, 112, 113, 114] {
        let plan = status_attack_air_hook(&k, &aerial(fighter, 11, 10, 1, false));
        assert_eq!(plan, AerialPlan { recompute_melee_momentum: false, apply_speed: false });
    }
}

// ---- state steps ---------------------------------------------------------

fn tables(state: &MomentumState<f32>, p: usize) -> [f32; 5] {
    [
        state.jump_speed_ratio.get(p),
        state.rar_leniency.get(p),
        state.js_vel.get(p),
        state.curr_momentum.get(p),
        state.curr_momentum_specials.get(p),
    ]
}

#[test]
fn entry_frame_records_ratio_at_the_players_slot_only() {
    let mut state: MomentumState<f32> = MomentumState::new(0.0);
    let plan = state.momentum_transfer_helper(&kinds(), &frame(30, GROUND, [0, 0, 0]));
    state.record_frame(&plan, 2, Some(0.8), None, 3.0);
    assert_eq!(tables(&state, 2), [0.8, 0.0, 0.0, 0.0, 0.0]);
    for p in [0, 1, 3, 4, 5, 6, 7] {
        assert_eq!(tables(&state, p), [0.0; 5]);
    }
}

#[test]
fn jump_squat_frame_records_velocity_and_momenta() {
    let mut state: MomentumState<f32> = MomentumState::new(0.0);
    let plan = state.momentum_transfer_helper(&kinds(), &frame(10, GROUND, [5, 0, 0]));
    state.record_frame(&plan, 5, None, None, -1.5);
    assert_eq!(tables(&state, 5), [0.0, 0.0, -1.5, -1.5, -1.5]);
    assert_eq!(tables(&state, 4), [0.0; 5]);
}

#[test]
fn turn_run_frame_records_leniency() {
    let mut state: MomentumState<f32> = MomentumState::new(0.0);
    let plan = state.momentum_transfer_helper(&kinds(), &frame(8, GROUND, [5, 0, 0]));
    state.record_frame(&plan, 0, None, Some(0.4), 2.0);
    assert_eq!(tables(&state, 0), [0.0, 0.4, 0.0, 0.0, 0.0]);
}

#[test]
fn airborne_frame_records_momentum_only() {
    let mut state: MomentumState<f32> = MomentumState::new(9.0);
    let mut f = frame(13, AIR, [11, 10, 0]);
    f.first_frame = false;
    let plan = state.momentum_transfer_helper(&kinds(), &f);
    state.record_frame(&plan, 1, None, None, 0.25);
    assert_eq!(tables(&state, 1), [9.0, 9.0, 9.0, 0.25, 9.0]);
    assert_eq!(state.conserved_speed(&plan, 1), None);
}

#[test]
fn conserved_special_uses_the_frames_speed_after_a_fall() {
    let mut state: MomentumState<f32> = MomentumState::new(0.0);
    let plan = state.momentum_transfer_helper(&kinds(), &frame(20, AIR, [13, 11, 0]));
    state.record_frame(&plan, 3, None, None, 1.75);
    assert_eq!(state.conserved_speed(&plan, 3), Some(1.75));
}

#[test]
fn conserved_special_keeps_the_jumps_speed_after_a_jump() {
    let k = kinds();
    let mut state: MomentumState<f32> = MomentumState::new(0.0);
    let jump_frame = state.momentum_transfer_helper(&k, &frame(11, AIR, [10, 5, 0]));
    state.record_frame(&jump_frame, 3, None, None, 2.0);
    let plan = state.momentum_transfer_helper(&k, &frame(20, AIR, [11, 10, 0]));
    state.record_frame(&plan, 3, None, None, 0.5);
    assert_eq!(state.conserved_speed(&plan, 3), Some(2.0));
    assert_eq!(state.curr_momentum.get(3), 0.5);
}

#[test]
fn jump_step_applies_formula_and_consumes_footstool() {
    let k = kinds();
    let mut state: MomentumState<f32> = MomentumState::new(0.0);
    state.footstool = true;
    let c = jump([0, 0, 0], false, false, false);
    assert_eq!(state.status_jump_step(&k, &c), Some(JumpFormula::NoMomentum));
    assert!(!state.footstool);
}

#[test]
fn nana_jump_step_leaves_footstool() {
    let k = kinds();
    let mut state: MomentumState<f32> = MomentumState::new(0.0);
    state.footstool = true;
    let mut c = jump([0, 0, 0], false, false, false);
    c.fighter_kind = 112;
    assert_eq!(state.status_jump_step(&k, &c), None);
    assert!(state.footstool);
}

#[test]
fn short_hop_aerial_step_recomputes_and_consumes_footstool() {
    let k = kinds();
    let mut state: MomentumState<f32> = MomentumState::new(0.0);
    state.footstool = true;
    let a = aerial(MARIO, 11, 10, 1, false);
    let c = jump([11, 10, 3], true, true, false);
    let (plan, formula) = state.aerial_step(&k, &a, &c);
    assert_eq!(plan, AerialPlan { recompute_melee_momentum: true, apply_speed: true });
    assert_eq!(formula, Some(JumpFormula::JumpSquatCarry));
    assert!(!state.footstool);
}

#[test]
fn late_aerial_step_keeps_footstool() {
    let k = kinds();
    let mut state: MomentumState<f32> = MomentumState::new(0.0);
    state.footstool = true;
    let a = aerial(MARIO, 11, 10, 3, false);
    let c = jump([11, 10, 3], true, true, false);
    let (plan, formula) = state.aerial_step(&k, &a, &c);
    assert_eq!(plan, AerialPlan { recompute_melee_momentum: false, apply_speed: true });
    assert_eq!(formula, None);
    assert!(state.footstool);
}
