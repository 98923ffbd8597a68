use momentum_transfer::kinds::{CharacterStatusKinds, FighterKinds, GameKinds, StatusKinds};
use momentum_transfer::object::{
    get_category, get_player_number, nro_main, sys_line_system_control_fighter_hook,
};
use momentum_transfer::slots::{PlayerSlots, PLAYER_COUNT};

fn kinds_with_fighter_category(category: i32) -> GameKinds {
    let status = StatusKinds {
        entry: 0,
        wait: 0,
        walk: 0,
        walk_brake: 0,
        dash: 0,
        turn: 0,
        turn_dash: 0,
        run: 0,
        run_brake: 0,
        turn_run: 0,
        turn_run_brake: 0,
        jump_squat: 0,
        jump: 0,
        pass: 0,
        fall: 0,
        special_n: 0,
        special_s: 0,
        special_lw: 0,
    };
    let character_status = CharacterStatusKinds {
        sonic_special_s_dash: 0,
        sonic_special_s_end: 0,
        sonic_special_s_turn: 0,
        sonic_special_lw_end: 0,
        ike_special_s_dash: 0,
        pit_special_s_end: 0,
        pzenigame_special_s_loop: 0,
        pzenigame_special_s_end: 0,
    };
    let fighter = FighterKinds {
        mario: 0,
        luigi: 0,
        pikachu: 0,
        pichu: 0,
        captain: 0,
        ness: 0,
        lucas: 0,
        mewtwo: 0,
        ryu: 0,
        ken: 0,
        dolly: 0,
        popo: 0,
        nana: 0,
        simon: 0,
        richter: 0,
        fox: 0,
        falco: 0,
        sonic: 0,
        ike: 0,
        pit: 0,
        pzenigame: 0,
    };
    GameKinds {
        status,
        character_status,
        fighter,
        situation_air: 0,
        category_fighter: category,
        step_jump_motion: 0,
    }
}

#[test]
fn category_is_the_byte_above_bit_28() {
    assert_eq!(get_category(0), 0);
    assert_eq!(get_category(0x1000_0000), 1);
    assert_eq!(get_category(0x0fff_ffff), 0);
    assert_eq!(get_category(0x3abc_def0), 3);
    assert_eq!(get_category(0x0000_000a_b000_0000), 0xab);
    assert_eq!(get_category(u64::MAX), 0xff);
}

#[test]
fn only_fighters_are_tracked() {
    let k = kinds_with_fighter_category(0);
    assert!(sys_line_system_control_fighter_hook(&k, 0x0123_4567));
    assert!(!sys_line_system_control_fighter_hook(&k, 0x1123_4567));
    let k2 = kinds_with_fighter_category(4);
    assert!(sys_line_system_control_fighter_hook(&k2, 0x4000_0000));
}

#[test]
fn player_number_is_the_entry_id() {
    assert_eq!(get_player_number(0), 0);
    assert_eq!(get_player_number(7), 7);
    assert_eq!(get_player_number(-1), usize::MAX);
}

#[test]
fn hooks_install_on_common_only() {
    assert!(nro_main("common"));
    assert!(!nro_main("Common"));
    assert!(!nro_main("common2"));
    assert!(!nro_main("commo"));
    assert!(!nro_main(""));
    assert!(!nro_main("item"));
}

#[test]
fn new_slots_hold_the_fill_value() {
    let slots = PlayerSlots::new(2.5f32);
    assert_eq!(slots.len(), PLAYER_COUNT);
    for p in 0..PLAYER_COUNT {
        assert_eq!(slots.get(p), 2.5);
    }
}

#[test]
fn slot_write_then_read() {
    let mut slots = PlayerSlots::new(0.0f32);
    slots.set(3, -1.25);
    assert_eq!(slots.get(3), -1.25);
    for p in 0..PLAYER_COUNT {
        if p != 3 {
            assert_eq!(slots.get(p), 0.0);
        }
    }
    slots.set(3, 4.0);
    assert_eq!(slots.get(3), 4.0);
    assert_eq!(slots.len(), PLAYER_COUNT);
}
