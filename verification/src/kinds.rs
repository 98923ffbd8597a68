use vstd::prelude::*;

verus! {

/// Common fighter status kinds, as the running game numbers them.
///
/// The game assigns these numbers at run time, so the library never assumes
/// their values: every decision compares a status against this table.
#[derive(Clone, Copy, Debug, PartialEq, Eq)]
pub struct StatusKinds {
    pub entry: i32,
    pub wait: i32,
    pub walk: i32,
    pub walk_brake: i32,
    pub dash: i32,
    pub turn: i32,
    pub turn_dash: i32,
    pub run: i32,
    pub run_brake: i32,
    pub turn_run: i32,
    pub turn_run_brake: i32,
    pub jump_squat: i32,
    pub jump: i32,
    pub pass: i32,
    pub fall: i32,
    pub special_n: i32,
    pub special_s: i32,
    pub special_lw: i32,
}

/// Status kinds that belong to one character's special moves.
#[derive(Clone, Copy, Debug, PartialEq, Eq)]
pub struct CharacterStatusKinds {
    pub sonic_special_s_dash: i32,
    pub sonic_special_s_end: i32,
    pub sonic_special_s_turn: i32,
    pub sonic_special_lw_end: i32,
    pub ike_special_s_dash: i32,
    pub pit_special_s_end: i32,
    pub pzenigame_special_s_loop: i32,
    pub pzenigame_special_s_end: i32,
}

/// Fighter kinds that the momentum rules single out.
#[derive(Clone, Copy, Debug, PartialEq, Eq)]
pub struct FighterKinds {
    pub mario: i32,
    pub luigi: i32,
    pub pikachu: i32,
    pub pichu: i32,
    pub captain: i32,
    pub ness: i32,
    pub lucas: i32,
    pub mewtwo: i32,
    pub ryu: i32,
    pub ken: i32,
    pub dolly: i32,
    pub popo: i32,
    pub nana: i32,
    pub simon: i32,
    pub richter: i32,
    pub fox: i32,
    pub falco: i32,
    pub sonic: i32,
    pub ike: i32,
    pub pit: i32,
    pub pzenigame: i32,
}

/// Every game constant that the momentum rules compare against.
#[derive(Clone, Copy, Debug, PartialEq, Eq)]
pub struct GameKinds {
    pub status: StatusKinds,
    pub character_status: CharacterStatusKinds,
    pub fighter: FighterKinds,
    /// The situation kind of a fighter that is airborne.
    pub situation_air: i32,
    /// The battle-object category of fighters.
    pub category_fighter: i32,
    /// The motion hash of a footstool jump ("step_jump").
    pub step_jump_motion: u64,
}

} // verus!
