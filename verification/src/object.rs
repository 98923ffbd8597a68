use vstd::prelude::*;

use crate::kinds::GameKinds;

verus! {

/// The battle-object category stored in bits 28 to 35 of an accessor's info word.
pub open spec fn category_of(info: u64) -> int {
    ((info >> 28u64) % 256) as int
}

/// Extracts the battle-object category from an accessor's info word.
pub fn get_category(info: u64) -> (category: i32)
    ensures
        category == category_of(info),
        0 <= category < 256,
{
    let byte: u8 = (info >> 28u64) as u8;
    proof {
        assert((info >> 28u64) as u8 == (info >> 28u64) % 256) by (bit_vector);
    }
    byte as i32
}

/// Decides whether the per-frame momentum bookkeeping runs for the object
/// whose info word is `info`: it runs for fighters only.
pub fn sys_line_system_control_fighter_hook(kinds: &GameKinds, info: u64) -> (tracked_object: bool)
    ensures
        tracked_object <==> category_of(info) == kinds.category_fighter,
{
    get_category(info) == kinds.category_fighter
}

/// The player slot named by a fighter's entry id, converted as an `as` cast does.
pub fn get_player_number(entry_id: i32) -> (slot: usize)
    ensures
        slot == entry_id as usize,
{
    entry_id as usize
}

/// The name of the module whose loading installs the momentum hooks.
pub open spec fn hook_module_name() -> Seq<char> {
    seq!['c', 'o', 'm', 'm', 'o', 'n']
}

/// Decides whether a freshly loaded module named `name` is the one on which
/// the hooks are installed.
pub fn nro_main(name: &str) -> (install: bool)
    ensures
        install <==> name@ == hook_module_name(),
{
    let target = "common";
    proof {
        reveal_strlit("common");
    }
    assert(target@ =~= hook_module_name());
    let n = name.unicode_len();
    if n != 6 {
        return false;
    }
    let mut i: usize = 0;
    while i < 6
        invariant
            i <= 6,
            n == 6,
            name@.len() == 6,
            target@ == hook_module_name(),
            forall|j: int| 0 <= j < i ==> name@[j] == hook_module_name()[j],
        decreases 6 - i,
    {
        if name.get_char(i) != target.get_char(i) {
            return false;
        }
        i = i + 1;
    }
    assert(name@ =~= hook_module_name());
    true
}

} // verus!
