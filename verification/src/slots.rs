use vstd::prelude::*;

verus! {

/// The number of players a match can hold, and so the number of slots per table.
pub const PLAYER_COUNT: usize = 8;

/// One value per player, indexed by player number.
pub struct PlayerSlots<T> {
    slots: Vec<T>,
}

impl<T> View for PlayerSlots<T> {
    type V = Seq<T>;

    closed spec fn view(&self) -> Seq<T> {
        self.slots@
    }
}

impl<T: Copy> PlayerSlots<T> {
    /// A table in which every player's slot holds `fill`.
    pub fn new(fill: T) -> (table: Self)
        ensures
            table@ == Seq::new(PLAYER_COUNT as nat, |i: int| fill),
    {
        let mut slots: Vec<T> = Vec::new();
        let mut i: usize = 0;
        while i < PLAYER_COUNT
            invariant
                i <= PLAYER_COUNT,
                slots@ == Seq::new(i as nat, |j: int| fill),
            decreases PLAYER_COUNT - i,
        {
            slots.push(fill);
            i = i + 1;
        }
        PlayerSlots { slots }
    }

    /// The number of slots.
    pub fn len(&self) -> (n: usize)
        ensures
            n == self@.len(),
    {
        self.slots.len()
    }

    /// The value stored for `player`.
    pub fn get(&self, player: usize) -> (value: T)
        requires
            player < self@.len(),
        ensures
            value == self@[player as int],
    {
        self.slots[player]
    }

    /// Stores `value` for `player`, leaving every other slot as it was: a later
    /// read of `player` gives back `value`, and a read of any other player gives
    /// what it gave before.
    pub fn set(&mut self, player: usize, value: T)
        requires
            player < old(self)@.len(),
        ensures
            final(self)@ == old(self)@.update(player as int, value),
            final(self)@.len() == old(self)@.len(),
            final(self)@[player as int] == value,
            forall|other: int|
                0 <= other < old(self)@.len() && other != player ==> #[trigger] final(self)@[other]
                    == old(self)@[other],
    {
        self.slots.set(player, value);
    }
}

} // verus!
