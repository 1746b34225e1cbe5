use vstd::prelude::*;

verus! {

/// The part a roster member plays at the table.
#[derive(Debug, Clone, Copy, Hash, PartialEq, Eq, Structural)]
pub enum PlayerRole {
    Player,
    Dealer,
}

/// A seat in a game session. Identity is the pair of the owning user's id and
/// the handle of the item set the player holds; role and chip count are
/// mutable state that identity ignores.
#[derive(Debug, Clone, Copy)]
pub struct Player {
    pub player_role: PlayerRole,
    pub user_id: u32,
    pub game_item_id: u64,
    pub chip: u16,
}

/// Identity of two players: same owning user and same item-set handle,
/// whatever their current role or chips. Roster membership and removal go by
/// this relation, never by the mutable fields.
pub open spec fn same_player(a: Player, b: Player) -> bool {
    a.user_id == b.user_id && a.game_item_id == b.game_item_id
}

impl Player {
    pub fn new(player_role: PlayerRole, user_id: u32, game_item_id: u64, chip: u16) -> (p: Player)
        ensures
            p == (Player { player_role, user_id, game_item_id, chip }),
    {
        Player { player_role, user_id, game_item_id, chip }
    }

    pub fn update_player_role(&mut self, new_role: PlayerRole)
        ensures
            *final(self) == (Player { player_role: new_role, ..*old(self) }),
    {
        self.player_role = new_role;
    }

    pub fn update_game_item(&mut self, new_game_item_id: u64)
        ensures
            *final(self) == (Player { game_item_id: new_game_item_id, ..*old(self) }),
    {
        self.game_item_id = new_game_item_id;
    }
}

impl PartialEq for Player {
    /// Equality is identity: the owning user and the item-set handle.
    fn eq(&self, other: &Player) -> (r: bool) {
        self.user_id == other.user_id && self.game_item_id == other.game_item_id
    }
}

impl vstd::std_specs::cmp::PartialEqSpecImpl for Player {
    open spec fn obeys_eq_spec() -> bool {
        true
    }

    open spec fn eq_spec(&self, other: &Player) -> bool {
        same_player(*self, *other)
    }
}

} // verus!
