use vstd::prelude::*;

verus! {

/// A priced entry token for one game project, identified by a plain handle.
#[derive(Debug, Clone, Copy)]
pub struct GameTokens {
    pub target_game: u64,
    pub price_from_balance: u8,
}

impl GameTokens {
    pub fn new(target_game: u64, price_from_balance: u8) -> (t: GameTokens)
        ensures
            t == (GameTokens { target_game, price_from_balance }),
    {
        GameTokens { target_game, price_from_balance }
    }
}

} // verus!
