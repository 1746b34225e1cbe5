use vstd::prelude::*;

verus! {

use crate::game_item::GameItem;
use crate::player::Player;
use crate::timer::CBTimesMethod;

use crate::game::GameState;

/// The behavior a game designer injects into a session: one method per
/// lifecycle transition, roster event, and timeout kind. The session core
/// calls these at the points fixed by its own contracts and never interprets
/// what they do. A callback may rewrite the item pool and the context it is
/// handed; the roster, the acting roster and the lifecycle state reach it
/// read-only, so the core alone answers for them.
pub trait GameCallbacks {
    /// The values a session's item pool holds.
    type Item: GameItem;

    /// The free-form context the session carries for the rules; the core
    /// never looks inside it.
    type Context;

    /// Orders two item hands; not called by the session core itself.
    fn compare(
        &mut self,
        left: &Vec<Self::Item>,
        right: &Vec<Self::Item>,
        context: &Self::Context,
    ) -> bool;

    /// Deals items out to players; not called by the session core itself.
    fn allocate(
        &mut self,
        players: &Vec<Player>,
        items: &mut Vec<Self::Item>,
        context: &mut Self::Context,
    );

    fn game_start(
        &mut self,
        players: &Vec<Player>,
        items: &mut Vec<Self::Item>,
        context: &mut Self::Context,
    );

    fn game_progress(
        &mut self,
        players: &Vec<Player>,
        items: &mut Vec<Self::Item>,
        context: &mut Self::Context,
    );

    fn game_pause(
        &mut self,
        players: &Vec<Player>,
        items: &mut Vec<Self::Item>,
        context: &mut Self::Context,
    );

    fn game_resume(
        &mut self,
        players: &Vec<Player>,
        items: &mut Vec<Self::Item>,
        context: &mut Self::Context,
    );

    fn game_finish(
        &mut self,
        players: &Vec<Player>,
        items: &mut Vec<Self::Item>,
        context: &mut Self::Context,
    );

    fn game_wait_start(
        &mut self,
        players: &Vec<Player>,
        items: &mut Vec<Self::Item>,
        context: &mut Self::Context,
    );

    /// Fired by the whole-session timer.
    fn game_timeout(
        &mut self,
        players: &Vec<Player>,
        items: &mut Vec<Self::Item>,
        context: &mut Self::Context,
    );

    fn players_join(
        &mut self,
        joining: &Vec<Player>,
        players: &Vec<Player>,
        items: &mut Vec<Self::Item>,
        state: GameState,
        context: &mut Self::Context,
    );

    fn players_leave(
        &mut self,
        leaving: &Vec<Player>,
        players: &Vec<Player>,
        items: &mut Vec<Self::Item>,
        state: GameState,
        context: &mut Self::Context,
    );

    /// Fired by the per-player timer.
    fn players_timeout(
        &mut self,
        players: &Vec<Player>,
        acting_players: &Vec<Player>,
        items: &mut Vec<Self::Item>,
        state: GameState,
        context: &mut Self::Context,
    );
}

/// The error a [`GameRule`] construction reports when one of the two timer
/// configurations pairs a duration with no trigger policy or a policy with no
/// duration. Distinct from a lifecycle precondition violation: this one means
/// the configuration itself is inconsistent.
#[derive(Debug, Clone, Copy, PartialEq, Eq, Structural)]
pub enum GameRuleConfigError {
    /// The whole-session timer has a duration without a policy, or a policy
    /// without a duration.
    GameTimerConfigMismatch,
    /// The per-player timer has a duration without a policy, or a policy
    /// without a duration.
    PlayersTimerConfigMismatch,
}

/// An inert bundle: the injected callback behavior plus the two optional
/// timer configurations. Immutable in spirit once constructed; it performs no
/// scheduling and holds no session state.
pub struct GameRule<R> {
    pub behavior: R,
    pub game_timer_duration: Option<u64>,
    pub game_timer_times_method: Option<CBTimesMethod>,
    pub players_timer_duration: Option<u64>,
    pub players_timer_times_method: Option<CBTimesMethod>,
}

impl<R> GameRule<R> {
    /// Each timer configuration is all-or-nothing: a duration comes with a
    /// policy and a policy with a duration.
    pub open spec fn wf(self) -> bool {
        &&& self.game_timer_duration is Some <==> self.game_timer_times_method is Some
        &&& self.players_timer_duration is Some <==> self.players_timer_times_method is Some
    }

    /// Builds the bundle, validating the two timer configurations. A half
    /// configuration is rejected here, once, so that the session never has to
    /// deal with one at runtime; the error names the offending pair, the
    /// whole-session one first.
    pub fn new(
        behavior: R,
        game_timer_duration: Option<u64>,
        game_timer_times_method: Option<CBTimesMethod>,
        players_timer_duration: Option<u64>,
        players_timer_times_method: Option<CBTimesMethod>,
    ) -> (result: Result<GameRule<R>, GameRuleConfigError>)
        ensures
            result is Ok <==> {
                &&& game_timer_duration is Some <==> game_timer_times_method is Some
                &&& players_timer_duration is Some <==> players_timer_times_method is Some
            },
            result matches Ok(rule) ==> rule == (GameRule {
                behavior,
                game_timer_duration,
                game_timer_times_method,
                players_timer_duration,
                players_timer_times_method,
            }) && rule.wf(),
            !(game_timer_duration is Some <==> game_timer_times_method is Some) ==> result
                == Err::<GameRule<R>, GameRuleConfigError>(
                GameRuleConfigError::GameTimerConfigMismatch,
            ),
            (game_timer_duration is Some <==> game_timer_times_method is Some) && !(
            players_timer_duration is Some <==> players_timer_times_method is Some) ==> result
                == Err::<GameRule<R>, GameRuleConfigError>(
                GameRuleConfigError::PlayersTimerConfigMismatch,
            ),
    {
        if game_timer_duration.is_some() != game_timer_times_method.is_some() {
            return Err(GameRuleConfigError::GameTimerConfigMismatch);
        }
        if players_timer_duration.is_some() != players_timer_times_method.is_some() {
            return Err(GameRuleConfigError::PlayersTimerConfigMismatch);
        }
        Ok(
            GameRule {
                behavior,
                game_timer_duration,
                game_timer_times_method,
                players_timer_duration,
                players_timer_times_method,
            },
        )
    }
}

} // verus!
