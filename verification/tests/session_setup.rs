use std::cell::RefCell;
use std::rc::Rc;

use game_session::game::{Game, GameState};
use game_session::game_rule::{GameCallbacks, GameRule, GameRuleConfigError};
use game_session::player::Player;
use game_session::poker::Card;
use game_session::timer::CBTimesMethod;

struct TimeoutRules {
    game_timeouts: Rc<RefCell<u32>>,
    players_timeouts: Rc<RefCell<u32>>,
}

impl GameCallbacks for TimeoutRules {
    type Item = Card;
    type Context = u64;

    fn compare(&mut self, _left: &Vec<Card>, _right: &Vec<Card>, _context: &u64) -> bool {
        true
    }

    fn allocate(&mut self, _players: &Vec<Player>, _items: &mut Vec<Card>, _context: &mut u64) {}

    fn game_start(&mut self, _players: &Vec<Player>, _items: &mut Vec<Card>, _context: &mut u64) {}

    fn game_progress(&mut self, _players: &Vec<Player>, _items: &mut Vec<Card>, _context: &mut u64) {}

    fn game_pause(&mut self, _players: &Vec<Player>, _items: &mut Vec<Card>, _context: &mut u64) {}

    fn game_resume(&mut self, _players: &Vec<Player>, _items: &mut Vec<Card>, _context: &mut u64) {}

    fn game_finish(&mut self, _players: &Vec<Player>, _items: &mut Vec<Card>, _context: &mut u64) {}

    fn game_wait_start(&mut self, _players: &Vec<Player>, _items: &mut Vec<Card>, _context: &mut u64) {}

    fn game_timeout(&mut self, _players: &Vec<Player>, _items: &mut Vec<Card>, _context: &mut u64) {
        *self.game_timeouts.borrow_mut() += 1;
    }

    fn players_join(
        &mut self,
        _joining: &Vec<Player>,
        _players: &Vec<Player>,
        _items: &mut Vec<Card>,
        _state: GameState,
        _context: &mut u64,
    ) {
    }

    fn players_leave(
        &mut self,
        _leaving: &Vec<Player>,
        _players: &Vec<Player>,
        _items: &mut Vec<Card>,
        _state: GameState,
        _context: &mut u64,
    ) {
    }

    fn players_timeout(
        &mut self,
        _players: &Vec<Player>,
        _acting_players: &Vec<Player>,
        _items: &mut Vec<Card>,
        _state: GameState,
        _context: &mut u64,
    ) {
        *self.players_timeouts.borrow_mut() += 1;
    }
}

fn timeout_rules() -> (TimeoutRules, Rc<RefCell<u32>>, Rc<RefCell<u32>>) {
    let game_timeouts = Rc::new(RefCell::new(0));
    let players_timeouts = Rc::new(RefCell::new(0));
    let rules = TimeoutRules {
        game_timeouts: Rc::clone(&game_timeouts),
        players_timeouts: Rc::clone(&players_timeouts),
    };
    (rules, game_timeouts, players_timeouts)
}

#[test]
fn duration_without_policy_is_rejected() {
    let (rules, _g, _p) = timeout_rules();
    let built = GameRule::new(rules, Some(10), None, None, None);
    assert!(matches!(built, Err(GameRuleConfigError::GameTimerConfigMismatch)));
}

#[test]
fn policy_without_duration_is_rejected() {
    let (rules, _g, _p) = timeout_rules();
    let built = GameRule::new(rules, None, Some(CBTimesMethod::Multi), None, None);
    assert!(matches!(built, Err(GameRuleConfigError::GameTimerConfigMismatch)));
}

#[test]
fn players_pair_mismatch_is_reported_as_such() {
    let (rules, _g, _p) = timeout_rules();
    let built = GameRule::new(rules, Some(10), Some(CBTimesMethod::Multi), Some(5), None);
    assert!(matches!(built, Err(GameRuleConfigError::PlayersTimerConfigMismatch)));
}

#[test]
fn consistent_configuration_is_accepted() {
    let (rules, _g, _p) = timeout_rules();
    let built = GameRule::new(rules, Some(10), Some(CBTimesMethod::Multi), None, None);
    assert!(built.is_ok());
}

#[test]
fn whole_timer_only_session_end_to_end() {
    // A rule with only the whole-session pair: duration 10 s, Multi policy.
    let (rules, game_timeouts, players_timeouts) = timeout_rules();
    let rule = GameRule::new(rules, Some(10), Some(CBTimesMethod::Multi), None, None)
        .expect("consistent configuration");
    let mut game = Game::new(Vec::new(), rule, 0, 100);
    assert!(game.has_whole_timer());
    assert!(!game.has_players_timer());

    assert!(game.game_start().is_ok());
    assert!(game.whole_timer_running());

    // 2*10 + 5 seconds elapsed: the whole-session timer fires twice under
    // Multi; the absent per-player timer never fires.
    assert_eq!(game.poll_game_timer(125), 2);
    assert_eq!(*game_timeouts.borrow(), 2);
    assert_eq!(game.poll_players_timer(125), 0);
    assert_eq!(*players_timeouts.borrow(), 0);

    // Residue accumulates from the last successful poll only: 9 more seconds
    // is under one interval, 11 more crosses it once.
    assert_eq!(game.poll_game_timer(134), 0);
    assert_eq!(game.poll_game_timer(145), 1);
    assert_eq!(*game_timeouts.borrow(), 3);
    assert_eq!(game.get_game_state(), GameState::InProgress);
}

#[test]
fn paused_session_polls_fire_nothing() {
    let (rules, game_timeouts, _p) = timeout_rules();
    let rule = GameRule::new(rules, Some(10), Some(CBTimesMethod::Multi), None, None)
        .expect("consistent configuration");
    let mut game = Game::new(Vec::new(), rule, 0, 100);
    assert!(game.game_start().is_ok());
    assert!(game.game_pause().is_ok());
    assert_eq!(game.poll_game_timer(1000), 0);
    assert_eq!(*game_timeouts.borrow(), 0);
}

#[test]
fn both_timers_poll_independently() {
    let (rules, game_timeouts, players_timeouts) = timeout_rules();
    let rule = GameRule::new(
        rules,
        Some(10),
        Some(CBTimesMethod::Multi),
        Some(4),
        Some(CBTimesMethod::ONCE),
    )
    .expect("consistent configuration");
    let mut game = Game::new(Vec::new(), rule, 0, 100);
    assert!(game.game_start().is_ok());
    assert_eq!(game.poll_game_timer(125), 2);
    assert_eq!(game.poll_players_timer(125), 1); // 6*4 + 1 elapsed, ONCE fires once
    assert_eq!(*game_timeouts.borrow(), 2);
    assert_eq!(*players_timeouts.borrow(), 1);
}
