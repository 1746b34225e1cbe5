use std::cell::RefCell;
use std::rc::Rc;

use game_session::game::{Game, GameState, TransitionError};
use game_session::game_rule::{GameCallbacks, GameRule};
use game_session::player::Player;
use game_session::poker::Card;
use game_session::timer::CBTimesMethod;

#[derive(Default)]
struct Counts {
    start: u32,
    progress: u32,
    pause: u32,
    resume: u32,
    finish: u32,
    wait_start: u32,
    game_timeout: u32,
    players_timeout: u32,
    players_join: u32,
    players_leave: u32,
}

struct CountingRules {
    counts: Rc<RefCell<Counts>>,
}

impl GameCallbacks for CountingRules {
    type Item = Card;
    type Context = u64;

    fn compare(&mut self, _left: &Vec<Card>, _right: &Vec<Card>, _context: &u64) -> bool {
        true
    }

    fn allocate(&mut self, _players: &Vec<Player>, _items: &mut Vec<Card>, _context: &mut u64) {}

    fn game_start(&mut self, _players: &Vec<Player>, _items: &mut Vec<Card>, _context: &mut u64) {
        self.counts.borrow_mut().start += 1;
    }

    fn game_progress(&mut self, _players: &Vec<Player>, _items: &mut Vec<Card>, _context: &mut u64) {
        self.counts.borrow_mut().progress += 1;
    }

    fn game_pause(&mut self, _players: &Vec<Player>, _items: &mut Vec<Card>, _context: &mut u64) {
        self.counts.borrow_mut().pause += 1;
    }

    fn game_resume(&mut self, _players: &Vec<Player>, _items: &mut Vec<Card>, _context: &mut u64) {
        self.counts.borrow_mut().resume += 1;
    }

    fn game_finish(&mut self, _players: &Vec<Player>, _items: &mut Vec<Card>, _context: &mut u64) {
        self.counts.borrow_mut().finish += 1;
    }

    fn game_wait_start(&mut self, _players: &Vec<Player>, _items: &mut Vec<Card>, _context: &mut u64) {
        self.counts.borrow_mut().wait_start += 1;
    }

    fn game_timeout(&mut self, _players: &Vec<Player>, _items: &mut Vec<Card>, _context: &mut u64) {
        self.counts.borrow_mut().game_timeout += 1;
    }

    fn players_join(
        &mut self,
        _joining: &Vec<Player>,
        _players: &Vec<Player>,
        _items: &mut Vec<Card>,
        _state: GameState,
        _context: &mut u64,
    ) {
        self.counts.borrow_mut().players_join += 1;
    }

    fn players_leave(
        &mut self,
        _leaving: &Vec<Player>,
        _players: &Vec<Player>,
        _items: &mut Vec<Card>,
        _state: GameState,
        _context: &mut u64,
    ) {
        self.counts.borrow_mut().players_leave += 1;
    }

    fn players_timeout(
        &mut self,
        _players: &Vec<Player>,
        _acting_players: &Vec<Player>,
        _items: &mut Vec<Card>,
        _state: GameState,
        _context: &mut u64,
    ) {
        self.counts.borrow_mut().players_timeout += 1;
    }
}

fn counting_game(
    game_pair: (Option<u64>, Option<CBTimesMethod>),
    players_pair: (Option<u64>, Option<CBTimesMethod>),
    now: u64,
) -> (Game<CountingRules>, Rc<RefCell<Counts>>) {
    let counts = Rc::new(RefCell::new(Counts::default()));
    let rules = CountingRules { counts: Rc::clone(&counts) };
    let rule = GameRule::new(rules, game_pair.0, game_pair.1, players_pair.0, players_pair.1)
        .expect("consistent configuration");
    (Game::new(Vec::new(), rule, 0, now), counts)
}

#[test]
fn fresh_session_is_not_started() {
    let (game, counts) = counting_game((None, None), (None, None), 100);
    assert_eq!(game.get_game_state(), GameState::NotStarted);
    assert!(!game.has_whole_timer());
    assert!(!game.has_players_timer());
    assert_eq!(counts.borrow().start, 0);
}

#[test]
fn legal_cycle_walks_every_state() {
    let (mut game, counts) = counting_game((None, None), (None, None), 100);
    assert!(game.game_start().is_ok());
    assert_eq!(game.get_game_state(), GameState::InProgress);
    assert!(game.game_pause().is_ok());
    assert_eq!(game.get_game_state(), GameState::Paused);
    assert!(game.game_resume().is_ok());
    assert_eq!(game.get_game_state(), GameState::InProgress);
    assert!(game.game_finish().is_ok());
    assert_eq!(game.get_game_state(), GameState::Finished);
    assert!(game.game_wait_start().is_ok());
    assert_eq!(game.get_game_state(), GameState::NotStarted);
    let counts = counts.borrow();
    assert_eq!(counts.start, 1);
    assert_eq!(counts.pause, 1);
    assert_eq!(counts.resume, 1);
    assert_eq!(counts.finish, 1);
    assert_eq!(counts.wait_start, 1);
}

#[test]
fn out_of_order_calls_report_errors_and_change_nothing() {
    let (mut game, counts) = counting_game((None, None), (None, None), 100);
    assert_eq!(
        game.game_pause(),
        Err(TransitionError { required: GameState::InProgress, found: GameState::NotStarted })
    );
    assert_eq!(
        game.game_resume(),
        Err(TransitionError { required: GameState::Paused, found: GameState::NotStarted })
    );
    assert_eq!(
        game.game_progress(),
        Err(TransitionError { required: GameState::InProgress, found: GameState::NotStarted })
    );
    assert_eq!(
        game.game_finish(),
        Err(TransitionError { required: GameState::InProgress, found: GameState::NotStarted })
    );
    assert_eq!(
        game.game_wait_start(),
        Err(TransitionError { required: GameState::Finished, found: GameState::NotStarted })
    );
    assert_eq!(game.get_game_state(), GameState::NotStarted);
    let counts = counts.borrow();
    assert_eq!(counts.pause, 0);
    assert_eq!(counts.resume, 0);
    assert_eq!(counts.progress, 0);
    assert_eq!(counts.finish, 0);
    assert_eq!(counts.wait_start, 0);
}

#[test]
fn state_after_calls_is_the_fold_over_the_sequence() {
    // Start, Pause, Pause (illegal), Resume, Finish, Start (illegal):
    // folding the legal-transition function gives
    // InProgress, Paused, Paused, InProgress, Finished, Finished.
    let (mut game, _counts) = counting_game((None, None), (None, None), 100);
    assert!(game.game_start().is_ok());
    assert!(game.game_pause().is_ok());
    assert!(game.game_pause().is_err());
    assert_eq!(game.get_game_state(), GameState::Paused);
    assert!(game.game_resume().is_ok());
    assert!(game.game_finish().is_ok());
    assert!(game.game_start().is_err());
    assert_eq!(game.get_game_state(), GameState::Finished);
}

#[test]
fn double_start_is_rejected_once() {
    let (mut game, counts) = counting_game((None, None), (None, None), 100);
    assert!(game.game_start().is_ok());
    assert_eq!(
        game.game_start(),
        Err(TransitionError { required: GameState::NotStarted, found: GameState::InProgress })
    );
    assert_eq!(counts.borrow().start, 1);
}

#[test]
fn progress_runs_its_callback_exactly_once_per_call() {
    let (mut game, counts) = counting_game((None, None), (None, None), 100);
    assert!(game.game_start().is_ok());
    assert!(game.game_progress().is_ok());
    assert_eq!(counts.borrow().progress, 1);
    assert_eq!(game.get_game_state(), GameState::InProgress);
    assert!(game.game_progress().is_ok());
    assert_eq!(counts.borrow().progress, 2);
    assert_eq!(game.get_game_state(), GameState::InProgress);
}

#[test]
fn pause_resume_restores_the_state_after_start() {
    let both = ((Some(10), Some(CBTimesMethod::Multi)), (Some(7), Some(CBTimesMethod::ONCE)));
    let (mut walked, _c1) = counting_game(both.0, both.1, 100);
    assert!(walked.game_start().is_ok());
    assert!(walked.game_pause().is_ok());
    assert!(!walked.whole_timer_running());
    assert!(!walked.players_timer_running());
    assert!(walked.game_resume().is_ok());

    let (mut started, _c2) = counting_game(both.0, both.1, 100);
    assert!(started.game_start().is_ok());

    assert_eq!(walked.get_game_state(), started.get_game_state());
    assert_eq!(walked.get_game_state(), GameState::InProgress);
    assert!(walked.whole_timer_running() && started.whole_timer_running());
    assert!(walked.players_timer_running() && started.players_timer_running());
}

#[test]
fn timers_run_exactly_while_in_progress() {
    let (mut game, _counts) =
        counting_game((Some(10), Some(CBTimesMethod::Multi)), (Some(7), Some(CBTimesMethod::Multi)), 100);
    assert!(game.has_whole_timer() && game.has_players_timer());
    assert!(!game.whole_timer_running() && !game.players_timer_running());
    assert!(game.game_start().is_ok());
    assert!(game.whole_timer_running() && game.players_timer_running());
    assert!(game.game_pause().is_ok());
    assert!(!game.whole_timer_running() && !game.players_timer_running());
    assert!(game.game_resume().is_ok());
    assert!(game.whole_timer_running() && game.players_timer_running());
    assert!(game.game_finish().is_ok());
    assert!(!game.whole_timer_running() && !game.players_timer_running());
    assert!(game.game_wait_start().is_ok());
    assert!(!game.whole_timer_running() && !game.players_timer_running());
}
