use game_session::game_scheduler::GamesScheduler;
use game_session::game_tokens::GameTokens;
use game_session::user::User;

#[test]
fn scheduler_starts_empty() {
    let s = GamesScheduler::new();
    assert!(s.get_game_set().is_empty());
    assert!(s.get_participant_set().is_empty());
}

#[test]
fn games_form_a_set() {
    let mut s = GamesScheduler::new();
    s.add_game(7);
    s.add_game(9);
    s.add_game(7);
    assert_eq!(*s.get_game_set(), vec![7, 9]);
    s.remove_game(7);
    assert_eq!(*s.get_game_set(), vec![9]);
    s.remove_game(7);
    assert_eq!(*s.get_game_set(), vec![9]);
}

#[test]
fn participants_are_keyed_by_user_id() {
    let mut s = GamesScheduler::new();
    let alice = User::new(1, String::from("alice"), 100);
    let alice_stale = User::new(1, String::from("alice-from-another-record"), 5);
    let bob = User::new(2, String::from("bob"), 50);
    s.add_participant(&alice);
    s.add_participant(&bob);
    s.add_participant(&alice_stale);
    assert_eq!(*s.get_participant_set(), vec![1, 2]);
    s.remove_participant(&alice_stale);
    assert_eq!(*s.get_participant_set(), vec![2]);
}

#[test]
fn removing_an_absent_participant_is_a_no_op() {
    let mut s = GamesScheduler::new();
    s.add_participant(&User::new(3, String::from("carol"), 10));
    s.remove_participant(&User::new(8, String::from("nobody"), 0));
    assert_eq!(*s.get_participant_set(), vec![3]);
}

#[test]
fn user_equality_is_by_id_alone() {
    let a = User::new(5, String::from("one name"), 10);
    let b = User::new(5, String::from("another name"), 99);
    let c = User::new(6, String::from("one name"), 10);
    assert_eq!(a, b);
    assert_ne!(a, c);
}

#[test]
fn game_tokens_keep_their_fields() {
    let t = GameTokens::new(42, 3);
    assert_eq!(t.target_game, 42);
    assert_eq!(t.price_from_balance, 3);
}
