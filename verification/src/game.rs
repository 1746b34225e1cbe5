use vstd::prelude::*;

verus! {

use crate::game_rule::GameCallbacks;
use crate::game_rule::GameRule;
use crate::player::Player;
use crate::player::same_player;
use crate::timer::CBTimesMethod;
use crate::timer::Timer;
use crate::timer::TimerModel;
use crate::timer::poll_fires;
use crate::timer::poll_outcome;

/// Lifecycle state of a session. Exactly one is current at any time, and the
/// transition methods of [`Game`] are the only way to change it.
#[derive(Debug, Clone, Copy, Hash, PartialEq, Eq, Structural)]
pub enum GameState {
    NotStarted,
    InProgress,
    Paused,
    Finished,
}

/// The six lifecycle operations, named so that contracts and laws can speak
/// of call sequences abstractly.
pub enum LifecycleOp {
    Start,
    Pause,
    Resume,
    Progress,
    Finish,
    WaitStart,
}

/// The state a lifecycle operation demands before it runs.
pub open spec fn required_state(op: LifecycleOp) -> GameState {
    match op {
        LifecycleOp::Start => GameState::NotStarted,
        LifecycleOp::Pause => GameState::InProgress,
        LifecycleOp::Resume => GameState::Paused,
        LifecycleOp::Progress => GameState::InProgress,
        LifecycleOp::Finish => GameState::InProgress,
        LifecycleOp::WaitStart => GameState::Finished,
    }
}

/// The state a lifecycle operation establishes when it is allowed to run;
/// progress is the one operation that changes nothing.
pub open spec fn target_state(op: LifecycleOp) -> GameState {
    match op {
        LifecycleOp::Start => GameState::InProgress,
        LifecycleOp::Pause => GameState::Paused,
        LifecycleOp::Resume => GameState::InProgress,
        LifecycleOp::Progress => GameState::InProgress,
        LifecycleOp::Finish => GameState::Finished,
        LifecycleOp::WaitStart => GameState::NotStarted,
    }
}

/// Whether an operation is legal in the given state: the transitions form the
/// strict cycle NotStarted -> InProgress -> {Paused <-> InProgress} ->
/// Finished -> NotStarted, with Progress allowed only while InProgress.
pub open spec fn transition_allowed(state: GameState, op: LifecycleOp) -> bool {
    state == required_state(op)
}

/// The legal-transition function: an allowed operation moves to its target
/// state, an out-of-order one leaves the state unchanged.
pub open spec fn step_state(state: GameState, op: LifecycleOp) -> GameState {
    if transition_allowed(state, op) {
        target_state(op)
    } else {
        state
    }
}

/// The state reached by folding [`step_state`] over a call sequence from the
/// initial NotStarted state.
pub open spec fn state_after(ops: Seq<LifecycleOp>) -> GameState
    decreases ops.len(),
{
    if ops.len() == 0 {
        GameState::NotStarted
    } else {
        step_state(state_after(ops.drop_last()), ops.last())
    }
}

/// Lifecycle law: after any sequence of lifecycle calls the session state is
/// the fold of the legal-transition function over that sequence from
/// NotStarted — one more call steps the fold by exactly [`step_state`], and a
/// call whose precondition fails leaves the folded state unchanged. Each
/// transition method's contract ties its run to one such step and reports the
/// out-of-order case as an error.
pub proof fn lemma_lifecycle_fold(ops: Seq<LifecycleOp>, op: LifecycleOp)
    ensures
        state_after(ops.push(op)) == step_state(state_after(ops), op),
        !transition_allowed(state_after(ops), op) ==> state_after(ops.push(op)) == state_after(
            ops,
        ),
{
    assert(ops.push(op).drop_last() =~= ops);
}

/// Progress law: while a session is InProgress, a progress call is always
/// legal and never moves the state, so two consecutive calls each run — and,
/// by the contract of [`Game::game_progress`], each appends exactly one
/// progress callback invocation to the session's log.
pub proof fn lemma_progress_idempotent()
    ensures
        transition_allowed(GameState::InProgress, LifecycleOp::Progress),
        step_state(GameState::InProgress, LifecycleOp::Progress) == GameState::InProgress,
{
}

/// Pause/resume symmetry law: starting, pausing and resuming a fresh session
/// leaves it in exactly the state that starting alone reaches — InProgress.
/// By the well-formedness invariant of [`Game`], its timers run exactly when
/// the state is InProgress, so both timers are running again after the
/// resume, just as after the lone start.
pub proof fn lemma_pause_resume_symmetry()
    ensures
        state_after(
            seq![LifecycleOp::Start, LifecycleOp::Pause, LifecycleOp::Resume],
        ) == state_after(seq![LifecycleOp::Start]),
        state_after(seq![LifecycleOp::Start]) is InProgress,
{
    let none = Seq::<LifecycleOp>::empty();
    let ops1 = seq![LifecycleOp::Start];
    let ops2 = seq![LifecycleOp::Start, LifecycleOp::Pause];
    let ops3 = seq![LifecycleOp::Start, LifecycleOp::Pause, LifecycleOp::Resume];
    assert(ops1.drop_last() =~= none);
    assert(ops2.drop_last() =~= ops1);
    assert(ops3.drop_last() =~= ops2);
    assert(state_after(none) == GameState::NotStarted);
    assert(ops1.last() == LifecycleOp::Start);
    assert(state_after(ops1) == step_state(state_after(none), LifecycleOp::Start));
    assert(state_after(ops1) == GameState::InProgress);
    assert(ops2.last() == LifecycleOp::Pause);
    assert(state_after(ops2) == step_state(state_after(ops1), LifecycleOp::Pause));
    assert(state_after(ops2) == GameState::Paused);
    assert(ops3.last() == LifecycleOp::Resume);
    assert(state_after(ops3) == step_state(state_after(ops2), LifecycleOp::Resume));
}

/// Whether some member of `s` has the same identity as `p`.
pub open spec fn contains_same_player(s: Seq<Player>, p: Player) -> bool {
    exists|i: int| 0 <= i < s.len() && same_player(s[i], p)
}

/// The roster after a join: the incoming players are appended, in order.
pub open spec fn join_roster(roster: Seq<Player>, joining: Seq<Player>) -> Seq<Player> {
    roster + joining
}

/// The roster after a leave: exact-identity matches against the leaving set
/// are dropped, everything else keeps its relative order.
pub open spec fn leave_roster(roster: Seq<Player>, leaving: Seq<Player>) -> Seq<Player>
    decreases roster.len(),
{
    if roster.len() == 0 {
        Seq::empty()
    } else {
        let rest = leave_roster(roster.drop_last(), leaving);
        if contains_same_player(leaving, roster.last()) {
            rest
        } else {
            rest.push(roster.last())
        }
    }
}

/// Roster law, first half: joining players A and B into an empty roster and
/// then removing A leaves exactly B — whatever B's position, since removal
/// goes by identity, not by place.
pub proof fn lemma_join_then_leave(a: Player, b: Player)
    requires
        !same_player(b, a),
    ensures
        leave_roster(join_roster(Seq::empty(), seq![a, b]), seq![a]) == seq![b],
{
    let joined = join_roster(Seq::empty(), seq![a, b]);
    assert(joined =~= seq![a, b]);
    assert(joined.drop_last() =~= seq![a]);
    assert(seq![a].drop_last() =~= Seq::<Player>::empty());
    assert(contains_same_player(seq![a], a)) by {
        assert(same_player(seq![a][0], a));
    }
    assert(!contains_same_player(seq![a], b));
    assert(leave_roster(Seq::<Player>::empty(), seq![a]) =~= Seq::<Player>::empty());
    assert(seq![a].last() == a);
    assert(leave_roster(seq![a], seq![a]) =~= Seq::<Player>::empty());
    assert(joined.last() == b);
    assert(leave_roster(joined, seq![a]) == leave_roster(seq![a], seq![a]).push(b));
    assert(leave_roster(joined, seq![a]) =~= seq![b]);
}

/// Roster law, second half: removing players none of whom is present is a
/// no-op, not an error.
pub proof fn lemma_leave_absent_noop(roster: Seq<Player>, leaving: Seq<Player>)
    requires
        forall|i: int| 0 <= i < roster.len() ==> !contains_same_player(leaving, #[trigger] roster[i]),
    ensures
        leave_roster(roster, leaving) == roster,
    decreases roster.len(),
{
    if roster.len() == 0 {
        assert(leave_roster(roster, leaving) =~= roster);
    } else {
        assert(forall|i: int|
            0 <= i < roster.drop_last().len() ==> !contains_same_player(
                leaving,
                #[trigger] roster.drop_last()[i],
            ));
        lemma_leave_absent_noop(roster.drop_last(), leaving);
        assert(!contains_same_player(leaving, roster.last()));
        assert(leave_roster(roster, leaving) =~= roster);
    }
}

/// The error a lifecycle method reports when called from the wrong state: the
/// state it needed, and the state it found. The session is left untouched.
#[derive(Debug, Clone, Copy, PartialEq, Eq, Structural)]
pub struct TransitionError {
    pub required: GameState,
    pub found: GameState,
}

/// Tags for the rule-callback invocations a session performs, recorded in its
/// ghost log so that contracts can say exactly which callbacks each operation
/// fired, and how often.
pub enum RuleCallback {
    GameStart,
    GameProgress,
    GamePause,
    GameResume,
    GameFinish,
    GameWaitStart,
    GameTimeout,
    PlayersJoin,
    PlayersLeave,
    PlayersTimeout,
}

/// A timer option with only its running flag replaced; what the lifecycle
/// transitions do to a session's timers.
pub open spec fn with_running(t: Option<TimerModel>, is_running: bool) -> Option<TimerModel> {
    match t {
        Some(m) => Some(TimerModel { is_running, ..m }),
        None => None,
    }
}

/// The timer a fresh session builds from one of its rule's optional timer
/// configurations: present exactly when the configuration is, stopped, with
/// both anchors at the construction-time clock value.
pub open spec fn initial_timer(
    duration: Option<u64>,
    method: Option<CBTimesMethod>,
    now: u64,
) -> Option<TimerModel> {
    match (duration, method) {
        (Some(d), Some(m)) => Some(
            TimerModel {
                now,
                is_running: false,
                cb_last_step_time: now,
                cb_duration: Some(d),
                cb_times_method: m,
            },
        ),
        _ => None,
    }
}

/// One running game session: the roster, the acting roster, the item pool,
/// the free-form rule context, the lifecycle state, and the two timers built
/// from the rule's configuration. Every operation validates the lifecycle
/// state, mutates what it owns, toggles the timers, and invokes the matching
/// rule callback exactly once (recorded in the ghost callback log). The rule
/// callbacks may rewrite the item pool and the context; the roster and the
/// state are theirs to read only.
pub struct Game<R: GameCallbacks> {
    current_players: Vec<Player>,
    current_action_players: Vec<Player>,
    game_item: Vec<R::Item>,
    game_rule: GameRule<R>,
    game_state: GameState,
    game_context: R::Context,
    game_timer_for_whole: Option<Timer>,
    game_timer_for_players: Option<Timer>,
    callback_log: Ghost<Seq<RuleCallback>>,
}

impl<R: GameCallbacks> Game<R> {
    /// The current lifecycle state.
    pub closed spec fn state(self) -> GameState {
        self.game_state
    }

    /// The roster, in joining order.
    pub closed spec fn roster(self) -> Seq<Player> {
        self.current_players@
    }

    /// The players currently expected to act.
    pub closed spec fn acting_roster(self) -> Seq<Player> {
        self.current_action_players@
    }

    /// The item pool.
    pub closed spec fn items(self) -> Seq<R::Item> {
        self.game_item@
    }

    /// The free-form rule context; the session carries it and never
    /// interprets it.
    pub closed spec fn context(self) -> R::Context {
        self.game_context
    }

    /// The whole-session timer, if the rule configured one.
    pub closed spec fn whole_timer(self) -> Option<TimerModel> {
        match self.game_timer_for_whole {
            Some(t) => Some(t@),
            None => None,
        }
    }

    /// The per-player timer, if the rule configured one.
    pub closed spec fn players_timer(self) -> Option<TimerModel> {
        match self.game_timer_for_players {
            Some(t) => Some(t@),
            None => None,
        }
    }

    /// The rule's whole-session timer configuration: duration and policy.
    pub closed spec fn whole_timer_config(self) -> (Option<u64>, Option<CBTimesMethod>) {
        (self.game_rule.game_timer_duration, self.game_rule.game_timer_times_method)
    }

    /// The rule's per-player timer configuration: duration and policy.
    pub closed spec fn players_timer_config(self) -> (Option<u64>, Option<CBTimesMethod>) {
        (self.game_rule.players_timer_duration, self.game_rule.players_timer_times_method)
    }

    /// Every rule-callback invocation this session has performed, in order.
    pub closed spec fn log(self) -> Seq<RuleCallback> {
        self.callback_log@
    }

    /// Internal invariant: the rule configuration is consistent, each timer
    /// exists exactly when its configuration does and mirrors it, the timers'
    /// anchors are well formed, and the timers run exactly when the session
    /// is InProgress.
    pub closed spec fn wf(self) -> bool {
        &&& self.game_rule.wf()
        &&& (self.game_timer_for_whole is Some <==> self.game_rule.game_timer_duration is Some)
        &&& (self.game_timer_for_players is Some
            <==> self.game_rule.players_timer_duration is Some)
        &&& match self.game_timer_for_whole {
            Some(t) => {
                &&& t@.wf()
                &&& t@.cb_duration == self.game_rule.game_timer_duration
                &&& Some(t@.cb_times_method) == self.game_rule.game_timer_times_method
                &&& (t@.is_running <==> self.game_state is InProgress)
            },
            None => true,
        }
        &&& match self.game_timer_for_players {
            Some(t) => {
                &&& t@.wf()
                &&& t@.cb_duration == self.game_rule.players_timer_duration
                &&& Some(t@.cb_times_method) == self.game_rule.players_timer_times_method
                &&& (t@.is_running <==> self.game_state is InProgress)
            },
            None => true,
        }
    }

    /// The invariant made public: a well-formed session's timers exist
    /// exactly as configured, and run exactly when the session is InProgress.
    pub proof fn lemma_timers_track_state(self)
        requires
            self.wf(),
        ensures
            self.whole_timer() is Some <==> self.whole_timer_config().0 is Some,
            self.players_timer() is Some <==> self.players_timer_config().0 is Some,
            self.whole_timer() matches Some(t) ==> (t.is_running <==> self.state() is InProgress),
            self.players_timer() matches Some(t) ==> (t.is_running
                <==> self.state() is InProgress),
    {
    }

    /// Builds a session around an already-validated rule: empty rosters, the
    /// given item pool and context, state NotStarted, and one stopped timer
    /// per configured timer pair, anchored at the clock value observed by the
    /// caller at construction.
    pub fn new(
        game_item: Vec<R::Item>,
        game_rule: GameRule<R>,
        game_context: R::Context,
        now: u64,
    ) -> (game: Game<R>)
        requires
            game_rule.wf(),
        ensures
            game.wf(),
            game.state() is NotStarted,
            game.roster() == Seq::<Player>::empty(),
            game.acting_roster() == Seq::<Player>::empty(),
            game.items() == game_item@,
            game.context() == game_context,
            game.log() == Seq::<RuleCallback>::empty(),
            game.whole_timer_config() == (game_rule.game_timer_duration,
            game_rule.game_timer_times_method),
            game.players_timer_config() == (game_rule.players_timer_duration,
            game_rule.players_timer_times_method),
            game.whole_timer() == initial_timer(
                game_rule.game_timer_duration,
                game_rule.game_timer_times_method,
                now,
            ),
            game.players_timer() == initial_timer(
                game_rule.players_timer_duration,
                game_rule.players_timer_times_method,
                now,
            ),
    {
        let game_timer_for_whole = match (
            game_rule.game_timer_duration,
            game_rule.game_timer_times_method,
        ) {
            (Some(d), Some(m)) => Some(Timer::new(Some(d), m, now)),
            _ => None,
        };
        let game_timer_for_players = match (
            game_rule.players_timer_duration,
            game_rule.players_timer_times_method,
        ) {
            (Some(d), Some(m)) => Some(Timer::new(Some(d), m, now)),
            _ => None,
        };
        Game {
            current_players: Vec::new(),
            current_action_players: Vec::new(),
            game_item,
            game_rule,
            game_state: GameState::NotStarted,
            game_context,
            game_timer_for_whole,
            game_timer_for_players,
            callback_log: Ghost(Seq::empty()),
        }
    }

    /// Starts or stops both timers at once; everything else stays untouched.
    fn set_all_timer_is_running(&mut self, is_running: bool)
        ensures
            final(self).whole_timer() == with_running(old(self).whole_timer(), is_running),
            final(self).players_timer() == with_running(old(self).players_timer(), is_running),
            final(self).game_state == old(self).game_state,
            final(self).current_players == old(self).current_players,
            final(self).current_action_players == old(self).current_action_players,
            final(self).game_item == old(self).game_item,
            final(self).game_context == old(self).game_context,
            final(self).game_rule == old(self).game_rule,
            final(self).callback_log == old(self).callback_log,
    {
        match &mut self.game_timer_for_whole {
            Some(t) => t.set_is_running(is_running),
            None => {},
        }
        match &mut self.game_timer_for_players {
            Some(t) => t.set_is_running(is_running),
            None => {},
        }
    }

    /// Starts the session: NotStarted becomes InProgress, both timers begin
    /// running, and the rule's start callback runs exactly once. From any
    /// other state nothing changes and the violation is reported.
    pub fn game_start(&mut self) -> (result: Result<(), TransitionError>)
        requires
            old(self).wf(),
        ensures
            final(self).wf(),
            result is Ok <==> transition_allowed(old(self).state(), LifecycleOp::Start),
            final(self).state() == step_state(old(self).state(), LifecycleOp::Start),
            result matches Err(e) ==> e == (TransitionError {
                required: GameState::NotStarted,
                found: old(self).state(),
            }) && *final(self) == *old(self),
            result is Ok ==> {
                &&& final(self).log() == old(self).log().push(RuleCallback::GameStart)
                &&& final(self).roster() == old(self).roster()
                &&& final(self).acting_roster() == old(self).acting_roster()
                &&& final(self).whole_timer() == with_running(old(self).whole_timer(), true)
                &&& final(self).players_timer() == with_running(old(self).players_timer(), true)
                &&& final(self).whole_timer_config() == old(self).whole_timer_config()
                &&& final(self).players_timer_config() == old(self).players_timer_config()
            },
    {
        if self.game_state != GameState::NotStarted {
            return Err(TransitionError { required: GameState::NotStarted, found: self.game_state });
        }
        self.game_state = GameState::InProgress;
        self.set_all_timer_is_running(true);
        self.game_rule.behavior.game_start(
            &self.current_players,
            &mut self.game_item,
            &mut self.game_context,
        );
        proof {
            self.callback_log@ = self.callback_log@.push(RuleCallback::GameStart);
        }
        Ok(())
    }

    /// Pauses a running session: InProgress becomes Paused, both timers stop,
    /// and the rule's pause callback runs exactly once.
    pub fn game_pause(&mut self) -> (result: Result<(), TransitionError>)
        requires
            old(self).wf(),
        ensures
            final(self).wf(),
            result is Ok <==> transition_allowed(old(self).state(), LifecycleOp::Pause),
            final(self).state() == step_state(old(self).state(), LifecycleOp::Pause),
            result matches Err(e) ==> e == (TransitionError {
                required: GameState::InProgress,
                found: old(self).state(),
            }) && *final(self) == *old(self),
            result is Ok ==> {
                &&& final(self).log() == old(self).log().push(RuleCallback::GamePause)
                &&& final(self).roster() == old(self).roster()
                &&& final(self).acting_roster() == old(self).acting_roster()
                &&& final(self).whole_timer() == with_running(old(self).whole_timer(), false)
                &&& final(self).players_timer() == with_running(old(self).players_timer(), false)
                &&& final(self).whole_timer_config() == old(self).whole_timer_config()
                &&& final(self).players_timer_config() == old(self).players_timer_config()
            },
    {
        if self.game_state != GameState::InProgress {
            return Err(TransitionError { required: GameState::InProgress, found: self.game_state });
        }
        self.game_state = GameState::Paused;
        self.set_all_timer_is_running(false);
        self.game_rule.behavior.game_pause(
            &self.current_players,
            &mut self.game_item,
            &mut self.game_context,
        );
        proof {
            self.callback_log@ = self.callback_log@.push(RuleCallback::GamePause);
        }
        Ok(())
    }

    /// Resumes a paused session: Paused becomes InProgress, both timers run
    /// again, and the rule's resume callback runs exactly once.
    pub fn game_resume(&mut self) -> (result: Result<(), TransitionError>)
        requires
            old(self).wf(),
        ensures
            final(self).wf(),
            result is Ok <==> transition_allowed(old(self).state(), LifecycleOp::Resume),
            final(self).state() == step_state(old(self).state(), LifecycleOp::Resume),
            result matches Err(e) ==> e == (TransitionError {
                required: GameState::Paused,
                found: old(self).state(),
            }) && *final(self) == *old(self),
            result is Ok ==> {
                &&& final(self).log() == old(self).log().push(RuleCallback::GameResume)
                &&& final(self).roster() == old(self).roster()
                &&& final(self).acting_roster() == old(self).acting_roster()
                &&& final(self).whole_timer() == with_running(old(self).whole_timer(), true)
                &&& final(self).players_timer() == with_running(old(self).players_timer(), true)
                &&& final(self).whole_timer_config() == old(self).whole_timer_config()
                &&& final(self).players_timer_config() == old(self).players_timer_config()
            },
    {
        if self.game_state != GameState::Paused {
            return Err(TransitionError { required: GameState::Paused, found: self.game_state });
        }
        self.game_state = GameState::InProgress;
        self.set_all_timer_is_running(true);
        self.game_rule.behavior.game_resume(
            &self.current_players,
            &mut self.game_item,
            &mut self.game_context,
        );
        proof {
            self.callback_log@ = self.callback_log@.push(RuleCallback::GameResume);
        }
        Ok(())
    }

    /// Lets the rules advance game-specific state while the session runs: the
    /// lifecycle state and the timers stay exactly as they are, and the
    /// rule's progress callback runs exactly once.
    pub fn game_progress(&mut self) -> (result: Result<(), TransitionError>)
        requires
            old(self).wf(),
        ensures
            final(self).wf(),
            result is Ok <==> transition_allowed(old(self).state(), LifecycleOp::Progress),
            final(self).state() == step_state(old(self).state(), LifecycleOp::Progress),
            result matches Err(e) ==> e == (TransitionError {
                required: GameState::InProgress,
                found: old(self).state(),
            }) && *final(self) == *old(self),
            result is Ok ==> {
                &&& final(self).log() == old(self).log().push(RuleCallback::GameProgress)
                &&& final(self).roster() == old(self).roster()
                &&& final(self).acting_roster() == old(self).acting_roster()
                &&& final(self).whole_timer() == old(self).whole_timer()
                &&& final(self).players_timer() == old(self).players_timer()
                &&& final(self).whole_timer_config() == old(self).whole_timer_config()
                &&& final(self).players_timer_config() == old(self).players_timer_config()
            },
    {
        if self.game_state != GameState::InProgress {
            return Err(TransitionError { required: GameState::InProgress, found: self.game_state });
        }
        self.game_rule.behavior.game_progress(
            &self.current_players,
            &mut self.game_item,
            &mut self.game_context,
        );
        proof {
            self.callback_log@ = self.callback_log@.push(RuleCallback::GameProgress);
        }
        Ok(())
    }

    /// Finishes a running session: InProgress becomes Finished, both timers
    /// stop, and the rule's finish callback runs exactly once.
    pub fn game_finish(&mut self) -> (result: Result<(), TransitionError>)
        requires
            old(self).wf(),
        ensures
            final(self).wf(),
            result is Ok <==> transition_allowed(old(self).state(), LifecycleOp::Finish),
            final(self).state() == step_state(old(self).state(), LifecycleOp::Finish),
            result matches Err(e) ==> e == (TransitionError {
                required: GameState::InProgress,
                found: old(self).state(),
            }) && *final(self) == *old(self),
            result is Ok ==> {
                &&& final(self).log() == old(self).log().push(RuleCallback::GameFinish)
                &&& final(self).roster() == old(self).roster()
                &&& final(self).acting_roster() == old(self).acting_roster()
                &&& final(self).whole_timer() == with_running(old(self).whole_timer(), false)
                &&& final(self).players_timer() == with_running(old(self).players_timer(), false)
                &&& final(self).whole_timer_config() == old(self).whole_timer_config()
                &&& final(self).players_timer_config() == old(self).players_timer_config()
            },
    {
        if self.game_state != GameState::InProgress {
            return Err(TransitionError { required: GameState::InProgress, found: self.game_state });
        }
        self.game_state = GameState::Finished;
        self.set_all_timer_is_running(false);
        self.game_rule.behavior.game_finish(
            &self.current_players,
            &mut self.game_item,
            &mut self.game_context,
        );
        proof {
            self.callback_log@ = self.callback_log@.push(RuleCallback::GameFinish);
        }
        Ok(())
    }

    /// Returns a finished session to the lobby: Finished becomes NotStarted
    /// and the rule's wait-start callback runs exactly once. The timers stay
    /// stopped; the cycle restarts only through [`Game::game_start`].
    pub fn game_wait_start(&mut self) -> (result: Result<(), TransitionError>)
        requires
            old(self).wf(),
        ensures
            final(self).wf(),
            result is Ok <==> transition_allowed(old(self).state(), LifecycleOp::WaitStart),
            final(self).state() == step_state(old(self).state(), LifecycleOp::WaitStart),
            result matches Err(e) ==> e == (TransitionError {
                required: GameState::Finished,
                found: old(self).state(),
            }) && *final(self) == *old(self),
            result is Ok ==> {
                &&& final(self).log() == old(self).log().push(RuleCallback::GameWaitStart)
                &&& final(self).roster() == old(self).roster()
                &&& final(self).acting_roster() == old(self).acting_roster()
                &&& final(self).whole_timer() == old(self).whole_timer()
                &&& final(self).players_timer() == old(self).players_timer()
                &&& final(self).whole_timer_config() == old(self).whole_timer_config()
                &&& final(self).players_timer_config() == old(self).players_timer_config()
            },
    {
        if self.game_state != GameState::Finished {
            return Err(TransitionError { required: GameState::Finished, found: self.game_state });
        }
        self.game_state = GameState::NotStarted;
        self.game_rule.behavior.game_wait_start(
            &self.current_players,
            &mut self.game_item,
            &mut self.game_context,
        );
        proof {
            self.callback_log@ = self.callback_log@.push(RuleCallback::GameWaitStart);
        }
        Ok(())
    }

    /// Appends the joining players to the roster, in order, then runs the
    /// rule's join callback exactly once with the join list, the full roster
    /// and the current state. Legal in any lifecycle state.
    pub fn player_join(&mut self, join_players: Vec<Player>)
        requires
            old(self).wf(),
        ensures
            final(self).wf(),
            final(self).state() == old(self).state(),
            final(self).roster() == join_roster(old(self).roster(), join_players@),
            final(self).acting_roster() == old(self).acting_roster(),
            final(self).whole_timer() == old(self).whole_timer(),
            final(self).players_timer() == old(self).players_timer(),
            final(self).whole_timer_config() == old(self).whole_timer_config(),
            final(self).players_timer_config() == old(self).players_timer_config(),
            final(self).log() == old(self).log().push(RuleCallback::PlayersJoin),
    {
        let ghost prior = *self;
        let mut i: usize = 0;
        while i < join_players.len()
            invariant
                i <= join_players.len(),
                self.current_players@ == prior.current_players@ + join_players@.take(i as int),
                self.current_action_players == prior.current_action_players,
                self.game_item == prior.game_item,
                self.game_rule == prior.game_rule,
                self.game_state == prior.game_state,
                self.game_context == prior.game_context,
                self.game_timer_for_whole == prior.game_timer_for_whole,
                self.game_timer_for_players == prior.game_timer_for_players,
                self.callback_log == prior.callback_log,
            decreases join_players.len() - i,
        {
            self.current_players.push(join_players[i]);
            proof {
                assert(join_players@.take(i + 1) =~= join_players@.take(i as int).push(
                    join_players@[i as int],
                ));
            }
            i += 1;
        }
        proof {
            assert(join_players@.take(join_players@.len() as int) =~= join_players@);
        }
        let state_now = self.game_state;
        self.game_rule.behavior.players_join(
            &join_players,
            &self.current_players,
            &mut self.game_item,
            state_now,
            &mut self.game_context,
        );
        proof {
            self.callback_log@ = self.callback_log@.push(RuleCallback::PlayersJoin);
        }
    }

    /// Removes every roster member whose identity matches one of the leaving
    /// players — a member not present is simply not removed — then runs the
    /// rule's leave callback exactly once with the leave list, the remaining
    /// roster and the current state. Legal in any lifecycle state.
    pub fn player_leave(&mut self, leave_players: Vec<Player>)
        requires
            old(self).wf(),
        ensures
            final(self).wf(),
            final(self).state() == old(self).state(),
            final(self).roster() == leave_roster(old(self).roster(), leave_players@),
            final(self).acting_roster() == old(self).acting_roster(),
            final(self).whole_timer() == old(self).whole_timer(),
            final(self).players_timer() == old(self).players_timer(),
            final(self).whole_timer_config() == old(self).whole_timer_config(),
            final(self).players_timer_config() == old(self).players_timer_config(),
            final(self).log() == old(self).log().push(RuleCallback::PlayersLeave),
    {
        let ghost prior = *self;
        let mut kept: Vec<Player> = Vec::new();
        let mut i: usize = 0;
        while i < self.current_players.len()
            invariant
                i <= self.current_players.len(),
                *self == prior,
                kept@ == leave_roster(prior.current_players@.take(i as int), leave_players@),
            decreases self.current_players.len() - i,
        {
            let p = self.current_players[i];
            proof {
                assert(prior.current_players@.take(i + 1).drop_last() =~= prior.current_players@
                    .take(i as int));
                assert(prior.current_players@.take(i + 1).last() == prior.current_players@[
                    i as int]);
            }
            if !vec_contains_same(&leave_players, &p) {
                kept.push(p);
            }
            i += 1;
        }
        proof {
            assert(prior.current_players@.take(prior.current_players@.len() as int)
                =~= prior.current_players@);
        }
        self.current_players = kept;
        let state_now = self.game_state;
        self.game_rule.behavior.players_leave(
            &leave_players,
            &self.current_players,
            &mut self.game_item,
            state_now,
            &mut self.game_context,
        );
        proof {
            self.callback_log@ = self.callback_log@.push(RuleCallback::PlayersLeave);
        }
    }

    /// Polls the whole-session timer with the wall-clock value the caller
    /// observed, then runs the rule's game-timeout callback once per owed
    /// firing. A session without a whole-session timer ignores the poll.
    pub fn poll_game_timer(&mut self, observed_now: u64) -> (fired: u64)
        requires
            old(self).wf(),
        ensures
            final(self).wf(),
            final(self).state() == old(self).state(),
            final(self).roster() == old(self).roster(),
            final(self).acting_roster() == old(self).acting_roster(),
            final(self).players_timer() == old(self).players_timer(),
            final(self).whole_timer_config() == old(self).whole_timer_config(),
            final(self).players_timer_config() == old(self).players_timer_config(),
            old(self).whole_timer() matches Some(t) ==> fired == poll_fires(t, observed_now)
                && final(self).whole_timer() == Some(poll_outcome(t, observed_now)),
            old(self).whole_timer() is None ==> fired == 0 && final(self).whole_timer() is None,
            fired == 0 ==> final(self).items() == old(self).items() && final(self).context()
                == old(self).context(),
            final(self).log() == old(self).log() + Seq::new(
                fired as nat,
                |i: int| RuleCallback::GameTimeout,
            ),
    {
        let fired: u64 = match &mut self.game_timer_for_whole {
            Some(t) => t.update_timer(observed_now),
            None => 0,
        };
        let ghost prior = *self;
        let mut i: u64 = 0;
        while i < fired
            invariant
                i <= fired,
                self.current_players == prior.current_players,
                self.current_action_players == prior.current_action_players,
                self.game_rule.game_timer_duration == prior.game_rule.game_timer_duration,
                self.game_rule.game_timer_times_method == prior.game_rule.game_timer_times_method,
                self.game_rule.players_timer_duration == prior.game_rule.players_timer_duration,
                self.game_rule.players_timer_times_method
                    == prior.game_rule.players_timer_times_method,
                self.game_state == prior.game_state,
                self.game_timer_for_whole == prior.game_timer_for_whole,
                self.game_timer_for_players == prior.game_timer_for_players,
                fired == 0 ==> self.game_item == prior.game_item && self.game_context
                    == prior.game_context,
                self.callback_log@ == prior.callback_log@ + Seq::new(
                    i as nat,
                    |j: int| RuleCallback::GameTimeout,
                ),
            decreases fired - i,
        {
            self.game_rule.behavior.game_timeout(
                &self.current_players,
                &mut self.game_item,
                &mut self.game_context,
            );
            proof {
                self.callback_log@ = self.callback_log@.push(RuleCallback::GameTimeout);
                assert(self.callback_log@ =~= prior.callback_log@ + Seq::new(
                    (i + 1) as nat,
                    |j: int| RuleCallback::GameTimeout,
                ));
            }
            i += 1;
        }
        fired
    }

    /// Polls the per-player timer with the wall-clock value the caller
    /// observed, then runs the rule's players-timeout callback once per owed
    /// firing, handing it the acting roster as well. A session without a
    /// per-player timer ignores the poll.
    pub fn poll_players_timer(&mut self, observed_now: u64) -> (fired: u64)
        requires
            old(self).wf(),
        ensures
            final(self).wf(),
            final(self).state() == old(self).state(),
            final(self).roster() == old(self).roster(),
            final(self).acting_roster() == old(self).acting_roster(),
            final(self).whole_timer() == old(self).whole_timer(),
            final(self).whole_timer_config() == old(self).whole_timer_config(),
            final(self).players_timer_config() == old(self).players_timer_config(),
            old(self).players_timer() matches Some(t) ==> fired == poll_fires(t, observed_now)
                && final(self).players_timer() == Some(poll_outcome(t, observed_now)),
            old(self).players_timer() is None ==> fired == 0 && final(self).players_timer()
                is None,
            fired == 0 ==> final(self).items() == old(self).items() && final(self).context()
                == old(self).context(),
            final(self).log() == old(self).log() + Seq::new(
                fired as nat,
                |i: int| RuleCallback::PlayersTimeout,
            ),
    {
        let fired: u64 = match &mut self.game_timer_for_players {
            Some(t) => t.update_timer(observed_now),
            None => 0,
        };
        let ghost prior = *self;
        let mut i: u64 = 0;
        while i < fired
            invariant
                i <= fired,
                self.current_players == prior.current_players,
                self.current_action_players == prior.current_action_players,
                self.game_rule.game_timer_duration == prior.game_rule.game_timer_duration,
                self.game_rule.game_timer_times_method == prior.game_rule.game_timer_times_method,
                self.game_rule.players_timer_duration == prior.game_rule.players_timer_duration,
                self.game_rule.players_timer_times_method
                    == prior.game_rule.players_timer_times_method,
                self.game_state == prior.game_state,
                self.game_timer_for_whole == prior.game_timer_for_whole,
                self.game_timer_for_players == prior.game_timer_for_players,
                fired == 0 ==> self.game_item == prior.game_item && self.game_context
                    == prior.game_context,
                self.callback_log@ == prior.callback_log@ + Seq::new(
                    i as nat,
                    |j: int| RuleCallback::PlayersTimeout,
                ),
            decreases fired - i,
        {
            let state_now = self.game_state;
            self.game_rule.behavior.players_timeout(
                &self.current_players,
                &self.current_action_players,
                &mut self.game_item,
                state_now,
                &mut self.game_context,
            );
            proof {
                self.callback_log@ = self.callback_log@.push(RuleCallback::PlayersTimeout);
                assert(self.callback_log@ =~= prior.callback_log@ + Seq::new(
                    (i + 1) as nat,
                    |j: int| RuleCallback::PlayersTimeout,
                ));
            }
            i += 1;
        }
        fired
    }
}

impl<R: GameCallbacks> Game<R> {
    /// The current lifecycle state.
    pub fn get_game_state(&self) -> (state: GameState)
        ensures
            state == self.state(),
    {
        self.game_state
    }

    /// The roster, in joining order.
    pub fn get_players(&self) -> (players: &Vec<Player>)
        ensures
            players@ == self.roster(),
    {
        &self.current_players
    }

    /// Whether the rule configured a whole-session timer.
    pub fn has_whole_timer(&self) -> (present: bool)
        ensures
            present == (self.whole_timer() is Some),
    {
        self.game_timer_for_whole.is_some()
    }

    /// Whether the rule configured a per-player timer.
    pub fn has_players_timer(&self) -> (present: bool)
        ensures
            present == (self.players_timer() is Some),
    {
        self.game_timer_for_players.is_some()
    }

    /// Whether the whole-session timer exists and currently runs.
    pub fn whole_timer_running(&self) -> (running: bool)
        ensures
            running == match self.whole_timer() {
                Some(t) => t.is_running,
                None => false,
            },
    {
        match &self.game_timer_for_whole {
            Some(t) => t.get_is_running(),
            None => false,
        }
    }

    /// Whether the per-player timer exists and currently runs.
    pub fn players_timer_running(&self) -> (running: bool)
        ensures
            running == match self.players_timer() {
                Some(t) => t.is_running,
                None => false,
            },
    {
        match &self.game_timer_for_players {
            Some(t) => t.get_is_running(),
            None => false,
        }
    }
}

/// Whether the list holds a player with the same identity as `p`.
fn vec_contains_same(list: &Vec<Player>, p: &Player) -> (found: bool)
    ensures
        found == contains_same_player(list@, *p),
{
    let mut i: usize = 0;
    while i < list.len()
        invariant
            i <= list.len(),
            forall|j: int| 0 <= j < i ==> !same_player(list@[j], *p),
        decreases list.len() - i,
    {
        if list[i] == *p {
            assert(same_player(list@[i as int], *p));
            return true;
        }
        i += 1;
    }
    false
}

} // verus!
