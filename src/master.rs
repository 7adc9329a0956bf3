use vstd::prelude::*;

use crate::registry::Registry;
use crate::scenario::{GameCommand, Loader, Outcome, Scenario};

verus! {

/// The name of the scenario that a game starts in.
pub open spec fn start_name() -> Seq<char> {
    seq!['s', 't', 'a', 'r', 't']
}

/// The view of an optional name.
pub open spec fn name_view(n: Option<String>) -> Option<Seq<char>> {
    match n {
        Some(s) => Some(s@),
        None => None,
    }
}

/// Where the engine stands.
#[derive(Debug, Clone, PartialEq, Eq)]
pub enum Phase {
    /// Built, scenarios and commands may still be registered.
    Uninitialized,
    /// Started: loading scenarios and reading input.
    Active,
    /// Stopped in order, by end of input or by a handler's request.
    Stopped,
    /// Halted: a transition named this scenario, which was never registered.
    Misconfigured(String),
}

/// The view of a [`Phase`].
pub enum PhaseView {
    Uninitialized,
    Active,
    Stopped,
    Misconfigured(Seq<char>),
}

impl View for Phase {
    type V = PhaseView;

    open spec fn view(&self) -> PhaseView {
        match self {
            Phase::Uninitialized => PhaseView::Uninitialized,
            Phase::Active => PhaseView::Active,
            Phase::Stopped => PhaseView::Stopped,
            Phase::Misconfigured(n) => PhaseView::Misconfigured(n@),
        }
    }
}

/// One handler call made by the engine.
pub enum Call {
    /// The load handler of the scenario of this name.
    Enter(Seq<char>),
    /// The input handler of the scenario named first, with the text second.
    Input(Seq<char>, Seq<char>),
    /// The global command of this name.
    Execute(Seq<char>),
}

/// One event from the input source.
#[derive(Debug, Clone, PartialEq, Eq)]
pub enum Input {
    /// A line of text.
    Line(String),
    /// No line this time; the next read may bring one.
    NoLine,
    /// The input is closed.
    Eof,
}

/// What the engine needs next from whoever drives it.
#[derive(Debug, Clone, PartialEq, Eq)]
pub enum Action {
    /// A pending transition is to be loaded: call `load_pending`.
    Load,
    /// A line of input is to be read and handed to `turn`.
    ReadLine,
    /// Nothing: the engine has not started, has stopped or has halted.
    Halt,
}

/// The abstract state of an engine: registries, the active and pending
/// scenario names, its phase, and every handler call made so far.
pub struct EngineView<Sc, C> {
    pub scenarios: Map<Seq<char>, Sc>,
    pub commands: Map<Seq<char>, C>,
    pub current: Option<Seq<char>>,
    pub pending: Option<Seq<char>>,
    pub phase: PhaseView,
    pub trace: Seq<Call>,
}

impl<Sc, C> EngineView<Sc, C> {
    /// Before the start nothing is active or pending; the active scenario is
    /// always registered; a running engine with no transition pending has an
    /// active scenario.
    pub open spec fn wf(self) -> bool {
        &&& self.phase is Uninitialized ==> self.current is None && self.pending is None
        &&& self.current matches Some(c) ==> self.scenarios.contains_key(c)
        &&& self.phase is Active && self.pending is None ==> self.current is Some
    }

    /// Whether the next step reads a line of input.
    pub open spec fn awaiting_input(self) -> bool {
        self.phase is Active && self.pending is None
    }

    /// Whether the next step loads a registered scenario.
    pub open spec fn loads(self) -> bool {
        &&& self.phase is Active
        &&& self.pending matches Some(n) && self.scenarios.contains_key(n)
    }

    /// Whether the next step meets a transition to an unregistered name.
    pub open spec fn fails_load(self) -> bool {
        &&& self.phase is Active
        &&& self.pending matches Some(n) && !self.scenarios.contains_key(n)
    }

    /// The engine once a handler answered `o`.
    pub open spec fn after_outcome(self, o: Outcome) -> Self {
        match o {
            Outcome::Continue => self,
            Outcome::TransitionTo(n) => EngineView { pending: Some(n@), ..self },
            Outcome::Terminate => EngineView { phase: PhaseView::Stopped, ..self },
        }
    }

    /// The engine once the pending scenario was loaded and its load handler
    /// answered `o`: the handler ran once, and the scenario is active.
    pub open spec fn entered(self, o: Outcome) -> Self {
        let n = self.pending->0;
        EngineView {
            current: Some(n),
            pending: None,
            trace: self.trace.push(Call::Enter(n)),
            ..self
        }.after_outcome(o)
    }

    /// The engine halted on a transition to an unregistered name.
    pub open spec fn misconfigured(self) -> Self {
        EngineView {
            phase: PhaseView::Misconfigured(self.pending->0),
            pending: None,
            ..self
        }
    }

    /// The handler call that the trimmed line `text` goes to: the global
    /// command of that name if there is one, else the active scenario.
    pub open spec fn call_for(self, text: Seq<char>) -> Call {
        if self.commands.contains_key(text) {
            Call::Execute(text)
        } else {
            Call::Input(self.current->0, text)
        }
    }

    /// The engine once the trimmed line `text` was handled and the handler
    /// answered `o`.
    pub open spec fn dispatched(self, text: Seq<char>, o: Outcome) -> Self {
        EngineView { trace: self.trace.push(self.call_for(text)), ..self }.after_outcome(o)
    }

    /// The engine stopped at the end of input.
    pub open spec fn stopped(self) -> Self {
        EngineView { phase: PhaseView::Stopped, ..self }
    }
}

/// Whether `c` has the Unicode White_Space property.
pub open spec fn is_white_space(c: char) -> bool {
    let n = c as u32;
    ||| 0x9 <= n <= 0xd
    ||| n == 0x20
    ||| n == 0x85
    ||| n == 0xa0
    ||| n == 0x1680
    ||| 0x2000 <= n <= 0x200a
    ||| n == 0x2028
    ||| n == 0x2029
    ||| n == 0x202f
    ||| n == 0x205f
    ||| n == 0x3000
}

/// `s` without its leading white space.
pub open spec fn trim_start(s: Seq<char>) -> Seq<char>
    decreases s.len(),
{
    if s.len() > 0 && is_white_space(s[0]) {
        trim_start(s.drop_first())
    } else {
        s
    }
}

/// `s` without its trailing white space.
pub open spec fn trim_end(s: Seq<char>) -> Seq<char>
    decreases s.len(),
{
    if s.len() > 0 && is_white_space(s.last()) {
        trim_end(s.drop_last())
    } else {
        s
    }
}

/// `s` without its leading and trailing white space.
pub open spec fn trimmed(s: Seq<char>) -> Seq<char> {
    trim_end(trim_start(s))
}

/// Relies on str::trim, which removes the leading and trailing characters
/// that have the Unicode White_Space property.
#[verifier::external_body]
fn trim_line(s: &str) -> (r: &str)
    ensures
        r@ == trimmed(s@),
{
    s.trim()
}

/// The literal "start" spells the start scenario's name.
proof fn lemma_start_literal()
    ensures
        "start"@ == start_name(),
{
    reveal_strlit("start");
    assert("start"@ =~= start_name());
}

/// Why a registration was refused.
#[derive(Debug, Clone, PartialEq, Eq)]
pub enum RegisterError {
    /// The game has started: the registries no longer change.
    GameStarted,
}

/// The engine: owns the state and the registries, and runs the
/// read–dispatch–transition protocol one step at a time.
pub struct GameMaster<S, Sc, C> {
    state: S,
    scenarios: Registry<Sc>,
    commands: Registry<C>,
    current: Option<String>,
    loader: Loader,
    phase: Phase,
    trace: Ghost<Seq<Call>>,
}

impl<S, Sc, C> View for GameMaster<S, Sc, C> {
    type V = EngineView<Sc, C>;

    closed spec fn view(&self) -> EngineView<Sc, C> {
        EngineView {
            scenarios: self.scenarios@,
            commands: self.commands@,
            current: name_view(self.current),
            pending: name_view(self.loader.scenario),
            phase: self.phase@,
            trace: self.trace@,
        }
    }
}

impl<S, Sc: Scenario<S>, C: GameCommand<S>> GameMaster<S, Sc, C> {
    /// Well-formedness of the representation and of the view.
    pub open spec fn wf(&self) -> bool {
        self.registries_wf() && self@.wf()
    }

    /// Well-formedness of the two registries.
    pub closed spec fn registries_wf(&self) -> bool {
        self.scenarios.wf() && self.commands.wf()
    }

    /// The state lent to the handlers.
    pub closed spec fn state_spec(&self) -> S {
        self.state
    }

    /// Whether the handler that the trimmed line `text` goes to may take the
    /// state from this engine's to `after` and answer `o`: the command of
    /// that name if one is registered, else the active scenario.
    pub open spec fn handled(&self, text: Seq<char>, after: S, o: Outcome) -> bool {
        if self@.commands.contains_key(text) {
            self@.commands[text].executed(self.state_spec(), after, o)
        } else {
            self@.scenarios[self@.current->0].acted(text, self.state_spec(), after, o)
        }
    }

    /// An engine over `state` whose only scenario is `start`, registered
    /// under the name "start"; no command is registered.
    pub fn new(state: S, start: Sc) -> (r: Self)
        ensures
            r.wf(),
            r@.scenarios == Map::<Seq<char>, Sc>::empty().insert(start_name(), start),
            r@.commands == Map::<Seq<char>, C>::empty(),
            r@.current is None,
            r@.pending is None,
            r@.phase is Uninitialized,
            r@.trace == Seq::<Call>::empty(),
            r.state_spec() == state,
    {
        let mut scenarios = Registry::new();
        proof {
            lemma_start_literal();
        }
        scenarios.insert("start".to_owned(), start);
        GameMaster {
            state,
            scenarios,
            commands: Registry::new(),
            current: None,
            loader: Loader::new(),
            phase: Phase::Uninitialized,
            trace: Ghost(Seq::empty()),
        }
    }
    /// Applies a handler's outcome: records a pending transition, or stops.
    fn apply_outcome(&mut self, o: &Outcome)
        requires
            old(self).registries_wf(),
        ensures
            final(self).registries_wf(),
            final(self)@ == old(self)@.after_outcome(*o),
            final(self).state_spec() == old(self).state_spec(),
    {
        match o {
            Outcome::Continue => {},
            Outcome::TransitionTo(n) => {
                self.loader.set_scenario(n.clone());
            },
            Outcome::Terminate => {
                self.phase = Phase::Stopped;
            },
        }
    }

    /// Opens the game: a transition to "start" becomes pending, to be loaded
    /// before any input is read. Has no effect once the game has started.
    pub fn start_game(&mut self)
        requires
            old(self).wf(),
        ensures
            final(self).wf(),
            old(self)@.phase is Uninitialized ==> final(self)@ == (EngineView {
                phase: PhaseView::Active,
                pending: Some(start_name()),
                ..old(self)@
            }),
            !(old(self)@.phase is Uninitialized) ==> final(self)@ == old(self)@,
            final(self).state_spec() == old(self).state_spec(),
    {
        match &self.phase {
            Phase::Uninitialized => {
                proof {
                    lemma_start_literal();
                }
                self.loader.set_scenario("start".to_owned());
                self.phase = Phase::Active;
            },
            _ => {},
        }
    }

    /// What the engine needs next.
    pub fn next_action(&self) -> (r: Action)
        requires
            self.wf(),
        ensures
            r is Load <==> self@.phase is Active && self@.pending is Some,
            r is ReadLine <==> self@.awaiting_input(),
            r is Halt <==> !(self@.phase is Active),
    {
        match &self.phase {
            Phase::Active => {
                if self.loader.scenario.is_some() {
                    Action::Load
                } else {
                    Action::ReadLine
                }
            },
            _ => Action::Halt,
        }
    }

    /// Loads the pending scenario: looks its name up, runs its load handler
    /// once, makes it the active scenario, then applies the handler's outcome.
    /// A name that was never registered halts the engine instead. Returns the
    /// load handler's outcome where one ran.
    pub fn load_pending(&mut self) -> (r: Option<Outcome>)
        requires
            old(self).wf(),
        ensures
            final(self).wf(),
            r is Some <==> old(self)@.loads(),
            r matches Some(o) ==> final(self)@ == old(self)@.entered(o),
            r matches Some(o) ==> old(self)@.scenarios[old(self)@.pending->0].loaded(
                old(self).state_spec(),
                final(self).state_spec(),
                o,
            ),
            old(self)@.fails_load() ==> final(self)@ == old(self)@.misconfigured(),
            !old(self)@.loads() ==> final(self).state_spec() == old(self).state_spec(),
            !old(self)@.loads() && !old(self)@.fails_load() ==> final(self)@ == old(self)@,
    {
        match &self.phase {
            Phase::Active => {},
            _ => {
                return None;
            },
        }
        let name = match self.loader.take_scenario() {
            Some(n) => n,
            None => {
                return None;
            },
        };
        match self.scenarios.get(&name) {
            None => {
                self.phase = Phase::Misconfigured(name);
                None
            },
            Some(sc) => {
                let o = sc.load(&mut self.state);
                self.trace = Ghost(self.trace@.push(Call::Enter(name@)));
                self.current = Some(name);
                self.apply_outcome(&o);
                Some(o)
            },
        }
    }

    /// Handles one trimmed line of input: the global command of that name if
    /// one is registered, else the active scenario's input handler; then
    /// applies the handler's outcome. Returns that outcome; does nothing
    /// unless the engine is waiting for input.
    pub fn dispatch(&mut self, text: &str) -> (r: Option<Outcome>)
        requires
            old(self).wf(),
        ensures
            final(self).wf(),
            r is Some <==> old(self)@.awaiting_input(),
            r matches Some(o) ==> final(self)@ == old(self)@.dispatched(text@, o),
            r matches Some(o) ==> old(self).handled(text@, final(self).state_spec(), o),
            r is None ==> final(self)@ == old(self)@ && final(self).state_spec() == old(
                self,
            ).state_spec(),
    {
        match &self.phase {
            Phase::Active => {},
            _ => {
                return None;
            },
        }
        if self.loader.scenario.is_some() {
            return None;
        }
        let key = text.to_owned();
        let o = match self.commands.get(&key) {
            Some(cmd) => {
                let o = cmd.execute(&mut self.state);
                self.trace = Ghost(self.trace@.push(Call::Execute(text@)));
                o
            },
            None => {
                let ghost c = name_view(self.current)->0;
                let cur = self.current.as_ref().unwrap();
                let sc = self.scenarios.get(cur).unwrap();
                let o = sc.do_action(text, &mut self.state);
                self.trace = Ghost(self.trace@.push(Call::Input(c, text@)));
                o
            },
        };
        self.apply_outcome(&o);
        Some(o)
    }

    /// Takes one event from the input source. A line is trimmed and handed to
    /// [`Self::dispatch`]; no line leaves everything as it is; the end of
    /// input stops the engine. Does nothing unless the engine is waiting for
    /// input.
    pub fn turn(&mut self, input: Input) -> (r: Option<Outcome>)
        requires
            old(self).wf(),
        ensures
            final(self).wf(),
            r is Some <==> old(self)@.awaiting_input() && input is Line,
            r matches Some(o) ==> (input matches Input::Line(l) && final(self)@ == old(
                self,
            )@.dispatched(trimmed(l@), o) && old(self).handled(
                trimmed(l@),
                final(self).state_spec(),
                o,
            )),
            input is Eof && old(self)@.awaiting_input() ==> final(self)@ == old(self)@.stopped(),
            r is None && !(input is Eof && old(self)@.awaiting_input()) ==> final(self)@ == old(
                self,
            )@,
            r is None ==> final(self).state_spec() == old(self).state_spec(),
    {
        match input {
            Input::Line(l) => self.dispatch(trim_line(l.as_str())),
            Input::NoLine => None,
            Input::Eof => {
                match &self.phase {
                    Phase::Active => {
                        if self.loader.scenario.is_none() {
                            self.phase = Phase::Stopped;
                        }
                    },
                    _ => {},
                }
                None
            },
        }
    }

    /// Registers `scenario` under `name`, replacing any scenario of that name.
    /// Refused once the game has started.
    pub fn add_scenario(&mut self, name: String, scenario: Sc) -> (r: Result<(), RegisterError>)
        requires
            old(self).wf(),
        ensures
            final(self).wf(),
            r is Ok <==> old(self)@.phase is Uninitialized,
            r is Ok ==> final(self)@ == (EngineView {
                scenarios: old(self)@.scenarios.insert(name@, scenario),
                ..old(self)@
            }),
            r is Err ==> final(self)@ == old(self)@,
            final(self).state_spec() == old(self).state_spec(),
    {
        match &self.phase {
            Phase::Uninitialized => {
                self.scenarios.insert(name, scenario);
                Ok(())
            },
            _ => Err(RegisterError::GameStarted),
        }
    }

    /// Registers the global command `command` under `name`, replacing any
    /// command of that name. Refused once the game has started.
    pub fn add_command(&mut self, name: String, command: C) -> (r: Result<(), RegisterError>)
        requires
            old(self).wf(),
        ensures
            final(self).wf(),
            r is Ok <==> old(self)@.phase is Uninitialized,
            r is Ok ==> final(self)@ == (EngineView {
                commands: old(self)@.commands.insert(name@, command),
                ..old(self)@
            }),
            r is Err ==> final(self)@ == old(self)@,
            final(self).state_spec() == old(self).state_spec(),
    {
        match &self.phase {
            Phase::Uninitialized => {
                self.commands.insert(name, command);
                Ok(())
            },
            _ => Err(RegisterError::GameStarted),
        }
    }

    /// Where the engine stands.
    pub fn phase(&self) -> (r: &Phase)
        ensures
            r@ == self@.phase,
    {
        &self.phase
    }

    /// The name of the active scenario, once one was loaded.
    pub fn current_scenario(&self) -> (r: Option<&String>)
        ensures
            r is None <==> self@.current is None,
            r matches Some(n) ==> self@.current == Some(n@),
    {
        self.current.as_ref()
    }

    /// The state that the handlers read and write.
    pub fn state(&self) -> (r: &S)
        ensures
            *r == self.state_spec(),
    {
        &self.state
    }

    /// Ends the engine and hands its state back.
    pub fn into_state(self) -> (r: S)
        ensures
            r == self.state_spec(),
    {
        self.state
    }
}

/// Loading a registered scenario commits it: it becomes the active scenario
/// and its load handler has run exactly once for this transition, also when
/// it was already active (a reload is never skipped). It stays active until
/// the next load: handling a line, stopping and halting leave it in place.
pub proof fn lemma_committed_transition<Sc, C>(
    v: EngineView<Sc, C>,
    o: Outcome,
    text: Seq<char>,
    o2: Outcome,
)
    requires
        v.wf(),
        v.loads(),
    ensures
        v.entered(o).wf(),
        v.entered(o).current == v.pending,
        v.entered(o).trace == v.trace.push(Call::Enter(v.pending->0)),
        v.entered(o).dispatched(text, o2).current == v.pending,
        v.entered(o).stopped().current == v.pending,
        v.entered(o).misconfigured().current == v.pending,
{
}

/// Only a load changes the active scenario.
pub proof fn lemma_current_kept_between_loads<Sc, C>(v: EngineView<Sc, C>, text: Seq<char>, o: Outcome)
    ensures
        v.dispatched(text, o).current == v.current,
        v.stopped().current == v.current,
        v.misconfigured().current == v.current,
{
}

/// What a handler answers decides the engine's next step: a transition to a
/// registered name is loaded next, one to an unregistered name halts the
/// engine with that name, and a request to terminate stops it, so that no
/// further line is read.
pub proof fn lemma_outcome_decides_next_step<Sc, C>(
    v: EngineView<Sc, C>,
    text: Seq<char>,
    o: Outcome,
)
    requires
        v.wf(),
        v.awaiting_input() || v.loads(),
    ensures
        ({
            let w = if v.loads() {
                v.entered(o)
            } else {
                v.dispatched(text, o)
            };
            let n = o->TransitionTo_0@;
            &&& (o is TransitionTo && v.scenarios.contains_key(n) ==> w.loads()
                && w.pending == Some(n))
            &&& (o is TransitionTo && !v.scenarios.contains_key(n) ==> w.fails_load()
                && w.misconfigured().phase == PhaseView::Misconfigured(n))
            &&& (o is Terminate ==> w.phase is Stopped && !w.awaiting_input() && !w.loads()
                && !w.fails_load())
            &&& (o is Continue && v.loads() ==> w.awaiting_input())
        }),
{
}

/// A line equal to the name of a registered command goes to that command
/// alone: the active scenario's input handler is not called for it.
pub proof fn lemma_command_precedence<Sc, C>(v: EngineView<Sc, C>, text: Seq<char>, o: Outcome)
    requires
        v.commands.contains_key(text),
    ensures
        v.dispatched(text, o).trace == v.trace.push(Call::Execute(text)),
        forall|i: int|
            v.trace.len() <= i < v.dispatched(text, o).trace.len() ==> !(
            #[trigger] v.dispatched(text, o).trace[i] is Input),
{
}

/// A transition to a name that was never registered halts the engine with
/// that name as its error, without a handler call; afterwards the engine
/// neither reads input nor loads a scenario.
pub proof fn lemma_misconfiguration_halts<Sc, C>(v: EngineView<Sc, C>)
    requires
        v.wf(),
        v.fails_load(),
    ensures
        v.misconfigured().wf(),
        v.misconfigured().phase == PhaseView::Misconfigured(v.pending->0),
        v.misconfigured().trace == v.trace,
        !v.misconfigured().awaiting_input(),
        !v.misconfigured().loads(),
        !v.misconfigured().fails_load(),
{
}

} // verus!
