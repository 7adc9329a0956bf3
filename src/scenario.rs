use vstd::prelude::*;

verus! {

/// What a handler asks of the engine once it returns.
#[derive(Debug, Clone, PartialEq, Eq)]
pub enum Outcome {
    /// Nothing changes.
    Continue,
    /// The scenario of this name is to be loaded before the next line is read.
    TransitionTo(String),
    /// The engine stops in order.
    Terminate,
}

/// The pending transition: the name of the scenario to load next, if any.
pub struct Loader {
    pub scenario: Option<String>,
}

impl Loader {
    /// A loader with no transition pending.
    pub fn new() -> (r: Loader)
        ensures
            r.scenario is None,
    {
        Loader { scenario: None }
    }

    /// The name of the scenario to load.
    pub fn get_scenario(&self) -> (r: String)
        requires
            self.scenario is Some,
        ensures
            r == self.scenario->0,
    {
        self.scenario.as_ref().unwrap().clone()
    }

    /// Marks the scenario `scenario` to be loaded next.
    pub fn set_scenario(&mut self, scenario: String)
        ensures
            final(self).scenario == Some(scenario),
    {
        self.scenario = Some(scenario);
    }

    /// Hands out the pending name and leaves no transition pending.
    pub fn take_scenario(&mut self) -> (r: Option<String>)
        ensures
            r == old(self).scenario,
            final(self).scenario is None,
    {
        self.scenario.take()
    }
}

/// A named state of the interaction. Each handler call receives the shared
/// state by exclusive reference and answers with an [`Outcome`]. A verified
/// implementation says, through the two relations, what its handlers do.
pub trait Scenario<S> {
    /// Whether loading this scenario may take the state from `before` to
    /// `after` and answer `o`; by default, any change and any answer.
    open spec fn loaded(&self, before: S, after: S, o: Outcome) -> bool {
        true
    }

    /// Whether handling the line `text` may take the state from `before` to
    /// `after` and answer `o`; by default, any change and any answer.
    open spec fn acted(&self, text: Seq<char>, before: S, after: S, o: Outcome) -> bool {
        true
    }

    /// Runs when the scenario is loaded: renders it and may adjust the state.
    fn load(&self, state: &mut S) -> (o: Outcome)
        ensures
            self.loaded(*old(state), *final(state), o),
    ;

    /// Runs for each line of input, already trimmed, while the scenario is
    /// active and the line names no global command.
    fn do_action(&self, command: &str, state: &mut S) -> (o: Outcome)
        ensures
            self.acted(command@, *old(state), *final(state), o),
    ;
}

/// A global command: runs whenever a line equals its registered name,
/// whatever scenario is active.
pub trait GameCommand<S> {
    /// Whether running the command may take the state from `before` to
    /// `after` and answer `o`; by default, any change and any answer.
    open spec fn executed(&self, before: S, after: S, o: Outcome) -> bool {
        true
    }

    fn execute(&self, state: &mut S) -> (o: Outcome)
        ensures
            self.executed(*old(state), *final(state), o),
    ;
}

} // verus!
