//! The session: the input and output buffers, the rule store and the
//! diagnostics log, owned together and handed to the executor as one value.

use crate::pipeline::{
    apply_rules, chain_outcome, diagnostic_message, outcome_view, CompileFailure,
    PatternCompileError,
};
use crate::rule::RuleView;
use crate::store::{
    after_add, after_remove, after_swap_with_next, after_swap_with_previous, after_toggle,
    IndexError, RuleStore,
};
use vstd::prelude::*;

verus! {

/// Everything one editing session holds.
///
/// The host edits `input_text` and the rules; `apply` writes `output_text`
/// and appends to `errors`. The log is never cleared by the library: it
/// keeps the entries of earlier runs until the host empties it.
#[derive(Debug)]
pub struct Session {
    /// The text to transform. Applying the rules never changes it.
    pub input_text: String,
    /// The result of the last successful run.
    pub output_text: String,
    /// The rule chain.
    pub rules: RuleStore,
    /// The diagnostics log, oldest entry first.
    pub errors: Vec<String>,
}

/// The mathematical content of a [`Session`].
pub struct SessionView {
    pub input: Seq<char>,
    pub output: Seq<char>,
    pub rules: Seq<RuleView>,
    pub errors: Seq<Seq<char>>,
}

/// The contents of a list of strings, in order.
pub open spec fn texts_of(lines: Seq<String>) -> Seq<Seq<char>> {
    Seq::new(lines.len(), |i: int| lines[i]@)
}

impl View for Session {
    type V = SessionView;

    open spec fn view(&self) -> SessionView {
        SessionView {
            input: self.input_text@,
            output: self.output_text@,
            rules: self.rules@,
            errors: texts_of(self.errors@),
        }
    }
}

/// What the host can ask of a session. Positions count from 0, and the
/// rule at position 0 is the one shown at the top.
#[derive(Debug, Clone, Copy, PartialEq, Eq)]
pub enum Command {
    /// Append a blank rule.
    AddRule,
    /// Remove the rule at the position.
    RemoveRule(usize),
    /// Move the rule at the position one place towards the top: exchange
    /// it with the rule before it.
    SwapUp(usize),
    /// Move the rule at the position one place towards the bottom:
    /// exchange it with the rule behind it.
    SwapDown(usize),
    /// Flip the case-sensitivity flag of the rule at the position.
    ToggleCase(usize),
    /// Run the rule chain over the input.
    Apply,
}

/// Why a command was not carried out.
#[derive(Debug, PartialEq, Eq)]
pub enum CommandError {
    /// The command named a position that holds no rule.
    NoSuchRule(IndexError),
    /// The chain was applied and a pattern did not compile.
    Pattern(PatternCompileError),
}

/// The mathematical content of a [`CommandError`].
pub enum CommandFault {
    NoSuchRule { index: int, len: int },
    Pattern(CompileFailure),
}

impl View for CommandError {
    type V = CommandFault;

    open spec fn view(&self) -> CommandFault {
        match *self {
            CommandError::NoSuchRule(e) => CommandFault::NoSuchRule {
                index: e.index as int,
                len: e.len as int,
            },
            CommandError::Pattern(e) => CommandFault::Pattern(e@),
        }
    }
}

/// The view of what a command returned.
pub open spec fn verdict_view(result: Result<(), CommandError>) -> Result<(), CommandFault> {
    match result {
        Ok(_) => Ok(()),
        Err(error) => Err(error@),
    }
}

impl Command {
    /// The position that the command names, if it names one.
    pub open spec fn target(self) -> Option<int> {
        match self {
            Command::RemoveRule(index) => Some(index as int),
            Command::SwapUp(index) => Some(index as int),
            Command::SwapDown(index) => Some(index as int),
            Command::ToggleCase(index) => Some(index as int),
            Command::AddRule => None,
            Command::Apply => None,
        }
    }
}

impl SessionView {
    /// The session after `command`. A command that fails for want of a
    /// rule at its position changes nothing.
    pub open spec fn after(self, command: Command) -> SessionView {
        match command {
            Command::AddRule => SessionView { rules: after_add(self.rules), ..self },
            Command::RemoveRule(index) => SessionView {
                rules: after_remove(self.rules, index as int),
                ..self
            },
            Command::SwapUp(index) => SessionView {
                rules: after_swap_with_previous(self.rules, index as int),
                ..self
            },
            Command::SwapDown(index) => SessionView {
                rules: after_swap_with_next(self.rules, index as int),
                ..self
            },
            Command::ToggleCase(index) => SessionView {
                rules: after_toggle(self.rules, index as int),
                ..self
            },
            Command::Apply => self.applied(),
        }
    }

    /// Whether `command` is carried out, and the fault with which it is
    /// turned down otherwise.
    pub open spec fn verdict(self, command: Command) -> Result<(), CommandFault> {
        match command.target() {
            Some(index) => if index < self.rules.len() {
                Ok(())
            } else {
                Err(CommandFault::NoSuchRule { index, len: self.rules.len() as int })
            },
            None => match command {
                Command::Apply => match chain_outcome(self.rules, self.input) {
                    Ok(_) => Ok(()),
                    Err(failure) => Err(CommandFault::Pattern(failure)),
                },
                _ => Ok(()),
            },
        }
    }

    /// The session after the outcome of a run was taken in: a produced text
    /// becomes the output; a failure adds one entry to the log and leaves
    /// the output as it was. Input and rules stay as they are either way.
    pub open spec fn committed(self, outcome: Result<Seq<char>, CompileFailure>) -> SessionView {
        match outcome {
            Ok(text) => SessionView { output: text, ..self },
            Err(failure) => SessionView {
                errors: self.errors.push(diagnostic_message(failure.detail)),
                ..self
            },
        }
    }

    /// The session after its rules were applied to its input.
    pub open spec fn applied(self) -> SessionView {
        self.committed(chain_outcome(self.rules, self.input))
    }
}

impl Session {
    /// A session with empty buffers, no rules and an empty log.
    pub fn new() -> (session: Self)
        ensures
            session@ == (SessionView {
                input: Seq::empty(),
                output: Seq::empty(),
                rules: Seq::empty(),
                errors: Seq::empty(),
            }),
    {
        let session = Session {
            input_text: String::new(),
            output_text: String::new(),
            rules: RuleStore::new(),
            errors: Vec::new(),
        };
        assert(texts_of(session.errors@) =~= Seq::<Seq<char>>::empty());
        session
    }

    /// Takes in the outcome of a run. A produced text replaces the output.
    /// A failure is written to the log as one new entry and handed back;
    /// the output then keeps its previous value.
    pub fn commit(&mut self, outcome: Result<String, PatternCompileError>) -> (result: Result<
        (),
        PatternCompileError,
    >)
        ensures
            final(self)@ == old(self)@.committed(outcome_view(outcome)),
            match result {
                Ok(_) => outcome is Ok,
                Err(error) => outcome == Err::<String, PatternCompileError>(error),
            },
    {
        match outcome {
            Ok(text) => {
                self.output_text = text;
                Ok(())
            },
            Err(error) => {
                self.errors.push(error.message());
                assert(texts_of(self.errors@) =~= texts_of(old(self).errors@).push(
                    diagnostic_message(error.detail@),
                ));
                Err(error)
            },
        }
    }

    /// Applies the rule chain to the input. On success the output is the
    /// transformed text. If a pattern does not compile, the run stops
    /// there, the output keeps its previous value and the log gains one
    /// entry.
    pub fn apply(&mut self) -> (result: Result<(), PatternCompileError>)
        ensures
            final(self)@ == old(self)@.applied(),
            match result {
                Ok(_) => chain_outcome(old(self)@.rules, old(self)@.input) is Ok,
                Err(error) => chain_outcome(old(self)@.rules, old(self)@.input) == Err::<
                    Seq<char>,
                    CompileFailure,
                >(error@),
            },
    {
        let outcome = apply_rules(&self.rules, self.input_text.as_str());
        self.commit(outcome)
    }

    /// Carries out one command of the host and says how it went.
    pub fn execute(&mut self, command: Command) -> (result: Result<(), CommandError>)
        ensures
            final(self)@ == old(self)@.after(command),
            verdict_view(result) == old(self)@.verdict(command),
    {
        let edited = match command {
            Command::AddRule => {
                self.rules.add_rule();
                Ok(())
            },
            Command::RemoveRule(index) => self.rules.remove_rule(index),
            Command::SwapUp(index) => self.rules.swap_with_previous(index),
            Command::SwapDown(index) => self.rules.swap_with_next(index),
            Command::ToggleCase(index) => self.rules.toggle_case_sensitivity(index),
            Command::Apply => {
                return match self.apply() {
                    Ok(_) => Ok(()),
                    Err(error) => Err(CommandError::Pattern(error)),
                };
            },
        };
        match edited {
            Ok(_) => Ok(()),
            Err(error) => Err(CommandError::NoSuchRule(error)),
        }
    }
}

} // verus!
