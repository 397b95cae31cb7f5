use vstd::prelude::*;
use vstd::string::StringExecFns;

verus! {

/// The outcome of one behavior hook invocation.
#[derive(Debug)]
pub enum StepError {
    /// Do nothing with the error.
    Ignore,
    /// Exit immediately and stop stepping.
    Fatal(String),
    /// Exit after stepping through every remaining behavior of the pass.
    FatalPostStep(String),
    /// Disable this behavior's future steps, but keep stepping.
    SelfDisable(String),
    /// Continue stepping through, surfacing the message as a warning.
    Recover(String),
}

/// The outcome rendered as text: the variant's name, with its message in
/// parentheses where it carries one.
pub open spec fn spec_message(e: StepError) -> Seq<char> {
    match e {
        StepError::Ignore => "Ignore"@,
        StepError::Fatal(s) => "Fatal("@ + s@ + ")"@,
        StepError::FatalPostStep(s) => "FatalPostStep("@ + s@ + ")"@,
        StepError::SelfDisable(s) => "SelfDisable("@ + s@ + ")"@,
        StepError::Recover(s) => "Recover("@ + s@ + ")"@,
    }
}

impl StepError {
    /// Render the outcome as text.
    pub fn message(&self) -> (r: String)
        ensures
            r@ == spec_message(*self),
    {
        match self {
            StepError::Ignore => "Ignore".to_owned(),
            StepError::Fatal(s) => {
                let mut m = "Fatal(".to_owned();
                m.append(s.as_str());
                m.append(")");
                m
            },
            StepError::FatalPostStep(s) => {
                let mut m = "FatalPostStep(".to_owned();
                m.append(s.as_str());
                m.append(")");
                m
            },
            StepError::SelfDisable(s) => {
                let mut m = "SelfDisable(".to_owned();
                m.append(s.as_str());
                m.append(")");
                m
            },
            StepError::Recover(s) => {
                let mut m = "Recover(".to_owned();
                m.append(s.as_str());
                m.append(")");
                m
            },
        }
    }

    /// Fold this outcome into the final result of a finished phase pass:
    /// `Ignore` and `Recover` leave the pass successful (a recoverable message
    /// is only a warning), every other outcome fails the pass with its
    /// rendered message.
    pub fn translate(self) -> (r: Result<(), String>)
        ensures
            (self is Ignore || self is Recover) <==> r is Ok,
            r is Err ==> r->Err_0@ == spec_message(self),
    {
        match self {
            StepError::Ignore => Ok(()),
            StepError::Recover(_) => Ok(()),
            e => Err(e.message()),
        }
    }

    /// Feed one behavior's outcome into the pass accumulator. A fatal outcome
    /// is handed back at once, leaving the accumulator alone, so the caller
    /// can abort the pass; every other outcome overwrites the accumulator
    /// (last one wins) and lets the pass continue.
    pub fn store_nonfatal(self, storage: &mut StepError) -> (r: Result<(), StepError>)
        ensures
            self is Fatal ==> r is Err && r->Err_0 == self && *final (storage) == *old(storage),
            !(self is Fatal) ==> r is Ok && *final (storage) == self,
    {
        match &self {
            StepError::Fatal(s) => Err(StepError::Fatal(s.clone())),
            StepError::Ignore => {
                *storage = StepError::Ignore;
                Ok(())
            },
            StepError::FatalPostStep(s) => {
                *storage = StepError::FatalPostStep(s.clone());
                Ok(())
            },
            StepError::SelfDisable(s) => {
                *storage = StepError::SelfDisable(s.clone());
                Ok(())
            },
            StepError::Recover(s) => {
                *storage = StepError::Recover(s.clone());
                Ok(())
            },
        }
    }
}

/// The four passes the scheduler drives over the registered behaviors.
#[derive(Debug, Clone, Copy, PartialEq, Eq, Structural)]
pub enum Phase {
    Start,
    Step,
    FixedStep,
    LateStep,
}

/// One registered behavior with its scheduler bookkeeping: a behavior that
/// answered `SelfDisable` is switched off and skipped by all later passes.
pub struct BehaviorSlot<B> {
    pub behavior: B,
    pub enabled: bool,
}

/// A unit of per-frame logic with up to four ordered hooks, each optional:
/// the default for every hook is to succeed with no effect.
pub trait Steppable<S> {
    /// Runs once before ticking begins.
    fn start(&mut self, _state: &mut S) -> Result<(), StepError> {
        Ok(())
    }

    /// Runs once per tick, at the tick rate.
    fn step(&mut self, _state: &mut S) -> Result<(), StepError> {
        Ok(())
    }

    /// Runs at most once per tick, gated by the fixed-step interval.
    fn fixed_step(&mut self, _state: &mut S) -> Result<(), StepError> {
        Ok(())
    }

    /// Runs once per tick, after every behavior's `step` and `fixed_step`.
    fn late_step(&mut self, _state: &mut S) -> Result<(), StepError> {
        Ok(())
    }
}

} // verus!
