//! Applying a preset by name: find it, say how the power-control tool is to
//! be run, and judge how the run ended.

use crate::command::{invocation, invocation_for, Invocation, InvocationModel};
use crate::decimal::{is_digit, render_signed, signed_decimal};
use crate::preset::PresetModel;
use crate::registry::{lookup, Registry};
use vstd::prelude::*;
use vstd::string::*;

verus! {

/// Why a preset was not applied.
#[derive(Debug)]
pub enum ApplyError {
    /// No preset of the registry bears this name.
    NotFound(String),
    /// The power-control tool could not be started; the text says why.
    LaunchFailed(String),
    /// The tool ran and ended with a code other than zero, or with no code at
    /// all when it was ended from outside.
    NonZeroExit(Option<i32>),
}

/// An [`ApplyError`], with its texts as sequences of characters.
pub enum ApplyErrorModel {
    NotFound(Seq<char>),
    LaunchFailed(Seq<char>),
    NonZeroExit(Option<i32>),
}

impl View for ApplyError {
    type V = ApplyErrorModel;

    open spec fn view(&self) -> ApplyErrorModel {
        match self {
            ApplyError::NotFound(name) => ApplyErrorModel::NotFound(name@),
            ApplyError::LaunchFailed(cause) => ApplyErrorModel::LaunchFailed(cause@),
            ApplyError::NonZeroExit(code) => ApplyErrorModel::NonZeroExit(*code),
        }
    }
}

/// How one run of the power-control tool ended.
#[derive(Debug)]
pub enum ProcessOutcome {
    /// The executable could not be started; the text says why.
    NotStarted(String),
    /// The process ran and ended: with its exit code, or with none when it
    /// was ended from outside.
    Exited(Option<i32>),
}

/// A [`ProcessOutcome`], with its text as a sequence of characters.
pub enum ProcessOutcomeModel {
    NotStarted(Seq<char>),
    Exited(Option<i32>),
}

impl View for ProcessOutcome {
    type V = ProcessOutcomeModel;

    open spec fn view(&self) -> ProcessOutcomeModel {
        match self {
            ProcessOutcome::NotStarted(cause) => ProcessOutcomeModel::NotStarted(cause@),
            ProcessOutcome::Exited(code) => ProcessOutcomeModel::Exited(*code),
        }
    }
}

/// A result, with the view of what it holds.
pub open spec fn result_view<T: View, E: View>(result: Result<T, E>) -> Result<T::V, E::V> {
    match result {
        Ok(value) => Ok(value@),
        Err(error) => Err(error@),
    }
}

impl ApplyErrorModel {
    /// The message that tells a user of the error.
    pub open spec fn message(self) -> Seq<char> {
        match self {
            ApplyErrorModel::NotFound(name) => "Preset not found: "@ + name,
            ApplyErrorModel::LaunchFailed(cause) => "Failed to execute command: "@ + cause,
            ApplyErrorModel::NonZeroExit(Some(code)) => "Command failed with exit code: "@
                + signed_decimal(code as int),
            ApplyErrorModel::NonZeroExit(None) =>
                "Command terminated abnormally without an exit code"@,
        }
    }
}

impl ApplyError {
    /// The message that tells a user of the error.
    pub fn message(&self) -> (text: String)
        ensures
            text@ == self@.message(),
    {
        match self {
            ApplyError::NotFound(name) => String::from_str("Preset not found: ").concat(
                name.as_str(),
            ),
            ApplyError::LaunchFailed(cause) => String::from_str(
                "Failed to execute command: ",
            ).concat(cause.as_str()),
            ApplyError::NonZeroExit(Some(code)) => String::from_str(
                "Command failed with exit code: ",
            ).concat(render_signed(*code).as_str()),
            ApplyError::NonZeroExit(None) => String::from_str(
                "Command terminated abnormally without an exit code",
            ),
        }
    }
}

/// What is to be done for a request to apply the preset called `name`: run
/// the tool for the first preset that bears the name, or fail because none
/// does.
pub open spec fn planned(presets: Seq<PresetModel>, name: Seq<char>) -> Result<
    InvocationModel,
    ApplyErrorModel,
> {
    match lookup(presets, name) {
        Some(preset) => Ok(invocation_for(preset)),
        None => Err(ApplyErrorModel::NotFound(name)),
    }
}

/// What a run of the tool means for the request: success for exit code zero,
/// and an error for a run that did not start, ended with another code, or
/// ended without a code.
pub open spec fn verdict(outcome: ProcessOutcomeModel) -> Result<(), ApplyErrorModel> {
    match outcome {
        ProcessOutcomeModel::NotStarted(cause) => Err(ApplyErrorModel::LaunchFailed(cause)),
        ProcessOutcomeModel::Exited(code) => if code == Some(0i32) {
            Ok(())
        } else {
            Err(ApplyErrorModel::NonZeroExit(code))
        },
    }
}

/// Against a registry without presets every request fails: no preset bears
/// the name, and the message ends with the name that was asked for.
pub proof fn lemma_nothing_to_apply(name: Seq<char>)
    ensures
        planned(Seq::<PresetModel>::empty(), name) == Err::<InvocationModel, ApplyErrorModel>(
            ApplyErrorModel::NotFound(name),
        ),
        ApplyErrorModel::NotFound(name).message() == "Preset not found: "@ + name,
        ApplyErrorModel::NotFound(name).message().subrange(
            ApplyErrorModel::NotFound(name).message().len() - name.len(),
            ApplyErrorModel::NotFound(name).message().len() as int,
        ) == name,
{
}

/// The message for a run that ended without an exit code is the message of no
/// exit code: whatever code a run ends with, its message reads otherwise.
pub proof fn lemma_abnormal_end_is_told_apart(code: i32)
    ensures
        ApplyErrorModel::NonZeroExit(None).message() != ApplyErrorModel::NonZeroExit(
            Some(code),
        ).message(),
{
    reveal_strlit("Command failed with exit code: ");
    reveal_strlit("Command terminated abnormally without an exit code");
    let with_code = ApplyErrorModel::NonZeroExit(Some(code)).message();
    let without_code = ApplyErrorModel::NonZeroExit(None).message();
    assert(with_code[8] == 'f');
    assert(without_code[8] == 't');
}

/// The message for a run that ended without an exit code holds no digit: it
/// claims no code.
pub proof fn lemma_abnormal_end_names_no_code()
    ensures
        forall|i: int|
            0 <= i < ApplyErrorModel::NonZeroExit(None).message().len() ==> !is_digit(
                #[trigger] ApplyErrorModel::NonZeroExit(None).message()[i],
            ),
{
    reveal_strlit("Command terminated abnormally without an exit code");
}

/// A run is a success exactly when the process ended with exit code zero.
pub proof fn lemma_success_is_exit_zero(outcome: ProcessOutcomeModel)
    ensures
        verdict(outcome) is Ok <==> outcome == ProcessOutcomeModel::Exited(Some(0i32)),
{
}

/// Looks the preset up and says how the tool is to be run for it.
pub fn plan(registry: &Registry, name: &str) -> (step: Result<Invocation, ApplyError>)
    ensures
        result_view(step) == planned(registry@, name@),
{
    match registry.find_by_name(name) {
        Some(preset) => Ok(invocation(preset)),
        None => Err(ApplyError::NotFound(String::from_str(name))),
    }
}

/// Judges how a run of the tool ended.
pub fn conclude(outcome: ProcessOutcome) -> (result: Result<(), ApplyError>)
    ensures
        result_view(result) == verdict(outcome@),
{
    match outcome {
        ProcessOutcome::NotStarted(cause) => Err(ApplyError::LaunchFailed(cause)),
        ProcessOutcome::Exited(code) => {
            match code {
                Some(0) => Ok(()),
                _ => Err(ApplyError::NonZeroExit(code)),
            }
        },
    }
}

/// Applies the preset called `name`. `run` starts the tool as the invocation
/// says, waits for it and reports how it ended; it is called once when a
/// preset bears the name, and not at all when none does. Nothing is tried a
/// second time.
pub fn apply<F: FnOnce(Invocation) -> ProcessOutcome>(
    registry: &Registry,
    name: &str,
    run: F,
) -> (result: Result<(), ApplyError>)
    requires
        forall|call: Invocation|
            planned(registry@, name@) == Ok::<InvocationModel, ApplyErrorModel>(call@)
                ==> run.requires((call,)),
    ensures
        match planned(registry@, name@) {
            Err(error) => result_view(result) == Err::<(), ApplyErrorModel>(error),
            Ok(planned_call) => exists|call: Invocation, outcome: ProcessOutcome|
                call@ == planned_call && run.ensures((call,), outcome) && result_view(result)
                    == verdict(outcome@),
        },
{
    match plan(registry, name) {
        Ok(call) => {
            let outcome = run(call);
            conclude(outcome)
        },
        Err(error) => Err(error),
    }
}

} // verus!
