//! The operations offered to the user interface. Each reports a failure as a
//! message.

use crate::applier::{apply, planned, verdict, ApplyErrorModel, ProcessOutcome, result_view};
use crate::command::{Invocation, InvocationModel};
use crate::preset::Preset;
use crate::registry::Registry;
use vstd::prelude::*;

verus! {

/// A result of the applier as the user interface gets it: an error becomes
/// its message.
pub open spec fn reported(result: Result<(), ApplyErrorModel>) -> Result<(), Seq<char>> {
    match result {
        Ok(done) => Ok(done),
        Err(error) => Err(error.message()),
    }
}

/// Adds `preset` at the end of the registry. This never fails: no preset is
/// refused.
pub fn save_preset(registry: &mut Registry, preset: Preset) -> (result: Result<(), String>)
    ensures
        result is Ok,
        final(registry)@ == old(registry)@.push(preset@),
{
    registry.append(preset);
    Ok(())
}

/// The presets of the registry, in the order in which they were saved. This
/// never fails.
pub fn get_presets(registry: &Registry) -> (result: Result<Vec<Preset>, String>)
    ensures
        result is Ok,
        result->Ok_0.deep_view() == registry@,
{
    Ok(registry.snapshot())
}

/// Applies the preset called `name`, as [`apply`] does, and reports an error
/// as its message.
pub fn apply_preset<F: FnOnce(Invocation) -> ProcessOutcome>(
    registry: &Registry,
    name: &str,
    run: F,
) -> (result: Result<(), String>)
    requires
        forall|call: Invocation|
            planned(registry@, name@) == Ok::<InvocationModel, ApplyErrorModel>(call@)
                ==> run.requires((call,)),
    ensures
        match planned(registry@, name@) {
            Err(error) => result_view(result) == Err::<(), Seq<char>>(error.message()),
            Ok(planned_call) => exists|call: Invocation, outcome: ProcessOutcome|
                call@ == planned_call && run.ensures((call,), outcome) && result_view(result)
                    == reported(verdict(outcome@)),
        },
{
    match apply(registry, name, run) {
        Ok(()) => Ok(()),
        Err(error) => Err(error.message()),
    }
}

} // verus!
