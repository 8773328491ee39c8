//! From a preset to the invocation of the power-control tool.

use crate::decimal::{decimal, render_decimal};
use crate::preset::{Preset, PresetModel};
use vstd::prelude::*;
use vstd::string::*;

verus! {

/// The name of the power-control executable.
pub open spec fn tool_name() -> Seq<char> {
    "ryzenadj"@
}

/// What one limit adds to the argument list: its flag and its value in base
/// 10 when it is set, nothing when it is not.
pub open spec fn flag_pair(flag: Seq<char>, value: Option<u32>) -> Seq<Seq<char>> {
    match value {
        Some(v) => seq![flag, decimal(v as nat)],
        None => Seq::empty(),
    }
}

/// The argument list of a preset, without the executable's name: one pair per
/// limit that is set, in the order stapm limit, fast limit, slow limit, slow
/// time, tctl temperature, APU skin temperature, dGPU skin temperature. The
/// two mode flags add nothing.
pub open spec fn arguments(preset: PresetModel) -> Seq<Seq<char>> {
    flag_pair("--stapm-limit"@, preset.stapm_limit)
        + flag_pair("--fast-limit"@, preset.fast_limit)
        + flag_pair("--slow-limit"@, preset.slow_limit)
        + flag_pair("--slow-time"@, preset.slow_time)
        + flag_pair("--tctl-temp"@, preset.tctl_temp)
        + flag_pair("--apu-skin-temp"@, preset.apu_skin_temp)
        + flag_pair("--dgpu-skin-temp"@, preset.dgpu_skin_temp)
}

/// How many of the seven limits are set.
pub open spec fn limits_set(preset: PresetModel) -> nat {
    let one = |value: Option<u32>| -> nat { if value is Some { 1 } else { 0 } };
    one(preset.stapm_limit) + one(preset.fast_limit) + one(preset.slow_limit)
        + one(preset.slow_time) + one(preset.tctl_temp) + one(preset.apu_skin_temp)
        + one(preset.dgpu_skin_temp)
}

/// A preset with only the stapm limit set gives that flag and its value, and
/// no other token.
pub proof fn lemma_only_stapm_limit(preset: PresetModel, value: u32)
    requires
        preset.stapm_limit == Some(value),
        preset.fast_limit is None,
        preset.slow_limit is None,
        preset.slow_time is None,
        preset.tctl_temp is None,
        preset.apu_skin_temp is None,
        preset.dgpu_skin_temp is None,
    ensures
        arguments(preset) == seq!["--stapm-limit"@, decimal(value as nat)],
{
}

/// A preset with all seven limits set gives fourteen tokens: each flag
/// followed by its value, in the fixed order of the limits.
pub proof fn lemma_all_limits(preset: PresetModel)
    requires
        preset.stapm_limit is Some,
        preset.fast_limit is Some,
        preset.slow_limit is Some,
        preset.slow_time is Some,
        preset.tctl_temp is Some,
        preset.apu_skin_temp is Some,
        preset.dgpu_skin_temp is Some,
    ensures
        arguments(preset) == seq![
            "--stapm-limit"@,
            decimal(preset.stapm_limit->0 as nat),
            "--fast-limit"@,
            decimal(preset.fast_limit->0 as nat),
            "--slow-limit"@,
            decimal(preset.slow_limit->0 as nat),
            "--slow-time"@,
            decimal(preset.slow_time->0 as nat),
            "--tctl-temp"@,
            decimal(preset.tctl_temp->0 as nat),
            "--apu-skin-temp"@,
            decimal(preset.apu_skin_temp->0 as nat),
            "--dgpu-skin-temp"@,
            decimal(preset.dgpu_skin_temp->0 as nat),
        ],
{
    assert(arguments(preset) =~= seq![
        "--stapm-limit"@,
        decimal(preset.stapm_limit->0 as nat),
        "--fast-limit"@,
        decimal(preset.fast_limit->0 as nat),
        "--slow-limit"@,
        decimal(preset.slow_limit->0 as nat),
        "--slow-time"@,
        decimal(preset.slow_time->0 as nat),
        "--tctl-temp"@,
        decimal(preset.tctl_temp->0 as nat),
        "--apu-skin-temp"@,
        decimal(preset.apu_skin_temp->0 as nat),
        "--dgpu-skin-temp"@,
        decimal(preset.dgpu_skin_temp->0 as nat),
    ]);
}

/// A preset with no limit set gives no argument, whatever its name and its
/// two mode flags.
pub proof fn lemma_no_limit(preset: PresetModel)
    requires
        preset.has_no_limit(),
    ensures
        arguments(preset) == Seq::<Seq<char>>::empty(),
{
}

/// The argument list depends on the seven limits alone: neither the name nor
/// the two mode flags change it. It holds two tokens for each limit set.
pub proof fn lemma_arguments_from_limits(a: PresetModel, b: PresetModel)
    requires
        a.stapm_limit == b.stapm_limit,
        a.fast_limit == b.fast_limit,
        a.slow_limit == b.slow_limit,
        a.slow_time == b.slow_time,
        a.tctl_temp == b.tctl_temp,
        a.apu_skin_temp == b.apu_skin_temp,
        a.dgpu_skin_temp == b.dgpu_skin_temp,
    ensures
        arguments(a) == arguments(b),
        arguments(a).len() == 2 * limits_set(a),
{
}

/// Adds the pair of one limit to `args`.
fn push_pair(args: &mut Vec<String>, flag: &str, value: Option<u32>)
    ensures
        final(args).deep_view() == old(args).deep_view() + flag_pair(flag@, value),
{
    if let Some(v) = value {
        args.push(String::from_str(flag));
        args.push(render_decimal(v));
    }
}

/// The argument list that applies `preset`, without the executable's name.
pub fn synthesize(preset: &Preset) -> (args: Vec<String>)
    ensures
        args.deep_view() == arguments(preset@),
{
    let mut args: Vec<String> = Vec::new();
    push_pair(&mut args, "--stapm-limit", preset.stapm_limit);
    push_pair(&mut args, "--fast-limit", preset.fast_limit);
    push_pair(&mut args, "--slow-limit", preset.slow_limit);
    push_pair(&mut args, "--slow-time", preset.slow_time);
    push_pair(&mut args, "--tctl-temp", preset.tctl_temp);
    push_pair(&mut args, "--apu-skin-temp", preset.apu_skin_temp);
    push_pair(&mut args, "--dgpu-skin-temp", preset.dgpu_skin_temp);
    args
}

/// One run of the power-control tool: the executable and its arguments.
#[derive(Debug)]
pub struct Invocation {
    pub program: String,
    pub args: Vec<String>,
}

/// An invocation, with its texts as sequences of characters.
pub struct InvocationModel {
    pub program: Seq<char>,
    pub args: Seq<Seq<char>>,
}

impl View for Invocation {
    type V = InvocationModel;

    open spec fn view(&self) -> InvocationModel {
        InvocationModel { program: self.program@, args: self.args.deep_view() }
    }
}

/// The invocation that applies a preset.
pub open spec fn invocation_for(preset: PresetModel) -> InvocationModel {
    InvocationModel { program: tool_name(), args: arguments(preset) }
}

/// The invocation that applies `preset`: the power-control tool with the
/// preset's argument list.
pub fn invocation(preset: &Preset) -> (call: Invocation)
    ensures
        call@ == invocation_for(preset@),
{
    Invocation { program: String::from_str("ryzenadj"), args: synthesize(preset) }
}

} // verus!
