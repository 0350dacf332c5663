use vstd::prelude::*;

verus! {

/// The four analog inputs of the converter.
#[derive(Clone, Copy, Debug, PartialEq, Eq, Structural)]
pub enum Channel {
    Thermistor,
    FuelSender,
    BatteryTap,
    ReferenceRail,
}

impl Channel {
    /// The converter's input number for this channel.
    pub fn input(self) -> (n: u8)
        ensures
            n == match self {
                Channel::Thermistor => 0u8,
                Channel::FuelSender => 1u8,
                Channel::BatteryTap => 2u8,
                Channel::ReferenceRail => 3u8,
            },
    {
        match self {
            Channel::Thermistor => 0,
            Channel::FuelSender => 1,
            Channel::BatteryTap => 2,
            Channel::ReferenceRail => 3,
        }
    }
}

/// One blocking conversion: its channel, and whether its code is kept
/// (`false` for the settling conversion right after a channel switch).
#[derive(Clone, Copy, Debug, PartialEq, Eq, Structural)]
pub struct Conversion {
    pub channel: Channel,
    pub keep: bool,
}

/// The channels of one sampling pass, in order: each sensor right next to
/// the reference-rail sample it is corrected against.
pub open spec fn pass_channels() -> Seq<Channel> {
    seq![
        Channel::Thermistor,
        Channel::ReferenceRail,
        Channel::FuelSender,
        Channel::ReferenceRail,
        Channel::BatteryTap,
    ]
}

/// One sampling pass: for each channel a discarded conversion, then a kept one.
pub open spec fn sampling_pass() -> Seq<Conversion> {
    Seq::new(
        2 * pass_channels().len(),
        |i: int| Conversion { channel: pass_channels()[i / 2], keep: i % 2 == 1 },
    )
}

/// The conversions of one sampling pass, in the order they are made.
pub fn sampling_schedule() -> (plan: Vec<Conversion>)
    ensures
        plan@ == sampling_pass(),
{
    let channels: [Channel; 5] = [
        Channel::Thermistor,
        Channel::ReferenceRail,
        Channel::FuelSender,
        Channel::ReferenceRail,
        Channel::BatteryTap,
    ];
    assert(channels@ =~= pass_channels());
    let mut plan: Vec<Conversion> = Vec::new();
    let mut i: usize = 0;
    while i < 5
        invariant
            i <= 5,
            channels@ == pass_channels(),
            plan@ =~= sampling_pass().take(2 * i as int),
        decreases 5 - i,
    {
        plan.push(Conversion { channel: channels[i], keep: false });
        plan.push(Conversion { channel: channels[i], keep: true });
        i = i + 1;
        assert(plan@ =~= sampling_pass().take(2 * i as int));
    }
    assert(plan@ =~= sampling_pass());
    plan
}

/// The kept codes of one sampling pass.
#[derive(Clone, Copy, Debug, PartialEq, Eq, Structural)]
pub struct Readings {
    pub thermistor: i16,
    pub rail_for_thermistor: i16,
    pub fuel: i16,
    pub rail_for_fuel: i16,
    pub battery: i16,
}

/// Picks the kept codes out of the codes of one sampling pass, given in
/// the order of `sampling_schedule`.
pub fn readings_from_pass(codes: &Vec<i16>) -> (r: Readings)
    requires
        codes@.len() == sampling_pass().len(),
    ensures
        r.thermistor == codes@[1],
        r.rail_for_thermistor == codes@[3],
        r.fuel == codes@[5],
        r.rail_for_fuel == codes@[7],
        r.battery == codes@[9],
{
    Readings {
        thermistor: codes[1],
        rail_for_thermistor: codes[3],
        fuel: codes[5],
        rail_for_fuel: codes[7],
        battery: codes[9],
    }
}

/// The stages of the control loop.
#[derive(Clone, Copy, Debug, PartialEq, Eq, Structural)]
pub enum Stage {
    Sampling,
    Translating,
    Rendering,
    Failed,
}

/// What the loop does in a stage.
#[derive(Clone, Copy, Debug, PartialEq, Eq, Structural)]
pub enum Action {
    Sample,
    Translate,
    Render,
    Restart,
}

pub open spec fn action_spec(stage: Stage) -> Action {
    match stage {
        Stage::Sampling => Action::Sample,
        Stage::Translating => Action::Translate,
        Stage::Rendering => Action::Render,
        Stage::Failed => Action::Restart,
    }
}

pub open spec fn next_stage_spec(stage: Stage, succeeded: bool) -> Stage {
    match stage {
        Stage::Failed => Stage::Failed,
        _ => if !succeeded {
            Stage::Failed
        } else {
            match stage {
                Stage::Sampling => Stage::Translating,
                Stage::Translating => Stage::Rendering,
                _ => Stage::Sampling,
            }
        },
    }
}

/// The action to perform in `stage`.
pub fn action(stage: Stage) -> (a: Action)
    ensures
        a == action_spec(stage),
{
    match stage {
        Stage::Sampling => Action::Sample,
        Stage::Translating => Action::Translate,
        Stage::Rendering => Action::Render,
        Stage::Failed => Action::Restart,
    }
}

/// The stage after `stage`'s action succeeded or failed: success advances
/// around the pipeline, any failure leads to `Failed`, which is final.
pub fn next_stage(stage: Stage, succeeded: bool) -> (s: Stage)
    ensures
        s == next_stage_spec(stage, succeeded),
{
    match stage {
        Stage::Failed => Stage::Failed,
        _ => if !succeeded {
            Stage::Failed
        } else {
            match stage {
                Stage::Sampling => Stage::Translating,
                Stage::Translating => Stage::Rendering,
                _ => Stage::Sampling,
            }
        },
    }
}

/// The actions the loop performs from `stage` on, when the pipeline
/// actions report `outcomes` in turn. A restart does not return, so it
/// ends the run.
pub open spec fn run(stage: Stage, outcomes: Seq<bool>) -> Seq<Action>
    decreases outcomes.len(),
{
    if stage == Stage::Failed || outcomes.len() == 0 {
        seq![action_spec(stage)]
    } else {
        seq![action_spec(stage)] + run(next_stage_spec(stage, outcomes[0]), outcomes.drop_first())
    }
}

/// A failing pipeline action is followed by exactly one restart and by
/// nothing else.
pub proof fn lemma_failure_restarts_once(stage: Stage, outcomes: Seq<bool>)
    requires
        stage != Stage::Failed,
        outcomes.len() > 0,
        !outcomes[0],
    ensures
        run(stage, outcomes) == seq![action_spec(stage), Action::Restart],
{
    assert(run(Stage::Failed, outcomes.drop_first()) == seq![Action::Restart]);
    assert(run(stage, outcomes) =~= seq![action_spec(stage), Action::Restart]);
}

/// In every run a restart, if any, is the last action: no pipeline stage
/// runs after it.
pub proof fn lemma_restart_is_last(stage: Stage, outcomes: Seq<bool>)
    ensures
        forall|i: int| 0 <= i < run(stage, outcomes).len() - 1 ==> run(stage, outcomes)[i] != Action::Restart,
    decreases outcomes.len(),
{
    if stage == Stage::Failed || outcomes.len() == 0 {
    } else {
        let rest = run(next_stage_spec(stage, outcomes[0]), outcomes.drop_first());
        lemma_restart_is_last(next_stage_spec(stage, outcomes[0]), outcomes.drop_first());
        assert forall|i: int| 0 <= i < run(stage, outcomes).len() - 1 implies run(stage, outcomes)[i] != Action::Restart by {
            if i > 0 {
                assert(run(stage, outcomes)[i] == rest[i - 1]);
            }
        }
    }
}

} // verus!
