//! The order of events on the fault path.
//!
//! The reporter decides; the firmware acts. At a fault the firmware enters
//! the reporter, which looks into the registry. The firmware then asks for
//! one action after the other and carries each out on the sink, until the
//! reporter has halted; from there it spins forever. What a flush
//! or a write returned is not handed back: a failure changes nothing and
//! nothing is tried twice.

use vstd::prelude::*;
use crate::config::Config;
use crate::record::DiagnosticRecord;
use crate::registry::Registry;
use crate::render::{render, rendered};

verus! {

/// How far the fault path has come.
#[derive(Clone, Copy, Debug, PartialEq, Eq, Structural)]
pub enum Phase {
    /// A sink is registered and nothing was asked of it yet.
    SinkFound,
    /// The flush was asked for.
    Flushed,
    /// The line was handed out for writing.
    Written,
    /// Nothing is left to do, now or later.
    Halted,
}

/// What the firmware is to do next.
#[derive(Debug, PartialEq, Eq)]
pub enum Action {
    /// Flush the sink, and go on whether or not that worked.
    Flush,
    /// Write this line to the sink, and go on whether or not that worked.
    Write(String),
    /// Touch the sink no more and never return.
    Halt,
}

/// An [`Action`] with its line as a sequence of characters.
pub enum ActionView {
    Flush,
    Write(Seq<char>),
    Halt,
}

impl View for Action {
    type V = ActionView;

    open spec fn view(&self) -> ActionView {
        match self {
            Action::Flush => ActionView::Flush,
            Action::Write(line) => ActionView::Write(line@),
            Action::Halt => ActionView::Halt,
        }
    }
}

/// The phase in which the fault path starts: with no sink registered it has
/// halted before it began.
pub open spec fn entry_phase(sink_registered: bool) -> Phase {
    if sink_registered {
        Phase::SinkFound
    } else {
        Phase::Halted
    }
}

/// The phase that follows `phase`.
pub open spec fn next_phase(phase: Phase) -> Phase {
    match phase {
        Phase::SinkFound => Phase::Flushed,
        Phase::Flushed => Phase::Written,
        Phase::Written => Phase::Halted,
        Phase::Halted => Phase::Halted,
    }
}

/// The action that is due in `phase`.
pub open spec fn action_in(phase: Phase, config: Config, record: DiagnosticRecord) -> ActionView {
    match phase {
        Phase::SinkFound => ActionView::Flush,
        Phase::Flushed => ActionView::Write(rendered(config, record)),
        Phase::Written => ActionView::Halt,
        Phase::Halted => ActionView::Halt,
    }
}

/// The phase reached from `phase` after `steps` steps.
pub open spec fn phase_after(phase: Phase, steps: nat) -> Phase
    decreases steps,
{
    if steps == 0 {
        phase
    } else {
        phase_after(next_phase(phase), (steps - 1) as nat)
    }
}

/// The actions of the first `steps` steps from `phase`, in order.
pub open spec fn actions_from(
    phase: Phase,
    config: Config,
    record: DiagnosticRecord,
    steps: nat,
) -> Seq<ActionView>
    decreases steps,
{
    if steps == 0 {
        Seq::empty()
    } else {
        seq![action_in(phase, config, record)] + actions_from(
            next_phase(phase),
            config,
            record,
            (steps - 1) as nat,
        )
    }
}

/// The decisions of one run of the fault path.
pub struct Reporter {
    phase: Phase,
}

impl View for Reporter {
    type V = Phase;

    closed spec fn view(&self) -> Phase {
        self.phase
    }
}

impl Reporter {
    /// Starts the fault path by looking into the registry. The registry is
    /// only read.
    pub fn enter<S>(registry: &Registry<S>) -> (reporter: Reporter)
        ensures
            reporter@ == entry_phase(registry.slot is Some),
    {
        if registry.is_registered() {
            Reporter { phase: Phase::SinkFound }
        } else {
            Reporter { phase: Phase::Halted }
        }
    }

    /// The phase that the fault path is in.
    pub fn phase(&self) -> (phase: Phase)
        ensures
            phase == self@,
    {
        self.phase
    }

    /// Whether the fault path has come to its end.
    pub fn is_halted(&self) -> (halted: bool)
        ensures
            halted == (self@ == Phase::Halted),
    {
        match self.phase {
            Phase::Halted => true,
            _ => false,
        }
    }

    /// Hands out the action that is due and moves on to the next phase.
    pub fn step(&mut self, config: Config, record: &DiagnosticRecord) -> (action: Action)
        ensures
            action@ == action_in(old(self)@, config, *record),
            final(self)@ == next_phase(old(self)@),
    {
        match self.phase {
            Phase::SinkFound => {
                self.phase = Phase::Flushed;
                Action::Flush
            },
            Phase::Flushed => {
                self.phase = Phase::Written;
                Action::Write(render(config, record))
            },
            Phase::Written => {
                self.phase = Phase::Halted;
                Action::Halt
            },
            Phase::Halted => Action::Halt,
        }
    }
}

/// Once halted, always halted, and the sink is left alone: however many
/// steps are taken from the halted phase, each asks for the halt and none
/// for a flush or a write.
pub proof fn lemma_halt_is_final(config: Config, record: DiagnosticRecord, steps: nat)
    ensures
        phase_after(Phase::Halted, steps) == Phase::Halted,
        actions_from(Phase::Halted, config, record, steps) == Seq::new(
            steps,
            |i: int| ActionView::Halt,
        ),
    decreases steps,
{
    if steps > 0 {
        lemma_halt_is_final(config, record, (steps - 1) as nat);
    }
    assert(actions_from(Phase::Halted, config, record, steps) =~= Seq::new(
        steps,
        |i: int| ActionView::Halt,
    ));
}

/// A fault with no sink registered: the path starts halted, so by
/// [`lemma_halt_is_final`] it never asks for a flush or a write.
pub proof fn lemma_no_sink_no_output(config: Config, record: DiagnosticRecord, steps: nat)
    ensures
        entry_phase(false) == Phase::Halted,
        phase_after(entry_phase(false), steps) == Phase::Halted,
        actions_from(entry_phase(false), config, record, steps) == Seq::new(
            steps,
            |i: int| ActionView::Halt,
        ),
{
    lemma_halt_is_final(config, record, steps);
}

/// A fault with a sink registered: one flush, then one write of the
/// rendered line, then the halt, for good. So the sink sees one sequence of
/// operations and the path has halted after three steps.
pub proof fn lemma_one_report_then_halt(config: Config, record: DiagnosticRecord, steps: nat)
    ensures
        phase_after(entry_phase(true), 3 + steps) == Phase::Halted,
        actions_from(entry_phase(true), config, record, 2 + steps) == seq![
            ActionView::Flush,
            ActionView::Write(rendered(config, record)),
        ] + Seq::new(steps, |i: int| ActionView::Halt),
{
    reveal_with_fuel(phase_after, 4);
    reveal_with_fuel(actions_from, 4);
    lemma_halt_is_final(config, record, steps);
    if steps > 0 {
        lemma_halt_is_final(config, record, (steps - 1) as nat);
    }
    let halts = Seq::new(steps, |i: int| ActionView::Halt);
    let tail = actions_from(Phase::Written, config, record, steps);
    assert(tail =~= halts);
    assert(actions_from(Phase::SinkFound, config, record, 2 + steps) =~= seq![
        ActionView::Flush,
        ActionView::Write(rendered(config, record)),
    ] + halts);
}

} // verus!
