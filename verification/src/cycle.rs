//! The decisions of one producer cycle and of one aggregator cycle.
//!
//! A producer fetches a reading, and [`finish_cycle`] decides what becomes of
//! it. The aggregator waits for a signal, and [`aggregator_step`] decides what
//! to do on it. Fetching, sleeping, signalling and publishing are done by the
//! caller.

use crate::store::Indicator;
use crate::store::Readings;
use crate::store::Snapshot;
use crate::store::StatusBar;
use crate::text::occurs_at;
use vstd::prelude::*;

verus! {

/// Why a fetch gave no reading.
#[derive(Clone, Copy, Debug, PartialEq, Eq, Structural)]
pub enum FetchFailure {
    /// The source failed this time; the cycle is skipped.
    Transient,
    /// The source cannot work as configured; the producer ends.
    Fatal,
}

/// How a producer cycle ended.
#[derive(Clone, Copy, Debug, PartialEq, Eq, Structural)]
pub enum CycleOutcome {
    /// The store holds the new text; one change signal is due.
    Updated,
    /// Nothing was written; no signal is due.
    Skipped,
    /// Nothing was written; the producer must end.
    Fatal,
}

/// What reading a file of a sensor came to.
#[derive(Clone, Debug, PartialEq, Eq)]
pub enum SensorRead {
    /// No path was configured for the sensor.
    Unconfigured,
    /// The configured path does not exist.
    Missing,
    /// The file exists and could not be read this time.
    Unreadable,
    /// The file's text.
    Text(String),
}

/// What running a command came to.
#[derive(Clone, Debug, PartialEq, Eq)]
pub enum CommandRun {
    /// The command could not be started.
    NotStarted,
    /// The command ran and reported failure.
    Failed,
    /// The command ran and reported success, with this output.
    Succeeded(String),
}

/// What the aggregator is woken by.
#[derive(Clone, Copy, Debug, PartialEq, Eq, Structural)]
pub enum Signal {
    /// A producer wrote to the store.
    Changed,
    /// Every producer is gone.
    Closed,
}

/// What the aggregator does next.
#[derive(Clone, Debug, PartialEq, Eq)]
pub enum AggregatorStep {
    /// Publish this line, then wait for the next signal.
    Publish(String),
    /// End the loop.
    Stop,
}

/// A fetch result with its text as a sequence.
pub open spec fn fetched_view(fetched: Result<String, FetchFailure>) -> Result<
    Seq<char>,
    FetchFailure,
> {
    match fetched {
        Ok(text) => Ok(text@),
        Err(failure) => Err(failure),
    }
}

/// The outcome that a fetch result leads to.
pub open spec fn outcome_of(fetched: Result<Seq<char>, FetchFailure>) -> CycleOutcome {
    match fetched {
        Ok(_) => CycleOutcome::Updated,
        Err(FetchFailure::Transient) => CycleOutcome::Skipped,
        Err(FetchFailure::Fatal) => CycleOutcome::Fatal,
    }
}

/// The readings after a cycle of `which` that fetched `fetched`.
pub open spec fn readings_after_cycle(
    before: Readings,
    which: Indicator,
    fetched: Result<Seq<char>, FetchFailure>,
) -> Readings {
    match fetched {
        Ok(text) => before.with(which, text),
        Err(_) => before,
    }
}

/// The readings after the cycles of `cycles` ran in order.
pub open spec fn readings_after_cycles(
    before: Readings,
    cycles: Seq<(Indicator, Result<Seq<char>, FetchFailure>)>,
) -> Readings
    decreases cycles.len(),
{
    if cycles.len() == 0 {
        before
    } else {
        readings_after_cycle(
            readings_after_cycles(before, cycles.drop_last()),
            cycles.last().0,
            cycles.last().1,
        )
    }
}

/// How many change signals the cycles of `which` among `cycles` send.
pub open spec fn signals_sent(
    cycles: Seq<(Indicator, Result<Seq<char>, FetchFailure>)>,
    which: Indicator,
) -> nat
    decreases cycles.len(),
{
    if cycles.len() == 0 {
        0
    } else if cycles.last().0 == which && cycles.last().1 is Ok {
        signals_sent(cycles.drop_last(), which) + 1
    } else {
        signals_sent(cycles.drop_last(), which)
    }
}

/// What a command's report of failure stands for, by indicator, unless the
/// caller decides otherwise: the network query that fails ends its producer,
/// any other command that fails costs one cycle.
pub open spec fn exit_failure_stands_for(which: Indicator) -> FetchFailure {
    if which == Indicator::Network {
        FetchFailure::Fatal
    } else {
        FetchFailure::Transient
    }
}

/// What a command's report of failure stands for, by indicator.
pub fn exit_failure_policy(which: Indicator) -> (failure: FetchFailure)
    ensures
        failure == exit_failure_stands_for(which),
{
    match which {
        Indicator::Network => FetchFailure::Fatal,
        _ => FetchFailure::Transient,
    }
}

/// The text of a sensor's file, or the failure that reading it stands for: a
/// sensor that is not configured or not there is fatal, one that could not be
/// read this time is transient.
pub fn sensor_text(read: SensorRead) -> (fetched: Result<String, FetchFailure>)
    ensures
        fetched == match read {
            SensorRead::Unconfigured => Err::<String, FetchFailure>(FetchFailure::Fatal),
            SensorRead::Missing => Err(FetchFailure::Fatal),
            SensorRead::Unreadable => Err(FetchFailure::Transient),
            SensorRead::Text(text) => Ok(text),
        },
{
    match read {
        SensorRead::Unconfigured => Err(FetchFailure::Fatal),
        SensorRead::Missing => Err(FetchFailure::Fatal),
        SensorRead::Unreadable => Err(FetchFailure::Transient),
        SensorRead::Text(text) => Ok(text),
    }
}

/// The output of a command, or the failure that its run stands for: a command
/// that could not be started is fatal, one that reported failure is what
/// `on_exit_failure` says.
pub fn command_output(run: CommandRun, on_exit_failure: FetchFailure) -> (fetched: Result<
    String,
    FetchFailure,
>)
    ensures
        fetched == match run {
            CommandRun::NotStarted => Err::<String, FetchFailure>(FetchFailure::Fatal),
            CommandRun::Failed => Err(on_exit_failure),
            CommandRun::Succeeded(output) => Ok(output),
        },
{
    match run {
        CommandRun::NotStarted => Err(FetchFailure::Fatal),
        CommandRun::Failed => Err(on_exit_failure),
        CommandRun::Succeeded(output) => Ok(output),
    }
}

/// Ends a producer cycle on the text of the producer's own indicator, for a
/// caller that guards each text by itself: a fetched text replaces it, a
/// failure leaves it as it was.
pub fn store_fetched(slot: &mut String, fetched: Result<String, FetchFailure>) -> (outcome:
    CycleOutcome)
    ensures
        outcome == outcome_of(fetched_view(fetched)),
        final(slot)@ == match fetched {
            Ok(text) => text@,
            Err(_) => old(slot)@,
        },
{
    match fetched {
        Ok(text) => {
            *slot = text;
            CycleOutcome::Updated
        },
        Err(FetchFailure::Transient) => CycleOutcome::Skipped,
        Err(FetchFailure::Fatal) => CycleOutcome::Fatal,
    }
}

/// Ends a producer cycle of `which`: a fetched text is written to the store,
/// a failure leaves the store as it was.
pub fn finish_cycle(
    bar: &mut StatusBar,
    which: Indicator,
    fetched: Result<String, FetchFailure>,
) -> (outcome: CycleOutcome)
    ensures
        outcome == outcome_of(fetched_view(fetched)),
        final(bar)@ == readings_after_cycle(old(bar)@, which, fetched_view(fetched)),
        forall|i: Indicator| final(bar).period(i) == old(bar).period(i),
{
    match fetched {
        Ok(text) => {
            bar.set(which, text);
            CycleOutcome::Updated
        },
        Err(FetchFailure::Transient) => CycleOutcome::Skipped,
        Err(FetchFailure::Fatal) => CycleOutcome::Fatal,
    }
}

/// How many change signals are due after a cycle: one after an update, none
/// otherwise.
pub fn signals_due(outcome: CycleOutcome) -> (count: usize)
    ensures
        count == if outcome == CycleOutcome::Updated {
            1usize
        } else {
            0usize
        },
{
    match outcome {
        CycleOutcome::Updated => 1,
        _ => 0,
    }
}

/// Whether the producer sleeps and fetches again after a cycle: always,
/// unless the cycle was fatal.
pub fn producer_continues(outcome: CycleOutcome) -> (again: bool)
    ensures
        again == (outcome != CycleOutcome::Fatal),
{
    match outcome {
        CycleOutcome::Fatal => false,
        _ => true,
    }
}

/// One aggregator cycle, on the signal that woke it and the snapshot taken on
/// waking: on a change signal, the line composed from the snapshot; on the
/// closing of the channel, the end of the loop.
pub fn aggregator_step(seen: &Snapshot, signal: Signal) -> (step: AggregatorStep)
    ensures
        signal == Signal::Changed ==> (step matches AggregatorStep::Publish(line) && line@
            == seen@.composed()),
        signal == Signal::Closed ==> step is Stop,
{
    match signal {
        Signal::Changed => AggregatorStep::Publish(seen.compose()),
        Signal::Closed => AggregatorStep::Stop,
    }
}

/// Whether the aggregator goes on after a publish attempt: it does, whether
/// or not the line was delivered.
pub fn continues_after_publish(delivered: bool) -> (again: bool)
    ensures
        again,
{
    true
}

/// A cycle that failed is invisible: the readings stay what they were, and no
/// signal is due.
pub proof fn lemma_failed_cycle_changes_nothing(
    before: Readings,
    which: Indicator,
    failure: FetchFailure,
)
    ensures
        readings_after_cycle(before, which, Err(failure)) == before,
        outcome_of(Err(failure)) != CycleOutcome::Updated,
{
}

/// Where the text of `which` begins in the composed line.
pub open spec fn place_in_line(readings: Readings, which: Indicator) -> nat {
    match which {
        Indicator::Network => 1,
        Indicator::Battery => 4 + readings.network.len(),
        Indicator::Volume => 7 + readings.network.len() + readings.battery.len(),
        Indicator::Clock => 10 + readings.network.len() + readings.battery.len()
            + readings.volume.len(),
    }
}

/// The composed line holds the text of every indicator at its place.
pub proof fn lemma_line_holds_each_text(readings: Readings, which: Indicator)
    ensures
        occurs_at(readings.composed(), readings.get(which), place_in_line(readings, which) as int),
{
    let line = readings.composed();
    let at = place_in_line(readings, which) as int;
    let text = readings.get(which);
    assert(line.len() == 11 + readings.network.len() + readings.battery.len()
        + readings.volume.len() + readings.clock.len());
    assert(line.subrange(at, at + text.len()) =~= text);
}

/// What can happen in the pipeline: a producer ends a cycle, or the
/// aggregator takes one signal off the channel and renders.
pub enum PipelineEvent {
    Cycle(Indicator, Result<Seq<char>, FetchFailure>),
    Render,
}

/// The pipeline as a whole: what the store holds, how many signals wait in
/// the channel, and the last line that was handed to the display.
pub struct PipelineState {
    pub readings: Readings,
    pub waiting: nat,
    pub handed_over: Option<Seq<char>>,
}

/// The pipeline before anything happened.
pub open spec fn pipeline_start(readings: Readings) -> PipelineState {
    PipelineState { readings, waiting: 0, handed_over: None }
}

/// The pipeline after one event. A render with no signal waiting does not
/// happen: the aggregator is still blocked.
pub open spec fn pipeline_step(state: PipelineState, event: PipelineEvent) -> PipelineState {
    match event {
        PipelineEvent::Cycle(which, fetched) => PipelineState {
            readings: readings_after_cycle(state.readings, which, fetched),
            waiting: if outcome_of(fetched) == CycleOutcome::Updated {
                state.waiting + 1
            } else {
                state.waiting
            },
            handed_over: state.handed_over,
        },
        PipelineEvent::Render => if state.waiting > 0 {
            PipelineState {
                readings: state.readings,
                waiting: (state.waiting - 1) as nat,
                handed_over: Some(state.readings.composed()),
            }
        } else {
            state
        },
    }
}

/// The pipeline after the events of `events` happened in order.
pub open spec fn pipeline_run(state: PipelineState, events: Seq<PipelineEvent>) -> PipelineState
    decreases events.len(),
{
    if events.len() == 0 {
        state
    } else {
        pipeline_step(pipeline_run(state, events.drop_last()), events.last())
    }
}

/// Once the channel is drained, the display was handed the line of the store
/// as it is now: whatever the order of cycles and renders, and whichever
/// fetches failed, when no signal waits the last line handed over is the
/// line composed from the current texts, unless nothing was ever written.
pub proof fn lemma_drained_channel_shows_latest(start: Readings, events: Seq<PipelineEvent>)
    ensures
        ({
            let end = pipeline_run(pipeline_start(start), events);
            end.waiting == 0 ==> end.handed_over == Some(end.readings.composed()) || (
            end.handed_over is None && end.readings == start)
        }),
    decreases events.len(),
{
    if events.len() > 0 {
        lemma_drained_channel_shows_latest(start, events.drop_last());
    }
}

/// A render that finds a signal waiting hands over the line of the store as
/// it is then, so a text written before it is in that line.
pub proof fn lemma_render_after_update_shows_it(
    state: PipelineState,
    which: Indicator,
    text: Seq<char>,
)
    ensures
        ({
            let written = pipeline_step(state, PipelineEvent::Cycle(which, Ok(text)));
            let rendered = pipeline_step(written, PipelineEvent::Render);
            &&& written.waiting == state.waiting + 1
            &&& written.readings.get(which) == text
            &&& rendered.waiting == state.waiting
            &&& rendered.handed_over == Some(written.readings.composed())
            &&& occurs_at(
                rendered.handed_over->0,
                text,
                place_in_line(written.readings, which) as int,
            )
        }),
{
    lemma_line_holds_each_text(readings_after_cycle(state.readings, which, Ok(text)), which);
}

/// The cycles of one indicator, failed or not, do not reach another: the
/// other's text after a run of cycles, and the number of signals sent for
/// it, are what they would be had the cycles of `disturber` not run.
pub proof fn lemma_cycles_of_others_do_not_matter(
    before: Readings,
    cycles: Seq<(Indicator, Result<Seq<char>, FetchFailure>)>,
    disturber: Indicator,
    watched: Indicator,
)
    requires
        disturber != watched,
    ensures
        readings_after_cycles(before, cycles).get(watched) == readings_after_cycles(
            before,
            cycles.filter(|c: (Indicator, Result<Seq<char>, FetchFailure>)| c.0 != disturber),
        ).get(watched),
        signals_sent(cycles, watched) == signals_sent(
            cycles.filter(|c: (Indicator, Result<Seq<char>, FetchFailure>)| c.0 != disturber),
            watched,
        ),
    decreases cycles.len(),
{
    let keep = |c: (Indicator, Result<Seq<char>, FetchFailure>)| c.0 != disturber;
    reveal(Seq::filter);
    if cycles.len() > 0 {
        let front = cycles.drop_last();
        lemma_cycles_of_others_do_not_matter(before, front, disturber, watched);
        if keep(cycles.last()) {
            assert(cycles.filter(keep) == front.filter(keep).push(cycles.last()));
            assert(cycles.filter(keep).drop_last() =~= front.filter(keep));
        } else {
            assert(cycles.filter(keep) == front.filter(keep));
        }
    }
}

} // verus!
