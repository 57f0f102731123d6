//! The order of one refresh, and which failures end it.
//!
//! A refresh runs download, save, convert, apply and cleanup in that order and
//! nothing else. An exhausted download, a failed disk write and a failed
//! conversion are terminal: they end the refresh with its error. The desktop
//! apply and the persisted options are best-effort: their failure is logged
//! and the refresh goes on. The runner performs each stage's outside work and
//! reports the stage's event; this module decides what comes next.

use vstd::prelude::*;

verus! {

/// Where one refresh stands.
#[derive(PartialEq, Eq, Structural, Clone, Copy, Debug)]
pub enum Phase {
    /// Walking the shuffled candidate list for a JPEG body.
    Fetching,
    /// Writing the accepted body to the counter-named JPEG file.
    Saving,
    /// Re-encoding the saved body as the bitmap the desktop API accepts.
    Converting,
    /// Handing the bitmap to the desktop and persisting the display options.
    Applying,
    /// Removing the files of earlier counters.
    Cleaning,
    /// The refresh went through every stage.
    Done,
    /// A terminal stage failure ended the refresh.
    Failed(RefreshError),
}

/// The failures that end a refresh. Best-effort stages have no entry here:
/// a failed desktop apply or option write is logged, never terminal.
#[derive(PartialEq, Eq, Structural, Clone, Copy, Debug)]
pub enum RefreshError {
    /// Every candidate of every attempt was tried without a valid JPEG.
    NoValidImage,
    /// The accepted body could not be written and synced to disk.
    SaveFailed,
    /// The saved body could not be decoded and re-encoded as a bitmap.
    ConvertFailed,
}

/// What the runner reports when a stage's outside work comes back.
#[derive(PartialEq, Eq, Structural, Clone, Copy, Debug)]
pub enum PipelineEvent {
    /// The download walk accepted a JPEG body.
    BodyAccepted,
    /// The download walk gave up after its whole schedule.
    SourcesExhausted,
    /// The JPEG file is written and synced to stable storage.
    Saved,
    /// The JPEG file could not be written or synced.
    SaveFailed,
    /// The bitmap is produced and written beside the JPEG.
    Converted,
    /// The body did not decode or re-encode.
    ConvertFailed,
    /// The desktop call and the option writes ran, well or badly: both are
    /// best-effort, a failure is logged and does not end the refresh.
    Applied,
    /// The cleanup visited every matching file once.
    Cleaned,
}

/// Which events a phase can receive: each stage reports only its own outcome,
/// and a finished refresh receives none.
pub open spec fn event_fits(p: Phase, e: PipelineEvent) -> bool {
    match p {
        Phase::Fetching => e == PipelineEvent::BodyAccepted || e == PipelineEvent::SourcesExhausted,
        Phase::Saving => e == PipelineEvent::Saved || e == PipelineEvent::SaveFailed,
        Phase::Converting => e == PipelineEvent::Converted || e == PipelineEvent::ConvertFailed,
        Phase::Applying => e == PipelineEvent::Applied,
        Phase::Cleaning => e == PipelineEvent::Cleaned,
        Phase::Done => false,
        Phase::Failed(_) => false,
    }
}

/// The stage that follows each outcome.
pub open spec fn phase_after(p: Phase, e: PipelineEvent) -> Phase {
    match (p, e) {
        (Phase::Fetching, PipelineEvent::BodyAccepted) => Phase::Saving,
        (Phase::Fetching, PipelineEvent::SourcesExhausted) => Phase::Failed(
            RefreshError::NoValidImage,
        ),
        (Phase::Saving, PipelineEvent::Saved) => Phase::Converting,
        (Phase::Saving, PipelineEvent::SaveFailed) => Phase::Failed(RefreshError::SaveFailed),
        (Phase::Converting, PipelineEvent::Converted) => Phase::Applying,
        (Phase::Converting, PipelineEvent::ConvertFailed) => Phase::Failed(
            RefreshError::ConvertFailed,
        ),
        (Phase::Applying, PipelineEvent::Applied) => Phase::Cleaning,
        (Phase::Cleaning, PipelineEvent::Cleaned) => Phase::Done,
        _ => p,
    }
}

/// A refresh that has run to completion or failure.
pub open spec fn is_terminal(p: Phase) -> bool {
    p == Phase::Done || p matches Phase::Failed(_)
}

/// Moves one refresh forward on a stage's reported outcome.
pub fn pipeline_step(p: Phase, e: PipelineEvent) -> (r: Phase)
    requires
        event_fits(p, e),
    ensures
        r == phase_after(p, e),
{
    match (p, e) {
        (Phase::Fetching, PipelineEvent::BodyAccepted) => Phase::Saving,
        (Phase::Fetching, PipelineEvent::SourcesExhausted) => Phase::Failed(
            RefreshError::NoValidImage,
        ),
        (Phase::Saving, PipelineEvent::Saved) => Phase::Converting,
        (Phase::Saving, PipelineEvent::SaveFailed) => Phase::Failed(RefreshError::SaveFailed),
        (Phase::Converting, PipelineEvent::Converted) => Phase::Applying,
        (Phase::Converting, PipelineEvent::ConvertFailed) => Phase::Failed(
            RefreshError::ConvertFailed,
        ),
        (Phase::Applying, PipelineEvent::Applied) => Phase::Cleaning,
        (Phase::Cleaning, PipelineEvent::Cleaned) => Phase::Done,
        _ => p,
    }
}

/// The phase after a whole run of reported outcomes.
pub open spec fn phase_run(p: Phase, events: Seq<PipelineEvent>) -> Phase
    decreases events.len(),
{
    if events.len() == 0 {
        p
    } else {
        phase_run(phase_after(p, events[0]), events.skip(1))
    }
}

/// Law: a refresh that has completed or failed moves no further — whatever
/// outcomes still arrive, a terminal phase stays exactly as it is.
pub proof fn lemma_terminal_phase_is_final(p: Phase, events: Seq<PipelineEvent>)
    requires
        is_terminal(p),
    ensures
        phase_run(p, events) == p,
    decreases events.len(),
{
    if events.len() > 0 {
        assert(phase_after(p, events[0]) == p);
        lemma_terminal_phase_is_final(p, events.skip(1));
    }
}

/// Law: a refresh reaches `Done` only through every stage in order — the run
/// of outcomes that completes it is exactly accepted body, save, convert,
/// apply, cleanup.
pub proof fn lemma_done_takes_every_stage(events: Seq<PipelineEvent>)
    requires
        phase_run(Phase::Fetching, events) == Phase::Done,
        forall|i: int|
            0 <= i < events.len() ==> event_fits(
                phase_run(Phase::Fetching, events.take(i)),
                #[trigger] events[i],
            ),
    ensures
        events =~= seq![
            PipelineEvent::BodyAccepted,
            PipelineEvent::Saved,
            PipelineEvent::Converted,
            PipelineEvent::Applied,
            PipelineEvent::Cleaned,
        ],
{
    lemma_done_run_shape(Phase::Fetching, events);
    assert(stages_from(Phase::Cleaning) =~= seq![PipelineEvent::Cleaned]);
    assert(stages_from(Phase::Applying) =~= seq![PipelineEvent::Applied, PipelineEvent::Cleaned]);
    assert(stages_from(Phase::Converting) =~= seq![
        PipelineEvent::Converted,
        PipelineEvent::Applied,
        PipelineEvent::Cleaned,
    ]);
    assert(stages_from(Phase::Saving) =~= seq![
        PipelineEvent::Saved,
        PipelineEvent::Converted,
        PipelineEvent::Applied,
        PipelineEvent::Cleaned,
    ]);
    assert(stages_from(Phase::Fetching) =~= seq![
        PipelineEvent::BodyAccepted,
        PipelineEvent::Saved,
        PipelineEvent::Converted,
        PipelineEvent::Applied,
        PipelineEvent::Cleaned,
    ]);
}

proof fn lemma_done_run_shape(p: Phase, events: Seq<PipelineEvent>)
    requires
        phase_run(p, events) == Phase::Done,
        forall|i: int|
            0 <= i < events.len() ==> event_fits(phase_run(p, events.take(i)), #[trigger] events[i]),
    ensures
        events =~= stages_from(p),
    decreases events.len(),
{
    if p == Phase::Done {
        if events.len() > 0 {
            assert(events.take(0) =~= Seq::<PipelineEvent>::empty());
            assert(event_fits(p, events[0]));
            assert(false);
        }
    } else {
        assert(events.len() > 0) by {
            if events.len() == 0 {
                assert(phase_run(p, events) == p);
            }
        }
        assert(events.take(0) =~= Seq::<PipelineEvent>::empty());
        assert(event_fits(p, events[0]));
        let q = phase_after(p, events[0]);
        let rest = events.skip(1);
        assert(phase_run(p, events) == phase_run(q, rest));
        assert forall|i: int| 0 <= i < rest.len() implies event_fits(
            phase_run(q, rest.take(i)),
            #[trigger] rest[i],
        ) by {
            assert(rest[i] == events[i + 1]);
            assert(events.take(i + 1)[0] == events[0]);
            assert(events.take(i + 1).skip(1) =~= rest.take(i));
            assert(phase_run(p, events.take(i + 1)) == phase_run(q, rest.take(i)));
        }
        lemma_done_run_shape(q, rest);
        if q matches Phase::Failed(_) {
            assert(rest.len() == stages_from(q).len());
            assert(phase_run(q, rest) == q);
            assert(false);
        }
        assert(events =~= seq![events[0]] + rest);
    }
}

/// The outcomes still ahead of a phase on the straight path to `Done`.
pub open spec fn stages_from(p: Phase) -> Seq<PipelineEvent>
    decreases wellformed_distance(p),
{
    match p {
        Phase::Fetching => seq![PipelineEvent::BodyAccepted] + stages_from(Phase::Saving),
        Phase::Saving => seq![PipelineEvent::Saved] + stages_from(Phase::Converting),
        Phase::Converting => seq![PipelineEvent::Converted] + stages_from(Phase::Applying),
        Phase::Applying => seq![PipelineEvent::Applied] + stages_from(Phase::Cleaning),
        Phase::Cleaning => seq![PipelineEvent::Cleaned],
        Phase::Done => Seq::empty(),
        Phase::Failed(_) => Seq::empty(),
    }
}

/// How many stages a phase still has ahead of it.
pub open spec fn wellformed_distance(p: Phase) -> nat {
    match p {
        Phase::Fetching => 5,
        Phase::Saving => 4,
        Phase::Converting => 3,
        Phase::Applying => 2,
        Phase::Cleaning => 1,
        Phase::Done => 0,
        Phase::Failed(_) => 0,
    }
}

} // verus!
