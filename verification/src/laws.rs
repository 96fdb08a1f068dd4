//! What holds of every batch, proved of the model that the scheduler
//! follows. A batch starts in `BatchModel::initial`, which is well formed,
//! and each step of the scheduler keeps it so: what is proved here of a
//! well-formed batch holds at every moment of every batch, and the last
//! laws say so of every run of steps.
use crate::batch::ProgressView;
use crate::codec::{container_of, fills_buffer, frame_of, jpeg_of};
use crate::converter::{
    avif_requested, converted, saved, webp_requested, written_as, ConversionOptions,
    EncodingView, SupportedFormat,
};
use crate::error::{ConversionError, ErrorView};
use image::DynamicImage;
use crate::model::{
    event_agrees, in_flight, job_recorded, lemma_contains_push, lemma_end_wf, lemma_initial_wf,
    lemma_none_running, lemma_occurrences_cover, lemma_occurrences_none,
    lemma_occurrences_prefix, lemma_occurrences_push, lemma_run_wf, lemma_running_counts,
    occurrences, BatchModel, Emission, EventKind, JobState, Step,
};
use crate::progress::Tally;
use crate::scheduler::terminal_view;
use vstd::prelude::*;

verus! {

/// When the summary is out, the `Completed` and `Failed` events together
/// are as many as the jobs submitted, there is exactly one `Finished`
/// event, and its two counts add up to that same number.
pub proof fn lemma_summary_accounts_for_every_job(model: BatchModel)
    requires
        model.wf(),
        model.finished,
    ensures
        occurrences(model.trace, EventKind::Completed) + occurrences(
            model.trace,
            EventKind::Failed,
        ) == model.total(),
        occurrences(model.trace, EventKind::Finished) == 1,
        model.trace.last() == (Emission::Finished {
            successful: model.successful,
            failed: model.failed,
        }),
        model.successful + model.failed == model.total(),
{
}

/// Before the summary is out there is no `Finished` event, and at no time
/// are there more `Completed` and `Failed` events than jobs.
pub proof fn lemma_no_summary_before_the_end(model: BatchModel)
    requires
        model.wf(),
    ensures
        !model.finished ==> occurrences(model.trace, EventKind::Finished) == 0,
        occurrences(model.trace, EventKind::Completed) + occurrences(
            model.trace,
            EventKind::Failed,
        ) <= model.total(),
        model.finished <==> model.decision() is Done,
{
}

/// A `Finished` event is the last of the trace: every `Completed` and
/// `Failed` event stands before it, and nothing stands after it.
pub proof fn lemma_summary_comes_last(model: BatchModel, position: int)
    requires
        model.wf(),
        0 <= position < model.trace.len(),
        model.trace[position] is Finished,
    ensures
        position == model.trace.len() - 1,
        forall|p: int|
            0 <= p < model.trace.len() && (#[trigger] model.trace[p]).is_terminal() ==> p
                < position,
{
    assert forall|p: int|
        0 <= p < model.trace.len() && (#[trigger] model.trace[p]).is_terminal() implies p
        < position by {
        assert(model.trace[p] != model.trace[position]);
    }
}

/// When the summary is out, every job has its `Completed` or its `Failed`
/// event in the trace before the summary.
pub proof fn lemma_every_job_ends_before_the_summary(model: BatchModel, job: nat)
    requires
        model.wf(),
        model.finished,
        job < model.total(),
    ensures
        model.trace.drop_last().contains(Emission::Completed { job })
            || model.trace.drop_last().contains(Emission::Failed { job }),
{
    let state = model.states[job as int];
    assert(job_recorded(model.trace, job as int, state));
    if state == JobState::Running {
        lemma_running_counts(model.states, job as int);
    }
    let event = if state == JobState::Succeeded {
        Emission::Completed { job }
    } else {
        Emission::Failed { job }
    };
    assert(model.trace.contains(event));
    assert(model.trace.drop_last().push(model.trace.last()) =~= model.trace);
    lemma_contains_push(model.trace.drop_last(), model.trace.last(), event);
}

/// A batch without jobs starts nothing: the first step is the summary,
/// with both counts zero, and it is the only event there ever is.
pub proof fn lemma_empty_batch_only_finishes(limit: nat)
    ensures
        BatchModel::initial(0, limit).decision() is Finish,
        BatchModel::initial(0, limit).finish().trace == seq![
            Emission::Finished { successful: 0, failed: 0 },
        ],
        BatchModel::initial(0, limit).finish().decision() is Done,
{
    let model = BatchModel::initial(0, limit);
    lemma_initial_wf(0, limit);
    lemma_none_running(model.states);
    assert(model.finish().trace =~= seq![Emission::Finished { successful: 0, failed: 0 }]);
}

/// At no point of a batch are more jobs under way than the limit allows:
/// after each event of the trace, the jobs that have reported `Processing`
/// and not yet `Completed` or `Failed` are at most `limit`, and they are
/// the jobs that hold a permit.
pub proof fn lemma_concurrency_is_bounded(model: BatchModel, events: int)
    requires
        model.wf(),
        0 <= events <= model.trace.len(),
    ensures
        in_flight(model.trace.take(events)) <= model.limit,
        in_flight(model.trace) == model.running(),
        model.running() <= model.limit,
{
}

/// A job starts only while a permit is free, and the jobs start in the
/// order of submission.
pub proof fn lemma_start_needs_a_permit(model: BatchModel)
    requires
        model.wf(),
        model.decision() is Start,
    ensures
        model.running() < model.limit,
        model.decision()->job == model.dispatched,
        model.states[model.dispatched as int] == JobState::Pending,
{
}

/// The `Completed` or `Failed` event of a job stands after its
/// `Processing` event.
pub proof fn lemma_processing_comes_first(model: BatchModel, position: int) -> (earlier: int)
    requires
        model.wf(),
        0 <= position < model.trace.len(),
        model.trace[position].is_terminal(),
    ensures
        0 <= earlier < position,
        model.trace[earlier] == (Emission::Processing { job: model.trace[position].job() }),
{
    let needle = Emission::Processing { job: model.trace[position].job() };
    let prefix = model.trace.take(position);
    assert(prefix.contains(needle));
    let earlier = choose|i: int| 0 <= i < prefix.len() && prefix[i] == needle;
    earlier
}

/// No event is emitted twice: a job reports `Processing` once, ends once,
/// and the summary comes once.
pub proof fn lemma_no_event_twice(model: BatchModel, first: int, second: int)
    requires
        model.wf(),
        0 <= first < model.trace.len(),
        0 <= second < model.trace.len(),
        model.trace[first] == model.trace[second],
    ensures
        first == second,
{
}

/// A job does not both complete and fail.
pub proof fn lemma_one_end_per_job(model: BatchModel, job: nat)
    requires
        model.wf(),
    ensures
        !(model.trace.contains(Emission::Completed { job }) && model.trace.contains(
            Emission::Failed { job },
        )),
{
    if model.trace.contains(Emission::Completed { job }) && model.trace.contains(
        Emission::Failed { job },
    ) {
        let c = choose|i: int|
            0 <= i < model.trace.len() && model.trace[i] == (Emission::Completed { job });
        let f = choose|i: int|
            0 <= i < model.trace.len() && model.trace[i] == (Emission::Failed { job });
        assert(model.trace[c] is Completed);
        assert(model.trace[f] is Failed);
    }
}

/// The failure of one job is reported with a description that is not
/// empty, frees its permit as a success would, and leaves every other job
/// where it stood.
pub proof fn lemma_failure_stays_with_its_job(
    model: BatchModel,
    job: nat,
    other: nat,
    label: Seq<char>,
    error: ConversionError,
)
    requires
        model.wf(),
        model.can_end(job),
        other < model.total(),
        other != job,
    ensures
        terminal_view(label, Err(error)) matches ProgressView::Failed { file, error: text }
            && file == label && text.len() > 0,
        model.end(job, false).states[other as int] == model.states[other as int],
        model.end(job, false).running() == model.end(job, true).running(),
        model.end(job, false).running() == model.running() - 1,
        model.end(job, false).dispatched == model.dispatched,
        !model.end(job, false).finished,
        model.end(job, false).failed == model.failed + 1,
        model.end(job, false).successful == model.successful,
{
    lemma_end_wf(model, job, false);
    lemma_end_wf(model, job, true);
    assert(error.description_text().len() >= 2);
}

/// A batch with a limit above zero is never stuck: until the summary is
/// out, either a step can be taken or a job is running whose end will be
/// reported.
pub proof fn lemma_never_stuck(model: BatchModel)
    requires
        model.wf(),
        model.limit > 0,
        model.decision() is Wait,
    ensures
        model.running() > 0,
        exists|job: nat| model.can_end(job),
{
    if forall|i: int| 0 <= i < model.states.len() ==> model.states[i] != JobState::Running {
        lemma_none_running(model.states);
    }
    let i = choose|i: int| 0 <= i < model.states.len() && model.states[i] == JobState::Running;
    assert(model.can_end(i as nat));
}

/// Every step adds one event: the trace holds one `Processing` event for
/// each job handed off, one `Completed` or `Failed` event for each job
/// that has ended, and the summary once it is out. A finished batch of `n`
/// jobs has emitted `2n + 1` events.
pub proof fn lemma_trace_length(model: BatchModel)
    requires
        model.wf(),
    ensures
        occurrences(model.trace, EventKind::Processing) == model.dispatched,
        model.trace.len() == model.dispatched + model.successful + model.failed + if model.finished {
            1nat
        } else {
            0nat
        },
        model.trace.len() <= 2 * model.total() + 1,
        model.finished ==> model.trace.len() == 2 * model.total() + 1,
{
    lemma_occurrences_cover(model.trace);
}

/// For every batch, whatever its jobs, its limit and the order in which
/// its jobs end: once the summary is out, the `Completed` and `Failed`
/// events are as many as the jobs, the one `Finished` event is the last
/// event of all, and its counts add up to the number of jobs.
pub proof fn lemma_every_batch_is_accounted_for(total: nat, limit: nat, steps: Seq<Step>)
    requires
        BatchModel::initial(total, limit).admits(steps),
        BatchModel::initial(total, limit).run(steps).finished,
    ensures
        ({
            let end = BatchModel::initial(total, limit).run(steps);
            &&& occurrences(end.trace, EventKind::Completed) + occurrences(
                end.trace,
                EventKind::Failed,
            ) == total
            &&& occurrences(end.trace, EventKind::Finished) == 1
            &&& end.trace.last() == (Emission::Finished {
                successful: end.successful,
                failed: end.failed,
            })
            &&& end.successful + end.failed == total
            &&& steps.len() == 2 * total + 1
            &&& forall|p: int|
                0 <= p < end.trace.len() && (#[trigger] end.trace[p]).is_terminal() ==> p
                    < end.trace.len() - 1
        }),
{
    let start = BatchModel::initial(total, limit);
    let end = start.run(steps);
    lemma_initial_wf(total, limit);
    lemma_run_wf(start, steps);
    lemma_trace_length(end);
    lemma_summary_comes_last(end, end.trace.len() - 1);
}

/// For every batch, at every moment of it, the jobs under way are at most
/// as many as the limit: this holds after each event of every run.
pub proof fn lemma_every_batch_is_bounded(total: nat, limit: nat, steps: Seq<Step>, events: int)
    requires
        BatchModel::initial(total, limit).admits(steps),
        0 <= events <= steps.len(),
    ensures
        in_flight(BatchModel::initial(total, limit).run(steps).trace.take(events)) <= limit,
        BatchModel::initial(total, limit).run(steps).running() <= limit,
{
    lemma_initial_wf(total, limit);
    lemma_run_wf(BatchModel::initial(total, limit), steps);
}

/// The encoder is chosen by the target format of the options and by
/// nothing else: JPEG gets the JPEG encoder at the quality of the options,
/// each other container the encoder of its own format, and WebP and AVIF
/// the request to their encoder for the image as a frame.
pub proof fn lemma_format_chooses_the_encoder(
    options: ConversionOptions,
    threads: nat,
    image: DynamicImage,
)
    requires
        fills_buffer(image),
    ensures
        saved(options, threads, image) == match options.format {
            SupportedFormat::Jpeg => written_as(
                SupportedFormat::Jpeg,
                jpeg_of(image, options.quality),
            ),
            SupportedFormat::WebP => webp_requested(options.quality, frame_of(image)),
            SupportedFormat::Avif => avif_requested(options.quality, threads, frame_of(image)),
            format => written_as(format, container_of(image, format)),
        },
{
}

/// For PNG, GIF, BMP, TIFF and ICO the quality changes nothing: two
/// converters that differ in nothing but the quality make the same of an
/// image, bytes or failure.
pub proof fn lemma_lossless_containers_ignore_quality(
    first: ConversionOptions,
    second: ConversionOptions,
    threads: nat,
    image: DynamicImage,
)
    requires
        first.format == second.format,
        first.format != SupportedFormat::Jpeg,
        first.format != SupportedFormat::WebP,
        first.format != SupportedFormat::Avif,
    ensures
        saved(first, threads, image) == saved(second, threads, image),
{
}

/// A failure to load the source is the failure of the conversion, as it
/// is, whatever the target format: nothing is encoded.
pub proof fn lemma_load_failure_ends_the_conversion(
    options: ConversionOptions,
    threads: nat,
    error: ErrorView,
)
    ensures
        converted(options, threads, Err(error)) == Err::<
            EncodingView,
            ErrorView,
        >(error),
{
}

/// The WebP encoder is asked for every image that has pixels, whatever
/// the layout it was decoded into.
pub proof fn lemma_webp_takes_every_layout(
    options: ConversionOptions,
    threads: nat,
    image: DynamicImage,
)
    requires
        options.format == SupportedFormat::WebP,
        frame_of(image).wf(),
        frame_of(image).has_pixels(),
    ensures
        saved(options, threads, image) == Ok::<EncodingView, ErrorView>(
            EncodingView::WebP {
                frame: frame_of(image),
                quality: options.quality,
            },
        ),
{
}

/// Whether a progress event is the report of an emission of a trace.
pub open spec fn reports(event: ProgressView, emission: Emission) -> bool {
    match emission {
        Emission::Processing { .. } => event is Processing,
        Emission::Completed { .. } => event is Completed,
        Emission::Failed { .. } => event is Failed,
        Emission::Finished { successful, failed } => event == (ProgressView::Finished {
            successful,
            failed,
        }),
    }
}

/// What a consumer has counted after the first `seen` events of a batch.
proof fn lemma_tally_of_prefix(model: BatchModel, events: Seq<ProgressView>, seen: int)
    requires
        model.wf(),
        events.len() == model.trace.len(),
        forall|i: int| 0 <= i < events.len() ==> reports(#[trigger] events[i], model.trace[i]),
        0 <= seen <= events.len(),
    ensures
        ({
            let tally = Tally::start(model.total()).observe_all(events.take(seen));
            let trace = model.trace.take(seen);
            &&& tally.total == model.total()
            &&& tally.completed == occurrences(trace, EventKind::Completed) + occurrences(
                trace,
                EventKind::Failed,
            )
            &&& tally.failed == occurrences(trace, EventKind::Failed)
            &&& tally.summary == if occurrences(trace, EventKind::Finished) > 0 {
                Some((model.successful, model.failed))
            } else {
                None
            }
        }),
    decreases seen,
{
    if seen > 0 {
        let before = model.trace.take(seen - 1);
        let emission = model.trace[seen - 1];
        lemma_tally_of_prefix(model, events, seen - 1);
        assert(events.take(seen).drop_last() =~= events.take(seen - 1));
        assert(events.take(seen).last() == events[seen - 1]);
        assert(reports(events[seen - 1], emission));
        assert(model.trace.take(seen) =~= before.push(emission));
        lemma_occurrences_push(before, emission, EventKind::Completed);
        lemma_occurrences_push(before, emission, EventKind::Failed);
        lemma_occurrences_push(before, emission, EventKind::Finished);
        lemma_occurrences_prefix(model.trace, seen, EventKind::Completed);
        lemma_occurrences_prefix(model.trace, seen, EventKind::Failed);
        assert forall|i: int| 0 <= i < before.len() implies (#[trigger] before[i]).kind()
            != EventKind::Finished by {
            assert(event_agrees(model.trace[i], i, model));
        }
        lemma_occurrences_none(before, EventKind::Finished);
        assert(event_agrees(emission, seen - 1, model));
    }
}

/// A consumer that has seen every event of a finished batch, in order,
/// has counted every job as ended, as many failures as the summary names,
/// and holds the counts of the summary.
pub proof fn lemma_tally_matches_summary(model: BatchModel, events: Seq<ProgressView>)
    requires
        model.wf(),
        model.finished,
        events.len() == model.trace.len(),
        forall|i: int| 0 <= i < events.len() ==> reports(#[trigger] events[i], model.trace[i]),
    ensures
        Tally::start(model.total()).observe_all(events) == (Tally {
            total: model.total(),
            completed: model.total(),
            failed: model.failed,
            summary: Some((model.successful, model.failed)),
        }),
{
    lemma_tally_of_prefix(model, events, events.len() as int);
    assert(events.take(events.len() as int) =~= events);
    assert(model.trace.take(events.len() as int) =~= model.trace);
}

} // verus!
