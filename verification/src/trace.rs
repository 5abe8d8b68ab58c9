use vstd::prelude::*;
use crate::error::ErrorView;
use crate::install::{
    fits, fresh_install, idle_step, next, silent, ActionView, EventView, InstallStage,
    InstallerView, StepView,
};
use crate::progress::{
    complete_report, downloading_report, extracting_report, starting_report, DownloadProgress,
};
use crate::version_store::{
    installed_version_of, lemma_written_record_reads_back, version_record_of, RecordView,
};

verus! {

/// The install after it has taken in a run of events, one after the
/// other.
pub open spec fn state_after(state: InstallerView, events: Seq<EventView>) -> InstallerView
    decreases events.len(),
{
    if events.len() == 0 {
        state
    } else {
        next(state_after(state, events.drop_last()), events.last()).0
    }
}

/// The steps that the install takes on a run of events: one for each
/// event, taken from the state that the events before it have led to.
pub open spec fn steps_of(state: InstallerView, events: Seq<EventView>) -> Seq<StepView> {
    Seq::new(events.len(), |at: int| next(state_after(state, events.take(at)), events[at]).1)
}

/// Every event of the run can be taken in when its turn comes.
pub open spec fn run_fits(state: InstallerView, events: Seq<EventView>) -> bool {
    forall|at: int|
        0 <= at < events.len() ==> fits(
            #[trigger] state_after(state, events.take(at)),
            events[at],
        )
}

/// The reports among the steps, in their order.
pub open spec fn reports_of(steps: Seq<StepView>) -> Seq<DownloadProgress>
    decreases steps.len(),
{
    if steps.len() == 0 {
        Seq::empty()
    } else {
        match steps.last().report {
            Some(report) => reports_of(steps.drop_last()).push(report),
            None => reports_of(steps.drop_last()),
        }
    }
}

/// The bytes that the chunks hold together.
pub open spec fn total_of(chunks: Seq<u64>) -> int
    decreases chunks.len(),
{
    if chunks.len() == 0 {
        0
    } else {
        total_of(chunks.drop_last()) + chunks.last()
    }
}

/// What the server's declaration makes the total: 0 where it declared no
/// length.
pub open spec fn declared_total(declared: Option<u64>) -> u64 {
    match declared {
        Some(length) => length,
        None => 0,
    }
}

/// The events of an install in which every action succeeds: the server
/// declares `declared`, and the archive arrives in chunks of the given
/// lengths.
pub open spec fn successful_events(declared: Option<u64>, chunks: Seq<u64>) -> Seq<EventView> {
    seq![EventView::Begin, EventView::Done, EventView::ResponseStarted(declared), EventView::Done]
        + chunks.map_values(|length: u64| EventView::ChunkStored(length))
        + seq![EventView::StreamEnded, EventView::Done, EventView::Done, EventView::Done]
}

/// The state of an install after the first `taken` events of a run in
/// which every action succeeds.
spec fn successful_state(
    version: Seq<char>,
    download_url: Seq<char>,
    declared: Option<u64>,
    chunks: Seq<u64>,
    taken: int,
) -> InstallerView {
    let fresh = fresh_install(version, download_url);
    let known = InstallerView { total_bytes: declared_total(declared), ..fresh };
    let stored = InstallerView { downloaded_bytes: total_of(chunks) as u64, ..known };
    if taken <= 0 {
        fresh
    } else if taken == 1 {
        fresh.at(InstallStage::CreatingDirectory)
    } else if taken == 2 {
        fresh.at(InstallStage::Requesting)
    } else if taken == 3 {
        known.at(InstallStage::CreatingArchive)
    } else if taken <= 4 + chunks.len() {
        InstallerView {
            stage: InstallStage::Transferring,
            downloaded_bytes: total_of(chunks.take(taken - 4)) as u64,
            ..known
        }
    } else if taken == 5 + chunks.len() {
        stored.at(InstallStage::Extracting)
    } else if taken == 6 + chunks.len() {
        stored.at(InstallStage::RemovingArchive)
    } else if taken == 7 + chunks.len() {
        stored.at(InstallStage::RecordingVersion)
    } else {
        stored.at(InstallStage::Complete)
    }
}

/// The steps of an install in which every action succeeds: the actions
/// in the one order there is, the version record after the extraction and
/// the removal of the archive, and a report at the start, after each
/// chunk, before the extraction and at the end.
pub open spec fn successful_steps(
    version: Seq<char>,
    download_url: Seq<char>,
    declared: Option<u64>,
    chunks: Seq<u64>,
) -> Seq<StepView> {
    let total = declared_total(declared);
    seq![
        StepView { report: Some(starting_report()), action: ActionView::CreateInstallDir },
        silent(ActionView::RequestArchive(download_url)),
        silent(ActionView::CreateTempArchive),
        silent(ActionView::TransferChunk),
    ] + Seq::new(
        chunks.len(),
        |at: int|
            StepView {
                report: Some(downloading_report(total_of(chunks.take(at + 1)) as u64, total)),
                action: ActionView::TransferChunk,
            },
    ) + seq![
        StepView { report: Some(extracting_report(total)), action: ActionView::ExtractArchive },
        silent(ActionView::RemoveTempArchive),
        silent(ActionView::WriteVersionRecord(version)),
        StepView { report: Some(complete_report(total)), action: ActionView::Finished },
    ]
}

/// The reports of an install in which every action succeeds.
pub open spec fn progress_trail(total: u64, chunks: Seq<u64>) -> Seq<DownloadProgress> {
    seq![starting_report()] + Seq::new(
        chunks.len(),
        |at: int| downloading_report(total_of(chunks.take(at + 1)) as u64, total),
    ) + seq![extracting_report(total), complete_report(total)]
}

/// The archive has been unpacked, and nothing has failed since.
spec fn has_extracted(stage: InstallStage) -> bool {
    stage is RemovingArchive || stage is RecordingVersion || stage is Complete
}

/// Taking in one run of events and then another is taking in the two as
/// one run.
pub proof fn lemma_state_after_append(
    state: InstallerView,
    first: Seq<EventView>,
    second: Seq<EventView>,
)
    ensures
        state_after(state, first + second) == state_after(state_after(state, first), second),
    decreases second.len(),
{
    if second.len() > 0 {
        lemma_state_after_append(state, first, second.drop_last());
        assert((first + second).drop_last() =~= first + second.drop_last());
    }
}

/// The step at a position is the one taken from the state that the events
/// before it have led to.
pub proof fn lemma_state_after_next(state: InstallerView, events: Seq<EventView>, at: int)
    requires
        0 <= at < events.len(),
    ensures
        state_after(state, events.take(at + 1)) == next(
            state_after(state, events.take(at)),
            events[at],
        ).0,
        steps_of(state, events)[at] == next(state_after(state, events.take(at)), events[at]).1,
{
    assert(events.take(at + 1).drop_last() =~= events.take(at));
}

proof fn lemma_prefix_totals(chunks: Seq<u64>, shorter: int, longer: int)
    requires
        0 <= shorter <= longer <= chunks.len(),
    ensures
        0 <= total_of(chunks.take(shorter)) <= total_of(chunks.take(longer)),
        longer < chunks.len() ==> total_of(chunks.take(longer + 1)) == total_of(
            chunks.take(longer),
        ) + chunks[longer],
        total_of(chunks.take(chunks.len() as int)) == total_of(chunks),
    decreases longer,
{
    assert(chunks.take(chunks.len() as int) =~= chunks);
    if longer < chunks.len() {
        assert(chunks.take(longer + 1).drop_last() =~= chunks.take(longer));
    }
    if shorter < longer {
        lemma_prefix_totals(chunks, shorter, longer - 1);
    } else if shorter > 0 {
        lemma_prefix_totals(chunks, shorter - 1, shorter - 1);
    }
}

/// An install that is complete or has failed stays as it is, whatever it
/// is told, and asks for nothing more: there is no retry and no resume.
pub proof fn lemma_final_stage_stays(state: InstallerView, events: Seq<EventView>)
    requires
        state.stage is Complete || state.stage is Failed,
    ensures
        state_after(state, events) == state,
        forall|at: int| 0 <= at < events.len() ==> steps_of(state, events)[at] == idle_step(),
    decreases events.len(),
{
    if events.len() > 0 {
        lemma_final_stage_stays(state, events.drop_last());
    }
    assert forall|at: int| 0 <= at < events.len() implies steps_of(state, events)[at]
        == idle_step() by {
        lemma_final_stage_stays(state, events.take(at));
    }
}

/// A failure that reaches an install at work ends it: the install reports
/// the error, and whatever it is told afterwards, it asks for nothing more.
/// In particular it never asks for the version record to be written.
pub proof fn lemma_failure_ends_install(
    state: InstallerView,
    failure: EventView,
    later: Seq<EventView>,
)
    requires
        state.stage.is_pending(),
        failure is NetworkFailed || failure is DiskFailed,
    ensures
        next(state, failure).0 == state.at(InstallStage::Failed),
        next(state, failure).1.report is None,
        next(state, failure).1.action == ActionView::Failed(
            match failure {
                EventView::NetworkFailed(cause) => ErrorView::Network(cause),
                _ => ErrorView::Filesystem(failure->DiskFailed_0),
            },
        ),
        state_after(next(state, failure).0, later) == state.at(InstallStage::Failed),
        forall|at: int|
            0 <= at < later.len() ==> steps_of(next(state, failure).0, later)[at] == idle_step(),
{
    lemma_final_stage_stays(next(state, failure).0, later);
}

proof fn lemma_extraction_precedes(state: InstallerView, events: Seq<EventView>)
    requires
        !has_extracted(state.stage),
        has_extracted(state_after(state, events).stage),
    ensures
        exists|at: int|
            0 <= at < events.len() && (#[trigger] state_after(state, events.take(at))).stage
                is Extracting && events[at] is Done,
    decreases events.len(),
{
    if events.len() > 0 {
        let before = events.drop_last();
        if has_extracted(state_after(state, before).stage) {
            lemma_extraction_precedes(state, before);
            let at = choose|at: int|
                0 <= at < before.len() && (#[trigger] state_after(state, before.take(at))).stage
                    is Extracting && before[at] is Done;
            assert(before.take(at) =~= events.take(at));
        } else {
            assert(events.take(events.len() - 1) =~= before);
        }
    }
}

/// The version record is never written before its time. Whatever an
/// install is told from its beginning on, where a step asks for the
/// version record to be written, the version is the one that the install
/// was set up for, the event taken in is the success of the archive's
/// removal, an earlier event was the success of the extraction, and no
/// step up to there has reported a failure.
pub proof fn lemma_record_follows_extraction(
    version: Seq<char>,
    download_url: Seq<char>,
    events: Seq<EventView>,
    at: int,
)
    requires
        0 <= at < events.len(),
        steps_of(fresh_install(version, download_url), events)[at].action is WriteVersionRecord,
    ensures
        steps_of(fresh_install(version, download_url), events)[at].action
            == ActionView::WriteVersionRecord(version),
        events[at] is Done,
        state_after(fresh_install(version, download_url), events.take(at)).stage is RemovingArchive,
        exists|earlier: int|
            0 <= earlier < at && (#[trigger] state_after(
                fresh_install(version, download_url),
                events.take(earlier),
            )).stage is Extracting && events[earlier] is Done,
        forall|before: int|
            0 <= before <= at ==> !(steps_of(
                fresh_install(version, download_url),
                events,
            )[before].action is Failed),
{
    let fresh = fresh_install(version, download_url);
    lemma_state_after_next(fresh, events, at);
    lemma_identity_kept(fresh, events.take(at));
    lemma_extraction_precedes(fresh, events.take(at));
    let earlier = choose|earlier: int|
        0 <= earlier < at && (#[trigger] state_after(fresh, events.take(at).take(earlier))).stage
            is Extracting && events.take(at)[earlier] is Done;
    assert(events.take(at).take(earlier) =~= events.take(earlier));
    assert forall|before: int| 0 <= before <= at implies !(steps_of(fresh, events)[before].action
        is Failed) by {
        if before < at && steps_of(fresh, events)[before].action is Failed {
            lemma_state_after_next(fresh, events, before);
            let failed = state_after(fresh, events.take(before + 1));
            let rest = events.subrange(before + 1, at);
            assert(events.take(at) =~= events.take(before + 1) + rest);
            lemma_state_after_append(fresh, events.take(before + 1), rest);
            lemma_final_stage_stays(failed, rest);
        }
    }
}

/// An install keeps its version and its address through everything.
pub proof fn lemma_identity_kept(state: InstallerView, events: Seq<EventView>)
    ensures
        state_after(state, events).version == state.version,
        state_after(state, events).download_url == state.download_url,
    decreases events.len(),
{
    if events.len() > 0 {
        lemma_identity_kept(state, events.drop_last());
    }
}

proof fn lemma_successful_state(
    version: Seq<char>,
    download_url: Seq<char>,
    declared: Option<u64>,
    chunks: Seq<u64>,
    taken: int,
)
    requires
        total_of(chunks) <= u64::MAX,
        0 <= taken <= chunks.len() + 8,
    ensures
        state_after(
            fresh_install(version, download_url),
            successful_events(declared, chunks).take(taken),
        ) == successful_state(version, download_url, declared, chunks, taken),
    decreases taken,
{
    let fresh = fresh_install(version, download_url);
    let events = successful_events(declared, chunks);
    if taken > 0 {
        lemma_successful_state(version, download_url, declared, chunks, taken - 1);
        lemma_state_after_next(fresh, events, taken - 1);
        lemma_prefix_totals(chunks, 0, chunks.len() as int);
        if 4 < taken <= 4 + chunks.len() {
            lemma_prefix_totals(chunks, taken - 5, taken - 5);
            lemma_prefix_totals(chunks, taken - 4, chunks.len() as int);
        }
    }
}

proof fn lemma_reports_append(first: Seq<StepView>, second: Seq<StepView>)
    ensures
        reports_of(first + second) == reports_of(first) + reports_of(second),
    decreases second.len(),
{
    if second.len() > 0 {
        lemma_reports_append(first, second.drop_last());
        assert((first + second).drop_last() =~= first + second.drop_last());
    }
}

proof fn lemma_reports_of_reporting_steps(steps: Seq<StepView>)
    requires
        forall|at: int| 0 <= at < steps.len() ==> steps[at].report is Some,
    ensures
        reports_of(steps) == Seq::new(steps.len(), |at: int| steps[at].report->0),
    decreases steps.len(),
{
    if steps.len() > 0 {
        lemma_reports_of_reporting_steps(steps.drop_last());
    }
}

proof fn lemma_reports_of_successful_steps(
    version: Seq<char>,
    download_url: Seq<char>,
    declared: Option<u64>,
    chunks: Seq<u64>,
)
    ensures
        reports_of(successful_steps(version, download_url, declared, chunks)) == progress_trail(
            declared_total(declared),
            chunks,
        ),
{
    let total = declared_total(declared);
    let head = seq![
        StepView { report: Some(starting_report()), action: ActionView::CreateInstallDir },
        silent(ActionView::RequestArchive(download_url)),
        silent(ActionView::CreateTempArchive),
        silent(ActionView::TransferChunk),
    ];
    let body = Seq::new(
        chunks.len(),
        |at: int|
            StepView {
                report: Some(downloading_report(total_of(chunks.take(at + 1)) as u64, total)),
                action: ActionView::TransferChunk,
            },
    );
    let tail = seq![
        StepView { report: Some(extracting_report(total)), action: ActionView::ExtractArchive },
        silent(ActionView::RemoveTempArchive),
        silent(ActionView::WriteVersionRecord(version)),
        StepView { report: Some(complete_report(total)), action: ActionView::Finished },
    ];
    assert(reports_of(head) =~= seq![starting_report()]) by {
        reveal_with_fuel(reports_of, 5);
    }
    assert(reports_of(tail) =~= seq![extracting_report(total), complete_report(total)]) by {
        reveal_with_fuel(reports_of, 5);
    }
    lemma_reports_of_reporting_steps(body);
    lemma_reports_append(head, body);
    lemma_reports_append(head + body, tail);
}

/// The run of an install in which every action succeeds. Each event can
/// be taken in; the install asks for its actions in the one order there
/// is, the version record of the version it was set up for after the
/// extraction and the removal of the archive; it makes the reports of
/// [`progress_trail`]; and it ends complete, with every byte counted.
pub proof fn lemma_successful_install(
    version: Seq<char>,
    download_url: Seq<char>,
    declared: Option<u64>,
    chunks: Seq<u64>,
)
    requires
        total_of(chunks) <= u64::MAX,
    ensures
        run_fits(fresh_install(version, download_url), successful_events(declared, chunks)),
        steps_of(fresh_install(version, download_url), successful_events(declared, chunks))
            == successful_steps(version, download_url, declared, chunks),
        reports_of(
            steps_of(fresh_install(version, download_url), successful_events(declared, chunks)),
        ) == progress_trail(declared_total(declared), chunks),
        state_after(fresh_install(version, download_url), successful_events(declared, chunks))
            == (InstallerView {
            version,
            download_url,
            stage: InstallStage::Complete,
            total_bytes: declared_total(declared),
            downloaded_bytes: total_of(chunks) as u64,
        }),
{
    let fresh = fresh_install(version, download_url);
    let events = successful_events(declared, chunks);
    let steps = steps_of(fresh, events);
    let expected = successful_steps(version, download_url, declared, chunks);
    lemma_prefix_totals(chunks, 0, chunks.len() as int);
    assert forall|at: int| 0 <= at < events.len() implies fits(
        #[trigger] state_after(fresh, events.take(at)),
        events[at],
    ) && steps[at] == expected[at] by {
        lemma_successful_state(version, download_url, declared, chunks, at);
        if 4 <= at < 4 + chunks.len() {
            lemma_prefix_totals(chunks, at - 4, at - 4);
            lemma_prefix_totals(chunks, at - 3, chunks.len() as int);
        }
    }
    assert(steps =~= expected);
    lemma_reports_of_successful_steps(version, download_url, declared, chunks);
    lemma_successful_state(version, download_url, declared, chunks, events.len() as int);
    assert(events.take(events.len() as int) =~= events);
}

/// The reports of a download whose length is known and is met: the
/// counts of stored bytes never fall from one report to the next, and the
/// last report is the one of completion, with every byte stored and the
/// percentage at 100.
pub proof fn lemma_progress_of_complete_download(
    version: Seq<char>,
    download_url: Seq<char>,
    total: u64,
    chunks: Seq<u64>,
)
    requires
        total > 0,
        total_of(chunks) == total,
    ensures
        ({
            let reports = reports_of(
                steps_of(
                    fresh_install(version, download_url),
                    successful_events(Some(total), chunks),
                ),
            );
            &&& reports.len() == chunks.len() + 3
            &&& forall|earlier: int, later: int|
                0 <= earlier <= later < reports.len() ==> reports[earlier].downloaded_bytes
                    <= reports[later].downloaded_bytes
            &&& forall|at: int| 0 <= at < reports.len() ==> reports[at].percentage.wf()
            &&& reports.last().status is Complete
            &&& reports.last().downloaded_bytes == total
            &&& reports.last().total_bytes == total
            &&& reports.last().percentage.is_full()
        }),
{
    lemma_successful_install(version, download_url, Some(total), chunks);
    let reports = progress_trail(total, chunks);
    assert forall|earlier: int, later: int| 0 <= earlier <= later < reports.len() implies
        reports[earlier].downloaded_bytes <= reports[later].downloaded_bytes by {
        lemma_prefix_totals(chunks, 0, chunks.len() as int);
        if 1 <= earlier <= chunks.len() {
            if later <= chunks.len() {
                lemma_prefix_totals(chunks, earlier, later);
                lemma_prefix_totals(chunks, later, chunks.len() as int);
            } else {
                lemma_prefix_totals(chunks, earlier, chunks.len() as int);
            }
        } else if 1 <= later <= chunks.len() {
            lemma_prefix_totals(chunks, 0, later);
            lemma_prefix_totals(chunks, later, chunks.len() as int);
        }
    }
}

/// No event of the run declares a length for the archive.
pub open spec fn no_length_declared(events: Seq<EventView>) -> bool {
    forall|at: int|
        0 <= at < events.len() ==> match #[trigger] events[at] {
            EventView::ResponseStarted(declared) => declared_total(declared) == 0,
            _ => true,
        }
}

proof fn lemma_total_stays_unknown(state: InstallerView, events: Seq<EventView>)
    requires
        state.total_bytes == 0,
        no_length_declared(events),
    ensures
        state_after(state, events).total_bytes == 0,
    decreases events.len(),
{
    if events.len() > 0 {
        let before = events.drop_last();
        assert forall|at: int| 0 <= at < before.len() implies match #[trigger] before[at] {
            EventView::ResponseStarted(declared) => declared_total(declared) == 0,
            _ => true,
        } by {
            assert(before[at] == events[at]);
        }
        lemma_total_stays_unknown(state, before);
    }
}

/// While the length of the download is not known, every report made at
/// the start or during the download shows 0 percent, however many bytes
/// are stored. (The reports of the extraction and of completion show 100
/// percent in any case.)
pub proof fn lemma_unknown_length_reports_zero(
    state: InstallerView,
    events: Seq<EventView>,
    at: int,
)
    requires
        state.total_bytes == 0,
        no_length_declared(events),
        0 <= at < events.len(),
        steps_of(state, events)[at].report is Some,
        steps_of(state, events)[at].report->0.status is Starting || steps_of(
            state,
            events,
        )[at].report->0.status is Downloading,
    ensures
        steps_of(state, events)[at].report->0.percentage.is_zero(),
        steps_of(state, events)[at].report->0.total_bytes == 0,
{
    let before = events.take(at);
    assert forall|k: int| 0 <= k < before.len() implies match #[trigger] before[k] {
        EventView::ResponseStarted(declared) => declared_total(declared) == 0,
        _ => true,
    } by {
        assert(before[k] == events[k]);
    }
    lemma_total_stays_unknown(state, before);
}

proof fn lemma_stored_count_grows(
    state: InstallerView,
    events: Seq<EventView>,
    shorter: int,
    longer: int,
)
    requires
        run_fits(state, events),
        0 <= shorter <= longer <= events.len(),
    ensures
        state_after(state, events.take(shorter)).downloaded_bytes <= state_after(
            state,
            events.take(longer),
        ).downloaded_bytes,
    decreases longer - shorter,
{
    if shorter < longer {
        lemma_stored_count_grows(state, events, shorter, longer - 1);
        lemma_state_after_next(state, events, longer - 1);
    }
}

/// Whatever an install is told, the count of stored bytes never falls
/// from one report of the download to a later one.
pub proof fn lemma_download_reports_never_fall(
    state: InstallerView,
    events: Seq<EventView>,
    earlier: int,
    later: int,
)
    requires
        run_fits(state, events),
        0 <= earlier <= later < events.len(),
        steps_of(state, events)[earlier].report is Some,
        steps_of(state, events)[earlier].report->0.status is Downloading,
        steps_of(state, events)[later].report is Some,
        steps_of(state, events)[later].report->0.status is Downloading,
    ensures
        steps_of(state, events)[earlier].report->0.downloaded_bytes <= steps_of(
            state,
            events,
        )[later].report->0.downloaded_bytes,
{
    lemma_state_after_next(state, events, earlier);
    lemma_state_after_next(state, events, later);
    lemma_stored_count_grows(state, events, earlier + 1, later + 1);
}

/// The place of a stage in the order of an install; a failed install
/// stands behind all others.
pub open spec fn stage_rank(stage: InstallStage) -> nat {
    match stage {
        InstallStage::Idle => 0,
        InstallStage::CreatingDirectory => 1,
        InstallStage::Requesting => 2,
        InstallStage::CreatingArchive => 3,
        InstallStage::Transferring => 4,
        InstallStage::Extracting => 5,
        InstallStage::RemovingArchive => 6,
        InstallStage::RecordingVersion => 7,
        InstallStage::Complete => 8,
        InstallStage::Failed => 9,
    }
}

/// An install never goes back: whatever it is told, it stays at its stage,
/// moves on to the next one, or fails. And every report that it makes
/// carries a percentage that has a value.
pub proof fn lemma_install_only_advances(state: InstallerView, event: EventView)
    ensures
        ({
            let after = next(state, event).0.stage;
            ||| after == state.stage
            ||| stage_rank(after) == stage_rank(state.stage) + 1 && !(after is Failed)
            ||| after is Failed && state.stage.is_pending()
        }),
        next(state, event).1.report is Some ==> next(state, event).1.report->0.percentage.wf(),
{
}

/// Over a run of events the stages of an install stand in their order.
pub proof fn lemma_stages_in_order(
    state: InstallerView,
    events: Seq<EventView>,
    shorter: int,
    longer: int,
)
    requires
        0 <= shorter <= longer <= events.len(),
    ensures
        stage_rank(state_after(state, events.take(shorter)).stage) <= stage_rank(
            state_after(state, events.take(longer)).stage,
        ),
    decreases longer - shorter,
{
    if shorter < longer {
        lemma_stages_in_order(state, events, shorter, longer - 1);
        lemma_state_after_next(state, events, longer - 1);
        lemma_install_only_advances(
            state_after(state, events.take(longer - 1)),
            events[longer - 1],
        );
    }
}

/// After an install in which every action succeeds, the installed version
/// is the one that was asked for. The install asks for the archive to be
/// removed and, right after, for the record of that very version to be
/// written; and a record that was written for a version reads back as
/// that version.
pub proof fn lemma_install_leaves_its_version(
    version: Seq<char>,
    download_url: Seq<char>,
    declared: Option<u64>,
    chunks: Seq<u64>,
    installed_at: Seq<char>,
)
    requires
        total_of(chunks) <= u64::MAX,
        version_record_of(version, installed_at) is Ok,
    ensures
        ({
            let steps = steps_of(
                fresh_install(version, download_url),
                successful_events(declared, chunks),
            );
            let sent = chunks.len() as int;
            &&& steps.len() == sent + 8
            &&& steps[sent + 5].action == ActionView::RemoveTempArchive
            &&& steps[sent + 6].action == ActionView::WriteVersionRecord(version)
            &&& steps[sent + 7].action == ActionView::Finished
        }),
        installed_version_of(RecordView::Content(version_record_of(version, installed_at)->Ok_0))
            == Ok::<Option<Seq<char>>, ErrorView>(Some(version)),
{
    lemma_successful_install(version, download_url, declared, chunks);
    lemma_written_record_reads_back(version, installed_at);
}

} // verus!
