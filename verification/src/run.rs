//! What holds of every run, whatever the caller reports.

use crate::certificate::ResolvedView;
use crate::error::{fatal, CertErrorView, ErrorKind};
use crate::naming::{certificate_path, full_chain_path};
use crate::params::DownloadParamsView;
use crate::persist::{
    files_keep_chain_positions, full_chain, planned_files, whole_chain_is_numbered, OutputFileView,
    PlannedFileView,
};
use crate::pipeline::{
    after, importing_from, initial, pending, reportable, well_formed, writing_from, written,
    ActionView, EventView, PipelineView, Stage,
};
use crate::truststore::CertificateFileView;
use vstd::prelude::*;

verus! {

/// The state of a run after a sequence of events, taken in their order.
pub open spec fn run(state: PipelineView, events: Seq<EventView>) -> PipelineView
    decreases events.len(),
{
    if events.len() == 0 {
        state
    } else {
        run(after(state, events[0]), events.drop_first())
    }
}

/// Whether every event of a sequence is one a caller can report.
pub open spec fn all_reportable(events: Seq<EventView>) -> bool {
    forall|i: int| 0 <= i < events.len() ==> reportable(#[trigger] events[i])
}

/// Whether a stage is one in which the run has ended.
pub open spec fn ended(stage: Stage) -> bool {
    stage == Stage::Done || stage == Stage::Failed
}

/// Whether an action changes anything on disk.
pub open spec fn touches_disk(action: ActionView) -> bool {
    action is CreateDirectory || action is WriteCertificate || action is WriteFullChain
        || action is ImportCertificate
}

/// Whether an action writes a certificate file or the full-chain file.
pub open spec fn writes_file(action: ActionView) -> bool {
    action is WriteCertificate || action is WriteFullChain
}

/// Whether an event tells how the write of a file went.
pub open spec fn write_report(event: EventView) -> bool {
    event is FileWritten || event is FileWriteFailed
}

/// Whether an event tells how an import into the trust store went.
pub open spec fn import_report(event: EventView) -> bool {
    event is ImportSucceeded || event is ImportFailed || event is ToolNotFound
}

/// An event takes a state a run can be in to a state a run can be in, and
/// never changes the parameters of the run.
pub proof fn step_keeps_well_formed(state: PipelineView, event: EventView)
    requires
        well_formed(state),
        reportable(event),
    ensures
        well_formed(after(state, event)),
        after(state, event).params == state.params,
{
    if state.stage == Stage::Connected {
        if let EventView::PeerChain(Some(outcomes)) = event {
            files_keep_chain_positions(state.params.output_dir, outcomes);
        }
    }
}

/// Running through one sequence of events and then another is running
/// through the two joined.
pub proof fn run_of_joined(state: PipelineView, first: Seq<EventView>, second: Seq<EventView>)
    ensures
        run(state, first + second) == run(run(state, first), second),
    decreases first.len(),
{
    if first.len() > 0 {
        assert((first + second).drop_first() =~= first.drop_first() + second);
        run_of_joined(after(state, first[0]), first.drop_first(), second);
    }
}

/// Running through a sequence of events and one more is taking that one
/// event in the state the sequence leads to.
pub proof fn run_with_one_more(state: PipelineView, events: Seq<EventView>, event: EventView)
    ensures
        run(state, events.push(event)) == after(run(state, events), event),
{
    run_of_joined(state, events, seq![event]);
    assert(events.push(event) =~= events + seq![event]);
    assert(seq![event].drop_first() =~= Seq::<EventView>::empty());
    let middle = run(state, events);
    assert(run(middle, seq![event]) == run(after(middle, event), Seq::<EventView>::empty()));
}

/// Every state a run reaches is one a run can be in.
pub proof fn run_keeps_well_formed(state: PipelineView, events: Seq<EventView>)
    requires
        well_formed(state),
        all_reportable(events),
    ensures
        well_formed(run(state, events)),
        run(state, events).params == state.params,
    decreases events.len(),
{
    if events.len() > 0 {
        step_keeps_well_formed(state, events[0]);
        run_keeps_well_formed(after(state, events[0]), events.drop_first());
    }
}

/// A run that has ended stays as it is: no event moves it, so its result
/// never changes and it asks for nothing more.
pub proof fn ended_run_stays(state: PipelineView, events: Seq<EventView>)
    requires
        ended(state.stage),
    ensures
        run(state, events) == state,
        pending(state) is Finish,
    decreases events.len(),
{
    if events.len() > 0 {
        ended_run_stays(state, events.drop_first());
    }
}

/// A run fails only where the connection, the handshake, the chain
/// extraction, the directory creation or the write of the full chain fails.
/// A failure that concerns one certificate, in writing its file or in
/// importing it, never ends the run.
pub proof fn only_structural_failures_end_the_run(state: PipelineView, event: EventView)
    requires
        state.stage != Stage::Failed,
        after(state, event).stage == Stage::Failed,
    ensures
        after(state, event).failure matches Some(error) && (fatal(error.kind) || (state.stage
            == Stage::FullChain && error.kind == ErrorKind::FileWrite)),
        !(state.stage is PerCertificate),
        !(state.stage is TrustStoreBuilding),
{
}

/// Where the session exposes no chain, or a chain without certificates, the
/// run fails at once with `NoCertificateChain`, and whatever is reported
/// afterwards it stays failed and asks for nothing on disk: no directory is
/// created, no file is written.
pub proof fn missing_chain_fails_fast(
    state: PipelineView,
    chain: Option<Seq<Result<ResolvedView, CertErrorView>>>,
    later: Seq<EventView>,
)
    requires
        state.stage == Stage::Connected,
        chain matches Some(outcomes) ==> outcomes.len() == 0,
    ensures
        ({
            let end = run(after(state, EventView::PeerChain(chain)), later);
            &&& end.stage == Stage::Failed
            &&& end.failure == Some(
                CertErrorView { kind: ErrorKind::NoCertificateChain, detail: Seq::empty() },
            )
            &&& pending(end) == ActionView::Finish(
                Err(CertErrorView { kind: ErrorKind::NoCertificateChain, detail: Seq::empty() }),
            )
            &&& !touches_disk(pending(end))
            &&& end.files == state.files
            &&& end.persisted == state.persisted
        }),
{
    ended_run_stays(after(state, EventView::PeerChain(chain)), later);
}

/// Where a connection or a handshake fails, the run fails at once with that
/// failure and its cause, and stays failed.
pub proof fn failed_session_fails_fast(state: PipelineView, cause: Seq<char>, later: Seq<EventView>)
    requires
        state.stage == Stage::Init,
    ensures
        pending(run(after(state, EventView::ConnectionFailed(cause)), later)) == ActionView::Finish(
            Err(CertErrorView { kind: ErrorKind::Connection, detail: cause }),
        ),
        pending(run(after(state, EventView::HandshakeFailed(cause)), later)) == ActionView::Finish(
            Err(CertErrorView { kind: ErrorKind::Handshake, detail: cause }),
        ),
{
    ended_run_stays(after(state, EventView::ConnectionFailed(cause)), later);
    ended_run_stays(after(state, EventView::HandshakeFailed(cause)), later);
}

/// Where the output directory cannot be created, the run fails at once with
/// `DirectoryCreation` and the cause, and whatever is reported afterwards no
/// certificate file and no full-chain file is written.
pub proof fn failed_directory_writes_nothing(
    state: PipelineView,
    cause: Seq<char>,
    later: Seq<EventView>,
)
    requires
        state.stage == Stage::ChainExtracted,
    ensures
        ({
            let end = run(after(state, EventView::DirectoryFailed(cause)), later);
            &&& end.stage == Stage::Failed
            &&& pending(end) == ActionView::Finish(
                Err(CertErrorView { kind: ErrorKind::DirectoryCreation, detail: cause }),
            )
            &&& !touches_disk(pending(end))
            &&& end.persisted == state.persisted
        }),
{
    ended_run_stays(after(state, EventView::DirectoryFailed(cause)), later);
}

/// Whether a stage is one that a run reaches only with the output directory
/// in place.
pub open spec fn past_directory(stage: Stage) -> bool {
    stage is PerCertificate || stage == Stage::FullChain || stage is TrustStoreBuilding || stage
        == Stage::Done
}

/// No file is written before the output directory exists. Whatever is
/// reported to a run from its start, if it comes to ask for the write of a
/// certificate file or of the full chain, or for an import, or ends in
/// success, then at some earlier point it waited for the directory and was
/// told that the directory exists.
pub proof fn directory_comes_before_files(params: DownloadParamsView, events: Seq<EventView>)
    ensures
        past_directory(run(initial(params), events).stage) ==> exists|n: int|
            0 <= n < events.len() && (#[trigger] run(initial(params), events.take(n))).stage
                == Stage::ChainExtracted && events[n] == EventView::DirectoryCreated,
        writes_file(pending(run(initial(params), events))) ==> past_directory(
            run(initial(params), events).stage,
        ),
        pending(run(initial(params), events)) is ImportCertificate ==> past_directory(
            run(initial(params), events).stage,
        ),
    decreases events.len(),
{
    let start = initial(params);
    if events.len() > 0 {
        let earlier = events.drop_last();
        let last = events.last();
        assert(events =~= earlier.push(last));
        run_with_one_more(start, earlier, last);
        directory_comes_before_files(params, earlier);
        if past_directory(run(start, events).stage) {
            if past_directory(run(start, earlier).stage) {
                // The directory was reported among the earlier events.
                let n = choose|n: int|
                    0 <= n < earlier.len() && (#[trigger] run(start, earlier.take(n))).stage
                        == Stage::ChainExtracted && earlier[n] == EventView::DirectoryCreated;
                assert(earlier.take(n) =~= events.take(n));
            } else {
                // The last event is the report of the directory.
                assert(events.take(earlier.len() as int) =~= earlier);
            }
        }
    }
}

/// The certificate files that were written, among the first files of a
/// plan, given how the write of each went.
pub open spec fn written_among(files: Seq<PlannedFileView>, reports: Seq<EventView>) -> Seq<
    CertificateFileView,
>
    decreases reports.len(),
{
    if reports.len() == 0 {
        Seq::empty()
    } else {
        let earlier = written_among(files, reports.drop_last());
        if reports.last() is FileWritten {
            earlier.push(written(files[reports.len() - 1]))
        } else {
            earlier
        }
    }
}

/// Every certificate file of the plan is attempted exactly once, in the
/// order of the chain, whether or not the writes before it succeeded. Once
/// the directory exists and the writes of the first `k` files have been
/// reported, the run waits for the write of the file at `k`, or, past the
/// last file, for the write of the full chain; the plan and the bytes of the
/// full chain are as they were; the files on record as written are those
/// whose write was reported to have succeeded; and the run has not failed.
pub proof fn every_file_is_attempted_once(state: PipelineView, reports: Seq<EventView>)
    requires
        well_formed(state),
        state.stage == Stage::ChainExtracted,
        reports.len() <= state.files.len(),
        forall|i: int| 0 <= i < reports.len() ==> write_report(#[trigger] reports[i]),
    ensures
        ({
            let end = run(after(state, EventView::DirectoryCreated), reports);
            &&& end.stage == writing_from(state, reports.len() as int)
            &&& end.files == state.files
            &&& end.full_chain == state.full_chain
            &&& end.params == state.params
            &&& end.failure == state.failure
            &&& end.persisted == state.persisted + written_among(state.files, reports)
            &&& end.warnings.len() + end.persisted.len() == state.warnings.len()
                + state.persisted.len() + reports.len()
        }),
    decreases reports.len(),
{
    let start = after(state, EventView::DirectoryCreated);
    if reports.len() > 0 {
        let earlier = reports.drop_last();
        let last = reports.last();
        assert(reports =~= earlier.push(last));
        every_file_is_attempted_once(state, earlier);
        run_with_one_more(start, earlier, last);
    }
}

/// Every certificate file that was written is imported exactly once, in the
/// order of the chain, whether or not the imports before it succeeded. Once
/// the full chain is written and the imports of the first `k` written files
/// have been reported, a run that was asked for a trust store waits for the
/// import of the written file at `k`, or, past the last, has ended in
/// success.
pub proof fn every_written_file_is_imported_once(state: PipelineView, reports: Seq<EventView>)
    requires
        well_formed(state),
        state.stage == Stage::FullChain,
        state.persisted.len() <= usize::MAX,
        state.params.generate_jks,
        reports.len() <= state.persisted.len(),
        forall|i: int| 0 <= i < reports.len() ==> import_report(#[trigger] reports[i]),
    ensures
        ({
            let end = run(after(state, EventView::FileWritten), reports);
            &&& end.stage == importing_from(state, reports.len() as int)
            &&& end.persisted == state.persisted
            &&& end.params == state.params
            &&& end.failure == state.failure
        }),
    decreases reports.len(),
{
    let start = after(state, EventView::FileWritten);
    if reports.len() > 0 {
        let earlier = reports.drop_last();
        let last = reports.last();
        assert(reports =~= earlier.push(last));
        every_written_file_is_imported_once(state, earlier);
        run_with_one_more(start, earlier, last);
    }
}

/// The events of a run in which nothing structural fails: the session is
/// established, the peer's chain is read with the given outcomes, the
/// directory is created, the write of each certificate file is reported, the
/// full chain is written, and each import is reported.
pub open spec fn untroubled(
    outcomes: Seq<Result<ResolvedView, CertErrorView>>,
    writes: Seq<EventView>,
    imports: Seq<EventView>,
) -> Seq<EventView> {
    seq![
        EventView::SessionEstablished,
        EventView::PeerChain(Some(outcomes)),
        EventView::DirectoryCreated,
    ] + writes + seq![EventView::FileWritten] + imports
}

/// A run in which nothing structural fails ends in success, whatever its
/// parameters are and however many of its certificates could not be read,
/// written or imported. With or without the validation of the peer's
/// certificates, once the session is established the run is the same.
///
/// Just before the end of the writes the run asks for the full-chain file,
/// and the bytes it asks to be written are the full chain of the
/// certificates that could be read: empty where none could.
pub proof fn untroubled_run_succeeds(
    params: DownloadParamsView,
    outcomes: Seq<Result<ResolvedView, CertErrorView>>,
    writes: Seq<EventView>,
    imports: Seq<EventView>,
)
    requires
        0 < outcomes.len() <= usize::MAX,
        writes.len() == planned_files(params.output_dir, outcomes).len(),
        forall|i: int| 0 <= i < writes.len() ==> write_report(#[trigger] writes[i]),
        forall|i: int| 0 <= i < imports.len() ==> import_report(#[trigger] imports[i]),
        imports.len() == (if params.generate_jks {
            written_among(planned_files(params.output_dir, outcomes), writes).len()
        } else {
            0
        }),
    ensures
        run(initial(params), untroubled(outcomes, writes, imports)).stage == Stage::Done,
        pending(run(initial(params), untroubled(outcomes, writes, imports))) == ActionView::Finish(
            Ok(()),
        ),
        pending(
            run(
                initial(params),
                seq![
                    EventView::SessionEstablished,
                    EventView::PeerChain(Some(outcomes)),
                    EventView::DirectoryCreated,
                ] + writes,
            ),
        ) == (ActionView::WriteFullChain {
            file: OutputFileView {
                path: full_chain_path(params.output_dir),
                contents: full_chain(outcomes),
            },
        }),
{
    let start = initial(params);
    let connected = after(start, EventView::SessionEstablished);
    let extracted = after(connected, EventView::PeerChain(Some(outcomes)));
    let ready = after(extracted, EventView::DirectoryCreated);
    let head = seq![
        EventView::SessionEstablished,
        EventView::PeerChain(Some(outcomes)),
        EventView::DirectoryCreated,
    ];
    files_keep_chain_positions(params.output_dir, outcomes);
    assert(run(start, head) == ready) by {
        assert(head.drop_first() =~= seq![
            EventView::PeerChain(Some(outcomes)),
            EventView::DirectoryCreated,
        ]);
        reveal_with_fuel(run, 4);
    }
    every_file_is_attempted_once(extracted, writes);
    run_of_joined(start, head, writes);
    run_with_one_more(start, head + writes, EventView::FileWritten);
    assert((head + writes).push(EventView::FileWritten) =~= head + writes + seq![
        EventView::FileWritten,
    ]);
    run_of_joined(start, head + writes + seq![EventView::FileWritten], imports);
    run_keeps_well_formed_from(extracted, writes);
    if params.generate_jks {
        written_among_is_short(extracted.files, writes);
        every_written_file_is_imported_once(run(ready, writes), imports);
    }
}

/// No more files are on record as written than writes were reported.
pub proof fn written_among_is_short(files: Seq<PlannedFileView>, reports: Seq<EventView>)
    ensures
        written_among(files, reports).len() <= reports.len(),
    decreases reports.len(),
{
    if reports.len() > 0 {
        written_among_is_short(files, reports.drop_last());
    }
}

/// The writes of certificate files leave the run in a state a run can be
/// in.
proof fn run_keeps_well_formed_from(state: PipelineView, writes: Seq<EventView>)
    requires
        well_formed(state),
        state.stage == Stage::ChainExtracted,
        forall|i: int| 0 <= i < writes.len() ==> write_report(#[trigger] writes[i]),
    ensures
        well_formed(run(after(state, EventView::DirectoryCreated), writes)),
{
    step_keeps_well_formed(state, EventView::DirectoryCreated);
    run_keeps_well_formed(after(state, EventView::DirectoryCreated), writes);
}

/// Where every certificate of a chain of `n` certificates could be read, the
/// run asks for exactly `n` certificate files, one after the other in the
/// order of the chain, however the writes before went: after the reports of
/// the first `k` writes it asks for the file of the certificate at position
/// `k`, which is named with the label of `k` and that certificate's common
/// name and holds that certificate's PEM encoding; after `n` reports it
/// asks for the full chain.
pub proof fn every_certificate_gets_its_numbered_file(
    params: DownloadParamsView,
    outcomes: Seq<Result<ResolvedView, CertErrorView>>,
    writes: Seq<EventView>,
)
    requires
        0 < outcomes.len() <= usize::MAX,
        forall|i: int| 0 <= i < outcomes.len() ==> (#[trigger] outcomes[i]) is Ok,
        writes.len() <= outcomes.len(),
        forall|i: int| 0 <= i < writes.len() ==> write_report(#[trigger] writes[i]),
    ensures
        ({
            let k = writes.len() as int;
            let asked = pending(
                run(
                    initial(params),
                    seq![
                        EventView::SessionEstablished,
                        EventView::PeerChain(Some(outcomes)),
                        EventView::DirectoryCreated,
                    ] + writes,
                ),
            );
            if k < outcomes.len() {
                asked == (ActionView::WriteCertificate {
                    index: k as nat,
                    common_name: outcomes[k]->Ok_0.common_name,
                    file: OutputFileView {
                        path: certificate_path(
                            params.output_dir,
                            k as nat,
                            outcomes[k]->Ok_0.common_name,
                        ),
                        contents: outcomes[k]->Ok_0.pem,
                    },
                })
            } else {
                asked == (ActionView::WriteFullChain {
                    file: OutputFileView {
                        path: full_chain_path(params.output_dir),
                        contents: full_chain(outcomes),
                    },
                })
            }
        }),
{
    let start = initial(params);
    let connected = after(start, EventView::SessionEstablished);
    let extracted = after(connected, EventView::PeerChain(Some(outcomes)));
    let ready = after(extracted, EventView::DirectoryCreated);
    let head = seq![
        EventView::SessionEstablished,
        EventView::PeerChain(Some(outcomes)),
        EventView::DirectoryCreated,
    ];
    whole_chain_is_numbered(params.output_dir, outcomes);
    assert(run(start, head) == ready) by {
        assert(head.drop_first() =~= seq![
            EventView::PeerChain(Some(outcomes)),
            EventView::DirectoryCreated,
        ]);
        reveal_with_fuel(run, 4);
    }
    every_file_is_attempted_once(extracted, writes);
    run_of_joined(start, head, writes);
}

} // verus!
