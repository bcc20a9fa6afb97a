//! The run as a state machine.
//!
//! A run connects to the server, takes the certificate chain the server
//! presented, makes sure the output directory exists, writes one file per
//! certificate and one file with the whole chain, and, if asked to, has each
//! written certificate imported into a trust store. All of that work is done
//! by the caller: the [`Pipeline`] says which [`Action`] is to be performed
//! next, the caller performs it and reports the [`Event`] that tells how it
//! went, and the pipeline moves on. Failures of the connection, of the
//! handshake, of the chain extraction and of the directory creation end the
//! run; a failure that concerns one certificate is recorded as a warning and
//! the run goes on with the next certificate.

use crate::certificate::{resolve_chain, resolves_to, Certificate, Resolved, ResolvedView};
use crate::error::{CertError, CertErrorView, ErrorKind};
use crate::naming::{full_chain_path, full_chain_path_text};
use crate::params::{DownloadParams, DownloadParamsView};
use crate::persist::{
    copy_bytes, full_chain, outcomes_view, plan_chain, planned_files, rejected, OutputFile,
    OutputFileView, PlannedFile, PlannedFileView, Warning, WarningView,
};
use crate::truststore::{
    import_command, import_command_for, CertificateFile, CertificateFileView, ImportCommand,
    ImportCommandView,
};
use vstd::pervasive::unreached;
use vstd::prelude::*;

verus! {

/// Where a run stands: what has been done, and so what it waits for.
#[derive(Clone, Copy, Debug, PartialEq, Eq, Structural)]
pub enum Stage {
    /// Nothing has been done. The run waits for the TLS session.
    Init,
    /// The session is established. The run waits for the peer's chain.
    Connected,
    /// The chain is in hand. The run waits for the output directory.
    ChainExtracted,
    /// The directory exists and the files before `next` have been attempted.
    /// The run waits for the write of the file at `next`.
    PerCertificate { next: usize },
    /// Every certificate file has been attempted. The run waits for the
    /// write of the full-chain file.
    FullChain,
    /// The full chain is written and the written files before `next` have
    /// been imported. The run waits for the import of the one at `next`.
    TrustStoreBuilding { next: usize },
    /// The run has succeeded.
    Done,
    /// The run has failed.
    Failed,
}

/// What the caller is asked to do next.
#[derive(Debug, PartialEq, Eq)]
pub enum Action {
    /// Connect to `address` and perform the TLS handshake, without
    /// verifying the peer's certificates if `insecure` is set.
    EstablishSession { address: String, insecure: bool },
    /// Take the peer's certificate chain from the session.
    ExtractChain,
    /// Make sure the directory at `path` exists, with its parents.
    CreateDirectory { path: String },
    /// Write the file of the certificate at `index`.
    WriteCertificate { index: usize, common_name: String, file: OutputFile },
    /// Write the file that holds the whole chain.
    WriteFullChain { file: OutputFile },
    /// Run the trust-store tool to import the certificate at `index`.
    ImportCertificate { index: usize, command: ImportCommand },
    /// Nothing is left to do: the run has ended with this result.
    Finish(Result<(), CertError>),
}

/// The mathematical value of an [`Action`].
pub enum ActionView {
    EstablishSession { address: Seq<char>, insecure: bool },
    ExtractChain,
    CreateDirectory { path: Seq<char> },
    WriteCertificate { index: nat, common_name: Seq<char>, file: OutputFileView },
    WriteFullChain { file: OutputFileView },
    ImportCertificate { index: nat, command: ImportCommandView },
    Finish(Result<(), CertErrorView>),
}

impl View for Action {
    type V = ActionView;

    open spec fn view(&self) -> ActionView {
        match self {
            Action::EstablishSession { address, insecure } => ActionView::EstablishSession {
                address: address@,
                insecure: *insecure,
            },
            Action::ExtractChain => ActionView::ExtractChain,
            Action::CreateDirectory { path } => ActionView::CreateDirectory { path: path@ },
            Action::WriteCertificate { index, common_name, file } => ActionView::WriteCertificate {
                index: *index as nat,
                common_name: common_name@,
                file: file@,
            },
            Action::WriteFullChain { file } => ActionView::WriteFullChain { file: file@ },
            Action::ImportCertificate { index, command } => ActionView::ImportCertificate {
                index: *index as nat,
                command: command@,
            },
            Action::Finish(Ok(_)) => ActionView::Finish(Ok(())),
            Action::Finish(Err(error)) => ActionView::Finish(Err(error@)),
        }
    }
}

/// How the action that the run waited for went.
#[derive(Debug, PartialEq, Eq)]
pub enum Event {
    /// The connection is open and the handshake is complete.
    SessionEstablished,
    /// The connection could not be opened, for the given reason.
    ConnectionFailed(String),
    /// The handshake did not complete, for the given reason.
    HandshakeFailed(String),
    /// What the session exposes as the peer's chain, if anything, with what
    /// reading each certificate gave.
    PeerChain(Option<Vec<Result<Resolved, CertError>>>),
    /// The output directory exists.
    DirectoryCreated,
    /// The output directory could not be created, for the given reason.
    DirectoryFailed(String),
    /// The file was written.
    FileWritten,
    /// The file could not be written, for the given reason.
    FileWriteFailed(String),
    /// The trust-store tool imported the certificate.
    ImportSucceeded,
    /// The trust-store tool ended with the given failure.
    ImportFailed(String),
    /// The trust-store tool could not be started, for the given reason.
    ToolNotFound(String),
}

/// The mathematical value of an [`Event`].
pub enum EventView {
    SessionEstablished,
    ConnectionFailed(Seq<char>),
    HandshakeFailed(Seq<char>),
    PeerChain(Option<Seq<Result<ResolvedView, CertErrorView>>>),
    DirectoryCreated,
    DirectoryFailed(Seq<char>),
    FileWritten,
    FileWriteFailed(Seq<char>),
    ImportSucceeded,
    ImportFailed(Seq<char>),
    ToolNotFound(Seq<char>),
}

impl View for Event {
    type V = EventView;

    open spec fn view(&self) -> EventView {
        match self {
            Event::SessionEstablished => EventView::SessionEstablished,
            Event::ConnectionFailed(cause) => EventView::ConnectionFailed(cause@),
            Event::HandshakeFailed(cause) => EventView::HandshakeFailed(cause@),
            Event::PeerChain(Some(outcomes)) => EventView::PeerChain(
                Some(outcomes_view(outcomes@)),
            ),
            Event::PeerChain(None) => EventView::PeerChain(None),
            Event::DirectoryCreated => EventView::DirectoryCreated,
            Event::DirectoryFailed(cause) => EventView::DirectoryFailed(cause@),
            Event::FileWritten => EventView::FileWritten,
            Event::FileWriteFailed(cause) => EventView::FileWriteFailed(cause@),
            Event::ImportSucceeded => EventView::ImportSucceeded,
            Event::ImportFailed(cause) => EventView::ImportFailed(cause@),
            Event::ToolNotFound(cause) => EventView::ToolNotFound(cause@),
        }
    }
}

/// The mathematical value of a [`Pipeline`]: the state of a run.
pub struct PipelineView {
    /// The parameters of the run.
    pub params: DownloadParamsView,
    /// Where the run stands.
    pub stage: Stage,
    /// The certificate files to be written, in the order of the chain.
    pub files: Seq<PlannedFileView>,
    /// The bytes of the full-chain file.
    pub full_chain: Seq<u8>,
    /// The certificate files that were written, in the order of the chain.
    pub persisted: Seq<CertificateFileView>,
    /// The failures that were recorded and did not end the run, in the
    /// order in which they came.
    pub warnings: Seq<WarningView>,
    /// The failure that ended the run, if one did.
    pub failure: Option<CertErrorView>,
}

/// The password the trust store is protected with.
pub open spec fn trust_store_password() -> Seq<char> {
    "changeit"@
}

/// The state of a run before anything was done.
pub open spec fn initial(params: DownloadParamsView) -> PipelineView {
    PipelineView {
        params,
        stage: Stage::Init,
        files: Seq::empty(),
        full_chain: Seq::empty(),
        persisted: Seq::empty(),
        warnings: Seq::empty(),
        failure: None,
    }
}

/// Whether a state is one a run can be in: the stage points at a file that
/// exists, and a failed run has its failure.
pub open spec fn well_formed(state: PipelineView) -> bool {
    &&& state.files.len() <= usize::MAX
    &&& match state.stage {
        Stage::PerCertificate { next } => next < state.files.len(),
        Stage::TrustStoreBuilding { next } => next < state.persisted.len(),
        Stage::Failed => state.failure is Some,
        _ => true,
    }
}

/// Whether an event is one a caller can report: a chain has no more
/// certificates than can be counted.
pub open spec fn reportable(event: EventView) -> bool {
    event matches EventView::PeerChain(Some(outcomes)) ==> outcomes.len() <= usize::MAX
}

/// The action a run in the given state waits for.
pub open spec fn pending(state: PipelineView) -> ActionView {
    match state.stage {
        Stage::Init => ActionView::EstablishSession {
            address: state.params.address,
            insecure: state.params.insecure,
        },
        Stage::Connected => ActionView::ExtractChain,
        Stage::ChainExtracted => ActionView::CreateDirectory { path: state.params.output_dir },
        Stage::PerCertificate { next } => ActionView::WriteCertificate {
            index: state.files[next as int].index,
            common_name: state.files[next as int].common_name,
            file: state.files[next as int].file,
        },
        Stage::FullChain => ActionView::WriteFullChain {
            file: OutputFileView {
                path: full_chain_path(state.params.output_dir),
                contents: state.full_chain,
            },
        },
        Stage::TrustStoreBuilding { next } => ActionView::ImportCertificate {
            index: state.persisted[next as int].index,
            command: import_command(
                state.persisted[next as int],
                state.params.output_dir,
                trust_store_password(),
            ),
        },
        Stage::Done => ActionView::Finish(Ok(())),
        Stage::Failed => ActionView::Finish(Err(state.failure->Some_0)),
    }
}

/// The state of a run that has ended with a failure of the given kind and
/// cause.
pub open spec fn failed(state: PipelineView, kind: ErrorKind, cause: Seq<char>) -> PipelineView {
    PipelineView {
        stage: Stage::Failed,
        failure: Some(CertErrorView { kind, detail: cause }),
        ..state
    }
}

/// The stage of a run whose certificate files before `next` have been
/// attempted: the write of the file at `next`, or, past the last file, the
/// write of the full chain.
pub open spec fn writing_from(state: PipelineView, next: int) -> Stage {
    if next < state.files.len() {
        Stage::PerCertificate { next: next as usize }
    } else {
        Stage::FullChain
    }
}

/// The stage of a run whose full chain is written and whose written files
/// before `next` have been imported: where a trust store was asked for, the
/// import of the file at `next`; past the last file, or without a trust
/// store, the end.
pub open spec fn importing_from(state: PipelineView, next: int) -> Stage {
    if state.params.generate_jks && next < state.persisted.len() {
        Stage::TrustStoreBuilding { next: next as usize }
    } else {
        Stage::Done
    }
}

/// The certificate file on disk that a written planned file is.
pub open spec fn written(file: PlannedFileView) -> CertificateFileView {
    CertificateFileView { index: file.index, path: file.file.path, common_name: file.common_name }
}

/// The state with one more warning: a failure of the given kind and cause
/// that concerns the certificate at `index`.
pub open spec fn warned(state: PipelineView, index: nat, kind: ErrorKind, cause: Seq<char>) -> PipelineView {
    PipelineView {
        warnings: state.warnings.push(
            WarningView { index, error: CertErrorView { kind, detail: cause } },
        ),
        ..state
    }
}

/// The state of a run after an event.
///
/// An event that does not tell how the pending action went leaves the
/// state as it is, so the same action stays pending.
pub open spec fn after(state: PipelineView, event: EventView) -> PipelineView {
    match (state.stage, event) {
        (Stage::Init, EventView::SessionEstablished) => PipelineView {
            stage: Stage::Connected,
            ..state
        },
        (Stage::Init, EventView::ConnectionFailed(cause)) => failed(
            state,
            ErrorKind::Connection,
            cause,
        ),
        (Stage::Init, EventView::HandshakeFailed(cause)) => failed(
            state,
            ErrorKind::Handshake,
            cause,
        ),
        (Stage::Connected, EventView::PeerChain(Some(outcomes))) => if outcomes.len() > 0 {
            PipelineView {
                stage: Stage::ChainExtracted,
                files: planned_files(state.params.output_dir, outcomes),
                full_chain: full_chain(outcomes),
                warnings: state.warnings + rejected(outcomes),
                ..state
            }
        } else {
            failed(state, ErrorKind::NoCertificateChain, Seq::empty())
        },
        (Stage::Connected, EventView::PeerChain(None)) => failed(
            state,
            ErrorKind::NoCertificateChain,
            Seq::empty(),
        ),
        (Stage::ChainExtracted, EventView::DirectoryCreated) => PipelineView {
            stage: writing_from(state, 0),
            ..state
        },
        (Stage::ChainExtracted, EventView::DirectoryFailed(cause)) => failed(
            state,
            ErrorKind::DirectoryCreation,
            cause,
        ),
        (Stage::PerCertificate { next }, EventView::FileWritten) => PipelineView {
            stage: writing_from(state, next + 1),
            persisted: state.persisted.push(written(state.files[next as int])),
            ..state
        },
        (Stage::PerCertificate { next }, EventView::FileWriteFailed(cause)) => PipelineView {
            stage: writing_from(state, next + 1),
            ..warned(state, state.files[next as int].index, ErrorKind::FileWrite, cause)
        },
        (Stage::FullChain, EventView::FileWritten) => PipelineView {
            stage: importing_from(state, 0),
            ..state
        },
        (Stage::FullChain, EventView::FileWriteFailed(cause)) => failed(
            state,
            ErrorKind::FileWrite,
            cause,
        ),
        (Stage::TrustStoreBuilding { next }, EventView::ImportSucceeded) => PipelineView {
            stage: importing_from(state, next + 1),
            ..state
        },
        (Stage::TrustStoreBuilding { next }, EventView::ImportFailed(cause)) => PipelineView {
            stage: importing_from(state, next + 1),
            ..warned(
                state,
                state.persisted[next as int].index,
                ErrorKind::TrustStoreImport,
                cause,
            )
        },
        (Stage::TrustStoreBuilding { next }, EventView::ToolNotFound(cause)) => PipelineView {
            stage: importing_from(state, next + 1),
            ..warned(state, state.persisted[next as int].index, ErrorKind::ToolNotFound, cause)
        },
        _ => state,
    }
}

/// The state of one run.
///
/// A pipeline is made by [`Pipeline::new`] and changed by
/// [`Pipeline::step`] alone, so it is always in a state a run can be in.
#[derive(Debug)]
pub struct Pipeline {
    params: DownloadParams,
    stage: Stage,
    files: Vec<PlannedFile>,
    full_chain: Vec<u8>,
    persisted: Vec<CertificateFile>,
    warnings: Vec<Warning>,
    failure: Option<CertError>,
}

impl View for Pipeline {
    type V = PipelineView;

    closed spec fn view(&self) -> PipelineView {
        PipelineView {
            params: self.params@,
            stage: self.stage,
            files: self.files.deep_view(),
            full_chain: self.full_chain@,
            persisted: self.persisted.deep_view(),
            warnings: self.warnings.deep_view(),
            failure: match self.failure {
                Some(error) => Some(error@),
                None => None,
            },
        }
    }
}

/// Makes the event that reports the peer's chain: reads every certificate
/// the session exposes, in the order in which the peer presented them.
pub fn chain_event(peer_chain: Option<Vec<Certificate>>) -> (event: Event)
    ensures
        match peer_chain {
            Some(chain) => event matches Event::PeerChain(Some(outcomes)) && outcomes.len()
                == chain.len() && forall|i: int|
                0 <= i < chain.len() ==> resolves_to(#[trigger] chain[i]@, outcomes[i]),
            None => event matches Event::PeerChain(None),
        },
        reportable(event@),
{
    match peer_chain {
        Some(chain) => Event::PeerChain(Some(resolve_chain(&chain))),
        None => Event::PeerChain(None),
    }
}

/// Makes the event that reports how a call of the trust-store tool ended:
/// with exit code 0 the import succeeded; with any other exit code, or
/// without one, it failed, for the reason given in `status`.
pub fn import_event(exit_code: Option<i32>, status: String) -> (event: Event)
    ensures
        event@ == (if exit_code == Some(0i32) {
            EventView::ImportSucceeded
        } else {
            EventView::ImportFailed(status@)
        }),
{
    match exit_code {
        Some(0) => Event::ImportSucceeded,
        _ => Event::ImportFailed(status),
    }
}

impl Pipeline {
    #[verifier::type_invariant]
    spec fn valid(self) -> bool {
        well_formed(self@)
    }

    /// A run with the given parameters, before anything was done.
    pub fn new(params: DownloadParams) -> (pipeline: Pipeline)
        ensures
            pipeline@ == initial(params@),
            well_formed(pipeline@),
    {
        let pipeline = Pipeline {
            params,
            stage: Stage::Init,
            files: Vec::new(),
            full_chain: Vec::new(),
            persisted: Vec::new(),
            warnings: Vec::new(),
            failure: None,
        };
        assert(pipeline@ =~= initial(params@)) by {
            assert(pipeline.files.deep_view() =~= Seq::empty());
            assert(pipeline.persisted.deep_view() =~= Seq::empty());
            assert(pipeline.warnings.deep_view() =~= Seq::empty());
        }
        pipeline
    }

    /// Where the run stands.
    pub fn stage(&self) -> (stage: Stage)
        ensures
            stage == self@.stage,
            well_formed(self@),
    {
        proof {
            use_type_invariant(self);
        }
        self.stage
    }

    /// Whether the run has ended, in success or in failure.
    pub fn is_finished(&self) -> (finished: bool)
        ensures
            finished == (self@.stage == Stage::Done || self@.stage == Stage::Failed),
    {
        match self.stage {
            Stage::Done => true,
            Stage::Failed => true,
            _ => false,
        }
    }

    /// The failures that were recorded and did not end the run.
    pub fn warnings(&self) -> (warnings: &Vec<Warning>)
        ensures
            warnings.deep_view() == self@.warnings,
    {
        &self.warnings
    }

    /// The action the run waits for.
    pub fn pending(&self) -> (action: Action)
        ensures
            action@ == pending(self@),
    {
        proof {
            use_type_invariant(self);
        }
        match self.stage {
            Stage::Init => Action::EstablishSession {
                address: self.params.address.clone(),
                insecure: self.params.insecure,
            },
            Stage::Connected => Action::ExtractChain,
            Stage::ChainExtracted => Action::CreateDirectory {
                path: self.params.output_dir.clone(),
            },
            Stage::PerCertificate { next } => {
                let planned = &self.files[next];
                Action::WriteCertificate {
                    index: planned.index,
                    common_name: planned.common_name.clone(),
                    file: planned.file.clone(),
                }
            },
            Stage::FullChain => Action::WriteFullChain {
                file: OutputFile {
                    path: full_chain_path_text(self.params.output_dir.as_str()),
                    contents: copy_bytes(&self.full_chain),
                },
            },
            Stage::TrustStoreBuilding { next } => {
                let file = &self.persisted[next];
                Action::ImportCertificate {
                    index: file.index,
                    command: import_command_for(file, self.params.output_dir.as_str(), "changeit"),
                }
            },
            Stage::Done => Action::Finish(Ok(())),
            Stage::Failed => match &self.failure {
                Some(error) => Action::Finish(Err(error.clone())),
                None => unreached(),
            },
        }
    }

    /// The stage of a run whose certificate files before `next` have been
    /// attempted.
    fn stage_writing_from(files: &Vec<PlannedFile>, next: usize) -> (stage: Stage)
        ensures
            stage == (if next < files.len() {
                Stage::PerCertificate { next }
            } else {
                Stage::FullChain
            }),
    {
        if next < files.len() {
            Stage::PerCertificate { next }
        } else {
            Stage::FullChain
        }
    }

    /// The stage of a run whose written files before `next` have been
    /// imported.
    fn stage_importing_from(generate: bool, persisted: &Vec<CertificateFile>, next: usize) -> (stage:
        Stage)
        ensures
            stage == (if generate && next < persisted.len() {
                Stage::TrustStoreBuilding { next }
            } else {
                Stage::Done
            }),
    {
        if generate && next < persisted.len() {
            Stage::TrustStoreBuilding { next }
        } else {
            Stage::Done
        }
    }

    /// Takes the report of how the pending action went and moves the run
    /// on. Returns the run in its new state and the action it now waits
    /// for.
    pub fn step(self, event: Event) -> (next: (Pipeline, Action))
        ensures
            next.0@ == after(self@, event@),
            next.1@ == pending(next.0@),
            well_formed(next.0@),
    {
        proof {
            use_type_invariant(&self);
        }
        let Pipeline {
            params,
            mut stage,
            mut files,
            mut full_chain,
            mut persisted,
            mut warnings,
            mut failure,
        } = self;
        assert(persisted.deep_view().len() == persisted.len());
        match (stage, event) {
            (Stage::Init, Event::SessionEstablished) => {
                stage = Stage::Connected;
            },
            (Stage::Init, Event::ConnectionFailed(cause)) => {
                stage = Stage::Failed;
                failure = Some(CertError { kind: ErrorKind::Connection, detail: cause });
            },
            (Stage::Init, Event::HandshakeFailed(cause)) => {
                stage = Stage::Failed;
                failure = Some(CertError { kind: ErrorKind::Handshake, detail: cause });
            },
            (Stage::Connected, Event::PeerChain(Some(outcomes))) => {
                if outcomes.len() > 0 {
                    let plan = plan_chain(params.output_dir.as_str(), &outcomes);
                    let mut rejected = plan.warnings;
                    let ghost warnings_before = warnings.deep_view();
                    let ghost rejected_before = rejected.deep_view();
                    warnings.append(&mut rejected);
                    assert(warnings.deep_view() =~= warnings_before + rejected_before);
                    files = plan.files;
                    full_chain = plan.full_chain;
                    stage = Stage::ChainExtracted;
                } else {
                    stage = Stage::Failed;
                    failure = Some(CertError::bare(ErrorKind::NoCertificateChain));
                }
            },
            (Stage::Connected, Event::PeerChain(None)) => {
                stage = Stage::Failed;
                failure = Some(CertError::bare(ErrorKind::NoCertificateChain));
            },
            (Stage::ChainExtracted, Event::DirectoryCreated) => {
                stage = Self::stage_writing_from(&files, 0);
            },
            (Stage::ChainExtracted, Event::DirectoryFailed(cause)) => {
                stage = Stage::Failed;
                failure = Some(CertError { kind: ErrorKind::DirectoryCreation, detail: cause });
            },
            (Stage::PerCertificate { next }, Event::FileWritten) => {
                let planned = &files[next];
                let file = CertificateFile {
                    index: planned.index,
                    path: planned.file.path.clone(),
                    common_name: planned.common_name.clone(),
                };
                let ghost persisted_before = persisted.deep_view();
                persisted.push(file);
                assert(persisted.deep_view() =~= persisted_before.push(file@));
                stage = Self::stage_writing_from(&files, next + 1);
            },
            (Stage::PerCertificate { next }, Event::FileWriteFailed(cause)) => {
                let warning = Warning {
                    index: files[next].index,
                    error: CertError { kind: ErrorKind::FileWrite, detail: cause },
                };
                let ghost warnings_before = warnings.deep_view();
                warnings.push(warning);
                assert(warnings.deep_view() =~= warnings_before.push(warning@));
                stage = Self::stage_writing_from(&files, next + 1);
            },
            (Stage::FullChain, Event::FileWritten) => {
                stage = Self::stage_importing_from(params.generate_jks, &persisted, 0);
            },
            (Stage::FullChain, Event::FileWriteFailed(cause)) => {
                stage = Stage::Failed;
                failure = Some(CertError { kind: ErrorKind::FileWrite, detail: cause });
            },
            (Stage::TrustStoreBuilding { next }, Event::ImportSucceeded) => {
                stage = Self::stage_importing_from(params.generate_jks, &persisted, next + 1);
            },
            (Stage::TrustStoreBuilding { next }, Event::ImportFailed(cause)) => {
                let warning = Warning {
                    index: persisted[next].index,
                    error: CertError { kind: ErrorKind::TrustStoreImport, detail: cause },
                };
                let ghost warnings_before = warnings.deep_view();
                warnings.push(warning);
                assert(warnings.deep_view() =~= warnings_before.push(warning@));
                stage = Self::stage_importing_from(params.generate_jks, &persisted, next + 1);
            },
            (Stage::TrustStoreBuilding { next }, Event::ToolNotFound(cause)) => {
                let warning = Warning {
                    index: persisted[next].index,
                    error: CertError { kind: ErrorKind::ToolNotFound, detail: cause },
                };
                let ghost warnings_before = warnings.deep_view();
                warnings.push(warning);
                assert(warnings.deep_view() =~= warnings_before.push(warning@));
                stage = Self::stage_importing_from(params.generate_jks, &persisted, next + 1);
            },
            _ => {},
        }
        assert(files.deep_view().len() == files.len());
        let moved = Pipeline { params, stage, files, full_chain, persisted, warnings, failure };
        let action = moved.pending();
        (moved, action)
    }
}

} // verus!
