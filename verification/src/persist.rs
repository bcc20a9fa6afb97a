//! What a run writes: one PEM file per certificate that could be read, and
//! one file with the whole chain.
//!
//! Nothing here touches the disk. The functions say which files are to be
//! written and what they hold; the caller writes them.

use crate::certificate::{
    caused_in, resolution_of, resolves_to, x509_pem, Certificate, Resolved, ResolvedView,
};
use crate::error::{CertError, CertErrorView, ErrorKind};
use crate::naming::{certificate_path, certificate_path_text};
use vstd::prelude::*;
use vstd::string::StringExecFns;

verus! {

/// A file to be written: where, and what.
#[derive(Debug, PartialEq, Eq)]
pub struct OutputFile {
    pub path: String,
    pub contents: Vec<u8>,
}

/// The mathematical value of an [`OutputFile`].
pub struct OutputFileView {
    pub path: Seq<char>,
    pub contents: Seq<u8>,
}

impl View for OutputFile {
    type V = OutputFileView;

    open spec fn view(&self) -> OutputFileView {
        OutputFileView { path: self.path@, contents: self.contents@ }
    }
}

/// Copies a run of bytes.
pub fn copy_bytes(bytes: &Vec<u8>) -> (copy: Vec<u8>)
    ensures
        copy@ == bytes@,
{
    let copy = bytes.clone();
    copy
}

impl Clone for OutputFile {
    fn clone(&self) -> (copy: Self)
        ensures
            copy@ == self@,
    {
        OutputFile { path: self.path.clone(), contents: copy_bytes(&self.contents) }
    }
}

/// Prepares the file of one certificate: its PEM encoding, to be written at
/// `file_path`. Fails with `Encoding` where the certificate cannot be
/// encoded.
pub fn save_cert(file_path: &str, cert: &Certificate) -> (file: Result<OutputFile, CertError>)
    ensures
        match x509_pem(cert@) {
            Some(pem) => file matches Ok(found) && found@ == (OutputFileView {
                path: file_path@,
                contents: pem,
            }),
            None => file matches Err(error) && error@.kind == ErrorKind::Encoding && caused_in(
                "pem encoding"@,
                error@.detail,
            ),
        },
{
    match cert.to_pem() {
        Ok(contents) => Ok(OutputFile { path: String::from_str(file_path), contents }),
        Err(error) => Err(error),
    }
}

/// Joins PEM blocks into one run of bytes, in their order, with nothing
/// between them.
pub fn merge_certificates(pems: &Vec<Vec<u8>>) -> (chain: Vec<u8>)
    ensures
        chain@ == pems.deep_view().flatten(),
{
    let ghost blocks = pems.deep_view();
    let mut chain: Vec<u8> = Vec::new();
    let mut i: usize = 0;
    while i < pems.len()
        invariant
            i <= pems.len(),
            blocks == pems.deep_view(),
            chain@ == blocks.take(i as int).flatten(),
        decreases pems.len() - i,
    {
        let block = &pems[i];
        chain.extend_from_slice(block.as_slice());
        proof {
            assert(blocks[i as int] == block@);
            assert(blocks.take(i + 1) =~= blocks.take(i as int).push(block@));
            blocks.take(i as int).lemma_flatten_push(block@);
        }
        i += 1;
    }
    assert(blocks.take(i as int) =~= blocks);
    chain
}

/// The file of one certificate of the chain: the certificate's position in
/// the chain, its common name, and the file itself.
#[derive(Debug, PartialEq, Eq)]
pub struct PlannedFile {
    pub index: usize,
    pub common_name: String,
    pub file: OutputFile,
}

/// The mathematical value of a [`PlannedFile`].
pub struct PlannedFileView {
    pub index: nat,
    pub common_name: Seq<char>,
    pub file: OutputFileView,
}

impl View for PlannedFile {
    type V = PlannedFileView;

    open spec fn view(&self) -> PlannedFileView {
        PlannedFileView {
            index: self.index as nat,
            common_name: self.common_name@,
            file: self.file@,
        }
    }
}

impl DeepView for PlannedFile {
    type V = PlannedFileView;

    open spec fn deep_view(&self) -> PlannedFileView {
        self@
    }
}

/// A failure that was recorded and did not stop the run, with the position
/// in the chain of the certificate it concerns.
#[derive(Debug, PartialEq, Eq)]
pub struct Warning {
    pub index: usize,
    pub error: CertError,
}

/// The mathematical value of a [`Warning`].
pub struct WarningView {
    pub index: nat,
    pub error: CertErrorView,
}

impl View for Warning {
    type V = WarningView;

    open spec fn view(&self) -> WarningView {
        WarningView { index: self.index as nat, error: self.error@ }
    }
}

impl DeepView for Warning {
    type V = WarningView;

    open spec fn deep_view(&self) -> WarningView {
        self@
    }
}

/// What is to be written for a chain: the files of the certificates that
/// could be read, the bytes of the full-chain file, and a warning for each
/// certificate that could not be read.
#[derive(Debug, PartialEq, Eq)]
pub struct Plan {
    pub files: Vec<PlannedFile>,
    pub full_chain: Vec<u8>,
    pub warnings: Vec<Warning>,
}

/// The mathematical value of a [`Plan`].
pub struct PlanView {
    pub files: Seq<PlannedFileView>,
    pub full_chain: Seq<u8>,
    pub warnings: Seq<WarningView>,
}

impl View for Plan {
    type V = PlanView;

    open spec fn view(&self) -> PlanView {
        PlanView {
            files: self.files.deep_view(),
            full_chain: self.full_chain@,
            warnings: self.warnings.deep_view(),
        }
    }
}

/// The mathematical value of what reading one certificate gave.
pub open spec fn outcome_view(outcome: Result<Resolved, CertError>) -> Result<
    ResolvedView,
    CertErrorView,
> {
    match outcome {
        Ok(resolved) => Ok(resolved@),
        Err(error) => Err(error@),
    }
}

/// The mathematical value of what reading a chain gave, certificate by
/// certificate.
pub open spec fn outcomes_view(outcomes: Seq<Result<Resolved, CertError>>) -> Seq<
    Result<ResolvedView, CertErrorView>,
> {
    Seq::new(outcomes.len(), |i: int| outcome_view(outcomes[i]))
}

/// The file of the certificate at `index`: named after the position and the
/// common name, holding the PEM encoding.
pub open spec fn planned_file(output_dir: Seq<char>, index: nat, resolved: ResolvedView) -> PlannedFileView {
    PlannedFileView {
        index,
        common_name: resolved.common_name,
        file: OutputFileView {
            path: certificate_path(output_dir, index, resolved.common_name),
            contents: resolved.pem,
        },
    }
}

/// The files of a chain: one for each certificate that could be read, in
/// the order of the chain, each numbered by its own position in the chain.
pub open spec fn planned_files<E>(output_dir: Seq<char>, outcomes: Seq<Result<ResolvedView, E>>) -> Seq<
    PlannedFileView,
>
    decreases outcomes.len(),
{
    if outcomes.len() == 0 {
        Seq::empty()
    } else {
        let earlier = planned_files(output_dir, outcomes.drop_last());
        match outcomes.last() {
            Ok(resolved) => earlier.push(
                planned_file(output_dir, (outcomes.len() - 1) as nat, resolved),
            ),
            Err(_) => earlier,
        }
    }
}

/// The PEM encodings of the certificates that could be read, in the order of
/// the chain.
pub open spec fn encoded<E>(outcomes: Seq<Result<ResolvedView, E>>) -> Seq<Seq<u8>>
    decreases outcomes.len(),
{
    if outcomes.len() == 0 {
        Seq::empty()
    } else {
        let earlier = encoded(outcomes.drop_last());
        match outcomes.last() {
            Ok(resolved) => earlier.push(resolved.pem),
            Err(_) => earlier,
        }
    }
}

/// The bytes of the full-chain file: the PEM encodings of the certificates
/// that could be read, one after the other in the order of the chain.
pub open spec fn full_chain<E>(outcomes: Seq<Result<ResolvedView, E>>) -> Seq<u8> {
    encoded(outcomes).flatten()
}

/// The warnings of a chain: one for each certificate that could not be
/// read, in the order of the chain, with its position and its error.
pub open spec fn rejected(outcomes: Seq<Result<ResolvedView, CertErrorView>>) -> Seq<WarningView>
    decreases outcomes.len(),
{
    if outcomes.len() == 0 {
        Seq::empty()
    } else {
        let earlier = rejected(outcomes.drop_last());
        match outcomes.last() {
            Ok(_) => earlier,
            Err(error) => earlier.push(
                WarningView { index: (outcomes.len() - 1) as nat, error },
            ),
        }
    }
}

/// What is to be written for a chain that was read with the given outcomes.
pub open spec fn plan_of(output_dir: Seq<char>, outcomes: Seq<Result<ResolvedView, CertErrorView>>) -> PlanView {
    PlanView {
        files: planned_files(output_dir, outcomes),
        full_chain: full_chain(outcomes),
        warnings: rejected(outcomes),
    }
}

/// Decides what is to be written for a chain, from what reading each of its
/// certificates gave. A certificate that could not be read gets no file and
/// no place in the full chain; the others keep their positions.
pub fn plan_chain(output_dir: &str, outcomes: &Vec<Result<Resolved, CertError>>) -> (plan: Plan)
    ensures
        plan@ == plan_of(output_dir@, outcomes_view(outcomes@)),
{
    let ghost all = outcomes_view(outcomes@);
    let mut files: Vec<PlannedFile> = Vec::new();
    let mut blocks: Vec<Vec<u8>> = Vec::new();
    let mut warnings: Vec<Warning> = Vec::new();
    let mut i: usize = 0;
    while i < outcomes.len()
        invariant
            i <= outcomes.len(),
            all == outcomes_view(outcomes@),
            files.deep_view() == planned_files(output_dir@, all.take(i as int)),
            blocks.deep_view() == encoded(all.take(i as int)),
            warnings.deep_view() == rejected(all.take(i as int)),
        decreases outcomes.len() - i,
    {
        assert(all.take(i + 1).drop_last() =~= all.take(i as int));
        match &outcomes[i] {
            Ok(resolved) => {
                let path = certificate_path_text(output_dir, i, resolved.common_name.as_str());
                let file = OutputFile { path, contents: copy_bytes(&resolved.pem) };
                let planned = PlannedFile {
                    index: i,
                    common_name: resolved.common_name.clone(),
                    file,
                };
                let block = copy_bytes(&resolved.pem);
                assert(block.deep_view() =~= resolved.pem@);
                files.push(planned);
                blocks.push(block);
            },
            Err(error) => {
                warnings.push(Warning { index: i, error: error.clone() });
            },
        }
        i += 1;
    }
    assert(all.take(i as int) =~= all);
    let full_chain = merge_certificates(&blocks);
    Plan { files, full_chain, warnings }
}

/// The files keep the positions of their certificates. Every file belongs
/// to a certificate that could be read and is named after that
/// certificate's own position in the chain, so a certificate that could not
/// be read leaves a gap in the numbers; the files stand in the order of the
/// chain; every certificate that could be read has its file; and the PEM
/// blocks of the full chain are the contents of the files, one by one.
pub proof fn files_keep_chain_positions<E>(output_dir: Seq<char>, outcomes: Seq<Result<ResolvedView, E>>)
    ensures
        planned_files(output_dir, outcomes).len() <= outcomes.len(),
        forall|k: int|
            0 <= k < planned_files(output_dir, outcomes).len() ==> {
                let file = #[trigger] planned_files(output_dir, outcomes)[k];
                &&& file.index < outcomes.len()
                &&& outcomes[file.index as int] matches Ok(resolved)
                &&& file == planned_file(output_dir, file.index, resolved)
            },
        forall|k: int, l: int|
            0 <= k < l < planned_files(output_dir, outcomes).len() ==> (#[trigger] planned_files(
                output_dir,
                outcomes,
            )[k]).index < (#[trigger] planned_files(output_dir, outcomes)[l]).index,
        forall|i: int|
            0 <= i < outcomes.len() && (#[trigger] outcomes[i]) is Ok ==> exists|k: int|
                0 <= k < planned_files(output_dir, outcomes).len() && (#[trigger] planned_files(
                    output_dir,
                    outcomes,
                )[k]).index == i,
        encoded(outcomes).len() == planned_files(output_dir, outcomes).len(),
        forall|k: int|
            0 <= k < planned_files(output_dir, outcomes).len() ==> (#[trigger] encoded(
                outcomes,
            )[k]) == planned_files(output_dir, outcomes)[k].file.contents,
    decreases outcomes.len(),
{
    if outcomes.len() > 0 {
        let earlier = outcomes.drop_last();
        let files = planned_files(output_dir, outcomes);
        let files_earlier = planned_files(output_dir, earlier);
        files_keep_chain_positions(output_dir, earlier);
        assert forall|i: int| 0 <= i < outcomes.len() && (#[trigger] outcomes[i]) is Ok implies exists|
            k: int,
        |
            0 <= k < files.len() && (#[trigger] files[k]).index == i by {
            if i < earlier.len() {
                assert(earlier[i] is Ok);
                let k = choose|k: int|
                    0 <= k < files_earlier.len() && (#[trigger] files_earlier[k]).index == i;
                assert(files[k].index == i);
            } else {
                assert(files[files.len() - 1].index == i);
            }
        }
    }
}

/// Where every certificate of a chain of `n` certificates could be read,
/// there are exactly `n` files, and the file at position `k` is the one of
/// the certificate at position `k`, named with the label of `k`; and there
/// is no warning.
pub proof fn whole_chain_is_numbered(
    output_dir: Seq<char>,
    outcomes: Seq<Result<ResolvedView, CertErrorView>>,
)
    requires
        forall|i: int| 0 <= i < outcomes.len() ==> (#[trigger] outcomes[i]) is Ok,
    ensures
        planned_files(output_dir, outcomes).len() == outcomes.len(),
        forall|k: int|
            0 <= k < outcomes.len() ==> #[trigger] planned_files(output_dir, outcomes)[k]
                == planned_file(output_dir, k as nat, outcomes[k]->Ok_0),
        rejected(outcomes).len() == 0,
    decreases outcomes.len(),
{
    if outcomes.len() > 0 {
        whole_chain_is_numbered(output_dir, outcomes.drop_last());
    }
}

/// The full chain of one run of certificates followed by another is the
/// full chain of the first followed by the full chain of the second.
pub proof fn full_chain_of_joined_chains<E>(
    first: Seq<Result<ResolvedView, E>>,
    second: Seq<Result<ResolvedView, E>>,
)
    ensures
        encoded(first + second) == encoded(first) + encoded(second),
        full_chain(first + second) == full_chain(first) + full_chain(second),
    decreases second.len(),
{
    if second.len() > 0 {
        assert((first + second).drop_last() =~= first + second.drop_last());
        full_chain_of_joined_chains(first, second.drop_last());
        match second.last() {
            Ok(resolved) => {
                encoded(first + second.drop_last()).lemma_flatten_push(resolved.pem);
                encoded(second.drop_last()).lemma_flatten_push(resolved.pem);
            },
            Err(_) => {},
        }
    }
}

/// A certificate that could not be read is left out of the full chain and
/// takes nothing else out with it: the full chain is the same as if the
/// certificate were not in the chain at all.
pub proof fn unreadable_certificate_is_left_out<E>(
    before: Seq<Result<ResolvedView, E>>,
    error: E,
    after: Seq<Result<ResolvedView, E>>,
)
    ensures
        full_chain(before.push(Err(error)) + after) == full_chain(before + after),
{
    full_chain_of_joined_chains(before.push(Err(error)), after);
    full_chain_of_joined_chains(before, after);
    assert(before.push(Err(error)).drop_last() =~= before);
}

/// A certificate that could be read adds exactly its PEM encoding at the
/// end of the full chain of the certificates before it.
pub proof fn readable_certificate_is_appended<E>(
    before: Seq<Result<ResolvedView, E>>,
    resolved: ResolvedView,
)
    ensures
        full_chain(before.push(Ok(resolved))) == full_chain(before) + resolved.pem,
{
    assert(before.push(Ok(resolved)).drop_last() =~= before);
    encoded(before).lemma_flatten_push(resolved.pem);
}

/// What reading each certificate of a chain gives, by the DER bytes of the
/// certificates.
pub open spec fn resolutions(chain: Seq<Seq<u8>>) -> Seq<Result<ResolvedView, ErrorKind>> {
    Seq::new(chain.len(), |i: int| resolution_of(chain[i]))
}

/// The plan of a chain is decided by its certificates alone. Whatever text
/// the errors of reading carry, the files are those of the certificates
/// whose common name could be resolved and whose PEM encoding succeeded,
/// and the full chain is the concatenation of exactly those encodings, in
/// the order of the chain.
pub proof fn plan_follows_the_certificates(
    output_dir: Seq<char>,
    chain: Seq<Seq<u8>>,
    outcomes: Seq<Result<Resolved, CertError>>,
)
    requires
        outcomes.len() == chain.len(),
        forall|i: int| 0 <= i < chain.len() ==> resolves_to(#[trigger] chain[i], outcomes[i]),
    ensures
        planned_files(output_dir, outcomes_view(outcomes)) == planned_files(
            output_dir,
            resolutions(chain),
        ),
        encoded(outcomes_view(outcomes)) == encoded(resolutions(chain)),
        full_chain(outcomes_view(outcomes)) == full_chain(resolutions(chain)),
        rejected(outcomes_view(outcomes)).len() + planned_files(output_dir, resolutions(chain)).len()
            == chain.len(),
    decreases chain.len(),
{
    if chain.len() > 0 {
        let shorter = chain.drop_last();
        let fewer = outcomes.drop_last();
        plan_follows_the_certificates(output_dir, shorter, fewer);
        assert(outcomes_view(outcomes).drop_last() =~= outcomes_view(fewer));
        assert(resolutions(chain).drop_last() =~= resolutions(shorter));
    }
}

} // verus!
