use cert_get::certificate::{Certificate, Resolved};
use cert_get::error::{CertError, ErrorKind};
use cert_get::params::DownloadParams;
use cert_get::persist::{OutputFile, Warning};
use cert_get::pipeline::{chain_event, import_event, Action, Event, Pipeline, Stage};
use cert_get::truststore::ImportCommand;
use openssl::asn1::{Asn1Time, Asn1Type};
use openssl::bn::BigNum;
use openssl::ec::{EcGroup, EcKey};
use openssl::hash::MessageDigest;
use openssl::nid::Nid;
use openssl::pkey::PKey;
use openssl::x509::{X509NameBuilder, X509};

fn params(insecure: bool, generate_jks: bool) -> DownloadParams {
    DownloadParams {
        address: "example.com:443".to_string(),
        output_dir: "./out".to_string(),
        insecure,
        generate_jks,
    }
}

fn read(name: &str, pem: &[u8]) -> Result<Resolved, CertError> {
    Ok(Resolved { common_name: name.to_string(), pem: pem.to_vec() })
}

fn write_of(index: usize, name: &str, path: &str, pem: &[u8]) -> Action {
    Action::WriteCertificate {
        index,
        common_name: name.to_string(),
        file: OutputFile { path: path.to_string(), contents: pem.to_vec() },
    }
}

fn full_chain_of(bytes: &[u8]) -> Action {
    Action::WriteFullChain {
        file: OutputFile { path: "./out/fullchain.pem".to_string(), contents: bytes.to_vec() },
    }
}

fn import_of(index: usize, name: &str, path: &str) -> Action {
    Action::ImportCertificate {
        index,
        command: ImportCommand {
            program: "keytool".to_string(),
            arguments: vec![
                "-importcert".to_string(),
                "-noprompt".to_string(),
                "-alias".to_string(),
                name.to_string(),
                "-keystore".to_string(),
                "./out".to_string(),
                "-file".to_string(),
                path.to_string(),
                "-storepass".to_string(),
                "changeit".to_string(),
            ],
        },
    }
}

/// Feeds the events to a fresh run and returns the run with every action it
/// asked for, the first one included.
fn drive(params: DownloadParams, events: Vec<Event>) -> (Pipeline, Vec<Action>) {
    let mut pipeline = Pipeline::new(params);
    let mut actions = vec![pipeline.pending()];
    for event in events {
        let (next, action) = pipeline.step(event);
        assert_eq!(action, next.pending());
        pipeline = next;
        actions.push(action);
    }
    (pipeline, actions)
}

fn certificate_with(subject: &[(Nid, &str)]) -> X509 {
    let mut name = X509NameBuilder::new().unwrap();
    for (nid, value) in subject {
        name.append_entry_by_nid(*nid, value).unwrap();
    }
    signed(name)
}

/// A self-signed certificate whose common name is a bit string, which is no
/// text.
fn certificate_with_unreadable_name() -> X509 {
    let mut name = X509NameBuilder::new().unwrap();
    name.append_entry_by_nid(Nid::ORGANIZATIONNAME, "Odd").unwrap();
    name.append_entry_by_nid_with_type(Nid::COMMONNAME, "abc", Asn1Type::BIT_STRING).unwrap();
    signed(name)
}

fn signed(name: X509NameBuilder) -> X509 {
    let group = EcGroup::from_curve_name(Nid::X9_62_PRIME256V1).unwrap();
    let key = PKey::from_ec_key(EcKey::generate(&group).unwrap()).unwrap();
    let name = name.build();
    let mut builder = X509::builder().unwrap();
    builder.set_version(2).unwrap();
    let serial = BigNum::from_u32(1).unwrap().to_asn1_integer().unwrap();
    builder.set_serial_number(&serial).unwrap();
    builder.set_subject_name(&name).unwrap();
    builder.set_issuer_name(&name).unwrap();
    builder.set_pubkey(&key).unwrap();
    builder.set_not_before(&Asn1Time::days_from_now(0).unwrap()).unwrap();
    builder.set_not_after(&Asn1Time::days_from_now(1).unwrap()).unwrap();
    builder.sign(&key, MessageDigest::sha256()).unwrap();
    builder.build()
}

fn held(certificate: &X509) -> Certificate {
    Certificate { der: certificate.to_der().unwrap() }
}

#[test]
fn a_new_run_asks_for_the_session() {
    let pipeline = Pipeline::new(params(false, false));
    assert_eq!(pipeline.stage(), Stage::Init);
    assert!(!pipeline.is_finished());
    assert_eq!(
        pipeline.pending(),
        Action::EstablishSession { address: "example.com:443".to_string(), insecure: false }
    );
    assert_eq!(pipeline.warnings().len(), 0);
}

#[test]
fn the_insecure_flag_is_handed_on() {
    assert_eq!(
        Pipeline::new(params(true, false)).pending(),
        Action::EstablishSession { address: "example.com:443".to_string(), insecure: true }
    );
}

#[test]
fn two_certificate_chain_is_written_in_order() {
    let leaf = certificate_with(&[(Nid::COMMONNAME, "example.com")]);
    let intermediate = certificate_with(&[
        (Nid::ORGANIZATIONNAME, "Example Trust"),
        (Nid::COMMONNAME, "Example Intermediate CA"),
    ]);
    let leaf_pem = leaf.to_pem().unwrap();
    let intermediate_pem = intermediate.to_pem().unwrap();
    let mut both = leaf_pem.clone();
    both.extend_from_slice(&intermediate_pem);

    let (pipeline, actions) = drive(
        params(false, false),
        vec![
            Event::SessionEstablished,
            chain_event(Some(vec![held(&leaf), held(&intermediate)])),
            Event::DirectoryCreated,
            Event::FileWritten,
            Event::FileWritten,
            Event::FileWritten,
        ],
    );
    assert_eq!(
        actions,
        vec![
            Action::EstablishSession { address: "example.com:443".to_string(), insecure: false },
            Action::ExtractChain,
            Action::CreateDirectory { path: "./out".to_string() },
            write_of(0, "example.com", "./out/00-example.com.pem", &leaf_pem),
            write_of(
                1,
                "Example Intermediate CA",
                "./out/01-Example Intermediate CA.pem",
                &intermediate_pem
            ),
            full_chain_of(&both),
            Action::Finish(Ok(())),
        ]
    );
    assert_eq!(pipeline.stage(), Stage::Done);
    assert!(pipeline.is_finished());
    assert_eq!(pipeline.warnings().len(), 0);
}

#[test]
fn unreadable_certificate_leaves_a_gap_and_a_warning() {
    let leaf = certificate_with(&[(Nid::COMMONNAME, "leaf.example")]);
    let nameless = certificate_with(&[(Nid::ORGANIZATIONNAME, "Nameless")]);
    let root = certificate_with(&[(Nid::COMMONNAME, "Root CA")]);
    let leaf_pem = leaf.to_pem().unwrap();
    let root_pem = root.to_pem().unwrap();
    let mut two = leaf_pem.clone();
    two.extend_from_slice(&root_pem);

    let (pipeline, actions) = drive(
        params(false, false),
        vec![
            Event::SessionEstablished,
            chain_event(Some(vec![held(&leaf), held(&nameless), held(&root)])),
            Event::DirectoryCreated,
            Event::FileWritten,
            Event::FileWritten,
            Event::FileWritten,
        ],
    );
    assert_eq!(
        actions.into_iter().skip(3).collect::<Vec<Action>>(),
        vec![
            write_of(0, "leaf.example", "./out/00-leaf.example.pem", &leaf_pem),
            write_of(2, "Root CA", "./out/02-Root CA.pem", &root_pem),
            full_chain_of(&two),
            Action::Finish(Ok(())),
        ]
    );
    assert_eq!(
        pipeline.warnings(),
        &vec![Warning { index: 1, error: CertError::bare(ErrorKind::CommonNameNotFound) }]
    );
    assert_eq!(pipeline.stage(), Stage::Done);
}

#[test]
fn unparseable_common_name_leaves_a_gap_and_a_warning() {
    let leaf = certificate_with(&[(Nid::COMMONNAME, "leaf.example")]);
    let odd = certificate_with_unreadable_name();
    let root = certificate_with(&[(Nid::COMMONNAME, "Root CA")]);
    let leaf_pem = leaf.to_pem().unwrap();
    let root_pem = root.to_pem().unwrap();
    let mut two = leaf_pem.clone();
    two.extend_from_slice(&root_pem);

    let (pipeline, actions) = drive(
        params(false, false),
        vec![
            Event::SessionEstablished,
            chain_event(Some(vec![held(&leaf), held(&odd), held(&root)])),
            Event::DirectoryCreated,
            Event::FileWritten,
            Event::FileWritten,
            Event::FileWritten,
        ],
    );
    assert_eq!(
        actions.into_iter().skip(3).collect::<Vec<Action>>(),
        vec![
            write_of(0, "leaf.example", "./out/00-leaf.example.pem", &leaf_pem),
            write_of(2, "Root CA", "./out/02-Root CA.pem", &root_pem),
            full_chain_of(&two),
            Action::Finish(Ok(())),
        ]
    );
    assert_eq!(
        pipeline.warnings(),
        &vec![Warning { index: 1, error: CertError::new(ErrorKind::Encoding, "utf-8 parsing") }]
    );
    assert_eq!(pipeline.stage(), Stage::Done);
}

#[test]
fn common_name_that_is_no_text_leaves_a_gap_and_a_warning() {
    let chain = vec![
        read("a", b"A"),
        Err(CertError::new(ErrorKind::Encoding, "utf-8 parsing")),
        read("c", b"C"),
    ];
    let (pipeline, actions) = drive(
        params(false, false),
        vec![
            Event::SessionEstablished,
            Event::PeerChain(Some(chain)),
            Event::DirectoryCreated,
            Event::FileWritten,
            Event::FileWritten,
            Event::FileWritten,
        ],
    );
    assert_eq!(
        actions.into_iter().skip(3).collect::<Vec<Action>>(),
        vec![
            write_of(0, "a", "./out/00-a.pem", b"A"),
            write_of(2, "c", "./out/02-c.pem", b"C"),
            full_chain_of(b"AC"),
            Action::Finish(Ok(())),
        ]
    );
    assert_eq!(
        pipeline.warnings(),
        &vec![Warning { index: 1, error: CertError::new(ErrorKind::Encoding, "utf-8 parsing") }]
    );
}

fn no_chain() -> Action {
    Action::Finish(Err(CertError::bare(ErrorKind::NoCertificateChain)))
}

#[test]
fn missing_chain_fails_before_anything_is_written() {
    let (pipeline, actions) = drive(
        params(false, true),
        vec![
            Event::SessionEstablished,
            chain_event(None),
            Event::DirectoryCreated,
            Event::FileWritten,
            Event::ImportSucceeded,
        ],
    );
    assert_eq!(
        actions,
        vec![
            Action::EstablishSession { address: "example.com:443".to_string(), insecure: false },
            Action::ExtractChain,
            no_chain(),
            no_chain(),
            no_chain(),
            no_chain(),
        ]
    );
    assert_eq!(pipeline.stage(), Stage::Failed);
    assert!(pipeline.is_finished());
}

#[test]
fn chain_without_certificates_fails_like_a_missing_chain() {
    let (pipeline, actions) = drive(
        params(true, false),
        vec![Event::SessionEstablished, chain_event(Some(Vec::new())), Event::DirectoryCreated],
    );
    assert_eq!(actions[2], no_chain());
    assert_eq!(actions[3], no_chain());
    assert_eq!(pipeline.stage(), Stage::Failed);
    match &actions[2] {
        Action::Finish(Err(error)) => {
            assert!(error.is_fatal());
            assert_eq!(
                error.message(),
                "it was not possible to get certificate chain from server"
            );
        }
        other => panic!("unexpected action {:?}", other),
    }
}

#[test]
fn connection_failure_ends_the_run() {
    let (pipeline, actions) = drive(
        params(false, false),
        vec![Event::ConnectionFailed("connection refused".to_string()), Event::SessionEstablished],
    );
    let failure = CertError::new(ErrorKind::Connection, "connection refused");
    assert_eq!(actions[1], Action::Finish(Err(failure.clone())));
    assert_eq!(actions[2], Action::Finish(Err(failure)));
    assert_eq!(pipeline.stage(), Stage::Failed);
}

#[test]
fn handshake_failure_ends_the_run_even_when_insecure() {
    let (pipeline, actions) =
        drive(params(true, false), vec![Event::HandshakeFailed("wrong version".to_string())]);
    assert_eq!(
        actions[1],
        Action::Finish(Err(CertError::new(ErrorKind::Handshake, "wrong version")))
    );
    assert_eq!(pipeline.stage(), Stage::Failed);
}

#[test]
fn directory_failure_ends_the_run_before_any_write() {
    let (pipeline, actions) = drive(
        params(false, true),
        vec![
            Event::SessionEstablished,
            Event::PeerChain(Some(vec![read("a", b"A")])),
            Event::DirectoryFailed("permission denied".to_string()),
            Event::FileWritten,
            Event::FileWritten,
        ],
    );
    let failure = CertError::new(ErrorKind::DirectoryCreation, "permission denied");
    assert_eq!(actions[2], Action::CreateDirectory { path: "./out".to_string() });
    assert_eq!(actions[3], Action::Finish(Err(failure.clone())));
    assert_eq!(actions[4], Action::Finish(Err(failure.clone())));
    assert_eq!(actions[5], Action::Finish(Err(failure)));
    assert_eq!(pipeline.stage(), Stage::Failed);
}

#[test]
fn the_directory_is_asked_for_before_the_first_file() {
    let (pipeline, actions) = drive(
        params(false, false),
        vec![
            Event::SessionEstablished,
            Event::PeerChain(Some(vec![read("a", b"A")])),
            Event::FileWritten,
            Event::FileWriteFailed("early".to_string()),
        ],
    );
    assert_eq!(actions[2], Action::CreateDirectory { path: "./out".to_string() });
    assert_eq!(actions[3], Action::CreateDirectory { path: "./out".to_string() });
    assert_eq!(actions[4], Action::CreateDirectory { path: "./out".to_string() });
    assert_eq!(pipeline.stage(), Stage::ChainExtracted);
    assert_eq!(pipeline.warnings().len(), 0);
}

#[test]
fn failed_write_is_a_warning_and_the_run_goes_on() {
    let (pipeline, actions) = drive(
        params(false, false),
        vec![
            Event::SessionEstablished,
            Event::PeerChain(Some(vec![read("a", b"A"), read("b", b"B"), read("c", b"C")])),
            Event::DirectoryCreated,
            Event::FileWritten,
            Event::FileWriteFailed("disk full".to_string()),
            Event::FileWritten,
            Event::FileWritten,
        ],
    );
    assert_eq!(
        actions.into_iter().skip(3).collect::<Vec<Action>>(),
        vec![
            write_of(0, "a", "./out/00-a.pem", b"A"),
            write_of(1, "b", "./out/01-b.pem", b"B"),
            write_of(2, "c", "./out/02-c.pem", b"C"),
            full_chain_of(b"ABC"),
            Action::Finish(Ok(())),
        ]
    );
    assert_eq!(
        pipeline.warnings(),
        &vec![Warning { index: 1, error: CertError::new(ErrorKind::FileWrite, "disk full") }]
    );
    assert_eq!(pipeline.stage(), Stage::Done);
}

#[test]
fn full_chain_is_written_even_when_no_certificate_could_be_read() {
    let (pipeline, actions) = drive(
        params(false, true),
        vec![
            Event::SessionEstablished,
            Event::PeerChain(Some(vec![
                Err(CertError::bare(ErrorKind::CommonNameNotFound)),
                Err(CertError::new(ErrorKind::Encoding, "pem encoding: x")),
            ])),
            Event::DirectoryCreated,
            Event::FileWritten,
        ],
    );
    assert_eq!(actions[3], full_chain_of(b""));
    assert_eq!(actions[4], Action::Finish(Ok(())));
    assert_eq!(pipeline.warnings().len(), 2);
    assert_eq!(pipeline.warnings()[0].index, 0);
    assert_eq!(pipeline.warnings()[1].index, 1);
    assert_eq!(pipeline.stage(), Stage::Done);
}

#[test]
fn failed_full_chain_write_fails_the_run() {
    let (pipeline, actions) = drive(
        params(false, true),
        vec![
            Event::SessionEstablished,
            Event::PeerChain(Some(vec![read("a", b"A")])),
            Event::DirectoryCreated,
            Event::FileWritten,
            Event::FileWriteFailed("read-only".to_string()),
            Event::ImportSucceeded,
        ],
    );
    let failure = CertError::new(ErrorKind::FileWrite, "read-only");
    assert_eq!(actions[4], full_chain_of(b"A"));
    assert_eq!(actions[5], Action::Finish(Err(failure.clone())));
    assert_eq!(actions[6], Action::Finish(Err(failure)));
    assert_eq!(pipeline.stage(), Stage::Failed);
}

#[test]
fn trust_store_gets_every_written_certificate() {
    let (pipeline, actions) = drive(
        params(false, true),
        vec![
            Event::SessionEstablished,
            Event::PeerChain(Some(vec![read("a", b"A"), read("b", b"B"), read("c", b"C")])),
            Event::DirectoryCreated,
            Event::FileWritten,
            Event::FileWriteFailed("disk full".to_string()),
            Event::FileWritten,
            Event::FileWritten,
            Event::ImportFailed("exit status: 1".to_string()),
            Event::ImportSucceeded,
        ],
    );
    assert_eq!(
        actions.into_iter().skip(7).collect::<Vec<Action>>(),
        vec![
            import_of(0, "a", "./out/00-a.pem"),
            import_of(2, "c", "./out/02-c.pem"),
            Action::Finish(Ok(())),
        ]
    );
    assert_eq!(
        pipeline.warnings(),
        &vec![
            Warning { index: 1, error: CertError::new(ErrorKind::FileWrite, "disk full") },
            Warning {
                index: 0,
                error: CertError::new(ErrorKind::TrustStoreImport, "exit status: 1"),
            },
        ]
    );
    assert_eq!(pipeline.stage(), Stage::Done);
}

#[test]
fn missing_tool_is_a_warning_for_each_certificate() {
    let (pipeline, actions) = drive(
        params(false, true),
        vec![
            Event::SessionEstablished,
            Event::PeerChain(Some(vec![read("a", b"A"), read("b", b"B")])),
            Event::DirectoryCreated,
            Event::FileWritten,
            Event::FileWritten,
            Event::FileWritten,
            Event::ToolNotFound("No such file or directory".to_string()),
            Event::ToolNotFound("No such file or directory".to_string()),
        ],
    );
    assert_eq!(actions[6], import_of(0, "a", "./out/00-a.pem"));
    assert_eq!(actions[7], import_of(1, "b", "./out/01-b.pem"));
    assert_eq!(actions[8], Action::Finish(Ok(())));
    assert_eq!(
        pipeline.warnings(),
        &vec![
            Warning {
                index: 0,
                error: CertError::new(ErrorKind::ToolNotFound, "No such file or directory"),
            },
            Warning {
                index: 1,
                error: CertError::new(ErrorKind::ToolNotFound, "No such file or directory"),
            },
        ]
    );
}

#[test]
fn trust_store_is_skipped_unless_asked_for() {
    let (pipeline, actions) = drive(
        params(false, false),
        vec![
            Event::SessionEstablished,
            Event::PeerChain(Some(vec![read("a", b"A")])),
            Event::DirectoryCreated,
            Event::FileWritten,
            Event::FileWritten,
            Event::ImportFailed("late".to_string()),
        ],
    );
    assert_eq!(actions[5], Action::Finish(Ok(())));
    assert_eq!(actions[6], Action::Finish(Ok(())));
    assert_eq!(pipeline.warnings().len(), 0);
    assert_eq!(pipeline.stage(), Stage::Done);
}

#[test]
fn trust_store_without_written_files_ends_the_run() {
    let (pipeline, actions) = drive(
        params(false, true),
        vec![
            Event::SessionEstablished,
            Event::PeerChain(Some(vec![read("a", b"A")])),
            Event::DirectoryCreated,
            Event::FileWriteFailed("denied".to_string()),
            Event::FileWritten,
        ],
    );
    assert_eq!(actions[5], Action::Finish(Ok(())));
    assert_eq!(pipeline.stage(), Stage::Done);
}

#[test]
fn an_event_that_answers_nothing_changes_nothing() {
    let (pipeline, actions) = drive(
        params(false, false),
        vec![
            Event::DirectoryCreated,
            Event::FileWritten,
            Event::PeerChain(None),
            Event::ImportSucceeded,
        ],
    );
    for action in &actions {
        assert_eq!(
            action,
            &Action::EstablishSession { address: "example.com:443".to_string(), insecure: false }
        );
    }
    assert_eq!(pipeline.stage(), Stage::Init);
}

#[test]
fn stages_follow_the_run() {
    let mut pipeline = Pipeline::new(params(false, true));
    let mut stages = vec![pipeline.stage()];
    for event in vec![
        Event::SessionEstablished,
        Event::PeerChain(Some(vec![read("a", b"A"), read("b", b"B")])),
        Event::DirectoryCreated,
        Event::FileWritten,
        Event::FileWritten,
        Event::FileWritten,
        Event::ImportSucceeded,
        Event::ImportSucceeded,
    ] {
        pipeline = pipeline.step(event).0;
        stages.push(pipeline.stage());
    }
    assert_eq!(
        stages,
        vec![
            Stage::Init,
            Stage::Connected,
            Stage::ChainExtracted,
            Stage::PerCertificate { next: 0 },
            Stage::PerCertificate { next: 1 },
            Stage::FullChain,
            Stage::TrustStoreBuilding { next: 0 },
            Stage::TrustStoreBuilding { next: 1 },
            Stage::Done,
        ]
    );
}

#[test]
fn chain_event_reads_every_certificate() {
    let leaf = certificate_with(&[(Nid::COMMONNAME, "leaf.example")]);
    let event = chain_event(Some(vec![held(&leaf), Certificate { der: vec![0] }]));
    match event {
        Event::PeerChain(Some(outcomes)) => {
            assert_eq!(outcomes.len(), 2);
            assert_eq!(
                outcomes[0],
                Ok(Resolved {
                    common_name: "leaf.example".to_string(),
                    pem: leaf.to_pem().unwrap(),
                })
            );
            assert_eq!(outcomes[1].as_ref().unwrap_err().kind, ErrorKind::Encoding);
        }
        other => panic!("unexpected event {:?}", other),
    }
    assert_eq!(chain_event(None), Event::PeerChain(None));
    assert_eq!(chain_event(Some(Vec::new())), Event::PeerChain(Some(Vec::new())));
}

#[test]
fn exit_code_zero_is_the_only_success() {
    assert_eq!(import_event(Some(0), "exit status: 0".to_string()), Event::ImportSucceeded);
    assert_eq!(
        import_event(Some(1), "Some(1) - exit status: 1".to_string()),
        Event::ImportFailed("Some(1) - exit status: 1".to_string())
    );
    assert_eq!(
        import_event(Some(-1), "x".to_string()),
        Event::ImportFailed("x".to_string())
    );
    assert_eq!(
        import_event(None, "None - signal: 9".to_string()),
        Event::ImportFailed("None - signal: 9".to_string())
    );
}
