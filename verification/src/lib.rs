//! Retrieval and persistence of the certificate chain a TLS server presents.
//!
//! The library holds the decisions of one download run: how certificates are
//! named and numbered, which files are written with which bytes, how the
//! full-chain file is assembled, which failures end the run and which are
//! only recorded. Network, filesystem and child processes belong to the
//! caller, which performs the actions the [`pipeline::Pipeline`] asks for
//! and reports back what happened.

pub mod certificate;
pub mod error;
pub mod naming;
pub mod params;
pub mod persist;
pub mod pipeline;
pub mod run;
pub mod truststore;

pub use certificate::{cert_common_name, Certificate};
pub use error::{map_io_err, map_openssl_err, CertError, ErrorKind};
pub use params::{CLIContext, DownloadParams};
pub use persist::{merge_certificates, save_cert};
pub use pipeline::{Action, Event, Pipeline, Stage};
pub use truststore::generate_truststore;
