//! The configuration record of one run and the command-line values it is
//! made from.

use vstd::prelude::*;
use vstd::std_specs::convert::FromSpecImpl;
use vstd::string::StringExecFns;

verus! {

/// Options for the download of a server's certificates. Built once per run.
#[derive(Debug, PartialEq, Eq)]
pub struct DownloadParams {
    /// The server, as `HOST:PORT` or `IP:PORT`.
    pub address: String,
    /// The directory the certificates are written to.
    pub output_dir: String,
    /// Skip the validation of the server's certificates.
    pub insecure: bool,
    /// Build a trust store from the certificates that were written.
    pub generate_jks: bool,
}

/// The mathematical value of [`DownloadParams`].
pub struct DownloadParamsView {
    pub address: Seq<char>,
    pub output_dir: Seq<char>,
    pub insecure: bool,
    pub generate_jks: bool,
}

impl View for DownloadParams {
    type V = DownloadParamsView;

    open spec fn view(&self) -> DownloadParamsView {
        DownloadParamsView {
            address: self.address@,
            output_dir: self.output_dir@,
            insecure: self.insecure,
            generate_jks: self.generate_jks,
        }
    }
}

impl Clone for DownloadParams {
    fn clone(&self) -> (copy: Self)
        ensures
            copy@ == self@,
    {
        DownloadParams {
            address: self.address.clone(),
            output_dir: self.output_dir.clone(),
            insecure: self.insecure,
            generate_jks: self.generate_jks,
        }
    }
}

/// What the command line or the prompts gave: host and port apart.
#[derive(Debug, PartialEq, Eq)]
pub struct CLIContext {
    pub host: String,
    pub port: String,
    pub output_dir: String,
    pub insecure: bool,
    pub generate_jks: bool,
}

/// Host and port joined by a colon.
pub open spec fn address_of(host: Seq<char>, port: Seq<char>) -> Seq<char> {
    host + ":"@ + port
}

impl CLIContext {
    /// The server's address: the host, a colon, the port.
    pub fn address(&self) -> (address: String)
        ensures
            address@ == address_of(self.host@, self.port@),
    {
        let mut address = self.host.clone();
        address.append(":");
        address.append(self.port.as_str());
        address
    }

    /// The parameters of the run these values ask for.
    pub open spec fn params(&self) -> DownloadParamsView {
        DownloadParamsView {
            address: address_of(self.host@, self.port@),
            output_dir: self.output_dir@,
            insecure: self.insecure,
            generate_jks: self.generate_jks,
        }
    }
}

impl<'a> From<&'a CLIContext> for DownloadParams {
    /// The parameters of the run that the command-line values ask for.
    fn from(cli_context: &'a CLIContext) -> (params: DownloadParams)
        ensures
            params@ == cli_context.params(),
    {
        DownloadParams {
            address: cli_context.address(),
            output_dir: cli_context.output_dir.clone(),
            insecure: cli_context.insecure,
            generate_jks: cli_context.generate_jks,
        }
    }
}

impl<'a> FromSpecImpl<&'a CLIContext> for DownloadParams {
    /// The result is stated by `from` itself, over views: equal views do
    /// not make two strings the same value.
    open spec fn obeys_from_spec() -> bool {
        false
    }

    open spec fn from_spec(cli_context: &'a CLIContext) -> DownloadParams {
        arbitrary()
    }
}

} // verus!
