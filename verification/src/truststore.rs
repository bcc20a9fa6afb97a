//! Building a trust store from the certificates that were written.
//!
//! The store is built by an external tool, one call per certificate. Here
//! it is decided what each call looks like; the caller runs the tool.

use vstd::prelude::*;
use vstd::string::StringExecFns;

verus! {

/// A certificate file on disk: the position of its certificate in the
/// chain, the file's path, and the certificate's common name.
#[derive(Debug, PartialEq, Eq)]
pub struct CertificateFile {
    pub index: usize,
    pub path: String,
    pub common_name: String,
}

/// The mathematical value of a [`CertificateFile`].
pub struct CertificateFileView {
    pub index: nat,
    pub path: Seq<char>,
    pub common_name: Seq<char>,
}

impl View for CertificateFile {
    type V = CertificateFileView;

    open spec fn view(&self) -> CertificateFileView {
        CertificateFileView {
            index: self.index as nat,
            path: self.path@,
            common_name: self.common_name@,
        }
    }
}

impl DeepView for CertificateFile {
    type V = CertificateFileView;

    open spec fn deep_view(&self) -> CertificateFileView {
        self@
    }
}

impl Clone for CertificateFile {
    fn clone(&self) -> (copy: Self)
        ensures
            copy@ == self@,
    {
        CertificateFile {
            index: self.index,
            path: self.path.clone(),
            common_name: self.common_name.clone(),
        }
    }
}

/// One call of the trust-store tool: the program and its arguments.
#[derive(Debug, PartialEq, Eq)]
pub struct ImportCommand {
    pub program: String,
    pub arguments: Vec<String>,
}

/// The mathematical value of an [`ImportCommand`].
pub struct ImportCommandView {
    pub program: Seq<char>,
    pub arguments: Seq<Seq<char>>,
}

impl View for ImportCommand {
    type V = ImportCommandView;

    open spec fn view(&self) -> ImportCommandView {
        ImportCommandView { program: self.program@, arguments: self.arguments.deep_view() }
    }
}

impl DeepView for ImportCommand {
    type V = ImportCommandView;

    open spec fn deep_view(&self) -> ImportCommandView {
        self@
    }
}

/// The arguments of the call that imports one certificate file: the import
/// subcommand, the flag that suppresses prompts, the alias, which is the
/// certificate's common name, the store, the file, and the store's
/// password.
pub open spec fn import_arguments(
    file: CertificateFileView,
    trust_store_path: Seq<char>,
    password: Seq<char>,
) -> Seq<Seq<char>> {
    seq![
        "-importcert"@,
        "-noprompt"@,
        "-alias"@,
        file.common_name,
        "-keystore"@,
        trust_store_path,
        "-file"@,
        file.path,
        "-storepass"@,
        password,
    ]
}

/// The call of the trust-store tool that imports one certificate file.
pub open spec fn import_command(
    file: CertificateFileView,
    trust_store_path: Seq<char>,
    password: Seq<char>,
) -> ImportCommandView {
    ImportCommandView {
        program: "keytool"@,
        arguments: import_arguments(file, trust_store_path, password),
    }
}

/// Builds the call of the trust-store tool that imports one certificate
/// file under an alias equal to its common name. The tool creates the store
/// on the first import.
pub fn import_command_for(file: &CertificateFile, trust_store_path: &str, password: &str) -> (command:
    ImportCommand)
    ensures
        command@ == import_command(file@, trust_store_path@, password@),
{
    let mut arguments: Vec<String> = Vec::new();
    arguments.push(String::from_str("-importcert"));
    arguments.push(String::from_str("-noprompt"));
    arguments.push(String::from_str("-alias"));
    arguments.push(file.common_name.clone());
    arguments.push(String::from_str("-keystore"));
    arguments.push(String::from_str(trust_store_path));
    arguments.push(String::from_str("-file"));
    arguments.push(file.path.clone());
    arguments.push(String::from_str("-storepass"));
    arguments.push(String::from_str(password));
    assert(arguments.deep_view() =~= import_arguments(file@, trust_store_path@, password@));
    ImportCommand { program: String::from_str("keytool"), arguments }
}

/// The calls that build a trust store from certificate files: one call for
/// each file, in the order of the files. No call depends on how another
/// ended, so a failed import does not keep the others from being made.
pub fn generate_truststore(
    certificate_files: &Vec<CertificateFile>,
    output_file_path: &str,
    password: &str,
) -> (commands: Vec<ImportCommand>)
    ensures
        commands.len() == certificate_files.len(),
        forall|i: int|
            0 <= i < certificate_files.len() ==> (#[trigger] commands[i])@ == import_command(
                certificate_files[i]@,
                output_file_path@,
                password@,
            ),
{
    let mut commands: Vec<ImportCommand> = Vec::new();
    let mut i: usize = 0;
    while i < certificate_files.len()
        invariant
            i <= certificate_files.len(),
            commands.len() == i,
            forall|j: int|
                0 <= j < i ==> (#[trigger] commands[j])@ == import_command(
                    certificate_files[j]@,
                    output_file_path@,
                    password@,
                ),
        decreases certificate_files.len() - i,
    {
        let command = import_command_for(&certificate_files[i], output_file_path, password);
        commands.push(command);
        i += 1;
    }
    commands
}

} // verus!
