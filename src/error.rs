//! The failures of the library.
use vstd::prelude::*;

verus! {

/// A failure of a tunnel operation or of setting one up. Where the failure
/// comes from outside work, `message` holds what that work reported.
#[derive(Debug, Clone, PartialEq, Eq)]
pub enum Error {
    ReadConfigFile { file_path: String, message: String },
    CreateControlPathDirectory { dir_path: String, message: String },
    DomainNotFound { domain: String },
    TunnelNotFound { tunnel: String },
    ExternalCommand { code: i32 },
    UserNameNotFound,
    HomeDirectoryNotFound,
    UserConfigDirectoryNotFound,
    ResolveSocketAddr { address: String, message: String },
    ParseYamlConfig { message: String },
    SpawnSshCommand { message: String },
    WaitForSshProcess { message: String },
    SpawnDockerCommand { message: String },
    WaitForDockerProcess { message: String },
}

/// The value of an `Error`, with its text as sequences of characters.
pub enum ErrorView {
    ReadConfigFile { file_path: Seq<char>, message: Seq<char> },
    CreateControlPathDirectory { dir_path: Seq<char>, message: Seq<char> },
    DomainNotFound { domain: Seq<char> },
    TunnelNotFound { tunnel: Seq<char> },
    ExternalCommand { code: i32 },
    UserNameNotFound,
    HomeDirectoryNotFound,
    UserConfigDirectoryNotFound,
    ResolveSocketAddr { address: Seq<char>, message: Seq<char> },
    ParseYamlConfig { message: Seq<char> },
    SpawnSshCommand { message: Seq<char> },
    WaitForSshProcess { message: Seq<char> },
    SpawnDockerCommand { message: Seq<char> },
    WaitForDockerProcess { message: Seq<char> },
}

impl View for Error {
    type V = ErrorView;

    open spec fn view(&self) -> ErrorView {
        match self {
            Error::ReadConfigFile { file_path, message } => ErrorView::ReadConfigFile {
                file_path: file_path@,
                message: message@,
            },
            Error::CreateControlPathDirectory { dir_path, message } =>
                ErrorView::CreateControlPathDirectory { dir_path: dir_path@, message: message@ },
            Error::DomainNotFound { domain } => ErrorView::DomainNotFound { domain: domain@ },
            Error::TunnelNotFound { tunnel } => ErrorView::TunnelNotFound { tunnel: tunnel@ },
            Error::ExternalCommand { code } => ErrorView::ExternalCommand { code: *code },
            Error::UserNameNotFound => ErrorView::UserNameNotFound,
            Error::HomeDirectoryNotFound => ErrorView::HomeDirectoryNotFound,
            Error::UserConfigDirectoryNotFound => ErrorView::UserConfigDirectoryNotFound,
            Error::ResolveSocketAddr { address, message } => ErrorView::ResolveSocketAddr {
                address: address@,
                message: message@,
            },
            Error::ParseYamlConfig { message } => ErrorView::ParseYamlConfig { message: message@ },
            Error::SpawnSshCommand { message } => ErrorView::SpawnSshCommand { message: message@ },
            Error::WaitForSshProcess { message } => ErrorView::WaitForSshProcess {
                message: message@,
            },
            Error::SpawnDockerCommand { message } => ErrorView::SpawnDockerCommand {
                message: message@,
            },
            Error::WaitForDockerProcess { message } => ErrorView::WaitForDockerProcess {
                message: message@,
            },
        }
    }
}

/// A result whose error is seen through its view.
pub open spec fn result_view<T>(r: Result<T, Error>) -> Result<T, ErrorView> {
    match r {
        Ok(v) => Ok(v),
        Err(e) => Err(e@),
    }
}

} // verus!
