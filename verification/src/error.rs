//! The errors that the tool reports.
use vstd::prelude::*;

verus! {

/// The category of an error, as `std::io::ErrorKind` names it.
#[derive(Clone, Copy, Debug, PartialEq, Eq, Structural)]
pub enum ErrorKind {
    NotFound,
    InvalidData,
    Other,
}

/// Every failure the tool reports to its caller.
#[derive(Clone, Debug)]
pub enum DockError {
    /// docker could not be started, or waiting for it failed.
    DockerNotFound,
    /// docker ran and exited unsuccessfully.
    DockerFailed,
    /// ssh could not be started.
    SshNotFound,
    /// rsync could not be started.
    RsyncNotFound,
    /// `clear` could not be started.
    ClearFailed,
    /// `docker login` failed.
    LoginFailed,
    /// `docker logout` failed.
    LogoutFailed,
    /// The configuration is not a table.
    NotATable,
    /// The configuration could not be read.
    MissingConfiguration,
    /// A program could not be started.
    ProgramNotFound,
    /// ncat ran but could not reach the server.
    ConnexionFailed,
    /// ncat could not be run.
    NcatNotFound,
    /// There is no `Dockerfile` in the current folder.
    DockerfileNotFound,
    /// A local container has no folder with a `compose.yaml`.
    ContainerNotADir,
    /// The configuration has no `local` entry.
    MissingLocal,
    /// The configuration is not a table (local deployment).
    InvalidDockerConfig,
    /// The configuration could not be read (local deployment).
    LocalConfigNotFound,
    /// The configuration could not be read (remote deployment).
    RemoteConfigNotFound,
    /// ranger could not be started.
    RangerFailed,
    /// `docker image rm` failed.
    RemoveFailed,
    /// `docker stop` failed.
    StopFailed,
    /// `docker run` failed.
    RunFailed,
    /// `docker restart` failed.
    RestartFailed,
    /// Creating the `Dockerfile` failed.
    DockerfileCreateFailed,
    /// Creating `compose.yaml` failed.
    ComposeCreateFailed,
    /// `touch` could not be started.
    TouchNotFound,
    /// An error that the operating system reported, passed on as it came:
    /// its category, its raw OS code when it has one, and its text.
    System { kind: ErrorKind, code: Option<i32>, message: String },
}

/// The category of each error.
pub open spec fn spec_error_kind(e: DockError) -> ErrorKind {
    match e {
        DockError::DockerFailed => ErrorKind::Other,
        DockError::NotATable => ErrorKind::InvalidData,
        DockError::System { kind, .. } => kind,
        _ => ErrorKind::NotFound,
    }
}

/// The text of each error.
pub open spec fn spec_error_message(e: DockError) -> Seq<char> {
    match e {
        DockError::DockerNotFound => "docker not found"@,
        DockError::DockerFailed => "Docker exited with status no 0"@,
        DockError::SshNotFound => "ssh not found"@,
        DockError::RsyncNotFound => "rsync not found"@,
        DockError::ClearFailed => "clear failed"@,
        DockError::LoginFailed => "docker username not found"@,
        DockError::LogoutFailed => "docker logout not found"@,
        DockError::NotATable => "must be a table"@,
        DockError::MissingConfiguration => "Missing configuration"@,
        DockError::ProgramNotFound => "program not found"@,
        DockError::ConnexionFailed => "ncat connexion failed"@,
        DockError::NcatNotFound => "ncat not founded"@,
        DockError::DockerfileNotFound => "Dockerfile not found"@,
        DockError::ContainerNotADir => "docker container is not a dir"@,
        DockError::MissingLocal => "missing local id"@,
        DockError::InvalidDockerConfig => "docker config not valid"@,
        DockError::LocalConfigNotFound => "docks.toml config not found"@,
        DockError::RemoteConfigNotFound => "docks.toml not found"@,
        DockError::RangerFailed => "Failed to run ranger"@,
        DockError::RemoveFailed => "Failed to remove image"@,
        DockError::StopFailed => "Failed to stop the container"@,
        DockError::RunFailed => "Failed to run the container"@,
        DockError::RestartFailed => "Failed to restart the container"@,
        DockError::DockerfileCreateFailed => "Failed to create Dockerfile"@,
        DockError::ComposeCreateFailed => "Failed to create compose.yaml"@,
        DockError::TouchNotFound => "touch not found"@,
        DockError::System { message, .. } => message@,
    }
}

impl DockError {
    /// The category of this error.
    pub fn kind(&self) -> (k: ErrorKind)
        ensures
            k == spec_error_kind(*self),
    {
        match self {
            DockError::DockerFailed => ErrorKind::Other,
            DockError::NotATable => ErrorKind::InvalidData,
            DockError::System { kind, .. } => *kind,
            _ => ErrorKind::NotFound,
        }
    }

    /// The text of this error.
    pub fn message(&self) -> (m: String)
        ensures
            m@ == spec_error_message(*self),
    {
        let text: &str = match self {
            DockError::DockerNotFound => "docker not found",
            DockError::DockerFailed => "Docker exited with status no 0",
            DockError::SshNotFound => "ssh not found",
            DockError::RsyncNotFound => "rsync not found",
            DockError::ClearFailed => "clear failed",
            DockError::LoginFailed => "docker username not found",
            DockError::LogoutFailed => "docker logout not found",
            DockError::NotATable => "must be a table",
            DockError::MissingConfiguration => "Missing configuration",
            DockError::ProgramNotFound => "program not found",
            DockError::ConnexionFailed => "ncat connexion failed",
            DockError::NcatNotFound => "ncat not founded",
            DockError::DockerfileNotFound => "Dockerfile not found",
            DockError::ContainerNotADir => "docker container is not a dir",
            DockError::MissingLocal => "missing local id",
            DockError::InvalidDockerConfig => "docker config not valid",
            DockError::LocalConfigNotFound => "docks.toml config not found",
            DockError::RemoteConfigNotFound => "docks.toml not found",
            DockError::RangerFailed => "Failed to run ranger",
            DockError::RemoveFailed => "Failed to remove image",
            DockError::StopFailed => "Failed to stop the container",
            DockError::RunFailed => "Failed to run the container",
            DockError::RestartFailed => "Failed to restart the container",
            DockError::DockerfileCreateFailed => "Failed to create Dockerfile",
            DockError::ComposeCreateFailed => "Failed to create compose.yaml",
            DockError::TouchNotFound => "touch not found",
            DockError::System { message, .. } => message.as_str(),
        };
        String::from_str(text)
    }
}

impl DockError {
    /// A copy of this error.
    pub fn duplicate(&self) -> (r: DockError)
        ensures
            r == *self,
    {
        match self {
            DockError::DockerNotFound => DockError::DockerNotFound,
            DockError::DockerFailed => DockError::DockerFailed,
            DockError::SshNotFound => DockError::SshNotFound,
            DockError::RsyncNotFound => DockError::RsyncNotFound,
            DockError::ClearFailed => DockError::ClearFailed,
            DockError::LoginFailed => DockError::LoginFailed,
            DockError::LogoutFailed => DockError::LogoutFailed,
            DockError::NotATable => DockError::NotATable,
            DockError::MissingConfiguration => DockError::MissingConfiguration,
            DockError::ProgramNotFound => DockError::ProgramNotFound,
            DockError::ConnexionFailed => DockError::ConnexionFailed,
            DockError::NcatNotFound => DockError::NcatNotFound,
            DockError::DockerfileNotFound => DockError::DockerfileNotFound,
            DockError::ContainerNotADir => DockError::ContainerNotADir,
            DockError::MissingLocal => DockError::MissingLocal,
            DockError::InvalidDockerConfig => DockError::InvalidDockerConfig,
            DockError::LocalConfigNotFound => DockError::LocalConfigNotFound,
            DockError::RemoteConfigNotFound => DockError::RemoteConfigNotFound,
            DockError::RangerFailed => DockError::RangerFailed,
            DockError::RemoveFailed => DockError::RemoveFailed,
            DockError::StopFailed => DockError::StopFailed,
            DockError::RunFailed => DockError::RunFailed,
            DockError::RestartFailed => DockError::RestartFailed,
            DockError::DockerfileCreateFailed => DockError::DockerfileCreateFailed,
            DockError::ComposeCreateFailed => DockError::ComposeCreateFailed,
            DockError::TouchNotFound => DockError::TouchNotFound,
            DockError::System { kind, code, message } => DockError::System { kind: *kind, code: *code, message: message.clone() },
        }
    }
}

} // verus!
