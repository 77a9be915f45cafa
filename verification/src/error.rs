use vstd::prelude::*;
use vstd::string::StringExecFns;

verus! {

/// Why a resolution or launch attempt failed. Every failure is terminal
/// for the attempt in which it arose: nothing is retried internally.
#[derive(Debug, Clone, PartialEq, Eq)]
pub enum InstallationError {
    /// The release feed was unreachable or returned no qualifying release.
    Feed { message: String },
    /// No asset of the release carried the expected file name.
    AssetNotFound { asset_name: String },
    /// Fetching the asset's content failed.
    Download { message: String },
    /// The asset file name could not be made absolute, or the absolute
    /// path was not representable as text.
    Path { message: String },
    /// No `java` executable was found on the search path.
    JavaNotFound,
}

/// Mathematical image of an `InstallationError`.
pub enum ErrorModel {
    Feed { message: Seq<char> },
    AssetNotFound { asset_name: Seq<char> },
    Download { message: Seq<char> },
    Path { message: Seq<char> },
    JavaNotFound,
}

impl View for InstallationError {
    type V = ErrorModel;

    open spec fn view(&self) -> ErrorModel {
        match self {
            InstallationError::Feed { message } => ErrorModel::Feed { message: message@ },
            InstallationError::AssetNotFound { asset_name } => ErrorModel::AssetNotFound {
                asset_name: asset_name@,
            },
            InstallationError::Download { message } => ErrorModel::Download { message: message@ },
            InstallationError::Path { message } => ErrorModel::Path { message: message@ },
            InstallationError::JavaNotFound => ErrorModel::JavaNotFound,
        }
    }
}

/// The text that reaches the user for each failure. Feed and path errors
/// carry the collaborator's report verbatim; the others prefix it with
/// what was being attempted.
pub open spec fn message_of(e: ErrorModel) -> Seq<char> {
    match e {
        ErrorModel::Feed { message } => message,
        ErrorModel::AssetNotFound { asset_name } => "no asset found matching "@ + asset_name,
        ErrorModel::Download { message } => "failed to download file: "@ + message,
        ErrorModel::Path { message } => message,
        ErrorModel::JavaNotFound => "Java must be installed"@,
    }
}

impl InstallationError {
    /// The user-facing error text; the host reports it verbatim.
    pub fn message(&self) -> (r: String)
        ensures
            r@ == message_of(self@),
    {
        match self {
            InstallationError::Feed { message } => message.clone(),
            InstallationError::AssetNotFound { asset_name } => {
                let mut r = String::from_str("no asset found matching ");
                r.append(asset_name.as_str());
                r
            },
            InstallationError::Download { message } => {
                let mut r = String::from_str("failed to download file: ");
                r.append(message.as_str());
                r
            },
            InstallationError::Path { message } => message.clone(),
            InstallationError::JavaNotFound => String::from_str("Java must be installed"),
        }
    }
}

} // verus!
