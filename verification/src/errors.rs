use vstd::prelude::*;
use vstd::string::StringExecFns;

verus! {

/// The closed set of failures this layer can surface to its host.
#[derive(Debug, PartialEq, Eq)]
pub enum ApiError {
    /// The caller supplied a method outside the five recognized verbs;
    /// raised before any I/O is attempted.
    UnsupportedMethod,
    /// A DNS, connection, TLS or protocol-level failure while executing an
    /// outbound request, with the transport's description.
    TransportFailure(String),
    /// The per-user application data directory could not be determined or
    /// created, with the host's description.
    DirectoryResolutionFailure(String),
    /// A file write failed for a reason other than absence (permissions,
    /// disk full), with the description of the failure.
    FileIoFailure(String),
}

impl ApiError {
    /// The user-visible message for this failure, exactly as the host
    /// surfaces it.
    pub open spec fn spec_message(self) -> Seq<char> {
        match self {
            ApiError::UnsupportedMethod => "Método não suportado"@,
            ApiError::TransportFailure(d) => "Erro: "@ + d@,
            ApiError::DirectoryResolutionFailure(d) => d@,
            ApiError::FileIoFailure(d) => "Erro ao salvar: "@ + d@,
        }
    }

    /// Render this failure as its user-visible message.
    pub fn message(&self) -> (r: String)
        ensures
            r@ == self.spec_message(),
    {
        match self {
            ApiError::UnsupportedMethod => "Método não suportado".to_owned(),
            ApiError::TransportFailure(d) => String::from_str("Erro: ").concat(d.as_str()),
            ApiError::DirectoryResolutionFailure(d) => d.clone(),
            ApiError::FileIoFailure(d) => String::from_str("Erro ao salvar: ").concat(d.as_str()),
        }
    }
}

} // verus!
