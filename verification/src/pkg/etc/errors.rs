//! Why a configuration is refused.

use vstd::prelude::*;

verus! {

/// A configuration that the checker refuses, and why.
#[derive(Debug)]
pub enum ConfigValidatorError {
    TrivyCacheDirEmpty,
    TrivyReportsDirEmpty,
    TLSCertNotFound(String),
    TLSPrivateKeyNotFound(String),
    ClientCANotFound(String),
}

impl ConfigValidatorError {
    /// The text that describes the error to an operator.
    pub open spec fn spec_message(&self) -> Seq<char> {
        match self {
            ConfigValidatorError::TrivyCacheDirEmpty => "trivy cache dir must not be blank"@,
            ConfigValidatorError::TrivyReportsDirEmpty => "trivy reports dir must not be blank"@,
            ConfigValidatorError::TLSCertNotFound(p) => "TLS certificate file does not exist: `"@
                + p@ + "`"@,
            ConfigValidatorError::TLSPrivateKeyNotFound(p) => "TLS private key file does not exist: `"@
                + p@ + "`"@,
            ConfigValidatorError::ClientCANotFound(p) => "ClientCA file does not exist: `"@ + p@
                + "`"@,
        }
    }

    /// The operator-facing message of the error.
    pub fn message(&self) -> (s: String)
        ensures
            s@ == self.spec_message(),
    {
        match self {
            ConfigValidatorError::TrivyCacheDirEmpty => String::from_str(
                "trivy cache dir must not be blank",
            ),
            ConfigValidatorError::TrivyReportsDirEmpty => String::from_str(
                "trivy reports dir must not be blank",
            ),
            ConfigValidatorError::TLSCertNotFound(p) => {
                let mut s = String::from_str("TLS certificate file does not exist: `");
                s.append(p.as_str());
                s.append("`");
                s
            },
            ConfigValidatorError::TLSPrivateKeyNotFound(p) => {
                let mut s = String::from_str("TLS private key file does not exist: `");
                s.append(p.as_str());
                s.append("`");
                s
            },
            ConfigValidatorError::ClientCANotFound(p) => {
                let mut s = String::from_str("ClientCA file does not exist: `");
                s.append(p.as_str());
                s.append("`");
                s
            },
        }
    }
}

} // verus!
