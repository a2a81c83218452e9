use vstd::prelude::*;

verus! {

/// TLS options as configured. Paths are file names.
#[derive(Clone, Debug, Default, PartialEq, Eq)]
pub struct TlsOptions {
    pub verify_certificate: Option<bool>,
    pub verify_hostname: Option<bool>,
    pub ca_path: Option<String>,
    pub crt_path: Option<String>,
    pub key_path: Option<String>,
    pub key_pass: Option<String>,
}

/// TLS configuration: whether TLS is on, and its options.
#[derive(Clone, Debug, Default, PartialEq, Eq)]
pub struct TlsConfig {
    pub enabled: Option<bool>,
    pub options: TlsOptions,
}

/// An identity archive (PKCS#12 bytes) with its pass phrase.
#[derive(Clone, Debug, PartialEq, Eq)]
pub struct IdentityStore(pub Vec<u8>, pub String);

/// What the checks on TLS settings reject.
#[derive(Clone, Copy, Debug, PartialEq, Eq)]
pub enum TlsError {
    /// A key file was given without a certificate file.
    MissingCrtKeyFile,
    /// TLS is on, an identity is required, and none was configured.
    MissingRequiredIdentity,
}

impl TlsOptions {
    /// Rejects a key file given without its certificate file.
    pub fn check_key_pair(&self) -> (r: Result<(), TlsError>)
        ensures
            r is Err <==> (self.key_path is Some && self.crt_path is None),
            r matches Err(e) ==> e == TlsError::MissingCrtKeyFile,
    {
        if self.key_path.is_some() && self.crt_path.is_none() {
            Err(TlsError::MissingCrtKeyFile)
        } else {
            Ok(())
        }
    }

    /// Certificates are verified unless the options turn it off.
    pub fn verifies_certificate(&self) -> (r: bool)
        ensures
            r == !(self.verify_certificate == Some(false)),
    {
        match self.verify_certificate {
            Some(v) => v,
            None => true,
        }
    }

    /// Host names are verified unless the options turn it off.
    pub fn verifies_hostname(&self) -> (r: bool)
        ensures
            r == !(self.verify_hostname == Some(false)),
    {
        match self.verify_hostname {
            Some(v) => v,
            None => true,
        }
    }
}

impl TlsConfig {
    /// Whether a configuration asks for TLS: present and enabled.
    pub fn is_enabled(config: &Option<TlsConfig>) -> (r: bool)
        ensures
            r == (config matches Some(c) && c.enabled == Some(true)),
    {
        match config {
            Some(c) => match c.enabled {
                Some(e) => e,
                None => false,
            },
            None => false,
        }
    }
}

/// Rejects settings without an identity where one is required.
pub fn check_identity(require_ident: bool, identity: &Option<IdentityStore>) -> (r: Result<(), TlsError>)
    ensures
        r is Err <==> (require_ident && identity is None),
        r matches Err(e) ==> e == TlsError::MissingRequiredIdentity,
{
    if require_ident && identity.is_none() {
        Err(TlsError::MissingRequiredIdentity)
    } else {
        Ok(())
    }
}

} // verus!
