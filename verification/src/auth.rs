//! Model of the authentication class a cluster may reference: an LDAP
//! provider with its field names, optional TLS, and optional bind
//! credentials.  Secret-class contents are mounted by the external resource
//! manager under fixed paths; the core only computes those paths.
use crate::strutil::{dec_rep, dec_u64, opt_str_view};
use vstd::prelude::*;
use vstd::string::*;

verus! {

/// The LDAP attribute names the application maps user fields from.
#[derive(Clone, Debug, PartialEq, Eq)]
pub struct LdapFieldNames {
    pub uid: String,
    pub group: String,
    pub given_name: String,
    pub surname: String,
    pub email: String,
}

/// How the LDAP server's certificate is verified.
#[derive(Clone, Debug, PartialEq, Eq)]
pub enum TlsVerification {
    /// No verification: self-signed certificates are accepted.
    Insecure,
    /// Server verification, optionally against a CA certificate from the
    /// named secret class.
    Server { ca_cert_secret_class: Option<String> },
}

/// TLS settings of the LDAP connection.
#[derive(Clone, Debug, PartialEq, Eq)]
pub struct LdapTls {
    pub verification: TlsVerification,
}

/// An LDAP authentication provider.
#[derive(Clone, Debug, PartialEq, Eq)]
pub struct LdapAuthenticationProvider {
    pub hostname: String,
    pub port: Option<u16>,
    pub search_base: String,
    pub search_filter: String,
    pub ldap_field_names: LdapFieldNames,
    pub bind_credentials_secret_class: Option<String>,
    pub tls: Option<LdapTls>,
}

/// The provider of an authentication class.
#[derive(Clone, Debug, PartialEq, Eq)]
pub enum AuthenticationClassProvider {
    Ldap(LdapAuthenticationProvider),
    Tls,
    Static,
}

/// An authentication class: a named provider.
#[derive(Clone, Debug, PartialEq, Eq)]
pub struct AuthenticationClass {
    pub name: String,
    pub provider: AuthenticationClassProvider,
}

/// The name of a provider kind, for error messages.
pub open spec fn spec_provider_name(p: AuthenticationClassProvider) -> Seq<char> {
    match p {
        AuthenticationClassProvider::Ldap(_) => "Ldap"@,
        AuthenticationClassProvider::Tls => "Tls"@,
        AuthenticationClassProvider::Static => "Static"@,
    }
}

impl AuthenticationClassProvider {
    /// The name of this provider kind.
    pub fn provider_name(&self) -> (r: String)
        ensures
            r@ == spec_provider_name(*self),
    {
        match self {
            AuthenticationClassProvider::Ldap(_) => String::from_str("Ldap"),
            AuthenticationClassProvider::Tls => String::from_str("Tls"),
            AuthenticationClassProvider::Static => String::from_str("Static"),
        }
    }
}

/// The default LDAP port: the TLS port when TLS is configured, the plain
/// port otherwise.
pub open spec fn spec_ldap_default_port(l: LdapAuthenticationProvider) -> u16 {
    if l.tls is Some {
        636u16
    } else {
        389u16
    }
}

/// The port the provider actually connects to.
pub open spec fn spec_ldap_port(l: LdapAuthenticationProvider) -> u16 {
    match l.port {
        Some(p) => p,
        None => spec_ldap_default_port(l),
    }
}

/// The URL of the LDAP server: scheme by TLS use, then host and port.
pub open spec fn spec_ldap_server_url(l: LdapAuthenticationProvider) -> Seq<char> {
    (if l.tls is Some {
        "ldaps://"@
    } else {
        "ldap://"@
    }) + l.hostname@ + ":"@ + dec_rep(spec_ldap_port(l) as nat)
}

/// The path the CA certificate of the server-verification secret class is
/// mounted under, if one is configured.
pub open spec fn spec_ldap_ca_cert_mount_path(l: LdapAuthenticationProvider) -> Option<Seq<char>> {
    match l.tls {
        Some(tls) => match tls.verification {
            TlsVerification::Server { ca_cert_secret_class: Some(c) } => Some(
                "/stackable/secrets/"@ + c@ + "/ca.crt"@,
            ),
            _ => None,
        },
        None => None,
    }
}

/// The paths the bind user and password are mounted under, if bind
/// credentials are configured.
pub open spec fn spec_ldap_bind_credentials_mount_paths(l: LdapAuthenticationProvider) -> Option<
    (Seq<char>, Seq<char>),
> {
    match opt_str_view(l.bind_credentials_secret_class) {
        Some(c) => Some(
            ("/stackable/secrets/"@ + c + "/user"@, "/stackable/secrets/"@ + c + "/password"@),
        ),
        None => None,
    }
}

impl LdapAuthenticationProvider {
    /// The default port for the configured TLS mode.
    pub fn default_port(&self) -> (r: u16)
        ensures
            r == spec_ldap_default_port(*self),
    {
        if self.tls.is_some() {
            636
        } else {
            389
        }
    }

    /// The URL of the LDAP server.
    pub fn server_url(&self) -> (r: String)
        ensures
            r@ == spec_ldap_server_url(*self),
    {
        let scheme = if self.tls.is_some() {
            "ldaps://"
        } else {
            "ldap://"
        };
        let port: u16 = match self.port {
            Some(p) => p,
            None => self.default_port(),
        };
        scheme.to_owned().concat(self.hostname.as_str()).concat(":").concat(
            dec_u64(port as u64).as_str(),
        )
    }

    /// The mount path of the CA certificate, when server verification with
    /// a CA secret class is configured.
    pub fn tls_ca_cert_mount_path(&self) -> (r: Option<String>)
        ensures
            opt_str_view(r) == spec_ldap_ca_cert_mount_path(*self),
    {
        match &self.tls {
            Some(tls) => match &tls.verification {
                TlsVerification::Server { ca_cert_secret_class: Some(c) } => Some(
                    String::from_str("/stackable/secrets/").concat(c.as_str()).concat("/ca.crt"),
                ),
                _ => None,
            },
            None => None,
        }
    }

    /// The mount paths of the bind user and password, when bind
    /// credentials are configured.
    pub fn bind_credentials_mount_paths(&self) -> (r: Option<(String, String)>)
        ensures
            match r {
                Some(p) => spec_ldap_bind_credentials_mount_paths(*self) == Some((p.0@, p.1@)),
                None => spec_ldap_bind_credentials_mount_paths(*self) is None,
            },
    {
        match &self.bind_credentials_secret_class {
            Some(c) => Some(
                (
                    String::from_str("/stackable/secrets/").concat(c.as_str()).concat("/user"),
                    String::from_str("/stackable/secrets/").concat(c.as_str()).concat("/password"),
                ),
            ),
            None => None,
        }
    }
}

} // verus!
