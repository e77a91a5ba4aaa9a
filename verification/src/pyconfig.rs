//! The rendered webserver configuration: the closed set of recognized
//! configuration options with their Python value types, the authentication
//! entries derived from the cluster's authentication settings, and the
//! writer that renders the key/value map into the configuration file.
use crate::auth::{
    spec_ldap_bind_credentials_mount_paths, spec_ldap_ca_cert_mount_path, spec_ldap_server_url,
    AuthenticationClass, AuthenticationClassProvider, LdapAuthenticationProvider, TlsVerification,
};
use crate::crd::{LdapRolesSyncMoment, OdooClusterAuthenticationConfig};
use crate::string_map::{spec_find, spec_insert, spec_remove_key, StringMap};
use crate::strutil::str_eq;
use vstd::prelude::*;
use vstd::string::*;

verus! {

/// The recognized configuration options of the rendered webserver
/// configuration.
#[derive(Clone, Copy, Debug, PartialEq, Eq, Structural)]
pub enum OdooConfigOptions {
    AuthType,
    AuthLdapSearch,
    AuthLdapSearchFilter,
    AuthLdapServer,
    AuthLdapUidField,
    AuthLdapBindUser,
    AuthLdapBindPassword,
    AuthUserRegistration,
    AuthUserRegistrationRole,
    AuthLdapFirstnameField,
    AuthLdapLastnameField,
    AuthLdapEmailField,
    AuthLdapGroupField,
    AuthRolesSyncAtLogin,
    AuthLdapTlsDemand,
    AuthLdapTlsCertfile,
    AuthLdapTlsKeyfile,
    AuthLdapTlsCacertfile,
    AuthLdapAllowSelfSigned,
}

/// How a configuration value is rendered into Python source.
#[derive(Clone, Copy, Debug, PartialEq, Eq, Structural)]
pub enum PythonType {
    BoolLiteral,
    IntLiteral,
    StringLiteral,
    Expression,
}

/// The configuration key of an option.
pub open spec fn spec_option_name(o: OdooConfigOptions) -> Seq<char> {
    match o {
        OdooConfigOptions::AuthType => "AUTH_TYPE"@,
        OdooConfigOptions::AuthLdapSearch => "AUTH_LDAP_SEARCH"@,
        OdooConfigOptions::AuthLdapSearchFilter => "AUTH_LDAP_SEARCH_FILTER"@,
        OdooConfigOptions::AuthLdapServer => "AUTH_LDAP_SERVER"@,
        OdooConfigOptions::AuthLdapUidField => "AUTH_LDAP_UID_FIELD"@,
        OdooConfigOptions::AuthLdapBindUser => "AUTH_LDAP_BIND_USER"@,
        OdooConfigOptions::AuthLdapBindPassword => "AUTH_LDAP_BIND_PASSWORD"@,
        OdooConfigOptions::AuthUserRegistration => "AUTH_USER_REGISTRATION"@,
        OdooConfigOptions::AuthUserRegistrationRole => "AUTH_USER_REGISTRATION_ROLE"@,
        OdooConfigOptions::AuthLdapFirstnameField => "AUTH_LDAP_FIRSTNAME_FIELD"@,
        OdooConfigOptions::AuthLdapLastnameField => "AUTH_LDAP_LASTNAME_FIELD"@,
        OdooConfigOptions::AuthLdapEmailField => "AUTH_LDAP_EMAIL_FIELD"@,
        OdooConfigOptions::AuthLdapGroupField => "AUTH_LDAP_GROUP_FIELD"@,
        OdooConfigOptions::AuthRolesSyncAtLogin => "AUTH_ROLES_SYNC_AT_LOGIN"@,
        OdooConfigOptions::AuthLdapTlsDemand => "AUTH_LDAP_TLS_DEMAND"@,
        OdooConfigOptions::AuthLdapTlsCertfile => "AUTH_LDAP_TLS_CERTFILE"@,
        OdooConfigOptions::AuthLdapTlsKeyfile => "AUTH_LDAP_TLS_KEYFILE"@,
        OdooConfigOptions::AuthLdapTlsCacertfile => "AUTH_LDAP_TLS_CACERTFILE"@,
        OdooConfigOptions::AuthLdapAllowSelfSigned => "AUTH_LDAP_ALLOW_SELF_SIGNED"@,
    }
}

/// The Python type an option's value is rendered as.
pub open spec fn spec_python_type(o: OdooConfigOptions) -> PythonType {
    match o {
        OdooConfigOptions::AuthType => PythonType::Expression,
        OdooConfigOptions::AuthUserRegistration => PythonType::BoolLiteral,
        OdooConfigOptions::AuthUserRegistrationRole => PythonType::StringLiteral,
        OdooConfigOptions::AuthRolesSyncAtLogin => PythonType::BoolLiteral,
        OdooConfigOptions::AuthLdapServer => PythonType::StringLiteral,
        OdooConfigOptions::AuthLdapBindUser => PythonType::Expression,
        OdooConfigOptions::AuthLdapBindPassword => PythonType::Expression,
        OdooConfigOptions::AuthLdapSearch => PythonType::StringLiteral,
        OdooConfigOptions::AuthLdapSearchFilter => PythonType::StringLiteral,
        OdooConfigOptions::AuthLdapUidField => PythonType::StringLiteral,
        OdooConfigOptions::AuthLdapGroupField => PythonType::StringLiteral,
        OdooConfigOptions::AuthLdapFirstnameField => PythonType::StringLiteral,
        OdooConfigOptions::AuthLdapLastnameField => PythonType::StringLiteral,
        OdooConfigOptions::AuthLdapEmailField => PythonType::StringLiteral,
        OdooConfigOptions::AuthLdapTlsDemand => PythonType::BoolLiteral,
        OdooConfigOptions::AuthLdapTlsCertfile => PythonType::StringLiteral,
        OdooConfigOptions::AuthLdapTlsKeyfile => PythonType::StringLiteral,
        OdooConfigOptions::AuthLdapTlsCacertfile => PythonType::StringLiteral,
        OdooConfigOptions::AuthLdapAllowSelfSigned => PythonType::BoolLiteral,
    }
}

impl OdooConfigOptions {
    /// The configuration key of this option.
    pub fn as_str(&self) -> (r: &'static str)
        ensures
            r@ == spec_option_name(*self),
    {
        match self {
            OdooConfigOptions::AuthType => "AUTH_TYPE",
            OdooConfigOptions::AuthLdapSearch => "AUTH_LDAP_SEARCH",
            OdooConfigOptions::AuthLdapSearchFilter => "AUTH_LDAP_SEARCH_FILTER",
            OdooConfigOptions::AuthLdapServer => "AUTH_LDAP_SERVER",
            OdooConfigOptions::AuthLdapUidField => "AUTH_LDAP_UID_FIELD",
            OdooConfigOptions::AuthLdapBindUser => "AUTH_LDAP_BIND_USER",
            OdooConfigOptions::AuthLdapBindPassword => "AUTH_LDAP_BIND_PASSWORD",
            OdooConfigOptions::AuthUserRegistration => "AUTH_USER_REGISTRATION",
            OdooConfigOptions::AuthUserRegistrationRole => "AUTH_USER_REGISTRATION_ROLE",
            OdooConfigOptions::AuthLdapFirstnameField => "AUTH_LDAP_FIRSTNAME_FIELD",
            OdooConfigOptions::AuthLdapLastnameField => "AUTH_LDAP_LASTNAME_FIELD",
            OdooConfigOptions::AuthLdapEmailField => "AUTH_LDAP_EMAIL_FIELD",
            OdooConfigOptions::AuthLdapGroupField => "AUTH_LDAP_GROUP_FIELD",
            OdooConfigOptions::AuthRolesSyncAtLogin => "AUTH_ROLES_SYNC_AT_LOGIN",
            OdooConfigOptions::AuthLdapTlsDemand => "AUTH_LDAP_TLS_DEMAND",
            OdooConfigOptions::AuthLdapTlsCertfile => "AUTH_LDAP_TLS_CERTFILE",
            OdooConfigOptions::AuthLdapTlsKeyfile => "AUTH_LDAP_TLS_KEYFILE",
            OdooConfigOptions::AuthLdapTlsCacertfile => "AUTH_LDAP_TLS_CACERTFILE",
            OdooConfigOptions::AuthLdapAllowSelfSigned => "AUTH_LDAP_ALLOW_SELF_SIGNED",
        }
    }

    /// The key of this option as an owned string.
    pub fn to_key(&self) -> (r: String)
        ensures
            r@ == spec_option_name(*self),
    {
        self.as_str().to_owned()
    }

    /// The Python type this option's value is rendered as.
    pub fn python_type(&self) -> (r: PythonType)
        ensures
            r == spec_python_type(*self),
    {
        match self {
            OdooConfigOptions::AuthType => PythonType::Expression,
            OdooConfigOptions::AuthUserRegistration => PythonType::BoolLiteral,
            OdooConfigOptions::AuthUserRegistrationRole => PythonType::StringLiteral,
            OdooConfigOptions::AuthRolesSyncAtLogin => PythonType::BoolLiteral,
            OdooConfigOptions::AuthLdapServer => PythonType::StringLiteral,
            OdooConfigOptions::AuthLdapBindUser => PythonType::Expression,
            OdooConfigOptions::AuthLdapBindPassword => PythonType::Expression,
            OdooConfigOptions::AuthLdapSearch => PythonType::StringLiteral,
            OdooConfigOptions::AuthLdapSearchFilter => PythonType::StringLiteral,
            OdooConfigOptions::AuthLdapUidField => PythonType::StringLiteral,
            OdooConfigOptions::AuthLdapGroupField => PythonType::StringLiteral,
            OdooConfigOptions::AuthLdapFirstnameField => PythonType::StringLiteral,
            OdooConfigOptions::AuthLdapLastnameField => PythonType::StringLiteral,
            OdooConfigOptions::AuthLdapEmailField => PythonType::StringLiteral,
            OdooConfigOptions::AuthLdapTlsDemand => PythonType::BoolLiteral,
            OdooConfigOptions::AuthLdapTlsCertfile => PythonType::StringLiteral,
            OdooConfigOptions::AuthLdapTlsKeyfile => PythonType::StringLiteral,
            OdooConfigOptions::AuthLdapTlsCacertfile => PythonType::StringLiteral,
            OdooConfigOptions::AuthLdapAllowSelfSigned => PythonType::BoolLiteral,
        }
    }
}

/// The option a configuration key names, if any.
pub open spec fn spec_parse_option(k: Seq<char>) -> Option<OdooConfigOptions> {
    if k == "AUTH_TYPE"@ {
        Some(OdooConfigOptions::AuthType)
    } else if k == "AUTH_LDAP_SEARCH"@ {
        Some(OdooConfigOptions::AuthLdapSearch)
    } else if k == "AUTH_LDAP_SEARCH_FILTER"@ {
        Some(OdooConfigOptions::AuthLdapSearchFilter)
    } else if k == "AUTH_LDAP_SERVER"@ {
        Some(OdooConfigOptions::AuthLdapServer)
    } else if k == "AUTH_LDAP_UID_FIELD"@ {
        Some(OdooConfigOptions::AuthLdapUidField)
    } else if k == "AUTH_LDAP_BIND_USER"@ {
        Some(OdooConfigOptions::AuthLdapBindUser)
    } else if k == "AUTH_LDAP_BIND_PASSWORD"@ {
        Some(OdooConfigOptions::AuthLdapBindPassword)
    } else if k == "AUTH_USER_REGISTRATION"@ {
        Some(OdooConfigOptions::AuthUserRegistration)
    } else if k == "AUTH_USER_REGISTRATION_ROLE"@ {
        Some(OdooConfigOptions::AuthUserRegistrationRole)
    } else if k == "AUTH_LDAP_FIRSTNAME_FIELD"@ {
        Some(OdooConfigOptions::AuthLdapFirstnameField)
    } else if k == "AUTH_LDAP_LASTNAME_FIELD"@ {
        Some(OdooConfigOptions::AuthLdapLastnameField)
    } else if k == "AUTH_LDAP_EMAIL_FIELD"@ {
        Some(OdooConfigOptions::AuthLdapEmailField)
    } else if k == "AUTH_LDAP_GROUP_FIELD"@ {
        Some(OdooConfigOptions::AuthLdapGroupField)
    } else if k == "AUTH_ROLES_SYNC_AT_LOGIN"@ {
        Some(OdooConfigOptions::AuthRolesSyncAtLogin)
    } else if k == "AUTH_LDAP_TLS_DEMAND"@ {
        Some(OdooConfigOptions::AuthLdapTlsDemand)
    } else if k == "AUTH_LDAP_TLS_CERTFILE"@ {
        Some(OdooConfigOptions::AuthLdapTlsCertfile)
    } else if k == "AUTH_LDAP_TLS_KEYFILE"@ {
        Some(OdooConfigOptions::AuthLdapTlsKeyfile)
    } else if k == "AUTH_LDAP_TLS_CACERTFILE"@ {
        Some(OdooConfigOptions::AuthLdapTlsCacertfile)
    } else if k == "AUTH_LDAP_ALLOW_SELF_SIGNED"@ {
        Some(OdooConfigOptions::AuthLdapAllowSelfSigned)
    } else {
        None
    }
}

/// Parses a configuration key into its option.
pub fn parse_option(k: &str) -> (r: Option<OdooConfigOptions>)
    ensures
        r == spec_parse_option(k@),
{
    if str_eq(k, "AUTH_TYPE") {
        Some(OdooConfigOptions::AuthType)
    } else if str_eq(k, "AUTH_LDAP_SEARCH") {
        Some(OdooConfigOptions::AuthLdapSearch)
    } else if str_eq(k, "AUTH_LDAP_SEARCH_FILTER") {
        Some(OdooConfigOptions::AuthLdapSearchFilter)
    } else if str_eq(k, "AUTH_LDAP_SERVER") {
        Some(OdooConfigOptions::AuthLdapServer)
    } else if str_eq(k, "AUTH_LDAP_UID_FIELD") {
        Some(OdooConfigOptions::AuthLdapUidField)
    } else if str_eq(k, "AUTH_LDAP_BIND_USER") {
        Some(OdooConfigOptions::AuthLdapBindUser)
    } else if str_eq(k, "AUTH_LDAP_BIND_PASSWORD") {
        Some(OdooConfigOptions::AuthLdapBindPassword)
    } else if str_eq(k, "AUTH_USER_REGISTRATION") {
        Some(OdooConfigOptions::AuthUserRegistration)
    } else if str_eq(k, "AUTH_USER_REGISTRATION_ROLE") {
        Some(OdooConfigOptions::AuthUserRegistrationRole)
    } else if str_eq(k, "AUTH_LDAP_FIRSTNAME_FIELD") {
        Some(OdooConfigOptions::AuthLdapFirstnameField)
    } else if str_eq(k, "AUTH_LDAP_LASTNAME_FIELD") {
        Some(OdooConfigOptions::AuthLdapLastnameField)
    } else if str_eq(k, "AUTH_LDAP_EMAIL_FIELD") {
        Some(OdooConfigOptions::AuthLdapEmailField)
    } else if str_eq(k, "AUTH_LDAP_GROUP_FIELD") {
        Some(OdooConfigOptions::AuthLdapGroupField)
    } else if str_eq(k, "AUTH_ROLES_SYNC_AT_LOGIN") {
        Some(OdooConfigOptions::AuthRolesSyncAtLogin)
    } else if str_eq(k, "AUTH_LDAP_TLS_DEMAND") {
        Some(OdooConfigOptions::AuthLdapTlsDemand)
    } else if str_eq(k, "AUTH_LDAP_TLS_CERTFILE") {
        Some(OdooConfigOptions::AuthLdapTlsCertfile)
    } else if str_eq(k, "AUTH_LDAP_TLS_KEYFILE") {
        Some(OdooConfigOptions::AuthLdapTlsKeyfile)
    } else if str_eq(k, "AUTH_LDAP_TLS_CACERTFILE") {
        Some(OdooConfigOptions::AuthLdapTlsCacertfile)
    } else if str_eq(k, "AUTH_LDAP_ALLOW_SELF_SIGNED") {
        Some(OdooConfigOptions::AuthLdapAllowSelfSigned)
    } else {
        None
    }
}

} // verus!
verus! {

/// The lowercase rendering of a boolean, as stored in configuration maps.
pub open spec fn spec_bool_str(b: bool) -> Seq<char> {
    if b {
        "true"@
    } else {
        "false"@
    }
}

/// Renders a boolean for a configuration map.
pub fn bool_str(b: bool) -> (r: &'static str)
    ensures
        r@ == spec_bool_str(b),
{
    if b {
        "true"
    } else {
        "false"
    }
}

// ------------------------------------------------------------------
// Authentication entries of the configuration map.
// ------------------------------------------------------------------

/// The TLS-related entries appended for an LDAP provider: whether TLS is
/// demanded, whether self-signed certificates are accepted, and the CA
/// certificate path when server verification names a secret class.
pub open spec fn spec_ldap_tls_entries(
    m: Seq<(Seq<char>, Seq<char>)>,
    l: LdapAuthenticationProvider,
) -> Seq<(Seq<char>, Seq<char>)> {
    match l.tls {
        None => spec_insert(m, "AUTH_LDAP_TLS_DEMAND"@, "false"@),
        Some(tls) => {
            let demanded = spec_insert(m, "AUTH_LDAP_TLS_DEMAND"@, "true"@);
            match tls.verification {
                TlsVerification::Insecure => spec_insert(
                    demanded,
                    "AUTH_LDAP_ALLOW_SELF_SIGNED"@,
                    "true"@,
                ),
                TlsVerification::Server { .. } => {
                    let verified = spec_insert(demanded, "AUTH_LDAP_ALLOW_SELF_SIGNED"@, "false"@);
                    match spec_ldap_ca_cert_mount_path(l) {
                        Some(p) => spec_insert(verified, "AUTH_LDAP_TLS_CACERTFILE"@, p),
                        None => verified,
                    }
                },
            }
        },
    }
}

/// The entries appended for an LDAP provider: authentication type, server
/// URL, search settings, field mappings, TLS entries, and bind-credential
/// expressions when bind credentials are mounted.
pub open spec fn spec_append_ldap_config(
    m: Seq<(Seq<char>, Seq<char>)>,
    l: LdapAuthenticationProvider,
) -> Seq<(Seq<char>, Seq<char>)> {
    let m1 = spec_insert(m, "AUTH_TYPE"@, "AUTH_LDAP"@);
    let m2 = spec_insert(m1, "AUTH_LDAP_SERVER"@, spec_ldap_server_url(l));
    let m3 = spec_insert(m2, "AUTH_LDAP_SEARCH"@, l.search_base@);
    let m4 = spec_insert(m3, "AUTH_LDAP_SEARCH_FILTER"@, l.search_filter@);
    let m5 = spec_insert(m4, "AUTH_LDAP_UID_FIELD"@, l.ldap_field_names.uid@);
    let m6 = spec_insert(m5, "AUTH_LDAP_GROUP_FIELD"@, l.ldap_field_names.group@);
    let m7 = spec_insert(m6, "AUTH_LDAP_FIRSTNAME_FIELD"@, l.ldap_field_names.given_name@);
    let m8 = spec_insert(m7, "AUTH_LDAP_LASTNAME_FIELD"@, l.ldap_field_names.surname@);
    let m9 = spec_ldap_tls_entries(m8, l);
    match spec_ldap_bind_credentials_mount_paths(l) {
        Some(paths) => {
            let with_user = spec_insert(
                m9,
                "AUTH_LDAP_BIND_USER"@,
                "open('"@ + paths.0 + "').read()"@,
            );
            spec_insert(with_user, "AUTH_LDAP_BIND_PASSWORD"@, "open('"@ + paths.1 + "').read()"@)
        },
        None => m9,
    }
}

/// Appends the configuration entries of an LDAP provider.
pub fn append_ldap_config(config: &mut StringMap, ldap: &LdapAuthenticationProvider)
    requires
        old(config).wf(),
    ensures
        final(config).entries_view() == spec_append_ldap_config(old(config).entries_view(), *ldap),
        final(config).wf(),
{
    config.insert(OdooConfigOptions::AuthType.to_key(), String::from_str("AUTH_LDAP"));
    config.insert(OdooConfigOptions::AuthLdapServer.to_key(), ldap.server_url());
    config.insert(OdooConfigOptions::AuthLdapSearch.to_key(), ldap.search_base.clone());
    config.insert(OdooConfigOptions::AuthLdapSearchFilter.to_key(), ldap.search_filter.clone());
    config.insert(OdooConfigOptions::AuthLdapUidField.to_key(), ldap.ldap_field_names.uid.clone());
    config.insert(
        OdooConfigOptions::AuthLdapGroupField.to_key(),
        ldap.ldap_field_names.group.clone(),
    );
    config.insert(
        OdooConfigOptions::AuthLdapFirstnameField.to_key(),
        ldap.ldap_field_names.given_name.clone(),
    );
    config.insert(
        OdooConfigOptions::AuthLdapLastnameField.to_key(),
        ldap.ldap_field_names.surname.clone(),
    );
    match &ldap.tls {
        None => {
            config.insert(
                OdooConfigOptions::AuthLdapTlsDemand.to_key(),
                String::from_str("false"),
            );
        },
        Some(tls) => {
            config.insert(OdooConfigOptions::AuthLdapTlsDemand.to_key(), String::from_str("true"));
            match &tls.verification {
                TlsVerification::Insecure => {
                    config.insert(
                        OdooConfigOptions::AuthLdapAllowSelfSigned.to_key(),
                        String::from_str("true"),
                    );
                },
                TlsVerification::Server { .. } => {
                    config.insert(
                        OdooConfigOptions::AuthLdapAllowSelfSigned.to_key(),
                        String::from_str("false"),
                    );
                    if let Some(ca_path) = ldap.tls_ca_cert_mount_path() {
                        config.insert(OdooConfigOptions::AuthLdapTlsCacertfile.to_key(), ca_path);
                    }
                },
            }
        },
    }
    if let Some(paths) = ldap.bind_credentials_mount_paths() {
        let (username_path, password_path) = paths;
        config.insert(
            OdooConfigOptions::AuthLdapBindUser.to_key(),
            String::from_str("open('").concat(username_path.as_str()).concat("').read()"),
        );
        config.insert(
            OdooConfigOptions::AuthLdapBindPassword.to_key(),
            String::from_str("open('").concat(password_path.as_str()).concat("').read()"),
        );
    }
}

/// The entries appended for the cluster's authentication settings: the
/// LDAP entries when the class provides LDAP, then registration and
/// role-synchronization settings.
pub open spec fn spec_append_authentication_config(
    m: Seq<(Seq<char>, Seq<char>)>,
    ac: OdooClusterAuthenticationConfig,
    cls: AuthenticationClass,
) -> Seq<(Seq<char>, Seq<char>)> {
    let with_provider = match cls.provider {
        AuthenticationClassProvider::Ldap(l) => spec_append_ldap_config(m, l),
        _ => m,
    };
    let with_reg = spec_insert(
        with_provider,
        "AUTH_USER_REGISTRATION"@,
        spec_bool_str(ac.user_registration),
    );
    let with_role = spec_insert(with_reg, "AUTH_USER_REGISTRATION_ROLE"@, ac.user_registration_role@);
    spec_insert(
        with_role,
        "AUTH_ROLES_SYNC_AT_LOGIN"@,
        spec_bool_str(ac.sync_roles_at == LdapRolesSyncMoment::Login),
    )
}

/// Appends the configuration entries of the cluster's authentication
/// settings.
pub fn append_authentication_config(
    config: &mut StringMap,
    authentication_config: &OdooClusterAuthenticationConfig,
    authentication_class: &AuthenticationClass,
)
    requires
        old(config).wf(),
    ensures
        final(config).entries_view() == spec_append_authentication_config(
            old(config).entries_view(),
            *authentication_config,
            *authentication_class,
        ),
        final(config).wf(),
{
    if let AuthenticationClassProvider::Ldap(ldap) = &authentication_class.provider {
        append_ldap_config(config, ldap);
    }
    config.insert(
        OdooConfigOptions::AuthUserRegistration.to_key(),
        bool_str(authentication_config.user_registration).to_owned(),
    );
    config.insert(
        OdooConfigOptions::AuthUserRegistrationRole.to_key(),
        authentication_config.user_registration_role.clone(),
    );
    let sync_at_login = match authentication_config.sync_roles_at {
        LdapRolesSyncMoment::Login => true,
        LdapRolesSyncMoment::Registration => false,
    };
    config.insert(
        OdooConfigOptions::AuthRolesSyncAtLogin.to_key(),
        bool_str(sync_at_login).to_owned(),
    );
}

/// The full authentication section of the configuration map: the entries
/// of the authentication settings when both the settings and the resolved
/// class are given, and in any case an `AUTH_TYPE` defaulting to database
/// authentication when nothing set one.
pub open spec fn spec_add_odoo_config(
    m: Seq<(Seq<char>, Seq<char>)>,
    ac: Option<OdooClusterAuthenticationConfig>,
    cls: Option<AuthenticationClass>,
) -> Seq<(Seq<char>, Seq<char>)> {
    let with_auth = match (ac, cls) {
        (Some(a), Some(c)) => spec_append_authentication_config(m, a, c),
        _ => m,
    };
    if spec_find(with_auth, "AUTH_TYPE"@) is Some {
        with_auth
    } else {
        spec_insert(with_auth, "AUTH_TYPE"@, "AUTH_DB"@)
    }
}

/// Adds the authentication section to a configuration map.
pub fn add_odoo_config(
    config: &mut StringMap,
    authentication_config: Option<&OdooClusterAuthenticationConfig>,
    authentication_class: Option<&AuthenticationClass>,
)
    requires
        old(config).wf(),
    ensures
        final(config).entries_view() == spec_add_odoo_config(
            old(config).entries_view(),
            match authentication_config {
                Some(a) => Some(*a),
                None => None,
            },
            match authentication_class {
                Some(c) => Some(*c),
                None => None,
            },
        ),
        final(config).wf(),
{
    if let Some(ac) = authentication_config {
        if let Some(cls) = authentication_class {
            append_authentication_config(config, ac, cls);
        }
    }
    if !config.contains_key(OdooConfigOptions::AuthType.as_str()) {
        // Default to database authentication.
        config.insert(OdooConfigOptions::AuthType.to_key(), String::from_str("AUTH_DB"));
    }
}

} // verus!
verus! {

/// A configuration entry the writer cannot render: an unrecognized key, or
/// a non-boolean value for a boolean option.
#[derive(Clone, Debug, PartialEq, Eq)]
pub struct FlaskConfigError {
    pub key: String,
}

/// The fixed import preamble of the rendered configuration file.
pub open spec fn spec_imports() -> Seq<char> {
    "import os\n"@
        + "from odoo.www.fab_security.manager import (AUTH_DB, AUTH_LDAP, AUTH_OAUTH, AUTH_OID, AUTH_REMOTE_USER)\n"@
        + "basedir = os.path.abspath(os.path.dirname(__file__))\n"@ + "WTF_CSRF_ENABLED = True\n"@
}

/// The Python rendering of a value of the given type: booleans become
/// Python literals, strings are quoted, expressions pass through.  A
/// boolean option with a value other than `true`/`false` cannot be
/// rendered.
pub open spec fn spec_render_value(t: PythonType, v: Seq<char>) -> Option<Seq<char>> {
    match t {
        PythonType::BoolLiteral => if v == "true"@ {
            Some("True"@)
        } else if v == "false"@ {
            Some("False"@)
        } else {
            None
        },
        PythonType::IntLiteral => Some(v),
        PythonType::StringLiteral => Some("'"@ + v + "'"@),
        PythonType::Expression => Some(v),
    }
}

/// The rendered assignment line of one configuration entry, or nothing
/// when the key is unknown or the value cannot be rendered.
pub open spec fn spec_config_line(k: Seq<char>, v: Seq<char>) -> Option<Seq<char>> {
    match spec_parse_option(k) {
        None => None,
        Some(o) => match spec_render_value(spec_python_type(o), v) {
            None => None,
            Some(rv) => Some(k + " = "@ + rv + "\n"@),
        },
    }
}

/// The rendered assignment lines of a sequence of entries, in entry order,
/// or nothing when any entry cannot be rendered.
pub open spec fn spec_config_lines(s: Seq<(Seq<char>, Seq<char>)>) -> Option<Seq<char>>
    decreases s.len(),
{
    if s.len() == 0 {
        Some(Seq::empty())
    } else {
        match (spec_config_lines(s.drop_last()), spec_config_line(s.last().0, s.last().1)) {
            (Some(init), Some(line)) => Some(init + line),
            _ => None,
        }
    }
}

/// The lines of a sequence render exactly when every single entry renders.
pub proof fn lemma_config_lines_iff(s: Seq<(Seq<char>, Seq<char>)>)
    ensures
        (spec_config_lines(s) is Some) <==> (forall|i: int|
            0 <= i < s.len() ==> spec_config_line(#[trigger] s[i].0, s[i].1) is Some),
    decreases s.len(),
{
    if s.len() > 0 {
        lemma_config_lines_iff(s.drop_last());
        if spec_config_lines(s) is Some {
            assert forall|i: int| 0 <= i < s.len() implies spec_config_line(
                #[trigger] s[i].0,
                s[i].1,
            ) is Some by {
                if i < s.len() - 1 {
                    assert(s.drop_last()[i] == s[i]);
                } else {
                    assert(s[i] == s.last());
                }
            }
        } else {
            if spec_config_lines(s.drop_last()) is Some {
                assert(spec_config_line(s.last().0, s.last().1) is None);
            } else {
                let i = choose|i: int|
                    0 <= i < s.drop_last().len() && spec_config_line(
                        #[trigger] s.drop_last()[i].0,
                        s.drop_last()[i].1,
                    ) is None;
                assert(s[i] == s.drop_last()[i]);
            }
        }
    }
}

/// Renders the webserver configuration file: the fixed import preamble,
/// then one assignment per entry of the configuration map, in entry order.
/// Fails on the first entry whose key is not a recognized option or whose
/// boolean value is malformed, and succeeds exactly when no such entry
/// exists.
pub fn write_webserver_config(config: &StringMap) -> (r: Result<String, FlaskConfigError>)
    ensures
        r is Ok <==> spec_config_lines(config.entries_view()) is Some,
        r is Ok ==> r->Ok_0@ == spec_imports() + spec_config_lines(config.entries_view())->0,
        r is Err ==> exists|i: int|
            0 <= i < config.entries_view().len() && spec_config_line(
                #[trigger] config.entries_view()[i].0,
                config.entries_view()[i].1,
            ) is None && r->Err_0.key@ == config.entries_view()[i].0,
{
    let ghost entries = config.entries_view();
    let mut out = String::from_str("import os\n");
    out.append(
        "from odoo.www.fab_security.manager import (AUTH_DB, AUTH_LDAP, AUTH_OAUTH, AUTH_OID, AUTH_REMOTE_USER)\n",
    );
    out.append("basedir = os.path.abspath(os.path.dirname(__file__))\n");
    out.append("WTF_CSRF_ENABLED = True\n");
    proof {
        assert(out@ == spec_imports());
    }
    let mut i: usize = 0;
    while i < config.entries.len()
        invariant
            i <= entries.len(),
            entries == config.entries_view(),
            spec_config_lines(entries.subrange(0, i as int)) is Some,
            out@ == spec_imports() + spec_config_lines(entries.subrange(0, i as int))->0,
        decreases entries.len() - i,
    {
        let ghost prefix = entries.subrange(0, i as int);
        let ghost prefix1 = entries.subrange(0, i + 1);
        proof {
            assert(prefix1.drop_last() =~= prefix);
            assert(prefix1.last() == entries[i as int]);
        }
        let key = &config.entries[i].0;
        let value = &config.entries[i].1;
        let option = match parse_option(key.as_str()) {
            Some(o) => o,
            None => {
                proof {
                    lemma_config_lines_iff(entries);
                }
                return Err(FlaskConfigError { key: key.clone() });
            },
        };
        let rendered: String = match option.python_type() {
            PythonType::BoolLiteral => {
                if str_eq(value.as_str(), "true") {
                    String::from_str("True")
                } else if str_eq(value.as_str(), "false") {
                    String::from_str("False")
                } else {
                    proof {
                        lemma_config_lines_iff(entries);
                    }
                    return Err(FlaskConfigError { key: key.clone() });
                }
            },
            PythonType::IntLiteral => value.clone(),
            PythonType::StringLiteral => String::from_str("'").concat(value.as_str()).concat("'"),
            PythonType::Expression => value.clone(),
        };
        out.append(key.as_str());
        out.append(" = ");
        out.append(rendered.as_str());
        out.append("\n");
        proof {
            assert(spec_config_line(entries[i as int].0, entries[i as int].1) == Some(
                entries[i as int].0 + " = "@ + spec_render_value(
                    spec_python_type(option),
                    entries[i as int].1,
                )->0 + "\n"@,
            ));
            assert(out@ == spec_imports() + spec_config_lines(prefix1)->0);
        }
        i += 1;
    }
    proof {
        assert(entries.subrange(0, entries.len() as int) =~= entries);
    }
    Ok(out)
}

} // verus!
verus! {

/// Every entry of the sequence can be rendered into an assignment line.
pub open spec fn all_renderable(s: Seq<(Seq<char>, Seq<char>)>) -> bool {
    forall|i: int| 0 <= i < s.len() ==> spec_config_line(#[trigger] s[i].0, s[i].1) is Some
}

/// Removing a key keeps every entry renderable.
proof fn lemma_remove_key_renderable(s: Seq<(Seq<char>, Seq<char>)>, k: Seq<char>)
    requires
        all_renderable(s),
    ensures
        all_renderable(spec_remove_key(s, k)),
    decreases s.len(),
{
    reveal(Seq::filter);
    if s.len() > 0 {
        assert(all_renderable(s.drop_last())) by {
            assert(forall|i: int|
                0 <= i < s.drop_last().len() ==> s.drop_last()[i] == #[trigger] s[i]);
        }
        lemma_remove_key_renderable(s.drop_last(), k);
        let rem = spec_remove_key(s, k);
        let sub = spec_remove_key(s.drop_last(), k);
        assert(rem == if s.last().0 != k {
            sub.push(s.last())
        } else {
            sub
        });
        assert forall|i: int| 0 <= i < rem.len() implies spec_config_line(
            #[trigger] rem[i].0,
            rem[i].1,
        ) is Some by {
            if s.last().0 != k {
                if i < sub.len() {
                    assert(rem[i] == sub[i]);
                } else {
                    assert(rem[i] == s.last());
                    assert(s[s.len() - 1] == s.last());
                }
            } else {
                assert(rem[i] == sub[i]);
            }
        }
    }
}

/// Inserting a renderable entry keeps every entry renderable.
proof fn lemma_insert_renderable(s: Seq<(Seq<char>, Seq<char>)>, k: Seq<char>, v: Seq<char>)
    requires
        all_renderable(s),
        spec_config_line(k, v) is Some,
    ensures
        all_renderable(spec_insert(s, k, v)),
{
    lemma_remove_key_renderable(s, k);
    let removed = spec_remove_key(s, k);
    assert forall|i: int| 0 <= i < spec_insert(s, k, v).len() implies spec_config_line(
        #[trigger] spec_insert(s, k, v)[i].0,
        spec_insert(s, k, v)[i].1,
    ) is Some by {
        if i < removed.len() {
            assert(spec_insert(s, k, v)[i] == removed[i]);
        } else {
            assert(spec_insert(s, k, v)[i] == (k, v));
        }
    }
}

/// The parse results of every recognized configuration key.
#[verifier::rlimit(100)]
proof fn lemma_parse_known_keys()
    ensures
        spec_parse_option("AUTH_TYPE"@) == Some(OdooConfigOptions::AuthType),
        spec_parse_option("AUTH_LDAP_SEARCH"@) == Some(OdooConfigOptions::AuthLdapSearch),
        spec_parse_option("AUTH_LDAP_SEARCH_FILTER"@) == Some(OdooConfigOptions::AuthLdapSearchFilter),
        spec_parse_option("AUTH_LDAP_SERVER"@) == Some(OdooConfigOptions::AuthLdapServer),
        spec_parse_option("AUTH_LDAP_UID_FIELD"@) == Some(OdooConfigOptions::AuthLdapUidField),
        spec_parse_option("AUTH_LDAP_BIND_USER"@) == Some(OdooConfigOptions::AuthLdapBindUser),
        spec_parse_option("AUTH_LDAP_BIND_PASSWORD"@) == Some(OdooConfigOptions::AuthLdapBindPassword),
        spec_parse_option("AUTH_USER_REGISTRATION"@) == Some(OdooConfigOptions::AuthUserRegistration),
        spec_parse_option("AUTH_USER_REGISTRATION_ROLE"@) == Some(
            OdooConfigOptions::AuthUserRegistrationRole,
        ),
        spec_parse_option("AUTH_LDAP_FIRSTNAME_FIELD"@) == Some(
            OdooConfigOptions::AuthLdapFirstnameField,
        ),
        spec_parse_option("AUTH_LDAP_LASTNAME_FIELD"@) == Some(
            OdooConfigOptions::AuthLdapLastnameField,
        ),
        spec_parse_option("AUTH_LDAP_EMAIL_FIELD"@) == Some(OdooConfigOptions::AuthLdapEmailField),
        spec_parse_option("AUTH_LDAP_GROUP_FIELD"@) == Some(OdooConfigOptions::AuthLdapGroupField),
        spec_parse_option("AUTH_ROLES_SYNC_AT_LOGIN"@) == Some(
            OdooConfigOptions::AuthRolesSyncAtLogin,
        ),
        spec_parse_option("AUTH_LDAP_TLS_DEMAND"@) == Some(OdooConfigOptions::AuthLdapTlsDemand),
        spec_parse_option("AUTH_LDAP_TLS_CERTFILE"@) == Some(OdooConfigOptions::AuthLdapTlsCertfile),
        spec_parse_option("AUTH_LDAP_TLS_KEYFILE"@) == Some(OdooConfigOptions::AuthLdapTlsKeyfile),
        spec_parse_option("AUTH_LDAP_TLS_CACERTFILE"@) == Some(
            OdooConfigOptions::AuthLdapTlsCacertfile,
        ),
        spec_parse_option("AUTH_LDAP_ALLOW_SELF_SIGNED"@) == Some(
            OdooConfigOptions::AuthLdapAllowSelfSigned,
        ),
{
    assert(spec_parse_option("AUTH_TYPE"@) == Some(OdooConfigOptions::AuthType)) by {
        reveal_strlit("AUTH_TYPE");
        assert("AUTH_TYPE"@.len() == 9);
    }
    assert(spec_parse_option("AUTH_LDAP_SEARCH"@) == Some(OdooConfigOptions::AuthLdapSearch)) by {
        reveal_strlit("AUTH_TYPE");
        reveal_strlit("AUTH_LDAP_SEARCH");
        assert("AUTH_TYPE"@.len() == 9);
        assert("AUTH_LDAP_SEARCH"@.len() == 16);
    }
    assert(spec_parse_option("AUTH_LDAP_SEARCH_FILTER"@) == Some(OdooConfigOptions::AuthLdapSearchFilter)) by {
        reveal_strlit("AUTH_TYPE");
        reveal_strlit("AUTH_LDAP_SEARCH");
        reveal_strlit("AUTH_LDAP_SEARCH_FILTER");
        assert("AUTH_TYPE"@.len() == 9);
        assert("AUTH_LDAP_SEARCH"@.len() == 16);
        assert("AUTH_LDAP_SEARCH_FILTER"@.len() == 23);
    }
    assert(spec_parse_option("AUTH_LDAP_SERVER"@) == Some(OdooConfigOptions::AuthLdapServer)) by {
        reveal_strlit("AUTH_TYPE");
        reveal_strlit("AUTH_LDAP_SEARCH");
        reveal_strlit("AUTH_LDAP_SEARCH_FILTER");
        reveal_strlit("AUTH_LDAP_SERVER");
        assert("AUTH_TYPE"@.len() == 9);
        assert("AUTH_LDAP_SEARCH"@.len() == 16);
        assert("AUTH_LDAP_SEARCH_FILTER"@.len() == 23);
        assert("AUTH_LDAP_SERVER"@.len() == 16);
        assert("AUTH_LDAP_SERVER"@[12] != "AUTH_LDAP_SEARCH"@[12]);
    }
    assert(spec_parse_option("AUTH_LDAP_UID_FIELD"@) == Some(OdooConfigOptions::AuthLdapUidField)) by {
        reveal_strlit("AUTH_TYPE");
        reveal_strlit("AUTH_LDAP_SEARCH");
        reveal_strlit("AUTH_LDAP_SEARCH_FILTER");
        reveal_strlit("AUTH_LDAP_SERVER");
        reveal_strlit("AUTH_LDAP_UID_FIELD");
        assert("AUTH_TYPE"@.len() == 9);
        assert("AUTH_LDAP_SEARCH"@.len() == 16);
        assert("AUTH_LDAP_SEARCH_FILTER"@.len() == 23);
        assert("AUTH_LDAP_SERVER"@.len() == 16);
        assert("AUTH_LDAP_UID_FIELD"@.len() == 19);
    }
    assert(spec_parse_option("AUTH_LDAP_BIND_USER"@) == Some(OdooConfigOptions::AuthLdapBindUser)) by {
        reveal_strlit("AUTH_TYPE");
        reveal_strlit("AUTH_LDAP_SEARCH");
        reveal_strlit("AUTH_LDAP_SEARCH_FILTER");
        reveal_strlit("AUTH_LDAP_SERVER");
        reveal_strlit("AUTH_LDAP_UID_FIELD");
        reveal_strlit("AUTH_LDAP_BIND_USER");
        assert("AUTH_TYPE"@.len() == 9);
        assert("AUTH_LDAP_SEARCH"@.len() == 16);
        assert("AUTH_LDAP_SEARCH_FILTER"@.len() == 23);
        assert("AUTH_LDAP_SERVER"@.len() == 16);
        assert("AUTH_LDAP_UID_FIELD"@.len() == 19);
        assert("AUTH_LDAP_BIND_USER"@.len() == 19);
        assert("AUTH_LDAP_BIND_USER"@[10] != "AUTH_LDAP_UID_FIELD"@[10]);
    }
    assert(spec_parse_option("AUTH_LDAP_BIND_PASSWORD"@) == Some(OdooConfigOptions::AuthLdapBindPassword)) by {
        reveal_strlit("AUTH_TYPE");
        reveal_strlit("AUTH_LDAP_SEARCH");
        reveal_strlit("AUTH_LDAP_SEARCH_FILTER");
        reveal_strlit("AUTH_LDAP_SERVER");
        reveal_strlit("AUTH_LDAP_UID_FIELD");
        reveal_strlit("AUTH_LDAP_BIND_USER");
        reveal_strlit("AUTH_LDAP_BIND_PASSWORD");
        assert("AUTH_TYPE"@.len() == 9);
        assert("AUTH_LDAP_SEARCH"@.len() == 16);
        assert("AUTH_LDAP_SEARCH_FILTER"@.len() == 23);
        assert("AUTH_LDAP_SERVER"@.len() == 16);
        assert("AUTH_LDAP_UID_FIELD"@.len() == 19);
        assert("AUTH_LDAP_BIND_USER"@.len() == 19);
        assert("AUTH_LDAP_BIND_PASSWORD"@.len() == 23);
        assert("AUTH_LDAP_BIND_PASSWORD"@[10] != "AUTH_LDAP_SEARCH_FILTER"@[10]);
    }
    assert(spec_parse_option("AUTH_USER_REGISTRATION"@) == Some(OdooConfigOptions::AuthUserRegistration)) by {
        reveal_strlit("AUTH_TYPE");
        reveal_strlit("AUTH_LDAP_SEARCH");
        reveal_strlit("AUTH_LDAP_SEARCH_FILTER");
        reveal_strlit("AUTH_LDAP_SERVER");
        reveal_strlit("AUTH_LDAP_UID_FIELD");
        reveal_strlit("AUTH_LDAP_BIND_USER");
        reveal_strlit("AUTH_LDAP_BIND_PASSWORD");
        reveal_strlit("AUTH_USER_REGISTRATION");
        assert("AUTH_TYPE"@.len() == 9);
        assert("AUTH_LDAP_SEARCH"@.len() == 16);
        assert("AUTH_LDAP_SEARCH_FILTER"@.len() == 23);
        assert("AUTH_LDAP_SERVER"@.len() == 16);
        assert("AUTH_LDAP_UID_FIELD"@.len() == 19);
        assert("AUTH_LDAP_BIND_USER"@.len() == 19);
        assert("AUTH_LDAP_BIND_PASSWORD"@.len() == 23);
        assert("AUTH_USER_REGISTRATION"@.len() == 22);
    }
    assert(spec_parse_option("AUTH_USER_REGISTRATION_ROLE"@) == Some(OdooConfigOptions::AuthUserRegistrationRole)) by {
        reveal_strlit("AUTH_TYPE");
        reveal_strlit("AUTH_LDAP_SEARCH");
        reveal_strlit("AUTH_LDAP_SEARCH_FILTER");
        reveal_strlit("AUTH_LDAP_SERVER");
        reveal_strlit("AUTH_LDAP_UID_FIELD");
        reveal_strlit("AUTH_LDAP_BIND_USER");
        reveal_strlit("AUTH_LDAP_BIND_PASSWORD");
        reveal_strlit("AUTH_USER_REGISTRATION");
        reveal_strlit("AUTH_USER_REGISTRATION_ROLE");
        assert("AUTH_TYPE"@.len() == 9);
        assert("AUTH_LDAP_SEARCH"@.len() == 16);
        assert("AUTH_LDAP_SEARCH_FILTER"@.len() == 23);
        assert("AUTH_LDAP_SERVER"@.len() == 16);
        assert("AUTH_LDAP_UID_FIELD"@.len() == 19);
        assert("AUTH_LDAP_BIND_USER"@.len() == 19);
        assert("AUTH_LDAP_BIND_PASSWORD"@.len() == 23);
        assert("AUTH_USER_REGISTRATION"@.len() == 22);
        assert("AUTH_USER_REGISTRATION_ROLE"@.len() == 27);
    }
    assert(spec_parse_option("AUTH_LDAP_FIRSTNAME_FIELD"@) == Some(OdooConfigOptions::AuthLdapFirstnameField)) by {
        reveal_strlit("AUTH_TYPE");
        reveal_strlit("AUTH_LDAP_SEARCH");
        reveal_strlit("AUTH_LDAP_SEARCH_FILTER");
        reveal_strlit("AUTH_LDAP_SERVER");
        reveal_strlit("AUTH_LDAP_UID_FIELD");
        reveal_strlit("AUTH_LDAP_BIND_USER");
        reveal_strlit("AUTH_LDAP_BIND_PASSWORD");
        reveal_strlit("AUTH_USER_REGISTRATION");
        reveal_strlit("AUTH_USER_REGISTRATION_ROLE");
        reveal_strlit("AUTH_LDAP_FIRSTNAME_FIELD");
        assert("AUTH_TYPE"@.len() == 9);
        assert("AUTH_LDAP_SEARCH"@.len() == 16);
        assert("AUTH_LDAP_SEARCH_FILTER"@.len() == 23);
        assert("AUTH_LDAP_SERVER"@.len() == 16);
        assert("AUTH_LDAP_UID_FIELD"@.len() == 19);
        assert("AUTH_LDAP_BIND_USER"@.len() == 19);
        assert("AUTH_LDAP_BIND_PASSWORD"@.len() == 23);
        assert("AUTH_USER_REGISTRATION"@.len() == 22);
        assert("AUTH_USER_REGISTRATION_ROLE"@.len() == 27);
        assert("AUTH_LDAP_FIRSTNAME_FIELD"@.len() == 25);
    }
    assert(spec_parse_option("AUTH_LDAP_LASTNAME_FIELD"@) == Some(OdooConfigOptions::AuthLdapLastnameField)) by {
        reveal_strlit("AUTH_TYPE");
        reveal_strlit("AUTH_LDAP_SEARCH");
        reveal_strlit("AUTH_LDAP_SEARCH_FILTER");
        reveal_strlit("AUTH_LDAP_SERVER");
        reveal_strlit("AUTH_LDAP_UID_FIELD");
        reveal_strlit("AUTH_LDAP_BIND_USER");
        reveal_strlit("AUTH_LDAP_BIND_PASSWORD");
        reveal_strlit("AUTH_USER_REGISTRATION");
        reveal_strlit("AUTH_USER_REGISTRATION_ROLE");
        reveal_strlit("AUTH_LDAP_FIRSTNAME_FIELD");
        reveal_strlit("AUTH_LDAP_LASTNAME_FIELD");
        assert("AUTH_TYPE"@.len() == 9);
        assert("AUTH_LDAP_SEARCH"@.len() == 16);
        assert("AUTH_LDAP_SEARCH_FILTER"@.len() == 23);
        assert("AUTH_LDAP_SERVER"@.len() == 16);
        assert("AUTH_LDAP_UID_FIELD"@.len() == 19);
        assert("AUTH_LDAP_BIND_USER"@.len() == 19);
        assert("AUTH_LDAP_BIND_PASSWORD"@.len() == 23);
        assert("AUTH_USER_REGISTRATION"@.len() == 22);
        assert("AUTH_USER_REGISTRATION_ROLE"@.len() == 27);
        assert("AUTH_LDAP_FIRSTNAME_FIELD"@.len() == 25);
        assert("AUTH_LDAP_LASTNAME_FIELD"@.len() == 24);
    }
    assert(spec_parse_option("AUTH_LDAP_EMAIL_FIELD"@) == Some(OdooConfigOptions::AuthLdapEmailField)) by {
        reveal_strlit("AUTH_TYPE");
        reveal_strlit("AUTH_LDAP_SEARCH");
        reveal_strlit("AUTH_LDAP_SEARCH_FILTER");
        reveal_strlit("AUTH_LDAP_SERVER");
        reveal_strlit("AUTH_LDAP_UID_FIELD");
        reveal_strlit("AUTH_LDAP_BIND_USER");
        reveal_strlit("AUTH_LDAP_BIND_PASSWORD");
        reveal_strlit("AUTH_USER_REGISTRATION");
        reveal_strlit("AUTH_USER_REGISTRATION_ROLE");
        reveal_strlit("AUTH_LDAP_FIRSTNAME_FIELD");
        reveal_strlit("AUTH_LDAP_LASTNAME_FIELD");
        reveal_strlit("AUTH_LDAP_EMAIL_FIELD");
        assert("AUTH_TYPE"@.len() == 9);
        assert("AUTH_LDAP_SEARCH"@.len() == 16);
        assert("AUTH_LDAP_SEARCH_FILTER"@.len() == 23);
        assert("AUTH_LDAP_SERVER"@.len() == 16);
        assert("AUTH_LDAP_UID_FIELD"@.len() == 19);
        assert("AUTH_LDAP_BIND_USER"@.len() == 19);
        assert("AUTH_LDAP_BIND_PASSWORD"@.len() == 23);
        assert("AUTH_USER_REGISTRATION"@.len() == 22);
        assert("AUTH_USER_REGISTRATION_ROLE"@.len() == 27);
        assert("AUTH_LDAP_FIRSTNAME_FIELD"@.len() == 25);
        assert("AUTH_LDAP_LASTNAME_FIELD"@.len() == 24);
        assert("AUTH_LDAP_EMAIL_FIELD"@.len() == 21);
    }
    assert(spec_parse_option("AUTH_LDAP_GROUP_FIELD"@) == Some(OdooConfigOptions::AuthLdapGroupField)) by {
        reveal_strlit("AUTH_TYPE");
        reveal_strlit("AUTH_LDAP_SEARCH");
        reveal_strlit("AUTH_LDAP_SEARCH_FILTER");
        reveal_strlit("AUTH_LDAP_SERVER");
        reveal_strlit("AUTH_LDAP_UID_FIELD");
        reveal_strlit("AUTH_LDAP_BIND_USER");
        reveal_strlit("AUTH_LDAP_BIND_PASSWORD");
        reveal_strlit("AUTH_USER_REGISTRATION");
        reveal_strlit("AUTH_USER_REGISTRATION_ROLE");
        reveal_strlit("AUTH_LDAP_FIRSTNAME_FIELD");
        reveal_strlit("AUTH_LDAP_LASTNAME_FIELD");
        reveal_strlit("AUTH_LDAP_EMAIL_FIELD");
        reveal_strlit("AUTH_LDAP_GROUP_FIELD");
        assert("AUTH_TYPE"@.len() == 9);
        assert("AUTH_LDAP_SEARCH"@.len() == 16);
        assert("AUTH_LDAP_SEARCH_FILTER"@.len() == 23);
        assert("AUTH_LDAP_SERVER"@.len() == 16);
        assert("AUTH_LDAP_UID_FIELD"@.len() == 19);
        assert("AUTH_LDAP_BIND_USER"@.len() == 19);
        assert("AUTH_LDAP_BIND_PASSWORD"@.len() == 23);
        assert("AUTH_USER_REGISTRATION"@.len() == 22);
        assert("AUTH_USER_REGISTRATION_ROLE"@.len() == 27);
        assert("AUTH_LDAP_FIRSTNAME_FIELD"@.len() == 25);
        assert("AUTH_LDAP_LASTNAME_FIELD"@.len() == 24);
        assert("AUTH_LDAP_EMAIL_FIELD"@.len() == 21);
        assert("AUTH_LDAP_GROUP_FIELD"@.len() == 21);
        assert("AUTH_LDAP_GROUP_FIELD"@[10] != "AUTH_LDAP_EMAIL_FIELD"@[10]);
    }
    assert(spec_parse_option("AUTH_ROLES_SYNC_AT_LOGIN"@) == Some(OdooConfigOptions::AuthRolesSyncAtLogin)) by {
        reveal_strlit("AUTH_TYPE");
        reveal_strlit("AUTH_LDAP_SEARCH");
        reveal_strlit("AUTH_LDAP_SEARCH_FILTER");
        reveal_strlit("AUTH_LDAP_SERVER");
        reveal_strlit("AUTH_LDAP_UID_FIELD");
        reveal_strlit("AUTH_LDAP_BIND_USER");
        reveal_strlit("AUTH_LDAP_BIND_PASSWORD");
        reveal_strlit("AUTH_USER_REGISTRATION");
        reveal_strlit("AUTH_USER_REGISTRATION_ROLE");
        reveal_strlit("AUTH_LDAP_FIRSTNAME_FIELD");
        reveal_strlit("AUTH_LDAP_LASTNAME_FIELD");
        reveal_strlit("AUTH_LDAP_EMAIL_FIELD");
        reveal_strlit("AUTH_LDAP_GROUP_FIELD");
        reveal_strlit("AUTH_ROLES_SYNC_AT_LOGIN");
        assert("AUTH_TYPE"@.len() == 9);
        assert("AUTH_LDAP_SEARCH"@.len() == 16);
        assert("AUTH_LDAP_SEARCH_FILTER"@.len() == 23);
        assert("AUTH_LDAP_SERVER"@.len() == 16);
        assert("AUTH_LDAP_UID_FIELD"@.len() == 19);
        assert("AUTH_LDAP_BIND_USER"@.len() == 19);
        assert("AUTH_LDAP_BIND_PASSWORD"@.len() == 23);
        assert("AUTH_USER_REGISTRATION"@.len() == 22);
        assert("AUTH_USER_REGISTRATION_ROLE"@.len() == 27);
        assert("AUTH_LDAP_FIRSTNAME_FIELD"@.len() == 25);
        assert("AUTH_LDAP_LASTNAME_FIELD"@.len() == 24);
        assert("AUTH_LDAP_EMAIL_FIELD"@.len() == 21);
        assert("AUTH_LDAP_GROUP_FIELD"@.len() == 21);
        assert("AUTH_ROLES_SYNC_AT_LOGIN"@.len() == 24);
        assert("AUTH_ROLES_SYNC_AT_LOGIN"@[5] != "AUTH_LDAP_LASTNAME_FIELD"@[5]);
    }
    assert(spec_parse_option("AUTH_LDAP_TLS_DEMAND"@) == Some(OdooConfigOptions::AuthLdapTlsDemand)) by {
        reveal_strlit("AUTH_TYPE");
        reveal_strlit("AUTH_LDAP_SEARCH");
        reveal_strlit("AUTH_LDAP_SEARCH_FILTER");
        reveal_strlit("AUTH_LDAP_SERVER");
        reveal_strlit("AUTH_LDAP_UID_FIELD");
        reveal_strlit("AUTH_LDAP_BIND_USER");
        reveal_strlit("AUTH_LDAP_BIND_PASSWORD");
        reveal_strlit("AUTH_USER_REGISTRATION");
        reveal_strlit("AUTH_USER_REGISTRATION_ROLE");
        reveal_strlit("AUTH_LDAP_FIRSTNAME_FIELD");
        reveal_strlit("AUTH_LDAP_LASTNAME_FIELD");
        reveal_strlit("AUTH_LDAP_EMAIL_FIELD");
        reveal_strlit("AUTH_LDAP_GROUP_FIELD");
        reveal_strlit("AUTH_ROLES_SYNC_AT_LOGIN");
        reveal_strlit("AUTH_LDAP_TLS_DEMAND");
        assert("AUTH_TYPE"@.len() == 9);
        assert("AUTH_LDAP_SEARCH"@.len() == 16);
        assert("AUTH_LDAP_SEARCH_FILTER"@.len() == 23);
        assert("AUTH_LDAP_SERVER"@.len() == 16);
        assert("AUTH_LDAP_UID_FIELD"@.len() == 19);
        assert("AUTH_LDAP_BIND_USER"@.len() == 19);
        assert("AUTH_LDAP_BIND_PASSWORD"@.len() == 23);
        assert("AUTH_USER_REGISTRATION"@.len() == 22);
        assert("AUTH_USER_REGISTRATION_ROLE"@.len() == 27);
        assert("AUTH_LDAP_FIRSTNAME_FIELD"@.len() == 25);
        assert("AUTH_LDAP_LASTNAME_FIELD"@.len() == 24);
        assert("AUTH_LDAP_EMAIL_FIELD"@.len() == 21);
        assert("AUTH_LDAP_GROUP_FIELD"@.len() == 21);
        assert("AUTH_ROLES_SYNC_AT_LOGIN"@.len() == 24);
        assert("AUTH_LDAP_TLS_DEMAND"@.len() == 20);
    }
    assert(spec_parse_option("AUTH_LDAP_TLS_CERTFILE"@) == Some(OdooConfigOptions::AuthLdapTlsCertfile)) by {
        reveal_strlit("AUTH_TYPE");
        reveal_strlit("AUTH_LDAP_SEARCH");
        reveal_strlit("AUTH_LDAP_SEARCH_FILTER");
        reveal_strlit("AUTH_LDAP_SERVER");
        reveal_strlit("AUTH_LDAP_UID_FIELD");
        reveal_strlit("AUTH_LDAP_BIND_USER");
        reveal_strlit("AUTH_LDAP_BIND_PASSWORD");
        reveal_strlit("AUTH_USER_REGISTRATION");
        reveal_strlit("AUTH_USER_REGISTRATION_ROLE");
        reveal_strlit("AUTH_LDAP_FIRSTNAME_FIELD");
        reveal_strlit("AUTH_LDAP_LASTNAME_FIELD");
        reveal_strlit("AUTH_LDAP_EMAIL_FIELD");
        reveal_strlit("AUTH_LDAP_GROUP_FIELD");
        reveal_strlit("AUTH_ROLES_SYNC_AT_LOGIN");
        reveal_strlit("AUTH_LDAP_TLS_DEMAND");
        reveal_strlit("AUTH_LDAP_TLS_CERTFILE");
        assert("AUTH_TYPE"@.len() == 9);
        assert("AUTH_LDAP_SEARCH"@.len() == 16);
        assert("AUTH_LDAP_SEARCH_FILTER"@.len() == 23);
        assert("AUTH_LDAP_SERVER"@.len() == 16);
        assert("AUTH_LDAP_UID_FIELD"@.len() == 19);
        assert("AUTH_LDAP_BIND_USER"@.len() == 19);
        assert("AUTH_LDAP_BIND_PASSWORD"@.len() == 23);
        assert("AUTH_USER_REGISTRATION"@.len() == 22);
        assert("AUTH_USER_REGISTRATION_ROLE"@.len() == 27);
        assert("AUTH_LDAP_FIRSTNAME_FIELD"@.len() == 25);
        assert("AUTH_LDAP_LASTNAME_FIELD"@.len() == 24);
        assert("AUTH_LDAP_EMAIL_FIELD"@.len() == 21);
        assert("AUTH_LDAP_GROUP_FIELD"@.len() == 21);
        assert("AUTH_ROLES_SYNC_AT_LOGIN"@.len() == 24);
        assert("AUTH_LDAP_TLS_DEMAND"@.len() == 20);
        assert("AUTH_LDAP_TLS_CERTFILE"@.len() == 22);
        assert("AUTH_LDAP_TLS_CERTFILE"@[5] != "AUTH_USER_REGISTRATION"@[5]);
    }
    assert(spec_parse_option("AUTH_LDAP_TLS_KEYFILE"@) == Some(OdooConfigOptions::AuthLdapTlsKeyfile)) by {
        reveal_strlit("AUTH_TYPE");
        reveal_strlit("AUTH_LDAP_SEARCH");
        reveal_strlit("AUTH_LDAP_SEARCH_FILTER");
        reveal_strlit("AUTH_LDAP_SERVER");
        reveal_strlit("AUTH_LDAP_UID_FIELD");
        reveal_strlit("AUTH_LDAP_BIND_USER");
        reveal_strlit("AUTH_LDAP_BIND_PASSWORD");
        reveal_strlit("AUTH_USER_REGISTRATION");
        reveal_strlit("AUTH_USER_REGISTRATION_ROLE");
        reveal_strlit("AUTH_LDAP_FIRSTNAME_FIELD");
        reveal_strlit("AUTH_LDAP_LASTNAME_FIELD");
        reveal_strlit("AUTH_LDAP_EMAIL_FIELD");
        reveal_strlit("AUTH_LDAP_GROUP_FIELD");
        reveal_strlit("AUTH_ROLES_SYNC_AT_LOGIN");
        reveal_strlit("AUTH_LDAP_TLS_DEMAND");
        reveal_strlit("AUTH_LDAP_TLS_CERTFILE");
        reveal_strlit("AUTH_LDAP_TLS_KEYFILE");
        assert("AUTH_TYPE"@.len() == 9);
        assert("AUTH_LDAP_SEARCH"@.len() == 16);
        assert("AUTH_LDAP_SEARCH_FILTER"@.len() == 23);
        assert("AUTH_LDAP_SERVER"@.len() == 16);
        assert("AUTH_LDAP_UID_FIELD"@.len() == 19);
        assert("AUTH_LDAP_BIND_USER"@.len() == 19);
        assert("AUTH_LDAP_BIND_PASSWORD"@.len() == 23);
        assert("AUTH_USER_REGISTRATION"@.len() == 22);
        assert("AUTH_USER_REGISTRATION_ROLE"@.len() == 27);
        assert("AUTH_LDAP_FIRSTNAME_FIELD"@.len() == 25);
        assert("AUTH_LDAP_LASTNAME_FIELD"@.len() == 24);
        assert("AUTH_LDAP_EMAIL_FIELD"@.len() == 21);
        assert("AUTH_LDAP_GROUP_FIELD"@.len() == 21);
        assert("AUTH_ROLES_SYNC_AT_LOGIN"@.len() == 24);
        assert("AUTH_LDAP_TLS_DEMAND"@.len() == 20);
        assert("AUTH_LDAP_TLS_CERTFILE"@.len() == 22);
        assert("AUTH_LDAP_TLS_KEYFILE"@.len() == 21);
        assert("AUTH_LDAP_TLS_KEYFILE"@[10] != "AUTH_LDAP_EMAIL_FIELD"@[10]);
        assert("AUTH_LDAP_TLS_KEYFILE"@[10] != "AUTH_LDAP_GROUP_FIELD"@[10]);
    }
    assert(spec_parse_option("AUTH_LDAP_TLS_CACERTFILE"@) == Some(OdooConfigOptions::AuthLdapTlsCacertfile)) by {
        reveal_strlit("AUTH_TYPE");
        reveal_strlit("AUTH_LDAP_SEARCH");
        reveal_strlit("AUTH_LDAP_SEARCH_FILTER");
        reveal_strlit("AUTH_LDAP_SERVER");
        reveal_strlit("AUTH_LDAP_UID_FIELD");
        reveal_strlit("AUTH_LDAP_BIND_USER");
        reveal_strlit("AUTH_LDAP_BIND_PASSWORD");
        reveal_strlit("AUTH_USER_REGISTRATION");
        reveal_strlit("AUTH_USER_REGISTRATION_ROLE");
        reveal_strlit("AUTH_LDAP_FIRSTNAME_FIELD");
        reveal_strlit("AUTH_LDAP_LASTNAME_FIELD");
        reveal_strlit("AUTH_LDAP_EMAIL_FIELD");
        reveal_strlit("AUTH_LDAP_GROUP_FIELD");
        reveal_strlit("AUTH_ROLES_SYNC_AT_LOGIN");
        reveal_strlit("AUTH_LDAP_TLS_DEMAND");
        reveal_strlit("AUTH_LDAP_TLS_CERTFILE");
        reveal_strlit("AUTH_LDAP_TLS_KEYFILE");
        reveal_strlit("AUTH_LDAP_TLS_CACERTFILE");
        assert("AUTH_TYPE"@.len() == 9);
        assert("AUTH_LDAP_SEARCH"@.len() == 16);
        assert("AUTH_LDAP_SEARCH_FILTER"@.len() == 23);
        assert("AUTH_LDAP_SERVER"@.len() == 16);
        assert("AUTH_LDAP_UID_FIELD"@.len() == 19);
        assert("AUTH_LDAP_BIND_USER"@.len() == 19);
        assert("AUTH_LDAP_BIND_PASSWORD"@.len() == 23);
        assert("AUTH_USER_REGISTRATION"@.len() == 22);
        assert("AUTH_USER_REGISTRATION_ROLE"@.len() == 27);
        assert("AUTH_LDAP_FIRSTNAME_FIELD"@.len() == 25);
        assert("AUTH_LDAP_LASTNAME_FIELD"@.len() == 24);
        assert("AUTH_LDAP_EMAIL_FIELD"@.len() == 21);
        assert("AUTH_LDAP_GROUP_FIELD"@.len() == 21);
        assert("AUTH_ROLES_SYNC_AT_LOGIN"@.len() == 24);
        assert("AUTH_LDAP_TLS_DEMAND"@.len() == 20);
        assert("AUTH_LDAP_TLS_CERTFILE"@.len() == 22);
        assert("AUTH_LDAP_TLS_KEYFILE"@.len() == 21);
        assert("AUTH_LDAP_TLS_CACERTFILE"@.len() == 24);
        assert("AUTH_LDAP_TLS_CACERTFILE"@[10] != "AUTH_LDAP_LASTNAME_FIELD"@[10]);
        assert("AUTH_LDAP_TLS_CACERTFILE"@[5] != "AUTH_ROLES_SYNC_AT_LOGIN"@[5]);
    }
    assert(spec_parse_option("AUTH_LDAP_ALLOW_SELF_SIGNED"@) == Some(OdooConfigOptions::AuthLdapAllowSelfSigned)) by {
        reveal_strlit("AUTH_TYPE");
        reveal_strlit("AUTH_LDAP_SEARCH");
        reveal_strlit("AUTH_LDAP_SEARCH_FILTER");
        reveal_strlit("AUTH_LDAP_SERVER");
        reveal_strlit("AUTH_LDAP_UID_FIELD");
        reveal_strlit("AUTH_LDAP_BIND_USER");
        reveal_strlit("AUTH_LDAP_BIND_PASSWORD");
        reveal_strlit("AUTH_USER_REGISTRATION");
        reveal_strlit("AUTH_USER_REGISTRATION_ROLE");
        reveal_strlit("AUTH_LDAP_FIRSTNAME_FIELD");
        reveal_strlit("AUTH_LDAP_LASTNAME_FIELD");
        reveal_strlit("AUTH_LDAP_EMAIL_FIELD");
        reveal_strlit("AUTH_LDAP_GROUP_FIELD");
        reveal_strlit("AUTH_ROLES_SYNC_AT_LOGIN");
        reveal_strlit("AUTH_LDAP_TLS_DEMAND");
        reveal_strlit("AUTH_LDAP_TLS_CERTFILE");
        reveal_strlit("AUTH_LDAP_TLS_KEYFILE");
        reveal_strlit("AUTH_LDAP_TLS_CACERTFILE");
        reveal_strlit("AUTH_LDAP_ALLOW_SELF_SIGNED");
        assert("AUTH_TYPE"@.len() == 9);
        assert("AUTH_LDAP_SEARCH"@.len() == 16);
        assert("AUTH_LDAP_SEARCH_FILTER"@.len() == 23);
        assert("AUTH_LDAP_SERVER"@.len() == 16);
        assert("AUTH_LDAP_UID_FIELD"@.len() == 19);
        assert("AUTH_LDAP_BIND_USER"@.len() == 19);
        assert("AUTH_LDAP_BIND_PASSWORD"@.len() == 23);
        assert("AUTH_USER_REGISTRATION"@.len() == 22);
        assert("AUTH_USER_REGISTRATION_ROLE"@.len() == 27);
        assert("AUTH_LDAP_FIRSTNAME_FIELD"@.len() == 25);
        assert("AUTH_LDAP_LASTNAME_FIELD"@.len() == 24);
        assert("AUTH_LDAP_EMAIL_FIELD"@.len() == 21);
        assert("AUTH_LDAP_GROUP_FIELD"@.len() == 21);
        assert("AUTH_ROLES_SYNC_AT_LOGIN"@.len() == 24);
        assert("AUTH_LDAP_TLS_DEMAND"@.len() == 20);
        assert("AUTH_LDAP_TLS_CERTFILE"@.len() == 22);
        assert("AUTH_LDAP_TLS_KEYFILE"@.len() == 21);
        assert("AUTH_LDAP_TLS_CACERTFILE"@.len() == 24);
        assert("AUTH_LDAP_ALLOW_SELF_SIGNED"@.len() == 27);
        assert("AUTH_LDAP_ALLOW_SELF_SIGNED"@[5] != "AUTH_USER_REGISTRATION_ROLE"@[5]);
    }
}

/// The TLS entries of an LDAP provider keep every entry renderable.
proof fn lemma_ldap_tls_entries_renderable(
    m: Seq<(Seq<char>, Seq<char>)>,
    l: LdapAuthenticationProvider,
)
    requires
        all_renderable(m),
    ensures
        all_renderable(spec_ldap_tls_entries(m, l)),
{
    lemma_parse_known_keys();
    match l.tls {
        None => {
            lemma_insert_renderable(m, "AUTH_LDAP_TLS_DEMAND"@, "false"@);
        },
        Some(tls) => {
            lemma_insert_renderable(m, "AUTH_LDAP_TLS_DEMAND"@, "true"@);
            let demanded = spec_insert(m, "AUTH_LDAP_TLS_DEMAND"@, "true"@);
            match tls.verification {
                TlsVerification::Insecure => {
                    lemma_insert_renderable(demanded, "AUTH_LDAP_ALLOW_SELF_SIGNED"@, "true"@);
                },
                TlsVerification::Server { .. } => {
                    lemma_insert_renderable(demanded, "AUTH_LDAP_ALLOW_SELF_SIGNED"@, "false"@);
                    let verified = spec_insert(demanded, "AUTH_LDAP_ALLOW_SELF_SIGNED"@, "false"@);
                    match spec_ldap_ca_cert_mount_path(l) {
                        Some(p) => {
                            lemma_insert_renderable(verified, "AUTH_LDAP_TLS_CACERTFILE"@, p);
                        },
                        None => {},
                    }
                },
            }
        },
    }
}

/// The LDAP entries keep every entry renderable.
proof fn lemma_append_ldap_renderable(
    m: Seq<(Seq<char>, Seq<char>)>,
    l: LdapAuthenticationProvider,
)
    requires
        all_renderable(m),
    ensures
        all_renderable(spec_append_ldap_config(m, l)),
{
    lemma_parse_known_keys();
    let m1 = spec_insert(m, "AUTH_TYPE"@, "AUTH_LDAP"@);
    lemma_insert_renderable(m, "AUTH_TYPE"@, "AUTH_LDAP"@);
    let m2 = spec_insert(m1, "AUTH_LDAP_SERVER"@, spec_ldap_server_url(l));
    lemma_insert_renderable(m1, "AUTH_LDAP_SERVER"@, spec_ldap_server_url(l));
    let m3 = spec_insert(m2, "AUTH_LDAP_SEARCH"@, l.search_base@);
    lemma_insert_renderable(m2, "AUTH_LDAP_SEARCH"@, l.search_base@);
    let m4 = spec_insert(m3, "AUTH_LDAP_SEARCH_FILTER"@, l.search_filter@);
    lemma_insert_renderable(m3, "AUTH_LDAP_SEARCH_FILTER"@, l.search_filter@);
    let m5 = spec_insert(m4, "AUTH_LDAP_UID_FIELD"@, l.ldap_field_names.uid@);
    lemma_insert_renderable(m4, "AUTH_LDAP_UID_FIELD"@, l.ldap_field_names.uid@);
    let m6 = spec_insert(m5, "AUTH_LDAP_GROUP_FIELD"@, l.ldap_field_names.group@);
    lemma_insert_renderable(m5, "AUTH_LDAP_GROUP_FIELD"@, l.ldap_field_names.group@);
    let m7 = spec_insert(m6, "AUTH_LDAP_FIRSTNAME_FIELD"@, l.ldap_field_names.given_name@);
    lemma_insert_renderable(m6, "AUTH_LDAP_FIRSTNAME_FIELD"@, l.ldap_field_names.given_name@);
    let m8 = spec_insert(m7, "AUTH_LDAP_LASTNAME_FIELD"@, l.ldap_field_names.surname@);
    lemma_insert_renderable(m7, "AUTH_LDAP_LASTNAME_FIELD"@, l.ldap_field_names.surname@);
    lemma_ldap_tls_entries_renderable(m8, l);
    let m9 = spec_ldap_tls_entries(m8, l);
    match spec_ldap_bind_credentials_mount_paths(l) {
        Some(paths) => {
            lemma_insert_renderable(m9, "AUTH_LDAP_BIND_USER"@, "open('"@ + paths.0 + "').read()"@);
            let with_user = spec_insert(
                m9,
                "AUTH_LDAP_BIND_USER"@,
                "open('"@ + paths.0 + "').read()"@,
            );
            lemma_insert_renderable(
                with_user,
                "AUTH_LDAP_BIND_PASSWORD"@,
                "open('"@ + paths.1 + "').read()"@,
            );
        },
        None => {},
    }
}

/// The authentication entries keep every entry renderable.
proof fn lemma_append_authentication_renderable(
    m: Seq<(Seq<char>, Seq<char>)>,
    ac: OdooClusterAuthenticationConfig,
    cls: AuthenticationClass,
)
    requires
        all_renderable(m),
    ensures
        all_renderable(spec_append_authentication_config(m, ac, cls)),
{
    lemma_parse_known_keys();
    let with_provider = match cls.provider {
        AuthenticationClassProvider::Ldap(l) => spec_append_ldap_config(m, l),
        _ => m,
    };
    match cls.provider {
        AuthenticationClassProvider::Ldap(l) => {
            lemma_append_ldap_renderable(m, l);
        },
        _ => {},
    }
    lemma_insert_renderable(
        with_provider,
        "AUTH_USER_REGISTRATION"@,
        spec_bool_str(ac.user_registration),
    );
    let with_reg = spec_insert(
        with_provider,
        "AUTH_USER_REGISTRATION"@,
        spec_bool_str(ac.user_registration),
    );
    lemma_insert_renderable(with_reg, "AUTH_USER_REGISTRATION_ROLE"@, ac.user_registration_role@);
    let with_role = spec_insert(
        with_reg,
        "AUTH_USER_REGISTRATION_ROLE"@,
        ac.user_registration_role@,
    );
    lemma_insert_renderable(
        with_role,
        "AUTH_ROLES_SYNC_AT_LOGIN"@,
        spec_bool_str(ac.sync_roles_at == LdapRolesSyncMoment::Login),
    );
}

/// Law: the authentication section only adds entries the writer can
/// render, so a configuration map built from renderable entries always
/// renders into a configuration file.
pub proof fn lemma_add_odoo_config_renderable(
    m: Seq<(Seq<char>, Seq<char>)>,
    ac: Option<OdooClusterAuthenticationConfig>,
    cls: Option<AuthenticationClass>,
)
    requires
        all_renderable(m),
    ensures
        all_renderable(spec_add_odoo_config(m, ac, cls)),
        spec_config_lines(spec_add_odoo_config(m, ac, cls)) is Some,
{
    lemma_parse_known_keys();
    let with_auth = match (ac, cls) {
        (Some(a), Some(c)) => spec_append_authentication_config(m, a, c),
        _ => m,
    };
    match (ac, cls) {
        (Some(a), Some(c)) => {
            lemma_append_authentication_renderable(m, a, c);
        },
        _ => {},
    }
    if !(spec_find(with_auth, "AUTH_TYPE"@) is Some) {
        lemma_insert_renderable(with_auth, "AUTH_TYPE"@, "AUTH_DB"@);
    }
    lemma_config_lines_iff(spec_add_odoo_config(m, ac, cls));
}

} // verus!
