use odoo_operator::auth::{
    AuthenticationClass, AuthenticationClassProvider, LdapAuthenticationProvider, LdapFieldNames,
    LdapTls, TlsVerification,
};
use odoo_operator::config::{default_config, empty_fragment, resolve};
use odoo_operator::crd::{LdapRolesSyncMoment, OdooClusterAuthenticationConfig};
use odoo_operator::pyconfig::{add_odoo_config, write_webserver_config};
use odoo_operator::resources::{CpuLimitsFragment, MemoryLimitsFragment};
use odoo_operator::role::OdooRole;
use odoo_operator::string_map::StringMap;

#[test]
fn test_no_ldap() {
    let authentication_config: Option<OdooClusterAuthenticationConfig> = None;

    let mut result = StringMap::new();
    add_odoo_config(&mut result, authentication_config.as_ref(), None);

    assert_eq!(None, authentication_config.as_ref());
    assert_eq!(1, result.len());
    assert_eq!(Some(&"AUTH_DB".to_string()), result.get("AUTH_TYPE"));
}

fn ldap_class() -> AuthenticationClass {
    AuthenticationClass {
        name: "odoo-with-ldap-server-veri-tls-ldap".to_string(),
        provider: AuthenticationClassProvider::Ldap(LdapAuthenticationProvider {
            hostname: "openldap.default.svc.cluster.local".to_string(),
            port: Some(636),
            search_base: "ou=users,dc=example,dc=org".to_string(),
            search_filter: "".to_string(),
            ldap_field_names: LdapFieldNames {
                uid: "uid".to_string(),
                group: "memberof".to_string(),
                given_name: "givenName".to_string(),
                surname: "sn".to_string(),
                email: "mail".to_string(),
            },
            bind_credentials_secret_class: Some(
                "odoo-with-ldap-server-veri-tls-ldap-bind".to_string(),
            ),
            tls: Some(LdapTls {
                verification: TlsVerification::Server {
                    ca_cert_secret_class: Some("openldap-tls".to_string()),
                },
            }),
        }),
    }
}

#[test]
fn test_ldap() {
    let authentication_config = Some(OdooClusterAuthenticationConfig {
        authentication_class: Some("odoo-with-ldap-server-veri-tls-ldap".to_string()),
        user_registration: true,
        user_registration_role: "Admin".to_string(),
        sync_roles_at: LdapRolesSyncMoment::Registration,
    });
    let authentication_class = ldap_class();

    let mut result = StringMap::new();
    add_odoo_config(
        &mut result,
        authentication_config.as_ref(),
        Some(&authentication_class),
    );

    assert_eq!(
        Some(OdooClusterAuthenticationConfig {
            authentication_class: Some("odoo-with-ldap-server-veri-tls-ldap".to_string()),
            user_registration: true,
            user_registration_role: "Admin".to_string(),
            sync_roles_at: LdapRolesSyncMoment::Registration
        }),
        authentication_config
    );
    assert_eq!("AUTH_LDAP", result.get("AUTH_TYPE").unwrap());
    println!("{result:#?}");
}

#[test]
fn test_ldap_entries() {
    let authentication_config = Some(OdooClusterAuthenticationConfig {
        authentication_class: Some("odoo-with-ldap-server-veri-tls-ldap".to_string()),
        user_registration: true,
        user_registration_role: "Admin".to_string(),
        sync_roles_at: LdapRolesSyncMoment::Registration,
    });
    let authentication_class = ldap_class();
    let mut result = StringMap::new();
    add_odoo_config(
        &mut result,
        authentication_config.as_ref(),
        Some(&authentication_class),
    );
    assert_eq!(
        Some(&"ldaps://openldap.default.svc.cluster.local:636".to_string()),
        result.get("AUTH_LDAP_SERVER")
    );
    assert_eq!(
        Some(&"ou=users,dc=example,dc=org".to_string()),
        result.get("AUTH_LDAP_SEARCH")
    );
    assert_eq!(Some(&"true".to_string()), result.get("AUTH_LDAP_TLS_DEMAND"));
    assert_eq!(
        Some(&"false".to_string()),
        result.get("AUTH_LDAP_ALLOW_SELF_SIGNED")
    );
    assert_eq!(
        Some(&"/stackable/secrets/openldap-tls/ca.crt".to_string()),
        result.get("AUTH_LDAP_TLS_CACERTFILE")
    );
    assert_eq!(
        Some(&"open('/stackable/secrets/odoo-with-ldap-server-veri-tls-ldap-bind/user').read()".to_string()),
        result.get("AUTH_LDAP_BIND_USER")
    );
    assert_eq!(Some(&"Admin".to_string()), result.get("AUTH_USER_REGISTRATION_ROLE"));
    assert_eq!(Some(&"false".to_string()), result.get("AUTH_ROLES_SYNC_AT_LOGIN"));
}

#[test]
fn test_merge_precedence() {
    // D sets cpu.max 800m, G overrides with 400m, R stays silent: the
    // role-group value wins.
    let mut d = empty_fragment();
    d.resources.cpu = CpuLimitsFragment {
        min: Some("200m".to_string()),
        max: Some("800m".to_string()),
    };
    d.resources.memory = MemoryLimitsFragment {
        limit: Some("1750Mi".to_string()),
    };
    d.logging = odoo_operator::logging::default_logging();
    let r = empty_fragment();
    let mut g = empty_fragment();
    g.resources.cpu.max = Some("400m".to_string());

    let resolved = resolve(&d, &r, &g).unwrap();
    assert_eq!("400m", resolved.resources.cpu.max);
    assert_eq!("200m", resolved.resources.cpu.min);
    assert_eq!("1750Mi", resolved.resources.memory.limit);
}

#[test]
fn test_merge_role_layer_wins_over_default() {
    let mut d = empty_fragment();
    d.resources.cpu = CpuLimitsFragment {
        min: Some("100m".to_string()),
        max: Some("400m".to_string()),
    };
    d.resources.memory = MemoryLimitsFragment {
        limit: Some("512Mi".to_string()),
    };
    d.logging = odoo_operator::logging::default_logging();
    let mut r = empty_fragment();
    r.resources.memory.limit = Some("1Gi".to_string());
    let g = empty_fragment();

    let resolved = resolve(&d, &r, &g).unwrap();
    assert_eq!("1Gi", resolved.resources.memory.limit);
    assert_eq!("400m", resolved.resources.cpu.max);
}

#[test]
fn test_resolve_rejects_incomplete_fragments() {
    // Without a complete base layer the merge leaves fields unset and
    // validation reports the first missing one.
    let d = empty_fragment();
    let r = empty_fragment();
    let g = empty_fragment();
    let err = resolve(&d, &r, &g).unwrap_err();
    assert_eq!("resources.cpu.min", err.field_name);
}

#[test]
fn test_default_config_is_complete() {
    let d = default_config("odoo", &OdooRole::Webserver);
    let resolved = resolve(&d, &empty_fragment(), &empty_fragment()).unwrap();
    assert_eq!("100m", resolved.resources.cpu.min);
    assert_eq!("400m", resolved.resources.cpu.max);
    assert_eq!("2Gi", resolved.resources.memory.limit);
    assert!(!resolved.logging.enable_vector_agent);
}

#[test]
fn test_write_webserver_config_renders() {
    let mut config = StringMap::new();
    add_odoo_config(&mut config, None, None);
    let file = write_webserver_config(&config).unwrap();
    let expected = "import os\n\
        from odoo.www.fab_security.manager import (AUTH_DB, AUTH_LDAP, AUTH_OAUTH, AUTH_OID, AUTH_REMOTE_USER)\n\
        basedir = os.path.abspath(os.path.dirname(__file__))\n\
        WTF_CSRF_ENABLED = True\n\
        AUTH_TYPE = AUTH_DB\n";
    assert_eq!(expected, file);
}

#[test]
fn test_write_webserver_config_quotes_strings_and_bools() {
    let mut config = StringMap::new();
    config.insert("AUTH_USER_REGISTRATION_ROLE".to_string(), "Admin".to_string());
    config.insert("AUTH_USER_REGISTRATION".to_string(), "true".to_string());
    config.insert("AUTH_TYPE".to_string(), "AUTH_DB".to_string());
    let file = write_webserver_config(&config).unwrap();
    assert!(file.contains("AUTH_USER_REGISTRATION_ROLE = 'Admin'\n"));
    assert!(file.contains("AUTH_USER_REGISTRATION = True\n"));
    assert!(file.contains("AUTH_TYPE = AUTH_DB\n"));
}

#[test]
fn test_write_webserver_config_rejects_unknown_key() {
    let mut config = StringMap::new();
    config.insert("NOT_A_KNOWN_OPTION".to_string(), "1".to_string());
    let err = write_webserver_config(&config).unwrap_err();
    assert_eq!("NOT_A_KNOWN_OPTION", err.key);
}

#[test]
fn test_write_webserver_config_rejects_malformed_bool() {
    let mut config = StringMap::new();
    config.insert("AUTH_LDAP_TLS_DEMAND".to_string(), "yes".to_string());
    let err = write_webserver_config(&config).unwrap_err();
    assert_eq!("AUTH_LDAP_TLS_DEMAND", err.key);
}
