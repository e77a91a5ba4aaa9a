//! Recommended object labels and selector labels for generated resources.
use crate::affinity::pairs_view;
use crate::APP_NAME;
use vstd::prelude::*;
use vstd::string::*;

verus! {

/// The recommended labels of a generated resource: application name, owning
/// cluster instance, application version, role, role-group, and the
/// managing controller.
pub open spec fn spec_recommended_labels(
    owner_name: Seq<char>,
    controller_name: Seq<char>,
    app_version: Seq<char>,
    role: Seq<char>,
    role_group: Seq<char>,
) -> Seq<(Seq<char>, Seq<char>)> {
    seq![
        ("app.kubernetes.io/name"@, "odoo"@),
        ("app.kubernetes.io/instance"@, owner_name),
        ("app.kubernetes.io/version"@, app_version),
        ("app.kubernetes.io/component"@, role),
        ("app.kubernetes.io/role-group"@, role_group),
        ("app.kubernetes.io/managed-by"@, "odoo.sovrin.cloud_"@ + controller_name),
    ]
}

/// Builds the recommended labels for a resource generated on behalf of the
/// named owner.
pub fn build_recommended_labels(
    owner_name: &str,
    controller_name: &str,
    app_version: &str,
    role: &str,
    role_group: &str,
) -> (r: Vec<(String, String)>)
    ensures
        pairs_view(r@) == spec_recommended_labels(
            owner_name@,
            controller_name@,
            app_version@,
            role@,
            role_group@,
        ),
{
    let mut r: Vec<(String, String)> = Vec::new();
    r.push((String::from_str("app.kubernetes.io/name"), APP_NAME.to_owned()));
    r.push((String::from_str("app.kubernetes.io/instance"), owner_name.to_owned()));
    r.push((String::from_str("app.kubernetes.io/version"), app_version.to_owned()));
    r.push((String::from_str("app.kubernetes.io/component"), role.to_owned()));
    r.push((String::from_str("app.kubernetes.io/role-group"), role_group.to_owned()));
    r.push((
        String::from_str("app.kubernetes.io/managed-by"),
        String::from_str("odoo.sovrin.cloud_").concat(controller_name),
    ));
    proof {
        assert(pairs_view(r@) =~= spec_recommended_labels(
            owner_name@,
            controller_name@,
            app_version@,
            role@,
            role_group@,
        ));
    }
    r
}

/// The selector labels matching every pod of a role.
pub open spec fn spec_role_selector_labels(owner_name: Seq<char>, role: Seq<char>) -> Seq<
    (Seq<char>, Seq<char>),
> {
    seq![
        ("app.kubernetes.io/name"@, "odoo"@),
        ("app.kubernetes.io/instance"@, owner_name),
        ("app.kubernetes.io/component"@, role),
    ]
}

/// Builds the selector labels of a role.
pub fn role_selector_labels(owner_name: &str, role: &str) -> (r: Vec<(String, String)>)
    ensures
        pairs_view(r@) == spec_role_selector_labels(owner_name@, role@),
{
    let mut r: Vec<(String, String)> = Vec::new();
    r.push((String::from_str("app.kubernetes.io/name"), APP_NAME.to_owned()));
    r.push((String::from_str("app.kubernetes.io/instance"), owner_name.to_owned()));
    r.push((String::from_str("app.kubernetes.io/component"), role.to_owned()));
    proof {
        assert(pairs_view(r@) =~= spec_role_selector_labels(owner_name@, role@));
    }
    r
}

/// The selector labels matching every pod of a role-group.
pub open spec fn spec_role_group_selector_labels(
    owner_name: Seq<char>,
    role: Seq<char>,
    role_group: Seq<char>,
) -> Seq<(Seq<char>, Seq<char>)> {
    spec_role_selector_labels(owner_name, role).push(
        ("app.kubernetes.io/role-group"@, role_group),
    )
}

/// Builds the selector labels of a role-group.
pub fn role_group_selector_labels(owner_name: &str, role: &str, role_group: &str) -> (r: Vec<
    (String, String),
>)
    ensures
        pairs_view(r@) == spec_role_group_selector_labels(owner_name@, role@, role_group@),
{
    let mut r = role_selector_labels(owner_name, role);
    r.push((String::from_str("app.kubernetes.io/role-group"), role_group.to_owned()));
    proof {
        assert(pairs_view(r@) =~= spec_role_group_selector_labels(owner_name@, role@, role_group@));
    }
    r
}

} // verus!
