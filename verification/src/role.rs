//! The closed set of deployment roles and of pod container names.
use vstd::prelude::*;
use vstd::string::*;

verus! {

/// A named class of workload replicas sharing a command and port profile.
#[derive(Clone, Copy, Debug, PartialEq, Eq, Structural, Hash)]
pub enum OdooRole {
    Webserver,
    Scheduler,
    Worker,
}

/// Containers of a role-group pod.
#[derive(Clone, Copy, Debug, PartialEq, Eq, Structural, Hash)]
pub enum Container {
    Odoo,
    Vector,
}

/// The serialized name of a role, as used in labels, service names and
/// role-group references.
pub open spec fn spec_role_name(role: OdooRole) -> Seq<char> {
    match role {
        OdooRole::Webserver => "webserver"@,
        OdooRole::Scheduler => "scheduler"@,
        OdooRole::Worker => "worker"@,
    }
}

/// The command that copies the rendered webserver configuration from the
/// mounted config volume into the application home directory.
pub open spec fn spec_copy_config_command() -> Seq<char> {
    "cp -RL /stackable/app/config/webserver_config.py /stackable/odoo/webserver_config.py"@
}

/// The process start command of a role.
pub open spec fn spec_role_start_command(role: OdooRole) -> Seq<char> {
    match role {
        OdooRole::Webserver => "odoo webserver"@,
        OdooRole::Scheduler => "odoo scheduler"@,
        OdooRole::Worker => "odoo celery worker"@,
    }
}

impl OdooRole {
    /// The serialized name of this role.
    pub fn as_str(&self) -> (r: &'static str)
        ensures
            r@ == spec_role_name(*self),
    {
        match self {
            OdooRole::Webserver => "webserver",
            OdooRole::Scheduler => "scheduler",
            OdooRole::Worker => "worker",
        }
    }

    /// The serialized name of this role as an owned string.
    pub fn name(&self) -> (r: String)
        ensures
            r@ == spec_role_name(*self),
    {
        self.as_str().to_owned()
    }

    /// The start commands of the role's main container.  All components get
    /// the same image and configuration, so the webserver config file is
    /// copied into the application home directory on every pod.
    pub fn get_commands(&self) -> (r: Vec<String>)
        ensures
            r@.len() == 2,
            r@[0]@ == spec_copy_config_command(),
            r@[1]@ == spec_role_start_command(*self),
    {
        let copy_config = String::from_str(
            "cp -RL /stackable/app/config/webserver_config.py /stackable/odoo/webserver_config.py",
        );
        let start = match self {
            OdooRole::Webserver => String::from_str("odoo webserver"),
            OdooRole::Scheduler => String::from_str("odoo scheduler"),
            OdooRole::Worker => String::from_str("odoo celery worker"),
        };
        let mut commands: Vec<String> = Vec::new();
        commands.push(copy_config);
        commands.push(start);
        commands
    }

    /// The HTTP port the role exposes, used to decide which roles get a
    /// cluster-wide service.  Only the webserver serves HTTP.
    pub fn get_http_port(&self) -> (r: Option<u16>)
        ensures
            r == spec_role_http_port(*self),
    {
        match self {
            OdooRole::Webserver => Some(8080),
            OdooRole::Scheduler => None,
            OdooRole::Worker => None,
        }
    }

    /// Every role, in declaration order.
    pub fn all() -> (r: Vec<OdooRole>)
        ensures
            r@ == seq![OdooRole::Webserver, OdooRole::Scheduler, OdooRole::Worker],
    {
        let mut r: Vec<OdooRole> = Vec::new();
        r.push(OdooRole::Webserver);
        r.push(OdooRole::Scheduler);
        r.push(OdooRole::Worker);
        proof {
            assert(r@ =~= seq![OdooRole::Webserver, OdooRole::Scheduler, OdooRole::Worker]);
        }
        r
    }

    /// The serialized names of every role.
    pub fn roles() -> (r: Vec<String>)
        ensures
            r@.len() == 3,
            r@[0]@ == spec_role_name(OdooRole::Webserver),
            r@[1]@ == spec_role_name(OdooRole::Scheduler),
            r@[2]@ == spec_role_name(OdooRole::Worker),
    {
        let mut r: Vec<String> = Vec::new();
        r.push(OdooRole::Webserver.name());
        r.push(OdooRole::Scheduler.name());
        r.push(OdooRole::Worker.name());
        r
    }
}

/// The HTTP port of a role, if it exposes one.
pub open spec fn spec_role_http_port(role: OdooRole) -> Option<u16> {
    match role {
        OdooRole::Webserver => Some(8080u16),
        OdooRole::Scheduler => None,
        OdooRole::Worker => None,
    }
}

/// The serialized name of a container, used as the container's name in the
/// pod template and as the key of its log configuration.
pub open spec fn spec_container_name(c: Container) -> Seq<char> {
    match c {
        Container::Odoo => "odoo"@,
        Container::Vector => "vector"@,
    }
}

impl Container {
    /// The serialized name of this container.
    pub fn as_str(&self) -> (r: &'static str)
        ensures
            r@ == spec_container_name(*self),
    {
        match self {
            Container::Odoo => "odoo",
            Container::Vector => "vector",
        }
    }
}

} // verus!
