//! The settings of the manager's services, read from their environment.

use crate::db::opt_string_view;
use vstd::prelude::*;

verus! {

/// A snapshot of the environment of a process: its variables, by name and value.
pub struct ManagerEnv {
    pub vars: Vec<(String, String)>,
}

/// The view of the variables of an environment.
pub open spec fn vars_view(vars: Seq<(String, String)>) -> Seq<(Seq<char>, Seq<char>)> {
    vars.map_values(|p: (String, String)| (p.0@, p.1@))
}

impl View for ManagerEnv {
    type V = Seq<(Seq<char>, Seq<char>)>;

    open spec fn view(&self) -> Seq<(Seq<char>, Seq<char>)> {
        vars_view(self.vars@)
    }
}

/// The value of the first variable named `name`.
pub open spec fn env_var(vars: Seq<(Seq<char>, Seq<char>)>, name: Seq<char>) -> Option<Seq<char>>
    decreases vars.len(),
{
    if vars.len() == 0 {
        None
    } else if vars[0].0 == name {
        Some(vars[0].1)
    } else {
        env_var(vars.drop_first(), name)
    }
}

/// A text, when it is not empty.
pub open spec fn non_empty(x: Seq<char>) -> Option<Seq<char>> {
    if x.len() == 0 {
        None
    } else {
        Some(x)
    }
}

impl ManagerEnv {
    /// The value of the variable `name`, if it is set.
    pub fn lookup(&self, name: &str) -> (r: Option<String>)
        ensures
            opt_string_view(r) == env_var(self@, name@),
    {
        let mut i: usize = 0;
        assert(self@.skip(0) =~= self@);
        while i < self.vars.len()
            invariant
                i <= self.vars@.len(),
                env_var(self@, name@) == env_var(self@.skip(i as int), name@),
            decreases self.vars@.len() - i,
        {
            proof {
                assert(self@.skip(i as int)[0] == (self.vars@[i as int].0@, self.vars@[i as int].1@));
                assert(self@.skip(i as int).drop_first() =~= self@.skip(i + 1));
            }
            if crate::text::str_eq(self.vars[i].0.as_str(), name) {
                return Some(self.vars[i].1.clone());
            }
            i = i + 1;
        }
        proof {
            assert(self@.skip(i as int).len() == 0);
        }
        None
    }
}

/// Gets the environment variable, which must be set.
fn get_var(env: &ManagerEnv, name: &str) -> (r: String)
    requires
        env_var(env@, name@) is Some,
    ensures
        r@ == env_var(env@, name@)->Some_0,
{
    match env.lookup(name) {
        Some(v) => v,
        None => {
            proof {
                assert(false);
            }
            String::new()
        },
    }
}

fn empty_str_to_none(x: String) -> (r: Option<String>)
    ensures
        opt_string_view(r) == non_empty(x@),
{
    if x.as_str().unicode_len() == 0 {
        None
    } else {
        Some(x)
    }
}

fn string_to_bool(x: String) -> (r: bool)
    ensures
        r == (x@ == "true"@),
{
    crate::text::str_eq(x.as_str(), "true")
}

/// Get anonymous read permission from the env; the variable `ALLOW_ANONYMOUS_READ` must be set.
pub fn get_allow_anonymous_read(env: &ManagerEnv) -> (r: bool)
    requires
        env_var(env@, "ALLOW_ANONYMOUS_READ"@) is Some,
    ensures
        r == (env_var(env@, "ALLOW_ANONYMOUS_READ"@)->Some_0 == "true"@),
{
    string_to_bool(get_var(env, "ALLOW_ANONYMOUS_READ"))
}

/// Get build num from the env; the variable `BUILD` must be set.
pub fn get_build(env: &ManagerEnv) -> (r: String)
    requires
        env_var(env@, "BUILD"@) is Some,
    ensures
        r@ == env_var(env@, "BUILD"@)->Some_0,
{
    get_var(env, "BUILD")
}

/// Get is release from the env; the variable `IS_RELEASE` must be set.
pub fn get_is_release(env: &ManagerEnv) -> (r: bool)
    requires
        env_var(env@, "IS_RELEASE"@) is Some,
    ensures
        r == (env_var(env@, "IS_RELEASE"@)->Some_0 == "true"@),
{
    string_to_bool(get_var(env, "IS_RELEASE"))
}

/// Get version from the env; the variable `VERSION` must be set.
pub fn get_version(env: &ManagerEnv) -> (r: String)
    requires
        env_var(env@, "VERSION"@) is Some,
    ensures
        r@ == env_var(env@, "VERSION"@)->Some_0,
{
    get_var(env, "VERSION")
}

/// Get the broker URL from the env; the variable `AMQP_BROKER_URL` must be set.
pub fn get_amqp_broker_url(env: &ManagerEnv) -> (r: String)
    requires
        env_var(env@, "AMQP_BROKER_URL"@) is Some,
    ensures
        r@ == env_var(env@, "AMQP_BROKER_URL"@)->Some_0,
{
    get_var(env, "AMQP_BROKER_URL")
}

/// Get the broker user from the env; the variable `AMQP_BROKER_USER` must be set.
pub fn get_user(env: &ManagerEnv) -> (r: String)
    requires
        env_var(env@, "AMQP_BROKER_USER"@) is Some,
    ensures
        r@ == env_var(env@, "AMQP_BROKER_USER"@)->Some_0,
{
    get_var(env, "AMQP_BROKER_USER")
}

/// Get the broker password from the env; the variable `AMQP_BROKER_PASSWORD` must be set.
pub fn get_password(env: &ManagerEnv) -> (r: String)
    requires
        env_var(env@, "AMQP_BROKER_PASSWORD"@) is Some,
    ensures
        r@ == env_var(env@, "AMQP_BROKER_PASSWORD"@)->Some_0,
{
    get_var(env, "AMQP_BROKER_PASSWORD")
}

/// Get the broker vhost from the env; the variable `AMQP_BROKER_VHOST` must be set.
pub fn get_vhost(env: &ManagerEnv) -> (r: String)
    requires
        env_var(env@, "AMQP_BROKER_VHOST"@) is Some,
    ensures
        r@ == env_var(env@, "AMQP_BROKER_VHOST"@)->Some_0,
{
    get_var(env, "AMQP_BROKER_VHOST")
}

/// Get the broker host from the env; the variable `AMQP_BROKER_HOST` must be set.
pub fn get_host(env: &ManagerEnv) -> (r: String)
    requires
        env_var(env@, "AMQP_BROKER_HOST"@) is Some,
    ensures
        r@ == env_var(env@, "AMQP_BROKER_HOST"@)->Some_0,
{
    get_var(env, "AMQP_BROKER_HOST")
}

/// Get the broker port from the env; the variable `AMQP_BROKER_PORT` must be set.
pub fn get_port(env: &ManagerEnv) -> (r: String)
    requires
        env_var(env@, "AMQP_BROKER_PORT"@) is Some,
    ensures
        r@ == env_var(env@, "AMQP_BROKER_PORT"@)->Some_0,
{
    get_var(env, "AMQP_BROKER_PORT")
}

/// Get the IML API port from the env; the variable `IML_API_PORT` must be set.
pub fn get_iml_api_port(env: &ManagerEnv) -> (r: String)
    requires
        env_var(env@, "IML_API_PORT"@) is Some,
    ensures
        r@ == env_var(env@, "IML_API_PORT"@)->Some_0,
{
    get_var(env, "IML_API_PORT")
}

/// Get the `http_agent2` port from the env; the variable `HTTP_AGENT2_PORT` must be set.
pub fn get_http_agent2_port(env: &ManagerEnv) -> (r: String)
    requires
        env_var(env@, "HTTP_AGENT2_PORT"@) is Some,
    ensures
        r@ == env_var(env@, "HTTP_AGENT2_PORT"@)->Some_0,
{
    get_var(env, "HTTP_AGENT2_PORT")
}

/// Get the server host from the env; the variable `PROXY_HOST` must be set.
pub fn get_server_host(env: &ManagerEnv) -> (r: String)
    requires
        env_var(env@, "PROXY_HOST"@) is Some,
    ensures
        r@ == env_var(env@, "PROXY_HOST"@)->Some_0,
{
    get_var(env, "PROXY_HOST")
}

/// Get the warp drive port from the env; the variable `WARP_DRIVE_PORT` must be set.
pub fn get_warp_drive_port(env: &ManagerEnv) -> (r: String)
    requires
        env_var(env@, "WARP_DRIVE_PORT"@) is Some,
    ensures
        r@ == env_var(env@, "WARP_DRIVE_PORT"@)->Some_0,
{
    get_var(env, "WARP_DRIVE_PORT")
}

/// Get the mailbox port from the env; the variable `MAILBOX_PORT` must be set.
pub fn get_mailbox_port(env: &ManagerEnv) -> (r: String)
    requires
        env_var(env@, "MAILBOX_PORT"@) is Some,
    ensures
        r@ == env_var(env@, "MAILBOX_PORT"@)->Some_0,
{
    get_var(env, "MAILBOX_PORT")
}

/// Get the timer port from the env; the variable `TIMER_PORT` must be set.
pub fn get_timer_port(env: &ManagerEnv) -> (r: String)
    requires
        env_var(env@, "TIMER_PORT"@) is Some,
    ensures
        r@ == env_var(env@, "TIMER_PORT"@)->Some_0,
{
    get_var(env, "TIMER_PORT")
}

/// Get the influxdb port from the env; the variable `INFLUXDB_PORT` must be set.
pub fn get_influxdb_port(env: &ManagerEnv) -> (r: String)
    requires
        env_var(env@, "INFLUXDB_PORT"@) is Some,
    ensures
        r@ == env_var(env@, "INFLUXDB_PORT"@)->Some_0,
{
    get_var(env, "INFLUXDB_PORT")
}

/// Get the metrics influxdb database name from the env; the variable `INFLUXDB_IML_STATS_DB` must be set.
pub fn get_influxdb_metrics_db(env: &ManagerEnv) -> (r: String)
    requires
        env_var(env@, "INFLUXDB_IML_STATS_DB"@) is Some,
    ensures
        r@ == env_var(env@, "INFLUXDB_IML_STATS_DB"@)->Some_0,
{
    get_var(env, "INFLUXDB_IML_STATS_DB")
}

/// Get the path to the mailbox from the env; the variable `MAILBOX_PATH` must be set.
pub fn get_mailbox_path(env: &ManagerEnv) -> (r: String)
    requires
        env_var(env@, "MAILBOX_PATH"@) is Some,
    ensures
        r@ == env_var(env@, "MAILBOX_PATH"@)->Some_0,
{
    get_var(env, "MAILBOX_PATH")
}

/// Get the api key from the env; the variable `API_KEY` must be set.
pub fn get_api_key(env: &ManagerEnv) -> (r: String)
    requires
        env_var(env@, "API_KEY"@) is Some,
    ensures
        r@ == env_var(env@, "API_KEY"@)->Some_0,
{
    get_var(env, "API_KEY")
}

/// Get the api user from the env; the variable `API_USER` must be set.
pub fn get_api_user(env: &ManagerEnv) -> (r: String)
    requires
        env_var(env@, "API_USER"@) is Some,
    ensures
        r@ == env_var(env@, "API_USER"@)->Some_0,
{
    get_var(env, "API_USER")
}

/// Get the manager's url from the env; the variable `SERVER_HTTP_URL` must be set.
pub fn get_manager_url(env: &ManagerEnv) -> (r: String)
    requires
        env_var(env@, "SERVER_HTTP_URL"@) is Some,
    ensures
        r@ == env_var(env@, "SERVER_HTTP_URL"@)->Some_0,
{
    get_var(env, "SERVER_HTTP_URL")
}

/// Get the database user from the env; the variable `DB_USER` must be set.
pub fn get_db_user(env: &ManagerEnv) -> (r: String)
    requires
        env_var(env@, "DB_USER"@) is Some,
    ensures
        r@ == env_var(env@, "DB_USER"@)->Some_0,
{
    get_var(env, "DB_USER")
}

/// Get the database host from the env, if it is not empty; the variable `DB_HOST` must be set.
pub fn get_db_host(env: &ManagerEnv) -> (r: Option<String>)
    requires
        env_var(env@, "DB_HOST"@) is Some,
    ensures
        opt_string_view(r) == non_empty(env_var(env@, "DB_HOST"@)->Some_0),
{
    empty_str_to_none(get_var(env, "DB_HOST"))
}

/// Get the database name from the env, if it is not empty; the variable `DB_NAME` must be set.
pub fn get_db_name(env: &ManagerEnv) -> (r: Option<String>)
    requires
        env_var(env@, "DB_NAME"@) is Some,
    ensures
        opt_string_view(r) == non_empty(env_var(env@, "DB_NAME"@)->Some_0),
{
    empty_str_to_none(get_var(env, "DB_NAME"))
}

/// Get the database password from the env, if it is not empty; the variable `DB_PASSWORD` must be set.
pub fn get_db_password(env: &ManagerEnv) -> (r: Option<String>)
    requires
        env_var(env@, "DB_PASSWORD"@) is Some,
    ensures
        opt_string_view(r) == non_empty(env_var(env@, "DB_PASSWORD"@)->Some_0),
{
    empty_str_to_none(get_var(env, "DB_PASSWORD"))
}

/// Get the branding from the env; the variable `BRANDING` must be set.
pub fn get_branding(env: &ManagerEnv) -> (r: String)
    requires
        env_var(env@, "BRANDING"@) is Some,
    ensures
        r@ == env_var(env@, "BRANDING"@)->Some_0,
{
    get_var(env, "BRANDING")
}

/// Get whether stratagem is used from the env; the variable `USE_STRATAGEM` must be set.
pub fn get_use_stratagem(env: &ManagerEnv) -> (r: bool)
    requires
        env_var(env@, "USE_STRATAGEM"@) is Some,
    ensures
        r == (env_var(env@, "USE_STRATAGEM"@)->Some_0 == "true"@),
{
    string_to_bool(get_var(env, "USE_STRATAGEM"))
}

/// The database connection string: the user, the host (the postgres socket directory when
/// none is set), then the database name and the password when they are set.
pub open spec fn conn_string(user: Seq<char>, host: Seq<char>, name: Seq<char>, password: Seq<char>) -> Seq<char> {
    "user="@ + user + " host="@ + (if host.len() == 0 { "/var/run/postgresql"@ } else { host }) + (if name.len()
        == 0 {
        Seq::empty()
    } else {
        " dbname="@ + name
    }) + (if password.len() == 0 {
        Seq::empty()
    } else {
        " password="@ + password
    })
}

/// Each part of the connection string depends on its own variable only: it starts with the
/// user and the host (the postgres socket directory when the host is empty); it holds
/// ` dbname=` and the name whenever the name is set, whatever the password; it ends with
/// ` password=` and the password whenever the password is set, whatever the name; and it
/// has nothing after the host when neither is set.
pub proof fn lemma_conn_string_parts(user: Seq<char>, host: Seq<char>, name: Seq<char>, password: Seq<char>)
    ensures
        ({
            let r = conn_string(user, host, name, password);
            let head = "user="@ + user + " host="@ + (if host.len() == 0 { "/var/run/postgresql"@ } else { host });
            &&& head.len() <= r.len() && r.subrange(0, head.len() as int) == head
            &&& name.len() > 0 ==> crate::text::contains_text(r, " dbname="@ + name)
            &&& password.len() > 0 ==> {
                let tail = " password="@ + password;
                tail.len() <= r.len() && r.subrange(r.len() - tail.len(), r.len() as int) == tail
            }
            &&& name.len() == 0 && password.len() == 0 ==> r == head
        }),
{
    let r = conn_string(user, host, name, password);
    let head = "user="@ + user + " host="@ + (if host.len() == 0 { "/var/run/postgresql"@ } else { host });
    let d = if name.len() == 0 { Seq::<char>::empty() } else { " dbname="@ + name };
    let p = if password.len() == 0 { Seq::<char>::empty() } else { " password="@ + password };
    assert(r =~= head + d + p);
    assert(r.subrange(0, head.len() as int) =~= head);
    if name.len() > 0 {
        assert(r.subrange(head.len() as int, (head.len() + d.len()) as int) =~= d);
        assert(crate::text::occurs_at(r, " dbname="@ + name, head.len() as int));
    }
    if password.len() > 0 {
        assert(r.subrange(r.len() - p.len(), r.len() as int) =~= p);
    }
    if name.len() == 0 && password.len() == 0 {
        assert(r =~= head);
    }
}

/// Gets a connection string from the IML env; the variables `DB_USER`, `DB_HOST`,
/// `DB_NAME` and `DB_PASSWORD` must be set.
pub fn get_db_conn_string(env: &ManagerEnv) -> (r: String)
    requires
        env_var(env@, "DB_USER"@) is Some,
        env_var(env@, "DB_HOST"@) is Some,
        env_var(env@, "DB_NAME"@) is Some,
        env_var(env@, "DB_PASSWORD"@) is Some,
    ensures
        r@ == conn_string(
            env_var(env@, "DB_USER"@)->Some_0,
            env_var(env@, "DB_HOST"@)->Some_0,
            env_var(env@, "DB_NAME"@)->Some_0,
            env_var(env@, "DB_PASSWORD"@)->Some_0,
        ),
{
    let user = get_db_user(env);
    let mut s = crate::text::concat("user=", user.as_str());
    s.append(" host=");
    match get_db_host(env) {
        Some(x) => s.append(x.as_str()),
        None => s.append("/var/run/postgresql"),
    }
    match get_db_name(env) {
        Some(x) => {
            s.append(" dbname=");
            s.append(x.as_str());
        },
        None => {},
    }
    match get_db_password(env) {
        Some(x) => {
            s.append(" password=");
            s.append(x.as_str());
        },
        None => {},
    }
    s
}

/// The message with which a process stops when the variable `name` is not set.
pub open spec fn required_text(name: Seq<char>) -> Seq<char> {
    name + " environment variable is required."@
}

/// The first of `names` that the variables do not set, if there is one.
pub open spec fn first_missing(vars: Seq<(Seq<char>, Seq<char>)>, names: Seq<Seq<char>>) -> Option<Seq<char>>
    decreases names.len(),
{
    if names.len() == 0 {
        None
    } else if env_var(vars, names[0]) is None {
        Some(names[0])
    } else {
        first_missing(vars, names.drop_first())
    }
}

/// Checks that every variable of `names` is set, before the getters that need them are
/// called; otherwise gives the message with which a service stops, naming the first
/// variable that is missing.
pub fn check_vars(env: &ManagerEnv, names: &[&str]) -> (r: Result<(), String>)
    ensures
        r is Ok <==> first_missing(env@, names@.map_values(|n: &str| n@)) is None,
        r matches Err(m) ==> m@ == required_text(first_missing(env@, names@.map_values(|n: &str| n@))->Some_0),
        r is Ok ==> forall|i: int| 0 <= i < names@.len() ==> env_var(env@, #[trigger] names@[i]@) is Some,
{
    let ghost ns = names@.map_values(|n: &str| n@);
    let mut i: usize = 0;
    assert(ns.skip(0) =~= ns);
    while i < names.len()
        invariant
            ns == names@.map_values(|n: &str| n@),
            i <= names@.len(),
            first_missing(env@, ns) == first_missing(env@, ns.skip(i as int)),
            forall|j: int| 0 <= j < i ==> env_var(env@, #[trigger] names@[j]@) is Some,
        decreases names@.len() - i,
    {
        let name = names[i];
        proof {
            assert(ns.skip(i as int)[0] == name@);
            assert(ns.skip(i as int).drop_first() =~= ns.skip(i + 1));
        }
        match env.lookup(name) {
            None => {
                let mut m = String::from_str(name);
                m.append(" environment variable is required.");
                return Err(m);
            },
            Some(_) => {},
        }
        i = i + 1;
    }
    proof {
        assert(ns.skip(i as int).len() == 0);
    }
    Ok(())
}

} // verus!
