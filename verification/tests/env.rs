use iml::env::{
    check_vars, get_allow_anonymous_read, get_build, get_db_conn_string, get_db_host, get_db_name,
    get_use_stratagem, ManagerEnv,
};

fn env(vars: &[(&str, &str)]) -> ManagerEnv {
    ManagerEnv {
        vars: vars.iter().map(|(k, v)| (k.to_string(), v.to_string())).collect(),
    }
}

#[test]
fn reads_variables() {
    let e = env(&[("BUILD", "42"), ("ALLOW_ANONYMOUS_READ", "true"), ("USE_STRATAGEM", "yes")]);
    assert_eq!(get_build(&e), "42");
    assert!(get_allow_anonymous_read(&e));
    assert!(!get_use_stratagem(&e));
    assert_eq!(e.lookup("VERSION"), None);
}

#[test]
fn first_variable_of_a_name_wins() {
    let e = env(&[("BUILD", "1"), ("BUILD", "2")]);
    assert_eq!(get_build(&e), "1");
}

#[test]
fn empty_database_settings_are_none() {
    let e = env(&[("DB_HOST", ""), ("DB_NAME", "chroma")]);
    assert_eq!(get_db_host(&e), None);
    assert_eq!(get_db_name(&e), Some("chroma".to_string()));
}

#[test]
fn connection_string_with_defaults() {
    let e = env(&[("DB_USER", "chroma"), ("DB_HOST", ""), ("DB_NAME", ""), ("DB_PASSWORD", "")]);
    assert_eq!(get_db_conn_string(&e), "user=chroma host=/var/run/postgresql");
}

#[test]
fn connection_string_with_everything() {
    let e = env(&[
        ("DB_USER", "chroma"),
        ("DB_HOST", "db.local"),
        ("DB_NAME", "chroma"),
        ("DB_PASSWORD", "SECRET-REDACTED"),
    ]);
    assert_eq!(
        get_db_conn_string(&e),
        "user=chroma host=db.local dbname=chroma password=SECRET-REDACTED"
    );
}

#[test]
fn missing_variable_is_named() {
    let e = env(&[("DB_USER", "iml"), ("DB_HOST", ""), ("DB_PASSWORD", "")]);
    assert_eq!(
        check_vars(&e, &["DB_USER", "DB_HOST", "DB_NAME", "DB_PASSWORD"]),
        Err("DB_NAME environment variable is required.".to_string())
    );
    assert_eq!(check_vars(&e, &["DB_USER", "DB_HOST"]), Ok(()));
    assert_eq!(check_vars(&e, &[]), Ok(()));
}
