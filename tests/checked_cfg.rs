use fig::{cfg_directive, check_cfg_directive, Cfg, CfgError, CheckedCfg, EnvVarError};

fn one_of<'a>(key: &'a str, values: &'a [&'a str]) -> CheckedCfg<'a> {
    match Cfg::new(key).assigned_one_of(values) {
        Ok(c) => c,
        Err(e) => panic!("{e:?}"),
    }
}

fn none_or_one_of<'a>(key: &'a str, values: &'a [&'a str]) -> CheckedCfg<'a> {
    match Cfg::new(key).assigned_none_or_one_of(values) {
        Ok(c) => c,
        Err(e) => panic!("{e:?}"),
    }
}

#[test]
fn cfg_new_compares_by_key() {
    assert_eq!(Cfg::new("k"), Cfg::new("k"));
    assert_ne!(Cfg::new("k"), Cfg::new("j"));
}

#[test]
fn key_is_kept() {
    assert_eq!(Cfg::new("my_key").assigned_any().key(), "my_key");
    assert_eq!(one_of("other", &["a"]).key(), "other");
}

#[test]
fn assigned_none_accepts_only_absent() {
    let c = Cfg::new("k").assigned_none();
    assert!(c.is_assignable(None));
    assert!(!c.is_assignable(Some("x")));
    assert!(!c.is_assignable(Some("")));
}

#[test]
fn assigned_any_accepts_only_present() {
    let c = Cfg::new("k").assigned_any();
    assert!(!c.is_assignable(None));
    assert!(c.is_assignable(Some("x")));
    assert!(c.is_assignable(Some("")));
}

#[test]
fn assigned_one_of_membership() {
    let c = one_of("k", &["a", "b"]);
    assert!(c.is_assignable(Some("a")));
    assert!(c.is_assignable(Some("b")));
    assert!(!c.is_assignable(Some("c")));
    assert!(!c.is_assignable(None));
}

#[test]
fn assigned_none_or_one_of_membership() {
    let c = none_or_one_of("k", &["a", "b"]);
    assert!(c.is_assignable(None));
    assert!(c.is_assignable(Some("a")));
    assert!(!c.is_assignable(Some("z")));
}

#[test]
fn empty_value_sets_are_refused() {
    assert!(matches!(Cfg::new("k").assigned_one_of(&[]), Err(CfgError::NoValues)));
    assert!(matches!(Cfg::new("k").assigned_none_or_one_of(&[]), Err(CfgError::NoValues)));
}

#[test]
fn declaration_lines() {
    assert_eq!(Cfg::new("k").assigned_none().declaration(), "cargo::rustc-check-cfg=cfg(k, values(none()))");
    assert_eq!(Cfg::new("k").assigned_any().declaration(), "cargo::rustc-check-cfg=cfg(k, values(any()))");
    assert_eq!(one_of("k", &["v1", "v2"]).declaration(), "cargo::rustc-check-cfg=cfg(k, values(\"v1\", \"v2\"))");
    assert_eq!(
        none_or_one_of("k", &["v1", "v2"]).declaration(),
        "cargo::rustc-check-cfg=cfg(k, values(none(), \"v1\", \"v2\"))"
    );
}

#[test]
fn directive_builders() {
    assert_eq!(check_cfg_directive("k", "any()"), "cargo::rustc-check-cfg=cfg(k, values(any()))");
    assert_eq!(cfg_directive("k", None), "cargo::rustc-cfg=k");
    assert_eq!(cfg_directive("k", Some("v")), "cargo::rustc-cfg=k=\"v\"");
}

#[test]
fn set_accepted_values() {
    assert_eq!(Cfg::new("k").assigned_none().set(None), Ok("cargo::rustc-cfg=k".to_string()));
    assert_eq!(Cfg::new("k").assigned_any().set(Some("v")), Ok("cargo::rustc-cfg=k=\"v\"".to_string()));
    assert_eq!(one_of("k", &["a", "b"]).set(Some("b")), Ok("cargo::rustc-cfg=k=\"b\"".to_string()));
    assert_eq!(none_or_one_of("k", &["a"]).set(None), Ok("cargo::rustc-cfg=k".to_string()));
}

#[test]
fn set_rejected_values() {
    assert_eq!(Cfg::new("k").assigned_none().set(Some("v")), Err(CfgError::NotAssignable(Some("v".to_string()))));
    assert_eq!(Cfg::new("k").assigned_any().set(None), Err(CfgError::NotAssignable(None)));
    assert_eq!(one_of("k", &["a", "b"]).set(Some("c")), Err(CfgError::NotAssignable(Some("c".to_string()))));
    assert_eq!(one_of("k", &["a", "b"]).set(None), Err(CfgError::NotAssignable(None)));
}

#[test]
fn set_from_env_unset_is_bare() {
    let c = none_or_one_of("k", &["foo"]);
    assert_eq!(c.set_from_env(Err(EnvVarError::NotPresent)), c.set(None));
    assert_eq!(c.set_from_env(Err(EnvVarError::NotPresent)), Ok("cargo::rustc-cfg=k".to_string()));
}

#[test]
fn set_from_env_value_is_assigned() {
    let c = none_or_one_of("k", &["foo"]);
    assert_eq!(c.set_from_env(Ok("foo".to_string())), c.set(Some("foo")));
    assert_eq!(c.set_from_env(Ok("foo".to_string())), Ok("cargo::rustc-cfg=k=\"foo\"".to_string()));
}

#[test]
fn set_from_env_empty_is_bare() {
    let c = none_or_one_of("k", &["foo"]);
    assert_eq!(c.set_from_env(Ok(String::new())), c.set(None));
    let any = Cfg::new("k").assigned_any();
    assert_eq!(any.set_from_env(Ok(String::new())), Err(CfgError::NotAssignable(None)));
}

#[test]
fn set_from_env_rejected_value() {
    let c = one_of("k", &["foo"]);
    assert_eq!(c.set_from_env(Ok("bar".to_string())), Err(CfgError::NotAssignable(Some("bar".to_string()))));
}

#[test]
fn set_from_env_read_failure() {
    let c = Cfg::new("k").assigned_any();
    let r = c.set_from_env(Err(EnvVarError::NotUnicode("not unicode".to_string())));
    assert_eq!(r, Err(CfgError::Env("not unicode".to_string())));
}

#[test]
fn set_from_env_or_else_unset_uses_default() {
    let c = Cfg::new("k").assigned_any();
    let r = c.set_from_env_or_else(Err(EnvVarError::NotPresent), || Some("d".into()));
    assert_eq!(r, c.set(Some("d")));
    assert_eq!(r, Ok("cargo::rustc-cfg=k=\"d\"".to_string()));
}

#[test]
fn set_from_env_or_else_empty_uses_default() {
    let c = none_or_one_of("k", &["d"]);
    assert_eq!(c.set_from_env_or_else(Ok(String::new()), || None), c.set(None));
    assert_eq!(c.set_from_env_or_else(Ok(String::new()), || Some("d".into())), c.set(Some("d")));
}

#[test]
fn set_from_env_or_else_value_skips_default() {
    let c = Cfg::new("k").assigned_any();
    let r = c.set_from_env_or_else(Ok("foo".to_string()), || -> Option<String> { panic!("default called") });
    assert_eq!(r, c.set(Some("foo")));
}

#[test]
fn set_from_env_or_else_read_failure_skips_default() {
    let c = Cfg::new("k").assigned_any();
    let r = c.set_from_env_or_else(Err(EnvVarError::NotUnicode("bad".to_string())), || -> Option<String> {
        panic!("default called")
    });
    assert_eq!(r, Err(CfgError::Env("bad".to_string())));
}

#[test]
fn set_from_env_or_else_rejected_default() {
    let c = one_of("k", &["a"]);
    let r = c.set_from_env_or_else(Err(EnvVarError::NotPresent), || Some("z".into()));
    assert_eq!(r, Err(CfgError::NotAssignable(Some("z".to_string()))));
}
