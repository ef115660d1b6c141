//! The model SSH built-ins, called as a script would call them.

use nasl_function::error::FnError;
use nasl_function::register::Register;
use nasl_function::ssh::Context;
use nasl_function::value::NaslValue;

#[test]
fn ssh_connect() {
    let mut ctx = Context::new();

    // id = ssh_connect(port: 2223);
    let mut reg = Register::new();
    reg.add_named("port".to_string(), NaslValue::Number(2223));
    let r = nasl_function::ssh::ssh_connect(&reg, &mut ctx);
    assert_eq!(r, Ok(NaslValue::Number(9000)));

    // id = ssh_connect(port: 2223, keytype: "foo");
    let mut reg = Register::new();
    reg.add_named("port".to_string(), NaslValue::Number(2223));
    reg.add_named("keytype".to_string(), NaslValue::Str("foo".to_string()));
    let r = nasl_function::ssh::ssh_connect(&reg, &mut ctx);
    assert!(matches!(r, Err(FnError::WrongArgument(_))));

    // id = ssh_connect(port: 2223, keytype: "");
    let mut reg = Register::new();
    reg.add_named("port".to_string(), NaslValue::Number(2223));
    reg.add_named("keytype".to_string(), NaslValue::Str("".to_string()));
    let r = nasl_function::ssh::ssh_connect(&reg, &mut ctx);
    assert!(matches!(r, Err(FnError::Dirty(_))));
}

#[test]
fn ssh_auth() {
    let mut ctx = Context::new();

    // session_id = ssh_connect(port: 2223, keytype: "ssh-rsa,ecdsa-sha2-nistp256");
    let mut reg = Register::new();
    reg.add_named("port".to_string(), NaslValue::Number(2223));
    reg.add_named(
        "keytype".to_string(),
        NaslValue::Str("ssh-rsa,ecdsa-sha2-nistp256".to_string()),
    );
    let r = nasl_function::ssh::ssh_connect(&reg, &mut ctx);
    let session_id = match r {
        Ok(NaslValue::Number(id)) => id,
        other => panic!("connect failed: {:?}", other),
    };
    assert!(session_id > 0);

    // auth = ssh_userauth(session_id, login: "user", password: "pass");
    let mut reg = Register::new();
    reg.push_positional(NaslValue::Number(session_id));
    reg.add_named("login".to_string(), NaslValue::Str("user".to_string()));
    reg.add_named("password".to_string(), NaslValue::Str("pass".to_string()));
    let r = nasl_function::ssh::ssh_userauth(&reg, &ctx);
    assert_eq!(r, Ok(NaslValue::Number(0)));
}

#[test]
fn ssh_userauth_unknown_session_is_dirty() {
    let ctx = Context::new();
    let mut reg = Register::new();
    reg.push_positional(NaslValue::Number(9000));
    let r = nasl_function::ssh::ssh_userauth(&reg, &ctx);
    assert!(matches!(r, Err(FnError::Dirty(_))));
}

#[test]
fn ssh_userauth_missing_session_id() {
    let ctx = Context::new();
    let mut reg = Register::new();
    reg.add_named("login".to_string(), NaslValue::Str("user".to_string()));
    let r = nasl_function::ssh::ssh_userauth(&reg, &ctx);
    assert_eq!(
        r,
        Err(FnError::Argument(
            nasl_function::error::ResolutionError::MissingRequiredPositional { expected: 1, got: 0 }
        ))
    );
}

#[test]
fn ssh_connect_session_ids_count_up() {
    let mut ctx = Context::new();
    let reg = Register::new();
    let first = nasl_function::ssh::ssh_connect(&reg, &mut ctx);
    let second = nasl_function::ssh::ssh_connect(&reg, &mut ctx);
    assert_eq!(first, Ok(NaslValue::Number(9000)));
    assert_eq!(second, Ok(NaslValue::Number(9001)));
}

#[test]
fn keytype_lists() {
    assert!(nasl_function::ssh::is_recognized_keytype("ssh-rsa"));
    assert!(!nasl_function::ssh::is_recognized_keytype("foo"));
    assert!(nasl_function::ssh::check_keytype_list("ssh-rsa,ecdsa-sha2-nistp256"));
    assert!(nasl_function::ssh::check_keytype_list("ssh-ed25519"));
    assert!(!nasl_function::ssh::check_keytype_list("foo"));
    assert!(!nasl_function::ssh::check_keytype_list("ssh-rsa,"));
    assert!(!nasl_function::ssh::check_keytype_list(""));
}
