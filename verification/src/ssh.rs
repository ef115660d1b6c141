//! Two model built-in functions behind the uniform `(register, context)`
//! calling convention, demonstrating the binding mechanism end to end: a
//! session table, `ssh_connect` and `ssh_userauth`. Their bodies stand for
//! the engine's real protocol work; what is modeled here is everything the
//! binding subsystem and its error taxonomy are responsible for, plus the
//! body-level validation that produces the other error classes.

use vstd::prelude::*;
use vstd::string::StrSliceExecFns;
use vstd::string::StringExecFns;
use crate::error::FnError;
use crate::error::ResolutionError;
use crate::register::Register;
use crate::resolve::resolve_optional_named;
use crate::resolve::resolve_positional;
use crate::strutil::str_eq;
use crate::value::NaslValue;
use crate::value::ValueType;

verus! {

/// The lowest session identifier `ssh_connect` hands out.
pub const MIN_SESSION_ID: i64 = 9000;

/// The execution context handed to every built-in function beside the
/// register: the scanning session's collaborators. Here, the table of open
/// SSH session identifiers, in the order they were opened.
pub struct Context {
    sessions: Vec<i64>,
}

impl View for Context {
    type V = Seq<i64>;

    closed spec fn view(&self) -> Seq<i64> {
        self.sessions@
    }
}

impl Context {
    /// A context with no open sessions.
    pub fn new() -> (r: Self)
        ensures
            r@ == Seq::<i64>::empty(),
    {
        Context { sessions: Vec::new() }
    }

    /// Whether `sid` identifies an open session.
    pub fn has_session(&self, sid: i64) -> (r: bool)
        ensures
            r == self@.contains(sid),
    {
        let n = self.sessions.len();
        let mut i: usize = 0;
        while i < n
            invariant
                i <= n,
                n == self.sessions@.len(),
                forall|j: int| 0 <= j < i ==> self.sessions@[j] != sid,
            decreases n - i,
        {
            if self.sessions[i] == sid {
                return true;
            }
            i += 1;
        }
        false
    }
}

/// The key types the engine recognizes in a `keytype` list.
pub open spec fn recognized_keytype(s: Seq<char>) -> bool {
    ||| s == "ssh-rsa"@
    ||| s == "ssh-dss"@
    ||| s == "ssh-ed25519"@
    ||| s == "ecdsa-sha2-nistp256"@
    ||| s == "ecdsa-sha2-nistp384"@
    ||| s == "ecdsa-sha2-nistp521"@
}

/// Whether `s` is one recognized key type.
pub fn is_recognized_keytype(s: &str) -> (r: bool)
    ensures
        r == recognized_keytype(s@),
{
    str_eq(s, "ssh-rsa") || str_eq(s, "ssh-dss") || str_eq(s, "ssh-ed25519") || str_eq(
        s,
        "ecdsa-sha2-nistp256",
    ) || str_eq(s, "ecdsa-sha2-nistp384") || str_eq(s, "ecdsa-sha2-nistp521")
}

/// Scanning `s` from index `i` with the current comma-separated segment
/// begun at `start`: every segment from `start` on is a recognized key type.
pub open spec fn keytypes_ok_from(s: Seq<char>, i: int, start: int) -> bool
    recommends
        0 <= start <= i <= s.len(),
    decreases s.len() - i,
{
    if i >= s.len() {
        recognized_keytype(s.subrange(start, s.len() as int))
    } else if s[i] == ',' {
        recognized_keytype(s.subrange(start, i)) && keytypes_ok_from(s, i + 1, i + 1)
    } else {
        keytypes_ok_from(s, i + 1, start)
    }
}

/// Every comma-separated segment of `s` is a recognized key type.
pub open spec fn keytype_list_ok(s: Seq<char>) -> bool {
    keytypes_ok_from(s, 0, 0)
}

/// Check a comma-separated key type list.
pub fn check_keytype_list(s: &str) -> (r: bool)
    ensures
        r == keytype_list_ok(s@),
{
    let n = s.unicode_len();
    let mut start: usize = 0;
    let mut i: usize = 0;
    while i < n
        invariant
            start <= i <= n,
            n == s@.len(),
            keytype_list_ok(s@) == keytypes_ok_from(s@, i as int, start as int),
        decreases n - i,
    {
        let c = s.get_char(i);
        if c == ',' {
            let seg = s.substring_char(start, i);
            if !is_recognized_keytype(seg) {
                return false;
            }
            start = i + 1;
        }
        i += 1;
    }
    let seg = s.substring_char(start, n);
    is_recognized_keytype(seg)
}

/// A transformed built-in: open an SSH session. Its parameters are optional
/// and named: `port`, a number, and `keytype`, a comma-separated list of key
/// types to offer. The model accepts any port. A present `keytype` must be a
/// nonempty list of recognized key types: an empty value is rejected by
/// body-level validation as an opaque (dirty) failure, while an unrecognized
/// key type is a wrong-argument failure — and a `keytype` that is no string
/// at all never reaches the body, failing resolution instead. On success a
/// fresh session identifier, counted up from [`MIN_SESSION_ID`], is recorded
/// in the context and returned.
pub fn ssh_connect(register: &Register, context: &mut Context) -> (r: Result<NaslValue, FnError>)
    requires
        old(context)@.len() < 1000000,
    ensures
        ({
            let named = register@.named;
            let kt = named["keytype"@].str_content();
            let fresh = (MIN_SESSION_ID + old(context)@.len()) as i64;
            if named.contains_key("port"@) && named["port"@].type_of() != ValueType::Number {
                &&& r == Err::<NaslValue, FnError>(
                    FnError::Argument(
                        ResolutionError::WrongType {
                            expected: ValueType::Number,
                            found: named["port"@].type_of(),
                        },
                    ),
                )
                &&& final(context)@ == old(context)@
            } else if named.contains_key("keytype"@) && named["keytype"@].type_of()
                != ValueType::Str {
                &&& r == Err::<NaslValue, FnError>(
                    FnError::Argument(
                        ResolutionError::WrongType {
                            expected: ValueType::Str,
                            found: named["keytype"@].type_of(),
                        },
                    ),
                )
                &&& final(context)@ == old(context)@
            } else if named.contains_key("keytype"@) && kt.len() == 0 {
                &&& r matches Err(FnError::Dirty(m)) && m@ == "ssh_connect: empty keytype"@
                &&& final(context)@ == old(context)@
            } else if named.contains_key("keytype"@) && !keytype_list_ok(kt) {
                &&& r matches Err(FnError::WrongArgument(m)) && m@
                    == "ssh_connect: unrecognized keytype"@
                &&& final(context)@ == old(context)@
            } else {
                &&& r == Ok::<NaslValue, FnError>(NaslValue::Number(fresh))
                &&& final(context)@ == old(context)@.push(fresh)
            }
        }),
{
    let _port = match resolve_optional_named(register, "port", ValueType::Number) {
        Ok(v) => v,
        Err(e) => {
            return Err(FnError::Argument(e));
        },
    };
    let keytype = match resolve_optional_named(register, "keytype", ValueType::Str) {
        Ok(v) => v,
        Err(e) => {
            return Err(FnError::Argument(e));
        },
    };
    match keytype {
        Some(NaslValue::Str(ks)) => {
            if ks.as_str().unicode_len() == 0 {
                return Err(FnError::Dirty(String::from_str("ssh_connect: empty keytype")));
            }
            if !check_keytype_list(ks.as_str()) {
                return Err(
                    FnError::WrongArgument(String::from_str("ssh_connect: unrecognized keytype")),
                );
            }
        },
        Some(_) => {
            proof {
                assert(false);
            }
        },
        None => {},
    }
    let id: i64 = MIN_SESSION_ID + (context.sessions.len() as i64);
    context.sessions.push(id);
    Ok(NaslValue::Number(id))
}

/// A transformed built-in: authenticate on an open session. Its parameters
/// are `session_id`, a required positional number at position zero, and the
/// optional named strings `login` and `password`. The model accepts any
/// credentials on a known session and reports an unknown session as an
/// opaque (dirty) failure raised by the body after binding succeeded.
pub fn ssh_userauth(register: &Register, context: &Context) -> (r: Result<NaslValue, FnError>)
    ensures
        ({
            let named = register@.named;
            let pos = register@.positional;
            if pos.len() == 0 {
                r == Err::<NaslValue, FnError>(
                    FnError::Argument(
                        ResolutionError::MissingRequiredPositional { expected: 1, got: 0 },
                    ),
                )
            } else if pos[0].type_of() != ValueType::Number {
                r == Err::<NaslValue, FnError>(
                    FnError::Argument(
                        ResolutionError::WrongType {
                            expected: ValueType::Number,
                            found: pos[0].type_of(),
                        },
                    ),
                )
            } else if named.contains_key("login"@) && named["login"@].type_of() != ValueType::Str {
                r == Err::<NaslValue, FnError>(
                    FnError::Argument(
                        ResolutionError::WrongType {
                            expected: ValueType::Str,
                            found: named["login"@].type_of(),
                        },
                    ),
                )
            } else if named.contains_key("password"@) && named["password"@].type_of()
                != ValueType::Str {
                r == Err::<NaslValue, FnError>(
                    FnError::Argument(
                        ResolutionError::WrongType {
                            expected: ValueType::Str,
                            found: named["password"@].type_of(),
                        },
                    ),
                )
            } else if !context@.contains(pos[0].number_content()) {
                r matches Err(FnError::Dirty(m)) && m@ == "ssh_userauth: unknown session"@
            } else {
                r == Ok::<NaslValue, FnError>(NaslValue::Number(0))
            }
        }),
{
    let sid_val = match resolve_positional(register, 0, 1, ValueType::Number) {
        Ok(v) => v,
        Err(e) => {
            return Err(FnError::Argument(e));
        },
    };
    let _login = match resolve_optional_named(register, "login", ValueType::Str) {
        Ok(v) => v,
        Err(e) => {
            return Err(FnError::Argument(e));
        },
    };
    let _password = match resolve_optional_named(register, "password", ValueType::Str) {
        Ok(v) => v,
        Err(e) => {
            return Err(FnError::Argument(e));
        },
    };
    let sid: i64 = match sid_val.as_number() {
        Some(n) => n,
        None => {
            proof {
                assert(false);
            }
            0
        },
    };
    if !context.has_session(sid) {
        return Err(FnError::Dirty(String::from_str("ssh_userauth: unknown session")));
    }
    Ok(NaslValue::Number(0))
}

} // verus!
