//! Dynamically typed script values and their type tags.

use vstd::prelude::*;

verus! {

/// A value supplied by a script at a call site. The scripting language is
/// dynamically typed, so every argument arrives as one of these variants.
#[derive(Debug, PartialEq, Eq)]
pub enum NaslValue {
    Number(i64),
    Boolean(bool),
    Str(String),
}

/// The type a native parameter declares. An argument binds to the parameter
/// only if its dynamic type is exactly this one: coercions that would
/// silently truncate or reinterpret a value are rejected.
#[derive(Clone, Copy, Debug, PartialEq, Eq, Structural)]
pub enum ValueType {
    Number,
    Boolean,
    Str,
}

impl NaslValue {
    /// The dynamic type tag of this value.
    pub open spec fn type_of(self) -> ValueType {
        match self {
            NaslValue::Number(_) => ValueType::Number,
            NaslValue::Boolean(_) => ValueType::Boolean,
            NaslValue::Str(_) => ValueType::Str,
        }
    }

    /// The character content of a `Str` value; meaningful only on one.
    pub open spec fn str_content(self) -> Seq<char> {
        match self {
            NaslValue::Str(s) => s@,
            _ => Seq::empty(),
        }
    }

    /// The integer a `Number` value holds; meaningful only on one.
    pub open spec fn number_content(self) -> i64 {
        match self {
            NaslValue::Number(n) => n,
            _ => 0,
        }
    }

    /// The dynamic type tag, computed.
    pub fn type_tag(&self) -> (t: ValueType)
        ensures
            t == self.type_of(),
    {
        match self {
            NaslValue::Number(_) => ValueType::Number,
            NaslValue::Boolean(_) => ValueType::Boolean,
            NaslValue::Str(_) => ValueType::Str,
        }
    }

    /// Whether this value's dynamic type is exactly `t`.
    pub fn has_type(&self, t: ValueType) -> (r: bool)
        ensures
            r == (self.type_of() == t),
    {
        let mine = match self {
            NaslValue::Number(_) => ValueType::Number,
            NaslValue::Boolean(_) => ValueType::Boolean,
            NaslValue::Str(_) => ValueType::Str,
        };
        mine == t
    }

    /// The number a `Number` value holds, if it is one.
    pub fn as_number(&self) -> (r: Option<i64>)
        ensures
            match r {
                Some(n) => self == NaslValue::Number(n),
                None => !(self matches NaslValue::Number(_)),
            },
    {
        match self {
            NaslValue::Number(n) => Some(*n),
            _ => None,
        }
    }

    /// The string a `Str` value holds, if it is one.
    pub fn as_str(&self) -> (r: Option<&String>)
        ensures
            match r {
                Some(s) => self == NaslValue::Str(*s),
                None => !(self matches NaslValue::Str(_)),
            },
    {
        match self {
            NaslValue::Str(s) => Some(s),
            _ => None,
        }
    }

    /// The boolean a `Boolean` value holds, if it is one.
    pub fn as_bool(&self) -> (r: Option<bool>)
        ensures
            match r {
                Some(b) => self == NaslValue::Boolean(b),
                None => !(self matches NaslValue::Boolean(_)),
            },
    {
        match self {
            NaslValue::Boolean(b) => Some(*b),
            _ => None,
        }
    }
}

impl Clone for NaslValue {
    /// Cloning a value preserves it exactly.
    fn clone(&self) -> (r: Self)
        ensures
            r == self,
    {
        match self {
            NaslValue::Number(n) => NaslValue::Number(*n),
            NaslValue::Boolean(b) => NaslValue::Boolean(*b),
            NaslValue::Str(s) => NaslValue::Str(s.clone()),
        }
    }
}

} // verus!
