use vstd::prelude::*;
use vstd::string::*;

use crate::directive::{cfg_directive, cfg_line, check_cfg_directive, check_cfg_line};
use crate::text::{contains_str, list_to_value_str, value_list};

verus! {

/// The values that a configuration may be assigned, as a specification sees
/// them.
pub enum ValueSpace {
    /// Only the bare key, with no value.
    NoValue,
    /// Any value, but not the bare key.
    AnyValue,
    /// One of the listed values.
    OneOf(Seq<Seq<char>>),
    /// The bare key, or one of the listed values.
    NoValueOrOneOf(Seq<Seq<char>>),
}

impl ValueSpace {
    /// Whether `value` (absent for the bare key) may be assigned.
    pub open spec fn admits(self, value: Option<Seq<char>>) -> bool {
        match self {
            ValueSpace::NoValue => value is None,
            ValueSpace::AnyValue => value is Some,
            ValueSpace::OneOf(values) => value matches Some(v) && values.contains(v),
            ValueSpace::NoValueOrOneOf(values) => match value {
                None => true,
                Some(v) => values.contains(v),
            },
        }
    }

    /// How the space is written inside `values(...)` of a declaration.
    pub open spec fn text(self) -> Seq<char> {
        match self {
            ValueSpace::NoValue => "none()"@,
            ValueSpace::AnyValue => "any()"@,
            ValueSpace::OneOf(values) => value_list(values),
            ValueSpace::NoValueOrOneOf(values) => "none(), "@ + value_list(values),
        }
    }

    /// A listed space lists at least one value.
    pub open spec fn wf(self) -> bool {
        match self {
            ValueSpace::OneOf(values) => values.len() > 0,
            ValueSpace::NoValueOrOneOf(values) => values.len() > 0,
            _ => true,
        }
    }
}

/// What a checked configuration is: its key and the values it accepts.
pub struct CheckedCfgModel {
    pub key: Seq<char>,
    pub space: ValueSpace,
}

impl CheckedCfgModel {
    /// The declaration line of this configuration.
    pub open spec fn declaration(self) -> Seq<char> {
        check_cfg_line(self.key, self.space.text())
    }

    /// What assigning `value` gives: the assignment line where the value is
    /// accepted, else the rejection of that value.
    pub open spec fn set_result(self, value: Option<Seq<char>>, r: Result<String, CfgError>) -> bool {
        match r {
            Ok(line) => self.space.admits(value) && line@ == cfg_line(self.key, value),
            Err(e) => {
                &&& !self.space.admits(value)
                &&& e matches CfgError::NotAssignable(v) && v.deep_view() == value
            },
        }
    }
}

/// A configuration declared with no value accepts a value exactly when it is
/// absent.
pub proof fn lemma_no_value_admits_only_absent(cfg: CheckedCfgModel, value: Option<Seq<char>>)
    requires
        cfg.space == ValueSpace::NoValue,
    ensures
        cfg.space.admits(value) <==> value is None,
{
}

/// A configuration declared with any value accepts a value exactly when it is
/// present.
pub proof fn lemma_any_value_admits_only_present(cfg: CheckedCfgModel, value: Option<Seq<char>>)
    requires
        cfg.space == ValueSpace::AnyValue,
    ensures
        cfg.space.admits(value) <==> value is Some,
{
}

/// Setting one value on one configuration has one outcome: two results that
/// both meet `set_result` build the same line, or reject the same value.
pub proof fn lemma_set_result_unique(
    cfg: CheckedCfgModel,
    value: Option<Seq<char>>,
    r1: Result<String, CfgError>,
    r2: Result<String, CfgError>,
)
    requires
        cfg.set_result(value, r1),
        cfg.set_result(value, r2),
    ensures
        match (r1, r2) {
            (Ok(a), Ok(b)) => a@ == b@,
            (Err(CfgError::NotAssignable(a)), Err(CfgError::NotAssignable(b))) => a.deep_view()
                == b.deep_view(),
            _ => false,
        },
{
}

/// Why a configuration could not be declared or set.
#[derive(Debug, PartialEq, Eq)]
pub enum CfgError {
    /// A listed value space was given no values.
    NoValues,
    /// The value (absent for the bare key) is not accepted by the
    /// configuration.
    NotAssignable(Option<String>),
    /// The environment variable could not be read; the reason is given.
    Env(String),
}

/// Why an environment variable has no usable value.
#[derive(Debug, PartialEq, Eq)]
pub enum EnvVarError {
    /// The variable is not set.
    NotPresent,
    /// The variable is set but does not hold valid Unicode; the text
    /// describes the failure.
    NotUnicode(String),
}

/// A custom configuration value, named by its key.
#[derive(Clone, Copy, Debug, PartialEq, Eq)]
pub struct Cfg<'s> {
    /// The configuration key. This must be a valid identifier.
    key: &'s str,
}

impl<'s> View for Cfg<'s> {
    type V = Seq<char>;

    closed spec fn view(&self) -> Seq<char> {
        self.key@
    }
}

/// How a checked configuration decides which values it accepts.
enum Rule<'s> {
    NoValue,
    AnyValue,
    OneOf(&'s [&'s str]),
    NoValueOrOneOf(&'s [&'s str]),
}

impl<'s> View for Rule<'s> {
    type V = ValueSpace;

    closed spec fn view(&self) -> ValueSpace {
        match *self {
            Rule::NoValue => ValueSpace::NoValue,
            Rule::AnyValue => ValueSpace::AnyValue,
            Rule::OneOf(values) => ValueSpace::OneOf(values.deep_view()),
            Rule::NoValueOrOneOf(values) => ValueSpace::NoValueOrOneOf(values.deep_view()),
        }
    }
}

/// A declared configuration that checks the values assigned to it.
pub struct CheckedCfg<'s> {
    key: &'s str,
    rule: Rule<'s>,
}

impl<'s> View for CheckedCfg<'s> {
    type V = CheckedCfgModel;

    closed spec fn view(&self) -> CheckedCfgModel {
        CheckedCfgModel { key: self.key@, space: self.rule@ }
    }
}

impl<'i> Cfg<'i> {
    /// Creates a configuration named `key`.
    pub fn new(key: &'i str) -> (r: Self)
        ensures
            r@ == key@,
    {
        Cfg { key }
    }

    /// Declares that this configuration is only ever set bare, with no value.
    pub fn assigned_none(self) -> (r: CheckedCfg<'i>)
        ensures
            r@ == (CheckedCfgModel { key: self@, space: ValueSpace::NoValue }),
    {
        CheckedCfg { key: self.key, rule: Rule::NoValue }
    }

    /// Declares that this configuration is always set to some value.
    pub fn assigned_any(self) -> (r: CheckedCfg<'i>)
        ensures
            r@ == (CheckedCfgModel { key: self@, space: ValueSpace::AnyValue }),
    {
        CheckedCfg { key: self.key, rule: Rule::AnyValue }
    }

    /// Declares that this configuration is always set to one of `values`,
    /// which must list at least one value.
    pub fn assigned_one_of(self, values: &'i [&'i str]) -> (r: Result<CheckedCfg<'i>, CfgError>)
        ensures
            values@.len() == 0 <==> r is Err,
            r matches Err(e) ==> e is NoValues,
            r matches Ok(c) ==> c@ == (CheckedCfgModel {
                key: self@,
                space: ValueSpace::OneOf(values.deep_view()),
            }) && c@.space.wf(),
    {
        if values.len() == 0 {
            return Err(CfgError::NoValues);
        }
        Ok(CheckedCfg { key: self.key, rule: Rule::OneOf(values) })
    }

    /// Declares that this configuration is either set bare or set to one of
    /// `values`, which must list at least one value.
    pub fn assigned_none_or_one_of(self, values: &'i [&'i str]) -> (r: Result<CheckedCfg<'i>, CfgError>)
        ensures
            values@.len() == 0 <==> r is Err,
            r matches Err(e) ==> e is NoValues,
            r matches Ok(c) ==> c@ == (CheckedCfgModel {
                key: self@,
                space: ValueSpace::NoValueOrOneOf(values.deep_view()),
            }) && c@.space.wf(),
    {
        if values.len() == 0 {
            return Err(CfgError::NoValues);
        }
        Ok(CheckedCfg { key: self.key, rule: Rule::NoValueOrOneOf(values) })
    }
}

impl<'s> CheckedCfg<'s> {
    /// The space of a checked configuration never lists zero values.
    #[verifier::type_invariant]
    closed spec fn wf(&self) -> bool {
        self.rule@.wf()
    }

    /// Returns the key of this configuration.
    pub fn key(&self) -> (r: &'s str)
        ensures
            r@ == self@.key,
    {
        self.key
    }

    /// Returns `true` if `value` (`None` for the bare key) can be assigned to
    /// this configuration.
    pub fn is_assignable(&self, value: Option<&str>) -> (r: bool)
        ensures
            r == self@.space.admits(value.deep_view()),
    {
        match self.rule {
            Rule::NoValue => value.is_none(),
            Rule::AnyValue => value.is_some(),
            Rule::OneOf(values) => match value {
                None => false,
                Some(v) => contains_str(values, v),
            },
            Rule::NoValueOrOneOf(values) => match value {
                None => true,
                Some(v) => contains_str(values, v),
            },
        }
    }

    /// Builds the line that declares this configuration and its value space.
    pub fn declaration(&self) -> (r: String)
        ensures
            r@ == self@.declaration(),
    {
        let space = match self.rule {
            Rule::NoValue => String::from_str("none()"),
            Rule::AnyValue => String::from_str("any()"),
            Rule::OneOf(values) => list_to_value_str(values),
            Rule::NoValueOrOneOf(values) => String::from_str("none(), ").concat(
                list_to_value_str(values).as_str(),
            ),
        };
        check_cfg_directive(self.key, space.as_str())
    }

    /// Checks `value` (`None` for the bare key) and builds the line that sets
    /// this configuration to it; a value that is not accepted is an error.
    pub fn set(&self, value: Option<&str>) -> (r: Result<String, CfgError>)
        ensures
            self@.set_result(value.deep_view(), r),
    {
        if !self.is_assignable(value) {
            let rejected = match value {
                None => None,
                Some(v) => Some(v.to_owned()),
            };
            return Err(CfgError::NotAssignable(rejected));
        }
        Ok(cfg_directive(self.key, value))
    }

    /// Sets this configuration from the outcome of reading an environment
    /// variable: a non-empty value is assigned as it is, an empty or missing
    /// variable sets the bare key, and a failed read is an error.
    pub fn set_from_env(&self, variable: Result<String, EnvVarError>) -> (r: Result<String, CfgError>)
        ensures
            match variable {
                Ok(v) => if v@.len() > 0 {
                    self@.set_result(Some(v@), r)
                } else {
                    self@.set_result(None, r)
                },
                Err(EnvVarError::NotPresent) => self@.set_result(None, r),
                Err(EnvVarError::NotUnicode(reason)) => r matches Err(CfgError::Env(m)) && m@
                    == reason@,
            },
    {
        match variable {
            Ok(v) => {
                if v.as_str().is_empty() {
                    self.set(None)
                } else {
                    self.set(Some(v.as_str()))
                }
            },
            Err(EnvVarError::NotPresent) => self.set(None),
            Err(EnvVarError::NotUnicode(reason)) => Err(CfgError::Env(reason)),
        }
    }

    /// As `set_from_env`, except that an empty or missing variable sets the
    /// value that `default` produces; `default` is called only then.
    pub fn set_from_env_or_else<D>(&self, variable: Result<String, EnvVarError>, default: D) -> (r:
        Result<String, CfgError>) where D: FnOnce() -> Option<String>
        requires
            default.requires(()),
        ensures
            match variable {
                Ok(v) => if v@.len() > 0 {
                    self@.set_result(Some(v@), r)
                } else {
                    exists|d: Option<String>| #[trigger]
                        default.ensures((), d) && self@.set_result(d.deep_view(), r)
                },
                Err(EnvVarError::NotPresent) => exists|d: Option<String>| #[trigger]
                    default.ensures((), d) && self@.set_result(d.deep_view(), r),
                Err(EnvVarError::NotUnicode(reason)) => r matches Err(CfgError::Env(m)) && m@
                    == reason@,
            },
    {
        match variable {
            Ok(v) => {
                if !v.as_str().is_empty() {
                    return self.set(Some(v.as_str()));
                }
            },
            Err(EnvVarError::NotPresent) => {},
            Err(EnvVarError::NotUnicode(reason)) => {
                return Err(CfgError::Env(reason));
            },
        }
        let d = default();
        let r = match &d {
            None => self.set(None),
            Some(s) => self.set(Some(s.as_str())),
        };
        assert(default.ensures((), d) && self@.set_result(d.deep_view(), r));
        r
    }
}

} // verus!
