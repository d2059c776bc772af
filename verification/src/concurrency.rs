use vstd::prelude::*;
use vstd::string::StringExecFns;

verus! {

/// A scalar taken from a sink's configuration file. The concurrency knob
/// accepts either an integer or a bare string, so the raw form keeps both.
#[derive(Clone, Debug, PartialEq)]
pub enum ConfigValue {
    Int(i64),
    Text(String),
}

/// Why a concurrency scalar was rejected.
#[derive(Clone, Debug, PartialEq)]
pub enum ConcurrencyParseError {
    /// The integer was zero or negative.
    NotPositive(i64),
    /// The integer does not fit an in-flight cap on this machine.
    NotRepresentable(i64),
    /// The string was something other than `"adaptive"`.
    UnknownKeyword(String),
}

/// The concurrency knob of a sink's request pipeline: unset, adaptive,
/// or a fixed in-flight cap.
#[derive(Clone, Copy, Debug, PartialEq, Eq, Structural)]
pub enum Concurrency {
    Unset,
    Adaptive,
    Fixed(usize),
}

/// What parsing a raw concurrency scalar yields: a positive integer becomes
/// a fixed cap, the keyword `"adaptive"` selects the adaptive controller,
/// and everything else is rejected.
pub open spec fn spec_parse_concurrency_value(v: ConfigValue) -> Result<
    Concurrency,
    ConcurrencyParseError,
> {
    match v {
        ConfigValue::Int(i) => if i <= 0 {
            Err(ConcurrencyParseError::NotPositive(i))
        } else if i as int > usize::MAX as int {
            Err(ConcurrencyParseError::NotRepresentable(i))
        } else {
            Ok(Concurrency::Fixed(i as usize))
        },
        ConfigValue::Text(s) => if s@ == "adaptive"@ {
            Ok(Concurrency::Adaptive)
        } else {
            Err(ConcurrencyParseError::UnknownKeyword(s))
        },
    }
}

impl Concurrency {
    /// Substitute `other` when this value is unset; an explicit setting wins.
    pub fn if_none(self, other: Self) -> (r: Self)
        ensures
            r == self.spec_if_none(other),
    {
        match self {
            Self::Unset => other,
            _ => self,
        }
    }

    pub open spec fn spec_if_none(self, other: Self) -> Self {
        if self is Unset {
            other
        } else {
            self
        }
    }

    /// Parse one raw scalar into a concurrency setting, accepting a positive
    /// integer or the keyword `"adaptive"` and rejecting everything else.
    pub fn parse_value(v: ConfigValue) -> (r: Result<Self, ConcurrencyParseError>)
        ensures
            r == spec_parse_concurrency_value(v),
    {
        match v {
            ConfigValue::Int(i) => {
                if i <= 0 {
                    Err(ConcurrencyParseError::NotPositive(i))
                } else if i as u128 > usize::MAX as u128 {
                    Err(ConcurrencyParseError::NotRepresentable(i))
                } else {
                    Ok(Concurrency::Fixed(i as usize))
                }
            },
            ConfigValue::Text(s) => {
                let adaptive: String = String::from_str("adaptive");
                if s == adaptive {
                    Ok(Concurrency::Adaptive)
                } else {
                    Err(ConcurrencyParseError::UnknownKeyword(s))
                }
            },
        }
    }
}

impl Default for Concurrency {
    /// The knob starts out unset.
    fn default() -> (r: Self)
        ensures
            r is Unset,
    {
        Self::Unset
    }
}

/// The interface shared by the two spellings of the concurrency knob:
/// the tagged `Concurrency` value and a plain optional cap.
pub trait ConcurrencyOption: Sized {
    /// The resolved in-flight cap: `None` selects the adaptive controller,
    /// `Some(n)` a fixed cap of `n`.
    spec fn spec_parse(self, default: Self) -> Option<usize>;

    /// Whether this knob was left unset.
    spec fn spec_is_none(self) -> bool;

    /// Resolve this knob against a caller-supplied default.
    fn parse_concurrency(&self, default: &Self) -> (r: Option<usize>)
        ensures
            r == self.spec_parse(*default),
    ;

    fn is_none(&self) -> (r: bool)
        ensures
            r == self.spec_is_none(),
    ;

    fn is_some(&self) -> (r: bool)
        ensures
            r == !self.spec_is_none(),
    {
        !self.is_none()
    }
}

impl ConcurrencyOption for Concurrency {
    open spec fn spec_parse(self, default: Self) -> Option<usize> {
        match self.spec_if_none(default) {
            Concurrency::Unset => Some(1024),
            Concurrency::Adaptive => None,
            Concurrency::Fixed(limit) => Some(limit),
        }
    }

    open spec fn spec_is_none(self) -> bool {
        self is Unset
    }

    fn parse_concurrency(&self, default: &Self) -> (r: Option<usize>)
        ensures
            r == self.spec_parse(*default),
    {
        match self.if_none(*default) {
            Concurrency::Unset => Some(1024),
            Concurrency::Adaptive => None,
            Concurrency::Fixed(limit) => Some(limit),
        }
    }

    fn is_none(&self) -> (r: bool)
        ensures
            r == self.spec_is_none(),
    {
        matches!(self, Concurrency::Unset)
    }
}

impl ConcurrencyOption for Option<usize> {
    open spec fn spec_parse(self, default: Self) -> Option<usize> {
        match self {
            None => match default {
                None => Some(1024),
                Some(d) => Some(d),
            },
            Some(x) => Some(x),
        }
    }

    open spec fn spec_is_none(self) -> bool {
        self is None
    }

    fn parse_concurrency(&self, default: &Self) -> (r: Option<usize>)
        ensures
            r == self.spec_parse(*default),
    {
        let limit: Option<usize> = match self {
            None => *default,
            Some(x) => Some(*x),
        };
        match limit {
            None => Some(1024),
            Some(x) => Some(x),
        }
    }

    fn is_none(&self) -> (r: bool)
        ensures
            r == self.spec_is_none(),
    {
        matches!(self, None)
    }
}

} // verus!
