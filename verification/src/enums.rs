//! A two-valued flag with named variants.

use vstd::prelude::*;

verus! {

/// Whether a value was changed: `True` or `False`.
#[derive(Debug, Copy, Clone, PartialEq, Eq, Structural, PartialOrd, Ord)]
pub enum Updated {
    False,
    True,
}

impl Default for Updated {
    fn default() -> (r: Self)
        ensures
            r == Updated::False,
    {
        Self::False
    }
}

impl Updated {
    /// The boolean this flag stands for.
    pub open spec fn as_bool(self) -> bool {
        self == Updated::True
    }

    /// `True` for `true`, `False` for `false`.
    pub fn new(value: bool) -> (r: Self)
        ensures
            r.as_bool() == value,
    {
        if value {
            Self::True
        } else {
            Self::False
        }
    }

    pub fn is_true(self) -> (r: bool)
        ensures
            r == self.as_bool(),
    {
        self == Self::True
    }

    pub fn is_false(self) -> (r: bool)
        ensures
            r == !self.as_bool(),
    {
        self == Self::False
    }
}

impl From<bool> for Updated {
    fn from(item: bool) -> (r: Self) {
        if item {
            Self::True
        } else {
            Self::False
        }
    }
}

impl vstd::std_specs::convert::FromSpecImpl<bool> for Updated {
    open spec fn obeys_from_spec() -> bool {
        true
    }

    open spec fn from_spec(item: bool) -> Self {
        if item {
            Updated::True
        } else {
            Updated::False
        }
    }
}

impl From<Updated> for bool {
    fn from(item: Updated) -> (r: Self) {
        match item {
            Updated::True => true,
            Updated::False => false,
        }
    }
}

impl vstd::std_specs::convert::FromSpecImpl<Updated> for bool {
    open spec fn obeys_from_spec() -> bool {
        true
    }

    open spec fn from_spec(item: Updated) -> Self {
        item.as_bool()
    }
}

} // verus!
