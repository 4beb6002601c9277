//! Percentages as a caller sees them: a total between 0 and 100, a change
//! between -100 and 100, and for both the state "not known yet".

use vstd::prelude::*;
use vstd::std_specs::convert::TryFromSpecImpl;
use vstd::std_specs::ops::SubSpecImpl;

verus! {

/// A gradient outside -100..=100 was asked for.
#[derive(Debug, Clone, Copy, PartialEq, Eq, Structural)]
pub struct InvalidGradientValue;

/// A total outside 0..=100 was asked for.
#[derive(Debug, Clone, Copy, PartialEq, Eq, Structural)]
pub struct InvalidTotalValue;

/// The total is not known yet.
#[derive(Debug, Clone, Copy, PartialEq, Eq, Structural)]
pub struct MissingTotalValue;

/// A percentage between 0 and 100, or the mark that it is still pending.
#[derive(Debug, Clone, Copy, PartialEq, Eq, Structural)]
pub struct Total(Option<i8>);

/// The change of a total, between -100 and 100, or the mark that it is
/// still pending.
#[derive(Debug, Clone, Copy, PartialEq, Eq, Structural)]
pub struct Gradient {
    value: Option<i8>,
}

impl View for Total {
    type V = Option<int>;

    closed spec fn view(&self) -> Option<int> {
        match self.0 {
            Some(v) => Some(v as int),
            None => None,
        }
    }
}

impl View for Gradient {
    type V = Option<int>;

    closed spec fn view(&self) -> Option<int> {
        match self.value {
            Some(v) => Some(v as int),
            None => None,
        }
    }
}

impl Total {
    #[verifier::type_invariant]
    spec fn in_range(self) -> bool {
        match self.0 {
            Some(v) => 0 <= v <= 100,
            None => true,
        }
    }

    /// The total that is still pending.
    pub fn none() -> (r: Total)
        ensures
            r@ == None::<int>,
    {
        Total(None)
    }

    /// The total 0.
    pub fn zero() -> (r: Total)
        ensures
            r@ == Some(0int),
    {
        Total(Some(0))
    }

    /// The total `value`, if it is a percentage.
    pub fn new(value: i8) -> (r: Result<Total, InvalidTotalValue>)
        ensures
            0 <= value <= 100 ==> r is Ok && r->Ok_0@ == Some(value as int),
            !(0 <= value <= 100) ==> r is Err,
    {
        if value < 0 || value > 100 {
            Err(InvalidTotalValue)
        } else {
            Ok(Total(Some(value)))
        }
    }

    /// The percentage, unless the total is still pending.
    pub fn value(self) -> (r: Result<i8, MissingTotalValue>)
        ensures
            self@ is Some ==> r is Ok && r->Ok_0 == self@->Some_0 && 0 <= r->Ok_0 <= 100,
            self@ is None ==> r is Err,
    {
        proof {
            use_type_invariant(&self);
        }
        match self.0 {
            Some(v) => Ok(v),
            None => Err(MissingTotalValue),
        }
    }

    /// What `self - rhs` is: the difference of two known totals, pending if
    /// either of them is.
    pub open spec fn minus(self, rhs: Total) -> Option<int> {
        match (self@, rhs@) {
            (Some(a), Some(b)) => Some(a - b),
            _ => None,
        }
    }
}

impl core::ops::Sub<Total> for Total {
    type Output = Gradient;

    fn sub(self, rhs: Total) -> (r: Gradient)
        ensures
            r@ == self.minus(rhs),
    {
        proof {
            use_type_invariant(&self);
            use_type_invariant(&rhs);
        }
        match (self.0, rhs.0) {
            (Some(a), Some(b)) => Gradient { value: Some(a - b) },
            _ => Gradient { value: None },
        }
    }
}

impl SubSpecImpl<Total> for Total {
    open spec fn obeys_sub_spec() -> bool {
        true
    }

    open spec fn sub_req(self, rhs: Total) -> bool {
        true
    }

    closed spec fn sub_spec(self, rhs: Total) -> Gradient {
        match (self.0, rhs.0) {
            (Some(a), Some(b)) => Gradient { value: Some((a - b) as i8) },
            _ => Gradient { value: None },
        }
    }
}

impl Total {
    /// The difference of two totals.
    pub fn change_from(self, old_total: Total) -> (r: Gradient)
        ensures
            r@ == self.minus(old_total),
    {
        proof {
            use_type_invariant(&self);
            use_type_invariant(&old_total);
        }
        self - old_total
    }
}

impl Gradient {
    #[verifier::type_invariant]
    spec fn in_range(self) -> bool {
        match self.value {
            Some(v) => -100 <= v <= 100,
            None => true,
        }
    }

    /// The gradient that is still pending.
    pub fn none() -> (r: Gradient)
        ensures
            r@ == None::<int>,
    {
        Gradient { value: None }
    }

    /// The gradient `value`, if it lies between -100 and 100.
    pub fn new(value: i8) -> (r: Result<Gradient, InvalidGradientValue>)
        ensures
            -100 <= value <= 100 ==> r is Ok && r->Ok_0@ == Some(value as int),
            !(-100 <= value <= 100) ==> r is Err,
    {
        if value < -100 || value > 100 {
            Err(InvalidGradientValue)
        } else {
            Ok(Gradient { value: Some(value) })
        }
    }

    /// The change, unless the gradient is still pending.
    pub fn value(self) -> (r: Option<i8>)
        ensures
            self@ is Some ==> r is Some && r->Some_0 == self@->Some_0 && -100 <= r->Some_0 <= 100,
            self@ is None ==> r is None,
    {
        proof {
            use_type_invariant(&self);
        }
        self.value
    }
}

impl TryFrom<i8> for Total {
    type Error = InvalidTotalValue;

    fn try_from(value: i8) -> (r: Result<Total, InvalidTotalValue>)
        ensures
            0 <= value <= 100 ==> r is Ok && r->Ok_0@ == Some(value as int),
            !(0 <= value <= 100) ==> r is Err,
    {
        if value < 0 || value > 100 {
            Err(InvalidTotalValue)
        } else {
            Ok(Total(Some(value)))
        }
    }
}

impl TryFromSpecImpl<i8> for Total {
    open spec fn obeys_try_from_spec() -> bool {
        true
    }

    closed spec fn try_from_spec(value: i8) -> Result<Total, InvalidTotalValue> {
        if 0 <= value <= 100 {
            Ok(Total(Some(value)))
        } else {
            Err(InvalidTotalValue)
        }
    }
}

impl TryFrom<Total> for i8 {
    type Error = MissingTotalValue;

    fn try_from(value: Total) -> (r: Result<i8, MissingTotalValue>)
        ensures
            value@ is Some ==> r is Ok && r->Ok_0 == value@->Some_0,
            value@ is None ==> r is Err,
    {
        match value.0 {
            Some(v) => Ok(v),
            None => Err(MissingTotalValue),
        }
    }
}

impl TryFromSpecImpl<Total> for i8 {
    open spec fn obeys_try_from_spec() -> bool {
        true
    }

    closed spec fn try_from_spec(value: Total) -> Result<i8, MissingTotalValue> {
        match value.0 {
            Some(v) => Ok(v),
            None => Err(MissingTotalValue),
        }
    }
}

impl TryFrom<i8> for Gradient {
    type Error = InvalidGradientValue;

    fn try_from(value: i8) -> (r: Result<Gradient, InvalidGradientValue>)
        ensures
            -100 <= value <= 100 ==> r is Ok && r->Ok_0@ == Some(value as int),
            !(-100 <= value <= 100) ==> r is Err,
    {
        if value < -100 || value > 100 {
            Err(InvalidGradientValue)
        } else {
            Ok(Gradient { value: Some(value) })
        }
    }
}

impl TryFromSpecImpl<i8> for Gradient {
    open spec fn obeys_try_from_spec() -> bool {
        true
    }

    closed spec fn try_from_spec(value: i8) -> Result<Gradient, InvalidGradientValue> {
        if -100 <= value <= 100 {
            Ok(Gradient { value: Some(value) })
        } else {
            Err(InvalidGradientValue)
        }
    }
}

impl Default for Total {
    fn default() -> (r: Total)
        ensures
            r@ == None::<int>,
    {
        Total(None)
    }
}

impl Default for Gradient {
    fn default() -> (r: Gradient)
        ensures
            r@ == None::<int>,
    {
        Gradient { value: None }
    }
}

} // verus!
