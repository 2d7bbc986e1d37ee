//! Bounded textual labels identifying services.

use vstd::prelude::*;

verus! {

/// The longest accepted service name, in characters.
pub const SERVICE_NAME_MAX_LENGTH: usize = 255;

/// Why a textual label was rejected as a service name.
#[derive(Clone, Copy, Debug, PartialEq, Eq, Structural)]
pub enum ServiceNameError {
    /// The label was empty.
    Empty,
    /// The label was longer than [`SERVICE_NAME_MAX_LENGTH`] characters.
    ExceedsMaximumLength,
}

/// A bounded textual label identifying a service within the platform
/// namespace.  Immutable once constructed; names are compared exactly,
/// character by character.
#[derive(Clone, Debug)]
pub struct ServiceName {
    pub value: String,
}

impl View for ServiceName {
    type V = Seq<char>;

    open spec fn view(&self) -> Seq<char> {
        self.value@
    }
}

/// Whether a label is acceptable as a service name: non-empty and bounded.
pub open spec fn valid_service_name(s: Seq<char>) -> bool {
    1 <= s.len() <= SERVICE_NAME_MAX_LENGTH
}

impl ServiceName {
    /// Validates a label and wraps it as a service name.
    ///
    /// Returns `Ok` exactly when the label is non-empty and at most
    /// [`SERVICE_NAME_MAX_LENGTH`] characters long.
    pub fn new(name: &str) -> (r: Result<ServiceName, ServiceNameError>)
        ensures
            r is Ok <==> valid_service_name(name@),
            r matches Ok(n) ==> n@ == name@,
            r matches Err(e) ==> (e == ServiceNameError::Empty <==> name@.len() == 0),
    {
        let len = name.unicode_len();
        if len == 0 {
            Err(ServiceNameError::Empty)
        } else if len > SERVICE_NAME_MAX_LENGTH {
            Err(ServiceNameError::ExceedsMaximumLength)
        } else {
            Ok(ServiceName { value: name.to_owned() })
        }
    }

    /// Returns the label as a string slice.
    pub fn as_str(&self) -> (r: &str)
        ensures
            r@ == self@,
    {
        self.value.as_str()
    }

    /// An exact copy of the name.
    pub fn duplicate(&self) -> (r: ServiceName)
        ensures
            r == *self,
    {
        ServiceName { value: self.value.clone() }
    }

    /// Compares two names character-exact.
    pub fn equals(&self, other: &ServiceName) -> (r: bool)
        ensures
            r == (self@ == other@),
    {
        self.value == other.value
    }
}

} // verus!
