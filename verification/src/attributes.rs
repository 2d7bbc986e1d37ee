//! Key-value metadata negotiated between service creators and openers.
//!
//! A creator attaches an [`AttributeSet`] to the service; an opener states
//! its requirements in an [`AttributeVerifier`].  Opening succeeds only when
//! every required pair and key is present in the set the creator defined.

use vstd::prelude::*;

verus! {

/// One key-value entry of an attribute set.
#[derive(Clone, Debug)]
pub struct Attribute {
    pub key: String,
    pub value: String,
}

/// An ordered multimap of string keys to string values, defined when a
/// service is created and immutable afterwards.
#[derive(Clone, Debug)]
pub struct AttributeSet {
    pub attrs: Vec<Attribute>,
}

/// Whether `attrs` holds an entry with this key and value.
pub open spec fn set_contains_pair(attrs: Seq<Attribute>, key: Seq<char>, value: Seq<char>) -> bool {
    exists|i: int| 0 <= i < attrs.len() && attrs[i].key@ == key && attrs[i].value@ == value
}

/// Whether `attrs` holds an entry with this key.
pub open spec fn set_contains_key(attrs: Seq<Attribute>, key: Seq<char>) -> bool {
    exists|i: int| 0 <= i < attrs.len() && attrs[i].key@ == key
}

impl AttributeSet {
    /// An empty attribute set.
    pub fn new() -> (r: AttributeSet)
        ensures
            r.attrs@.len() == 0,
    {
        AttributeSet { attrs: Vec::new() }
    }

    /// Number of entries.
    pub fn len(&self) -> (r: usize)
        ensures
            r == self.attrs@.len(),
    {
        self.attrs.len()
    }

    /// An exact copy of the set.
    pub fn duplicate(&self) -> (r: AttributeSet)
        ensures
            r.attrs@ == self.attrs@,
    {
        let mut attrs: Vec<Attribute> = Vec::new();
        let mut i: usize = 0;
        while i < self.attrs.len()
            invariant
                i <= self.attrs@.len(),
                attrs@.len() == i,
                forall|j: int| 0 <= j < i ==> attrs@[j] == self.attrs@[j],
            decreases self.attrs@.len() - i,
        {
            let a = &self.attrs[i];
            attrs.push(Attribute { key: a.key.clone(), value: a.value.clone() });
            i += 1;
        }
        proof {
            assert(attrs@ =~= self.attrs@);
        }
        AttributeSet { attrs }
    }

    /// Looks for an entry with this key and value.
    pub fn contains_pair(&self, key: &String, value: &String) -> (r: bool)
        ensures
            r == set_contains_pair(self.attrs@, key@, value@),
    {
        let mut i: usize = 0;
        while i < self.attrs.len()
            invariant
                i <= self.attrs@.len(),
                forall|j: int|
                    0 <= j < i ==> !(self.attrs@[j].key@ == key@ && self.attrs@[j].value@
                        == value@),
            decreases self.attrs@.len() - i,
        {
            let a = &self.attrs[i];
            if a.key == *key && a.value == *value {
                return true;
            }
            i += 1;
        }
        false
    }

    /// Looks for an entry with this key.
    pub fn contains_key(&self, key: &String) -> (r: bool)
        ensures
            r == set_contains_key(self.attrs@, key@),
    {
        let mut i: usize = 0;
        while i < self.attrs.len()
            invariant
                i <= self.attrs@.len(),
                forall|j: int| 0 <= j < i ==> !(self.attrs@[j].key@ == key@),
            decreases self.attrs@.len() - i,
        {
            if self.attrs[i].key == *key {
                return true;
            }
            i += 1;
        }
        false
    }
}

/// The attribute set a creator defines on a new service.
#[derive(Clone, Debug)]
pub struct AttributeSpecifier {
    pub attributes: AttributeSet,
}

impl AttributeSpecifier {
    /// An empty specification.
    pub fn new() -> (r: AttributeSpecifier)
        ensures
            r.attributes.attrs@.len() == 0,
    {
        AttributeSpecifier { attributes: AttributeSet::new() }
    }

    /// Adds a key-value pair to be defined on the service.
    pub fn define(self, key: &str, value: &str) -> (r: AttributeSpecifier)
        ensures
            r.attributes.attrs@.len() == self.attributes.attrs@.len() + 1,
            r.attributes.attrs@.subrange(0, self.attributes.attrs@.len() as int)
                == self.attributes.attrs@,
            r.attributes.attrs@.last().key@ == key@,
            r.attributes.attrs@.last().value@ == value@,
    {
        let mut attributes = self.attributes;
        attributes.attrs.push(Attribute { key: key.to_owned(), value: value.to_owned() });
        AttributeSpecifier { attributes }
    }
}

/// The requirements an opener states against an existing service's
/// attribute set: exact key-value pairs, and keys that must merely exist.
#[derive(Clone, Debug)]
pub struct AttributeVerifier {
    pub required: AttributeSet,
    pub required_keys: Vec<String>,
}

/// Whether an attribute set satisfies every requirement of a verifier:
/// each required pair occurs in the set, and each required key occurs
/// under some value.
pub open spec fn requirements_satisfied(v: AttributeVerifier, attrs: Seq<Attribute>) -> bool {
    &&& forall|i: int|
        0 <= i < v.required.attrs@.len() ==> set_contains_pair(
            attrs,
            v.required.attrs@[i].key@,
            v.required.attrs@[i].value@,
        )
    &&& forall|i: int|
        0 <= i < v.required_keys@.len() ==> set_contains_key(attrs, v.required_keys@[i]@)
}

impl AttributeVerifier {
    /// A verifier with no requirements; it is satisfied by every set.
    pub fn new() -> (r: AttributeVerifier)
        ensures
            r.required.attrs@.len() == 0,
            r.required_keys@.len() == 0,
    {
        AttributeVerifier { required: AttributeSet::new(), required_keys: Vec::new() }
    }

    /// Requires the service to carry exactly this key-value pair.
    pub fn require(self, key: &str, value: &str) -> (r: AttributeVerifier)
        ensures
            r.required.attrs@.len() == self.required.attrs@.len() + 1,
            r.required.attrs@.subrange(0, self.required.attrs@.len() as int)
                == self.required.attrs@,
            r.required.attrs@.last().key@ == key@,
            r.required.attrs@.last().value@ == value@,
            r.required_keys@ == self.required_keys@,
    {
        let mut required = self.required;
        required.attrs.push(Attribute { key: key.to_owned(), value: value.to_owned() });
        AttributeVerifier { required, required_keys: self.required_keys }
    }

    /// Requires the service to carry this key under some value.
    pub fn require_key(self, key: &str) -> (r: AttributeVerifier)
        ensures
            r.required_keys@.len() == self.required_keys@.len() + 1,
            r.required_keys@.subrange(0, self.required_keys@.len() as int) == self.required_keys@,
            r.required_keys@.last()@ == key@,
            r.required.attrs@ == self.required.attrs@,
    {
        let mut required_keys = self.required_keys;
        required_keys.push(key.to_owned());
        AttributeVerifier { required: self.required, required_keys }
    }

    /// The attribute requirements as a set (used when open-or-create falls
    /// back to creating the service).
    pub fn attributes(&self) -> (r: &AttributeSet)
        ensures
            r == &self.required,
    {
        &self.required
    }

    /// Checks every requirement against an existing attribute set.
    ///
    /// Returns `Ok` exactly when the set satisfies the requirements;
    /// otherwise names a key whose requirement failed.
    pub fn verify_requirements(&self, attrs: &AttributeSet) -> (r: Result<(), String>)
        ensures
            r is Ok <==> requirements_satisfied(*self, attrs.attrs@),
            r matches Err(k) ==> !set_contains_key(attrs.attrs@, k@) || (exists|i: int|
                0 <= i < self.required.attrs@.len() && self.required.attrs@[i].key@ == k@
                    && !set_contains_pair(
                    attrs.attrs@,
                    self.required.attrs@[i].key@,
                    self.required.attrs@[i].value@,
                )),
    {
        let mut i: usize = 0;
        while i < self.required.attrs.len()
            invariant
                i <= self.required.attrs@.len(),
                forall|j: int|
                    0 <= j < i ==> set_contains_pair(
                        attrs.attrs@,
                        self.required.attrs@[j].key@,
                        self.required.attrs@[j].value@,
                    ),
            decreases self.required.attrs@.len() - i,
        {
            let a = &self.required.attrs[i];
            if !attrs.contains_pair(&a.key, &a.value) {
                return Err(a.key.clone());
            }
            i += 1;
        }
        let mut i: usize = 0;
        while i < self.required_keys.len()
            invariant
                i <= self.required_keys@.len(),
                forall|j: int|
                    0 <= j < self.required.attrs@.len() ==> set_contains_pair(
                        attrs.attrs@,
                        self.required.attrs@[j].key@,
                        self.required.attrs@[j].value@,
                    ),
                forall|j: int| 0 <= j < i ==> set_contains_key(attrs.attrs@, self.required_keys@[j]@),
            decreases self.required_keys@.len() - i,
        {
            if !attrs.contains_key(&self.required_keys[i]) {
                return Err(self.required_keys[i].clone());
            }
            i += 1;
        }
        Ok(())
    }
}

/// A verifier without requirements accepts every attribute set; in
/// particular a service created with empty attributes is openable by any
/// opener whose required attribute set is empty.
pub proof fn lemma_empty_requirements_always_satisfied(v: AttributeVerifier, attrs: Seq<Attribute>)
    requires
        v.required.attrs@.len() == 0,
        v.required_keys@.len() == 0,
    ensures
        requirements_satisfied(v, attrs),
{
}

} // verus!
