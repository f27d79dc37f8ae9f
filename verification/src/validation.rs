//! The rules a site order must satisfy: name, description and address
//! constraints, checked on the trimmed name.
use vstd::prelude::*;
use crate::domain::CreateSiteOrder;
use crate::strutil::{chars_of, trim_chars, trim_spec};
use vstd::std_specs::cmp::PartialEqSpec;

verus! {

/// The ways a site order can be rejected.
#[derive(Debug, Eq)]
pub enum ValidationError {
    EmptyName,
    NameTooLong,
    InvalidNameFormat,
    DescriptionTooLong,
    AddressTooLong,
    InvalidCharacters(String),
}

impl PartialEq for ValidationError {
    fn eq(&self, other: &Self) -> (r: bool) {
        match (self, other) {
            (ValidationError::EmptyName, ValidationError::EmptyName) => true,
            (ValidationError::NameTooLong, ValidationError::NameTooLong) => true,
            (ValidationError::InvalidNameFormat, ValidationError::InvalidNameFormat) => true,
            (ValidationError::DescriptionTooLong, ValidationError::DescriptionTooLong) => true,
            (ValidationError::AddressTooLong, ValidationError::AddressTooLong) => true,
            (ValidationError::InvalidCharacters(a), ValidationError::InvalidCharacters(b)) => a.eq(
                b,
            ),
            _ => false,
        }
    }
}

impl vstd::std_specs::cmp::PartialEqSpecImpl for ValidationError {
    open spec fn obeys_eq_spec() -> bool {
        true
    }

    open spec fn eq_spec(&self, other: &Self) -> bool {
        match (self, other) {
            (ValidationError::EmptyName, ValidationError::EmptyName) => true,
            (ValidationError::NameTooLong, ValidationError::NameTooLong) => true,
            (ValidationError::InvalidNameFormat, ValidationError::InvalidNameFormat) => true,
            (ValidationError::DescriptionTooLong, ValidationError::DescriptionTooLong) => true,
            (ValidationError::AddressTooLong, ValidationError::AddressTooLong) => true,
            (ValidationError::InvalidCharacters(a), ValidationError::InvalidCharacters(b)) => a@
                == b@,
            _ => false,
        }
    }
}

impl Clone for ValidationError {
    fn clone(&self) -> (r: Self)
        ensures
            r.eq_spec(self),
    {
        match self {
            ValidationError::EmptyName => ValidationError::EmptyName,
            ValidationError::NameTooLong => ValidationError::NameTooLong,
            ValidationError::InvalidNameFormat => ValidationError::InvalidNameFormat,
            ValidationError::DescriptionTooLong => ValidationError::DescriptionTooLong,
            ValidationError::AddressTooLong => ValidationError::AddressTooLong,
            ValidationError::InvalidCharacters(s) => ValidationError::InvalidCharacters(s.clone()),
        }
    }
}

/// The human-readable description of each rejection.
pub open spec fn spec_validation_message(e: ValidationError) -> Seq<char> {
    match e {
        ValidationError::EmptyName => "Site name cannot be empty"@,
        ValidationError::NameTooLong => "Site name exceeds maximum length of 100 characters"@,
        ValidationError::InvalidNameFormat => "Site name contains invalid characters"@,
        ValidationError::DescriptionTooLong => "Description exceeds maximum length of 500 characters"@,
        ValidationError::AddressTooLong => "Address exceeds maximum length of 200 characters"@,
        ValidationError::InvalidCharacters(field) => "Invalid characters in field: "@ + field@,
    }
}

impl ValidationError {
    /// A human-readable description of the rejection.
    pub fn message(&self) -> (r: String)
        ensures
            r@ == spec_validation_message(*self),
    {
        match self {
            ValidationError::EmptyName => String::from_str("Site name cannot be empty"),
            ValidationError::NameTooLong => String::from_str(
                "Site name exceeds maximum length of 100 characters",
            ),
            ValidationError::InvalidNameFormat => String::from_str(
                "Site name contains invalid characters",
            ),
            ValidationError::DescriptionTooLong => String::from_str(
                "Description exceeds maximum length of 500 characters",
            ),
            ValidationError::AddressTooLong => String::from_str(
                "Address exceeds maximum length of 200 characters",
            ),
            ValidationError::InvalidCharacters(field) => String::from_str(
                "Invalid characters in field: ",
            ).concat(field.as_str()),
        }
    }
}

/// The characters a site name may hold: ASCII alphanumerics, the space,
/// and `- _ . ( )`.
pub open spec fn allowed_name_char(c: char) -> bool {
    ('a' <= c && c <= 'z') || ('A' <= c && c <= 'Z') || ('0' <= c && c <= '9') || c == ' ' || c
        == '-' || c == '_' || c == '.' || c == '(' || c == ')'
}

/// Whether every character of the sequence is allowed in a site name.
pub open spec fn all_name_chars_allowed(s: Seq<char>) -> bool {
    forall|i: int| 0 <= i < s.len() ==> allowed_name_char(s[i])
}

/// What validating a trimmed name yields under a length bound.
pub open spec fn name_result(t: Seq<char>, max: nat) -> Result<(), ValidationError> {
    if t.len() == 0 {
        Err(ValidationError::EmptyName)
    } else if t.len() > max {
        Err(ValidationError::NameTooLong)
    } else if !all_name_chars_allowed(t) {
        Err(ValidationError::InvalidNameFormat)
    } else {
        Ok(())
    }
}

/// What validating a description yields under a length bound.
pub open spec fn description_result(s: Seq<char>, max: nat) -> Result<(), ValidationError> {
    if s.len() > max {
        Err(ValidationError::DescriptionTooLong)
    } else {
        Ok(())
    }
}

/// What validating an address yields under a length bound.
pub open spec fn address_result(s: Seq<char>, max: nat) -> Result<(), ValidationError> {
    if s.len() > max {
        Err(ValidationError::AddressTooLong)
    } else {
        Ok(())
    }
}

/// What validating a whole site order yields: the name first, then the
/// description if present, then the address if present.
pub open spec fn site_order_result(
    o: crate::domain::OrderContent,
    max_name: nat,
    max_description: nat,
    max_address: nat,
) -> Result<(), ValidationError> {
    if name_result(trim_spec(o.name), max_name) is Err {
        name_result(trim_spec(o.name), max_name)
    } else if o.description is Some && description_result(o.description->0, max_description) is Err {
        description_result(o.description->0, max_description)
    } else if o.address is Some && address_result(o.address->0, max_address) is Err {
        address_result(o.address->0, max_address)
    } else {
        Ok(())
    }
}

/// The rules a site order must satisfy.
#[derive(Debug, Clone, Copy)]
pub struct OrderValidator {
    pub max_name_length: usize,
    pub max_description_length: usize,
    pub max_address_length: usize,
}

impl OrderValidator {
    /// A validator with the default bounds: names of at most 100
    /// characters, descriptions of at most 500, addresses of at most 200.
    pub fn new() -> (r: Self)
        ensures
            r.max_name_length == 100,
            r.max_description_length == 500,
            r.max_address_length == 200,
    {
        OrderValidator { max_name_length: 100, max_description_length: 500, max_address_length: 200 }
    }

    /// A validator with custom length bounds.
    pub fn with_rules(
        max_name_length: usize,
        max_description_length: usize,
        max_address_length: usize,
    ) -> (r: Self)
        ensures
            r.max_name_length == max_name_length,
            r.max_description_length == max_description_length,
            r.max_address_length == max_address_length,
    {
        OrderValidator { max_name_length, max_description_length, max_address_length }
    }

    /// Validate a site name: trimmed, it must be non-empty, within the
    /// length bound, and hold only allowed characters.
    pub fn validate_name(&self, name: &str) -> (r: Result<(), ValidationError>)
        ensures
            r == name_result(trim_spec(name@), self.max_name_length as nat),
    {
        let cs = chars_of(name);
        let t = trim_chars(&cs);
        if t.len() == 0 {
            return Err(ValidationError::EmptyName);
        }
        if t.len() > self.max_name_length {
            return Err(ValidationError::NameTooLong);
        }
        let mut i: usize = 0;
        while i < t.len()
            invariant
                i <= t@.len(),
                t@ == trim_spec(name@),
                0 < t@.len() <= self.max_name_length,
                forall|k: int| 0 <= k < i ==> allowed_name_char(t@[k]),
            decreases t@.len() - i,
        {
            let c = t[i];
            let ok = (c >= 'a' && c <= 'z') || (c >= 'A' && c <= 'Z') || (c >= '0' && c <= '9') || c
                == ' ' || c == '-' || c == '_' || c == '.' || c == '(' || c == ')';
            if !ok {
                proof {
                    assert(!allowed_name_char(t@[i as int]));
                    assert(!all_name_chars_allowed(t@)) by {
                        assert(0 <= (i as int) < t@.len() && !allowed_name_char(t@[i as int]));
                    }
                }
                return Err(ValidationError::InvalidNameFormat);
            }
            i += 1;
        }
        Ok(())
    }

    /// Validate a description against the length bound.
    pub fn validate_description(&self, description: &str) -> (r: Result<(), ValidationError>)
        ensures
            r == description_result(description@, self.max_description_length as nat),
    {
        if description.unicode_len() > self.max_description_length {
            Err(ValidationError::DescriptionTooLong)
        } else {
            Ok(())
        }
    }

    /// Validate an address against the length bound.
    pub fn validate_address(&self, address: &str) -> (r: Result<(), ValidationError>)
        ensures
            r == address_result(address@, self.max_address_length as nat),
    {
        if address.unicode_len() > self.max_address_length {
            Err(ValidationError::AddressTooLong)
        } else {
            Ok(())
        }
    }

    /// Validate a whole site order: the name, then the description and
    /// address when present.
    pub fn validate_site_order(&self, order: &CreateSiteOrder) -> (r: Result<(), ValidationError>)
        ensures
            r == site_order_result(
                order@,
                self.max_name_length as nat,
                self.max_description_length as nat,
                self.max_address_length as nat,
            ),
    {
        let nr = self.validate_name(order.name.as_str());
        if let Err(e) = nr {
            return Err(e);
        }
        if let Some(desc) = &order.description {
            let dr = self.validate_description(desc.as_str());
            if let Err(e) = dr {
                return Err(e);
            }
        }
        if let Some(addr) = &order.address {
            let ar = self.validate_address(addr.as_str());
            if let Err(e) = ar {
                return Err(e);
            }
        }
        Ok(())
    }
}

} // verus!
