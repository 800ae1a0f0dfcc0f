//! The closed enumeration of document kinds.
//!
//! Field identity is restricted to these five kinds: an unknown field
//! name is rejected before any persistence operation is built, and each
//! kind resolves to a fixed, hard-coded column reference — never to text
//! interpolated from a request.

use vstd::prelude::*;

use vstd::string::StrSliceExecFns;

verus! {

/// The document kinds a wallet record can hold, one column each.
#[derive(Debug, Clone, Copy, PartialEq, Eq, Structural)]
pub enum FieldName {
    IdentityCard,
    DrivingLicense,
    Passport,
    VehicleRegistration,
    InsuranceAuto,
}

/// The field a request's name denotes, or nothing outside the closed set.
pub open spec fn spec_field_of(s: Seq<char>) -> Option<FieldName> {
    if s == "identity_card"@ {
        Some(FieldName::IdentityCard)
    } else if s == "driving_license"@ {
        Some(FieldName::DrivingLicense)
    } else if s == "passport"@ {
        Some(FieldName::Passport)
    } else if s == "vehicle_registration"@ {
        Some(FieldName::VehicleRegistration)
    } else if s == "insurance_auto"@ {
        Some(FieldName::InsuranceAuto)
    } else {
        None
    }
}

impl FieldName {
    /// The fixed column reference of each kind.
    pub open spec fn spec_column(self) -> Seq<char> {
        match self {
            FieldName::IdentityCard => "identity_card"@,
            FieldName::DrivingLicense => "driving_license"@,
            FieldName::Passport => "passport"@,
            FieldName::VehicleRegistration => "vehicle_registration"@,
            FieldName::InsuranceAuto => "insurance_auto"@,
        }
    }

    /// Resolves a request's field name against the closed enumeration.
    pub fn parse(s: &str) -> (r: Option<FieldName>)
        ensures
            r == spec_field_of(s@),
    {
        let owned = s.to_owned();
        if owned == "identity_card".to_owned() {
            Some(FieldName::IdentityCard)
        } else if owned == "driving_license".to_owned() {
            Some(FieldName::DrivingLicense)
        } else if owned == "passport".to_owned() {
            Some(FieldName::Passport)
        } else if owned == "vehicle_registration".to_owned() {
            Some(FieldName::VehicleRegistration)
        } else if owned == "insurance_auto".to_owned() {
            Some(FieldName::InsuranceAuto)
        } else {
            None
        }
    }

    /// The fixed, safe column reference: one hard-coded identifier per
    /// kind, decided here and nowhere else.
    pub fn column(&self) -> (r: &'static str)
        ensures
            r@ == self.spec_column(),
    {
        match self {
            FieldName::IdentityCard => "identity_card",
            FieldName::DrivingLicense => "driving_license",
            FieldName::Passport => "passport",
            FieldName::VehicleRegistration => "vehicle_registration",
            FieldName::InsuranceAuto => "insurance_auto",
        }
    }
}

/// Whether a character is an ASCII decimal digit.
pub open spec fn is_digit(c: char) -> bool {
    48 <= c as u32 <= 57
}

/// Whether every character of a text is a decimal digit.
pub open spec fn all_digits(s: Seq<char>) -> bool {
    forall|i: int| 0 <= i < s.len() ==> is_digit(#[trigger] s[i])
}

/// The number a digit string denotes.
pub open spec fn dec_value(s: Seq<char>) -> int
    decreases s.len(),
{
    if s.len() == 0 {
        0
    } else {
        dec_value(s.drop_last()) * 10 + (s.last() as u32 - 48)
    }
}

/// What counts as a positive row count read back from the store: a
/// nonempty all-digit text denoting a positive value within the range
/// the store's 32-bit counters can carry.
pub open spec fn spec_count_positive(s: Seq<char>) -> bool {
    s.len() > 0 && all_digits(s) && 0 < dec_value(s) <= 0x7fffffff
}

proof fn lemma_dec_value_nonneg(s: Seq<char>)
    requires
        all_digits(s),
    ensures
        dec_value(s) >= 0,
    decreases s.len(),
{
    if s.len() > 0 {
        assert(all_digits(s.drop_last()));
        lemma_dec_value_nonneg(s.drop_last());
    }
}

/// A digit string's value dominates the value of each of its prefixes.
proof fn lemma_dec_value_prefix(s: Seq<char>, i: int)
    requires
        all_digits(s),
        0 <= i <= s.len(),
    ensures
        dec_value(s.subrange(0, i)) <= dec_value(s),
    decreases s.len() - i,
{
    if i < s.len() {
        lemma_dec_value_prefix(s, i + 1);
        let p = s.subrange(0, i);
        let q = s.subrange(0, i + 1);
        assert(q.drop_last() =~= p);
        assert(all_digits(p));
        lemma_dec_value_nonneg(p);
        assert(dec_value(q) == dec_value(p) * 10 + (q.last() as u32 - 48));
        assert(dec_value(p) <= dec_value(q));
    } else {
        assert(s.subrange(0, i) =~= s);
    }
}

/// Reads a scalar count handed back by the store and says whether it is
/// positive. Anything but a nonempty digit string within 32-bit range —
/// the only shape a count can take — answers false.
pub fn count_is_positive(s: &str) -> (r: bool)
    ensures
        r == spec_count_positive(s@),
{
    let n = s.unicode_len();
    if n == 0 {
        return false;
    }
    let mut acc: u64 = 0;
    let mut i: usize = 0;
    while i < n
        invariant
            i <= n,
            n == s@.len(),
            n > 0,
            forall|j: int| 0 <= j < i ==> is_digit(#[trigger] s@[j]),
            acc == dec_value(s@.subrange(0, i as int)),
            acc <= 0x7fffffff,
        decreases n - i,
    {
        let c = s.get_char(i);
        let cv = c as u32;
        if cv < 48 || cv > 57 {
            proof {
                assert(!is_digit(s@[i as int]));
                assert(!all_digits(s@));
            }
            return false;
        }
        let d: u64 = (cv - 48) as u64;
        let next: u64 = acc * 10 + d;
        proof {
            assert(s@.subrange(0, i + 1).drop_last() =~= s@.subrange(0, i as int));
            assert(s@.subrange(0, i + 1).last() == s@[i as int]);
        }
        if next > 0x7fffffff {
            proof {
                if all_digits(s@) {
                    lemma_dec_value_prefix(s@, i + 1);
                    assert(dec_value(s@.subrange(0, i + 1)) == next);
                    assert(dec_value(s@) > 0x7fffffff);
                }
            }
            return false;
        }
        acc = next;
        i = i + 1;
    }
    proof {
        assert(s@.subrange(0, n as int) =~= s@);
    }
    acc > 0
}

} // verus!
