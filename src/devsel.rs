//! The two-bit DEVSEL# timing field of the Status register.
use vstd::prelude::*;

verus! {

/// Slowest time that a device will assert DEVSEL# for any bus command except
/// Configuration Space reads and writes.
#[derive(Clone, Copy, Debug, PartialEq, Eq, Structural)]
pub enum DevselTiming {
    Fast,
    Medium,
    Slow,
}

/// The timing class that a raw field value encodes, if any.
pub open spec fn devsel_of(code: u8) -> Option<DevselTiming> {
    if code == 0 {
        Some(DevselTiming::Fast)
    } else if code == 1 {
        Some(DevselTiming::Medium)
    } else if code == 2 {
        Some(DevselTiming::Slow)
    } else {
        None
    }
}

/// What decoding a raw field value gives: the timing class, or an error.
pub open spec fn devsel_decoded(code: u8) -> Result<DevselTiming, ()> {
    match devsel_of(code) {
        Some(t) => Ok(t),
        None => Err(()),
    }
}

/// The field value that encodes a timing class.
pub open spec fn devsel_code(t: DevselTiming) -> u8 {
    match t {
        DevselTiming::Fast => 0,
        DevselTiming::Medium => 1,
        DevselTiming::Slow => 2,
    }
}

impl DevselTiming {
    /// Decodes a raw field value; any value other than 0, 1 or 2 is rejected.
    /// The text that names a decoding result, as `{:?}` renders it.
    pub open spec fn result_text(r: Result<DevselTiming, ()>) -> Seq<char> {
        match r {
            Ok(DevselTiming::Fast) => "Ok(Fast)"@,
            Ok(DevselTiming::Medium) => "Ok(Medium)"@,
            Ok(DevselTiming::Slow) => "Ok(Slow)"@,
            Err(()) => "Err(())"@,
        }
    }

    /// Names a decoding result, as `{:?}` renders it.
    pub fn result_str(r: &Result<DevselTiming, ()>) -> (s: &'static str)
        ensures
            s@ == DevselTiming::result_text(*r),
    {
        match r {
            Ok(DevselTiming::Fast) => "Ok(Fast)",
            Ok(DevselTiming::Medium) => "Ok(Medium)",
            Ok(DevselTiming::Slow) => "Ok(Slow)",
            Err(()) => "Err(())",
        }
    }

    pub fn decode(value: u8) -> (r: Result<DevselTiming, ()>)
        ensures
            r == devsel_decoded(value),
    {
        match value {
            0 => Ok(DevselTiming::Fast),
            1 => Ok(DevselTiming::Medium),
            2 => Ok(DevselTiming::Slow),
            _ => Err(()),
        }
    }
}

impl core::convert::TryFrom<u8> for DevselTiming {
    type Error = ();

    fn try_from(value: u8) -> (r: Result<DevselTiming, ()>) {
        DevselTiming::decode(value)
    }
}

impl vstd::std_specs::convert::TryFromSpecImpl<u8> for DevselTiming {
    open spec fn obeys_try_from_spec() -> bool {
        true
    }

    open spec fn try_from_spec(v: u8) -> Result<DevselTiming, ()> {
        devsel_decoded(v)
    }
}

/// Decoding is a bijection between the codes 0, 1, 2 and the three timing
/// classes, and fails for every other code, among the two-bit codes for 3 alone.
pub proof fn lemma_devsel_bijection()
    ensures
        forall|t: DevselTiming| #[trigger] devsel_of(devsel_code(t)) == Some(t),
        forall|c: u8| #[trigger] devsel_of(c) matches Some(t) ==> devsel_code(t) == c,
        forall|c: u8| #[trigger] devsel_of(c).is_none() <==> c > 2,
        forall|c: u8| c < 4 ==> (#[trigger] devsel_of(c).is_none() <==> c == 3),
{
}

} // verus!
