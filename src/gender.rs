//! The speaker's gender, as a voice's features name it.
use crate::de::{str_eq, Deserializer};
use crate::decode::Decode;
use crate::error::Error;
use crate::wire::{str_spec, Cursor, Step};
use vstd::prelude::*;

verus! {

/// The gender of a voice's speaker.
#[derive(Clone, Copy, Debug, PartialEq, Eq, Structural)]
pub enum Gender {
    Male,
    Female,
    Unknown,
}

impl DeepView for Gender {
    type V = Gender;

    open spec fn deep_view(&self) -> Gender {
        *self
    }
}

impl Default for Gender {
    fn default() -> (r: Gender)
        ensures
            r == Gender::Unknown,
    {
        Gender::Unknown
    }
}

/// The gender that a name stands for: `male`, `female`, and `unknown` or
/// `none` for an unknown one.
pub open spec fn gender_of(s: Seq<char>) -> Option<Gender> {
    if s == "male"@ {
        Some(Gender::Male)
    } else if s == "female"@ {
        Some(Gender::Female)
    } else if s == "unknown"@ || s == "none"@ {
        Some(Gender::Unknown)
    } else {
        None
    }
}

impl Gender {
    /// The gender that `s` names, if any.
    pub fn from_name(s: &str) -> (r: Option<Gender>)
        ensures
            r == gender_of(s@),
    {
        if str_eq(s, "male") {
            Some(Gender::Male)
        } else if str_eq(s, "female") {
            Some(Gender::Female)
        } else if str_eq(s, "unknown") || str_eq(s, "none") {
            Some(Gender::Unknown)
        } else {
            None
        }
    }
}

impl core::str::FromStr for Gender {
    type Err = &'static str;

    fn from_str(s: &str) -> Result<Gender, &'static str> {
        match Gender::from_name(s) {
            Some(g) => Ok(g),
            None => Err("invalid variant for gender"),
        }
    }
}

/// A gender is stored as the text of its name.
impl Decode for Gender {
    open spec fn spec_decode(c: Cursor) -> Step<Gender> {
        match str_spec(c) {
            Err(e) => Err(e),
            Ok((s, c1)) => match gender_of(s) {
                Some(g) => Ok((g, c1)),
                None => Err(Error::UnknownVariant),
            },
        }
    }

    proof fn lemma_decode_moves(c: Cursor) {
    }

    fn decode(d: &mut Deserializer<'_>) -> (r: Result<Gender, Error>) {
        let s = match d.parse_str() {
            Ok(s) => s,
            Err(e) => return Err(e),
        };
        match Gender::from_name(s.as_str()) {
            Some(g) => Ok(g),
            None => Err(Error::UnknownVariant),
        }
    }
}

} // verus!
