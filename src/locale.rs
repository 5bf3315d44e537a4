// The locale of a source and its textual tokens.
use vstd::prelude::*;
use vstd::string::*;

use crate::text::str_eq;

verus! {

/// Language and region of the content a source serves.
#[derive(Debug, Clone, Copy, PartialEq, Eq, Structural)]
pub enum Locale {
    Unknown,
    EnUs,
    PtBr,
}

/// The locale that a numeric code stands for; codes without a meaning are `Unknown`.
pub open spec fn locale_of_code(v: u8) -> Locale {
    if v == 1 {
        Locale::EnUs
    } else if v == 2 {
        Locale::PtBr
    } else {
        Locale::Unknown
    }
}

/// The locale that a textual token such as `pt_BR` names; other tokens are `Unknown`.
pub open spec fn locale_of_token(s: Seq<char>) -> Locale {
    if s == "en_US"@ {
        Locale::EnUs
    } else if s == "pt_BR"@ {
        Locale::PtBr
    } else {
        Locale::Unknown
    }
}

/// The canonical token of a locale.
pub open spec fn token_of(l: Locale) -> Seq<char> {
    match l {
        Locale::Unknown => "unknown"@,
        Locale::EnUs => "en_US"@,
        Locale::PtBr => "pt_BR"@,
    }
}

impl Locale {
    pub fn from_code(value: u8) -> (r: Locale)
        ensures
            r == locale_of_code(value),
    {
        match value {
            1 => Locale::EnUs,
            2 => Locale::PtBr,
            _ => Locale::Unknown,
        }
    }

    /// Reads a locale token; a token that names no known locale gives `Unknown`.
    pub fn from_token(value: &str) -> (r: Locale)
        ensures
            r == locale_of_token(value@),
    {
        if str_eq(value, "en_US") {
            Locale::EnUs
        } else if str_eq(value, "pt_BR") {
            Locale::PtBr
        } else {
            Locale::Unknown
        }
    }

    /// The canonical token of this locale.
    pub fn token(&self) -> (r: &'static str)
        ensures
            r@ == token_of(*self),
    {
        match self {
            Locale::Unknown => "unknown",
            Locale::EnUs => "en_US",
            Locale::PtBr => "pt_BR",
        }
    }

    /// The canonical token of this locale, as an owned string.
    pub fn to_string(&self) -> (r: String)
        ensures
            r@ == token_of(*self),
    {
        String::from_str(self.token())
    }
}

/// Reading back the token of any locale gives that locale.
pub proof fn lemma_token_round_trip(l: Locale)
    ensures
        locale_of_token(token_of(l)) == l,
{
    reveal_strlit("unknown");
    reveal_strlit("en_US");
    reveal_strlit("pt_BR");
    assert("unknown"@.len() != "en_US"@.len());
    assert("unknown"@.len() != "pt_BR"@.len());
    assert("en_US"@[0] != "pt_BR"@[0]);
}

} // verus!
