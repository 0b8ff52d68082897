//! The closed set of supported languages. Each collection maintains one
//! independent index per language.

use vstd::prelude::*;

use crate::errors::ErrorKind;
use crate::text::str_eq;

verus! {

#[derive(Clone, Copy, PartialEq, Eq, Hash, Structural, Debug)]
pub enum Language {
    Es,
    En,
}

impl Language {
    /// Every supported language, in the order rebuild passes visit them.
    pub fn all() -> (r: Vec<Language>)
        ensures
            r@ == seq![Language::Es, Language::En],
    {
        let mut result: Vec<Language> = Vec::new();
        result.push(Language::Es);
        result.push(Language::En);
        proof {
            assert(result@ =~= seq![Language::Es, Language::En]);
        }
        result
    }

    /// The wire code of the language.
    pub fn as_str(&self) -> (r: &'static str)
        ensures
            *self == Language::Es ==> r@ == "ES"@,
            *self == Language::En ==> r@ == "EN"@,
    {
        match self {
            Language::Es => "ES",
            Language::En => "EN",
        }
    }

    /// Parse a wire code; anything outside the closed set is rejected.
    pub fn parse(value: &str) -> (r: Result<Language, ErrorKind>)
        ensures
            value@ == "ES"@ ==> r == Ok::<Language, ErrorKind>(Language::Es),
            value@ == "EN"@ ==> r == Ok::<Language, ErrorKind>(Language::En),
            value@ != "ES"@ && value@ != "EN"@ ==> r == Err::<Language, ErrorKind>(
                ErrorKind::UnknownLanguage,
            ),
    {
        proof {
            reveal_strlit("ES");
            reveal_strlit("EN");
            assert("ES"@ =~= seq!['E', 'S']);
            assert("EN"@ =~= seq!['E', 'N']);
            assert('S' != 'N');
            assert("ES"@ != "EN"@);
        }
        if str_eq(value, "ES") {
            Ok(Language::Es)
        } else if str_eq(value, "EN") {
            Ok(Language::En)
        } else {
            Err(ErrorKind::UnknownLanguage)
        }
    }
}

} // verus!
