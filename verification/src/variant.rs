//! Model variant selectors: numeric precision and language, with their
//! case-insensitive token parsers.

use vstd::prelude::*;

verus! {

/// Which on-disk weight variant is used for the encoder, decoder and joiner.
/// `Int8Fp32` quantizes the encoder and the joiner but keeps the decoder at
/// full precision.
#[derive(Debug, Clone, Copy, PartialEq, Eq, Structural)]
pub enum Precision {
    Fp32,
    Int8,
    Int8Fp32,
}

/// Which model family is used: the repository and the training epoch count
/// embedded in the asset file names follow from it.
#[derive(Debug, Clone, Copy, PartialEq, Eq, Structural)]
pub enum Language {
    Ja,
    JaEn,
    JaEnMls5k,
}

/// A selector token that could not be parsed. Carries the offending token.
#[derive(Debug)]
pub enum ConfigError {
    UnknownPrecision { token: String },
    UnknownLanguage { token: String },
}

impl Default for Precision {
    /// The default precision is full precision.
    fn default() -> (r: Self)
        ensures
            r == Precision::Fp32,
    {
        Precision::Fp32
    }
}

impl Default for Language {
    /// The default language is Japanese.
    fn default() -> (r: Self)
        ensures
            r == Language::Ja,
    {
        Language::Ja
    }
}

/// The precision that a resolution uses: the requested one, or the default
/// full precision when none was requested.
pub open spec fn chosen_precision(p: Option<Precision>) -> Precision {
    if p is Some {
        p->0
    } else {
        Precision::Fp32
    }
}

/// The language that a resolution uses: the requested one, or the default
/// Japanese when none was requested.
pub open spec fn chosen_language(l: Option<Language>) -> Language {
    if l is Some {
        l->0
    } else {
        Language::Ja
    }
}

/// The code point of `c`, with ASCII upper-case letters folded to lower case.
pub open spec fn lower_code(c: char) -> u32 {
    if 65 <= c as u32 && c as u32 <= 90 {
        (c as u32 + 32) as u32
    } else {
        c as u32
    }
}

/// The sequence of case-folded code points of `s`.
pub open spec fn lowered(s: Seq<char>) -> Seq<u32> {
    s.map_values(|c: char| lower_code(c))
}

/// The precision selected by a token, compared case-insensitively,
/// or `None` when the token names no precision.
pub open spec fn spec_parse_precision(s: Seq<char>) -> Option<Precision> {
    if lowered(s) == lowered("fp32"@) {
        Some(Precision::Fp32)
    } else if lowered(s) == lowered("int8"@) {
        Some(Precision::Int8)
    } else if lowered(s) == lowered("int8-fp32"@) {
        Some(Precision::Int8Fp32)
    } else {
        None
    }
}

/// The language selected by a token, compared case-insensitively,
/// or `None` when the token names no language.
pub open spec fn spec_parse_language(s: Seq<char>) -> Option<Language> {
    if lowered(s) == lowered("ja"@) {
        Some(Language::Ja)
    } else if lowered(s) == lowered("ja-en"@) {
        Some(Language::JaEn)
    } else if lowered(s) == lowered("ja-en-mls-5k"@) {
        Some(Language::JaEnMls5k)
    } else {
        None
    }
}

/// Whether two strings are equal once ASCII letters are folded to lower case.
fn eq_ignore_ascii_case(s: &str, pat: &str) -> (b: bool)
    ensures
        b == (lowered(s@) == lowered(pat@)),
{
    let n = s.unicode_len();
    let m = pat.unicode_len();
    if n != m {
        proof {
            assert(lowered(s@).len() != lowered(pat@).len());
        }
        return false;
    }
    let mut i: usize = 0;
    while i < n
        invariant
            i <= n,
            n == s@.len(),
            n == pat@.len(),
            forall|j: int| 0 <= j < i ==> lower_code(s@[j]) == lower_code(pat@[j]),
        decreases n - i,
    {
        let cs = s.get_char(i);
        let cp = pat.get_char(i);
        let xs: u32 = cs as u32;
        let xp: u32 = cp as u32;
        let fs: u32 = if 65 <= xs && xs <= 90 {
            xs + 32
        } else {
            xs
        };
        let fp: u32 = if 65 <= xp && xp <= 90 {
            xp + 32
        } else {
            xp
        };
        if fs != fp {
            proof {
                assert(lowered(s@)[i as int] != lowered(pat@)[i as int]);
            }
            return false;
        }
        i += 1;
    }
    proof {
        assert(lowered(s@) =~= lowered(pat@));
    }
    true
}

impl Precision {
    /// Parses a precision token case-insensitively; an unknown token is a
    /// configuration error naming that token.
    pub fn from_str(s: &str) -> (r: Result<Precision, ConfigError>)
        ensures
            r is Ok <==> spec_parse_precision(s@) is Some,
            r is Ok ==> r->Ok_0 == spec_parse_precision(s@)->0,
            r is Err ==> (r->Err_0 matches ConfigError::UnknownPrecision { token } && token@
                == s@),
    {
        if eq_ignore_ascii_case(s, "fp32") {
            Ok(Precision::Fp32)
        } else if eq_ignore_ascii_case(s, "int8") {
            Ok(Precision::Int8)
        } else if eq_ignore_ascii_case(s, "int8-fp32") {
            Ok(Precision::Int8Fp32)
        } else {
            Err(ConfigError::UnknownPrecision { token: s.to_owned() })
        }
    }

    /// The canonical lower-case token of this precision.
    pub fn as_str(&self) -> (r: &'static str)
        ensures
            r@ == spec_precision_token(*self),
    {
        match self {
            Precision::Fp32 => "fp32",
            Precision::Int8 => "int8",
            Precision::Int8Fp32 => "int8-fp32",
        }
    }
}

/// The canonical token of a precision.
pub open spec fn spec_precision_token(p: Precision) -> Seq<char> {
    match p {
        Precision::Fp32 => "fp32"@,
        Precision::Int8 => "int8"@,
        Precision::Int8Fp32 => "int8-fp32"@,
    }
}

/// The canonical token of a language.
pub open spec fn spec_language_token(l: Language) -> Seq<char> {
    match l {
        Language::Ja => "ja"@,
        Language::JaEn => "ja-en"@,
        Language::JaEnMls5k => "ja-en-mls-5k"@,
    }
}

impl Language {
    /// Parses a language token case-insensitively; an unknown token is a
    /// configuration error naming that token.
    pub fn from_str(s: &str) -> (r: Result<Language, ConfigError>)
        ensures
            r is Ok <==> spec_parse_language(s@) is Some,
            r is Ok ==> r->Ok_0 == spec_parse_language(s@)->0,
            r is Err ==> (r->Err_0 matches ConfigError::UnknownLanguage { token } && token@ == s@),
    {
        if eq_ignore_ascii_case(s, "ja") {
            Ok(Language::Ja)
        } else if eq_ignore_ascii_case(s, "ja-en") {
            Ok(Language::JaEn)
        } else if eq_ignore_ascii_case(s, "ja-en-mls-5k") {
            Ok(Language::JaEnMls5k)
        } else {
            Err(ConfigError::UnknownLanguage { token: s.to_owned() })
        }
    }

    /// The canonical lower-case token of this language.
    pub fn as_str(&self) -> (r: &'static str)
        ensures
            r@ == spec_language_token(*self),
    {
        match self {
            Language::Ja => "ja",
            Language::JaEn => "ja-en",
            Language::JaEnMls5k => "ja-en-mls-5k",
        }
    }
}

/// The canonical token of every precision parses back to that precision:
/// `as_str` and `from_str` are inverse on canonical tokens.
pub proof fn lemma_precision_token_round_trip(p: Precision)
    ensures
        spec_parse_precision(spec_precision_token(p)) == Some(p),
{
    reveal_strlit("fp32");
    reveal_strlit("int8");
    reveal_strlit("int8-fp32");
    match p {
        Precision::Fp32 => {
        },
        Precision::Int8 => {
            assert(lowered("int8"@)[0] == 105);
            assert(lowered("fp32"@)[0] == 102);
        },
        Precision::Int8Fp32 => {
            assert(lowered("int8-fp32"@).len() == 9);
            assert(lowered("fp32"@).len() == 4);
            assert(lowered("int8"@).len() == 4);
        },
    }
}

/// The canonical token of every language parses back to that language:
/// `as_str` and `from_str` are inverse on canonical tokens.
pub proof fn lemma_language_token_round_trip(l: Language)
    ensures
        spec_parse_language(spec_language_token(l)) == Some(l),
{
    reveal_strlit("ja");
    reveal_strlit("ja-en");
    reveal_strlit("ja-en-mls-5k");
    match l {
        Language::Ja => {
        },
        Language::JaEn => {
            assert(lowered("ja-en"@).len() == 5);
            assert(lowered("ja"@).len() == 2);
        },
        Language::JaEnMls5k => {
            assert(lowered("ja-en-mls-5k"@).len() == 12);
            assert(lowered("ja"@).len() == 2);
            assert(lowered("ja-en"@).len() == 5);
        },
    }
}

} // verus!
