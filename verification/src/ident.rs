//! Identifier normalization: turns an arbitrary input name into a
//! filesystem-safe token (lowercase, hyphens replaced by underscores) and an
//! upper-camel-case identifier usable as a namespace or file stem.
//!
//! Normalization is total on names that keep at least one word after the
//! camel-case conversion; an empty input, or one that nothing survives of,
//! is rejected with `InvalidIdentifier`. Inputs that differ only in case
//! collide after normalization; disambiguating them is the caller's task.

use vstd::prelude::*;

use crate::errors::Error;

verus! {

/// What heck's upper-camel-case conversion returns for a given sequence of
/// characters. The conversion depends on the characters alone, so its result
/// is named here rather than written out.
pub uninterp spec fn upper_camel_of(s: Seq<char>) -> Seq<char>;

/// Relies on heck's `ToUpperCamelCase` for `str`: the result is a function
/// of the input characters alone, and an empty input yields an empty result.
#[verifier::external_body]
fn upper_camel_case(s: &str) -> (r: String)
    ensures
        r@ == upper_camel_of(s@),
        s@.len() == 0 ==> r@.len() == 0,
{
    heck::ToUpperCamelCase::to_upper_camel_case(s)
}

/// Relies on `String::push`: appends exactly the one character.
#[verifier::external_body]
fn push_char(s: &mut String, c: char)
    ensures
        final(s)@ == old(s)@.push(c),
{
    s.push(c)
}

/// One character of the filesystem-safe token: a hyphen becomes an
/// underscore, an ASCII uppercase letter becomes lowercase, and every other
/// character is kept as it is.
pub open spec fn token_char(c: char) -> char {
    if c == '-' {
        '_'
    } else if 'A' <= c && c <= 'Z' {
        ((c as u32) + 32) as char
    } else {
        c
    }
}

/// The filesystem-safe token of a name: each character normalized by
/// `token_char`.
pub open spec fn token_of(s: Seq<char>) -> Seq<char> {
    s.map_values(|c: char| token_char(c))
}

fn token_char_exec(c: char) -> (r: char)
    ensures
        r == token_char(c),
{
    match c {
        '-' => '_',
        'A' => 'a',
        'B' => 'b',
        'C' => 'c',
        'D' => 'd',
        'E' => 'e',
        'F' => 'f',
        'G' => 'g',
        'H' => 'h',
        'I' => 'i',
        'J' => 'j',
        'K' => 'k',
        'L' => 'l',
        'M' => 'm',
        'N' => 'n',
        'O' => 'o',
        'P' => 'p',
        'Q' => 'q',
        'R' => 'r',
        'S' => 's',
        'T' => 't',
        'U' => 'u',
        'V' => 'v',
        'W' => 'w',
        'X' => 'x',
        'Y' => 'y',
        'Z' => 'z',
        _ => c,
    }
}

/// Builds the filesystem-safe token of a name.
fn token(s: &str) -> (r: String)
    ensures
        r@ == token_of(s@),
{
    let n = s.unicode_len();
    let mut out = String::new();
    let mut i: usize = 0;
    while i < n
        invariant
            n == s@.len(),
            i <= n,
            out@.len() == i,
            forall|j: int| 0 <= j < i ==> out@[j] == token_char(s@[j]),
        decreases n - i,
    {
        let c = s.get_char(i);
        push_char(&mut out, token_char_exec(c));
        i = i + 1;
    }
    proof {
        assert(out@ =~= token_of(s@));
    }
    out
}

/// The two normalized forms of an input name.
#[derive(Debug)]
pub struct Identifier {
    /// The filesystem-safe token: lowercase, hyphens replaced.
    pub token: String,
    /// The upper-camel-case identifier derived from the token.
    pub camel: String,
}

/// The mathematical model of an `Identifier`.
pub ghost struct IdentifierModel {
    pub token: Seq<char>,
    pub camel: Seq<char>,
}

impl View for Identifier {
    type V = IdentifierModel;

    open spec fn view(&self) -> IdentifierModel {
        IdentifierModel { token: self.token@, camel: self.camel@ }
    }
}

/// The normalized forms that `normalize` returns for a given input name.
pub open spec fn spec_normalized(s: Seq<char>) -> IdentifierModel {
    IdentifierModel { token: token_of(s), camel: upper_camel_of(token_of(s)) }
}

/// When normalization succeeds: the input is non-empty and at least one
/// character survives the camel-case conversion.
pub open spec fn normalizable(s: Seq<char>) -> bool {
    s.len() > 0 && upper_camel_of(token_of(s)).len() > 0
}

/// Normalizes an arbitrary input name. Returns `InvalidIdentifier`, naming
/// the offending input, exactly when the input is empty or nothing of it
/// survives normalization; every other input yields its two non-empty
/// normalized forms.
pub fn normalize(s: &str) -> (r: Result<Identifier, Error>)
    ensures
        r matches Ok(id) ==> id@ == spec_normalized(s@) && normalizable(s@),
        r matches Err(e) ==> !normalizable(s@) && (e matches Error::InvalidIdentifier { name }
            && name@ == s@),
        r is Ok <==> normalizable(s@),
{
    let tok = token(s);
    let camel = upper_camel_case(tok.as_str());
    if s.is_empty() || camel.as_str().is_empty() {
        Err(Error::InvalidIdentifier { name: s.to_owned() })
    } else {
        Ok(Identifier { token: tok, camel })
    }
}

/// Law: normalization is deterministic. Two normalizations of the same
/// input name yield identical results.
pub proof fn lemma_normalize_deterministic(s: Seq<char>, a: IdentifierModel, b: IdentifierModel)
    requires
        a == spec_normalized(s),
        b == spec_normalized(s),
    ensures
        a == b,
{
}

} // verus!
