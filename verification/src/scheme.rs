//! URL scheme names, such as `https` or the short aliases `gh` and `gl`.

use vstd::prelude::*;

verus! {

/// Whether `c` is an ASCII letter.
pub open spec fn is_ascii_alpha(c: char) -> bool {
    ('a' <= c && c <= 'z') || ('A' <= c && c <= 'Z')
}

/// Whether `c` is an ASCII decimal digit.
pub open spec fn is_ascii_digit(c: char) -> bool {
    '0' <= c && c <= '9'
}

/// Whether `c` may follow the first character of a scheme: a letter, a digit, `+`, `.` or `-`.
pub open spec fn is_scheme_tail_char(c: char) -> bool {
    is_ascii_alpha(c) || is_ascii_digit(c) || c == '+' || c == '.' || c == '-'
}

/// A valid scheme is an ASCII letter followed by at least one letter, digit, `+`, `.` or `-`.
pub open spec fn is_valid_scheme(s: Seq<char>) -> bool {
    &&& s.len() >= 2
    &&& is_ascii_alpha(s[0])
    &&& forall|i: int| 1 <= i < s.len() ==> #[trigger] is_scheme_tail_char(s[i])
}

/// The regular expression that accepts exactly the valid schemes.
pub open spec fn scheme_pattern() -> Seq<char> {
    "^[a-zA-Z][a-zA-Z0-9+.-]+$"@
}

/// What the `regex` crate answers for a pattern and a haystack: `None` where the pattern
/// does not compile, else whether the haystack matches.
pub uninterp spec fn regex_match_result(pattern: Seq<char>, haystack: Seq<char>) -> Option<bool>;

/// Compiles `pattern` with `regex::Regex::new` and runs `regex::Regex::is_match` on `haystack`.
///
/// Trusted: the result is the named `regex_match_result` of the two strings, and for the scheme
/// pattern it is `Some` of whether the haystack is a valid scheme. The latter follows the
/// crate's documented syntax: `^` and `$` anchor at the start and end of the haystack, and
/// the bracket classes are the ASCII ranges written in them.
#[verifier::external_body]
fn regex_is_match(pattern: &str, haystack: &str) -> (res: Option<bool>)
    ensures
        res == regex_match_result(pattern@, haystack@),
        pattern@ == scheme_pattern() ==> res == Some(is_valid_scheme(haystack@)),
{
    regex::Regex::new(pattern).ok().map(|re| re.is_match(haystack))
}

/// A URL scheme name (without the trailing `:`).
#[derive(Debug)]
pub struct Scheme(String);

impl View for Scheme {
    type V = Seq<char>;

    closed spec fn view(&self) -> Seq<char> {
        self.0@
    }
}

/// The reason a string was refused as a scheme.
#[derive(Debug)]
pub enum SchemeParseError {
    /// The string is not a valid scheme.
    InvalidScheme { scheme: String },
}

impl SchemeParseError {
    /// The message shown to the user.
    pub fn message(&self) -> (res: String)
        ensures
            res@ == match self {
                SchemeParseError::InvalidScheme { scheme } => "invalid URL scheme `"@ + scheme@
                    + "`"@,
            },
    {
        match self {
            SchemeParseError::InvalidScheme { scheme } => {
                let mut res = String::from_str("invalid URL scheme `");
                res.append(scheme.as_str());
                res.append("`");
                res
            },
        }
    }
}

impl Scheme {
    /// A scheme always holds a valid scheme name.
    #[verifier::type_invariant]
    spec fn inv(self) -> bool {
        is_valid_scheme(self.0@)
    }

    /// Makes a scheme of a name already known to be valid.
    pub(crate) fn from_valid(s: String) -> (res: Scheme)
        requires
            is_valid_scheme(s@),
        ensures
            res@ == s@,
    {
        Scheme(s)
    }

    /// Whether the scheme's name is `s`.
    pub fn eq_string(&self, s: &String) -> (res: bool)
        ensures
            res == (self@ == s@),
    {
        self.0 == *s
    }
}

impl Clone for Scheme {
    fn clone(&self) -> (res: Self)
        ensures
            res@ == self@,
    {
        proof {
            use_type_invariant(self);
        }
        Scheme(self.0.clone())
    }
}

impl Scheme {
    /// Parses a scheme; it must be an ASCII letter followed by at least one ASCII letter,
    /// digit, `+`, `.` or `-`.
    pub fn from_str(s: &str) -> (res: Result<Scheme, SchemeParseError>)
        ensures
            match res {
                Ok(scheme) => is_valid_scheme(s@) && scheme@ == s@,
                Err(SchemeParseError::InvalidScheme { scheme }) => !is_valid_scheme(s@)
                    && scheme@ == s@,
            },
    {
        match regex_is_match("^[a-zA-Z][a-zA-Z0-9+.-]+$", s) {
            Some(true) => Ok(Scheme::from_valid(s.to_owned())),
            _ => Err(SchemeParseError::InvalidScheme { scheme: s.to_owned() }),
        }
    }

    /// Parses an owned string as a scheme, as `from_str` does.
    pub fn try_from_string(s: String) -> (res: Result<Scheme, SchemeParseError>)
        ensures
            match res {
                Ok(scheme) => is_valid_scheme(s@) && scheme@ == s@,
                Err(SchemeParseError::InvalidScheme { scheme }) => !is_valid_scheme(s@)
                    && scheme@ == s@,
            },
    {
        Self::from_str(s.as_str())
    }

    /// The scheme's name.
    pub fn as_str(&self) -> (res: &str)
        ensures
            res@ == self@,
            is_valid_scheme(res@),
    {
        proof {
            use_type_invariant(self);
        }
        self.0.as_str()
    }
}

} // verus!
