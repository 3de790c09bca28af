use vstd::prelude::*;
use vstd::string::StringExecFns;

use crate::json::str_eq;

verus! {

/// A locale tag: the codes this library knows get a variant of their
/// own; any other code is kept verbatim, so no locale is ever lost.
#[derive(Debug)]
pub enum Language {
    En,
    ZhHans,
    Other(String),
}

impl Language {
    /// The wire string of this tag: the exact text exchanged over the
    /// protocol.
    pub open spec fn wire(self) -> Seq<char> {
        match self {
            Language::En => "en"@,
            Language::ZhHans => "zh-Hans"@,
            Language::Other(s) => s@,
        }
    }

    /// A tag is well formed when a catch-all variant does not shadow a
    /// known code; every tag this library constructs is well formed.
    pub open spec fn wf(self) -> bool {
        match self {
            Language::Other(s) => s@ != "en"@ && s@ != "zh-Hans"@,
            _ => true,
        }
    }

    /// Render this tag back to its wire string.
    pub fn to_wire(&self) -> (r: String)
        ensures
            r@ == self.wire(),
    {
        match self {
            Language::En => String::from_str("en"),
            Language::ZhHans => String::from_str("zh-Hans"),
            Language::Other(s) => s.clone(),
        }
    }

    /// Construct a tag from a wire string: a known code gets its own
    /// variant, anything else is preserved verbatim.
    pub fn from_wire(s: &str) -> (r: Language)
        ensures
            r.wire() == s@,
            r.wf(),
            s@ == "en"@ ==> r == Language::En,
            s@ == "zh-Hans"@ ==> r == Language::ZhHans,
            (s@ != "en"@ && s@ != "zh-Hans"@) ==> r is Other && r->Other_0@ == s@,
    {
        proof {
            lemma_known_wire_distinct();
        }
        if str_eq(s, "en") {
            Language::En
        } else if str_eq(s, "zh-Hans") {
            Language::ZhHans
        } else {
            Language::Other(s.to_owned())
        }
    }

    /// Whether two tags stand for the same locale, that is, have the
    /// same wire string.
    pub fn wire_eq(&self, other: &Language) -> (r: bool)
        requires
            self.wf(),
            other.wf(),
        ensures
            r == (self.wire() == other.wire()),
    {
        proof {
            lemma_known_wire_distinct();
        }
        match (self, other) {
            (Language::En, Language::En) => true,
            (Language::ZhHans, Language::ZhHans) => true,
            (Language::Other(a), Language::Other(b)) => str_eq(a.as_str(), b.as_str()),
            _ => false,
        }
    }
}

impl PartialEq for Language {
    fn eq(&self, other: &Language) -> (r: bool) {
        match (self, other) {
            (Language::En, Language::En) => true,
            (Language::ZhHans, Language::ZhHans) => true,
            (Language::Other(a), Language::Other(b)) => str_eq(a.as_str(), b.as_str()),
            _ => false,
        }
    }
}

impl vstd::std_specs::cmp::PartialEqSpecImpl for Language {
    open spec fn obeys_eq_spec() -> bool {
        true
    }

    open spec fn eq_spec(&self, other: &Language) -> bool {
        match (*self, *other) {
            (Language::En, Language::En) => true,
            (Language::ZhHans, Language::ZhHans) => true,
            (Language::Other(a), Language::Other(b)) => a@ == b@,
            _ => false,
        }
    }
}

/// The known locale codes serialize to their fixed canonical wire
/// strings, and those strings differ from one another.
pub proof fn lemma_known_wire_distinct()
    ensures
        Language::En.wire() == "en"@,
        Language::ZhHans.wire() == "zh-Hans"@,
        "en"@ != "zh-Hans"@,
{
    reveal_strlit("en");
    reveal_strlit("zh-Hans");
    assert("en"@.len() == 2);
    assert("zh-Hans"@.len() == 7);
}

} // verus!
