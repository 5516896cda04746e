use crate::text::same_text;
use vstd::prelude::*;

verus! {

/// One of the backend languages that the proxy can start a server for.
#[derive(Clone, Copy, Debug, PartialEq, Eq, Hash, Structural)]
pub enum SupportedLanguages {
    Python,
    TypeScriptJavaScript,
    Rust,
    CPP,
    CSharp,
    Java,
    Golang,
    PHP,
    Ruby,
    RubySorbet,
}

/// A token that names no supported language.
#[derive(Debug)]
pub struct UnknownLanguage {
    pub token: String,
}

/// The canonical lowercase text of each language.
pub open spec fn canonical_text(l: SupportedLanguages) -> Seq<char> {
    match l {
        SupportedLanguages::Python => seq!['p', 'y', 't', 'h', 'o', 'n'],
        SupportedLanguages::TypeScriptJavaScript => seq![
            't', 'y', 'p', 'e', 's', 'c', 'r', 'i', 'p', 't', '_',
            'j', 'a', 'v', 'a', 's', 'c', 'r', 'i', 'p', 't',
        ],
        SupportedLanguages::Rust => seq!['r', 'u', 's', 't'],
        SupportedLanguages::CPP => seq!['c', 'p', 'p'],
        SupportedLanguages::CSharp => seq!['c', 's', 'h', 'a', 'r', 'p'],
        SupportedLanguages::Java => seq!['j', 'a', 'v', 'a'],
        SupportedLanguages::Golang => seq!['g', 'o', 'l', 'a', 'n', 'g'],
        SupportedLanguages::PHP => seq!['p', 'h', 'p'],
        SupportedLanguages::Ruby => seq!['r', 'u', 'b', 'y'],
        SupportedLanguages::RubySorbet => seq!['r', 'u', 'b', 'y', '_', 's', 'o', 'r', 'b', 'e', 't'],
    }
}

/// Every language, in the documented order in which the valid forms are listed.
pub open spec fn all_languages_spec() -> Seq<SupportedLanguages> {
    seq![
        SupportedLanguages::Python,
        SupportedLanguages::TypeScriptJavaScript,
        SupportedLanguages::Rust,
        SupportedLanguages::CPP,
        SupportedLanguages::CSharp,
        SupportedLanguages::Java,
        SupportedLanguages::Golang,
        SupportedLanguages::PHP,
        SupportedLanguages::Ruby,
        SupportedLanguages::RubySorbet,
    ]
}

/// The language whose canonical text is exactly `s` (case-sensitive, no trimming).
pub open spec fn parse_spec(s: Seq<char>) -> Option<SupportedLanguages> {
    if exists|l: SupportedLanguages| canonical_text(l) == s {
        Some(choose|l: SupportedLanguages| canonical_text(l) == s)
    } else {
        None
    }
}

/// Distinct languages have distinct canonical texts.
pub proof fn lemma_canonical_text_injective(a: SupportedLanguages, b: SupportedLanguages)
    ensures
        canonical_text(a) == canonical_text(b) ==> a == b,
{
    if canonical_text(a) == canonical_text(b) {
        assert(canonical_text(a).len() == canonical_text(b).len());
        assert(canonical_text(a)[0] == canonical_text(b)[0]);
        assert(canonical_text(a)[1] == canonical_text(b)[1]);
        assert(canonical_text(a)[3] == canonical_text(b)[3]);
    }
}

/// Parsing the canonical text of a language gives that language back.
pub proof fn lemma_parse_canonical_round_trip(l: SupportedLanguages)
    ensures
        parse_spec(canonical_text(l)) == Some(l),
{
    assert(canonical_text(l) == canonical_text(l));
    let c = choose|m: SupportedLanguages| canonical_text(m) == canonical_text(l);
    lemma_canonical_text_injective(c, l);
}


impl SupportedLanguages {
    /// The canonical text of this language.
    pub fn as_str(&self) -> (r: &'static str)
        ensures
            r@ == canonical_text(*self),
    {
        match self {
            SupportedLanguages::Python => {
                proof { reveal_strlit("python"); }
                "python"
            },
            SupportedLanguages::TypeScriptJavaScript => {
                proof { reveal_strlit("typescript_javascript"); }
                "typescript_javascript"
            },
            SupportedLanguages::Rust => {
                proof { reveal_strlit("rust"); }
                "rust"
            },
            SupportedLanguages::CPP => {
                proof { reveal_strlit("cpp"); }
                "cpp"
            },
            SupportedLanguages::CSharp => {
                proof { reveal_strlit("csharp"); }
                "csharp"
            },
            SupportedLanguages::Java => {
                proof { reveal_strlit("java"); }
                "java"
            },
            SupportedLanguages::Golang => {
                proof { reveal_strlit("golang"); }
                "golang"
            },
            SupportedLanguages::PHP => {
                proof { reveal_strlit("php"); }
                "php"
            },
            SupportedLanguages::Ruby => {
                proof { reveal_strlit("ruby"); }
                "ruby"
            },
            SupportedLanguages::RubySorbet => {
                proof { reveal_strlit("ruby_sorbet"); }
                "ruby_sorbet"
            },
        }
    }

    /// Every language, in the documented order.
    pub fn all() -> (r: Vec<SupportedLanguages>)
        ensures
            r@ == all_languages_spec(),
    {
        let r = vec![
            SupportedLanguages::Python,
            SupportedLanguages::TypeScriptJavaScript,
            SupportedLanguages::Rust,
            SupportedLanguages::CPP,
            SupportedLanguages::CSharp,
            SupportedLanguages::Java,
            SupportedLanguages::Golang,
            SupportedLanguages::PHP,
            SupportedLanguages::Ruby,
            SupportedLanguages::RubySorbet,
        ];
        assert(r@ =~= all_languages_spec());
        r
    }

    /// The canonical texts of all languages, in the order of `all`.
    pub fn valid_forms() -> (r: Vec<&'static str>)
        ensures
            r@.len() == all_languages_spec().len(),
            forall|i: int|
                0 <= i < r@.len() ==> #[trigger] r@[i]@ == canonical_text(all_languages_spec()[i]),
    {
        let langs = SupportedLanguages::all();
        let mut r: Vec<&'static str> = Vec::new();
        for i in 0..langs.len()
            invariant
                langs@ == all_languages_spec(),
                r@.len() == i,
                forall|j: int|
                    0 <= j < i ==> #[trigger] r@[j]@ == canonical_text(all_languages_spec()[j]),
        {
            r.push(langs[i].as_str());
        }
        r
    }

    /// The language whose canonical text is exactly `s`: the match is
    /// case-sensitive and `s` is not trimmed.
    pub fn parse(s: &str) -> (r: Result<SupportedLanguages, UnknownLanguage>)
        ensures
            match r {
                Ok(l) => parse_spec(s@) == Some(l),
                Err(e) => parse_spec(s@) is None && e.token@ == s@,
            },
    {
        let langs = SupportedLanguages::all();
        for i in 0..langs.len()
            invariant
                langs@ == all_languages_spec(),
                forall|j: int| 0 <= j < i ==> canonical_text(#[trigger] langs@[j]) != s@,
        {
            let l = langs[i];
            if same_text(l.as_str(), s) {
                proof { lemma_parse_canonical_round_trip(l); }
                return Ok(l);
            }
        }
        proof {
            if exists|l: SupportedLanguages| canonical_text(l) == s@ {
                let l = choose|l: SupportedLanguages| canonical_text(l) == s@;
                lemma_every_language_listed(l);
                let j = choose|j: int| 0 <= j < 10 && all_languages_spec()[j] == l;
                assert(canonical_text(langs@[j]) != s@);
            }
        }
        Err(UnknownLanguage { token: s.to_string() })
    }
}

/// Every language occurs in `all_languages_spec`.
pub proof fn lemma_every_language_listed(l: SupportedLanguages)
    ensures
        all_languages_spec().len() == 10,
        exists|j: int| 0 <= j < 10 && all_languages_spec()[j] == l,
{
    let a = all_languages_spec();
    match l {
        SupportedLanguages::Python => assert(a[0] == l),
        SupportedLanguages::TypeScriptJavaScript => assert(a[1] == l),
        SupportedLanguages::Rust => assert(a[2] == l),
        SupportedLanguages::CPP => assert(a[3] == l),
        SupportedLanguages::CSharp => assert(a[4] == l),
        SupportedLanguages::Java => assert(a[5] == l),
        SupportedLanguages::Golang => assert(a[6] == l),
        SupportedLanguages::PHP => assert(a[7] == l),
        SupportedLanguages::Ruby => assert(a[8] == l),
        SupportedLanguages::RubySorbet => assert(a[9] == l),
    }
}

impl std::str::FromStr for SupportedLanguages {
    type Err = UnknownLanguage;

    fn from_str(s: &str) -> Result<SupportedLanguages, UnknownLanguage> {
        SupportedLanguages::parse(s)
    }
}

} // verus!
