//! Turning a comma-separated list of language names into a selection.
use crate::api_types::{parse_spec, SupportedLanguages};
use crate::text::{chars_of, lemma_split_on_nonempty, split_on, trim, trim_bounds};
use vstd::prelude::*;

verus! {

broadcast use vstd::string::group_string_axioms;

/// The outcome of parsing a language selection.
#[derive(Debug)]
pub enum LanguageSelection {
    /// Nothing was given: the languages are detected from the workspace.
    Unspecified,
    /// The languages asked for, in the order given, duplicates kept.
    Explicit(Vec<SupportedLanguages>),
    /// The tokens (trimmed) that name no language, in the order given.
    Invalid(Vec<String>),
}

/// The mathematical value of a `LanguageSelection`.
pub enum SelectionModel {
    Unspecified,
    Explicit(Seq<SupportedLanguages>),
    Invalid(Seq<Seq<char>>),
}

pub open spec fn texts_of(v: Seq<String>) -> Seq<Seq<char>> {
    v.map_values(|s: String| s@)
}

impl View for LanguageSelection {
    type V = SelectionModel;

    open spec fn view(&self) -> SelectionModel {
        match self {
            LanguageSelection::Unspecified => SelectionModel::Unspecified,
            LanguageSelection::Explicit(v) => SelectionModel::Explicit(v@),
            LanguageSelection::Invalid(v) => SelectionModel::Invalid(texts_of(v@)),
        }
    }
}

/// The languages named by the (trimmed) pieces that parse, in order.
pub open spec fn accepted(pieces: Seq<Seq<char>>) -> Seq<SupportedLanguages>
    decreases pieces.len(),
{
    if pieces.len() == 0 {
        Seq::empty()
    } else {
        let rest = accepted(pieces.drop_last());
        match parse_spec(trim(pieces.last())) {
            Some(l) => rest.push(l),
            None => rest,
        }
    }
}

/// The trimmed pieces that do not parse, in order.
pub open spec fn rejected(pieces: Seq<Seq<char>>) -> Seq<Seq<char>>
    decreases pieces.len(),
{
    if pieces.len() == 0 {
        Seq::empty()
    } else {
        let rest = rejected(pieces.drop_last());
        match parse_spec(trim(pieces.last())) {
            Some(l) => rest,
            None => rest.push(trim(pieces.last())),
        }
    }
}

/// The selection that a raw list gives: nothing or only white space is
/// unspecified; otherwise the trimmed text is split on commas, each piece is
/// trimmed and parsed, and a single piece that does not parse makes the whole
/// selection invalid, carrying every such piece.
pub open spec fn selection_spec(raw: Option<Seq<char>>) -> SelectionModel {
    match raw {
        None => SelectionModel::Unspecified,
        Some(s) => if trim(s).len() == 0 {
            SelectionModel::Unspecified
        } else {
            let pieces = split_on(trim(s), ',');
            if rejected(pieces).len() > 0 {
                SelectionModel::Invalid(rejected(pieces))
            } else {
                SelectionModel::Explicit(accepted(pieces))
            }
        },
    }
}

pub open spec fn opt_view(o: Option<String>) -> Option<Seq<char>> {
    match o {
        Some(s) => Some(s@),
        None => None,
    }
}

/// Parses a comma-separated list of language names, such as `"python, golang"`.
pub fn parse_languages(languages_str: Option<String>) -> (r: LanguageSelection)
    ensures
        r@ == selection_spec(opt_view(languages_str)),
{
    let s = match languages_str {
        None => return LanguageSelection::Unspecified,
        Some(s) => s,
    };
    let text = s.as_str();
    let v = chars_of(text);
    let (a, b) = trim_bounds(&v, 0, v.len());
    assert(v@.subrange(0, v@.len() as int) =~= v@);
    if a == b {
        return LanguageSelection::Unspecified;
    }
    let ghost t = v@.subrange(a as int, b as int);
    let mut languages: Vec<SupportedLanguages> = Vec::new();
    let mut invalid: Vec<String> = Vec::new();
    let ghost mut done: Seq<Seq<char>> = Seq::empty();
    let mut start: usize = a;
    let mut i: usize = a;
    assert(v@.subrange(a as int, a as int) =~= Seq::<char>::empty());
    assert(split_on(Seq::<char>::empty(), ',') =~= done.push(Seq::<char>::empty()));
    while i < b
        invariant
            v@ == text@,
            a <= start <= i <= b <= v.len(),
            t == v@.subrange(a as int, b as int),
            split_on(v@.subrange(a as int, i as int), ',') == done.push(
                v@.subrange(start as int, i as int),
            ),
            languages@ == accepted(done),
            texts_of(invalid@) == rejected(done),
        decreases b - i,
    {
        let ghost prefix = v@.subrange(a as int, i as int);
        assert(v@.subrange(a as int, i + 1).drop_last() =~= prefix);
        if v[i] == ',' {
            proof {
                accept_piece(done, v@.subrange(start as int, i as int));
            }
            let (x, y) = trim_bounds(&v, start, i);
            let tok = text.substring_char(x, y);
            match SupportedLanguages::parse(tok) {
                Ok(l) => languages.push(l),
                Err(e) => {
                    let ghost before = invalid@;
                    invalid.push(e.token);
                    assert(texts_of(invalid@) =~= texts_of(before).push(invalid@.last()@));
                },
            }
            proof {
                done = done.push(v@.subrange(start as int, i as int));
            }
            start = i + 1;
            assert(v@.subrange(start as int, i + 1) =~= Seq::<char>::empty());
        } else {
            proof {
                lemma_split_on_nonempty(prefix, ',');
            }
            assert(v@.subrange(start as int, i + 1) =~= v@.subrange(start as int, i as int).push(
                v@[i as int],
            ));
            assert(split_on(v@.subrange(a as int, i + 1), ',') =~= done.push(
                v@.subrange(start as int, i + 1),
            ));
        }
        i = i + 1;
    }
    proof {
        accept_piece(done, v@.subrange(start as int, b as int));
    }
    let (x, y) = trim_bounds(&v, start, b);
    let tok = text.substring_char(x, y);
    match SupportedLanguages::parse(tok) {
        Ok(l) => languages.push(l),
        Err(e) => {
            let ghost before = invalid@;
            invalid.push(e.token);
            assert(texts_of(invalid@) =~= texts_of(before).push(invalid@.last()@));
        },
    }
    proof {
        let all = done.push(v@.subrange(start as int, b as int));
        assert(all.drop_last() =~= done);
        assert(split_on(t, ',') == all);
    }
    if invalid.len() > 0 {
        LanguageSelection::Invalid(invalid)
    } else {
        LanguageSelection::Explicit(languages)
    }
}

/// How `accepted` and `rejected` grow by one piece.
proof fn accept_piece(
    done: Seq<Seq<char>>,
    piece: Seq<char>,
)
    ensures
        done.push(piece).drop_last() == done,
        accepted(done.push(piece)) == match parse_spec(trim(piece)) {
            Some(l) => accepted(done).push(l),
            None => accepted(done),
        },
        rejected(done.push(piece)) == match parse_spec(trim(piece)) {
            Some(l) => rejected(done),
            None => rejected(done).push(trim(piece)),
        },
{
    assert(done.push(piece).drop_last() =~= done);
}

} // verus!
