//! The criteria by which results of equal score are ranked, and the text form in which the
//! settings list them.
//!
//! The text is a list of tokens separated by commas. Space around a token does not count, nor
//! does the case of its letters. A token that names no criterion is passed over in silence:
//! a list of such tokens alone gives no criterion at all, not the default list.

use vstd::prelude::*;
use vstd::std_specs::iter::IteratorSpec;
use crate::schema::MatcherConfig;
use crate::text::chars_of;

verus! {

/// One way to rank results. A criterion ranks the larger value first; its negative ranks
/// the smaller value first.
#[derive(Debug, Clone, Copy, PartialEq, Eq)]
pub enum RankCriterion {
    /// The score of the match.
    Score,
    /// The score of the match, the smaller first.
    NegativeScore,
    /// The position of the first matched character.
    Begin,
    /// The position of the first matched character, the smaller first.
    NegativeBegin,
    /// The position of the last matched character.
    End,
    /// The position of the last matched character, the smaller first.
    NegativeEnd,
    /// The length of the text.
    Length,
    /// The length of the text, the smaller first.
    NegativeLength,
}

/// Whether `c` is white space as Unicode defines it (the property `White_Space`).
pub open spec fn is_space(c: char) -> bool {
    ||| '\u{9}' <= c <= '\u{d}'
    ||| c == ' '
    ||| c == '\u{85}'
    ||| c == '\u{a0}'
    ||| c == '\u{1680}'
    ||| '\u{2000}' <= c <= '\u{200a}'
    ||| c == '\u{2028}'
    ||| c == '\u{2029}'
    ||| c == '\u{202f}'
    ||| c == '\u{205f}'
    ||| c == '\u{3000}'
}

/// The small letter of a capital letter of the alphabet of 26; any other character as it is.
pub open spec fn lowered(c: char) -> char {
    if 'A' <= c <= 'Z' {
        ((c as u8) + 32) as char
    } else {
        c
    }
}

/// `text` in small letters.
pub open spec fn lowercase(text: Seq<char>) -> Seq<char> {
    Seq::new(text.len(), |i: int| lowered(text[i]))
}

/// The criterion that `token` names.
pub open spec fn criterion_of(token: Seq<char>) -> Option<RankCriterion> {
    let name = lowercase(token);
    if name == "score"@ {
        Some(RankCriterion::Score)
    } else if name == "-score"@ {
        Some(RankCriterion::NegativeScore)
    } else if name == "begin"@ {
        Some(RankCriterion::Begin)
    } else if name == "-begin"@ {
        Some(RankCriterion::NegativeBegin)
    } else if name == "end"@ {
        Some(RankCriterion::End)
    } else if name == "-end"@ {
        Some(RankCriterion::NegativeEnd)
    } else if name == "length"@ {
        Some(RankCriterion::Length)
    } else if name == "-length"@ {
        Some(RankCriterion::NegativeLength)
    } else {
        None
    }
}

/// `text` without the white space at its start.
pub open spec fn trim_start(text: Seq<char>) -> Seq<char>
    decreases text.len(),
{
    if text.len() > 0 && is_space(text[0]) {
        trim_start(text.drop_first())
    } else {
        text
    }
}

/// `text` without the white space at its end.
pub open spec fn trim_end(text: Seq<char>) -> Seq<char>
    decreases text.len(),
{
    if text.len() > 0 && is_space(text.last()) {
        trim_end(text.drop_last())
    } else {
        text
    }
}

/// `text` without the white space at its start and at its end.
pub open spec fn trimmed(text: Seq<char>) -> Seq<char> {
    trim_end(trim_start(text))
}

/// The position of the first comma of `text`, or the length of `text` where it has none.
pub open spec fn first_comma(text: Seq<char>) -> int
    decreases text.len(),
{
    if text.len() == 0 || text[0] == ',' {
        0
    } else {
        1 + first_comma(text.drop_first())
    }
}

/// The pieces of `text` between its commas; a text without comma is one piece.
pub open spec fn pieces(text: Seq<char>) -> Seq<Seq<char>>
    decreases text.len(),
{
    let comma = first_comma(text);
    if 0 <= comma < text.len() {
        seq![text.take(comma)] + pieces(text.skip(comma + 1))
    } else {
        seq![text]
    }
}

/// The criteria that the tokens name, in the order of the tokens; a token that names none
/// gives none.
pub open spec fn named(tokens: Seq<Seq<char>>) -> Seq<RankCriterion>
    decreases tokens.len(),
{
    if tokens.len() == 0 {
        Seq::empty()
    } else {
        match criterion_of(trimmed(tokens[0])) {
            Some(criterion) => seq![criterion] + named(tokens.drop_first()),
            None => named(tokens.drop_first()),
        }
    }
}

/// The criteria that a tiebreak text lists.
pub open spec fn criteria_of(tiebreak: Seq<char>) -> Seq<RankCriterion> {
    named(pieces(tiebreak))
}

/// Whether `c` is white space as Unicode defines it.
pub fn char_is_space(c: char) -> (space: bool)
    ensures
        space == is_space(c),
{
    (c >= '\u{9}' && c <= '\u{d}') || c == ' ' || c == '\u{85}' || c == '\u{a0}' || c
        == '\u{1680}' || (c >= '\u{2000}' && c <= '\u{200a}') || c == '\u{2028}' || c
        == '\u{2029}' || c == '\u{202f}' || c == '\u{205f}' || c == '\u{3000}'
}

/// The small letter of a capital letter of the alphabet of 26; any other character as it is.
pub fn to_lower(c: char) -> (small: char)
    ensures
        small == lowered(c),
{
    if c >= 'A' && c <= 'Z' {
        ((c as u8) + 32) as char
    } else {
        c
    }
}

/// Whether the characters of `chars` from `from` up to `to`, in small letters, spell `word`.
fn spells(chars: &Vec<char>, from: usize, to: usize, word: &str) -> (same: bool)
    requires
        from <= to <= chars@.len(),
    ensures
        same == (lowercase(chars@.subrange(from as int, to as int)) == word@),
{
    let ghost token = chars@.subrange(from as int, to as int);
    let mut rest = word.chars();
    let mut i: usize = from;
    loop
        invariant
            from <= i <= to <= chars@.len(),
            token == chars@.subrange(from as int, to as int),
            i - from <= word@.len(),
            rest.remaining() == word@.skip(i - from),
            forall|j: int| 0 <= j < i - from ==> lowered(#[trigger] token[j]) == word@[j],
        decreases to - i,
    {
        match rest.next() {
            None => {
                proof {
                    if i == to {
                        assert(lowercase(token) =~= word@);
                    }
                }
                return i == to;
            },
            Some(letter) => {
                if i >= to {
                    return false;
                }
                if to_lower(chars[i]) != letter {
                    return false;
                }
                i += 1;
            },
        }
    }
}

/// The criterion that the characters of `chars` from `from` up to `to` name.
fn criterion_in(chars: &Vec<char>, from: usize, to: usize) -> (found: Option<RankCriterion>)
    requires
        from <= to <= chars@.len(),
    ensures
        found == criterion_of(chars@.subrange(from as int, to as int)),
{
    if spells(chars, from, to, "score") {
        Some(RankCriterion::Score)
    } else if spells(chars, from, to, "-score") {
        Some(RankCriterion::NegativeScore)
    } else if spells(chars, from, to, "begin") {
        Some(RankCriterion::Begin)
    } else if spells(chars, from, to, "-begin") {
        Some(RankCriterion::NegativeBegin)
    } else if spells(chars, from, to, "end") {
        Some(RankCriterion::End)
    } else if spells(chars, from, to, "-end") {
        Some(RankCriterion::NegativeEnd)
    } else if spells(chars, from, to, "length") {
        Some(RankCriterion::Length)
    } else if spells(chars, from, to, "-length") {
        Some(RankCriterion::NegativeLength)
    } else {
        None
    }
}

/// The criterion that a token names, whatever the case of its letters:
/// `score`, `begin`, `end` or `length`, or one of them after a `-`.
pub fn parse_criteria(text: &str) -> (found: Option<RankCriterion>)
    ensures
        found == criterion_of(text@),
{
    let chars = chars_of(text);
    assert(chars@.subrange(0, chars@.len() as int) =~= text@);
    criterion_in(&chars, 0, chars.len())
}

/// The criterion that the piece of `chars` from `from` up to `to` names, space around it
/// not counted.
fn criterion_of_piece(chars: &Vec<char>, from: usize, to: usize) -> (found: Option<RankCriterion>)
    requires
        from <= to <= chars@.len(),
    ensures
        found == criterion_of(trimmed(chars@.subrange(from as int, to as int))),
{
    let ghost piece = chars@.subrange(from as int, to as int);
    let mut start: usize = from;
    assert(piece.skip(0) =~= piece);
    while start < to && char_is_space(chars[start])
        invariant
            from <= start <= to <= chars@.len(),
            piece == chars@.subrange(from as int, to as int),
            trim_start(piece) == trim_start(piece.skip(start - from)),
        decreases to - start,
    {
        proof {
            assert(piece.skip(start - from).drop_first() =~= piece.skip(start + 1 - from));
        }
        start += 1;
    }
    let ghost tail = piece.skip(start - from);
    proof {
        assert(tail.take(tail.len() as int) =~= tail);
    }
    let mut end: usize = to;
    while end > start && char_is_space(chars[end - 1])
        invariant
            from <= start <= end <= to <= chars@.len(),
            piece == chars@.subrange(from as int, to as int),
            tail == piece.skip(start - from),
            trim_end(tail) == trim_end(tail.take(end - start)),
        decreases end - start,
    {
        proof {
            assert(tail.take(end - start).drop_last() =~= tail.take(end - 1 - start));
        }
        end -= 1;
    }
    proof {
        assert(tail.take(end - start) =~= chars@.subrange(start as int, end as int));
    }
    criterion_in(chars, start, end)
}

/// Where no character before `at` is a comma, and `at` is the end of `text` or a comma,
/// `at` is the position of the first comma.
proof fn lemma_first_comma(text: Seq<char>, at: int)
    requires
        0 <= at <= text.len(),
        forall|j: int| 0 <= j < at ==> text[j] != ',',
        at < text.len() ==> text[at] == ',',
    ensures
        first_comma(text) == at,
    decreases text.len(),
{
    if at > 0 {
        lemma_first_comma(text.drop_first(), at - 1);
    }
}

impl MatcherConfig {
    /// The criteria that `tiebreak` lists, in its order. A token that names no criterion is
    /// passed over.
    pub fn rank_criteria(&self) -> (criteria: Vec<RankCriterion>)
        ensures
            criteria@ == criteria_of(self.tiebreak@),
    {
        let chars = chars_of(self.tiebreak.as_str());
        let ghost text = chars@;
        let mut criteria: Vec<RankCriterion> = Vec::new();
        let mut from: usize = 0;
        let mut at: usize = 0;
        assert(text.skip(0) =~= text);
        while at < chars.len()
            invariant
                from <= at <= chars@.len(),
                text == chars@,
                text == self.tiebreak@,
                forall|j: int| from <= j < at ==> text[j] != ',',
                criteria_of(text) == criteria@ + named(pieces(text.skip(from as int))),
            decreases chars@.len() - at,
        {
            if chars[at] == ',' {
                let found = criterion_of_piece(&chars, from, at);
                proof {
                    let rest = text.skip(from as int);
                    lemma_first_comma(rest, at - from);
                    assert(rest.take(at - from) =~= text.subrange(from as int, at as int));
                    assert(rest.skip(at - from + 1) =~= text.skip(at + 1));
                    let split = seq![rest.take(at - from)] + pieces(text.skip(at + 1));
                    assert(split.drop_first() =~= pieces(text.skip(at + 1)));
                }
                match found {
                    Some(criterion) => {
                        criteria.push(criterion);
                    },
                    None => {},
                }
                from = at + 1;
            }
            at += 1;
        }
        let found = criterion_of_piece(&chars, from, at);
        proof {
            let rest = text.skip(from as int);
            lemma_first_comma(rest, rest.len() as int);
            assert(seq![rest].drop_first() =~= Seq::<Seq<char>>::empty());
            assert(named(Seq::<Seq<char>>::empty()) =~= Seq::<RankCriterion>::empty());
        }
        match found {
            Some(criterion) => {
                criteria.push(criterion);
            },
            None => {},
        }
        criteria
    }
}

} // verus!
