//! Primitive productions (blanks, single characters, literal words, the
//! line breaks between the members of a block) and the block structure
//! that `event` and `type` share.

use vstd::prelude::*;

use super::event::{parse_field, spec_field, Field, RawField};
use super::ident::{parse_camel_ident, spec_camel_ident};
use super::{agrees_skip, error_at, lemma_views_push, views, Expected, PResult, SkipResult, Span};
use crate::text::{first_char, run_len, run_length, split_at_char, CharClass};

verus! {

/// The input after a run of spaces and tabs.
pub open spec fn spec_space0(s: Seq<char>) -> Seq<char> {
    s.skip(run_len(s, CharClass::Space) as int)
}

/// The input after a non-empty run of spaces and tabs.
pub open spec fn spec_space1(s: Seq<char>) -> Option<Seq<char>> {
    if run_len(s, CharClass::Space) > 0 {
        Some(spec_space0(s))
    } else {
        None
    }
}

/// The input after a run of blanks, line breaks included.
pub open spec fn spec_multispace0(s: Seq<char>) -> Seq<char> {
    s.skip(run_len(s, CharClass::Multispace) as int)
}

/// The input after a non-empty run of blanks, line breaks included.
pub open spec fn spec_multispace1(s: Seq<char>) -> Option<Seq<char>> {
    if run_len(s, CharClass::Multispace) > 0 {
        Some(spec_multispace0(s))
    } else {
        None
    }
}

/// The input after the character `c`, which must come first.
pub open spec fn spec_char(s: Seq<char>, c: char) -> Option<Seq<char>> {
    if s.len() > 0 && s[0] == c {
        Some(s.drop_first())
    } else {
        None
    }
}

/// The input after the word `w`, which must come first.
pub open spec fn spec_tag(s: Seq<char>, w: Seq<char>) -> Option<Seq<char>> {
    if w.len() <= s.len() && s.take(w.len() as int) == w {
        Some(s.skip(w.len() as int))
    } else {
        None
    }
}

/// The input after a line break, with blanks before it on its line and any
/// blanks and further line breaks after it.
pub open spec fn spec_multinewline1(s: Seq<char>) -> Option<Seq<char>> {
    match spec_char(spec_space0(s), '\n') {
        Some(r) => Some(spec_multispace0(r)),
        None => None,
    }
}

/// Skips spaces and tabs.
pub fn space0<'i>(input: Span<'i>) -> (rest: Span<'i>)
    ensures
        rest@ == spec_space0(input@),
        rest@.len() <= input@.len(),
{
    let n = run_length(input, CharClass::Space);
    split_at_char(input, n).1
}

/// Skips at least one space or tab.
pub fn space1<'i>(input: Span<'i>) -> (r: SkipResult<'i>)
    ensures
        agrees_skip(r, input@, spec_space1(input@)),
{
    let n = run_length(input, CharClass::Space);
    if n == 0 {
        Err(error_at(input, Expected::Space))
    } else {
        Ok(split_at_char(input, n).1)
    }
}

/// Skips blanks and line breaks.
pub fn multispace0<'i>(input: Span<'i>) -> (rest: Span<'i>)
    ensures
        rest@ == spec_multispace0(input@),
        rest@.len() <= input@.len(),
{
    let n = run_length(input, CharClass::Multispace);
    split_at_char(input, n).1
}

/// Skips at least one blank or line break.
pub fn multispace1<'i>(input: Span<'i>) -> (r: SkipResult<'i>)
    ensures
        agrees_skip(r, input@, spec_multispace1(input@)),
        r is Ok ==> r->Ok_0@.len() < input@.len(),
{
    let n = run_length(input, CharClass::Multispace);
    if n == 0 {
        Err(error_at(input, Expected::Space))
    } else {
        Ok(split_at_char(input, n).1)
    }
}

/// Consumes the character `c`.
pub fn one_char<'i>(input: Span<'i>, c: char) -> (r: SkipResult<'i>)
    ensures
        agrees_skip(r, input@, spec_char(input@, c)),
        r is Ok ==> r->Ok_0@.len() < input@.len(),
{
    match first_char(input) {
        Some(d) => {
            if d == c {
                let rest = split_at_char(input, 1).1;
                assert(rest@ =~= input@.drop_first());
                Ok(rest)
            } else {
                Err(error_at(input, Expected::Char(c)))
            }
        },
        None => Err(error_at(input, Expected::Char(c))),
    }
}

/// Consumes the word `word`.
pub fn tag<'i>(input: Span<'i>, word: &'static str) -> (r: SkipResult<'i>)
    ensures
        agrees_skip(r, input@, spec_tag(input@, word@)),
{
    let n = word.unicode_len();
    let len = input.unicode_len();
    if n > len {
        return Err(error_at(input, Expected::Tag(word)));
    }
    let mut i: usize = 0;
    while i < n
        invariant
            n == word@.len(),
            len == input@.len(),
            n <= len,
            i <= n,
            forall|j: int| 0 <= j < i ==> input@[j] == word@[j],
        decreases n - i,
    {
        if input.get_char(i) != word.get_char(i) {
            assert(input@.take(n as int)[i as int] != word@[i as int]);
            return Err(error_at(input, Expected::Tag(word)));
        }
        i = i + 1;
    }
    assert(input@.take(n as int) =~= word@);
    Ok(split_at_char(input, n).1)
}

/// Consumes a line break together with the blanks around it and any further
/// blank lines.
pub fn multinewline1<'i>(input: Span<'i>) -> (r: SkipResult<'i>)
    ensures
        agrees_skip(r, input@, spec_multinewline1(input@)),
        r is Ok ==> r->Ok_0@.len() < input@.len(),
{
    let after_space = space0(input);
    let after_newline = one_char(after_space, '\n')?;
    Ok(multispace0(after_newline))
}

/// The fields after the first one in a block: each behind a line break,
/// until a line break is not followed by a field.
pub open spec fn spec_field_list_tail(s: Seq<char>) -> (Seq<char>, Seq<RawField>)
    decreases s.len(),
{
    match spec_multinewline1(s) {
        Some(r1) => match spec_field(r1) {
            Some((r2, f)) => if r2.len() < s.len() {
                let (r3, fs) = spec_field_list_tail(r2);
                (r3, seq![f] + fs)
            } else {
                (s, seq![])
            },
            None => (s, seq![]),
        },
        None => (s, seq![]),
    }
}

/// The fields of a block, one per line; none if the first is missing.
pub open spec fn spec_field_list(s: Seq<char>) -> (Seq<char>, Seq<RawField>) {
    match spec_field(s) {
        Some((r1, f)) => {
            let (r2, fs) = spec_field_list_tail(r1);
            (r2, seq![f] + fs)
        },
        None => (s, seq![]),
    }
}

/// A block: `{`, then either only blanks and `}`, or a line break, members
/// one per line, a line break and `}`. Yields the rest and the members.
pub open spec fn spec_field_block(s: Seq<char>) -> Option<(Seq<char>, Seq<RawField>)> {
    match spec_char(s, '{') {
        Some(r1) => match spec_char(spec_multispace0(r1), '}') {
            Some(r2) => Some((r2, seq![])),
            None => match spec_multinewline1(r1) {
                Some(r3) => {
                    let (r4, fs) = spec_field_list(r3);
                    match spec_multinewline1(r4) {
                        Some(r5) => match spec_char(r5, '}') {
                            Some(r6) => Some((r6, fs)),
                            None => None,
                        },
                        None => None,
                    }
                },
                None => None,
            },
        },
        None => None,
    }
}

/// `keyword Name { fields }`: the keyword, spaces or tabs, the name, any
/// blanks, and a block of fields. Yields the rest, the name and the fields.
pub open spec fn spec_keyword_ident_structure(s: Seq<char>, keyword: Seq<char>) -> Option<
    (Seq<char>, (Seq<char>, Seq<RawField>)),
> {
    match spec_tag(s, keyword) {
        Some(r1) => match spec_space1(r1) {
            Some(r2) => match spec_camel_ident(r2) {
                Some((r3, ident)) => match spec_field_block(spec_multispace0(r3)) {
                    Some((r4, fields)) => Some((r4, (ident, fields))),
                    None => None,
                },
                None => None,
            },
            None => None,
        },
        None => None,
    }
}

/// Recognises the fields of a block, one per line.
pub fn parse_field_list<'i>(input: Span<'i>) -> (r: (Span<'i>, Vec<Field<'i>>))
    ensures
        (r.0@, views(r.1@)) == spec_field_list(input@),
        r.0@.len() <= input@.len(),
{
    let mut fields: Vec<Field<'i>> = Vec::new();
    let mut cur = match parse_field(input) {
        Ok((rest, f)) => {
            fields.push(f);
            rest
        },
        Err(_) => return (input, fields),
    };
    assert(views(fields@) =~= seq![fields@[0]@]);
    loop
        invariant
            cur@.len() <= input@.len(),
            spec_field_list(input@) == ({
                let (r, fs) = spec_field_list_tail(cur@);
                (r, views(fields@) + fs)
            }),
        decreases cur@.len(),
    {
        let r1 = match multinewline1(cur) {
            Ok(r1) => r1,
            Err(_) => {
                assert(views(fields@) + seq![] =~= views(fields@));
                return (cur, fields);
            },
        };
        match parse_field(r1) {
            Ok((r2, f)) => {
                let ghost before = fields@;
                let ghost tail = spec_field_list_tail(r2@);
                fields.push(f);
                proof {
                    lemma_views_push(before, f);
                    assert(views(before) + (seq![f@] + tail.1) =~= views(fields@) + tail.1);
                }
                cur = r2;
            },
            Err(_) => {
                assert(views(fields@) + seq![] =~= views(fields@));
                return (cur, fields);
            },
        }
    }
}

/// Recognises a block of fields.
pub fn parse_field_block<'i>(input: Span<'i>) -> (r: PResult<'i, Vec<Field<'i>>>)
    ensures
        match r {
            Ok((rest, fields)) => spec_field_block(input@) == Some((rest@, views(fields@)))
                && rest@.len() <= input@.len(),
            Err(e) => spec_field_block(input@) is None && e.rest <= input@.len(),
        },
{
    let r1 = one_char(input, '{')?;
    if let Ok(r2) = one_char(multispace0(r1), '}') {
        let none: Vec<Field<'i>> = Vec::new();
        assert(views(none@) =~= seq![]);
        return Ok((r2, none));
    }
    let r3 = multinewline1(r1)?;
    let (r4, fields) = parse_field_list(r3);
    let r5 = multinewline1(r4)?;
    let r6 = one_char(r5, '}')?;
    Ok((r6, fields))
}

/// Recognises `keyword Name { fields }`.
pub fn keyword_ident_structure<'i>(input: Span<'i>, keyword: &'static str) -> (r: PResult<
    'i,
    (Span<'i>, Vec<Field<'i>>),
>)
    ensures
        match r {
            Ok((rest, (ident, fields))) => spec_keyword_ident_structure(input@, keyword@) == Some(
                (rest@, (ident@, views(fields@))),
            ) && rest@.len() <= input@.len(),
            Err(e) => spec_keyword_ident_structure(input@, keyword@) is None && e.rest
                <= input@.len(),
        },
{
    let r1 = tag(input, keyword)?;
    let r2 = space1(r1)?;
    let (r3, ident) = parse_camel_ident(r2)?;
    let (r4, fields) = parse_field_block(multispace0(r3))?;
    Ok((r4, (ident, fields)))
}

} // verus!
