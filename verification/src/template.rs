//! The templates that the library renders: text with named variables.
//!
//! A template is plain text in which `{{ name }}` stands for the value of the
//! variable `name`, and in which what stands between `{% raw %}` and
//! `{% endraw %}` is taken as it is, so that a file can hold the braces
//! themselves. Nothing else of the engine's syntax is taken: a text that opens
//! another tag or a comment, or a block that holds more than one name, is not
//! a template of the library.

use crate::resolver::views;
use crate::text::{
    chars_of, has_prefix, lemma_occurs_in_the_beginning, lemma_occurs_in_the_end, matches_at,
    occurs_at, occurs_in, same_chars, slice_of,
};
use vstd::prelude::*;

verus! {

/// A character that may stand between the braces and the name of a block.
pub open spec fn is_blank(c: char) -> bool {
    c == ' ' || c == '\t' || c == '\r' || c == '\n'
}

/// A character that a name may begin with.
pub open spec fn is_name_start(c: char) -> bool {
    ('a' <= c && c <= 'z') || ('A' <= c && c <= 'Z') || c == '_'
}

/// A character that a name may go on with.
pub open spec fn is_name_char(c: char) -> bool {
    is_name_start(c) || ('0' <= c && c <= '9')
}

/// Where the blanks that begin at index `i` end.
pub open spec fn blanks_end(text: Seq<char>, i: int) -> int
    decreases text.len() - i,
{
    if 0 <= i < text.len() && is_blank(text[i]) {
        blanks_end(text, i + 1)
    } else {
        i
    }
}

/// Where the name characters that begin at index `i` end.
pub open spec fn name_end(text: Seq<char>, i: int) -> int
    decreases text.len() - i,
{
    if 0 <= i < text.len() && is_name_char(text[i]) {
        name_end(text, i + 1)
    } else {
        i
    }
}

/// A name that the engine does not read as the name of one variable: a name
/// that begins with a truth value, and the name by which the engine prints
/// its whole context.
pub open spec fn is_reserved(name: Seq<char>) -> bool {
    ||| "true"@.is_prefix_of(name)
    ||| "false"@.is_prefix_of(name)
    ||| "True"@.is_prefix_of(name)
    ||| "False"@.is_prefix_of(name)
    ||| name == "__tera_context"@
}

/// The engine's syntax opens at index `i`: a brace followed by a brace, a
/// percent sign or a hash.
pub open spec fn opens_syntax(text: Seq<char>, i: int) -> bool {
    &&& 0 <= i
    &&& i + 1 < text.len()
    &&& text[i] == '{'
    &&& (text[i + 1] == '{' || text[i + 1] == '%' || text[i + 1] == '#')
}

/// The variable block that begins at index `i`, if one does: two opening
/// braces, blanks, a name that is not reserved, blanks, two closing braces.
/// A name is a letter or an underscore and then letters, digits and
/// underscores, as many as follow.
/// The block is given by its name and by the index just after it.
pub open spec fn block_at(text: Seq<char>, i: int) -> Option<(Seq<char>, int)> {
    let start = blanks_end(text, i + 2);
    let stop = name_end(text, start);
    let close = blanks_end(text, stop);
    if 0 <= i && i + 1 < text.len() && text[i] == '{' && text[i + 1] == '{' && start < stop
        && is_name_start(text[start]) && !is_reserved(text.subrange(start, stop)) && close + 1
        < text.len() && text[close] == '}' && text[close + 1] == '}' {
        Some((text.subrange(start, stop), close + 2))
    } else {
        None
    }
}

/// The word of the tag that opens a raw block.
pub open spec fn raw_word() -> Seq<char> {
    "raw"@
}

/// The word of the tag that closes a raw block.
pub open spec fn end_raw_word() -> Seq<char> {
    "endraw"@
}

/// The tag with the word `word` that begins at index `i`, if one does: a
/// brace and a percent sign, blanks, the word, blanks, a percent sign and a
/// brace. The tag is given by the index just after it.
pub open spec fn tag_at(text: Seq<char>, i: int, word: Seq<char>) -> Option<int> {
    let start = blanks_end(text, i + 2);
    let close = blanks_end(text, start + word.len());
    if 0 <= i && i + 1 < text.len() && text[i] == '{' && text[i + 1] == '%' && occurs_at(
        text,
        word,
        start,
    ) && close + 1 < text.len() && text[close] == '%' && text[close + 1] == '}' {
        Some(close + 2)
    } else {
        None
    }
}

/// Where the first tag at or after index `i` opens, and the end of the text
/// where none does.
pub open spec fn tag_opening(text: Seq<char>, i: int) -> int
    decreases text.len() - i,
{
    if i < 0 || i >= text.len() {
        text.len() as int
    } else if i + 1 < text.len() && text[i] == '{' && text[i + 1] == '%' {
        i
    } else {
        tag_opening(text, i + 1)
    }
}

/// The raw block that begins at index `i`, if one does: the tag `raw`, a body
/// that opens no tag, and the tag `endraw`. The block is given by the indices
/// at which its body begins and ends, and by the index just after it.
pub open spec fn raw_at(text: Seq<char>, i: int) -> Option<(int, int, int)> {
    match tag_at(text, i, raw_word()) {
        Some(body) => {
            let stop = tag_opening(text, body);
            match tag_at(text, stop, end_raw_word()) {
                Some(end) => Some((body, stop, end)),
                None => None,
            }
        },
        None => None,
    }
}

/// From index `i` on, `text` is text, variable blocks and raw blocks only.
pub open spec fn plain_from(text: Seq<char>, i: int) -> bool
    decreases text.len() - i,
{
    if i < 0 || i >= text.len() {
        true
    } else if opens_syntax(text, i) {
        match block_at(text, i) {
            Some((name, end)) => i < end && plain_from(text, end),
            None => match raw_at(text, i) {
                Some((body, stop, end)) => i < end && plain_from(text, end),
                None => false,
            },
        }
    } else {
        plain_from(text, i + 1)
    }
}

/// The names of the variable blocks of `text` from index `i` on, in order.
/// What stands in a raw block names nothing.
pub open spec fn names_from(text: Seq<char>, i: int) -> Seq<Seq<char>>
    decreases text.len() - i,
{
    if i < 0 || i >= text.len() {
        Seq::empty()
    } else {
        match block_at(text, i) {
            Some((name, end)) => if i < end {
                seq![name] + names_from(text, end)
            } else {
                Seq::empty()
            },
            None => match raw_at(text, i) {
                Some((body, stop, end)) => if i < end {
                    names_from(text, end)
                } else {
                    Seq::empty()
                },
                None => names_from(text, i + 1),
            },
        }
    }
}

/// `text` from index `i` on, with each variable block replaced by the value
/// that `variables` has for its name, and each raw block by its body.
pub open spec fn substituted_from(
    text: Seq<char>,
    i: int,
    variables: Map<Seq<char>, Seq<char>>,
) -> Seq<char>
    decreases text.len() - i,
{
    if i < 0 || i >= text.len() {
        Seq::empty()
    } else {
        match block_at(text, i) {
            Some((name, end)) => if i < end {
                variables[name] + substituted_from(text, end, variables)
            } else {
                Seq::empty()
            },
            None => match raw_at(text, i) {
                Some((body, stop, end)) => if i < end {
                    text.subrange(body, stop) + substituted_from(text, end, variables)
                } else {
                    Seq::empty()
                },
                None => seq![text[i]] + substituted_from(text, i + 1, variables),
            },
        }
    }
}

/// `text` is a template of the library: text, variable blocks and raw blocks
/// only.
pub open spec fn is_plain_template(text: Seq<char>) -> bool {
    plain_from(text, 0)
}

/// The names of the variables that `text` refers to, in the order of their
/// blocks.
pub open spec fn names_of(text: Seq<char>) -> Seq<Seq<char>> {
    names_from(text, 0)
}

/// The variables that `text` refers to.
pub open spec fn variables_of(text: Seq<char>) -> Set<Seq<char>> {
    names_of(text).to_set()
}

/// `text` with each variable block replaced by the value of its variable, and
/// each raw block by its body.
pub open spec fn substituted(text: Seq<char>, variables: Map<Seq<char>, Seq<char>>) -> Seq<char> {
    substituted_from(text, 0, variables)
}

/// The value of every variable that a text refers to occurs in the text as it
/// is substituted.
pub proof fn lemma_substituted_holds_value(
    text: Seq<char>,
    i: int,
    variables: Map<Seq<char>, Seq<char>>,
    name: Seq<char>,
)
    requires
        names_from(text, i).contains(name),
    ensures
        occurs_in(substituted_from(text, i, variables), variables[name]),
    decreases text.len() - i,
{
    if i < 0 || i >= text.len() {
        assert(names_from(text, i).len() == 0);
    } else {
        match block_at(text, i) {
            Some((first, end)) => {
                let rest = substituted_from(text, end, variables);
                if first == name {
                    lemma_occurs_in_the_beginning(variables[name], rest);
                } else {
                    let names = names_from(text, i);
                    let k = choose|k: int| 0 <= k < names.len() && names[k] == name;
                    assert(names_from(text, end)[k - 1] == name);
                    lemma_substituted_holds_value(text, end, variables, name);
                    lemma_occurs_in_the_end(variables[first], rest, variables[name]);
                }
            },
            None => match raw_at(text, i) {
                Some((body, stop, end)) => {
                    lemma_substituted_holds_value(text, end, variables, name);
                    lemma_occurs_in_the_end(
                        text.subrange(body, stop),
                        substituted_from(text, end, variables),
                        variables[name],
                    );
                },
                None => {
                    lemma_substituted_holds_value(text, i + 1, variables, name);
                    lemma_occurs_in_the_end(
                        seq![text[i]],
                        substituted_from(text, i + 1, variables),
                        variables[name],
                    );
                },
            },
        }
    }
}

/// Whether `c` may stand between the braces and the name of a block.
pub fn blank(c: char) -> (b: bool)
    ensures
        b == is_blank(c),
{
    c == ' ' || c == '\t' || c == '\r' || c == '\n'
}

/// Whether a name may begin with `c`.
pub fn name_start(c: char) -> (b: bool)
    ensures
        b == is_name_start(c),
{
    ('a' <= c && c <= 'z') || ('A' <= c && c <= 'Z') || c == '_'
}

/// Whether a name may go on with `c`.
pub fn name_char(c: char) -> (b: bool)
    ensures
        b == is_name_char(c),
{
    name_start(c) || ('0' <= c && c <= '9')
}

/// Where the blanks that begin at index `i` end.
fn skip_blanks(cs: &Vec<char>, i: usize) -> (end: usize)
    requires
        i <= cs.len(),
    ensures
        end == blanks_end(cs@, i as int),
        i <= end <= cs.len(),
{
    let mut end: usize = i;
    while end < cs.len() && blank(cs[end])
        invariant
            i <= end <= cs.len(),
            blanks_end(cs@, i as int) == blanks_end(cs@, end as int),
        decreases cs.len() - end,
    {
        end += 1;
    }
    end
}

/// Where the name characters that begin at index `i` end.
fn skip_name(cs: &Vec<char>, i: usize) -> (end: usize)
    requires
        i <= cs.len(),
    ensures
        end == name_end(cs@, i as int),
        i <= end <= cs.len(),
{
    let mut end: usize = i;
    while end < cs.len() && name_char(cs[end])
        invariant
            i <= end <= cs.len(),
            name_end(cs@, i as int) == name_end(cs@, end as int),
        decreases cs.len() - end,
    {
        end += 1;
    }
    end
}

/// Whether the engine does not read `name` as the name of one variable.
pub fn reserved(name: &Vec<char>) -> (b: bool)
    ensures
        b == is_reserved(name@),
{
    has_prefix(name, &chars_of("true")) || has_prefix(name, &chars_of("false")) || has_prefix(
        name,
        &chars_of("True"),
    ) || has_prefix(name, &chars_of("False")) || same_chars(name, &chars_of("__tera_context"))
}

/// The characters of `cs` from index `from` up to, not including, index `to`.
fn part_of(cs: &Vec<char>, from: usize, to: usize) -> (part: Vec<char>)
    requires
        from <= to <= cs.len(),
    ensures
        part@ == cs@.subrange(from as int, to as int),
{
    let mut part: Vec<char> = Vec::new();
    let mut k: usize = from;
    while k < to
        invariant
            from <= k <= to <= cs.len(),
            part@ == cs@.subrange(from as int, k as int),
        decreases to - k,
    {
        part.push(cs[k]);
        assert(cs@.subrange(from as int, k + 1) =~= cs@.subrange(from as int, k as int).push(
            cs@[k as int],
        ));
        k += 1;
    }
    part
}

/// The variable block that begins at index `i`, if one does: where its name
/// begins and ends, and the index just after the block.
fn read_block(cs: &Vec<char>, i: usize) -> (block: Option<(usize, usize, usize)>)
    requires
        i < cs.len(),
    ensures
        block is Some <==> block_at(cs@, i as int) is Some,
        block matches Some((start, stop, end)) ==> {
            &&& start <= stop <= cs.len()
            &&& i < end <= cs.len()
            &&& block_at(cs@, i as int) == Some((cs@.subrange(start as int, stop as int), end as int))
        },
{
    if cs.len() - i < 2 || cs[i] != '{' || cs[i + 1] != '{' {
        return None;
    }
    let start = skip_blanks(cs, i + 2);
    let stop = skip_name(cs, start);
    let close = skip_blanks(cs, stop);
    if start >= stop || !name_start(cs[start]) {
        return None;
    }
    let name = part_of(cs, start, stop);
    if reserved(&name) {
        return None;
    }
    if cs.len() - close < 2 || cs[close] != '}' || cs[close + 1] != '}' {
        return None;
    }
    Some((start, stop, close + 2))
}

/// The tag with the word `word` that begins at index `i`, if one does: the
/// index just after it.
fn read_tag(cs: &Vec<char>, i: usize, word: &Vec<char>) -> (tag: Option<usize>)
    requires
        i <= cs.len(),
    ensures
        tag == match tag_at(cs@, i as int, word@) {
            Some(end) => Some(end as usize),
            None => None,
        },
        tag matches Some(end) ==> i < end <= cs.len() && tag_at(cs@, i as int, word@) == Some(
            end as int,
        ),
{
    if cs.len() - i < 2 || cs[i] != '{' || cs[i + 1] != '%' {
        return None;
    }
    let start = skip_blanks(cs, i + 2);
    if !matches_at(cs, word, start) {
        return None;
    }
    let close = skip_blanks(cs, start + word.len());
    if cs.len() - close < 2 || cs[close] != '%' || cs[close + 1] != '}' {
        return None;
    }
    Some(close + 2)
}

/// Where the first tag at or after index `i` opens.
fn find_tag_opening(cs: &Vec<char>, i: usize) -> (at: usize)
    requires
        i <= cs.len(),
    ensures
        at == tag_opening(cs@, i as int),
        i <= at <= cs.len(),
{
    let mut at: usize = i;
    while at < cs.len() && !(cs.len() - at >= 2 && cs[at] == '{' && cs[at + 1] == '%')
        invariant
            i <= at <= cs.len(),
            tag_opening(cs@, i as int) == tag_opening(cs@, at as int),
        decreases cs.len() - at,
    {
        at += 1;
    }
    at
}

/// The raw block that begins at index `i`, if one does: where its body
/// begins and ends, and the index just after the block.
fn read_raw(cs: &Vec<char>, i: usize) -> (block: Option<(usize, usize, usize)>)
    requires
        i < cs.len(),
    ensures
        block is Some <==> raw_at(cs@, i as int) is Some,
        block matches Some((body, stop, end)) ==> {
            &&& i < body <= stop < end <= cs.len()
            &&& raw_at(cs@, i as int) == Some((body as int, stop as int, end as int))
        },
{
    let body = match read_tag(cs, i, &chars_of("raw")) {
        Some(body) => body,
        None => {
            return None;
        },
    };
    let stop = find_tag_opening(cs, body);
    match read_tag(cs, stop, &chars_of("endraw")) {
        Some(end) => Some((body, stop, end)),
        None => None,
    }
}

/// Reads `text` as a template of the library: the names of its variable
/// blocks, in order, where it is text, variable blocks and raw blocks only.
pub fn scan(text: &str) -> (names: Option<Vec<String>>)
    ensures
        names is Some <==> is_plain_template(text@),
        names matches Some(found) ==> views(found@) == names_of(text@),
{
    let cs = chars_of(text);
    let mut found: Vec<String> = Vec::new();
    let mut i: usize = 0;
    assert(views(found@) =~= Seq::empty());
    assert(views(found@) + names_from(cs@, 0) =~= names_from(cs@, 0));
    while i < cs.len()
        invariant
            cs@ == text@,
            i <= cs.len(),
            is_plain_template(cs@) == plain_from(cs@, i as int),
            names_of(cs@) == views(found@) + names_from(cs@, i as int),
        decreases cs.len() - i,
    {
        if cs.len() - i >= 2 && cs[i] == '{' && (cs[i + 1] == '{' || cs[i + 1] == '%' || cs[i + 1]
            == '#') {
            match read_block(&cs, i) {
                None => match read_raw(&cs, i) {
                    None => {
                        return None;
                    },
                    Some((body, stop, end)) => {
                        i = end;
                    },
                },
                Some((start, stop, end)) => {
                    let name = slice_of(text, start, stop);
                    let ghost before = views(found@);
                    found.push(name);
                    proof {
                        let shown = cs@.subrange(start as int, stop as int);
                        assert(views(found@) =~= before.push(shown));
                        assert(before + (seq![shown] + names_from(cs@, end as int)) =~= before.push(
                            shown,
                        ) + names_from(cs@, end as int));
                    }
                    i = end;
                },
            }
        } else {
            i += 1;
        }
    }
    assert(views(found@) + Seq::<Seq<char>>::empty() =~= views(found@));
    Some(found)
}

/// Whether `text` is a template of the library.
pub fn is_plain(text: &str) -> (plain: bool)
    ensures
        plain == is_plain_template(text@),
{
    scan(text).is_some()
}

} // verus!
