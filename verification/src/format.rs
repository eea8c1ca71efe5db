//! What a file's name says: the document's title and the format of its bytes.

use vstd::prelude::*;
use crate::text::{chars_of, string_of};

verus! {

/// The formats that can be read.
#[derive(Clone, Copy, Debug, PartialEq, Eq, Structural)]
pub enum Format {
    /// Plain text: `txt`, `csv`, `md`.
    Text,
    /// `html`.
    Html,
    /// `pdf`.
    Pdf,
}

/// The position of the last dot in `name`, or -1 if it holds none.
pub open spec fn last_dot(name: Seq<char>) -> int
    decreases name.len(),
{
    if name.len() == 0 {
        -1
    } else if name.last() == '.' {
        name.len() - 1
    } else {
        last_dot(name.drop_last())
    }
}

/// The extension of `name`: what follows its last dot; all of it if it
/// holds no dot.
pub open spec fn extension(name: Seq<char>) -> Seq<char> {
    name.subrange(last_dot(name) + 1, name.len() as int)
}

/// The title of the document in a file called `name`: the name without its
/// last dot and what follows it.  A dot that opens the name is part of the
/// title.
pub open spec fn normalized_title(name: Seq<char>) -> Seq<char> {
    if last_dot(name) > 0 {
        name.subrange(0, last_dot(name))
    } else {
        name
    }
}

/// The format that an extension names, by exact match.
pub open spec fn format_for(ext: Seq<char>) -> Option<Format> {
    if ext == seq!['t', 'x', 't'] || ext == seq!['c', 's', 'v'] || ext == seq!['m', 'd'] {
        Some(Format::Text)
    } else if ext == seq!['h', 't', 'm', 'l'] {
        Some(Format::Html)
    } else if ext == seq!['p', 'd', 'f'] {
        Some(Format::Pdf)
    } else {
        None
    }
}

/// The last dot is a dot, and no dot follows it.
pub proof fn lemma_last_dot(name: Seq<char>)
    ensures
        -1 <= last_dot(name) < name.len(),
        last_dot(name) >= 0 ==> name[last_dot(name)] == '.',
        forall|j: int| last_dot(name) < j < name.len() ==> name[j] != '.',
    decreases name.len(),
{
    if name.len() > 0 && name.last() != '.' {
        let front = name.drop_last();
        lemma_last_dot(front);
        assert forall|j: int| last_dot(name) < j < name.len() implies name[j] != '.' by {
            if j < front.len() {
                assert(front[j] == name[j]);
            }
        }
    }
}

/// A name with a dot past its first character is its title, a dot and its
/// extension; the extension holds no dot.
pub proof fn lemma_name_parts(name: Seq<char>)
    ensures
        last_dot(name) > 0 ==> name == normalized_title(name) + seq!['.'] + extension(name),
        last_dot(name) <= 0 ==> normalized_title(name) == name,
        forall|j: int| 0 <= j < extension(name).len() ==> extension(name)[j] != '.',
{
    lemma_last_dot(name);
    if last_dot(name) > 0 {
        assert(name =~= normalized_title(name) + seq!['.'] + extension(name));
    }
}

/// A position that holds a dot and has no dot after it is the last dot.
pub proof fn lemma_last_dot_is(name: Seq<char>, p: int)
    requires
        -1 <= p < name.len(),
        p >= 0 ==> name[p] == '.',
        forall|j: int| p < j < name.len() ==> name[j] != '.',
    ensures
        last_dot(name) == p,
{
    lemma_last_dot(name);
}

/// The position of the last dot among `chars`, or `None`.
fn find_last_dot(chars: &Vec<char>) -> (r: Option<usize>)
    ensures
        match r {
            Some(p) => p < chars@.len() && last_dot(chars@) == p as int,
            None => last_dot(chars@) == -1,
        },
{
    let mut i: usize = chars.len();
    while i > 0
        invariant
            i <= chars@.len(),
            forall|j: int| i <= j < chars@.len() ==> chars@[j] != '.',
        decreases i,
    {
        i -= 1;
        if chars[i] == '.' {
            proof {
                lemma_last_dot_is(chars@, i as int);
            }
            return Some(i);
        }
    }
    proof {
        lemma_last_dot_is(chars@, -1);
    }
    None
}

/// The extension of the file called `name`.
pub fn file_extension(name: &str) -> (r: String)
    ensures
        r@ == extension(name@),
{
    let chars = chars_of(name);
    let n = chars.len();
    match find_last_dot(&chars) {
        Some(p) => string_of(&chars, p + 1, n),
        None => string_of(&chars, 0, n),
    }
}

/// The title of the document in the file called `name`.
pub fn title_of(name: &str) -> (r: String)
    ensures
        r@ == normalized_title(name@),
{
    let chars = chars_of(name);
    match find_last_dot(&chars) {
        Some(p) => if p > 0 {
            string_of(&chars, 0, p)
        } else {
            let r = string_of(&chars, 0, chars.len());
            assert(r@ == name@);
            r
        },
        None => {
            let r = string_of(&chars, 0, chars.len());
            assert(r@ == name@);
            r
        },
    }
}

/// Whether `text` is spelled exactly like `word`.
fn spells(text: &Vec<char>, word: &Vec<char>) -> (r: bool)
    ensures
        r == (text@ == word@),
{
    if text.len() != word.len() {
        return false;
    }
    let mut i: usize = 0;
    while i < text.len()
        invariant
            text@.len() == word@.len(),
            i <= text@.len(),
            forall|j: int| 0 <= j < i ==> text@[j] == word@[j],
        decreases text@.len() - i,
    {
        if text[i] != word[i] {
            return false;
        }
        i += 1;
    }
    assert(text@ =~= word@);
    true
}

/// The format that the extension `ext` names.
pub fn format_of(ext: &str) -> (r: Option<Format>)
    ensures
        r == format_for(ext@),
{
    let chars = chars_of(ext);
    if spells(&chars, &vec!['t', 'x', 't']) || spells(&chars, &vec!['c', 's', 'v']) || spells(
        &chars,
        &vec!['m', 'd'],
    ) {
        Some(Format::Text)
    } else if spells(&chars, &vec!['h', 't', 'm', 'l']) {
        Some(Format::Html)
    } else if spells(&chars, &vec!['p', 'd', 'f']) {
        Some(Format::Pdf)
    } else {
        None
    }
}

} // verus!
