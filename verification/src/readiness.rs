//! Which files need no conversion because they are text already. The decision looks at the
//! end of the path only: no file is opened.

use vstd::prelude::*;

verus! {

/// The code of a character, with the capital letters of ASCII folded onto the small ones.
pub open spec fn folded(c: char) -> u32 {
    let code = c as u32;
    if 65 <= code <= 90 {
        (code + 32) as u32
    } else {
        code
    }
}

/// Whether `path` ends in `suffix` when capital and small ASCII letters count as the same.
/// `suffix` is written in small letters.
pub open spec fn ends_in(path: Seq<char>, suffix: Seq<char>) -> bool {
    &&& suffix.len() <= path.len()
    &&& forall|i: int|
        0 <= i < suffix.len() ==> folded(#[trigger] path[path.len() - suffix.len() + i])
            == suffix[i] as u32
}

/// The endings of the files that are text already: plain text, Markdown and
/// reStructuredText, separated values, JSON, XML, HTML and YAML.
pub open spec fn text_endings() -> Seq<Seq<char>> {
    seq![
        ".txt"@,
        ".md"@,
        ".markdown"@,
        ".rst"@,
        ".csv"@,
        ".tsv"@,
        ".json"@,
        ".xml"@,
        ".html"@,
        ".htm"@,
        ".yaml"@,
        ".yml"@,
    ]
}

/// Whether the file at `path` can be used as text without conversion: its path ends in one
/// of the text endings.
pub open spec fn ready(path: Seq<char>) -> bool {
    exists|k: int| 0 <= k < text_endings().len() && ends_in(path, #[trigger] text_endings()[k])
}

fn fold(c: char) -> (code: u32)
    ensures
        code == folded(c),
{
    let code = c as u32;
    if 65 <= code && code <= 90 {
        code + 32
    } else {
        code
    }
}

fn has_ending(path: &str, length: usize, suffix: &str) -> (found: bool)
    requires
        length == path@.len(),
    ensures
        found == ends_in(path@, suffix@),
{
    let n = suffix.unicode_len();
    if n > length {
        return false;
    }
    let start = length - n;
    let mut i: usize = 0;
    while i < n
        invariant
            n == suffix@.len(),
            length == path@.len(),
            start == length - n,
            i <= n,
            forall|j: int| 0 <= j < i ==> folded(#[trigger] path@[start + j]) == suffix@[j] as u32,
        decreases n - i,
    {
        if fold(path.get_char(start + i)) != suffix.get_char(i) as u32 {
            assert(folded(path@[path@.len() - suffix@.len() + i]) != suffix@[i as int] as u32);
            return false;
        }
        i += 1;
    }
    true
}

/// Decides whether the file at `path` is text already, so that its path is itself the
/// result and nothing is converted or looked up.
pub fn is_ready(path: &str) -> (text: bool)
    ensures
        text == ready(path@),
{
    let length = path.unicode_len();
    let found = has_ending(path, length, ".txt") || has_ending(path, length, ".md")
        || has_ending(path, length, ".markdown") || has_ending(path, length, ".rst")
        || has_ending(path, length, ".csv") || has_ending(path, length, ".tsv") || has_ending(
        path,
        length,
        ".json",
    ) || has_ending(path, length, ".xml") || has_ending(path, length, ".html") || has_ending(
        path,
        length,
        ".htm",
    ) || has_ending(path, length, ".yaml") || has_ending(path, length, ".yml");
    proof {
        let endings = text_endings();
        if found {
            let k = if ends_in(path@, endings[0]) {
                0int
            } else if ends_in(path@, endings[1]) {
                1
            } else if ends_in(path@, endings[2]) {
                2
            } else if ends_in(path@, endings[3]) {
                3
            } else if ends_in(path@, endings[4]) {
                4
            } else if ends_in(path@, endings[5]) {
                5
            } else if ends_in(path@, endings[6]) {
                6
            } else if ends_in(path@, endings[7]) {
                7
            } else if ends_in(path@, endings[8]) {
                8
            } else if ends_in(path@, endings[9]) {
                9
            } else if ends_in(path@, endings[10]) {
                10
            } else {
                11
            };
            assert(ends_in(path@, text_endings()[k]));
        }
    }
    found
}

} // verus!
