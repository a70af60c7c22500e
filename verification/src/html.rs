//! What the engine makes of pasted markup.

use vstd::prelude::*;
use vstd::std_specs::iter::IteratorSpec;

verus! {
broadcast use vstd::string::group_string_axioms;

/// The text of a piece of markup from which everything between `<` and `>`
/// has been taken out, the angle brackets with it. `in_tag` says whether
/// the piece begins inside a tag.
pub open spec fn stripped(html: Seq<char>, in_tag: bool) -> Seq<char>
    decreases html.len(),
{
    if html.len() == 0 {
        Seq::empty()
    } else if html[0] == '<' {
        stripped(html.drop_first(), true)
    } else if html[0] == '>' {
        stripped(html.drop_first(), false)
    } else if in_tag {
        stripped(html.drop_first(), true)
    } else {
        seq![html[0]] + stripped(html.drop_first(), false)
    }
}

/// Calls `String::push`, which appends one character to the string.
#[verifier::external_body]
fn push_char(text: &mut String, c: char)
    ensures
        final(text)@ == old(text)@.push(c),
{
    text.push(c);
}

/// Takes the tags out of a piece of markup and leaves its text.
pub fn strip_html_tags(html: &str) -> (text: String)
    ensures
        text@ == stripped(html@, false),
{
    let mut output = String::new();
    let mut in_tag = false;
    let mut chars = html.chars();
    loop
        invariant_except_break
            chars.obeys_prophetic_iter_laws(),
            chars.decrease() is Some,
            stripped(html@, false) == output@ + stripped(chars.remaining(), in_tag),
        ensures
            output@ == stripped(html@, false),
        decreases chars.decrease()->0,
    {
        match chars.next() {
            None => {
                break ;
            },
            Some(c) => {
                if c == '<' {
                    in_tag = true;
                } else if c == '>' {
                    in_tag = false;
                } else if !in_tag {
                    push_char(&mut output, c);
                }
            },
        }
    }
    output
}

/// The characters of a text.
fn chars_of(text: &str) -> (chars: Vec<char>)
    ensures
        chars@ == text@,
{
    let mut collected: Vec<char> = Vec::new();
    let mut chars = text.chars();
    loop
        invariant_except_break
            chars.obeys_prophetic_iter_laws(),
            chars.decrease() is Some,
            text@ == collected@ + chars.remaining(),
        ensures
            collected@ == text@,
        decreases chars.decrease()->0,
    {
        match chars.next() {
            None => {
                assert(collected@ + Seq::<char>::empty() =~= collected@);
                break ;
            },
            Some(c) => {
                collected.push(c);
            },
        }
    }
    collected
}

/// The text that the characters from `start` up to `end` make.
fn text_of(chars: &[char], start: usize, end: usize) -> (text: String)
    requires
        start <= end <= chars@.len(),
    ensures
        text@ == chars@.subrange(start as int, end as int),
{
    let mut text = String::new();
    let mut i = start;
    while i < end
        invariant
            start <= i <= end <= chars@.len(),
            text@ == chars@.subrange(start as int, i as int),
        decreases end - i,
    {
        push_char(&mut text, chars[i]);
        i += 1;
    }
    text
}

/// What opens the address of an image in markup: `src="`.
pub open spec fn source_marker() -> Seq<char> {
    seq!['s', 'r', 'c', '=', '"']
}

/// Whether the marker stands at `at`.
pub open spec fn marker_at(html: Seq<char>, at: int) -> bool {
    &&& 0 <= at
    &&& at + source_marker().len() <= html.len()
    &&& html.subrange(at, at + source_marker().len()) == source_marker()
}

/// The first position from `from` on at which the marker stands.
pub open spec fn marker_from(html: Seq<char>, from: int) -> Option<int>
    decreases html.len() - from,
{
    if from < 0 || from + source_marker().len() > html.len() {
        None
    } else if marker_at(html, from) {
        Some(from)
    } else {
        marker_from(html, from + 1)
    }
}

/// The first position from `from` on at which a quotation mark stands.
pub open spec fn quote_from(html: Seq<char>, from: int) -> Option<int>
    decreases html.len() - from,
{
    if from < 0 || from >= html.len() {
        None
    } else if html[from] == '"' {
        Some(from)
    } else {
        quote_from(html, from + 1)
    }
}

/// The address of the first image in a piece of markup: what stands between
/// the first `src="` and the quotation mark that closes it.
pub open spec fn image_url(html: Seq<char>) -> Option<Seq<char>> {
    match marker_from(html, 0) {
        None => None,
        Some(at) => match quote_from(html, at + source_marker().len()) {
            None => None,
            Some(end) => Some(html.subrange(at + source_marker().len(), end)),
        },
    }
}

fn find_marker(html: &[char]) -> (found: Option<usize>)
    ensures
        match found {
            Some(at) => marker_from(html@, 0) == Some(at as int) && at + 5 <= html@.len(),
            None => marker_from(html@, 0) is None,
        },
{
    let n = html.len();
    let mut i: usize = 0;
    while n - i >= 5
        invariant
            n == html@.len(),
            i <= n,
            marker_from(html@, 0) == marker_from(html@, i as int),
        decreases n - i,
    {
        if html[i] == 's' && html[i + 1] == 'r' && html[i + 2] == 'c' && html[i + 3] == '='
            && html[i + 4] == '"' {
            assert(html@.subrange(i as int, i + 5) =~= source_marker());
            return Some(i);
        }

        i += 1;
    }
    None
}

fn find_quote(html: &[char], from: usize) -> (found: Option<usize>)
    ensures
        match found {
            Some(at) => quote_from(html@, from as int) == Some(at as int) && from <= at
                < html@.len(),
            None => quote_from(html@, from as int) is None,
        },
{
    let mut i = from;
    while i < html.len()
        invariant
            from <= i,
            quote_from(html@, from as int) == quote_from(html@, i as int),
        decreases html@.len() - i,
    {
        if html[i] == '"' {
            return Some(i);
        }
        i += 1;
    }
    None
}

/// Finds the address of the first image that a piece of markup names.
pub fn try_extract_online_image_url(html: &str) -> (url: Option<String>)
    ensures
        match image_url(html@) {
            Some(address) => url matches Some(found) && found@ == address,
            None => url is None,
        },
{
    let chars = chars_of(html);
    let start = match find_marker(chars.as_slice()) {
        Some(at) => at + 5,
        None => {
            return None;
        },
    };
    assert(source_marker().len() == 5);
    match find_quote(chars.as_slice(), start) {
        Some(end) => Some(text_of(chars.as_slice(), start, end)),
        None => None,
    }
}
} // verus!
