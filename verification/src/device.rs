//! Names of tape devices and of image files, and the lines of the kernel
//! log that speak of a device.

use vstd::prelude::*;
use vstd::string::*;
use crate::text::{
    contains_text, ends_with_text, lowercase, spec_contains_text, spec_lines, spec_lowercase,
    string_chars, string_from_chars,
};

verus! {

/// `Path::file_name`: the last component of the path, where it has one
/// that is a name. What counts as a component is the platform's affair,
/// so nothing is stated of the answer.
#[verifier::external_body]
fn path_file_name(path: &str) -> (name: Option<String>) {
    std::path::Path::new(path).file_name().map(|name| name.to_string_lossy().into_owned())
}

/// The name of the image: the name given, with `.tap` behind it unless it
/// ends so already.
pub open spec fn spec_make_output_name(src: Seq<char>) -> Seq<char> {
    if ".tap"@.is_suffix_of(src) {
        src
    } else {
        src + ".tap"@
    }
}

/// The name of the image file for a name given on the command line.
pub fn make_output_name(src: &str) -> (name: String)
    ensures
        name@ == spec_make_output_name(src@),
{
    let chars = string_chars(src);
    if ends_with_text(chars.as_slice(), string_chars(".tap").as_slice()) {
        String::from_str(src)
    } else {
        let mut name = String::from_str(src);
        name.append(".tap");
        name
    }
}

/// The path of the input: none for `-`, which stands for standard input;
/// the name itself where it holds a slash; else the name under `/dev/`.
pub open spec fn spec_make_input_name(src: Seq<char>) -> Option<Seq<char>> {
    if src == "-"@ {
        None
    } else if src.contains('/') {
        Some(src)
    } else {
        Some("/dev/"@ + src)
    }
}

fn contains_char(text: &[char], c: char) -> (r: bool)
    ensures
        r == text@.contains(c),
{
    let mut i: usize = 0;
    while i < text.len()
        invariant
            i <= text@.len(),
            forall|k: int| 0 <= k < i ==> text@[k] != c,
        decreases text@.len() - i,
    {
        if text[i] == c {
            return true;
        }
        i += 1;
    }
    false
}

/// The path of the input for a name given on the command line.
pub fn make_input_name(src: &str) -> (name: Option<String>)
    ensures
        crate::text::spec_text_option(name) == spec_make_input_name(src@),
{
    if String::from_str(src) == String::from_str("-") {
        return None;
    }
    let chars = string_chars(src);
    if contains_char(chars.as_slice(), '/') {
        Some(String::from_str(src))
    } else {
        let mut name = String::from_str("/dev/");
        name.append(src);
        Some(name)
    }
}

/// The text without the slashes at its end.
pub open spec fn spec_trim_slashes(text: Seq<char>) -> Seq<char>
    decreases text.len(),
{
    if text.len() > 0 && text.last() == '/' {
        spec_trim_slashes(text.drop_last())
    } else {
        text
    }
}

/// The path of a device without the slashes at its end, unless nothing
/// is left of it or it is `/dev` itself.
pub open spec fn spec_device_path(input: Option<Seq<char>>) -> Option<Seq<char>> {
    match input {
        None => None,
        Some(raw) => {
            let sanitized = spec_trim_slashes(raw);
            if sanitized.len() == 0 || sanitized == "/dev"@ {
                None
            } else {
                Some(sanitized)
            }
        },
    }
}

/// The path of a device without the slashes at its end.
pub fn device_path(input: &Option<String>) -> (path: Option<String>)
    ensures
        crate::text::spec_text_option(path) == spec_device_path(crate::text::spec_text_option(*input)),
{
    let raw = match input {
        Some(raw) => raw,
        None => {
            return None;
        },
    };
    let chars = string_chars(raw.as_str());
    let mut end: usize = chars.len();
    assert(chars@.take(end as int) =~= chars@);
    while end > 0 && chars[end - 1] == '/'
        invariant
            end <= chars@.len(),
            spec_trim_slashes(chars@) == spec_trim_slashes(chars@.take(end as int)),
        decreases end,
    {
        assert(chars@.take(end as int).drop_last() =~= chars@.take(end - 1));
        end -= 1;
    }
    assert(chars@.take(end as int) =~= chars@.subrange(0, end as int));
    let sanitized = string_from_chars(chars.as_slice(), 0, end);
    if end == 0 || sanitized == String::from_str("/dev") {
        None
    } else {
        Some(sanitized)
    }
}

/// The words by which the kernel may speak of a device with the given
/// lower-case name: the name, and the name without a leading `n` where
/// something is left of it. An empty name gives no words.
pub open spec fn spec_name_tokens(lower: Seq<char>) -> Seq<Seq<char>> {
    if lower.len() == 0 {
        Seq::<Seq<char>>::empty()
    } else if lower.len() > 1 && lower[0] == 'n' {
        seq![lower, lower.skip(1)]
    } else {
        seq![lower]
    }
}

/// The words by which the kernel may speak of a device with the given
/// lower-case name.
pub fn name_tokens(lower: &str) -> (tokens: Vec<String>)
    ensures
        spec_lines(tokens@) == spec_name_tokens(lower@),
{
    let chars = string_chars(lower);
    let mut tokens: Vec<String> = Vec::new();
    if chars.len() == 0 {
        assert(spec_lines(tokens@) =~= spec_name_tokens(lower@));
        return tokens;
    }
    tokens.push(String::from_str(lower));
    if chars.len() > 1 && chars[0] == 'n' {
        let stripped = string_from_chars(chars.as_slice(), 1, chars.len());
        assert(chars@.subrange(1, chars@.len() as int) =~= chars@.skip(1));
        tokens.push(stripped);
    }
    assert(spec_lines(tokens@) =~= spec_name_tokens(lower@));
    tokens
}

/// The words by which the kernel may speak of the device at a path: those
/// of the lower-case form of the last component of the path. No path, an
/// empty one, `/dev` itself and a path without a last component give none.
pub fn device_token_candidates(input: &Option<String>) -> (tokens: Vec<String>)
    ensures
        spec_device_path(crate::text::spec_text_option(*input)) is None ==> tokens@.len() == 0,
        tokens@.len() == 0 || exists|name: Seq<char>|
            spec_lines(tokens@) == spec_name_tokens(#[trigger] spec_lowercase(name)),
{
    let path = match device_path(input) {
        Some(path) => path,
        None => {
            return Vec::new();
        },
    };
    let name = match path_file_name(path.as_str()) {
        Some(name) => name,
        None => {
            return Vec::new();
        },
    };
    let lower = lowercase(name.as_str());
    let tokens = name_tokens(lower.as_str());
    assert(spec_lines(tokens@) == spec_name_tokens(spec_lowercase(name@)));
    tokens
}

/// Whether one of the words stands in the text.
pub open spec fn spec_mentions(text: Seq<char>, tokens: Seq<Seq<char>>) -> bool {
    exists|i: int| 0 <= i < tokens.len() && spec_contains_text(text, #[trigger] tokens[i])
}

/// Whether one of the words stands in the text.
pub fn mentions(text: &str, tokens: &[String]) -> (r: bool)
    ensures
        r == spec_mentions(text@, spec_lines(tokens@)),
{
    let chars = string_chars(text);
    let mut i: usize = 0;
    while i < tokens.len()
        invariant
            i <= tokens@.len(),
            chars@ == text@,
            forall|k: int| 0 <= k < i ==> !spec_contains_text(text@, #[trigger] spec_lines(tokens@)[k]),
        decreases tokens@.len() - i,
    {
        let needle = string_chars(tokens[i].as_str());
        if contains_text(chars.as_slice(), needle.as_slice()) {
            assert(spec_contains_text(text@, spec_lines(tokens@)[i as int]));
            return true;
        }
        i += 1;
    }
    false
}

/// Whether a line of the kernel log is to be shown: any line where no
/// words are given, else a line whose lower-case form holds one of them.
pub fn should_emit(line: &str, tokens: &[String]) -> (r: bool)
    ensures
        r == (tokens@.len() == 0 || spec_mentions(spec_lowercase(line@), spec_lines(tokens@))),
{
    if tokens.len() == 0 {
        return true;
    }
    let lower = lowercase(line);
    mentions(lower.as_str(), tokens)
}

} // verus!
