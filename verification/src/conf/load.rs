//! What loading a configuration file does with what it found.
//!
//! A configuration file that exists and holds something is parsed (fields it
//! leaves out take their defaults). A file that is missing, or that holds
//! nothing but white space (such as an empty file left behind), is written
//! anew with the default configuration, which is then used.

use vstd::prelude::*;

verus! {

/// Unicode `White_Space` characters, the ones `str::trim` removes.
pub open spec fn is_white_space(c: char) -> bool {
    ||| '\u{9}' <= c <= '\u{d}'
    ||| c == ' '
    ||| c == '\u{85}'
    ||| c == '\u{a0}'
    ||| c == '\u{1680}'
    ||| '\u{2000}' <= c <= '\u{200a}'
    ||| c == '\u{2028}'
    ||| c == '\u{2029}'
    ||| c == '\u{202f}'
    ||| c == '\u{205f}'
    ||| c == '\u{3000}'
}

/// The text is empty once trimmed: it holds only white space.
pub open spec fn is_blank(s: Seq<char>) -> bool {
    forall|i: int| 0 <= i < s.len() ==> is_white_space(#[trigger] s[i])
}

/// Whether a character is Unicode white space.
pub fn white_space(c: char) -> (r: bool)
    ensures
        r == is_white_space(c),
{
    ('\u{9}' <= c && c <= '\u{d}') || c == ' ' || c == '\u{85}' || c == '\u{a0}' || c == '\u{1680}'
        || ('\u{2000}' <= c && c <= '\u{200a}') || c == '\u{2028}' || c == '\u{2029}' || c
        == '\u{202f}' || c == '\u{205f}' || c == '\u{3000}'
}

/// Whether the text holds nothing but white space (`text.trim().is_empty()`).
pub fn blank(text: &str) -> (r: bool)
    ensures
        r == is_blank(text@),
        r <==> (forall|i: int| 0 <= i < text@.len() ==> is_white_space(#[trigger] text@[i])),
{
    broadcast use vstd::string::axiom_spec_iter;

    for c in it: text.chars()
        invariant
            it.seq() == text@,
            forall|j: int| 0 <= j < it.index() ==> is_white_space(#[trigger] text@[j]),
    {
        if !white_space(c) {
            return false;
        }
    }
    true
}

/// What to do with a configuration file.
#[derive(Debug, Clone, Copy, PartialEq, Eq, Structural)]
pub enum LoadAction {
    /// Parse the file
    Parse,
    /// Write the default configuration to the file and use it
    WriteDefault,
}

/// The action for a configuration file whose content is `content` (`None`
/// when there is no such file).
pub fn load_action(content: Option<&str>) -> (r: LoadAction)
    ensures
        content is None ==> r == LoadAction::WriteDefault,
        content is Some ==> (r == LoadAction::Parse <==> exists|i: int|
            0 <= i < content->0@.len() && !is_white_space(#[trigger] content->0@[i])),
        r == (match content {
            Some(text) => if is_blank(text@) {
                LoadAction::WriteDefault
            } else {
                LoadAction::Parse
            },
            None => LoadAction::WriteDefault,
        }),
{
    match content {
        Some(text) => if blank(text) {
            LoadAction::WriteDefault
        } else {
            LoadAction::Parse
        },
        None => LoadAction::WriteDefault,
    }
}

/// The white space of `str::trim`: tab, line feed, vertical tab, form feed,
/// carriage return and space among ASCII characters, and no other ASCII
/// character; the only white space outside ASCII are U+0085, U+00A0,
/// U+1680, U+2000..=U+200A, U+2028, U+2029, U+202F, U+205F and U+3000.
pub proof fn law_white_space(c: char)
    ensures
        (c as u32) < 0x80 ==> (is_white_space(c) <==> (c == '\t' || c == '\n' || c == '\u{b}'
            || c == '\u{c}' || c == '\r' || c == ' ')),
        (c as u32) >= 0x80 ==> (is_white_space(c) <==> (c == '\u{85}' || c == '\u{a0}' || c
            == '\u{1680}' || ('\u{2000}' <= c && c <= '\u{200a}') || c == '\u{2028}' || c
            == '\u{2029}' || c == '\u{202f}' || c == '\u{205f}' || c == '\u{3000}')),
{
}

/// A text is blank exactly when every one of its characters is white space:
/// one character that is not, anywhere, makes it not blank.
pub proof fn law_blank(s: Seq<char>, i: int)
    ensures
        is_blank(s) <==> (forall|j: int| 0 <= j < s.len() ==> is_white_space(#[trigger] s[j])),
        0 <= i < s.len() && !is_white_space(s[i]) ==> !is_blank(s),
        is_blank(Seq::<char>::empty()),
{
}

} // verus!
