//! Whether the system can be asked for its version at all.
use vstd::prelude::*;
use vstd::string::StrSliceExecFns;
use crate::text::{decode_lossy, lossy_text};

verus! {

/// A character with the Unicode property `White_Space`.
pub open spec fn is_white_space(c: char) -> bool {
    ||| '\u{9}' <= c <= '\u{D}'
    ||| c == ' '
    ||| c == '\u{85}'
    ||| c == '\u{A0}'
    ||| c == '\u{1680}'
    ||| '\u{2000}' <= c <= '\u{200A}'
    ||| c == '\u{2028}'
    ||| c == '\u{2029}'
    ||| c == '\u{202F}'
    ||| c == '\u{205F}'
    ||| c == '\u{3000}'
}

/// Nothing is left of the text once white space is trimmed off.
pub open spec fn is_blank(s: Seq<char>) -> bool {
    forall|i: int| 0 <= i < s.len() ==> is_white_space(#[trigger] s[i])
}

/// The version tool ran and wrote something other than white space. What it
/// wrote is not looked into, nor how it exited.
pub open spec fn version_reported(report: Option<Vec<u8>>) -> bool {
    match report {
        Some(stdout) => !is_blank(lossy_text(stdout@)),
        None => false,
    }
}

fn white_space(c: char) -> (r: bool)
    ensures
        r == is_white_space(c),
{
    ('\u{9}' <= c && c <= '\u{D}') || c == ' ' || c == '\u{85}' || c == '\u{A0}' || c == '\u{1680}'
        || ('\u{2000}' <= c && c <= '\u{200A}') || c == '\u{2028}' || c == '\u{2029}' || c
        == '\u{202F}' || c == '\u{205F}' || c == '\u{3000}'
}

/// Whether `text` holds white space only.
pub fn blank(text: &str) -> (r: bool)
    ensures
        r == is_blank(text@),
{
    let n: usize = text.unicode_len();
    let mut i: usize = 0;
    while i < n
        invariant
            n == text@.len(),
            i <= n,
            forall|j: int| 0 <= j < i ==> is_white_space(#[trigger] text@[j]),
        decreases n - i,
    {
        if !white_space(text.get_char(i)) {
            assert(!is_white_space(text@[i as int]));
            return false;
        }
        i += 1;
    }
    true
}

/// Decides whether the system is taken as supported. `report` is the
/// standard output of the version tool, or `None` where it could not be
/// started.
pub fn system_supported(report: &Option<Vec<u8>>) -> (supported: bool)
    ensures
        supported == version_reported(*report),
{
    match report {
        Some(stdout) => !blank(decode_lossy(stdout).as_str()),
        None => false,
    }
}

} // verus!
