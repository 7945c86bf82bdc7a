//! Text helpers: joining words into a command line, quoting, decoding.
use vstd::prelude::*;
use vstd::string::StringExecFns;

verus! {

/// The texts of a sequence of strings.
pub open spec fn texts(v: Seq<String>) -> Seq<Seq<char>> {
    Seq::new(v.len(), |i: int| v[i]@)
}

/// The words with one space between neighbours.
pub open spec fn join_words(words: Seq<Seq<char>>) -> Seq<char>
    decreases words.len(),
{
    if words.len() == 0 {
        Seq::empty()
    } else if words.len() == 1 {
        words[0]
    } else {
        join_words(words.drop_last()) + " "@ + words.last()
    }
}

/// What `{:?}` writes for a string slice: the text between double quotes, with
/// the characters that need it escaped.
pub uninterp spec fn debug_text(s: Seq<char>) -> Seq<char>;

/// What a lossy decoding of bytes as UTF-8 gives: the text that the bytes
/// encode, with U+FFFD in place of each malformed sequence.
pub uninterp spec fn lossy_text(bytes: Seq<u8>) -> Seq<char>;

/// Each word as `{:?}` writes it.
pub open spec fn quote_all(words: Seq<Seq<char>>) -> Seq<Seq<char>> {
    Seq::new(words.len(), |i: int| debug_text(words[i]))
}

/// Formats `s` with `{:?}`, the `Debug` form of `str`. Trusted: the result is
/// taken to depend on the characters of `s` alone, and is named `debug_text`.
#[verifier::external_body]
fn quoted(s: &str) -> (q: String)
    ensures
        q@ == debug_text(s@),
{
    format!("{:?}", s)
}

/// Calls `String::from_utf8_lossy` and owns what it returns. Trusted: the
/// result is taken to depend on the bytes alone, and is named `lossy_text`.
#[verifier::external_body]
pub(crate) fn decode_lossy(bytes: &Vec<u8>) -> (s: String)
    ensures
        s@ == lossy_text(bytes@),
{
    String::from_utf8_lossy(bytes).into_owned()
}

/// Joins the words with single spaces.
pub fn join(words: &Vec<String>) -> (line: String)
    ensures
        line@ == join_words(texts(words@)),
{
    let mut line = String::new();
    let n: usize = words.len();
    let mut i: usize = 0;
    while i < n
        invariant
            n == words@.len(),
            i <= n,
            line@ == join_words(texts(words@).take(i as int)),
        decreases n - i,
    {
        if i > 0 {
            line.append(" ");
        }
        line.append(words[i].as_str());
        proof {
            let all = texts(words@);
            assert(all.take(i + 1).drop_last() =~= all.take(i as int));
            assert(all.take(i + 1).last() == words@[i as int]@);
            if i == 0 {
                assert(line@ =~= words@[0]@);
            }
        }
        i += 1;
    }
    proof {
        assert(texts(words@).take(n as int) =~= texts(words@));
    }
    line
}

/// Joins the words with single spaces, each written as `{:?}` writes it.
pub fn join_quoted(words: &Vec<String>) -> (line: String)
    ensures
        line@ == join_words(quote_all(texts(words@))),
{
    let mut shown: Vec<String> = Vec::new();
    let n: usize = words.len();
    let mut i: usize = 0;
    while i < n
        invariant
            n == words@.len(),
            i <= n,
            shown@.len() == i,
            forall|j: int| 0 <= j < i ==> (#[trigger] shown@[j])@ == debug_text(words@[j]@),
        decreases n - i,
    {
        shown.push(quoted(words[i].as_str()));
        i += 1;
    }
    proof {
        assert(texts(shown@) =~= quote_all(texts(words@)));
    }
    join(&shown)
}

} // verus!
