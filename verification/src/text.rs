//! The two trimmings the client applies to text: trailing slashes of a
//! path, and white space around a search keyword.

use vstd::prelude::*;

verus! {

/// A path without its trailing slashes.
pub open spec fn without_trailing_slashes(path: Seq<char>) -> Seq<char>
    decreases path.len(),
{
    if path.len() > 0 && path.last() == '/' {
        without_trailing_slashes(path.drop_last())
    } else {
        path
    }
}

/// Whether a character has the Unicode property `White_Space`.
pub open spec fn is_white_space(c: char) -> bool {
    let n = c as u32;
    ||| 0x09 <= n <= 0x0D
    ||| n == 0x20
    ||| n == 0x85
    ||| n == 0xA0
    ||| n == 0x1680
    ||| 0x2000 <= n <= 0x200A
    ||| n == 0x2028
    ||| n == 0x2029
    ||| n == 0x202F
    ||| n == 0x205F
    ||| n == 0x3000
}

/// A text without its leading white space.
pub open spec fn without_leading_space(text: Seq<char>) -> Seq<char>
    decreases text.len(),
{
    if text.len() > 0 && is_white_space(text[0]) {
        without_leading_space(text.skip(1))
    } else {
        text
    }
}

/// A text without its trailing white space.
pub open spec fn without_trailing_space(text: Seq<char>) -> Seq<char>
    decreases text.len(),
{
    if text.len() > 0 && is_white_space(text.last()) {
        without_trailing_space(text.drop_last())
    } else {
        text
    }
}

/// A text without the white space at both of its ends.
pub open spec fn trimmed(text: Seq<char>) -> Seq<char> {
    without_trailing_space(without_leading_space(text))
}

/// `kept` is the part of `text` from `start` on that is left when the
/// white space at both ends is cut off.
pub open spec fn trims_to(text: Seq<char>, start: int, kept: Seq<char>) -> bool {
    &&& 0 <= start
    &&& start + kept.len() <= text.len()
    &&& kept == text.subrange(start, start + kept.len())
    &&& forall|i: int| 0 <= i < start ==> is_white_space(#[trigger] text[i])
    &&& forall|i: int| start + kept.len() <= i < text.len() ==> is_white_space(#[trigger] text[i])
    &&& kept.len() > 0 ==> !is_white_space(kept[0]) && !is_white_space(kept.last())
}

/// `str::trim_end_matches` with the pattern `'/'`: the result is a prefix
/// of the path, does not end in a slash, and what was cut off is slashes
/// only.
#[verifier::external_body]
fn trim_end_slashes(path: &str) -> (kept: &str)
    ensures
        kept@.len() <= path@.len(),
        kept@ == path@.subrange(0, kept@.len() as int),
        kept@.len() > 0 ==> kept@.last() != '/',
        forall|i: int| kept@.len() <= i < path@.len() ==> path@[i] == '/',
{
    path.trim_end_matches('/')
}

/// `str::trim`: the result is a part of the text, neither starts nor ends
/// with white space, and what was cut off at either end is white space
/// only.
#[verifier::external_body]
fn trim_space(text: &str) -> (kept: &str)
    ensures
        exists|start: int| #[trigger] trims_to(text@, start, kept@),
{
    text.trim()
}

/// A prefix that ends in no slash and is followed by slashes only is the
/// path without its trailing slashes.
proof fn lemma_prefix_before_slashes(path: Seq<char>, kept: int)
    requires
        0 <= kept <= path.len(),
        kept > 0 ==> path[kept - 1] != '/',
        forall|i: int| kept <= i < path.len() ==> path[i] == '/',
    ensures
        without_trailing_slashes(path) == path.subrange(0, kept),
    decreases path.len(),
{
    if kept == path.len() {
        assert(path.subrange(0, kept) =~= path);
    } else {
        let shorter = path.drop_last();
        assert forall|i: int| kept <= i < shorter.len() implies shorter[i] == '/' by {
            assert(shorter[i] == path[i]);
        }
        lemma_prefix_before_slashes(shorter, kept);
        assert(shorter.subrange(0, kept) =~= path.subrange(0, kept));
    }
}

/// A prefix that ends in no white space and is followed by white space
/// only is the text without its trailing white space.
proof fn lemma_prefix_before_space(text: Seq<char>, kept: int)
    requires
        0 <= kept <= text.len(),
        kept > 0 ==> !is_white_space(text[kept - 1]),
        forall|i: int| kept <= i < text.len() ==> is_white_space(#[trigger] text[i]),
    ensures
        without_trailing_space(text) == text.subrange(0, kept),
    decreases text.len(),
{
    if kept == text.len() {
        assert(text.subrange(0, kept) =~= text);
    } else {
        let shorter = text.drop_last();
        assert(is_white_space(text[text.len() - 1]));
        assert forall|i: int| kept <= i < shorter.len() implies is_white_space(
            #[trigger] shorter[i],
        ) by {
            assert(shorter[i] == text[i]);
        }
        lemma_prefix_before_space(shorter, kept);
        assert(shorter.subrange(0, kept) =~= text.subrange(0, kept));
    }
}

/// A suffix that starts with no white space and is preceded by white
/// space only is the text without its leading white space.
proof fn lemma_suffix_after_space(text: Seq<char>, start: int)
    requires
        0 <= start <= text.len(),
        start < text.len() ==> !is_white_space(text[start]),
        forall|i: int| 0 <= i < start ==> is_white_space(#[trigger] text[i]),
    ensures
        without_leading_space(text) == text.skip(start),
    decreases text.len(),
{
    if start == 0 {
        assert(text.skip(0) =~= text);
    } else {
        let shorter = text.skip(1);
        assert(is_white_space(text[0]));
        assert forall|i: int| 0 <= i < start - 1 implies is_white_space(#[trigger] shorter[i]) by {
            assert(shorter[i] == text[i + 1]);
        }
        lemma_suffix_after_space(shorter, start - 1);
        assert(shorter.skip(start - 1) =~= text.skip(start));
    }
}

/// What `trims_to` describes is the trimmed text.
proof fn lemma_trims_to_trimmed(text: Seq<char>, start: int, kept: Seq<char>)
    requires
        trims_to(text, start, kept),
    ensures
        trimmed(text) == kept,
{
    if kept.len() == 0 {
        assert forall|i: int| 0 <= i < text.len() implies is_white_space(#[trigger] text[i]) by {
            if i < start {
            } else {
            }
        }
        lemma_suffix_after_space(text, text.len() as int);
        assert(text.skip(text.len() as int) =~= kept);
    } else {
        assert(kept[0] == text[start]);
        assert(kept.last() == text[start + kept.len() - 1]);
        lemma_suffix_after_space(text, start);
        let rest = text.skip(start);
        assert forall|i: int| kept.len() <= i < rest.len() implies is_white_space(
            #[trigger] rest[i],
        ) by {
            assert(rest[i] == text[start + i]);
        }
        assert(rest[kept.len() - 1] == kept.last());
        lemma_prefix_before_space(rest, kept.len() as int);
        assert(rest.subrange(0, kept.len() as int) =~= kept);
    }
}

/// The path without its trailing slashes.
pub fn strip_trailing_slashes(path: &str) -> (kept: &str)
    ensures
        kept@ == without_trailing_slashes(path@),
{
    let kept = trim_end_slashes(path);
    proof {
        lemma_prefix_before_slashes(path@, kept@.len() as int);
    }
    kept
}

/// The text without the white space at both of its ends.
pub fn trim(text: &str) -> (kept: &str)
    ensures
        kept@ == trimmed(text@),
{
    let kept = trim_space(text);
    proof {
        let start = choose|start: int| #[trigger] trims_to(text@, start, kept@);
        lemma_trims_to_trimmed(text@, start, kept@);
    }
    kept
}

} // verus!
