//! Case-insensitive classification of collaborator error text.
//!
//! The capture-engine collaborator reports failures as free-form text.
//! A failure is treated as the expected "consent pending" outcome when
//! its text contains `permission` or `audio`, compared without regard to
//! ASCII letter case. The containment test is written out and verified
//! here rather than delegated, so the classification rule is exact.

use vstd::prelude::*;

verus! {

/// The code point of a character with ASCII upper-case letters folded to
/// lower case; all other characters are left as they are.
pub open spec fn fold_code(c: char) -> int {
    if 65 <= c as int && c as int <= 90 {
        c as int + 32
    } else {
        c as int
    }
}

/// The needle matches the haystack at offset `i` when every needle
/// character equals the corresponding haystack character after ASCII
/// case folding.
pub open spec fn matches_at(hay: Seq<char>, needle: Seq<char>, i: int) -> bool {
    forall|j: int| 0 <= j < needle.len() ==> fold_code(hay[i + j]) == #[trigger] fold_code(needle[j])
}

/// The haystack contains the needle at some offset, compared with ASCII
/// case folding. An empty needle is contained everywhere.
pub open spec fn contains_case_insensitive(hay: Seq<char>, needle: Seq<char>) -> bool {
    exists|i: int| 0 <= i && i + needle.len() <= hay.len() && matches_at(hay, needle, i)
}

/// A failure text is permission-shaped when it mentions `permission` or
/// `audio` in any letter case: such a failure is taken as evidence that
/// the OS consent dialog was provoked, which is what the probe set out
/// to do.
pub open spec fn spec_permission_shaped(msg: Seq<char>) -> bool {
    ||| contains_case_insensitive(msg, "permission"@)
    ||| contains_case_insensitive(msg, "audio"@)
}

/// Fold one character's code with `fold_code`.
fn fold_char(c: char) -> (r: u32)
    ensures
        r as int == fold_code(c),
{
    let u = c as u32;
    if 65 <= u && u <= 90 {
        u + 32
    } else {
        u
    }
}

/// Case-insensitive substring search over the characters of two string
/// slices, proved equivalent to `contains_case_insensitive`.
pub fn contains_ci(hay: &str, needle: &str) -> (r: bool)
    ensures
        r == contains_case_insensitive(hay@, needle@),
{
    let hay_len = hay.unicode_len();
    let needle_len = needle.unicode_len();
    if needle_len > hay_len {
        return false;
    }
    let last_start = hay_len - needle_len;
    let mut i: usize = 0;
    loop
        invariant
            hay_len == hay@.len(),
            needle_len == needle@.len(),
            needle_len <= hay_len,
            last_start == hay_len - needle_len,
            0 <= i <= last_start + 1,
            forall|k: int| 0 <= k < i ==> !matches_at(hay@, needle@, k),
        decreases last_start + 1 - i,
    {
        if i > last_start {
            assert(!contains_case_insensitive(hay@, needle@));
            return false;
        }
        let mut j: usize = 0;
        let mut mismatched = false;
        while j < needle_len
            invariant
                hay_len == hay@.len(),
                needle_len == needle@.len(),
                needle_len <= hay_len,
                last_start == hay_len - needle_len,
                0 <= i <= last_start,
                0 <= j <= needle_len,
                !mismatched ==> forall|t: int|
                    0 <= t < j ==> fold_code(hay@[i + t]) == #[trigger] fold_code(needle@[t]),
                mismatched ==> !matches_at(hay@, needle@, i as int),
            decreases needle_len - j,
        {
            if !mismatched {
                let hc = fold_char(hay.get_char(i + j));
                let nc = fold_char(needle.get_char(j));
                if hc != nc {
                    mismatched = true;
                }
            }
            j += 1;
        }
        if !mismatched {
            assert(matches_at(hay@, needle@, i as int));
            return true;
        }
        i += 1;
    }
}

/// Decide whether a collaborator's failure text is permission-shaped,
/// i.e. mentions `permission` or `audio` in any letter case.
pub fn is_permission_shaped(msg: &str) -> (r: bool)
    ensures
        r == spec_permission_shaped(msg@),
{
    let about_permission = contains_ci(msg, "permission");
    let about_audio = contains_ci(msg, "audio");
    about_permission || about_audio
}

} // verus!
