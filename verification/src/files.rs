use vstd::prelude::*;
use crate::text::{chars_of, matches_at};

verus! {

/// Where the extension of a filename begins: behind its last dot, or at its start
/// where it has no dot.
pub open spec fn extension_start(name: Seq<char>) -> int
    decreases name.len(),
{
    if name.len() == 0 || name.last() == '.' {
        name.len() as int
    } else {
        extension_start(name.drop_last())
    }
}

/// The extension of a filename: what follows its last dot, or the whole name where it
/// has no dot.
pub open spec fn extension_of(name: Seq<char>) -> Seq<char> {
    name.skip(extension_start(name))
}

/// The extension is one of the supported ones, letter for letter.
pub open spec fn has_supported_ext(name: Seq<char>, supported: Seq<Seq<char>>) -> bool {
    exists|i: int| 0 <= i < supported.len() && #[trigger] supported[i] == extension_of(name)
}

/// The extension begins within the name, directly behind a dot unless at the very
/// start, and holds no dot itself.
pub proof fn lemma_extension_start(name: Seq<char>)
    ensures
        0 <= extension_start(name) <= name.len(),
        extension_start(name) == 0 || name[extension_start(name) - 1] == '.',
        forall|j: int| extension_start(name) <= j < name.len() ==> name[j] != '.',
    decreases name.len(),
{
    if !(name.len() == 0 || name.last() == '.') {
        let front = name.drop_last();
        lemma_extension_start(front);
        assert forall|j: int| extension_start(name) <= j < name.len() implies name[j] != '.' by {
            if j < front.len() {
                assert(front[j] == name[j]);
            }
        }
    }
}

/// Position at which the extension of `name` begins.
pub fn find_extension_start(name: &Vec<char>) -> (k: usize)
    ensures
        k == extension_start(name@),
        k <= name.len(),
{
    let mut k: usize = name.len();
    assert(name@.take(k as int) =~= name@);
    while k > 0 && name[k - 1] != '.'
        invariant
            k <= name.len(),
            extension_start(name@) == extension_start(name@.take(k as int)),
        decreases k,
    {
        assert(name@.take(k as int).drop_last() =~= name@.take(k - 1));
        k -= 1;
    }
    k
}

/// Whether the extension of a filename is among the supported ones.
pub fn is_supported_file_ext(file_name: &str, supported_file_exts: &Vec<String>) -> (b: bool)
    ensures
        b == has_supported_ext(file_name@, supported_file_exts.deep_view()),
{
    let name = chars_of(file_name);
    let start = find_extension_start(&name);
    let ghost supported = supported_file_exts.deep_view();
    let mut i: usize = 0;
    while i < supported_file_exts.len()
        invariant
            i <= supported_file_exts.len(),
            supported == supported_file_exts.deep_view(),
            supported.len() == supported_file_exts@.len(),
            name@ == file_name@,
            start == extension_start(name@),
            start <= name.len(),
            forall|j: int| 0 <= j < i ==> #[trigger] supported[j] != extension_of(file_name@),
        decreases supported_file_exts.len() - i,
    {
        let ext = chars_of(supported_file_exts[i].as_str());
        assert(ext@ == supported[i as int]);
        if ext.len() == name.len() - start && matches_at(&name, &ext, start) {
            return true;
        }
        assert(supported[i as int] != extension_of(file_name@)) by {
            if supported[i as int] == extension_of(file_name@) {
                assert(name@.subrange(start as int, start + ext.len()) =~= name@.skip(
                    start as int,
                ));
            }
        }
        i += 1;
    }
    false
}

} // verus!
