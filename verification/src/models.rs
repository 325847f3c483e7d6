//! The search for model files in a directory.

use vstd::prelude::*;
use vstd::string::*;
use vstd::utf8::*;

use crate::error::SenseVoiceError;
use crate::path::FilePath;
use crate::text;

verus! {

/// An entry of a directory, as far as the search for a model looks at it. The entries of one
/// directory differ in the last component of their paths only, and so their names stand for
/// their paths where they are ordered.
#[derive(Debug)]
pub struct DirEntry {
    /// The entry's path.
    pub path: FilePath,
    /// The last component of the path; there is none unless it is valid UTF-8.
    pub file_name: Option<String>,
    /// Whether the path leads to a regular file.
    pub is_file: bool,
}

/// The entry's file name, empty where there is none.
pub open spec fn name_of(entry: DirEntry) -> Seq<char> {
    match entry.file_name {
        Some(name) => name@,
        None => seq![],
    }
}

/// How much a model file is preferred, by its name: 8-bit weights come before 16-bit weights,
/// and these before all others.
pub open spec fn rank(name: Seq<char>) -> i32 {
    let name = text::ascii_lowercase(name);
    if text::has_part(name, "q8"@) {
        0
    } else if text::has_part(name, "f16"@) {
        1
    } else {
        2
    }
}

/// Whether the entry is a GGUF file with `needle` in its name; case does not matter.
pub open spec fn is_candidate(entry: DirEntry, needle: Seq<char>) -> bool {
    let name = text::ascii_lowercase(name_of(entry));
    &&& entry.is_file
    &&& entry.file_name is Some
    &&& text::has_ending(name, ".gguf"@)
    &&& text::has_part(name, text::ascii_lowercase(needle))
}

/// Whether entry `a` is preferred to entry `b`: it has the better rank, or the same rank and a
/// name that comes earlier.
pub open spec fn is_preferred(a: DirEntry, b: DirEntry) -> bool {
    ||| rank(name_of(a)) < rank(name_of(b))
    ||| {
        &&& rank(name_of(a)) == rank(name_of(b))
        &&& text::bytes_precede(encode_utf8(name_of(a)), encode_utf8(name_of(b)))
    }
}

/// Whether the `i`th entry is the model to take: a candidate to which none is preferred, and the
/// first such.
pub open spec fn is_choice(
    entries: Seq<Result<DirEntry, String>>,
    needle: Seq<char>,
    i: int,
) -> bool {
    &&& 0 <= i < entries.len()
    &&& entries[i] is Ok
    &&& is_candidate(entries[i]->Ok_0, needle)
    &&& forall|j: int|
        0 <= j < entries.len() && (#[trigger] entries[j]) is Ok && is_candidate(
            entries[j]->Ok_0,
            needle,
        ) ==> !is_preferred(entries[j]->Ok_0, entries[i]->Ok_0) && (j < i ==> is_preferred(
            entries[i]->Ok_0,
            entries[j]->Ok_0,
        ))
}

/// Whether the `i`th entry is the first that could not be read.
pub open spec fn fails_first_at(entries: Seq<Result<DirEntry, String>>, i: int) -> bool {
    &&& 0 <= i < entries.len()
    &&& entries[i] is Err
    &&& forall|j: int| 0 <= j < i ==> (#[trigger] entries[j]) is Ok
}

/// What a search finds in the listing of a directory: the path of the model to take, nothing, or
/// the message of the error that kept the listing from being read to its end.
pub open spec fn search(
    models_dir: Seq<u8>,
    listing: Result<Vec<Result<DirEntry, String>>, String>,
    needle: Seq<char>,
) -> Result<Option<Seq<u8>>, Seq<char>> {
    match listing {
        Err(error) => Err(
            "failed to read "@ + text::shown(models_dir) + ": "@ + error@,
        ),
        Ok(entries) => if exists|i: int| fails_first_at(entries@, i) {
            let i = choose|i: int| fails_first_at(entries@, i);
            Err("failed to read model entry: "@ + entries@[i]->Err_0@)
        } else if exists|i: int| is_choice(entries@, needle, i) {
            let i = choose|i: int| is_choice(entries@, needle, i);
            Ok(Some(entries@[i]->Ok_0.path@))
        } else {
            Ok(None)
        },
    }
}

/// How much the entry is preferred as a model, by its name.
pub fn model_rank(entry: &DirEntry) -> (preference: i32)
    ensures
        preference == rank(name_of(*entry)),
{
    let name: Vec<char> = match &entry.file_name {
        Some(name) => text::lowercase_chars(name.as_str()),
        None => Vec::new(),
    };
    assert(name@ =~= text::ascii_lowercase(name_of(*entry)));
    if text::contains(&name, &text::characters("q8")) {
        0
    } else if text::contains(&name, &text::characters("f16")) {
        1
    } else {
        2
    }
}

/// Whether the entry is a GGUF file with `needle` in its name.
fn is_model(entry: &DirEntry, needle: &str) -> (found: bool)
    ensures
        found == is_candidate(*entry, needle@),
{
    if !entry.is_file {
        return false;
    }
    match &entry.file_name {
        None => false,
        Some(name) => {
            let name: Vec<char> = text::lowercase_chars(name.as_str());
            text::ends_with(&name, &text::characters(".gguf")) && text::contains(
                &name,
                &text::lowercase_chars(needle),
            )
        },
    }
}

/// Whether entry `a` is preferred to entry `b`.
fn prefers(a: &DirEntry, b: &DirEntry) -> (preferred: bool)
    requires
        a.file_name is Some,
        b.file_name is Some,
    ensures
        preferred == is_preferred(*a, *b),
{
    let rank_a: i32 = model_rank(a);
    let rank_b: i32 = model_rank(b);
    if rank_a != rank_b {
        return rank_a < rank_b;
    }
    match (&a.file_name, &b.file_name) {
        (Some(name_a), Some(name_b)) => text::comes_before(
            name_a.as_str().as_bytes(),
            name_b.as_str().as_bytes(),
        ),
        _ => false,
    }
}

/// Preference is transitive.
pub proof fn preference_is_transitive(a: DirEntry, b: DirEntry, c: DirEntry)
    requires
        is_preferred(a, b),
        is_preferred(b, c),
    ensures
        is_preferred(a, c),
{
    let (x, y, z) = (
        encode_utf8(name_of(a)),
        encode_utf8(name_of(b)),
        encode_utf8(name_of(c)),
    );
    if text::bytes_precede(x, y) && text::bytes_precede(y, z) {
        text::bytes_precede_is_transitive(x, y, z);
    }
}

/// Nothing is preferred to itself, and of two entries at most one is preferred to the other.
pub proof fn preference_is_strict(a: DirEntry, b: DirEntry)
    ensures
        is_preferred(a, b) ==> !is_preferred(b, a),
{
    text::bytes_precede_is_strict(encode_utf8(name_of(a)), encode_utf8(name_of(b)));
}

/// Of two entries with different names one is preferred to the other.
pub proof fn preference_is_total(a: DirEntry, b: DirEntry)
    requires
        name_of(a) != name_of(b),
    ensures
        is_preferred(a, b) || is_preferred(b, a),
{
    encode_utf8_decode_utf8(name_of(a));
    encode_utf8_decode_utf8(name_of(b));
    text::bytes_precede_is_total(encode_utf8(name_of(a)), encode_utf8(name_of(b)));
}

/// Where `a` is not preferred to `b` nor `b` to `c`, `a` is not preferred to `c` either.
proof fn indifference_is_transitive(a: DirEntry, b: DirEntry, c: DirEntry)
    requires
        !is_preferred(a, b),
        !is_preferred(b, c),
    ensures
        !is_preferred(a, c),
{
    if is_preferred(a, c) {
        if name_of(a) == name_of(b) {
            assert(is_preferred(b, c));
        } else {
            preference_is_total(a, b);
            preference_is_transitive(b, a, c);
        }
    }
}

/// One more candidate: it becomes the choice where it is better than the choice so far.
pub(crate) proof fn extend_choice(
    entries: Seq<Result<DirEntry, String>>,
    needle: Seq<char>,
    i: int,
    best: Option<int>,
    better: bool,
)
    requires
        0 <= i < entries.len(),
        forall|j: int| 0 <= j <= i ==> (#[trigger] entries[j]) is Ok,
        is_candidate(entries[i]->Ok_0, needle),
        match best {
            Some(b) => {
                &&& b < i
                &&& is_choice(entries.take(i), needle, b)
                &&& better == is_preferred(entries[i]->Ok_0, entries[b]->Ok_0)
            },
            None => {
                &&& better
                &&& forall|j: int|
                    0 <= j < i ==> !is_candidate((#[trigger] entries[j])->Ok_0, needle)
            },
        },
    ensures
        better ==> is_choice(entries.take(i + 1), needle, i),
        !better ==> best is Some && is_choice(entries.take(i + 1), needle, best->0),
{
    let (before, after) = (entries.take(i), entries.take(i + 1));
    assert forall|j: int| 0 <= j < i implies after[j] == before[j] by {}
    assert(after[i] == entries[i]);
    if better {
        let new = entries[i]->Ok_0;
        assert forall|j: int|
            0 <= j < after.len() && (#[trigger] after[j]) is Ok && is_candidate(
                after[j]->Ok_0,
                needle,
            ) implies !is_preferred(after[j]->Ok_0, new) && (j < i ==> is_preferred(
            new,
            after[j]->Ok_0,
        )) by {
            preference_is_strict(new, after[j]->Ok_0);
            if j < i {
                assert(entries[j] == before[j]);
                let old = before[best->0]->Ok_0;
                if !is_preferred(new, after[j]->Ok_0) {
                    indifference_is_transitive(new, after[j]->Ok_0, old);
                }
            }
        }
    } else {
        let b = best->0;
        assert(after[b] == before[b]);
        assert forall|j: int|
            0 <= j < after.len() && (#[trigger] after[j]) is Ok && is_candidate(
                after[j]->Ok_0,
                needle,
            ) implies !is_preferred(after[j]->Ok_0, after[b]->Ok_0) && (j < b ==> is_preferred(
            after[b]->Ok_0,
            after[j]->Ok_0,
        )) by {
            if j < i {
                assert(after[j] == before[j]);
            }
        }
    }
}

/// One more entry that is no candidate: the choice stays.
pub(crate) proof fn keep_choice(
    entries: Seq<Result<DirEntry, String>>,
    needle: Seq<char>,
    i: int,
    b: int,
)
    requires
        0 <= i < entries.len(),
        entries[i] is Ok,
        !is_candidate(entries[i]->Ok_0, needle),
        is_choice(entries.take(i), needle, b),
    ensures
        is_choice(entries.take(i + 1), needle, b),
{
    let (before, after) = (entries.take(i), entries.take(i + 1));
    assert forall|j: int| 0 <= j < i implies after[j] == before[j] by {}
    assert(after[i] == entries[i]);
    assert(after[b] == before[b]);
}

/// The model file to take from a directory, by the listing of the directory: of the GGUF files
/// with `needle` in their names the most preferred.
pub fn find_gguf(
    models_dir: &FilePath,
    listing: &Result<Vec<Result<DirEntry, String>>, String>,
    needle: &str,
) -> (found: Result<Option<FilePath>, SenseVoiceError>)
    ensures
        match search(models_dir@, *listing, needle@) {
            Ok(Some(path)) => found matches Ok(Some(model)) && model@ == path,
            Ok(None) => found matches Ok(None),
            Err(message) => found matches Err(error) && error@ == message,
        },
{
    let entries: &Vec<Result<DirEntry, String>> = match listing {
        Ok(entries) => entries,
        Err(error) => {
            let mut message = "failed to read ".to_owned();
            message.append(models_dir.display().as_str());
            message.append(": ");
            message.append(error.as_str());
            return Err(SenseVoiceError::new(message));
        },
    };
    let mut best: Option<usize> = None;
    let mut i: usize = 0;
    while i < entries.len()
        invariant
            *listing == Ok::<Vec<Result<DirEntry, String>>, String>(*entries),
            i <= entries@.len(),
            forall|j: int| 0 <= j < i ==> (#[trigger] entries@[j]) is Ok,
            match best {
                Some(b) => b < i && is_choice(entries@.take(i as int), needle@, b as int),
                None => forall|j: int|
                    0 <= j < i ==> !is_candidate((#[trigger] entries@[j])->Ok_0, needle@),
            },
        decreases entries@.len() - i,
    {
        match &entries[i] {
            Err(error) => {
                assert(fails_first_at(entries@, i as int));
                let failed: Ghost<int> = Ghost(choose|k: int| fails_first_at(entries@, k));
                assert(failed@ == i) by {
                    assert(fails_first_at(entries@, failed@));
                    if failed@ < i {
                        assert(entries@[failed@] is Ok);
                    } else if failed@ > i {
                        assert(entries@[i as int] is Ok);
                    }
                }
                return Err(
                    SenseVoiceError::about("failed to read model entry: ", error.as_str()),
                );
            },
            Ok(entry) => {
                if is_model(entry, needle) {
                    let better: bool = match best {
                        None => true,
                        Some(b) => match &entries[b] {
                            Ok(chosen) => prefers(entry, chosen),
                            Err(_) => false,
                        },
                    };
                    proof {
                        let so_far = match best {
                            Some(b) => Some(b as int),
                            None => None,
                        };
                        extend_choice(entries@, needle@, i as int, so_far, better);
                    }
                    if better {
                        best = Some(i);
                    }
                } else {
                    proof {
                        if let Some(b) = best {
                            keep_choice(entries@, needle@, i as int, b as int);
                        }
                    }
                }
            },
        }
        i = i + 1;
    }
    assert(entries@.take(i as int) =~= entries@);
    assert(!exists|k: int| fails_first_at(entries@, k));
    match best {
        None => {
            assert(!exists|k: int| is_choice(entries@, needle@, k));
            Ok(None)
        },
        Some(b) => {
            proof {
                let k = choose|k: int| is_choice(entries@, needle@, k);
                choice_is_unique(entries@, needle@, b as int, k);
            }
            match &entries[b] {
                Ok(chosen) => Ok(Some(chosen.path.clone())),
                Err(_) => Ok(None),
            }
        },
    }
}

/// There is only one entry to take.
pub proof fn choice_is_unique(
    entries: Seq<Result<DirEntry, String>>,
    needle: Seq<char>,
    i: int,
    j: int,
)
    requires
        is_choice(entries, needle, i),
        is_choice(entries, needle, j),
    ensures
        i == j,
{
    assert(entries[i] is Ok && entries[j] is Ok);
}

} // verus!
