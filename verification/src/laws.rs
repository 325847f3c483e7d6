//! What holds of the library as a whole.

use vstd::prelude::*;
use vstd::string::*;
use vstd::utf8::*;

use crate::config;
use crate::config::RecognizerConfig;
use crate::models;
use crate::models::DirEntry;
use crate::path;
use crate::path::FilePath;
use crate::text;

verus! {

/// A path that the native library is given is the path that it reads: the bytes before the first
/// zero are all of the path's bytes.
pub proof fn native_library_reads_the_whole_path(path: Seq<u8>)
    requires
        path::c_path_refusal(path) is None,
    ensures
        path::read_up_to_zero(path.push(0)) == path,
{
    reads_up_to_the_first_zero(path);
}

proof fn reads_up_to_the_first_zero(bytes: Seq<u8>)
    requires
        !bytes.contains(0),
    ensures
        path::read_up_to_zero(bytes.push(0)) == bytes,
    decreases bytes.len(),
{
    let ended = bytes.push(0);
    if bytes.len() == 0 {
        assert(path::read_up_to_zero(ended) =~= bytes);
    } else {
        assert(bytes.contains(bytes[0]));
        let rest = bytes.drop_first();
        assert forall|i: int| 0 <= i < rest.len() implies rest[i] != 0 by {
            assert(bytes.contains(bytes[i + 1]));
        }
        reads_up_to_the_first_zero(rest);
        assert(ended.drop_first() =~= rest.push(0));
        assert(bytes =~= seq![bytes[0]] + rest);
    }
}

/// A path that is given as a text is refused exactly when the text has a zero character in it;
/// the message then shows the text as it is.
pub proof fn a_text_is_a_path_unless_it_holds_a_zero(text: Seq<char>)
    ensures
        path::c_path_refusal(encode_utf8(text)) == if text.contains('\0') {
            Some("path contains NUL byte: "@ + text)
        } else {
            None
        },
{
    encode_utf8_valid_utf8(text);
    encode_utf8_decode_utf8(text);
    zeros_are_encoded_as_zeros(text);
}

proof fn zeros_are_encoded_as_zeros(text: Seq<char>)
    ensures
        encode_utf8(text).contains(0) <==> text.contains('\0'),
    decreases text.len(),
{
    if text.len() > 0 {
        let rest = text.drop_first();
        let (first, after) = (encode_scalar(text[0] as u32), encode_utf8(rest));
        zeros_are_encoded_as_zeros(rest);
        only_zero_is_encoded_with_a_zero(text[0] as u32);
        assert(encode_utf8(text) == first + after);
        assert(text =~= seq![text[0]] + rest);
        if (first + after).contains(0) {
            let i = choose|i: int| 0 <= i < (first + after).len() && (first + after)[i] == 0;
            if i < first.len() {
                assert(first.contains(first[i]));
                char_u32_cast(text[0], text[0] as u32);
                assert(text[0] == '\0');
            } else {
                assert(after.contains(after[i - first.len()]));
                let j = choose|j: int| 0 <= j < rest.len() && rest[j] == '\0';
                assert(text[j + 1] == '\0');
            }
        }
        if text.contains('\0') {
            let j = choose|j: int| 0 <= j < text.len() && text[j] == '\0';
            if j == 0 {
                let i = choose|i: int| 0 <= i < first.len() && first[i] == 0;
                assert((first + after)[i] == 0);
            } else {
                assert(rest[j - 1] == '\0');
                let i = choose|i: int| 0 <= i < after.len() && after[i] == 0;
                assert((first + after)[first.len() + i] == 0);
            }
        }
    }
}

proof fn only_zero_is_encoded_with_a_zero(scalar: u32)
    ensures
        encode_scalar(scalar).contains(0) <==> scalar == 0,
{
    assert(scalar <= 0x7F ==> (((scalar & 0x7F) as u8) == 0 <==> scalar == 0)) by (bit_vector);
    assert(0xC0 | ((scalar >> 6) & 0x1F) as u8 != 0) by (bit_vector);
    assert(0xE0 | ((scalar >> 12) & 0x0F) as u8 != 0) by (bit_vector);
    assert(0xF0 | ((scalar >> 18) & 0x7) as u8 != 0) by (bit_vector);
    assert(0x80 | (scalar & 0x3F) as u8 != 0) by (bit_vector);
    assert(0x80 | ((scalar >> 6) & 0x3F) as u8 != 0) by (bit_vector);
    assert(0x80 | ((scalar >> 12) & 0x3F) as u8 != 0) by (bit_vector);
    if scalar == 0 {
        assert(encode_scalar(scalar)[0] == 0);
    }
}

/// Whether every entry of a listing could be read.
pub open spec fn all_readable(entries: Seq<Result<DirEntry, String>>) -> bool {
    forall|i: int| 0 <= i < entries.len() ==> (#[trigger] entries[i]) is Ok
}

/// Whether the listing holds a candidate.
pub open spec fn has_candidate(entries: Seq<Result<DirEntry, String>>, needle: Seq<char>) -> bool {
    exists|i: int|
        0 <= i < entries.len() && (#[trigger] entries[i]) is Ok && models::is_candidate(
            entries[i]->Ok_0,
            needle,
        )
}

proof fn candidate_gives_choice(entries: Seq<Result<DirEntry, String>>, needle: Seq<char>)
    requires
        all_readable(entries),
        has_candidate(entries, needle),
    ensures
        exists|i: int| models::is_choice(entries, needle, i),
    decreases entries.len(),
{
    let last = entries.len() - 1;
    let before = entries.drop_last();
    assert forall|i: int| 0 <= i < before.len() implies (#[trigger] before[i]) is Ok by {
        assert(entries[i] is Ok);
    }
    assert(entries.take(last) =~= before);
    assert(entries.take(last + 1) =~= entries);
    let k = choose|k: int|
        0 <= k < entries.len() && (#[trigger] entries[k]) is Ok && models::is_candidate(
            entries[k]->Ok_0,
            needle,
        );
    if has_candidate(before, needle) {
        candidate_gives_choice(before, needle);
        let b = choose|b: int| models::is_choice(before, needle, b);
        if models::is_candidate(entries[last]->Ok_0, needle) {
            let better = models::is_preferred(entries[last]->Ok_0, entries[b]->Ok_0);
            models::extend_choice(entries, needle, last, Some(b), better);
        } else {
            models::keep_choice(entries, needle, last, b);
        }
    } else {
        assert(k == last) by {
            if k < last {
                assert(before[k] == entries[k]);
            }
        }
        assert forall|j: int| 0 <= j < last implies !models::is_candidate(
            (#[trigger] entries[j])->Ok_0,
            needle,
        ) by {
            assert(before[j] == entries[j]);
        }
        models::extend_choice(entries, needle, last, None, true);
    }
}

/// In a directory that can be read to its end, a search finds a model exactly when there is a
/// candidate, and the model is the path of a candidate.
pub proof fn search_finds_a_candidate(
    models_dir: Seq<u8>,
    entries: Vec<Result<DirEntry, String>>,
    needle: Seq<char>,
)
    requires
        all_readable(entries@),
    ensures
        match models::search(models_dir, Ok(entries), needle) {
            Ok(Some(path)) => exists|i: int|
                0 <= i < entries@.len() && models::is_candidate(
                    (#[trigger] entries@[i])->Ok_0,
                    needle,
                ) && entries@[i]->Ok_0.path@ == path,
            Ok(None) => !has_candidate(entries@, needle),
            Err(_) => false,
        },
{
    assert(!exists|i: int| models::fails_first_at(entries@, i));
    if has_candidate(entries@, needle) {
        candidate_gives_choice(entries@, needle);
    }
    if exists|i: int| models::is_choice(entries@, needle, i) {
        let i = choose|i: int| models::is_choice(entries@, needle, i);
        assert(models::is_candidate(entries@[i]->Ok_0, needle));
    }
}

/// No candidate has a better rank than the model that is taken: one with 8-bit weights is taken
/// where there is one, else one with 16-bit weights where there is one.
pub proof fn choice_has_the_best_rank(
    entries: Seq<Result<DirEntry, String>>,
    needle: Seq<char>,
    i: int,
    j: int,
)
    requires
        models::is_choice(entries, needle, i),
        0 <= j < entries.len(),
        entries[j] is Ok,
        models::is_candidate(entries[j]->Ok_0, needle),
    ensures
        models::rank(models::name_of(entries[i]->Ok_0)) <= models::rank(
            models::name_of(entries[j]->Ok_0),
        ),
{
}

/// Whether the paths of all entries with a name begin with `prefix` and go on with the name, as
/// in the listing of a directory.
pub open spec fn in_one_directory(
    entries: Seq<Result<DirEntry, String>>,
    prefix: Seq<u8>,
) -> bool {
    forall|i: int|
        0 <= i < entries.len() && (#[trigger] entries[i]) is Ok
            && entries[i]->Ok_0.file_name is Some ==> entries[i]->Ok_0.path@ == prefix
            + encode_utf8(models::name_of(entries[i]->Ok_0))
}

/// In one directory the order of names is the order of paths: among the candidates of its rank,
/// the model that is taken is the first by its path.
pub proof fn choice_is_the_first_by_its_path(
    entries: Seq<Result<DirEntry, String>>,
    prefix: Seq<u8>,
    needle: Seq<char>,
    i: int,
    j: int,
)
    requires
        in_one_directory(entries, prefix),
        models::is_choice(entries, needle, i),
        0 <= j < entries.len(),
        entries[j] is Ok,
        models::is_candidate(entries[j]->Ok_0, needle),
        models::rank(models::name_of(entries[i]->Ok_0)) == models::rank(
            models::name_of(entries[j]->Ok_0),
        ),
    ensures
        !text::bytes_precede(entries[j]->Ok_0.path@, entries[i]->Ok_0.path@),
        entries[i]->Ok_0.path@ == entries[j]->Ok_0.path@ || text::bytes_precede(
            entries[i]->Ok_0.path@,
            entries[j]->Ok_0.path@,
        ),
{
    let (name_i, name_j) = (
        encode_utf8(models::name_of(entries[i]->Ok_0)),
        encode_utf8(models::name_of(entries[j]->Ok_0)),
    );
    text::a_common_beginning_keeps_the_order(prefix, name_j, name_i);
    text::a_common_beginning_keeps_the_order(prefix, name_i, name_j);
    if name_i != name_j {
        text::bytes_precede_is_total(name_i, name_j);
    }
}

/// Case does not matter in a file name: where two names agree up to the case of ASCII letters,
/// both files are candidates or neither is, and they have the same rank. It does not matter in
/// what is searched for either.
pub proof fn case_does_not_matter(a: DirEntry, b: DirEntry, x: Seq<char>, y: Seq<char>)
    requires
        a.is_file == b.is_file,
        a.file_name is Some == b.file_name is Some,
        text::ascii_lowercase(models::name_of(a)) == text::ascii_lowercase(models::name_of(b)),
        text::ascii_lowercase(x) == text::ascii_lowercase(y),
    ensures
        models::is_candidate(a, x) == models::is_candidate(b, y),
        models::rank(models::name_of(a)) == models::rank(models::name_of(b)),
{
}

/// The case of what is searched for does not matter to a search.
pub proof fn search_ignores_the_case_of_the_needle(
    models_dir: Seq<u8>,
    listing: Result<Vec<Result<DirEntry, String>>, String>,
    x: Seq<char>,
    y: Seq<char>,
)
    requires
        text::ascii_lowercase(x) == text::ascii_lowercase(y),
    ensures
        models::search(models_dir, listing, x) == models::search(models_dir, listing, y),
{
    if let Ok(entries) = listing {
        let entries = entries@;
        assert forall|i: int| models::is_choice(entries, x, i) == models::is_choice(
            entries,
            y,
            i,
        ) by {
            assert forall|e: DirEntry| models::is_candidate(e, x) == models::is_candidate(e, y) by {
                case_does_not_matter(e, e, x, y);
            }
        }
        if exists|i: int| models::is_choice(entries, x, i) {
            let i = choose|i: int| models::is_choice(entries, x, i);
            assert(models::is_choice(entries, y, i));
            let j = choose|j: int| models::is_choice(entries, y, j);
            models::choice_is_unique(entries, y, i, j);
        } else if exists|i: int| models::is_choice(entries, y, i) {
            let j = choose|j: int| models::is_choice(entries, y, j);
            assert(models::is_choice(entries, x, j));
        }
    }
}

/// Whether two entries differ in the case of their names, and perhaps in their paths, but in
/// nothing else that a search looks at.
pub open spec fn same_but_for_case(
    a: Result<DirEntry, String>,
    b: Result<DirEntry, String>,
) -> bool {
    match (a, b) {
        (Ok(a), Ok(b)) => {
            &&& a.is_file == b.is_file
            &&& a.file_name is Some == b.file_name is Some
            &&& text::ascii_lowercase(models::name_of(a)) == text::ascii_lowercase(
                models::name_of(b),
            )
        },
        (Err(a), Err(b)) => a@ == b@,
        _ => false,
    }
}

/// Whether the entries of two listings have the same paths.
pub open spec fn same_paths(
    a: Seq<Result<DirEntry, String>>,
    b: Seq<Result<DirEntry, String>>,
) -> bool {
    forall|i: int|
        0 <= i < a.len() && (#[trigger] a[i]) is Ok ==> a[i]->Ok_0.path@ == (
        #[trigger] b[i])->Ok_0.path@
}

/// Whether no two candidates of a listing have the same rank.
pub open spec fn ranks_differ(entries: Seq<Result<DirEntry, String>>, needle: Seq<char>) -> bool {
    forall|i: int, j: int|
        0 <= i < entries.len() && 0 <= j < entries.len() && (#[trigger] entries[i]) is Ok && (
        #[trigger] entries[j]) is Ok && models::is_candidate(entries[i]->Ok_0, needle)
            && models::is_candidate(entries[j]->Ok_0, needle) && models::rank(
            models::name_of(entries[i]->Ok_0),
        ) == models::rank(models::name_of(entries[j]->Ok_0)) ==> i == j
}

/// The case of file names does not matter to whether a search finds a model, nor to the rank of
/// the model. Where no two candidates have the same rank, it does not matter to which entry is
/// taken either. (Among candidates of the same rank names are ordered by their bytes, and there
/// a capital letter comes before a small one.)
pub proof fn search_ignores_the_case_of_names(
    models_dir: Seq<u8>,
    a: Vec<Result<DirEntry, String>>,
    b: Vec<Result<DirEntry, String>>,
    needle: Seq<char>,
)
    requires
        a@.len() == b@.len(),
        forall|i: int| 0 <= i < a@.len() ==> same_but_for_case(#[trigger] a@[i], #[trigger] b@[i]),
    ensures
        match models::search(models_dir, Ok(a), needle) {
            Ok(Some(_)) => models::search(models_dir, Ok(b), needle) matches Ok(Some(_)),
            found => models::search(models_dir, Ok(b), needle) == found,
        },
        forall|i: int, j: int|
            models::is_choice(a@, needle, i) && models::is_choice(b@, needle, j) && all_readable(a@)
                ==> models::rank(models::name_of(a@[i]->Ok_0)) == models::rank(
                models::name_of(b@[j]->Ok_0),
            ) && (ranks_differ(a@, needle) ==> i == j),
        ranks_differ(a@, needle) && same_paths(a@, b@) ==> models::search(
            models_dir,
            Ok(a),
            needle,
        ) == models::search(models_dir, Ok(b), needle),
{
    let (s, t) = (a@, b@);
    assert forall|i: int| models::fails_first_at(s, i) == models::fails_first_at(t, i) by {
        assert forall|k: int| 0 <= k < s.len() implies (s[k] is Ok) == (t[k] is Ok) by {
            assert(same_but_for_case(s[k], t[k]));
        }
    }
    assert forall|k: int| 0 <= k < s.len() && s[k] is Ok implies t[k] is Ok
        && models::is_candidate(s[k]->Ok_0, needle) == models::is_candidate(t[k]->Ok_0, needle)
        && models::rank(models::name_of(s[k]->Ok_0)) == models::rank(
        models::name_of(t[k]->Ok_0),
    ) by {
        assert(same_but_for_case(s[k], t[k]));
        case_does_not_matter(s[k]->Ok_0, t[k]->Ok_0, needle, needle);
    }
    if exists|i: int| models::fails_first_at(s, i) {
        let i = choose|i: int| models::fails_first_at(s, i);
        assert(models::fails_first_at(t, i));
        let j = choose|j: int| models::fails_first_at(t, j);
        assert(i == j) by {
            if i < j {
                assert(t[i] is Ok);
            } else if j < i {
                assert(t[j] is Ok);
            }
        }
        assert(same_but_for_case(s[i], t[i]));
        some_entry_is_unreadable(s, i);
    } else {
        no_failure_is_readable(s);
        assert(!exists|j: int| models::fails_first_at(t, j)) by {
            if exists|j: int| models::fails_first_at(t, j) {
                let j = choose|j: int| models::fails_first_at(t, j);
                assert(models::fails_first_at(s, j));
            }
        }
        no_failure_is_readable(t);
        if exists|i: int| models::is_choice(s, needle, i) {
            let i = choose|i: int| models::is_choice(s, needle, i);
            assert(s[i] is Ok);
            assert(t[i] is Ok && models::is_candidate(t[i]->Ok_0, needle));
            candidate_gives_choice(t, needle);
        }
        if exists|j: int| models::is_choice(t, needle, j) {
            let j = choose|j: int| models::is_choice(t, needle, j);
            assert(s[j] is Ok && models::is_candidate(s[j]->Ok_0, needle));
            candidate_gives_choice(s, needle);
        }
    }
    assert forall|i: int, j: int|
        models::is_choice(s, needle, i) && models::is_choice(t, needle, j) && all_readable(
            s,
        ) implies models::rank(models::name_of(s[i]->Ok_0)) == models::rank(
        models::name_of(t[j]->Ok_0),
    ) && (ranks_differ(s, needle) ==> i == j) by {
        assert(s[i] is Ok && s[j] is Ok && t[i] is Ok && t[j] is Ok);
        choice_has_the_best_rank(s, needle, i, j);
        choice_has_the_best_rank(t, needle, j, i);
    }
}

proof fn some_entry_is_unreadable(entries: Seq<Result<DirEntry, String>>, i: int)
    requires
        models::fails_first_at(entries, i),
    ensures
        !all_readable(entries),
{
    assert(!(entries[i] is Ok));
}

proof fn no_failure_is_readable(entries: Seq<Result<DirEntry, String>>)
    requires
        !exists|i: int| models::fails_first_at(entries, i),
    ensures
        all_readable(entries),
{
    assert forall|i: int| 0 <= i < entries.len() implies (#[trigger] entries[i]) is Ok by {
        readable_up_to(entries, i + 1);
    }
}

proof fn readable_up_to(entries: Seq<Result<DirEntry, String>>, n: int)
    requires
        !exists|i: int| models::fails_first_at(entries, i),
        0 <= n <= entries.len(),
    ensures
        forall|i: int| 0 <= i < n ==> (#[trigger] entries[i]) is Ok,
    decreases n,
{
    if n > 0 {
        readable_up_to(entries, n - 1);
        if entries[n - 1] is Err {
            assert(models::fails_first_at(entries, n - 1));
        }
    }
}

/// The candidates of a listing, in their order.
pub open spec fn candidates(
    entries: Seq<Result<DirEntry, String>>,
    needle: Seq<char>,
) -> Seq<Result<DirEntry, String>> {
    entries.filter(
        |entry: Result<DirEntry, String>|
            entry is Ok && models::is_candidate(entry->Ok_0, needle),
    )
}

/// Entries that are no candidates do not matter to a search: two listings with the same
/// candidates give the same model, whatever else they hold and wherever it stands.
pub proof fn search_looks_at_candidates_only(
    models_dir: Seq<u8>,
    a: Vec<Result<DirEntry, String>>,
    b: Vec<Result<DirEntry, String>>,
    needle: Seq<char>,
)
    requires
        all_readable(a@),
        all_readable(b@),
        candidates(a@, needle) == candidates(b@, needle),
    ensures
        models::search(models_dir, Ok(a), needle) == models::search(models_dir, Ok(b), needle),
{
    let shared = candidates(a@, needle);
    assert(!exists|i: int| models::fails_first_at(a@, i));
    assert(!exists|i: int| models::fails_first_at(b@, i));
    if exists|i: int| models::is_choice(a@, needle, i) {
        let i = choose|i: int| models::is_choice(a@, needle, i);
        choice_is_a_candidate(b@, a@, needle, i);
        candidate_gives_choice(b@, needle);
        let j = choose|j: int| models::is_choice(b@, needle, j);
        let k = choice_among_candidates(a@, needle, i);
        let l = choice_among_candidates(b@, needle, j);
        models::choice_is_unique(shared, needle, k, l);
    } else if exists|j: int| models::is_choice(b@, needle, j) {
        let j = choose|j: int| models::is_choice(b@, needle, j);
        choice_is_a_candidate(a@, b@, needle, j);
        candidate_gives_choice(a@, needle);
    }
}

proof fn choice_is_a_candidate(
    entries: Seq<Result<DirEntry, String>>,
    others: Seq<Result<DirEntry, String>>,
    needle: Seq<char>,
    i: int,
)
    requires
        candidates(entries, needle) == candidates(others, needle),
        models::is_choice(others, needle, i),
    ensures
        has_candidate(entries, needle),
{
    let pred = |entry: Result<DirEntry, String>|
        entry is Ok && models::is_candidate(entry->Ok_0, needle);
    others.lemma_filter_contains(pred, i);
    let k = choose|k: int|
        0 <= k < candidates(others, needle).len() && candidates(others, needle)[k] == others[i];
    let there = candidate_position(entries, needle, k);
}

proof fn candidate_position(
    entries: Seq<Result<DirEntry, String>>,
    needle: Seq<char>,
    k: int,
) -> (there: int)
    requires
        0 <= k < candidates(entries, needle).len(),
    ensures
        0 <= there < entries.len(),
        entries[there] == candidates(entries, needle)[k],
        entries[there] is Ok,
        models::is_candidate(entries[there]->Ok_0, needle),
    decreases entries.len(),
{
    reveal(Seq::filter);
    let before = entries.drop_last();
    if k < candidates(before, needle).len() {
        candidate_position(before, needle, k)
    } else {
        entries.len() - 1
    }
}

proof fn choice_among_candidates(
    entries: Seq<Result<DirEntry, String>>,
    needle: Seq<char>,
    i: int,
) -> (k: int)
    requires
        all_readable(entries),
        models::is_choice(entries, needle, i),
    ensures
        models::is_choice(candidates(entries, needle), needle, k),
        candidates(entries, needle)[k] == entries[i],
    decreases entries.len(),
{
    reveal(Seq::filter);
    let last = entries.len() - 1;
    let before = entries.drop_last();
    let (fewer, all) = (candidates(before, needle), candidates(entries, needle));
    assert forall|j: int| 0 <= j < before.len() implies (#[trigger] before[j]) is Ok by {
        assert(entries[j] is Ok);
    }
    if i == last {
        assert(all == fewer.push(entries[last]));
        assert forall|k: int| 0 <= k < all.len() implies !models::is_preferred(
            (#[trigger] all[k])->Ok_0,
            entries[last]->Ok_0,
        ) && (k < fewer.len() ==> models::is_preferred(entries[last]->Ok_0, all[k]->Ok_0)) by {
            if k < fewer.len() {
                let there = candidate_position(before, needle, k);
                assert(entries[there] == all[k]);
            } else {
                models::preference_is_strict(entries[last]->Ok_0, entries[last]->Ok_0);
            }
        }
        fewer.len() as int
    } else {
        assert(models::is_choice(before, needle, i)) by {
            assert forall|j: int| 0 <= j < before.len() implies before[j] == entries[j] by {}
        }
        let k = choice_among_candidates(before, needle, i);
        assert(entries[last] is Ok);
        if models::is_candidate(entries[last]->Ok_0, needle) {
            assert(all == fewer.push(entries[last]));
            assert(models::is_choice(all, needle, k)) by {
                assert forall|j: int| 0 <= j < fewer.len() implies all[j] == fewer[j] by {}
            }
        } else {
            assert(all == fewer);
        }
        k
    }
}

/// Where the first listing of a models directory gives no SenseVoice model, the second listing
/// does not matter.
pub proof fn the_second_listing_is_for_the_vad_model(
    models_dir: Seq<u8>,
    first: Result<Vec<Result<DirEntry, String>>, String>,
    second: Result<Vec<Result<DirEntry, String>>, String>,
    other: Result<Vec<Result<DirEntry, String>>, String>,
)
    requires
        config::sensevoice_model_in(models_dir, first) is Err,
    ensures
        config::models_in(models_dir, first, second) == config::models_in(
            models_dir,
            first,
            other,
        ),
        config::models_in(models_dir, first, second) is Err,
{
}

/// Settings are independent of each other: the order in which they are made does not matter, and
/// of two for the same thing the later counts.
pub proof fn settings_are_independent(
    config: RecognizerConfig,
    vad_model: FilePath,
    other_vad_model: FilePath,
    n_threads: i32,
    other_n_threads: i32,
    keep_tags: bool,
    other_keep_tags: bool,
)
    ensures
        config::vad_model_set(config::threads_set(config, n_threads), vad_model)
            == config::threads_set(config::vad_model_set(config, vad_model), n_threads),
        config::vad_model_set(config::keep_tags_set(config, keep_tags), vad_model)
            == config::keep_tags_set(config::vad_model_set(config, vad_model), keep_tags),
        config::threads_set(config::keep_tags_set(config, keep_tags), n_threads)
            == config::keep_tags_set(config::threads_set(config, n_threads), keep_tags),
        config::vad_model_set(config::vad_model_set(config, other_vad_model), vad_model)
            == config::vad_model_set(config, vad_model),
        config::threads_set(config::threads_set(config, other_n_threads), n_threads)
            == config::threads_set(config, n_threads),
        config::keep_tags_set(config::keep_tags_set(config, other_keep_tags), keep_tags)
            == config::keep_tags_set(config, keep_tags),
{
}

/// Whether two listings hold the same entries.
pub open spec fn same_entries(
    a: Seq<Result<DirEntry, String>>,
    b: Seq<Result<DirEntry, String>>,
) -> bool {
    forall|entry: Result<DirEntry, String>| a.contains(entry) <==> #[trigger] b.contains(entry)
}

/// Whether no two different entries of a listing have the same name. Of an entry without a name
/// nothing is asked.
pub open spec fn names_differ(entries: Seq<Result<DirEntry, String>>) -> bool {
    forall|i: int, j: int|
        0 <= i < entries.len() && 0 <= j < entries.len() && (#[trigger] entries[i]) is Ok && (
        #[trigger] entries[j]) is Ok && entries[i]->Ok_0.file_name is Some
            && entries[j]->Ok_0.file_name is Some && models::name_of(entries[i]->Ok_0)
            == models::name_of(entries[j]->Ok_0) ==> entries[i] == entries[j]
}

/// The order in which a directory is listed does not matter: two listings of the same entries
/// give the same model.
pub proof fn search_ignores_the_order_of_entries(
    models_dir: Seq<u8>,
    a: Vec<Result<DirEntry, String>>,
    b: Vec<Result<DirEntry, String>>,
    needle: Seq<char>,
)
    requires
        all_readable(a@),
        all_readable(b@),
        same_entries(a@, b@),
        names_differ(a@),
    ensures
        models::search(models_dir, Ok(a), needle) == models::search(models_dir, Ok(b), needle),
{
    assert(!exists|i: int| models::fails_first_at(a@, i));
    assert(!exists|i: int| models::fails_first_at(b@, i));
    let chosen_a = exists|i: int| models::is_choice(a@, needle, i);
    let chosen_b = exists|i: int| models::is_choice(b@, needle, i);
    if chosen_a {
        let i = choose|i: int| models::is_choice(a@, needle, i);
        let there = position(a@, b@, i);
        assert(has_candidate(b@, needle));
        candidate_gives_choice(b@, needle);
    }
    if chosen_b {
        let j = choose|j: int| models::is_choice(b@, needle, j);
        let there = position(b@, a@, j);
        assert(has_candidate(a@, needle));
        candidate_gives_choice(a@, needle);
    }
    if chosen_a && chosen_b {
        let i = choose|i: int| models::is_choice(a@, needle, i);
        let j = choose|j: int| models::is_choice(b@, needle, j);
        let i_in_b = position(a@, b@, i);
        let j_in_a = position(b@, a@, j);
        let (x, y) = (a@[i]->Ok_0, b@[j]->Ok_0);
        assert(a@[j_in_a]->Ok_0 == y);
        assert(b@[i_in_b]->Ok_0 == x);
        assert(!models::is_preferred(y, x));
        assert(!models::is_preferred(x, y));
        if models::name_of(x) != models::name_of(y) {
            models::preference_is_total(x, y);
        }
        assert(a@[i] == a@[j_in_a]);
    }
}

proof fn position(
    a: Seq<Result<DirEntry, String>>,
    b: Seq<Result<DirEntry, String>>,
    i: int,
) -> (there: int)
    requires
        same_entries(a, b) || same_entries(b, a),
        0 <= i < a.len(),
    ensures
        0 <= there < b.len(),
        b[there] == a[i],
{
    assert(a.contains(a[i]));
    assert(b.contains(a[i]));
    choose|there: int| 0 <= there < b.len() && b[there] == a[i]
}

} // verus!
