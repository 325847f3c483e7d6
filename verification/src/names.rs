//! What file names, directories and paths mean, told without the notions that the search itself
//! is written in.

use vstd::prelude::*;
use vstd::string::*;
use vstd::utf8::*;

use crate::config;
use crate::config::RecognizerConfig;
use crate::laws;
use crate::models;
use crate::models::DirEntry;
use crate::path;
use crate::path::FilePath;
use crate::text;

verus! {

/// Whether `lower` is `name` with each of the letters from A to Z replaced by its small letter.
pub open spec fn is_lowered(lower: Seq<char>, name: Seq<char>) -> bool {
    &&& lower.len() == name.len()
    &&& forall|i: int|
        #![trigger lower[i]]
        #![trigger name[i]]
        0 <= i < name.len() ==> if 'A' <= name[i] <= 'Z' {
            lower[i] as u32 == name[i] as u32 + 32
        } else {
            lower[i] == name[i]
        }
}

/// Whether a text is something, then `part`, then something.
pub open spec fn holds(text: Seq<char>, part: Seq<char>) -> bool {
    exists|a: Seq<char>, b: Seq<char>| text == #[trigger] (a + part + b)
}

/// Whether a text is something, then `part`.
pub open spec fn ends(text: Seq<char>, part: Seq<char>) -> bool {
    exists|a: Seq<char>| text == #[trigger] (a + part)
}

/// Whether a name holds `part` when its capital letters are read as small ones.
pub open spec fn mentions(name: Seq<char>, part: Seq<char>) -> bool {
    exists|lower: Seq<char>| #[trigger] is_lowered(lower, name) && holds(lower, part)
}

/// Whether two byte sequences agree up to some position, where the first ends or has the smaller
/// byte.
pub open spec fn is_earlier(a: Seq<u8>, b: Seq<u8>) -> bool {
    exists|n: int| #[trigger] falls_behind_at(a, b, n)
}

/// Whether two byte sequences agree before position `n`, where the first ends or has the smaller
/// byte.
pub open spec fn falls_behind_at(a: Seq<u8>, b: Seq<u8>, n: int) -> bool {
    &&& 0 <= n < b.len()
    &&& n <= a.len()
    &&& forall|i: int| 0 <= i < n ==> a[i] == b[i]
    &&& n < a.len() ==> a[n] < b[n]
}

/// Whether the entry is a regular file whose name, read in small letters, ends with `.gguf` and
/// holds what is searched for.
pub open spec fn is_model_file(entry: DirEntry, needle: Seq<char>) -> bool {
    &&& entry.is_file
    &&& entry.file_name matches Some(name)
    &&& exists|lower: Seq<char>, sought: Seq<char>|
        #[trigger] is_lowered(lower, name@) && #[trigger] is_lowered(sought, needle) && holds(
            lower,
            sought,
        ) && ends(lower, ".gguf"@)
}

/// Reading letters as small ones changes the letters from A to Z and nothing else.
pub proof fn lower_case_is_of_ascii_letters(name: Seq<char>, lower: Seq<char>)
    ensures
        is_lowered(lower, name) <==> lower == text::ascii_lowercase(name),
{
    let small = text::ascii_lowercase(name);
    assert forall|i: int| 0 <= i < name.len() implies (if 'A' <= name[i] <= 'Z' {
        small[i] as u32 == name[i] as u32 + 32
    } else {
        small[i] == name[i]
    }) by {}
    if is_lowered(lower, name) {
        assert forall|i: int| 0 <= i < name.len() implies lower[i] == small[i] by {
            char_u32_cast(lower[i], lower[i] as u32);
            char_u32_cast(small[i], small[i] as u32);
        }
        assert(lower =~= small);
    }
}

/// A part stands in a text exactly when the text is something, the part, and something.
pub proof fn a_part_stands_between_two_others(text: Seq<char>, part: Seq<char>)
    ensures
        text::has_part(text, part) <==> holds(text, part),
        text::has_ending(text, part) <==> ends(text, part),
{
    if text::has_part(text, part) {
        let at = choose|at: int| text::occurs_at(text, part, at);
        let (a, b) = (text.take(at), text.skip(at + part.len()));
        assert(text =~= a + part + b);
    }
    if holds(text, part) {
        let (a, b) = choose|a: Seq<char>, b: Seq<char>| text == #[trigger] (a + part + b);
        assert(text.subrange(a.len() as int, (a.len() + part.len()) as int) =~= part);
        assert(text::occurs_at(text, part, a.len() as int));
    }
    if text::has_ending(text, part) {
        let a = text.take(text.len() - part.len());
        assert(text =~= a + part);
    }
    if ends(text, part) {
        let a = choose|a: Seq<char>| text == #[trigger] (a + part);
        assert(text.subrange(a.len() as int, (a.len() + part.len()) as int) =~= part);
    }
}

/// The order of byte sequences is decided at the first position where they differ.
pub proof fn order_is_decided_at_the_first_difference(a: Seq<u8>, b: Seq<u8>)
    ensures
        text::bytes_precede(a, b) <==> is_earlier(a, b),
{
    if text::bytes_precede(a, b) {
        let n = choose|n: int|
            #[trigger] text::differ_first_at(a, b, n) && (n == a.len() || a[n] < b[n]);
        assert forall|i: int| 0 <= i < n implies a[i] == b[i] by {
            assert(a.take(n)[i] == b.take(n)[i]);
        }
        assert(falls_behind_at(a, b, n));
    }
    if is_earlier(a, b) {
        let n = choose|n: int| #[trigger] falls_behind_at(a, b, n);
        assert(a.take(n) =~= b.take(n));
        assert(text::differ_first_at(a, b, n));
    }
}

/// A candidate is exactly a model file.
pub proof fn candidates_are_the_model_files(entry: DirEntry, needle: Seq<char>)
    ensures
        models::is_candidate(entry, needle) <==> is_model_file(entry, needle),
{
    if let Some(name) = entry.file_name {
        let (lower, sought) = (text::ascii_lowercase(name@), text::ascii_lowercase(needle));
        lower_case_is_of_ascii_letters(name@, lower);
        lower_case_is_of_ascii_letters(needle, sought);
        a_part_stands_between_two_others(lower, sought);
        a_part_stands_between_two_others(lower, ".gguf"@);
        if is_model_file(entry, needle) {
            let (l, s) = choose|l: Seq<char>, s: Seq<char>|
                #[trigger] is_lowered(l, name@) && #[trigger] is_lowered(s, needle) && holds(l, s)
                    && ends(l, ".gguf"@);
            lower_case_is_of_ascii_letters(name@, l);
            lower_case_is_of_ascii_letters(needle, s);
        }
    }
}

/// A name has the best rank exactly when it mentions `q8`, the next exactly when it mentions
/// `f16` but not `q8`, and else the last.
pub proof fn ranks_go_by_what_names_mention(name: Seq<char>)
    ensures
        models::rank(name) == 0 <==> mentions(name, "q8"@),
        models::rank(name) == 1 <==> !mentions(name, "q8"@) && mentions(name, "f16"@),
        0 <= models::rank(name) <= 2,
{
    mentions_in_lower_case(name, "q8"@);
    mentions_in_lower_case(name, "f16"@);
}

proof fn mentions_in_lower_case(name: Seq<char>, part: Seq<char>)
    ensures
        mentions(name, part) <==> text::has_part(text::ascii_lowercase(name), part),
{
    let lower = text::ascii_lowercase(name);
    lower_case_is_of_ascii_letters(name, lower);
    a_part_stands_between_two_others(lower, part);
    if mentions(name, part) {
        let l = choose|l: Seq<char>| #[trigger] is_lowered(l, name) && holds(l, part);
        lower_case_is_of_ascii_letters(name, l);
    }
}

/// A name is the entry's own; an entry without one counts as having the empty name.
pub proof fn names_are_the_entries_own(entry: DirEntry)
    ensures
        entry.file_name matches Some(name) ==> models::name_of(entry) == name@,
        entry.file_name is None ==> models::name_of(entry).len() == 0,
{
}

/// A model file is never overlooked: where a directory that can be read holds a regular file
/// whose name, in small letters, is `a`, then what is searched for, then `b`, and also `stem`,
/// then `.gguf`, a search finds a model.
pub proof fn a_model_file_is_never_overlooked(
    models_dir: Seq<u8>,
    entries: Vec<Result<DirEntry, String>>,
    needle: Seq<char>,
    k: int,
    lower: Seq<char>,
    sought: Seq<char>,
    a: Seq<char>,
    b: Seq<char>,
    stem: Seq<char>,
)
    requires
        forall|i: int| 0 <= i < entries@.len() ==> (#[trigger] entries@[i]) is Ok,
        0 <= k < entries@.len(),
        entries@[k]->Ok_0.is_file,
        entries@[k]->Ok_0.file_name matches Some(name) && is_lowered(lower, name@),
        is_lowered(sought, needle),
        lower == a + sought + b,
        lower == stem + ".gguf"@,
    ensures
        models::search(models_dir, Ok(entries), needle) matches Ok(Some(_)),
{
    assert(holds(lower, sought));
    assert(ends(lower, ".gguf"@));
    assert(is_model_file(entries@[k]->Ok_0, needle));
    candidates_are_the_model_files(entries@[k]->Ok_0, needle);
    assert(laws::has_candidate(entries@, needle));
    laws::search_finds_a_candidate(models_dir, entries, needle);
}

/// Whether nothing speaks for taking entry `j` in place of entry `k`.
pub open spec fn is_rightly_taken(
    entries: Seq<Result<DirEntry, String>>,
    k: int,
    j: int,
) -> bool {
    match (entries[k]->Ok_0.file_name, entries[j]->Ok_0.file_name) {
        (Some(taken), Some(other)) => {
            let (taken_q8, other_q8) = (mentions(taken@, "q8"@), mentions(other@, "q8"@));
            let (taken_f16, other_f16) = (mentions(taken@, "f16"@), mentions(other@, "f16"@));
            if taken_q8 != other_q8 {
                taken_q8
            } else if !taken_q8 && taken_f16 != other_f16 {
                taken_f16
            } else {
                ||| is_earlier(encode_utf8(taken@), encode_utf8(other@))
                ||| taken@ == other@ && k <= j
            }
        },
        _ => false,
    }
}

/// What a search finds is the path of a model file of the listing. One that mentions `q8` goes
/// before one that does not, then one that mentions `f16`, then the one with the earlier name,
/// then the one that is listed first. Nothing is found exactly when there is no model file.
pub proof fn the_best_model_file_is_found(
    models_dir: Seq<u8>,
    entries: Vec<Result<DirEntry, String>>,
    needle: Seq<char>,
)
    requires
        forall|i: int| 0 <= i < entries@.len() ==> (#[trigger] entries@[i]) is Ok,
    ensures
        match models::search(models_dir, Ok(entries), needle) {
            Ok(Some(path)) => exists|k: int|
                {
                    &&& 0 <= k < entries@.len()
                    &&& (#[trigger] entries@[k])->Ok_0.path@ == path
                    &&& is_model_file(entries@[k]->Ok_0, needle)
                    &&& forall|j: int|
                        0 <= j < entries@.len() && is_model_file(
                            (#[trigger] entries@[j])->Ok_0,
                            needle,
                        ) ==> is_rightly_taken(entries@, k, j)
                },
            Ok(None) => forall|j: int|
                0 <= j < entries@.len() ==> !is_model_file((#[trigger] entries@[j])->Ok_0, needle),
            Err(_) => false,
        },
{
    let s = entries@;
    assert(!exists|i: int| models::fails_first_at(s, i));
    laws::search_finds_a_candidate(models_dir, entries, needle);
    assert forall|j: int| 0 <= j < s.len() implies models::is_candidate(
        (#[trigger] s[j])->Ok_0,
        needle,
    ) == is_model_file(s[j]->Ok_0, needle) by {
        candidates_are_the_model_files(s[j]->Ok_0, needle);
    }
    if exists|k: int| models::is_choice(s, needle, k) {
        let k = choose|k: int| models::is_choice(s, needle, k);
        assert forall|j: int|
            0 <= j < s.len() && is_model_file((#[trigger] s[j])->Ok_0, needle) implies
            is_rightly_taken(s, k, j) by {
            let (taken, other) = (models::name_of(s[k]->Ok_0), models::name_of(s[j]->Ok_0));
            assert(models::is_candidate(s[j]->Ok_0, needle));
            ranks_go_by_what_names_mention(taken);
            ranks_go_by_what_names_mention(other);
            order_is_decided_at_the_first_difference(encode_utf8(taken), encode_utf8(other));
            order_is_decided_at_the_first_difference(encode_utf8(other), encode_utf8(taken));
            if taken != other {
                encode_utf8_decode_utf8(taken);
                encode_utf8_decode_utf8(other);
                text::bytes_precede_is_total(encode_utf8(taken), encode_utf8(other));
            } else {
                text::bytes_precede_is_strict(encode_utf8(taken), encode_utf8(taken));
            }
        }
        assert(s[k]->Ok_0.path@ == s[k]->Ok_0.path@);
    }
}

/// A directory that cannot be listed, or not to its end, gives the error that kept it from being
/// listed, and of several the first.
pub proof fn a_listing_error_is_told(
    models_dir: Seq<u8>,
    error: String,
    entries: Vec<Result<DirEntry, String>>,
    needle: Seq<char>,
    i: int,
)
    requires
        0 <= i < entries@.len(),
        entries@[i] is Err,
        forall|j: int| 0 <= j < i ==> (#[trigger] entries@[j]) is Ok,
    ensures
        models::search(models_dir, Err(error), needle) == Err::<Option<Seq<u8>>, Seq<char>>(
            "failed to read "@ + text::shown(models_dir) + ": "@ + error@,
        ),
        models::search(models_dir, Ok(entries), needle) == Err::<Option<Seq<u8>>, Seq<char>>(
            "failed to read model entry: "@ + entries@[i]->Err_0@,
        ),
{
    assert(models::fails_first_at(entries@, i));
    let k = choose|k: int| models::fails_first_at(entries@, k);
    if k < i {
        assert(entries@[k] is Ok);
    } else if i < k {
        assert(entries@[i] is Ok);
    }
}

/// Bytes that encode a text are shown as that text, and no other bytes are; of those the outside
/// conversion decides.
pub proof fn text_is_shown_as_it_is(text: Seq<char>, bytes: Seq<u8>)
    ensures
        text::shown(encode_utf8(text)) == text,
        valid_utf8(bytes) ==> encode_utf8(text::shown(bytes)) == bytes,
        !valid_utf8(bytes) ==> text::shown(bytes) == text::utf8_lossy(bytes),
{
    encode_utf8_valid_utf8(text);
    encode_utf8_decode_utf8(text);
    if valid_utf8(bytes) {
        decode_utf8_encode_utf8(bytes);
    }
}

/// The native library is given every path that is text without a zero byte, and no other.
pub proof fn refused_paths_are_no_c_strings(path: Seq<u8>)
    ensures
        path::c_path_refusal(path) is None <==> valid_utf8(path) && forall|i: int|
            0 <= i < path.len() ==> path[i] != 0,
        !valid_utf8(path) ==> path::c_path_refusal(path) == Some(
            "path is not valid UTF-8: "@ + text::utf8_lossy(path),
        ),
        valid_utf8(path) && path::c_path_refusal(path) is Some ==> path::c_path_refusal(path)
            == Some("path contains NUL byte: "@ + decode_utf8(path)),
{
    if path.contains(0) {
        let i = choose|i: int| 0 <= i < path.len() && path[i] == 0;
        assert(path[i] == 0);
    } else {
        assert forall|i: int| 0 <= i < path.len() implies path[i] != 0 by {
            assert(path.contains(path[i]));
        }
    }
}

/// A new configuration has eight threads, segments of at most thirty seconds, a silence of six
/// tenths of a second, a step of half a second, no tags, and no FSMN-VAD model.
pub proof fn a_new_configuration_has_the_defaults(model: FilePath)
    ensures
        config::default_config(model).sensevoice_model == model,
        config::default_config(model).vad_model is None,
        config::default_config(model).n_threads == 8,
        config::default_config(model).vad_max_seg_ms == 30_000,
        config::default_config(model).realtime_min_silence_ms == 600,
        config::default_config(model).realtime_step_ms == 500,
        !config::default_config(model).keep_tags,
{
}

/// The configuration for a models directory has the models that were found and, for the rest,
/// what a new configuration has.
pub proof fn a_found_configuration_has_the_defaults(
    config: RecognizerConfig,
    sensevoice_model: Seq<u8>,
    vad_model: Option<Seq<u8>>,
)
    requires
        config::is_default_for(config, sensevoice_model, vad_model),
    ensures
        config.sensevoice_model@ == sensevoice_model,
        match (config.vad_model, vad_model) {
            (Some(path), Some(bytes)) => path@ == bytes,
            (None, None) => true,
            _ => false,
        },
        config.n_threads == 8,
        config.vad_max_seg_ms == 30_000,
        config.realtime_min_silence_ms == 600,
        config.realtime_step_ms == 500,
        !config.keep_tags,
{
}

/// A copy of a path that may be missing: it is there where the path is, with the same bytes.
pub proof fn path_bytes_are_the_paths_own(path: Option<FilePath>)
    ensures
        match (path, config::path_bytes(path)) {
            (Some(path), Some(bytes)) => path@ == bytes,
            (None, None) => true,
            _ => false,
        },
{
}

/// Each setting changes what it is for, and nothing else.
pub proof fn a_setting_changes_one_thing(
    config: RecognizerConfig,
    vad_model: FilePath,
    n_threads: i32,
    keep_tags: bool,
)
    ensures
        config::vad_model_set(config, vad_model).vad_model == Some(vad_model),
        same_otherwise(config, config::vad_model_set(config, vad_model)),
        config::vad_model_set(config, vad_model).n_threads == config.n_threads,
        config::vad_model_set(config, vad_model).keep_tags == config.keep_tags,
        config::threads_set(config, n_threads).n_threads == n_threads,
        same_otherwise(config, config::threads_set(config, n_threads)),
        config::threads_set(config, n_threads).vad_model == config.vad_model,
        config::threads_set(config, n_threads).keep_tags == config.keep_tags,
        config::keep_tags_set(config, keep_tags).keep_tags == keep_tags,
        same_otherwise(config, config::keep_tags_set(config, keep_tags)),
        config::keep_tags_set(config, keep_tags).vad_model == config.vad_model,
        config::keep_tags_set(config, keep_tags).n_threads == config.n_threads,
{
}

/// Whether two configurations agree in what has no setting of its own.
pub open spec fn same_otherwise(a: RecognizerConfig, b: RecognizerConfig) -> bool {
    &&& a.sensevoice_model == b.sensevoice_model
    &&& a.vad_max_seg_ms == b.vad_max_seg_ms
    &&& a.realtime_min_silence_ms == b.realtime_min_silence_ms
    &&& a.realtime_step_ms == b.realtime_step_ms
}

/// A models directory gives a configuration exactly when a search for `sensevoice` in the first
/// listing finds a model and a search for `vad` in the second does not fail; the configuration
/// has what they found. The first error counts.
pub proof fn a_models_directory_is_searched_twice(
    models_dir: Seq<u8>,
    first: Result<Vec<Result<DirEntry, String>>, String>,
    second: Result<Vec<Result<DirEntry, String>>, String>,
)
    ensures
        config::models_in(models_dir, first, second) == match models::search(
            models_dir,
            first,
            "sensevoice"@,
        ) {
            Err(message) => Err(message),
            Ok(None) => Err("no SenseVoice GGUF found in "@ + text::shown(models_dir)),
            Ok(Some(model)) => match models::search(models_dir, second, "vad"@) {
                Err(message) => Err(message),
                Ok(vad) => Ok((model, vad)),
            },
        },
        match config::sensevoice_model_in(models_dir, first) {
            Ok(model) => models::search(models_dir, first, "sensevoice"@) == Ok::<
                Option<Seq<u8>>,
                Seq<char>,
            >(Some(model)),
            Err(message) => match models::search(models_dir, first, "sensevoice"@) {
                Ok(None) => message == "no SenseVoice GGUF found in "@ + text::shown(models_dir),
                found => found == Err::<Option<Seq<u8>>, Seq<char>>(message),
            },
        },
{
}

/// A directory that can be read gives a configuration exactly when it holds a model file for
/// `sensevoice`, and the configuration has an FSMN-VAD model exactly when the directory holds a
/// model file for `vad`. Each path is that of such a file.
pub proof fn a_models_directory_gives_what_it_holds(
    models_dir: Seq<u8>,
    first: Vec<Result<DirEntry, String>>,
    second: Vec<Result<DirEntry, String>>,
)
    requires
        forall|i: int| 0 <= i < first@.len() ==> (#[trigger] first@[i]) is Ok,
        forall|i: int| 0 <= i < second@.len() ==> (#[trigger] second@[i]) is Ok,
    ensures
        match config::models_in(models_dir, Ok(first), Ok(second)) {
            Ok((model, vad)) => {
                &&& exists|k: int|
                    0 <= k < first@.len() && is_model_file(
                        (#[trigger] first@[k])->Ok_0,
                        "sensevoice"@,
                    ) && first@[k]->Ok_0.path@ == model
                &&& match vad {
                    Some(path) => exists|k: int|
                        0 <= k < second@.len() && is_model_file(
                            (#[trigger] second@[k])->Ok_0,
                            "vad"@,
                        ) && second@[k]->Ok_0.path@ == path,
                    None => forall|k: int|
                        0 <= k < second@.len() ==> !is_model_file(
                            (#[trigger] second@[k])->Ok_0,
                            "vad"@,
                        ),
                }
            },
            Err(message) => {
                &&& message == "no SenseVoice GGUF found in "@ + text::shown(models_dir)
                &&& forall|k: int|
                    0 <= k < first@.len() ==> !is_model_file(
                        (#[trigger] first@[k])->Ok_0,
                        "sensevoice"@,
                    )
            },
        },
{
    the_best_model_file_is_found(models_dir, first, "sensevoice"@);
    the_best_model_file_is_found(models_dir, second, "vad"@);
}

} // verus!
