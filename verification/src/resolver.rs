//! Where models and binaries are looked for, and which of the places that
//! exist is taken.

use crate::config::Config;
use crate::paths::{expand_tilde, join_path, joined, text_of_str, tilde_expanded, PathSet};
use crate::text::{ends_with, has_suffix, text_of, texts_of, trim, trimmed};
use vstd::prelude::*;
use vstd::string::*;

verus! {

/// The system-wide model directory.
pub open spec fn system_models_dir() -> Seq<char> {
    "/usr/share/whisper/models"@
}

/// The per-user model directory of earlier installations, below the home
/// directory.
pub open spec fn legacy_models_subdir() -> Seq<char> {
    ".local/share/hyprwhspr-rs/whisper.cpp/models"@
}

/// The paths of `candidates` that are in `present`, in their order.
pub open spec fn kept(candidates: Seq<Seq<char>>, present: Set<Seq<char>>) -> Seq<Seq<char>>
    decreases candidates.len(),
{
    if candidates.len() == 0 {
        Seq::empty()
    } else {
        let rest = kept(candidates.drop_last(), present);
        if present.contains(candidates.last()) {
            rest.push(candidates.last())
        } else {
            rest
        }
    }
}

/// The first path of `candidates` that is in `present`.
pub open spec fn first_kept(candidates: Seq<Seq<char>>, present: Set<Seq<char>>) -> Option<
    Seq<char>,
> {
    if kept(candidates, present).len() > 0 {
        Some(kept(candidates, present)[0])
    } else {
        None
    }
}

/// Each configured directory with its tilde expanded.
pub open spec fn expanded_dirs(dirs: Seq<Seq<char>>, home: Option<Seq<char>>) -> Seq<Seq<char>> {
    Seq::new(dirs.len(), |i: int| tilde_expanded(dirs[i], home))
}

/// Every place where models may lie, most preferred first: the configured
/// directories, the system directory, and the legacy per-user directory if
/// the home directory is known.
pub open spec fn search_candidates(dirs: Seq<Seq<char>>, home: Option<Seq<char>>) -> Seq<
    Seq<char>,
> {
    let fixed = expanded_dirs(dirs, home).push(system_models_dir());
    match home {
        Some(h) => fixed.push(joined(h, legacy_models_subdir())),
        None => fixed,
    }
}

/// What [`kept`] keeps is in `present` and among the candidates, and it
/// keeps every candidate that is in `present`.
pub proof fn lemma_kept(candidates: Seq<Seq<char>>, present: Set<Seq<char>>)
    ensures
        kept(candidates, present).len() <= candidates.len(),
        forall|p: Seq<char>| #[trigger]
            kept(candidates, present).contains(p) <==> candidates.contains(p) && present.contains(
                p,
            ),
    decreases candidates.len(),
{
    if candidates.len() > 0 {
        let front = candidates.drop_last();
        let last = candidates.last();
        lemma_kept(front, present);
        let rest = kept(front, present);
        assert forall|p: Seq<char>| #[trigger]
            kept(candidates, present).contains(p) <==> candidates.contains(p) && present.contains(
                p,
            ) by {
            if candidates.contains(p) {
                let i = choose|i: int| 0 <= i < candidates.len() && candidates[i] == p;
                if i < front.len() {
                    assert(front[i] == p);
                }
            }
            if front.contains(p) {
                let i = choose|i: int| 0 <= i < front.len() && front[i] == p;
                assert(candidates[i] == p);
            }
            if rest.contains(p) {
                let i = choose|i: int| 0 <= i < rest.len() && rest[i] == p;
                if present.contains(last) {
                    assert(rest.push(last)[i] == p);
                }
            }
            if present.contains(last) {
                assert(rest.push(last)[rest.len() as int] == last);
                if kept(candidates, present).contains(p) {
                    let i = choose|i: int|
                        0 <= i < rest.push(last).len() && rest.push(last)[i] == p;
                    if i < rest.len() {
                        assert(rest[i] == p);
                    }
                }
            }
            assert(candidates[candidates.len() - 1] == last);
        }
    }
}

/// The paths of `candidates` that `present` records, in their order.
pub fn existing_in_order(candidates: &Vec<String>, present: &PathSet) -> (r: Vec<String>)
    ensures
        texts_of(r@) == kept(texts_of(candidates@), present@),
{
    let mut r: Vec<String> = Vec::new();
    let mut i: usize = 0;
    proof {
        assert(texts_of(candidates@).subrange(0, 0) =~= Seq::empty());
        assert(texts_of(r@) =~= Seq::empty());
    }
    while i < candidates.len()
        invariant
            i <= candidates@.len(),
            texts_of(r@) == kept(texts_of(candidates@).subrange(0, i as int), present@),
        decreases candidates@.len() - i,
    {
        let ghost all = texts_of(candidates@);
        let ghost before = texts_of(r@);
        proof {
            assert(all.subrange(0, i + 1).drop_last() =~= all.subrange(0, i as int));
            assert(all.subrange(0, i + 1).last() == candidates@[i as int]@);
        }
        if present.contains(&candidates[i]) {
            r.push(candidates[i].clone());
            proof {
                assert(texts_of(r@) =~= before.push(candidates@[i as int]@));
            }
        }
        i = i + 1;
    }
    proof {
        let all = texts_of(candidates@);
        assert(all.subrange(0, all.len() as int) =~= all);
    }
    r
}

/// Every place where models may lie, most preferred first.
pub fn model_search_candidates(config: &Config, home: Option<&str>) -> (r: Vec<String>)
    ensures
        texts_of(r@) == search_candidates(
            config@.transcription.whisper_cpp.models_dirs,
            text_of_str(home),
        ),
{
    let dirs = &config.transcription.whisper_cpp.models_dirs;
    let ghost wanted = expanded_dirs(texts_of(dirs@), text_of_str(home));
    let mut r: Vec<String> = Vec::new();
    let mut i: usize = 0;
    while i < dirs.len()
        invariant
            i <= dirs@.len(),
            r@.len() == i,
            wanted == expanded_dirs(texts_of(dirs@), text_of_str(home)),
            forall|j: int| 0 <= j < i ==> r@[j]@ == wanted[j],
        decreases dirs@.len() - i,
    {
        r.push(expand_tilde(dirs[i].as_str(), home));
        i = i + 1;
    }
    proof {
        assert(texts_of(r@) =~= wanted);
    }
    let ghost custom = texts_of(r@);
    r.push("/usr/share/whisper/models".to_owned());
    proof {
        assert(texts_of(r@) =~= custom.push(system_models_dir()));
    }
    let ghost fixed = texts_of(r@);
    match home {
        Some(h) => {
            let legacy = join_path(h, ".local/share/hyprwhspr-rs/whisper.cpp/models");
            r.push(legacy);
            proof {
                assert(texts_of(r@) =~= fixed.push(joined(h@, legacy_models_subdir())));
            }
        },
        None => {},
    }
    r
}

/// The model directories that exist, most preferred first: the configured
/// directories with their tildes expanded, in configured order, then the
/// system directory, then the legacy per-user directory.
pub fn model_search_dirs(config: &Config, home: Option<&str>, present: &PathSet) -> (r: Vec<String>)
    ensures
        texts_of(r@) == kept(
            search_candidates(config@.transcription.whisper_cpp.models_dirs, text_of_str(home)),
            present@,
        ),
{
    let candidates = model_search_candidates(config, home);
    existing_in_order(&candidates, present)
}

/// File name of the model called `name`; with `english`, of its
/// English-only variant.
pub open spec fn model_file(name: Seq<char>, english: bool) -> Seq<char> {
    if english {
        "ggml-"@ + name + ".en.bin"@
    } else {
        "ggml-"@ + name + ".bin"@
    }
}

/// The directory in which the model is looked for: the first search
/// directory that exists, else the current directory.
pub open spec fn model_dir(dirs: Seq<Seq<char>>) -> Seq<char> {
    if dirs.len() > 0 {
        dirs[0]
    } else {
        "."@
    }
}

/// The path of the model called `name`, given the search directories that
/// exist. A name that ends in `.en` is taken as it is. For any other name
/// the English-only variant is preferred where its file exists.
pub open spec fn model_path(dirs: Seq<Seq<char>>, name: Seq<char>, present: Set<Seq<char>>) -> Seq<
    char,
> {
    let dir = model_dir(dirs);
    if ends_with(name, ".en"@) {
        joined(dir, model_file(name, false))
    } else if present.contains(joined(dir, model_file(name, true))) {
        joined(dir, model_file(name, true))
    } else {
        joined(dir, model_file(name, false))
    }
}

/// A name that ends in `.en` resolves to its plain file name, whatever
/// exists.
pub proof fn lemma_english_name_ignores_files(
    dirs: Seq<Seq<char>>,
    name: Seq<char>,
    a: Set<Seq<char>>,
    b: Set<Seq<char>>,
)
    requires
        ends_with(name, ".en"@),
    ensures
        model_path(dirs, name, a) == model_path(dirs, name, b),
        model_path(dirs, name, a) == joined(model_dir(dirs), "ggml-"@ + name + ".bin"@),
{
}

/// For any other name the English-only file is taken exactly when it
/// exists.
pub proof fn lemma_english_variant_preferred(
    dirs: Seq<Seq<char>>,
    name: Seq<char>,
    present: Set<Seq<char>>,
)
    requires
        !ends_with(name, ".en"@),
    ensures
        present.contains(joined(model_dir(dirs), "ggml-"@ + name + ".en.bin"@)) ==> model_path(
            dirs,
            name,
            present,
        ) == joined(model_dir(dirs), "ggml-"@ + name + ".en.bin"@),
        !present.contains(joined(model_dir(dirs), "ggml-"@ + name + ".en.bin"@)) ==> model_path(
            dirs,
            name,
            present,
        ) == joined(model_dir(dirs), "ggml-"@ + name + ".bin"@),
{
}

/// File name of a model.
pub fn model_file_name(name: &str, english: bool) -> (r: String)
    ensures
        r@ == model_file(name@, english),
{
    let stem = "ggml-".to_owned().concat(name);
    if english {
        stem.concat(".en.bin")
    } else {
        stem.concat(".bin")
    }
}

/// The path of the configured transcription model.
pub fn resolve_model_path(config: &Config, home: Option<&str>, present: &PathSet) -> (r: String)
    ensures
        r@ == model_path(
            kept(
                search_candidates(
                    config@.transcription.whisper_cpp.models_dirs,
                    text_of_str(home),
                ),
                present@,
            ),
            config@.transcription.whisper_cpp.model,
            present@,
        ),
{
    let dirs = model_search_dirs(config, home, present);
    let name = config.transcription.whisper_cpp.model.as_str();
    let dir: String = if dirs.len() > 0 {
        assert(texts_of(dirs@)[0] == dirs@[0]@);
        dirs[0].clone()
    } else {
        ".".to_owned()
    };
    if has_suffix(name, ".en") {
        return join_path(dir.as_str(), model_file_name(name, false).as_str());
    }
    let english = join_path(dir.as_str(), model_file_name(name, true).as_str());
    if present.contains(&english) {
        return english;
    }
    join_path(dir.as_str(), model_file_name(name, false).as_str())
}

/// Each directory of `dirs` with `name` joined to it.
pub open spec fn each_joined(dirs: Seq<Seq<char>>, name: Seq<char>) -> Seq<Seq<char>> {
    Seq::new(dirs.len(), |i: int| joined(dirs[i], name))
}

/// A path as a list of one, or no path as the empty list.
pub open spec fn one_or_none(path: Option<Seq<char>>) -> Seq<Seq<char>> {
    match path {
        Some(p) => seq![p],
        None => Seq::empty(),
    }
}

/// Where the detector's model is looked for, in this order: the reference
/// as it stands, below the directory of the backing file, below the
/// application's configuration directory, and below each search directory.
pub open spec fn vad_candidates(
    reference: Seq<char>,
    backing_dir: Option<Seq<char>>,
    config_dir: Option<Seq<char>>,
    dirs: Seq<Seq<char>>,
) -> Seq<Seq<char>> {
    seq![reference] + one_or_none(
        match backing_dir {
            Some(d) => Some(joined(d, reference)),
            None => None,
        },
    ) + one_or_none(
        match config_dir {
            Some(d) => Some(joined(d, reference)),
            None => None,
        },
    ) + each_joined(dirs, reference)
}

/// The path of the detector's model: none if the detector is off or its
/// model reference is blank, else the first candidate that exists.
pub open spec fn vad_model_path(
    enabled: bool,
    model: Seq<char>,
    backing_dir: Option<Seq<char>>,
    config_dir: Option<Seq<char>>,
    dirs: Seq<Seq<char>>,
    present: Set<Seq<char>>,
) -> Option<Seq<char>> {
    if !enabled || trimmed(model).len() == 0 {
        None
    } else {
        first_kept(vad_candidates(trimmed(model), backing_dir, config_dir, dirs), present)
    }
}

/// Appends copies of the strings of `more` to `list`.
pub fn append_texts(list: &mut Vec<String>, more: &Vec<String>)
    ensures
        texts_of(final(list)@) == texts_of(old(list)@) + texts_of(more@),
{
    let ghost start = texts_of(list@);
    let ghost extra = texts_of(more@);
    let mut i: usize = 0;
    proof {
        assert(texts_of(list@) =~= start + extra.subrange(0, 0));
    }
    while i < more.len()
        invariant
            i <= more@.len(),
            extra == texts_of(more@),
            texts_of(list@) == start + extra.subrange(0, i as int),
        decreases more@.len() - i,
    {
        let ghost before = texts_of(list@);
        list.push(more[i].clone());
        proof {
            assert(texts_of(list@) =~= before.push(extra[i as int]));
            assert(before.push(extra[i as int]) =~= start + extra.subrange(0, i + 1));
        }
        i = i + 1;
    }
    proof {
        assert(extra.subrange(0, extra.len() as int) =~= extra);
    }
}

/// Each directory of `dirs` with `name` joined to it.
pub fn join_each(dirs: &Vec<String>, name: &str) -> (r: Vec<String>)
    ensures
        texts_of(r@) == each_joined(texts_of(dirs@), name@),
{
    let mut r: Vec<String> = Vec::new();
    let mut i: usize = 0;
    while i < dirs.len()
        invariant
            i <= dirs@.len(),
            r@.len() == i,
            forall|j: int| 0 <= j < i ==> r@[j]@ == joined(dirs@[j]@, name@),
        decreases dirs@.len() - i,
    {
        r.push(join_path(dirs[i].as_str(), name));
        i = i + 1;
    }
    proof {
        assert(texts_of(r@) =~= each_joined(texts_of(dirs@), name@));
    }
    r
}

/// Where the detector's model is looked for, most preferred first.
pub fn vad_places(
    reference: &str,
    backing_dir: Option<&str>,
    config_dir: Option<&str>,
    dirs: &Vec<String>,
) -> (r: Vec<String>)
    ensures
        texts_of(r@) == vad_candidates(
            reference@,
            text_of_str(backing_dir),
            text_of_str(config_dir),
            texts_of(dirs@),
        ),
{
    let mut candidates: Vec<String> = Vec::new();
    candidates.push(reference.to_owned());
    if let Some(d) = backing_dir {
        candidates.push(join_path(d, reference));
    }
    if let Some(d) = config_dir {
        candidates.push(join_path(d, reference));
    }
    proof {
        assert(texts_of(candidates@) =~= seq![reference@] + one_or_none(
            match text_of_str(backing_dir) {
                Some(d) => Some(joined(d, reference@)),
                None => None,
            },
        ) + one_or_none(
            match text_of_str(config_dir) {
                Some(d) => Some(joined(d, reference@)),
                None => None,
            },
        ));
    }
    let below = join_each(dirs, reference);
    append_texts(&mut candidates, &below);
    candidates
}

/// The first path of `candidates` that `present` records.
pub fn first_existing(candidates: &Vec<String>, present: &PathSet) -> (r: Option<String>)
    ensures
        text_of(r) == first_kept(texts_of(candidates@), present@),
{
    let found = existing_in_order(candidates, present);
    if found.len() > 0 {
        assert(texts_of(found@)[0] == found@[0]@);
        Some(found[0].clone())
    } else {
        None
    }
}

/// The path of the voice-activity-detection model, if the detector is on
/// and its model is found.
pub fn resolve_vad_model_path(
    config: &Config,
    backing_dir: Option<&str>,
    config_dir: Option<&str>,
    home: Option<&str>,
    present: &PathSet,
) -> (r: Option<String>)
    ensures
        text_of(r) == vad_model_path(
            config@.transcription.whisper_cpp.vad.enabled,
            config@.transcription.whisper_cpp.vad.model,
            text_of_str(backing_dir),
            text_of_str(config_dir),
            kept(
                search_candidates(
                    config@.transcription.whisper_cpp.models_dirs,
                    text_of_str(home),
                ),
                present@,
            ),
            present@,
        ),
{
    let vad = &config.transcription.whisper_cpp.vad;
    if !vad.enabled {
        return None;
    }
    let reference = trim(vad.model.as_str());
    if reference.unicode_len() == 0 {
        return None;
    }
    let dirs = model_search_dirs(config, home, present);
    let candidates = vad_places(reference, backing_dir, config_dir, &dirs);
    first_existing(&candidates, present)
}

/// The per-user directory of a managed whisper.cpp checkout.
pub open spec fn local_whisper_dir(home: Seq<char>) -> Seq<char> {
    joined(home, ".local/share/hyprwhspr-rs/whisper.cpp"@)
}

/// The directory into which that checkout builds its binaries.
pub open spec fn local_build_dir(home: Seq<char>) -> Seq<char> {
    joined(local_whisper_dir(home), "build/bin"@)
}

/// The places where the binary is expected: the managed build, the
/// checkout itself, the system.
pub open spec fn primary_binaries(home: Seq<char>) -> Seq<Seq<char>> {
    seq![
        joined(local_build_dir(home), "whisper-cli"@),
        joined(local_whisper_dir(home), "whisper-cli"@),
        "/usr/bin/whisper-cli"@,
    ]
}

/// The same places under the names that older releases gave the binary.
pub open spec fn fallback_binaries(home: Seq<char>) -> Seq<Seq<char>> {
    seq![
        joined(local_build_dir(home), "main"@),
        joined(local_build_dir(home), "whisper"@),
        joined(local_whisper_dir(home), "main"@),
        joined(local_whisper_dir(home), "whisper"@),
        "/usr/bin/whisper"@,
    ]
}

/// Every place where a binary is looked for, most preferred first.
pub open spec fn binary_candidates(home: Seq<char>, include_fallbacks: bool) -> Seq<Seq<char>> {
    if include_fallbacks {
        primary_binaries(home) + fallback_binaries(home)
    } else {
        primary_binaries(home)
    }
}

/// The paths of `candidates` that are in `present`, each once, in the order
/// of their first occurrence.
pub open spec fn kept_once(candidates: Seq<Seq<char>>, present: Set<Seq<char>>) -> Seq<Seq<char>>
    decreases candidates.len(),
{
    if candidates.len() == 0 {
        Seq::empty()
    } else {
        let rest = kept_once(candidates.drop_last(), present);
        if present.contains(candidates.last()) && !rest.contains(candidates.last()) {
            rest.push(candidates.last())
        } else {
            rest
        }
    }
}

/// [`kept_once`] keeps exactly the candidates that are in `present`, and
/// none of them twice.
pub proof fn lemma_kept_once(candidates: Seq<Seq<char>>, present: Set<Seq<char>>)
    ensures
        kept_once(candidates, present).no_duplicates(),
        forall|p: Seq<char>| #[trigger]
            kept_once(candidates, present).contains(p) <==> candidates.contains(p)
                && present.contains(p),
    decreases candidates.len(),
{
    if candidates.len() > 0 {
        let front = candidates.drop_last();
        let last = candidates.last();
        lemma_kept_once(front, present);
        let rest = kept_once(front, present);
        let all = kept_once(candidates, present);
        assert(candidates[candidates.len() - 1] == last);
        assert forall|p: Seq<char>| #[trigger]
            all.contains(p) <==> candidates.contains(p) && present.contains(p) by {
            if candidates.contains(p) {
                let i = choose|i: int| 0 <= i < candidates.len() && candidates[i] == p;
                if i < front.len() {
                    assert(front[i] == p);
                }
            }
            if front.contains(p) {
                let i = choose|i: int| 0 <= i < front.len() && front[i] == p;
                assert(candidates[i] == p);
            }
            if all != rest {
                assert(all == rest.push(last));
                assert(all[rest.len() as int] == last);
                if rest.contains(p) {
                    let i = choose|i: int| 0 <= i < rest.len() && rest[i] == p;
                    assert(all[i] == p);
                }
                if all.contains(p) {
                    let i = choose|i: int| 0 <= i < all.len() && all[i] == p;
                    if i < rest.len() {
                        assert(rest[i] == p);
                    }
                }
            }
        }
    }
}

/// Whether `list` holds `path`.
pub fn holds_path(list: &Vec<String>, path: &String) -> (r: bool)
    ensures
        r == texts_of(list@).contains(path@),
{
    let mut i: usize = 0;
    while i < list.len()
        invariant
            i <= list@.len(),
            forall|j: int| 0 <= j < i ==> texts_of(list@)[j] != path@,
        decreases list@.len() - i,
    {
        if list[i] == *path {
            assert(texts_of(list@)[i as int] == path@);
            return true;
        }
        i = i + 1;
    }
    false
}

/// The paths of `candidates` that `present` records, each once, in the
/// order of their first occurrence.
pub fn existing_once(candidates: &Vec<String>, present: &PathSet) -> (r: Vec<String>)
    ensures
        texts_of(r@) == kept_once(texts_of(candidates@), present@),
{
    let mut r: Vec<String> = Vec::new();
    let mut i: usize = 0;
    proof {
        assert(texts_of(candidates@).subrange(0, 0) =~= Seq::empty());
        assert(texts_of(r@) =~= Seq::empty());
    }
    while i < candidates.len()
        invariant
            i <= candidates@.len(),
            texts_of(r@) == kept_once(texts_of(candidates@).subrange(0, i as int), present@),
        decreases candidates@.len() - i,
    {
        let ghost all = texts_of(candidates@);
        let ghost before = texts_of(r@);
        proof {
            assert(all.subrange(0, i + 1).drop_last() =~= all.subrange(0, i as int));
            assert(all.subrange(0, i + 1).last() == candidates@[i as int]@);
        }
        if present.contains(&candidates[i]) && !holds_path(&r, &candidates[i]) {
            r.push(candidates[i].clone());
            proof {
                assert(texts_of(r@) =~= before.push(candidates@[i as int]@));
            }
        }
        i = i + 1;
    }
    proof {
        let all = texts_of(candidates@);
        assert(all.subrange(0, all.len() as int) =~= all);
    }
    r
}

/// Every place where a whisper.cpp binary is looked for, most preferred
/// first.
pub fn whisper_binary_places(home: &str, include_fallbacks: bool) -> (r: Vec<String>)
    ensures
        texts_of(r@) == binary_candidates(home@, include_fallbacks),
{
    let local = join_path(home, ".local/share/hyprwhspr-rs/whisper.cpp");
    let build = join_path(local.as_str(), "build/bin");
    let mut r: Vec<String> = Vec::new();
    r.push(join_path(build.as_str(), "whisper-cli"));
    r.push(join_path(local.as_str(), "whisper-cli"));
    r.push("/usr/bin/whisper-cli".to_owned());
    proof {
        assert(texts_of(r@) =~= primary_binaries(home@));
    }
    if include_fallbacks {
        r.push(join_path(build.as_str(), "main"));
        r.push(join_path(build.as_str(), "whisper"));
        r.push(join_path(local.as_str(), "main"));
        r.push(join_path(local.as_str(), "whisper"));
        r.push("/usr/bin/whisper".to_owned());
        proof {
            assert(texts_of(r@) =~= primary_binaries(home@) + fallback_binaries(home@));
        }
    }
    r
}

/// The whisper.cpp binaries that exist, most preferred first and each
/// once.
pub fn whisper_binary_candidates(home: &str, include_fallbacks: bool, present: &PathSet) -> (r:
    Vec<String>)
    ensures
        texts_of(r@) == kept_once(binary_candidates(home@, include_fallbacks), present@),
        texts_of(r@).no_duplicates(),
        forall|p: Seq<char>| #[trigger]
            texts_of(r@).contains(p) <==> binary_candidates(home@, include_fallbacks).contains(p)
                && present@.contains(p),
{
    let places = whisper_binary_places(home, include_fallbacks);
    proof {
        lemma_kept_once(texts_of(places@), present@);
    }
    existing_once(&places, present)
}

/// The installed assets directory.
pub open spec fn installed_assets_dir() -> Seq<char> {
    "/usr/lib/hyprwhspr-rs/share/assets"@
}

/// The directory of sounds and other assets: the installed one if it
/// exists, else `assets` below the working directory.
pub open spec fn assets_dir(present: Set<Seq<char>>) -> Seq<char> {
    if present.contains(installed_assets_dir()) {
        installed_assets_dir()
    } else {
        "assets"@
    }
}

/// The directory of sounds and other assets.
pub fn resolve_assets_dir(present: &PathSet) -> (r: String)
    ensures
        r@ == assets_dir(present@),
{
    let installed = "/usr/lib/hyprwhspr-rs/share/assets".to_owned();
    if present.contains(&installed) {
        installed
    } else {
        "assets".to_owned()
    }
}

/// The scratch directory below the per-user data directory.
pub fn temp_dir_in(data_dir: &str) -> (r: String)
    ensures
        r@ == joined(data_dir@, "temp"@),
{
    join_path(data_dir, "temp")
}

/// Whether two records say the same of every path of `paths`.
pub open spec fn agree_on(a: Set<Seq<char>>, b: Set<Seq<char>>, paths: Seq<Seq<char>>) -> bool {
    forall|i: int| 0 <= i < paths.len() ==> a.contains(#[trigger] paths[i]) == b.contains(paths[i])
}

/// Every path whose existence a resolution may ask for: the search
/// directories, the English-only model file in each of them and in the
/// current directory, the places of the detector's model, the places of
/// the binaries, and the installed assets directory.
pub open spec fn probes(
    config: crate::config::ConfigView,
    backing_dir: Option<Seq<char>>,
    config_dir: Option<Seq<char>>,
    home: Option<Seq<char>>,
) -> Seq<Seq<char>> {
    let whisper = config.transcription.whisper_cpp;
    let dirs = search_candidates(whisper.models_dirs, home);
    dirs + each_joined(dirs.push("."@), model_file(whisper.model, true)) + vad_candidates(
        trimmed(whisper.vad.model),
        backing_dir,
        config_dir,
        dirs,
    ) + match home {
        Some(h) => binary_candidates(h, true),
        None => Seq::empty(),
    } + seq![installed_assets_dir()]
}

/// Records that agree on a list of candidates keep the same of them.
pub proof fn lemma_kept_agrees(candidates: Seq<Seq<char>>, a: Set<Seq<char>>, b: Set<Seq<char>>)
    requires
        agree_on(a, b, candidates),
    ensures
        kept(candidates, a) == kept(candidates, b),
        kept_once(candidates, a) == kept_once(candidates, b),
        first_kept(candidates, a) == first_kept(candidates, b),
    decreases candidates.len(),
{
    if candidates.len() > 0 {
        let front = candidates.drop_last();
        assert forall|i: int| 0 <= i < front.len() implies a.contains(#[trigger] front[i])
            == b.contains(front[i]) by {
            assert(front[i] == candidates[i]);
        }
        lemma_kept_agrees(front, a, b);
        assert(candidates.last() == candidates[candidates.len() - 1]);
    }
}

/// Records that agree on a list agree on every list drawn from it.
pub proof fn lemma_agree_on_part(
    a: Set<Seq<char>>,
    b: Set<Seq<char>>,
    whole: Seq<Seq<char>>,
    part: Seq<Seq<char>>,
)
    requires
        agree_on(a, b, whole),
        forall|i: int| 0 <= i < part.len() ==> whole.contains(#[trigger] part[i]),
    ensures
        agree_on(a, b, part),
{
    assert forall|i: int| 0 <= i < part.len() implies a.contains(#[trigger] part[i]) == b.contains(
        part[i],
    ) by {
        let p = part[i];
        assert(whole.contains(p));
        let j = choose|j: int| 0 <= j < whole.len() && whole[j] == p;
        assert(a.contains(whole[j]) == b.contains(whole[j]));
    }
}

/// The paths of [`probes`] are all that a resolution depends on: two
/// records that agree on them lead to the same search directories, the
/// same model path, the same detector model, the same binaries and the
/// same assets directory.
pub proof fn lemma_probes_suffice(
    config: crate::config::ConfigView,
    backing_dir: Option<Seq<char>>,
    config_dir: Option<Seq<char>>,
    home: Option<Seq<char>>,
    include_fallbacks: bool,
    a: Set<Seq<char>>,
    b: Set<Seq<char>>,
)
    requires
        agree_on(a, b, probes(config, backing_dir, config_dir, home)),
    ensures
        ({
            let whisper = config.transcription.whisper_cpp;
            let candidates = search_candidates(whisper.models_dirs, home);
            &&& kept(candidates, a) == kept(candidates, b)
            &&& model_path(kept(candidates, a), whisper.model, a) == model_path(
                kept(candidates, b),
                whisper.model,
                b,
            )
            &&& vad_model_path(
                whisper.vad.enabled,
                whisper.vad.model,
                backing_dir,
                config_dir,
                kept(candidates, a),
                a,
            ) == vad_model_path(
                whisper.vad.enabled,
                whisper.vad.model,
                backing_dir,
                config_dir,
                kept(candidates, b),
                b,
            )
            &&& home matches Some(h) ==> kept_once(binary_candidates(h, include_fallbacks), a)
                == kept_once(binary_candidates(h, include_fallbacks), b)
            &&& assets_dir(a) == assets_dir(b)
        }),
{
    let whisper = config.transcription.whisper_cpp;
    let all = probes(config, backing_dir, config_dir, home);
    let candidates = search_candidates(whisper.models_dirs, home);
    let english = each_joined(candidates.push("."@), model_file(whisper.model, true));
    let reference = trimmed(whisper.vad.model);
    let vad_all = vad_candidates(reference, backing_dir, config_dir, candidates);
    let binaries = match home {
        Some(h) => binary_candidates(h, true),
        None => Seq::empty(),
    };
    let assets = seq![installed_assets_dir()];
    let n0 = candidates.len() as int;
    let n1 = n0 + english.len();
    let n2 = n1 + vad_all.len();
    let n3 = n2 + binaries.len();
    assert(all.len() == n3 + 1);
    assert forall|i: int| 0 <= i < candidates.len() implies all.contains(
        #[trigger] candidates[i],
    ) by {
        assert(all[i] == candidates[i]);
    }
    assert forall|i: int| 0 <= i < english.len() implies all.contains(#[trigger] english[i]) by {
        assert(all[n0 + i] == english[i]);
    }
    assert forall|i: int| 0 <= i < vad_all.len() implies all.contains(#[trigger] vad_all[i]) by {
        assert(all[n1 + i] == vad_all[i]);
    }
    assert forall|i: int| 0 <= i < binaries.len() implies all.contains(#[trigger] binaries[i]) by {
        assert(all[n2 + i] == binaries[i]);
    }
    assert(all[n3] == installed_assets_dir());
    assert(a.contains(all[n3]) == b.contains(all[n3]));

    lemma_agree_on_part(a, b, all, candidates);
    lemma_kept_agrees(candidates, a, b);
    let dirs = kept(candidates, a);
    lemma_kept(candidates, a);

    // The model: its English-only file is looked for in the first
    // directory that exists, or in the current directory.
    let dir = model_dir(dirs);
    let wanted = joined(dir, model_file(whisper.model, true));
    if dirs.len() > 0 {
        assert(dirs.contains(dirs[0]));
        assert(candidates.contains(dir));
        let j = choose|j: int| 0 <= j < candidates.len() && candidates[j] == dir;
        assert(candidates.push("."@)[j] == dir);
        assert(english[j] == wanted);
    } else {
        assert(candidates.push("."@)[n0] == "."@);
        assert(english[n0] == wanted);
    }
    assert(all.contains(wanted));
    let k = choose|k: int| 0 <= k < all.len() && all[k] == wanted;
    assert(a.contains(all[k]) == b.contains(all[k]));

    // The detector's model: every place below a directory that exists is
    // a place below a candidate.
    let vad_some = vad_candidates(reference, backing_dir, config_dir, dirs);
    let head = seq![reference] + one_or_none(
        match backing_dir {
            Some(d) => Some(joined(d, reference)),
            None => None,
        },
    ) + one_or_none(
        match config_dir {
            Some(d) => Some(joined(d, reference)),
            None => None,
        },
    );
    assert forall|i: int| 0 <= i < vad_some.len() implies vad_all.contains(
        #[trigger] vad_some[i],
    ) by {
        if i < head.len() {
            assert(vad_all[i] == vad_some[i]);
        } else {
            let d = dirs[i - head.len()];
            assert(dirs.contains(d));
            assert(candidates.contains(d));
            let j = choose|j: int| 0 <= j < candidates.len() && candidates[j] == d;
            assert(vad_all[head.len() + j] == joined(d, reference));
        }
    }
    lemma_agree_on_part(a, b, all, vad_all);
    lemma_agree_on_part(a, b, vad_all, vad_some);
    lemma_kept_agrees(vad_some, a, b);

    // The binaries: the preferred names are among all names.
    if home is Some {
        let h = home->0;
        let wanted_binaries = binary_candidates(h, include_fallbacks);
        assert forall|i: int| 0 <= i < wanted_binaries.len() implies binaries.contains(
            #[trigger] wanted_binaries[i],
        ) by {
            assert(binaries[i] == wanted_binaries[i]);
        }
        lemma_agree_on_part(a, b, all, binaries);
        lemma_agree_on_part(a, b, binaries, wanted_binaries);
        lemma_kept_agrees(wanted_binaries, a, b);
    }
}

/// Every path whose existence a resolution may ask for. Whoever looks at
/// the file system looks at these, and records those that exist.
pub fn probe_paths(
    config: &Config,
    backing_dir: Option<&str>,
    config_dir: Option<&str>,
    home: Option<&str>,
) -> (r: Vec<String>)
    ensures
        texts_of(r@) == probes(
            config@,
            text_of_str(backing_dir),
            text_of_str(config_dir),
            text_of_str(home),
        ),
{
    let whisper = &config.transcription.whisper_cpp;
    let dirs = model_search_candidates(config, home);
    let mut r: Vec<String> = Vec::new();
    append_texts(&mut r, &dirs);
    proof {
        assert(texts_of(r@) =~= texts_of(dirs@));
    }
    let mut with_current: Vec<String> = Vec::new();
    append_texts(&mut with_current, &dirs);
    let ghost plain = texts_of(with_current@);
    with_current.push(".".to_owned());
    proof {
        assert(plain =~= texts_of(dirs@));
        assert(texts_of(with_current@) =~= texts_of(dirs@).push("."@));
    }
    let english = join_each(&with_current, model_file_name(whisper.model.as_str(), true).as_str());
    append_texts(&mut r, &english);
    let reference = trim(whisper.vad.model.as_str());
    let places = vad_places(reference, backing_dir, config_dir, &dirs);
    append_texts(&mut r, &places);
    match home {
        Some(h) => {
            let binaries = whisper_binary_places(h, true);
            append_texts(&mut r, &binaries);
        },
        None => {
            proof {
                assert(texts_of(r@) + Seq::<Seq<char>>::empty() =~= texts_of(r@));
            }
        },
    }
    let ghost before = texts_of(r@);
    r.push("/usr/lib/hyprwhspr-rs/share/assets".to_owned());
    proof {
        assert(texts_of(r@) =~= before + seq![installed_assets_dir()]);
    }
    r
}

/// Whether `x` stands before `y` somewhere in `list`.
pub open spec fn precedes(list: Seq<Seq<char>>, x: Seq<char>, y: Seq<char>) -> bool {
    exists|a: int, b: int| 0 <= a < b < list.len() && list[a] == x && list[b] == y
}

/// What is kept comes in the order of the candidates: of two kept paths,
/// the earlier stands before the later among the candidates.
pub proof fn lemma_kept_in_order(candidates: Seq<Seq<char>>, present: Set<Seq<char>>)
    ensures
        forall|i: int, j: int|
            0 <= i < j < kept(candidates, present).len() ==> precedes(
                candidates,
                #[trigger] kept(candidates, present)[i],
                #[trigger] kept(candidates, present)[j],
            ),
        forall|i: int, j: int|
            0 <= i < j < kept_once(candidates, present).len() ==> precedes(
                candidates,
                #[trigger] kept_once(candidates, present)[i],
                #[trigger] kept_once(candidates, present)[j],
            ),
    decreases candidates.len(),
{
    if candidates.len() > 0 {
        let front = candidates.drop_last();
        let last = candidates.last();
        let n = front.len() as int;
        lemma_kept_in_order(front, present);
        lemma_kept(front, present);
        lemma_kept_once(front, present);
        let all = kept(candidates, present);
        let rest = kept(front, present);
        assert forall|i: int, j: int| 0 <= i < j < all.len() implies precedes(
            candidates,
            #[trigger] all[i],
            #[trigger] all[j],
        ) by {
            if j < rest.len() {
                assert(precedes(front, rest[i], rest[j]));
                let (a, b) = choose|a: int, b: int|
                    0 <= a < b < front.len() && front[a] == rest[i] && front[b] == rest[j];
                assert(candidates[a] == all[i] && candidates[b] == all[j]);
            } else {
                assert(rest.contains(rest[i]));
                assert(front.contains(rest[i]));
                let a = choose|a: int| 0 <= a < front.len() && front[a] == rest[i];
                assert(candidates[a] == all[i] && candidates[n] == all[j]);
            }
        }
        let all_once = kept_once(candidates, present);
        let rest_once = kept_once(front, present);
        assert forall|i: int, j: int| 0 <= i < j < all_once.len() implies precedes(
            candidates,
            #[trigger] all_once[i],
            #[trigger] all_once[j],
        ) by {
            if j < rest_once.len() {
                assert(precedes(front, rest_once[i], rest_once[j]));
                let (a, b) = choose|a: int, b: int|
                    0 <= a < b < front.len() && front[a] == rest_once[i] && front[b]
                        == rest_once[j];
                assert(candidates[a] == all_once[i] && candidates[b] == all_once[j]);
            } else {
                assert(rest_once.contains(rest_once[i]));
                assert(front.contains(rest_once[i]));
                let a = choose|a: int| 0 <= a < front.len() && front[a] == rest_once[i];
                assert(candidates[a] == all_once[i] && candidates[n] == all_once[j]);
            }
        }
    }
}

} // verus!
