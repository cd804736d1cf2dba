//! Decisions for locating and validating the linked terminal library. The
//! probing itself (environment, file system, a throwaway terminal) is done
//! by the caller, who hands the results in.
use vstd::prelude::*;

use crate::paths::{path_views, same_path, same_path_as};
use crate::text::{
    push_char, seq_ends_with, seq_starts_with, str_ends_with, str_equal, str_starts_with,
};

verus! {

/// Runtime initialization error.
#[derive(Debug, Clone)]
pub struct RuntimeError {
    message: String,
}

impl RuntimeError {
    /// The error's message.
    pub closed spec fn message_view(&self) -> Seq<char> {
        self.message@
    }

    /// Create an error with the given message.
    pub fn new(message: String) -> (error: Self)
        ensures
            error.message_view() == message@,
    {
        RuntimeError { message }
    }

    /// The error's message, as it is displayed.
    pub fn message(&self) -> (message: &str)
        ensures
            message@ == self.message_view(),
    {
        self.message.as_str()
    }
}

/// Information about the linked terminal library.
#[derive(Debug, Clone, PartialEq, Eq)]
pub struct RuntimeInfo {
    /// Ghostty commit used for the linked library.
    pub commit: &'static str,
    /// Directory where the dynamic library was found or built.
    pub library_dir: String,
    /// Link kind used for the library.
    pub link_kind: &'static str,
}

/// Operating system family, for library file naming.
#[derive(Debug, Clone, Copy, PartialEq, Eq, Structural)]
pub enum TargetOs {
    /// macOS: `.dylib` libraries.
    MacOs,
    /// Linux: `.so` libraries.
    Linux,
    /// Any other system: no dynamic library is recognized.
    Other,
}

/// Whether `name` is a file name of the dynamic terminal library on `os`:
/// on macOS `libghostty-vt.dylib` or `libghostty-vt.<anything>.dylib`; on
/// Linux `libghostty-vt.so`, `libghostty-vt.so.0`, or `libghostty-vt.so.`
/// followed by anything not ending in `.a` or `.la`; nothing elsewhere.
pub open spec fn is_library_name_spec(name: Seq<char>, os: TargetOs) -> bool {
    match os {
        TargetOs::MacOs => name == "libghostty-vt.dylib"@ || (seq_starts_with(
            name,
            "libghostty-vt."@,
        ) && seq_ends_with(name, ".dylib"@)),
        TargetOs::Linux => name == "libghostty-vt.so"@ || name == "libghostty-vt.so.0"@ || (
        seq_starts_with(name, "libghostty-vt.so."@) && !seq_ends_with(name, ".a"@)
            && !seq_ends_with(name, ".la"@)),
        TargetOs::Other => false,
    }
}

/// Static archives are never the dynamic library: a name ending in `.a` or
/// `.la` is no library name on any system, and no name is one on a system
/// other than macOS and Linux.
pub proof fn law_archives_are_never_the_library(name: Seq<char>, os: TargetOs)
    ensures
        seq_ends_with(name, ".a"@) || seq_ends_with(name, ".la"@) ==> !is_library_name_spec(name, os),
        os == TargetOs::Other ==> !is_library_name_spec(name, os),
{
    reveal_strlit(".a");
    reveal_strlit(".la");
    reveal_strlit(".dylib");
    reveal_strlit("libghostty-vt.dylib");
    reveal_strlit("libghostty-vt.so");
    reveal_strlit("libghostty-vt.so.0");
    if seq_ends_with(name, ".a"@) || seq_ends_with(name, ".la"@) {
        assert(name.len() >= 2);
        let tail = name.subrange(name.len() - 2, name.len() as int);
        if seq_ends_with(name, ".a"@) {
            assert(tail == ".a"@);
        } else {
            let tail3 = name.subrange(name.len() - 3, name.len() as int);
            assert(tail3 == ".la"@);
            assert(tail =~= tail3.subrange(1, 3));
        }
        assert(tail[1] == 'a');
        assert(name.last() == tail[1]);
        if seq_ends_with(name, ".dylib"@) {
            let tail6 = name.subrange(name.len() - 6, name.len() as int);
            assert(tail6 == ".dylib"@);
            assert(name.last() == tail6[5]);
        }
    }
}

/// Every library name, on every system, starts with `libghostty-vt.`.
pub proof fn law_library_names_start_with_the_library_prefix(name: Seq<char>, os: TargetOs)
    ensures
        is_library_name_spec(name, os) ==> seq_starts_with(name, "libghostty-vt."@),
{
    reveal_strlit("libghostty-vt.");
    reveal_strlit("libghostty-vt.so.");
    reveal_strlit("libghostty-vt.dylib");
    reveal_strlit("libghostty-vt.so");
    reveal_strlit("libghostty-vt.so.0");
    if is_library_name_spec(name, os) {
        if seq_starts_with(name, "libghostty-vt.so."@) {
            assert(name.subrange(0, 14) =~= name.subrange(0, 17).subrange(0, 14));
            assert("libghostty-vt."@ =~= "libghostty-vt.so."@.subrange(0, 14));
        }
        assert(name.subrange(0, 14) =~= "libghostty-vt."@);
    }
}

/// Whether a file name is a dynamic terminal library on the given system.
pub fn is_ghostty_dynamic_library_name(file_name: &str, os: TargetOs) -> (is_library: bool)
    ensures
        is_library == is_library_name_spec(file_name@, os),
{
    match os {
        TargetOs::MacOs => str_equal(file_name, "libghostty-vt.dylib") || (str_starts_with(
            file_name,
            "libghostty-vt.",
        ) && str_ends_with(file_name, ".dylib")),
        TargetOs::Linux => str_equal(file_name, "libghostty-vt.so") || str_equal(
            file_name,
            "libghostty-vt.so.0",
        ) || (str_starts_with(file_name, "libghostty-vt.so.") && !str_ends_with(file_name, ".a")
            && !str_ends_with(file_name, ".la")),
        TargetOs::Other => false,
    }
}

/// Whether any of the given directory entry names is the dynamic library.
pub open spec fn contains_library_spec(names: Seq<Seq<char>>, os: TargetOs) -> bool {
    exists|i: int| 0 <= i < names.len() && is_library_name_spec(#[trigger] names[i], os)
}

/// Whether a directory listing holds the dynamic terminal library.
pub fn directory_contains_ghostty_library(entry_names: &Vec<String>, os: TargetOs) -> (found: bool)
    ensures
        found == contains_library_spec(entry_names@.map_values(|n: String| n@), os),
{
    let ghost names = entry_names@.map_values(|n: String| n@);
    let n = entry_names.len();
    let mut i: usize = 0;
    while i < n
        invariant
            n == entry_names@.len(),
            names == entry_names@.map_values(|n: String| n@),
            i <= n,
            forall|k: int| 0 <= k < i ==> !is_library_name_spec(#[trigger] names[k], os),
        decreases n - i,
    {
        if is_ghostty_dynamic_library_name(entry_names[i].as_str(), os) {
            assert(is_library_name_spec(names[i as int], os));
            return true;
        }
        i = i + 1;
    }
    false
}

/// Some entry of `paths` is the same path as `p`.
pub open spec fn lists_path(paths: Seq<Seq<char>>, p: Seq<char>) -> bool {
    exists|i: int| 0 <= i < paths.len() && same_path(#[trigger] paths[i], p)
}

/// The paths in order of first appearance, each path once: a path is
/// dropped when an earlier kept one is the same path (component by
/// component, so `/x/lib/` and `/x/lib` are one path).
pub open spec fn unique_paths(paths: Seq<Seq<char>>) -> Seq<Seq<char>>
    decreases paths.len(),
{
    if paths.len() == 0 {
        Seq::empty()
    } else {
        let earlier = unique_paths(paths.drop_last());
        if lists_path(earlier, paths.last()) {
            earlier
        } else {
            earlier.push(paths.last())
        }
    }
}

/// The searched directories are taken from the given ones, no two of them
/// are the same path, and every given directory is the same path as one of
/// them.
pub proof fn law_unique_paths_lists_each_path_once(paths: Seq<Seq<char>>)
    ensures
        forall|i: int, j: int|
            0 <= i < j < unique_paths(paths).len() ==> !same_path(
                #[trigger] unique_paths(paths)[i],
                #[trigger] unique_paths(paths)[j],
            ),
        forall|k: int| 0 <= k < paths.len() ==> lists_path(unique_paths(paths), #[trigger] paths[k]),
        forall|k: int| 0 <= k < unique_paths(paths).len() ==> paths.contains(#[trigger] unique_paths(paths)[k]),
    decreases paths.len(),
{
    if paths.len() > 0 {
        let earlier = paths.drop_last();
        law_unique_paths_lists_each_path_once(earlier);
        let before = unique_paths(earlier);
        let last = paths.last();
        let after = unique_paths(paths);
        assert(paths[paths.len() - 1] == last);
        if lists_path(before, last) {
            assert(after == before);
            assert forall|k: int| 0 <= k < paths.len() implies lists_path(after, #[trigger] paths[k]) by {
                if k < paths.len() - 1 {
                    assert(earlier[k] == paths[k]);
                }
            }
            assert forall|k: int| 0 <= k < after.len() implies paths.contains(#[trigger] after[k]) by {
                assert(earlier.contains(after[k]));
                let i = choose|i: int| 0 <= i < earlier.len() && earlier[i] == after[k];
                assert(paths[i] == after[k]);
            }
        } else {
            assert(after == before.push(last));
            assert forall|i: int, j: int|
                0 <= i < j < after.len() implies !same_path(#[trigger] after[i], #[trigger] after[j]) by {
                if j < before.len() {
                    assert(after[i] == before[i]);
                    assert(after[j] == before[j]);
                } else {
                    assert(after[i] == before[i]);
                    assert(after[j] == last);
                    if same_path(after[i], after[j]) {
                        assert(same_path(before[i], last));
                        assert(lists_path(before, last));
                    }
                }
            }
            assert forall|k: int| 0 <= k < paths.len() implies lists_path(after, #[trigger] paths[k]) by {
                if k < paths.len() - 1 {
                    assert(earlier[k] == paths[k]);
                    assert(lists_path(before, paths[k]));
                    let i = choose|i: int| 0 <= i < before.len() && same_path(#[trigger] before[i], paths[k]);
                    assert(after[i] == before[i]);
                } else {
                    assert(after[before.len() as int] == last);
                    assert(same_path(after[before.len() as int], paths[k]));
                }
            }
            assert forall|k: int| 0 <= k < after.len() implies paths.contains(#[trigger] after[k]) by {
                if k < before.len() {
                    assert(after[k] == before[k]);
                    assert(earlier.contains(before[k]));
                    let i = choose|i: int| 0 <= i < earlier.len() && earlier[i] == before[k];
                    assert(paths[i] == after[k]);
                } else {
                    assert(paths[paths.len() - 1] == after[k]);
                }
            }
        }
    }
}

/// The first searched directory is the first one given.
pub proof fn law_unique_paths_keep_the_first_path(paths: Seq<Seq<char>>)
    requires
        paths.len() > 0,
    ensures
        unique_paths(paths).len() > 0,
        unique_paths(paths)[0] == paths[0],
    decreases paths.len(),
{
    let earlier = unique_paths(paths.drop_last());
    if paths.len() > 1 {
        law_unique_paths_keep_the_first_path(paths.drop_last());
        assert(paths.drop_last()[0] == paths[0]);
        if !lists_path(earlier, paths.last()) {
            assert(earlier.push(paths.last())[0] == earlier[0]);
        }
    } else {
        assert(paths.drop_last() =~= Seq::<Seq<char>>::empty());
        assert(earlier =~= Seq::<Seq<char>>::empty());
        assert(!lists_path(earlier, paths.last()));
        assert(unique_paths(paths) == earlier.push(paths.last()));
        assert(paths.last() == paths[0]);
    }
}

/// Append `path` unless a listed path is the same path, component by component.
pub fn push_unique_path(paths: &mut Vec<String>, path: String)
    ensures
        lists_path(path_views(old(paths)@), path@) ==> path_views(final(paths)@) == path_views(
            old(paths)@,
        ),
        !lists_path(path_views(old(paths)@), path@) ==> path_views(final(paths)@) == path_views(
            old(paths)@,
        ).push(path@),
{
    let ghost views = path_views(paths@);
    let n = paths.len();
    let mut i: usize = 0;
    while i < n
        invariant
            n == paths@.len(),
            views == path_views(paths@),
            i <= n,
            forall|k: int| 0 <= k < i ==> !same_path(#[trigger] views[k], path@),
        decreases n - i,
    {
        if same_path_as(paths[i].as_str(), path.as_str()) {
            assert(same_path(views[i as int], path@));
            return;
        }
        i = i + 1;
    }
    assert(!lists_path(views, path@));
    paths.push(path);
    assert(path_views(paths@) =~= views.push(path@));
}

/// `relative` joined onto the directory `base`, as `Path::join` joins a
/// relative path on Unix: a `/` goes between them unless `base` is empty or
/// already ends in one.
pub open spec fn join_spec(base: Seq<char>, relative: Seq<char>) -> Seq<char> {
    if base.len() == 0 {
        relative
    } else if base.last() == '/' {
        base + relative
    } else {
        base + seq!['/'] + relative
    }
}

/// Joining keeps the directory as it is and puts `relative` at the end, with
/// exactly one `/` between them: one is added only when the directory is not
/// empty and does not already end in one.
pub proof fn law_join_separates_once(base: Seq<char>, relative: Seq<char>)
    ensures
        seq_ends_with(join_spec(base, relative), relative),
        base.len() == 0 ==> join_spec(base, relative) == relative,
        base.len() > 0 ==> seq_starts_with(join_spec(base, relative), base),
        base.len() > 0 && base.last() == '/' ==> join_spec(base, relative).len() == base.len()
            + relative.len(),
        base.len() > 0 && base.last() != '/' ==> join_spec(base, relative).len() == base.len()
            + relative.len() + 1 && join_spec(base, relative)[base.len() as int] == '/',
{
    let joined = join_spec(base, relative);
    assert(joined.subrange(joined.len() - relative.len(), joined.len() as int) =~= relative);
    if base.len() > 0 {
        assert(joined.subrange(0, base.len() as int) =~= base);
    }
}

/// Join a relative path onto a directory.
pub fn join_path(base: &str, relative: &str) -> (joined: String)
    ensures
        joined@ == join_spec(base@, relative@),
{
    let len = base.unicode_len();
    let mut joined = String::from_str(base);
    if len > 0 && base.get_char(len - 1) != '/' {
        push_char(&mut joined, '/');
    }
    joined.append(relative);
    proof {
        if len > 0 {
            assert(base@.last() == base@[len - 1]);
        }
    }
    joined
}

/// The directories derived from the running executable's directory `e`:
/// on Linux `e`, then `e/../lib` and `e/lib`; on macOS `e`, then the
/// `Frameworks` directory in `contents` (the parent of `e`) when there is
/// one; elsewhere `e` alone.
pub open spec fn executable_search_dirs_spec(
    e: Seq<char>,
    contents: Option<Seq<char>>,
    os: TargetOs,
) -> Seq<Seq<char>> {
    match os {
        TargetOs::Linux => seq![e, join_spec(e, "../lib"@), join_spec(e, "lib"@)],
        TargetOs::MacOs => match contents {
            Some(c) => seq![e, join_spec(c, "Frameworks"@)],
            None => seq![e],
        },
        TargetOs::Other => seq![e],
    }
}

/// The directories, derived from the running executable's directory, in
/// which the dynamic library is looked for on `os`.
pub fn executable_search_dirs(executable_dir: &str, contents_dir: Option<&str>, os: TargetOs) -> (dirs: Vec<String>)
    ensures
        path_views(dirs@) == executable_search_dirs_spec(
            executable_dir@,
            match contents_dir {
                Some(c) => Some(c@),
                None => None,
            },
            os,
        ),
        dirs@.len() >= 1,
        dirs@[0]@ == executable_dir@,
        os == TargetOs::Linux ==> dirs@.len() == 3 && dirs@[1]@ == join_spec(executable_dir@, "../lib"@)
            && dirs@[2]@ == join_spec(executable_dir@, "lib"@),
        os == TargetOs::MacOs ==> (contents_dir matches Some(c) ==> dirs@.len() == 2 && dirs@[1]@
            == join_spec(c@, "Frameworks"@)),
        os == TargetOs::MacOs ==> (contents_dir is None ==> dirs@.len() == 1),
        os == TargetOs::Other ==> dirs@.len() == 1,
{
    let mut dirs: Vec<String> = Vec::new();
    dirs.push(executable_dir.to_owned());
    match os {
        TargetOs::Linux => {
            dirs.push(join_path(executable_dir, "../lib"));
            dirs.push(join_path(executable_dir, "lib"));
        },
        TargetOs::MacOs => {
            if let Some(contents) = contents_dir {
                dirs.push(join_path(contents, "Frameworks"));
            }
        },
        TargetOs::Other => {},
    }
    assert(path_views(dirs@) =~= executable_search_dirs_spec(
        executable_dir@,
        match contents_dir {
            Some(c) => Some(c@),
            None => None,
        },
        os,
    ));
    dirs
}

/// The directories searched for the dynamic library: the directory it was
/// built into, then, when the running executable's directory is known, the
/// directories derived from it on `os` (see [`executable_search_dirs`]);
/// a directory is left out when an earlier one is the same path, compared
/// component by component; order of first appearance is kept.
pub fn candidate_dynamic_library_dirs(
    compiled_library_dir: &str,
    executable_dir: Option<&str>,
    contents_dir: Option<&str>,
    os: TargetOs,
) -> (candidates: Vec<String>)
    ensures
        path_views(candidates@) == unique_paths(
            seq![compiled_library_dir@] + match executable_dir {
                Some(e) => executable_search_dirs_spec(
                    e@,
                    match contents_dir {
                        Some(c) => Some(c@),
                        None => None,
                    },
                    os,
                ),
                None => Seq::empty(),
            },
        ),
{
    let executable_dirs = match executable_dir {
        Some(e) => executable_search_dirs(e, contents_dir, os),
        None => Vec::new(),
    };
    unique_candidates(compiled_library_dir, &executable_dirs)
}

/// The build directory, then the given directories, each path once, in
/// order of first appearance.
fn unique_candidates(compiled_library_dir: &str, executable_dirs: &Vec<String>) -> (candidates: Vec<String>)
    ensures
        path_views(candidates@) == unique_paths(
            seq![compiled_library_dir@] + path_views(executable_dirs@),
        ),
{
    let ghost all = seq![compiled_library_dir@] + path_views(executable_dirs@);
    let mut candidates: Vec<String> = Vec::new();
    push_unique_path(&mut candidates, compiled_library_dir.to_owned());
    proof {
        let first = all.subrange(0, 1);
        assert(first.drop_last() =~= Seq::<Seq<char>>::empty());
        assert(unique_paths(first.drop_last()) =~= Seq::<Seq<char>>::empty());
        assert(!lists_path(Seq::<Seq<char>>::empty(), compiled_library_dir@));
        assert(first.last() == compiled_library_dir@);
        assert(unique_paths(first) =~= seq![compiled_library_dir@]);
        assert(path_views(candidates@) =~= seq![compiled_library_dir@]);
    }
    let n = executable_dirs.len();
    let mut i: usize = 0;
    while i < n
        invariant
            n == executable_dirs@.len(),
            all == seq![compiled_library_dir@] + path_views(executable_dirs@),
            i <= n,
            path_views(candidates@) == unique_paths(all.subrange(0, i + 1)),
        decreases n - i,
    {
        let dir = executable_dirs[i].clone();
        push_unique_path(&mut candidates, dir);
        assert(all.subrange(0, i + 2).drop_last() =~= all.subrange(0, i + 1));
        i = i + 1;
    }
    assert(all.subrange(0, n + 1) =~= all);
    candidates
}

/// The searched paths, each in backquotes, separated by `, `.
pub open spec fn quoted_list(paths: Seq<Seq<char>>) -> Seq<char>
    decreases paths.len(),
{
    if paths.len() == 0 {
        Seq::empty()
    } else if paths.len() == 1 {
        "`"@ + paths[0] + "`"@
    } else {
        quoted_list(paths.drop_last()) + ", `"@ + paths.last() + "`"@
    }
}

/// The message reported when no searched directory holds the library.
pub open spec fn not_found_message(paths: Seq<Seq<char>>, commit: Seq<char>) -> Seq<char> {
    "libghostty-vt dynamic library not found in runtime search paths ["@ + quoted_list(paths)
        + "] (commit `"@ + commit + "`)"@
}

/// The message reported when the build did not record where it put the library.
pub open spec fn not_provided_message() -> Seq<char> {
    "libghostty-vt build output path was not provided"@
}

/// The message reported when the render state of the sanity check has no rows.
pub open spec fn zero_rows_message() -> Seq<char> {
    "ghostty render state returned zero rows during runtime sanity check"@
}

/// `i` is the first position whose flag is set.
pub open spec fn is_first_set(flags: Seq<bool>, i: int) -> bool {
    &&& 0 <= i < flags.len()
    &&& flags[i]
    &&& forall|j: int| 0 <= j < i ==> !flags[j]
}

/// Some flag is set.
pub open spec fn any_set(flags: Seq<bool>) -> bool {
    exists|i: int| 0 <= i < flags.len() && #[trigger] flags[i]
}

/// Pick the first searched directory that holds the library; `has_library`
/// tells, for each candidate, whether its listing held the library.
pub fn resolve_dynamic_library_dir(
    candidates: &Vec<String>,
    has_library: &Vec<bool>,
    commit: &str,
) -> (dir: Result<String, RuntimeError>)
    requires
        has_library@.len() == candidates@.len(),
    ensures
        any_set(has_library@) <==> dir is Ok,
        dir matches Ok(d) ==> exists|i: int|
            is_first_set(has_library@, i) && d@ == (#[trigger] candidates@[i])@,
        dir matches Err(e) ==> e.message_view() == not_found_message(
            path_views(candidates@),
            commit@,
        ),
{
    let n = candidates.len();
    let mut i: usize = 0;
    while i < n
        invariant
            n == candidates@.len(),
            n == has_library@.len(),
            i <= n,
            forall|j: int| 0 <= j < i ==> !has_library@[j],
        decreases n - i,
    {
        if has_library[i] {
            let found = candidates[i].clone();
            assert(is_first_set(has_library@, i as int));
            return Ok(found);
        }
        i = i + 1;
    }
    let ghost views = path_views(candidates@);
    let mut message = String::from_str(
        "libghostty-vt dynamic library not found in runtime search paths [",
    );
    let ghost prefix = message@;
    let mut k: usize = 0;
    while k < n
        invariant
            n == candidates@.len(),
            views == path_views(candidates@),
            k <= n,
            message@ == prefix + quoted_list(views.subrange(0, k as int)),
        decreases n - k,
    {
        let ghost before = message@;
        if k == 0 {
            message.append("`");
        } else {
            message.append(", `");
        }
        message.append(candidates[k].as_str());
        message.append("`");
        proof {
            let taken = views.subrange(0, k + 1);
            assert(taken.drop_last() =~= views.subrange(0, k as int));
            assert(taken.last() == candidates@[k as int]@);
            if k == 0 {
                assert(taken.len() == 1);
                assert(quoted_list(views.subrange(0, 0)) =~= Seq::<char>::empty());
                assert(message@ =~= prefix + quoted_list(taken));
            } else {
                assert(message@ =~= prefix + quoted_list(taken));
            }
        }
        k = k + 1;
    }
    assert(views.subrange(0, n as int) =~= views);
    message.append("] (commit `");
    message.append(commit);
    message.append("`)");
    assert(message@ =~= not_found_message(views, commit@));
    Err(RuntimeError::new(message))
}

/// The link kind in force: the recorded one, `dynamic` when none was recorded.
pub open spec fn link_kind_spec(link_kind: Option<&'static str>) -> &'static str {
    match link_kind {
        Some(kind) => kind,
        None => "dynamic",
    }
}

/// Without a recorded link kind the library counts as dynamically linked;
/// a recorded one is kept as it is.
pub proof fn law_link_kind_defaults_to_dynamic(link_kind: Option<&'static str>)
    ensures
        link_kind is None ==> link_kind_spec(link_kind)@ == "dynamic"@,
        link_kind matches Some(k) ==> link_kind_spec(link_kind) == k,
{
}

/// Validate that the linked library is discoverable and callable.
///
/// `compiled_library_dir` and `link_kind` are what the build recorded,
/// `candidates` the directories searched for a dynamic library (see
/// [`candidate_dynamic_library_dirs`]), `has_library` whether each of them
/// holds it, and `sanity` the outcome of exercising the library.
pub fn initialize_runtime(
    compiled_library_dir: Option<&str>,
    link_kind: Option<&'static str>,
    commit: &'static str,
    candidates: &Vec<String>,
    has_library: &Vec<bool>,
    sanity: Result<(), RuntimeError>,
) -> (info: Result<RuntimeInfo, RuntimeError>)
    requires
        has_library@.len() == candidates@.len(),
    ensures
        compiled_library_dir is None ==> (info matches Err(e) && e.message_view()
            == not_provided_message()),
        compiled_library_dir matches Some(compiled) ==> {
            let kind = link_kind_spec(link_kind);
            let dynamic = kind@ == "dynamic"@;
            &&& dynamic && !any_set(has_library@) ==> (info matches Err(e) && e.message_view()
                == not_found_message(path_views(candidates@), commit@))
            &&& (!dynamic || any_set(has_library@)) && sanity is Err ==> info == Err::<
                RuntimeInfo,
                RuntimeError,
            >(sanity->Err_0)
            &&& (!dynamic || any_set(has_library@)) && sanity is Ok ==> (info matches Ok(i) && i.commit
                == commit && i.link_kind == kind && (!dynamic ==> i.library_dir@ == compiled@) && (
            dynamic ==> exists|k: int|
                is_first_set(has_library@, k) && i.library_dir@ == (#[trigger] candidates@[k])@))
        },
{
    let compiled = match compiled_library_dir {
        Some(dir) => dir,
        None => {
            return Err(
                RuntimeError::new(String::from_str("libghostty-vt build output path was not provided")),
            );
        },
    };
    let kind: &'static str = match link_kind {
        Some(kind) => kind,
        None => "dynamic",
    };
    let library_dir = if str_equal(kind, "dynamic") {
        match resolve_dynamic_library_dir(candidates, has_library, commit) {
            Ok(dir) => dir,
            Err(e) => {
                return Err(e);
            },
        }
    } else {
        compiled.to_owned()
    };
    match sanity {
        Ok(()) => {},
        Err(e) => {
            return Err(e);
        },
    }
    Ok(RuntimeInfo { commit, library_dir, link_kind: kind })
}

/// The verdict of the sanity check on the number of rows that a fresh
/// terminal's render state reported: zero rows is an error.
pub fn runtime_sanity_check(rendered_rows: u16) -> (verdict: Result<(), RuntimeError>)
    ensures
        rendered_rows == 0 <==> verdict is Err,
        verdict matches Err(e) ==> e.message_view() == zero_rows_message(),
{
    if rendered_rows == 0 {
        return Err(
            RuntimeError::new(
                String::from_str(
                    "ghostty render state returned zero rows during runtime sanity check",
                ),
            ),
        );
    }
    Ok(())
}

/// Whether the sanity check exercises the library on `os`: on macOS and Linux.
pub open spec fn sanity_check_applies_spec(os: TargetOs) -> bool {
    os == TargetOs::MacOs || os == TargetOs::Linux
}

/// Whether the sanity check exercises the library on the given system.
pub fn runtime_sanity_check_applies(os: TargetOs) -> (applies: bool)
    ensures
        applies == sanity_check_applies_spec(os),
        applies <==> os != TargetOs::Other,
{
    match os {
        TargetOs::MacOs | TargetOs::Linux => true,
        TargetOs::Other => false,
    }
}

/// Whether, after locating the library gave `located`, the sanity check
/// still has to run: only when the library was located and the system is
/// one on which the check applies.
pub fn sanity_check_due(os: TargetOs, located: &Result<RuntimeInfo, RuntimeError>) -> (due: bool)
    ensures
        due == (located is Ok && sanity_check_applies_spec(os)),
        due <==> located is Ok && os != TargetOs::Other,
{
    located.is_ok() && runtime_sanity_check_applies(os)
}

/// The message reported when the Linux readiness probe runs elsewhere.
pub open spec fn not_linux_message() -> Seq<char> {
    "linux ghostty readiness probe is only available on linux"@
}

/// Linux-specific readiness probe: on Linux the outcome of
/// [`initialize_runtime`], which the caller runs there and hands in;
/// elsewhere an error.
pub fn linux_readiness_probe(
    os: TargetOs,
    initialized: Option<Result<RuntimeInfo, RuntimeError>>,
) -> (probe: Result<RuntimeInfo, RuntimeError>)
    requires
        os == TargetOs::Linux ==> initialized is Some,
    ensures
        os == TargetOs::Linux ==> probe == initialized->0,
        os != TargetOs::Linux ==> (probe matches Err(e) && e.message_view() == not_linux_message()),
{
    match os {
        TargetOs::Linux => match initialized {
            Some(outcome) => outcome,
            None => Err(RuntimeError::new(String::from_str("linux ghostty readiness probe is only available on linux"))),
        },
        _ => Err(
            RuntimeError::new(
                String::from_str("linux ghostty readiness probe is only available on linux"),
            ),
        ),
    }
}

} // verus!
