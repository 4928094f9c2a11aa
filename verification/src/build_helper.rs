//! What build scripts print and pass on.

use vstd::prelude::*;
use vstd::string::*;
use crate::text::{begins_with, contains_text, occurs_in, same_text, texts};
use crate::version::{law_library_order, libraries_in_order, library_le};

verus! {

/// The words that a shell splits a command line into, or `None` where a quote
/// or a backslash is left open.
pub uninterp spec fn shell_words(text: Seq<char>) -> Option<Seq<Seq<char>>>;

/// `shlex::split` splits a command line like a shell. Its result has the name
/// [`shell_words`].
pub assume_specification[ shlex::split ](in_str: &str) -> (r: Option<Vec<String>>)
    ensures
        match shell_words(in_str@) {
            Some(words) => r matches Some(v) && texts(v@) == words,
            None => r is None,
        },
;

/// Why the link arguments are not known.
#[derive(Clone, Copy, Debug, PartialEq, Eq, Structural)]
pub enum LinkError {
    NoSharedBuild,
    NoSharedArgs,
    InvalidSharedArgs,
}

pub const NO_SHARED_BUILD: &'static str = "RUST_SHARED_BUILD not set in Makefile?";

pub const NO_SHARED_ARGS: &'static str = "BLDSHARED_ARGS not set in Makefile?";

pub const INVALID_SHARED_ARGS: &'static str = "Invalid BUILDSHARED_ARGS";

impl LinkError {
    /// The message of the error.
    pub fn message(&self) -> (r: &'static str)
        ensures
            r@ == match self {
                LinkError::NoSharedBuild => NO_SHARED_BUILD@,
                LinkError::NoSharedArgs => NO_SHARED_ARGS@,
                LinkError::InvalidSharedArgs => INVALID_SHARED_ARGS@,
            },
    {
        match self {
            LinkError::NoSharedBuild => NO_SHARED_BUILD,
            LinkError::NoSharedArgs => NO_SHARED_ARGS,
            LinkError::InvalidSharedArgs => INVALID_SHARED_ARGS,
        }
    }
}

pub const LINK_ARG: &'static str = "cargo:rustc-link-arg=";

/// `prefix` before each text.
pub open spec fn prefixed(prefix: Seq<char>, items: Seq<Seq<char>>) -> Seq<Seq<char>> {
    items.map_values(|s: Seq<char>| prefix + s)
}

/// Write `prefix` before each text.
fn prefix_all(prefix: &str, items: &[String]) -> (r: Vec<String>)
    ensures
        texts(r@) == prefixed(prefix@, texts(items@)),
{
    let mut v: Vec<String> = Vec::new();
    let mut i: usize = 0;
    while i < items.len()
        invariant
            i <= items@.len(),
            v@.len() == i,
            forall|j: int| 0 <= j < i ==> #[trigger] v@[j]@ == prefix@ + items@[j]@,
        decreases items@.len() - i,
    {
        let mut s = prefix.to_owned();
        s.append(items[i].as_str());
        v.push(s);
        i = i + 1;
    }
    assert(texts(v@) =~= prefixed(prefix@, texts(items@)));
    v
}

/// One line per link argument.
pub fn link_lines(words: &[String]) -> (r: Vec<String>)
    ensures
        texts(r@) == prefixed(LINK_ARG@, texts(words@)),
{
    prefix_all(LINK_ARG, words)
}

/// The link arguments of a shared build, one line each, from the values of
/// `RUST_SHARED_BUILD` and `BLDSHARED_ARGS`. A static build has none.
pub open spec fn linker_lines(
    shared_build: Option<Seq<char>>,
    shared_args: Option<Seq<char>>,
) -> Result<Seq<Seq<char>>, LinkError> {
    match shared_build {
        None => Err(LinkError::NoSharedBuild),
        Some(b) => if b != "1"@ {
            Ok(Seq::empty())
        } else {
            match shared_args {
                None => Err(LinkError::NoSharedArgs),
                Some(args) => match shell_words(args) {
                    None => Err(LinkError::InvalidSharedArgs),
                    Some(words) => Ok(prefixed(LINK_ARG@, words)),
                },
            }
        },
    }
}

/// The characters of an optional text.
pub open spec fn opt_str(s: Option<&str>) -> Option<Seq<char>> {
    match s {
        Some(t) => Some(t@),
        None => None,
    }
}

/// The lines that tell cargo the link arguments.
pub fn print_linker_args(shared_build: Option<&str>, shared_args: Option<&str>) -> (r: Result<
    Vec<String>,
    LinkError,
>)
    ensures
        match linker_lines(opt_str(shared_build), opt_str(shared_args)) {
            Ok(lines) => r matches Ok(v) && texts(v@) == lines,
            Err(e) => r matches Err(x) && x == e,
        },
{
    match shared_build {
        None => Err(LinkError::NoSharedBuild),
        Some(b) => {
            if !same_text(b, "1") {
                let none: Vec<String> = Vec::new();
                assert(texts(none@) =~= Seq::empty());
                return Ok(none);
            }
            match shared_args {
                None => Err(LinkError::NoSharedArgs),
                Some(args) => match shlex::split(args) {
                    None => Err(LinkError::InvalidSharedArgs),
                    Some(words) => Ok(link_lines(words.as_slice())),
                },
            }
        },
    }
}

pub const GIL_DISABLED: &'static str = "Py_GIL_DISABLED 1";

/// Whether one of the `pyconfig.h` files that could be read switches the lock of
/// the interpreter off.
pub fn gil_disabled(configs: &[Option<String>]) -> (r: bool)
    ensures
        r == exists|i: int|
            0 <= i < configs@.len() && (#[trigger] configs@[i] matches Some(text) && occurs_in(
                GIL_DISABLED@,
                text@,
            )),
{
    let mut i: usize = 0;
    while i < configs.len()
        invariant
            i <= configs@.len(),
            forall|j: int|
                0 <= j < i ==> !(#[trigger] configs@[j] matches Some(text) && occurs_in(
                    GIL_DISABLED@,
                    text@,
                )),
        decreases configs@.len() - i,
    {
        if let Some(text) = &configs[i] {
            if contains_text(text.as_str(), GIL_DISABLED) {
                assert(configs@[i as int] matches Some(t) && occurs_in(GIL_DISABLED@, t@));
                return true;
            }
        }
        i = i + 1;
    }
    false
}

pub const NO_WARNINGS: &'static str = "-w";

pub const TARGET: &'static str = "--target=";

pub const FLAG_I: &'static str = "-I";

pub const FLAG_D: &'static str = "-D";

pub const FLAG_SYSROOT: &'static str = "--sysroot";

pub const FLAG_ISYSROOT: &'static str = "-isysroot";

pub const FLAG_ISYSTEM: &'static str = "-isystem";

/// Whether a preprocessor flag is passed on: include paths, definitions and
/// system roots are.
pub open spec fn forwarded(flag: Seq<char>) -> bool {
    ||| FLAG_I@.is_prefix_of(flag)
    ||| FLAG_D@.is_prefix_of(flag)
    ||| FLAG_SYSROOT@.is_prefix_of(flag)
    ||| FLAG_ISYSROOT@.is_prefix_of(flag)
    ||| FLAG_ISYSTEM@.is_prefix_of(flag)
}

/// The flags among `flags` that are passed on, in order.
pub open spec fn forwarded_of(flags: Seq<Seq<char>>) -> Seq<Seq<char>>
    decreases flags.len(),
{
    if flags.len() == 0 {
        Seq::empty()
    } else if forwarded(flags.last()) {
        forwarded_of(flags.drop_last()).push(flags.last())
    } else {
        forwarded_of(flags.drop_last())
    }
}

/// The preprocessor flags that are passed on. Flags that no shell can split are
/// passed over.
pub open spec fn cppflags_args(cppflags: Option<Seq<char>>) -> Seq<Seq<char>> {
    match cppflags {
        None => Seq::empty(),
        Some(text) => match shell_words(text) {
            None => Seq::empty(),
            Some(words) => forwarded_of(words),
        },
    }
}

/// The arguments for clang: no warnings, the target, the preprocessor flags
/// that are passed on, and the directories to search.
pub open spec fn clang_args_of(
    target: Option<Seq<char>>,
    cppflags: Option<Seq<char>>,
    include_dirs: Seq<Seq<char>>,
) -> Seq<Seq<char>> {
    seq![NO_WARNINGS@] + (match target {
        Some(t) => seq![TARGET@ + t],
        None => Seq::empty(),
    }) + cppflags_args(cppflags) + prefixed(FLAG_I@, include_dirs)
}

/// Pick the flags that are passed on.
pub fn forward_flags(flags: &[String]) -> (r: Vec<String>)
    ensures
        texts(r@) == forwarded_of(texts(flags@)),
{
    let mut v: Vec<String> = Vec::new();
    let mut i: usize = 0;
    assert(texts(v@) =~= forwarded_of(texts(flags@).take(0)));
    while i < flags.len()
        invariant
            i <= flags@.len(),
            texts(v@) == forwarded_of(texts(flags@).take(i as int)),
        decreases flags@.len() - i,
    {
        let flag: &str = flags[i].as_str();
        let ghost before = v@;
        proof {
            let next = texts(flags@).take(i + 1);
            assert(next.drop_last() =~= texts(flags@).take(i as int));
            assert(next.last() == flags@[i as int]@);
        }
        if begins_with(flag, FLAG_I) || begins_with(flag, FLAG_D) || begins_with(flag, FLAG_SYSROOT)
            || begins_with(flag, FLAG_ISYSROOT) || begins_with(flag, FLAG_ISYSTEM) {
            v.push(flags[i].clone());
            assert(texts(v@) =~= texts(before).push(flags@[i as int]@));
        }
        i = i + 1;
    }
    assert(texts(flags@).take(i as int) =~= texts(flags@));
    v
}

/// The arguments for clang.
pub fn clang_args(target: Option<&str>, cppflags: Option<&str>, include_dirs: &[String]) -> (r: Vec<
    String,
>)
    ensures
        texts(r@) == clang_args_of(opt_str(target), opt_str(cppflags), texts(include_dirs@)),
{
    let mut v: Vec<String> = Vec::new();
    v.push(NO_WARNINGS.to_owned());
    assert(texts(v@) =~= seq![NO_WARNINGS@]);
    if let Some(t) = target {
        let mut s = TARGET.to_owned();
        s.append(t);
        v.push(s);
    }
    let ghost head = v@;
    assert(texts(head) =~= seq![NO_WARNINGS@] + (match opt_str(target) {
        Some(t) => seq![TARGET@ + t],
        None => Seq::empty(),
    }));
    if let Some(text) = cppflags {
        if let Some(words) = shlex::split(text) {
            let mut flags = forward_flags(words.as_slice());
            let ghost added = flags@;
            v.append(&mut flags);
            assert(texts(v@) =~= texts(head) + texts(added));
        }
    }
    assert(texts(v@) =~= texts(head) + cppflags_args(opt_str(cppflags)));
    let ghost before = v@;
    let mut dirs = prefix_all(FLAG_I, include_dirs);
    let ghost added = dirs@;
    v.append(&mut dirs);
    assert(texts(v@) =~= texts(before) + texts(added));
    v
}

pub const LIB: &'static str = "lib";

pub const ARCHIVE: &'static str = ".a";

pub const PYTHON: &'static str = "python";

/// The name of the Python library that a file is, if it is a static one.
pub open spec fn python_stem(file: Seq<char>) -> Option<Seq<char>> {
    let n = file.len() as int;
    if n >= 5 && file.take(3) == LIB@ && file.skip(n - 2) == ARCHIVE@ && PYTHON@.is_prefix_of(
        file.subrange(3, n - 2),
    ) {
        Some(file.subrange(3, n - 2))
    } else {
        None
    }
}

/// Where the version starts in the name of a Python library.
pub const VERSION_AT: usize = 6;

/// Whether the Python library `a` comes before `b` or is the same: the highest
/// version comes last.
pub open spec fn stem_le(a: Seq<char>, b: Seq<char>) -> bool {
    library_le(a, b, VERSION_AT as int)
}

/// The library to link: the highest version wins.
pub open spec fn python_lib(files: Seq<Seq<char>>) -> Option<Seq<char>>
    decreases files.len(),
{
    if files.len() == 0 {
        None
    } else {
        match (python_lib(files.drop_last()), python_stem(files.last())) {
            (None, stem) => stem,
            (best, None) => best,
            (Some(best), Some(stem)) => if stem_le(best, stem) {
                Some(stem)
            } else {
                Some(best)
            },
        }
    }
}

/// The name of the Python library that a file is, if it is a static one.
fn file_stem(file: &str) -> (r: Option<String>)
    ensures
        match python_stem(file@) {
            Some(s) => r matches Some(t) && t@ == s,
            None => r is None,
        },
{
    let n: usize = file.unicode_len();
    if n < 5 {
        return None;
    }
    let head: &str = file.substring_char(0, 3);
    let tail: &str = file.substring_char(n - 2, n);
    proof {
        assert(file@.subrange(0, 3) =~= file@.take(3));
        assert(file@.subrange(n - 2, n as int) =~= file@.skip(n - 2));
    }
    if !same_text(head, LIB) || !same_text(tail, ARCHIVE) {
        return None;
    }
    let stem: &str = file.substring_char(3, n - 2);
    if begins_with(stem, PYTHON) {
        Some(stem.to_owned())
    } else {
        None
    }
}

/// The library to link, among the files of the build directory.
pub fn find_python_lib(files: &[String]) -> (r: Option<String>)
    ensures
        match python_lib(texts(files@)) {
            Some(s) => r matches Some(t) && t@ == s,
            None => r is None,
        },
{
    let mut best: Option<String> = None;
    let mut i: usize = 0;
    while i < files.len()
        invariant
            i <= files@.len(),
            match python_lib(texts(files@).take(i as int)) {
                Some(s) => best matches Some(t) && t@ == s,
                None => best is None,
            },
            best matches Some(t) ==> t@.len() >= VERSION_AT,
        decreases files@.len() - i,
    {
        proof {
            reveal_strlit("python");
            let next = texts(files@).take(i + 1);
            assert(next.drop_last() =~= texts(files@).take(i as int));
            assert(next.last() == files@[i as int]@);
        }
        if let Some(stem) = file_stem(files[i].as_str()) {
            let later = match &best {
                None => true,
                Some(b) => libraries_in_order(b.as_str(), stem.as_str(), VERSION_AT),
            };
            if later {
                best = Some(stem);
            }
        }
        i = i + 1;
    }
    assert(texts(files@).take(i as int) =~= texts(files@));
    best
}

/// The build directory of the interpreter: its path, the path of the library in
/// it, and the names of the files that could be listed.
#[derive(Debug)]
pub struct BuildDir {
    pub dir: String,
    pub archive: String,
    pub files: Vec<String>,
}

/// What a [`BuildDir`] is.
pub ghost struct BuildDirView {
    pub dir: Seq<char>,
    pub archive: Seq<char>,
    pub files: Seq<Seq<char>>,
}

impl View for BuildDir {
    type V = BuildDirView;

    open spec fn view(&self) -> BuildDirView {
        BuildDirView { dir: self.dir@, archive: self.archive@, files: texts(self.files@) }
    }
}

pub const UNRESOLVED: &'static str =
    "cargo:rustc-link-arg-tests=-Wl,--unresolved-symbols=ignore-all";

pub const LAZY: &'static str = "cargo:rustc-link-arg-tests=-Wl,-z,lazy";

pub const RERUN_ENV: &'static str = "cargo:rerun-if-env-changed=PYTHON_BUILD_DIR";

pub const RERUN_FILE: &'static str = "cargo:rerun-if-changed=";

pub const CHECK_CFG: &'static str = "cargo:rustc-check-cfg=cfg(has_libpython)";

pub const LINK_DIR: &'static str = "cargo:rustc-link-arg-tests=-L";

pub const LINK_LIB: &'static str = "cargo:rustc-link-arg-tests=-l";

pub const LIB_M: &'static str = "cargo:rustc-link-arg-tests=-lm";

pub const LIB_DL: &'static str = "cargo:rustc-link-arg-tests=-ldl";

pub const LIB_PTHREAD: &'static str = "cargo:rustc-link-arg-tests=-lpthread";

pub const LIB_UTIL: &'static str = "cargo:rustc-link-arg-tests=-lutil";

pub const HAS_LIBPYTHON: &'static str = "cargo:rustc-cfg=has_libpython";

pub const WINDOWS: &'static str = "windows";

/// What the build script prints so that tests link like an extension module:
/// symbols of the interpreter may stay unresolved, and where a library of it
/// was built, it is linked.
pub open spec fn test_lines(target_os: Seq<char>, build: Option<BuildDirView>) -> Seq<Seq<char>> {
    if target_os == WINDOWS@ {
        Seq::empty()
    } else {
        seq![UNRESOLVED@, LAZY@, RERUN_ENV@] + match build {
            None => Seq::empty(),
            Some(b) => seq![RERUN_FILE@ + b.archive, CHECK_CFG@] + match python_lib(b.files) {
                None => Seq::empty(),
                Some(lib) => seq![
                    LINK_DIR@ + b.dir,
                    LINK_LIB@ + lib,
                    LIB_M@,
                    LIB_DL@,
                    LIB_PTHREAD@,
                    LIB_UTIL@,
                    HAS_LIBPYTHON@,
                ],
            },
        }
    }
}

/// What the build script prints.
pub fn test_link_lines(target_os: &str, build: Option<&BuildDir>) -> (r: Vec<String>)
    ensures
        texts(r@) == test_lines(
            target_os@,
            match build {
                Some(b) => Some(b@),
                None => None,
            },
        ),
{
    let mut v: Vec<String> = Vec::new();
    if same_text(target_os, WINDOWS) {
        assert(texts(v@) =~= Seq::empty());
        return v;
    }
    v.push(UNRESOLVED.to_owned());
    v.push(LAZY.to_owned());
    v.push(RERUN_ENV.to_owned());
    assert(texts(v@) =~= seq![UNRESOLVED@, LAZY@, RERUN_ENV@]);
    if let Some(b) = build {
        let mut rerun = RERUN_FILE.to_owned();
        rerun.append(b.archive.as_str());
        v.push(rerun);
        v.push(CHECK_CFG.to_owned());
        if let Some(lib) = find_python_lib(b.files.as_slice()) {
            let mut dir = LINK_DIR.to_owned();
            dir.append(b.dir.as_str());
            v.push(dir);
            let mut link = LINK_LIB.to_owned();
            link.append(lib.as_str());
            v.push(link);
            v.push(LIB_M.to_owned());
            v.push(LIB_DL.to_owned());
            v.push(LIB_PTHREAD.to_owned());
            v.push(LIB_UTIL.to_owned());
            v.push(HAS_LIBPYTHON.to_owned());
        }
    }
    assert(texts(v@) =~= test_lines(
        target_os@,
        match build {
            Some(b) => Some(b@),
            None => None,
        },
    ));
    v
}

/// The library that is linked is one of the files, and none of the others is of
/// a higher version, or of the same version with a name that comes after it.
/// Without a library there is none to link.
pub proof fn law_last_library(files: Seq<Seq<char>>, i: int)
    requires
        0 <= i < files.len(),
        python_stem(files[i]) is Some,
    ensures
        python_lib(files) is Some,
        stem_le(python_stem(files[i])->0, python_lib(files)->0),
        exists|j: int|
            0 <= j < files.len() && python_stem(#[trigger] files[j]) == python_lib(files),
    decreases files.len(),
{
    let head = files.drop_last();
    let last = files.len() - 1;
    let stem = python_stem(files[i])->0;
    law_library_order(stem, stem, stem, VERSION_AT as int);
    if i < last {
        assert(head[i] == files[i]);
        law_last_library(head, i);
        let best = python_lib(head)->0;
        let j = choose|j: int|
            0 <= j < head.len() && python_stem(#[trigger] head[j]) == python_lib(head);
        assert(files[j] == head[j]);
        if let Some(s) = python_stem(files[last]) {
            law_library_order(stem, best, s, VERSION_AT as int);
        }
    } else {
        if let Some(best) = python_lib(head) {
            law_library_order(best, stem, stem, VERSION_AT as int);
            if !stem_le(best, stem) {
                lemma_python_lib_member(head);
                let j = choose|j: int|
                    0 <= j < head.len() && python_stem(#[trigger] head[j]) == python_lib(head);
                assert(files[j] == head[j]);
            }
        }
    }
}

pub(crate) proof fn lemma_python_lib_member(files: Seq<Seq<char>>)
    requires
        python_lib(files) is Some,
    ensures
        exists|j: int|
            0 <= j < files.len() && python_stem(#[trigger] files[j]) == python_lib(files),
    decreases files.len(),
{
    let head = files.drop_last();
    let last = files.len() - 1;
    if python_stem(files[last]) != python_lib(files) {
        lemma_python_lib_member(head);
        let j = choose|j: int|
            0 <= j < head.len() && python_stem(#[trigger] head[j]) == python_lib(head);
        assert(files[j] == head[j]);
    }
}

} // verus!
