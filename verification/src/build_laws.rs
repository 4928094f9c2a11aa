//! What holds of what build scripts print and pass on.

use vstd::prelude::*;
use vstd::string::*;
use crate::build_helper::{
    clang_args, find_python_lib, forward_flags, forwarded, forwarded_of, law_last_library,
    lemma_python_lib_member, link_lines, prefixed, print_linker_args, python_lib, python_stem,
    shell_words, stem_le, test_link_lines, BuildDir, LinkError,
};
use crate::text::{decimal, texts};
use crate::text_laws::{differs_at, law_decimal, law_text_order, number_read};
use crate::version::{
    digits_end, is_digit, law_library_order, libraries_in_order, number, numbers_from, older,
};

verus! {

proof fn lemma_read_sign(d: Seq<char>)
    requires
        forall|i: int| 0 <= i < d.len() ==> '0' <= #[trigger] d[i] <= '9',
    ensures
        number_read(d) >= 0,
    decreases d.len(),
{
    if d.len() > 0 {
        lemma_read_sign(d.drop_last());
        assert('0' <= d[d.len() - 1] <= '9');
    }
}

/// A number as it is compared: one that is too large counts as the largest.
pub open spec fn counted(n: int) -> int {
    if n > u64::MAX {
        u64::MAX as int
    } else {
        n
    }
}

proof fn lemma_number(d: Seq<char>)
    requires
        forall|i: int| 0 <= i < d.len() ==> '0' <= #[trigger] d[i] <= '9',
    ensures
        number(d) == counted(number_read(d)),
    decreases d.len(),
{
    if d.len() > 0 {
        lemma_read_sign(d.drop_last());
        assert('0' <= d[d.len() - 1] <= '9');
        lemma_number(d.drop_last());
    }
}

proof fn lemma_digits_end(s: Seq<char>, i: int, end: int)
    requires
        0 <= i <= end <= s.len(),
        forall|k: int| i <= k < end ==> '0' <= #[trigger] s[k] <= '9',
        end < s.len() ==> !('0' <= s[end] <= '9'),
    ensures
        digits_end(s, i) == end,
    decreases end - i,
{
    if i < end {
        assert(is_digit(s[i]));
        lemma_digits_end(s, i + 1, end);
    }
}

/// The text of a version: two numbers with a dot between.
pub open spec fn version_text(major: nat, minor: nat) -> Seq<char> {
    decimal(major) + "."@ + decimal(minor)
}

/// The numbers of a version are read back from where it starts, however many
/// digits they have and whatever comes before.
pub proof fn law_version_read(head: Seq<char>, major: nat, minor: nat)
    requires
        major <= u64::MAX,
        minor <= u64::MAX,
    ensures
        numbers_from(head + version_text(major, minor), head.len() as int) == seq![
            major as int,
            minor as int,
        ],
{
    reveal_strlit(".");
    law_decimal(major);
    law_decimal(minor);
    let (a, b) = (decimal(major), decimal(minor));
    let s = head + version_text(major, minor);
    let i = head.len() as int;
    let dot = i + a.len();
    let end = s.len() as int;
    assert forall|k: int| i <= k < dot implies '0' <= #[trigger] s[k] <= '9' by {
        assert(s[k] == a[k - i]);
    }
    assert(s[dot] == '.');
    lemma_digits_end(s, i, dot);
    assert(s.subrange(i, dot) =~= a);
    lemma_number(a);
    assert forall|k: int| dot + 1 <= k < end implies '0' <= #[trigger] s[k] <= '9' by {
        assert(s[k] == b[k - dot - 1]);
    }
    lemma_digits_end(s, dot + 1, end);
    assert(s.subrange(dot + 1, end) =~= b);
    lemma_number(b);
    assert(numbers_from(s, dot + 1) =~= seq![minor as int]);
    assert(numbers_from(s, i) =~= seq![major as int, minor as int]);
}

proof fn lemma_older_pair(a: int, b: int, c: int, d: int)
    ensures
        older(seq![a, b], seq![c, d]) <==> a < c || (a == c && b < d),
{
    let (x, y) = (seq![a, b], seq![c, d]);
    assert(x.skip(1) =~= seq![b]);
    assert(y.skip(1) =~= seq![d]);
    assert(seq![b].skip(1) =~= Seq::empty());
    assert(seq![d].skip(1) =~= Seq::empty());
    reveal_with_fuel(older, 3);
}

/// Of two Python libraries the one with the higher version comes later: its
/// first number decides, and where that is the same the second one.
pub proof fn law_higher_version_later(a: nat, b: nat, c: nat, d: nat)
    requires
        a <= u64::MAX,
        b <= u64::MAX,
        c <= u64::MAX,
        d <= u64::MAX,
    ensures
        stem_le("python"@ + version_text(a, b), "python"@ + version_text(c, d)) <==> a < c || (a == c
            && b <= d),
{
    reveal_strlit("python");
    law_version_read("python"@, a, b);
    law_version_read("python"@, c, d);
    let (s, t) = ("python"@ + version_text(a, b), "python"@ + version_text(c, d));
    let (x, y) = (seq![a as int, b as int], seq![c as int, d as int]);
    assert("python"@.len() == 6);
    lemma_older_pair(a as int, b as int, c as int, d as int);
    if x == y {
        assert(x[0] == y[0] && x[1] == y[1]);
        law_library_order(s, s, s, 6);
    } else {
        assert(!(a == c && b == d));
    }
}

/// A file is the library `stem` exactly if it is called `lib`, then that name,
/// which starts with `python`, then `.a`.
pub proof fn law_library_file(file: Seq<char>, stem: Seq<char>)
    ensures
        python_stem(file) == Some(stem) <==> file == "lib"@ + stem + ".a"@ && "python"@.is_prefix_of(
            stem,
        ),
{
    reveal_strlit("lib");
    reveal_strlit(".a");
    reveal_strlit("python");
    let n = file.len() as int;
    if python_stem(file) == Some(stem) {
        assert(file =~= file.take(3) + file.subrange(3, n - 2) + file.skip(n - 2));
    }
    if file == "lib"@ + stem + ".a"@ {
        assert(file.take(3) =~= "lib"@);
        assert(file.skip(n - 2) =~= ".a"@);
        assert(file.subrange(3, n - 2) =~= stem);
    }
}

/// The library that is found is the one of a file, and none of the files is a
/// library that comes after it. None is found exactly if no file is one.
pub proof fn law_library_found(files: &[String], r: Option<String>)
    requires
        call_ensures(find_python_lib, (files,), r),
    ensures
        r is None <==> forall|i: int|
            0 <= i < files@.len() ==> python_stem(#[trigger] files@[i]@) is None,
        r matches Some(lib) ==> {
            &&& exists|i: int| 0 <= i < files@.len() && python_stem(#[trigger] files@[i]@) == Some(lib@)
            &&& forall|i: int|
                0 <= i < files@.len() && python_stem(#[trigger] files@[i]@) is Some ==> stem_le(
                    python_stem(files@[i]@)->0,
                    lib@,
                )
        },
{
    let all = texts(files@);
    assert forall|i: int| 0 <= i < files@.len() && python_stem(#[trigger] files@[i]@) is Some implies {
        &&& python_lib(all) is Some
        &&& stem_le(python_stem(files@[i]@)->0, python_lib(all)->0)
    } by {
        assert(all[i] == files@[i]@);
        law_last_library(all, i);
    }
    if r is Some {
        lemma_python_lib_member(all);
        let j = choose|j: int| 0 <= j < all.len() && python_stem(#[trigger] all[j]) == python_lib(all);
        assert(all[j] == files@[j]@);
    }
}

/// A shared build is linked with each of its arguments, one line each and in
/// order. Any other build is linked with none. What is not set, or cannot be
/// split, is an error, and the first thing that is wrong decides.
pub proof fn law_linker_args(
    shared_build: Option<&str>,
    shared_args: Option<&str>,
    r: Result<Vec<String>, LinkError>,
)
    requires
        call_ensures(print_linker_args, (shared_build, shared_args), r),
    ensures
        shared_build is None <==> r == Err::<Vec<String>, LinkError>(LinkError::NoSharedBuild),
        (shared_build matches Some(b) && b@ != "1"@) ==> (r matches Ok(v) && v@.len() == 0),
        (shared_build matches Some(b) && b@ == "1"@) ==> match shared_args {
            None => r == Err::<Vec<String>, LinkError>(LinkError::NoSharedArgs),
            Some(args) => match shell_words(args@) {
                None => r == Err::<Vec<String>, LinkError>(LinkError::InvalidSharedArgs),
                Some(words) => {
                    &&& r matches Ok(v)
                    &&& r->Ok_0@.len() == words.len()
                    &&& forall|i: int|
                        0 <= i < words.len() ==> #[trigger] r->Ok_0@[i]@ == "cargo:rustc-link-arg="@
                            + words[i]
                },
            },
        },
{
    if let Ok(v) = r {
        let lines = texts(v@);
        assert(lines.len() == v@.len());
        assert(forall|i: int| 0 <= i < v@.len() ==> lines[i] == #[trigger] v@[i]@);
    }
}

/// The messages of link errors say which setting is to blame.
pub proof fn law_link_messages(e: LinkError, r: &'static str)
    requires
        call_ensures(LinkError::message, (&e,), r),
    ensures
        e is NoSharedBuild ==> "RUST_SHARED_BUILD"@.is_prefix_of(r@),
        e is NoSharedArgs ==> "BLDSHARED_ARGS"@.is_prefix_of(r@),
        e is InvalidSharedArgs ==> r@ == "Invalid BUILDSHARED_ARGS"@,
{
    reveal_strlit("RUST_SHARED_BUILD");
    reveal_strlit("RUST_SHARED_BUILD not set in Makefile?");
    reveal_strlit("BLDSHARED_ARGS");
    reveal_strlit("BLDSHARED_ARGS not set in Makefile?");
}

/// The flags that are passed on are those that start like an include path, a
/// definition or a system root. They stay in order: what is picked from two
/// lists one after the other is what is picked from each.
pub proof fn law_flags_forwarded(a: Seq<Seq<char>>, b: Seq<Seq<char>>, flag: Seq<char>, rest: Seq<char>)
    ensures
        forwarded_of(Seq::empty()) == Seq::<Seq<char>>::empty(),
        forwarded_of(a + b) == forwarded_of(a) + forwarded_of(b),
        forwarded_of(seq![flag]) == if forwarded(flag) {
            seq![flag]
        } else {
            Seq::empty()
        },
        forwarded("-I"@ + rest),
        forwarded("-D"@ + rest),
        forwarded("--sysroot"@ + rest),
        forwarded("-isysroot"@ + rest),
        forwarded("-isystem"@ + rest),
        forwarded(flag) ==> {
            ||| "-I"@.is_prefix_of(flag)
            ||| "-D"@.is_prefix_of(flag)
            ||| "--sysroot"@.is_prefix_of(flag)
            ||| "-isysroot"@.is_prefix_of(flag)
            ||| "-isystem"@.is_prefix_of(flag)
        },
    decreases b.len(),
{
    reveal_with_fuel(forwarded_of, 2);
    assert(seq![flag].drop_last() =~= Seq::empty());
    assert(forwarded_of(seq![flag]) =~= if forwarded(flag) {
        seq![flag]
    } else {
        Seq::empty()
    });
    assert("-I"@.is_prefix_of("-I"@ + rest));
    assert("-D"@.is_prefix_of("-D"@ + rest));
    assert("--sysroot"@.is_prefix_of("--sysroot"@ + rest));
    assert("-isysroot"@.is_prefix_of("-isysroot"@ + rest));
    assert("-isystem"@.is_prefix_of("-isystem"@ + rest));
    if b.len() == 0 {
        assert(a + b =~= a);
        assert(forwarded_of(a) + forwarded_of(b) =~= forwarded_of(a));
    } else {
        law_flags_forwarded(a, b.drop_last(), flag, rest);
        assert((a + b).drop_last() =~= a + b.drop_last());
        assert((a + b).last() == b.last());
        assert(forwarded_of(a + b) =~= forwarded_of(a) + forwarded_of(b));
    }
}

/// Clang is told to be quiet first, then its target if there is one, then the
/// flags that are passed on, then where to look, one argument per directory.
/// Nothing else is passed.
pub proof fn law_clang_args(
    target: Option<&str>,
    cppflags: Option<&str>,
    include_dirs: &[String],
    r: Vec<String>,
)
    requires
        call_ensures(clang_args, (target, cppflags, include_dirs), r),
    ensures
        r@.len() > 0 && r@[0]@ == "-w"@,
        ({
            let flags: Seq<Seq<char>> = match cppflags {
                Some(text) => match shell_words(text@) {
                    Some(words) => forwarded_of(words),
                    None => Seq::empty(),
                },
                None => Seq::empty(),
            };
            let at: int = if target is Some {
                2
            } else {
                1
            };
            let dirs = include_dirs@.len() as int;
            &&& target matches Some(t) ==> r@[1]@ == "--target="@ + t@
            &&& r@.len() == at + flags.len() + dirs
            &&& forall|i: int| 0 <= i < flags.len() ==> r@[at + i]@ == #[trigger] flags[i]
            &&& forall|i: int|
                0 <= i < dirs ==> r@[at + flags.len() + i]@ == "-I"@ + (#[trigger] include_dirs@[i])@
        }),
{
    let out = texts(r@);
    assert(out.len() == r@.len());
    assert(forall|i: int| 0 <= i < r@.len() ==> out[i] == #[trigger] r@[i]@);
    let dirs = prefixed("-I"@, texts(include_dirs@));
    assert(forall|i: int|
        0 <= i < include_dirs@.len() ==> dirs[i] == "-I"@ + (#[trigger] include_dirs@[i])@);
}

/// The tests link nothing special on Windows. Elsewhere symbols of the
/// interpreter may stay unresolved until they are used, and where the build
/// directory has a library, it is searched there and linked by its name, and
/// the configuration says so. Without a library it is not.
pub proof fn law_test_lines(target_os: &str, build: Option<&BuildDir>, r: Vec<String>)
    requires
        call_ensures(test_link_lines, (target_os, build), r),
    ensures
        target_os@ == "windows"@ ==> r@.len() == 0,
        target_os@ != "windows"@ ==> {
            &&& r@.len() >= 3
            &&& r@[0]@ == "cargo:rustc-link-arg-tests=-Wl,--unresolved-symbols=ignore-all"@
            &&& r@[1]@ == "cargo:rustc-link-arg-tests=-Wl,-z,lazy"@
            &&& r@[2]@ == "cargo:rerun-if-env-changed=PYTHON_BUILD_DIR"@
            &&& build is None ==> r@.len() == 3
            &&& build matches Some(b) ==> {
                &&& r@[3]@ == "cargo:rerun-if-changed="@ + b.archive@
                &&& r@[4]@ == "cargo:rustc-check-cfg=cfg(has_libpython)"@
                &&& match python_lib(texts(b.files@)) {
                    None => r@.len() == 5,
                    Some(lib) => {
                        &&& r@.len() == 12
                        &&& r@[5]@ == "cargo:rustc-link-arg-tests=-L"@ + b.dir@
                        &&& r@[6]@ == "cargo:rustc-link-arg-tests=-l"@ + lib
                        &&& r@[7]@ == "cargo:rustc-link-arg-tests=-lm"@
                        &&& r@[8]@ == "cargo:rustc-link-arg-tests=-ldl"@
                        &&& r@[9]@ == "cargo:rustc-link-arg-tests=-lpthread"@
                        &&& r@[10]@ == "cargo:rustc-link-arg-tests=-lutil"@
                        &&& r@[11]@ == "cargo:rustc-cfg=has_libpython"@
                    },
                }
            }
        },
{
    let out = texts(r@);
    assert(out.len() == r@.len());
    assert(forall|i: int| 0 <= i < r@.len() ==> out[i] == #[trigger] r@[i]@);
}

/// The first number of a version is read from where it starts. After a dot the
/// others follow, and anything else ends the version.
pub proof fn law_numbers_read(head: Seq<char>, n: nat, rest: Seq<char>)
    requires
        rest.len() > 0 ==> !('0' <= rest[0] <= '9'),
    ensures
        ({
            let s = head + decimal(n) + rest;
            let end = (head + decimal(n)).len() as int;
            numbers_from(s, head.len() as int) == seq![counted(n as int)] + if rest.len() > 0 && rest[0]
                == '.' {
                numbers_from(s, end + 1)
            } else {
                Seq::empty()
            }
        }),
        rest.len() > 0 ==> numbers_from(head + rest, head.len() as int) == Seq::<int>::empty(),
        numbers_from(head, head.len() as int) == Seq::<int>::empty(),
{
    law_decimal(n);
    let d = decimal(n);
    let s = head + d + rest;
    let i = head.len() as int;
    let end = i + d.len();
    assert forall|k: int| i <= k < end implies '0' <= #[trigger] s[k] <= '9' by {
        assert(s[k] == d[k - i]);
    }
    if rest.len() > 0 {
        assert(s[end] == rest[0]);
        let t = head + rest;
        assert(t[i] == rest[0]);
        assert(!is_digit(t[i]));
        assert(digits_end(t, i) == i);
    }
    lemma_digits_end(s, i, end);
    assert(s.subrange(i, end) =~= d);
    lemma_number(d);
}

/// One version is older than another exactly if it has the smaller number where
/// they first differ, or ends before that.
pub proof fn law_older(a: Seq<int>, b: Seq<int>)
    ensures
        older(a, b) <==> exists|k: int| #[trigger] older_at(a, b, k),
    decreases a.len(),
{
    if a.len() > 0 && b.len() > 0 && a[0] == b[0] {
        law_older(a.skip(1), b.skip(1));
        if exists|k: int| #[trigger] older_at(a.skip(1), b.skip(1), k) {
            let k = choose|k: int| #[trigger] older_at(a.skip(1), b.skip(1), k);
            assert forall|i: int| 0 <= i < k + 1 implies a[i] == b[i] by {
                if i > 0 {
                    assert(a.skip(1)[i - 1] == b.skip(1)[i - 1]);
                }
            }
            assert(older_at(a, b, k + 1));
        }
        if exists|k: int| #[trigger] older_at(a, b, k) {
            let k = choose|k: int| #[trigger] older_at(a, b, k);
            assert(k > 0);
            assert(older_at(a.skip(1), b.skip(1), k - 1));
        }
    } else {
        if older(a, b) {
            assert(older_at(a, b, 0));
        }
        if exists|k: int| #[trigger] older_at(a, b, k) {
            let k = choose|k: int| #[trigger] older_at(a, b, k);
            if k > 0 {
                assert(a[0] == b[0]);
            }
        }
    }
}

/// Whether two versions agree before `k`, where the first one ends or has the
/// smaller number.
pub open spec fn older_at(a: Seq<int>, b: Seq<int>, k: int) -> bool {
    &&& 0 <= k <= a.len()
    &&& k < b.len()
    &&& forall|i: int| 0 <= i < k ==> a[i] == b[i]
    &&& k == a.len() || a[k] < b[k]
}

/// Libraries are ordered by their versions, and those of one version by name.
pub proof fn law_libraries_ordered(a: &str, b: &str, at: usize, r: bool)
    requires
        call_ensures(libraries_in_order, (a, b, at), r),
    ensures
        ({
            let (x, y) = (numbers_from(a@, at as int), numbers_from(b@, at as int));
            if x == y {
                r <==> exists|k: int| #[trigger] differs_at(a@, b@, k)
            } else {
                r <==> exists|k: int| #[trigger] older_at(x, y, k)
            }
        }),
{
    law_text_order(a@, b@);
    law_older(numbers_from(a@, at as int), numbers_from(b@, at as int));
}

/// Link arguments become one line each, in order, and of flags those are picked
/// that are passed on.
pub proof fn law_lines(words: &[String], r: Vec<String>)
    ensures
        call_ensures(link_lines, (words,), r) ==> r@.len() == words@.len() && forall|i: int|
            0 <= i < words@.len() ==> #[trigger] r@[i]@ == "cargo:rustc-link-arg="@ + words@[i]@,
        call_ensures(forward_flags, (words,), r) ==> texts(r@) == forwarded_of(texts(words@)),
{
    let lines = texts(r@);
    assert(lines.len() == r@.len());
    assert(forall|i: int| 0 <= i < r@.len() ==> lines[i] == #[trigger] r@[i]@);
    let asked = texts(words@);
    assert(forall|i: int| 0 <= i < words@.len() ==> asked[i] == words@[i]@);
}

} // verus!
