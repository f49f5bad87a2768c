//! Locating the SDK and telling the linker what to link.
//!
//! The functions here touch neither the file system nor the environment:
//! the caller reports what it found, and acts on what is handed back.

use vstd::prelude::*;
use vstd::string::StringExecFns;
use crate::error::{BuildError, BuildErrorView};
use crate::groups::{
    enabled_groups, spec_enabled_groups, spec_library_name, Capabilities, GroupId,
};
use crate::text::spec_texts;

verus! {

/// The directory of the SDK, relative to the build's working directory.
pub const RSS_DIRECTORY: &'static str = "rss";

/// The places where the SDK's libraries are looked for, most preferred
/// first: the one that the environment names, if it names one, then the
/// usual ones.
pub open spec fn spec_library_candidates(named: Option<Seq<char>>) -> Seq<Seq<char>> {
    (match named {
        Some(path) => seq![path],
        None => Seq::empty(),
    }) + seq![
        "libs"@,
        "staticlibs"@,
        "../libs"@,
        "/usr/local/lib/acconeer"@,
        "/usr/lib/acconeer"@,
    ]
}

/// The places in `probed`, each with whether it exists.
pub open spec fn spec_probed(probed: Seq<(String, bool)>) -> Seq<(Seq<char>, bool)> {
    Seq::new(probed.len(), |i: int| (probed[i].0@, probed[i].1))
}

/// The position of the first place in `probed` that exists.
pub open spec fn spec_first_existing(probed: Seq<(Seq<char>, bool)>) -> Option<int>
    decreases probed.len(),
{
    if probed.len() == 0 {
        None
    } else {
        match spec_first_existing(probed.drop_last()) {
            Some(i) => Some(i),
            None => if probed.last().1 {
                Some(probed.len() - 1)
            } else {
                None
            },
        }
    }
}

/// What the linker of a target for bare metal is told when it links
/// against stub archives.
pub open spec fn spec_stub_linker_directives() -> Seq<Seq<char>> {
    seq![
        "cargo:rustc-linker=arm-none-eabi-gcc"@,
        "cargo:rustc-link-arg=-mcpu=cortex-m4"@,
        "cargo:rustc-link-arg=-mthumb"@,
        "cargo:rustc-link-arg=-mfloat-abi=hard"@,
        "cargo:rustc-link-arg=-mfpu=fpv4-sp-d16"@,
    ]
}

/// One directive per enabled group that names its archive to the linker.
pub open spec fn spec_library_directives(caps: Capabilities) -> Seq<Seq<char>> {
    Seq::new(
        spec_enabled_groups(caps).len(),
        |i: int| "cargo:rustc-link-lib=static="@ + spec_library_name(spec_enabled_groups(caps)[i]),
    )
}

/// The directives of a build that links the archives in `lib_path`: where
/// to search, what to link, and, for stub archives, how to link.
pub open spec fn spec_link_directives(
    lib_path: Seq<char>,
    caps: Capabilities,
    stub_library: bool,
) -> Seq<Seq<char>> {
    seq!["cargo:rustc-link-search=native="@ + lib_path] + spec_library_directives(caps) + (
    if stub_library {
        spec_stub_linker_directives()
    } else {
        Seq::empty()
    })
}

/// Judges the attempt to resolve the SDK's directory: `resolved` holds its
/// full path, if it exists.
pub fn get_rss_path(resolved: Option<String>) -> (r: Result<String, BuildError>)
    ensures
        match r {
            Ok(path) => resolved == Some(path),
            Err(e) => resolved is None && e@ == BuildErrorView::RssPathNotFound,
        },
{
    match resolved {
        Some(path) => Ok(path),
        None => Err(BuildError::RssPathNotFound),
    }
}

/// The value of an optional text.
pub open spec fn spec_optional_text(text: Option<&str>) -> Option<Seq<char>> {
    match text {
        Some(t) => Some(t@),
        None => None,
    }
}

/// The places where the SDK's libraries are looked for, most preferred
/// first; `named` is the one that the environment names.
pub fn library_candidates(named: Option<&str>) -> (r: Vec<String>)
    ensures
        spec_texts(r@) == spec_library_candidates(spec_optional_text(named)),
{
    let mut r: Vec<String> = Vec::new();
    let ghost named_view = spec_optional_text(named);
    match named {
        Some(path) => {
            r.push(path.to_owned());
        },
        None => {},
    }
    r.push("libs".to_owned());
    r.push("staticlibs".to_owned());
    r.push("../libs".to_owned());
    r.push("/usr/local/lib/acconeer".to_owned());
    r.push("/usr/lib/acconeer".to_owned());
    proof {
        assert(spec_texts(r@) =~= spec_library_candidates(named_view));
    }
    r
}

/// Picks the place of the SDK's libraries: the first of `probed` that
/// exists. Where none exists the libraries are reported as not found in
/// the working directory.
pub fn discover_library(probed: &[(String, bool)]) -> (r: Result<String, BuildError>)
    ensures
        match r {
            Ok(path) => spec_first_existing(spec_probed(probed@)) matches Some(i) && 0 <= i
                < probed.len() && path@ == probed@[i].0@,
            Err(e) => spec_first_existing(spec_probed(probed@)) is None && e@
                == BuildErrorView::LibraryNotFound("."@),
        },
{
    let ghost all = spec_probed(probed@);
    let mut i: usize = 0;
    proof {
        assert(all.take(0) =~= Seq::empty());
    }
    while i < probed.len()
        invariant
            i <= probed.len(),
            all == spec_probed(probed@),
            spec_first_existing(all.take(i as int)) is None,
        decreases probed.len() - i,
    {
        proof {
            assert(all.take(i + 1).drop_last() =~= all.take(i as int));
            assert(all.take(i + 1).last() == all[i as int]);
        }
        if probed[i].1 {
            proof {
                lemma_first_existing_stays(all, i + 1);
            }
            return Ok(probed[i].0.clone());
        }
        i = i + 1;
    }
    proof {
        assert(all.take(probed.len() as int) =~= all);
    }
    Err(BuildError::LibraryNotFound(".".to_owned()))
}

/// A place that exists among the first `n` is the first of the whole list.
pub proof fn lemma_first_existing_stays(probed: Seq<(Seq<char>, bool)>, n: int)
    requires
        0 <= n <= probed.len(),
        spec_first_existing(probed.take(n)) is Some,
    ensures
        spec_first_existing(probed) == spec_first_existing(probed.take(n)),
    decreases probed.len() - n,
{
    if n < probed.len() {
        assert(probed.take(n + 1).drop_last() =~= probed.take(n));
        lemma_first_existing_stays(probed, n + 1);
    } else {
        assert(probed.take(n) =~= probed);
    }
}

/// What `spec_first_existing` reports: the place at that position exists
/// and none before it does; or no place exists.
pub proof fn lemma_first_existing(probed: Seq<(Seq<char>, bool)>)
    ensures
        match spec_first_existing(probed) {
            Some(i) => 0 <= i < probed.len() && probed[i].1 && forall|k: int|
                0 <= k < i ==> !(#[trigger] probed[k]).1,
            None => forall|k: int| 0 <= k < probed.len() ==> !(#[trigger] probed[k]).1,
        },
    decreases probed.len(),
{
    if probed.len() > 0 {
        lemma_first_existing(probed.drop_last());
        match spec_first_existing(probed.drop_last()) {
            Some(i) => {
                assert(probed.drop_last()[i] == probed[i]);
                assert forall|k: int| 0 <= k < i implies !(#[trigger] probed[k]).1 by {
                    assert(probed.drop_last()[k] == probed[k]);
                }
            },
            None => {
                assert forall|k: int| 0 <= k < probed.len() - 1 implies !(
                #[trigger] probed[k]).1 by {
                    assert(probed.drop_last()[k] == probed[k]);
                }
            },
        }
    }
}

/// The directives of a build that links the archives in `lib_path`, in the
/// order in which they are to be printed.
pub fn setup_linking(lib_path: &str, caps: Capabilities, stub_library: bool) -> (r: Vec<String>)
    ensures
        spec_texts(r@) == spec_link_directives(lib_path@, caps, stub_library),
{
    let mut r: Vec<String> = Vec::new();
    let mut search = "cargo:rustc-link-search=native=".to_owned();
    search.append(lib_path);
    r.push(search);
    let ids = enabled_groups(caps);
    let mut i: usize = 0;
    while i < ids.len()
        invariant
            i <= ids.len(),
            ids@ == spec_enabled_groups(caps),
            r.len() == i + 1,
            r@[0]@ == "cargo:rustc-link-search=native="@ + lib_path@,
            forall|k: int|
                0 <= k < i ==> r@[k + 1]@ == "cargo:rustc-link-lib=static="@ + spec_library_name(
                    ids@[k],
                ),
        decreases ids.len() - i,
    {
        let id: GroupId = ids[i];
        let mut line = "cargo:rustc-link-lib=static=".to_owned();
        line.append(id.library_name().as_str());
        r.push(line);
        i = i + 1;
    }
    if stub_library {
        r.push("cargo:rustc-linker=arm-none-eabi-gcc".to_owned());
        r.push("cargo:rustc-link-arg=-mcpu=cortex-m4".to_owned());
        r.push("cargo:rustc-link-arg=-mthumb".to_owned());
        r.push("cargo:rustc-link-arg=-mfloat-abi=hard".to_owned());
        r.push("cargo:rustc-link-arg=-mfpu=fpv4-sp-d16".to_owned());
    }
    proof {
        assert(spec_texts(r@) =~= spec_link_directives(lib_path@, caps, stub_library));
    }
    r
}

} // verus!
