//! How the system libmpv is linked: what the build script of a crate that
//! links it tells cargo.

use vstd::prelude::*;

verus! {

/// The lines that cargo is told. `library_dir` is the directory given for the
/// library, if any; `found` says whether pkg-config knows the library, in
/// which case it has told cargo about it already.
pub open spec fn spec_directives(library_dir: Option<Seq<char>>, found: bool) -> Seq<Seq<char>> {
    match library_dir {
        Some(dir) => seq![
            "cargo:rustc-link-search=native="@ + dir,
            "cargo:rustc-link-lib=mpv"@,
        ],
        None => if found {
            seq![]
        } else {
            seq!["cargo:rustc-link-lib=mpv"@]
        },
    }
}

/// Whether pkg-config has to be asked: not if there is a directory for the
/// library, nor if that was switched off.
pub fn asks_pkg_config(library_dir: Option<&str>, no_pkg_config: bool) -> (asks: bool)
    ensures
        asks == (library_dir is None && !no_pkg_config),
{
    library_dir.is_none() && !no_pkg_config
}

/// The lines that cargo is told. `found` says whether pkg-config was asked and
/// knows the library.
pub fn directives(library_dir: Option<&str>, found: bool) -> (lines: Vec<String>)
    ensures
        lines@.map_values(|line: String| line@) == spec_directives(
            match library_dir {
                Some(dir) => Some(dir@),
                None => None,
            },
            found,
        ),
{
    let mut lines: Vec<String> = Vec::new();
    match library_dir {
        Some(dir) => {
            let mut search: String = "cargo:rustc-link-search=native=".to_owned();
            search.append(dir);
            lines.push(search);
            lines.push("cargo:rustc-link-lib=mpv".to_owned());
        },
        None => if !found {
            lines.push("cargo:rustc-link-lib=mpv".to_owned());
        },
    }
    lines
}

/// Whatever directory is given is searched, under its own name, before the
/// library is asked for; without one the library is asked for exactly if
/// pkg-config did not tell cargo about it. Every line is one for cargo.
pub proof fn law_library_is_linked_once(
    library_dir: Option<&str>,
    no_pkg_config: bool,
    found: bool,
    asks: bool,
    lines: Vec<String>,
)
    ensures
        call_ensures(asks_pkg_config, (library_dir, no_pkg_config), asks) ==> {
            &&& library_dir is Some ==> !asks
            &&& no_pkg_config ==> !asks
            &&& library_dir is None && !no_pkg_config ==> asks
        },
        call_ensures(directives, (library_dir, found), lines) ==> match library_dir {
            Some(dir) => {
                &&& lines@.len() == 2
                &&& lines@[0]@ == "cargo:rustc-link-search=native="@ + dir@
                &&& lines@[1]@ == "cargo:rustc-link-lib=mpv"@
            },
            None => if found {
                lines@.len() == 0
            } else {
                lines@.len() == 1 && lines@[0]@ == "cargo:rustc-link-lib=mpv"@
            },
        },
{
    if call_ensures(directives, (library_dir, found), lines) {
        let texts = lines@.map_values(|line: String| line@);
        assert(texts.len() == lines@.len());
        assert(lines@.len() > 0 ==> texts[0] == lines@[0]@);
        assert(lines@.len() > 1 ==> texts[1] == lines@[1]@);
    }
}

} // verus!
