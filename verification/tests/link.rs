//! How the library is linked.

use rsmpv::link::{asks_pkg_config, directives};

#[test]
fn a_directory_comes_first() {
    assert!(!asks_pkg_config(Some("/opt/mpv/lib"), false));
    assert_eq!(
        directives(Some("/opt/mpv/lib"), false),
        ["cargo:rustc-link-search=native=/opt/mpv/lib", "cargo:rustc-link-lib=mpv"]
    );
}

#[test]
fn pkg_config_comes_next() {
    assert!(asks_pkg_config(None, false));
    assert!(directives(None, true).is_empty());
}

#[test]
fn a_plain_link_comes_last() {
    assert!(!asks_pkg_config(None, true));
    assert_eq!(directives(None, false), ["cargo:rustc-link-lib=mpv"]);
}
