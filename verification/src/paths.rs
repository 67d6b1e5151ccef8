use vstd::prelude::*;

verus! {

/// The texts of a sequence of strings.
pub open spec fn texts(strings: Seq<String>) -> Seq<Seq<char>> {
    strings.map_values(|s: String| s@)
}

/// The text of the path that `std::path::PathBuf::push` makes of the path `base` when
/// `component` is pushed onto it.
pub uninterp spec fn pushed_path(base: Seq<char>, component: Seq<char>) -> Seq<char>;

/// The text of what `std::path::Path::parent` returns for `path`, if it returns a path.
pub uninterp spec fn parent_path(path: Seq<char>) -> Option<Seq<char>>;

/// The texts of the components that `std::path::Path::components` yields for `path`.
pub uninterp spec fn path_components(path: Seq<char>) -> Seq<Seq<char>>;

/// Calls `std::path::PathBuf::push` on the path `base` with `component`.
///
/// Believed, not proved: the result is a function of the two texts, the same on every
/// call. That is what the standard library documents of `push`, which looks at the two
/// paths only. What the result is, is not stated.
#[verifier::external_body]
pub(crate) fn push_path(base: &str, component: &str) -> (path: String)
    ensures
        path@ == pushed_path(base@, component@),
{
    let mut path = std::path::PathBuf::from(base);
    path.push(component);
    path.to_string_lossy().into_owned()
}

/// Calls `std::path::Path::parent` on `path`.
///
/// Believed, not proved: whether there is a parent, and which, is a function of the
/// path's text, as the standard library documents it. What it is, is not stated.
#[verifier::external_body]
pub(crate) fn parent_of(path: &str) -> (parent: Option<String>)
    ensures
        (match parent {
            Some(text) => parent_path(path@) == Some(text@),
            None => parent_path(path@) is None,
        }),
{
    match std::path::Path::new(path).parent() {
        Some(parent) => Some(parent.to_string_lossy().into_owned()),
        None => None,
    }
}

/// Calls `std::path::Path::components` on `path` and hands out each component as text.
///
/// Believed, not proved: the components are a function of the path's text, as the
/// standard library documents it. What they are, is not stated.
#[verifier::external_body]
pub(crate) fn components_of(path: &str) -> (components: Vec<String>)
    ensures
        texts(components@) == path_components(path@),
{
    std::path::Path::new(path).components().map(
        |component| component.as_os_str().to_string_lossy().into_owned(),
    ).collect()
}

} // verus!
