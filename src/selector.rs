use vstd::prelude::*;

verus! {

/// The extension of the path with text `path`, as `std::path::Path::extension` finds it:
/// the text after the last dot of the final component, if there is one.
pub uninterp spec fn path_extension(path: Seq<char>) -> Option<Seq<char>>;

/// Whether `ext` is one of the file extensions that are collected.
pub open spec fn is_target_ext(ext: Seq<char>) -> bool {
    ext == seq!['r', 's'] || ext == seq!['t', 's'] || ext == seq!['j', 's'] || ext == seq!['p', 'y']
        || ext == seq!['g', 'o']
}

/// Whether the file at `path` is a target file: it has an extension and that
/// extension is one of the collected ones.
pub open spec fn selected(path: Seq<char>) -> bool {
    match path_extension(path) {
        Some(ext) => is_target_ext(ext),
        None => false,
    }
}

/// Relies on `std::path::Path::extension`, for the extension of a path given as text.
/// A path built from a `&str` has a valid UTF-8 extension, so the conversion is exact.
#[verifier::external_body]
fn extension_of(path: &str) -> (r: Option<String>)
    ensures
        match r {
            Some(e) => path_extension(path@) == Some(e@),
            None => path_extension(path@) is None,
        },
{
    match std::path::Path::new(path).extension() {
        Some(e) => Some(e.to_string_lossy().into_owned()),
        None => None,
    }
}

/// Decides whether an extension (the text after the last dot of a file name) is one of
/// `rs`, `ts`, `js`, `py`, `go`, compared exactly and case-sensitively.
pub fn is_target_extension(ext: &str) -> (r: bool)
    ensures
        r == is_target_ext(ext@),
{
    let n = ext.unicode_len();
    if n != 2 {
        return false;
    }
    let a = ext.get_char(0);
    let b = ext.get_char(1);
    let r = (a == 'r' && b == 's') || (a == 't' && b == 's') || (a == 'j' && b == 's') || (a == 'p'
        && b == 'y') || (a == 'g' && b == 'o');
    assert(r == is_target_ext(ext@)) by {
        if r {
            assert(ext@ =~= seq![a, b]);
        }
    }
    r
}

/// Decides whether the file at `path` is to be collected, from the extension of its
/// final component alone. The path need not exist.
pub fn is_target_file(path: &str) -> (r: bool)
    ensures
        r == selected(path@),
{
    match extension_of(path) {
        Some(ext) => is_target_extension(ext.as_str()),
        None => false,
    }
}

/// A path is selected exactly when it has an extension that is one of `rs`, `ts`,
/// `js`, `py`, `go`, compared case-sensitively; a path without an extension, or with
/// any other one (an upper-case `RS` among them), is not.
pub proof fn lemma_selection_by_extension(path: Seq<char>)
    ensures
        path_extension(path) is None ==> !selected(path),
        forall|ext: Seq<char>|
            path_extension(path) == Some(ext) ==> (selected(path) <==> (ext == seq!['r', 's']
                || ext == seq!['t', 's'] || ext == seq!['j', 's'] || ext == seq!['p', 'y'] || ext
                == seq!['g', 'o'])),
        forall|ext: Seq<char>|
            path_extension(path) == Some(ext) && ext == seq!['R', 'S'] ==> !selected(path),
{
    assert(seq!['R', 'S'] != seq!['r', 's']) by {
        assert(seq!['R', 'S'][0] != seq!['r', 's'][0]);
    }
    assert forall|ext: Seq<char>|
        path_extension(path) == Some(ext) && ext == seq!['R', 'S'] implies !selected(path) by {
        assert(ext[0] == 'R');
    }
}

} // verus!
