use vstd::prelude::*;

use crate::selector::{is_target_file, selected};

verus! {

/// The path of the file with text `path` relative to the base directory with text `base`,
/// as `std::path::Path::strip_prefix` finds it, component by component; `None` where
/// `path` does not lie under `base`.
pub uninterp spec fn path_relative_to(path: Seq<char>, base: Seq<char>) -> Option<Seq<char>>;

/// Relies on `std::path::Path::strip_prefix`, for the path of `path` relative to `base`.
/// The rest of a path built from a `&str` is valid UTF-8, so the conversion is exact.
#[verifier::external_body]
fn relative_path(path: &str, base: &str) -> (r: Option<String>)
    ensures
        match r {
            Some(rel) => path_relative_to(path@, base@) == Some(rel@),
            None => path_relative_to(path@, base@) is None,
        },
{
    match std::path::Path::new(path).strip_prefix(base) {
        Ok(rel) => Some(rel.to_string_lossy().into_owned()),
        Err(_) => None,
    }
}

/// Why a target file found under the base directory was left out of the output.
#[derive(Clone, Copy, Debug, PartialEq, Eq, Structural)]
pub enum FileFault {
    /// Its contents could not be read as text.
    Unreadable,
    /// Its path does not lie under the base directory.
    OutsideBase,
}

/// A regular file met by the walk: its path, and its contents as text or the
/// reason why reading them failed.
pub struct Candidate {
    pub path: String,
    pub content: Result<String, String>,
}

/// A target file that was left out: its position among the candidates and why.
#[derive(Clone, Copy, Debug, PartialEq, Eq, Structural)]
pub struct Skipped {
    pub index: usize,
    pub fault: FileFault,
}

/// The outcome of a collection: the concatenated sections, and the target files
/// that were left out, in the order in which they were met.
pub struct Collected {
    pub output: String,
    pub skipped: Vec<Skipped>,
}

/// The section that stands for one file: a `## ` header with its relative path, a
/// fence, the contents verbatim, a closing fence and a blank line.
pub open spec fn section(rel: Seq<char>, content: Seq<char>) -> Seq<char> {
    seq!['#', '#', ' '] + rel + seq!['\n', '`', '`', '`', '\n'] + content + seq![
        '`',
        '`',
        '`',
        '\n',
        '\n',
    ]
}

/// What one candidate adds to the output: its section where it is a target file whose
/// contents were read and whose relative path exists, nothing otherwise.
pub open spec fn section_of(c: Candidate, base: Seq<char>) -> Seq<char> {
    if selected(c.path@) {
        match c.content {
            Ok(text) => match path_relative_to(c.path@, base) {
                Some(rel) => section(rel, text@),
                None => seq![],
            },
            Err(_) => seq![],
        }
    } else {
        seq![]
    }
}

/// Why one candidate is left out, where it is a target file that cannot be rendered.
pub open spec fn fault_of(c: Candidate, base: Seq<char>) -> Option<FileFault> {
    if selected(c.path@) {
        match c.content {
            Ok(_) => match path_relative_to(c.path@, base) {
                Some(_) => None,
                None => Some(FileFault::OutsideBase),
            },
            Err(_) => Some(FileFault::Unreadable),
        }
    } else {
        None
    }
}

/// The sections of all candidates, in their order.
pub open spec fn output_of(cands: Seq<Candidate>, base: Seq<char>) -> Seq<char>
    decreases cands.len(),
{
    if cands.len() == 0 {
        seq![]
    } else {
        output_of(cands.drop_last(), base) + section_of(cands.last(), base)
    }
}

/// The target files left out, each with its position, in the order of the candidates.
pub open spec fn skipped_of(cands: Seq<Candidate>, base: Seq<char>) -> Seq<Skipped>
    decreases cands.len(),
{
    if cands.len() == 0 {
        seq![]
    } else {
        let rest = skipped_of(cands.drop_last(), base);
        match fault_of(cands.last(), base) {
            Some(f) => rest.push(Skipped { index: (cands.len() - 1) as usize, fault: f }),
            None => rest,
        }
    }
}

/// Renders the section of the file at `file_path`, whose contents are `content`, with
/// its path relative to `base_path`. Fails with `OutsideBase` exactly when that
/// relative path does not exist.
pub fn process_file(file_path: &str, base_path: &str, content: &str) -> (r: Result<
    String,
    FileFault,
>)
    ensures
        match path_relative_to(file_path@, base_path@) {
            Some(rel) => r == Ok::<String, FileFault>(r->Ok_0) && r->Ok_0@ == section(
                rel,
                content@,
            ),
            None => r == Err::<String, FileFault>(FileFault::OutsideBase),
        },
{
    match relative_path(file_path, base_path) {
        Some(rel) => Ok(render_section(rel.as_str(), content)),
        None => Err(FileFault::OutsideBase),
    }
}

/// Renders the section of a file whose relative path is `rel` and whose contents are
/// `content`.
pub fn render_section(rel: &str, content: &str) -> (r: String)
    ensures
        r@ == section(rel@, content@),
{
    let mut s = String::new();
    s.append("## ");
    s.append(rel);
    s.append("\n```\n");
    s.append(content);
    s.append("```\n\n");
    proof {
        reveal_strlit("## ");
        reveal_strlit("\n```\n");
        reveal_strlit("```\n\n");
        assert(s@ =~= section(rel@, content@));
    }
    s
}

/// Walks the candidates in order and concatenates the sections of the target files
/// among them. A target file that cannot be read, or whose path does not lie under
/// `base_path`, adds nothing to the output and is recorded as skipped; the others are
/// never reordered, merged or cut.
pub fn collect(base_path: &str, candidates: &Vec<Candidate>) -> (r: Collected)
    ensures
        r.output@ == output_of(candidates@, base_path@),
        r.skipped@ == skipped_of(candidates@, base_path@),
{
    let mut output = String::new();
    let mut skipped: Vec<Skipped> = Vec::new();
    let n = candidates.len();
    for i in 0..n
        invariant
            n == candidates@.len(),
            output@ == output_of(candidates@.take(i as int), base_path@),
            skipped@ == skipped_of(candidates@.take(i as int), base_path@),
    {
        let c = &candidates[i];
        if is_target_file(c.path.as_str()) {
            match &c.content {
                Ok(text) => match process_file(c.path.as_str(), base_path, text.as_str()) {
                    Ok(s) => output.append(s.as_str()),
                    Err(fault) => skipped.push(Skipped { index: i, fault }),
                },
                Err(_) => skipped.push(Skipped { index: i, fault: FileFault::Unreadable }),
            }
        }
        proof {
            let next = candidates@.take(i + 1);
            assert(next.drop_last() =~= candidates@.take(i as int));
            assert(next.last() == candidates@[i as int]);
        }
    }
    proof {
        assert(candidates@.take(n as int) =~= candidates@);
    }
    Collected { output, skipped }
}

} // verus!
