//! Output-path derivation and input discovery filtering.
//!
//! Paths are plain strings whose components are separated by `/`.  The file
//! name is everything after the last separator; its stem is the part before
//! the last `.` (a name whose only `.` is leading, like `.hidden`, is its own
//! stem).  In batch mode each output is named `<stem>_compressed.<ext>`
//! inside the output directory; in single-file mode with no explicit output
//! the result is `<input_dir>/<input_stem>_compressed.jpg`.

use vstd::prelude::*;
use vstd::string::{StrSliceExecFns, StringExecFns};
use crate::format::{is_supported_extension, spec_is_supported_extension, OutputFormat};
use crate::text::{rfind_char, spec_rfind};

verus! {

/// The file-name component: everything after the last `/`.
pub open spec fn spec_file_name(p: Seq<char>) -> Seq<char> {
    match spec_rfind(p, '/') {
        Some(i) => p.subrange(i + 1, p.len() as int),
        None => p,
    }
}

/// The stem of a file name: the part before the last `.`, except that a
/// leading `.` does not begin an extension.
pub open spec fn spec_stem_of_name(n: Seq<char>) -> Seq<char> {
    match spec_rfind(n, '.') {
        Some(i) => if i > 0 {
            n.subrange(0, i)
        } else {
            n
        },
        None => n,
    }
}

/// The stem of the file-name component of a path.
pub open spec fn spec_file_stem(p: Seq<char>) -> Seq<char> {
    spec_stem_of_name(spec_file_name(p))
}

/// The directory part of a path: everything before the last `/`, empty when
/// there is no separator.
pub open spec fn spec_parent_dir(p: Seq<char>) -> Seq<char> {
    match spec_rfind(p, '/') {
        Some(i) => p.subrange(0, i),
        None => Seq::empty(),
    }
}

/// The extension of the file-name component: the part after the last `.`,
/// where a leading `.` does not begin an extension.
pub open spec fn spec_path_extension(p: Seq<char>) -> Option<Seq<char>> {
    match spec_rfind(spec_file_name(p), '.') {
        Some(i) => if i > 0 {
            Some(spec_file_name(p).subrange(i + 1, spec_file_name(p).len() as int))
        } else {
            None
        },
        None => None,
    }
}

/// Whether the path carries a supported input extension.
pub open spec fn spec_path_supported(p: Seq<char>) -> bool {
    match spec_path_extension(p) {
        Some(e) => spec_is_supported_extension(e),
        None => false,
    }
}

/// The stem used for batch output naming: the file stem, or `output` when
/// the stem is empty.
pub open spec fn spec_batch_stem(p: Seq<char>) -> Seq<char> {
    if spec_file_stem(p).len() == 0 {
        "output"@
    } else {
        spec_file_stem(p)
    }
}

/// The output path of one batch item: `<out_dir>/<stem>_compressed.<ext>`.
pub open spec fn spec_batch_output_path(
    input: Seq<char>,
    out_dir: Seq<char>,
    f: OutputFormat,
) -> Seq<char> {
    out_dir + "/"@ + spec_batch_stem(input) + "_compressed."@ + f.spec_extension()
}

/// The default single-file output path: `<dir>/<stem>_compressed.jpg`, with
/// no leading separator when the input has no directory part.
pub open spec fn spec_default_output_path(input: Seq<char>) -> Seq<char> {
    if spec_rfind(input, '/') is Some {
        spec_parent_dir(input) + "/"@ + spec_file_stem(input) + "_compressed.jpg"@
    } else {
        spec_file_stem(input) + "_compressed.jpg"@
    }
}

/// The file-name component of `path`.
pub fn file_name_of(path: &str) -> (s: String)
    ensures
        s@ == spec_file_name(path@),
{
    let n = path.unicode_len();
    match rfind_char(path, '/') {
        Some(i) => String::from_str(path.substring_char(i + 1, n)),
        None => String::from_str(path),
    }
}

/// The stem of the file-name component of `path`.
pub fn file_stem_of(path: &str) -> (s: String)
    ensures
        s@ == spec_file_stem(path@),
{
    let name = file_name_of(path);
    let m = name.as_str().unicode_len();
    match rfind_char(name.as_str(), '.') {
        Some(i) => {
            if i > 0 {
                String::from_str(name.as_str().substring_char(0, i))
            } else {
                name
            }
        },
        None => name,
    }
}

/// The directory part of `path`, empty when it has none.
pub fn parent_dir_of(path: &str) -> (s: String)
    ensures
        s@ == spec_parent_dir(path@),
{
    match rfind_char(path, '/') {
        Some(i) => String::from_str(path.substring_char(0, i)),
        None => String::new(),
    }
}

/// The extension of the file-name component of `path`, if any.
pub fn path_extension_of(path: &str) -> (s: Option<String>)
    ensures
        match s {
            Some(e) => spec_path_extension(path@) == Some(e@),
            None => spec_path_extension(path@) is None,
        },
{
    let name = file_name_of(path);
    let m = name.as_str().unicode_len();
    match rfind_char(name.as_str(), '.') {
        Some(i) => {
            if i > 0 {
                Some(String::from_str(name.as_str().substring_char(i + 1, m)))
            } else {
                None
            }
        },
        None => None,
    }
}

/// Whether `path` carries a supported input extension.
pub fn path_has_supported_extension(path: &str) -> (r: bool)
    ensures
        r == spec_path_supported(path@),
{
    match path_extension_of(path) {
        Some(e) => is_supported_extension(e.as_str()),
        None => false,
    }
}

/// The subsequence of `files` whose entries carry a supported input
/// extension, in their original order.
pub open spec fn spec_filter_supported(files: Seq<Seq<char>>) -> Seq<Seq<char>>
    decreases files.len(),
{
    if files.len() == 0 {
        Seq::empty()
    } else {
        let rest = spec_filter_supported(files.drop_last());
        if spec_path_supported(files.last()) {
            rest.push(files.last())
        } else {
            rest
        }
    }
}

/// Keeps, in order, the paths that carry a supported input extension.
pub fn filter_supported(files: &Vec<String>) -> (r: Vec<String>)
    ensures
        r@.map_values(|s: String| s@) == spec_filter_supported(
            files@.map_values(|s: String| s@),
        ),
{
    let mut out: Vec<String> = Vec::new();
    let mut i: usize = 0;
    proof {
        assert(files@.map_values(|s: String| s@).take(0) =~= Seq::<Seq<char>>::empty());
    }
    while i < files.len()
        invariant
            i <= files@.len(),
            out@.map_values(|s: String| s@) == spec_filter_supported(
                files@.map_values(|s: String| s@).take(i as int),
            ),
        decreases files@.len() - i,
    {
        let keep = path_has_supported_extension(files[i].as_str());
        proof {
            let mapped = files@.map_values(|s: String| s@);
            assert(mapped.take(i + 1).drop_last() =~= mapped.take(i as int));
            assert(mapped.take(i + 1).last() == files@[i as int]@);
        }
        if keep {
            let f = files[i].clone();
            out.push(f);
            proof {
                assert(out@.map_values(|s: String| s@) =~= out@.drop_last().map_values(
                    |s: String| s@,
                ).push(files@[i as int]@));
            }
        }
        i = i + 1;
    }
    proof {
        assert(files@.map_values(|s: String| s@).take(files@.len() as int) =~= files@.map_values(
            |s: String| s@,
        ));
    }
    out
}

/// The stem used for batch output naming.
pub fn batch_stem_of(path: &str) -> (s: String)
    ensures
        s@ == spec_batch_stem(path@),
{
    let stem = file_stem_of(path);
    if stem.as_str().unicode_len() == 0 {
        String::from_str("output")
    } else {
        stem
    }
}

/// Derives the output path of one batch item written into `out_dir`.
pub fn derive_batch_output_path(input: &str, out_dir: &str, format: OutputFormat) -> (r: String)
    ensures
        r@ == spec_batch_output_path(input@, out_dir@, format),
{
    let stem = batch_stem_of(input);
    let r = String::from_str(out_dir).concat("/").concat(stem.as_str()).concat(
        "_compressed.",
    ).concat(format.extension());
    proof {
        assert(r@ =~= spec_batch_output_path(input@, out_dir@, format));
    }
    r
}

/// Derives the default single-file output path next to the input.
pub fn derive_default_output_path(input: &str) -> (r: String)
    ensures
        r@ == spec_default_output_path(input@),
{
    let stem = file_stem_of(input);
    match rfind_char(input, '/') {
        Some(_) => {
            let dir = parent_dir_of(input);
            let r = dir.concat("/").concat(stem.as_str()).concat("_compressed.jpg");
            proof {
                assert(r@ =~= spec_default_output_path(input@));
            }
            r
        },
        None => {
            let r = stem.concat("_compressed.jpg");
            proof {
                assert(r@ =~= spec_default_output_path(input@));
            }
            r
        },
    }
}

} // verus!
