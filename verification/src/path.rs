//! The path resolver: derives the output file path from an input path and a
//! target format.  The output keeps the input's directory and file stem and
//! takes the format's extension; when that would reproduce the input path
//! itself, a `_converted` suffix is appended to the stem so that the output
//! never overwrites the input.
//!
//! Paths are treated as character strings; `/` and `\` separate directories.

use vstd::prelude::*;
use crate::format::{spec_extension, OutputFormat};
use crate::text::str_eq;

verus! {

/// Why a path could not be resolved.
#[derive(Clone, Copy, PartialEq, Eq, Structural, Debug)]
pub enum PathError {
    /// The input path is empty: there is no parent directory to place the
    /// output file in.
    NoParent,
    /// The input path ends in a directory separator or names only a
    /// directory reference, so it has no file-name stem.
    NoStem,
}

/// Whether a character separates directories.
pub open spec fn is_sep(c: char) -> bool {
    c == '/' || c == '\\'
}

/// The index at which the file name begins: one past the last directory
/// separator, or zero when the path has none.
pub open spec fn spec_name_start(p: Seq<char>) -> int
    decreases p.len(),
{
    if p.len() == 0 {
        0
    } else if is_sep(p.last()) {
        p.len() as int
    } else {
        spec_name_start(p.drop_last())
    }
}

/// The file-name portion of a path: everything after the last separator.
pub open spec fn spec_name(p: Seq<char>) -> Seq<char> {
    p.subrange(spec_name_start(p), p.len() as int)
}

/// The index of the last `.` in a file name, if any.
pub open spec fn spec_last_dot(name: Seq<char>) -> Option<int>
    decreases name.len(),
{
    if name.len() == 0 {
        None
    } else if name.last() == '.' {
        Some((name.len() - 1) as int)
    } else {
        spec_last_dot(name.drop_last())
    }
}

/// Where the stem of a file name ends: at the last `.`, unless the name has
/// no `.` past its first character, in which case the whole name is the stem
/// (so a leading-dot name keeps its dot).
pub open spec fn spec_stem_end(name: Seq<char>) -> int {
    match spec_last_dot(name) {
        Some(i) => if i > 0 {
            i
        } else {
            name.len() as int
        },
        None => name.len() as int,
    }
}

/// A file name from which a stem can be taken: non-empty and not a bare
/// directory reference.
pub open spec fn spec_name_valid(name: Seq<char>) -> bool {
    name.len() > 0 && name != seq!['.'] && name != seq!['.', '.']
}

/// The length of the input path's directory prefix plus its stem: the part
/// of the path that the output path keeps.
pub open spec fn spec_stem_len(p: Seq<char>) -> int {
    spec_name_start(p) + spec_stem_end(spec_name(p))
}

/// The suffix inserted before the extension when the computed output path
/// collides with the input path.
pub open spec fn converted_marker() -> Seq<char> {
    "_converted."@
}

/// The output path computed before collision handling: directory, stem, dot,
/// and the format's extension.
pub open spec fn spec_candidate(p: Seq<char>, f: OutputFormat) -> Seq<char> {
    p.take(spec_stem_len(p)) + seq!['.'] + spec_extension(f)
}

/// The output path used when the candidate collides with the input path.
pub open spec fn spec_collision_path(p: Seq<char>, f: OutputFormat) -> Seq<char> {
    p.take(spec_stem_len(p)) + converted_marker() + spec_extension(f)
}

/// What the resolver returns: the output path and whether the collision
/// policy had to rename it, or the reason the input path cannot host an
/// output path.
pub open spec fn spec_resolve(p: Seq<char>, f: OutputFormat) -> Result<(Seq<char>, bool), PathError> {
    if p.len() == 0 {
        Err(PathError::NoParent)
    } else if !spec_name_valid(spec_name(p)) {
        Err(PathError::NoStem)
    } else if spec_candidate(p, f) == p {
        Ok((spec_collision_path(p, f), true))
    } else {
        Ok((spec_candidate(p, f), false))
    }
}

proof fn lemma_name_start_bounds(p: Seq<char>)
    ensures
        0 <= spec_name_start(p) <= p.len(),
    decreases p.len(),
{
    if p.len() == 0 {
    } else if is_sep(p.last()) {
    } else {
        lemma_name_start_bounds(p.drop_last());
    }
}

proof fn lemma_last_dot_bounds(name: Seq<char>)
    ensures
        spec_last_dot(name) matches Some(i) ==> 0 <= i < name.len(),
    decreases name.len(),
{
    if name.len() == 0 {
    } else if name.last() == '.' {
    } else {
        lemma_last_dot_bounds(name.drop_last());
    }
}

proof fn lemma_stem_end_bounds(name: Seq<char>)
    ensures
        0 <= spec_stem_end(name) <= name.len(),
{
    lemma_last_dot_bounds(name);
}

/// Resolves the output path for converting `input_path` to `format`.
/// Returns the output path together with a flag saying whether the
/// collision policy renamed it.
pub fn resolve_output(input_path: &str, format: OutputFormat) -> (r: Result<
    (String, bool),
    PathError,
>)
    ensures
        match r {
            Ok(v) => spec_resolve(input_path@, format) == Ok::<_, PathError>((v.0@, v.1)),
            Err(e) => spec_resolve(input_path@, format) == Err::<(Seq<char>, bool), _>(e),
        },
{
    let ghost p = input_path@;
    let n = input_path.unicode_len();
    if n == 0 {
        return Err(PathError::NoParent);
    }
    // Locate the start of the file name.
    let mut ns: usize = 0;
    let mut i: usize = 0;
    while i < n
        invariant
            n == p.len(),
            i <= n,
            ns <= i,
            input_path@ == p,
            ns as int == spec_name_start(p.take(i as int)),
        decreases n - i,
    {
        let c = input_path.get_char(i);
        proof {
            assert(p.take(i as int + 1).drop_last() =~= p.take(i as int));
            assert(p.take(i as int + 1).last() == p[i as int]);
        }
        if c == '/' || c == '\\' {
            ns = i + 1;
        }
        i += 1;
    }
    proof {
        assert(p.take(n as int) =~= p);
    }
    let ghost name = spec_name(p);
    let name_len = n - ns;
    proof {
        assert(name.len() == name_len);
    }

    // Reject names that carry no stem.
    if name_len == 0 {
        proof {
            assert(!spec_name_valid(name));
        }
        return Err(PathError::NoStem);
    }
    let c0 = input_path.get_char(ns);
    proof {
        assert(name[0] == p[ns as int]);
    }
    if name_len == 1 {
        if c0 == '.' {
            proof {
                assert(name =~= seq!['.']);
            }
            return Err(PathError::NoStem);
        }
    } else if name_len == 2 {
        let c1 = input_path.get_char(ns + 1);
        proof {
            assert(name[1] == p[ns as int + 1]);
        }
        if c0 == '.' && c1 == '.' {
            proof {
                assert(name =~= seq!['.', '.']);
            }
            return Err(PathError::NoStem);
        }
    }
    proof {
        assert(spec_name_valid(name)) by {
            if name == seq!['.'] {
                assert(name.len() == 1 && name[0] == '.');
            }
            if name == seq!['.', '.'] {
                assert(name.len() == 2 && name[0] == '.' && name[1] == '.');
            }
        }
    }

    // Locate the last dot of the file name.
    let mut ld: Option<usize> = None;
    let mut j: usize = 0;
    while j < name_len
        invariant
            n == p.len(),
            input_path@ == p,
            ns as int == spec_name_start(p),
            name == spec_name(p),
            name_len == name.len(),
            ns + name_len == n,
            j <= name_len,
            ld is Some <==> spec_last_dot(name.take(j as int)) is Some,
            ld matches Some(k) ==> k < j && spec_last_dot(name.take(j as int)) == Some(
                k as int,
            ),
        decreases name_len - j,
    {
        let c = input_path.get_char(ns + j);
        proof {
            assert(name.take(j as int + 1).drop_last() =~= name.take(j as int));
            assert(name.take(j as int + 1).last() == name[j as int]);
            assert(name[j as int] == p[ns as int + j as int]);
        }
        if c == '.' {
            ld = Some(j);
        }
        j += 1;
    }
    proof {
        assert(name.take(name_len as int) =~= name);
    }
    let se: usize = match ld {
        Some(k) => if k > 0 {
            k
        } else {
            name_len
        },
        None => name_len,
    };
    proof {
        assert(se as int == spec_stem_end(name));
        lemma_stem_end_bounds(name);
    }

    // Assemble the candidate output path.
    let base = input_path.substring_char(0, ns + se);
    let candidate = String::from_str(base).concat(".").concat(format.extension());
    proof {
        reveal_strlit(".");
        assert(base@ == p.take(spec_stem_len(p)));
        assert(candidate@ =~= spec_candidate(p, format));
    }
    if str_eq(candidate.as_str(), input_path) {
        let out = String::from_str(base).concat("_converted.").concat(format.extension());
        proof {
            assert(out@ =~= spec_collision_path(p, format));
        }
        Ok((out, true))
    } else {
        Ok((candidate, false))
    }
}

/// Law: whenever the computed output path would textually equal the input
/// path, the resolver instead returns a path that ends in
/// `_converted.<ext>` and that differs from the input path, so the output
/// never overwrites the input.
pub proof fn lemma_collision_avoidance(p: Seq<char>, f: OutputFormat)
    requires
        spec_resolve(p, f) matches Ok(v) && v.1,
    ensures
        spec_resolve(p, f) matches Ok(v) ==> {
            let out = v.0;
            let suffix = converted_marker() + spec_extension(f);
            &&& out != p
            &&& out.len() >= suffix.len()
            &&& out.subrange(out.len() - suffix.len(), out.len() as int) == suffix
        },
{
    lemma_name_start_bounds(p);
    lemma_stem_end_bounds(spec_name(p));
    reveal_strlit("_converted.");
    let out = spec_resolve(p, f)->Ok_0.0;
    let suffix = converted_marker() + spec_extension(f);
    let sl = spec_stem_len(p);
    assert(spec_candidate(p, f) == p);
    assert(p.len() == sl + 1 + spec_extension(f).len());
    assert(out.len() == sl + converted_marker().len() + spec_extension(f).len());
    assert(converted_marker().len() == 11);
    assert(out.len() > p.len());
    assert(out.subrange(out.len() - suffix.len(), out.len() as int) =~= suffix);
}

} // verus!
