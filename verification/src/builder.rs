//! The command builder: a pure transformation from a [`Settings`] snapshot to
//! the worker's program path, ordered argument vector and `PATH` overlay.

use vstd::prelude::*;
use crate::settings::Settings;

verus! {

/// Index of the last `/` in `s`, or `-1` when `s` holds none.
pub open spec fn last_separator(s: Seq<char>) -> int
    decreases s.len(),
{
    if s.len() == 0 {
        -1
    } else if s[s.len() - 1] == '/' {
        s.len() - 1
    } else {
        last_separator(s.drop_last())
    }
}

/// The containing directory of a path: everything before the last `/`, the
/// root `/` alone when the last separator is the leading one, and the empty
/// sequence when the path holds no separator at all (a bare name has no
/// directory to prepend). Paths are taken verbatim, as the rest of the core
/// takes them.
pub open spec fn spec_parent_dir(s: Seq<char>) -> Seq<char> {
    let j = last_separator(s);
    if j < 0 {
        Seq::empty()
    } else if j == 0 {
        s.subrange(0, 1)
    } else {
        s.subrange(0, j)
    }
}

proof fn lemma_last_separator_skip(s: Seq<char>, i: int)
    requires
        0 < i <= s.len(),
        s[i - 1] != '/',
    ensures
        last_separator(s.take(i)) == last_separator(s.take(i - 1)),
{
    assert(s.take(i).drop_last() =~= s.take(i - 1));
    assert(s.take(i)[i - 1] == s[i - 1]);
}

/// Computes the containing directory of `path`, exactly as
/// [`spec_parent_dir`] describes it.
pub fn parent_dir(path: &str) -> (r: String)
    ensures
        r@ == spec_parent_dir(path@),
{
    let len = path.unicode_len();
    proof {
        assert(path@.take(len as int) =~= path@);
    }
    let mut i = len;
    while i > 0
        invariant
            i <= len,
            len == path@.len(),
            last_separator(path@) == last_separator(path@.take(i as int)),
        decreases i,
    {
        let c = path.get_char(i - 1);
        if c == '/' {
            proof {
                let t = path@.take(i as int);
                assert(t.len() == i);
                assert(t[i - 1] == path@[i - 1]);
                assert(last_separator(t) == i - 1);
            }
            if i == 1 {
                return String::from_str(path.substring_char(0, 1));
            } else {
                return String::from_str(path.substring_char(0, i - 1));
            }
        }
        proof {
            lemma_last_separator_skip(path@, i as int);
        }
        i = i - 1;
    }
    proof {
        assert(path@.take(0) =~= Seq::<char>::empty());
    }
    String::new()
}

/// The worker's argument vector for one configuration, in the order the
/// worker's own CLI parser expects: the positional source directory, the
/// target directory option, then one optional flag group per setting.
pub open spec fn spec_args(c: Settings) -> Seq<Seq<char>> {
    let base = seq![c.source_dir@, "--target-dir"@, c.target_dir@];
    let with_docker = if c.use_docker {
        base + seq!["--use-docker"@]
    } else {
        base
    };
    let with_format = if c.enforce_output_format@.len() > 0 {
        with_docker + seq!["--enforce-output-format"@, c.enforce_output_format@]
    } else {
        with_docker
    };
    let with_metadata = if c.no_preserve_metadata {
        with_format + seq!["--no-preserve-metadata"@]
    } else {
        with_format
    };
    if c.copy_images {
        with_metadata + seq!["--copy-images"@]
    } else {
        with_metadata
    }
}

/// The `PATH` value handed to the worker, if any: when containerized mode is
/// off and a helper-tool path with a containing directory is supplied, that
/// directory is prepended (colon-separated, directory first) to the inherited
/// value, so the worker's own subprocess lookups resolve the intended tool.
/// In containerized mode, or without a usable helper path, the environment is
/// inherited unmodified.
pub open spec fn spec_path_overlay(c: Settings, inherited: Seq<char>) -> Option<Seq<char>> {
    if !c.use_docker && c.sox_path@.len() > 0 && spec_parent_dir(c.sox_path@).len() > 0 {
        Some(spec_parent_dir(c.sox_path@) + ":"@ + inherited)
    } else {
        None
    }
}

/// The view of an optional owned string, for contracts over overlay values.
pub open spec fn opt_str_view(o: Option<String>) -> Option<Seq<char>> {
    match o {
        Some(s) => Some(s@),
        None => None,
    }
}

/// One fully built invocation: the worker binary to run, its arguments in
/// order, and the `PATH` value to set for it (`None` = inherit unmodified).
pub struct Invocation {
    pub program: String,
    pub args: Vec<String>,
    pub path_overlay: Option<String>,
}

/// Builds the argument vector for `c`, exactly as [`spec_args`] lays it out.
pub fn build_args(c: &Settings) -> (args: Vec<String>)
    ensures
        args.deep_view() == spec_args(*c),
{
    let mut args: Vec<String> = Vec::new();
    args.push(c.source_dir.clone());
    args.push(String::from_str("--target-dir"));
    args.push(c.target_dir.clone());
    if c.use_docker {
        args.push(String::from_str("--use-docker"));
    }
    if !c.enforce_output_format.as_str().is_empty() {
        args.push(String::from_str("--enforce-output-format"));
        args.push(c.enforce_output_format.clone());
    }
    if c.no_preserve_metadata {
        args.push(String::from_str("--no-preserve-metadata"));
    }
    if c.copy_images {
        args.push(String::from_str("--copy-images"));
    }
    proof {
        assert(args.deep_view() =~~= spec_args(*c));
    }
    args
}

/// Builds the `PATH` overlay for `c` over the inherited value, exactly as
/// [`spec_path_overlay`] describes it.
pub fn build_path_overlay(c: &Settings, inherited_path: &str) -> (r: Option<String>)
    ensures
        opt_str_view(r) == spec_path_overlay(*c, inherited_path@),
{
    if c.use_docker {
        return None;
    }
    if c.sox_path.as_str().is_empty() {
        return None;
    }
    let dir = parent_dir(c.sox_path.as_str());
    if dir.as_str().is_empty() {
        return None;
    }
    Some(dir.concat(":").concat(inherited_path))
}

/// Builds the whole invocation from one configuration snapshot and the
/// inherited `PATH` value: program, argument vector and overlay, each pinned
/// by its spec function. No I/O, no mutation: the result is a function of the
/// two arguments alone.
pub fn build_invocation(c: &Settings, inherited_path: &str) -> (inv: Invocation)
    ensures
        inv.program@ == c.lilt_path@,
        inv.args.deep_view() == spec_args(*c),
        opt_str_view(inv.path_overlay) == spec_path_overlay(*c, inherited_path@),
{
    Invocation {
        program: c.lilt_path.clone(),
        args: build_args(c),
        path_overlay: build_path_overlay(c, inherited_path),
    }
}

/// Law: the builder is deterministic. Equal configuration snapshots and equal
/// inherited `PATH` values always yield the identical argument vector and the
/// identical overlay — building is a pure function of its inputs.
pub proof fn lemma_builder_deterministic(
    c1: Settings,
    c2: Settings,
    inherited1: Seq<char>,
    inherited2: Seq<char>,
)
    requires
        c1 == c2,
        inherited1 == inherited2,
    ensures
        spec_args(c1) == spec_args(c2),
        spec_path_overlay(c1, inherited1) == spec_path_overlay(c2, inherited2),
{
}

/// Law: the `PATH` overlay. In containerized mode the environment is never
/// touched; otherwise, whenever the helper-tool path has a containing
/// directory, the child's `PATH` is exactly that directory, a colon, and the
/// inherited value — the directory comes first.
pub proof fn lemma_path_overlay(c: Settings, inherited: Seq<char>)
    ensures
        c.use_docker ==> spec_path_overlay(c, inherited) is None,
        !c.use_docker && spec_parent_dir(c.sox_path@).len() > 0 && c.sox_path@.len() > 0
            ==> spec_path_overlay(c, inherited) == Some(
            spec_parent_dir(c.sox_path@) + ":"@ + inherited,
        ),
{
}

} // verus!
