//! Project scaffolding and naming rules of the command-line tool.

use vstd::prelude::*;

verus! {

/// An ASCII letter.
pub open spec fn ascii_alpha(c: char) -> bool {
    ('a' <= c && c <= 'z') || ('A' <= c && c <= 'Z')
}

/// An ASCII letter or digit.
pub open spec fn ascii_alnum(c: char) -> bool {
    ascii_alpha(c) || ('0' <= c && c <= '9')
}

/// A valid project name: not empty, starting with a letter or underscore,
/// and made of ASCII letters, digits, hyphens and underscores.
pub open spec fn valid_project_name(n: Seq<char>) -> bool {
    &&& n.len() > 0
    &&& ascii_alpha(n[0]) || n[0] == '_'
    &&& forall|i: int| 1 <= i < n.len() ==> ascii_alnum(#[trigger] n[i]) || n[i] == '-' || n[i] == '_'
}

/// Validate a project name.
pub fn is_valid_project_name(name: &str) -> (r: bool)
    ensures
        r == valid_project_name(name@),
{
    let n = name.unicode_len();
    if n == 0 {
        return false;
    }
    let first = name.get_char(0);
    let first_ok = ('a' <= first && first <= 'z') || ('A' <= first && first <= 'Z') || first == '_';
    if !first_ok {
        return false;
    }
    let mut i: usize = 1;
    while i < n
        invariant
            n == name@.len(),
            1 <= i <= n,
            forall|k: int| 1 <= k < i ==> ascii_alnum(#[trigger] name@[k]) || name@[k] == '-' || name@[k] == '_',
        decreases n - i,
    {
        let c = name.get_char(i);
        let ok = ('a' <= c && c <= 'z') || ('A' <= c && c <= 'Z') || ('0' <= c && c <= '9') || c == '-'
            || c == '_';
        if !ok {
            assert(!(ascii_alnum(name@[i as int]) || name@[i as int] == '-' || name@[i as int] == '_'));
            return false;
        }
        i = i + 1;
    }
    true
}

/// The position of the first `-` in `s`, or its length if there is none.
pub open spec fn dash_pos(s: Seq<char>) -> int
    decreases s.len(),
{
    if s.len() == 0 {
        0
    } else if s[0] == '-' {
        0
    } else {
        1 + dash_pos(s.subrange(1, s.len() as int))
    }
}

/// The crate name in a library file's stem: after the `lib` prefix, up to
/// the first `-` (which starts the build hash).
pub open spec fn lib_name(stem: Seq<char>) -> Option<Seq<char>> {
    if stem.len() >= 3 && stem.subrange(0, 3) == "lib"@ {
        let rest = stem.subrange(3, stem.len() as int);
        Some(rest.subrange(0, dash_pos(rest)))
    } else {
        None
    }
}

/// Where the first `-` of `s[from..]` is, as a position in `s`.
proof fn lemma_dash_pos(s: Seq<char>)
    ensures
        0 <= dash_pos(s) <= s.len(),
        forall|k: int| 0 <= k < dash_pos(s) ==> s[k] != '-',
        dash_pos(s) < s.len() ==> s[dash_pos(s)] == '-',
    decreases s.len(),
{
    if s.len() > 0 && s[0] != '-' {
        let t = s.subrange(1, s.len() as int);
        lemma_dash_pos(t);
        assert forall|k: int| 0 <= k < dash_pos(s) implies s[k] != '-' by {
            if k > 0 {
                assert(s[k] == t[k - 1]);
            }
        }
        if dash_pos(s) < s.len() {
            assert(s[dash_pos(s)] == t[dash_pos(t)]);
        }
    }
}

/// The first position in `s` holding `-`, or `s.len()`: characterized.
proof fn lemma_dash_pos_unique(s: Seq<char>, p: int)
    requires
        0 <= p <= s.len(),
        forall|k: int| 0 <= k < p ==> s[k] != '-',
        p < s.len() ==> s[p] == '-',
    ensures
        dash_pos(s) == p,
{
    lemma_dash_pos(s);
    if dash_pos(s) < p {
        assert(s[dash_pos(s)] == '-');
    }
    if p < dash_pos(s) {
        assert(s[p] != '-');
    }
}

/// Parse a library file's stem to its crate name, e.g.
/// `libfoo_bar-abc123` to `foo_bar`.
pub fn parse_lib_name(stem: &str) -> (r: Option<String>)
    ensures
        match lib_name(stem@) {
            Some(n) => r is Some && r.unwrap()@ == n,
            None => r is None,
        },
{
    proof {
        reveal_strlit("lib");
    }
    let n = stem.unicode_len();
    if n < 3 || stem.get_char(0) != 'l' || stem.get_char(1) != 'i' || stem.get_char(2) != 'b' {
        proof {
            if n >= 3 && stem@.subrange(0, 3) == "lib"@ {
                assert(stem@[0] == stem@.subrange(0, 3)[0]);
                assert(stem@[1] == stem@.subrange(0, 3)[1]);
                assert(stem@[2] == stem@.subrange(0, 3)[2]);
            }
        }
        return None;
    }
    assert(stem@.subrange(0, 3) =~= "lib"@);
    let ghost rest = stem@.subrange(3, n as int);
    let mut end: usize = 3;
    while end < n && stem.get_char(end) != '-'
        invariant
            3 <= end <= n,
            n == stem@.len(),
            rest == stem@.subrange(3, n as int),
            forall|k: int| 3 <= k < end ==> stem@[k] != '-',
        decreases n - end,
    {
        end = end + 1;
    }
    proof {
        lemma_dash_pos_unique(rest, end - 3);
    }
    let name = stem.substring_char(3, end);
    assert(name@ =~= rest.subrange(0, end - 3));
    Some(String::from_str(name))
}

/// A display name for a path: its file name, else `project` for a
/// directory and `unknown` for a file.
pub fn get_display_name(is_dir: bool, file_name: Option<&str>) -> (r: String)
    ensures
        match file_name {
            Some(f) => r@ == f@,
            None => r@ == (if is_dir { "project"@ } else { "unknown"@ }),
        },
{
    match file_name {
        Some(f) => String::from_str(f),
        None => if is_dir {
            String::from_str("project")
        } else {
            String::from_str("unknown")
        },
    }
}

/// The manifest of a new project.
pub open spec fn sage_toml_text(name: Seq<char>) -> Seq<char> {
    "[project]\nname = \""@ + name + "\"\nversion = \"0.1.0\"\nentry = \"src/main.sg\"\n"@
}

/// The README of a new project.
pub open spec fn readme_text(name: Seq<char>) -> Seq<char> {
    "# "@ + name
        + "\n\nA Sage project.\n\n## Getting Started\n\n```bash\nsage run .\n```\n\n## Project Structure\n\n- `sage.toml` - Project configuration\n- `src/main.sg` - Main entry point\n"@
}

/// The first program of a new project.
pub const MAIN_SG: &'static str = "// Your first Sage agent\n\nagent Main {\n    on start {\n        print(\"Hello from Sage!\");\n        emit(0);\n    }\n}\n\nrun Main;\n";

/// The `.gitignore` of a new project.
pub const GITIGNORE: &'static str = "# Build artifacts\n/target/\n/.sage/\n\n# IDE files\n.idea/\n.vscode/\n*.swp\n*.swo\n*~\n\n# OS files\n.DS_Store\nThumbs.db\n";

/// The message for an invalid project name.
pub open spec fn invalid_name_message(name: Seq<char>) -> Seq<char> {
    "Invalid project name '"@ + name
        + "'. Project names must contain only alphanumeric characters, hyphens, and underscores, and must start with a letter or underscore."@
}

/// The files of a new project, relative to its directory, with their contents.
pub open spec fn project_files_v(name: Seq<char>) -> Seq<(Seq<char>, Seq<char>)> {
    seq![
        ("sage.toml"@, sage_toml_text(name)),
        ("src/main.sg"@, MAIN_SG@),
        (".gitignore"@, GITIGNORE@),
        ("README.md"@, readme_text(name)),
    ]
}

/// The files to create for a new project named `name` (relative paths and
/// contents), or the message for an invalid name.
pub fn new_project_files(name: &str) -> (r: Result<Vec<(String, String)>, String>)
    ensures
        valid_project_name(name@) ==> r is Ok && r->Ok_0@.len() == 4 && forall|i: int|
            0 <= i < 4 ==> (#[trigger] r->Ok_0@[i]).0@ == project_files_v(name@)[i].0 && r->Ok_0@[i].1@
                == project_files_v(name@)[i].1,
        !valid_project_name(name@) ==> r is Err && r->Err_0@ == invalid_name_message(name@),
{
    if !is_valid_project_name(name) {
        let mut m = String::from_str("Invalid project name '");
        m.append(name);
        m.append(
            "'. Project names must contain only alphanumeric characters, hyphens, and underscores, and must start with a letter or underscore.",
        );
        return Err(m);
    }
    let mut sage_toml = String::from_str("[project]\nname = \"");
    sage_toml.append(name);
    sage_toml.append("\"\nversion = \"0.1.0\"\nentry = \"src/main.sg\"\n");
    let mut readme = String::from_str("# ");
    readme.append(name);
    readme.append(
        "\n\nA Sage project.\n\n## Getting Started\n\n```bash\nsage run .\n```\n\n## Project Structure\n\n- `sage.toml` - Project configuration\n- `src/main.sg` - Main entry point\n",
    );
    let mut files: Vec<(String, String)> = Vec::new();
    files.push((String::from_str("sage.toml"), sage_toml));
    files.push((String::from_str("src/main.sg"), String::from_str(MAIN_SG)));
    files.push((String::from_str(".gitignore"), String::from_str(GITIGNORE)));
    files.push((String::from_str("README.md"), readme));
    Ok(files)
}

/// The kind and value of the git reference of a dependency: exactly one of
/// tag, branch and revision must be given.
pub open spec fn dependency_ref_v(tag: Option<String>, branch: Option<String>, rev: Option<String>) -> Option<
    (Seq<char>, Seq<char>),
> {
    match (tag, branch, rev) {
        (Some(t), None, None) => Some(("tag"@, t@)),
        (None, Some(b), None) => Some(("branch"@, b@)),
        (None, None, Some(r)) => Some(("rev"@, r@)),
        _ => None,
    }
}

/// The message when not exactly one git reference is given.
pub open spec fn ref_count_message() -> Seq<char> {
    "Specify exactly one of --tag, --branch, or --rev"@
}

/// Choose the git reference of a dependency: its kind (`tag`, `branch` or
/// `rev`) and value, or the message when not exactly one is given.
pub fn dependency_ref(tag: Option<String>, branch: Option<String>, rev: Option<String>) -> (r: Result<
    (&'static str, String),
    String,
>)
    ensures
        match dependency_ref_v(tag, branch, rev) {
            Some((k, v)) => r is Ok && r->Ok_0.0@ == k && r->Ok_0.1@ == v,
            None => r is Err && r->Err_0@ == ref_count_message(),
        },
{
    match (tag, branch, rev) {
        (Some(t), None, None) => Ok(("tag", t)),
        (None, Some(b), None) => Ok(("branch", b)),
        (None, None, Some(r)) => Ok(("rev", r)),
        _ => Err(String::from_str("Specify exactly one of --tag, --branch, or --rev")),
    }
}

} // verus!
