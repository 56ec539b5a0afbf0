//! The data behind the command-line interface: the selected mode and its
//! settings, repository types, command identifiers, and the small path
//! helpers the repository installation uses. The argument handling itself
//! lives with the program around this library; only plain values cross
//! into here.

use vstd::prelude::*;

use crate::strutil::{chars_to_string, str_eq, to_chars};
use crate::VariantError;

verus! {

/// An error in a command-line value.
#[derive(Debug, Clone, Copy, PartialEq, Eq, Structural)]
pub enum ParseError {
    /// The command identifier must consist of exactly two parts separated
    /// by a dot.
    CommandIdNeedsTwo,
    /// Unrecognized repository type.
    RepoTypeUnknown,
}

/// The kind of package repository to install.
#[derive(Debug, Clone, Copy, PartialEq, Eq, Structural)]
pub enum RepoType {
    /// The publicly available packages.
    Contrib,
    /// The staging area for the next release.
    Staging,
    /// The internal infrastructure packages.
    Infra,
}

/// The name of a repository type.
pub open spec fn repo_type_name(t: RepoType) -> Seq<char> {
    match t {
        RepoType::Contrib => "contrib"@,
        RepoType::Staging => "staging"@,
        RepoType::Infra => "infra"@,
    }
}

/// The filename extension a repository type adds to the repo definition
/// files.
pub open spec fn repo_type_extension(t: RepoType) -> Seq<char> {
    match t {
        RepoType::Contrib => ""@,
        RepoType::Staging => "-staging"@,
        RepoType::Infra => "-infra"@,
    }
}

/// The repository type a name denotes, if any.
pub open spec fn name_to_repo_type(s: Seq<char>) -> Option<RepoType> {
    if s == "contrib"@ {
        Some(RepoType::Contrib)
    } else if s == "staging"@ {
        Some(RepoType::Staging)
    } else if s == "infra"@ {
        Some(RepoType::Infra)
    } else {
        None
    }
}

impl RepoType {
    /// The extension this repository type adds to the names of the repo
    /// definition files.
    pub fn extension(&self) -> (r: &'static str)
        ensures
            r@ == repo_type_extension(*self),
    {
        match *self {
            RepoType::Contrib => "",
            RepoType::Staging => "-staging",
            RepoType::Infra => "-infra",
        }
    }

    /// The name of this repository type.
    pub fn as_str(&self) -> (r: &'static str)
        ensures
            r@ == repo_type_name(*self),
    {
        match *self {
            RepoType::Contrib => "contrib",
            RepoType::Staging => "staging",
            RepoType::Infra => "infra",
        }
    }

    /// Parses a repository type from its name.
    pub fn from_name(value: &str) -> (r: Result<RepoType, ParseError>)
        ensures
            match name_to_repo_type(value@) {
                Some(t) => r matches Ok(x) && x == t,
                None => r matches Err(e) && e == ParseError::RepoTypeUnknown,
            },
    {
        if str_eq(value, "contrib") {
            Ok(RepoType::Contrib)
        } else if str_eq(value, "staging") {
            Ok(RepoType::Staging)
        } else if str_eq(value, "infra") {
            Ok(RepoType::Infra)
        } else {
            Err(ParseError::RepoTypeUnknown)
        }
    }
}

/// The settings of the repository installation mode.
#[derive(Debug)]
pub struct RepoAddConfig {
    /// No-operation mode; only display what would be done.
    pub noop: bool,
    /// The path to the repo config directory.
    pub repodir: String,
    /// The type of the repository to add.
    pub repotype: RepoType,
}

/// The settings of the command running mode.
#[derive(Debug)]
pub struct CommandRunConfig {
    /// The category of the command to run.
    pub category: String,
    /// The name of the command within its category.
    pub name: String,
    /// No-operation mode; only display what would be done.
    pub noop: bool,
    /// Arguments to pass to the command.
    pub args: Vec<String>,
}

/// The settings of the variant display mode.
#[derive(Debug)]
pub struct ShowConfig {
    /// The name of the build variant to query.
    pub name: String,
}

/// What the program was asked to do.
#[derive(Debug)]
pub enum Mode {
    /// List the distribution-specific commands.
    CommandList,
    /// Run a distribution-specific command.
    CommandRun(CommandRunConfig),
    /// Detect the build variant for the current host.
    Detect,
    /// Display the features supported by the program.
    Features,
    /// Install the repository configuration.
    RepoAdd(RepoAddConfig),
    /// Display information about a build variant.
    Show(ShowConfig),
}

/// A two-part command identifier: a category and a name.
#[derive(Debug, Clone)]
pub struct CommandId {
    /// The category of the command.
    pub category: String,
    /// The name of the command within its category.
    pub name: String,
}

/// The number of dots in the text from position `i` on.
pub open spec fn dot_count(s: Seq<char>, i: int) -> int
    decreases s.len() - i,
{
    if i < 0 || i >= s.len() {
        0
    } else {
        (if s[i] == '.' {
            1int
        } else {
            0int
        }) + dot_count(s, i + 1)
    }
}

/// The position of the first dot at or after `i`, or the length of the
/// text when there is none.
pub open spec fn first_dot(s: Seq<char>, i: int) -> int
    decreases s.len() - i,
{
    if i < 0 || i >= s.len() {
        s.len() as int
    } else if s[i] == '.' {
        i
    } else {
        first_dot(s, i + 1)
    }
}

proof fn lemma_dot_count_zero(s: Seq<char>, i: int)
    requires
        0 <= i <= s.len(),
        forall|k: int| i <= k < s.len() ==> s[k] != '.',
    ensures
        dot_count(s, i) == 0,
    decreases s.len() - i,
{
    if i < s.len() {
        lemma_dot_count_zero(s, i + 1);
    }
}

proof fn lemma_dot_count_pos(s: Seq<char>, i: int, e: int)
    requires
        0 <= i <= e < s.len(),
        s[e] == '.',
    ensures
        dot_count(s, i) >= 1,
    decreases s.len() - i,
{
    if i < e {
        lemma_dot_count_pos(s, i + 1, e);
    } else {
        lemma_dot_count_nonneg(s, e + 1);
    }
}

proof fn lemma_dot_count_one(s: Seq<char>, i: int, d: int)
    requires
        0 <= i <= d < s.len(),
        s[d] == '.',
        forall|k: int| i <= k < d ==> s[k] != '.',
        forall|k: int| d < k < s.len() ==> s[k] != '.',
    ensures
        dot_count(s, i) == 1,
    decreases s.len() - i,
{
    if i < d {
        lemma_dot_count_one(s, i + 1, d);
    } else {
        lemma_dot_count_zero(s, d + 1);
    }
}

proof fn lemma_first_dot_at(s: Seq<char>, i: int, d: int)
    requires
        0 <= i <= d <= s.len(),
        forall|k: int| i <= k < d ==> s[k] != '.',
        d == s.len() || s[d] == '.',
    ensures
        first_dot(s, i) == d,
    decreases d - i,
{
    if i < d {
        lemma_first_dot_at(s, i + 1, d);
    }
}

impl CommandId {
    /// Parses a command identifier of the form `category.name`: the text
    /// must hold exactly one dot, and is split there. Either part may be
    /// empty.
    #[verifier::loop_isolation(false)]
    pub fn from_name(value: &str) -> (r: Result<CommandId, ParseError>)
        ensures
            match r {
                Ok(cid) => {
                    &&& dot_count(value@, 0) == 1
                    &&& cid.category@ == value@.subrange(0, first_dot(value@, 0))
                    &&& cid.name@ == value@.subrange(
                        first_dot(value@, 0) + 1,
                        value@.len() as int,
                    )
                },
                Err(e) => dot_count(value@, 0) != 1 && e == ParseError::CommandIdNeedsTwo,
            },
    {
        let cs = to_chars(value);
        let n: usize = cs.len();
        // Find the first dot.
        let mut d: usize = 0;
        while d < n && cs[d] != '.'
            invariant
                d <= n,
                forall|k: int| 0 <= k < d ==> cs@[k] != '.',
            decreases n - d,
        {
            d = d + 1;
        }
        if d == n {
            proof {
                lemma_dot_count_zero(cs@, 0);
            }
            return Err(ParseError::CommandIdNeedsTwo);
        }
        proof {
            lemma_first_dot_at(cs@, 0, d as int);
        }
        // There must be no second dot.
        let mut e: usize = d + 1;
        while e < n && cs[e] != '.'
            invariant
                d + 1 <= e <= n,
                forall|k: int| d < k < e ==> cs@[k] != '.',
            decreases n - e,
        {
            e = e + 1;
        }
        if e < n {
            proof {
                lemma_dot_count_pos(cs@, d + 1, e as int);
                assert(dot_count(cs@, d as int) >= 2);
                lemma_dot_count_ge(cs@, 0, d as int);
            }
            return Err(ParseError::CommandIdNeedsTwo);
        }
        proof {
            lemma_dot_count_one(cs@, 0, d as int);
        }
        let mut category: Vec<char> = Vec::new();
        let mut i: usize = 0;
        while i < d
            invariant
                i <= d <= n,
                category@ == cs@.subrange(0, i as int),
            decreases d - i,
        {
            category.push(cs[i]);
            i = i + 1;
            proof {
                assert(category@ =~= cs@.subrange(0, i as int));
            }
        }
        let mut name: Vec<char> = Vec::new();
        let mut j: usize = d + 1;
        while j < n
            invariant
                d + 1 <= j <= n,
                name@ == cs@.subrange(d + 1 as int, j as int),
            decreases n - j,
        {
            name.push(cs[j]);
            j = j + 1;
            proof {
                assert(name@ =~= cs@.subrange(d + 1 as int, j as int));
            }
        }
        Ok(CommandId { category: chars_to_string(&category), name: chars_to_string(&name) })
    }
}

proof fn lemma_dot_count_ge(s: Seq<char>, i: int, d: int)
    requires
        0 <= i <= d <= s.len(),
    ensures
        dot_count(s, i) >= dot_count(s, d),
    decreases d - i,
{
    if i < d {
        lemma_dot_count_ge(s, i + 1, d);
        lemma_dot_count_nonneg(s, i + 1);
    }
}

proof fn lemma_dot_count_nonneg(s: Seq<char>, i: int)
    ensures
        dot_count(s, i) >= 0,
    decreases s.len() - i,
{
    if 0 <= i && i < s.len() {
        lemma_dot_count_nonneg(s, i + 1);
    }
}

/// The position where the basename of `s[0..i]` starts: right after the
/// last slash, or the very beginning when there is no slash.
pub open spec fn basename_start(s: Seq<char>, i: int) -> int
    decreases i,
{
    if i <= 0 {
        0
    } else if s[i - 1] == '/' {
        i
    } else {
        basename_start(s, i - 1)
    }
}

/// The final component of a path: everything after the last slash, or the
/// whole path when it holds none. Never fails; the tag names what kind of
/// path this is, as `get_filename_extension` uses it in its error.
#[verifier::loop_isolation(false)]
pub fn get_filename<'a>(path: &'a str, _tag: &str) -> (r: Result<&'a str, VariantError>)
    ensures
        r matches Ok(f) && f@ == path@.subrange(
            basename_start(path@, path@.len() as int),
            path@.len() as int,
        ),
{
    let n: usize = path.unicode_len();
    let mut i: usize = n;
    while i > 0 && path.get_char(i - 1) != '/'
        invariant
            i <= n,
            n == path@.len(),
            basename_start(path@, n as int) == basename_start(path@, i as int),
        decreases i,
    {
        i = i - 1;
    }
    Ok(path.substring_char(i, n))
}

/// The position right after the last dot of `s[0..i]`, or the very
/// beginning when there is no dot.
pub open spec fn extension_start(s: Seq<char>, i: int) -> int
    decreases i,
{
    if i <= 0 {
        0
    } else if s[i - 1] == '.' {
        i
    } else {
        extension_start(s, i - 1)
    }
}

/// Splits a filename at its last dot into a base name and an extension.
/// Fails with an internal error when the filename holds no dot at all; the
/// tag names what kind of path this is.
#[verifier::loop_isolation(false)]
pub fn get_filename_extension<'a>(filename: &'a str, tag: &str) -> (r: Result<
    (&'a str, &'a str),
    VariantError,
>)
    ensures
        match r {
            Ok(p) => {
                &&& extension_start(filename@, filename@.len() as int) > 0
                &&& p.0@ == filename@.subrange(
                    0,
                    extension_start(filename@, filename@.len() as int) - 1,
                )
                &&& p.1@ == filename@.subrange(
                    extension_start(filename@, filename@.len() as int),
                    filename@.len() as int,
                )
            },
            Err(e) => extension_start(filename@, filename@.len() as int) == 0 && e is Internal,
        },
{
    let n: usize = filename.unicode_len();
    let mut i: usize = n;
    while i > 0 && filename.get_char(i - 1) != '.'
        invariant
            i <= n,
            n == filename@.len(),
            extension_start(filename@, n as int) == extension_start(filename@, i as int),
        decreases i,
    {
        i = i - 1;
    }
    if i == 0 {
        return Err(
            VariantError::Internal(
                String::from_str("Internal error: could not parse a ").concat(tag).concat(
                    ": no extension in '",
                ).concat(filename).concat("'"),
            ),
        );
    }
    Ok((filename.substring_char(0, i - 1), filename.substring_char(i, n)))
}

} // verus!
