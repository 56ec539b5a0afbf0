//! Detect the OS distribution and version.
//!
//! This library identifies which Linux distribution variant a host is
//! running by matching host evidence (the `/etc/os-release` key/value file,
//! or per-distribution release marker files) against an ordered table of
//! known variants, and exposes each variant's associated metadata.

pub mod cli;
pub mod data;
pub mod detect;
pub mod regexes;
pub mod strutil;
pub mod yai;

pub use cli::{get_filename, get_filename_extension};
pub use data::VariantKind;
pub use detect::{detect_from_evidence, probe_filenames, FileEvidence};

use vstd::prelude::*;

verus! {

/// An error that occurred while determining the Linux variant.
#[derive(Debug)]
pub enum VariantError {
    /// An invalid variant name was specified.
    BadVariant(String),
    /// A file to be examined could not be read: the variant checked for,
    /// the file's name, and the underlying cause.
    FileRead(String, String, String),
    /// Unexpected error parsing the os-release file.
    OsRelease(crate::yai::YAIError),
    /// None of the variants matched.
    UnknownVariant,
    /// Something went really, really wrong.
    Internal(String),
}

/// The version of the variant definition format data.
#[derive(Debug, Clone)]
pub struct VariantFormatVersion {
    /// The version major number.
    pub major: u32,
    /// The version minor number.
    pub minor: u32,
}

/// The internal format of the variant definition format data.
#[derive(Debug, Clone)]
pub struct VariantFormat {
    /// The version of the metadata format.
    pub version: VariantFormatVersion,
}

/// Check whether this host is running this particular OS variant.
#[derive(Debug, Clone)]
pub struct Detect {
    /// The name of the file to read.
    pub filename: String,
    /// The regular expression pattern to look for in the file.
    pub regex: String,
    /// The "ID" field in the os-release file.
    pub os_id: String,
    /// The regular expression pattern for the "VERSION_ID" os-release field.
    pub os_version_regex: String,
}

/// Debian package repository data.
#[derive(Debug, Clone)]
pub struct DebRepo {
    /// The distribution codename (e.g. "bullseye").
    pub codename: String,
    /// The distribution vendor ("debian", "ubuntu", etc.).
    pub vendor: String,
    /// The APT sources list file to copy to /etc/apt/sources.list.d/.
    pub sources: String,
    /// The GnuPG keyring file to copy to /usr/share/keyrings/.
    pub keyring: String,
    /// OS packages that need to be installed before `apt-get update` is run.
    pub req_packages: Vec<String>,
}

/// Yum/DNF package repository data.
#[derive(Debug, Clone)]
pub struct YumRepo {
    /// The *.repo file to copy to /etc/yum.repos.d/.
    pub yumdef: String,
    /// The keyring file to copy to /etc/pki/rpm-gpg/.
    pub keyring: String,
}

/// OS package repository data.
#[derive(Debug, Clone)]
pub enum Repo {
    /// Debian/Ubuntu repository data.
    Deb(DebRepo),
    /// CentOS/Oracle repository data.
    Yum(YumRepo),
}

/// Builder container data.
#[derive(Debug, Clone)]
pub struct Builder {
    /// The builder name.
    pub alias: String,
    /// The base container image that the builder is generated from.
    pub base_image: String,
    /// The branch used by the packaging tools to specify the variant.
    pub branch: String,
    /// The base kernel OS package.
    pub kernel_package: String,
    /// The name of the locale to use for clean UTF-8 output.
    pub utf8_locale: String,
}

/// A single build variant with all its options.
#[derive(Debug, Clone)]
pub struct Variant {
    /// Which variant is that?
    pub kind: VariantKind,
    /// The human-readable description of the variant.
    pub descr: String,
    /// The OS "family" that this distribution belongs to.
    pub family: String,
    /// The name of the variant that this one is based on.
    pub parent: String,
    /// The ways to check whether we are running this variant.
    pub detect: Detect,
    /// The OS commands to execute for particular purposes, grouped by
    /// category and name.
    pub commands: Vec<(String, Vec<(String, Vec<String>)>)>,
    /// The minimum Python version that we can depend on.
    pub min_sys_python: String,
    /// The repository files to install.
    pub repo: Repo,
    /// The names of the packages to be used for this variant.
    pub package: Vec<(String, String)>,
    /// The name of the directory to install systemd unit files to.
    pub systemd_lib: String,
    /// The filename extension of the OS packages ("deb", "rpm", etc.).
    pub file_ext: String,
    /// The type of initramfs-generating tools.
    pub initramfs_flavor: String,
    /// The data specific to the builder containers.
    pub builder: Builder,
}

/// The full variant data: all build variants, in priority order, and some
/// more info.
///
/// The `order` sequence is the authoritative priority order for detection:
/// among several variants that would match, the one listed earlier wins.
/// The `variants` sequence is the lookup structure, holding one entry per
/// kind.
#[derive(Debug)]
pub struct VariantDefTop {
    /// The version of the metadata format.
    pub format: VariantFormat,
    /// The priority order of the variants.
    pub order: Vec<VariantKind>,
    /// The descriptors themselves, one per kind, parallel to `order`.
    pub variants: Vec<Variant>,
    /// The version of the variant data itself.
    pub version: String,
}

/// The position of the first entry with the given name at or after `i`,
/// in a sequence of named entries.
pub open spec fn find_named_from<T>(s: Seq<(String, T)>, name: Seq<char>, i: int) -> Option<int>
    decreases s.len() - i,
{
    if i < 0 || i >= s.len() {
        None
    } else if s[i].0@ == name {
        Some(i)
    } else {
        find_named_from(s, name, i + 1)
    }
}

/// The position of the first entry with the given name.
pub open spec fn find_named<T>(s: Seq<(String, T)>, name: Seq<char>) -> Option<int> {
    find_named_from(s, name, 0)
}

impl Variant {
    /// The commands of one category of this variant's command table: the
    /// first entry carrying the category's name, when there is one.
    #[verifier::loop_isolation(false)]
    pub fn command_category<'a>(&'a self, category: &str) -> (r: Option<
        &'a Vec<(String, Vec<String>)>,
    >)
        ensures
            match find_named(self.commands@, category@) {
                Some(i) => r matches Some(c) && *c == self.commands@[i].1,
                None => r is None,
            },
    {
        let n: usize = self.commands.len();
        let mut i: usize = 0;
        while i < n
            invariant
                i <= n,
                find_named(self.commands@, category@) == find_named_from(
                    self.commands@,
                    category@,
                    i as int,
                ),
            decreases n - i,
        {
            if crate::strutil::str_eq(self.commands[i].0.as_str(), category) {
                return Some(&self.commands[i].1);
            }
            i = i + 1;
        }
        None
    }

    /// One command of this variant's command table, by category and name.
    #[verifier::loop_isolation(false)]
    pub fn command<'a>(&'a self, category: &str, name: &str) -> (r: Option<&'a Vec<String>>)
        ensures
            match find_named(self.commands@, category@) {
                None => r is None,
                Some(i) => match find_named(self.commands@[i].1@, name@) {
                    None => r is None,
                    Some(j) => r matches Some(c) && *c == self.commands@[i].1@[j].1,
                },
            },
    {
        let cmds = match self.command_category(category) {
            Some(cmds) => cmds,
            None => {
                return None;
            },
        };
        let n: usize = cmds.len();
        let mut j: usize = 0;
        while j < n
            invariant
                j <= n,
                n == cmds@.len(),
                find_named(cmds@, name@) == find_named_from(cmds@, name@, j as int),
            decreases n - j,
        {
            if crate::strutil::str_eq(cmds[j].0.as_str(), name) {
                return Some(&cmds[j].1);
            }
            j = j + 1;
        }
        None
    }
}

/// The position of the first variant of kind `k` at or after `i`.
pub open spec fn find_kind_from(vs: Seq<Variant>, k: VariantKind, i: int) -> Option<int>
    decreases vs.len() - i,
{
    if i < 0 || i >= vs.len() {
        None
    } else if vs[i].kind == k {
        Some(i)
    } else {
        find_kind_from(vs, k, i + 1)
    }
}

/// The position of the first variant of kind `k`.
pub open spec fn spec_lookup(vs: Seq<Variant>, k: VariantKind) -> Option<int> {
    find_kind_from(vs, k, 0)
}

/// No two variants share a builder alias.
pub open spec fn unique_aliases(vs: Seq<Variant>) -> bool {
    forall|i: int, j: int|
        0 <= i < j < vs.len() ==> vs[i].builder.alias@ != vs[j].builder.alias@
}

/// The position of the first variant whose builder alias is `alias`.
pub open spec fn find_alias_from(vs: Seq<Variant>, alias: Seq<char>, i: int) -> Option<int>
    decreases vs.len() - i,
{
    if i < 0 || i >= vs.len() {
        None
    } else if vs[i].builder.alias@ == alias {
        Some(i)
    } else {
        find_alias_from(vs, alias, i + 1)
    }
}

/// The position of the first variant with the given builder alias.
pub open spec fn spec_lookup_alias(vs: Seq<Variant>, alias: Seq<char>) -> Option<int> {
    find_alias_from(vs, alias, 0)
}

impl VariantDefTop {
    /// The structural invariant of the table: the priority order and the
    /// lookup structure are parallel and of equal cardinality, and no kind
    /// occurs twice.
    pub open spec fn well_formed(self) -> bool {
        &&& self.order@.len() == self.variants@.len()
        &&& (forall|i: int, j: int|
            0 <= i < j < self.variants@.len() ==> self.variants@[i].kind != self.variants@[j].kind)
        &&& (forall|i: int|
            0 <= i < self.order@.len() ==> #[trigger] self.order@[i] == self.variants@[i].kind)
    }
}

/// Finds the position of the variant of kind `k` in the lookup structure.
#[verifier::loop_isolation(false)]
fn lookup_kind(vs: &Vec<Variant>, k: VariantKind) -> (r: Option<usize>)
    ensures
        match r {
            Some(i) => spec_lookup(vs@, k) == Some(i as int) && i < vs@.len(),
            None => spec_lookup(vs@, k) is None,
        },
{
    let n: usize = vs.len();
    let mut i: usize = 0;
    while i < n
        invariant
            i <= n,
            spec_lookup(vs@, k) == find_kind_from(vs@, k, i as int),
        decreases n - i,
    {
        if vs[i].kind == k {
            return Some(i);
        }
        i = i + 1;
    }
    None
}

/// Gets the variant with the specified name from the supplied data.
///
/// Fails with `BadVariant` when the name does not denote any variant kind,
/// and with an internal error when a recognized kind has no data in the
/// table (which a well-formed table never exhibits).
pub fn get_from<'a>(variants: &'a VariantDefTop, name: &str) -> (r: Result<
    &'a Variant,
    VariantError,
>)
    ensures
        match data::name_to_kind(name@) {
            Some(k) => match spec_lookup(variants.variants@, k) {
                Some(i) => r matches Ok(v) && *v == variants.variants@[i],
                None => r matches Err(e) && e is Internal,
            },
            None => r matches Err(e) && (e matches VariantError::BadVariant(n) && n@ == name@),
        },
{
    let kind = match VariantKind::from_name(name) {
        Ok(kind) => kind,
        Err(e) => {
            return Err(e);
        },
    };
    match lookup_kind(&variants.variants, kind) {
        Some(i) => Ok(&variants.variants[i]),
        None => Err(
            VariantError::Internal(
                String::from_str("No data for the ").concat(name).concat(" variant"),
            ),
        ),
    }
}

/// Gets the variant with the specified builder alias from the supplied
/// data: the first descriptor carrying that alias, or an internal error
/// when none does.
#[verifier::loop_isolation(false)]
pub fn get_by_alias_from<'a>(variants: &'a VariantDefTop, alias: &str) -> (r: Result<
    &'a Variant,
    VariantError,
>)
    ensures
        match spec_lookup_alias(variants.variants@, alias@) {
            Some(i) => r matches Ok(v) && *v == variants.variants@[i],
            None => r matches Err(e) && e is Internal,
        },
{
    let n: usize = variants.variants.len();
    let mut i: usize = 0;
    while i < n
        invariant
            i <= n,
            spec_lookup_alias(variants.variants@, alias@) == find_alias_from(
                variants.variants@,
                alias@,
                i as int,
            ),
        decreases n - i,
    {
        if crate::strutil::str_eq(variants.variants[i].builder.alias.as_str(), alias) {
            return Ok(&variants.variants[i]);
        }
        i = i + 1;
    }
    Err(
        VariantError::Internal(
            String::from_str("No variant with the ").concat(alias).concat(" alias"),
        ),
    )
}

/// Gets the metadata format version of the supplied variant data.
pub fn get_format_version_from(variants: &VariantDefTop) -> (r: (u32, u32))
    ensures
        r.0 == variants.format.version.major,
        r.1 == variants.format.version.minor,
{
    (variants.format.version.major, variants.format.version.minor)
}

/// Gets the program version from the supplied variant data.
pub fn get_program_version_from<'a>(variants: &'a VariantDefTop) -> (r: &'a str)
    ensures
        r@ == variants.version@,
{
    variants.version.as_str()
}

/// Builds the variant table from the internal `data` module.
pub fn build_variants() -> (r: VariantDefTop)
    ensures
        r.well_formed(),
        unique_aliases(r.variants@),
        r.order@ == data::spec_order(),
        r.format.version.major == data::FORMAT_VERSION_MAJOR,
        r.format.version.minor == data::FORMAT_VERSION_MINOR,
        r.version@ == data::spec_program_version(),
{
    data::get_variants()
}

/// Gets the metadata format version of the variant data.
pub fn get_format_version() -> (r: (u32, u32))
    ensures
        r.0 == data::FORMAT_VERSION_MAJOR,
        r.1 == data::FORMAT_VERSION_MINOR,
{
    let variants = build_variants();
    get_format_version_from(&variants)
}

/// Gets the program version from the variant data.
pub fn get_program_version() -> (r: String)
    ensures
        r@ == data::spec_program_version(),
{
    let variants = build_variants();
    String::from_str(get_program_version_from(&variants))
}

/// Every descriptor in a well-formed table can be found again under the
/// name of its own kind: the name parses back to the kind, and the lookup
/// structure holds that kind exactly at the descriptor's own position.
pub proof fn lemma_lookup_roundtrip(t: VariantDefTop, i: int)
    requires
        t.well_formed(),
        0 <= i < t.variants@.len(),
    ensures
        data::name_to_kind(data::kind_name(t.variants@[i].kind)) == Some(t.variants@[i].kind),
        spec_lookup(t.variants@, t.variants@[i].kind) == Some(i),
{
    data::lemma_kind_name_roundtrip();
    lemma_find_kind_unique(t.variants@, t.variants@[i].kind, i, 0);
}

proof fn lemma_find_kind_unique(vs: Seq<Variant>, k: VariantKind, i: int, j: int)
    requires
        forall|a: int, b: int| 0 <= a < b < vs.len() ==> vs[a].kind != vs[b].kind,
        0 <= j <= i < vs.len(),
        vs[i].kind == k,
    ensures
        find_kind_from(vs, k, j) == Some(i),
    decreases vs.len() - j,
{
    if j < i {
        lemma_find_kind_unique(vs, k, i, j + 1);
    }
}

/// Every descriptor in a well-formed table whose builder alias occurs
/// nowhere earlier is found by an alias lookup at its own position; in a
/// table whose aliases are pairwise distinct this holds of every
/// descriptor, so an alias lookup returns a descriptor of the same kind.
pub proof fn lemma_alias_roundtrip(t: VariantDefTop, i: int)
    requires
        t.well_formed(),
        0 <= i < t.variants@.len(),
        forall|j: int| 0 <= j < i ==> t.variants@[j].builder.alias@ != t.variants@[i].builder.alias@,
    ensures
        spec_lookup_alias(t.variants@, t.variants@[i].builder.alias@) == Some(i),
{
    lemma_find_alias_first(t.variants@, t.variants@[i].builder.alias@, i, 0);
}

proof fn lemma_find_alias_first(vs: Seq<Variant>, alias: Seq<char>, i: int, j: int)
    requires
        0 <= j <= i < vs.len(),
        vs[i].builder.alias@ == alias,
        forall|a: int| 0 <= a < i ==> vs[a].builder.alias@ != alias,
    ensures
        find_alias_from(vs, alias, j) == Some(i),
    decreases vs.len() - j,
{
    if j < i {
        lemma_find_alias_first(vs, alias, i, j + 1);
    }
}

/// The table invariant, spelled out: the priority order and the lookup
/// structure have equal cardinality, neither holds a kind twice, and the
/// kinds reachable through the order are exactly the kinds of the stored
/// descriptors.
pub proof fn lemma_table_invariant(t: VariantDefTop)
    requires
        t.well_formed(),
    ensures
        t.order@.len() == t.variants@.len(),
        forall|i: int, j: int| 0 <= i < j < t.order@.len() ==> t.order@[i] != t.order@[j],
        forall|k: VariantKind|
            #[trigger] t.order@.contains(k) <==> exists|i: int|
                0 <= i < t.variants@.len() && t.variants@[i].kind == k,
{
    assert forall|k: VariantKind| #[trigger]
        t.order@.contains(k) <==> (exists|i: int|
            0 <= i < t.variants@.len() && t.variants@[i].kind == k) by {
        if t.order@.contains(k) {
            let i = choose|i: int| 0 <= i < t.order@.len() && t.order@[i] == k;
            assert(t.variants@[i].kind == k);
        }
        if exists|i: int| 0 <= i < t.variants@.len() && t.variants@[i].kind == k {
            let i = choose|i: int| 0 <= i < t.variants@.len() && t.variants@[i].kind == k;
            assert(t.order@[i] == k);
        }
    }
}

} // verus!
