//! The variant definition data: the known build variants, their detection
//! rules, and their associated commands and repository files, in priority
//! order.

use vstd::prelude::*;

use crate::strutil::str_eq;
use crate::{
    Builder, DebRepo, Detect, Repo, Variant, VariantDefTop, VariantError, VariantFormat,
    VariantFormatVersion, YumRepo,
};

verus! {

/// The major number of the variant metadata format version.
pub const FORMAT_VERSION_MAJOR: u32 = 1;

/// The minor number of the variant metadata format version.
pub const FORMAT_VERSION_MINOR: u32 = 0;

/// A build variant: a known Linux distribution version profile.
#[derive(Debug, Clone, Copy, PartialEq, Eq, Hash, Structural)]
pub enum VariantKind {
    /// AlmaLinux 8.
    Alma8,
    /// Rocky Linux 8.
    Rocky8,
    /// Oracle Linux 7.
    Oracle7,
    /// Red Hat Enterprise Linux 8.
    Rhel8,
    /// CentOS 7.
    Centos7,
    /// CentOS 8.
    Centos8,
    /// Debian 10 (buster).
    Debian10,
    /// Debian 11 (bullseye).
    Debian11,
    /// Debian 12 (bookworm).
    Debian12,
    /// Ubuntu 20.04 LTS (focal).
    Ubuntu2004,
    /// Ubuntu 22.04 LTS (jammy).
    Ubuntu2204,
}

/// The canonical name of a variant kind.
pub open spec fn kind_name(k: VariantKind) -> Seq<char> {
    match k {
        VariantKind::Alma8 => "ALMA8"@,
        VariantKind::Rocky8 => "ROCKY8"@,
        VariantKind::Oracle7 => "ORACLE7"@,
        VariantKind::Rhel8 => "RHEL8"@,
        VariantKind::Centos7 => "CENTOS7"@,
        VariantKind::Centos8 => "CENTOS8"@,
        VariantKind::Debian10 => "DEBIAN10"@,
        VariantKind::Debian11 => "DEBIAN11"@,
        VariantKind::Debian12 => "DEBIAN12"@,
        VariantKind::Ubuntu2004 => "UBUNTU2004"@,
        VariantKind::Ubuntu2204 => "UBUNTU2204"@,
    }
}

/// The variant kind a name denotes, if any.
pub open spec fn name_to_kind(s: Seq<char>) -> Option<VariantKind> {
    if s == "ALMA8"@ {
        Some(VariantKind::Alma8)
    } else if s == "ROCKY8"@ {
        Some(VariantKind::Rocky8)
    } else if s == "ORACLE7"@ {
        Some(VariantKind::Oracle7)
    } else if s == "RHEL8"@ {
        Some(VariantKind::Rhel8)
    } else if s == "CENTOS7"@ {
        Some(VariantKind::Centos7)
    } else if s == "CENTOS8"@ {
        Some(VariantKind::Centos8)
    } else if s == "DEBIAN10"@ {
        Some(VariantKind::Debian10)
    } else if s == "DEBIAN11"@ {
        Some(VariantKind::Debian11)
    } else if s == "DEBIAN12"@ {
        Some(VariantKind::Debian12)
    } else if s == "UBUNTU2004"@ {
        Some(VariantKind::Ubuntu2004)
    } else if s == "UBUNTU2204"@ {
        Some(VariantKind::Ubuntu2204)
    } else {
        None
    }
}

/// Parsing a kind's canonical name gives back the kind itself.
pub proof fn lemma_kind_name_roundtrip()
    ensures
        forall|k: VariantKind| #[trigger] name_to_kind(kind_name(k)) == Some(k),
{
    broadcast use vstd::string::group_string_axioms;

    reveal_strlit("ALMA8");
    reveal_strlit("ROCKY8");
    reveal_strlit("ORACLE7");
    reveal_strlit("RHEL8");
    reveal_strlit("CENTOS7");
    reveal_strlit("CENTOS8");
    reveal_strlit("DEBIAN10");
    reveal_strlit("DEBIAN11");
    reveal_strlit("DEBIAN12");
    reveal_strlit("UBUNTU2004");
    reveal_strlit("UBUNTU2204");
    // Mention the lengths, and one distinguishing character within each
    // group of equal length, so that no two names can be the same sequence.
    assert(("ALMA8"@).len() == 5 && ("RHEL8"@).len() == 5 && ("ROCKY8"@).len() == 6);
    assert(("ORACLE7"@).len() == 7 && ("CENTOS7"@).len() == 7 && ("CENTOS8"@).len() == 7);
    assert(("DEBIAN10"@).len() == 8 && ("DEBIAN11"@).len() == 8 && ("DEBIAN12"@).len() == 8);
    assert(("UBUNTU2004"@).len() == 10 && ("UBUNTU2204"@).len() == 10);
    assert(("ALMA8"@)[0] == 'A' && ("RHEL8"@)[0] == 'R');
    assert(("ORACLE7"@)[0] == 'O' && ("CENTOS7"@)[0] == 'C');
    assert(("CENTOS7"@)[6] == '7' && ("CENTOS8"@)[6] == '8');
    assert(("DEBIAN10"@)[7] == '0' && ("DEBIAN11"@)[7] == '1' && ("DEBIAN12"@)[7] == '2');
    assert(("UBUNTU2004"@)[7] == '0' && ("UBUNTU2204"@)[7] == '2');
    assert forall|k: VariantKind| #[trigger] name_to_kind(kind_name(k)) == Some(k) by {
        match k {
            VariantKind::Alma8 => assert(name_to_kind("ALMA8"@) == Some(VariantKind::Alma8)),
            VariantKind::Rocky8 => assert(name_to_kind("ROCKY8"@) == Some(VariantKind::Rocky8)),
            VariantKind::Oracle7 => assert(name_to_kind("ORACLE7"@) == Some(VariantKind::Oracle7)),
            VariantKind::Rhel8 => assert(name_to_kind("RHEL8"@) == Some(VariantKind::Rhel8)),
            VariantKind::Centos7 => assert(name_to_kind("CENTOS7"@) == Some(VariantKind::Centos7)),
            VariantKind::Centos8 => assert(name_to_kind("CENTOS8"@) == Some(VariantKind::Centos8)),
            VariantKind::Debian10 => assert(name_to_kind("DEBIAN10"@) == Some(
                VariantKind::Debian10,
            )),
            VariantKind::Debian11 => assert(name_to_kind("DEBIAN11"@) == Some(
                VariantKind::Debian11,
            )),
            VariantKind::Debian12 => assert(name_to_kind("DEBIAN12"@) == Some(
                VariantKind::Debian12,
            )),
            VariantKind::Ubuntu2004 => assert(name_to_kind("UBUNTU2004"@) == Some(
                VariantKind::Ubuntu2004,
            )),
            VariantKind::Ubuntu2204 => assert(name_to_kind("UBUNTU2204"@) == Some(
                VariantKind::Ubuntu2204,
            )),
        }
    }
}

impl VariantKind {
    /// The canonical name of this variant kind.
    pub fn as_str(&self) -> (r: &'static str)
        ensures
            r@ == kind_name(*self),
    {
        match *self {
            VariantKind::Alma8 => "ALMA8",
            VariantKind::Rocky8 => "ROCKY8",
            VariantKind::Oracle7 => "ORACLE7",
            VariantKind::Rhel8 => "RHEL8",
            VariantKind::Centos7 => "CENTOS7",
            VariantKind::Centos8 => "CENTOS8",
            VariantKind::Debian10 => "DEBIAN10",
            VariantKind::Debian11 => "DEBIAN11",
            VariantKind::Debian12 => "DEBIAN12",
            VariantKind::Ubuntu2004 => "UBUNTU2004",
            VariantKind::Ubuntu2204 => "UBUNTU2204",
        }
    }

    /// Parses a variant kind from its canonical name.
    pub fn from_name(name: &str) -> (r: Result<VariantKind, VariantError>)
        ensures
            match name_to_kind(name@) {
                Some(k) => r matches Ok(k2) && k2 == k,
                None => r matches Err(e) && (e matches VariantError::BadVariant(n) && n@
                    == name@),
            },
    {
        if str_eq(name, "ALMA8") {
            Ok(VariantKind::Alma8)
        } else if str_eq(name, "ROCKY8") {
            Ok(VariantKind::Rocky8)
        } else if str_eq(name, "ORACLE7") {
            Ok(VariantKind::Oracle7)
        } else if str_eq(name, "RHEL8") {
            Ok(VariantKind::Rhel8)
        } else if str_eq(name, "CENTOS7") {
            Ok(VariantKind::Centos7)
        } else if str_eq(name, "CENTOS8") {
            Ok(VariantKind::Centos8)
        } else if str_eq(name, "DEBIAN10") {
            Ok(VariantKind::Debian10)
        } else if str_eq(name, "DEBIAN11") {
            Ok(VariantKind::Debian11)
        } else if str_eq(name, "DEBIAN12") {
            Ok(VariantKind::Debian12)
        } else if str_eq(name, "UBUNTU2004") {
            Ok(VariantKind::Ubuntu2004)
        } else if str_eq(name, "UBUNTU2204") {
            Ok(VariantKind::Ubuntu2204)
        } else {
            Err(VariantError::BadVariant(String::from_str(name)))
        }
    }
}

/// The priority order of the known variants: a more specific distribution
/// stands before a more general one that its release files resemble.
pub open spec fn spec_order() -> Seq<VariantKind> {
    seq![
        VariantKind::Alma8,
        VariantKind::Rocky8,
        VariantKind::Oracle7,
        VariantKind::Rhel8,
        VariantKind::Centos7,
        VariantKind::Centos8,
        VariantKind::Debian10,
        VariantKind::Debian11,
        VariantKind::Debian12,
        VariantKind::Ubuntu2004,
        VariantKind::Ubuntu2204,
    ]
}

/// The version of the variant definition data.
pub open spec fn spec_program_version() -> Seq<char> {
    "3.5.3"@
}

/// Copies a list of words into owned strings.
fn strings(words: &[&str]) -> (r: Vec<String>) {
    let mut v: Vec<String> = Vec::new();
    let mut i: usize = 0;
    while i < words.len()
        decreases words.len() - i,
    {
        v.push(String::from_str(words[i]));
        i = i + 1;
    }
    v
}

/// The detection rules of one variant.
fn mk_detect(filename: &str, regex: &str, os_id: &str, os_version_regex: &str) -> (r: Detect)
    ensures
        r.filename@ == filename@,
        r.regex@ == regex@,
        r.os_id@ == os_id@,
        r.os_version_regex@ == os_version_regex@,
{
    Detect {
        filename: String::from_str(filename),
        regex: String::from_str(regex),
        os_id: String::from_str(os_id),
        os_version_regex: String::from_str(os_version_regex),
    }
}

/// The builder data of one variant.
fn mk_builder(
    alias: &str,
    base_image: &str,
    branch: &str,
    kernel_package: &str,
    utf8_locale: &str,
) -> (r: Builder)
    ensures
        r.alias@ == alias@,
{
    Builder {
        alias: String::from_str(alias),
        base_image: String::from_str(base_image),
        branch: String::from_str(branch),
        kernel_package: String::from_str(kernel_package),
        utf8_locale: String::from_str(utf8_locale),
    }
}

/// The command table of the RPM-based variants, parameterized by the
/// package tool (`yum` or `dnf`).
fn commands_rpm(tool: &str) -> (r: Vec<(String, Vec<(String, Vec<String>)>)>) {
    let mut package: Vec<(String, Vec<String>)> = Vec::new();
    package.push(
        (String::from_str("install"), strings(&[tool, "--disablerepo=*", "--enablerepo=base,updates,storpool-contrib", "install", "-q", "-y", "--"])),
    );
    package.push(
        (String::from_str("list_all"), strings(&["rpm", "-qa", "--qf", "%{Name}\t%{EVR}\t%{Arch}\tinstalled\n", "--"])),
    );
    package.push(
        (String::from_str("remove"), strings(&[tool, "remove", "-q", "-y", "--"])),
    );
    let mut pkgfile: Vec<(String, Vec<String>)> = Vec::new();
    pkgfile.push(
        (String::from_str("install"), strings(&["rpm", "-ivh", "--replacepkgs", "--"])),
    );
    let mut r: Vec<(String, Vec<(String, Vec<String>)>)> = Vec::new();
    r.push((String::from_str("package"), package));
    r.push((String::from_str("pkgfile"), pkgfile));
    r
}

/// The command table of the Debian-based variants.
fn commands_deb() -> (r: Vec<(String, Vec<(String, Vec<String>)>)>) {
    let mut package: Vec<(String, Vec<String>)> = Vec::new();
    package.push(
        (String::from_str("install"), strings(&["env", "DEBIAN_FRONTEND=noninteractive", "apt-get", "-q", "-y", "--no-install-recommends", "install", "--"])),
    );
    package.push(
        (String::from_str("list_all"), strings(&["dpkg-query", "-W", "-f", "${Package}\t${Version}\t${Architecture}\t${db:Status-Abbrev}\n", "--"])),
    );
    package.push(
        (String::from_str("remove"), strings(&["env", "DEBIAN_FRONTEND=noninteractive", "apt-get", "-q", "-y", "remove", "--"])),
    );
    let mut pkgfile: Vec<(String, Vec<String>)> = Vec::new();
    pkgfile.push(
        (String::from_str("install"), strings(&["env", "DEBIAN_FRONTEND=noninteractive", "apt-get", "-q", "-y", "--no-install-recommends", "--reinstall", "install", "--"])),
    );
    let mut r: Vec<(String, Vec<(String, Vec<String>)>)> = Vec::new();
    r.push((String::from_str("package"), package));
    r.push((String::from_str("pkgfile"), pkgfile));
    r
}

/// The package name table of the RPM-based variants.
fn package_rpm() -> (r: Vec<(String, String)>) {
    let mut v: Vec<(String, String)> = Vec::new();
    v.push((String::from_str("KMOD"), String::from_str("kmod")));
    v.push((String::from_str("LIBCGROUP"), String::from_str("libcgroup-tools")));
    v.push((String::from_str("LIBUDEV"), String::from_str("systemd-libs")));
    v.push((String::from_str("OPENSSL"), String::from_str("openssl-libs")));
    v
}

/// The package name table of the Debian-based variants.
fn package_deb() -> (r: Vec<(String, String)>) {
    let mut v: Vec<(String, String)> = Vec::new();
    v.push((String::from_str("KMOD"), String::from_str("kmod")));
    v.push((String::from_str("LIBCGROUP"), String::from_str("cgroup-tools")));
    v.push((String::from_str("LIBUDEV"), String::from_str("libudev1")));
    v.push((String::from_str("OPENSSL"), String::from_str("libssl1.1")));
    v
}

/// The repository files of the RPM-based variants.
fn repo_yum() -> (r: Repo) {
    Repo::Yum(
        YumRepo {
            yumdef: String::from_str("storpool-centos.repo"),
            keyring: String::from_str("RPM-GPG-KEY-StorPool"),
        },
    )
}

/// The repository files of a Debian-based variant.
fn repo_deb(codename: &str, vendor: &str) -> (r: Repo) {
    Repo::Deb(
        DebRepo {
            codename: String::from_str(codename),
            vendor: String::from_str(vendor),
            sources: String::from_str("storpool.sources"),
            keyring: String::from_str("storpool-keyring.gpg"),
            req_packages: strings(&["ca-certificates"]),
        },
    )
}

/// A whole RPM-family variant record.
fn variant_rpm(
    kind: VariantKind,
    descr: &str,
    parent: &str,
    detect: Detect,
    tool: &str,
    min_sys_python: &str,
    initramfs_flavor: &str,
    builder: Builder,
) -> (r: Variant)
    ensures
        r.kind == kind,
        r.builder == builder,
{
    Variant {
        kind,
        descr: String::from_str(descr),
        family: String::from_str("redhat"),
        parent: String::from_str(parent),
        detect,
        commands: commands_rpm(tool),
        min_sys_python: String::from_str(min_sys_python),
        repo: repo_yum(),
        package: package_rpm(),
        systemd_lib: String::from_str("usr/lib/systemd/system"),
        file_ext: String::from_str("rpm"),
        initramfs_flavor: String::from_str(initramfs_flavor),
        builder,
    }
}

/// A whole Debian-family variant record.
fn variant_deb(
    kind: VariantKind,
    descr: &str,
    parent: &str,
    detect: Detect,
    codename: &str,
    vendor: &str,
    min_sys_python: &str,
    builder: Builder,
) -> (r: Variant)
    ensures
        r.kind == kind,
        r.builder == builder,
{
    Variant {
        kind,
        descr: String::from_str(descr),
        family: String::from_str("debian"),
        parent: String::from_str(parent),
        detect,
        commands: commands_deb(),
        min_sys_python: String::from_str(min_sys_python),
        repo: repo_deb(codename, vendor),
        package: package_deb(),
        systemd_lib: String::from_str("lib/systemd/system"),
        file_ext: String::from_str("deb"),
        initramfs_flavor: String::from_str("update-initramfs"),
        builder,
    }
}

/// Builds the whole variant table.
pub fn get_variants() -> (r: VariantDefTop)
    ensures
        r.well_formed(),
        crate::unique_aliases(r.variants@),
        r.order@ == spec_order(),
        r.format.version.major == FORMAT_VERSION_MAJOR,
        r.format.version.minor == FORMAT_VERSION_MINOR,
        r.version@ == spec_program_version(),
{
    let mut order: Vec<VariantKind> = Vec::new();
    order.push(VariantKind::Alma8);
    order.push(VariantKind::Rocky8);
    order.push(VariantKind::Oracle7);
    order.push(VariantKind::Rhel8);
    order.push(VariantKind::Centos7);
    order.push(VariantKind::Centos8);
    order.push(VariantKind::Debian10);
    order.push(VariantKind::Debian11);
    order.push(VariantKind::Debian12);
    order.push(VariantKind::Ubuntu2004);
    order.push(VariantKind::Ubuntu2204);

    let mut variants: Vec<Variant> = Vec::new();
    variants.push(
        variant_rpm(
            VariantKind::Alma8,
            "AlmaLinux 8.x",
            "CENTOS8",
            mk_detect(
                "/etc/redhat-release",
                "^ AlmaLinux \\s .* \\s 8 \\. (?: [3-9] | [1-9][0-9] )",
                "almalinux",
                "^ 8 \\. (?: [3-9] | [1-9][0-9] )",
            ),
            "dnf",
            "3.6",
            "mkinitrd",
            mk_builder("alma8", "almalinux:8", "centos/8", "kernel-core", "C.UTF-8"),
        ),
    );
    variants.push(
        variant_rpm(
            VariantKind::Rocky8,
            "Rocky Linux 8.x",
            "CENTOS8",
            mk_detect(
                "/etc/redhat-release",
                "^ Rocky \\s Linux \\s .* \\s 8 \\. (?: [3-9] | [1-9][0-9] )",
                "rocky",
                "^ 8 \\. (?: [3-9] | [1-9][0-9] )",
            ),
            "dnf",
            "3.6",
            "mkinitrd",
            mk_builder("rocky8", "rockylinux:8", "centos/8", "kernel-core", "C.UTF-8"),
        ),
    );
    variants.push(
        variant_rpm(
            VariantKind::Oracle7,
            "Oracle Linux 7.x",
            "CENTOS7",
            mk_detect(
                "/etc/oracle-release",
                "^ Oracle \\s Linux \\s Server \\s release \\s 7 \\.",
                "ol",
                "^ 7 (?: \\. [0-9]+ )? $",
            ),
            "yum",
            "2.7",
            "mkinitrd",
            mk_builder("oracle7", "oraclelinux:7", "centos/7", "kernel", "C.utf8"),
        ),
    );
    variants.push(
        variant_rpm(
            VariantKind::Rhel8,
            "Red Hat Enterprise Linux 8.x",
            "CENTOS8",
            mk_detect(
                "/etc/redhat-release",
                "^ Red \\s Hat \\s Enterprise \\s Linux \\s .* \\s 8 \\. (?: [3-9] | [1-9][0-9] )",
                "rhel",
                "^ 8 \\. (?: [3-9] | [1-9][0-9] )",
            ),
            "dnf",
            "3.6",
            "mkinitrd",
            mk_builder("rhel8", "redhat/ubi8", "centos/8", "kernel-core", "C.UTF-8"),
        ),
    );
    variants.push(
        variant_rpm(
            VariantKind::Centos7,
            "CentOS 7.x",
            "",
            mk_detect(
                "/etc/redhat-release",
                "^ (?: CentOS | Virtuozzo ) \\s .* \\s 7 \\.",
                "centos",
                "^ 7 (?: \\. [0-9]+ )? $",
            ),
            "yum",
            "2.7",
            "mkinitrd",
            mk_builder("centos7", "centos:7", "centos/7", "kernel", "C.utf8"),
        ),
    );
    variants.push(
        variant_rpm(
            VariantKind::Centos8,
            "CentOS 8.x",
            "",
            mk_detect(
                "/etc/redhat-release",
                "^ CentOS \\s .* \\s 8 \\. (?: [3-9] | [1-9][0-9] )",
                "centos",
                "^ 8 \\. (?: [3-9] | [1-9][0-9] )",
            ),
            "dnf",
            "3.6",
            "mkinitrd",
            mk_builder("centos8", "centos:8", "centos/8", "kernel-core", "C.UTF-8"),
        ),
    );
    variants.push(
        variant_deb(
            VariantKind::Debian10,
            "Debian 10.x (buster)",
            "",
            mk_detect(
                "/etc/os-release",
                "^ PRETTY_NAME= .* Debian \\s .* buster",
                "debian",
                "^ 10 $",
            ),
            "buster",
            "debian",
            "3.7",
            mk_builder("debian10", "debian:buster", "debian/buster", "linux-image-amd64", "C.UTF-8"),
        ),
    );
    variants.push(
        variant_deb(
            VariantKind::Debian11,
            "Debian 11.x (bullseye)",
            "DEBIAN10",
            mk_detect(
                "/etc/os-release",
                "^ PRETTY_NAME= .* Debian \\s .* bullseye",
                "debian",
                "^ 11 $",
            ),
            "bullseye",
            "debian",
            "3.9",
            mk_builder(
                "debian11",
                "debian:bullseye",
                "debian/bullseye",
                "linux-image-amd64",
                "C.UTF-8",
            ),
        ),
    );
    variants.push(
        variant_deb(
            VariantKind::Debian12,
            "Debian 12.x (bookworm)",
            "DEBIAN11",
            mk_detect(
                "/etc/os-release",
                "^ PRETTY_NAME= .* Debian \\s .* bookworm",
                "debian",
                "^ 12 $",
            ),
            "bookworm",
            "debian",
            "3.11",
            mk_builder(
                "debian12",
                "debian:bookworm",
                "debian/bookworm",
                "linux-image-amd64",
                "C.UTF-8",
            ),
        ),
    );
    variants.push(
        variant_deb(
            VariantKind::Ubuntu2004,
            "Ubuntu 20.04 LTS (Focal Fossa)",
            "DEBIAN11",
            mk_detect(
                "/etc/os-release",
                "^ PRETTY_NAME= .* Ubuntu \\s 20 \\. 04",
                "ubuntu",
                "^ 20 \\. 04 $",
            ),
            "focal",
            "ubuntu",
            "3.8",
            mk_builder(
                "ubuntu-20.04",
                "ubuntu:focal",
                "ubuntu/focal",
                "linux-image-generic",
                "C.UTF-8",
            ),
        ),
    );
    variants.push(
        variant_deb(
            VariantKind::Ubuntu2204,
            "Ubuntu 22.04 LTS (Jammy Jellyfish)",
            "UBUNTU2004",
            mk_detect(
                "/etc/os-release",
                "^ PRETTY_NAME= .* Ubuntu \\s 22 \\. 04",
                "ubuntu",
                "^ 22 \\. 04 $",
            ),
            "jammy",
            "ubuntu",
            "3.10",
            mk_builder(
                "ubuntu-22.04",
                "ubuntu:jammy",
                "ubuntu/jammy",
                "linux-image-generic",
                "C.UTF-8",
            ),
        ),
    );

    proof {
        assert(order@ =~= spec_order());
        // The builder aliases are pairwise distinct: within each group of
        // equal length, some character differs.
        broadcast use vstd::string::group_string_axioms;

        reveal_strlit("alma8");
        reveal_strlit("rocky8");
        reveal_strlit("oracle7");
        reveal_strlit("rhel8");
        reveal_strlit("centos7");
        reveal_strlit("centos8");
        reveal_strlit("debian10");
        reveal_strlit("debian11");
        reveal_strlit("debian12");
        reveal_strlit("ubuntu-20.04");
        reveal_strlit("ubuntu-22.04");
        assert(("alma8"@).len() == 5 && ("rhel8"@).len() == 5 && ("rocky8"@).len() == 6);
        assert(("oracle7"@).len() == 7 && ("centos7"@).len() == 7 && ("centos8"@).len() == 7);
        assert(("debian10"@).len() == 8 && ("debian11"@).len() == 8 && ("debian12"@).len() == 8);
        assert(("ubuntu-20.04"@).len() == 12 && ("ubuntu-22.04"@).len() == 12);
        assert(("alma8"@)[0] == 'a' && ("rhel8"@)[0] == 'r');
        assert(("oracle7"@)[0] == 'o' && ("centos7"@)[0] == 'c');
        assert(("centos7"@)[6] == '7' && ("centos8"@)[6] == '8');
        assert(("debian10"@)[7] == '0' && ("debian11"@)[7] == '1' && ("debian12"@)[7] == '2');
        assert(("ubuntu-20.04"@)[8] == '0' && ("ubuntu-22.04"@)[8] == '2');
        assert(crate::unique_aliases(variants@));
    }
    let r = VariantDefTop {
        format: VariantFormat {
            version: VariantFormatVersion { major: FORMAT_VERSION_MAJOR, minor: FORMAT_VERSION_MINOR },
        },
        order,
        variants,
        version: String::from_str("3.5.3"),
    };
    proof {
        assert(r.well_formed());
    }
    r
}

} // verus!
