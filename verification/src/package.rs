//! Package queries: the attributes a listing may request, the query
//! scope, the package value object built from a reply record, and the
//! options of the remote listing call.

use vstd::prelude::*;
use crate::attrs::{AttrMap, ListResults, spec_get_bool, spec_get_str, spec_get_u64};
use crate::errors::Error;
use crate::text::{eq_ignore_ascii_case, fold_case};

verus! {

/// A package attribute that a listing may request, named after its wire
/// attribute name.
#[derive(Debug, Clone, Copy, PartialEq, Eq, Structural)]
pub enum PackageAttr {
    Name,
    Epoch,
    Version,
    Release,
    Arch,
    RepoId,
    FromRepoId,
    IsInstalled,
    InstallSize,
    DownloadSize,
    Buildtime,
    Sourcerpm,
    Summary,
    Url,
    License,
    Description,
    Files,
    Changelogs,
    Provides,
    Requires,
    RequiresPre,
    Conflicts,
    Obsoletes,
    Recommends,
    Suggests,
    Enhances,
    Supplements,
    Evr,
    Nevra,
    FullNevra,
    Reason,
    Vendor,
    Group,
}

impl PackageAttr {
    /// The attribute's wire name.
    pub open spec fn spec_name(self) -> Seq<char> {
        match self {
            PackageAttr::Name => "name"@,
            PackageAttr::Epoch => "epoch"@,
            PackageAttr::Version => "version"@,
            PackageAttr::Release => "release"@,
            PackageAttr::Arch => "arch"@,
            PackageAttr::RepoId => "repo_id"@,
            PackageAttr::FromRepoId => "from_repo_id"@,
            PackageAttr::IsInstalled => "is_installed"@,
            PackageAttr::InstallSize => "install_size"@,
            PackageAttr::DownloadSize => "download_size"@,
            PackageAttr::Buildtime => "buildtime"@,
            PackageAttr::Sourcerpm => "sourcerpm"@,
            PackageAttr::Summary => "summary"@,
            PackageAttr::Url => "url"@,
            PackageAttr::License => "license"@,
            PackageAttr::Description => "description"@,
            PackageAttr::Files => "files"@,
            PackageAttr::Changelogs => "changelogs"@,
            PackageAttr::Provides => "provides"@,
            PackageAttr::Requires => "requires"@,
            PackageAttr::RequiresPre => "requires_pre"@,
            PackageAttr::Conflicts => "conflicts"@,
            PackageAttr::Obsoletes => "obsoletes"@,
            PackageAttr::Recommends => "recommends"@,
            PackageAttr::Suggests => "suggests"@,
            PackageAttr::Enhances => "enhances"@,
            PackageAttr::Supplements => "supplements"@,
            PackageAttr::Evr => "evr"@,
            PackageAttr::Nevra => "nevra"@,
            PackageAttr::FullNevra => "full_nevra"@,
            PackageAttr::Reason => "reason"@,
            PackageAttr::Vendor => "vendor"@,
            PackageAttr::Group => "group"@,
        }
    }

    /// The attribute's wire name.
    pub fn name_str(&self) -> (r: &'static str)
        ensures
            r@ == self.spec_name(),
    {
        match self {
            PackageAttr::Name => "name",
            PackageAttr::Epoch => "epoch",
            PackageAttr::Version => "version",
            PackageAttr::Release => "release",
            PackageAttr::Arch => "arch",
            PackageAttr::RepoId => "repo_id",
            PackageAttr::FromRepoId => "from_repo_id",
            PackageAttr::IsInstalled => "is_installed",
            PackageAttr::InstallSize => "install_size",
            PackageAttr::DownloadSize => "download_size",
            PackageAttr::Buildtime => "buildtime",
            PackageAttr::Sourcerpm => "sourcerpm",
            PackageAttr::Summary => "summary",
            PackageAttr::Url => "url",
            PackageAttr::License => "license",
            PackageAttr::Description => "description",
            PackageAttr::Files => "files",
            PackageAttr::Changelogs => "changelogs",
            PackageAttr::Provides => "provides",
            PackageAttr::Requires => "requires",
            PackageAttr::RequiresPre => "requires_pre",
            PackageAttr::Conflicts => "conflicts",
            PackageAttr::Obsoletes => "obsoletes",
            PackageAttr::Recommends => "recommends",
            PackageAttr::Suggests => "suggests",
            PackageAttr::Enhances => "enhances",
            PackageAttr::Supplements => "supplements",
            PackageAttr::Evr => "evr",
            PackageAttr::Nevra => "nevra",
            PackageAttr::FullNevra => "full_nevra",
            PackageAttr::Reason => "reason",
            PackageAttr::Vendor => "vendor",
            PackageAttr::Group => "group",
        }
    }

    /// The attribute whose wire name matches `s` up to ASCII case; an
    /// unrecognized name falls back to the package name attribute.
    pub fn from(attr: String) -> (r: PackageAttr)
        ensures
            r == spec_attr_from(attr@),
    {
        let a = attr.as_str();
        if eq_ignore_ascii_case(a, "name") {
            PackageAttr::Name
        } else if eq_ignore_ascii_case(a, "epoch") {
            PackageAttr::Epoch
        } else if eq_ignore_ascii_case(a, "version") {
            PackageAttr::Version
        } else if eq_ignore_ascii_case(a, "release") {
            PackageAttr::Release
        } else if eq_ignore_ascii_case(a, "arch") {
            PackageAttr::Arch
        } else if eq_ignore_ascii_case(a, "repo_id") {
            PackageAttr::RepoId
        } else if eq_ignore_ascii_case(a, "from_repo_id") {
            PackageAttr::FromRepoId
        } else if eq_ignore_ascii_case(a, "is_installed") {
            PackageAttr::IsInstalled
        } else if eq_ignore_ascii_case(a, "install_size") {
            PackageAttr::InstallSize
        } else if eq_ignore_ascii_case(a, "download_size") {
            PackageAttr::DownloadSize
        } else if eq_ignore_ascii_case(a, "buildtime") {
            PackageAttr::Buildtime
        } else if eq_ignore_ascii_case(a, "sourcerpm") {
            PackageAttr::Sourcerpm
        } else if eq_ignore_ascii_case(a, "summary") {
            PackageAttr::Summary
        } else if eq_ignore_ascii_case(a, "url") {
            PackageAttr::Url
        } else if eq_ignore_ascii_case(a, "license") {
            PackageAttr::License
        } else if eq_ignore_ascii_case(a, "description") {
            PackageAttr::Description
        } else if eq_ignore_ascii_case(a, "files") {
            PackageAttr::Files
        } else if eq_ignore_ascii_case(a, "changelogs") {
            PackageAttr::Changelogs
        } else if eq_ignore_ascii_case(a, "provides") {
            PackageAttr::Provides
        } else if eq_ignore_ascii_case(a, "requires") {
            PackageAttr::Requires
        } else if eq_ignore_ascii_case(a, "requires_pre") {
            PackageAttr::RequiresPre
        } else if eq_ignore_ascii_case(a, "conflicts") {
            PackageAttr::Conflicts
        } else if eq_ignore_ascii_case(a, "obsoletes") {
            PackageAttr::Obsoletes
        } else if eq_ignore_ascii_case(a, "recommends") {
            PackageAttr::Recommends
        } else if eq_ignore_ascii_case(a, "suggests") {
            PackageAttr::Suggests
        } else if eq_ignore_ascii_case(a, "enhances") {
            PackageAttr::Enhances
        } else if eq_ignore_ascii_case(a, "supplements") {
            PackageAttr::Supplements
        } else if eq_ignore_ascii_case(a, "evr") {
            PackageAttr::Evr
        } else if eq_ignore_ascii_case(a, "nevra") {
            PackageAttr::Nevra
        } else if eq_ignore_ascii_case(a, "full_nevra") {
            PackageAttr::FullNevra
        } else if eq_ignore_ascii_case(a, "reason") {
            PackageAttr::Reason
        } else if eq_ignore_ascii_case(a, "vendor") {
            PackageAttr::Vendor
        } else if eq_ignore_ascii_case(a, "group") {
            PackageAttr::Group
        } else {
            PackageAttr::Name
        }
    }
}

/// The attribute whose wire name matches `s` up to ASCII case, the
/// package name attribute when none does.
pub open spec fn spec_attr_from(s: Seq<char>) -> PackageAttr {
    if fold_case(s) == fold_case("name"@) {
        PackageAttr::Name
    } else if fold_case(s) == fold_case("epoch"@) {
        PackageAttr::Epoch
    } else if fold_case(s) == fold_case("version"@) {
        PackageAttr::Version
    } else if fold_case(s) == fold_case("release"@) {
        PackageAttr::Release
    } else if fold_case(s) == fold_case("arch"@) {
        PackageAttr::Arch
    } else if fold_case(s) == fold_case("repo_id"@) {
        PackageAttr::RepoId
    } else if fold_case(s) == fold_case("from_repo_id"@) {
        PackageAttr::FromRepoId
    } else if fold_case(s) == fold_case("is_installed"@) {
        PackageAttr::IsInstalled
    } else if fold_case(s) == fold_case("install_size"@) {
        PackageAttr::InstallSize
    } else if fold_case(s) == fold_case("download_size"@) {
        PackageAttr::DownloadSize
    } else if fold_case(s) == fold_case("buildtime"@) {
        PackageAttr::Buildtime
    } else if fold_case(s) == fold_case("sourcerpm"@) {
        PackageAttr::Sourcerpm
    } else if fold_case(s) == fold_case("summary"@) {
        PackageAttr::Summary
    } else if fold_case(s) == fold_case("url"@) {
        PackageAttr::Url
    } else if fold_case(s) == fold_case("license"@) {
        PackageAttr::License
    } else if fold_case(s) == fold_case("description"@) {
        PackageAttr::Description
    } else if fold_case(s) == fold_case("files"@) {
        PackageAttr::Files
    } else if fold_case(s) == fold_case("changelogs"@) {
        PackageAttr::Changelogs
    } else if fold_case(s) == fold_case("provides"@) {
        PackageAttr::Provides
    } else if fold_case(s) == fold_case("requires"@) {
        PackageAttr::Requires
    } else if fold_case(s) == fold_case("requires_pre"@) {
        PackageAttr::RequiresPre
    } else if fold_case(s) == fold_case("conflicts"@) {
        PackageAttr::Conflicts
    } else if fold_case(s) == fold_case("obsoletes"@) {
        PackageAttr::Obsoletes
    } else if fold_case(s) == fold_case("recommends"@) {
        PackageAttr::Recommends
    } else if fold_case(s) == fold_case("suggests"@) {
        PackageAttr::Suggests
    } else if fold_case(s) == fold_case("enhances"@) {
        PackageAttr::Enhances
    } else if fold_case(s) == fold_case("supplements"@) {
        PackageAttr::Supplements
    } else if fold_case(s) == fold_case("evr"@) {
        PackageAttr::Evr
    } else if fold_case(s) == fold_case("nevra"@) {
        PackageAttr::Nevra
    } else if fold_case(s) == fold_case("full_nevra"@) {
        PackageAttr::FullNevra
    } else if fold_case(s) == fold_case("reason"@) {
        PackageAttr::Reason
    } else if fold_case(s) == fold_case("vendor"@) {
        PackageAttr::Vendor
    } else if fold_case(s) == fold_case("group"@) {
        PackageAttr::Group
    } else {
        PackageAttr::Name
    }
}

/// The scope a package query ranges over.
#[derive(Debug, Clone, Copy, PartialEq, Eq, Structural)]
pub enum Scope {
    All,
    Installed,
    Available,
    Upgrades,
    Upgradable,
}

impl Scope {
    /// The scope's lower-case wire name.
    pub open spec fn spec_name(self) -> Seq<char> {
        match self {
            Scope::All => "all"@,
            Scope::Installed => "installed"@,
            Scope::Available => "available"@,
            Scope::Upgrades => "upgrades"@,
            Scope::Upgradable => "upgradable"@,
        }
    }

    /// The scope's lower-case wire name.
    pub fn name_str(&self) -> (r: &'static str)
        ensures
            r@ == self.spec_name(),
    {
        match self {
            Scope::All => "all",
            Scope::Installed => "installed",
            Scope::Available => "available",
            Scope::Upgrades => "upgrades",
            Scope::Upgradable => "upgradable",
        }
    }

    /// The scope whose name matches `s` up to ASCII case; an
    /// unrecognized name falls back to the full scope.
    pub fn from(s: &str) -> (r: Scope)
        ensures
            r == spec_scope_from(s@),
    {
        if eq_ignore_ascii_case(s, "all") {
            Scope::All
        } else if eq_ignore_ascii_case(s, "installed") {
            Scope::Installed
        } else if eq_ignore_ascii_case(s, "available") {
            Scope::Available
        } else if eq_ignore_ascii_case(s, "upgrades") {
            Scope::Upgrades
        } else if eq_ignore_ascii_case(s, "upgradable") {
            Scope::Upgradable
        } else {
            Scope::All
        }
    }
}

/// The scope whose name matches `s` up to ASCII case, the full scope
/// when none does.
pub open spec fn spec_scope_from(s: Seq<char>) -> Scope {
    if fold_case(s) == fold_case("all"@) {
        Scope::All
    } else if fold_case(s) == fold_case("installed"@) {
        Scope::Installed
    } else if fold_case(s) == fold_case("available"@) {
        Scope::Available
    } else if fold_case(s) == fold_case("upgrades"@) {
        Scope::Upgrades
    } else if fold_case(s) == fold_case("upgradable"@) {
        Scope::Upgradable
    } else {
        Scope::All
    }
}

/// A package value object, built from one reply record.
#[derive(Debug, Clone)]
pub struct DnfPackage {
    pub name: String,
    pub arch: String,
    pub evr: String,
    pub repo_id: String,
    pub is_installed: bool,
    pub size: u64,
}

/// Whether `m` carries every attribute a package record needs, each with
/// its expected wire type.
pub open spec fn package_record_ok(m: AttrMap) -> bool {
    &&& spec_get_str(m, "name"@) is Some
    &&& spec_get_str(m, "arch"@) is Some
    &&& spec_get_str(m, "evr"@) is Some
    &&& spec_get_str(m, "repo_id"@) is Some
    &&& spec_get_bool(m, "is_installed"@) is Some
    &&& spec_get_u64(m, "install_size"@) is Some
}

/// The name of the first required attribute that `m` misses or carries
/// with the wrong wire type, in the record's field order.
pub open spec fn first_bad_attr(m: AttrMap) -> Seq<char> {
    if spec_get_str(m, "name"@) is None {
        "name"@
    } else if spec_get_str(m, "arch"@) is None {
        "arch"@
    } else if spec_get_str(m, "evr"@) is None {
        "evr"@
    } else if spec_get_str(m, "repo_id"@) is None {
        "repo_id"@
    } else if spec_get_bool(m, "is_installed"@) is None {
        "is_installed"@
    } else {
        "install_size"@
    }
}

/// The package record that a complete reply record `m` denotes.
pub open spec fn spec_package_from(m: AttrMap) -> DnfPackage {
    DnfPackage {
        name: spec_get_str(m, "name"@)->Some_0,
        arch: spec_get_str(m, "arch"@)->Some_0,
        evr: spec_get_str(m, "evr"@)->Some_0,
        repo_id: spec_get_str(m, "repo_id"@)->Some_0,
        is_installed: spec_get_bool(m, "is_installed"@)->Some_0,
        size: spec_get_u64(m, "install_size"@)->Some_0,
    }
}

impl DnfPackage {
    /// Builds a package record from one reply record.  A complete record
    /// round-trips its six attributes exactly; a record missing one, or
    /// carrying one with the wrong wire type, fails with
    /// [`Error::MalformedRecord`] naming the first such attribute.
    pub fn from(pkg: &AttrMap) -> (r: Result<DnfPackage, Error>)
        ensures
            package_record_ok(*pkg) ==> (r matches Ok(p) && p == spec_package_from(*pkg)),
            !package_record_ok(*pkg) ==> (r matches Err(e) && e matches Error::MalformedRecord(a)
                && a@ == first_bad_attr(*pkg)),
    {
        let name = match pkg.get_str("name") {
            Some(s) => s.clone(),
            None => {
                return Err(Error::MalformedRecord(String::from_str("name")));
            },
        };
        let arch = match pkg.get_str("arch") {
            Some(s) => s.clone(),
            None => {
                return Err(Error::MalformedRecord(String::from_str("arch")));
            },
        };
        let evr = match pkg.get_str("evr") {
            Some(s) => s.clone(),
            None => {
                return Err(Error::MalformedRecord(String::from_str("evr")));
            },
        };
        let repo_id = match pkg.get_str("repo_id") {
            Some(s) => s.clone(),
            None => {
                return Err(Error::MalformedRecord(String::from_str("repo_id")));
            },
        };
        let is_installed = match pkg.get_bool("is_installed") {
            Some(b) => b,
            None => {
                return Err(Error::MalformedRecord(String::from_str("is_installed")));
            },
        };
        let size = match pkg.get_u64("install_size") {
            Some(n) => n,
            None => {
                return Err(Error::MalformedRecord(String::from_str("install_size")));
            },
        };
        Ok(DnfPackage { name, arch, evr, repo_id, is_installed, size })
    }
}

/// A plain value in the option map of a remote call; the caller turns it
/// into the wire variant form.
#[derive(Debug, Clone)]
pub enum OptionValue {
    StrList(Vec<String>),
    Str(String),
    Bool(bool),
}

/// The options of the remote package-listing call.
#[derive(Debug, Clone)]
pub struct ListOptions {
    pub package_attrs: Vec<PackageAttr>,
    pub patterns: Vec<String>,
    pub scope: Scope,
    pub icase: bool,
    pub with_src: bool,
    pub with_nevra: bool,
    pub with_provides: bool,
    pub with_filenames: bool,
    pub with_binaries: bool,
}

impl ListOptions {
    /// A builder holding the listing call's defaults.
    pub fn builder() -> (b: ListOptionsBuilder)
        ensures
            builder_is_default(b),
    {
        ListOptionsBuilder::new()
    }

    /// The key/value pairs of the listing call's option map, in a fixed
    /// order: the requested attribute names, the scope's lower-case name,
    /// the patterns, and the six boolean switches.
    pub fn to_dbus(&self) -> (r: Vec<(String, OptionValue)>)
        ensures
            r@.len() == 9,
            r@[0].0@ == "package_attrs"@,
            r@[0].1 matches OptionValue::StrList(names) && names@.len() == self.package_attrs@.len()
                && forall|i: int| 0 <= i < names@.len()
                    ==> (#[trigger] names@[i])@ == self.package_attrs@[i].spec_name(),
            r@[1].0@ == "scope"@,
            r@[1].1 matches OptionValue::Str(s) && s@ == self.scope.spec_name(),
            r@[2].0@ == "patterns"@,
            r@[2].1 matches OptionValue::StrList(ps) && ps@ == self.patterns@,
            r@[3].0@ == "icase"@ && r@[3].1 == OptionValue::Bool(self.icase),
            r@[4].0@ == "with_src"@ && r@[4].1 == OptionValue::Bool(self.with_src),
            r@[5].0@ == "with_nevra"@ && r@[5].1 == OptionValue::Bool(self.with_nevra),
            r@[6].0@ == "with_provides"@ && r@[6].1 == OptionValue::Bool(self.with_provides),
            r@[7].0@ == "with_filenames"@ && r@[7].1 == OptionValue::Bool(self.with_filenames),
            r@[8].0@ == "with_binaries"@ && r@[8].1 == OptionValue::Bool(self.with_binaries),
    {
        let mut names: Vec<String> = Vec::new();
        let mut i: usize = 0;
        while i < self.package_attrs.len()
            invariant
                i <= self.package_attrs@.len(),
                names@.len() == i,
                forall|j: int| 0 <= j < i
                    ==> (#[trigger] names@[j])@ == self.package_attrs@[j].spec_name(),
            decreases self.package_attrs@.len() - i,
        {
            names.push(String::from_str(self.package_attrs[i].name_str()));
            i = i + 1;
        }
        let mut patterns: Vec<String> = Vec::new();
        let mut k: usize = 0;
        while k < self.patterns.len()
            invariant
                k <= self.patterns@.len(),
                patterns@ == self.patterns@.take(k as int),
            decreases self.patterns@.len() - k,
        {
            patterns.push(self.patterns[k].clone());
            proof {
                assert(patterns@ =~= self.patterns@.take(k + 1));
            }
            k = k + 1;
        }
        proof {
            assert(patterns@ =~= self.patterns@);
        }
        let mut out: Vec<(String, OptionValue)> = Vec::new();
        out.push((String::from_str("package_attrs"), OptionValue::StrList(names)));
        out.push((String::from_str("scope"), OptionValue::Str(String::from_str(self.scope.name_str()))));
        out.push((String::from_str("patterns"), OptionValue::StrList(patterns)));
        out.push((String::from_str("icase"), OptionValue::Bool(self.icase)));
        out.push((String::from_str("with_src"), OptionValue::Bool(self.with_src)));
        out.push((String::from_str("with_nevra"), OptionValue::Bool(self.with_nevra)));
        out.push((String::from_str("with_provides"), OptionValue::Bool(self.with_provides)));
        out.push((String::from_str("with_filenames"), OptionValue::Bool(self.with_filenames)));
        out.push((String::from_str("with_binaries"), OptionValue::Bool(self.with_binaries)));
        out
    }
}

/// Whether `b` still holds exactly the listing call's defaults: no
/// attributes, no patterns, the full scope, case-insensitive matching on,
/// source packages excluded, and nevra matching on.
pub open spec fn builder_is_default(b: ListOptionsBuilder) -> bool {
    &&& b.package_attrs@.len() == 0
    &&& b.patterns@.len() == 0
    &&& b.scope == Scope::All
    &&& b.icase
    &&& !b.with_src
    &&& b.with_nevra
    &&& !b.with_provides
    &&& !b.with_filenames
    &&& !b.with_binaries
}

/// Builder for [`ListOptions`].
#[derive(Debug)]
pub struct ListOptionsBuilder {
    pub package_attrs: Vec<PackageAttr>,
    pub patterns: Vec<String>,
    pub scope: Scope,
    pub icase: bool,
    pub with_src: bool,
    pub with_nevra: bool,
    pub with_provides: bool,
    pub with_filenames: bool,
    pub with_binaries: bool,
}

impl Default for ListOptionsBuilder {
    fn default() -> (b: Self)
        ensures
            builder_is_default(b),
    {
        Self::new()
    }
}

impl ListOptionsBuilder {
    /// A builder holding the listing call's defaults.
    pub fn new() -> (b: ListOptionsBuilder)
        ensures
            builder_is_default(b),
    {
        ListOptionsBuilder {
            package_attrs: Vec::new(),
            patterns: Vec::new(),
            scope: Scope::All,
            icase: true,
            with_src: false,
            with_nevra: true,
            with_provides: false,
            with_binaries: false,
            with_filenames: false,
        }
    }

    /// Appends `attrs` to the attributes the matched packages report.
    pub fn attrs(self, attrs: Vec<PackageAttr>) -> (r: ListOptionsBuilder)
        ensures
            r.package_attrs@ == self.package_attrs@ + attrs@,
            r.patterns == self.patterns,
            r.scope == self.scope,
            r.icase == self.icase,
            r.with_src == self.with_src,
            r.with_nevra == self.with_nevra,
            r.with_provides == self.with_provides,
            r.with_filenames == self.with_filenames,
            r.with_binaries == self.with_binaries,
    {
        let mut this = self;
        let mut i: usize = 0;
        while i < attrs.len()
            invariant
                i <= attrs@.len(),
                this.package_attrs@ == self.package_attrs@ + attrs@.take(i as int),
                this.patterns == self.patterns,
                this.scope == self.scope,
                this.icase == self.icase,
                this.with_src == self.with_src,
                this.with_nevra == self.with_nevra,
                this.with_provides == self.with_provides,
                this.with_filenames == self.with_filenames,
                this.with_binaries == self.with_binaries,
            decreases attrs@.len() - i,
        {
            this.package_attrs.push(attrs[i]);
            proof {
                assert(this.package_attrs@ =~= self.package_attrs@ + attrs@.take(i + 1));
            }
            i = i + 1;
        }
        proof {
            assert(this.package_attrs@ =~= self.package_attrs@ + attrs@);
        }
        this
    }

    /// Appends `patterns` to the patterns the listing matches against.
    pub fn patterns(self, patterns: &Vec<String>) -> (r: ListOptionsBuilder)
        ensures
            r.patterns@ == self.patterns@ + patterns@,
            r.package_attrs == self.package_attrs,
            r.scope == self.scope,
            r.icase == self.icase,
            r.with_src == self.with_src,
            r.with_nevra == self.with_nevra,
            r.with_provides == self.with_provides,
            r.with_filenames == self.with_filenames,
            r.with_binaries == self.with_binaries,
    {
        let mut this = self;
        let mut i: usize = 0;
        while i < patterns.len()
            invariant
                i <= patterns@.len(),
                this.patterns@ == self.patterns@ + patterns@.take(i as int),
                this.package_attrs == self.package_attrs,
                this.scope == self.scope,
                this.icase == self.icase,
                this.with_src == self.with_src,
                this.with_nevra == self.with_nevra,
                this.with_provides == self.with_provides,
                this.with_filenames == self.with_filenames,
                this.with_binaries == self.with_binaries,
            decreases patterns@.len() - i,
        {
            this.patterns.push(patterns[i].clone());
            proof {
                assert(this.patterns@ =~= self.patterns@ + patterns@.take(i + 1));
            }
            i = i + 1;
        }
        proof {
            assert(this.patterns@ =~= self.patterns@ + patterns@);
        }
        this
    }

    /// Sets the scope the listing searches in.
    pub fn scope(self, scope: Scope) -> (r: ListOptionsBuilder)
        ensures
            r.scope == scope,
            r.package_attrs == self.package_attrs,
            r.patterns == self.patterns,
            r.icase == self.icase,
            r.with_src == self.with_src,
            r.with_nevra == self.with_nevra,
            r.with_provides == self.with_provides,
            r.with_filenames == self.with_filenames,
            r.with_binaries == self.with_binaries,
    {
        let mut this = self;
        this.scope = scope;
        this
    }

    /// Builds the listing options from the applied settings.
    pub fn build(self) -> (o: ListOptions)
        ensures
            o.package_attrs == self.package_attrs,
            o.patterns == self.patterns,
            o.scope == self.scope,
            o.icase == self.icase,
            o.with_src == self.with_src,
            o.with_nevra == self.with_nevra,
            o.with_provides == self.with_provides,
            o.with_filenames == self.with_filenames,
            o.with_binaries == self.with_binaries,
    {
        ListOptions {
            package_attrs: self.package_attrs,
            patterns: self.patterns,
            icase: self.icase,
            with_src: self.with_src,
            scope: self.scope,
            with_binaries: self.with_binaries,
            with_filenames: self.with_filenames,
            with_nevra: self.with_nevra,
            with_provides: self.with_provides,
        }
    }
}

/// The options of the listing call that a package query issues: the fixed
/// attribute superset a package record needs, the caller's patterns, and
/// the caller's scope, on top of the defaults.  An empty pattern set is a
/// caller error and refuses with [`Error::InvalidArgument`] rather than
/// turning into an unscoped query.
pub fn query_options(patterns: &Vec<String>, scope: Scope) -> (r: Result<ListOptions, Error>)
    ensures
        patterns@.len() == 0 ==> (r matches Err(e) && e is InvalidArgument),
        patterns@.len() > 0 ==> (r matches Ok(o)
            && o.package_attrs@ == seq![
                PackageAttr::Name,
                PackageAttr::InstallSize,
                PackageAttr::Arch,
                PackageAttr::Evr,
                PackageAttr::RepoId,
                PackageAttr::IsInstalled,
            ]
            && o.patterns@ == patterns@
            && o.scope == scope
            && o.icase
            && !o.with_src
            && o.with_nevra
            && !o.with_provides
            && !o.with_filenames
            && !o.with_binaries),
{
    if patterns.len() == 0 {
        return Err(Error::InvalidArgument);
    }
    let mut attrs: Vec<PackageAttr> = Vec::new();
    attrs.push(PackageAttr::Name);
    attrs.push(PackageAttr::InstallSize);
    attrs.push(PackageAttr::Arch);
    attrs.push(PackageAttr::Evr);
    attrs.push(PackageAttr::RepoId);
    attrs.push(PackageAttr::IsInstalled);
    let options = ListOptions::builder().attrs(attrs).patterns(patterns).scope(scope).build();
    proof {
        assert(options.package_attrs@ =~= seq![
            PackageAttr::Name,
            PackageAttr::InstallSize,
            PackageAttr::Arch,
            PackageAttr::Evr,
            PackageAttr::RepoId,
            PackageAttr::IsInstalled,
        ]);
        assert(options.patterns@ =~= patterns@);
    }
    Ok(options)
}

/// Maps each reply record of a listing to a package record.  One
/// malformed record fails the whole batch, so a caller can trust a
/// successful result to be complete.
pub fn build_packages(pkgs: &ListResults) -> (r: Result<Vec<DnfPackage>, Error>)
    ensures
        (r is Ok) == (forall|i: int|
            0 <= i < pkgs.items@.len() ==> #[trigger] package_record_ok(pkgs.items@[i])),
        r matches Ok(v) ==> v@.len() == pkgs.items@.len()
            && forall|i: int| 0 <= i < v@.len()
                ==> #[trigger] v@[i] == spec_package_from(pkgs.items@[i]),
        r matches Err(e) ==> exists|i: int|
            0 <= i < pkgs.items@.len()
            && !package_record_ok(#[trigger] pkgs.items@[i])
            && (forall|j: int| 0 <= j < i ==> package_record_ok(#[trigger] pkgs.items@[j]))
            && (e matches Error::MalformedRecord(a) && a@ == first_bad_attr(pkgs.items@[i])),
{
    let mut out: Vec<DnfPackage> = Vec::new();
    let mut i: usize = 0;
    while i < pkgs.items.len()
        invariant
            i <= pkgs.items@.len(),
            out@.len() == i,
            forall|j: int| 0 <= j < i ==> #[trigger] package_record_ok(pkgs.items@[j]),
            forall|j: int| 0 <= j < i ==> #[trigger] out@[j] == spec_package_from(pkgs.items@[j]),
        decreases pkgs.items@.len() - i,
    {
        match DnfPackage::from(&pkgs.items[i]) {
            Ok(p) => {
                out.push(p);
            },
            Err(e) => {
                return Err(e);
            },
        }
        i = i + 1;
    }
    Ok(out)
}

} // verus!
