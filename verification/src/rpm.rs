//! One package entry of an advisory.

use crate::event::{attributes_view, Attribute, AttributeView};
use crate::text::str_eq;
use vstd::prelude::*;
use vstd::string::*;

verus! {

/// What an [`RpmInfo`] holds, as sequences of characters.
pub struct RpmInfoView {
    pub name: Seq<char>,
    pub epoch: Seq<char>,
    pub version: Seq<char>,
    pub release: Seq<char>,
    pub arch: Seq<char>,
    pub file: Seq<char>,
    pub sa: Seq<char>,
}

impl RpmInfoView {
    /// The entry in which every field is empty.
    pub open spec fn empty() -> RpmInfoView {
        RpmInfoView {
            name: Seq::empty(),
            epoch: Seq::empty(),
            version: Seq::empty(),
            release: Seq::empty(),
            arch: Seq::empty(),
            file: Seq::empty(),
            sa: Seq::empty(),
        }
    }

    /// The entry after the field called `key` has been given `value`.
    /// A key that names no field leaves the entry as it is.
    pub open spec fn set(self, key: Seq<char>, value: Seq<char>) -> RpmInfoView {
        if key == "name"@ {
            RpmInfoView { name: value, ..self }
        } else if key == "epoch"@ {
            RpmInfoView { epoch: value, ..self }
        } else if key == "version"@ {
            RpmInfoView { version: value, ..self }
        } else if key == "release"@ {
            RpmInfoView { release: value, ..self }
        } else if key == "arch"@ {
            RpmInfoView { arch: value, ..self }
        } else if key == "file"@ {
            RpmInfoView { file: value, ..self }
        } else if key == "sa"@ {
            RpmInfoView { sa: value, ..self }
        } else {
            self
        }
    }

    /// The entry after each attribute, in order, has been handed to
    /// [`RpmInfoView::set`] with its name as the key.
    pub open spec fn with_attributes(self, attributes: Seq<AttributeView>) -> RpmInfoView {
        attributes.fold_left(self, |pkg: RpmInfoView, a: AttributeView| pkg.set(a.name, a.value))
    }

    /// The entry with `file` as its file name and `sa` as the identifier of
    /// the advisory that lists it.
    pub open spec fn complete(self, file: Seq<char>, sa: Seq<char>) -> RpmInfoView {
        RpmInfoView { file: file, sa: sa, ..self }
    }

    /// Whether the entry carries an epoch: an empty epoch stands for none.
    pub open spec fn has_epoch(self) -> bool {
        self.epoch.len() > 0
    }

    /// `epoch:version-release`, or `version-release` where there is no epoch.
    pub open spec fn evr(self) -> Seq<char> {
        if self.has_epoch() {
            self.epoch + seq![':'] + self.version + seq!['-'] + self.release
        } else {
            self.version + seq!['-'] + self.release
        }
    }

    /// `name-evr-arch`.
    pub open spec fn nevra(self) -> Seq<char> {
        self.name + seq!['-'] + self.evr() + seq!['-'] + self.arch
    }
}

/// An RPM-like package named by an advisory.
///
/// `sa` repeats the identifier of the advisory that lists the package, so
/// that an entry can be read on its own.
#[derive(Debug, Clone, PartialEq, Eq)]
pub struct RpmInfo {
    name: String,
    epoch: String,
    version: String,
    release: String,
    arch: String,
    file: String,
    sa: String,
}

impl View for RpmInfo {
    type V = RpmInfoView;

    closed spec fn view(&self) -> RpmInfoView {
        RpmInfoView {
            name: self.name@,
            epoch: self.epoch@,
            version: self.version@,
            release: self.release@,
            arch: self.arch@,
            file: self.file@,
            sa: self.sa@,
        }
    }
}

/// The entries of a package list, in order.
pub open spec fn packages_view(packages: Seq<RpmInfo>) -> Seq<RpmInfoView> {
    packages.map_values(|pkg: RpmInfo| pkg@)
}

impl RpmInfo {
    /// An entry with every field empty.
    pub fn new() -> (pkg: RpmInfo)
        ensures
            pkg@ == RpmInfoView::empty(),
    {
        RpmInfo {
            name: String::new(),
            epoch: String::new(),
            version: String::new(),
            release: String::new(),
            arch: String::new(),
            file: String::new(),
            sa: String::new(),
        }
    }

    /// Gives the field called `key` the value `value`. The keys are `name`,
    /// `epoch`, `version`, `release`, `arch`, `file` and `sa`; any other key
    /// is dropped and the entry stays as it was.
    pub fn set(&mut self, key: &str, value: String)
        ensures
            final(self)@ == old(self)@.set(key@, value@),
    {
        if str_eq(key, "name") {
            self.name = value;
        } else if str_eq(key, "epoch") {
            self.epoch = value;
        } else if str_eq(key, "version") {
            self.version = value;
        } else if str_eq(key, "release") {
            self.release = value;
        } else if str_eq(key, "arch") {
            self.arch = value;
        } else if str_eq(key, "file") {
            self.file = value;
        } else if str_eq(key, "sa") {
            self.sa = value;
        }
    }

    /// The package name.
    pub fn name(&self) -> (name: &str)
        ensures
            name@ == self@.name,
    {
        self.name.as_str()
    }

    /// The epoch, if the entry has one: an empty epoch stands for none.
    pub fn epoch(&self) -> (epoch: Option<&str>)
        ensures
            match epoch {
                Some(text) => self@.has_epoch() && text@ == self@.epoch,
                None => !self@.has_epoch(),
            },
    {
        if self.epoch.as_str().is_empty() {
            None
        } else {
            Some(self.epoch.as_str())
        }
    }

    /// The upstream version.
    pub fn version(&self) -> (version: &str)
        ensures
            version@ == self@.version,
    {
        self.version.as_str()
    }

    /// The package release.
    pub fn release(&self) -> (release: &str)
        ensures
            release@ == self@.release,
    {
        self.release.as_str()
    }

    /// The architecture the package is built for.
    pub fn arch(&self) -> (arch: &str)
        ensures
            arch@ == self@.arch,
    {
        self.arch.as_str()
    }

    /// The name of the package file.
    pub fn file(&self) -> (file: &str)
        ensures
            file@ == self@.file,
    {
        self.file.as_str()
    }

    /// The identifier of the advisory that lists the package.
    pub fn sa(&self) -> (sa: &str)
        ensures
            sa@ == self@.sa,
    {
        self.sa.as_str()
    }

    /// `epoch:version-release` if the entry has an epoch, else
    /// `version-release`.
    pub fn evr(&self) -> (evr: String)
        ensures
            evr@ == self@.evr(),
    {
        let mut evr = String::new();
        if self.epoch().is_some() {
            evr.append(self.epoch.as_str());
            evr.append(":");
        }
        evr.append(self.version.as_str());
        evr.append("-");
        evr.append(self.release.as_str());
        proof {
            reveal_strlit(":");
            reveal_strlit("-");
            assert(":"@ =~= seq![':']);
            assert("-"@ =~= seq!['-']);
            assert(evr@ =~= self@.evr());
        }
        evr
    }

    /// `name-evr-arch`, with `evr` as [`RpmInfo::evr`] gives it.
    pub fn nevra(&self) -> (nevra: String)
        ensures
            nevra@ == self@.nevra(),
    {
        let evr = self.evr();
        let mut nevra = String::new();
        nevra.append(self.name.as_str());
        nevra.append("-");
        nevra.append(evr.as_str());
        nevra.append("-");
        nevra.append(self.arch.as_str());
        proof {
            reveal_strlit("-");
            assert("-"@ =~= seq!['-']);
            assert(nevra@ =~= self@.nevra());
        }
        nevra
    }

    /// Builds an entry from the attributes of a `package` element: each
    /// attribute is handed to [`RpmInfo::set`] under its own name, in
    /// document order, so a later attribute of the same name wins and an
    /// attribute that names no field is dropped.
    pub fn from_attributes(attributes: &Vec<Attribute>) -> (pkg: RpmInfo)
        ensures
            pkg@ == RpmInfoView::empty().with_attributes(attributes_view(attributes@)),
    {
        let ghost all = attributes_view(attributes@);
        let mut pkg = RpmInfo::new();
        let mut i: usize = 0;
        while i < attributes.len()
            invariant
                i <= attributes.len(),
                all == attributes_view(attributes@),
                pkg@ == RpmInfoView::empty().with_attributes(all.take(i as int)),
            decreases attributes.len() - i,
        {
            pkg.set(attributes[i].name.as_str(), attributes[i].value.clone());
            proof {
                assert(all.take(i + 1).drop_last() =~= all.take(i as int));
            }
            i += 1;
        }
        proof {
            assert(all.take(i as int) =~= all);
        }
        pkg
    }

    /// Completes an entry decoded from a `package` element with the file
    /// name that follows its attributes and the identifier of the advisory
    /// that lists it.
    pub fn complete(&mut self, file: String, sa: String)
        ensures
            final(self)@ == old(self)@.complete(file@, sa@),
    {
        proof {
            lemma_field_names_differ();
        }
        self.set("file", file);
        self.set("sa", sa);
    }
}

/// The seven field names are pairwise different.
pub proof fn lemma_field_names_differ()
    ensures
        "name"@ != "epoch"@,
        "name"@ != "version"@,
        "name"@ != "release"@,
        "name"@ != "arch"@,
        "name"@ != "file"@,
        "name"@ != "sa"@,
        "epoch"@ != "version"@,
        "epoch"@ != "release"@,
        "epoch"@ != "arch"@,
        "epoch"@ != "file"@,
        "epoch"@ != "sa"@,
        "version"@ != "release"@,
        "version"@ != "arch"@,
        "version"@ != "file"@,
        "version"@ != "sa"@,
        "release"@ != "arch"@,
        "release"@ != "file"@,
        "release"@ != "sa"@,
        "arch"@ != "file"@,
        "arch"@ != "sa"@,
        "file"@ != "sa"@,
{
    reveal_strlit("name");
    reveal_strlit("epoch");
    reveal_strlit("version");
    reveal_strlit("release");
    reveal_strlit("arch");
    reveal_strlit("file");
    reveal_strlit("sa");
    assert("name"@.len() == 4 && "name"@[0] == 'n');
    assert("epoch"@.len() == 5);
    assert("version"@.len() == 7 && "version"@[0] == 'v');
    assert("release"@.len() == 7 && "release"@[0] == 'r');
    assert("arch"@.len() == 4 && "arch"@[0] == 'a');
    assert("file"@.len() == 4 && "file"@[0] == 'f');
    assert("sa"@.len() == 2);
}

} // verus!
