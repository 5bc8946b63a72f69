//! One security advisory and the steps that fill it in.

use crate::event::{attributes_view, Attribute, AttributeView};
use crate::rpm::{packages_view, RpmInfo, RpmInfoView};
use crate::severity::Severity;
use crate::text::str_eq;
use vstd::prelude::*;

verus! {

/// The free-text fields of an advisory, each read from the character data of
/// the child element of the same name.
#[derive(Debug, Clone, Copy, PartialEq, Eq, Hash, Structural)]
pub enum Field {
    Id,
    Title,
    Release,
    Description,
}

/// What an [`UpdateInfo`] holds, as sequences.
pub struct UpdateInfoView {
    pub id: Seq<char>,
    pub title: Seq<char>,
    pub severity: Severity,
    pub release: Seq<char>,
    pub cves: Seq<Seq<char>>,
    pub description: Seq<char>,
    pub pkglist: Seq<RpmInfoView>,
}

/// The CVE identifiers that the attributes of one element carry: the values
/// of the attributes named `id`, in document order.
pub open spec fn cve_ids(attributes: Seq<AttributeView>) -> Seq<Seq<char>> {
    attributes.filter(|a: AttributeView| a.name == "id"@).map_values(|a: AttributeView| a.value)
}

impl UpdateInfoView {
    /// The advisory with no text, no CVE, no package and unknown severity.
    pub open spec fn empty() -> UpdateInfoView {
        UpdateInfoView {
            id: Seq::empty(),
            title: Seq::empty(),
            severity: Severity::Unknown,
            release: Seq::empty(),
            cves: Seq::empty(),
            description: Seq::empty(),
            pkglist: Seq::empty(),
        }
    }

    /// The advisory after `field` has been given `text`.
    pub open spec fn with_text(self, field: Field, text: Seq<char>) -> UpdateInfoView {
        match field {
            Field::Id => UpdateInfoView { id: text, ..self },
            Field::Title => UpdateInfoView { title: text, ..self },
            Field::Release => UpdateInfoView { release: text, ..self },
            Field::Description => UpdateInfoView { description: text, ..self },
        }
    }

    /// The advisory after one element of its `references` subtree has been
    /// read: the identifiers among `attributes` join the CVE list at its end.
    /// Nothing is removed, so an identifier may occur more than once.
    pub open spec fn with_references(self, attributes: Seq<AttributeView>) -> UpdateInfoView {
        UpdateInfoView { cves: self.cves + cve_ids(attributes), ..self }
    }

    /// The advisory after a package has joined its list. The package takes
    /// `file` as its file name and the advisory's present `id` as its `sa`.
    pub open spec fn with_package(self, pkg: RpmInfoView, file: Seq<char>) -> UpdateInfoView {
        UpdateInfoView { pkglist: self.pkglist.push(pkg.complete(file, self.id)), ..self }
    }

    /// Every package of the list names this advisory in its `sa`.
    pub open spec fn packages_name_advisory(self) -> bool {
        forall|i: int| 0 <= i < self.pkglist.len() ==> (#[trigger] self.pkglist[i]).sa == self.id
    }
}

/// The strings of a list, in order, each as its characters.
pub open spec fn strings_view(strings: Seq<String>) -> Seq<Seq<char>> {
    strings.map_values(|s: String| s@)
}

/// One security advisory: its identifier, title, severity and target
/// release, the CVEs it refers to, its description and the packages that
/// carry the fix.
#[derive(Debug, Clone, PartialEq, Eq)]
pub struct UpdateInfo {
    id: String,
    title: String,
    severity: Severity,
    release: String,
    cves: Vec<String>,
    description: String,
    pkglist: Vec<RpmInfo>,
}

impl View for UpdateInfo {
    type V = UpdateInfoView;

    closed spec fn view(&self) -> UpdateInfoView {
        UpdateInfoView {
            id: self.id@,
            title: self.title@,
            severity: self.severity,
            release: self.release@,
            cves: strings_view(self.cves@),
            description: self.description@,
            pkglist: packages_view(self.pkglist@),
        }
    }
}

/// Reading one more attribute adds its value to the identifiers exactly when
/// the attribute is named `id`.
pub proof fn lemma_cve_ids_push(attributes: Seq<AttributeView>, last: AttributeView)
    ensures
        cve_ids(attributes.push(last)) == if last.name == "id"@ {
            cve_ids(attributes).push(last.value)
        } else {
            cve_ids(attributes)
        },
{
    reveal(Seq::filter);
    let named_id = |a: AttributeView| a.name == "id"@;
    assert(attributes.push(last).drop_last() =~= attributes);
    if last.name == "id"@ {
        assert(attributes.push(last).filter(named_id) == attributes.filter(named_id).push(last));
        assert(cve_ids(attributes.push(last)) =~= cve_ids(attributes).push(last.value));
    } else {
        assert(attributes.push(last).filter(named_id) == attributes.filter(named_id));
    }
}

impl UpdateInfo {
    /// An advisory with every field empty and unknown severity.
    pub fn new() -> (advisory: UpdateInfo)
        ensures
            advisory@ == UpdateInfoView::empty(),
    {
        let advisory = UpdateInfo {
            id: String::new(),
            title: String::new(),
            severity: Severity::new(),
            release: String::new(),
            cves: Vec::new(),
            description: String::new(),
            pkglist: Vec::new(),
        };
        assert(advisory@.cves =~= Seq::empty());
        assert(advisory@.pkglist =~= Seq::empty());
        advisory
    }

    /// An advisory with the given fields.
    pub fn from_parts(
        id: String,
        title: String,
        severity: Severity,
        release: String,
        cves: Vec<String>,
        description: String,
        pkglist: Vec<RpmInfo>,
    ) -> (advisory: UpdateInfo)
        ensures
            advisory@ == (UpdateInfoView {
                id: id@,
                title: title@,
                severity: severity,
                release: release@,
                cves: strings_view(cves@),
                description: description@,
                pkglist: packages_view(pkglist@),
            }),
    {
        UpdateInfo { id, title, severity, release, cves, description, pkglist }
    }

    /// The identifier of the advisory.
    pub fn id(&self) -> (id: &str)
        ensures
            id@ == self@.id,
    {
        self.id.as_str()
    }

    /// The title of the advisory.
    pub fn title(&self) -> (title: &str)
        ensures
            title@ == self@.title,
    {
        self.title.as_str()
    }

    /// The severity of the advisory.
    pub fn severity(&self) -> (level: Severity)
        ensures
            level == self@.severity,
    {
        self.severity
    }

    /// The distribution or product the advisory is for.
    pub fn release(&self) -> (release: &str)
        ensures
            release@ == self@.release,
    {
        self.release.as_str()
    }

    /// The CVE identifiers the advisory refers to, in document order.
    pub fn cves(&self) -> (cves: &Vec<String>)
        ensures
            strings_view(cves@) == self@.cves,
    {
        &self.cves
    }

    /// The description of the advisory.
    pub fn description(&self) -> (description: &str)
        ensures
            description@ == self@.description,
    {
        self.description.as_str()
    }

    /// The packages that carry the fix, in document order.
    pub fn pkglist(&self) -> (pkglist: &Vec<RpmInfo>)
        ensures
            packages_view(pkglist@) == self@.pkglist,
    {
        &self.pkglist
    }

    /// Gives the free-text field `field` the value `text`.
    pub fn set_text(&mut self, field: Field, text: String)
        ensures
            final(self)@ == old(self)@.with_text(field, text@),
    {
        match field {
            Field::Id => {
                self.id = text;
            },
            Field::Title => {
                self.title = text;
            },
            Field::Release => {
                self.release = text;
            },
            Field::Description => {
                self.description = text;
            },
        }
    }

    /// Records the severity of the advisory.
    pub fn set_severity(&mut self, level: Severity)
        ensures
            final(self)@ == (UpdateInfoView { severity: level, ..old(self)@ }),
    {
        self.severity = level;
    }

    /// Takes in one element of the `references` subtree: the value of each
    /// attribute named `id` is appended to the CVE list, in document order.
    /// Other attributes are passed over.
    pub fn push_cves(&mut self, attributes: &Vec<Attribute>)
        ensures
            final(self)@ == old(self)@.with_references(attributes_view(attributes@)),
    {
        let ghost all = attributes_view(attributes@);
        let ghost before = self@;
        let mut i: usize = 0;
        proof {
            reveal(Seq::filter);
            assert(before.cves + cve_ids(all.take(0)) =~= before.cves);
        }
        while i < attributes.len()
            invariant
                i <= attributes.len(),
                all == attributes_view(attributes@),
                self@ == (UpdateInfoView {
                    cves: before.cves + cve_ids(all.take(i as int)),
                    ..before
                }),
            decreases attributes.len() - i,
        {
            proof {
                lemma_cve_ids_push(all.take(i as int), all[i as int]);
                assert(all.take(i + 1) =~= all.take(i as int).push(all[i as int]));
            }
            if str_eq(attributes[i].name.as_str(), "id") {
                let ghost cves = self@.cves;
                self.cves.push(attributes[i].value.clone());
                assert(self@.cves =~= cves.push(attributes[i as int].value@));
                assert(self@.cves =~= before.cves + cve_ids(all.take(i + 1)));
            }
            i += 1;
        }
        proof {
            assert(all.take(i as int) =~= all);
        }
    }

    /// Takes in one `package` element of the `pkglist` subtree. `pkg` holds
    /// what the element's attributes gave; it receives `file` as its file
    /// name and this advisory's present identifier as its `sa`, and joins
    /// the package list at its end.
    pub fn push_package(&mut self, pkg: RpmInfo, file: String)
        ensures
            final(self)@ == old(self)@.with_package(pkg@, file@),
    {
        let mut pkg = pkg;
        let ghost list = self@.pkglist;
        pkg.complete(file, self.id.clone());
        self.pkglist.push(pkg);
        assert(self@.pkglist =~= list.push(pkg@));
    }
}

} // verus!
