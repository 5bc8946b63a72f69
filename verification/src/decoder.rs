//! The decoder: which reader operation comes next, and what each answer
//! does to the advisories being built.
//!
//! A document is a list of advisory elements at nesting depth 2. Each holds
//! scalar children (`id`, `title`, `severity`, `release`, `description`) and
//! two subtrees, `references` and `pkglist`, which are read event by event
//! for as long as the reader stays at depth 3 or deeper.

use crate::advisory::{Field, UpdateInfo, UpdateInfoView};
use crate::event::{
    Event, EventView, LoadError, Reply, ReplyView, Request, ADVISORY_DEPTH, CHILD_DEPTH,
    SUBTREE_DEPTH,
};
use crate::rpm::{RpmInfo, RpmInfoView};
use crate::text::str_eq;
use vstd::prelude::*;

verus! {

/// Where in the document the decoder stands, which is also what it is
/// waiting for.
#[derive(Debug, Clone, Copy, PartialEq, Eq, Hash, Structural)]
pub enum Phase {
    /// Between advisories, about to advance by one event.
    Document,
    /// Between advisories, about to look at the depth the last event led to;
    /// `at_end` tells whether that event was the end of the document.
    DocumentDepth { at_end: bool },
    /// Inside an advisory, about to look for its next child element.
    Advisory,
    /// Inside a free-text child, about to read its characters.
    Text(Field),
    /// Inside the `severity` child, about to read and parse its characters.
    SeverityText,
    /// Inside `references`, about to look at the depth.
    ReferencesDepth,
    /// Inside `references`, about to advance by one event.
    References,
    /// Inside `pkglist`, about to look at the depth.
    PackagesDepth,
    /// Inside `pkglist`, about to advance by one event.
    Packages,
    /// Inside a `package` element, about to read its file name.
    PackageFile,
    /// The end of the document has been seen.
    Done,
    /// The load has failed.
    Failed(LoadError),
}

impl Phase {
    /// No reply changes a decoder in this phase any more.
    pub open spec fn is_final(self) -> bool {
        self is Done || self is Failed
    }

    /// The phase lies between the opening of an advisory and its close.
    pub open spec fn in_advisory(self) -> bool {
        !(self is Document || self is DocumentDepth || self is Done || self is Failed)
    }

    /// The phase lies inside the `references` subtree of an advisory.
    pub open spec fn in_references(self) -> bool {
        self is ReferencesDepth || self is References
    }

    /// The phase lies inside the `pkglist` subtree of an advisory.
    pub open spec fn in_packages(self) -> bool {
        self is PackagesDepth || self is Packages || self is PackageFile
    }
}

/// The phase that the child element called `key` leads to. A child of any
/// other name is passed over: the decoder looks for the next one.
pub open spec fn child_phase(key: Seq<char>) -> Phase {
    if key == "id"@ {
        Phase::Text(Field::Id)
    } else if key == "title"@ {
        Phase::Text(Field::Title)
    } else if key == "severity"@ {
        Phase::SeverityText
    } else if key == "release"@ {
        Phase::Text(Field::Release)
    } else if key == "description"@ {
        Phase::Text(Field::Description)
    } else if key == "references"@ {
        Phase::ReferencesDepth
    } else if key == "pkglist"@ {
        Phase::PackagesDepth
    } else {
        Phase::Advisory
    }
}

/// The state of a [`Decoder`], as sequences.
pub struct DecoderView {
    /// The advisories that have closed, in document order.
    pub advisories: Seq<UpdateInfoView>,
    /// The advisory that is open, or an empty one between advisories.
    pub current: UpdateInfoView,
    /// What the attributes of the open `package` element gave.
    pub package: RpmInfoView,
    pub phase: Phase,
}

impl DecoderView {
    /// The decoder before anything has been read.
    pub open spec fn initial() -> DecoderView {
        DecoderView {
            advisories: Seq::empty(),
            current: UpdateInfoView::empty(),
            package: RpmInfoView::empty(),
            phase: Phase::Document,
        }
    }

    /// The operation the decoder is waiting on.
    pub open spec fn request(self) -> Request {
        match self.phase {
            Phase::Document | Phase::References | Phase::Packages => Request::Next,
            Phase::DocumentDepth { .. } | Phase::ReferencesDepth | Phase::PackagesDepth =>
                Request::Depth,
            Phase::Advisory => Request::StartName { under_depth: CHILD_DEPTH },
            Phase::Text(_) | Phase::PackageFile => Request::Characters,
            Phase::SeverityText => Request::Severity,
            Phase::Done => Request::Done,
            Phase::Failed(error) => Request::Failed(error),
        }
    }

    /// The same decoder in another phase.
    pub open spec fn at(self, phase: Phase) -> DecoderView {
        DecoderView { phase: phase, ..self }
    }

    /// The decoder after a reply that does not answer its request.
    pub open spec fn unexpected(self) -> DecoderView {
        self.at(Phase::Failed(LoadError::UnexpectedReply))
    }

    /// Between advisories. An advisory opens exactly when an event leads to
    /// depth 2, whatever the event was; at any other depth the event is
    /// passed over, and the end of the document ends the load.
    pub open spec fn document_step(self, reply: ReplyView) -> DecoderView {
        match (self.phase, reply) {
            (Phase::Document, ReplyView::Event(event)) => self.at(
                Phase::DocumentDepth { at_end: event is EndDocument },
            ),
            (Phase::DocumentDepth { at_end }, ReplyView::Depth(depth)) => if depth
                == ADVISORY_DEPTH {
                DecoderView { current: UpdateInfoView::empty(), phase: Phase::Advisory, ..self }
            } else if at_end {
                self.at(Phase::Done)
            } else {
                self.at(Phase::Document)
            },
            _ => self.unexpected(),
        }
    }

    /// Among the children of an advisory. The name of a child decides what
    /// is read next; when no child is left the advisory closes and joins
    /// the list. A severity that the reader could not parse fails the load.
    pub open spec fn advisory_step(self, reply: ReplyView) -> DecoderView {
        match (self.phase, reply) {
            (Phase::Advisory, ReplyView::StartName(Some(key))) => self.at(child_phase(key)),
            (Phase::Advisory, ReplyView::StartName(None)) => DecoderView {
                advisories: self.advisories.push(self.current),
                current: UpdateInfoView::empty(),
                phase: Phase::Document,
                ..self
            },
            (Phase::Text(field), ReplyView::Characters(text)) => DecoderView {
                current: self.current.with_text(field, text),
                phase: Phase::Advisory,
                ..self
            },
            (Phase::SeverityText, ReplyView::Severity(Some(level))) => DecoderView {
                current: UpdateInfoView { severity: level, ..self.current },
                phase: Phase::Advisory,
                ..self
            },
            (Phase::SeverityText, ReplyView::Severity(None)) => self.at(
                Phase::Failed(LoadError::UnknownSeverity),
            ),
            _ => self.unexpected(),
        }
    }

    /// Inside `references`. The subtree is left as soon as the depth falls
    /// below 3. Until then each start element gives its `id` attributes to
    /// the CVE list, other events are passed over, and an event that could
    /// not be read ends the subtree early with what was collected.
    pub open spec fn references_step(self, reply: ReplyView) -> DecoderView {
        match (self.phase, reply) {
            (Phase::ReferencesDepth, ReplyView::Depth(depth)) => if depth < SUBTREE_DEPTH {
                self.at(Phase::Advisory)
            } else {
                self.at(Phase::References)
            },
            (Phase::References, ReplyView::Event(EventView::StartElement { attributes, .. })) =>
                DecoderView {
                    current: self.current.with_references(attributes),
                    phase: Phase::ReferencesDepth,
                    ..self
                },
            (Phase::References, ReplyView::Event(EventView::Failure)) => self.at(Phase::Advisory),
            (Phase::References, ReplyView::Event(_)) => self.at(Phase::ReferencesDepth),
            _ => self.unexpected(),
        }
    }

    /// Inside `pkglist`. The subtree is left as soon as the depth falls
    /// below 3. Until then each `package` element gives one package, built
    /// from its attributes and the characters that follow; other elements
    /// and events are passed over, and an event that could not be read ends
    /// the subtree early with what was collected.
    pub open spec fn packages_step(self, reply: ReplyView) -> DecoderView {
        match (self.phase, reply) {
            (Phase::PackagesDepth, ReplyView::Depth(depth)) => if depth < SUBTREE_DEPTH {
                self.at(Phase::Advisory)
            } else {
                self.at(Phase::Packages)
            },
            (Phase::Packages, ReplyView::Event(EventView::StartElement { name, attributes })) =>
                if name == "package"@ {
                    DecoderView {
                        package: RpmInfoView::empty().with_attributes(attributes),
                        phase: Phase::PackageFile,
                        ..self
                    }
                } else {
                    self.at(Phase::PackagesDepth)
                },
            (Phase::Packages, ReplyView::Event(EventView::Failure)) => self.at(Phase::Advisory),
            (Phase::Packages, ReplyView::Event(_)) => self.at(Phase::PackagesDepth),
            (Phase::PackageFile, ReplyView::Characters(file)) => DecoderView {
                current: self.current.with_package(self.package, file),
                package: RpmInfoView::empty(),
                phase: Phase::PackagesDepth,
                ..self
            },
            _ => self.unexpected(),
        }
    }

    /// The decoder after one reply. Once the load is done or has failed no
    /// reply changes it.
    pub open spec fn respond(self, reply: ReplyView) -> DecoderView {
        match self.phase {
            Phase::Done | Phase::Failed(_) => self,
            Phase::Document | Phase::DocumentDepth { .. } => self.document_step(reply),
            Phase::Advisory | Phase::Text(_) | Phase::SeverityText => self.advisory_step(reply),
            Phase::ReferencesDepth | Phase::References => self.references_step(reply),
            Phase::PackagesDepth | Phase::Packages | Phase::PackageFile => self.packages_step(
                reply,
            ),
        }
    }

    /// The decoder after a run of replies, taken in order.
    pub open spec fn run(self, replies: Seq<ReplyView>) -> DecoderView {
        replies.fold_left(self, |state: DecoderView, reply: ReplyView| state.respond(reply))
    }

    /// What the load comes to if it stops here: the advisories once the end
    /// of the document has been seen, else the reason there are none.
    pub open spec fn outcome(self) -> Result<Seq<UpdateInfoView>, LoadError> {
        match self.phase {
            Phase::Done => Ok(self.advisories),
            Phase::Failed(error) => Err(error),
            _ => Err(LoadError::Truncated),
        }
    }
}

/// The advisories of a list, in order.
pub open spec fn advisories_view(advisories: Seq<UpdateInfo>) -> Seq<UpdateInfoView> {
    advisories.map_values(|advisory: UpdateInfo| advisory@)
}

/// Decodes one document from the answers of an XML reader.
///
/// The caller asks [`Decoder::request`] what to do on the reader, does it,
/// and passes the answer to [`Decoder::respond`], until the request is
/// [`Request::Done`] or [`Request::Failed`].
#[derive(Debug)]
pub struct Decoder {
    advisories: Vec<UpdateInfo>,
    current: UpdateInfo,
    package: RpmInfo,
    phase: Phase,
}

impl View for Decoder {
    type V = DecoderView;

    closed spec fn view(&self) -> DecoderView {
        DecoderView {
            advisories: advisories_view(self.advisories@),
            current: self.current@,
            package: self.package@,
            phase: self.phase,
        }
    }
}

impl Decoder {
    /// A decoder at the start of a document.
    pub fn new() -> (decoder: Decoder)
        ensures
            decoder@ == DecoderView::initial(),
    {
        let decoder = Decoder {
            advisories: Vec::new(),
            current: UpdateInfo::new(),
            package: RpmInfo::new(),
            phase: Phase::Document,
        };
        assert(decoder@.advisories =~= Seq::empty());
        decoder
    }

    /// The operation to perform on the reader next.
    pub fn request(&self) -> (request: Request)
        ensures
            request == self@.request(),
    {
        match self.phase {
            Phase::Document | Phase::References | Phase::Packages => Request::Next,
            Phase::DocumentDepth { .. } | Phase::ReferencesDepth | Phase::PackagesDepth =>
                Request::Depth,
            Phase::Advisory => Request::StartName { under_depth: CHILD_DEPTH },
            Phase::Text(_) | Phase::PackageFile => Request::Characters,
            Phase::SeverityText => Request::Severity,
            Phase::Done => Request::Done,
            Phase::Failed(error) => Request::Failed(error),
        }
    }

    /// Takes in the reader's answer to the pending request.
    pub fn respond(&mut self, reply: Reply)
        ensures
            final(self)@ == old(self)@.respond(reply@),
    {
        match self.phase {
            Phase::Done | Phase::Failed(_) => {},
            Phase::Document | Phase::DocumentDepth { .. } => self.document_step(reply),
            Phase::Advisory | Phase::Text(_) | Phase::SeverityText => self.advisory_step(reply),
            Phase::ReferencesDepth | Phase::References => self.references_step(reply),
            Phase::PackagesDepth | Phase::Packages | Phase::PackageFile => self.packages_step(reply),
        }
    }

    /// One step of the walk over the document between advisories.
    fn document_step(&mut self, reply: Reply)
        ensures
            final(self)@ == old(self)@.document_step(reply@),
    {
        match (self.phase, reply) {
            (Phase::Document, Reply::Event(event)) => {
                self.phase = Phase::DocumentDepth { at_end: event.is_end_document() };
            },
            (Phase::DocumentDepth { at_end }, Reply::Depth(depth)) => {
                if depth == ADVISORY_DEPTH {
                    self.current = UpdateInfo::new();
                    self.phase = Phase::Advisory;
                } else if at_end {
                    self.phase = Phase::Done;
                } else {
                    self.phase = Phase::Document;
                }
            },
            _ => {
                self.phase = Phase::Failed(LoadError::UnexpectedReply);
            },
        }
    }

    /// One step of the walk over the children of an advisory.
    fn advisory_step(&mut self, reply: Reply)
        ensures
            final(self)@ == old(self)@.advisory_step(reply@),
    {
        match (self.phase, reply) {
            (Phase::Advisory, Reply::StartName(Some(key))) => {
                self.phase = child(key.as_str());
            },
            (Phase::Advisory, Reply::StartName(None)) => {
                let ghost closed = self@.advisories;
                let mut advisory = UpdateInfo::new();
                core::mem::swap(&mut self.current, &mut advisory);
                self.advisories.push(advisory);
                self.phase = Phase::Document;
                assert(self@.advisories =~= closed.push(advisory@));
            },
            (Phase::Text(field), Reply::Characters(text)) => {
                self.current.set_text(field, text);
                self.phase = Phase::Advisory;
            },
            (Phase::SeverityText, Reply::Severity(Some(level))) => {
                self.current.set_severity(level);
                self.phase = Phase::Advisory;
            },
            (Phase::SeverityText, Reply::Severity(None)) => {
                self.phase = Phase::Failed(LoadError::UnknownSeverity);
            },
            _ => {
                self.phase = Phase::Failed(LoadError::UnexpectedReply);
            },
        }
    }

    /// One step of the walk over the `references` subtree.
    fn references_step(&mut self, reply: Reply)
        ensures
            final(self)@ == old(self)@.references_step(reply@),
    {
        match (self.phase, reply) {
            (Phase::ReferencesDepth, Reply::Depth(depth)) => {
                self.phase = if depth < SUBTREE_DEPTH {
                    Phase::Advisory
                } else {
                    Phase::References
                };
            },
            (Phase::References, Reply::Event(Event::StartElement { attributes, .. })) => {
                self.current.push_cves(&attributes);
                self.phase = Phase::ReferencesDepth;
            },
            (Phase::References, Reply::Event(Event::Failure)) => {
                self.phase = Phase::Advisory;
            },
            (Phase::References, Reply::Event(_)) => {
                self.phase = Phase::ReferencesDepth;
            },
            _ => {
                self.phase = Phase::Failed(LoadError::UnexpectedReply);
            },
        }
    }

    /// One step of the walk over the `pkglist` subtree.
    fn packages_step(&mut self, reply: Reply)
        ensures
            final(self)@ == old(self)@.packages_step(reply@),
    {
        match (self.phase, reply) {
            (Phase::PackagesDepth, Reply::Depth(depth)) => {
                self.phase = if depth < SUBTREE_DEPTH {
                    Phase::Advisory
                } else {
                    Phase::Packages
                };
            },
            (Phase::Packages, Reply::Event(Event::StartElement { name, attributes })) => {
                if str_eq(name.as_str(), "package") {
                    self.package = RpmInfo::from_attributes(&attributes);
                    self.phase = Phase::PackageFile;
                } else {
                    self.phase = Phase::PackagesDepth;
                }
            },
            (Phase::Packages, Reply::Event(Event::Failure)) => {
                self.phase = Phase::Advisory;
            },
            (Phase::Packages, Reply::Event(_)) => {
                self.phase = Phase::PackagesDepth;
            },
            (Phase::PackageFile, Reply::Characters(file)) => {
                let mut pkg = RpmInfo::new();
                core::mem::swap(&mut self.package, &mut pkg);
                self.current.push_package(pkg, file);
                self.phase = Phase::PackagesDepth;
            },
            _ => {
                self.phase = Phase::Failed(LoadError::UnexpectedReply);
            },
        }
    }

    /// Ends the load. The advisories are handed out only if the end of the
    /// document was seen; a failed or unfinished load hands out none.
    pub fn finish(self) -> (result: Result<Vec<UpdateInfo>, LoadError>)
        ensures
            match result {
                Ok(advisories) => self@.outcome() == Ok::<Seq<UpdateInfoView>, LoadError>(
                    advisories_view(advisories@),
                ),
                Err(error) => self@.outcome() == Err::<Seq<UpdateInfoView>, LoadError>(error),
            },
    {
        match self.phase {
            Phase::Done => Ok(self.advisories),
            Phase::Failed(error) => Err(error),
            _ => Err(LoadError::Truncated),
        }
    }
}

/// The phase that the child element called `key` leads to.
fn child(key: &str) -> (phase: Phase)
    ensures
        phase == child_phase(key@),
{
    if str_eq(key, "id") {
        Phase::Text(Field::Id)
    } else if str_eq(key, "title") {
        Phase::Text(Field::Title)
    } else if str_eq(key, "severity") {
        Phase::SeverityText
    } else if str_eq(key, "release") {
        Phase::Text(Field::Release)
    } else if str_eq(key, "description") {
        Phase::Text(Field::Description)
    } else if str_eq(key, "references") {
        Phase::ReferencesDepth
    } else if str_eq(key, "pkglist") {
        Phase::PackagesDepth
    } else {
        Phase::Advisory
    }
}

} // verus!
