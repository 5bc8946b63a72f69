//! The advisory database.

use crate::advisory::{UpdateInfo, UpdateInfoView};
use crate::decoder::{advisories_view, Decoder, DecoderView};
use crate::event::{replies_view, LoadError, Reply, ReplyView};
use vstd::prelude::*;

verus! {

/// The advisories of the documents loaded so far, each document's in the
/// order it lists them.
#[derive(Debug, Clone, PartialEq, Eq)]
pub struct UpdateInfoDb {
    db: Vec<UpdateInfo>,
}

impl View for UpdateInfoDb {
    type V = Seq<UpdateInfoView>;

    closed spec fn view(&self) -> Seq<UpdateInfoView> {
        advisories_view(self.db@)
    }
}

/// What a document adds to a database: the advisories decoded from the
/// reader's replies, or the reason the load fails.
pub open spec fn decoded(replies: Seq<ReplyView>) -> Result<Seq<UpdateInfoView>, LoadError> {
    DecoderView::initial().run(replies).outcome()
}

impl UpdateInfoDb {
    /// A database with no advisory.
    pub fn new() -> (db: UpdateInfoDb)
        ensures
            db@ == Seq::<UpdateInfoView>::empty(),
    {
        let db = UpdateInfoDb { db: Vec::new() };
        assert(db@ =~= Seq::empty());
        db
    }

    /// The number of advisories.
    pub fn len(&self) -> (len: usize)
        ensures
            len == self@.len(),
    {
        self.db.len()
    }

    /// The advisory at `index`, counted from zero, if there is one.
    pub fn get(&self, index: usize) -> (advisory: Option<&UpdateInfo>)
        ensures
            match advisory {
                Some(found) => index < self@.len() && found@ == self@[index as int],
                None => index >= self@.len(),
            },
    {
        if index < self.db.len() {
            Some(&self.db[index])
        } else {
            None
        }
    }

    /// Adds one advisory at the end.
    pub fn push(&mut self, advisory: UpdateInfo)
        ensures
            final(self)@ == old(self)@.push(advisory@),
    {
        let ghost before = self@;
        self.db.push(advisory);
        assert(self@ =~= before.push(advisory@));
    }

    /// Loads one document from the replies its reader gave, in order, to
    /// the requests of a fresh [`Decoder`].
    ///
    /// The load is all or nothing. If the replies carry the decoder to the
    /// end of the document, the advisories it decoded join the database in
    /// document order. If they do not, the database stays as it was and the
    /// error says why: a severity was not recognised, a reply did not fit
    /// its request, or the replies ran out too early.
    pub fn load_xml(&mut self, replies: Vec<Reply>) -> (result: Result<(), LoadError>)
        ensures
            match decoded(replies_view(replies@)) {
                Ok(advisories) => result is Ok && final(self)@ == old(self)@ + advisories,
                Err(error) => result == Err::<(), LoadError>(error) && final(self)@ == old(
                    self,
                )@,
            },
    {
        let ghost all = replies_view(replies@);
        let mut decoder = Decoder::new();
        for reply in it: replies
            invariant
                all == replies_view(it.seq()),
                decoder@ == DecoderView::initial().run(all.take(it.index() as int)),
        {
            proof {
                let n = it.index() as int;
                assert(all.take(n + 1).drop_last() =~= all.take(n));
            }
            decoder.respond(reply);
        }
        proof {
            assert(all.take(all.len() as int) =~= all);
        }
        match decoder.finish() {
            Ok(advisories) => {
                let mut advisories = advisories;
                let ghost before = self@;
                let ghost added = advisories_view(advisories@);
                self.db.append(&mut advisories);
                assert(self@ =~= before + added);
                Ok(())
            },
            Err(error) => Err(error),
        }
    }
}

} // verus!
