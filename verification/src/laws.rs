//! What holds of every load, proved over the decoder's model.

use crate::advisory::{cve_ids, lemma_cve_ids_push, Field, UpdateInfoView};
use crate::db::decoded;
use crate::decoder::{DecoderView, Phase};
use crate::event::{AttributeView, EventView, LoadError, ReplyView, Request, ADVISORY_DEPTH};
use vstd::prelude::*;

verus! {

/// Whether `reply` is the kind of answer that `request` asks for.
pub open spec fn answers(request: Request, reply: ReplyView) -> bool {
    match request {
        Request::Next => reply is Event,
        Request::Depth => reply is Depth,
        Request::StartName { .. } => reply is StartName,
        Request::Characters => reply is Characters,
        Request::Severity => reply is Severity,
        Request::Done => false,
        Request::Failed(_) => false,
    }
}

/// Whether `reply` opens an advisory: the decoder stands between advisories
/// and learns that the last event led to depth 2.
pub open spec fn opens_advisory(state: DecoderView, reply: ReplyView) -> bool {
    state.phase is DocumentDepth && reply == ReplyView::Depth(ADVISORY_DEPTH as nat)
}

/// How many advisories open while `replies` are taken in from `state`.
pub open spec fn opened(state: DecoderView, replies: Seq<ReplyView>) -> nat
    decreases replies.len(),
{
    if replies.len() == 0 {
        0
    } else {
        let earlier = replies.drop_last();
        opened(state, earlier) + if opens_advisory(state.run(earlier), replies.last()) {
            1nat
        } else {
            0nat
        }
    }
}

/// One if an advisory is open in `phase`, else zero.
pub open spec fn open_advisories(phase: Phase) -> nat {
    if phase.in_advisory() {
        1
    } else {
        0
    }
}

/// Every advisory that has closed, and the one that is open, is named by the
/// `sa` of each of its packages.
pub open spec fn packages_name_advisories(state: DecoderView) -> bool {
    &&& state.current.packages_name_advisory()
    &&& forall|k: int|
        0 <= k < state.advisories.len() ==> (#[trigger] state.advisories[k]).packages_name_advisory()
}

/// Whether `reply` gives the open advisory its identifier.
pub open spec fn reads_id(state: DecoderView, reply: ReplyView) -> bool {
    state.phase == Phase::Text(Field::Id) && reply is Characters
}

/// Whenever the identifier of an advisory is read during the run of
/// `replies` from `state`, that advisory has no package yet.
pub open spec fn id_precedes_packages(state: DecoderView, replies: Seq<ReplyView>) -> bool {
    forall|i: int|
        0 <= i < replies.len() && reads_id(#[trigger] state.run(replies.take(i)), replies[i])
            ==> state.run(replies.take(i)).current.pkglist.len() == 0
}

/// Whether `reply` is a start element with an attribute named `id`.
pub open spec fn carries_id(reply: ReplyView) -> bool {
    reply matches ReplyView::Event(EventView::StartElement { attributes, .. }) && exists|
        i: int,
    |
        0 <= i < attributes.len() && (#[trigger] attributes[i]).name == "id"@
}

/// Taking in one more reply is one more step.
pub proof fn lemma_run_push(state: DecoderView, replies: Seq<ReplyView>, reply: ReplyView)
    ensures
        state.run(replies.push(reply)) == state.run(replies).respond(reply),
{
    assert(replies.push(reply).drop_last() =~= replies);
}

/// Taking in two runs of replies one after the other is taking in their
/// concatenation.
pub proof fn lemma_run_concat(state: DecoderView, first: Seq<ReplyView>, second: Seq<ReplyView>)
    ensures
        state.run(first + second) == state.run(first).run(second),
    decreases second.len(),
{
    if second.len() == 0 {
        assert(first + second =~= first);
    } else {
        lemma_run_concat(state, first, second.drop_last());
        assert((first + second).drop_last() =~= first + second.drop_last());
    }
}

/// Once the load is done or has failed, no further reply changes anything.
pub proof fn lemma_final_phase_stays(state: DecoderView, replies: Seq<ReplyView>)
    requires
        state.phase.is_final(),
    ensures
        state.run(replies) == state,
    decreases replies.len(),
{
    if replies.len() > 0 {
        lemma_final_phase_stays(state, replies.drop_last());
    }
}

/// A reply of the kind that was asked for is never refused as unexpected,
/// and a reply of any other kind always is: the load then fails with
/// `UnexpectedReply` and nothing else changes.
pub proof fn lemma_protocol(state: DecoderView, reply: ReplyView)
    requires
        !state.phase.is_final(),
    ensures
        answers(state.request(), reply) ==> state.respond(reply).phase != Phase::Failed(
            LoadError::UnexpectedReply,
        ),
        !answers(state.request(), reply) ==> state.respond(reply) == state.unexpected(),
{
}

/// The database gains one record for each advisory element of the document,
/// in document order.
///
/// Along any run that has not failed, the advisories that have closed plus
/// the one that is open are those there were at the start plus those that
/// opened since. In particular a run from the start of a document to its
/// end yields exactly as many records as advisories opened. The records
/// that existed before the run stay in front, unchanged.
pub proof fn lemma_one_record_per_advisory(state: DecoderView, replies: Seq<ReplyView>)
    requires
        !(state.run(replies).phase is Failed),
    ensures
        state.run(replies).advisories.len() + open_advisories(state.run(replies).phase)
            == state.advisories.len() + open_advisories(state.phase) + opened(state, replies),
        state.advisories.len() <= state.run(replies).advisories.len(),
        state.run(replies).advisories.take(state.advisories.len() as int) == state.advisories,
    decreases replies.len(),
{
    if replies.len() == 0 {
        assert(state.advisories.take(state.advisories.len() as int) =~= state.advisories);
    } else {
        let earlier = replies.drop_last();
        let before = state.run(earlier);
        if before.phase is Failed {
            assert(before.respond(replies.last()) == before);
        }
        lemma_one_record_per_advisory(state, earlier);
        let after = before.respond(replies.last());
        assert(after.advisories.take(state.advisories.len() as int) =~= before.advisories.take(
            state.advisories.len() as int,
        ));
    }
}

/// A document read from its start to its end yields as many advisories as
/// it opened.
pub proof fn lemma_records_of_a_document(replies: Seq<ReplyView>)
    requires
        decoded(replies) is Ok,
    ensures
        decoded(replies)->Ok_0.len() == opened(DecoderView::initial(), replies),
{
    lemma_one_record_per_advisory(DecoderView::initial(), replies);
}

/// Every package names the advisory that lists it, provided each advisory's
/// identifier is read before its packages.
///
/// A package takes as `sa` the identifier its advisory has when the package
/// is decoded, and is not touched again. So the `sa` of every package equals
/// the final identifier of its advisory unless the identifier is read while
/// the advisory already has packages.
pub proof fn lemma_packages_name_their_advisory(state: DecoderView, replies: Seq<ReplyView>)
    requires
        packages_name_advisories(state),
        id_precedes_packages(state, replies),
    ensures
        packages_name_advisories(state.run(replies)),
    decreases replies.len(),
{
    if replies.len() > 0 {
        let earlier = replies.drop_last();
        assert forall|i: int|
            0 <= i < earlier.len() && reads_id(
                #[trigger] state.run(earlier.take(i)),
                earlier[i],
            ) implies state.run(earlier.take(i)).current.pkglist.len() == 0 by {
            assert(earlier.take(i) =~= replies.take(i));
            assert(earlier[i] == replies[i]);
        }
        lemma_packages_name_their_advisory(state, earlier);
        let before = state.run(earlier);
        assert(replies.take(earlier.len() as int) =~= earlier);
        assert(state.run(replies.take(earlier.len() as int)) == before);
        lemma_step_keeps_packages_named(before, replies.last());
    }
}

/// One reply keeps every package naming its advisory, unless it gives an
/// identifier to an advisory that already has packages.
pub proof fn lemma_step_keeps_packages_named(state: DecoderView, reply: ReplyView)
    requires
        packages_name_advisories(state),
        reads_id(state, reply) ==> state.current.pkglist.len() == 0,
    ensures
        packages_name_advisories(state.respond(reply)),
{
    let after = state.respond(reply);
    assert forall|k: int| 0 <= k < after.advisories.len() implies (
    #[trigger] after.advisories[k]).packages_name_advisory() by {
        if k < state.advisories.len() {
            assert(after.advisories[k] == state.advisories[k]);
        }
    }
}

/// In a document whose advisories each give their identifier before their
/// packages, every package of every advisory names that advisory.
pub proof fn lemma_document_packages_name_their_advisory(replies: Seq<ReplyView>)
    requires
        id_precedes_packages(DecoderView::initial(), replies),
        decoded(replies) is Ok,
    ensures
        forall|k: int|
            0 <= k < decoded(replies)->Ok_0.len() ==> (
            #[trigger] decoded(replies)->Ok_0[k]).packages_name_advisory(),
{
    lemma_packages_name_their_advisory(DecoderView::initial(), replies);
}

/// A load in which the same replies are given yields the same advisories,
/// or fails for the same reason.
pub proof fn lemma_same_replies_same_outcome(first: Seq<ReplyView>, second: Seq<ReplyView>)
    requires
        first =~= second,
    ensures
        decoded(first) == decoded(second),
{
}

/// A severity that the reader cannot parse fails the whole load, whatever
/// was read before and whatever would follow: no advisory is handed out.
pub proof fn lemma_unknown_severity_fails(
    state: DecoderView,
    before: Seq<ReplyView>,
    after: Seq<ReplyView>,
)
    requires
        state.run(before).phase == Phase::SeverityText,
    ensures
        state.run(before.push(ReplyView::Severity(None)) + after).outcome() == Err::<
            Seq<UpdateInfoView>,
            LoadError,
        >(LoadError::UnknownSeverity),
{
    let failed = state.run(before).respond(ReplyView::Severity(None));
    lemma_run_push(state, before, ReplyView::Severity(None));
    lemma_run_concat(state, before.push(ReplyView::Severity(None)), after);
    lemma_final_phase_stays(failed, after);
}

/// The attributes of an element give no CVE identifier exactly when none of
/// them is named `id`.
pub proof fn lemma_no_id_no_cve(attributes: Seq<AttributeView>)
    ensures
        cve_ids(attributes).len() == 0 <==> forall|i: int|
            0 <= i < attributes.len() ==> (#[trigger] attributes[i]).name != "id"@,
    decreases attributes.len(),
{
    reveal(Seq::filter);
    if attributes.len() > 0 {
        let earlier = attributes.drop_last();
        lemma_no_id_no_cve(earlier);
        lemma_cve_ids_push(earlier, attributes.last());
        assert(earlier.push(attributes.last()) =~= attributes);
        if cve_ids(attributes).len() == 0 {
            assert forall|i: int| 0 <= i < attributes.len() implies (
            #[trigger] attributes[i]).name != "id"@ by {
                if i < earlier.len() {
                    assert(earlier[i] == attributes[i]);
                }
            }
        } else {
            if attributes.last().name != "id"@ {
                let i = choose|i: int| 0 <= i < earlier.len() && (#[trigger] earlier[i]).name == "id"@;
                assert(attributes[i].name == "id"@);
            }
        }
    }
}

/// The CVE identifiers that the start elements among `replies` carry, in the
/// order of the replies.
pub open spec fn ids_carried(replies: Seq<ReplyView>) -> Seq<Seq<char>>
    decreases replies.len(),
{
    if replies.len() == 0 {
        Seq::empty()
    } else {
        ids_carried(replies.drop_last()) + match replies.last() {
            ReplyView::Event(EventView::StartElement { attributes, .. }) => cve_ids(attributes),
            _ => Seq::empty(),
        }
    }
}

/// Whether `replies` are read from `state` on inside a `references` subtree:
/// each one is of the kind that was asked for and finds the decoder inside
/// the subtree. The last one may lead out of it.
pub open spec fn read_in_references(state: DecoderView, replies: Seq<ReplyView>) -> bool {
    forall|i: int|
        0 <= i < replies.len() ==> {
            &&& (#[trigger] state.run(replies.take(i))).phase.in_references()
            &&& answers(state.run(replies.take(i)).request(), replies[i])
        }
}

/// A walk over a `references` subtree adds to the CVE list exactly the
/// identifiers that its elements carry, in document order, and changes
/// nothing else. It ends inside the subtree or back among the children of
/// the advisory, never in failure.
pub proof fn lemma_references_collect_ids(state: DecoderView, replies: Seq<ReplyView>)
    requires
        state.phase.in_references(),
        read_in_references(state, replies),
    ensures
        state.run(replies).current == (UpdateInfoView {
            cves: state.current.cves + ids_carried(replies),
            ..state.current
        }),
        state.run(replies).advisories == state.advisories,
        state.run(replies).phase.in_references() || state.run(replies).phase == Phase::Advisory,
    decreases replies.len(),
{
    if replies.len() == 0 {
        assert(state.current.cves + ids_carried(replies) =~= state.current.cves);
    } else {
        let earlier = replies.drop_last();
        assert(replies.take(earlier.len() as int) =~= earlier);
        let before = state.run(replies.take(earlier.len() as int));
        assert forall|i: int| 0 <= i < earlier.len() implies {
            &&& (#[trigger] state.run(earlier.take(i))).phase.in_references()
            &&& answers(state.run(earlier.take(i)).request(), earlier[i])
        } by {
            assert(earlier.take(i) =~= replies.take(i));
            assert(earlier[i] == replies[i]);
        }
        lemma_references_collect_ids(state, earlier);
        assert(before.phase.in_references());
        assert(answers(before.request(), replies.last()));
        assert(state.current.cves + ids_carried(earlier) + Seq::<Seq<char>>::empty()
            =~= state.current.cves + ids_carried(earlier));
        match replies.last() {
            ReplyView::Event(EventView::StartElement { attributes, .. }) => {
                assert((state.current.cves + ids_carried(earlier)) + cve_ids(attributes)
                    =~= state.current.cves + (ids_carried(earlier) + cve_ids(attributes)));
            },
            _ => {
                assert(ids_carried(earlier) + Seq::<Seq<char>>::empty() =~= ids_carried(earlier));
            },
        }
    }
}

/// Replies of which none carries an `id` attribute carry no CVE identifier.
pub proof fn lemma_no_id_carried(replies: Seq<ReplyView>)
    requires
        forall|i: int| 0 <= i < replies.len() ==> !carries_id(#[trigger] replies[i]),
    ensures
        ids_carried(replies) == Seq::<Seq<char>>::empty(),
    decreases replies.len(),
{
    if replies.len() > 0 {
        let earlier = replies.drop_last();
        assert forall|i: int| 0 <= i < earlier.len() implies !carries_id(#[trigger] earlier[i]) by {
            assert(earlier[i] == replies[i]);
        }
        lemma_no_id_carried(earlier);
        assert(!carries_id(replies.last()));
        match replies.last() {
            ReplyView::Event(EventView::StartElement { attributes, .. }) => {
                lemma_no_id_no_cve(attributes);
                assert(cve_ids(attributes) =~= Seq::empty());
            },
            _ => {},
        }
        assert(ids_carried(replies) =~= Seq::empty());
    }
}

/// A `references` subtree in which no element carries an `id` attribute
/// leaves the CVE list as it was, empty if it was empty, and fails nothing:
/// the load goes on.
pub proof fn lemma_references_without_ids(state: DecoderView, replies: Seq<ReplyView>)
    requires
        state.phase.in_references(),
        read_in_references(state, replies),
        forall|i: int| 0 <= i < replies.len() ==> !carries_id(#[trigger] replies[i]),
    ensures
        state.run(replies).current == state.current,
        state.run(replies).phase.in_references() || state.run(replies).phase == Phase::Advisory,
{
    lemma_references_collect_ids(state, replies);
    lemma_no_id_carried(replies);
    assert(state.current.cves + ids_carried(replies) =~= state.current.cves);
}

/// Whether `replies` are read from `state` on inside a `pkglist` subtree:
/// each one is of the kind that was asked for and finds the decoder inside
/// the subtree. The last one may lead out of it.
pub open spec fn read_in_packages(state: DecoderView, replies: Seq<ReplyView>) -> bool {
    forall|i: int|
        0 <= i < replies.len() ==> {
            &&& (#[trigger] state.run(replies.take(i))).phase.in_packages()
            &&& answers(state.run(replies.take(i)).request(), replies[i])
        }
}

/// A walk over a `pkglist` subtree only adds packages, at the end of the
/// list, and each package it adds takes the identifier the advisory has
/// during the walk as its `sa`. Nothing else of the advisory changes, and
/// the walk ends inside the subtree or back among the children of the
/// advisory, never in failure.
pub proof fn lemma_packages_take_the_id(state: DecoderView, replies: Seq<ReplyView>)
    requires
        state.phase.in_packages(),
        read_in_packages(state, replies),
    ensures
        state.run(replies).current == (UpdateInfoView {
            pkglist: state.run(replies).current.pkglist,
            ..state.current
        }),
        state.current.pkglist.len() <= state.run(replies).current.pkglist.len(),
        state.run(replies).current.pkglist.take(state.current.pkglist.len() as int)
            == state.current.pkglist,
        forall|k: int|
            state.current.pkglist.len() <= k < state.run(replies).current.pkglist.len() ==> (
            #[trigger] state.run(replies).current.pkglist[k]).sa == state.current.id,
        state.run(replies).advisories == state.advisories,
        state.run(replies).phase.in_packages() || state.run(replies).phase == Phase::Advisory,
    decreases replies.len(),
{
    let old_len = state.current.pkglist.len() as int;
    if replies.len() == 0 {
        assert(state.current.pkglist.take(old_len) =~= state.current.pkglist);
    } else {
        let earlier = replies.drop_last();
        assert(replies.take(earlier.len() as int) =~= earlier);
        let before = state.run(replies.take(earlier.len() as int));
        assert forall|i: int| 0 <= i < earlier.len() implies {
            &&& (#[trigger] state.run(earlier.take(i))).phase.in_packages()
            &&& answers(state.run(earlier.take(i)).request(), earlier[i])
        } by {
            assert(earlier.take(i) =~= replies.take(i));
            assert(earlier[i] == replies[i]);
        }
        lemma_packages_take_the_id(state, earlier);
        assert(before.phase.in_packages());
        assert(answers(before.request(), replies.last()));
        let after = before.respond(replies.last());
        assert(after.current.pkglist.take(old_len) =~= before.current.pkglist.take(old_len));
    }
}

} // verus!
