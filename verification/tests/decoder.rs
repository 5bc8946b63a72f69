use updateinfo::{
    Attribute, Decoder, Event, LoadError, Reply, Request, Severity, UpdateInfo,
};

fn element(name: &str, attributes: &[(&str, &str)]) -> Reply {
    Reply::Event(Event::StartElement {
        name: name.to_string(),
        attributes: attributes
            .iter()
            .map(|(name, value)| Attribute { name: name.to_string(), value: value.to_string() })
            .collect(),
    })
}

fn other() -> Reply {
    Reply::Event(Event::Other)
}

fn child(name: &str) -> Reply {
    Reply::StartName(Some(name.to_string()))
}

fn text(characters: &str) -> Reply {
    Reply::Characters(characters.to_string())
}

/// Whether `reply` is of the kind that `request` asks for.
fn fits(request: Request, reply: &Reply) -> bool {
    match (request, reply) {
        (Request::Next, Reply::Event(_)) => true,
        (Request::Depth, Reply::Depth(_)) => true,
        (Request::StartName { .. }, Reply::StartName(_)) => true,
        (Request::Characters, Reply::Characters(_)) => true,
        (Request::Severity, Reply::Severity(_)) => true,
        _ => false,
    }
}

/// A decoder that has taken in `replies`, each of which must fit.
fn after(replies: Vec<Reply>) -> Decoder {
    let mut decoder = Decoder::new();
    for reply in replies {
        assert!(fits(decoder.request(), &reply), "{:?} does not fit", reply);
        decoder.respond(reply);
    }
    decoder
}

/// The replies that lead from the start of a document into its first
/// advisory.
fn into_advisory() -> Vec<Reply> {
    vec![
        other(),
        Reply::Depth(0),
        element("updates", &[]),
        Reply::Depth(1),
        element("update", &[("type", "security")]),
        Reply::Depth(2),
    ]
}

/// The replies that close the advisory and end the document.
fn out_of_advisory() -> Vec<Reply> {
    vec![
        Reply::StartName(None),
        other(),
        Reply::Depth(0),
        Reply::Event(Event::EndDocument),
        Reply::Depth(0),
    ]
}

/// The only advisory of a document whose advisory element holds `inside`.
fn only_advisory(inside: Vec<Reply>) -> UpdateInfo {
    let mut replies = into_advisory();
    replies.extend(inside);
    replies.extend(out_of_advisory());
    let decoder = after(replies);
    assert_eq!(decoder.request(), Request::Done);
    let mut advisories = decoder.finish().unwrap();
    assert_eq!(advisories.len(), 1);
    advisories.remove(0)
}

#[test]
fn a_fresh_decoder_asks_for_an_event() {
    assert_eq!(Decoder::new().request(), Request::Next);
}

#[test]
fn an_empty_document_has_no_advisory() {
    let decoder = after(vec![
        other(),
        Reply::Depth(0),
        element("updates", &[]),
        Reply::Depth(1),
        other(),
        Reply::Depth(0),
        Reply::Event(Event::EndDocument),
        Reply::Depth(0),
    ]);
    assert_eq!(decoder.request(), Request::Done);
    assert_eq!(decoder.finish(), Ok(Vec::new()));
}

#[test]
fn an_advisory_opens_at_depth_two_only() {
    let mut decoder = after(vec![element("updates", &[])]);
    assert_eq!(decoder.request(), Request::Depth);
    decoder.respond(Reply::Depth(1));
    assert_eq!(decoder.request(), Request::Next);
    decoder.respond(element("update", &[]));
    decoder.respond(Reply::Depth(3));
    assert_eq!(decoder.request(), Request::Next);
    decoder.respond(other());
    decoder.respond(Reply::Depth(2));
    assert_eq!(decoder.request(), Request::StartName { under_depth: 1 });
}

#[test]
fn the_end_of_the_document_at_depth_two_opens_an_advisory() {
    let decoder = after(vec![Reply::Event(Event::EndDocument), Reply::Depth(2)]);
    assert_eq!(decoder.request(), Request::StartName { under_depth: 1 });
}

#[test]
fn a_read_failure_between_advisories_is_passed_over() {
    let decoder = after(vec![Reply::Event(Event::Failure), Reply::Depth(0)]);
    assert_eq!(decoder.request(), Request::Next);
}

#[test]
fn scalar_children_fill_their_fields() {
    let advisory = only_advisory(vec![
        child("id"),
        text("openEuler-SA-2022-1587"),
        child("title"),
        text("An update for mariadb is now available for openEuler-22.03-LTS"),
        child("severity"),
        Reply::Severity(Some(Severity::Important)),
        child("release"),
        text("openEuler"),
        child("description"),
        text("MariaDB is a community developed branch of MySQL."),
    ]);
    assert_eq!(advisory.id(), "openEuler-SA-2022-1587");
    assert_eq!(
        advisory.title(),
        "An update for mariadb is now available for openEuler-22.03-LTS"
    );
    assert_eq!(advisory.severity(), Severity::Important);
    assert_eq!(advisory.release(), "openEuler");
    assert_eq!(advisory.description(), "MariaDB is a community developed branch of MySQL.");
    assert!(advisory.cves().is_empty());
    assert!(advisory.pkglist().is_empty());
}

#[test]
fn children_may_come_in_any_order() {
    let advisory = only_advisory(vec![
        child("description"),
        text("d"),
        child("release"),
        text("r"),
        child("title"),
        text("t"),
        child("id"),
        text("i"),
    ]);
    assert_eq!(advisory.id(), "i");
    assert_eq!(advisory.title(), "t");
    assert_eq!(advisory.release(), "r");
    assert_eq!(advisory.description(), "d");
}

#[test]
fn an_advisory_without_children_is_empty() {
    assert_eq!(only_advisory(Vec::new()), UpdateInfo::new());
    assert_eq!(UpdateInfo::new().severity(), Severity::Unknown);
}

#[test]
fn an_unknown_child_is_passed_over() {
    let advisory = only_advisory(vec![
        child("issued"),
        child("id"),
        text("SA-1"),
        child("updated"),
        child("ID"),
    ]);
    assert_eq!(advisory.id(), "SA-1");
    assert_eq!(advisory.title(), "");
}

#[test]
fn each_child_asks_for_what_it_holds() {
    let mut replies = into_advisory();
    replies.push(child("severity"));
    assert_eq!(after(replies).request(), Request::Severity);
    for name in ["id", "title", "release", "description"] {
        let mut replies = into_advisory();
        replies.push(child(name));
        assert_eq!(after(replies).request(), Request::Characters);
    }
    for name in ["references", "pkglist"] {
        let mut replies = into_advisory();
        replies.push(child(name));
        assert_eq!(after(replies).request(), Request::Depth);
    }
}

#[test]
fn an_unknown_severity_fails_the_load() {
    let mut replies = into_advisory();
    replies.extend(vec![child("id"), text("SA-1"), child("severity"), Reply::Severity(None)]);
    let mut decoder = after(replies);
    assert_eq!(decoder.request(), Request::Failed(LoadError::UnknownSeverity));
    for reply in out_of_advisory() {
        decoder.respond(reply);
    }
    assert_eq!(decoder.request(), Request::Failed(LoadError::UnknownSeverity));
    assert_eq!(decoder.finish(), Err(LoadError::UnknownSeverity));
}

#[test]
fn an_unknown_severity_in_a_later_advisory_hands_out_none() {
    let mut replies = into_advisory();
    replies.extend(vec![
        child("id"),
        text("SA-1"),
        Reply::StartName(None),
        element("update", &[]),
        Reply::Depth(2),
        child("severity"),
        Reply::Severity(None),
    ]);
    assert_eq!(after(replies).finish(), Err(LoadError::UnknownSeverity));
}

#[test]
fn a_reply_of_the_wrong_kind_fails_the_load() {
    let mut decoder = Decoder::new();
    decoder.respond(Reply::Depth(2));
    assert_eq!(decoder.request(), Request::Failed(LoadError::UnexpectedReply));
    assert_eq!(decoder.finish(), Err(LoadError::UnexpectedReply));

    let mut decoder = after(into_advisory());
    decoder.respond(text("stray"));
    assert_eq!(decoder.finish(), Err(LoadError::UnexpectedReply));

    let mut replies = into_advisory();
    replies.push(child("severity"));
    let mut decoder = after(replies);
    decoder.respond(text("Important"));
    assert_eq!(decoder.finish(), Err(LoadError::UnexpectedReply));
}

#[test]
fn an_unfinished_load_hands_out_none() {
    assert_eq!(Decoder::new().finish(), Err(LoadError::Truncated));
    let mut replies = into_advisory();
    replies.extend(vec![child("id"), text("SA-1"), Reply::StartName(None)]);
    assert_eq!(after(replies).finish(), Err(LoadError::Truncated));
}

#[test]
fn replies_after_the_end_change_nothing() {
    let mut replies = into_advisory();
    replies.extend(vec![child("id"), text("SA-1")]);
    replies.extend(out_of_advisory());
    let mut decoder = after(replies);
    decoder.respond(element("update", &[]));
    decoder.respond(Reply::Depth(2));
    decoder.respond(text("late"));
    assert_eq!(decoder.request(), Request::Done);
    let advisories = decoder.finish().unwrap();
    assert_eq!(advisories.len(), 1);
    assert_eq!(advisories[0].id(), "SA-1");
}

#[test]
fn references_give_their_ids_in_order() {
    let advisory = only_advisory(vec![
        child("references"),
        Reply::Depth(3),
        other(),
        Reply::Depth(3),
        element(
            "reference",
            &[("href", "https://example.org/CVE-2022-1"), ("id", "CVE-2022-1"), ("type", "cve")],
        ),
        Reply::Depth(4),
        other(),
        Reply::Depth(3),
        element("reference", &[("id", "CVE-2022-2"), ("title", "CVE-2022-2")]),
        Reply::Depth(4),
        other(),
        Reply::Depth(3),
        other(),
        Reply::Depth(2),
    ]);
    assert_eq!(advisory.cves(), &vec!["CVE-2022-1".to_string(), "CVE-2022-2".to_string()]);
}

#[test]
fn repeated_ids_are_kept() {
    let advisory = only_advisory(vec![
        child("references"),
        Reply::Depth(3),
        element("reference", &[("id", "CVE-2022-1"), ("id", "CVE-2022-1")]),
        Reply::Depth(4),
        element("reference", &[("id", "CVE-2022-1")]),
        Reply::Depth(2),
    ]);
    assert_eq!(
        advisory.cves(),
        &vec!["CVE-2022-1".to_string(), "CVE-2022-1".to_string(), "CVE-2022-1".to_string()]
    );
}

#[test]
fn references_without_ids_give_no_cve() {
    let advisory = only_advisory(vec![
        child("id"),
        text("SA-1"),
        child("references"),
        Reply::Depth(3),
        element("reference", &[("href", "https://example.org"), ("ID", "CVE-2022-1")]),
        Reply::Depth(4),
        other(),
        Reply::Depth(3),
        element("reference", &[]),
        Reply::Depth(4),
        other(),
        Reply::Depth(2),
        child("title"),
        text("after"),
    ]);
    assert!(advisory.cves().is_empty());
    assert_eq!(advisory.id(), "SA-1");
    assert_eq!(advisory.title(), "after");
}

#[test]
fn empty_references_give_no_cve() {
    let advisory = only_advisory(vec![child("references"), Reply::Depth(2)]);
    assert!(advisory.cves().is_empty());
}

#[test]
fn references_are_left_below_depth_three() {
    let mut replies = into_advisory();
    replies.extend(vec![child("references"), Reply::Depth(3)]);
    assert_eq!(after(replies).request(), Request::Next);

    let mut replies = into_advisory();
    replies.extend(vec![child("references"), Reply::Depth(2)]);
    assert_eq!(after(replies).request(), Request::StartName { under_depth: 1 });

    let mut replies = into_advisory();
    replies.extend(vec![child("references"), Reply::Depth(7), other(), Reply::Depth(0)]);
    assert_eq!(after(replies).request(), Request::StartName { under_depth: 1 });
}

#[test]
fn a_read_failure_ends_references_with_what_was_read() {
    let advisory = only_advisory(vec![
        child("references"),
        Reply::Depth(3),
        element("reference", &[("id", "CVE-2022-1")]),
        Reply::Depth(4),
        Reply::Event(Event::Failure),
        child("title"),
        text("still read"),
    ]);
    assert_eq!(advisory.cves(), &vec!["CVE-2022-1".to_string()]);
    assert_eq!(advisory.title(), "still read");
}

#[test]
fn packages_are_decoded_from_package_elements() {
    let advisory = only_advisory(vec![
        child("id"),
        text("openEuler-SA-2022-1587"),
        child("pkglist"),
        Reply::Depth(3),
        element("collection", &[]),
        Reply::Depth(4),
        element("name", &[]),
        Reply::Depth(5),
        other(),
        Reply::Depth(4),
        element(
            "package",
            &[
                ("arch", "x86_64"),
                ("name", "mariadb"),
                ("release", "1.oe2203"),
                ("version", "10.5.16"),
                ("src", "mariadb-10.5.16-1.oe2203.src.rpm"),
            ],
        ),
        text("mariadb-10.5.16-1.oe2203.x86_64.rpm"),
        Reply::Depth(5),
        other(),
        Reply::Depth(4),
        element(
            "package",
            &[
                ("arch", "noarch"),
                ("epoch", "3"),
                ("name", "mariadb-common"),
                ("release", "1.oe2203"),
                ("version", "10.5.16"),
            ],
        ),
        text("mariadb-common-10.5.16-1.oe2203.noarch.rpm"),
        Reply::Depth(4),
        other(),
        Reply::Depth(2),
    ]);
    let packages = advisory.pkglist();
    assert_eq!(packages.len(), 2);
    assert_eq!(packages[0].name(), "mariadb");
    assert_eq!(packages[0].epoch(), None);
    assert_eq!(packages[0].version(), "10.5.16");
    assert_eq!(packages[0].release(), "1.oe2203");
    assert_eq!(packages[0].arch(), "x86_64");
    assert_eq!(packages[0].file(), "mariadb-10.5.16-1.oe2203.x86_64.rpm");
    assert_eq!(packages[0].sa(), "openEuler-SA-2022-1587");
    assert_eq!(packages[0].nevra(), "mariadb-10.5.16-1.oe2203-x86_64");
    assert_eq!(packages[1].name(), "mariadb-common");
    assert_eq!(packages[1].epoch(), Some("3"));
    assert_eq!(packages[1].file(), "mariadb-common-10.5.16-1.oe2203.noarch.rpm");
    assert_eq!(packages[1].sa(), "openEuler-SA-2022-1587");
    assert_eq!(packages[1].evr(), "3:10.5.16-1.oe2203");
}

#[test]
fn every_package_names_its_advisory() {
    let advisory = only_advisory(vec![
        child("id"),
        text("SA-7"),
        child("pkglist"),
        Reply::Depth(3),
        element("package", &[("name", "a"), ("sa", "elsewhere")]),
        text("a.rpm"),
        Reply::Depth(3),
        element("package", &[("name", "b")]),
        text("b.rpm"),
        Reply::Depth(3),
        element("package", &[("name", "c")]),
        text(""),
        Reply::Depth(2),
    ]);
    assert_eq!(advisory.pkglist().len(), 3);
    for pkg in advisory.pkglist() {
        assert_eq!(pkg.sa(), advisory.id());
    }
    assert_eq!(advisory.pkglist()[2].file(), "");
}

#[test]
fn packages_before_the_id_carry_an_empty_sa() {
    let advisory = only_advisory(vec![
        child("pkglist"),
        Reply::Depth(3),
        element("package", &[("name", "early")]),
        text("early.rpm"),
        Reply::Depth(2),
        child("id"),
        text("SA-9"),
    ]);
    assert_eq!(advisory.id(), "SA-9");
    assert_eq!(advisory.pkglist().len(), 1);
    assert_eq!(advisory.pkglist()[0].sa(), "");
}

#[test]
fn a_package_asks_for_its_file_name() {
    let mut replies = into_advisory();
    replies.extend(vec![child("pkglist"), Reply::Depth(3), element("package", &[])]);
    assert_eq!(after(replies).request(), Request::Characters);

    let mut replies = into_advisory();
    replies.extend(vec![child("pkglist"), Reply::Depth(3), element("Package", &[])]);
    assert_eq!(after(replies).request(), Request::Depth);
}

#[test]
fn a_read_failure_ends_the_package_list_with_what_was_read() {
    let advisory = only_advisory(vec![
        child("pkglist"),
        Reply::Depth(3),
        element("package", &[("name", "kept")]),
        text("kept.rpm"),
        Reply::Depth(4),
        Reply::Event(Event::Failure),
        child("release"),
        text("openEuler"),
    ]);
    assert_eq!(advisory.pkglist().len(), 1);
    assert_eq!(advisory.pkglist()[0].name(), "kept");
    assert_eq!(advisory.release(), "openEuler");
}

#[test]
fn one_record_per_advisory_in_document_order() {
    let mut replies = into_advisory();
    for id in ["SA-1", "SA-2", "SA-3"] {
        replies.extend(vec![child("id"), text(id), Reply::StartName(None)]);
        replies.extend(vec![other(), Reply::Depth(1), element("update", &[]), Reply::Depth(2)]);
    }
    replies.extend(out_of_advisory());
    let advisories = after(replies).finish().unwrap();
    let ids: Vec<&str> = advisories.iter().map(|advisory| advisory.id()).collect();
    assert_eq!(ids, vec!["SA-1", "SA-2", "SA-3", ""]);
}

#[test]
fn advisories_with_the_same_id_are_both_kept() {
    let mut replies = into_advisory();
    replies.extend(vec![child("id"), text("SA-1"), Reply::StartName(None)]);
    replies.extend(vec![element("update", &[]), Reply::Depth(2)]);
    replies.extend(vec![child("id"), text("SA-1")]);
    replies.extend(out_of_advisory());
    let advisories = after(replies).finish().unwrap();
    assert_eq!(advisories.len(), 2);
    assert_eq!(advisories[0], advisories[1]);
}

#[test]
fn a_new_advisory_starts_empty() {
    let mut replies = into_advisory();
    replies.extend(vec![
        child("id"),
        text("SA-1"),
        child("references"),
        Reply::Depth(3),
        element("reference", &[("id", "CVE-2022-1")]),
        Reply::Depth(2),
        Reply::StartName(None),
        element("update", &[]),
        Reply::Depth(2),
    ]);
    replies.extend(out_of_advisory());
    let advisories = after(replies).finish().unwrap();
    assert_eq!(advisories.len(), 2);
    assert_eq!(advisories[0].cves().len(), 1);
    assert_eq!(advisories[1], UpdateInfo::new());
}
