use pseudo_selectors::{NonTSPseudoClass, ParserContext, PseudoElement, SelectorImpl, ServoSelectorImpl};

fn trusted() -> ParserContext {
    ParserContext { in_user_agent_stylesheet: true }
}

fn untrusted() -> ParserContext {
    ParserContext { in_user_agent_stylesheet: false }
}

fn pseudo_element_table() -> Vec<(&'static str, PseudoElement, bool)> {
    vec![
        ("before", PseudoElement::Before, false),
        ("after", PseudoElement::After, false),
        ("selection", PseudoElement::Selection, false),
        ("-servo-details-summary", PseudoElement::DetailsSummary, true),
        ("-servo-details-content", PseudoElement::DetailsContent, true),
    ]
}

fn pseudo_class_table() -> Vec<(&'static str, NonTSPseudoClass, bool)> {
    vec![
        ("any-link", NonTSPseudoClass::AnyLink, false),
        ("link", NonTSPseudoClass::Link, false),
        ("visited", NonTSPseudoClass::Visited, false),
        ("active", NonTSPseudoClass::Active, false),
        ("focus", NonTSPseudoClass::Focus, false),
        ("hover", NonTSPseudoClass::Hover, false),
        ("enabled", NonTSPseudoClass::Enabled, false),
        ("disabled", NonTSPseudoClass::Disabled, false),
        ("checked", NonTSPseudoClass::Checked, false),
        ("indeterminate", NonTSPseudoClass::Indeterminate, false),
        ("-servo-nonzero-border", NonTSPseudoClass::ServoNonZeroBorder, true),
        ("read-write", NonTSPseudoClass::ReadWrite, false),
        ("read-only", NonTSPseudoClass::ReadOnly, false),
    ]
}

#[test]
fn every_pseudo_element_name_parses_when_trusted() {
    for (name, expected, _) in pseudo_element_table() {
        assert_eq!(ServoSelectorImpl::parse_pseudo_element(&trusted(), name), Ok(expected));
    }
}

#[test]
fn restricted_pseudo_elements_fail_when_untrusted() {
    for (name, expected, restricted) in pseudo_element_table() {
        let parsed = ServoSelectorImpl::parse_pseudo_element(&untrusted(), name);
        if restricted {
            assert_eq!(parsed, Err(()));
        } else {
            assert_eq!(parsed, Ok(expected));
        }
    }
}

#[test]
fn details_pseudo_elements_are_the_restricted_ones() {
    assert_eq!(
        ServoSelectorImpl::parse_pseudo_element(&untrusted(), "-servo-details-summary"),
        Err(())
    );
    assert_eq!(
        ServoSelectorImpl::parse_pseudo_element(&untrusted(), "-servo-details-content"),
        Err(())
    );
    assert_eq!(
        ServoSelectorImpl::parse_pseudo_element(&trusted(), "-servo-details-summary"),
        Ok(PseudoElement::DetailsSummary)
    );
    assert_eq!(
        ServoSelectorImpl::parse_pseudo_element(&trusted(), "-servo-details-content"),
        Ok(PseudoElement::DetailsContent)
    );
}

#[test]
fn every_pseudo_class_name_parses_when_trusted() {
    for (name, expected, _) in pseudo_class_table() {
        assert_eq!(ServoSelectorImpl::parse_non_ts_pseudo_class(&trusted(), name), Ok(expected));
    }
}

#[test]
fn restricted_pseudo_classes_fail_when_untrusted() {
    for (name, expected, restricted) in pseudo_class_table() {
        let parsed = ServoSelectorImpl::parse_non_ts_pseudo_class(&untrusted(), name);
        if restricted {
            assert_eq!(parsed, Err(()));
        } else {
            assert_eq!(parsed, Ok(expected));
        }
    }
}

#[test]
fn nonzero_border_is_the_restricted_pseudo_class() {
    assert_eq!(
        ServoSelectorImpl::parse_non_ts_pseudo_class(&untrusted(), "-servo-nonzero-border"),
        Err(())
    );
    assert_eq!(
        ServoSelectorImpl::parse_non_ts_pseudo_class(&trusted(), "-servo-nonzero-border"),
        Ok(NonTSPseudoClass::ServoNonZeroBorder)
    );
}

#[test]
fn pseudo_element_lookup_ignores_ascii_case() {
    for name in ["Before", "BEFORE", "before", "bEfOrE"] {
        assert_eq!(
            ServoSelectorImpl::parse_pseudo_element(&untrusted(), name),
            Ok(PseudoElement::Before)
        );
        assert_eq!(
            ServoSelectorImpl::parse_pseudo_element(&trusted(), name),
            Ok(PseudoElement::Before)
        );
    }
    assert_eq!(
        ServoSelectorImpl::parse_pseudo_element(&trusted(), "-Servo-Details-SUMMARY"),
        Ok(PseudoElement::DetailsSummary)
    );
    assert_eq!(
        ServoSelectorImpl::parse_pseudo_element(&untrusted(), "-Servo-Details-SUMMARY"),
        Err(())
    );
}

#[test]
fn pseudo_class_lookup_ignores_ascii_case() {
    assert_eq!(
        ServoSelectorImpl::parse_non_ts_pseudo_class(&untrusted(), "Any-Link"),
        Ok(NonTSPseudoClass::AnyLink)
    );
    assert_eq!(
        ServoSelectorImpl::parse_non_ts_pseudo_class(&untrusted(), "READ-ONLY"),
        Ok(NonTSPseudoClass::ReadOnly)
    );
    assert_eq!(
        ServoSelectorImpl::parse_non_ts_pseudo_class(&untrusted(), "inDeterminate"),
        Ok(NonTSPseudoClass::Indeterminate)
    );
    assert_eq!(
        ServoSelectorImpl::parse_non_ts_pseudo_class(&trusted(), "-SERVO-NONZERO-BORDER"),
        Ok(NonTSPseudoClass::ServoNonZeroBorder)
    );
    assert_eq!(
        ServoSelectorImpl::parse_non_ts_pseudo_class(&untrusted(), "-SERVO-NONZERO-BORDER"),
        Err(())
    );
}

#[test]
fn every_case_variant_of_a_name_resolves_alike() {
    for (name, expected, restricted) in pseudo_class_table() {
        let upper = name.to_ascii_uppercase();
        assert_eq!(ServoSelectorImpl::parse_non_ts_pseudo_class(&trusted(), &upper), Ok(expected));
        assert_eq!(
            ServoSelectorImpl::parse_non_ts_pseudo_class(&untrusted(), &upper),
            if restricted { Err(()) } else { Ok(expected) }
        );
    }
    for (name, expected, restricted) in pseudo_element_table() {
        let upper = name.to_ascii_uppercase();
        assert_eq!(ServoSelectorImpl::parse_pseudo_element(&trusted(), &upper), Ok(expected));
        assert_eq!(
            ServoSelectorImpl::parse_pseudo_element(&untrusted(), &upper),
            if restricted { Err(()) } else { Ok(expected) }
        );
    }
}

#[test]
fn unknown_names_fail_in_every_context() {
    for context in [trusted(), untrusted()] {
        assert_eq!(ServoSelectorImpl::parse_pseudo_element(&context, "bogus"), Err(()));
        assert_eq!(ServoSelectorImpl::parse_non_ts_pseudo_class(&context, "bogus"), Err(()));
    }
}

#[test]
fn near_misses_fail() {
    for context in [trusted(), untrusted()] {
        for name in ["", "befor", "beforee", "before ", " before", ":before", "be fore", "-servo-details"] {
            assert_eq!(ServoSelectorImpl::parse_pseudo_element(&context, name), Err(()));
        }
        for name in ["", "lin", "links", "any_link", "anylink", "read-", "readonly", "servo-nonzero-border"] {
            assert_eq!(ServoSelectorImpl::parse_non_ts_pseudo_class(&context, name), Err(()));
        }
    }
}

#[test]
fn the_two_vocabularies_are_kept_apart() {
    for (name, _, _) in pseudo_class_table() {
        assert_eq!(ServoSelectorImpl::parse_pseudo_element(&trusted(), name), Err(()));
    }
    for (name, _, _) in pseudo_element_table() {
        assert_eq!(ServoSelectorImpl::parse_non_ts_pseudo_class(&trusted(), name), Err(()));
    }
}

#[test]
fn letters_outside_ascii_are_not_folded() {
    // U+212A is the Kelvin sign, whose lower-case form in Unicode is `k`.
    assert_eq!(ServoSelectorImpl::parse_non_ts_pseudo_class(&trusted(), "lin\u{212A}"), Err(()));
    // U+017F is the long s, whose upper-case form in Unicode is `S`.
    assert_eq!(ServoSelectorImpl::parse_pseudo_element(&trusted(), "\u{17F}election"), Err(()));
    assert_eq!(ServoSelectorImpl::parse_pseudo_element(&trusted(), "b\u{e9}fore"), Err(()));
    assert_eq!(ServoSelectorImpl::parse_non_ts_pseudo_class(&trusted(), "\u{1F517}"), Err(()));
}

#[test]
fn canonical_names_round_trip() {
    for (name, pseudo, _) in pseudo_element_table() {
        assert_eq!(pseudo.as_str(), name);
        assert_eq!(ServoSelectorImpl::parse_pseudo_element(&trusted(), pseudo.as_str()), Ok(pseudo));
    }
    for (name, pc, _) in pseudo_class_table() {
        assert_eq!(pc.as_str(), name);
        assert_eq!(ServoSelectorImpl::parse_non_ts_pseudo_class(&trusted(), pc.as_str()), Ok(pc));
    }
}

#[test]
fn no_two_members_share_a_name() {
    let elements = pseudo_element_table();
    for (i, (a, _, _)) in elements.iter().enumerate() {
        for (b, _, _) in elements.iter().skip(i + 1) {
            assert_ne!(a, b);
        }
    }
    let classes = pseudo_class_table();
    for (i, (a, _, _)) in classes.iter().enumerate() {
        for (b, _, _) in classes.iter().skip(i + 1) {
            assert_ne!(a, b);
        }
    }
}
