//! The helper vocabulary: spellings, targets and the legality matrix.

use qubit_reflect_derive::attributes::list_grammar;
use qubit_reflect_derive::attributes::ListGrammarIr;
use qubit_reflect_derive::helper::HelperName;
use qubit_reflect_derive::helper::HelperTarget;
use qubit_reflect_derive::validate::stable_id_is_valid;

const ALL_HELPERS: [HelperName; 17] = [
    HelperName::Rename,
    HelperName::Opaque,
    HelperName::Capabilities,
    HelperName::Skip,
    HelperName::ReadOnly,
    HelperName::NoConstruct,
    HelperName::Default,
    HelperName::NoInvoke,
    HelperName::CatchUnwind,
    HelperName::ThreadSafe,
    HelperName::Specialize,
    HelperName::ExternalTraitId,
    HelperName::ExternalTrait,
    HelperName::Supertrait,
    HelperName::DynCompatible,
    HelperName::RuntimeCrate,
    HelperName::DefinitionProviderV2,
];

#[test]
fn test_helper_target_matrix_matches_the_shared_contract() {
    let all_targets = [
        HelperTarget::Type,
        HelperTarget::Field,
        HelperTarget::Variant,
        HelperTarget::Method,
        HelperTarget::Impl,
        HelperTarget::Trait,
        HelperTarget::AssociatedItem,
    ];
    let expectations = [
        (HelperName::Rename, &[0, 1, 2, 3, 5][..]),
        (HelperName::Opaque, &[0, 1][..]),
        (HelperName::Capabilities, &[0][..]),
        (HelperName::Skip, &[1, 2, 3][..]),
        (HelperName::ReadOnly, &[1][..]),
        (HelperName::NoConstruct, &[1, 2][..]),
        (HelperName::Default, &[1][..]),
        (HelperName::NoInvoke, &[3][..]),
        (HelperName::CatchUnwind, &[3][..]),
        (HelperName::ThreadSafe, &[0, 3][..]),
        (HelperName::Specialize, &[3, 4][..]),
        (HelperName::ExternalTraitId, &[4][..]),
        (HelperName::ExternalTrait, &[5][..]),
    ];
    for (helper, valid_indexes) in expectations {
        for (index, target) in all_targets.into_iter().enumerate() {
            assert_eq!(
                helper.supports(target),
                valid_indexes.contains(&index),
                "unexpected target matrix entry for {} on {}",
                helper.as_str(),
                target.as_str()
            );
        }
    }
}

#[test]
fn helper_spellings_read_back() {
    for helper in ALL_HELPERS {
        assert_eq!(HelperName::from_str(helper.as_str()), Some(helper));
    }
    assert_eq!(HelperName::from_str("crate"), Some(HelperName::RuntimeCrate));
    assert_eq!(HelperName::from_str("Rename"), None);
    assert_eq!(HelperName::from_str("unknown_policy"), None);
    assert_eq!(HelperName::from_str(""), None);
}

#[test]
fn argument_grammars_follow_the_helper() {
    assert_eq!(list_grammar(HelperName::Capabilities), ListGrammarIr::Paths);
    assert_eq!(list_grammar(HelperName::DynCompatible), ListGrammarIr::Paths);
    assert_eq!(list_grammar(HelperName::Specialize), ListGrammarIr::Bindings);
    assert_eq!(list_grammar(HelperName::ExternalTrait), ListGrammarIr::ExternalTrait);
    assert_eq!(list_grammar(HelperName::Rename), ListGrammarIr::Unparsed);
}

#[test]
fn stable_identifiers_are_dotted_names() {
    assert!(stable_id_is_valid("core.marker.Send"));
    assert!(stable_id_is_valid("_private.v2"));
    assert!(!stable_id_is_valid(""));
    assert!(!stable_id_is_valid("core..Send"));
    assert!(!stable_id_is_valid(".core"));
    assert!(!stable_id_is_valid("core."));
    assert!(!stable_id_is_valid("2fast"));
    assert!(!stable_id_is_valid("core.marker-Send"));
}
