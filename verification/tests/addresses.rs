use stacktrader_systems::address::{
    call_subject, component_key, component_resource, containing_entity, entity_resource,
    resource_path, store_key, Verb,
};
use stacktrader_systems::failure::{Failure, FailureKind};
use stacktrader_systems::text::{nth_piece, replace_char, same_text, split_on};

#[test]
fn component_key_is_colon_delimited() {
    assert_eq!(
        component_key("the_shard", "ship", "extractor"),
        "decs:components:the_shard:ship:extractor"
    );
    assert_eq!(component_key("", "", ""), "decs:components:::");
}

#[test]
fn resource_paths_are_dot_delimited() {
    assert_eq!(entity_resource("the_shard", "ship"), "decs.components.the_shard.ship");
    assert_eq!(
        component_resource("the_shard", "ship", "inventory"),
        "decs.components.the_shard.ship.inventory"
    );
}

#[test]
fn call_subject_names_the_verb() {
    assert_eq!(call_subject("decs.shard.the_void", Verb::Replace), "call.decs.shard.the_void.set");
    assert_eq!(call_subject("decs.shard.the_void", Verb::Append), "call.decs.shard.the_void.new");
    assert_eq!(
        call_subject("decs.shard.the_void", Verb::Delete),
        "call.decs.shard.the_void.delete"
    );
}

#[test]
fn keys_and_paths_differ_in_their_separator_only() {
    assert_eq!(store_key("decs.components.s.e:c"), "decs:components:s:e:c");
    assert_eq!(resource_path("decs:components.s:e:c"), "decs.components.s.e.c");
    assert_eq!(resource_path(&store_key("decs.components.s.e.c")), "decs.components.s.e.c");
    assert_eq!(store_key(""), "");
}

#[test]
fn containing_entity_is_the_fourth_segment() {
    assert_eq!(
        containing_entity("decs.components.the_shard.asteroid.mining_resource"),
        Some("asteroid".to_string())
    );
    assert_eq!(
        containing_entity(&component_resource("the_shard", "asteroid", "a.b.c")),
        Some("asteroid".to_string())
    );
    assert_eq!(containing_entity("decs.components.the_shard.asteroid"), Some("asteroid".to_string()));
    assert_eq!(containing_entity("decs.components.the_shard."), Some(String::new()));
    assert_eq!(containing_entity("decs.components.the_shard"), None);
    assert_eq!(containing_entity(""), None);
}

#[test]
fn splitting_keeps_empty_pieces() {
    assert_eq!(split_on("", '.'), vec![String::new()]);
    assert_eq!(split_on("abc", '.'), vec!["abc".to_string()]);
    assert_eq!(split_on("a.b", '.'), vec!["a".to_string(), "b".to_string()]);
    assert_eq!(
        split_on(".a..b.", '.'),
        vec![String::new(), "a".to_string(), String::new(), "b".to_string(), String::new()]
    );
    assert_eq!(nth_piece("a.b.c", '.', 0), Some("a".to_string()));
    assert_eq!(nth_piece("a.b.c", '.', 2), Some("c".to_string()));
    assert_eq!(nth_piece("a.b.c", '.', 3), None);
    assert_eq!(nth_piece("a.b.c", '.', usize::MAX), None);
    assert_eq!(nth_piece("a\u{e9}.\u{4e16}\u{754c}", '.', 1), Some("\u{4e16}\u{754c}".to_string()));
}

#[test]
fn replacing_rewrites_every_occurrence() {
    assert_eq!(replace_char("a.b.c", '.', ':'), "a:b:c");
    assert_eq!(replace_char("...", '.', ':'), ":::");
    assert_eq!(replace_char("abc", '.', ':'), "abc");
    assert_eq!(replace_char("a:b", '.', ':'), "a:b");
    assert!(same_text("abc", "abc"));
    assert!(!same_text("abc", "abd"));
    assert!(!same_text("abc", "ab"));
    assert!(same_text("", ""));
}

#[test]
fn each_failure_has_its_class_and_its_text() {
    let all = [
        (Failure::MissingTarget, FailureKind::NotFound, "Resource mining target did not exist"),
        (
            Failure::MissingTransponder,
            FailureKind::NotFound,
            "attempted to retrieve non-existent transponder",
        ),
        (
            Failure::UnreadableReceiver,
            FailureKind::DeserializeError,
            "unable to retrieve radar receiver",
        ),
        (Failure::UnreadablePosition, FailureKind::DeserializeError, "unable to retrieve position"),
        (
            Failure::UnreadableExtractor,
            FailureKind::DeserializeError,
            "unable to retrieve extractor",
        ),
        (
            Failure::UnreadableResource,
            FailureKind::DeserializeError,
            "unable to retrieve mining resource",
        ),
        (
            Failure::UnreadableTransponder,
            FailureKind::DeserializeError,
            "unable to retrieve transponder",
        ),
        (Failure::PublishFailed, FailureKind::PublishFailure, "Error publishing message"),
        (
            Failure::MalformedTarget,
            FailureKind::MalformedIdentifier,
            "extractor target does not name an asteroid",
        ),
        (
            Failure::MalformedSubject,
            FailureKind::MalformedIdentifier,
            "position subject does not name an entity",
        ),
    ];
    for (failure, kind, text) in all {
        assert_eq!(failure.kind(), kind);
        assert_eq!(failure.message(), text);
    }
}
