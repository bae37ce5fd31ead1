use verified_macros::text::{
    block_failure_message, item_failure_message, lex_failure_message, unsupported_message,
};

#[test]
fn the_messages_are_exact() {
    assert_eq!(lex_failure_message(), "Failed to process input");
    assert_eq!(
        block_failure_message("expected `;`"),
        "Failed to parse block: expected `;`"
    );
    assert_eq!(block_failure_message(""), "Failed to parse block: ");
    assert_eq!(
        item_failure_message("expected item"),
        "Failed to parse item: expected item"
    );
    assert_eq!(
        unsupported_message(),
        "#[verified_item] only supported on functions and impls"
    );
    assert!(unsupported_message().contains("only supported on functions and impls"));
}
