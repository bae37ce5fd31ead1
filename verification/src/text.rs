//! The texts that the library writes itself: the braces put round a sequence
//! of statements, and the messages of its diagnostics.

use vstd::prelude::*;
use vstd::string::StringExecFns;

verus! {

/// `text` between an opening and a closing brace, a space on each side.
pub open spec fn braced(text: Seq<char>) -> Seq<char> {
    "{ "@ + text + " }"@
}

/// The message for a text that cannot be broken into tokens.
pub open spec fn lex_failure_text() -> Seq<char> {
    "Failed to process input"@
}

/// What stands before the parser's own words when a block does not parse.
pub open spec fn block_failure_prefix() -> Seq<char> {
    "Failed to parse block: "@
}

/// What stands before the parser's own words when a declaration does not
/// parse.
pub open spec fn item_failure_prefix() -> Seq<char> {
    "Failed to parse item: "@
}

/// The message for tokens that are no block; `reason` is what the parser
/// said.
pub open spec fn block_failure_text(reason: Seq<char>) -> Seq<char> {
    block_failure_prefix() + reason
}

/// The message for tokens that are no declaration; `reason` is what the
/// parser said.
pub open spec fn item_failure_text(reason: Seq<char>) -> Seq<char> {
    item_failure_prefix() + reason
}

/// The name of the attribute, as the message for an unsupported declaration
/// shows it.
pub open spec fn attribute_label() -> Seq<char> {
    "#[verified_item] "@
}

/// The kinds of declaration that can be qualified, in words.
pub open spec fn supported_kinds_phrase() -> Seq<char> {
    "only supported on functions and impls"@
}

/// The message for a declaration that is neither a function nor an
/// implementation block.
pub open spec fn unsupported_text() -> Seq<char> {
    attribute_label() + supported_kinds_phrase()
}

/// The name of the macro by which a diagnostic reaches the compiler.
pub open spec fn error_marker() -> Seq<char> {
    "compile_error"@
}

/// A character that a string literal shows as it is: printable ASCII other
/// than the two quotes and the backslash.
pub open spec fn is_plain_char(c: char) -> bool {
    &&& 0x20 <= c as u32 <= 0x7e
    &&& c != '"'
    &&& c != '\''
    &&& c != '\\'
}

/// A text made of plain characters only.
pub open spec fn is_plain(text: Seq<char>) -> bool {
    forall|i: int| 0 <= i < text.len() ==> is_plain_char(#[trigger] text[i])
}

/// `part` occurs in `text` as a contiguous run of characters, starting at
/// `at`.
pub open spec fn occurs_at(text: Seq<char>, part: Seq<char>, at: int) -> bool {
    &&& 0 <= at
    &&& at + part.len() <= text.len()
    &&& text.subrange(at, at + part.len()) == part
}

/// `part` occurs somewhere in `text`.
pub open spec fn mentions(text: Seq<char>, part: Seq<char>) -> bool {
    exists|at: int| occurs_at(text, part, at)
}

/// Puts braces round the text of a sequence of statements.
pub fn brace_wrap(text: &str) -> (wrapped: String)
    ensures
        wrapped@ == braced(text@),
{
    let mut wrapped = String::from_str("{ ");
    wrapped.append(text);
    wrapped.append(" }");
    wrapped
}

/// The message for a text that cannot be broken into tokens.
pub fn lex_failure_message() -> (message: String)
    ensures
        message@ == lex_failure_text(),
{
    String::from_str("Failed to process input")
}

/// The message for tokens that are no block.
pub fn block_failure_message(reason: &str) -> (message: String)
    ensures
        message@ == block_failure_text(reason@),
{
    String::from_str("Failed to parse block: ").concat(reason)
}

/// The message for tokens that are no declaration.
pub fn item_failure_message(reason: &str) -> (message: String)
    ensures
        message@ == item_failure_text(reason@),
{
    String::from_str("Failed to parse item: ").concat(reason)
}

/// The message for a declaration that is neither a function nor an
/// implementation block.
pub fn unsupported_message() -> (message: String)
    ensures
        message@ == unsupported_text(),
{
    String::from_str("#[verified_item] ").concat("only supported on functions and impls")
}

/// A text mentions whatever one of its parts mentions.
pub proof fn lemma_mentions_within(text: Seq<char>, part: Seq<char>, inner: Seq<char>)
    requires
        mentions(text, part),
        mentions(part, inner),
    ensures
        mentions(text, inner),
{
    let a = choose|at: int| occurs_at(text, part, at);
    let b = choose|at: int| occurs_at(part, inner, at);
    assert(text.subrange(a + b, a + b + inner.len()) =~= text.subrange(
        a,
        a + part.len(),
    ).subrange(b, b + inner.len()));
    assert(occurs_at(text, inner, a + b));
}

/// A text that starts with `head` and goes on with `tail` mentions both.
pub proof fn lemma_mentions_parts(head: Seq<char>, tail: Seq<char>)
    ensures
        mentions(head + tail, head),
        mentions(head + tail, tail),
{
    let whole = head + tail;
    assert(whole.subrange(0, head.len() as int) =~= head);
    assert(occurs_at(whole, head, 0));
    assert(whole.subrange(head.len() as int, whole.len() as int) =~= tail);
    assert(occurs_at(whole, tail, head.len() as int));
}

/// Two plain texts, one after the other, make a plain text.
pub proof fn lemma_plain_parts(head: Seq<char>, tail: Seq<char>)
    requires
        is_plain(head),
        is_plain(tail),
    ensures
        is_plain(head + tail),
{
    let whole = head + tail;
    assert forall|i: int| 0 <= i < whole.len() implies is_plain_char(#[trigger] whole[i]) by {
        if i < head.len() {
            assert(whole[i] == head[i]);
        } else {
            assert(whole[i] == tail[i - head.len()]);
        }
    }
}

proof fn lemma_label_plain()
    ensures
        is_plain(attribute_label()),
{
    reveal_strlit("#[verified_item] ");
}

proof fn lemma_phrase_plain()
    ensures
        is_plain(supported_kinds_phrase()),
{
    reveal_strlit("only supported on functions and impls");
}

/// The words that the library puts before the parser's own are plain
/// characters, and so is the message for a text that does not tokenize.
pub proof fn lemma_fixed_texts_plain()
    ensures
        is_plain(lex_failure_text()),
        is_plain(block_failure_prefix()),
        is_plain(item_failure_prefix()),
{
    reveal_strlit("Failed to process input");
    reveal_strlit("Failed to parse block: ");
    reveal_strlit("Failed to parse item: ");
}

/// The message for an unsupported declaration is made of plain characters
/// and says which kinds are supported.
pub proof fn lemma_unsupported_text()
    ensures
        is_plain(unsupported_text()),
        mentions(unsupported_text(), supported_kinds_phrase()),
{
    lemma_label_plain();
    lemma_phrase_plain();
    lemma_plain_parts(attribute_label(), supported_kinds_phrase());
    lemma_mentions_parts(attribute_label(), supported_kinds_phrase());
}

} // verus!
