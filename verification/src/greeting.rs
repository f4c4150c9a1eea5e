//! The greeting command: a name comes in, a sentence that holds it goes out.

use vstd::prelude::*;
use vstd::utf8::encode_utf8;

verus! {

/// What stands before the name in every greeting.
pub const GREETING_PREFIX: &'static str = "Hello, ";

/// What stands behind the name in every greeting.
pub const GREETING_SUFFIX: &'static str = "! You've been greeted from Rust!";

/// The greeting for `name`: the prefix, the name as it is, the suffix.
pub open spec fn greeting(name: Seq<char>) -> Seq<char> {
    GREETING_PREFIX@ + name + GREETING_SUFFIX@
}

/// Greets `name`. Every text is accepted, the empty one too, and nothing of it
/// is trimmed, escaped or cut.
pub fn greet(name: &str) -> (message: String)
    ensures
        message@ == greeting(name@),
{
    let mut message = String::from_str(GREETING_PREFIX);
    message.append(name);
    message.append(GREETING_SUFFIX);
    message
}

/// The name stands in its greeting once and whole: the greeting is as long as
/// the two fixed parts and the name together, it begins with the prefix, ends
/// with the suffix, and what lies between them is the name, character for
/// character.
pub proof fn lemma_greeting_holds_name(name: Seq<char>)
    ensures
        GREETING_PREFIX@.len() == 7,
        GREETING_SUFFIX@.len() == 32,
        greeting(name).len() == name.len() + 39,
        greeting(name).subrange(0, 7) == GREETING_PREFIX@,
        greeting(name).subrange(7, 7 + name.len() as int) == name,
        greeting(name).subrange(7 + name.len() as int, 39 + name.len() as int) == GREETING_SUFFIX@,
{
    reveal_strlit("Hello, ");
    reveal_strlit("! You've been greeted from Rust!");
}

/// The same name always gets the same greeting, byte for byte of its UTF-8
/// text: the greeting depends on the characters of the name and on nothing
/// else.
pub proof fn lemma_same_name_same_greeting(first: Seq<char>, second: Seq<char>)
    requires
        first == second,
    ensures
        greeting(first) == greeting(second),
        encode_utf8(greeting(first)) == encode_utf8(greeting(second)),
{
}

/// Two greetings are equal only if their names are: no greeting can be taken
/// for the answer to another name.
pub proof fn lemma_greeting_tells_names_apart(first: Seq<char>, second: Seq<char>)
    ensures
        greeting(first) == greeting(second) <==> first == second,
{
    lemma_greeting_holds_name(first);
    lemma_greeting_holds_name(second);
}

} // verus!
