//! Severity levels and the tokens that name them.

use vstd::prelude::*;
use crate::text::equal;

verus! {

/// The severity of a log event.
#[derive(Clone, Copy, Debug, PartialEq, Eq, Structural)]
pub enum Level {
    Debug,
    Info,
    Warning,
    Error,
}

/// The level that a token names. Tokens are compared exactly, so upper-case
/// spellings name nothing; whatever names nothing is `Info`.
pub open spec fn level_of(token: Seq<char>) -> Level {
    if token == "debug"@ {
        Level::Debug
    } else if token == "info"@ {
        Level::Info
    } else if token == "warning"@ {
        Level::Warning
    } else if token == "error"@ {
        Level::Error
    } else {
        Level::Info
    }
}

impl Level {
    /// The level that `token` names, `Info` where it names none.
    pub fn from_token(token: &str) -> (level: Level)
        ensures
            level == level_of(token@),
    {
        if equal(token, "debug") {
            Level::Debug
        } else if equal(token, "info") {
            Level::Info
        } else if equal(token, "warning") {
            Level::Warning
        } else if equal(token, "error") {
            Level::Error
        } else {
            Level::Info
        }
    }
}

/// Each level other than `Info` is named by exactly one token, and every
/// other token, the empty one and upper-case spellings included, names `Info`.
pub proof fn lemma_level_mapping(token: Seq<char>)
    ensures
        level_of(token) == Level::Debug <==> token == "debug"@,
        level_of(token) == Level::Warning <==> token == "warning"@,
        level_of(token) == Level::Error <==> token == "error"@,
        level_of(token) == Level::Info <==> (token != "debug"@ && token != "warning"@ && token
            != "error"@),
        level_of("info"@) == Level::Info,
        level_of("DEBUG"@) == Level::Info,
        level_of(Seq::<char>::empty()) == Level::Info,
{
    reveal_strlit("debug");
    reveal_strlit("info");
    reveal_strlit("warning");
    reveal_strlit("error");
    reveal_strlit("DEBUG");
    assert("debug"@.len() == 5);
    assert("warning"@.len() == 7);
    assert("error"@.len() == 5);
    assert(Seq::<char>::empty().len() == 0);
    assert("debug"@[0] == 'd');
    assert("info"@[0] == 'i');
    assert("warning"@[0] == 'w');
    assert("error"@[0] == 'e');
    assert("DEBUG"@[0] == 'D');
}

} // verus!
