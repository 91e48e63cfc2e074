//! The agent model: a named piece of script source owned by a user for one
//! game, with validation of the name and of the source text.

use vstd::prelude::*;
use vstd::string::StrSliceExecFns;
use vstd::utf8::encode_utf8;

use crate::lua_engine::{lua_exec, lua_new};

verus! {

/// What can be wrong with a submitted agent.
#[derive(Debug)]
pub enum AgentError {
    /// The name is empty after trimming.
    NameEmpty,
    /// The trimmed name is over 50 bytes long.
    NameTooLong,
    /// The trimmed name holds a character outside letters, numbers, spaces,
    /// hyphens and underscores.
    NameInvalidCharacters,
    /// The code is empty after trimming.
    CodeEmpty,
    /// The code is not valid Lua; carries the interpreter's message with
    /// its chunk-position prefix stripped.
    InvalidLuaSyntax(String),
}

impl AgentError {
    /// A human-readable description of the error.
    pub fn message(&self) -> (m: String)
        ensures
            self is NameEmpty ==> m@ == "Agent name is required."@,
            self is NameTooLong ==> m@ == "Agent name must be at most 50 characters."@,
            self is NameInvalidCharacters ==> m@
                == "Agent name can only contain letters, numbers, spaces, hyphens, and underscores."@,
            self is CodeEmpty ==> m@ == "Agent code is required."@,
            self matches AgentError::InvalidLuaSyntax(d) ==> m@ == "Invalid Lua syntax: "@ + d@,
    {
        match self {
            AgentError::NameEmpty => String::from_str("Agent name is required."),
            AgentError::NameTooLong => String::from_str(
                "Agent name must be at most 50 characters.",
            ),
            AgentError::NameInvalidCharacters => String::from_str(
                "Agent name can only contain letters, numbers, spaces, hyphens, and underscores.",
            ),
            AgentError::CodeEmpty => String::from_str("Agent code is required."),
            AgentError::InvalidLuaSyntax(d) => String::from_str("Invalid Lua syntax: ").concat(
                d.as_str(),
            ),
        }
    }
}

/// What `str::trim` removes cannot be stated shortly (Unicode whitespace on
/// both ends), so the result is named.
pub uninterp spec fn trim_of(s: Seq<char>) -> Seq<char>;

/// Relies on str::trim: the input without leading and trailing whitespace.
#[verifier::external_body]
fn str_trim(s: &str) -> (r: &str)
    ensures
        r@ == trim_of(s@),
{
    s.trim()
}

/// Whether a character is Unicode alphanumeric is a table lookup too large
/// to state, so the result is named.
pub uninterp spec fn is_alphanumeric_char(c: char) -> bool;

/// Relies on char::is_alphanumeric: whether the character is alphabetic or
/// numeric under Unicode.
#[verifier::external_body]
fn char_is_alphanumeric(c: char) -> (r: bool)
    ensures
        r == is_alphanumeric_char(c),
{
    c.is_alphanumeric()
}

/// Relies on str::len: the length of the string in bytes (which, for a
/// slice held in memory, always fits in usize).
#[verifier::external_body]
fn str_byte_len(s: &str) -> (r: usize)
    ensures
        r as int == encode_utf8(s@).len(),
{
    s.len()
}

/// A character acceptable in an agent name.
pub open spec fn valid_name_char(c: char) -> bool {
    is_alphanumeric_char(c) || c == ' ' || c == '-' || c == '_'
}

/// Every character of the sequence is acceptable in an agent name.
pub open spec fn valid_name_chars(s: Seq<char>) -> bool {
    forall|i: int| 0 <= i < s.len() ==> valid_name_char(#[trigger] s[i])
}

/// Validates an agent name: after trimming it must be non-empty, at most 50
/// bytes, and hold only letters, numbers, spaces, hyphens and underscores.
pub fn validate_agent_name(name: &str) -> (r: Result<(), AgentError>)
    ensures
        ({
            let t = trim_of(name@);
            &&& (r is Ok <==> t.len() > 0 && encode_utf8(t).len() <= 50 && valid_name_chars(t))
            &&& (r == Err::<(), AgentError>(AgentError::NameEmpty) <==> t.len() == 0)
            &&& (r == Err::<(), AgentError>(AgentError::NameTooLong) <==> t.len() > 0
                && encode_utf8(t).len() > 50)
            &&& (r == Err::<(), AgentError>(AgentError::NameInvalidCharacters) <==> t.len() > 0
                && encode_utf8(t).len() <= 50 && !valid_name_chars(t))
        }),
{
    let trimmed = str_trim(name);
    let n = trimmed.unicode_len();

    if n == 0 {
        return Err(AgentError::NameEmpty);
    }

    if str_byte_len(trimmed) > 50 {
        return Err(AgentError::NameTooLong);
    }

    // Allow alphanumeric, spaces, hyphens, and underscores
    let mut i: usize = 0;
    while i < n
        invariant
            i <= n,
            n == trimmed@.len(),
            n > 0,
            trimmed@ == trim_of(name@),
            encode_utf8(trimmed@).len() <= 50,
            forall|j: int| 0 <= j < i ==> valid_name_char(#[trigger] trimmed@[j]),
        decreases n - i,
    {
        let c = trimmed.get_char(i);
        if !(char_is_alphanumeric(c) || c == ' ' || c == '-' || c == '_') {
            proof {
                let k = i as int;
                assert(0 <= k < trimmed@.len() && !valid_name_char(trimmed@[k]));
                assert(!valid_name_chars(trimmed@));
            }
            return Err(AgentError::NameInvalidCharacters);
        }
        i = i + 1;
    }
    proof {
        assert(valid_name_chars(trimmed@));
    }
    Ok(())
}

/// A chunk-position marker `]:`, as the interpreter prefixes its messages
/// with `[string "..."]:line:`.
pub open spec fn marker_at(s: Seq<char>, i: int) -> bool {
    0 <= i && i + 2 <= s.len() && s[i] == ']' && s[i + 1] == ':'
}

/// Strips the interpreter's chunk-position prefix from an error message:
/// everything up to and including the first `]:` goes, and the remainder is
/// trimmed; a message without the marker is returned whole.
pub fn clean_lua_error_message(msg: &str) -> (r: String)
    ensures
        (forall|j: int| !marker_at(msg@, j)) ==> r@ == msg@,
        (exists|j: int| marker_at(msg@, j)) ==> (exists|i: int|
            {
                &&& marker_at(msg@, i)
                &&& (forall|j: int| 0 <= j < i ==> !marker_at(msg@, j))
                &&& r@ == trim_of(msg@.skip(i + 2))
            }),
{
    let n = msg.unicode_len();
    let mut i: usize = 0;
    while i < n && i + 1 < n
        invariant
            i <= n,
            n == msg@.len(),
            forall|j: int| 0 <= j < i ==> !marker_at(msg@, j),
        decreases n - i,
    {
        if msg.get_char(i) == ']' && msg.get_char(i + 1) == ':' {
            let rest = msg.substring_char(i + 2, n);
            let cleaned = str_trim(rest);
            proof {
                assert(marker_at(msg@, i as int));
                assert(rest@ == msg@.skip(i + 2));
            }
            return cleaned.to_owned();
        }
        i = i + 1;
    }
    proof {
        assert forall|j: int| !marker_at(msg@, j) by {
            if j >= i {
                assert(j + 2 > n);
            }
        }
    }
    msg.to_owned()
}

/// Validates agent code: it must be non-empty after trimming, and load as
/// valid Lua; the interpreter alone decides the latter.
pub fn validate_agent_code(code: &str) -> (r: Result<(), AgentError>)
    ensures
        (r == Err::<(), AgentError>(AgentError::CodeEmpty) <==> trim_of(code@).len() == 0),
        trim_of(code@).len() > 0 ==> r is Ok || (r matches Err(e) && e is InvalidLuaSyntax),
{
    let trimmed = str_trim(code);
    if trimmed.unicode_len() == 0 {
        return Err(AgentError::CodeEmpty);
    }

    // Validate Lua syntax by attempting to load the code
    let lua = lua_new();
    match lua_exec(&lua, code) {
        Ok(()) => Ok(()),
        Err(raw) => Err(AgentError::InvalidLuaSyntax(clean_lua_error_message(raw.as_str()))),
    }
}

/// Represents a user's AI agent for a specific game.
#[derive(Debug)]
pub struct Agent {
    pub id: i64,
    pub user_id: i64,
    pub game_id: i64,
    pub name: String,
    pub code: String,
    pub created_at: String,
    pub updated_at: String,
}

/// Request payload for creating a new agent.
#[derive(Debug)]
pub struct CreateAgentRequest {
    pub game_id: i64,
    pub name: String,
    pub code: String,
}

/// Request payload for updating an existing agent.
#[derive(Debug)]
pub struct UpdateAgentRequest {
    pub name: Option<String>,
    pub code: Option<String>,
}

} // verus!
