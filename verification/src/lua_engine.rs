//! The script host: owns the embedded Lua interpreter, loads and validates
//! script text, and performs the per-tick state-in/decision-out call.
//!
//! Every class of script misbehavior (syntax error, missing entry point,
//! runtime error, malformed return value) degrades to "no decision this
//! tick" and a message on the error surface; nothing unwinds past the host.

use vstd::prelude::*;
use vstd::string::StringExecFns;

use crate::direction::Direction;
use crate::game::{SnakeGame, GRID_SIZE, lemma_body_len_bounded};

verus! {

/// Holds the most recent script failure description for an external
/// observer to poll; reading consumes it.
pub struct ErrorSurface {
    /// The pending error message, if any.
    pub pending: Option<String>,
}

impl ErrorSurface {
    pub fn new() -> (s: ErrorSurface)
        ensures
            s.pending is None,
    {
        ErrorSurface { pending: None }
    }

    /// Records a message, overwriting any unread prior one.
    pub fn set(&mut self, msg: String)
        ensures
            final(self).pending == Some(msg),
    {
        self.pending = Some(msg);
    }

    /// Discards any pending message.
    pub fn clear(&mut self)
        ensures
            final(self).pending is None,
    {
        self.pending = None;
    }

    /// Atomically reads and clears the pending message.
    pub fn get_last_script_error(&mut self) -> (r: Option<String>)
        ensures
            r == old(self).pending,
            final(self).pending is None,
    {
        self.pending.take()
    }
}

#[verifier::external_type_specification]
#[verifier::external_body]
pub struct ExLua(mlua::Lua);

#[verifier::external_type_specification]
#[verifier::external_body]
pub struct ExTable(mlua::Table);

#[verifier::external_type_specification]
#[verifier::external_body]
pub struct ExFunction(mlua::Function);

/// Relies on mlua::Lua::new: creates a fresh interpreter with an empty
/// global scope.
#[verifier::external_body]
pub(crate) fn lua_new() -> mlua::Lua {
    mlua::Lua::new()
}

/// Relies on mlua::Lua::load and mlua::Chunk::exec: parses and runs the
/// given source text in the interpreter's global scope; `Err` carries the
/// interpreter's error text when the text fails to parse or run.
#[verifier::external_body]
pub(crate) fn lua_exec(lua: &mlua::Lua, code: &str) -> Result<(), String> {
    match lua.load(code).exec() {
        Ok(()) => Ok(()),
        Err(e) => Err(format!("{e}")),
    }
}

/// Relies on mlua::Table::get on the globals table: whether a global
/// function of this name exists.
#[verifier::external_body]
fn lua_has_function(lua: &mlua::Lua, name: &str) -> bool {
    lua.globals().get::<mlua::Function>(name).is_ok()
}

/// Relies on mlua::Table::get on the globals table: the global function of
/// this name, if one exists.
#[verifier::external_body]
fn lua_get_function(lua: &mlua::Lua, name: &str) -> Option<mlua::Function> {
    lua.globals().get::<mlua::Function>(name).ok()
}

/// Relies on mlua::Lua::create_table: a fresh empty table; `None` when the
/// interpreter cannot allocate one.
#[verifier::external_body]
fn lua_new_table(lua: &mlua::Lua) -> Option<mlua::Table> {
    lua.create_table().ok()
}

/// Relies on mlua::Table::set with a string key and an integer value;
/// reports whether the write succeeded.
#[verifier::external_body]
fn table_set_i64(t: &mlua::Table, key: &str, v: i64) -> bool {
    t.set(key, v).is_ok()
}

/// Relies on mlua::Table::set with a string key and a string value;
/// reports whether the write succeeded.
#[verifier::external_body]
fn table_set_str(t: &mlua::Table, key: &str, v: &str) -> bool {
    t.set(key, v).is_ok()
}

/// Relies on mlua::Table::set with a string key and a table value;
/// reports whether the write succeeded.
#[verifier::external_body]
fn table_set_table(t: &mlua::Table, key: &str, v: &mlua::Table) -> bool {
    t.set(key, v).is_ok()
}

/// Relies on mlua::Table::set with an integer key and a table value;
/// reports whether the write succeeded.
#[verifier::external_body]
fn table_set_at(t: &mlua::Table, i: i64, v: &mlua::Table) -> bool {
    t.set(i, v).is_ok()
}

/// Relies on mlua::Function::call: invokes the function synchronously with
/// the table as sole argument and coerces the returned value to a string;
/// `Err` carries the interpreter's error text when the call raises or the
/// value cannot be coerced.
#[verifier::external_body]
fn lua_call_string(f: &mlua::Function, arg: &mlua::Table) -> Result<String, String> {
    match f.call::<String>(arg) {
        Ok(s) => Ok(s),
        Err(e) => Err(format!("{e}")),
    }
}

/// The message recorded when script text fails to parse or run, around the
/// interpreter's own error text.
pub open spec fn syntax_error_message(raw: Seq<char>) -> Seq<char> {
    "Syntax error: "@ + raw
}

/// The message recorded when a loaded script exposes no `think` callable.
pub open spec fn missing_think_message() -> Seq<char> {
    "Script must define a `think(state)` function"@
}

/// The message recorded when `think` returns a value outside the four
/// accepted direction strings.
pub open spec fn invalid_output_message(v: Seq<char>) -> Seq<char> {
    "think() returned '"@ + v + "', expected 'north', 'south', 'east', or 'west'"@
}

/// The message recorded when `think` raises during execution, around the
/// interpreter's own error text.
pub open spec fn runtime_error_message(raw: Seq<char>) -> Seq<char> {
    "Runtime error in think(): "@ + raw
}

/// What one load, with outcome `ok`, leaves on the host: the callable flag
/// mirrors the outcome, a success clears the error surface, and a failure
/// records a syntax or missing-entry-point message.
pub open spec fn load_post(e: LuaEngine, ok: bool) -> bool {
    &&& e.spec_loaded() == ok
    &&& (ok ==> e.spec_error() is None)
    &&& (!ok ==> (e.spec_error() matches Some(m) && ((exists|raw: Seq<char>|
        m@ == syntax_error_message(raw)) || m@ == missing_think_message())))
}

/// Owns exactly one embedded interpreter and the "script is callable" flag,
/// which is the single source of truth for whether `call_think` may be
/// attempted.
pub struct LuaEngine {
    lua: mlua::Lua,
    /// True only after a load that both ran and exposed `think`.
    pub script_loaded: bool,
    /// Where script failures are recorded for the external observer.
    pub errors: ErrorSurface,
}

impl LuaEngine {
    /// Whether a loaded script is currently callable.
    pub closed spec fn spec_loaded(self) -> bool {
        self.script_loaded
    }

    /// The message pending on the host's error surface, if any.
    pub closed spec fn spec_error(self) -> Option<String> {
        self.errors.pending
    }

    /// A fresh host: no script loaded, no pending error.
    pub fn new() -> (e: LuaEngine)
        ensures
            !e.spec_loaded(),
            e.spec_error() is None,
    {
        LuaEngine { lua: lua_new(), script_loaded: false, errors: ErrorSurface::new() }
    }

    /// Parses and executes the given script text, discarding all prior
    /// interpreter state. Succeeds exactly when the text runs and defines a
    /// `think` callable; then any previous error is cleared. On failure the
    /// host becomes non-callable and a syntax or missing-entry-point
    /// message is recorded.
    pub fn load_script(&mut self, code: &str) -> (r: bool)
        ensures
            load_post(*final(self), r),
    {
        match lua_exec(&self.lua, code) {
            Err(raw) => {
                let msg = String::from_str("Syntax error: ").concat(raw.as_str());
                proof {
                    assert(msg@ == syntax_error_message(raw@));
                }
                self.errors.set(msg);
                self.script_loaded = false;
                false
            },
            Ok(()) => {
                if lua_has_function(&self.lua, "think") {
                    self.errors.clear();
                    self.script_loaded = true;
                    true
                } else {
                    let msg = String::from_str("Script must define a `think(state)` function");
                    self.errors.set(msg);
                    self.script_loaded = false;
                    false
                }
            },
        }
    }

    /// Asks the script for this tick's decision. Returns `None` without
    /// touching the interpreter when the host is not callable. Otherwise
    /// marshals the state into the script's value model, invokes `think`
    /// exactly once, and validates the returned string; any failure yields
    /// `None` with a runtime or invalid-output message recorded, and a
    /// valid direction string leaves the error surface untouched.
    pub fn call_think(&mut self, game: &SnakeGame) -> (r: Option<Direction>)
        requires
            game.wf_core(),
        ensures
            final(self).spec_loaded() == old(self).spec_loaded(),
            !old(self).spec_loaded() ==> r is None && *final(self) == *old(self),
            r is Some ==> final(self).spec_error() == old(self).spec_error(),
            r is None ==> final(self).spec_error() == old(self).spec_error() || (
            final(self).spec_error() matches Some(m) && ((exists|v: Seq<char>|
                m@ == invalid_output_message(v)) || (exists|raw: Seq<char>|
                m@ == runtime_error_message(raw)))),
    {
        if !self.script_loaded {
            return None;
        }
        let think = match lua_get_function(&self.lua, "think") {
            Some(f) => f,
            None => {
                return None;
            },
        };
        let state = match lua_new_table(&self.lua) {
            Some(t) => t,
            None => {
                return None;
            },
        };

        // snake array (1-indexed, head first)
        let snake_table = match lua_new_table(&self.lua) {
            Some(t) => t,
            None => {
                return None;
            },
        };
        let n = game.snake.len();
        proof {
            lemma_body_len_bounded(game.snake@);
        }
        let mut i: usize = 0;
        while i < n
            invariant
                i <= n,
                n == game.snake@.len(),
                n <= GRID_SIZE * GRID_SIZE,
            decreases n - i,
        {
            let pos = match lua_new_table(&self.lua) {
                Some(t) => t,
                None => {
                    return None;
                },
            };
            let c = game.snake[i];
            if !table_set_i64(&pos, "x", c.0 as i64) {
                return None;
            }
            if !table_set_i64(&pos, "y", c.1 as i64) {
                return None;
            }
            if !table_set_at(&snake_table, (i + 1) as i64, &pos) {
                return None;
            }
            i = i + 1;
        }
        if !table_set_table(&state, "snake", &snake_table) {
            return None;
        }

        let food_table = match lua_new_table(&self.lua) {
            Some(t) => t,
            None => {
                return None;
            },
        };
        if !table_set_i64(&food_table, "x", game.food.0 as i64) {
            return None;
        }
        if !table_set_i64(&food_table, "y", game.food.1 as i64) {
            return None;
        }
        if !table_set_table(&state, "food", &food_table) {
            return None;
        }

        if !table_set_str(&state, "direction", game.direction.as_str()) {
            return None;
        }
        if !table_set_i64(&state, "grid_size", GRID_SIZE as i64) {
            return None;
        }
        if !table_set_i64(&state, "score", game.score as i64) {
            return None;
        }

        match lua_call_string(&think, &state) {
            Ok(value) => {
                match Direction::from_str(value.as_str()) {
                    Some(d) => Some(d),
                    None => {
                        let msg = String::from_str("think() returned '").concat(
                            value.as_str(),
                        ).concat("', expected 'north', 'south', 'east', or 'west'");
                        proof {
                            assert(msg@ == invalid_output_message(value@));
                        }
                        self.errors.set(msg);
                        None
                    },
                }
            },
            Err(raw) => {
                let msg = String::from_str("Runtime error in think(): ").concat(raw.as_str());
                proof {
                    assert(msg@ == runtime_error_message(raw@));
                }
                self.errors.set(msg);
                None
            },
        }
    }
}

} // verus!
