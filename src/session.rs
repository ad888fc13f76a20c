//! The state a query session carries: the shared schema, which lives as long as
//! the session, and the aliases and bindings of the current query, which are
//! cleared before the next one; and what the interactive loop does with a line.
use vstd::prelude::*;
use crate::schema::Schema;
use crate::values::Value;

verus! {

/// Whether some entry of `entries` is named `name`.
pub open spec fn alias_visible(entries: Seq<(String, String)>, name: Seq<char>) -> bool {
    exists|i: int| 0 <= i < entries.len() && (#[trigger] entries[i]).0@ == name
}

/// Whether some binding of `entries` is named `name`.
pub open spec fn binding_visible(entries: Seq<(String, Value)>, name: Seq<char>) -> bool {
    exists|i: int| 0 <= i < entries.len() && (#[trigger] entries[i]).0@ == name
}

/// The context of a session, as a model of the reset between queries: the
/// query engine that runs the program keeps this state in an environment of
/// its own and clears it the same way, and this type states and proves what
/// that reset must leave behind.
pub struct Session {
    pub schema: Schema,
    /// Table aliases of the current query: alias, then table name.
    pub aliases: Vec<(String, String)>,
    /// Named values of the current query.
    pub bindings: Vec<(String, Value)>,
}

impl Session {
    /// A session over `schema`, with no query state yet.
    pub fn new(schema: Schema) -> (r: Session)
        ensures
            r.schema == schema,
            r.aliases@.len() == 0,
            r.bindings@.len() == 0,
    {
        Session { schema, aliases: Vec::new(), bindings: Vec::new() }
    }

    /// Makes `alias` stand for `table` in the current query.
    pub fn define_alias(&mut self, alias: String, table: String)
        ensures
            final(self).aliases@ == old(self).aliases@.push((alias, table)),
            final(self).bindings == old(self).bindings,
            final(self).schema == old(self).schema,
    {
        self.aliases.push((alias, table));
    }

    /// Binds `name` to `value` in the current query.
    pub fn define_binding(&mut self, name: String, value: Value)
        ensures
            final(self).bindings@ == old(self).bindings@.push((name, value)),
            final(self).aliases == old(self).aliases,
            final(self).schema == old(self).schema,
    {
        self.bindings.push((name, value));
    }

    /// Whether `name` is an alias in the current query.
    pub fn has_alias(&self, name: &String) -> (r: bool)
        ensures
            r == alias_visible(self.aliases@, name@),
    {
        let mut i: usize = 0;
        while i < self.aliases.len()
            invariant
                0 <= i <= self.aliases@.len(),
                forall|k: int| 0 <= k < i ==> (#[trigger] self.aliases@[k]).0@ != name@,
            decreases self.aliases@.len() - i,
        {
            if self.aliases[i].0 == *name {
                return true;
            }
            i += 1;
        }
        false
    }

    /// Whether `name` is bound in the current query.
    pub fn has_binding(&self, name: &String) -> (r: bool)
        ensures
            r == binding_visible(self.bindings@, name@),
    {
        let mut i: usize = 0;
        while i < self.bindings.len()
            invariant
                0 <= i <= self.bindings@.len(),
                forall|k: int| 0 <= k < i ==> (#[trigger] self.bindings@[k]).0@ != name@,
            decreases self.bindings@.len() - i,
        {
            if self.bindings[i].0 == *name {
                return true;
            }
            i += 1;
        }
        false
    }

    /// Ends the current query: no alias or binding it defined stays visible,
    /// and the schema is kept.
    pub fn clear_session(&mut self)
        ensures
            final(self).schema == old(self).schema,
            final(self).aliases@.len() == 0,
            final(self).bindings@.len() == 0,
            forall|name: Seq<char>|
                !alias_visible(final(self).aliases@, name) && !binding_visible(
                    final(self).bindings@,
                    name,
                ),
    {
        self.aliases = Vec::new();
        self.bindings = Vec::new();
    }
}

/// What the interactive loop does with a line of input.
#[derive(Clone, Copy, Debug, PartialEq, Eq, Structural)]
pub enum InputAction {
    /// Nothing to run: wait for the next line.
    Skip,
    /// Leave the loop.
    Exit,
    /// Run the line as a query.
    Run,
}

/// An empty line (or a lone line break) is skipped, `exit` leaves, anything
/// else is a query.
pub open spec fn input_action(line: Seq<char>) -> InputAction {
    if line.len() == 0 || line == "\n"@ {
        InputAction::Skip
    } else if line == "exit"@ {
        InputAction::Exit
    } else {
        InputAction::Run
    }
}

/// What to do with a line of input.
pub fn classify_input(line: &str) -> (r: InputAction)
    ensures
        r == input_action(line@),
{
    let text = String::from_str(line);
    if line.is_empty() || text == String::from_str("\n") {
        InputAction::Skip
    } else if text == String::from_str("exit") {
        InputAction::Exit
    } else {
        InputAction::Run
    }
}

} // verus!
