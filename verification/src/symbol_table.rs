//! The symbol environment: a mapping from a name key (variable name, or
//! `"<name>()"` for functions) to its declaring statement.
//!
//! The model of a table is a [`Map`] from the key's characters to the
//! statement's image; insertion overwrites, so a later declaration with the
//! same key silently shadows the earlier one.

use vstd::prelude::*;

use crate::ast::{Stmt, StmtSpec};
use crate::lexer::str_eq;

verus! {

/// The shared lookup/insert service consulted by the parser (to disambiguate)
/// and by the interpreter (to resolve names).
pub struct SymbolTable {
    entries: Vec<(String, Stmt)>,
}

/// The map a run of entries stands for: entries are read in order, a later
/// entry with the same key winning over an earlier one.
pub open spec fn map_of(s: Seq<(String, Stmt)>) -> Map<Seq<char>, StmtSpec>
    decreases s.len(),
{
    if s.len() == 0 {
        Map::empty()
    } else {
        map_of(s.drop_last()).insert(s.last().0@, s.last().1.deep_view())
    }
}

/// Names bound as constants by the evaluator itself, visible to the parser as
/// variables.
pub open spec fn spec_is_builtin_constant(n: Seq<char>) -> bool {
    n == "pi"@ || n == "e"@
}

/// Function names the evaluator itself defines, visible to the parser as
/// functions.
pub open spec fn spec_is_builtin_fn(n: Seq<char>) -> bool {
    ||| n == "abs"@
    ||| n == "ceil"@
    ||| n == "floor"@
    ||| n == "round"@
    ||| n == "sqrt"@
    ||| n == "ln"@
    ||| n == "log"@
    ||| n == "sin"@
    ||| n == "cos"@
    ||| n == "tan"@
    ||| n == "asin"@
    ||| n == "acos"@
    ||| n == "atan"@
}

/// Whether `n` names a variable: a builtin constant, or a table entry under
/// the bare name.
pub open spec fn spec_contains_var(st: Map<Seq<char>, StmtSpec>, n: Seq<char>) -> bool {
    spec_is_builtin_constant(n) || st.contains_key(n)
}

/// Whether `n` names a function: a builtin, or a table entry under the key
/// `n + "()"`.
pub open spec fn spec_contains_fn(st: Map<Seq<char>, StmtSpec>, n: Seq<char>) -> bool {
    spec_is_builtin_fn(n) || st.contains_key(n + "()"@)
}

/// Whether `n` names a builtin constant (exec mirror of
/// [`spec_is_builtin_constant`]).
pub fn is_builtin_constant(n: &str) -> (r: bool)
    ensures
        r == spec_is_builtin_constant(n@),
{
    str_eq(n, "pi") || str_eq(n, "e")
}

/// Whether `n` names a builtin function (exec mirror of
/// [`spec_is_builtin_fn`]).
pub fn is_builtin_fn(n: &str) -> (r: bool)
    ensures
        r == spec_is_builtin_fn(n@),
{
    str_eq(n, "abs") || str_eq(n, "ceil") || str_eq(n, "floor") || str_eq(n, "round")
        || str_eq(n, "sqrt") || str_eq(n, "ln") || str_eq(n, "log") || str_eq(n, "sin")
        || str_eq(n, "cos") || str_eq(n, "tan") || str_eq(n, "asin") || str_eq(n, "acos")
        || str_eq(n, "atan")
}

impl View for SymbolTable {
    type V = Map<Seq<char>, StmtSpec>;

    closed spec fn view(&self) -> Map<Seq<char>, StmtSpec> {
        map_of(self.entries@)
    }
}

impl SymbolTable {
    /// An empty table.
    pub fn new() -> (r: SymbolTable)
        ensures
            r@ == Map::<Seq<char>, StmtSpec>::empty(),
    {
        SymbolTable { entries: Vec::new() }
    }

    /// Binds `key` to `stmt`, overwriting any earlier binding of `key`.
    pub fn insert(&mut self, key: &str, stmt: Stmt)
        ensures
            final(self)@ == old(self)@.insert(key@, stmt.deep_view()),
    {
        let k: String = key.to_owned();
        self.entries.push((k, stmt));
        proof {
            assert(self.entries@.drop_last() =~= old(self).entries@);
        }
    }

    /// Binds `key` to `stmt`; the same operation as [`Self::insert`].
    pub fn set(&mut self, key: &str, stmt: Stmt)
        ensures
            final(self)@ == old(self)@.insert(key@, stmt.deep_view()),
    {
        self.insert(key, stmt);
    }

    /// Looks `key` up, returning the latest statement bound to it.
    pub fn get(&self, key: &str) -> (r: Option<&Stmt>)
        ensures
            match r {
                Some(stmt) => self@.contains_key(key@) && stmt.deep_view() == self@[key@],
                None => !self@.contains_key(key@),
            },
    {
        let ghost s = self.entries@;
        let mut i: usize = self.entries.len();
        proof {
            assert(s.take(s.len() as int) =~= s);
        }
        while i > 0
            invariant
                i <= s.len(),
                s == self.entries@,
                map_of(s).contains_key(key@) == map_of(s.take(i as int)).contains_key(key@),
                map_of(s).contains_key(key@) ==> map_of(s)[key@] == map_of(
                    s.take(i as int),
                )[key@],
            decreases i,
        {
            proof {
                assert(s.take(i as int).drop_last() =~= s.take(i - 1));
                assert(s.take(i as int).last() == s[i - 1]);
            }
            let entry = &self.entries[i - 1];
            if str_eq(entry.0.as_str(), key) {
                return Some(&entry.1);
            }
            i = i - 1;
        }
        proof {
            assert(s.take(0) =~= Seq::<(String, Stmt)>::empty());
        }
        None
    }

    /// Whether `key` is bound in the table itself.
    pub fn contains_key(&self, key: &str) -> (r: bool)
        ensures
            r == self@.contains_key(key@),
    {
        self.get(key).is_some()
    }

    /// Whether `name` resolves as a variable: a builtin constant, or an entry
    /// under the bare name.
    pub fn contains_var(&self, name: &str) -> (r: bool)
        ensures
            r == spec_contains_var(self@, name@),
    {
        is_builtin_constant(name) || self.contains_key(name)
    }

    /// Whether `name` resolves as a function: a builtin, or an entry under
    /// the key `name + "()"`.
    pub fn contains_fn(&self, name: &str) -> (r: bool)
        ensures
            r == spec_contains_fn(self@, name@),
    {
        if is_builtin_fn(name) {
            return true;
        }
        let mut k: String = name.to_owned();
        k.append("()");
        self.contains_key(k.as_str())
    }
}

} // verus!
