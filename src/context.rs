use vstd::prelude::*;

verus! {

/// Configuration threaded by value through every grammar rule.
#[derive(Clone, Debug, PartialEq)]
pub struct ParserContext {
    /// Database that unqualified table names belong to.
    pub default_database: Option<String>,
    /// Whether the rule runs inside a parenthesised sub-expression.
    pub in_parentheses: bool,
}

/// The view of an optional name.
pub open spec fn opt_text(o: Option<String>) -> Option<Seq<char>> {
    match o {
        Some(s) => Some(s@),
        None => None,
    }
}

pub fn clone_opt_text(o: &Option<String>) -> (r: Option<String>)
    ensures
        opt_text(r) == opt_text(*o),
{
    match o {
        Some(s) => Some(s.clone()),
        None => None,
    }
}

impl ParserContext {
    pub fn new() -> (r: ParserContext)
        ensures
            r.default_database is None,
            !r.in_parentheses,
    {
        ParserContext { default_database: None, in_parentheses: false }
    }

    pub fn copy(&self) -> (r: ParserContext)
        ensures
            opt_text(r.default_database) == opt_text(self.default_database),
            r.in_parentheses == self.in_parentheses,
    {
        ParserContext {
            default_database: clone_opt_text(&self.default_database),
            in_parentheses: self.in_parentheses,
        }
    }

    /// A copy of this context with another default database.
    pub fn set_default_database(self, database: String) -> (r: ParserContext)
        ensures
            opt_text(r.default_database) == Some(database@),
            r.in_parentheses == self.in_parentheses,
    {
        ParserContext { default_database: Some(database), in_parentheses: self.in_parentheses }
    }

    /// A copy of this context with the parenthesis flag set as given.
    pub fn set_in_parentheses(self, in_parentheses: bool) -> (r: ParserContext)
        ensures
            opt_text(r.default_database) == opt_text(self.default_database),
            r.in_parentheses == in_parentheses,
    {
        ParserContext { default_database: self.default_database, in_parentheses }
    }
}

impl Default for ParserContext {
    fn default() -> (r: ParserContext)
        ensures
            r.default_database is None,
            !r.in_parentheses,
    {
        ParserContext::new()
    }
}

} // verus!
