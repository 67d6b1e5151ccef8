use crate::decode::{decode, decode_with};
use crate::error::{DecodeFailure, DecodeStringError};
use vstd::prelude::*;

verus! {

/// The name of the variable that holds the user's home directory.
pub const HOME_VARIABLE: &'static str = "HOME";

/// A table of variables by name, against which templates are decoded.
#[derive(Debug)]
pub struct VariableResolver {
    /// Names with their values, oldest first. A later entry of a name hides an earlier one.
    variables: Vec<(String, String)>,
}

/// The table that a list of entries stands for: a later entry of a name replaces an earlier one.
pub open spec fn table_of(entries: Seq<(String, String)>) -> Map<Seq<char>, Seq<char>>
    decreases entries.len(),
{
    if entries.len() == 0 {
        Map::empty()
    } else {
        table_of(entries.drop_last()).insert(entries.last().0@, entries.last().1@)
    }
}

impl View for VariableResolver {
    type V = Map<Seq<char>, Seq<char>>;

    closed spec fn view(&self) -> Map<Seq<char>, Seq<char>> {
        table_of(self.variables@)
    }
}

impl VariableResolver {
    /// A table that knows one variable, `HOME`, with the given home directory as its value.
    pub fn new(home_dir: String) -> (resolver: Self)
        ensures
            resolver@ == Map::<Seq<char>, Seq<char>>::empty().insert(HOME_VARIABLE@, home_dir@),
    {
        let mut variables: Vec<(String, String)> = Vec::new();
        variables.push((HOME_VARIABLE.to_owned(), home_dir));
        assert(table_of(variables@.drop_last()) == Map::<Seq<char>, Seq<char>>::empty());
        VariableResolver { variables }
    }

    /// The same table with `name` set to `value`, whether or not it was known before.
    pub fn with_variable(self, name: String, value: String) -> (resolver: Self)
        ensures
            resolver@ == self@.insert(name@, value@),
    {
        let mut variables = self.variables;
        let ghost before = variables@;
        variables.push((name, value));
        assert(variables@.drop_last() =~= before);
        VariableResolver { variables }
    }

    /// The value of the variable `name`, if the table knows it.
    pub fn resolve_variable(&self, name: &str) -> (value: Option<&str>)
        ensures
            (match value {
                Some(text) => self@.contains_key(name@) && self@[name@] == text@,
                None => !self@.contains_key(name@),
            }),
    {
        let wanted = name.to_owned();
        let mut i: usize = self.variables.len();
        assert(self.variables@.take(i as int) =~= self.variables@);
        while i > 0
            invariant
                i <= self.variables.len(),
                wanted@ == name@,
                self@.contains_key(name@) <==> table_of(
                    self.variables@.take(i as int),
                ).contains_key(name@),
                self@.contains_key(name@) ==> self@[name@] == table_of(
                    self.variables@.take(i as int),
                )[name@],
            decreases i,
        {
            i = i - 1;
            assert(self.variables@.take(i + 1).drop_last() =~= self.variables@.take(i as int));
            if self.variables[i].0 == wanted {
                return Some(self.variables[i].1.as_str());
            }
        }
        None
    }

    /// Decodes `text`: every placeholder is replaced by the value of the variable it names,
    /// and the escapes in the literal text are undone.
    ///
    /// Fails where a placeholder is not closed, and otherwise where a placeholder names a
    /// variable that the table does not know.
    pub fn decode_string(&self, text: &str) -> (result: Result<String, DecodeStringError>)
        ensures
            (match result {
                Ok(decoded) => decode(text@, self@) == Ok::<Seq<char>, DecodeFailure>(decoded@),
                Err(error) => decode(text@, self@) == Err::<Seq<char>, DecodeFailure>(error@),
            }),
    {
        decode_with(text, self)
    }
}

} // verus!
