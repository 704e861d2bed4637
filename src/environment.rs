//! A snapshot of environment variables, as the library reads them.
use vstd::prelude::*;

verus! {

/// The value bound to `name` in a list of bindings: the first binding of that
/// name wins, and a name with no binding is unset.
pub open spec fn lookup(vars: Seq<(Seq<char>, Seq<char>)>, name: Seq<char>) -> Option<Seq<char>>
    decreases vars.len(),
{
    if vars.len() == 0 {
        None
    } else if vars[0].0 == name {
        Some(vars[0].1)
    } else {
        lookup(vars.drop_first(), name)
    }
}

/// A set of environment variables and their values.
///
/// Variables are kept as bindings of a name to a value; a later `set` shadows
/// an earlier binding of the same name. A variable set to the empty string is
/// set, and is distinct from one that is unset.
pub struct Environment {
    vars: Vec<(String, String)>,
}

impl View for Environment {
    type V = Seq<(Seq<char>, Seq<char>)>;

    closed spec fn view(&self) -> Self::V {
        self.vars@.map_values(|b: (String, String)| (b.0@, b.1@))
    }
}

impl Environment {
    /// The value of the variable `name` in this environment, if it is set.
    pub open spec fn spec_var(&self, name: Seq<char>) -> Option<Seq<char>> {
        lookup(self@, name)
    }

    /// An environment in which no variable is set.
    pub fn new() -> (e: Environment)
        ensures
            forall|name: Seq<char>| e.spec_var(name) is None,
    {
        let e = Environment { vars: Vec::new() };
        assert(e@.len() == 0);
        e
    }

    /// Binds `name` to `value`, replacing any value that `name` had.
    pub fn set(&mut self, name: String, value: String)
        ensures
            final(self).spec_var(name@) == Some(value@),
            forall|other: Seq<char>|
                other != name@ ==> final(self).spec_var(other) == old(self).spec_var(other),
    {
        let ghost before = self@;
        let ghost key = name@;
        let ghost val = value@;
        self.vars.insert(0, (name, value));
        assert(self@.drop_first() =~= before);
        assert(self@[0] == (key, val));
    }

    /// The value of the variable `name`, or `None` where it is unset.
    pub fn var(&self, name: &String) -> (r: Option<String>)
        ensures
            match r {
                Some(v) => self.spec_var(name@) == Some(v@),
                None => self.spec_var(name@) is None,
            },
    {
        let mut i: usize = 0;
        assert(self@.skip(0) =~= self@);
        while i < self.vars.len()
            invariant
                i <= self.vars.len(),
                lookup(self@, name@) == lookup(self@.skip(i as int), name@),
            decreases self.vars.len() - i,
        {
            let ghost rest = self@.skip(i as int);
            if self.vars[i].0 == *name {
                assert(rest[0] == self@[i as int]);
                return Some(self.vars[i].1.clone());
            }
            assert(rest.drop_first() =~= self@.skip(i + 1));
            i = i + 1;
        }
        assert(self@.skip(i as int).len() == 0);
        None
    }
}

} // verus!
