//! The declared options of a program, and the two operations over them:
//! validation of every required option at once, and resolution of one option.
use vstd::prelude::*;

use crate::environment::{lookup, Environment};

verus! {

/// One declared option: the name of the environment variable it is read from,
/// and the value it falls back to when that variable is unset. An option
/// without a default is required.
pub struct OptionDefinition {
    pub name: String,
    pub default: Option<String>,
}

/// What an option definition says, as plain sequences of characters.
pub struct DefinitionView {
    pub name: Seq<char>,
    pub default: Option<Seq<char>>,
}

/// An optional string as an optional sequence of characters.
pub open spec fn optional_view(o: Option<String>) -> Option<Seq<char>> {
    match o {
        Some(s) => Some(s@),
        None => None,
    }
}

/// A list of strings as a list of sequences of characters.
pub open spec fn strings_view(v: Seq<String>) -> Seq<Seq<char>> {
    v.map_values(|s: String| s@)
}

impl View for OptionDefinition {
    type V = DefinitionView;

    open spec fn view(&self) -> DefinitionView {
        DefinitionView { name: self.name@, default: optional_view(self.default) }
    }
}

/// Why a declaration could not enter a registry.
#[derive(PartialEq, Eq, Structural, Debug, Clone, Copy)]
pub enum DeclarationError {
    /// The declaration gives no environment-variable name.
    MissingName,
}

/// The message that reports the variable `name` as unset.
pub open spec fn not_set_message(name: Seq<char>) -> Seq<char> {
    "Environment variable "@ + name + " not set"@
}

/// An option is missing when it is required and its variable is unset.
pub open spec fn is_missing(env: Seq<(Seq<char>, Seq<char>)>, d: DefinitionView) -> bool {
    d.default is None && lookup(env, d.name) is None
}

/// The missing options of `defs`, in declaration order.
pub open spec fn missing_options(
    defs: Seq<DefinitionView>,
    env: Seq<(Seq<char>, Seq<char>)>,
) -> Seq<DefinitionView> {
    defs.filter(|d: DefinitionView| is_missing(env, d))
}

/// One message per missing option, in declaration order.
pub open spec fn missing_messages(
    defs: Seq<DefinitionView>,
    env: Seq<(Seq<char>, Seq<char>)>,
) -> Seq<Seq<char>> {
    missing_options(defs, env).map_values(|d: DefinitionView| not_set_message(d.name))
}

/// The outcome of validating `defs` against `env`: success when no option is
/// missing, else every message.
pub open spec fn validation(
    defs: Seq<DefinitionView>,
    env: Seq<(Seq<char>, Seq<char>)>,
) -> Result<(), Seq<Seq<char>>> {
    let messages = missing_messages(defs, env);
    if messages.len() == 0 {
        Ok(())
    } else {
        Err(messages)
    }
}

/// The value of one option: the variable's value where it is set (even to the
/// empty string), else the default, else the message that the variable is unset.
pub open spec fn resolution(
    d: DefinitionView,
    env: Seq<(Seq<char>, Seq<char>)>,
) -> Result<Seq<char>, Seq<char>> {
    match lookup(env, d.name) {
        Some(v) => Ok(v),
        None => match d.default {
            Some(fallback) => Ok(fallback),
            None => Err(not_set_message(d.name)),
        },
    }
}

/// Builds the message that reports the variable `name` as unset.
fn not_set_message_for(name: &String) -> (r: String)
    ensures
        r@ == not_set_message(name@),
{
    let mut r = String::new();
    r.append("Environment variable ");
    r.append(name.as_str());
    r.append(" not set");
    r
}

/// The fixed, ordered set of options that a program declares. An option is
/// identified by its position, given out by `add`.
pub struct Registry {
    definitions: Vec<OptionDefinition>,
}

impl View for Registry {
    type V = Seq<DefinitionView>;

    closed spec fn view(&self) -> Seq<DefinitionView> {
        self.definitions@.map_values(|d: OptionDefinition| d@)
    }
}

impl Registry {
    /// Every declared option has a non-empty name.
    pub open spec fn wf(&self) -> bool {
        forall|i: int| 0 <= i < self@.len() ==> #[trigger] self@[i].name.len() > 0
    }

    /// A registry that declares no option.
    pub fn new() -> (r: Registry)
        ensures
            r.wf(),
            r@.len() == 0,
    {
        let r = Registry { definitions: Vec::new() };
        assert(r@ =~= Seq::<DefinitionView>::empty());
        r
    }

    /// Declares one more option, read from the variable `name`, required where
    /// `default` is `None`. Returns the new option's identifier.
    pub fn add(&mut self, name: String, default: Option<String>) -> (r: Result<usize, DeclarationError>)
        requires
            old(self).wf(),
        ensures
            final(self).wf(),
            name@.len() == 0 ==> r == Err::<usize, DeclarationError>(DeclarationError::MissingName)
                && final(self)@ == old(self)@,
            name@.len() > 0 ==> r == Ok::<usize, DeclarationError>(old(self)@.len() as usize)
                && final(self)@ == old(self)@.push(
                DefinitionView { name: name@, default: optional_view(default) },
            ),
    {
        if name.as_str().is_empty() {
            return Err(DeclarationError::MissingName);
        }
        let id = self.definitions.len();
        let ghost before = self@;
        let ghost added = DefinitionView { name: name@, default: optional_view(default) };
        self.definitions.push(OptionDefinition { name, default });
        assert(self@ =~= before.push(added));
        Ok(id)
    }

    /// The number of declared options.
    pub fn len(&self) -> (n: usize)
        ensures
            n == self@.len(),
    {
        self.definitions.len()
    }

    /// The environment-variable name of the option `id`.
    pub fn name(&self, id: usize) -> (r: &String)
        requires
            id < self@.len(),
        ensures
            r@ == self@[id as int].name,
    {
        &self.definitions[id].name
    }

    /// Checks every required option against `env`, in declaration order, and
    /// reports each one whose variable is unset. Options with a default are
    /// never checked.
    pub fn validate(&self, env: &Environment) -> (r: Result<(), Vec<String>>)
        ensures
            match r {
                Ok(()) => validation(self@, env@) == Ok::<(), Seq<Seq<char>>>(()),
                Err(messages) => validation(self@, env@) == Err::<(), Seq<Seq<char>>>(
                    strings_view(messages@),
                ),
            },
    {
        let mut messages: Vec<String> = Vec::new();
        let mut i: usize = 0;
        while i < self.definitions.len()
            invariant
                i <= self.definitions.len(),
                strings_view(messages@) == missing_messages(self@.take(i as int), env@),
            decreases self.definitions.len() - i,
        {
            let d = &self.definitions[i];
            let ghost head = self@.take(i as int);
            proof {
                assert(self@.take(i + 1) =~= head.push(d@));
                head.lemma_filter_push(d@, |x: DefinitionView| is_missing(env@, x));
            }
            if d.default.is_none() {
                match env.var(&d.name) {
                    Some(_) => {},
                    None => {
                        let ghost before = messages@;
                        messages.push(not_set_message_for(&d.name));
                        assert(strings_view(messages@) =~= strings_view(before).push(
                            not_set_message(d@.name),
                        ));
                        assert(missing_messages(self@.take(i + 1), env@) =~= missing_messages(
                            head,
                            env@,
                        ).push(not_set_message(d@.name)));
                    },
                }
            }
            i = i + 1;
        }
        assert(self@.take(i as int) =~= self@);
        if messages.len() == 0 {
            Ok(())
        } else {
            Err(messages)
        }
    }

    /// The value of the option `id` under `env`: the variable's value where it
    /// is set, even to the empty string; else the option's default; else, for
    /// a required option, the message that its variable is unset.
    pub fn resolve(&self, id: usize, env: &Environment) -> (r: Result<String, String>)
        requires
            id < self@.len(),
        ensures
            match r {
                Ok(v) => resolution(self@[id as int], env@) == Ok::<Seq<char>, Seq<char>>(v@),
                Err(m) => resolution(self@[id as int], env@) == Err::<Seq<char>, Seq<char>>(m@),
            },
    {
        let d = &self.definitions[id];
        match env.var(&d.name) {
            Some(v) => Ok(v),
            None => match &d.default {
                Some(fallback) => Ok(fallback.clone()),
                None => Err(not_set_message_for(&d.name)),
            },
        }
    }
}

} // verus!
