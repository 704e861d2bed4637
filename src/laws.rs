//! What validation and resolution guarantee, stated over every registry and
//! every environment.
use vstd::prelude::*;

use crate::environment::{lookup, Environment};
use crate::registry::{
    is_missing, missing_messages, missing_options, not_set_message, resolution, validation,
    DefinitionView, Registry,
};

verus! {

/// Two environments that agree on every variable that `defs` names leave the
/// same options missing.
proof fn lemma_missing_options_agree(
    defs: Seq<DefinitionView>,
    e1: Seq<(Seq<char>, Seq<char>)>,
    e2: Seq<(Seq<char>, Seq<char>)>,
)
    requires
        forall|i: int| 0 <= i < defs.len() ==> lookup(e1, #[trigger] defs[i].name) == lookup(e2, defs[i].name),
    ensures
        missing_options(defs, e1) == missing_options(defs, e2),
    decreases defs.len(),
{
    if defs.len() > 0 {
        let init = defs.drop_last();
        let last = defs.last();
        assert forall|i: int| 0 <= i < init.len() implies lookup(e1, #[trigger] init[i].name) == lookup(e2, init[i].name) by {
            assert(init[i] == defs[i]);
        }
        lemma_missing_options_agree(init, e1, e2);
        assert(defs =~= init.push(last));
        init.lemma_filter_push(last, |d: DefinitionView| is_missing(e1, d));
        init.lemma_filter_push(last, |d: DefinitionView| is_missing(e2, d));
        assert(lookup(e1, defs[defs.len() - 1].name) == lookup(e2, defs[defs.len() - 1].name));
    } else {
        reveal(Seq::filter);
    }
}

/// Each required option whose variable is unset is reported by validation,
/// and validation reports exactly as many messages as there are such options.
pub proof fn lemma_validate_reports_each_missing_option(reg: Registry, env: Environment, i: int)
    requires
        reg.wf(),
        0 <= i < reg@.len(),
        reg@[i].default is None,
        env.spec_var(reg@[i].name) is None,
    ensures
        validation(reg@, env@) is Err,
        validation(reg@, env@)->Err_0.contains(not_set_message(reg@[i].name)),
        validation(reg@, env@)->Err_0.len() == missing_options(reg@, env@).len(),
{
    let pred = |d: DefinitionView| is_missing(env@, d);
    reg@.lemma_filter_contains(pred, i);
    let missing = missing_options(reg@, env@);
    let j = choose|j: int| 0 <= j < missing.len() && missing[j] == reg@[i];
    let messages = missing_messages(reg@, env@);
    assert(messages[j] == not_set_message(reg@[i].name));
}

/// Where every required option's variable is set, validation succeeds,
/// whatever the state of the options that have a default.
pub proof fn lemma_validate_succeeds_when_required_set(reg: Registry, env: Environment)
    requires
        reg.wf(),
        forall|i: int|
            0 <= i < reg@.len() && (#[trigger] reg@[i]).default is None ==> env.spec_var(
                reg@[i].name,
            ) is Some,
    ensures
        validation(reg@, env@) == Ok::<(), Seq<Seq<char>>>(()),
{
    let pred = |d: DefinitionView| is_missing(env@, d);
    assert forall|i: int| 0 <= i < reg@.len() implies !pred(#[trigger] reg@[i]) by {}
    reg@.lemma_all_neg_filter_empty(pred);
}

/// An option with a default resolves to its variable's value where that is
/// set, the empty string included, and to the default where it is unset.
pub proof fn lemma_resolve_with_default(reg: Registry, env: Environment, id: int)
    requires
        reg.wf(),
        0 <= id < reg@.len(),
        reg@[id].default is Some,
    ensures
        env.spec_var(reg@[id].name) is Some ==> resolution(reg@[id], env@) == Ok::<Seq<char>, Seq<char>>(
            env.spec_var(reg@[id].name)->Some_0,
        ),
        env.spec_var(reg@[id].name) is None ==> resolution(reg@[id], env@) == Ok::<Seq<char>, Seq<char>>(
            reg@[id].default->Some_0,
        ),
{
}

/// A required option resolves to its variable's value where that is set, and
/// fails with the message that names the variable where it is unset.
pub proof fn lemma_resolve_required(reg: Registry, env: Environment, id: int)
    requires
        reg.wf(),
        0 <= id < reg@.len(),
        reg@[id].default is None,
    ensures
        env.spec_var(reg@[id].name) is Some ==> resolution(reg@[id], env@) == Ok::<Seq<char>, Seq<char>>(
            env.spec_var(reg@[id].name)->Some_0,
        ),
        env.spec_var(reg@[id].name) is None ==> resolution(reg@[id], env@) == Err::<Seq<char>, Seq<char>>(
            not_set_message(reg@[id].name),
        ),
{
}

/// Validation and resolution depend on nothing but the values of the declared
/// variables: under two environments that agree on them, in particular under
/// one environment read twice, every call gives the same result.
pub proof fn lemma_same_variables_same_results(reg: Registry, e1: Environment, e2: Environment)
    requires
        reg.wf(),
        forall|i: int|
            0 <= i < reg@.len() ==> e1.spec_var(#[trigger] reg@[i].name) == e2.spec_var(
                reg@[i].name,
            ),
    ensures
        validation(reg@, e1@) == validation(reg@, e2@),
        forall|id: int|
            0 <= id < reg@.len() ==> resolution(#[trigger] reg@[id], e1@) == resolution(
                reg@[id],
                e2@,
            ),
{
    lemma_missing_options_agree(reg@, e1@, e2@);
}

} // verus!
