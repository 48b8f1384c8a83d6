//! Environment variables as an ordered list of name/value pairs in which a
//! name is bound at most once. The list is read as a mapping; its order is
//! the order in which names were first bound, so that emission is
//! reproducible.

use vstd::prelude::*;

verus! {

/// The mathematical view of a list of environment variables.
pub type Bindings = Seq<(Seq<char>, Seq<char>)>;

/// Whether no name is bound twice.
pub open spec fn distinct_names(env: Bindings) -> bool {
    forall|i: int, j: int| 0 <= i < j < env.len() ==> env[i].0 != env[j].0
}

/// Whether the list binds the name.
pub open spec fn binds(env: Bindings, name: Seq<char>) -> bool {
    exists|i: int| 0 <= i < env.len() && #[trigger] env[i].0 == name
}

/// The value of the first binding of a name, if there is one.
pub open spec fn lookup(env: Bindings, name: Seq<char>) -> Option<Seq<char>>
    decreases env.len(),
{
    if env.len() == 0 {
        None
    } else if env.first().0 == name {
        Some(env.first().1)
    } else {
        lookup(env.drop_first(), name)
    }
}

/// The list after a name is set to a value: a name that is already bound
/// keeps its place and takes the new value, a new name goes to the end.
pub open spec fn assign(env: Bindings, name: Seq<char>, value: Seq<char>) -> Bindings
    decreases env.len(),
{
    if env.len() == 0 {
        seq![(name, value)]
    } else if env.first().0 == name {
        env.update(0, (name, value))
    } else {
        seq![env.first()] + assign(env.drop_first(), name, value)
    }
}

/// The list after each pair of `pairs` is set in turn, first to last.
pub open spec fn assign_all(env: Bindings, pairs: Bindings) -> Bindings
    decreases pairs.len(),
{
    if pairs.len() == 0 {
        env
    } else {
        assign(assign_all(env, pairs.drop_last()), pairs.last().0, pairs.last().1)
    }
}

/// Setting a name keeps every earlier name in place: the result is as long
/// as the list, or one longer, and agrees with the list on names.
pub proof fn lemma_assign_shape(env: Bindings, name: Seq<char>, value: Seq<char>)
    ensures
        assign(env, name, value).len() == if binds(env, name) {
            env.len()
        } else {
            env.len() + 1
        },
        forall|i: int|
            0 <= i < env.len() ==> (#[trigger] assign(env, name, value)[i]).0 == env[i].0,
        !binds(env, name) ==> assign(env, name, value) == env.push((name, value)),
    decreases env.len(),
{
    let out = assign(env, name, value);
    if env.len() == 0 {
        assert(out =~= env.push((name, value)));
    } else if env.first().0 == name {
        assert(env[0].0 == name);
    } else {
        let rest = env.drop_first();
        lemma_assign_shape(rest, name, value);
        if binds(env, name) {
            let i = choose|i: int| 0 <= i < env.len() && #[trigger] env[i].0 == name;
            assert(rest[i - 1].0 == name);
        } else {
            assert forall|i: int| 0 <= i < rest.len() implies #[trigger] rest[i].0 != name by {
                assert(env[i + 1].0 == rest[i].0);
            }
            assert(out =~= env.push((name, value)));
        }
        if binds(rest, name) {
            let i = choose|i: int| 0 <= i < rest.len() && #[trigger] rest[i].0 == name;
            assert(env[i + 1].0 == name);
        }
        assert forall|i: int| 0 <= i < env.len() implies (#[trigger] out[i]).0 == env[i].0 by {
            if i > 0 {
                assert(out[i] == assign(rest, name, value)[i - 1]);
                assert(rest[i - 1] == env[i]);
            }
        }
    }
}

/// Setting a name in a list without repeated names leaves it without
/// repeated names.
pub proof fn lemma_assign_distinct(env: Bindings, name: Seq<char>, value: Seq<char>)
    requires
        distinct_names(env),
    ensures
        distinct_names(assign(env, name, value)),
{
    let out = assign(env, name, value);
    lemma_assign_shape(env, name, value);
    assert forall|i: int, j: int| 0 <= i < j < out.len() implies out[i].0 != out[j].0 by {
        if j < env.len() {
            assert(out[i].0 == env[i].0);
            assert(out[j].0 == env[j].0);
        } else {
            assert(!binds(env, name));
            assert(out[j].0 == name);
            assert(out[i].0 == env[i].0);
        }
    }
}

/// Setting every pair of a list in turn, starting from a list without
/// repeated names, ends in a list without repeated names.
pub proof fn lemma_assign_all_distinct(env: Bindings, pairs: Bindings)
    requires
        distinct_names(env),
    ensures
        distinct_names(assign_all(env, pairs)),
    decreases pairs.len(),
{
    if pairs.len() > 0 {
        lemma_assign_all_distinct(env, pairs.drop_last());
        lemma_assign_distinct(
            assign_all(env, pairs.drop_last()),
            pairs.last().0,
            pairs.last().1,
        );
    }
}

/// After a name is set, looking it up gives the value it was set to.
pub proof fn lemma_lookup_assigned(env: Bindings, name: Seq<char>, value: Seq<char>)
    ensures
        lookup(assign(env, name, value), name) == Some(value),
    decreases env.len(),
{
    let out = assign(env, name, value);
    if env.len() == 0 {
    } else if env.first().0 == name {
    } else {
        lemma_lookup_assigned(env.drop_first(), name, value);
        assert(out.drop_first() =~= assign(env.drop_first(), name, value));
    }
}

/// Setting a name leaves the value of every other name as it was.
pub proof fn lemma_lookup_other(
    env: Bindings,
    name: Seq<char>,
    value: Seq<char>,
    other: Seq<char>,
)
    requires
        other != name,
    ensures
        lookup(assign(env, name, value), other) == lookup(env, other),
    decreases env.len(),
{
    let out = assign(env, name, value);
    if env.len() == 0 {
        assert(out.drop_first().len() == 0);
        assert(lookup(out.drop_first(), other) == None::<Seq<char>>);
    } else if env.first().0 == name {
        assert(out.drop_first() =~= env.drop_first());
    } else {
        lemma_lookup_other(env.drop_first(), name, value, other);
        assert(out.drop_first() =~= assign(env.drop_first(), name, value));
        assert(out.first() == env.first());
    }
}

/// The value of the last pair of a list that carries the name, if there is
/// one.
pub open spec fn last_value(pairs: Bindings, name: Seq<char>) -> Option<Seq<char>>
    decreases pairs.len(),
{
    if pairs.len() == 0 {
        None
    } else if pairs.last().0 == name {
        Some(pairs.last().1)
    } else {
        last_value(pairs.drop_last(), name)
    }
}

/// After every pair of a list is set in turn, the value of a name is the
/// one that the list gave it last; a name that the list does not carry
/// keeps its value.
pub proof fn lemma_lookup_assign_all(env: Bindings, pairs: Bindings, name: Seq<char>)
    ensures
        lookup(assign_all(env, pairs), name) == match last_value(pairs, name) {
            Some(value) => Some(value),
            None => lookup(env, name),
        },
    decreases pairs.len(),
{
    if pairs.len() > 0 {
        let earlier = assign_all(env, pairs.drop_last());
        lemma_lookup_assign_all(env, pairs.drop_last(), name);
        if pairs.last().0 == name {
            lemma_lookup_assigned(earlier, name, pairs.last().1);
        } else {
            lemma_lookup_other(earlier, pairs.last().0, pairs.last().1, name);
        }
    }
}

/// Sets a variable: a name that is already bound keeps its place and takes
/// the new value, a new name goes to the end.
pub fn set_variable(env: &mut Vec<(String, String)>, name: &str, value: &str)
    ensures
        final(env).deep_view() == assign(old(env).deep_view(), name@, value@),
{
    let ghost before = env.deep_view();
    let wanted = name.to_owned();
    let mut i: usize = 0;
    assert(before.take(0) + assign(before.skip(0), name@, value@) =~= assign(
        before,
        name@,
        value@,
    )) by {
        assert(before.skip(0) =~= before);
    }
    while i < env.len()
        invariant
            i <= env.len(),
            env.deep_view() == before,
            before == old(env).deep_view(),
            wanted@ == name@,
            assign(before, name@, value@) == before.take(i as int) + assign(
                before.skip(i as int),
                name@,
                value@,
            ),
        decreases env.len() - i,
    {
        let found = env[i].0 == wanted;
        proof {
            let tail = before.skip(i as int);
            assert(tail.first() == before[i as int]);
            assert(before[i as int] == env@[i as int].deep_view());
            assert(tail.drop_first() =~= before.skip(i + 1));
            assert(before.take(i + 1) =~= before.take(i as int) + seq![tail.first()]);
        }
        if found {
            assert(before.skip(i as int).first().0 == name@);
            env.set(i, (wanted, value.to_owned()));
            assert(env.deep_view() =~= before.take(i as int) + before.skip(i as int).update(
                0,
                (name@, value@),
            ));
            return;
        }
        proof {
            let tail = before.skip(i as int);
            assert(before.take(i as int) + (seq![tail.first()] + assign(
                tail.drop_first(),
                name@,
                value@,
            )) =~= before.take(i + 1) + assign(before.skip(i + 1), name@, value@));
        }
        i += 1;
    }
    env.push((wanted, value.to_owned()));
    assert(before.take(i as int) =~= before);
    assert(env.deep_view() =~= before + seq![(name@, value@)]);
}

/// Sets each pair of a list in turn, first to last.
pub fn set_variables(env: &mut Vec<(String, String)>, pairs: &Vec<(String, String)>)
    ensures
        final(env).deep_view() == assign_all(old(env).deep_view(), pairs.deep_view()),
{
    let ghost before = env.deep_view();
    let ghost all = pairs.deep_view();
    let mut i: usize = 0;
    while i < pairs.len()
        invariant
            i <= pairs.len(),
            all == pairs.deep_view(),
            env.deep_view() == assign_all(before, all.take(i as int)),
        decreases pairs.len() - i,
    {
        set_variable(env, pairs[i].0.as_str(), pairs[i].1.as_str());
        proof {
            assert(all.take(i + 1).drop_last() =~= all.take(i as int));
        }
        i += 1;
    }
    assert(all.take(i as int) =~= all);
}

} // verus!
