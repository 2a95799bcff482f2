use vstd::prelude::*;

use crate::vobj::Vobj;

verus! {

/// The value bound to `name` by the first entry of `env` that has that name.
pub open spec fn lookup(env: Seq<(String, Vobj)>, name: Seq<char>) -> Option<Vobj>
    decreases env.len(),
{
    if env.len() == 0 {
        None
    } else if env[0].0@ == name {
        Some(env[0].1)
    } else {
        lookup(env.drop_first(), name)
    }
}

/// A table of named values, as the map from each name to its value.
pub open spec fn env_view(env: Seq<(String, Vobj)>) -> Map<Seq<char>, Vobj> {
    Map::new(|k: Seq<char>| lookup(env, k) is Some, |k: Seq<char>| lookup(env, k)->Some_0)
}

proof fn lemma_lookup_push(env: Seq<(String, Vobj)>, p: (String, Vobj), k: Seq<char>)
    ensures
        lookup(env.push(p), k) == (if lookup(env, k) is Some {
            lookup(env, k)
        } else if p.0@ == k {
            Some(p.1)
        } else {
            None
        }),
    decreases env.len(),
{
    reveal_with_fuel(lookup, 2);
    if env.len() > 0 {
        assert(env.push(p).drop_first() =~= env.drop_first().push(p));
        lemma_lookup_push(env.drop_first(), p, k);
    } else {
        assert(env.push(p).drop_first() =~= Seq::<(String, Vobj)>::empty());
    }
}

proof fn lemma_lookup_update(env: Seq<(String, Vobj)>, i: int, p: (String, Vobj), k: Seq<char>)
    requires
        0 <= i < env.len(),
        env[i].0@ == p.0@,
        forall|j: int| 0 <= j < i ==> env[j].0@ != p.0@,
    ensures
        lookup(env.update(i, p), k) == (if p.0@ == k {
            Some(p.1)
        } else {
            lookup(env, k)
        }),
    decreases i,
{
    if i > 0 {
        assert(env.update(i, p).drop_first() =~= env.drop_first().update(i - 1, p));
        lemma_lookup_update(env.drop_first(), i - 1, p, k);
    } else {
        assert(env.update(i, p).drop_first() =~= env.drop_first());
    }
}

/// The index of the first entry named `name`, if there is one.
pub fn find(env: &Vec<(String, Vobj)>, name: &String) -> (r: Option<usize>)
    ensures
        r matches Some(i) ==> i < env@.len() && env@[i as int].0@ == name@ && lookup(env@, name@)
            == Some(env@[i as int].1) && forall|j: int| 0 <= j < i ==> env@[j].0@ != name@,
        r is None ==> lookup(env@, name@) is None,
{
    let mut i: usize = 0;
    assert(env@.subrange(0, env@.len() as int) =~= env@);
    while i < env.len()
        invariant
            i <= env@.len(),
            lookup(env@, name@) == lookup(env@.subrange(i as int, env@.len() as int), name@),
            forall|j: int| 0 <= j < i ==> env@[j].0@ != name@,
        decreases env@.len() - i,
    {
        assert(env@.subrange(i as int, env@.len() as int).drop_first() =~= env@.subrange(
            i as int + 1,
            env@.len() as int,
        ));
        if env[i].0 == *name {
            return Some(i);
        }
        i = i + 1;
    }
    None
}

/// Binds `name` to `value`: the first entry of that name is replaced, or a
/// new entry is added at the end.
pub fn bind(env: &mut Vec<(String, Vobj)>, name: &String, value: Vobj)
    ensures
        env_view(final(env)@) == env_view(old(env)@).insert(name@, value),
{
    let ghost before = env@;
    let entry = (name.clone(), value);
    match find(env, name) {
        Some(i) => {
            env.set(i, entry);
            assert forall|k: Seq<char>| #[trigger]
                lookup(env@, k) == (if name@ == k {
                    Some(value)
                } else {
                    lookup(before, k)
                }) by {
                lemma_lookup_update(before, i as int, entry, k);
            }
        },
        None => {
            env.push(entry);
            assert forall|k: Seq<char>| #[trigger]
                lookup(env@, k) == (if name@ == k {
                    Some(value)
                } else {
                    lookup(before, k)
                }) by {
                lemma_lookup_push(before, entry, k);
            }
        },
    }
    assert(env_view(env@) =~= env_view(before).insert(name@, value));
}

} // verus!
