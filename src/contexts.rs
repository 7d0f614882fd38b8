use vstd::prelude::*;
use vstd::string::*;

use crate::text::str_eq;

verus! {

/// One namespace of host facts, such as `os` or `user`, with its keys and values.
pub struct ContextNamespace {
    pub name: String,
    pub values: Vec<(String, String)>,
}

/// The facts about the host that guards and actions consult, by namespace.
pub struct Contexts {
    pub namespaces: Vec<ContextNamespace>,
}

/// The facts of one namespace as plain values.
pub open spec fn namespace_view(n: ContextNamespace) -> (Seq<char>, Seq<(Seq<char>, Seq<char>)>) {
    (n.name@, n.values@.map_values(|kv: (String, String)| (kv.0@, kv.1@)))
}

/// All facts as plain values, in the order the namespaces were given.
pub open spec fn contexts_view(c: Contexts) -> Seq<(Seq<char>, Seq<(Seq<char>, Seq<char>)>)> {
    c.namespaces@.map_values(|n: ContextNamespace| namespace_view(n))
}

/// The value of `key` in the first entry of `values` that holds it.
pub open spec fn first_value(values: Seq<(Seq<char>, Seq<char>)>, key: Seq<char>) -> Option<Seq<char>>
    decreases values.len(),
{
    if values.len() == 0 {
        None
    } else if values[0].0 == key {
        Some(values[0].1)
    } else {
        first_value(values.drop_first(), key)
    }
}

/// The value of `key` in the first namespace called `ns` that holds it.
pub open spec fn context_value(
    c: Seq<(Seq<char>, Seq<(Seq<char>, Seq<char>)>)>,
    ns: Seq<char>,
    key: Seq<char>,
) -> Option<Seq<char>>
    decreases c.len(),
{
    if c.len() == 0 {
        None
    } else if c[0].0 == ns && first_value(c[0].1, key) is Some {
        first_value(c[0].1, key)
    } else {
        context_value(c.drop_first(), ns, key)
    }
}

impl Contexts {
    /// Contexts with no facts at all.
    pub fn empty() -> (r: Contexts)
        ensures
            contexts_view(r).len() == 0,
    {
        let r = Contexts { namespaces: Vec::new() };
        assert(contexts_view(r) =~= Seq::empty());
        r
    }

    /// The value of `key` in namespace `ns`.
    pub fn lookup(&self, ns: &str, key: &str) -> (r: Option<String>)
        ensures
            r matches Some(v) ==> context_value(contexts_view(*self), ns@, key@) == Some(v@),
            r is None ==> context_value(contexts_view(*self), ns@, key@) is None,
    {
        let ghost c = contexts_view(*self);
        assert(c.subrange(0, c.len() as int) =~= c);
        let mut i: usize = 0;
        while i < self.namespaces.len()
            invariant
                c == contexts_view(*self),
                i <= self.namespaces@.len(),
                context_value(c, ns@, key@) == context_value(c.subrange(i as int, c.len() as int), ns@, key@),
            decreases self.namespaces@.len() - i,
        {
            proof {
                assert(c.subrange(i as int, c.len() as int).drop_first() =~= c.subrange(i + 1, c.len() as int));
            }
            let space = &self.namespaces[i];
            if str_eq(space.name.as_str(), ns) {
                let ghost vals = c[i as int].1;
                assert(vals.subrange(0, vals.len() as int) =~= vals);
                let mut j: usize = 0;
                while j < space.values.len()
                    invariant
                        c == contexts_view(*self),
                        i < self.namespaces@.len(),
                        *space == self.namespaces@[i as int],
                        space.name@ == ns@,
                        context_value(c, ns@, key@) == context_value(c.subrange(i as int, c.len() as int), ns@, key@),
                        vals == c[i as int].1,
                        vals == namespace_view(*space).1,
                        j <= space.values@.len(),
                        first_value(vals, key@) == first_value(vals.subrange(j as int, vals.len() as int), key@),
                    decreases space.values@.len() - j,
                {
                    proof {
                        assert(vals.subrange(j as int, vals.len() as int).drop_first() =~= vals.subrange(j + 1, vals.len() as int));
                    }
                    if str_eq(space.values[j].0.as_str(), key) {
                        assert(vals[j as int] == (space.values@[j as int].0@, space.values@[j as int].1@));
                        assert(vals.subrange(j as int, vals.len() as int)[0] == vals[j as int]);
                        assert(first_value(vals, key@) == Some(vals[j as int].1));
                        assert(c[i as int] == namespace_view(*space));
                        assert(c.subrange(i as int, c.len() as int)[0] == c[i as int]);
                        return Some(space.values[j].1.clone());
                    }
                    j = j + 1;
                }
                assert(vals.subrange(j as int, vals.len() as int) =~= Seq::<(Seq<char>, Seq<char>)>::empty());
            }
            i = i + 1;
        }
        assert(c.subrange(i as int, c.len() as int) =~= Seq::<(Seq<char>, Seq<(Seq<char>, Seq<char>)>)>::empty());
        None
    }
}

/// The elevation helper that the contexts name, if any.
pub fn get_privilege_provider(contexts: &Contexts) -> (r: Option<String>)
    ensures
        r matches Some(v) ==> context_value(contexts_view(*contexts), "privilege"@, "privilege"@) == Some(v@),
        r is None ==> context_value(contexts_view(*contexts), "privilege"@, "privilege"@) is None,
{
    contexts.lookup("privilege", "privilege")
}

/// The elevation helper named by the contexts, `sudo` where they name none.
pub open spec fn privilege_or_sudo(c: Contexts) -> Seq<char> {
    match context_value(contexts_view(c), "privilege"@, "privilege"@) {
        Some(v) => v,
        None => "sudo"@,
    }
}

/// The elevation helper named by the contexts, `sudo` where they name none.
pub fn privilege_provider_or_sudo(contexts: &Contexts) -> (r: String)
    ensures
        r@ == privilege_or_sudo(*contexts),
{
    match get_privilege_provider(contexts) {
        Some(v) => v,
        None => String::from_str("sudo"),
    }
}

} // verus!
