//! Hierarchical namespace identifiers. Every scope the compiler opens (unit,
//! data, module, function, spawn, variable) is identified by a `Name`: its own
//! segment plus the full path of the scope that encloses it. The full path is
//! the dot-joined list of segments, and two names are the same name exactly
//! when their paths are the same.

use vstd::prelude::*;
use vstd::string::StringExecFns;

verus! {

/// Mathematical model of a [`Name`]: both fields as character sequences.
pub ghost struct GName {
    pub namespace: Seq<char>,
    pub name: Seq<char>,
}

impl GName {
    /// Full path of the name: the enclosing path, a dot, and the own segment.
    pub open spec fn full(self) -> Seq<char> {
        self.namespace + seq!['.'] + self.name
    }
}

/// The model of the root name, whose full path is `.0`.
pub open spec fn g_root() -> GName {
    GName { namespace: Seq::empty(), name: seq!['0'] }
}

/// The model of a name freshly opened under `base`.
pub open spec fn g_child(base: GName, name: Seq<char>) -> GName {
    GName { namespace: base.full(), name: name }
}


/// Index of the last dot of `s`, or `-1` if it has none.
pub open spec fn last_dot(s: Seq<char>) -> int
    decreases s.len(),
{
    if s.len() == 0 {
        -1
    } else if s.last() == '.' {
        s.len() - 1
    } else {
        last_dot(s.drop_last())
    }
}

/// The parent of a name: its namespace split at the last dot; a name at the
/// top of the hierarchy has the root as parent.
pub open spec fn g_parent(n: GName) -> GName {
    let k = last_dot(n.namespace);
    if 0 <= k < n.namespace.len() {
        GName { namespace: n.namespace.take(k), name: n.namespace.skip(k + 1) }
    } else {
        g_root()
    }
}

/// A segment is synthetic when it starts with an underscore.
pub open spec fn is_synthetic(s: Seq<char>) -> bool {
    s.len() > 0 && s[0] == '_'
}

/// The parent of a name; with `ignore_synthetic`, the nearest ancestor whose
/// own segment is not synthetic.
pub open spec fn g_par_name(n: GName, ignore_synthetic: bool) -> GName
    decreases n.namespace.len(), 1int,
{
    let p = g_parent(n);
    if ignore_synthetic && is_synthetic(p.name) {
        g_par_name(p, ignore_synthetic)
    } else {
        p
    }
}

/// A node of the namespace hierarchy: an own segment (`name`) under the full
/// path of its enclosing scope (`namespace`). Immutable value type.
#[derive(Debug, Eq, Hash)]
pub struct Name {
    pub namespace: String,
    pub name: String,
}

impl View for Name {
    type V = GName;

    open spec fn view(&self) -> GName {
        GName { namespace: self.namespace@, name: self.name@ }
    }
}

impl Clone for Name {
    fn clone(&self) -> (r: Name)
        ensures
            r == self,
    {
        Name { namespace: self.namespace.clone(), name: self.name.clone() }
    }
}

impl PartialEq for Name {
    fn eq(&self, other: &Name) -> (r: bool)
    {
        self.namespace.eq(&other.namespace) && self.name.eq(&other.name)
    }
}

impl vstd::std_specs::cmp::PartialEqSpecImpl for Name {
    open spec fn obeys_eq_spec() -> bool {
        true
    }

    open spec fn eq_spec(&self, other: &Name) -> bool {
        self@ == other@
    }
}

impl Name {
    /// The root of the hierarchy; its full path is `.0`.
    pub fn new_root() -> (r: Name)
        ensures
            r@ == g_root(),
    {
        proof {
            reveal_strlit("0");
            reveal_strlit("");
            assert(g_root().name =~= "0"@);
            assert(g_root().namespace =~= ""@);
        }
        Name { namespace: "".to_owned(), name: "0".to_owned() }
    }

    /// A new name for a scope opened under `base` with the given segment.
    pub fn new(base: &Name, name: String) -> (r: Name)
        ensures
            r@ == g_child(base@, name@),
    {
        Name { namespace: base.get_full_name(), name }
    }


    /// The parent name: the enclosing scope, one level up.
    #[verifier::loop_isolation(false)]
    fn parent_once(&self) -> (r: Name)
        ensures
            r@ == g_parent(self@),
            r@.namespace.len() < self@.namespace.len() || r@ == g_root(),
    {
        let n = self.namespace.as_str().unicode_len();
        proof {
            assert(self.namespace@.take(n as int) =~= self.namespace@);
        }
        let mut i = n;
        while i > 0 && !(self.namespace.as_str().get_char(i - 1) == '.')
            invariant
                i <= n,
                last_dot(self.namespace@) == last_dot(self.namespace@.take(i as int)),
            decreases i,
        {
            proof {
                assert(self.namespace@.take(i as int).drop_last() =~= self.namespace@.take(i - 1));
                assert(self.namespace@.take(i as int).last() == self.namespace@[i - 1]);
            }
            i -= 1;
        }
        if i == 0 {
            proof {
                assert(self.namespace@.take(0) =~= Seq::<char>::empty());
            }
            return Name::new_root();
        }
        proof {
            assert(self.namespace@.take(i as int).last() == self.namespace@[i - 1]);
            assert(last_dot(self.namespace@) == i - 1);
        }
        let par_ns = self.namespace.as_str().substring_char(0, i - 1).to_owned();
        let par_name = self.namespace.as_str().substring_char(i, n).to_owned();
        Name { namespace: par_ns, name: par_name }
    }

    /// The parent scope's name; with `ignore_synthetic`, synthetic segments
    /// (those starting with an underscore) are skipped.
    #[verifier::loop_isolation(false)]
    pub fn get_par_name(&self, ignore_synthetic: bool) -> (r: Name)
        ensures
            r@ == g_par_name(self@, ignore_synthetic),
    {
        let mut cur = self.parent_once();
        if !ignore_synthetic {
            return cur;
        }
        let ghost target = g_par_name(self@, true);
        proof {
            assert(target == if is_synthetic(cur@.name) {
                g_par_name(cur@, true)
            } else {
                cur@
            });
        }
        while cur.name.as_str().unicode_len() > 0 && cur.name.as_str().get_char(0) == '_'
            invariant
                target == (if is_synthetic(cur@.name) {
                    g_par_name(cur@, true)
                } else {
                    cur@
                }),
            decreases cur.namespace@.len(), (if is_synthetic(cur@.name) {
                1int
            } else {
                0int
            }),
        {
            let next = cur.parent_once();
            proof {
                if next@ == g_root() {
                    reveal_strlit("0");
                }
            }
            cur = next;
        }
        cur
    }

    /// The own segment of this name.
    pub fn get_name(&self) -> (r: String)
        ensures
            r@ == self@.name,
    {
        self.name.clone()
    }

    /// The full path: all ancestors' segments and this one, dot-joined.
    pub fn get_full_name(&self) -> (r: String)
        ensures
            r@ == self@.full(),
    {
        proof {
            reveal_strlit(".");
            assert("."@ =~= seq!['.']);
        }
        let r = self.namespace.clone().concat(".").concat(self.name.as_str());
        proof {
            assert(r@ =~= self@.full());
        }
        r
    }
}

} // verus!
