//! The name/type catalog. Built once over the fully parsed (still unchecked)
//! system, it indexes every declared entity — data types and their members,
//! modules, functions with their parameter and return types, and spawn result
//! variables — by full qualified name. Lookups try the name in its own scope
//! first, walking outward; a name still unresolved is retried under each
//! imported unit's namespace in import-declaration order, first match wins.

use vstd::prelude::*;
use vstd::string::StrSliceExecFns;
use vstd::string::StringExecFns;
use crate::error::{GErr, PError, PResult};
use crate::name::{GName, Name, last_dot};
use crate::structure::{GPair, GData, GModule, GFunc, GSpawn};
use crate::structure::unchecked::{GSystemU, GUnitU, SysDCSystem};
use crate::types::{GType, Type};

verus! {

/// What kind of entity a catalog entry records, with its declared type where
/// it has one (still unresolved, as written in the source).
#[derive(Debug, PartialEq)]
pub enum DefineKind {
    Data,
    DataMember(Type),
    Module,
    Function(Type),
    Argument(Type),
    Variable(Type),
}

/// One catalog entry: a kind and the full name of the entity.
#[derive(Debug, PartialEq)]
pub struct Define {
    pub kind: DefineKind,
    pub refs: Name,
}

/// Mathematical model of a [`DefineKind`].
pub ghost enum GDefineKind {
    Data,
    DataMember(GType),
    Module,
    Function(GType),
    Argument(GType),
    Variable(GType),
}

/// Mathematical model of a [`Define`].
pub ghost struct GDefine {
    pub kind: GDefineKind,
    pub refs: GName,
}

impl View for Define {
    type V = GDefine;

    open spec fn view(&self) -> GDefine {
        GDefine {
            kind: match self.kind {
                DefineKind::Data => GDefineKind::Data,
                DefineKind::DataMember(t) => GDefineKind::DataMember(t@),
                DefineKind::Module => GDefineKind::Module,
                DefineKind::Function(t) => GDefineKind::Function(t@),
                DefineKind::Argument(t) => GDefineKind::Argument(t@),
                DefineKind::Variable(t) => GDefineKind::Variable(t@),
            },
            refs: self.refs@,
        }
    }
}

/// The model of a vector of names.
pub open spec fn view_names(v: Seq<Name>) -> Seq<GName> {
    v.map_values(|n: Name| n@)
}

/// The entries of one data declaration's members.
pub open spec fn sp_defs_members(members: Seq<GPair>) -> Seq<GDefine>
    decreases members.len(),
{
    if members.len() == 0 {
        Seq::empty()
    } else {
        sp_defs_members(members.drop_last()).push(
            GDefine { kind: GDefineKind::DataMember(members.last().1), refs: members.last().0 },
        )
    }
}

/// The entries of one data declaration.
pub open spec fn sp_defs_data(d: GData) -> Seq<GDefine> {
    seq![GDefine { kind: GDefineKind::Data, refs: d.name }] + sp_defs_members(d.members)
}

/// The entries of a function's arguments.
pub open spec fn sp_defs_args(args: Seq<GPair>) -> Seq<GDefine>
    decreases args.len(),
{
    if args.len() == 0 {
        Seq::empty()
    } else {
        sp_defs_args(args.drop_last()).push(
            GDefine { kind: GDefineKind::Argument(args.last().1), refs: args.last().0 },
        )
    }
}

/// The entries of a function's spawn result variables.
pub open spec fn sp_defs_vars(spawns: Seq<GSpawn>) -> Seq<GDefine>
    decreases spawns.len(),
{
    if spawns.len() == 0 {
        Seq::empty()
    } else {
        sp_defs_vars(spawns.drop_last()).push(
            GDefine {
                kind: GDefineKind::Variable(spawns.last().result.1),
                refs: spawns.last().result.0,
            },
        )
    }
}

/// The declared return type a function is indexed under: what it declares, or
/// a bare placeholder while it has no return binding.
pub open spec fn sp_ret_type(f: GFunc) -> GType {
    match f.returns {
        Some(p) => p.1,
        None => GType::UnsolvedNoHint,
    }
}

/// The entries of one function.
pub open spec fn sp_defs_func(f: GFunc) -> Seq<GDefine> {
    seq![GDefine { kind: GDefineKind::Function(sp_ret_type(f)), refs: f.name }]
        + sp_defs_args(f.args) + sp_defs_vars(f.spawns)
}

/// The entries of a module's functions.
pub open spec fn sp_defs_funcs(fs: Seq<GFunc>) -> Seq<GDefine>
    decreases fs.len(),
{
    if fs.len() == 0 {
        Seq::empty()
    } else {
        sp_defs_funcs(fs.drop_last()) + sp_defs_func(fs.last())
    }
}

/// The entries of one module.
pub open spec fn sp_defs_module(m: GModule) -> Seq<GDefine> {
    seq![GDefine { kind: GDefineKind::Module, refs: m.name }] + sp_defs_funcs(m.functions)
}

/// The entries of a unit's data declarations.
pub open spec fn sp_defs_datas(ds: Seq<GData>) -> Seq<GDefine>
    decreases ds.len(),
{
    if ds.len() == 0 {
        Seq::empty()
    } else {
        sp_defs_datas(ds.drop_last()) + sp_defs_data(ds.last())
    }
}

/// The entries of a unit's modules.
pub open spec fn sp_defs_mods(ms: Seq<GModule>) -> Seq<GDefine>
    decreases ms.len(),
{
    if ms.len() == 0 {
        Seq::empty()
    } else {
        sp_defs_mods(ms.drop_last()) + sp_defs_module(ms.last())
    }
}

/// The entries of one unit.
pub open spec fn sp_defs_unit(u: GUnitU) -> Seq<GDefine> {
    sp_defs_datas(u.data) + sp_defs_mods(u.modules)
}

/// The entries of all units.
pub open spec fn sp_defs_units(us: Seq<GUnitU>) -> Seq<GDefine>
    decreases us.len(),
{
    if us.len() == 0 {
        Seq::empty()
    } else {
        sp_defs_units(us.drop_last()) + sp_defs_unit(us.last())
    }
}

/// The whole catalog of an unchecked system.
pub open spec fn sp_defines(sys: GSystemU) -> Seq<GDefine> {
    sp_defs_units(sys.units)
}

/// The first catalog entry defined directly in scope `ns` under the own
/// segment `id`; with `data_only`, only data-type entries count.
pub open spec fn sp_find(defs: Seq<GDefine>, ns: Seq<char>, id: Seq<char>, data_only: bool) -> Option<
    GDefine,
>
    decreases defs.len(),
{
    if defs.len() == 0 {
        None
    } else if defs[0].refs.namespace == ns && defs[0].refs.name == id && (!data_only
        || defs[0].kind is Data) {
        Some(defs[0])
    } else {
        sp_find(defs.drop_first(), ns, id, data_only)
    }
}

/// Looks `id` up in scope `ns`, walking outward scope by scope.
pub open spec fn sp_lookup_up(
    defs: Seq<GDefine>,
    ns: Seq<char>,
    id: Seq<char>,
    data_only: bool,
) -> Option<GDefine>
    decreases ns.len(),
{
    match sp_find(defs, ns, id, data_only) {
        Some(d) => Some(d),
        None => {
            let k = last_dot(ns);
            if 0 <= k < ns.len() {
                sp_lookup_up(defs, ns.take(k), id, data_only)
            } else {
                None
            }
        },
    }
}

/// Looks `id` up directly under each imported unit, in declaration order;
/// the first import that answers wins.
pub open spec fn sp_try_imports(
    defs: Seq<GDefine>,
    imports: Seq<GName>,
    id: Seq<char>,
    data_only: bool,
) -> Option<GDefine>
    decreases imports.len(),
{
    if imports.len() == 0 {
        None
    } else {
        match sp_find(defs, imports[0].full(), id, data_only) {
            Some(d) => Some(d),
            None => sp_try_imports(defs, imports.drop_first(), id, data_only),
        }
    }
}

/// Index of the first dot of `s` at or after `i`, or `-1` if there is none.
pub open spec fn first_dot_from(s: Seq<char>, i: int) -> int
    decreases s.len() - i,
{
    if !(0 <= i < s.len()) {
        -1
    } else if s[i] == '.' {
        i
    } else {
        first_dot_from(s, i + 1)
    }
}

/// The dot-separated parts of a written name; never empty.
pub open spec fn split_dots(s: Seq<char>) -> Seq<Seq<char>>
    decreases s.len(),
{
    let k = first_dot_from(s, 0);
    if !(0 <= k < s.len()) {
        seq![s]
    } else {
        seq![s.take(k)] + split_dots(s.skip(k + 1))
    }
}

/// The declared type a catalog entry answers with: a data type stands for
/// itself, entities without a type for an unresolvable placeholder.
pub open spec fn sp_type_of_define(d: GDefine) -> GType {
    match d.kind {
        GDefineKind::Data => GType::Solved(d.refs),
        GDefineKind::DataMember(t) => t,
        GDefineKind::Module => GType::UnsolvedNoHint,
        GDefineKind::Function(t) => t,
        GDefineKind::Argument(t) => t,
        GDefineKind::Variable(t) => t,
    }
}

/// Resolves one type reference. Primitives and already-resolved types stand;
/// a placeholder with a hint is looked up as a data type from its declaring
/// scope outward and then through the imports; a bare placeholder cannot be
/// resolved and reports `ctx`, the name whose type it was.
pub open spec fn sp_resolve_type(
    defs: Seq<GDefine>,
    t: GType,
    imports: Seq<GName>,
    ctx: GName,
) -> Result<GType, GErr> {
    match t {
        GType::Unsolved(hint) => match sp_lookup_up(defs, hint.namespace, hint.name, true) {
            Some(d) => Ok(GType::Solved(d.refs)),
            None => match sp_try_imports(defs, imports, hint.name, true) {
                Some(d) => Ok(GType::Solved(d.refs)),
                None => Err(GErr::UnresolvedName { name: hint, imports }),
            },
        },
        GType::UnsolvedNoHint => Err(GErr::UnresolvedName { name: ctx, imports }),
        _ => Ok(t),
    }
}

/// Follows the remaining dotted parts of a reference from an already
/// resolved base: each part names a child of the data type the current type
/// denotes, or a child scope of the current entity.
pub open spec fn sp_chain(
    defs: Seq<GDefine>,
    refs: GName,
    t: GType,
    parts: Seq<Seq<char>>,
    imports: Seq<GName>,
    orig: GName,
) -> Result<(GName, GType), GErr>
    decreases parts.len(),
{
    if parts.len() == 0 {
        Ok((refs, t))
    } else {
        let hop_ns = match t {
            GType::Solved(dn) => dn.full(),
            _ => refs.full(),
        };
        match sp_find(defs, hop_ns, parts[0], false) {
            None => Err(GErr::UnresolvedName { name: orig, imports }),
            Some(d2) => match sp_resolve_type(defs, sp_type_of_define(d2), imports, d2.refs) {
                Err(e) => Err(e),
                Ok(t2) => sp_chain(defs, d2.refs, t2, parts.drop_first(), imports, orig),
            },
        }
    }
}

/// Resolves a (possibly dotted) reference written in some scope: the head is
/// looked up from that scope outward, then through the imports; the remaining
/// parts are followed as children. Yields the full name of the entity the
/// reference denotes and its resolved type.
pub open spec fn sp_resolve_name(defs: Seq<GDefine>, name: GName, imports: Seq<GName>) -> Result<
    (GName, GType),
    GErr,
> {
    let parts = split_dots(name.name);
    let base = match sp_lookup_up(defs, name.namespace, parts[0], false) {
        Some(d) => Some(d),
        None => sp_try_imports(defs, imports, parts[0], false),
    };
    match base {
        None => Err(GErr::UnresolvedName { name, imports }),
        Some(d) => match sp_resolve_type(defs, sp_type_of_define(d), imports, d.refs) {
            Err(e) => Err(e),
            Ok(t0) => sp_chain(defs, d.refs, t0, parts.drop_first(), imports, name),
        },
    }
}

/// Resolves a reference to a definition without resolving its type: the same
/// walk as [`sp_resolve_name`], hopping through child scopes only.
pub open spec fn sp_chain_refs(
    defs: Seq<GDefine>,
    d: GDefine,
    parts: Seq<Seq<char>>,
    imports: Seq<GName>,
    orig: GName,
) -> Result<GDefine, GErr>
    decreases parts.len(),
{
    if parts.len() == 0 {
        Ok(d)
    } else {
        match sp_find(defs, d.refs.full(), parts[0], false) {
            None => Err(GErr::UnresolvedName { name: orig, imports }),
            Some(d2) => sp_chain_refs(defs, d2, parts.drop_first(), imports, orig),
        }
    }
}

/// The resolved parameter types of the function at `fns_full`, in declaration
/// order; `scan` is the part of the catalog still to walk.
pub open spec fn sp_args_of(
    defs: Seq<GDefine>,
    scan: Seq<GDefine>,
    fns_full: Seq<char>,
    imports: Seq<GName>,
) -> Result<Seq<GType>, GErr>
    decreases scan.len(),
{
    if scan.len() == 0 {
        Ok(Seq::empty())
    } else {
        match scan[0].kind {
            GDefineKind::Argument(t) => {
                if scan[0].refs.namespace == fns_full {
                    match sp_resolve_type(defs, t, imports, scan[0].refs) {
                        Err(e) => Err(e),
                        Ok(t2) => match sp_args_of(defs, scan.drop_first(), fns_full, imports) {
                            Err(e) => Err(e),
                            Ok(ts) => Ok(seq![t2] + ts),
                        },
                    }
                } else {
                    sp_args_of(defs, scan.drop_first(), fns_full, imports)
                }
            },
            _ => sp_args_of(defs, scan.drop_first(), fns_full, imports),
        }
    }
}

/// The declared parameter types of the function a reference denotes, resolved
/// and in order.
pub open spec fn sp_get_args_type(defs: Seq<GDefine>, fname: GName, imports: Seq<GName>) -> Result<
    Seq<GType>,
    GErr,
> {
    let parts = split_dots(fname.name);
    let base = match sp_lookup_up(defs, fname.namespace, parts[0], false) {
        Some(d) => Some(d),
        None => sp_try_imports(defs, imports, parts[0], false),
    };
    match base {
        None => Err(GErr::UnresolvedName { name: fname, imports }),
        Some(d) => match sp_chain_refs(defs, d, parts.drop_first(), imports, fname) {
            Err(e) => Err(e),
            Ok(fd) => sp_args_of(defs, defs, fd.refs.full(), imports),
        },
    }
}

/// The model of a vector of catalog entries.
pub open spec fn view_defs(v: Seq<Define>) -> Seq<GDefine> {
    v.map_values(|d: Define| d@)
}

/// The model of a vector of types.
pub open spec fn view_types(v: Seq<Type>) -> Seq<GType> {
    v.map_values(|t: Type| t@)
}

impl Clone for DefineKind {
    fn clone(&self) -> (r: DefineKind)
        ensures
            r == self,
    {
        match self {
            DefineKind::Data => DefineKind::Data,
            DefineKind::DataMember(t) => DefineKind::DataMember(t.clone()),
            DefineKind::Module => DefineKind::Module,
            DefineKind::Function(t) => DefineKind::Function(t.clone()),
            DefineKind::Argument(t) => DefineKind::Argument(t.clone()),
            DefineKind::Variable(t) => DefineKind::Variable(t.clone()),
        }
    }
}

impl Clone for Define {
    fn clone(&self) -> (r: Define)
        ensures
            r == self,
    {
        Define { kind: self.kind.clone(), refs: self.refs.clone() }
    }
}

/// An element-exact copy of a name list.
pub fn clone_names_pub(v: &Vec<Name>) -> (r: Vec<Name>)
    ensures
        r@ == v@,
{
    clone_names(v)
}

/// An element-exact copy of a name list.
fn clone_names(v: &Vec<Name>) -> (r: Vec<Name>)
    ensures
        r@ == v@,
{
    let r = v.clone();
    proof {
        assert forall|i: int| 0 <= i < v@.len() implies r@[i] == v@[i] by {
            assert(vstd::pervasive::cloned::<Name>(v@[i], r@[i]));
        }
        assert(r@ =~= v@);
    }
    r
}

/// Records every member of a data declaration.
#[verifier::loop_isolation(false)]
fn push_defs_members(defs: &mut Vec<Define>, members: &Vec<(Name, Type)>)
    ensures
        view_defs(final(defs)@) == view_defs(old(defs)@) + sp_defs_members(
            crate::structure::view_pairs(members@),
        ),
{
    let ghost base = view_defs(defs@);
    let ghost msv = crate::structure::view_pairs(members@);
    proof {
        assert(view_defs(defs@) =~= base + sp_defs_members(msv.take(0)));
    }
    let mut i: usize = 0;
    while i < members.len()
        invariant
            i <= members@.len(),
            view_defs(defs@) == base + sp_defs_members(msv.take(i as int)),
        decreases members@.len() - i,
    {
        let ghost prev = view_defs(defs@);
        let d = Define {
            kind: DefineKind::DataMember(members[i].1.clone()),
            refs: members[i].0.clone(),
        };
        let ghost dv = d@;
        defs.push(d);
        proof {
            assert(view_defs(defs@) =~= prev.push(dv));
            assert(msv.take(i + 1).drop_last() =~= msv.take(i as int));
            assert(msv.take(i + 1).last() == msv[i as int]);
            assert(base + sp_defs_members(msv.take(i + 1)) =~= (base + sp_defs_members(
                msv.take(i as int),
            )).push(dv));
        }
        i += 1;
    }
    proof {
        assert(msv.take(members@.len() as int) =~= msv);
    }
}

/// Records a data declaration and its members.
#[verifier::loop_isolation(false)]
fn push_defs_data(defs: &mut Vec<Define>, d: &crate::structure::unchecked::SysDCData)
    ensures
        view_defs(final(defs)@) == view_defs(old(defs)@) + sp_defs_data(d@),
{
    let ghost base = view_defs(defs@);
    let ghost prev = view_defs(defs@);
    let e = Define { kind: DefineKind::Data, refs: d.name.clone() };
    let ghost ev = e@;
    defs.push(e);
    proof {
        assert(view_defs(defs@) =~= prev.push(ev));
        assert(prev.push(ev) =~= base + seq![ev]);
    }
    push_defs_members(defs, &d.members);
    proof {
        assert((base + seq![ev]) + sp_defs_members(d@.members) =~= base + (seq![ev]
            + sp_defs_members(d@.members)));
    }
}

/// Records the arguments of a function.
#[verifier::loop_isolation(false)]
fn push_defs_args(defs: &mut Vec<Define>, args: &Vec<(Name, Type)>)
    ensures
        view_defs(final(defs)@) == view_defs(old(defs)@) + sp_defs_args(
            crate::structure::view_pairs(args@),
        ),
{
    let ghost base = view_defs(defs@);
    let ghost asv = crate::structure::view_pairs(args@);
    proof {
        assert(view_defs(defs@) =~= base + sp_defs_args(asv.take(0)));
    }
    let mut i: usize = 0;
    while i < args.len()
        invariant
            i <= args@.len(),
            view_defs(defs@) == base + sp_defs_args(asv.take(i as int)),
        decreases args@.len() - i,
    {
        let ghost prev = view_defs(defs@);
        let d = Define {
            kind: DefineKind::Argument(args[i].1.clone()),
            refs: args[i].0.clone(),
        };
        let ghost dv = d@;
        defs.push(d);
        proof {
            assert(view_defs(defs@) =~= prev.push(dv));
            assert(asv.take(i + 1).drop_last() =~= asv.take(i as int));
            assert(asv.take(i + 1).last() == asv[i as int]);
            assert(base + sp_defs_args(asv.take(i + 1)) =~= (base + sp_defs_args(
                asv.take(i as int),
            )).push(dv));
        }
        i += 1;
    }
    proof {
        assert(asv.take(args@.len() as int) =~= asv);
    }
}

/// Records the result variables of a function's spawns.
#[verifier::loop_isolation(false)]
fn push_defs_vars(defs: &mut Vec<Define>, spawns: &Vec<crate::structure::unchecked::SysDCSpawn>)
    ensures
        view_defs(final(defs)@) == view_defs(old(defs)@) + sp_defs_vars(
            crate::parse::view_spawns(spawns@),
        ),
{
    let ghost base = view_defs(defs@);
    let ghost ssv = crate::parse::view_spawns(spawns@);
    proof {
        assert(view_defs(defs@) =~= base + sp_defs_vars(ssv.take(0)));
    }
    let mut i: usize = 0;
    while i < spawns.len()
        invariant
            i <= spawns@.len(),
            view_defs(defs@) == base + sp_defs_vars(ssv.take(i as int)),
        decreases spawns@.len() - i,
    {
        let ghost prev = view_defs(defs@);
        let d = Define {
            kind: DefineKind::Variable(spawns[i].result.1.clone()),
            refs: spawns[i].result.0.clone(),
        };
        let ghost dv = d@;
        defs.push(d);
        proof {
            assert(ssv[i as int] == spawns@[i as int]@);
            assert(view_defs(defs@) =~= prev.push(dv));
            assert(ssv.take(i + 1).drop_last() =~= ssv.take(i as int));
            assert(ssv.take(i + 1).last() == ssv[i as int]);
            assert(base + sp_defs_vars(ssv.take(i + 1)) =~= (base + sp_defs_vars(
                ssv.take(i as int),
            )).push(dv));
        }
        i += 1;
    }
    proof {
        assert(ssv.take(spawns@.len() as int) =~= ssv);
    }
}

/// Records a function, its arguments, and its spawn variables.
#[verifier::loop_isolation(false)]
fn push_defs_func(defs: &mut Vec<Define>, f: &crate::structure::unchecked::SysDCFunction)
    ensures
        view_defs(final(defs)@) == view_defs(old(defs)@) + sp_defs_func(f@),
{
    let ghost base = view_defs(defs@);
    let ghost prev = view_defs(defs@);
    let rt = match &f.returns {
        Some(p) => p.1.clone(),
        None => Type::UnsolvedNoHint,
    };
    let e = Define { kind: DefineKind::Function(rt), refs: f.name.clone() };
    let ghost ev = e@;
    proof {
        assert(ev == (GDefine { kind: GDefineKind::Function(sp_ret_type(f@)), refs: f@.name }));
    }
    defs.push(e);
    proof {
        assert(view_defs(defs@) =~= prev.push(ev));
        assert(prev.push(ev) =~= base + seq![ev]);
    }
    push_defs_args(defs, &f.args);
    push_defs_vars(defs, &f.spawns);
    proof {
        assert(crate::parse::view_spawns(f.spawns@) =~= f@.spawns);
        assert(view_defs(defs@) =~= base + (seq![ev] + sp_defs_args(f@.args) + sp_defs_vars(
            f@.spawns,
        )));
    }
}

/// Records a module and all its functions.
#[verifier::loop_isolation(false)]
fn push_defs_module(defs: &mut Vec<Define>, m: &crate::structure::unchecked::SysDCModule)
    ensures
        view_defs(final(defs)@) == view_defs(old(defs)@) + sp_defs_module(m@),
{
    let ghost base = view_defs(defs@);
    let ghost prev = view_defs(defs@);
    let e = Define { kind: DefineKind::Module, refs: m.name.clone() };
    let ghost ev = e@;
    defs.push(e);
    proof {
        assert(view_defs(defs@) =~= prev.push(ev));
        assert(prev.push(ev) =~= base + seq![ev]);
    }
    let ghost fsv = m@.functions;
    proof {
        assert(fsv =~= m.functions@.map_values(|f: crate::structure::unchecked::SysDCFunction| f@));
        assert(view_defs(defs@) =~= (base + seq![ev]) + sp_defs_funcs(fsv.take(0)));
    }
    let mut i: usize = 0;
    while i < m.functions.len()
        invariant
            i <= m.functions@.len(),
            fsv == m@.functions,
            view_defs(defs@) == (base + seq![ev]) + sp_defs_funcs(fsv.take(i as int)),
        decreases m.functions@.len() - i,
    {
        push_defs_func(defs, &m.functions[i]);
        proof {
            assert(fsv[i as int] == m.functions@[i as int]@);
            assert(fsv.take(i + 1).drop_last() =~= fsv.take(i as int));
            assert(fsv.take(i + 1).last() == fsv[i as int]);
            assert(view_defs(defs@) =~= (base + seq![ev]) + sp_defs_funcs(fsv.take(i + 1)));
        }
        i += 1;
    }
    proof {
        assert(fsv.take(m.functions@.len() as int) =~= fsv);
        assert(view_defs(defs@) =~= base + (seq![ev] + sp_defs_funcs(fsv)));
    }
}

/// Records one whole unit.
#[verifier::loop_isolation(false)]
fn push_defs_unit(defs: &mut Vec<Define>, u: &crate::structure::unchecked::SysDCUnit)
    ensures
        view_defs(final(defs)@) == view_defs(old(defs)@) + sp_defs_unit(u@),
{
    let ghost base = view_defs(defs@);
    let ghost dsv = u@.data;
    proof {
        assert(dsv =~= u.data@.map_values(|d: crate::structure::unchecked::SysDCData| d@));
        assert(view_defs(defs@) =~= base + sp_defs_datas(dsv.take(0)));
    }
    let mut i: usize = 0;
    while i < u.data.len()
        invariant
            i <= u.data@.len(),
            dsv == u@.data,
            view_defs(defs@) == base + sp_defs_datas(dsv.take(i as int)),
        decreases u.data@.len() - i,
    {
        push_defs_data(defs, &u.data[i]);
        proof {
            assert(dsv[i as int] == u.data@[i as int]@);
            assert(dsv.take(i + 1).drop_last() =~= dsv.take(i as int));
            assert(dsv.take(i + 1).last() == dsv[i as int]);
            assert(view_defs(defs@) =~= base + sp_defs_datas(dsv.take(i + 1)));
        }
        i += 1;
    }
    proof {
        assert(dsv.take(u.data@.len() as int) =~= dsv);
    }
    let ghost mid = base + sp_defs_datas(u@.data);
    let ghost msv = u@.modules;
    proof {
        assert(msv =~= u.modules@.map_values(|m: crate::structure::unchecked::SysDCModule| m@));
        assert(view_defs(defs@) =~= mid + sp_defs_mods(msv.take(0)));
    }
    let mut j: usize = 0;
    while j < u.modules.len()
        invariant
            j <= u.modules@.len(),
            msv == u@.modules,
            view_defs(defs@) == mid + sp_defs_mods(msv.take(j as int)),
        decreases u.modules@.len() - j,
    {
        push_defs_module(defs, &u.modules[j]);
        proof {
            assert(msv[j as int] == u.modules@[j as int]@);
            assert(msv.take(j + 1).drop_last() =~= msv.take(j as int));
            assert(msv.take(j + 1).last() == msv[j as int]);
            assert(view_defs(defs@) =~= mid + sp_defs_mods(msv.take(j + 1)));
        }
        j += 1;
    }
    proof {
        assert(msv.take(u.modules@.len() as int) =~= msv);
        assert(view_defs(defs@) =~= base + (sp_defs_datas(u@.data) + sp_defs_mods(u@.modules)));
    }
}

/// The catalog itself: every definition of the system, in declaration order.
pub struct DefinesManager {
    pub defines: Vec<Define>,
}

impl View for DefinesManager {
    type V = Seq<GDefine>;

    open spec fn view(&self) -> Seq<GDefine> {
        view_defs(self.defines@)
    }
}

impl DefinesManager {
    /// Builds the catalog over a fully parsed system.
    #[verifier::loop_isolation(false)]
    pub fn new(system: &SysDCSystem) -> (r: DefinesManager)
        ensures
            r@ == sp_defines(system@),
    {
        let mut defs: Vec<Define> = Vec::new();
        let ghost usv = system@.units;
        proof {
            assert(usv =~= system.units@.map_values(
                |u: crate::structure::unchecked::SysDCUnit| u@,
            ));
            assert(view_defs(defs@) =~= Seq::<GDefine>::empty() + sp_defs_units(usv.take(0)));
            assert(Seq::<GDefine>::empty() + sp_defs_units(usv.take(0)) =~= sp_defs_units(
                usv.take(0),
            ));
        }
        let mut i: usize = 0;
        while i < system.units.len()
            invariant
                i <= system.units@.len(),
                usv == system@.units,
                view_defs(defs@) == sp_defs_units(usv.take(i as int)),
            decreases system.units@.len() - i,
        {
            push_defs_unit(&mut defs, &system.units[i]);
            proof {
                assert(usv[i as int] == system.units@[i as int]@);
                assert(usv.take(i + 1).drop_last() =~= usv.take(i as int));
                assert(usv.take(i + 1).last() == usv[i as int]);
                assert(view_defs(defs@) =~= sp_defs_units(usv.take(i + 1)));
            }
            i += 1;
        }
        proof {
            assert(usv.take(system.units@.len() as int) =~= usv);
        }
        DefinesManager { defines: defs }
    }

    /// The first entry defined directly in scope `ns` under segment `id`.
    #[verifier::loop_isolation(false)]
    fn find(&self, ns: &String, id: &String, data_only: bool) -> (r: Option<Define>)
        ensures
            match sp_find(self@, ns@, id@, data_only) {
                Some(d) => r matches Some(rd) && rd@ == d,
                None => r is None,
            },
    {
        proof {
            assert(self@.skip(0) =~= self@);
        }
        let mut i: usize = 0;
        while i < self.defines.len()
            invariant
                i <= self.defines@.len(),
                sp_find(self@, ns@, id@, data_only) == sp_find(
                    self@.skip(i as int),
                    ns@,
                    id@,
                    data_only,
                ),
            decreases self.defines@.len() - i,
        {
            proof {
                assert(self@.skip(i as int)[0] == self@[i as int]);
                assert(self@.skip(i as int).drop_first() =~= self@.skip(i + 1));
            }
            let d = &self.defines[i];
            let kind_ok = if data_only {
                match d.kind {
                    DefineKind::Data => true,
                    _ => false,
                }
            } else {
                true
            };
            if d.refs.namespace.eq(ns) && d.refs.name.eq(id) && kind_ok {
                return Some(d.clone());
            }
            i += 1;
        }
        proof {
            assert(self@.skip(self.defines@.len() as int) =~= Seq::<GDefine>::empty());
        }
        None
    }

    /// Looks `id` up from scope `ns` outward.
    #[verifier::loop_isolation(false)]
    fn lookup_up(&self, ns: String, id: &String, data_only: bool) -> (r: Option<Define>)
        ensures
            match sp_lookup_up(self@, ns@, id@, data_only) {
                Some(d) => r matches Some(rd) && rd@ == d,
                None => r is None,
            },
        decreases ns@.len(),
    {
        match self.find(&ns, id, data_only) {
            Some(d) => Some(d),
            None => {
                let n = ns.unicode_len();
                proof {
                    assert(ns@.take(n as int) =~= ns@);
                }
                let mut i = n;
                while i > 0 && !(ns.get_char(i - 1) == '.')
                    invariant
                        i <= n,
                        last_dot(ns@) == last_dot(ns@.take(i as int)),
                    decreases i,
                {
                    proof {
                        assert(ns@.take(i as int).drop_last() =~= ns@.take(i - 1));
                        assert(ns@.take(i as int).last() == ns@[i - 1]);
                    }
                    i -= 1;
                }
                if i == 0 {
                    proof {
                        assert(ns@.take(0) =~= Seq::<char>::empty());
                    }
                    return None;
                }
                proof {
                    assert(ns@.take(i as int).last() == ns@[i - 1]);
                    assert(last_dot(ns@) == i - 1);
                }
                let parent = ns.as_str().substring_char(0, i - 1).to_owned();
                self.lookup_up(parent, id, data_only)
            },
        }
    }

    /// Looks `id` up directly under each imported unit, first match wins.
    #[verifier::loop_isolation(false)]
    fn try_imports(&self, imports: &Vec<Name>, id: &String, data_only: bool) -> (r: Option<Define>)
        ensures
            match sp_try_imports(self@, view_names(imports@), id@, data_only) {
                Some(d) => r matches Some(rd) && rd@ == d,
                None => r is None,
            },
    {
        let ghost impv = view_names(imports@);
        proof {
            assert(impv.skip(0) =~= impv);
        }
        let mut i: usize = 0;
        while i < imports.len()
            invariant
                i <= imports@.len(),
                sp_try_imports(self@, impv, id@, data_only) == sp_try_imports(
                    self@,
                    impv.skip(i as int),
                    id@,
                    data_only,
                ),
            decreases imports@.len() - i,
        {
            proof {
                assert(impv.skip(i as int)[0] == impv[i as int]);
                assert(impv.skip(i as int).drop_first() =~= impv.skip(i + 1));
            }
            let full = imports[i].get_full_name();
            match self.find(&full, id, data_only) {
                Some(d) => {
                    return Some(d);
                },
                None => (),
            }
            i += 1;
        }
        proof {
            assert(impv.skip(imports@.len() as int) =~= Seq::<GName>::empty());
        }
        None
    }

    /// The dot-separated parts of a written name.
    #[verifier::loop_isolation(false)]
    fn split_dots_e(s: &String) -> (r: Vec<String>)
        ensures
            crate::parse::view_strs(r@) == split_dots(s@),
            r@.len() >= 1,
    {
        let mut out: Vec<String> = Vec::new();
        let mut rem = s.clone();
        proof {
            assert(crate::parse::view_strs(out@) =~= Seq::<Seq<char>>::empty());
            assert(crate::parse::view_strs(out@) + split_dots(rem@) =~= split_dots(s@));
        }
        loop
            invariant
                crate::parse::view_strs(out@) + split_dots(rem@) == split_dots(s@),
            decreases rem@.len(),
        {
            let ghost outv = crate::parse::view_strs(out@);
            let n = rem.unicode_len();
            let mut i: usize = 0;
            while i < n && !(rem.get_char(i) == '.')
                invariant
                    i <= n,
                    n == rem@.len(),
                    first_dot_from(rem@, 0) == first_dot_from(rem@, i as int),
                decreases n - i,
            {
                i += 1;
            }
            if i == n {
                proof {
                    assert(first_dot_from(rem@, i as int) == -1);
                    assert(split_dots(rem@) =~= seq![rem@]);
                    assert(crate::parse::view_strs(out@.push(rem)) =~= outv.push(rem@));
                    assert(outv + seq![rem@] =~= outv.push(rem@));
                }
                out.push(rem);
                return out;
            }
            proof {
                assert(first_dot_from(rem@, i as int) == i);
            }
            let head = rem.as_str().substring_char(0, i).to_owned();
            let tail = rem.as_str().substring_char(i + 1, n).to_owned();
            proof {
                assert(split_dots(rem@) == seq![rem@.take(i as int)] + split_dots(
                    rem@.skip(i + 1),
                ));
                assert(tail@ =~= rem@.skip(i + 1));
                assert(crate::parse::view_strs(out@.push(head)) =~= outv.push(head@));
                assert(outv.push(head@) + split_dots(tail@) =~= outv + split_dots(rem@));
            }
            out.push(head);
            rem = tail;
        }
    }

    /// The declared type an entry answers with.
    fn type_of_define(d: &Define) -> (r: Type)
        ensures
            r@ == sp_type_of_define(d@),
    {
        match &d.kind {
            DefineKind::Data => Type::Solved(d.refs.clone()),
            DefineKind::DataMember(t) => t.clone(),
            DefineKind::Module => Type::UnsolvedNoHint,
            DefineKind::Function(t) => t.clone(),
            DefineKind::Argument(t) => t.clone(),
            DefineKind::Variable(t) => t.clone(),
        }
    }

    /// Resolves the type of a named binding, keeping the name: primitives
    /// stand, a placeholder with a hint is resolved as a data type from its
    /// declaring scope and then through the imports.
    pub fn resolve_from_type(&self, nt: (Name, Type), imports: &Vec<Name>) -> (r: PResult<
        (Name, Type),
    >)
        ensures
            match sp_resolve_type(self@, nt.1@, view_names(imports@), nt.0@) {
                Ok(t) => r matches Ok(p) && p.0 == nt.0 && p.1@ == t,
                Err(e) => r matches Err(pe) && pe@ == e,
            },
    {
        let ghost impv = view_names(imports@);
        let (n, t) = nt;
        match t {
            Type::Unsolved(hint) => {
                match self.lookup_up(hint.namespace.clone(), &hint.name, true) {
                    Some(d) => Ok((n, Type::Solved(d.refs))),
                    None => match self.try_imports(imports, &hint.name, true) {
                        Some(d) => Ok((n, Type::Solved(d.refs))),
                        None => {
                            let e = PError::UnresolvedName {
                                name: hint,
                                imports: clone_names(imports),
                            };
                            proof {
                                assert(e@->UnresolvedName_imports =~= impv);
                            }
                            Err(e)
                        },
                    },
                }
            },
            Type::UnsolvedNoHint => {
                let e = PError::UnresolvedName { name: n, imports: clone_names(imports) };
                proof {
                    assert(e@->UnresolvedName_imports =~= impv);
                }
                Err(e)
            },
            other => Ok((n, other)),
        }
    }

    /// Resolves the entry a define stands for into a usable type.
    fn resolve_define(&self, d: &Define, imports: &Vec<Name>) -> (r: PResult<(Name, Type)>)
        ensures
            match sp_resolve_type(self@, sp_type_of_define(d@), view_names(imports@), d@.refs) {
                Ok(t) => r matches Ok(p) && p.0 == d.refs && p.1@ == t,
                Err(e) => r matches Err(pe) && pe@ == e,
            },
    {
        let t = DefinesManager::type_of_define(d);
        self.resolve_from_type((d.refs.clone(), t), imports)
    }

    /// Resolves a (possibly dotted) reference: the full name of the entity it
    /// denotes, and its resolved type.
    #[verifier::loop_isolation(false)]
    pub fn resolve_from_name(&self, name: Name, imports: &Vec<Name>) -> (r: PResult<(Name, Type)>)
        ensures
            match sp_resolve_name(self@, name@, view_names(imports@)) {
                Ok(p) => r matches Ok(q) && q.0@ == p.0 && q.1@ == p.1,
                Err(e) => r matches Err(pe) && pe@ == e,
            },
    {
        let ghost impv = view_names(imports@);
        let ghost target = sp_resolve_name(self@, name@, impv);
        let parts = DefinesManager::split_dots_e(&name.name);
        let ghost partsv = crate::parse::view_strs(parts@);
        let base = match self.lookup_up(name.namespace.clone(), &parts[0], false) {
            Some(d) => d,
            None => match self.try_imports(imports, &parts[0], false) {
                Some(d) => d,
                None => {
                    let e = PError::UnresolvedName { name, imports: clone_names(imports) };
                    proof {
                        assert(e@->UnresolvedName_imports =~= impv);
                    }
                    return Err(e);
                },
            },
        };
        let (mut cur_refs, mut cur_t) = match self.resolve_define(&base, imports) {
            Ok(p) => p,
            Err(e) => {
                return Err(e);
            },
        };
        let mut k: usize = 1;
        proof {
            assert(partsv.skip(1) =~= partsv.drop_first());
            assert(target == sp_chain(self@, cur_refs@, cur_t@, partsv.skip(k as int), impv, name@));
        }
        while k < parts.len()
            invariant
                1 <= k <= parts@.len(),
                target == sp_chain(self@, cur_refs@, cur_t@, partsv.skip(k as int), impv, name@),
            decreases parts@.len() - k,
        {
            proof {
                assert(partsv.skip(k as int)[0] == partsv[k as int]);
                assert(partsv.skip(k as int).drop_first() =~= partsv.skip(k + 1));
            }
            let hop_ns = match &cur_t {
                Type::Solved(dn) => dn.get_full_name(),
                _ => cur_refs.get_full_name(),
            };
            let d2 = match self.find(&hop_ns, &parts[k], false) {
                Some(d) => d,
                None => {
                    let e = PError::UnresolvedName { name, imports: clone_names(imports) };
                    proof {
                        assert(e@->UnresolvedName_imports =~= impv);
                    }
                    return Err(e);
                },
            };
            let (nr, nt) = match self.resolve_define(&d2, imports) {
                Ok(p) => p,
                Err(e) => {
                    return Err(e);
                },
            };
            cur_refs = nr;
            cur_t = nt;
            k += 1;
        }
        proof {
            assert(partsv.skip(parts@.len() as int) =~= Seq::<Seq<char>>::empty());
        }
        Ok((cur_refs, cur_t))
    }

    /// The resolved parameter types, in order, of the function a reference
    /// denotes.
    #[verifier::loop_isolation(false)]
    pub fn get_args_type(&self, func: &Name, imports: &Vec<Name>) -> (r: PResult<Vec<Type>>)
        ensures
            match sp_get_args_type(self@, func@, view_names(imports@)) {
                Ok(ts) => r matches Ok(v) && view_types(v@) == ts,
                Err(e) => r matches Err(pe) && pe@ == e,
            },
    {
        let ghost impv = view_names(imports@);
        let ghost target = sp_get_args_type(self@, func@, impv);
        let parts = DefinesManager::split_dots_e(&func.name);
        let ghost partsv = crate::parse::view_strs(parts@);
        let base = match self.lookup_up(func.namespace.clone(), &parts[0], false) {
            Some(d) => d,
            None => match self.try_imports(imports, &parts[0], false) {
                Some(d) => d,
                None => {
                    let e = PError::UnresolvedName {
                        name: func.clone(),
                        imports: clone_names(imports),
                    };
                    proof {
                        assert(e@->UnresolvedName_imports =~= impv);
                    }
                    return Err(e);
                },
            },
        };
        let mut cur = base;
        let mut k: usize = 1;
        proof {
            assert(partsv.skip(1) =~= partsv.drop_first());
        }
        while k < parts.len()
            invariant
                1 <= k <= parts@.len(),
                sp_chain_refs(self@, cur@, partsv.skip(k as int), impv, func@) == sp_chain_refs(
                    self@,
                    base@,
                    partsv.drop_first(),
                    impv,
                    func@,
                ),
            decreases parts@.len() - k,
        {
            proof {
                assert(partsv.skip(k as int)[0] == partsv[k as int]);
                assert(partsv.skip(k as int).drop_first() =~= partsv.skip(k + 1));
            }
            let full = cur.refs.get_full_name();
            let d2 = match self.find(&full, &parts[k], false) {
                Some(d) => d,
                None => {
                    let e = PError::UnresolvedName {
                        name: func.clone(),
                        imports: clone_names(imports),
                    };
                    proof {
                        assert(e@->UnresolvedName_imports =~= impv);
                    }
                    return Err(e);
                },
            };
            cur = d2;
            k += 1;
        }
        proof {
            assert(partsv.skip(parts@.len() as int) =~= Seq::<Seq<char>>::empty());
        }
        let fns_full = cur.refs.get_full_name();
        let ghost fnsv = cur@.refs.full();
        let mut out: Vec<Type> = Vec::new();
        proof {
            assert(view_types(out@) =~= Seq::<GType>::empty());
            assert(self@.skip(0) =~= self@);
        }
        let mut i: usize = 0;
        while i < self.defines.len()
            invariant
                i <= self.defines@.len(),
                match sp_args_of(self@, self@.skip(i as int), fnsv, impv) {
                    Ok(ts) => target == Ok::<Seq<GType>, GErr>(view_types(out@) + ts),
                    Err(e) => target == Err::<Seq<GType>, GErr>(e),
                },
            decreases self.defines@.len() - i,
        {
            proof {
                assert(self@.skip(i as int)[0] == self@[i as int]);
                assert(self@.skip(i as int).drop_first() =~= self@.skip(i + 1));
            }
            let d = &self.defines[i];
            let is_arg = match d.kind {
                DefineKind::Argument(_) => true,
                _ => false,
            };
            if is_arg && d.refs.namespace.eq(&fns_full) {
                match self.resolve_define_type_only(d, imports) {
                    Ok(t2) => {
                        let ghost outv = view_types(out@);
                        let ghost t2v = t2@;
                        proof {
                            assert(view_types(out@.push(t2)) =~= outv.push(t2v));
                        }
                        out.push(t2);
                        proof {
                            if sp_args_of(self@, self@.skip(i + 1), fnsv, impv) is Ok {
                                let rest = sp_args_of(self@, self@.skip(i + 1), fnsv, impv)->Ok_0;
                                assert(outv + (seq![t2v] + rest) =~= outv.push(t2v) + rest);
                            }
                        }
                    },
                    Err(e) => {
                        return Err(e);
                    },
                }
            }
            i += 1;
        }
        proof {
            assert(self@.skip(self.defines@.len() as int) =~= Seq::<GDefine>::empty());
            assert(view_types(out@) + Seq::<GType>::empty() =~= view_types(out@));
        }
        Ok(out)
    }

    /// Resolves the stored type of an argument entry.
    fn resolve_define_type_only(&self, d: &Define, imports: &Vec<Name>) -> (r: PResult<Type>)
        ensures
            ({
                let t = match d@.kind {
                    GDefineKind::Argument(t) => t,
                    _ => sp_type_of_define(d@),
                };
                match sp_resolve_type(self@, t, view_names(imports@), d@.refs) {
                    Ok(t2) => r matches Ok(rt) && rt@ == t2,
                    Err(e) => r matches Err(pe) && pe@ == e,
                }
            }),
    {
        match self.resolve_define(d, imports) {
            Ok((_, t)) => Ok(t),
            Err(e) => Err(e),
        }
    }
}

} // verus!
