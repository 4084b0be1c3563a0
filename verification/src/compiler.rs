//! The compiler pipeline. `add_unit` tokenizes and parses one source text
//! into an unchecked unit; `generate_system` builds the catalog over all
//! units, resolves every type reference through the generic tree conversion,
//! runs the type-match checker, and returns the checked system or the first
//! error.

use vstd::prelude::*;
use crate::check::{TypeMatchChecker, sp_check_units, view_imports};
use crate::define::{
    DefinesManager, GDefine, sp_defs_units, sp_resolve_type, sp_resolve_name, view_names,
};
use crate::error::{GErr, PError, PResult};
use crate::name::{GName, Name, g_child, g_root};
use crate::parse::{Parser, sp_parse};
use crate::structure::{
    GPair, GData, GModule, GFunc, GSpawn, GChild, GSystem, GUnit, SysDCSystem, SysDCUnit,
    SysDCData, SysDCModule, SysDCFunction, SysDCSpawn, SysDCSpawnChild, view_pair, view_pairs,
};
use crate::structure::unchecked::GUnitU;
use crate::structure::unchecked;
use crate::token::{Tokenizer, tokens_from, lex_err};
use crate::traverse::{sp_map_result, lemma_pointwise_ok, lemma_pointwise_err, lemma_pointwise_all_ok, converts_ok};
use crate::types::{GType, Type};

verus! {

/// Resolves one named, typed binding: the name stands, the type reference is
/// resolved against the catalog.
pub open spec fn sp_resolve_member(defs: Seq<GDefine>, imp: Seq<GName>, p: GPair) -> Result<
    GPair,
    GErr,
> {
    match sp_resolve_type(defs, p.1, imp, p.0) {
        Ok(t) => Ok((p.0, t)),
        Err(e) => Err(e),
    }
}

/// The member resolver as a value, shared by definition and proof.
pub open spec fn member_resolver(defs: Seq<GDefine>, imp: Seq<GName>) -> spec_fn(GPair) -> Result<
    GPair,
    GErr,
> {
    |p: GPair| sp_resolve_member(defs, imp, p)
}

/// Resolves a variable reference: the name stands, its type is what the
/// reference resolves to.
pub open spec fn sp_resolve_usepair(defs: Seq<GDefine>, imp: Seq<GName>, p: GPair) -> Result<
    GPair,
    GErr,
> {
    match sp_resolve_name(defs, p.0, imp) {
        Ok(q) => Ok((p.0, q.1)),
        Err(e) => Err(e),
    }
}

/// The variable-reference resolver as a value.
pub open spec fn usepair_resolver(defs: Seq<GDefine>, imp: Seq<GName>) -> spec_fn(GPair) -> Result<
    GPair,
    GErr,
> {
    |p: GPair| sp_resolve_usepair(defs, imp, p)
}

/// Resolves one spawn child: the values a spawn reads and returns resolve as
/// variable references; a call resolves its callee and each argument.
pub open spec fn sp_resolve_child(defs: Seq<GDefine>, imp: Seq<GName>, c: GChild) -> Result<
    GChild,
    GErr,
> {
    match c {
        GChild::Use(n, t) => match sp_resolve_usepair(defs, imp, (n, t)) {
            Ok(q) => Ok(GChild::Use(q.0, q.1)),
            Err(e) => Err(e),
        },
        GChild::Return(n, t) => match sp_resolve_usepair(defs, imp, (n, t)) {
            Ok(q) => Ok(GChild::Return(q.0, q.1)),
            Err(e) => Err(e),
        },
        GChild::LetTo { name, func, args } => match sp_resolve_usepair(defs, imp, func) {
            Err(e) => Err(e),
            Ok(f2) => match sp_map_result(usepair_resolver(defs, imp), args) {
                Err(e) => Err(e),
                Ok(a2) => Ok(GChild::LetTo { name, func: f2, args: a2 }),
            },
        },
    }
}

/// The spawn-child resolver as a value.
pub open spec fn child_resolver(defs: Seq<GDefine>, imp: Seq<GName>) -> spec_fn(GChild) -> Result<
    GChild,
    GErr,
> {
    |c: GChild| sp_resolve_child(defs, imp, c)
}

/// Resolves one spawn: its result binding, then its children.
pub open spec fn sp_resolve_spawn(defs: Seq<GDefine>, imp: Seq<GName>, s: GSpawn) -> Result<
    GSpawn,
    GErr,
> {
    match sp_resolve_member(defs, imp, s.result) {
        Err(e) => Err(e),
        Ok(res2) => match sp_map_result(child_resolver(defs, imp), s.details) {
            Err(e) => Err(e),
            Ok(ds) => Ok(GSpawn { result: res2, details: ds }),
        },
    }
}

/// The spawn resolver as a value.
pub open spec fn spawn_resolver(defs: Seq<GDefine>, imp: Seq<GName>) -> spec_fn(GSpawn) -> Result<
    GSpawn,
    GErr,
> {
    |s: GSpawn| sp_resolve_spawn(defs, imp, s)
}

/// Resolves a function's return binding. A function that never saw a `return`
/// annotation is refused here: checking demands exactly one.
pub open spec fn sp_resolve_rets(
    defs: Seq<GDefine>,
    imp: Seq<GName>,
    scope: GName,
    r: Option<GPair>,
) -> Result<Option<GPair>, GErr> {
    match r {
        None => Err(GErr::MissingAnnotation { which: "return"@, scope }),
        Some(p) => match sp_resolve_member(defs, imp, p) {
            Ok(q) => Ok(Some(q)),
            Err(e) => Err(e),
        },
    }
}

/// Resolves one function: return binding, then arguments, then spawns.
pub open spec fn sp_resolve_function(defs: Seq<GDefine>, imp: Seq<GName>, f: GFunc) -> Result<
    GFunc,
    GErr,
> {
    match sp_resolve_rets(defs, imp, f.name, f.returns) {
        Err(e) => Err(e),
        Ok(r2) => match sp_map_result(member_resolver(defs, imp), f.args) {
            Err(e) => Err(e),
            Ok(a2) => match sp_map_result(spawn_resolver(defs, imp), f.spawns) {
                Err(e) => Err(e),
                Ok(s2) => Ok(GFunc { name: f.name, args: a2, returns: r2, spawns: s2 }),
            },
        },
    }
}

/// The function resolver as a value.
pub open spec fn func_resolver(defs: Seq<GDefine>, imp: Seq<GName>) -> spec_fn(GFunc) -> Result<
    GFunc,
    GErr,
> {
    |f: GFunc| sp_resolve_function(defs, imp, f)
}

/// Resolves one data declaration: each member's type.
pub open spec fn sp_resolve_data(defs: Seq<GDefine>, imp: Seq<GName>, d: GData) -> Result<
    GData,
    GErr,
> {
    match sp_map_result(member_resolver(defs, imp), d.members) {
        Err(e) => Err(e),
        Ok(ms) => Ok(GData { name: d.name, members: ms }),
    }
}

/// The data resolver as a value.
pub open spec fn data_resolver(defs: Seq<GDefine>, imp: Seq<GName>) -> spec_fn(GData) -> Result<
    GData,
    GErr,
> {
    |d: GData| sp_resolve_data(defs, imp, d)
}

/// Resolves one module: each of its functions.
pub open spec fn sp_resolve_module(defs: Seq<GDefine>, imp: Seq<GName>, m: GModule) -> Result<
    GModule,
    GErr,
> {
    match sp_map_result(func_resolver(defs, imp), m.functions) {
        Err(e) => Err(e),
        Ok(fs) => Ok(GModule { name: m.name, functions: fs }),
    }
}

/// The module resolver as a value.
pub open spec fn module_resolver(defs: Seq<GDefine>, imp: Seq<GName>) -> spec_fn(GModule) -> Result<
    GModule,
    GErr,
> {
    |m: GModule| sp_resolve_module(defs, imp, m)
}

/// Resolves one unit under its own import list: its data, then its modules;
/// the import list is consumed.
pub open spec fn sp_resolve_unit(defs: Seq<GDefine>, u: GUnitU) -> Result<GUnit, GErr> {
    match sp_map_result(data_resolver(defs, u.imports), u.data) {
        Err(e) => Err(e),
        Ok(ds) => match sp_map_result(module_resolver(defs, u.imports), u.modules) {
            Err(e) => Err(e),
            Ok(ms) => Ok(GUnit { name: u.name, data: ds, modules: ms }),
        },
    }
}

/// The unit resolver as a value.
pub open spec fn unit_resolver(defs: Seq<GDefine>) -> spec_fn(GUnitU) -> Result<GUnit, GErr> {
    |u: GUnitU| sp_resolve_unit(defs, u)
}

/// What compiling one source text yields: the tokens of the text parsed under
/// a fresh unit namespace, or the first error.
pub open spec fn sp_compile_unit(name: Seq<char>, text: Seq<char>) -> Result<GUnitU, GErr> {
    match tokens_from(text, 0) {
        None => Err(lex_err()),
        Some(ts) => sp_parse(ts, g_child(g_root(), name)),
    }
}

/// The import lists of all units, in order.
pub open spec fn sp_units_imports(units: Seq<GUnitU>) -> Seq<Seq<GName>> {
    units.map_values(|u: GUnitU| u.imports)
}

/// What the whole pipeline yields for a sequence of parsed units: the catalog
/// is built over all of them, every unit is resolved, and the checked system
/// passes the type-match checker — or the first error anywhere.
pub open spec fn sp_generate(units: Seq<GUnitU>) -> Result<GSystem, GErr> {
    let defs = sp_defs_units(units);
    match sp_map_result(unit_resolver(defs), units) {
        Err(e) => Err(e),
        Ok(cus) => match sp_check_units(defs, cus, sp_units_imports(units)) {
            Err(e) => Err(e),
            Ok(_) => Ok(GSystem { units: cus }),
        },
    }
}

/// The model of a vector of parsed units.
pub open spec fn view_units(v: Seq<unchecked::SysDCUnit>) -> Seq<GUnitU> {
    v.map_values(|u: unchecked::SysDCUnit| u@)
}

/// The model of an optional return binding with its type.
pub open spec fn view_opt_pair(o: Option<(Name, Type)>) -> Option<GPair> {
    match o {
        Some(p) => Some(view_pair(p)),
        None => None,
    }
}

fn resolve_member_e(dm: &DefinesManager, imports: &Vec<Name>, p: (Name, Type)) -> (r: PResult<
    (Name, Type),
>)
    ensures
        match sp_resolve_member(dm@, view_names(imports@), view_pair(p)) {
            Ok(gp) => r matches Ok(q) && view_pair(q) == gp,
            Err(e) => r matches Err(pe) && pe@ == e,
        },
{
    dm.resolve_from_type(p, imports)
}

fn resolve_usepair_e(dm: &DefinesManager, imports: &Vec<Name>, p: (Name, Type)) -> (r: PResult<
    (Name, Type),
>)
    ensures
        match sp_resolve_usepair(dm@, view_names(imports@), view_pair(p)) {
            Ok(gp) => r matches Ok(q) && view_pair(q) == gp,
            Err(e) => r matches Err(pe) && pe@ == e,
        },
{
    match dm.resolve_from_name(p.0.clone(), imports) {
        Ok((_, t)) => Ok((p.0, t)),
        Err(e) => Err(e),
    }
}

fn resolve_child_e(dm: &DefinesManager, imports: &Vec<Name>, c: unchecked::SysDCSpawnChild) -> (r:
    PResult<SysDCSpawnChild>)
    ensures
        match sp_resolve_child(dm@, view_names(imports@), c@) {
            Ok(gc) => r matches Ok(cc) && cc@ == gc,
            Err(e) => r matches Err(pe) && pe@ == e,
        },
{
    let ghost defs = dm@;
    let ghost impv = view_names(imports@);
    let ghost cv = c@;
    let use_cl = |p: (Name, Type)| -> (rr: PResult<(Name, Type)>)
        ensures
            match sp_resolve_usepair(dm@, view_names(imports@), view_pair(p)) {
                Ok(gp) => rr matches Ok(q) && view_pair(q) == gp,
                Err(e) => rr matches Err(pe) && pe@ == e,
            },
        { resolve_usepair_e(dm, imports, p) };
    let ret_cl = |p: (Name, Type)| -> (rr: PResult<(Name, Type)>)
        ensures
            match sp_resolve_usepair(dm@, view_names(imports@), view_pair(p)) {
                Ok(gp) => rr matches Ok(q) && view_pair(q) == gp,
                Err(e) => rr matches Err(pe) && pe@ == e,
            },
        { resolve_usepair_e(dm, imports, p) };
    let let_cl = |n: Name, f: (Name, Type), args: Vec<(Name, Type)>| -> (rr: PResult<
        (Name, (Name, Type), Vec<(Name, Type)>),
    >)
        ensures
            match sp_resolve_usepair(dm@, view_names(imports@), view_pair(f)) {
                Err(e) => rr matches Err(pe) && pe@ == e,
                Ok(f2) => match sp_map_result(usepair_resolver(dm@, view_names(imports@)), view_pairs(args@)) {
                    Err(e) => rr matches Err(pe) && pe@ == e,
                    Ok(a2) => rr matches Ok(t3) && t3.0 == n && view_pair(t3.1) == f2
                        && view_pairs(t3.2@) == a2,
                },
            },
        {
            let f2 = match resolve_usepair_e(dm, imports, f) {
                Ok(x) => x,
                Err(e) => {
                    return Err(e);
                },
            };
            let ghost argsrc = args@;
            let arg_cl = |p: (Name, Type)| -> (rr: PResult<(Name, Type)>)
                ensures
                    match sp_resolve_usepair(dm@, view_names(imports@), view_pair(p)) {
                        Ok(gp) => rr matches Ok(q) && view_pair(q) == gp,
                        Err(e) => rr matches Err(pe) && pe@ == e,
                    },
                { resolve_usepair_e(dm, imports, p) };
            proof {
                assert forall|a: (Name, Type), rr2: PResult<(Name, Type)>| #[trigger] call_ensures(
                    arg_cl,
                    (a,),
                    rr2,
                ) implies match usepair_resolver(dm@, view_names(imports@))(a@) {
                    Ok(gb) => rr2 matches Ok(b) && b@ == gb,
                    Err(ge) => rr2 matches Err(pe) && pe@ == ge,
                } by {
                    assert(a@ == view_pair(a));
                }
            }
            let a2 = match crate::traverse::convert_vec(args, &arg_cl) {
                Ok(out) => {
                    proof {
                        lemma_pointwise_ok(
                            arg_cl,
                            usepair_resolver(dm@, view_names(imports@)),
                            argsrc,
                            out@,
                        );
                        assert(crate::traverse::view_elems(argsrc) =~= view_pairs(argsrc));
                        assert(crate::traverse::view_elems(out@) =~= view_pairs(out@));
                    }
                    out
                },
                Err(e) => {
                    proof {
                        lemma_pointwise_err(arg_cl, usepair_resolver(dm@, view_names(imports@)), argsrc, e);
                        assert(crate::traverse::view_elems(argsrc) =~= view_pairs(argsrc));
                    }
                    return Err(e);
                },
            };
            Ok((n, f2, a2))
        };
    c.convert(use_cl, ret_cl, let_cl)
}

fn resolve_spawn_e(dm: &DefinesManager, imports: &Vec<Name>, s: unchecked::SysDCSpawn) -> (r:
    PResult<SysDCSpawn>)
    ensures
        match sp_resolve_spawn(dm@, view_names(imports@), s@) {
            Ok(gs) => r matches Ok(ss) && ss@ == gs,
            Err(e) => r matches Err(pe) && pe@ == e,
        },
{
    let ghost defs = dm@;
    let ghost impv = view_names(imports@);
    let ghost sv = s@;
    let ghost dsrc = s.details@;
    let res_cl = |p: (Name, Type)| -> (rr: PResult<(Name, Type)>)
        ensures
            match sp_resolve_member(dm@, view_names(imports@), view_pair(p)) {
                Ok(gp) => rr matches Ok(q) && view_pair(q) == gp,
                Err(e) => rr matches Err(pe) && pe@ == e,
            },
        { resolve_member_e(dm, imports, p) };
    let child_cl = |c: unchecked::SysDCSpawnChild| -> (rr: PResult<SysDCSpawnChild>)
        ensures
            match sp_resolve_child(dm@, view_names(imports@), c@) {
                Ok(gc) => rr matches Ok(cc) && cc@ == gc,
                Err(e) => rr matches Err(pe) && pe@ == e,
            },
        { resolve_child_e(dm, imports, c) };
    proof {
        assert(crate::traverse::behaves_as(child_cl, child_resolver(defs, impv))) by {
            assert forall|a: unchecked::SysDCSpawnChild, rr2: PResult<SysDCSpawnChild>| #[trigger] call_ensures(
                child_cl,
                (a,),
                rr2,
            ) implies match child_resolver(defs, impv)(a@) {
                Ok(gb) => rr2 matches Ok(b) && b@ == gb,
                Err(ge) => rr2 matches Err(pe) && pe@ == ge,
            } by {}
        }
    }
    let r = s.convert(res_cl, child_cl);
    proof {
        assert(crate::traverse::view_elems(dsrc) =~= sv.details);
    }
    match r {
        Ok(ss) => {
            proof {
                lemma_pointwise_ok(child_cl, child_resolver(defs, impv), dsrc, ss.details@);
                assert(crate::traverse::view_elems(ss.details@) =~= ss@.details);
            }
            Ok(ss)
        },
        Err(e) => {
            proof {
                if !(sp_resolve_member(defs, impv, sv.result) is Err) {
                    if exists|i: int|
                        {
                            &&& 0 <= i < dsrc.len()
                            &&& #[trigger] call_ensures(
                                child_cl,
                                (dsrc[i],),
                                Err::<SysDCSpawnChild, PError>(e),
                            )
                            &&& forall|j: int|
                                0 <= j < i ==> #[trigger] converts_ok(child_cl, dsrc[j])
                        } {
                        lemma_pointwise_err(child_cl, child_resolver(defs, impv), dsrc, e);
                    }
                }
            }
            Err(e)
        },
    }
}

fn resolve_function_e(dm: &DefinesManager, imports: &Vec<Name>, f: unchecked::SysDCFunction) -> (r:
    PResult<SysDCFunction>)
    ensures
        match sp_resolve_function(dm@, view_names(imports@), f@) {
            Ok(gf) => r matches Ok(ff) && ff@ == gf,
            Err(e) => r matches Err(pe) && pe@ == e,
        },
{
    let ghost defs = dm@;
    let ghost impv = view_names(imports@);
    let ghost fv = f@;
    let ghost asrc = f.args@;
    let ghost ssrc = f.spawns@;
    let scope = f.name.clone();
    let ghost scopev = scope@;
    let arg_cl = |p: (Name, Type)| -> (rr: PResult<(Name, Type)>)
        ensures
            match sp_resolve_member(dm@, view_names(imports@), view_pair(p)) {
                Ok(gp) => rr matches Ok(q) && view_pair(q) == gp,
                Err(e) => rr matches Err(pe) && pe@ == e,
            },
        { resolve_member_e(dm, imports, p) };
    let ret_cl = |o: Option<(Name, Type)>| -> (rr: PResult<Option<(Name, Type)>>)
        ensures
            match sp_resolve_rets(dm@, view_names(imports@), scope@, view_opt_pair(o)) {
                Ok(go) => rr matches Ok(q) && view_opt_pair(q) == go,
                Err(e) => rr matches Err(pe) && pe@ == e,
            },
        {
            match o {
                None => Err(PError::MissingAnnotation {
                    which: "return".to_owned(),
                    scope: scope.clone(),
                }),
                Some(p) => match resolve_member_e(dm, imports, p) {
                    Ok(q) => Ok(Some(q)),
                    Err(e) => Err(e),
                },
            }
        };
    let spawn_cl = |s: unchecked::SysDCSpawn| -> (rr: PResult<SysDCSpawn>)
        ensures
            match sp_resolve_spawn(dm@, view_names(imports@), s@) {
                Ok(gs) => rr matches Ok(ss) && ss@ == gs,
                Err(e) => rr matches Err(pe) && pe@ == e,
            },
        { resolve_spawn_e(dm, imports, s) };
    proof {
        assert(crate::traverse::behaves_as(arg_cl, member_resolver(defs, impv))) by {
            assert forall|a: (Name, Type), rr2: PResult<(Name, Type)>| #[trigger] call_ensures(
                arg_cl,
                (a,),
                rr2,
            ) implies match member_resolver(defs, impv)(a@) {
                Ok(gb) => rr2 matches Ok(b) && b@ == gb,
                Err(ge) => rr2 matches Err(pe) && pe@ == ge,
            } by {
                assert(a@ == view_pair(a));
            }
        }
        assert(crate::traverse::behaves_as(spawn_cl, spawn_resolver(defs, impv))) by {
            assert forall|a: unchecked::SysDCSpawn, rr2: PResult<SysDCSpawn>| #[trigger] call_ensures(
                spawn_cl,
                (a,),
                rr2,
            ) implies match spawn_resolver(defs, impv)(a@) {
                Ok(gb) => rr2 matches Ok(b) && b@ == gb,
                Err(ge) => rr2 matches Err(pe) && pe@ == ge,
            } by {}
        }
        assert(crate::traverse::view_elems(asrc) =~= fv.args);
        assert(crate::traverse::view_elems(ssrc) =~= fv.spawns);
    }
    let r = f.convert(arg_cl, ret_cl, spawn_cl);
    match r {
        Ok(ff) => {
            proof {
                lemma_pointwise_ok(arg_cl, member_resolver(defs, impv), asrc, ff.args@);
                lemma_pointwise_ok(spawn_cl, spawn_resolver(defs, impv), ssrc, ff.spawns@);
                assert(crate::traverse::view_elems(ff.args@) =~= ff@.args);
                assert(crate::traverse::view_elems(ff.spawns@) =~= ff@.spawns);
            }
            Ok(ff)
        },
        Err(e) => {
            proof {
                if !(sp_resolve_rets(defs, impv, scopev, fv.returns) is Err) {
                    if exists|i: int|
                        {
                            &&& 0 <= i < asrc.len()
                            &&& #[trigger] call_ensures(arg_cl, (asrc[i],), Err::<(Name, Type), PError>(e))
                            &&& forall|j: int| 0 <= j < i ==> #[trigger] converts_ok(arg_cl, asrc[j])
                        } {
                        lemma_pointwise_err(arg_cl, member_resolver(defs, impv), asrc, e);
                    } else {
                        assert forall|j: int| 0 <= j < asrc.len() implies #[trigger] converts_ok(
                            arg_cl,
                            asrc[j],
                        ) by {}
                        lemma_pointwise_all_ok(arg_cl, member_resolver(defs, impv), asrc);
                        lemma_pointwise_err(spawn_cl, spawn_resolver(defs, impv), ssrc, e);
                    }
                }
            }
            Err(e)
        },
    }
}

fn resolve_data_e(dm: &DefinesManager, imports: &Vec<Name>, d: unchecked::SysDCData) -> (r:
    PResult<SysDCData>)
    ensures
        match sp_resolve_data(dm@, view_names(imports@), d@) {
            Ok(gd) => r matches Ok(dd) && dd@ == gd,
            Err(e) => r matches Err(pe) && pe@ == e,
        },
{
    let ghost defs = dm@;
    let ghost impv = view_names(imports@);
    let ghost dv = d@;
    let ghost msrc = d.members@;
    let mem_cl = |p: (Name, Type)| -> (rr: PResult<(Name, Type)>)
        ensures
            match sp_resolve_member(dm@, view_names(imports@), view_pair(p)) {
                Ok(gp) => rr matches Ok(q) && view_pair(q) == gp,
                Err(e) => rr matches Err(pe) && pe@ == e,
            },
        { resolve_member_e(dm, imports, p) };
    proof {
        assert(crate::traverse::behaves_as(mem_cl, member_resolver(defs, impv))) by {
            assert forall|a: (Name, Type), rr2: PResult<(Name, Type)>| #[trigger] call_ensures(
                mem_cl,
                (a,),
                rr2,
            ) implies match member_resolver(defs, impv)(a@) {
                Ok(gb) => rr2 matches Ok(b) && b@ == gb,
                Err(ge) => rr2 matches Err(pe) && pe@ == ge,
            } by {
                assert(a@ == view_pair(a));
            }
        }
        assert(crate::traverse::view_elems(msrc) =~= dv.members);
    }
    match d.convert(mem_cl) {
        Ok(dd) => {
            proof {
                lemma_pointwise_ok(mem_cl, member_resolver(defs, impv), msrc, dd.members@);
                assert(crate::traverse::view_elems(dd.members@) =~= dd@.members);
            }
            Ok(dd)
        },
        Err(e) => {
            proof {
                lemma_pointwise_err(mem_cl, member_resolver(defs, impv), msrc, e);
            }
            Err(e)
        },
    }
}

fn resolve_module_e(dm: &DefinesManager, imports: &Vec<Name>, m: unchecked::SysDCModule) -> (r:
    PResult<SysDCModule>)
    ensures
        match sp_resolve_module(dm@, view_names(imports@), m@) {
            Ok(gm) => r matches Ok(mm) && mm@ == gm,
            Err(e) => r matches Err(pe) && pe@ == e,
        },
{
    let ghost defs = dm@;
    let ghost impv = view_names(imports@);
    let ghost mv = m@;
    let ghost fsrc = m.functions@;
    let fn_cl = |f: unchecked::SysDCFunction| -> (rr: PResult<SysDCFunction>)
        ensures
            match sp_resolve_function(dm@, view_names(imports@), f@) {
                Ok(gf) => rr matches Ok(ff) && ff@ == gf,
                Err(e) => rr matches Err(pe) && pe@ == e,
            },
        { resolve_function_e(dm, imports, f) };
    proof {
        assert(crate::traverse::behaves_as(fn_cl, func_resolver(defs, impv))) by {
            assert forall|a: unchecked::SysDCFunction, rr2: PResult<SysDCFunction>| #[trigger] call_ensures(
                fn_cl,
                (a,),
                rr2,
            ) implies match func_resolver(defs, impv)(a@) {
                Ok(gb) => rr2 matches Ok(b) && b@ == gb,
                Err(ge) => rr2 matches Err(pe) && pe@ == ge,
            } by {}
        }
        assert(crate::traverse::view_elems(fsrc) =~= mv.functions);
    }
    match m.convert(fn_cl) {
        Ok(mm) => {
            proof {
                lemma_pointwise_ok(fn_cl, func_resolver(defs, impv), fsrc, mm.functions@);
                assert(crate::traverse::view_elems(mm.functions@) =~= mm@.functions);
            }
            Ok(mm)
        },
        Err(e) => {
            proof {
                lemma_pointwise_err(fn_cl, func_resolver(defs, impv), fsrc, e);
            }
            Err(e)
        },
    }
}

fn resolve_unit_e(dm: &DefinesManager, u: unchecked::SysDCUnit) -> (r: PResult<SysDCUnit>)
    ensures
        match sp_resolve_unit(dm@, u@) {
            Ok(gu) => r matches Ok(uu) && uu@ == gu,
            Err(e) => r matches Err(pe) && pe@ == e,
        },
{
    let ghost defs = dm@;
    let ghost uv = u@;
    let ghost dsrc = u.data@;
    let ghost msrc = u.modules@;
    let imports = crate::define::clone_names_pub(&u.imports);
    let ghost impv = view_names(imports@);
    proof {
        assert(impv =~= uv.imports);
    }
    let data_cl = |d: unchecked::SysDCData| -> (rr: PResult<SysDCData>)
        ensures
            match sp_resolve_data(dm@, view_names(imports@), d@) {
                Ok(gd) => rr matches Ok(dd) && dd@ == gd,
                Err(e) => rr matches Err(pe) && pe@ == e,
            },
        { resolve_data_e(dm, &imports, d) };
    let mod_cl = |m: unchecked::SysDCModule| -> (rr: PResult<SysDCModule>)
        ensures
            match sp_resolve_module(dm@, view_names(imports@), m@) {
                Ok(gm) => rr matches Ok(mm) && mm@ == gm,
                Err(e) => rr matches Err(pe) && pe@ == e,
            },
        { resolve_module_e(dm, &imports, m) };
    proof {
        assert(crate::traverse::behaves_as(data_cl, data_resolver(defs, impv))) by {
            assert forall|a: unchecked::SysDCData, rr2: PResult<SysDCData>| #[trigger] call_ensures(
                data_cl,
                (a,),
                rr2,
            ) implies match data_resolver(defs, impv)(a@) {
                Ok(gb) => rr2 matches Ok(b) && b@ == gb,
                Err(ge) => rr2 matches Err(pe) && pe@ == ge,
            } by {}
        }
        assert(crate::traverse::behaves_as(mod_cl, module_resolver(defs, impv))) by {
            assert forall|a: unchecked::SysDCModule, rr2: PResult<SysDCModule>| #[trigger] call_ensures(
                mod_cl,
                (a,),
                rr2,
            ) implies match module_resolver(defs, impv)(a@) {
                Ok(gb) => rr2 matches Ok(b) && b@ == gb,
                Err(ge) => rr2 matches Err(pe) && pe@ == ge,
            } by {}
        }
        assert(crate::traverse::view_elems(dsrc) =~= uv.data);
        assert(crate::traverse::view_elems(msrc) =~= uv.modules);
    }
    match u.convert(data_cl, mod_cl) {
        Ok(uu) => {
            proof {
                lemma_pointwise_ok(data_cl, data_resolver(defs, impv), dsrc, uu.data@);
                lemma_pointwise_ok(mod_cl, module_resolver(defs, impv), msrc, uu.modules@);
                assert(crate::traverse::view_elems(uu.data@) =~= uu@.data);
                assert(crate::traverse::view_elems(uu.modules@) =~= uu@.modules);
            }
            Ok(uu)
        },
        Err(e) => {
            proof {
                if exists|i: int|
                    {
                        &&& 0 <= i < dsrc.len()
                        &&& #[trigger] call_ensures(data_cl, (dsrc[i],), Err::<SysDCData, PError>(e))
                        &&& forall|j: int| 0 <= j < i ==> #[trigger] converts_ok(data_cl, dsrc[j])
                    } {
                    lemma_pointwise_err(data_cl, data_resolver(defs, impv), dsrc, e);
                } else {
                    assert forall|j: int| 0 <= j < dsrc.len() implies #[trigger] converts_ok(
                        data_cl,
                        dsrc[j],
                    ) by {}
                    lemma_pointwise_all_ok(data_cl, data_resolver(defs, impv), dsrc);
                    lemma_pointwise_err(mod_cl, module_resolver(defs, impv), msrc, e);
                }
            }
            Err(e)
        },
    }
}

/// The compiler: parsed units accumulate here until the whole system is
/// generated in one pass.
pub struct Compiler {
    pub units: Vec<unchecked::SysDCUnit>,
}

impl Compiler {
    /// An empty compiler.
    pub fn new() -> (r: Compiler)
        ensures
            r.units@.len() == 0,
    {
        Compiler { units: Vec::new() }
    }

    /// Tokenizes and parses one source text as a unit named `unit_name`, with
    /// no imports; the unit joins the system to be generated.
    pub fn add_unit(&mut self, unit_name: String, program: String) -> (r: PResult<()>)
        ensures
            match sp_compile_unit(unit_name@, program@) {
                Ok(gu) => {
                    &&& r is Ok
                    &&& view_units(final(self).units@) == view_units(old(self).units@).push(gu)
                },
                Err(e) => {
                    &&& r matches Err(pe) && pe@ == e
                    &&& final(self).units == old(self).units
                },
            },
    {
        let root = Name::new_root();
        let ns = Name::new(&root, unit_name);
        let tokenizer = match Tokenizer::new(program.as_str()) {
            Ok(t) => t,
            Err(e) => {
                return Err(e);
            },
        };
        let mut parser = Parser::new(tokenizer);
        let unit = match parser.parse(&ns) {
            Ok(u) => u,
            Err(e) => {
                return Err(e);
            },
        };
        let ghost before = view_units(self.units@);
        let ghost gu = unit@;
        self.units.push(unit);
        proof {
            assert(view_units(self.units@) =~= before.push(gu));
        }
        Ok(())
    }

    /// Like [`Compiler::add_unit`], with the names of the units whose
    /// definitions become visible to this one, in resolution order.
    pub fn add_unit_with_imports(
        &mut self,
        unit_name: String,
        program: String,
        imports: Vec<String>,
    ) -> (r: PResult<()>)
        ensures
            match sp_compile_unit(unit_name@, program@) {
                Ok(gu) => {
                    &&& r is Ok
                    &&& view_units(final(self).units@) == view_units(old(self).units@).push(
                        GUnitU {
                            name: gu.name,
                            data: gu.data,
                            modules: gu.modules,
                            imports: crate::parse::view_strs(imports@).map_values(
                                |s: Seq<char>| g_child(g_root(), s),
                            ),
                        },
                    )
                },
                Err(e) => {
                    &&& r matches Err(pe) && pe@ == e
                    &&& final(self).units == old(self).units
                },
            },
    {
        let root = Name::new_root();
        let ns = Name::new(&root, unit_name);
        let tokenizer = match Tokenizer::new(program.as_str()) {
            Ok(t) => t,
            Err(e) => {
                return Err(e);
            },
        };
        let mut parser = Parser::new(tokenizer);
        let mut unit = match parser.parse(&ns) {
            Ok(u) => u,
            Err(e) => {
                return Err(e);
            },
        };
        let ghost impsv = crate::parse::view_strs(imports@);
        let mut import_names: Vec<Name> = Vec::new();
        let mut rest = imports;
        #[verifier::loop_isolation(false)]
        while rest.len() > 0
            invariant
                import_names@.len() + rest@.len() == impsv.len(),
                crate::parse::view_strs(rest@) == impsv.skip(import_names@.len() as int),
                view_names(import_names@) == impsv.take(import_names@.len() as int).map_values(
                    |s: Seq<char>| g_child(g_root(), s),
                ),
            decreases rest@.len(),
        {
            let ghost k = import_names@.len() as int;
            let ghost namesv = view_names(import_names@);
            let ghost restv = rest@;
            let im = rest.remove(0);
            proof {
                assert(crate::parse::view_strs(restv)[0] == restv[0]@);
                assert(im@ == impsv[k]);
                assert(crate::parse::view_strs(rest@) =~= crate::parse::view_strs(restv).drop_first());
                assert(crate::parse::view_strs(rest@) =~= impsv.skip(k + 1));
            }
            let nm = Name::new(&root, im);
            let ghost nmv = nm@;
            import_names.push(nm);
            proof {
                assert(view_names(import_names@) =~= namesv.push(nmv));
                assert(impsv.take(k + 1).drop_last() =~= impsv.take(k));
                assert(impsv.take(k + 1).map_values(|s: Seq<char>| g_child(g_root(), s)) =~= impsv.take(
                    k,
                ).map_values(|s: Seq<char>| g_child(g_root(), s)).push(nmv));
            }
        }
        proof {
            assert(impsv.take(impsv.len() as int) =~= impsv);
        }
        unit.imports = import_names;
        let ghost before = view_units(self.units@);
        let ghost gu2 = unit@;
        self.units.push(unit);
        proof {
            assert(gu2.imports =~= impsv.map_values(|s: Seq<char>| g_child(g_root(), s)));
            assert(view_units(self.units@) =~= before.push(gu2));
        }
        Ok(())
    }

    /// Builds the catalog over all added units, resolves every unit, runs the
    /// type-match checker, and yields the checked system or the first error.
    #[verifier::loop_isolation(false)]
    pub fn generate_system(self) -> (r: PResult<SysDCSystem>)
        ensures
            match sp_generate(view_units(self.units@)) {
                Ok(gs) => r matches Ok(sys) && sys@ == gs,
                Err(e) => r matches Err(pe) && pe@ == e,
            },
    {
        let ghost unitsv = view_units(self.units@);
        let sysu = unchecked::SysDCSystem::new(self.units);
        let ghost usrc = sysu.units@;
        let dm = DefinesManager::new(&sysu);
        let ghost defs = dm@;
        proof {
            assert(sysu@.units =~= unitsv);
            assert(defs == sp_defs_units(unitsv));
        }
        let mut units_imports: Vec<Vec<Name>> = Vec::new();
        let mut i: usize = 0;
        while i < sysu.units.len()
            invariant
                i <= sysu.units@.len(),
                units_imports@.len() == i,
                forall|j: int|
                    0 <= j < i ==> view_names(#[trigger] units_imports@[j]@) == unitsv[j].imports,
            decreases sysu.units@.len() - i,
        {
            let cl = crate::define::clone_names_pub(&sysu.units[i].imports);
            units_imports.push(cl);
            proof {
                assert(view_names(units_imports@[i as int]@) =~= unitsv[i as int].imports);
            }
            i += 1;
        }
        let unit_cl = |u: unchecked::SysDCUnit| -> (rr: PResult<SysDCUnit>)
            ensures
                match sp_resolve_unit(dm@, u@) {
                    Ok(gu) => rr matches Ok(uu) && uu@ == gu,
                    Err(e) => rr matches Err(pe) && pe@ == e,
                },
            { resolve_unit_e(&dm, u) };
        proof {
            assert(crate::traverse::behaves_as(unit_cl, unit_resolver(defs))) by {
                assert forall|a: unchecked::SysDCUnit, rr2: PResult<SysDCUnit>| #[trigger] call_ensures(
                    unit_cl,
                    (a,),
                    rr2,
                ) implies match unit_resolver(defs)(a@) {
                    Ok(gb) => rr2 matches Ok(b) && b@ == gb,
                    Err(ge) => rr2 matches Err(pe) && pe@ == ge,
                } by {}
            }
            assert(crate::traverse::view_elems(usrc) =~= unitsv);
        }
        let sys = match sysu.convert(unit_cl) {
            Ok(sys) => {
                proof {
                    lemma_pointwise_ok(unit_cl, unit_resolver(defs), usrc, sys.units@);
                    assert(crate::traverse::view_elems(sys.units@) =~= sys@.units);
                }
                sys
            },
            Err(e) => {
                proof {
                    lemma_pointwise_err(unit_cl, unit_resolver(defs), usrc, e);
                }
                return Err(e);
            },
        };
        proof {
            assert(view_imports(units_imports@) =~= sp_units_imports(unitsv));
        }
        match TypeMatchChecker::check(&sys, &dm, &units_imports) {
            Ok(_) => Ok(sys),
            Err(e) => Err(e),
        }
    }
}

} // verus!
