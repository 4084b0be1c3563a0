//! The type-match checker: the last pass over the checked tree. In
//! declaration order — units, modules, functions — it requires that each
//! function's declared return type equals the resolved type of its return
//! variable, that every `Return` child of a spawn has the spawn's own declared
//! type, and that every call's argument types equal the callee's declared
//! parameter types position by position. The first failure anywhere aborts
//! the whole check.

use vstd::prelude::*;
use crate::define::{DefinesManager, GDefine, sp_get_args_type, sp_resolve_name, view_names};
use crate::error::{GErr, PError, PResult};
use crate::name::GName;
use crate::structure::{
    GPair, GSystem, GUnit, GModule, GFunc, GSpawn, GChild, SysDCSystem, SysDCUnit, SysDCModule,
    SysDCFunction, SysDCSpawn, SysDCSpawnChild,
};
use crate::types::{GType, Type};
use crate::name::Name;

verus! {

/// Positional comparison of supplied argument types against declared
/// parameter types: the first differing index fails with both types; the
/// comparison stops at the shorter sequence.
pub open spec fn sp_check_lets(req: Seq<GType>, args: Seq<GPair>) -> Result<(), GErr>
    decreases args.len(),
{
    if args.len() == 0 || req.len() == 0 {
        Ok(())
    } else if args[0].1 != req[0] {
        Err(GErr::TypeMismatch { expected: req[0], actual: args[0].1 })
    } else {
        sp_check_lets(req.drop_first(), args.drop_first())
    }
}

/// One spawn child: a call's arguments are compared against the callee's
/// declared parameters; `Use` and `Return` children need nothing more here.
pub open spec fn sp_check_child(defs: Seq<GDefine>, c: GChild, imports: Seq<GName>) -> Result<
    (),
    GErr,
> {
    match c {
        GChild::LetTo { name: _, func, args } => match sp_get_args_type(defs, func.0, imports) {
            Err(e) => Err(e),
            Ok(req) => sp_check_lets(req, args),
        },
        _ => Ok(()),
    }
}

/// The children of one spawn, in order: each child is checked, then a
/// `Return` child must carry exactly the spawn's declared result type.
pub open spec fn sp_check_children(
    defs: Seq<GDefine>,
    result_t: GType,
    details: Seq<GChild>,
    imports: Seq<GName>,
) -> Result<(), GErr>
    decreases details.len(),
{
    if details.len() == 0 {
        Ok(())
    } else {
        match sp_check_child(defs, details[0], imports) {
            Err(e) => Err(e),
            Ok(_) => {
                match details[0] {
                    GChild::Return(_, act) => {
                        if result_t != act {
                            Err(GErr::TypeMismatch { expected: result_t, actual: act })
                        } else {
                            sp_check_children(defs, result_t, details.drop_first(), imports)
                        }
                    },
                    _ => sp_check_children(defs, result_t, details.drop_first(), imports),
                }
            },
        }
    }
}

/// One spawn.
pub open spec fn sp_check_spawn(defs: Seq<GDefine>, s: GSpawn, imports: Seq<GName>) -> Result<
    (),
    GErr,
> {
    sp_check_children(defs, s.result.1, s.details, imports)
}

/// A function's spawns, in order.
pub open spec fn sp_check_spawns(
    defs: Seq<GDefine>,
    spawns: Seq<GSpawn>,
    imports: Seq<GName>,
) -> Result<(), GErr>
    decreases spawns.len(),
{
    if spawns.len() == 0 {
        Ok(())
    } else {
        match sp_check_spawn(defs, spawns[0], imports) {
            Err(e) => Err(e),
            Ok(_) => sp_check_spawns(defs, spawns.drop_first(), imports),
        }
    }
}

/// One function: a missing return binding is refused; otherwise the return
/// variable's resolved type must equal the declared return type, and then
/// every spawn is checked.
pub open spec fn sp_check_func(defs: Seq<GDefine>, f: GFunc, imports: Seq<GName>) -> Result<
    (),
    GErr,
> {
    match f.returns {
        None => Err(GErr::MissingAnnotation { which: "return"@, scope: f.name }),
        Some(p) => match sp_resolve_name(defs, p.0, imports) {
            Err(e) => Err(e),
            Ok(q) => {
                if p.1 != q.1 {
                    Err(GErr::TypeMismatch { expected: p.1, actual: q.1 })
                } else {
                    sp_check_spawns(defs, f.spawns, imports)
                }
            },
        },
    }
}

/// A module's functions, in order.
pub open spec fn sp_check_funcs(defs: Seq<GDefine>, fs: Seq<GFunc>, imports: Seq<GName>) -> Result<
    (),
    GErr,
>
    decreases fs.len(),
{
    if fs.len() == 0 {
        Ok(())
    } else {
        match sp_check_func(defs, fs[0], imports) {
            Err(e) => Err(e),
            Ok(_) => sp_check_funcs(defs, fs.drop_first(), imports),
        }
    }
}

/// A unit's modules, in order.
pub open spec fn sp_check_mods(defs: Seq<GDefine>, ms: Seq<GModule>, imports: Seq<GName>) -> Result<
    (),
    GErr,
>
    decreases ms.len(),
{
    if ms.len() == 0 {
        Ok(())
    } else {
        match sp_check_funcs(defs, ms[0].functions, imports) {
            Err(e) => Err(e),
            Ok(_) => sp_check_mods(defs, ms.drop_first(), imports),
        }
    }
}

/// One unit under its own import list.
pub open spec fn sp_check_unit(defs: Seq<GDefine>, u: GUnit, imports: Seq<GName>) -> Result<
    (),
    GErr,
> {
    sp_check_mods(defs, u.modules, imports)
}

/// All units, each under its own import list.
pub open spec fn sp_check_units(
    defs: Seq<GDefine>,
    units: Seq<GUnit>,
    units_imports: Seq<Seq<GName>>,
) -> Result<(), GErr>
    decreases units.len(),
{
    if units.len() == 0 {
        Ok(())
    } else {
        match sp_check_unit(defs, units[0], units_imports[0]) {
            Err(e) => Err(e),
            Ok(_) => sp_check_units(defs, units.drop_first(), units_imports.drop_first()),
        }
    }
}

/// The whole system.
pub open spec fn sp_check_system(
    defs: Seq<GDefine>,
    sys: GSystem,
    units_imports: Seq<Seq<GName>>,
) -> Result<(), GErr> {
    sp_check_units(defs, sys.units, units_imports)
}

/// The model of per-unit import lists.
pub open spec fn view_imports(v: Seq<Vec<Name>>) -> Seq<Seq<GName>> {
    v.map_values(|x: Vec<Name>| view_names(x@))
}

/// The type-match checker: the catalog it resolves against and, parallel to
/// the system's units, each unit's import list (the checked tree itself no
/// longer carries them).
pub struct TypeMatchChecker<'a> {
    pub def_manager: &'a DefinesManager,
    pub imports: &'a Vec<Vec<Name>>,
}

impl<'a> TypeMatchChecker<'a> {
    /// Checks a whole system, in declaration order, stopping at the first
    /// failure.
    #[verifier::loop_isolation(false)]
    pub fn check(system: &SysDCSystem, def_manager: &'a DefinesManager, imports: &'a Vec<
        Vec<Name>,
    >) -> (r: PResult<()>)
        requires
            imports@.len() == system.units@.len(),
        ensures
            match sp_check_system(def_manager@, system@, view_imports(imports@)) {
                Ok(_) => r is Ok,
                Err(e) => r matches Err(pe) && pe@ == e,
            },
    {
        let checker = TypeMatchChecker { def_manager, imports };
        let ghost defs = def_manager@;
        let ghost usv = system@.units;
        let ghost impv = view_imports(imports@);
        proof {
            assert(usv =~= system.units@.map_values(|u: SysDCUnit| u@));
            assert(usv.skip(0) =~= usv);
            assert(impv.skip(0) =~= impv);
        }
        let mut i: usize = 0;
        while i < system.units.len()
            invariant
                i <= system.units@.len(),
                sp_check_units(defs, usv, impv) == sp_check_units(
                    defs,
                    usv.skip(i as int),
                    impv.skip(i as int),
                ),
            decreases system.units@.len() - i,
        {
            proof {
                assert(usv.skip(i as int)[0] == usv[i as int]);
                assert(usv.skip(i as int).drop_first() =~= usv.skip(i + 1));
                assert(impv.skip(i as int)[0] == impv[i as int]);
                assert(impv.skip(i as int).drop_first() =~= impv.skip(i + 1));
            }
            let unit = &system.units[i];
            let unit_imports = &checker.imports[i];
            let ghost msv = unit@.modules;
            let ghost uimp = view_names(unit_imports@);
            proof {
                assert(msv =~= unit.modules@.map_values(|m: SysDCModule| m@));
                assert(msv.skip(0) =~= msv);
            }
            let mut j: usize = 0;
            while j < unit.modules.len()
                invariant
                    j <= unit.modules@.len(),
                    sp_check_mods(defs, msv, uimp) == sp_check_mods(defs, msv.skip(j as int), uimp),
                decreases unit.modules@.len() - j,
            {
                proof {
                    assert(msv.skip(j as int)[0] == msv[j as int]);
                    assert(msv.skip(j as int).drop_first() =~= msv.skip(j + 1));
                }
                let m = &unit.modules[j];
                let ghost fsv = m@.functions;
                proof {
                    assert(fsv =~= m.functions@.map_values(|f: SysDCFunction| f@));
                    assert(fsv.skip(0) =~= fsv);
                }
                let mut k: usize = 0;
                while k < m.functions.len()
                    invariant
                        k <= m.functions@.len(),
                        sp_check_funcs(defs, fsv, uimp) == sp_check_funcs(
                            defs,
                            fsv.skip(k as int),
                            uimp,
                        ),
                    decreases m.functions@.len() - k,
                {
                    proof {
                        assert(fsv.skip(k as int)[0] == fsv[k as int]);
                        assert(fsv.skip(k as int).drop_first() =~= fsv.skip(k + 1));
                    }
                    match checker.check_function(&m.functions[k], unit_imports) {
                        Ok(_) => (),
                        Err(e) => {
                            return Err(e);
                        },
                    }
                    k += 1;
                }
                proof {
                    assert(fsv.skip(m.functions@.len() as int) =~= Seq::<GFunc>::empty());
                }
                j += 1;
            }
            proof {
                assert(msv.skip(unit.modules@.len() as int) =~= Seq::<GModule>::empty());
            }
            i += 1;
        }
        proof {
            assert(usv.skip(system.units@.len() as int) =~= Seq::<GUnit>::empty());
        }
        Ok(())
    }

    /// Checks one function against the catalog under a unit's imports.
    #[verifier::loop_isolation(false)]
    fn check_function(&self, func: &SysDCFunction, unit_imports: &Vec<Name>) -> (r: PResult<()>)
        ensures
            match sp_check_func(self.def_manager@, func@, view_names(unit_imports@)) {
                Ok(_) => r is Ok,
                Err(e) => r matches Err(pe) && pe@ == e,
            },
    {
        let ghost defs = self.def_manager@;
        let ghost uimp = view_names(unit_imports@);
        let (rname, rtype) = match &func.returns {
            Some(p) => (p.0.clone(), p.1.clone()),
            None => {
                proof {
                    reveal_strlit("return");
                }
                return Err(PError::MissingAnnotation {
                    which: "return".to_owned(),
                    scope: func.name.clone(),
                });
            },
        };
        let act = match self.def_manager.resolve_from_name(rname, unit_imports) {
            Ok((_, t)) => t,
            Err(e) => {
                return Err(e);
            },
        };
        if !rtype.eq(&act) {
            return Err(PError::TypeMismatch { expected: rtype, actual: act });
        }
        let ghost ssv = func@.spawns;
        proof {
            assert(ssv =~= func.spawns@.map_values(|s: SysDCSpawn| s@));
            assert(ssv.skip(0) =~= ssv);
        }
        let mut i: usize = 0;
        while i < func.spawns.len()
            invariant
                i <= func.spawns@.len(),
                sp_check_spawns(defs, ssv, uimp) == sp_check_spawns(defs, ssv.skip(i as int), uimp),
            decreases func.spawns@.len() - i,
        {
            proof {
                assert(ssv.skip(i as int)[0] == ssv[i as int]);
                assert(ssv.skip(i as int).drop_first() =~= ssv.skip(i + 1));
            }
            match self.check_spawn(&func.spawns[i], unit_imports) {
                Ok(_) => (),
                Err(e) => {
                    return Err(e);
                },
            }
            i += 1;
        }
        proof {
            assert(ssv.skip(func.spawns@.len() as int) =~= Seq::<GSpawn>::empty());
        }
        Ok(())
    }

    /// Checks one spawn: each child in order, and every `Return` child's
    /// type against the spawn's declared result type.
    #[verifier::loop_isolation(false)]
    fn check_spawn(&self, spawn: &SysDCSpawn, unit_imports: &Vec<Name>) -> (r: PResult<()>)
        ensures
            match sp_check_spawn(self.def_manager@, spawn@, view_names(unit_imports@)) {
                Ok(_) => r is Ok,
                Err(e) => r matches Err(pe) && pe@ == e,
            },
    {
        let ghost defs = self.def_manager@;
        let ghost uimp = view_names(unit_imports@);
        let ghost dsv = spawn@.details;
        let ghost rt = spawn@.result.1;
        proof {
            assert(dsv =~= spawn.details@.map_values(|c: SysDCSpawnChild| c@));
            assert(dsv.skip(0) =~= dsv);
        }
        let mut i: usize = 0;
        while i < spawn.details.len()
            invariant
                i <= spawn.details@.len(),
                sp_check_children(defs, rt, dsv, uimp) == sp_check_children(
                    defs,
                    rt,
                    dsv.skip(i as int),
                    uimp,
                ),
            decreases spawn.details@.len() - i,
        {
            proof {
                assert(dsv.skip(i as int)[0] == dsv[i as int]);
                assert(dsv.skip(i as int).drop_first() =~= dsv.skip(i + 1));
            }
            let child = &spawn.details[i];
            match self.check_spawn_child(child, unit_imports) {
                Ok(_) => (),
                Err(e) => {
                    return Err(e);
                },
            }
            match child {
                SysDCSpawnChild::Return(_, act) => {
                    if !spawn.result.1.eq(act) {
                        return Err(PError::TypeMismatch {
                            expected: spawn.result.1.clone(),
                            actual: act.clone(),
                        });
                    }
                },
                _ => (),
            }
            i += 1;
        }
        proof {
            assert(dsv.skip(spawn.details@.len() as int) =~= Seq::<GChild>::empty());
        }
        Ok(())
    }

    /// Checks one spawn child: a call's argument types against the callee's
    /// declared parameter types, position by position.
    #[verifier::loop_isolation(false)]
    fn check_spawn_child(&self, spawn_child: &SysDCSpawnChild, unit_imports: &Vec<Name>) -> (r:
        PResult<()>)
        ensures
            match sp_check_child(self.def_manager@, spawn_child@, view_names(unit_imports@)) {
                Ok(_) => r is Ok,
                Err(e) => r matches Err(pe) && pe@ == e,
            },
    {
        let ghost defs = self.def_manager@;
        let ghost uimp = view_names(unit_imports@);
        match spawn_child {
            SysDCSpawnChild::LetTo { name: _, func, args } => {
                let req = match self.def_manager.get_args_type(&func.0, unit_imports) {
                    Ok(ts) => ts,
                    Err(e) => {
                        return Err(e);
                    },
                };
                let ghost reqv = crate::define::view_types(req@);
                let ghost argv = crate::structure::view_pairs(args@);
                let mut i: usize = 0;
                proof {
                    assert(reqv.skip(0) =~= reqv);
                    assert(argv.skip(0) =~= argv);
                }
                while i < args.len() && i < req.len()
                    invariant
                        i <= args@.len(),
                        i <= req@.len(),
                        sp_check_lets(reqv, argv) == sp_check_lets(
                            reqv.skip(i as int),
                            argv.skip(i as int),
                        ),
                    decreases args@.len() - i,
                {
                    proof {
                        assert(reqv.skip(i as int).drop_first() =~= reqv.skip(i + 1));
                        assert(argv.skip(i as int).drop_first() =~= argv.skip(i + 1));
                        assert(argv.skip(i as int)[0] == argv[i as int]);
                        assert(reqv.skip(i as int)[0] == reqv[i as int]);
                    }
                    if !args[i].1.eq(&req[i]) {
                        return Err(PError::TypeMismatch {
                            expected: req[i].clone(),
                            actual: args[i].1.clone(),
                        });
                    }
                    i += 1;
                }
                proof {
                    if i >= args@.len() {
                        assert(argv.skip(i as int) =~= Seq::<GPair>::empty());
                    } else {
                        assert(reqv.skip(i as int) =~= Seq::<GType>::empty());
                    }
                }
                Ok(())
            },
            _ => Ok(()),
        }
    }
}

} // verus!
