//! The laws the compiler obeys, stated once over the models that every
//! public contract speaks in, and proved from them.

use vstd::prelude::*;
use crate::check::{sp_check_children, sp_check_child, sp_check_lets, sp_check_spawn};
use crate::compiler::{
    sp_compile_unit, sp_resolve_function, sp_resolve_data, sp_resolve_spawn, sp_resolve_member,
    sp_resolve_module, sp_resolve_unit, member_resolver, func_resolver, data_resolver,
    module_resolver, unit_resolver,
};
use crate::define::{GDefine, sp_resolve_type};
use crate::error::GErr;
use crate::name::GName;
use crate::structure::{GPair, GData, GModule, GFunc, GSpawn, GChild, GUnit};
use crate::structure::unchecked::GUnitU;
use crate::traverse::sp_map_result;
use crate::types::GType;

verus! {

/// A type reference that is already final: a primitive or a resolved data
/// type, with nothing left for resolution to do.
pub open spec fn is_primitive(t: GType) -> bool {
    match t {
        GType::UnsolvedNoHint => false,
        GType::Unsolved(_) => false,
        _ => true,
    }
}

/// Resolution never changes a type reference that is already final.
pub proof fn lemma_resolve_primitive(defs: Seq<GDefine>, t: GType, imports: Seq<GName>, ctx: GName)
    requires
        is_primitive(t),
    ensures
        sp_resolve_type(defs, t, imports, ctx) == Ok::<GType, GErr>(t),
{
}

/// Mapping a resolver that is the identity on every element is the identity.
pub proof fn lemma_map_identity<A>(f: spec_fn(A) -> Result<A, GErr>, s: Seq<A>)
    requires
        forall|i: int| 0 <= i < s.len() ==> (#[trigger] f(s[i])) == Ok::<A, GErr>(s[i]),
    ensures
        sp_map_result(f, s) == Ok::<Seq<A>, GErr>(s),
    decreases s.len(),
{
    if s.len() > 0 {
        assert forall|i: int| 0 <= i < s.drop_first().len() implies (#[trigger] f(
            s.drop_first()[i],
        )) == Ok::<A, GErr>(s.drop_first()[i]) by {
            assert(s.drop_first()[i] == s[i + 1]);
            assert(f(s[i + 1]) == Ok::<A, GErr>(s[i + 1]));
        }
        lemma_map_identity(f, s.drop_first());
        assert(seq![s[0]] + s.drop_first() =~= s);
    } else {
        assert(s =~= Seq::<A>::empty());
    }
}

/// Determinism: parsing identical text twice yields field-by-field equal
/// unchecked trees. Every `add_unit` result is pinned to `sp_compile_unit`,
/// a function of the text alone, so two results of the same text are equal.
pub proof fn lemma_parse_deterministic(
    name: Seq<char>,
    text: Seq<char>,
    r1: Result<GUnitU, GErr>,
    r2: Result<GUnitU, GErr>,
)
    requires
        r1 == sp_compile_unit(name, text),
        r2 == sp_compile_unit(name, text),
    ensures
        r1 == r2,
{
}

/// A function body with no `return` annotation fails checking with a
/// missing-annotation error naming the annotation and the function.
pub proof fn lemma_missing_return(defs: Seq<GDefine>, imports: Seq<GName>, f: GFunc)
    requires
        f.returns is None,
    ensures
        sp_resolve_function(defs, imports, f) == Err::<GFunc, GErr>(
            GErr::MissingAnnotation { which: "return"@, scope: f.name },
        ),
{
}

/// A function body that already holds a `return` binding fails parsing with a
/// duplicate-annotation error as soon as another `return` annotation follows.
pub proof fn lemma_duplicate_return(
    ts: Seq<crate::token::GToken>,
    ns: GName,
    pos: int,
    ret: GName,
    spawns: Seq<GSpawn>,
)
    requires
        crate::parse::sp_annotation(ts, ns, pos) matches crate::parse::PStep::Found(ann, p2)
            && ann is ARet,
    ensures
        crate::parse::sp_body(ts, ns, pos, Some(ret), spawns) == Err::<
            ((Option<GName>, Seq<GSpawn>), int),
            GErr,
        >(GErr::DuplicateAnnotation { which: "return"@, scope: ns }),
{
}

/// A spawn whose first violation is a `Return` child of the wrong type fails
/// with a type mismatch carrying exactly the spawn's declared type and the
/// child's actual type; matching `Return` children before it do not fail.
pub proof fn lemma_return_child_mismatch(
    defs: Seq<GDefine>,
    s: GSpawn,
    imports: Seq<GName>,
    k: int,
    n: GName,
    act: GType,
)
    requires
        0 <= k < s.details.len(),
        s.details[k] == GChild::Return(n, act),
        act != s.result.1,
        forall|j: int|
            0 <= j < k ==> #[trigger] sp_check_child(defs, s.details[j], imports) is Ok,
        forall|j: int, m: GName, a: GType|
            0 <= j < k && s.details[j] == GChild::Return(m, a) ==> a == s.result.1,
    ensures
        sp_check_spawn(defs, s, imports) == Err::<(), GErr>(
            GErr::TypeMismatch { expected: s.result.1, actual: act },
        ),
{
    lemma_return_child_mismatch_rec(defs, s.result.1, s.details, imports, k, n, act);
}

proof fn lemma_return_child_mismatch_rec(
    defs: Seq<GDefine>,
    rt: GType,
    details: Seq<GChild>,
    imports: Seq<GName>,
    k: int,
    n: GName,
    act: GType,
)
    requires
        0 <= k < details.len(),
        details[k] == GChild::Return(n, act),
        act != rt,
        forall|j: int| 0 <= j < k ==> #[trigger] sp_check_child(defs, details[j], imports) is Ok,
        forall|j: int, m: GName, a: GType|
            0 <= j < k && details[j] == GChild::Return(m, a) ==> a == rt,
    ensures
        sp_check_children(defs, rt, details, imports) == Err::<(), GErr>(
            GErr::TypeMismatch { expected: rt, actual: act },
        ),
    decreases k,
{
    if k == 0 {
        assert(sp_check_child(defs, details[0], imports) is Ok);
    } else {
        assert(sp_check_child(defs, details[0], imports) is Ok);
        let rest = details.drop_first();
        assert(rest[k - 1] == details[k]);
        assert forall|j: int| 0 <= j < k - 1 implies #[trigger] sp_check_child(
            defs,
            rest[j],
            imports,
        ) is Ok by {
            assert(rest[j] == details[j + 1]);
        }
        assert forall|j: int, m: GName, a: GType|
            0 <= j < k - 1 && rest[j] == GChild::Return(m, a) implies a == rt by {
            assert(rest[j] == details[j + 1]);
        }
        lemma_return_child_mismatch_rec(defs, rt, rest, imports, k - 1, n, act);
        match details[0] {
            GChild::Return(m0, a0) => {
                assert(details[0] == GChild::Return(m0, a0));
                assert(a0 == rt);
            },
            _ => {},
        }
    }
}

/// A call whose argument types first differ from the callee's declared
/// parameter types at index `k` fails with a type mismatch carrying exactly
/// the declared and the supplied type at `k`; earlier indices do not fail.
pub proof fn lemma_let_to_first_mismatch(req: Seq<GType>, args: Seq<GPair>, k: int)
    requires
        0 <= k < args.len(),
        k < req.len(),
        forall|j: int| 0 <= j < k ==> (#[trigger] args[j].1) == req[j],
        args[k].1 != req[k],
    ensures
        sp_check_lets(req, args) == Err::<(), GErr>(
            GErr::TypeMismatch { expected: req[k], actual: args[k].1 },
        ),
    decreases k,
{
    if k > 0 {
        lemma_let_to_first_mismatch(req.drop_first(), args.drop_first(), k - 1);
    }
}

/// Resolution is the identity on a data declaration whose member types are
/// all already final, whatever the imports: every name and every type in the
/// checked record equals its declared source counterpart.
pub proof fn lemma_resolve_data_identity(defs: Seq<GDefine>, imports: Seq<GName>, d: GData)
    requires
        forall|i: int| 0 <= i < d.members.len() ==> is_primitive(#[trigger] d.members[i].1),
    ensures
        sp_resolve_data(defs, imports, d) == Ok::<GData, GErr>(d),
{
    assert forall|i: int| 0 <= i < d.members.len() implies (#[trigger] member_resolver(
        defs,
        imports,
    )(d.members[i])) == Ok::<GPair, GErr>(d.members[i]) by {
        lemma_resolve_primitive(defs, d.members[i].1, imports, d.members[i].0);
    }
    lemma_map_identity(member_resolver(defs, imports), d.members);
    assert(GData { name: d.name, members: d.members } == d);
}

/// Resolution is the identity on a spawn whose declared result type is final
/// and which has no children yet.
pub proof fn lemma_resolve_spawn_identity(defs: Seq<GDefine>, imports: Seq<GName>, s: GSpawn)
    requires
        is_primitive(s.result.1),
        s.details.len() == 0,
    ensures
        sp_resolve_spawn(defs, imports, s) == Ok::<GSpawn, GErr>(s),
{
    lemma_resolve_primitive(defs, s.result.1, imports, s.result.0);
    assert(s.details =~= Seq::<GChild>::empty());
    assert(GSpawn { result: s.result, details: s.details } == s);
}

/// Resolution is the identity on a function whose declared types — return,
/// arguments, spawn results — are all final and whose spawns have no
/// children: every name and type of the checked function equals its declared
/// source counterpart.
pub proof fn lemma_resolve_function_identity(defs: Seq<GDefine>, imports: Seq<GName>, f: GFunc)
    requires
        f.returns matches Some(p) && is_primitive(p.1),
        forall|i: int| 0 <= i < f.args.len() ==> is_primitive(#[trigger] f.args[i].1),
        forall|i: int|
            0 <= i < f.spawns.len() ==> is_primitive(#[trigger] f.spawns[i].result.1)
                && f.spawns[i].details.len() == 0,
    ensures
        sp_resolve_function(defs, imports, f) == Ok::<GFunc, GErr>(f),
{
    let p = f.returns->0;
    lemma_resolve_primitive(defs, p.1, imports, p.0);
    assert forall|i: int| 0 <= i < f.args.len() implies (#[trigger] member_resolver(
        defs,
        imports,
    )(f.args[i])) == Ok::<GPair, GErr>(f.args[i]) by {
        lemma_resolve_primitive(defs, f.args[i].1, imports, f.args[i].0);
    }
    lemma_map_identity(member_resolver(defs, imports), f.args);
    assert forall|i: int| 0 <= i < f.spawns.len() implies (#[trigger] crate::compiler::spawn_resolver(
        defs,
        imports,
    )(f.spawns[i])) == Ok::<GSpawn, GErr>(f.spawns[i]) by {
        lemma_resolve_spawn_identity(defs, imports, f.spawns[i]);
    }
    lemma_map_identity(crate::compiler::spawn_resolver(defs, imports), f.spawns);
    assert(GFunc { name: f.name, args: f.args, returns: f.returns, spawns: f.spawns } == f);
}

/// A function whose declared types are all final and whose spawns have no
/// children yet: nothing in it needs resolution.
pub open spec fn declared_final_func(f: GFunc) -> bool {
    &&& f.returns matches Some(p) && is_primitive(p.1)
    &&& forall|i: int| 0 <= i < f.args.len() ==> is_primitive(#[trigger] f.args[i].1)
    &&& forall|i: int|
        0 <= i < f.spawns.len() ==> is_primitive(#[trigger] f.spawns[i].result.1)
            && f.spawns[i].details.len() == 0
}

/// A module all of whose functions need no resolution.
pub open spec fn declared_final_module(m: GModule) -> bool {
    forall|i: int| 0 <= i < m.functions.len() ==> declared_final_func(#[trigger] m.functions[i])
}

/// A unit none of whose declarations needs resolution: no user-written type
/// names, all declared types primitives.
pub open spec fn declared_final_unit(u: crate::structure::unchecked::GUnitU) -> bool {
    &&& forall|i: int, j: int|
        0 <= i < u.data.len() && 0 <= j < u.data[i].members.len() ==> is_primitive(
            #[trigger] u.data[i].members[j].1,
        )
    &&& forall|i: int| 0 <= i < u.modules.len() ==> declared_final_module(#[trigger] u.modules[i])
}

/// Resolution is the identity on a module all of whose functions need no
/// resolution.
pub proof fn lemma_resolve_module_identity(defs: Seq<GDefine>, imports: Seq<GName>, m: GModule)
    requires
        declared_final_module(m),
    ensures
        sp_resolve_module(defs, imports, m) == Ok::<GModule, GErr>(m),
{
    assert forall|i: int| 0 <= i < m.functions.len() implies (#[trigger] func_resolver(
        defs,
        imports,
    )(m.functions[i])) == Ok::<GFunc, GErr>(m.functions[i]) by {
        lemma_resolve_function_identity(defs, imports, m.functions[i]);
    }
    lemma_map_identity(func_resolver(defs, imports), m.functions);
    assert(GModule { name: m.name, functions: m.functions } == m);
}

/// Conversion of a unit that needs no resolution succeeds and preserves
/// every name and every declared type; only the import list is dropped.
pub proof fn lemma_resolve_unit_identity(defs: Seq<GDefine>, u: crate::structure::unchecked::GUnitU)
    requires
        declared_final_unit(u),
    ensures
        sp_resolve_unit(defs, u) == Ok::<GUnit, GErr>(
            GUnit { name: u.name, data: u.data, modules: u.modules },
        ),
{
    assert forall|i: int| 0 <= i < u.data.len() implies (#[trigger] data_resolver(
        defs,
        u.imports,
    )(u.data[i])) == Ok::<GData, GErr>(u.data[i]) by {
        assert forall|j: int| 0 <= j < u.data[i].members.len() implies is_primitive(
            #[trigger] u.data[i].members[j].1,
        ) by {}
        lemma_resolve_data_identity(defs, u.imports, u.data[i]);
    }
    lemma_map_identity(data_resolver(defs, u.imports), u.data);
    assert forall|i: int| 0 <= i < u.modules.len() implies (#[trigger] module_resolver(
        defs,
        u.imports,
    )(u.modules[i])) == Ok::<GModule, GErr>(u.modules[i]) by {
        lemma_resolve_module_identity(defs, u.imports, u.modules[i]);
    }
    lemma_map_identity(module_resolver(defs, u.imports), u.modules);
}

/// Conversion of a whole system of units that need no resolution succeeds,
/// and every name and declared type of every checked unit equals its source
/// counterpart, with the import lists dropped.
pub proof fn lemma_convert_preserves_declarations(
    defs: Seq<GDefine>,
    units: Seq<crate::structure::unchecked::GUnitU>,
)
    requires
        forall|i: int| 0 <= i < units.len() ==> declared_final_unit(#[trigger] units[i]),
    ensures
        sp_map_result(unit_resolver(defs), units) is Ok,
        sp_map_result(unit_resolver(defs), units)->Ok_0.len() == units.len(),
        forall|i: int|
            0 <= i < units.len() ==> sp_map_result(unit_resolver(defs), units)->Ok_0[i] == (GUnit {
                name: #[trigger] units[i].name,
                data: units[i].data,
                modules: units[i].modules,
            }),
    decreases units.len(),
{
    if units.len() > 0 {
        lemma_resolve_unit_identity(defs, units[0]);
        assert forall|i: int| 0 <= i < units.drop_first().len() implies declared_final_unit(
            #[trigger] units.drop_first()[i],
        ) by {
            assert(units.drop_first()[i] == units[i + 1]);
        }
        lemma_convert_preserves_declarations(defs, units.drop_first());
        let rest = sp_map_result(unit_resolver(defs), units.drop_first())->Ok_0;
        assert(sp_map_result(unit_resolver(defs), units)->Ok_0 == seq![
            GUnit { name: units[0].name, data: units[0].data, modules: units[0].modules },
        ] + rest);
        assert forall|i: int| 0 <= i < units.len() implies sp_map_result(
            unit_resolver(defs),
            units,
        )->Ok_0[i] == (GUnit {
            name: #[trigger] units[i].name,
            data: units[i].data,
            modules: units[i].modules,
        }) by {
            if i > 0 {
                assert(rest[i - 1] == (GUnit {
                    name: units.drop_first()[i - 1].name,
                    data: units.drop_first()[i - 1].data,
                    modules: units.drop_first()[i - 1].modules,
                }));
                assert(units.drop_first()[i - 1] == units[i]);
            }
        }
    }
}

} // verus!
