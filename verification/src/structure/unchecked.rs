//! The unchecked tree: what the parser builds. It has the shape of the
//! checked tree, plus a per-unit import list, and its type references may
//! still be placeholders. A single top-down conversion turns it into the
//! checked tree; the conversion of every node is driven by caller-supplied
//! per-field resolvers, so the same walk serves any resolution policy.
//! The first resolver failure aborts the whole conversion.

use vstd::prelude::*;
use crate::error::{PError, PResult};
use crate::name::{GName, Name};
use crate::traverse::{convert_vec, converts_ok};
use crate::types::Type;
use super::{GData, GModule, GFunc, GSpawn, GChild, view_pair, view_pairs};

verus! {

/// Mathematical model of an unchecked [`SysDCSystem`].
pub ghost struct GSystemU {
    pub units: Seq<GUnitU>,
}

/// Mathematical model of an unchecked [`SysDCUnit`]: a checked unit plus the
/// import list that resolution will consume.
pub ghost struct GUnitU {
    pub name: GName,
    pub data: Seq<GData>,
    pub modules: Seq<GModule>,
    pub imports: Seq<GName>,
}

/// A whole unchecked system.
#[derive(Debug, PartialEq)]
pub struct SysDCSystem {
    pub units: Vec<SysDCUnit>,
}

/// An unchecked unit, still owning its import list.
#[derive(Debug, PartialEq)]
pub struct SysDCUnit {
    pub name: Name,
    pub data: Vec<SysDCData>,
    pub modules: Vec<SysDCModule>,
    pub imports: Vec<Name>,
}

/// An unchecked record type.
#[derive(Debug, PartialEq)]
pub struct SysDCData {
    pub name: Name,
    pub members: Vec<(Name, Type)>,
}

/// An unchecked grouping of functions.
#[derive(Debug, PartialEq)]
pub struct SysDCModule {
    pub name: Name,
    pub functions: Vec<SysDCFunction>,
}

/// An unchecked function. `returns` is `None` while no `return` annotation
/// has been seen; checking turns that absence into an error.
#[derive(Debug, PartialEq)]
pub struct SysDCFunction {
    pub name: Name,
    pub args: Vec<(Name, Type)>,
    pub returns: Option<(Name, Type)>,
    pub spawns: Vec<SysDCSpawn>,
}

/// An unchecked spawn.
#[derive(Debug, PartialEq)]
pub struct SysDCSpawn {
    pub result: (Name, Type),
    pub details: Vec<SysDCSpawnChild>,
}

/// One unchecked entry of a spawn.
#[derive(Debug, PartialEq)]
pub enum SysDCSpawnChild {
    Use(Name, Type),
    Return(Name, Type),
    LetTo { name: Name, func: (Name, Type), args: Vec<(Name, Type)> },
}

impl View for SysDCSpawnChild {
    type V = GChild;

    open spec fn view(&self) -> GChild {
        match self {
            SysDCSpawnChild::Use(n, t) => GChild::Use(n@, t@),
            SysDCSpawnChild::Return(n, t) => GChild::Return(n@, t@),
            SysDCSpawnChild::LetTo { name, func, args } => GChild::LetTo {
                name: name@,
                func: view_pair(*func),
                args: view_pairs(args@),
            },
        }
    }
}

impl View for SysDCSpawn {
    type V = GSpawn;

    open spec fn view(&self) -> GSpawn {
        GSpawn {
            result: view_pair(self.result),
            details: self.details@.map_values(|c: SysDCSpawnChild| c@),
        }
    }
}

impl View for SysDCFunction {
    type V = GFunc;

    open spec fn view(&self) -> GFunc {
        GFunc {
            name: self.name@,
            args: view_pairs(self.args@),
            returns: match self.returns {
                Some(p) => Some(view_pair(p)),
                None => None,
            },
            spawns: self.spawns@.map_values(|s: SysDCSpawn| s@),
        }
    }
}

impl View for SysDCModule {
    type V = GModule;

    open spec fn view(&self) -> GModule {
        GModule {
            name: self.name@,
            functions: self.functions@.map_values(|f: SysDCFunction| f@),
        }
    }
}

impl View for SysDCData {
    type V = GData;

    open spec fn view(&self) -> GData {
        GData { name: self.name@, members: view_pairs(self.members@) }
    }
}

impl View for SysDCUnit {
    type V = GUnitU;

    open spec fn view(&self) -> GUnitU {
        GUnitU {
            name: self.name@,
            data: self.data@.map_values(|d: SysDCData| d@),
            modules: self.modules@.map_values(|m: SysDCModule| m@),
            imports: self.imports@.map_values(|n: Name| n@),
        }
    }
}

impl View for SysDCSystem {
    type V = GSystemU;

    open spec fn view(&self) -> GSystemU {
        GSystemU { units: self.units@.map_values(|u: SysDCUnit| u@) }
    }
}

impl SysDCSystem {
    /// Assembles a system from its parsed units, in order.
    pub fn new(units: Vec<SysDCUnit>) -> (r: SysDCSystem)
        ensures
            r.units == units,
    {
        SysDCSystem { units }
    }

    /// Converts every unit through `converter`, in order, stopping at the
    /// first failure.
    pub fn convert<F: Fn(SysDCUnit) -> PResult<super::SysDCUnit>>(self, converter: F) -> (r:
        PResult<super::SysDCSystem>)
        requires
            forall|u: SysDCUnit| #[trigger] call_requires(converter, (u,)),
        ensures
            match r {
                Ok(sys) => {
                    &&& sys.units@.len() == self.units@.len()
                    &&& forall|i: int|
                        0 <= i < self.units@.len() ==> #[trigger] call_ensures(
                            converter,
                            (self.units@[i],),
                            Ok::<super::SysDCUnit, PError>(sys.units@[i]),
                        )
                },
                Err(e) => exists|i: int|
                    {
                        &&& 0 <= i < self.units@.len()
                        &&& #[trigger] call_ensures(
                            converter,
                            (self.units@[i],),
                            Err::<super::SysDCUnit, PError>(e),
                        )
                        &&& forall|j: int|
                            0 <= j < i ==> #[trigger] converts_ok(converter, self.units@[j])
                    },
            },
    {
        let SysDCSystem { units } = self;
        match convert_vec(units, &converter) {
            Ok(out) => Ok(super::SysDCSystem { units: out }),
            Err(e) => Err(e),
        }
    }
}

impl SysDCUnit {
    /// A parsed unit, with the imports its resolution may use.
    pub fn new(name: Name, data: Vec<SysDCData>, modules: Vec<SysDCModule>, imports: Vec<
        Name,
    >) -> (r: SysDCUnit)
        ensures
            r.name == name,
            r.data == data,
            r.modules == modules,
            r.imports == imports,
    {
        SysDCUnit { name, data, modules, imports }
    }

    /// Converts the data declarations, then the modules, stopping at the
    /// first failure; the import list is dropped.
    pub fn convert<
        FD: Fn(SysDCData) -> PResult<super::SysDCData>,
        FM: Fn(SysDCModule) -> PResult<super::SysDCModule>,
    >(self, d_converter: FD, m_converter: FM) -> (r: PResult<super::SysDCUnit>)
        requires
            forall|d: SysDCData| #[trigger] call_requires(d_converter, (d,)),
            forall|m: SysDCModule| #[trigger] call_requires(m_converter, (m,)),
        ensures
            match r {
                Ok(u) => {
                    &&& u.name == self.name
                    &&& u.data@.len() == self.data@.len()
                    &&& forall|i: int|
                        0 <= i < self.data@.len() ==> #[trigger] call_ensures(
                            d_converter,
                            (self.data@[i],),
                            Ok::<super::SysDCData, PError>(u.data@[i]),
                        )
                    &&& u.modules@.len() == self.modules@.len()
                    &&& forall|i: int|
                        0 <= i < self.modules@.len() ==> #[trigger] call_ensures(
                            m_converter,
                            (self.modules@[i],),
                            Ok::<super::SysDCModule, PError>(u.modules@[i]),
                        )
                },
                Err(e) => {
                    ||| exists|i: int|
                        {
                            &&& 0 <= i < self.data@.len()
                            &&& #[trigger] call_ensures(
                                d_converter,
                                (self.data@[i],),
                                Err::<super::SysDCData, PError>(e),
                            )
                            &&& forall|j: int|
                            0 <= j < i ==> #[trigger] converts_ok(d_converter, self.data@[j])
                        }
                    ||| {
                        &&& (forall|j: int|
                            0 <= j < self.data@.len() ==> #[trigger] converts_ok(d_converter, self.data@[j]))
                        &&& exists|i: int|
                            {
                                &&& 0 <= i < self.modules@.len()
                                &&& #[trigger] call_ensures(
                                    m_converter,
                                    (self.modules@[i],),
                                    Err::<super::SysDCModule, PError>(e),
                                )
                                &&& forall|j: int|
                            0 <= j < i ==> #[trigger] converts_ok(m_converter, self.modules@[j])
                            }
                    }
                },
            },
    {
        let SysDCUnit { name, data, modules, imports: _ } = self;
        let ghost data_view = data@;
        let data2 = match convert_vec(data, &d_converter) {
            Ok(out) => out,
            Err(e) => {
                return Err(e);
            },
        };
        let modules2 = match convert_vec(modules, &m_converter) {
            Ok(out) => out,
            Err(e) => {
                proof {
                    assert forall|j: int| 0 <= j < data_view.len() implies converts_ok(
                        d_converter,
                        data_view[j],
                    ) by {
                        assert(call_ensures(
                            d_converter,
                            (data_view[j],),
                            Ok::<super::SysDCData, PError>(data2@[j]),
                        ));
                    }
                }
                return Err(e);
            },
        };
        Ok(super::SysDCUnit { name, data: data2, modules: modules2 })
    }
}

impl SysDCData {
    /// A parsed record type.
    pub fn new(name: Name, members: Vec<(Name, Type)>) -> (r: SysDCData)
        ensures
            r.name == name,
            r.members == members,
    {
        SysDCData { name, members }
    }

    /// Converts every member through `converter`, in order, stopping at the
    /// first failure.
    pub fn convert<F: Fn((Name, Type)) -> PResult<(Name, Type)>>(self, converter: F) -> (r:
        PResult<super::SysDCData>)
        requires
            forall|m: (Name, Type)| #[trigger] call_requires(converter, (m,)),
        ensures
            match r {
                Ok(d) => {
                    &&& d.name == self.name
                    &&& d.members@.len() == self.members@.len()
                    &&& forall|i: int|
                        0 <= i < self.members@.len() ==> #[trigger] call_ensures(
                            converter,
                            (self.members@[i],),
                            Ok::<(Name, Type), PError>(d.members@[i]),
                        )
                },
                Err(e) => exists|i: int|
                    {
                        &&& 0 <= i < self.members@.len()
                        &&& #[trigger] call_ensures(
                            converter,
                            (self.members@[i],),
                            Err::<(Name, Type), PError>(e),
                        )
                        &&& forall|j: int|
                            0 <= j < i ==> #[trigger] converts_ok(converter, self.members@[j])
                    },
            },
    {
        let SysDCData { name, members } = self;
        match convert_vec(members, &converter) {
            Ok(out) => Ok(super::SysDCData { name, members: out }),
            Err(e) => Err(e),
        }
    }
}

impl SysDCModule {
    /// A parsed module.
    pub fn new(name: Name, functions: Vec<SysDCFunction>) -> (r: SysDCModule)
        ensures
            r.name == name,
            r.functions == functions,
    {
        SysDCModule { name, functions }
    }

    /// Converts every function through `converter`, in order, stopping at the
    /// first failure.
    pub fn convert<F: Fn(SysDCFunction) -> PResult<super::SysDCFunction>>(self, converter: F) -> (r:
        PResult<super::SysDCModule>)
        requires
            forall|f: SysDCFunction| #[trigger] call_requires(converter, (f,)),
        ensures
            match r {
                Ok(m) => {
                    &&& m.name == self.name
                    &&& m.functions@.len() == self.functions@.len()
                    &&& forall|i: int|
                        0 <= i < self.functions@.len() ==> #[trigger] call_ensures(
                            converter,
                            (self.functions@[i],),
                            Ok::<super::SysDCFunction, PError>(m.functions@[i]),
                        )
                },
                Err(e) => exists|i: int|
                    {
                        &&& 0 <= i < self.functions@.len()
                        &&& #[trigger] call_ensures(
                            converter,
                            (self.functions@[i],),
                            Err::<super::SysDCFunction, PError>(e),
                        )
                        &&& forall|j: int|
                            0 <= j < i ==> #[trigger] converts_ok(converter, self.functions@[j])
                    },
            },
    {
        let SysDCModule { name, functions } = self;
        match convert_vec(functions, &converter) {
            Ok(out) => Ok(super::SysDCModule { name, functions: out }),
            Err(e) => Err(e),
        }
    }
}

impl SysDCFunction {
    /// A parsed function; the parser hands the return binding it found.
    pub fn new(name: Name, args: Vec<(Name, Type)>, ret: (Name, Type), spawns: Vec<
        SysDCSpawn,
    >) -> (r: SysDCFunction)
        ensures
            r.name == name,
            r.args == args,
            r.returns == Some(ret),
            r.spawns == spawns,
    {
        SysDCFunction { name, args, returns: Some(ret), spawns }
    }

    /// Converts the return binding, then the arguments, then the spawns,
    /// stopping at the first failure.
    pub fn convert<
        FA: Fn((Name, Type)) -> PResult<(Name, Type)>,
        FR: Fn(Option<(Name, Type)>) -> PResult<Option<(Name, Type)>>,
        FS: Fn(SysDCSpawn) -> PResult<super::SysDCSpawn>,
    >(self, a_convert: FA, r_convert: FR, s_convert: FS) -> (r: PResult<super::SysDCFunction>)
        requires
            forall|a: (Name, Type)| #[trigger] call_requires(a_convert, (a,)),
            forall|o: Option<(Name, Type)>| #[trigger] call_requires(r_convert, (o,)),
            forall|s: SysDCSpawn| #[trigger] call_requires(s_convert, (s,)),
        ensures
            match r {
                Ok(f) => {
                    &&& f.name == self.name
                    &&& call_ensures(
                        r_convert,
                        (self.returns,),
                        Ok::<Option<(Name, Type)>, PError>(f.returns),
                    )
                    &&& f.args@.len() == self.args@.len()
                    &&& forall|i: int|
                        0 <= i < self.args@.len() ==> #[trigger] call_ensures(
                            a_convert,
                            (self.args@[i],),
                            Ok::<(Name, Type), PError>(f.args@[i]),
                        )
                    &&& f.spawns@.len() == self.spawns@.len()
                    &&& forall|i: int|
                        0 <= i < self.spawns@.len() ==> #[trigger] call_ensures(
                            s_convert,
                            (self.spawns@[i],),
                            Ok::<super::SysDCSpawn, PError>(f.spawns@[i]),
                        )
                },
                Err(e) => {
                    ||| call_ensures(r_convert, (self.returns,), Err::<Option<(Name, Type)>, PError>(e))
                    ||| {
                        &&& (exists|rv: Option<(Name, Type)>|
                            call_ensures(
                                r_convert,
                                (self.returns,),
                                Ok::<Option<(Name, Type)>, PError>(rv),
                            ))
                        &&& exists|i: int|
                            {
                                &&& 0 <= i < self.args@.len()
                                &&& #[trigger] call_ensures(
                                    a_convert,
                                    (self.args@[i],),
                                    Err::<(Name, Type), PError>(e),
                                )
                                &&& forall|j: int|
                            0 <= j < i ==> #[trigger] converts_ok(a_convert, self.args@[j])
                            }
                    }
                    ||| {
                        &&& (exists|rv: Option<(Name, Type)>|
                            call_ensures(
                                r_convert,
                                (self.returns,),
                                Ok::<Option<(Name, Type)>, PError>(rv),
                            ))
                        &&& (forall|j: int|
                            0 <= j < self.args@.len() ==> #[trigger] converts_ok(a_convert, self.args@[j]))
                        &&& exists|i: int|
                            {
                                &&& 0 <= i < self.spawns@.len()
                                &&& #[trigger] call_ensures(
                                    s_convert,
                                    (self.spawns@[i],),
                                    Err::<super::SysDCSpawn, PError>(e),
                                )
                                &&& forall|j: int|
                            0 <= j < i ==> #[trigger] converts_ok(s_convert, self.spawns@[j])
                            }
                    }
                },
            },
    {
        let SysDCFunction { name, args, returns: ret, spawns } = self;
        let ghost args_view = args@;
        let returns2 = match r_convert(ret) {
            Ok(x) => x,
            Err(e) => {
                return Err(e);
            },
        };
        let args2 = match convert_vec(args, &a_convert) {
            Ok(out) => out,
            Err(e) => {
                return Err(e);
            },
        };
        let spawns2 = match convert_vec(spawns, &s_convert) {
            Ok(out) => out,
            Err(e) => {
                proof {
                    assert forall|j: int| 0 <= j < args_view.len() implies converts_ok(
                        a_convert,
                        args_view[j],
                    ) by {
                        assert(call_ensures(
                            a_convert,
                            (args_view[j],),
                            Ok::<(Name, Type), PError>(args2@[j]),
                        ));
                    }
                }
                return Err(e);
            },
        };
        Ok(super::SysDCFunction { name, args: args2, returns: returns2, spawns: spawns2 })
    }
}

impl SysDCSpawn {
    /// A parsed spawn.
    pub fn new(result: (Name, Type), details: Vec<SysDCSpawnChild>) -> (r: SysDCSpawn)
        ensures
            r.result == result,
            r.details == details,
    {
        SysDCSpawn { result, details }
    }

    /// Converts the result binding, then every child, stopping at the first
    /// failure.
    pub fn convert<
        FR: Fn((Name, Type)) -> PResult<(Name, Type)>,
        FD: Fn(SysDCSpawnChild) -> PResult<super::SysDCSpawnChild>,
    >(self, r_converter: FR, d_converter: FD) -> (r: PResult<super::SysDCSpawn>)
        requires
            forall|p: (Name, Type)| #[trigger] call_requires(r_converter, (p,)),
            forall|c: SysDCSpawnChild| #[trigger] call_requires(d_converter, (c,)),
        ensures
            match r {
                Ok(s) => {
                    &&& call_ensures(
                        r_converter,
                        (self.result,),
                        Ok::<(Name, Type), PError>(s.result),
                    )
                    &&& s.details@.len() == self.details@.len()
                    &&& forall|i: int|
                        0 <= i < self.details@.len() ==> #[trigger] call_ensures(
                            d_converter,
                            (self.details@[i],),
                            Ok::<super::SysDCSpawnChild, PError>(s.details@[i]),
                        )
                },
                Err(e) => {
                    ||| call_ensures(r_converter, (self.result,), Err::<(Name, Type), PError>(e))
                    ||| {
                        &&& (exists|rv: (Name, Type)|
                            call_ensures(
                                r_converter,
                                (self.result,),
                                Ok::<(Name, Type), PError>(rv),
                            ))
                        &&& exists|i: int|
                            {
                                &&& 0 <= i < self.details@.len()
                                &&& #[trigger] call_ensures(
                                    d_converter,
                                    (self.details@[i],),
                                    Err::<super::SysDCSpawnChild, PError>(e),
                                )
                                &&& forall|j: int|
                            0 <= j < i ==> #[trigger] converts_ok(d_converter, self.details@[j])
                            }
                    }
                },
            },
    {
        let SysDCSpawn { result, details } = self;
        let result2 = match r_converter(result) {
            Ok(x) => x,
            Err(e) => {
                return Err(e);
            },
        };
        match convert_vec(details, &d_converter) {
            Ok(out) => Ok(super::SysDCSpawn { result: result2, details: out }),
            Err(e) => Err(e),
        }
    }
}

impl SysDCSpawnChild {
    /// A value the spawn reads.
    pub fn new_use(name: Name, types: Type) -> (r: SysDCSpawnChild)
        ensures
            r == SysDCSpawnChild::Use(name, types),
    {
        SysDCSpawnChild::Use(name, types)
    }

    /// The mark that this spawn produces the function's return value.
    pub fn new_return(name: Name, types: Type) -> (r: SysDCSpawnChild)
        ensures
            r == SysDCSpawnChild::Return(name, types),
    {
        SysDCSpawnChild::Return(name, types)
    }

    /// A call the spawn makes, with its positional arguments.
    pub fn new_let_to(name: Name, func: (Name, Type), args: Vec<(Name, Type)>) -> (r:
        SysDCSpawnChild)
        ensures
            r == (SysDCSpawnChild::LetTo { name, func, args }),
    {
        SysDCSpawnChild::LetTo { name, func, args }
    }

    /// Converts this child through the resolver matching its variant.
    pub fn convert<
        FU: Fn((Name, Type)) -> PResult<(Name, Type)>,
        FR: Fn((Name, Type)) -> PResult<(Name, Type)>,
        FL: Fn(Name, (Name, Type), Vec<(Name, Type)>) -> PResult<
            (Name, (Name, Type), Vec<(Name, Type)>),
        >,
    >(self, u_converter: FU, r_converter: FR, l_converter: FL) -> (r: PResult<
        super::SysDCSpawnChild,
    >)
        requires
            forall|p: (Name, Type)| #[trigger] call_requires(u_converter, (p,)),
            forall|p: (Name, Type)| #[trigger] call_requires(r_converter, (p,)),
            forall|n: Name, f: (Name, Type), a: Vec<(Name, Type)>|
                #[trigger] call_requires(l_converter, (n, f, a)),
        ensures
            (self matches SysDCSpawnChild::Use(n, t) ==> match r {
                Ok(c) => exists|v: (Name, Type)|
                    {
                        &&& #[trigger] call_ensures(
                            u_converter,
                            ((n, t),),
                            Ok::<(Name, Type), PError>(v),
                        )
                        &&& c == super::SysDCSpawnChild::Use(v.0, v.1)
                    },
                Err(e) => call_ensures(u_converter, ((n, t),), Err::<(Name, Type), PError>(e)),
            }),
            (self matches SysDCSpawnChild::Return(n, t) ==> match r {
                Ok(c) => exists|v: (Name, Type)|
                    {
                        &&& #[trigger] call_ensures(
                            r_converter,
                            ((n, t),),
                            Ok::<(Name, Type), PError>(v),
                        )
                        &&& c == super::SysDCSpawnChild::Return(v.0, v.1)
                    },
                Err(e) => call_ensures(r_converter, ((n, t),), Err::<(Name, Type), PError>(e)),
            }),
            (self matches SysDCSpawnChild::LetTo { name, func, args } ==> match r {
                Ok(c) => exists|v: (Name, (Name, Type), Vec<(Name, Type)>)|
                    {
                        &&& #[trigger] call_ensures(
                            l_converter,
                            (name, func, args),
                            Ok::<(Name, (Name, Type), Vec<(Name, Type)>), PError>(v),
                        )
                        &&& c == (super::SysDCSpawnChild::LetTo {
                            name: v.0,
                            func: v.1,
                            args: v.2,
                        })
                    },
                Err(e) => call_ensures(
                    l_converter,
                    (name, func, args),
                    Err::<(Name, (Name, Type), Vec<(Name, Type)>), PError>(e),
                ),
            }),
    {
        match self {
            SysDCSpawnChild::Use(name, types) => {
                match u_converter((name, types)) {
                    Ok((n2, t2)) => Ok(super::SysDCSpawnChild::Use(n2, t2)),
                    Err(e) => Err(e),
                }
            },
            SysDCSpawnChild::Return(name, types) => {
                match r_converter((name, types)) {
                    Ok((n2, t2)) => Ok(super::SysDCSpawnChild::Return(n2, t2)),
                    Err(e) => Err(e),
                }
            },
            SysDCSpawnChild::LetTo { name, func, args } => {
                match l_converter(name, func, args) {
                    Ok((n2, f2, a2)) => Ok(
                        super::SysDCSpawnChild::LetTo { name: n2, func: f2, args: a2 },
                    ),
                    Err(e) => Err(e),
                }
            },
        }
    }
}

} // verus!
