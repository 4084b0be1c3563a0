//! The checked tree: the validated, strongly-typed model of a system. It has
//! exactly the shape of the unchecked tree, except that every type reference
//! is resolved and the per-unit import lists are gone. Nothing mutates a
//! checked tree once checking has produced it.

pub mod unchecked;

use vstd::prelude::*;
use crate::name::{GName, Name};
use crate::types::{GType, Type};

verus! {

/// Model of a member, argument or binding: a name and its type.
pub type GPair = (GName, GType);

/// The model of one `(Name, Type)` pair.
pub open spec fn view_pair(p: (Name, Type)) -> GPair {
    (p.0@, p.1@)
}

/// The model of a vector of pairs.
pub open spec fn view_pairs(v: Seq<(Name, Type)>) -> Seq<GPair> {
    v.map_values(|p: (Name, Type)| view_pair(p))
}

/// Mathematical model of a checked [`SysDCSystem`].
pub ghost struct GSystem {
    pub units: Seq<GUnit>,
}

/// Mathematical model of a checked [`SysDCUnit`].
pub ghost struct GUnit {
    pub name: GName,
    pub data: Seq<GData>,
    pub modules: Seq<GModule>,
}

/// Mathematical model of a checked [`SysDCData`].
pub ghost struct GData {
    pub name: GName,
    pub members: Seq<GPair>,
}

/// Mathematical model of a checked [`SysDCModule`].
pub ghost struct GModule {
    pub name: GName,
    pub functions: Seq<GFunc>,
}

/// Mathematical model of a checked [`SysDCFunction`].
pub ghost struct GFunc {
    pub name: GName,
    pub args: Seq<GPair>,
    pub returns: Option<GPair>,
    pub spawns: Seq<GSpawn>,
}

/// Mathematical model of a checked [`SysDCSpawn`].
pub ghost struct GSpawn {
    pub result: GPair,
    pub details: Seq<GChild>,
}

/// Mathematical model of a checked [`SysDCSpawnChild`].
pub ghost enum GChild {
    Use(GName, GType),
    Return(GName, GType),
    LetTo { name: GName, func: GPair, args: Seq<GPair> },
}

/// A whole checked system: its units in declaration order.
#[derive(Debug, PartialEq)]
pub struct SysDCSystem {
    pub units: Vec<SysDCUnit>,
}

/// A checked unit: its data and module declarations in order. The import
/// list of the unchecked form was resolution metadata and is gone.
#[derive(Debug, PartialEq)]
pub struct SysDCUnit {
    pub name: Name,
    pub data: Vec<SysDCData>,
    pub modules: Vec<SysDCModule>,
}

/// A checked record type: ordered members, each with a resolved type.
#[derive(Debug, PartialEq)]
pub struct SysDCData {
    pub name: Name,
    pub members: Vec<(Name, Type)>,
}

/// A checked grouping of functions.
#[derive(Debug, PartialEq)]
pub struct SysDCModule {
    pub name: Name,
    pub functions: Vec<SysDCFunction>,
}

/// A checked function: typed arguments, the return binding, and its spawns.
#[derive(Debug, PartialEq)]
pub struct SysDCFunction {
    pub name: Name,
    pub args: Vec<(Name, Type)>,
    pub returns: Option<(Name, Type)>,
    pub spawns: Vec<SysDCSpawn>,
}

/// A checked spawn: the value it introduces and what it consumes or calls.
#[derive(Debug, PartialEq)]
pub struct SysDCSpawn {
    pub result: (Name, Type),
    pub details: Vec<SysDCSpawnChild>,
}

/// One entry of a spawn: a value it reads, the mark that it produces the
/// enclosing function's return value, or a call with its arguments.
#[derive(Debug, PartialEq)]
pub enum SysDCSpawnChild {
    Use(Name, Type),
    Return(Name, Type),
    LetTo { name: Name, func: (Name, Type), args: Vec<(Name, Type)> },
}

impl View for SysDCSpawnChild {
    type V = GChild;

    open spec fn view(&self) -> GChild {
        match self {
            SysDCSpawnChild::Use(n, t) => GChild::Use(n@, t@),
            SysDCSpawnChild::Return(n, t) => GChild::Return(n@, t@),
            SysDCSpawnChild::LetTo { name, func, args } => GChild::LetTo {
                name: name@,
                func: view_pair(*func),
                args: view_pairs(args@),
            },
        }
    }
}

impl View for SysDCSpawn {
    type V = GSpawn;

    open spec fn view(&self) -> GSpawn {
        GSpawn {
            result: view_pair(self.result),
            details: self.details@.map_values(|c: SysDCSpawnChild| c@),
        }
    }
}

impl View for SysDCFunction {
    type V = GFunc;

    open spec fn view(&self) -> GFunc {
        GFunc {
            name: self.name@,
            args: view_pairs(self.args@),
            returns: match self.returns {
                Some(p) => Some(view_pair(p)),
                None => None,
            },
            spawns: self.spawns@.map_values(|s: SysDCSpawn| s@),
        }
    }
}

impl View for SysDCModule {
    type V = GModule;

    open spec fn view(&self) -> GModule {
        GModule {
            name: self.name@,
            functions: self.functions@.map_values(|f: SysDCFunction| f@),
        }
    }
}

impl View for SysDCData {
    type V = GData;

    open spec fn view(&self) -> GData {
        GData { name: self.name@, members: view_pairs(self.members@) }
    }
}

impl View for SysDCUnit {
    type V = GUnit;

    open spec fn view(&self) -> GUnit {
        GUnit {
            name: self.name@,
            data: self.data@.map_values(|d: SysDCData| d@),
            modules: self.modules@.map_values(|m: SysDCModule| m@),
        }
    }
}

impl View for SysDCSystem {
    type V = GSystem;

    open spec fn view(&self) -> GSystem {
        GSystem { units: self.units@.map_values(|u: SysDCUnit| u@) }
    }
}

} // verus!
