//! Recursive-descent parsing: one routine per production of the grammar
//!
//! ```text
//! unit       := (data | module)*
//! data       := 'data' ID '{' (field (',' field)*)? '}'
//! field      := ID ':' ID
//! module     := 'module' ID '{' function* '}'
//! function   := ID '(' (field (',' field)*)? ')' '->' ID '{' body '}'
//! body       := annotation*
//! annotation := attribute* '@' ID annotation-tail
//! attribute  := '+' ID var (',' var)*
//! var        := ID ('.' ID)*
//! ```
//!
//! Every routine is proved equal to a spec-level mirror over the token
//! sequence, so what the parser returns on any input is pinned exactly. One
//! token of lookahead suffices: the absence of a production's leading token
//! means "production not present"; a missing mandatory token after the
//! production has committed is a hard syntax error.

use vstd::prelude::*;
use vstd::string::StringExecFns;
use crate::error::{GErr, PError, PResult};
use crate::name::{GName, Name, g_child};
use crate::structure::{GPair, GData, GModule, GFunc, GSpawn, GChild, view_pair, view_pairs};
use crate::structure::unchecked::{
    GUnitU, SysDCUnit, SysDCData, SysDCModule, SysDCFunction, SysDCSpawn, SysDCSpawnChild,
};
use crate::token::{GToken, TokenKind, Tokenizer, at_kind, kind_at};
use crate::types::{GType, Type, g_type_from};

verus! {

/// Outcome of attempting one production: not present (normal loop exit),
/// parsed up to a new position, or a hard error.
pub ghost enum PStep<T> {
    Absent,
    Found(T, int),
    Fail(GErr),
}

/// A parsed annotation: the function's return binding, or a spawn.
pub ghost enum GAnn {
    ARet(GName),
    ASpawn(GSpawn),
}

/// One parsed annotation at the executable level.
pub enum SysDCAnnotation {
    ReturnBind(Name),
    SpawnItem(SysDCSpawn),
}

/// A syntax error value.
pub open spec fn syn(expected: TokenKind, found: Option<TokenKind>) -> GErr {
    GErr::Syntax { expected, found }
}

/// The next position a list production continues from: `next`, clamped into
/// range and made strictly larger than `pos`. Every production consumes at
/// least one token, so the clamps change nothing on reachable arguments; they
/// only make the recursion visibly advance.
pub open spec fn advanced(len: int, pos: int, next: int) -> int {
    let lo = if pos + 1 > len {
        len
    } else {
        pos + 1
    };
    let hi = if next > len {
        len
    } else {
        next
    };
    if hi > lo {
        hi
    } else {
        lo
    }
}

/// Mirror of the `field` production: `ID ':' ID`, read under `ns`.
pub open spec fn sp_id_type(ts: Seq<GToken>, ns: GName, pos: int) -> PStep<GPair> {
    if !at_kind(ts, pos, TokenKind::Identifier) {
        PStep::Absent
    } else if !at_kind(ts, pos + 1, TokenKind::Mapping) {
        PStep::Fail(syn(TokenKind::Mapping, kind_at(ts, pos + 1)))
    } else if !at_kind(ts, pos + 2, TokenKind::Identifier) {
        PStep::Fail(syn(TokenKind::Identifier, kind_at(ts, pos + 2)))
    } else {
        PStep::Found(
            (g_child(ns, ts[pos].id), g_type_from(ns, ts[pos + 2].id)),
            pos + 3,
        )
    }
}

/// Mirror of a comma-separated field list: elements already read stand in
/// `acc`; the list ends once a parsed element is not followed by a comma, or
/// the element production is not present.
pub open spec fn sp_field_list(ts: Seq<GToken>, ns: GName, pos: int, acc: Seq<GPair>) -> Result<
    (Seq<GPair>, int),
    GErr,
>
    decreases ts.len() - pos,
{
    match sp_id_type(ts, ns, pos) {
        PStep::Absent => Ok((acc, pos)),
        PStep::Fail(e) => Err(e),
        PStep::Found(m, p2) => {
            if at_kind(ts, p2, TokenKind::Separater) {
                sp_field_list(ts, ns, advanced(ts.len() as int, pos, p2 + 1), acc.push(m))
            } else {
                Ok((acc.push(m), p2))
            }
        },
    }
}

/// Mirror of the identifier chain of a `var`: the identifiers read so far
/// stand in `acc`. A dot consumed without an identifier after it ends the
/// chain (the dot stays consumed).
pub open spec fn sp_id_list(ts: Seq<GToken>, pos: int, acc: Seq<Seq<char>>) -> (Seq<Seq<char>>, int)
    decreases ts.len() - pos,
{
    if !at_kind(ts, pos, TokenKind::Identifier) {
        (acc, pos)
    } else {
        let acc2 = acc.push(ts[pos].id);
        if at_kind(ts, pos + 1, TokenKind::Accessor) {
            sp_id_list(ts, advanced(ts.len() as int, pos, pos + 2), acc2)
        } else {
            (acc2, pos + 1)
        }
    }
}

/// The identifiers of a `var` joined with dots.
pub open spec fn join_dots(ids: Seq<Seq<char>>) -> Seq<char>
    decreases ids.len(),
{
    if ids.len() == 0 {
        Seq::empty()
    } else if ids.len() == 1 {
        ids[0]
    } else {
        join_dots(ids.drop_last()) + seq!['.'] + ids.last()
    }
}

/// Mirror of the `var` production: a dotted variable reference, typed as a
/// placeholder until resolution.
pub open spec fn sp_var(ts: Seq<GToken>, ns: GName, pos: int) -> PStep<GPair> {
    let (ids, p2) = sp_id_list(ts, pos, Seq::empty());
    if ids.len() == 0 {
        PStep::Absent
    } else {
        PStep::Found((g_child(ns, join_dots(ids)), GType::UnsolvedNoHint), p2)
    }
}

/// Mirror of a comma-separated `var` list; it cannot fail.
pub open spec fn sp_var_list(ts: Seq<GToken>, ns: GName, pos: int, acc: Seq<GPair>) -> (
    Seq<GPair>,
    int,
)
    decreases ts.len() - pos,
{
    match sp_var(ts, ns, pos) {
        PStep::Absent => (acc, pos),
        PStep::Fail(_) => (acc, pos),
        PStep::Found(v, p2) => {
            if at_kind(ts, p2, TokenKind::Separater) {
                sp_var_list(ts, ns, advanced(ts.len() as int, pos, p2 + 1), acc.push(v))
            } else {
                (acc.push(v), p2)
            }
        },
    }
}

/// Mirror of the `attribute` production: `'+' ID var-list`. The only
/// attribute identifier of the grammar is `use`.
pub open spec fn sp_attribute(ts: Seq<GToken>, ns: GName, pos: int) -> PStep<Seq<GPair>> {
    if !at_kind(ts, pos, TokenKind::Plus) {
        PStep::Absent
    } else if !at_kind(ts, pos + 1, TokenKind::Identifier) {
        PStep::Fail(syn(TokenKind::Identifier, kind_at(ts, pos + 1)))
    } else if ts[pos + 1].id != "use"@ {
        PStep::Fail(GErr::UnknownAttribute { name: ts[pos + 1].id })
    } else {
        let (vars, p2) = sp_var_list(ts, ns, pos + 2, Seq::empty());
        PStep::Found(vars, p2)
    }
}

/// Mirror of an undelimited attribute list.
pub open spec fn sp_attr_list(
    ts: Seq<GToken>,
    ns: GName,
    pos: int,
    acc: Seq<Seq<GPair>>,
) -> Result<(Seq<Seq<GPair>>, int), GErr>
    decreases ts.len() - pos,
{
    match sp_attribute(ts, ns, pos) {
        PStep::Absent => Ok((acc, pos)),
        PStep::Fail(e) => Err(e),
        PStep::Found(vars, p2) => sp_attr_list(
            ts,
            ns,
            advanced(ts.len() as int, pos, p2),
            acc.push(vars),
        ),
    }
}

/// The `use` children a spawn gets from the attributes written before it.
pub open spec fn flatten_uses(attrs: Seq<Seq<GPair>>) -> Seq<GChild>
    decreases attrs.len(),
{
    if attrs.len() == 0 {
        Seq::empty()
    } else {
        attrs[0].map_values(|p: GPair| GChild::Use(p.0, p.1)) + flatten_uses(attrs.drop_first())
    }
}

/// Mirror of the `annotation` production. For `spawn`, the preceding `use`
/// attributes become the new spawn's children; for `return`, a bare variable
/// reference follows; any other identifier is unknown. Attributes followed by
/// no annotation are a syntax error.
pub open spec fn sp_annotation(ts: Seq<GToken>, ns: GName, pos: int) -> PStep<GAnn> {
    match sp_attr_list(ts, ns, pos, Seq::empty()) {
        Err(e) => PStep::Fail(e),
        Ok((attrs, p1)) => {
            if !at_kind(ts, p1, TokenKind::AtMark) {
                if attrs.len() > 0 {
                    PStep::Fail(syn(TokenKind::AtMark, kind_at(ts, p1)))
                } else {
                    PStep::Absent
                }
            } else if !at_kind(ts, p1 + 1, TokenKind::Identifier) {
                PStep::Fail(syn(TokenKind::Identifier, kind_at(ts, p1 + 1)))
            } else {
                let id = ts[p1 + 1].id;
                if id == "spawn"@ {
                    match sp_id_type(ts, ns, p1 + 2) {
                        PStep::Absent => PStep::Fail(
                            syn(TokenKind::Identifier, kind_at(ts, p1 + 2)),
                        ),
                        PStep::Fail(e) => PStep::Fail(e),
                        PStep::Found(res, p2) => PStep::Found(
                            GAnn::ASpawn(GSpawn { result: res, details: flatten_uses(attrs) }),
                            p2,
                        ),
                    }
                } else if id == "return"@ {
                    if !at_kind(ts, p1 + 2, TokenKind::Identifier) {
                        PStep::Fail(syn(TokenKind::Identifier, kind_at(ts, p1 + 2)))
                    } else {
                        PStep::Found(GAnn::ARet(g_child(ns, ts[p1 + 2].id)), p1 + 3)
                    }
                } else {
                    PStep::Fail(GErr::UnknownAnnotation { name: id })
                }
            }
        },
    }
}

/// Mirror of the function body: a left fold over the annotations. A second
/// `return` is a duplicate-annotation error; a body with none leaves the
/// return binding `None`, which checking later refuses.
pub open spec fn sp_body(
    ts: Seq<GToken>,
    ns: GName,
    pos: int,
    ret: Option<GName>,
    spawns: Seq<GSpawn>,
) -> Result<((Option<GName>, Seq<GSpawn>), int), GErr>
    decreases ts.len() - pos,
{
    match sp_annotation(ts, ns, pos) {
        PStep::Absent => Ok(((ret, spawns), pos)),
        PStep::Fail(e) => Err(e),
        PStep::Found(GAnn::ARet(n), p2) => {
            if ret is Some {
                Err(GErr::DuplicateAnnotation { which: "return"@, scope: ns })
            } else {
                sp_body(ts, ns, advanced(ts.len() as int, pos, p2), Some(n), spawns)
            }
        },
        PStep::Found(GAnn::ASpawn(s), p2) => sp_body(
            ts,
            ns,
            advanced(ts.len() as int, pos, p2),
            ret,
            spawns.push(s),
        ),
    }
}

/// Mirror of the `function` production.
pub open spec fn sp_function(ts: Seq<GToken>, ns: GName, pos: int) -> PStep<GFunc> {
    if !at_kind(ts, pos, TokenKind::Identifier) {
        PStep::Absent
    } else {
        let fname = g_child(ns, ts[pos].id);
        if !at_kind(ts, pos + 1, TokenKind::ParenthesisBegin) {
            PStep::Fail(syn(TokenKind::ParenthesisBegin, kind_at(ts, pos + 1)))
        } else {
            match sp_field_list(ts, fname, pos + 2, Seq::empty()) {
                Err(e) => PStep::Fail(e),
                Ok((args, p2)) => {
                    if !at_kind(ts, p2, TokenKind::ParenthesisEnd) {
                        PStep::Fail(syn(TokenKind::ParenthesisEnd, kind_at(ts, p2)))
                    } else if !at_kind(ts, p2 + 1, TokenKind::Allow) {
                        PStep::Fail(syn(TokenKind::Allow, kind_at(ts, p2 + 1)))
                    } else if !at_kind(ts, p2 + 2, TokenKind::Identifier) {
                        PStep::Fail(syn(TokenKind::Identifier, kind_at(ts, p2 + 2)))
                    } else {
                        let rtype = g_type_from(fname, ts[p2 + 2].id);
                        if !at_kind(ts, p2 + 3, TokenKind::BracketBegin) {
                            PStep::Fail(syn(TokenKind::BracketBegin, kind_at(ts, p2 + 3)))
                        } else {
                            match sp_body(ts, fname, p2 + 4, None, Seq::empty()) {
                                Err(e) => PStep::Fail(e),
                                Ok(((ret, spawns), p3)) => {
                                    if !at_kind(ts, p3, TokenKind::BracketEnd) {
                                        PStep::Fail(syn(TokenKind::BracketEnd, kind_at(ts, p3)))
                                    } else {
                                        PStep::Found(
                                            GFunc {
                                                name: fname,
                                                args,
                                                returns: match ret {
                                                    Some(n) => Some((n, rtype)),
                                                    None => None,
                                                },
                                                spawns,
                                            },
                                            p3 + 1,
                                        )
                                    }
                                },
                            }
                        }
                    }
                },
            }
        }
    }
}

/// Mirror of an undelimited function list.
pub open spec fn sp_function_list(ts: Seq<GToken>, ns: GName, pos: int, acc: Seq<GFunc>) -> Result<
    (Seq<GFunc>, int),
    GErr,
>
    decreases ts.len() - pos,
{
    match sp_function(ts, ns, pos) {
        PStep::Absent => Ok((acc, pos)),
        PStep::Fail(e) => Err(e),
        PStep::Found(f, p2) => sp_function_list(
            ts,
            ns,
            advanced(ts.len() as int, pos, p2),
            acc.push(f),
        ),
    }
}

/// Mirror of the `data` production.
pub open spec fn sp_data(ts: Seq<GToken>, ns: GName, pos: int) -> PStep<GData> {
    if !at_kind(ts, pos, TokenKind::Data) {
        PStep::Absent
    } else if !at_kind(ts, pos + 1, TokenKind::Identifier) {
        PStep::Fail(syn(TokenKind::Identifier, kind_at(ts, pos + 1)))
    } else {
        let dname = g_child(ns, ts[pos + 1].id);
        if !at_kind(ts, pos + 2, TokenKind::BracketBegin) {
            PStep::Fail(syn(TokenKind::BracketBegin, kind_at(ts, pos + 2)))
        } else {
            match sp_field_list(ts, dname, pos + 3, Seq::empty()) {
                Err(e) => PStep::Fail(e),
                Ok((members, p2)) => {
                    if !at_kind(ts, p2, TokenKind::BracketEnd) {
                        PStep::Fail(syn(TokenKind::BracketEnd, kind_at(ts, p2)))
                    } else {
                        PStep::Found(GData { name: dname, members }, p2 + 1)
                    }
                },
            }
        }
    }
}

/// Mirror of the `module` production.
pub open spec fn sp_module(ts: Seq<GToken>, ns: GName, pos: int) -> PStep<GModule> {
    if !at_kind(ts, pos, TokenKind::Module) {
        PStep::Absent
    } else if !at_kind(ts, pos + 1, TokenKind::Identifier) {
        PStep::Fail(syn(TokenKind::Identifier, kind_at(ts, pos + 1)))
    } else {
        let mname = g_child(ns, ts[pos + 1].id);
        if !at_kind(ts, pos + 2, TokenKind::BracketBegin) {
            PStep::Fail(syn(TokenKind::BracketBegin, kind_at(ts, pos + 2)))
        } else {
            match sp_function_list(ts, mname, pos + 3, Seq::empty()) {
                Err(e) => PStep::Fail(e),
                Ok((functions, p2)) => {
                    if !at_kind(ts, p2, TokenKind::BracketEnd) {
                        PStep::Fail(syn(TokenKind::BracketEnd, kind_at(ts, p2)))
                    } else {
                        PStep::Found(GModule { name: mname, functions }, p2 + 1)
                    }
                },
            }
        }
    }
}

/// Mirror of the whole unit: alternate `data` and `module` until the tokens
/// are exhausted; tokens that begin neither production are a syntax error.
pub open spec fn sp_unit_items(
    ts: Seq<GToken>,
    ns: GName,
    pos: int,
    data: Seq<GData>,
    modules: Seq<GModule>,
) -> Result<(Seq<GData>, Seq<GModule>), GErr>
    decreases ts.len() - pos,
{
    if !(0 <= pos < ts.len()) {
        Ok((data, modules))
    } else {
        match sp_data(ts, ns, pos) {
            PStep::Fail(e) => Err(e),
            PStep::Found(d, p2) => sp_unit_items(
                ts,
                ns,
                advanced(ts.len() as int, pos, p2),
                data.push(d),
                modules,
            ),
            PStep::Absent => match sp_module(ts, ns, pos) {
                PStep::Fail(e) => Err(e),
                PStep::Found(m, p2) => sp_unit_items(
                    ts,
                    ns,
                    advanced(ts.len() as int, pos, p2),
                    data,
                    modules.push(m),
                ),
                PStep::Absent => Err(syn(TokenKind::Data, kind_at(ts, pos))),
            },
        }
    }
}

/// What parsing a whole token stream under `ns` yields: the unchecked unit
/// (with an empty import list), or the first syntax error.
pub open spec fn sp_parse(ts: Seq<GToken>, ns: GName) -> Result<GUnitU, GErr> {
    match sp_unit_items(ts, ns, 0, Seq::empty(), Seq::empty()) {
        Err(e) => Err(e),
        Ok((data, modules)) => Ok(
            GUnitU { name: ns, data, modules, imports: Seq::empty() },
        ),
    }
}

/// The identifier texts of a token run.
pub open spec fn view_strs(v: Seq<String>) -> Seq<Seq<char>> {
    v.map_values(|s: String| s@)
}

/// The model of a parsed attribute list.
pub open spec fn view_attrs(v: Seq<Vec<(Name, Type)>>) -> Seq<Seq<GPair>> {
    v.map_values(|x: Vec<(Name, Type)>| view_pairs(x@))
}

/// The model of a spawn-child vector.
pub open spec fn view_details(v: Seq<SysDCSpawnChild>) -> Seq<GChild> {
    v.map_values(|c: SysDCSpawnChild| c@)
}

/// The model of a spawn vector.
pub open spec fn view_spawns(v: Seq<SysDCSpawn>) -> Seq<GSpawn> {
    v.map_values(|s: SysDCSpawn| s@)
}

/// The model of a data vector.
pub open spec fn view_datas(v: Seq<SysDCData>) -> Seq<GData> {
    v.map_values(|d: SysDCData| d@)
}

/// The model of a module vector.
pub open spec fn view_mods(v: Seq<SysDCModule>) -> Seq<GModule> {
    v.map_values(|m: SysDCModule| m@)
}

/// The model of an optional return binding.
pub open spec fn view_opt_name(o: Option<Name>) -> Option<GName> {
    match o {
        Some(n) => Some(n@),
        None => None,
    }
}

/// The recursive-descent parser: a cursor over a scanned token stream.
pub struct Parser {
    pub tokenizer: Tokenizer,
}

impl Parser {
    /// A parser over the given token stream.
    pub fn new(tokenizer: Tokenizer) -> (r: Parser)
        ensures
            r.tokenizer == tokenizer,
    {
        Parser { tokenizer }
    }

    /// Reads `ID ':' ID` into a named, typed binding under `namespace`.
    fn parse_id_type_mapping_var(&mut self, namespace: &Name) -> (r: PResult<Option<(Name, Type)>>)
        ensures
            final(self).tokenizer.toks() == old(self).tokenizer.toks(),
            old(self).tokenizer.pos <= final(self).tokenizer.pos,
            match sp_id_type(
                old(self).tokenizer.toks(),
                namespace@,
                old(self).tokenizer.pos as int,
            ) {
                PStep::Absent => r matches Ok(o) && o is None && final(self).tokenizer.pos == old(
                    self,
                ).tokenizer.pos,
                PStep::Found(m, p2) => {
                    &&& r matches Ok(o) && (o matches Some(p) && view_pair(p) == m)
                    &&& final(self).tokenizer.pos == p2
                    &&& old(self).tokenizer.pos < final(self).tokenizer.pos <= old(self).tokenizer.toks().len()
                },
                PStep::Fail(e) => r matches Err(pe) && pe@ == e,
            },
    {
        let id1 = match self.tokenizer.expect(TokenKind::Identifier) {
            Some(t) => t,
            None => {
                return Ok(None);
            },
        };
        match self.tokenizer.request(TokenKind::Mapping) {
            Ok(_) => (),
            Err(e) => {
                return Err(e);
            },
        };
        let id2 = match self.tokenizer.request(TokenKind::Identifier) {
            Ok(t) => t,
            Err(e) => {
                return Err(e);
            },
        };
        Ok(Some((Name::new(namespace, id1.get_id()), Type::from(namespace, id2.get_id()))))
    }

    /// Reads a comma-separated field list.
    #[verifier::loop_isolation(false)]
    fn parse_field_list(&mut self, namespace: &Name) -> (r: PResult<Vec<(Name, Type)>>)
        ensures
            final(self).tokenizer.toks() == old(self).tokenizer.toks(),
            old(self).tokenizer.pos <= final(self).tokenizer.pos,
            match sp_field_list(
                old(self).tokenizer.toks(),
                namespace@,
                old(self).tokenizer.pos as int,
                Seq::empty(),
            ) {
                Ok((ms, p2)) => {
                    &&& r matches Ok(v) && view_pairs(v@) == ms
                    &&& final(self).tokenizer.pos == p2
                },
                Err(e) => r matches Err(pe) && pe@ == e,
            },
    {
        let ghost ts = self.tokenizer.toks();
        let ghost p0 = self.tokenizer.pos as int;
        let mut acc: Vec<(Name, Type)> = Vec::new();
        proof {
            assert(view_pairs(acc@) =~= Seq::<GPair>::empty());
        }
        loop
            invariant
                self.tokenizer.toks() == ts,
                p0 <= self.tokenizer.pos,
                sp_field_list(ts, namespace@, p0, Seq::empty()) == sp_field_list(
                    ts,
                    namespace@,
                    self.tokenizer.pos as int,
                    view_pairs(acc@),
                ),
            decreases ts.len() - self.tokenizer.pos,
        {
            let ghost pcur = self.tokenizer.pos as int;
            let ghost accv = view_pairs(acc@);
            let m = match self.parse_id_type_mapping_var(namespace) {
                Ok(Some(m)) => m,
                Ok(None) => {
                    return Ok(acc);
                },
                Err(e) => {
                    return Err(e);
                },
            };
            proof {
                assert(view_pairs(acc@.push(m)) =~= accv.push(view_pair(m)));
            }
            acc.push(m);
            if self.tokenizer.expect(TokenKind::Separater).is_none() {
                return Ok(acc);
            }
        }
    }

    /// Reads a dotted variable reference, if one starts here.
    #[verifier::loop_isolation(false)]
    fn parse_var(&mut self, namespace: &Name) -> (r: Option<(Name, Type)>)
        ensures
            final(self).tokenizer.toks() == old(self).tokenizer.toks(),
            old(self).tokenizer.pos <= final(self).tokenizer.pos,
            match sp_var(old(self).tokenizer.toks(), namespace@, old(self).tokenizer.pos as int) {
                PStep::Absent => r is None && final(self).tokenizer.pos == old(self).tokenizer.pos,
                PStep::Found(v, p2) => {
                    &&& r matches Some(p) && view_pair(p) == v
                    &&& final(self).tokenizer.pos == p2
                    &&& old(self).tokenizer.pos < final(self).tokenizer.pos <= old(self).tokenizer.toks().len()
                },
                PStep::Fail(e) => false,
            },
    {
        let ghost ts = self.tokenizer.toks();
        let ghost p0 = self.tokenizer.pos as int;
        let mut ids: Vec<String> = Vec::new();
        proof {
            assert(view_strs(ids@) =~= Seq::<Seq<char>>::empty());
        }
        let mut done = false;
        while !done
            invariant
                self.tokenizer.toks() == ts,
                p0 <= self.tokenizer.pos,
                !done ==> sp_id_list(ts, p0, Seq::empty()) == sp_id_list(
                    ts,
                    self.tokenizer.pos as int,
                    view_strs(ids@),
                ),
                done ==> sp_id_list(ts, p0, Seq::empty()) == (
                    view_strs(ids@),
                    self.tokenizer.pos as int,
                ),
                ids@.len() > 0 ==> p0 < self.tokenizer.pos <= ts.len(),
                ids@.len() == 0 ==> self.tokenizer.pos == p0,
            decreases ts.len() - self.tokenizer.pos, (if done { 0int } else { 1int }),
        {
            let ghost pcur = self.tokenizer.pos as int;
            let ghost idsv = view_strs(ids@);
            match self.tokenizer.expect(TokenKind::Identifier) {
                Some(t) => {
                    let tid = t.get_id();
                    proof {
                        assert(view_strs(ids@.push(tid)) =~= idsv.push(tid@));
                    }
                    ids.push(tid);
                    if self.tokenizer.expect(TokenKind::Accessor).is_none() {
                        done = true;
                        proof {
                            assert(sp_id_list(ts, pcur, idsv) == (view_strs(ids@), pcur + 1));
                        }
                    }
                },
                None => {
                    done = true;
                    proof {
                        assert(sp_id_list(ts, pcur, idsv) == (idsv, pcur));
                    }
                },
            }
        }
        let ghost gids = sp_id_list(ts, p0, Seq::empty()).0;
        proof {
            assert(gids == view_strs(ids@));
            assert(sp_id_list(ts, p0, Seq::empty()).1 == self.tokenizer.pos as int);
        }
        if ids.len() == 0 {
            return None;
        }
        let mut txt = ids[0].clone();
        let mut k: usize = 1;
        while k < ids.len()
            invariant
                1 <= k <= ids@.len(),
                txt@ == join_dots(view_strs(ids@).take(k as int)),
            decreases ids@.len() - k,
        {
            let ghost before = view_strs(ids@).take(k as int);
            txt.append(".");
            txt.append(ids[k].as_str());
            proof {
                reveal_strlit(".");
                assert("."@ =~= seq!['.']);
                let after = view_strs(ids@).take(k as int + 1);
                assert(after.drop_last() =~= before);
                assert(after.last() == ids@[k as int]@);
                assert(txt@ =~= join_dots(after));
            }
            k += 1;
        }
        proof {
            assert(view_strs(ids@).take(ids@.len() as int) =~= view_strs(ids@));
            if gids.len() == 1 {
                assert(join_dots(gids) == gids[0]);
            }
        }
        Some((Name::new(namespace, txt), Type::UnsolvedNoHint))
    }

    /// Reads a comma-separated `var` list; possibly empty, never an error.
    #[verifier::loop_isolation(false)]
    fn parse_var_list(&mut self, namespace: &Name) -> (r: Vec<(Name, Type)>)
        ensures
            final(self).tokenizer.toks() == old(self).tokenizer.toks(),
            old(self).tokenizer.pos <= final(self).tokenizer.pos,
            ({
                let (vs, p2) = sp_var_list(
                    old(self).tokenizer.toks(),
                    namespace@,
                    old(self).tokenizer.pos as int,
                    Seq::empty(),
                );
                view_pairs(r@) == vs && final(self).tokenizer.pos == p2
            }),
            final(self).tokenizer.pos == old(self).tokenizer.pos || final(self).tokenizer.pos
                <= old(self).tokenizer.toks().len(),
    {
        let ghost ts = self.tokenizer.toks();
        let ghost p0 = self.tokenizer.pos as int;
        let mut acc: Vec<(Name, Type)> = Vec::new();
        proof {
            assert(view_pairs(acc@) =~= Seq::<GPair>::empty());
        }
        loop
            invariant
                self.tokenizer.toks() == ts,
                p0 <= self.tokenizer.pos,
                sp_var_list(ts, namespace@, p0, Seq::empty()) == sp_var_list(
                    ts,
                    namespace@,
                    self.tokenizer.pos as int,
                    view_pairs(acc@),
                ),
                self.tokenizer.pos == p0 || self.tokenizer.pos <= ts.len(),
            decreases ts.len() - self.tokenizer.pos,
        {
            let ghost accv = view_pairs(acc@);
            let v = match self.parse_var(namespace) {
                Some(v) => v,
                None => {
                    return acc;
                },
            };
            proof {
                assert(view_pairs(acc@.push(v)) =~= accv.push(view_pair(v)));
            }
            acc.push(v);
            if self.tokenizer.expect(TokenKind::Separater).is_none() {
                return acc;
            }
        }
    }

    /// Reads one attribute: `'+' ID var-list`; only `use` is known.
    fn parse_attribute(&mut self, namespace: &Name) -> (r: PResult<Option<Vec<(Name, Type)>>>)
        ensures
            final(self).tokenizer.toks() == old(self).tokenizer.toks(),
            old(self).tokenizer.pos <= final(self).tokenizer.pos,
            match sp_attribute(
                old(self).tokenizer.toks(),
                namespace@,
                old(self).tokenizer.pos as int,
            ) {
                PStep::Absent => r matches Ok(o) && o is None && final(self).tokenizer.pos == old(
                    self,
                ).tokenizer.pos,
                PStep::Found(vars, p2) => {
                    &&& r matches Ok(o) && (o matches Some(v) && view_pairs(v@) == vars)
                    &&& final(self).tokenizer.pos == p2
                    &&& old(self).tokenizer.pos < final(self).tokenizer.pos <= old(self).tokenizer.toks().len()
                },
                PStep::Fail(e) => r matches Err(pe) && pe@ == e,
            },
    {
        if self.tokenizer.expect(TokenKind::Plus).is_none() {
            return Ok(None);
        }
        let attr = match self.tokenizer.request(TokenKind::Identifier) {
            Ok(t) => t,
            Err(e) => {
                return Err(e);
            },
        };
        let attr_id = attr.get_id();
        if !attr_id.eq(&"use".to_owned()) {
            return Err(PError::UnknownAttribute { name: attr_id });
        }
        let vars = self.parse_var_list(namespace);
        Ok(Some(vars))
    }

    /// Reads an undelimited attribute list.
    #[verifier::loop_isolation(false)]
    fn parse_attribute_list(&mut self, namespace: &Name) -> (r: PResult<Vec<Vec<(Name, Type)>>>)
        ensures
            final(self).tokenizer.toks() == old(self).tokenizer.toks(),
            old(self).tokenizer.pos <= final(self).tokenizer.pos,
            match sp_attr_list(
                old(self).tokenizer.toks(),
                namespace@,
                old(self).tokenizer.pos as int,
                Seq::empty(),
            ) {
                Ok((attrs, p2)) => {
                    &&& r matches Ok(v) && view_attrs(v@) == attrs
                    &&& final(self).tokenizer.pos == p2
                    &&& attrs.len() == 0 ==> final(self).tokenizer.pos == old(self).tokenizer.pos
                },
                Err(e) => r matches Err(pe) && pe@ == e,
            },
    {
        let ghost ts = self.tokenizer.toks();
        let ghost p0 = self.tokenizer.pos as int;
        let mut acc: Vec<Vec<(Name, Type)>> = Vec::new();
        proof {
            assert(view_attrs(acc@) =~= Seq::<Seq<GPair>>::empty());
        }
        loop
            invariant
                self.tokenizer.toks() == ts,
                p0 <= self.tokenizer.pos,
                sp_attr_list(ts, namespace@, p0, Seq::empty()) == sp_attr_list(
                    ts,
                    namespace@,
                    self.tokenizer.pos as int,
                    view_attrs(acc@),
                ),
                acc@.len() == 0 ==> self.tokenizer.pos == p0,
            decreases ts.len() - self.tokenizer.pos,
        {
            let ghost accv = view_attrs(acc@);
            let vars = match self.parse_attribute(namespace) {
                Ok(Some(v)) => v,
                Ok(None) => {
                    return Ok(acc);
                },
                Err(e) => {
                    return Err(e);
                },
            };
            proof {
                assert(view_attrs(acc@.push(vars)) =~= accv.push(view_pairs(vars@)));
            }
            acc.push(vars);
        }
    }

    /// Reads one annotation: its attributes, then `@` and its identifier.
    #[verifier::loop_isolation(false)]
    fn parse_annotation(&mut self, namespace: &Name) -> (r: PResult<Option<SysDCAnnotation>>)
        ensures
            final(self).tokenizer.toks() == old(self).tokenizer.toks(),
            old(self).tokenizer.pos <= final(self).tokenizer.pos,
            match sp_annotation(
                old(self).tokenizer.toks(),
                namespace@,
                old(self).tokenizer.pos as int,
            ) {
                PStep::Absent => r matches Ok(o) && o is None && final(self).tokenizer.pos == old(
                    self,
                ).tokenizer.pos,
                PStep::Found(ann, p2) => {
                    &&& final(self).tokenizer.pos == p2
                    &&& old(self).tokenizer.pos < final(self).tokenizer.pos <= old(self).tokenizer.toks().len()
                    &&& match ann {
                        GAnn::ARet(n) => r matches Ok(o) && (o matches Some(a) && (
                        a matches SysDCAnnotation::ReturnBind(nm) && nm@ == n)),
                        GAnn::ASpawn(s) => r matches Ok(o) && (o matches Some(a) && (
                        a matches SysDCAnnotation::SpawnItem(sp) && sp@ == s)),
                    }
                },
                PStep::Fail(e) => r matches Err(pe) && pe@ == e,
            },
    {
        let ghost ts = self.tokenizer.toks();
        let ghost p0 = self.tokenizer.pos as int;
        let attrs = match self.parse_attribute_list(namespace) {
            Ok(a) => a,
            Err(e) => {
                return Err(e);
            },
        };
        if self.tokenizer.expect(TokenKind::AtMark).is_none() {
            if attrs.len() > 0 {
                return Err(PError::Syntax {
                    expected: TokenKind::AtMark,
                    found: self.tokenizer.peek(),
                });
            }
            return Ok(None);
        }
        let id_tok = match self.tokenizer.request(TokenKind::Identifier) {
            Ok(t) => t,
            Err(e) => {
                return Err(e);
            },
        };
        let id = id_tok.get_id();
        if id.eq(&"spawn".to_owned()) {
            let res = match self.parse_id_type_mapping_var(namespace) {
                Ok(Some(res)) => res,
                Ok(None) => {
                    return Err(PError::Syntax {
                        expected: TokenKind::Identifier,
                        found: self.tokenizer.peek(),
                    });
                },
                Err(e) => {
                    return Err(e);
                },
            };
            let ghost attrs_full = view_attrs(attrs@);
            let mut details: Vec<SysDCSpawnChild> = Vec::new();
            let mut rest = attrs;
            proof {
                assert(view_details(details@) =~= Seq::<GChild>::empty());
                assert(view_details(details@) + flatten_uses(view_attrs(rest@)) =~= flatten_uses(
                    attrs_full,
                ));
            }
            while rest.len() > 0
                invariant
                    view_details(details@) + flatten_uses(view_attrs(rest@)) == flatten_uses(
                        attrs_full,
                    ),
                decreases rest@.len(),
            {
                let ghost rest_v = view_attrs(rest@);
                let a = rest.remove(0);
                proof {
                    assert(view_attrs(rest@) =~= rest_v.drop_first());
                    assert(view_pairs(a@) == rest_v[0]);
                }
                let ghost dbase = view_details(details@);
                let ghost a_uses = view_pairs(a@).map_values(|p: GPair| GChild::Use(p.0, p.1));
                let ghost a_full = a@;
                let mut avars = a;
                while avars.len() > 0
                    invariant
                        avars@.len() <= a_full.len(),
                        avars@ == a_full.skip(a_full.len() - avars@.len()),
                        a_uses == view_pairs(a_full).map_values(
                            |p: GPair| GChild::Use(p.0, p.1),
                        ),
                        view_details(details@) == dbase + a_uses.take(
                            a_full.len() - avars@.len(),
                        ),
                    decreases avars@.len(),
                {
                    let ghost consumed = a_full.len() - avars@.len();
                    let ghost dv = view_details(details@);
                    let (n, t) = avars.remove(0);
                    proof {
                        assert(avars@ =~= a_full.skip(consumed + 1));
                        assert((n, t) == a_full[consumed]);
                    }
                    details.push(SysDCSpawnChild::new_use(n, t));
                    proof {
                        assert(view_details(details@) =~= dv.push(
                            GChild::Use(a_full[consumed].0@, a_full[consumed].1@),
                        ));
                        assert(a_uses.take(consumed + 1) =~= a_uses.take(consumed).push(
                            a_uses[consumed],
                        ));
                        assert(a_uses[consumed] == GChild::Use(
                            view_pairs(a_full)[consumed].0,
                            view_pairs(a_full)[consumed].1,
                        ));
                    }
                }
                proof {
                    assert(a_uses.take(a_full.len() as int) =~= a_uses);
                    assert(flatten_uses(rest_v) == a_uses + flatten_uses(rest_v.drop_first()));
                    assert(view_details(details@) + flatten_uses(view_attrs(rest@))
                        =~= dbase + (a_uses + flatten_uses(rest_v.drop_first())));
                }
            }
            proof {
                assert(view_attrs(rest@) =~= Seq::<Seq<GPair>>::empty());
                assert(view_details(details@) + Seq::<GChild>::empty() =~= view_details(
                    details@,
                ));
            }
            let ghost dv_done = view_details(details@);
            let spawn = SysDCSpawn::new(res, details);
            proof {
                assert(spawn@.details =~= dv_done);
            }
            return Ok(Some(SysDCAnnotation::SpawnItem(spawn)));
        }
        if id.eq(&"return".to_owned()) {
            let ret_tok = match self.tokenizer.request(TokenKind::Identifier) {
                Ok(t) => t,
                Err(e) => {
                    return Err(e);
                },
            };
            return Ok(Some(SysDCAnnotation::ReturnBind(Name::new(namespace, ret_tok.get_id()))));
        }
        Err(PError::UnknownAnnotation { name: id })
    }

    /// Reads a function body: all its annotations, folded into the return
    /// binding and the spawns. A second `return` is refused here.
    #[verifier::loop_isolation(false)]
    fn parse_function_body(&mut self, namespace: &Name) -> (r: PResult<
        (Option<Name>, Vec<SysDCSpawn>),
    >)
        ensures
            final(self).tokenizer.toks() == old(self).tokenizer.toks(),
            old(self).tokenizer.pos <= final(self).tokenizer.pos,
            match sp_body(
                old(self).tokenizer.toks(),
                namespace@,
                old(self).tokenizer.pos as int,
                None,
                Seq::empty(),
            ) {
                Ok((out, p2)) => {
                    &&& r matches Ok(pair) && view_opt_name(pair.0) == out.0 && view_spawns(
                        pair.1@,
                    ) == out.1
                    &&& final(self).tokenizer.pos == p2
                },
                Err(e) => r matches Err(pe) && pe@ == e,
            },
    {
        let ghost ts = self.tokenizer.toks();
        let ghost p0 = self.tokenizer.pos as int;
        let mut ret: Option<Name> = None;
        let mut spawns: Vec<SysDCSpawn> = Vec::new();
        proof {
            assert(view_spawns(spawns@) =~= Seq::<GSpawn>::empty());
        }
        loop
            invariant
                self.tokenizer.toks() == ts,
                p0 <= self.tokenizer.pos,
                sp_body(ts, namespace@, p0, None, Seq::empty()) == sp_body(
                    ts,
                    namespace@,
                    self.tokenizer.pos as int,
                    view_opt_name(ret),
                    view_spawns(spawns@),
                ),
            decreases ts.len() - self.tokenizer.pos,
        {
            let ghost spv = view_spawns(spawns@);
            let ann = match self.parse_annotation(namespace) {
                Ok(Some(a)) => a,
                Ok(None) => {
                    return Ok((ret, spawns));
                },
                Err(e) => {
                    return Err(e);
                },
            };
            match ann {
                SysDCAnnotation::ReturnBind(n) => {
                    if ret.is_some() {
                        proof {
                            reveal_strlit("return");
                        }
                        return Err(PError::DuplicateAnnotation {
                            which: "return".to_owned(),
                            scope: namespace.clone(),
                        });
                    }
                    ret = Some(n);
                },
                SysDCAnnotation::SpawnItem(s) => {
                    let ghost sv = s@;
                    proof {
                        assert(view_spawns(spawns@.push(s)) =~= spv.push(sv));
                    }
                    spawns.push(s);
                },
            }
        }
    }

    /// Reads one function definition, if one starts here.
    fn parse_function(&mut self, namespace: &Name) -> (r: PResult<Option<SysDCFunction>>)
        ensures
            final(self).tokenizer.toks() == old(self).tokenizer.toks(),
            old(self).tokenizer.pos <= final(self).tokenizer.pos,
            match sp_function(
                old(self).tokenizer.toks(),
                namespace@,
                old(self).tokenizer.pos as int,
            ) {
                PStep::Absent => r matches Ok(o) && o is None && final(self).tokenizer.pos == old(
                    self,
                ).tokenizer.pos,
                PStep::Found(f, p2) => {
                    &&& r matches Ok(o) && (o matches Some(ff) && ff@ == f)
                    &&& final(self).tokenizer.pos == p2
                    &&& old(self).tokenizer.pos < final(self).tokenizer.pos <= old(self).tokenizer.toks().len()
                },
                PStep::Fail(e) => r matches Err(pe) && pe@ == e,
            },
    {
        let name_tok = match self.tokenizer.expect(TokenKind::Identifier) {
            Some(t) => t,
            None => {
                return Ok(None);
            },
        };
        let name = Name::new(namespace, name_tok.get_id());
        match self.tokenizer.request(TokenKind::ParenthesisBegin) {
            Ok(_) => (),
            Err(e) => {
                return Err(e);
            },
        };
        let args = match self.parse_field_list(&name) {
            Ok(a) => a,
            Err(e) => {
                return Err(e);
            },
        };
        match self.tokenizer.request(TokenKind::ParenthesisEnd) {
            Ok(_) => (),
            Err(e) => {
                return Err(e);
            },
        };
        match self.tokenizer.request(TokenKind::Allow) {
            Ok(_) => (),
            Err(e) => {
                return Err(e);
            },
        };
        let rtok = match self.tokenizer.request(TokenKind::Identifier) {
            Ok(t) => t,
            Err(e) => {
                return Err(e);
            },
        };
        let rtype = Type::from(&name, rtok.get_id());
        match self.tokenizer.request(TokenKind::BracketBegin) {
            Ok(_) => (),
            Err(e) => {
                return Err(e);
            },
        };
        let (ret, spawns) = match self.parse_function_body(&name) {
            Ok(p) => p,
            Err(e) => {
                return Err(e);
            },
        };
        match self.tokenizer.request(TokenKind::BracketEnd) {
            Ok(_) => (),
            Err(e) => {
                return Err(e);
            },
        };
        let ghost sv_done = view_spawns(spawns@);
        let func = match ret {
            Some(rname) => SysDCFunction::new(name, args, (rname, rtype), spawns),
            None => SysDCFunction { name, args, returns: None, spawns },
        };
        proof {
            assert(func@.spawns =~= sv_done);
        }
        Ok(Some(func))
    }

    /// Reads one `data` declaration, if one starts here.
    fn parse_data(&mut self, namespace: &Name) -> (r: PResult<Option<SysDCData>>)
        ensures
            final(self).tokenizer.toks() == old(self).tokenizer.toks(),
            old(self).tokenizer.pos <= final(self).tokenizer.pos,
            match sp_data(old(self).tokenizer.toks(), namespace@, old(self).tokenizer.pos as int) {
                PStep::Absent => r matches Ok(o) && o is None && final(self).tokenizer.pos == old(
                    self,
                ).tokenizer.pos,
                PStep::Found(d, p2) => {
                    &&& r matches Ok(o) && (o matches Some(dd) && dd@ == d)
                    &&& final(self).tokenizer.pos == p2
                    &&& old(self).tokenizer.pos < final(self).tokenizer.pos <= old(self).tokenizer.toks().len()
                },
                PStep::Fail(e) => r matches Err(pe) && pe@ == e,
            },
    {
        if self.tokenizer.expect(TokenKind::Data).is_none() {
            return Ok(None);
        }
        let name_tok = match self.tokenizer.request(TokenKind::Identifier) {
            Ok(t) => t,
            Err(e) => {
                return Err(e);
            },
        };
        let name = Name::new(namespace, name_tok.get_id());
        match self.tokenizer.request(TokenKind::BracketBegin) {
            Ok(_) => (),
            Err(e) => {
                return Err(e);
            },
        };
        let members = match self.parse_field_list(&name) {
            Ok(ms) => ms,
            Err(e) => {
                return Err(e);
            },
        };
        match self.tokenizer.request(TokenKind::BracketEnd) {
            Ok(_) => (),
            Err(e) => {
                return Err(e);
            },
        };
        Ok(Some(SysDCData::new(name, members)))
    }

    /// Reads one `module` declaration, if one starts here.
    #[verifier::loop_isolation(false)]
    fn parse_module(&mut self, namespace: &Name) -> (r: PResult<Option<SysDCModule>>)
        ensures
            final(self).tokenizer.toks() == old(self).tokenizer.toks(),
            old(self).tokenizer.pos <= final(self).tokenizer.pos,
            match sp_module(
                old(self).tokenizer.toks(),
                namespace@,
                old(self).tokenizer.pos as int,
            ) {
                PStep::Absent => r matches Ok(o) && o is None && final(self).tokenizer.pos == old(
                    self,
                ).tokenizer.pos,
                PStep::Found(m, p2) => {
                    &&& r matches Ok(o) && (o matches Some(mm) && mm@ == m)
                    &&& final(self).tokenizer.pos == p2
                    &&& old(self).tokenizer.pos < final(self).tokenizer.pos <= old(self).tokenizer.toks().len()
                },
                PStep::Fail(e) => r matches Err(pe) && pe@ == e,
            },
    {
        if self.tokenizer.expect(TokenKind::Module).is_none() {
            return Ok(None);
        }
        let name_tok = match self.tokenizer.request(TokenKind::Identifier) {
            Ok(t) => t,
            Err(e) => {
                return Err(e);
            },
        };
        let name = Name::new(namespace, name_tok.get_id());
        match self.tokenizer.request(TokenKind::BracketBegin) {
            Ok(_) => (),
            Err(e) => {
                return Err(e);
            },
        };
        let ghost ts = self.tokenizer.toks();
        let ghost pfn = self.tokenizer.pos as int;
        let mut functions: Vec<SysDCFunction> = Vec::new();
        proof {
            assert(functions@.map_values(|f: SysDCFunction| f@) =~= Seq::<GFunc>::empty());
        }
        while self.tokenizer.check(TokenKind::Identifier)
            invariant
                self.tokenizer.toks() == ts,
                pfn <= self.tokenizer.pos,
                sp_function_list(ts, name@, pfn, Seq::empty()) == sp_function_list(
                    ts,
                    name@,
                    self.tokenizer.pos as int,
                    functions@.map_values(|f: SysDCFunction| f@),
                ),
            decreases ts.len() - self.tokenizer.pos,
        {
            let ghost pcur = self.tokenizer.pos as int;
            let ghost fv = functions@.map_values(|f: SysDCFunction| f@);
            let f = match self.parse_function(&name) {
                Ok(Some(f)) => f,
                Ok(None) => {
                    proof {
                        assert(false);
                    }
                    return Err(PError::Syntax {
                        expected: TokenKind::Identifier,
                        found: None,
                    });
                },
                Err(e) => {
                    return Err(e);
                },
            };
            let ghost fview = f@;
            proof {
                assert(functions@.push(f).map_values(|f: SysDCFunction| f@) =~= fv.push(fview));
            }
            functions.push(f);
        }
        proof {
            let pend = self.tokenizer.pos as int;
            let fv_end = functions@.map_values(|f: SysDCFunction| f@);
            assert(sp_function_list(ts, name@, pend, fv_end) == Ok::<_, GErr>((fv_end, pend)));
        }
        match self.tokenizer.request(TokenKind::BracketEnd) {
            Ok(_) => (),
            Err(e) => {
                return Err(e);
            },
        };
        let ghost fv_done = functions@.map_values(|f: SysDCFunction| f@);
        let md = SysDCModule::new(name, functions);
        proof {
            assert(md@.functions =~= fv_done);
        }
        Ok(Some(md))
    }

    /// Parses a whole unit under the given namespace: its data and module
    /// declarations in order, with an empty import list. Tokens that begin
    /// neither declaration are a syntax error.
    #[verifier::loop_isolation(false)]
    pub fn parse(&mut self, namespace: &Name) -> (r: PResult<SysDCUnit>)
        ensures
            final(self).tokenizer.toks() == old(self).tokenizer.toks(),
            match sp_unit_items(
                old(self).tokenizer.toks(),
                namespace@,
                old(self).tokenizer.pos as int,
                Seq::empty(),
                Seq::empty(),
            ) {
                Ok((ds, ms)) => r matches Ok(u) && u@ == (GUnitU {
                    name: namespace@,
                    data: ds,
                    modules: ms,
                    imports: Seq::empty(),
                }),
                Err(e) => r matches Err(pe) && pe@ == e,
            },
    {
        let ghost ts = self.tokenizer.toks();
        let ghost p0 = self.tokenizer.pos as int;
        let mut data: Vec<SysDCData> = Vec::new();
        let mut modules: Vec<SysDCModule> = Vec::new();
        proof {
            assert(view_datas(data@) =~= Seq::<GData>::empty());
            assert(view_mods(modules@) =~= Seq::<GModule>::empty());
        }
        while self.tokenizer.has_token()
            invariant
                self.tokenizer.toks() == ts,
                p0 <= self.tokenizer.pos,
                sp_unit_items(ts, namespace@, p0, Seq::empty(), Seq::empty()) == sp_unit_items(
                    ts,
                    namespace@,
                    self.tokenizer.pos as int,
                    view_datas(data@),
                    view_mods(modules@),
                ),
            decreases ts.len() - self.tokenizer.pos,
        {
            let ghost dv = view_datas(data@);
            let ghost mv = view_mods(modules@);
            match self.parse_data(namespace) {
                Ok(Some(d)) => {
                    let ghost dview = d@;
                    proof {
                        assert(view_datas(data@.push(d)) =~= dv.push(dview));
                    }
                    data.push(d);
                },
                Ok(None) => {
                    match self.parse_module(namespace) {
                        Ok(Some(m)) => {
                            let ghost mview = m@;
                            proof {
                                assert(view_mods(modules@.push(m)) =~= mv.push(mview));
                            }
                            modules.push(m);
                        },
                        Ok(None) => {
                            return Err(PError::Syntax {
                                expected: TokenKind::Data,
                                found: self.tokenizer.peek(),
                            });
                        },
                        Err(e) => {
                            return Err(e);
                        },
                    }
                },
                Err(e) => {
                    return Err(e);
                },
            }
        }
        let ghost dv_done = view_datas(data@);
        let ghost mv_done = view_mods(modules@);
        let no_imports: Vec<Name> = Vec::new();
        let unit = SysDCUnit::new(namespace.clone(), data, modules, no_imports);
        proof {
            assert(unit@.imports =~= Seq::<GName>::empty());
            assert(unit@.data =~= dv_done);
            assert(unit@.modules =~= mv_done);
        }
        Ok(unit)
    }
}

} // verus!
