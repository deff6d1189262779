//! The L1 to L0 desugaring pass.
//!
//! The pass walks the surface tree with an identifier-to-dimension map, a set
//! of name-parameter identifiers, and a wheredim occurrence counter. It
//! assigns a dimension to every dimension-bearing identifier, rewrites
//! identifier uses accordingly, lowers the three parameter flavours onto base
//! and value abstractions, and collects the quantifier dimensions of the
//! wheredim occurrences so the driver can seed them.

use vstd::prelude::*;

use crate::domain::Domain;
use crate::evaluator::Error;
use crate::expression::{
    BaseApplication, ContextExpression, DimensionExpression, DimExprList, Expression, ExprList,
    IfExpression, IntensionExpression, PerturbExpression, TupleExpression, TupleExprList,
    ValueApplication, WhereDimExpression, WhereVarExpression,
};
use crate::expression::{BaseAbstraction, FunctionApplication, ValueAbstraction};
use crate::environment::Environment;
use crate::l1::{
    L1BaseAbstraction, L1DefList, L1DimDeclList, L1Expression, L1ExprList, L1FunctionDeclaration,
    L1NameAbstraction, L1TupleList, L1ValueAbstraction,
};
use crate::name::Name;
use crate::value::{Dimension, DimList, Value};

verus! {

/// One binding of the identifier-to-dimension map.
#[derive(Debug, PartialEq, Eq)]
pub struct DimBinding {
    pub id: Name,
    pub dim: Dimension,
}

#[derive(Debug, PartialEq, Eq)]
pub enum DimMapList {
    Nil,
    Cons(Box<DimBinding>, Box<DimMapList>),
}

/// The identifier-to-dimension map of the desugarer. The newest binding of an
/// identifier shadows older ones.
#[derive(Debug, PartialEq, Eq)]
pub struct DimMap(pub DimMapList);

impl DimMap {
    pub fn new() -> (r: DimMap)
        ensures
            r == DimMap(DimMapList::Nil),
    {
        DimMap(DimMapList::Nil)
    }

    pub open spec fn spec_lookup(self, id: Name) -> Option<Dimension>
        decreases self.0,
    {
        match self.0 {
            DimMapList::Nil => None,
            DimMapList::Cons(h, t) => if h.id == id {
                Some(h.dim)
            } else {
                DimMap(*t).spec_lookup(id)
            },
        }
    }

    pub fn lookup(&self, id: &Name) -> (r: Option<Dimension>)
        ensures
            r == self.spec_lookup(*id),
    {
        dim_map_lookup_in(&self.0, id)
    }

    pub open spec fn spec_insert(self, id: Name, dim: Dimension) -> DimMap {
        DimMap(DimMapList::Cons(Box::new(DimBinding { id, dim }), Box::new(self.0)))
    }

    pub fn insert(&mut self, id: Name, dim: Dimension)
        ensures
            *final(self) == old(self).spec_insert(id, dim),
    {
        let mut list = DimMapList::Nil;
        core::mem::swap(&mut list, &mut self.0);
        self.0 = DimMapList::Cons(Box::new(DimBinding { id, dim }), Box::new(list));
    }

    pub fn dup(&self) -> (r: DimMap)
        ensures
            r == *self,
    {
        DimMap(dim_map_dup(&self.0))
    }
}

fn dim_map_lookup_in(list: &DimMapList, id: &Name) -> (r: Option<Dimension>)
    ensures
        r == DimMap(*list).spec_lookup(*id),
    decreases *list,
{
    match list {
        DimMapList::Nil => None,
        DimMapList::Cons(h, t) => {
            if h.id.eq_name(id) {
                Some(h.dim.dup())
            } else {
                dim_map_lookup_in(t, id)
            }
        },
    }
}

fn dim_map_dup(list: &DimMapList) -> (r: DimMapList)
    ensures
        r == *list,
    decreases *list,
{
    match list {
        DimMapList::Nil => DimMapList::Nil,
        DimMapList::Cons(h, t) => DimMapList::Cons(
            Box::new(DimBinding { id: h.id.dup(), dim: h.dim.dup() }),
            Box::new(dim_map_dup(t)),
        ),
    }
}

#[derive(Debug, PartialEq, Eq)]
pub enum NameList {
    Nil,
    Cons(Box<Name>, Box<NameList>),
}

/// The set of identifiers known to be name parameters.
#[derive(Debug, PartialEq, Eq)]
pub struct NameSet(pub NameList);

impl NameSet {
    pub fn new() -> (r: NameSet)
        ensures
            r == NameSet(NameList::Nil),
    {
        NameSet(NameList::Nil)
    }

    pub open spec fn spec_has(self, id: Name) -> bool
        decreases self.0,
    {
        match self.0 {
            NameList::Nil => false,
            NameList::Cons(h, t) => *h == id || NameSet(*t).spec_has(id),
        }
    }

    pub fn contains(&self, id: &Name) -> (r: bool)
        ensures
            r == self.spec_has(*id),
    {
        name_set_has_in(&self.0, id)
    }

    pub open spec fn spec_insert(self, id: Name) -> NameSet {
        if self.spec_has(id) {
            self
        } else {
            NameSet(NameList::Cons(Box::new(id), Box::new(self.0)))
        }
    }

    pub fn insert(&mut self, id: Name)
        ensures
            *final(self) == old(self).spec_insert(id),
    {
        if !self.contains(&id) {
            let mut list = NameList::Nil;
            core::mem::swap(&mut list, &mut self.0);
            self.0 = NameList::Cons(Box::new(id), Box::new(list));
        }
    }

    pub fn dup(&self) -> (r: NameSet)
        ensures
            r == *self,
    {
        NameSet(name_list_dup(&self.0))
    }
}

fn name_set_has_in(list: &NameList, id: &Name) -> (r: bool)
    ensures
        r == NameSet(*list).spec_has(*id),
    decreases *list,
{
    match list {
        NameList::Nil => false,
        NameList::Cons(h, t) => h.eq_name(id) || name_set_has_in(t, id),
    }
}

fn name_list_dup(list: &NameList) -> (r: NameList)
    ensures
        r == *list,
    decreases *list,
{
    match list {
        NameList::Nil => NameList::Nil,
        NameList::Cons(h, t) => NameList::Cons(Box::new(h.dup()), Box::new(name_list_dup(t))),
    }
}

/// The identifier tagging the quantifier dimension of every wheredim.
pub open spec fn phi_name() -> Name {
    Name::Ch(0xcf, Box::new(Name::Ch(0x86, Box::new(Name::Nil))))
}

/// The outcome of one desugaring step: the rewritten expression and the
/// quantifier dimensions collected so far, together with the map and the name
/// set as they stand afterwards.
#[derive(Debug, PartialEq, Eq)]
pub struct DsStep {
    pub res: Result<(Expression, Domain), Error>,
    pub dims: DimMap,
    pub names: NameSet,
}

#[derive(Debug, PartialEq, Eq)]
pub struct DsListStep {
    pub res: Result<(ExprList, Domain), Error>,
    pub dims: DimMap,
    pub names: NameSet,
}

#[derive(Debug, PartialEq, Eq)]
pub struct DsTuplesStep {
    pub res: Result<(TupleExprList, Domain), Error>,
    pub dims: DimMap,
    pub names: NameSet,
}

#[derive(Debug, PartialEq, Eq)]
pub struct DsDefsStep {
    pub res: Result<(Environment, Domain), Error>,
    pub dims: DimMap,
    pub names: NameSet,
}

#[derive(Debug, PartialEq, Eq)]
pub struct DsDeclsStep {
    pub res: Result<(DimExprList, Domain), Error>,
    pub dims: DimMap,
    pub names: NameSet,
}

/// Fresh dimensions for a parameter list, all carrying index 0, each
/// registered in the map (shadowing any prior binding of the identifier).
/// Every parameter must be a plain identifier.
pub open spec fn spec_gen_dims0(params: L1ExprList, m: DimMap) -> Result<(DimList, DimMap), Error>
    decreases params,
{
    match params {
        L1ExprList::Nil => Ok((DimList::Nil, m)),
        L1ExprList::Cons(h, t) => match *h {
            L1Expression::Identifier(id) => {
                let di = Dimension { i: 0, v: Value::Identifier(id) };
                match spec_gen_dims0(*t, m.spec_insert(id, di)) {
                    Ok((dims, m2)) => Ok((DimList::Cons(Box::new(di), Box::new(dims)), m2)),
                    Err(er) => Err(er),
                }
            },
            _ => Err(Error::ExpectedIdentifier),
        },
    }
}

/// Fresh dimensions for a parameter list with ascending indices, each
/// registered in the map.
pub open spec fn spec_gen_dims_indexed(params: L1ExprList, i: u32, m: DimMap) -> Result<
    (DimList, DimMap),
    Error,
>
    decreases params,
{
    match params {
        L1ExprList::Nil => Ok((DimList::Nil, m)),
        L1ExprList::Cons(h, t) => match *h {
            L1Expression::Identifier(id) => {
                let di = Dimension { i, v: Value::Identifier(id) };
                match spec_gen_dims_indexed(
                    *t,
                    vstd::wrapping::u32_specs::wrapping_add(i, 1),
                    m.spec_insert(id, di),
                ) {
                    Ok((dims, m2)) => Ok((DimList::Cons(Box::new(di), Box::new(dims)), m2)),
                    Err(er) => Err(er),
                }
            },
            _ => Err(Error::ExpectedIdentifier),
        },
    }
}

/// Fresh dimensions for a name-parameter list, all carrying index 0; the
/// identifiers are added to the name set instead of the dimension map.
pub open spec fn spec_gen_name_dims(params: L1ExprList, n: NameSet) -> Result<
    (DimList, NameSet),
    Error,
>
    decreases params,
{
    match params {
        L1ExprList::Nil => Ok((DimList::Nil, n)),
        L1ExprList::Cons(h, t) => match *h {
            L1Expression::Identifier(id) => {
                let di = Dimension { i: 0, v: Value::Identifier(id) };
                match spec_gen_name_dims(*t, n.spec_insert(id)) {
                    Ok((dims, n2)) => Ok((DimList::Cons(Box::new(di), Box::new(dims)), n2)),
                    Err(er) => Err(er),
                }
            },
            _ => Err(Error::ExpectedIdentifier),
        },
    }
}

/// One desugaring step. `m` maps identifiers to their assigned dimensions,
/// `n` is the set of name-parameter identifiers, `q` the wheredim occurrence
/// counter, and `qd` the quantifier dimensions collected so far.
pub open spec fn desugar_spec(x: L1Expression, m: DimMap, n: NameSet, q: u32, qd: Domain) -> DsStep
    decreases x,
{
    match x {
        L1Expression::Literal(lit) => DsStep {
            res: Ok((Expression::Literal(lit), qd)),
            dims: m,
            names: n,
        },
        L1Expression::Operator(id) => DsStep {
            res: Ok((Expression::Operator(id), qd)),
            dims: m,
            names: n,
        },
        L1Expression::Identifier(id) => match m.spec_lookup(id) {
            Some(di) => DsStep { res: Ok((Expression::Dimension(di), qd)), dims: m, names: n },
            None => if n.spec_has(id) {
                DsStep {
                    res: Ok(
                        (
                            Expression::IntensionApplication(
                                Box::new(
                                    Expression::Dimension(
                                        Dimension { i: 0, v: Value::Identifier(id) },
                                    ),
                                ),
                            ),
                            qd,
                        ),
                    ),
                    dims: m,
                    names: n,
                }
            } else {
                DsStep { res: Ok((Expression::Identifier(id), qd)), dims: m, names: n }
            },
        },
        L1Expression::Sequence(list) => {
            let s = ds_seq_spec(list, m, n, q, qd);
            match s.res {
                Ok((exprs, qd2)) => DsStep {
                    res: Ok((Expression::Sequence(exprs), qd2)),
                    dims: s.dims,
                    names: s.names,
                },
                Err(er) => DsStep { res: Err(er), dims: s.dims, names: s.names },
            }
        },
        L1Expression::TupleBuilder(list) => {
            let s = ds_tuples_spec(list, m, n, q, qd);
            match s.res {
                Ok((pairs, qd2)) => DsStep {
                    res: Ok((Expression::TupleBuilder(pairs), qd2)),
                    dims: s.dims,
                    names: s.names,
                },
                Err(er) => DsStep { res: Err(er), dims: s.dims, names: s.names },
            }
        },
        L1Expression::Application(list) => match list {
            L1ExprList::Nil => DsStep { res: Err(Error::UnexpectedForm), dims: m, names: n },
            L1ExprList::Cons(op, args) => {
                let s0 = desugar_spec(*op, m, n, q, qd);
                match s0.res {
                    Err(er) => DsStep { res: Err(er), dims: s0.dims, names: s0.names },
                    Ok((op2, qd1)) => {
                        let s1 = ds_seq_spec(*args, s0.dims, s0.names, q, qd1);
                        match s1.res {
                            Err(er) => DsStep { res: Err(er), dims: s1.dims, names: s1.names },
                            Ok((args2, qd2)) => DsStep {
                                res: Ok(
                                    (
                                        Expression::Application(
                                            ExprList::Cons(Box::new(op2), Box::new(args2)),
                                        ),
                                        qd2,
                                    ),
                                ),
                                dims: s1.dims,
                                names: s1.names,
                            },
                        }
                    },
                }
            },
        },
        L1Expression::If(ife) => {
            let s0 = desugar_spec(ife.condition, m, n, q, qd);
            match s0.res {
                Err(er) => DsStep { res: Err(er), dims: s0.dims, names: s0.names },
                Ok((c2, qd1)) => {
                    let s1 = desugar_spec(ife.consequent, s0.dims, s0.names, q, qd);
                    match s1.res {
                        Err(er) => DsStep { res: Err(er), dims: s1.dims, names: s1.names },
                        Ok((t2, qd2)) => {
                            let s2 = desugar_spec(ife.alternate, s1.dims, s1.names, q, qd);
                            match s2.res {
                                Err(er) => DsStep { res: Err(er), dims: s2.dims, names: s2.names },
                                Ok((a2, qd3)) => DsStep {
                                    res: Ok(
                                        (
                                            Expression::If(
                                                Box::new(
                                                    IfExpression {
                                                        condition: c2,
                                                        consequent: t2,
                                                        alternate: a2,
                                                    },
                                                ),
                                            ),
                                            qd.spec_union(qd1.spec_union(qd2).spec_union(qd3)),
                                        ),
                                    ),
                                    dims: s2.dims,
                                    names: s2.names,
                                },
                            }
                        },
                    }
                },
            }
        },
        L1Expression::WhereVar(wv) => {
            let s0 = ds_defs_spec(wv.rhs.0, m, n, q, qd, Environment(crate::environment::DefList::Nil));
            match s0.res {
                Err(er) => DsStep { res: Err(er), dims: s0.dims, names: s0.names },
                Ok((env2, qd1)) => {
                    let s1 = desugar_spec(wv.lhs, s0.dims, s0.names, q, qd1);
                    match s1.res {
                        Err(er) => DsStep { res: Err(er), dims: s1.dims, names: s1.names },
                        Ok((lhs2, qd2)) => DsStep {
                            res: Ok(
                                (
                                    Expression::WhereVar(
                                        Box::new(WhereVarExpression { lhs: lhs2, rhs: env2 }),
                                    ),
                                    qd2,
                                ),
                            ),
                            dims: s1.dims,
                            names: s1.names,
                        },
                    }
                },
            }
        },
        L1Expression::Query(e0) => {
            let s0 = desugar_spec(*e0, m, n, q, qd);
            match s0.res {
                Err(er) => DsStep { res: Err(er), dims: s0.dims, names: s0.names },
                Ok((e2, qd1)) => DsStep {
                    res: Ok((Expression::Query(Box::new(e2)), qd1)),
                    dims: s0.dims,
                    names: s0.names,
                },
            }
        },
        L1Expression::Perturb(p) => {
            let s0 = desugar_spec(p.lhs, m, n, q, qd);
            match s0.res {
                Err(er) => DsStep { res: Err(er), dims: s0.dims, names: s0.names },
                Ok((lhs2, qd1)) => {
                    let s1 = desugar_spec(p.rhs, s0.dims, s0.names, q, qd);
                    match s1.res {
                        Err(er) => DsStep { res: Err(er), dims: s1.dims, names: s1.names },
                        Ok((rhs2, qd2)) => DsStep {
                            res: Ok(
                                (
                                    Expression::Perturb(
                                        Box::new(PerturbExpression { lhs: lhs2, rhs: rhs2 }),
                                    ),
                                    qd1.spec_union(qd2),
                                ),
                            ),
                            dims: s1.dims,
                            names: s1.names,
                        },
                    }
                },
            }
        },
        L1Expression::FunctionApplication(fa) => {
            let s0 = desugar_spec(fa.lhs, m, n, q, qd);
            match s0.res {
                Err(er) => DsStep { res: Err(er), dims: s0.dims, names: s0.names },
                Ok((lhs2, qd0)) => match lhs2 {
                    Expression::Identifier(id) => {
                        let s1 = ds_seq_spec(fa.base_args, s0.dims, s0.names, q, qd0);
                        match s1.res {
                            Err(er) => DsStep { res: Err(er), dims: s1.dims, names: s1.names },
                            Ok((base2, qd1)) => {
                                let s2 = ds_seq_spec(fa.value_args, s1.dims, s1.names, q, qd1);
                                match s2.res {
                                    Err(er) => DsStep {
                                        res: Err(er),
                                        dims: s2.dims,
                                        names: s2.names,
                                    },
                                    Ok((value2, qd2)) => {
                                        let s3 = ds_wrapped_args_spec(
                                            fa.name_args,
                                            s2.dims,
                                            s2.names,
                                            q,
                                            qd2,
                                        );
                                        match s3.res {
                                            Err(er) => DsStep {
                                                res: Err(er),
                                                dims: s3.dims,
                                                names: s3.names,
                                            },
                                            Ok((name2, qd3)) => DsStep {
                                                res: Ok(
                                                    (
                                                        Expression::FunctionApplication(
                                                            Box::new(
                                                                FunctionApplication {
                                                                    id,
                                                                    base_args: base2,
                                                                    value_args: exprs_append(
                                                                        value2,
                                                                        name2,
                                                                    ),
                                                                },
                                                            ),
                                                        ),
                                                        qd3,
                                                    ),
                                                ),
                                                dims: s3.dims,
                                                names: s3.names,
                                            },
                                        }
                                    },
                                }
                            },
                        }
                    },
                    _ => DsStep { res: Err(Error::ExpectedIdentifier), dims: s0.dims, names: s0.names },
                },
            }
        },
        L1Expression::BaseAbstraction(ba) => {
            match spec_gen_dims_indexed(ba.formal_parameters, 0, m) {
                Err(er) => DsStep { res: Err(er), dims: m, names: n },
                Ok((dims, m2)) => {
                    let s0 = desugar_spec(ba.body, m2, n, q, qd);
                    match s0.res {
                        Err(er) => DsStep { res: Err(er), dims: s0.dims, names: s0.names },
                        Ok((body2, qd1)) => DsStep {
                            res: Ok(
                                (
                                    Expression::BaseAbstraction(
                                        Box::new(
                                            BaseAbstraction { dimensions: dims, body: body2 },
                                        ),
                                    ),
                                    qd1,
                                ),
                            ),
                            dims: s0.dims,
                            names: s0.names,
                        },
                    }
                },
            }
        },
        L1Expression::BaseApplication(ba) => {
            let s0 = desugar_spec(ba.lhs, m, n, q, qd);
            match s0.res {
                Err(er) => DsStep { res: Err(er), dims: s0.dims, names: s0.names },
                Ok((lhs2, qd0)) => {
                    let s1 = desugar_spec(ba.rhs, s0.dims, s0.names, q, qd0);
                    match s1.res {
                        Err(er) => DsStep { res: Err(er), dims: s1.dims, names: s1.names },
                        Ok((arg2, qd1)) => DsStep {
                            res: Ok(
                                (
                                    Expression::BaseApplication(
                                        Box::new(
                                            BaseApplication {
                                                lhs: lhs2,
                                                args: ExprList::Cons(
                                                    Box::new(arg2),
                                                    Box::new(ExprList::Nil),
                                                ),
                                            },
                                        ),
                                    ),
                                    qd1,
                                ),
                            ),
                            dims: s1.dims,
                            names: s1.names,
                        },
                    }
                },
            }
        },
        L1Expression::ValueAbstraction(va) => {
            match spec_gen_dims0(va.formal_parameters, m) {
                Err(er) => DsStep { res: Err(er), dims: m, names: n },
                Ok((dims, m2)) => {
                    let s0 = desugar_spec(va.body, m2, n, q, qd);
                    match s0.res {
                        Err(er) => DsStep { res: Err(er), dims: s0.dims, names: s0.names },
                        Ok((body2, qd1)) => DsStep {
                            res: Ok(
                                (
                                    Expression::ValueAbstraction(
                                        Box::new(
                                            ValueAbstraction { dimensions: dims, body: body2 },
                                        ),
                                    ),
                                    qd1,
                                ),
                            ),
                            dims: s0.dims,
                            names: s0.names,
                        },
                    }
                },
            }
        },
        L1Expression::ValueApplication(va) => {
            let s0 = desugar_spec(va.lhs, m, n, q, qd);
            match s0.res {
                Err(er) => DsStep { res: Err(er), dims: s0.dims, names: s0.names },
                Ok((lhs2, qd0)) => {
                    let s1 = desugar_spec(va.rhs, s0.dims, s0.names, q, qd0);
                    match s1.res {
                        Err(er) => DsStep { res: Err(er), dims: s1.dims, names: s1.names },
                        Ok((arg2, qd1)) => DsStep {
                            res: Ok(
                                (
                                    Expression::ValueApplication(
                                        Box::new(
                                            ValueApplication {
                                                lhs: lhs2,
                                                args: ExprList::Cons(
                                                    Box::new(arg2),
                                                    Box::new(ExprList::Nil),
                                                ),
                                            },
                                        ),
                                    ),
                                    qd1,
                                ),
                            ),
                            dims: s1.dims,
                            names: s1.names,
                        },
                    }
                },
            }
        },
        L1Expression::NameAbstraction(na) => {
            match spec_gen_name_dims(na.formal_parameters, n) {
                Err(er) => DsStep { res: Err(er), dims: m, names: n },
                Ok((dims, n2)) => {
                    let s0 = desugar_spec(na.body, m, n2, q, qd);
                    match s0.res {
                        Err(er) => DsStep { res: Err(er), dims: s0.dims, names: s0.names },
                        Ok((body2, qd1)) => DsStep {
                            res: Ok(
                                (
                                    Expression::ValueAbstraction(
                                        Box::new(
                                            ValueAbstraction { dimensions: dims, body: body2 },
                                        ),
                                    ),
                                    qd1,
                                ),
                            ),
                            dims: s0.dims,
                            names: s0.names,
                        },
                    }
                },
            }
        },
        L1Expression::NameApplication(na) => {
            let s0 = desugar_spec(na.lhs, m, n, q, qd);
            match s0.res {
                Err(er) => DsStep { res: Err(er), dims: s0.dims, names: s0.names },
                Ok((lhs2, qd0)) => {
                    let s1 = desugar_spec(na.rhs, s0.dims, s0.names, q, qd0);
                    match s1.res {
                        Err(er) => DsStep { res: Err(er), dims: s1.dims, names: s1.names },
                        Ok((arg2, qd1)) => DsStep {
                            res: Ok(
                                (
                                    Expression::ValueApplication(
                                        Box::new(
                                            ValueApplication {
                                                lhs: lhs2,
                                                args: ExprList::Cons(
                                                    Box::new(
                                                        Expression::IntensionBuilder(
                                                            Box::new(
                                                                IntensionExpression {
                                                                    domain: ExprList::Nil,
                                                                    value: arg2,
                                                                },
                                                            ),
                                                        ),
                                                    ),
                                                    Box::new(ExprList::Nil),
                                                ),
                                            },
                                        ),
                                    ),
                                    qd1,
                                ),
                            ),
                            dims: s1.dims,
                            names: s1.names,
                        },
                    }
                },
            }
        },
        L1Expression::IntensionBuilder(ie) => {
            let s0 = ds_seq_spec(ie.domain, m, n, q, qd);
            match s0.res {
                Err(er) => DsStep { res: Err(er), dims: s0.dims, names: s0.names },
                Ok((dom2, qd1)) => {
                    let s1 = desugar_spec(ie.value, s0.dims, s0.names, q, qd1);
                    match s1.res {
                        Err(er) => DsStep { res: Err(er), dims: s1.dims, names: s1.names },
                        Ok((v2, qd2)) => DsStep {
                            res: Ok(
                                (
                                    Expression::IntensionBuilder(
                                        Box::new(
                                            IntensionExpression { domain: dom2, value: v2 },
                                        ),
                                    ),
                                    qd2,
                                ),
                            ),
                            dims: s1.dims,
                            names: s1.names,
                        },
                    }
                },
            }
        },
        L1Expression::IntensionApplication(ia) => {
            let s0 = desugar_spec(*ia, m, n, q, qd);
            match s0.res {
                Err(er) => DsStep { res: Err(er), dims: s0.dims, names: s0.names },
                Ok((e2, qd1)) => DsStep {
                    res: Ok((Expression::IntensionApplication(Box::new(e2)), qd1)),
                    dims: s0.dims,
                    names: s0.names,
                },
            }
        },
        L1Expression::WhereDim(wd) => {
            let s0 = ds_decls_spec(wd.rhs.0, m, n, q, qd, 0);
            match s0.res {
                Err(er) => DsStep { res: Err(er), dims: s0.dims, names: s0.names },
                Ok((decls2, qd1)) => {
                    let s1 = desugar_spec(
                        wd.lhs,
                        s0.dims,
                        s0.names,
                        vstd::wrapping::u32_specs::wrapping_add(q, 1),
                        qd1,
                    );
                    match s1.res {
                        Err(er) => DsStep { res: Err(er), dims: s1.dims, names: s1.names },
                        Ok((lhs2, qd2)) => {
                            let dim_q = Dimension { i: q, v: Value::Identifier(phi_name()) };
                            DsStep {
                                res: Ok(
                                    (
                                        Expression::WhereDim(
                                            Box::new(
                                                WhereDimExpression {
                                                    nat_q: q,
                                                    dim_q,
                                                    lhs: lhs2,
                                                    rhs: ContextExpression(decls2),
                                                },
                                            ),
                                        ),
                                        qd2.spec_push(dim_q),
                                    ),
                                ),
                                dims: s1.dims,
                                names: s1.names,
                            }
                        },
                    }
                },
            }
        },
        L1Expression::FunctionDeclaration(fd) => {
            match spec_gen_dims0(fd.base_parameters, m) {
                Err(er) => DsStep { res: Err(er), dims: m, names: n },
                Ok((base_dims, m1)) => match spec_gen_dims0(fd.value_parameters, m1) {
                    Err(er) => DsStep { res: Err(er), dims: m, names: n },
                    Ok((value_dims, m2)) => match spec_gen_name_dims(fd.name_parameters, n) {
                        Err(er) => DsStep { res: Err(er), dims: m, names: n },
                        Ok((name_dims, n2)) => {
                            let has_base = !fd.base_parameters.spec_is_empty();
                            let has_value = !fd.value_parameters.spec_is_empty();
                            let has_name = !fd.name_parameters.spec_is_empty();
                            let s0 = desugar_spec(
                                fd.body,
                                m2,
                                if has_name {
                                    n2
                                } else {
                                    n
                                },
                                q,
                                qd,
                            );
                            match s0.res {
                                Err(er) => DsStep {
                                    res: Err(er),
                                    dims: m,
                                    names: if has_name {
                                        n
                                    } else {
                                        s0.names
                                    },
                                },
                                Ok((body2, qd1)) => {
                                    let inner = if has_value && has_name {
                                        Expression::ValueAbstraction(
                                            Box::new(
                                                ValueAbstraction {
                                                    dimensions: value_dims.spec_append(name_dims),
                                                    body: body2,
                                                },
                                            ),
                                        )
                                    } else if has_value {
                                        Expression::ValueAbstraction(
                                            Box::new(
                                                ValueAbstraction {
                                                    dimensions: value_dims,
                                                    body: body2,
                                                },
                                            ),
                                        )
                                    } else if has_name {
                                        Expression::ValueAbstraction(
                                            Box::new(
                                                ValueAbstraction {
                                                    dimensions: name_dims,
                                                    body: body2,
                                                },
                                            ),
                                        )
                                    } else {
                                        body2
                                    };
                                    let result = if has_base {
                                        Expression::BaseAbstraction(
                                            Box::new(
                                                BaseAbstraction {
                                                    dimensions: base_dims,
                                                    body: inner,
                                                },
                                            ),
                                        )
                                    } else {
                                        inner
                                    };
                                    DsStep {
                                        res: Ok((result, qd1)),
                                        dims: m,
                                        names: if has_name {
                                            n
                                        } else {
                                            s0.names
                                        },
                                    }
                                },
                            }
                        },
                    },
                },
            }
        },
        L1Expression::DimensionDeclaration(_) => DsStep {
            res: Err(Error::UnexpectedForm),
            dims: m,
            names: n,
        },
        L1Expression::VariableDeclaration(_) => DsStep {
            res: Err(Error::UnexpectedForm),
            dims: m,
            names: n,
        },
    }
}

/// Desugars a list of expressions, threading the collected quantifier
/// dimensions through the elements.
pub open spec fn ds_seq_spec(list: L1ExprList, m: DimMap, n: NameSet, q: u32, qd: Domain) -> DsListStep
    decreases list,
{
    match list {
        L1ExprList::Nil => DsListStep { res: Ok((ExprList::Nil, qd)), dims: m, names: n },
        L1ExprList::Cons(h, t) => {
            let s0 = desugar_spec(*h, m, n, q, qd);
            match s0.res {
                Err(er) => DsListStep { res: Err(er), dims: s0.dims, names: s0.names },
                Ok((e2, qd1)) => {
                    let s1 = ds_seq_spec(*t, s0.dims, s0.names, q, qd1);
                    match s1.res {
                        Err(er) => DsListStep { res: Err(er), dims: s1.dims, names: s1.names },
                        Ok((rest, qd2)) => DsListStep {
                            res: Ok((ExprList::Cons(Box::new(e2), Box::new(rest)), qd2)),
                            dims: s1.dims,
                            names: s1.names,
                        },
                    }
                },
            }
        },
    }
}

/// Desugars name arguments, wrapping each as an empty-domain intension so the
/// callee materialises it lazily; the collected quantifier dimensions thread
/// through the elements like everywhere else, so none is lost.
pub open spec fn ds_wrapped_args_spec(
    list: L1ExprList,
    m: DimMap,
    n: NameSet,
    q: u32,
    qd: Domain,
) -> DsListStep
    decreases list,
{
    match list {
        L1ExprList::Nil => DsListStep { res: Ok((ExprList::Nil, qd)), dims: m, names: n },
        L1ExprList::Cons(h, t) => {
            let s0 = desugar_spec(*h, m, n, q, qd);
            match s0.res {
                Err(er) => DsListStep { res: Err(er), dims: s0.dims, names: s0.names },
                Ok((e2, qd1)) => {
                    let s1 = ds_wrapped_args_spec(*t, s0.dims, s0.names, q, qd1);
                    match s1.res {
                        Err(er) => DsListStep { res: Err(er), dims: s1.dims, names: s1.names },
                        Ok((rest, qd2)) => DsListStep {
                            res: Ok(
                                (
                                    ExprList::Cons(
                                        Box::new(
                                            Expression::IntensionBuilder(
                                                Box::new(
                                                    IntensionExpression {
                                                        domain: ExprList::Nil,
                                                        value: e2,
                                                    },
                                                ),
                                            ),
                                        ),
                                        Box::new(rest),
                                    ),
                                    qd2,
                                ),
                            ),
                            dims: s1.dims,
                            names: s1.names,
                        },
                    }
                },
            }
        },
    }
}

/// Desugars the pairs of a tuple builder: both sides of a pair are seeded
/// with the same quantifier set, and their results are united.
pub open spec fn ds_tuples_spec(list: L1TupleList, m: DimMap, n: NameSet, q: u32, qd: Domain) -> DsTuplesStep
    decreases list,
{
    match list {
        L1TupleList::Nil => DsTuplesStep { res: Ok((TupleExprList::Nil, qd)), dims: m, names: n },
        L1TupleList::Cons(h, t) => {
            let s0 = desugar_spec(h.lhs, m, n, q, qd);
            match s0.res {
                Err(er) => DsTuplesStep { res: Err(er), dims: s0.dims, names: s0.names },
                Ok((lhs2, qd1)) => {
                    let s1 = desugar_spec(h.rhs, s0.dims, s0.names, q, qd);
                    match s1.res {
                        Err(er) => DsTuplesStep { res: Err(er), dims: s1.dims, names: s1.names },
                        Ok((rhs2, qd2)) => {
                            let s2 = ds_tuples_spec(*t, s1.dims, s1.names, q, qd1.spec_union(qd2));
                            match s2.res {
                                Err(er) => DsTuplesStep {
                                    res: Err(er),
                                    dims: s2.dims,
                                    names: s2.names,
                                },
                                Ok((rest, qd3)) => DsTuplesStep {
                                    res: Ok(
                                        (
                                            TupleExprList::Cons(
                                                Box::new(
                                                    TupleExpression { lhs: lhs2, rhs: rhs2 },
                                                ),
                                                Box::new(rest),
                                            ),
                                            qd3,
                                        ),
                                    ),
                                    dims: s2.dims,
                                    names: s2.names,
                                },
                            }
                        },
                    }
                },
            }
        },
    }
}

/// Desugars the bindings of a wherevar clause, in source order, into an
/// evaluation environment.
pub open spec fn ds_defs_spec(
    list: L1DefList,
    m: DimMap,
    n: NameSet,
    q: u32,
    qd: Domain,
    env: Environment,
) -> DsDefsStep
    decreases list,
{
    match list {
        L1DefList::Nil => DsDefsStep { res: Ok((env, qd)), dims: m, names: n },
        L1DefList::Cons(h, t) => {
            let s0 = desugar_spec(h.equation, m, n, q, qd);
            match s0.res {
                Err(er) => DsDefsStep { res: Err(er), dims: s0.dims, names: s0.names },
                Ok((e2, qd1)) => ds_defs_spec(
                    *t,
                    s0.dims,
                    s0.names,
                    q,
                    qd1,
                    env.spec_define(h.id, e2),
                ),
            }
        },
    }
}

/// Desugars the declarations of a wheredim: the i-th declaration is assigned
/// the dimension with index `i` tagged by its identifier, which is registered
/// in the map before the declaration's own expression is desugared.
pub open spec fn ds_decls_spec(
    list: L1DimDeclList,
    m: DimMap,
    n: NameSet,
    q: u32,
    qd: Domain,
    i: u32,
) -> DsDeclsStep
    decreases list,
{
    match list {
        L1DimDeclList::Nil => DsDeclsStep { res: Ok((DimExprList::Nil, qd)), dims: m, names: n },
        L1DimDeclList::Cons(h, t) => {
            let di = Dimension { i, v: Value::Identifier(h.lhs) };
            let m1 = m.spec_insert(h.lhs, di);
            let s0 = desugar_spec(h.rhs, m1, n, q, qd);
            match s0.res {
                Err(er) => DsDeclsStep { res: Err(er), dims: s0.dims, names: s0.names },
                Ok((e2, qd1)) => {
                    let s1 = ds_decls_spec(
                        *t,
                        s0.dims,
                        s0.names,
                        q,
                        qd1,
                        vstd::wrapping::u32_specs::wrapping_add(i, 1),
                    );
                    match s1.res {
                        Err(er) => DsDeclsStep { res: Err(er), dims: s1.dims, names: s1.names },
                        Ok((rest, qd2)) => DsDeclsStep {
                            res: Ok(
                                (
                                    DimExprList::Cons(
                                        Box::new(DimensionExpression { lhs: di, rhs: e2 }),
                                        Box::new(rest),
                                    ),
                                    qd2,
                                ),
                            ),
                            dims: s1.dims,
                            names: s1.names,
                        },
                    }
                },
            }
        },
    }
}

pub open spec fn exprs_append(a: ExprList, b: ExprList) -> ExprList
    decreases a,
{
    match a {
        ExprList::Nil => b,
        ExprList::Cons(h, t) => ExprList::Cons(h, Box::new(exprs_append(*t, b))),
    }
}

fn exprs_append_exec(a: ExprList, b: ExprList) -> (r: ExprList)
    ensures
        r == exprs_append(a, b),
    decreases a,
{
    match a {
        ExprList::Nil => b,
        ExprList::Cons(h, t) => ExprList::Cons(h, Box::new(exprs_append_exec(*t, b))),
    }
}

fn gen_dims0(params: &L1ExprList, m: DimMap) -> (r: Result<(DimList, DimMap), Error>)
    ensures
        r == spec_gen_dims0(*params, m),
    decreases *params,
{
    match params {
        L1ExprList::Nil => Ok((DimList::Nil, m)),
        L1ExprList::Cons(h, t) => match &**h {
            L1Expression::Identifier(id) => {
                let di = Dimension { i: 0, v: Value::Identifier(id.dup()) };
                let mut m2 = m;
                m2.insert(id.dup(), di.dup());
                match gen_dims0(t, m2) {
                    Ok((dims, m3)) => Ok((DimList::Cons(Box::new(di), Box::new(dims)), m3)),
                    Err(er) => Err(er),
                }
            },
            _ => Err(Error::ExpectedIdentifier),
        },
    }
}

fn gen_dims_indexed(params: &L1ExprList, i: u32, m: DimMap) -> (r: Result<
    (DimList, DimMap),
    Error,
>)
    ensures
        r == spec_gen_dims_indexed(*params, i, m),
    decreases *params,
{
    match params {
        L1ExprList::Nil => Ok((DimList::Nil, m)),
        L1ExprList::Cons(h, t) => match &**h {
            L1Expression::Identifier(id) => {
                let di = Dimension { i, v: Value::Identifier(id.dup()) };
                let mut m2 = m;
                m2.insert(id.dup(), di.dup());
                match gen_dims_indexed(t, i.wrapping_add(1), m2) {
                    Ok((dims, m3)) => Ok((DimList::Cons(Box::new(di), Box::new(dims)), m3)),
                    Err(er) => Err(er),
                }
            },
            _ => Err(Error::ExpectedIdentifier),
        },
    }
}

fn gen_name_dims(params: &L1ExprList, n: NameSet) -> (r: Result<(DimList, NameSet), Error>)
    ensures
        r == spec_gen_name_dims(*params, n),
    decreases *params,
{
    match params {
        L1ExprList::Nil => Ok((DimList::Nil, n)),
        L1ExprList::Cons(h, t) => match &**h {
            L1Expression::Identifier(id) => {
                let di = Dimension { i: 0, v: Value::Identifier(id.dup()) };
                let mut n2 = n;
                n2.insert(id.dup());
                match gen_name_dims(t, n2) {
                    Ok((dims, n3)) => Ok((DimList::Cons(Box::new(di), Box::new(dims)), n3)),
                    Err(er) => Err(er),
                }
            },
            _ => Err(Error::ExpectedIdentifier),
        },
    }
}

/// Fresh dimensions and a fresh identifier-to-dimension map for an
/// abstraction's parameter list.
pub open spec fn spec_generate_dimensional_map(parameters: L1ExprList) -> Result<
    (DimList, DimMap),
    Error,
> {
    spec_gen_dims0(parameters, DimMap(DimMapList::Nil))
}

pub fn generate_dimensional_map(parameters: &L1ExprList) -> (r: Result<(DimList, DimMap), Error>)
    ensures
        r == spec_generate_dimensional_map(*parameters),
{
    gen_dims0(parameters, DimMap::new())
}

/// The set of identifiers of a name-parameter list.
pub open spec fn spec_generate_name_map(parameters: L1ExprList) -> Result<NameSet, Error> {
    match spec_gen_name_dims(parameters, NameSet(NameList::Nil)) {
        Ok((_, n)) => Ok(n),
        Err(er) => Err(er),
    }
}

pub fn generate_name_map(parameters: &L1ExprList) -> (r: Result<NameSet, Error>)
    ensures
        r == spec_generate_name_map(*parameters),
{
    match gen_name_dims(parameters, NameSet::new()) {
        Ok((_, n)) => Ok(n),
        Err(er) => Err(er),
    }
}

/// Rewrites an L1 tree to the L0 language the evaluator walks: identifiers
/// mapped to dimensions are resolved, name-parameter uses become intension
/// applications, function declarations become nested abstractions, and every
/// wheredim occurrence is assigned its quantifier dimension, collected into
/// the returned domain. The collection threads through every sub-desugaring,
/// arguments of applications included, so it only ever grows
/// (`lemma_desugar_keeps_collection`) and holds the quantifier dimension of
/// every wheredim that was rewritten (`lemma_desugar_collects_wheredim`); the
/// driver relies on that to seed each quantifier dimension with 0.
pub fn transform_l1_dimensions(
    expr: &L1Expression,
    dimensions: &mut DimMap,
    names: &mut NameSet,
    q: u32,
    q_dimensions: Domain,
) -> (r: Result<(Expression, Domain), Error>)
    ensures
        ({
            let s = desugar_spec(*expr, *old(dimensions), *old(names), q, q_dimensions);
            r == s.res && *final(dimensions) == s.dims && *final(names) == s.names
        }),
    decreases *expr,
{
    match expr {
        L1Expression::Literal(lit) => Ok((Expression::Literal(*lit), q_dimensions)),
        L1Expression::Operator(id) => Ok((Expression::Operator(id.dup()), q_dimensions)),
        L1Expression::Identifier(id) => match dimensions.lookup(id) {
            Some(di) => Ok((Expression::Dimension(di), q_dimensions)),
            None => {
                if names.contains(id) {
                    Ok(
                        (
                            Expression::IntensionApplication(
                                Box::new(
                                    Expression::Dimension(
                                        Dimension { i: 0, v: Value::Identifier(id.dup()) },
                                    ),
                                ),
                            ),
                            q_dimensions,
                        ),
                    )
                } else {
                    Ok((Expression::Identifier(id.dup()), q_dimensions))
                }
            },
        },
        L1Expression::Sequence(list) => {
            match transform_seq(list, dimensions, names, q, q_dimensions) {
                Ok((exprs, qd2)) => Ok((Expression::Sequence(exprs), qd2)),
                Err(er) => Err(er),
            }
        },
        L1Expression::TupleBuilder(list) => {
            match transform_tuples(list, dimensions, names, q, q_dimensions) {
                Ok((pairs, qd2)) => Ok((Expression::TupleBuilder(pairs), qd2)),
                Err(er) => Err(er),
            }
        },
        L1Expression::Application(list) => match list {
            L1ExprList::Nil => Err(Error::UnexpectedForm),
            L1ExprList::Cons(op, args) => {
                let r0 = transform_l1_dimensions(op, dimensions, names, q, q_dimensions);
                match r0 {
                    Err(er) => Err(er),
                    Ok((op2, qd1)) => {
                        let r1 = transform_seq(args, dimensions, names, q, qd1);
                        match r1 {
                            Err(er) => Err(er),
                            Ok((args2, qd2)) => Ok(
                                (
                                    Expression::Application(
                                        ExprList::Cons(Box::new(op2), Box::new(args2)),
                                    ),
                                    qd2,
                                ),
                            ),
                        }
                    },
                }
            },
        },
        L1Expression::If(ife) => {
            let r0 = transform_l1_dimensions(
                &ife.condition,
                dimensions,
                names,
                q,
                q_dimensions.dup(),
            );
            match r0 {
                Err(er) => Err(er),
                Ok((c2, qd1)) => {
                    let r1 = transform_l1_dimensions(
                        &ife.consequent,
                        dimensions,
                        names,
                        q,
                        q_dimensions.dup(),
                    );
                    match r1 {
                        Err(er) => Err(er),
                        Ok((t2, qd2)) => {
                            let r2 = transform_l1_dimensions(
                                &ife.alternate,
                                dimensions,
                                names,
                                q,
                                q_dimensions.dup(),
                            );
                            match r2 {
                                Err(er) => Err(er),
                                Ok((a2, qd3)) => Ok(
                                    (
                                        Expression::If(
                                            Box::new(
                                                IfExpression {
                                                    condition: c2,
                                                    consequent: t2,
                                                    alternate: a2,
                                                },
                                            ),
                                        ),
                                        q_dimensions.union(&qd1.union(&qd2).union(&qd3)),
                                    ),
                                ),
                            }
                        },
                    }
                },
            }
        },
        L1Expression::WhereVar(wv) => {
            let r0 = transform_defs(
                &wv.rhs.0,
                dimensions,
                names,
                q,
                q_dimensions,
                Environment::new(),
            );
            match r0 {
                Err(er) => Err(er),
                Ok((env2, qd1)) => {
                    let r1 = transform_l1_dimensions(&wv.lhs, dimensions, names, q, qd1);
                    match r1 {
                        Err(er) => Err(er),
                        Ok((lhs2, qd2)) => Ok(
                            (
                                Expression::WhereVar(
                                    Box::new(WhereVarExpression { lhs: lhs2, rhs: env2 }),
                                ),
                                qd2,
                            ),
                        ),
                    }
                },
            }
        },
        L1Expression::Query(e0) => {
            let r0 = transform_l1_dimensions(e0, dimensions, names, q, q_dimensions);
            match r0 {
                Err(er) => Err(er),
                Ok((e2, qd1)) => Ok((Expression::Query(Box::new(e2)), qd1)),
            }
        },
        L1Expression::Perturb(p) => {
            let r0 = transform_l1_dimensions(&p.lhs, dimensions, names, q, q_dimensions.dup());
            match r0 {
                Err(er) => Err(er),
                Ok((lhs2, qd1)) => {
                    let r1 = transform_l1_dimensions(&p.rhs, dimensions, names, q, q_dimensions);
                    match r1 {
                        Err(er) => Err(er),
                        Ok((rhs2, qd2)) => Ok(
                            (
                                Expression::Perturb(
                                    Box::new(PerturbExpression { lhs: lhs2, rhs: rhs2 }),
                                ),
                                qd1.union(&qd2),
                            ),
                        ),
                    }
                },
            }
        },
        L1Expression::FunctionApplication(fa) => {
            let r0 = transform_l1_dimensions(&fa.lhs, dimensions, names, q, q_dimensions);
            match r0 {
                Err(er) => Err(er),
                Ok((lhs2, qd0)) => match lhs2 {
                    Expression::Identifier(id) => {
                        let r1 = transform_seq(&fa.base_args, dimensions, names, q, qd0);
                        match r1 {
                            Err(er) => Err(er),
                            Ok((base2, qd1)) => {
                                let r2 = transform_seq(&fa.value_args, dimensions, names, q, qd1);
                                match r2 {
                                    Err(er) => Err(er),
                                    Ok((value2, qd2)) => {
                                        let r3 = transform_wrapped_args(
                                            &fa.name_args,
                                            dimensions,
                                            names,
                                            q,
                                            qd2,
                                        );
                                        match r3 {
                                            Err(er) => Err(er),
                                            Ok((name2, qd3)) => Ok(
                                                (
                                                    Expression::FunctionApplication(
                                                        Box::new(
                                                            FunctionApplication {
                                                                id,
                                                                base_args: base2,
                                                                value_args: exprs_append_exec(
                                                                    value2,
                                                                    name2,
                                                                ),
                                                            },
                                                        ),
                                                    ),
                                                    qd3,
                                                ),
                                            ),
                                        }
                                    },
                                }
                            },
                        }
                    },
                    _ => Err(Error::ExpectedIdentifier),
                },
            }
        },
        L1Expression::BaseAbstraction(ba) => {
            match gen_dims_indexed(&ba.formal_parameters, 0, dimensions.dup()) {
                Err(er) => Err(er),
                Ok((dims, m2)) => {
                    *dimensions = m2;
                    let r0 = transform_l1_dimensions(&ba.body, dimensions, names, q, q_dimensions);
                    match r0 {
                        Err(er) => Err(er),
                        Ok((body2, qd1)) => Ok(
                            (
                                Expression::BaseAbstraction(
                                    Box::new(BaseAbstraction { dimensions: dims, body: body2 }),
                                ),
                                qd1,
                            ),
                        ),
                    }
                },
            }
        },
        L1Expression::BaseApplication(ba) => {
            let r0 = transform_l1_dimensions(&ba.lhs, dimensions, names, q, q_dimensions);
            match r0 {
                Err(er) => Err(er),
                Ok((lhs2, qd0)) => {
                    let r1 = transform_l1_dimensions(
                        &ba.rhs,
                        dimensions,
                        names,
                        q,
                        qd0,
                    );
                    match r1 {
                        Err(er) => Err(er),
                        Ok((arg2, qd1)) => Ok(
                            (
                                Expression::BaseApplication(
                                    Box::new(
                                        BaseApplication {
                                            lhs: lhs2,
                                            args: ExprList::Cons(
                                                Box::new(arg2),
                                                Box::new(ExprList::Nil),
                                            ),
                                        },
                                    ),
                                ),
                                qd1,
                            ),
                        ),
                    }
                },
            }
        },
        L1Expression::ValueAbstraction(va) => {
            match gen_dims0(&va.formal_parameters, dimensions.dup()) {
                Err(er) => Err(er),
                Ok((dims, m2)) => {
                    *dimensions = m2;
                    let r0 = transform_l1_dimensions(&va.body, dimensions, names, q, q_dimensions);
                    match r0 {
                        Err(er) => Err(er),
                        Ok((body2, qd1)) => Ok(
                            (
                                Expression::ValueAbstraction(
                                    Box::new(ValueAbstraction { dimensions: dims, body: body2 }),
                                ),
                                qd1,
                            ),
                        ),
                    }
                },
            }
        },
        L1Expression::ValueApplication(va) => {
            let r0 = transform_l1_dimensions(&va.lhs, dimensions, names, q, q_dimensions);
            match r0 {
                Err(er) => Err(er),
                Ok((lhs2, qd0)) => {
                    let r1 = transform_l1_dimensions(
                        &va.rhs,
                        dimensions,
                        names,
                        q,
                        qd0,
                    );
                    match r1 {
                        Err(er) => Err(er),
                        Ok((arg2, qd1)) => Ok(
                            (
                                Expression::ValueApplication(
                                    Box::new(
                                        ValueApplication {
                                            lhs: lhs2,
                                            args: ExprList::Cons(
                                                Box::new(arg2),
                                                Box::new(ExprList::Nil),
                                            ),
                                        },
                                    ),
                                ),
                                qd1,
                            ),
                        ),
                    }
                },
            }
        },
        L1Expression::NameAbstraction(na) => {
            match gen_name_dims(&na.formal_parameters, names.dup()) {
                Err(er) => Err(er),
                Ok((dims, n2)) => {
                    *names = n2;
                    let r0 = transform_l1_dimensions(&na.body, dimensions, names, q, q_dimensions);
                    match r0 {
                        Err(er) => Err(er),
                        Ok((body2, qd1)) => Ok(
                            (
                                Expression::ValueAbstraction(
                                    Box::new(ValueAbstraction { dimensions: dims, body: body2 }),
                                ),
                                qd1,
                            ),
                        ),
                    }
                },
            }
        },
        L1Expression::NameApplication(na) => {
            let r0 = transform_l1_dimensions(&na.lhs, dimensions, names, q, q_dimensions);
            match r0 {
                Err(er) => Err(er),
                Ok((lhs2, qd0)) => {
                    let r1 = transform_l1_dimensions(
                        &na.rhs,
                        dimensions,
                        names,
                        q,
                        qd0,
                    );
                    match r1 {
                        Err(er) => Err(er),
                        Ok((arg2, qd1)) => Ok(
                            (
                                Expression::ValueApplication(
                                    Box::new(
                                        ValueApplication {
                                            lhs: lhs2,
                                            args: ExprList::Cons(
                                                Box::new(
                                                    Expression::IntensionBuilder(
                                                        Box::new(
                                                            IntensionExpression {
                                                                domain: ExprList::Nil,
                                                                value: arg2,
                                                            },
                                                        ),
                                                    ),
                                                ),
                                                Box::new(ExprList::Nil),
                                            ),
                                        },
                                    ),
                                ),
                                qd1,
                            ),
                        ),
                    }
                },
            }
        },
        L1Expression::IntensionBuilder(ie) => {
            let r0 = transform_seq(&ie.domain, dimensions, names, q, q_dimensions);
            match r0 {
                Err(er) => Err(er),
                Ok((dom2, qd1)) => {
                    let r1 = transform_l1_dimensions(&ie.value, dimensions, names, q, qd1);
                    match r1 {
                        Err(er) => Err(er),
                        Ok((v2, qd2)) => Ok(
                            (
                                Expression::IntensionBuilder(
                                    Box::new(IntensionExpression { domain: dom2, value: v2 }),
                                ),
                                qd2,
                            ),
                        ),
                    }
                },
            }
        },
        L1Expression::IntensionApplication(ia) => {
            let r0 = transform_l1_dimensions(ia, dimensions, names, q, q_dimensions);
            match r0 {
                Err(er) => Err(er),
                Ok((e2, qd1)) => Ok((Expression::IntensionApplication(Box::new(e2)), qd1)),
            }
        },
        L1Expression::WhereDim(wd) => {
            let r0 = transform_decls(&wd.rhs.0, dimensions, names, q, q_dimensions, 0);
            match r0 {
                Err(er) => Err(er),
                Ok((decls2, qd1)) => {
                    let r1 = transform_l1_dimensions(
                        &wd.lhs,
                        dimensions,
                        names,
                        q.wrapping_add(1),
                        qd1,
                    );
                    match r1 {
                        Err(er) => Err(er),
                        Ok((lhs2, qd2)) => {
                            let phi = Name::Ch(0xcf, Box::new(Name::Ch(0x86, Box::new(Name::Nil))));
                            let dim_q = Dimension { i: q, v: Value::Identifier(phi) };
                            let mut qd3 = qd2;
                            qd3.push(dim_q.dup());
                            Ok(
                                (
                                    Expression::WhereDim(
                                        Box::new(
                                            WhereDimExpression {
                                                nat_q: q,
                                                dim_q,
                                                lhs: lhs2,
                                                rhs: ContextExpression(decls2),
                                            },
                                        ),
                                    ),
                                    qd3,
                                ),
                            )
                        },
                    }
                },
            }
        },
        L1Expression::FunctionDeclaration(fd) => {
            match gen_dims0(&fd.base_parameters, dimensions.dup()) {
                Err(er) => Err(er),
                Ok((base_dims, m1)) => match gen_dims0(&fd.value_parameters, m1) {
                    Err(er) => Err(er),
                    Ok((value_dims, mut m2)) => match gen_name_dims(
                        &fd.name_parameters,
                        names.dup(),
                    ) {
                        Err(er) => Err(er),
                        Ok((name_dims, mut n2)) => {
                            let has_base = !fd.base_parameters.is_empty();
                            let has_value = !fd.value_parameters.is_empty();
                            let has_name = !fd.name_parameters.is_empty();
                            let r0 = if has_name {
                                transform_l1_dimensions(&fd.body, &mut m2, &mut n2, q, q_dimensions)
                            } else {
                                transform_l1_dimensions(&fd.body, &mut m2, names, q, q_dimensions)
                            };
                            match r0 {
                                Err(er) => Err(er),
                                Ok((body2, qd1)) => {
                                    let inner = if has_value && has_name {
                                        Expression::ValueAbstraction(
                                            Box::new(
                                                ValueAbstraction {
                                                    dimensions: value_dims.append(name_dims),
                                                    body: body2,
                                                },
                                            ),
                                        )
                                    } else if has_value {
                                        Expression::ValueAbstraction(
                                            Box::new(
                                                ValueAbstraction {
                                                    dimensions: value_dims,
                                                    body: body2,
                                                },
                                            ),
                                        )
                                    } else if has_name {
                                        Expression::ValueAbstraction(
                                            Box::new(
                                                ValueAbstraction {
                                                    dimensions: name_dims,
                                                    body: body2,
                                                },
                                            ),
                                        )
                                    } else {
                                        body2
                                    };
                                    let result = if has_base {
                                        Expression::BaseAbstraction(
                                            Box::new(
                                                BaseAbstraction {
                                                    dimensions: base_dims,
                                                    body: inner,
                                                },
                                            ),
                                        )
                                    } else {
                                        inner
                                    };
                                    Ok((result, qd1))
                                },
                            }
                        },
                    },
                },
            }
        },
        L1Expression::DimensionDeclaration(_) => Err(Error::UnexpectedForm),
        L1Expression::VariableDeclaration(_) => Err(Error::UnexpectedForm),
    }
}

fn transform_seq(
    list: &L1ExprList,
    dimensions: &mut DimMap,
    names: &mut NameSet,
    q: u32,
    q_dimensions: Domain,
) -> (r: Result<(ExprList, Domain), Error>)
    ensures
        ({
            let s = ds_seq_spec(*list, *old(dimensions), *old(names), q, q_dimensions);
            r == s.res && *final(dimensions) == s.dims && *final(names) == s.names
        }),
    decreases *list,
{
    match list {
        L1ExprList::Nil => Ok((ExprList::Nil, q_dimensions)),
        L1ExprList::Cons(h, t) => {
            let r0 = transform_l1_dimensions(h, dimensions, names, q, q_dimensions);
            match r0 {
                Err(er) => Err(er),
                Ok((e2, qd1)) => {
                    let r1 = transform_seq(t, dimensions, names, q, qd1);
                    match r1 {
                        Err(er) => Err(er),
                        Ok((rest, qd2)) => Ok(
                            (ExprList::Cons(Box::new(e2), Box::new(rest)), qd2),
                        ),
                    }
                },
            }
        },
    }
}

fn transform_wrapped_args(
    list: &L1ExprList,
    dimensions: &mut DimMap,
    names: &mut NameSet,
    q: u32,
    q_dimensions: Domain,
) -> (r: Result<(ExprList, Domain), Error>)
    ensures
        ({
            let s = ds_wrapped_args_spec(*list, *old(dimensions), *old(names), q, q_dimensions);
            r == s.res && *final(dimensions) == s.dims && *final(names) == s.names
        }),
    decreases *list,
{
    match list {
        L1ExprList::Nil => Ok((ExprList::Nil, q_dimensions)),
        L1ExprList::Cons(h, t) => {
            let r0 = transform_l1_dimensions(h, dimensions, names, q, q_dimensions);
            match r0 {
                Err(er) => Err(er),
                Ok((e2, qd1)) => {
                    let r1 = transform_wrapped_args(t, dimensions, names, q, qd1);
                    match r1 {
                        Err(er) => Err(er),
                        Ok((rest, qd2)) => Ok(
                            (
                                ExprList::Cons(
                                    Box::new(
                                        Expression::IntensionBuilder(
                                            Box::new(
                                                IntensionExpression {
                                                    domain: ExprList::Nil,
                                                    value: e2,
                                                },
                                            ),
                                        ),
                                    ),
                                    Box::new(rest),
                                ),
                                qd2,
                            ),
                        ),
                    }
                },
            }
        },
    }
}

fn transform_tuples(
    list: &L1TupleList,
    dimensions: &mut DimMap,
    names: &mut NameSet,
    q: u32,
    q_dimensions: Domain,
) -> (r: Result<(TupleExprList, Domain), Error>)
    ensures
        ({
            let s = ds_tuples_spec(*list, *old(dimensions), *old(names), q, q_dimensions);
            r == s.res && *final(dimensions) == s.dims && *final(names) == s.names
        }),
    decreases *list,
{
    match list {
        L1TupleList::Nil => Ok((TupleExprList::Nil, q_dimensions)),
        L1TupleList::Cons(h, t) => {
            let r0 = transform_l1_dimensions(&h.lhs, dimensions, names, q, q_dimensions.dup());
            match r0 {
                Err(er) => Err(er),
                Ok((lhs2, qd1)) => {
                    let r1 = transform_l1_dimensions(
                        &h.rhs,
                        dimensions,
                        names,
                        q,
                        q_dimensions.dup(),
                    );
                    match r1 {
                        Err(er) => Err(er),
                        Ok((rhs2, qd2)) => {
                            let r2 = transform_tuples(t, dimensions, names, q, qd1.union(&qd2));
                            match r2 {
                                Err(er) => Err(er),
                                Ok((rest, qd3)) => Ok(
                                    (
                                        TupleExprList::Cons(
                                            Box::new(TupleExpression { lhs: lhs2, rhs: rhs2 }),
                                            Box::new(rest),
                                        ),
                                        qd3,
                                    ),
                                ),
                            }
                        },
                    }
                },
            }
        },
    }
}

fn transform_defs(
    list: &L1DefList,
    dimensions: &mut DimMap,
    names: &mut NameSet,
    q: u32,
    q_dimensions: Domain,
    env: Environment,
) -> (r: Result<(Environment, Domain), Error>)
    ensures
        ({
            let s = ds_defs_spec(*list, *old(dimensions), *old(names), q, q_dimensions, env);
            r == s.res && *final(dimensions) == s.dims && *final(names) == s.names
        }),
    decreases *list,
{
    match list {
        L1DefList::Nil => Ok((env, q_dimensions)),
        L1DefList::Cons(h, t) => {
            let r0 = transform_l1_dimensions(&h.equation, dimensions, names, q, q_dimensions);
            match r0 {
                Err(er) => Err(er),
                Ok((e2, qd1)) => {
                    let mut env2 = env;
                    env2.define(h.id.dup(), e2);
                    transform_defs(t, dimensions, names, q, qd1, env2)
                },
            }
        },
    }
}

/// The name-parameter layer of a function declaration, if it has name
/// parameters.
pub open spec fn spec_maybe_name_abstraction(fd: L1FunctionDeclaration) -> Option<
    L1NameAbstraction,
> {
    if fd.name_parameters.spec_is_empty() {
        None
    } else {
        Some(L1NameAbstraction { formal_parameters: fd.name_parameters, body: fd.body })
    }
}

pub fn maybe_name_abstraction_from_fun_declaration(fd: &L1FunctionDeclaration) -> (r: Option<
    L1NameAbstraction,
>)
    ensures
        r == spec_maybe_name_abstraction(*fd),
{
    if fd.name_parameters.is_empty() {
        None
    } else {
        Some(
            L1NameAbstraction {
                formal_parameters: fd.name_parameters.dup(),
                body: fd.body.dup(),
            },
        )
    }
}

/// The value-parameter layer of a function declaration, wrapped around the
/// name layer when there is one.
pub open spec fn spec_maybe_value_abstraction(
    fd: L1FunctionDeclaration,
    name_abstraction: Option<L1NameAbstraction>,
) -> Option<L1ValueAbstraction> {
    if fd.value_parameters.spec_is_empty() {
        None
    } else {
        match name_abstraction {
            Some(na) => Some(
                L1ValueAbstraction {
                    formal_parameters: fd.value_parameters,
                    body: L1Expression::NameAbstraction(Box::new(na)),
                },
            ),
            None => Some(
                L1ValueAbstraction { formal_parameters: fd.value_parameters, body: fd.body },
            ),
        }
    }
}

pub fn maybe_value_abstraction_from_fun_declaration(
    fd: &L1FunctionDeclaration,
    name_abstraction: Option<L1NameAbstraction>,
) -> (r: Option<L1ValueAbstraction>)
    ensures
        r == spec_maybe_value_abstraction(*fd, name_abstraction),
{
    if fd.value_parameters.is_empty() {
        None
    } else {
        match name_abstraction {
            Some(na) => Some(
                L1ValueAbstraction {
                    formal_parameters: fd.value_parameters.dup(),
                    body: L1Expression::NameAbstraction(Box::new(na)),
                },
            ),
            None => Some(
                L1ValueAbstraction {
                    formal_parameters: fd.value_parameters.dup(),
                    body: fd.body.dup(),
                },
            ),
        }
    }
}

/// The outermost layer of a function declaration's lowering: a base
/// abstraction over the base parameters when there are any, else the value
/// layer, else the name layer; with no parameters at all, every layer is
/// omitted and the body stands bare.
pub open spec fn spec_l1_abstraction(
    fd: L1FunctionDeclaration,
    value_abstraction: Option<L1ValueAbstraction>,
    name_abstraction: Option<L1NameAbstraction>,
) -> L1Expression {
    if !fd.base_parameters.spec_is_empty() {
        match value_abstraction {
            Some(va) => L1Expression::BaseAbstraction(
                Box::new(
                    L1BaseAbstraction {
                        formal_parameters: fd.base_parameters,
                        body: L1Expression::ValueAbstraction(Box::new(va)),
                    },
                ),
            ),
            None => match name_abstraction {
                Some(na) => L1Expression::BaseAbstraction(
                    Box::new(
                        L1BaseAbstraction {
                            formal_parameters: fd.base_parameters,
                            body: L1Expression::NameAbstraction(Box::new(na)),
                        },
                    ),
                ),
                None => L1Expression::BaseAbstraction(
                    Box::new(
                        L1BaseAbstraction {
                            formal_parameters: fd.base_parameters,
                            body: fd.body,
                        },
                    ),
                ),
            },
        }
    } else {
        match value_abstraction {
            Some(va) => L1Expression::ValueAbstraction(Box::new(va)),
            None => match name_abstraction {
                Some(na) => L1Expression::NameAbstraction(Box::new(na)),
                None => fd.body,
            },
        }
    }
}

pub fn l1_abstraction_from_fun_declaration(
    fd: &L1FunctionDeclaration,
    value_abstraction: Option<L1ValueAbstraction>,
    name_abstraction: Option<L1NameAbstraction>,
) -> (r: L1Expression)
    ensures
        r == spec_l1_abstraction(*fd, value_abstraction, name_abstraction),
{
    if !fd.base_parameters.is_empty() {
        match value_abstraction {
            Some(va) => L1Expression::BaseAbstraction(
                Box::new(
                    L1BaseAbstraction {
                        formal_parameters: fd.base_parameters.dup(),
                        body: L1Expression::ValueAbstraction(Box::new(va)),
                    },
                ),
            ),
            None => match name_abstraction {
                Some(na) => L1Expression::BaseAbstraction(
                    Box::new(
                        L1BaseAbstraction {
                            formal_parameters: fd.base_parameters.dup(),
                            body: L1Expression::NameAbstraction(Box::new(na)),
                        },
                    ),
                ),
                None => L1Expression::BaseAbstraction(
                    Box::new(
                        L1BaseAbstraction {
                            formal_parameters: fd.base_parameters.dup(),
                            body: fd.body.dup(),
                        },
                    ),
                ),
            },
        }
    } else {
        match value_abstraction {
            Some(va) => L1Expression::ValueAbstraction(Box::new(va)),
            None => match name_abstraction {
                Some(na) => L1Expression::NameAbstraction(Box::new(na)),
                None => fd.body.dup(),
            },
        }
    }
}

/// Desugaring of an already-lowered abstraction chain (base over value over
/// name), as the function-declaration rule produces it: parameter dimensions
/// are assigned layer by layer, shadowing the ambient map for the body alone,
/// and the name layer's parameters join the name set for the body alone.
pub open spec fn abstraction_from_l1_spec(
    abstraction: L1Expression,
    m: DimMap,
    n: NameSet,
    q: u32,
    qd: Domain,
) -> DsStep {
    match abstraction {
        L1Expression::BaseAbstraction(ba) => match spec_gen_dims0(ba.formal_parameters, m) {
            Err(er) => DsStep { res: Err(er), dims: m, names: n },
            Ok((base_dims, m1)) => match ba.body {
                L1Expression::ValueAbstraction(va) => match spec_gen_dims0(
                    va.formal_parameters,
                    m1,
                ) {
                    Err(er) => DsStep { res: Err(er), dims: m, names: n },
                    Ok((value_dims, m2)) => match va.body {
                        L1Expression::NameAbstraction(na) => match spec_gen_name_dims(
                            na.formal_parameters,
                            n,
                        ) {
                            Err(er) => DsStep { res: Err(er), dims: m, names: n },
                            Ok((name_dims, n2)) => {
                                let s = desugar_spec(na.body, m2, n2, q, qd);
                                match s.res {
                                    Err(er) => DsStep { res: Err(er), dims: m, names: n },
                                    Ok((body2, qd1)) => DsStep {
                                        res: Ok(
                                            (
                                                Expression::BaseAbstraction(
                                                    Box::new(
                                                        BaseAbstraction {
                                                            dimensions: base_dims,
                                                            body: Expression::ValueAbstraction(
                                                                Box::new(
                                                                    ValueAbstraction {
                                                                        dimensions:
                                                                            value_dims.spec_append(
                                                                            name_dims,
                                                                        ),
                                                                        body: body2,
                                                                    },
                                                                ),
                                                            ),
                                                        },
                                                    ),
                                                ),
                                                qd1,
                                            ),
                                        ),
                                        dims: m,
                                        names: n,
                                    },
                                }
                            },
                        },
                        _ => {
                            let s = desugar_spec(va.body, m2, n, q, qd);
                            match s.res {
                                Err(er) => DsStep { res: Err(er), dims: m, names: s.names },
                                Ok((body2, qd1)) => DsStep {
                                    res: Ok(
                                        (
                                            Expression::BaseAbstraction(
                                                Box::new(
                                                    BaseAbstraction {
                                                        dimensions: base_dims,
                                                        body: Expression::ValueAbstraction(
                                                            Box::new(
                                                                ValueAbstraction {
                                                                    dimensions: value_dims,
                                                                    body: body2,
                                                                },
                                                            ),
                                                        ),
                                                    },
                                                ),
                                            ),
                                            qd1,
                                        ),
                                    ),
                                    dims: m,
                                    names: s.names,
                                },
                            }
                        },
                    },
                },
                L1Expression::NameAbstraction(na) => match spec_gen_name_dims(
                    na.formal_parameters,
                    n,
                ) {
                    Err(er) => DsStep { res: Err(er), dims: m, names: n },
                    Ok((name_dims, n2)) => {
                        let s = desugar_spec(na.body, m1, n2, q, qd);
                        match s.res {
                            Err(er) => DsStep { res: Err(er), dims: m, names: n },
                            Ok((body2, qd1)) => DsStep {
                                res: Ok(
                                    (
                                        Expression::BaseAbstraction(
                                            Box::new(
                                                BaseAbstraction {
                                                    dimensions: base_dims,
                                                    body: Expression::ValueAbstraction(
                                                        Box::new(
                                                            ValueAbstraction {
                                                                dimensions: name_dims,
                                                                body: body2,
                                                            },
                                                        ),
                                                    ),
                                                },
                                            ),
                                        ),
                                        qd1,
                                    ),
                                ),
                                dims: m,
                                names: n,
                            },
                        }
                    },
                },
                _ => {
                    let s = desugar_spec(ba.body, m1, n, q, qd);
                    match s.res {
                        Err(er) => DsStep { res: Err(er), dims: m, names: s.names },
                        Ok((body2, qd1)) => DsStep {
                            res: Ok(
                                (
                                    Expression::BaseAbstraction(
                                        Box::new(
                                            BaseAbstraction {
                                                dimensions: base_dims,
                                                body: body2,
                                            },
                                        ),
                                    ),
                                    qd1,
                                ),
                            ),
                            dims: m,
                            names: s.names,
                        },
                    }
                },
            },
        },
        L1Expression::ValueAbstraction(va) => match spec_gen_dims0(va.formal_parameters, m) {
            Err(er) => DsStep { res: Err(er), dims: m, names: n },
            Ok((value_dims, m1)) => match va.body {
                L1Expression::NameAbstraction(na) => match spec_gen_name_dims(
                    na.formal_parameters,
                    n,
                ) {
                    Err(er) => DsStep { res: Err(er), dims: m, names: n },
                    Ok((name_dims, n2)) => {
                        let s = desugar_spec(na.body, m1, n2, q, qd);
                        match s.res {
                            Err(er) => DsStep { res: Err(er), dims: m, names: n },
                            Ok((body2, qd1)) => DsStep {
                                res: Ok(
                                    (
                                        Expression::ValueAbstraction(
                                            Box::new(
                                                ValueAbstraction {
                                                    dimensions: value_dims.spec_append(name_dims),
                                                    body: body2,
                                                },
                                            ),
                                        ),
                                        qd1,
                                    ),
                                ),
                                dims: m,
                                names: n,
                            },
                        }
                    },
                },
                _ => {
                    let s = desugar_spec(va.body, m1, n, q, qd);
                    match s.res {
                        Err(er) => DsStep { res: Err(er), dims: m, names: s.names },
                        Ok((body2, qd1)) => DsStep {
                            res: Ok(
                                (
                                    Expression::ValueAbstraction(
                                        Box::new(
                                            ValueAbstraction {
                                                dimensions: value_dims,
                                                body: body2,
                                            },
                                        ),
                                    ),
                                    qd1,
                                ),
                            ),
                            dims: m,
                            names: s.names,
                        },
                    }
                },
            },
        },
        L1Expression::NameAbstraction(na) => match spec_gen_name_dims(na.formal_parameters, n) {
            Err(er) => DsStep { res: Err(er), dims: m, names: n },
            Ok((name_dims, n2)) => {
                let s = desugar_spec(na.body, m, n2, q, qd);
                match s.res {
                    Err(er) => DsStep { res: Err(er), dims: s.dims, names: n },
                    Ok((body2, qd1)) => DsStep {
                        res: Ok(
                            (
                                Expression::ValueAbstraction(
                                    Box::new(
                                        ValueAbstraction { dimensions: name_dims, body: body2 },
                                    ),
                                ),
                                qd1,
                            ),
                        ),
                        dims: s.dims,
                        names: n,
                    },
                }
            },
        },
        _ => DsStep { res: Err(Error::ExpectedAbstraction), dims: m, names: n },
    }
}

/// Desugars the abstraction chain lowered from a function declaration. The
/// declaration itself only documents where the chain came from; the chain
/// carries all the information.
pub fn abstraction_from_l1(
    fun_declaration: &L1FunctionDeclaration,
    abstraction: &L1Expression,
    dimensions: &mut DimMap,
    names: &mut NameSet,
    q: u32,
    q_dimensions: Domain,
) -> (r: Result<(Expression, Domain), Error>)
    ensures
        ({
            let s = abstraction_from_l1_spec(
                *abstraction,
                *old(dimensions),
                *old(names),
                q,
                q_dimensions,
            );
            r == s.res && *final(dimensions) == s.dims && *final(names) == s.names
        }),
{
    let _ = fun_declaration;
    match abstraction {
        L1Expression::BaseAbstraction(ba) => {
            match gen_dims0(&ba.formal_parameters, dimensions.dup()) {
                Err(er) => Err(er),
                Ok((base_dims, m1)) => match &ba.body {
                    L1Expression::ValueAbstraction(va) => {
                        match gen_dims0(&va.formal_parameters, m1) {
                            Err(er) => Err(er),
                            Ok((value_dims, mut m2)) => match &va.body {
                                L1Expression::NameAbstraction(na) => {
                                    match gen_name_dims(&na.formal_parameters, names.dup()) {
                                        Err(er) => Err(er),
                                        Ok((name_dims, mut n2)) => {
                                            let r0 = transform_l1_dimensions(
                                                &na.body,
                                                &mut m2,
                                                &mut n2,
                                                q,
                                                q_dimensions,
                                            );
                                            match r0 {
                                                Err(er) => Err(er),
                                                Ok((body2, qd1)) => Ok(
                                                    (
                                                        Expression::BaseAbstraction(
                                                            Box::new(
                                                                BaseAbstraction {
                                                                    dimensions: base_dims,
                                                                    body:
                                                                        Expression::ValueAbstraction(
                                                                        Box::new(
                                                                            ValueAbstraction {
                                                                                dimensions:
                                                                                    value_dims
                                                                                    .append(
                                                                                    name_dims,
                                                                                ),
                                                                                body: body2,
                                                                            },
                                                                        ),
                                                                    ),
                                                                },
                                                            ),
                                                        ),
                                                        qd1,
                                                    ),
                                                ),
                                            }
                                        },
                                    }
                                },
                                _ => {
                                    let r0 = transform_l1_dimensions(
                                        &va.body,
                                        &mut m2,
                                        names,
                                        q,
                                        q_dimensions,
                                    );
                                    match r0 {
                                        Err(er) => Err(er),
                                        Ok((body2, qd1)) => Ok(
                                            (
                                                Expression::BaseAbstraction(
                                                    Box::new(
                                                        BaseAbstraction {
                                                            dimensions: base_dims,
                                                            body: Expression::ValueAbstraction(
                                                                Box::new(
                                                                    ValueAbstraction {
                                                                        dimensions: value_dims,
                                                                        body: body2,
                                                                    },
                                                                ),
                                                            ),
                                                        },
                                                    ),
                                                ),
                                                qd1,
                                            ),
                                        ),
                                    }
                                },
                            },
                        }
                    },
                    L1Expression::NameAbstraction(na) => {
                        match gen_name_dims(&na.formal_parameters, names.dup()) {
                            Err(er) => Err(er),
                            Ok((name_dims, mut n2)) => {
                                let mut m1 = m1;
                                let r0 = transform_l1_dimensions(
                                    &na.body,
                                    &mut m1,
                                    &mut n2,
                                    q,
                                    q_dimensions,
                                );
                                match r0 {
                                    Err(er) => Err(er),
                                    Ok((body2, qd1)) => Ok(
                                        (
                                            Expression::BaseAbstraction(
                                                Box::new(
                                                    BaseAbstraction {
                                                        dimensions: base_dims,
                                                        body: Expression::ValueAbstraction(
                                                            Box::new(
                                                                ValueAbstraction {
                                                                    dimensions: name_dims,
                                                                    body: body2,
                                                                },
                                                            ),
                                                        ),
                                                    },
                                                ),
                                            ),
                                            qd1,
                                        ),
                                    ),
                                }
                            },
                        }
                    },
                    _ => {
                        let mut m1 = m1;
                        let r0 = transform_l1_dimensions(
                            &ba.body,
                            &mut m1,
                            names,
                            q,
                            q_dimensions,
                        );
                        match r0 {
                            Err(er) => Err(er),
                            Ok((body2, qd1)) => Ok(
                                (
                                    Expression::BaseAbstraction(
                                        Box::new(
                                            BaseAbstraction {
                                                dimensions: base_dims,
                                                body: body2,
                                            },
                                        ),
                                    ),
                                    qd1,
                                ),
                            ),
                        }
                    },
                },
            }
        },
        L1Expression::ValueAbstraction(va) => {
            match gen_dims0(&va.formal_parameters, dimensions.dup()) {
                Err(er) => Err(er),
                Ok((value_dims, mut m1)) => match &va.body {
                    L1Expression::NameAbstraction(na) => {
                        match gen_name_dims(&na.formal_parameters, names.dup()) {
                            Err(er) => Err(er),
                            Ok((name_dims, mut n2)) => {
                                let r0 = transform_l1_dimensions(
                                    &na.body,
                                    &mut m1,
                                    &mut n2,
                                    q,
                                    q_dimensions,
                                );
                                match r0 {
                                    Err(er) => Err(er),
                                    Ok((body2, qd1)) => Ok(
                                        (
                                            Expression::ValueAbstraction(
                                                Box::new(
                                                    ValueAbstraction {
                                                        dimensions: value_dims.append(name_dims),
                                                        body: body2,
                                                    },
                                                ),
                                            ),
                                            qd1,
                                        ),
                                    ),
                                }
                            },
                        }
                    },
                    _ => {
                        let r0 = transform_l1_dimensions(
                            &va.body,
                            &mut m1,
                            names,
                            q,
                            q_dimensions,
                        );
                        match r0 {
                            Err(er) => Err(er),
                            Ok((body2, qd1)) => Ok(
                                (
                                    Expression::ValueAbstraction(
                                        Box::new(
                                            ValueAbstraction {
                                                dimensions: value_dims,
                                                body: body2,
                                            },
                                        ),
                                    ),
                                    qd1,
                                ),
                            ),
                        }
                    },
                },
            }
        },
        L1Expression::NameAbstraction(na) => {
            match gen_name_dims(&na.formal_parameters, names.dup()) {
                Err(er) => Err(er),
                Ok((name_dims, mut n2)) => {
                    let r0 = transform_l1_dimensions(&na.body, dimensions, &mut n2, q, q_dimensions);
                    match r0 {
                        Err(er) => Err(er),
                        Ok((body2, qd1)) => Ok(
                            (
                                Expression::ValueAbstraction(
                                    Box::new(
                                        ValueAbstraction { dimensions: name_dims, body: body2 },
                                    ),
                                ),
                                qd1,
                            ),
                        ),
                    }
                },
            }
        },
        _ => Err(Error::ExpectedAbstraction),
    }
}

fn transform_decls(
    list: &L1DimDeclList,
    dimensions: &mut DimMap,
    names: &mut NameSet,
    q: u32,
    q_dimensions: Domain,
    i: u32,
) -> (r: Result<(DimExprList, Domain), Error>)
    ensures
        ({
            let s = ds_decls_spec(*list, *old(dimensions), *old(names), q, q_dimensions, i);
            r == s.res && *final(dimensions) == s.dims && *final(names) == s.names
        }),
    decreases *list,
{
    match list {
        L1DimDeclList::Nil => Ok((DimExprList::Nil, q_dimensions)),
        L1DimDeclList::Cons(h, t) => {
            let di = Dimension { i, v: Value::Identifier(h.lhs.dup()) };
            dimensions.insert(h.lhs.dup(), di.dup());
            let r0 = transform_l1_dimensions(&h.rhs, dimensions, names, q, q_dimensions);
            match r0 {
                Err(er) => Err(er),
                Ok((e2, qd1)) => {
                    let r1 = transform_decls(t, dimensions, names, q, qd1, i.wrapping_add(1));
                    match r1 {
                        Err(er) => Err(er),
                        Ok((rest, qd2)) => Ok(
                            (
                                DimExprList::Cons(
                                    Box::new(DimensionExpression { lhs: di, rhs: e2 }),
                                    Box::new(rest),
                                ),
                                qd2,
                            ),
                        ),
                    }
                },
            }
        },
    }
}

/// The desugarer never loses a collected quantifier dimension: whatever the
/// form, every member of the incoming collection is a member of the returned
/// one.
pub proof fn lemma_desugar_keeps_collection(
    x: L1Expression,
    m: DimMap,
    n: NameSet,
    q: u32,
    qd: Domain,
)
    ensures
        ({
            let s = desugar_spec(x, m, n, q, qd);
            match s.res {
                Ok((_, qd_out)) => qd.spec_is_subset(qd_out),
                Err(_) => true,
            }
        }),
    decreases x,
{
    match x {
        L1Expression::Literal(_) => {
            crate::domain::lemma_subset_refl(qd);
        },
        L1Expression::Operator(_) => {
            crate::domain::lemma_subset_refl(qd);
        },
        L1Expression::Identifier(_) => {
            crate::domain::lemma_subset_refl(qd);
        },
        L1Expression::Sequence(list) => {
            lemma_seq_keeps_collection(list, m, n, q, qd);
        },
        L1Expression::TupleBuilder(list) => {
            lemma_tuples_keeps_collection(list, m, n, q, qd);
        },
        L1Expression::Application(list) => match list {
            L1ExprList::Nil => {},
            L1ExprList::Cons(op, args) => {
                lemma_desugar_keeps_collection(*op, m, n, q, qd);
                let s0 = desugar_spec(*op, m, n, q, qd);
                match s0.res {
                    Ok((_, qd1)) => {
                        lemma_seq_keeps_collection(*args, s0.dims, s0.names, q, qd1);
                        let s1 = ds_seq_spec(*args, s0.dims, s0.names, q, qd1);
                        match s1.res {
                            Ok((_, qd2)) => {
                                crate::domain::lemma_subset_trans(qd, qd1, qd2);
                            },
                            Err(_) => {},
                        }
                    },
                    Err(_) => {},
                }
            },
        },
        L1Expression::If(ife) => {
            let s0 = desugar_spec(ife.condition, m, n, q, qd);
            match s0.res {
                Ok((_, qd1)) => {
                    let s1 = desugar_spec(ife.consequent, s0.dims, s0.names, q, qd);
                    match s1.res {
                        Ok((_, qd2)) => {
                            let s2 = desugar_spec(ife.alternate, s1.dims, s1.names, q, qd);
                            match s2.res {
                                Ok((_, qd3)) => {
                                    crate::domain::lemma_union_upper_bounds(
                                        qd,
                                        qd1.spec_union(qd2).spec_union(qd3),
                                    );
                                },
                                Err(_) => {},
                            }
                        },
                        Err(_) => {},
                    }
                },
                Err(_) => {},
            }
        },
        L1Expression::WhereVar(wv) => {
            lemma_defs_keeps_collection(
                wv.rhs.0,
                m,
                n,
                q,
                qd,
                Environment(crate::environment::DefList::Nil),
            );
            let s0 = ds_defs_spec(
                wv.rhs.0,
                m,
                n,
                q,
                qd,
                Environment(crate::environment::DefList::Nil),
            );
            match s0.res {
                Ok((_, qd1)) => {
                    lemma_desugar_keeps_collection(wv.lhs, s0.dims, s0.names, q, qd1);
                    let s1 = desugar_spec(wv.lhs, s0.dims, s0.names, q, qd1);
                    match s1.res {
                        Ok((_, qd2)) => {
                            crate::domain::lemma_subset_trans(qd, qd1, qd2);
                        },
                        Err(_) => {},
                    }
                },
                Err(_) => {},
            }
        },
        L1Expression::Query(e0) => {
            lemma_desugar_keeps_collection(*e0, m, n, q, qd);
        },
        L1Expression::Perturb(p) => {
            lemma_desugar_keeps_collection(p.lhs, m, n, q, qd);
            let s0 = desugar_spec(p.lhs, m, n, q, qd);
            match s0.res {
                Ok((_, qd1)) => {
                    let s1 = desugar_spec(p.rhs, s0.dims, s0.names, q, qd);
                    match s1.res {
                        Ok((_, qd2)) => {
                            crate::domain::lemma_union_upper_bounds(qd1, qd2);
                            crate::domain::lemma_subset_trans(qd, qd1, qd1.spec_union(qd2));
                        },
                        Err(_) => {},
                    }
                },
                Err(_) => {},
            }
        },
        L1Expression::FunctionApplication(fa) => {
            lemma_desugar_keeps_collection(fa.lhs, m, n, q, qd);
            let s0 = desugar_spec(fa.lhs, m, n, q, qd);
            match s0.res {
                Ok((lhs2, qd0)) => match lhs2 {
                    Expression::Identifier(_) => {
                        lemma_seq_keeps_collection(fa.base_args, s0.dims, s0.names, q, qd0);
                        let s1 = ds_seq_spec(fa.base_args, s0.dims, s0.names, q, qd0);
                        match s1.res {
                            Ok((_, qd1)) => {
                                crate::domain::lemma_subset_trans(qd, qd0, qd1);
                                lemma_seq_keeps_collection(
                                    fa.value_args,
                                    s1.dims,
                                    s1.names,
                                    q,
                                    qd1,
                                );
                                let s2 = ds_seq_spec(fa.value_args, s1.dims, s1.names, q, qd1);
                                match s2.res {
                                    Ok((_, qd2)) => {
                                        crate::domain::lemma_subset_trans(qd, qd1, qd2);
                                        lemma_wrapped_keeps_collection(
                                            fa.name_args,
                                            s2.dims,
                                            s2.names,
                                            q,
                                            qd2,
                                        );
                                        let s3 = ds_wrapped_args_spec(
                                            fa.name_args,
                                            s2.dims,
                                            s2.names,
                                            q,
                                            qd2,
                                        );
                                        match s3.res {
                                            Ok((_, qd3)) => {
                                                crate::domain::lemma_subset_trans(qd, qd2, qd3);
                                            },
                                            Err(_) => {},
                                        }
                                    },
                                    Err(_) => {},
                                }
                            },
                            Err(_) => {},
                        }
                    },
                    _ => {},
                },
                Err(_) => {},
            }
        },
        L1Expression::BaseAbstraction(ba) => {
            match spec_gen_dims_indexed(ba.formal_parameters, 0, m) {
                Ok((_, m2)) => {
                    lemma_desugar_keeps_collection(ba.body, m2, n, q, qd);
                },
                Err(_) => {},
            }
        },
        L1Expression::BaseApplication(ba) => {
            lemma_desugar_keeps_collection(ba.lhs, m, n, q, qd);
            let s0 = desugar_spec(ba.lhs, m, n, q, qd);
            match s0.res {
                Ok((_, qd0)) => {
                    lemma_desugar_keeps_collection(ba.rhs, s0.dims, s0.names, q, qd0);
                    let s1 = desugar_spec(ba.rhs, s0.dims, s0.names, q, qd0);
                    match s1.res {
                        Ok((_, qd1)) => {
                            crate::domain::lemma_subset_trans(qd, qd0, qd1);
                        },
                        Err(_) => {},
                    }
                },
                Err(_) => {},
            }
        },
        L1Expression::ValueAbstraction(va) => {
            match spec_gen_dims0(va.formal_parameters, m) {
                Ok((_, m2)) => {
                    lemma_desugar_keeps_collection(va.body, m2, n, q, qd);
                },
                Err(_) => {},
            }
        },
        L1Expression::ValueApplication(va) => {
            lemma_desugar_keeps_collection(va.lhs, m, n, q, qd);
            let s0 = desugar_spec(va.lhs, m, n, q, qd);
            match s0.res {
                Ok((_, qd0)) => {
                    lemma_desugar_keeps_collection(va.rhs, s0.dims, s0.names, q, qd0);
                    let s1 = desugar_spec(va.rhs, s0.dims, s0.names, q, qd0);
                    match s1.res {
                        Ok((_, qd1)) => {
                            crate::domain::lemma_subset_trans(qd, qd0, qd1);
                        },
                        Err(_) => {},
                    }
                },
                Err(_) => {},
            }
        },
        L1Expression::NameAbstraction(na) => {
            match spec_gen_name_dims(na.formal_parameters, n) {
                Ok((_, n2)) => {
                    lemma_desugar_keeps_collection(na.body, m, n2, q, qd);
                },
                Err(_) => {},
            }
        },
        L1Expression::NameApplication(na) => {
            lemma_desugar_keeps_collection(na.lhs, m, n, q, qd);
            let s0 = desugar_spec(na.lhs, m, n, q, qd);
            match s0.res {
                Ok((_, qd0)) => {
                    lemma_desugar_keeps_collection(na.rhs, s0.dims, s0.names, q, qd0);
                    let s1 = desugar_spec(na.rhs, s0.dims, s0.names, q, qd0);
                    match s1.res {
                        Ok((_, qd1)) => {
                            crate::domain::lemma_subset_trans(qd, qd0, qd1);
                        },
                        Err(_) => {},
                    }
                },
                Err(_) => {},
            }
        },
        L1Expression::IntensionBuilder(ie) => {
            lemma_seq_keeps_collection(ie.domain, m, n, q, qd);
            let s0 = ds_seq_spec(ie.domain, m, n, q, qd);
            match s0.res {
                Ok((_, qd1)) => {
                    lemma_desugar_keeps_collection(ie.value, s0.dims, s0.names, q, qd1);
                    let s1 = desugar_spec(ie.value, s0.dims, s0.names, q, qd1);
                    match s1.res {
                        Ok((_, qd2)) => {
                            crate::domain::lemma_subset_trans(qd, qd1, qd2);
                        },
                        Err(_) => {},
                    }
                },
                Err(_) => {},
            }
        },
        L1Expression::IntensionApplication(ia) => {
            lemma_desugar_keeps_collection(*ia, m, n, q, qd);
        },
        L1Expression::WhereDim(wd) => {
            lemma_decls_keeps_collection(wd.rhs.0, m, n, q, qd, 0);
            let s0 = ds_decls_spec(wd.rhs.0, m, n, q, qd, 0);
            match s0.res {
                Ok((_, qd1)) => {
                    lemma_desugar_keeps_collection(
                        wd.lhs,
                        s0.dims,
                        s0.names,
                        vstd::wrapping::u32_specs::wrapping_add(q, 1),
                        qd1,
                    );
                    let s1 = desugar_spec(
                        wd.lhs,
                        s0.dims,
                        s0.names,
                        vstd::wrapping::u32_specs::wrapping_add(q, 1),
                        qd1,
                    );
                    match s1.res {
                        Ok((_, qd2)) => {
                            let dim_q = Dimension { i: q, v: Value::Identifier(phi_name()) };
                            crate::domain::lemma_push_upper_bound(qd2, dim_q);
                            crate::domain::lemma_subset_trans(qd, qd1, qd2);
                            crate::domain::lemma_subset_trans(qd, qd2, qd2.spec_push(dim_q));
                        },
                        Err(_) => {},
                    }
                },
                Err(_) => {},
            }
        },
        L1Expression::FunctionDeclaration(fd) => {
            match spec_gen_dims0(fd.base_parameters, m) {
                Ok((_, m1)) => match spec_gen_dims0(fd.value_parameters, m1) {
                    Ok((_, m2)) => match spec_gen_name_dims(fd.name_parameters, n) {
                        Ok((_, n2)) => {
                            let has_name = !fd.name_parameters.spec_is_empty();
                            lemma_desugar_keeps_collection(
                                fd.body,
                                m2,
                                if has_name {
                                    n2
                                } else {
                                    n
                                },
                                q,
                                qd,
                            );
                        },
                        Err(_) => {},
                    },
                    Err(_) => {},
                },
                Err(_) => {},
            }
        },
        L1Expression::DimensionDeclaration(_) => {},
        L1Expression::VariableDeclaration(_) => {},
    }
}

/// A wheredim that desugars successfully puts its own quantifier dimension —
/// the occurrence index tagged with the quantifier identifier — into the
/// returned collection, where the driver finds it to seed.
pub proof fn lemma_desugar_collects_wheredim(
    wd: crate::l1::L1WhereDimExpression,
    m: DimMap,
    n: NameSet,
    q: u32,
    qd: Domain,
)
    ensures
        ({
            let s = desugar_spec(L1Expression::WhereDim(Box::new(wd)), m, n, q, qd);
            match s.res {
                Ok((_, qd_out)) => qd_out.spec_has(
                    Dimension { i: q, v: Value::Identifier(phi_name()) },
                ),
                Err(_) => true,
            }
        }),
{
    let s0 = ds_decls_spec(wd.rhs.0, m, n, q, qd, 0);
    match s0.res {
        Ok((_, qd1)) => {
            let s1 = desugar_spec(
                wd.lhs,
                s0.dims,
                s0.names,
                vstd::wrapping::u32_specs::wrapping_add(q, 1),
                qd1,
            );
            match s1.res {
                Ok((_, qd2)) => {
                    let dim_q = Dimension { i: q, v: Value::Identifier(phi_name()) };
                    crate::domain::lemma_push_upper_bound(qd2, dim_q);
                },
                Err(_) => {},
            }
        },
        Err(_) => {},
    }
}

proof fn lemma_seq_keeps_collection(list: L1ExprList, m: DimMap, n: NameSet, q: u32, qd: Domain)
    ensures
        ({
            let s = ds_seq_spec(list, m, n, q, qd);
            match s.res {
                Ok((_, qd_out)) => qd.spec_is_subset(qd_out),
                Err(_) => true,
            }
        }),
    decreases list,
{
    match list {
        L1ExprList::Nil => {
            crate::domain::lemma_subset_refl(qd);
        },
        L1ExprList::Cons(h, t) => {
            lemma_desugar_keeps_collection(*h, m, n, q, qd);
            let s0 = desugar_spec(*h, m, n, q, qd);
            match s0.res {
                Ok((_, qd1)) => {
                    lemma_seq_keeps_collection(*t, s0.dims, s0.names, q, qd1);
                    let s1 = ds_seq_spec(*t, s0.dims, s0.names, q, qd1);
                    match s1.res {
                        Ok((_, qd2)) => {
                            crate::domain::lemma_subset_trans(qd, qd1, qd2);
                        },
                        Err(_) => {},
                    }
                },
                Err(_) => {},
            }
        },
    }
}

proof fn lemma_wrapped_keeps_collection(
    list: L1ExprList,
    m: DimMap,
    n: NameSet,
    q: u32,
    qd: Domain,
)
    ensures
        ({
            let s = ds_wrapped_args_spec(list, m, n, q, qd);
            match s.res {
                Ok((_, qd_out)) => qd.spec_is_subset(qd_out),
                Err(_) => true,
            }
        }),
    decreases list,
{
    match list {
        L1ExprList::Nil => {
            crate::domain::lemma_subset_refl(qd);
        },
        L1ExprList::Cons(h, t) => {
            lemma_desugar_keeps_collection(*h, m, n, q, qd);
            let s0 = desugar_spec(*h, m, n, q, qd);
            match s0.res {
                Ok((_, qd1)) => {
                    lemma_wrapped_keeps_collection(*t, s0.dims, s0.names, q, qd1);
                    let s1 = ds_wrapped_args_spec(*t, s0.dims, s0.names, q, qd1);
                    match s1.res {
                        Ok((_, qd2)) => {
                            crate::domain::lemma_subset_trans(qd, qd1, qd2);
                        },
                        Err(_) => {},
                    }
                },
                Err(_) => {},
            }
        },
    }
}

proof fn lemma_tuples_keeps_collection(
    list: L1TupleList,
    m: DimMap,
    n: NameSet,
    q: u32,
    qd: Domain,
)
    ensures
        ({
            let s = ds_tuples_spec(list, m, n, q, qd);
            match s.res {
                Ok((_, qd_out)) => qd.spec_is_subset(qd_out),
                Err(_) => true,
            }
        }),
    decreases list,
{
    match list {
        L1TupleList::Nil => {
            crate::domain::lemma_subset_refl(qd);
        },
        L1TupleList::Cons(h, t) => {
            lemma_desugar_keeps_collection(h.lhs, m, n, q, qd);
            let s0 = desugar_spec(h.lhs, m, n, q, qd);
            match s0.res {
                Ok((_, qd1)) => {
                    let s1 = desugar_spec(h.rhs, s0.dims, s0.names, q, qd);
                    match s1.res {
                        Ok((_, qd2)) => {
                            crate::domain::lemma_union_upper_bounds(qd1, qd2);
                            crate::domain::lemma_subset_trans(qd, qd1, qd1.spec_union(qd2));
                            lemma_tuples_keeps_collection(
                                *t,
                                s1.dims,
                                s1.names,
                                q,
                                qd1.spec_union(qd2),
                            );
                            let s2 = ds_tuples_spec(
                                *t,
                                s1.dims,
                                s1.names,
                                q,
                                qd1.spec_union(qd2),
                            );
                            match s2.res {
                                Ok((_, qd3)) => {
                                    crate::domain::lemma_subset_trans(
                                        qd,
                                        qd1.spec_union(qd2),
                                        qd3,
                                    );
                                },
                                Err(_) => {},
                            }
                        },
                        Err(_) => {},
                    }
                },
                Err(_) => {},
            }
        },
    }
}

proof fn lemma_defs_keeps_collection(
    list: L1DefList,
    m: DimMap,
    n: NameSet,
    q: u32,
    qd: Domain,
    env: Environment,
)
    ensures
        ({
            let s = ds_defs_spec(list, m, n, q, qd, env);
            match s.res {
                Ok((_, qd_out)) => qd.spec_is_subset(qd_out),
                Err(_) => true,
            }
        }),
    decreases list,
{
    match list {
        L1DefList::Nil => {
            crate::domain::lemma_subset_refl(qd);
        },
        L1DefList::Cons(h, t) => {
            lemma_desugar_keeps_collection(h.equation, m, n, q, qd);
            let s0 = desugar_spec(h.equation, m, n, q, qd);
            match s0.res {
                Ok((e2, qd1)) => {
                    lemma_defs_keeps_collection(
                        *t,
                        s0.dims,
                        s0.names,
                        q,
                        qd1,
                        env.spec_define(h.id, e2),
                    );
                    let s1 = ds_defs_spec(
                        *t,
                        s0.dims,
                        s0.names,
                        q,
                        qd1,
                        env.spec_define(h.id, e2),
                    );
                    match s1.res {
                        Ok((_, qd2)) => {
                            crate::domain::lemma_subset_trans(qd, qd1, qd2);
                        },
                        Err(_) => {},
                    }
                },
                Err(_) => {},
            }
        },
    }
}

proof fn lemma_decls_keeps_collection(
    list: L1DimDeclList,
    m: DimMap,
    n: NameSet,
    q: u32,
    qd: Domain,
    i: u32,
)
    ensures
        ({
            let s = ds_decls_spec(list, m, n, q, qd, i);
            match s.res {
                Ok((_, qd_out)) => qd.spec_is_subset(qd_out),
                Err(_) => true,
            }
        }),
    decreases list,
{
    match list {
        L1DimDeclList::Nil => {
            crate::domain::lemma_subset_refl(qd);
        },
        L1DimDeclList::Cons(h, t) => {
            let di = Dimension { i, v: Value::Identifier(h.lhs) };
            let m1 = m.spec_insert(h.lhs, di);
            lemma_desugar_keeps_collection(h.rhs, m1, n, q, qd);
            let s0 = desugar_spec(h.rhs, m1, n, q, qd);
            match s0.res {
                Ok((_, qd1)) => {
                    lemma_decls_keeps_collection(
                        *t,
                        s0.dims,
                        s0.names,
                        q,
                        qd1,
                        vstd::wrapping::u32_specs::wrapping_add(i, 1),
                    );
                    let s1 = ds_decls_spec(
                        *t,
                        s0.dims,
                        s0.names,
                        q,
                        qd1,
                        vstd::wrapping::u32_specs::wrapping_add(i, 1),
                    );
                    match s1.res {
                        Ok((_, qd2)) => {
                            crate::domain::lemma_subset_trans(qd, qd1, qd2);
                        },
                        Err(_) => {},
                    }
                },
                Err(_) => {},
            }
        },
    }
}

} // verus!
