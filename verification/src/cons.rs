//! Constraints and their RPN expression lists.

use vstd::prelude::*;

use croaring::Bitmap;

use crate::bitmap::{bitmap_elems, decode_bitmap, sp_bitmap};
use crate::policy::{sp_objects, views_of, PolicyObject};
use crate::profile::ProfileV;
use crate::reader::{sp_u32, PolicyReadError, PolicyReader, ReadErrV};
use crate::ty::{TypeSet, TypeSetV};

verus! {

/// Constraint-expression kind code: unary not.
pub const CEXPR_NOT: u32 = 1;

/// Constraint-expression kind code: binary and.
pub const CEXPR_AND: u32 = 2;

/// Constraint-expression kind code: binary or.
pub const CEXPR_OR: u32 = 3;

/// Constraint-expression kind code: attribute comparison.
pub const CEXPR_ATTR: u32 = 4;

/// Constraint-expression kind code: names predicate.
pub const CEXPR_NAMES: u32 = 5;

#[derive(Clone, Copy, Debug, PartialEq, Eq, Structural)]
pub enum UnaryOp {
    Not,
}

#[derive(Clone, Copy, Debug, PartialEq, Eq, Structural)]
pub enum BinaryOp {
    And,
    Or,
}

/// One RPN expression: an operator code, an attribute selector, and a
/// payload selected by the expression kind.
#[derive(Debug)]
pub struct ConstraintExpression {
    pub op: u32,
    pub attr: u32,
    pub kind: ConstraintExpressionKind,
}

/// The payload of a constraint expression.
#[derive(Debug)]
pub enum ConstraintExpressionKind {
    Unary(UnaryOp),
    Binary(BinaryOp),
    Attr,
    Names { names: Bitmap, type_names: Option<TypeSet> },
}

/// Mathematical model of a constraint-expression payload.
pub enum ConstraintExpressionKindV {
    Unary(UnaryOp),
    Binary(BinaryOp),
    Attr,
    Names { names: Set<u32>, type_names: Option<TypeSetV> },
}

/// Mathematical model of a `ConstraintExpression`.
pub struct ConstraintExpressionV {
    pub op: u32,
    pub attr: u32,
    pub kind: ConstraintExpressionKindV,
}

impl View for ConstraintExpression {
    type V = ConstraintExpressionV;

    open spec fn view(&self) -> ConstraintExpressionV {
        ConstraintExpressionV {
            op: self.op,
            attr: self.attr,
            kind: match &self.kind {
                ConstraintExpressionKind::Unary(u) => ConstraintExpressionKindV::Unary(*u),
                ConstraintExpressionKind::Binary(b) => ConstraintExpressionKindV::Binary(*b),
                ConstraintExpressionKind::Attr => ConstraintExpressionKindV::Attr,
                ConstraintExpressionKind::Names { names, type_names } => {
                    ConstraintExpressionKindV::Names {
                        names: bitmap_elems(*names),
                        type_names: match type_names {
                            Some(t) => Some(t@),
                            None => None,
                        },
                    }
                },
            },
        }
    }
}

/// Wire format of one expression: `expr_ty, attr, op`, then for the names
/// kind a names bitmap, a types bitmap, an inverse-types bitmap and a
/// flags word. Any unknown kind code is fatal.
pub open spec fn sp_cons_expr(d: Seq<u8>, p: int) -> Result<(ConstraintExpressionV, int), ReadErrV> {
    match sp_u32(d, p) {
        Some((expr_ty, p1)) => match sp_u32(d, p1) {
            Some((attr, p2)) => match sp_u32(d, p2) {
                Some((op, p3)) => {
                    if expr_ty == CEXPR_NOT {
                        Ok(
                            (
                                ConstraintExpressionV {
                                    op,
                                    attr,
                                    kind: ConstraintExpressionKindV::Unary(UnaryOp::Not),
                                },
                                p3,
                            ),
                        )
                    } else if expr_ty == CEXPR_AND {
                        Ok(
                            (
                                ConstraintExpressionV {
                                    op,
                                    attr,
                                    kind: ConstraintExpressionKindV::Binary(BinaryOp::And),
                                },
                                p3,
                            ),
                        )
                    } else if expr_ty == CEXPR_OR {
                        Ok(
                            (
                                ConstraintExpressionV {
                                    op,
                                    attr,
                                    kind: ConstraintExpressionKindV::Binary(BinaryOp::Or),
                                },
                                p3,
                            ),
                        )
                    } else if expr_ty == CEXPR_ATTR {
                        Ok(
                            (
                                ConstraintExpressionV {
                                    op,
                                    attr,
                                    kind: ConstraintExpressionKindV::Attr,
                                },
                                p3,
                            ),
                        )
                    } else if expr_ty == CEXPR_NAMES {
                        match sp_bitmap(d, p3) {
                            Some((names, p4)) => match sp_bitmap(d, p4) {
                                Some((types, p5)) => match sp_bitmap(d, p5) {
                                    Some((inverse_types, p6)) => match sp_u32(d, p6) {
                                        Some((flags, p7)) => Ok(
                                            (
                                                ConstraintExpressionV {
                                                    op,
                                                    attr,
                                                    kind: ConstraintExpressionKindV::Names {
                                                        names,
                                                        type_names: Some(
                                                            TypeSetV::Modular {
                                                                types,
                                                                inverse_types,
                                                                flags,
                                                            },
                                                        ),
                                                    },
                                                },
                                                p7,
                                            ),
                                        ),
                                        None => Err(ReadErrV::InputError),
                                    },
                                    None => Err(ReadErrV::InputError),
                                },
                                None => Err(ReadErrV::InputError),
                            },
                            None => Err(ReadErrV::InputError),
                        }
                    } else {
                        Err(ReadErrV::InvalidPolicyCapability)
                    }
                },
                None => Err(ReadErrV::InputError),
            },
            None => Err(ReadErrV::InputError),
        },
        None => Err(ReadErrV::InputError),
    }
}

impl PolicyObject for ConstraintExpression {
    open spec fn sp_decode(d: Seq<u8>, p: int, prof: ProfileV) -> Result<
        (ConstraintExpressionV, int),
        ReadErrV,
    > {
        sp_cons_expr(d, p)
    }

    fn decode(r: &mut PolicyReader) -> (res: Result<Self, PolicyReadError>) {
        let expr_ty = match r.read_u32() {
            Ok(v) => v,
            Err(e) => {
                return Err(e);
            },
        };
        let attr = match r.read_u32() {
            Ok(v) => v,
            Err(e) => {
                return Err(e);
            },
        };
        let op = match r.read_u32() {
            Ok(v) => v,
            Err(e) => {
                return Err(e);
            },
        };
        if expr_ty == CEXPR_NOT {
            Ok(ConstraintExpression {
                op,
                attr,
                kind: ConstraintExpressionKind::Unary(UnaryOp::Not),
            })
        } else if expr_ty == CEXPR_AND {
            Ok(ConstraintExpression {
                op,
                attr,
                kind: ConstraintExpressionKind::Binary(BinaryOp::And),
            })
        } else if expr_ty == CEXPR_OR {
            Ok(ConstraintExpression {
                op,
                attr,
                kind: ConstraintExpressionKind::Binary(BinaryOp::Or),
            })
        } else if expr_ty == CEXPR_ATTR {
            Ok(ConstraintExpression { op, attr, kind: ConstraintExpressionKind::Attr })
        } else if expr_ty == CEXPR_NAMES {
            let names = match decode_bitmap(r) {
                Ok(v) => v,
                Err(e) => {
                    return Err(e);
                },
            };
            let types = match decode_bitmap(r) {
                Ok(v) => v,
                Err(e) => {
                    return Err(e);
                },
            };
            let inverse_types = match decode_bitmap(r) {
                Ok(v) => v,
                Err(e) => {
                    return Err(e);
                },
            };
            let flags = match r.read_u32() {
                Ok(v) => v,
                Err(e) => {
                    return Err(e);
                },
            };
            Ok(ConstraintExpression {
                op,
                attr,
                kind: ConstraintExpressionKind::Names {
                    names,
                    type_names: Some(TypeSet::Modular { types, inverse_types, flags }),
                },
            })
        } else {
            Err(PolicyReadError::InvalidPolicyCapability)
        }
    }
}

/// A constraint: a permission bitmask over the enclosing class and an RPN
/// expression list.
#[derive(Debug)]
pub struct Constraint {
    pub permissions: u32,
    pub expressions: Vec<ConstraintExpression>,
}

/// Mathematical model of a `Constraint`.
pub struct ConstraintV {
    pub permissions: u32,
    pub expressions: Seq<ConstraintExpressionV>,
}

impl View for Constraint {
    type V = ConstraintV;

    open spec fn view(&self) -> ConstraintV {
        ConstraintV { permissions: self.permissions, expressions: views_of(self.expressions@) }
    }
}

/// Wire format of a constraint: `permissions, num_exprs`, then that many
/// expressions.
pub open spec fn sp_constraint(d: Seq<u8>, p: int, prof: ProfileV) -> Result<(ConstraintV, int), ReadErrV> {
    match sp_u32(d, p) {
        Some((permissions, p1)) => match sp_u32(d, p1) {
            Some((num_exprs, p2)) => match sp_objects::<ConstraintExpression>(
                d,
                p2,
                prof,
                num_exprs as int,
            ) {
                Ok((expressions, p3)) => Ok((ConstraintV { permissions, expressions }, p3)),
                Err(e) => Err(e),
            },
            None => Err(ReadErrV::InputError),
        },
        None => Err(ReadErrV::InputError),
    }
}

impl PolicyObject for Constraint {
    open spec fn sp_decode(d: Seq<u8>, p: int, prof: ProfileV) -> Result<(ConstraintV, int), ReadErrV> {
        sp_constraint(d, p, prof)
    }

    fn decode(r: &mut PolicyReader) -> (res: Result<Self, PolicyReadError>) {
        let permissions = match r.read_u32() {
            Ok(v) => v,
            Err(e) => {
                return Err(e);
            },
        };
        let num_exprs = match r.read_u32() {
            Ok(v) => v,
            Err(e) => {
                return Err(e);
            },
        };
        let expressions = match r.read_objects::<ConstraintExpression>(num_exprs as usize) {
            Ok(v) => v,
            Err(e) => {
                return Err(e);
            },
        };
        Ok(Constraint { permissions, expressions })
    }
}

} // verus!
