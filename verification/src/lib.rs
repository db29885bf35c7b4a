//! A verified decoder for the binary on-disk representation of an SELinux
//! (or XenFlask-compatible) security policy database.
//!
//! The decoder consumes a byte stream and yields a `Policy` value: a
//! version-aware, format-aware binary reader that interprets little-endian
//! integers and length-prefixed strings as a structured policy, honoring the
//! format variants driven by the versioned header and the kernel-vs-module
//! distinction.

pub mod avtab;
pub mod bitmap;
pub mod class;
pub mod conditional;
pub mod cons;
pub mod mls;
pub mod polcap;
pub mod policy;
pub mod profile;
pub mod reader;
pub mod role;
pub mod symtable;
pub mod ty;
pub mod user;

pub use crate::avtab::{AccessVector, AccessVectorTable, AccessVectorTableEntry, AccessVectorTableKey};
pub use crate::class::{Class, Common, Permission};
pub use crate::cons::{BinaryOp, Constraint, ConstraintExpression, ConstraintExpressionKind, UnaryOp};
pub use crate::conditional::Boolean;
pub use crate::mls::{Category, MlsLevel, MlsRange, Sensitivity};
pub use crate::polcap::{PolicyCapability, PolicyCapabilitySet};
pub use crate::policy::{Policy, PolicyConfig, PolicyObject, PolicyTargetPlatform, PolicyType};
pub use crate::profile::{CompatibilityProfile, Feature};
pub use crate::reader::{PolicyReadError, PolicyReader};
pub use crate::role::{Role, RoleSet};
pub use crate::symtable::{Symbol, SymbolTable};
pub use crate::ty::{Type, TypeSet};
pub use crate::user::User;
