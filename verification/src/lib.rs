//! Scope-checked handles for a handle-based code-generation backend.
//!
//! The backend (LLVM, through its C interface) hands out untyped pointers and
//! trusts its caller to keep them apart: a value of one function must not be
//! used in another, a value of one context must not meet a value of another, a
//! builder must be positioned before it emits, and no resource is released
//! twice. This crate keeps those rules.
//!
//! Every handle carries the identities of the scopes it lives in, and the
//! brand of the source that minted them. The brand is a lifetime: what comes
//! of two sources does not fit into one operation, and the program that
//! tries does not compile. The identities are tokens: every operation
//! states which tokens its operands must carry, and the program that does not
//! meet that does not verify.
//!
//! Every operation returns the native call that it stands for as a plain
//! value, a [`Call`]. Whoever embeds the crate performs the call and hands the
//! handle that came back to the [`Pending`] result, which brands it.
//!
//! An [`Owned`] resource is released by `release`, which consumes the owner and
//! returns the one call that releases the resource: at most once, and through
//! the resource's own entry point. `scoped` lends the resource to a closure
//! and releases it whichever way the closure returns. An owner that is
//! dropped releases nothing: a destructor has nowhere to hand the call to, so
//! releasing at the end of a block is left to whoever performs the calls.
//!
//! Nothing in this crate touches the backend itself, so nothing in it is
//! taken on trust but the six enumerations of `llvm-sys` that pass through it.

pub mod block;
pub mod builder;
pub mod call;
pub mod context;
pub mod function;
pub mod id;
pub mod laws;
pub mod module;
pub mod native;
pub mod nulstr;
pub mod owned;
pub mod scope;
pub mod target;
pub mod ty;
pub mod value;

pub use block::{BasicBlock, Label};
pub use builder::{Builder, PositionedBuilder};
pub use call::{Call, CallView, Pending};
pub use context::Context;
pub use function::{Function, FunctionLabel};
pub use id::{with_source, Identity, IdentityRef, IdentitySource};
pub use module::Module;
pub use native::{Native, Opcode};
pub use nulstr::{NulError, NulStr};
pub use owned::{DropInPlace, Owned};
pub use scope::{Scope, ScopeId};
pub use target::{default_triple, DataLayout, Failure, MallocCStr, Target, TargetMachine};
pub use ty::Type;
pub use value::{DerivesFrom, Phi, Value};
