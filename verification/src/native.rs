//! The names of the backend's entry points, and the enumerations of `llvm-sys`
//! that travel with them.

use vstd::prelude::*;

verus! {

/// `llvm_sys::LLVMIntPredicate`, the integer comparisons. The crate never looks
/// inside a value of it: it is carried from the caller into the [`Call`].
///
/// [`Call`]: crate::call::Call
#[verifier::external_type_specification]
#[verifier::external_body]
pub struct ExLLVMIntPredicate(llvm_sys::LLVMIntPredicate);

/// `llvm_sys::LLVMRealPredicate`, the floating-point comparisons, carried
/// through unread.
#[verifier::external_type_specification]
#[verifier::external_body]
pub struct ExLLVMRealPredicate(llvm_sys::LLVMRealPredicate);

/// `llvm_sys::target_machine::LLVMCodeGenOptLevel`, carried through unread.
#[verifier::external_type_specification]
#[verifier::external_body]
pub struct ExLLVMCodeGenOptLevel(llvm_sys::target_machine::LLVMCodeGenOptLevel);

/// `llvm_sys::target_machine::LLVMRelocMode`, carried through unread.
#[verifier::external_type_specification]
#[verifier::external_body]
pub struct ExLLVMRelocMode(llvm_sys::target_machine::LLVMRelocMode);

/// `llvm_sys::target_machine::LLVMCodeModel`, carried through unread.
#[verifier::external_type_specification]
#[verifier::external_body]
pub struct ExLLVMCodeModel(llvm_sys::target_machine::LLVMCodeModel);

/// `llvm_sys::target_machine::LLVMCodeGenFileType`, carried through unread.
#[verifier::external_type_specification]
#[verifier::external_body]
pub struct ExLLVMCodeGenFileType(llvm_sys::target_machine::LLVMCodeGenFileType);

/// One instruction-building function of the backend, `LLVMBuild` and the name
/// of the variant. A block's record is a sequence of these.
#[derive(Clone, Copy, Debug, PartialEq)]
pub enum Opcode {
    Br,
    CondBr,
    Add,
    FAdd,
    Sub,
    FSub,
    Mul,
    FMul,
    UDiv,
    SDiv,
    FDiv,
    URem,
    SRem,
    FRem,
    Shl,
    LShr,
    AShr,
    And,
    Or,
    Xor,
    Neg,
    FNeg,
    Not,
    ICmp(llvm_sys::LLVMIntPredicate),
    FCmp(llvm_sys::LLVMRealPredicate),
    Trunc,
    FPTrunc,
    ZExt,
    SExt,
    FPExt,
    FPToUI,
    FPToSI,
    UIToFP,
    SIToFP,
    Alloca,
    ArrayAlloca,
    Load,
    Store,
    Phi,
    Call,
    Ret,
    RetVoid,
}

impl Opcode {
    /// The instruction ends a block: a branch or a return.
    pub open spec fn terminates(&self) -> bool {
        *self is Br || *self is CondBr || *self is Ret || *self is RetVoid
    }

    /// Whether the instruction ends a block.
    pub fn is_terminator(&self) -> (terminator: bool)
        ensures
            terminator == self.terminates(),
    {
        match self {
            Opcode::Br | Opcode::CondBr | Opcode::Ret | Opcode::RetVoid => true,
            _ => false,
        }
    }
}

/// One entry point of the backend, `LLVM` and the name of the variant. Each
/// variant says which handles and which texts a [`Call`] of it carries, in the
/// order in which the entry point takes them.
///
/// [`Call`]: crate::call::Call
#[derive(Clone, Copy, Debug, PartialEq)]
pub enum Native {
    /// No handle. Answers with a context.
    ContextCreate,
    /// Handles: the context.
    ContextDispose,
    /// Handles: the context. Texts: the module's name. Answers with a module.
    ModuleCreateWithNameInContext,
    /// Handles: the module.
    DisposeModule,
    /// Handles: the module, the function type. Texts: the function's name.
    /// Answers with a function.
    AddFunction,
    /// Handles: the function. The number is the parameter's index. Answers with
    /// a value.
    GetParam(u32),
    /// Handles: the context, the function. Texts: the block's name. Answers
    /// with a block.
    AppendBasicBlockInContext,
    /// Handles: the context. Answers with a type.
    DoubleTypeInContext,
    /// Handles: the context. The number is the width in bits. Answers with a
    /// type.
    IntTypeInContext(u32),
    /// Handles: the return type, then the parameter types; their number is
    /// the number of the handles that follow the first. The function type is
    /// never variadic. Answers with a type.
    FunctionType,
    /// Handles: the context. Answers with a builder.
    CreateBuilderInContext,
    /// Handles: the builder.
    DisposeBuilder,
    /// Handles: the builder, the block.
    PositionBuilderAtEnd,
    /// Handles: the builder, then the operands. Texts: the result's name, for
    /// the instructions that name their result. Answers with a value.
    Build(Opcode),
    /// Handles: the value. Texts: the name, without a closing zero byte.
    SetValueName2,
    /// Handles: the value.
    DumpValue,
    /// Handles: the phi node, the incoming value, the block it comes from.
    AddIncoming,
    /// No handle. Answers with a message.
    GetDefaultTargetTriple,
    /// Texts: the triple. Answers with a status, a target and a message.
    GetTargetFromTriple,
    /// Handles: the target. Texts: the triple, the processor, the features.
    /// Answers with a target machine.
    CreateTargetMachine(
        llvm_sys::target_machine::LLVMCodeGenOptLevel,
        llvm_sys::target_machine::LLVMRelocMode,
        llvm_sys::target_machine::LLVMCodeModel,
    ),
    /// Handles: the target machine.
    DisposeTargetMachine,
    /// Handles: the target machine, the module. Texts: the file's name.
    /// Answers with a status and a message.
    TargetMachineEmitToFile(llvm_sys::target_machine::LLVMCodeGenFileType),
    /// Handles: the target machine. Answers with a data layout.
    CreateTargetDataLayout,
    /// Texts: the layout's description. Answers with a data layout.
    CreateTargetData,
    /// Handles: the data layout.
    DisposeTargetData,
    /// Handles: the data layout. Answers with a message.
    CopyStringRepOfTargetData,
    /// Handles: the message.
    DisposeMessage,
}

} // verus!
