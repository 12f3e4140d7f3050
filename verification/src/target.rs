//! Targets, target machines, data layouts, and the messages of the backend.
//!
//! Nothing here is scoped: these resources belong to no context. A target
//! machine and a data layout are owned and released like every other
//! resource. A failure of the backend comes back as a [`Failure`]: it always
//! says what was not done, and where the backend gave a message it holds that
//! message and the duty to release it.

use vstd::prelude::*;
use crate::call::{no_null, one, two, Branded, Call, CallView, Pending};
use crate::module::Module;
use crate::native::Native;
use crate::nulstr::NulStr;
use crate::owned::{dispose, DropInPlace, Owned};

verus! {

/// A message that the backend allocated: its handle, and the bytes that stand
/// behind it, without the closing zero byte.
#[derive(Debug)]
pub struct MallocCStr {
    pub(crate) raw: usize,
    pub(crate) text: Vec<u8>,
}

/// A failure of the backend. It says in the library's own words what was not
/// done, and it holds the message of the backend where the backend gave one.
/// The message is owned, and is released like every other resource.
#[derive(Debug)]
#[must_use]
pub struct Failure {
    pub(crate) reason: String,
    pub(crate) message: Option<Owned<MallocCStr>>,
}

/// A target of the backend. Targets are never released.
#[derive(Clone, Copy, Debug)]
pub struct Target {
    pub(crate) raw: usize,
}

/// A target machine of the backend.
#[derive(Debug)]
pub struct TargetMachine {
    pub(crate) raw: usize,
}

/// A data layout of the backend.
#[derive(Debug)]
pub struct DataLayout {
    pub(crate) raw: usize,
}

impl Branded for MallocCStr {
    type Brand = ();
}

impl Branded for Target {
    type Brand = ();
}

impl Branded for TargetMachine {
    type Brand = ();
}

impl Branded for DataLayout {
    type Brand = ();
}

/// What a failure says of a triple that the backend has no target for.
pub open spec fn no_target() -> Seq<char> {
    "the backend has no target for the triple"@
}

/// What a failure says of a module that the backend did not write out.
pub open spec fn not_emitted() -> Seq<char> {
    "the backend did not write the module to the file"@
}

/// What a failure says of a data layout that the backend did not make.
pub open spec fn no_data_layout() -> Seq<char> {
    "the backend made no data layout"@
}

/// `failure` says `reason`, and holds the message behind `message`, read as
/// `text`, if there is a message.
pub open spec fn failure_of(
    failure: Failure,
    reason: Seq<char>,
    message: usize,
    text: Seq<u8>,
) -> bool {
    &&& failure.reason() == reason
    &&& failure.reason().len() > 0
    &&& message == 0 ==> failure.said() is None
    &&& message != 0 ==> failure.said() is Some && failure.said().unwrap().raw() == message
        && failure.said().unwrap().text() == text
}

fn failure(reason: String, message: usize, text: Vec<u8>) -> (failure: Failure)
    requires
        reason@.len() > 0,
    ensures
        failure_of(failure, reason@, message, text@),
{
    if message == 0 {
        Failure { reason, message: None }
    } else {
        Failure { reason, message: Some(Owned::from_raw(MallocCStr { raw: message, text })) }
    }
}

/// Asks for the triple of the machine that the program runs on.
pub fn default_triple() -> (pending: Pending<'static, MallocCStr>)
    ensures
        pending.request() == (CallView {
            function: Native::GetDefaultTargetTriple,
            handles: Seq::empty(),
            texts: Seq::empty(),
        }),
{
    Pending { call: Call::plain(Native::GetDefaultTargetTriple, Vec::new()), brand: () }
}

impl MallocCStr {
    /// The handle of the message.
    pub open(crate) spec fn raw(&self) -> usize {
        self.raw
    }

    #[verifier::type_invariant]
    spec fn has_handle(&self) -> bool {
        self.raw != 0
    }

    /// The bytes of the message.
    pub open(crate) spec fn text(&self) -> Seq<u8> {
        self.text@
    }

    /// The bytes of the message.
    pub fn as_bytes(&self) -> (text: &Vec<u8>)
        ensures
            text@ == self.text(),
    {
        &self.text
    }

    /// Whether the message says nothing.
    pub fn is_empty(&self) -> (empty: bool)
        ensures
            empty == (self.text().len() == 0),
    {
        self.text.len() == 0
    }

    /// The handle of the message, as the backend gave it. It is never null.
    pub fn as_raw(&self) -> (raw: usize)
        ensures
            raw == self.raw(),
            raw != 0,
    {
        proof {
            use_type_invariant(self);
        }
        self.raw
    }
}

impl<'n> Pending<'n, MallocCStr> {
    /// Takes the handle that the backend answered with, and the bytes that
    /// stand behind it. A null handle means that the backend gave no message.
    pub fn complete(self, raw: usize, text: Vec<u8>) -> (message: Option<Owned<MallocCStr>>)
        ensures
            message is Some <==> raw != 0,
            message is Some ==> message.unwrap()@.raw() == raw && message.unwrap()@.text()
                == text@,
    {
        if raw == 0 {
            None
        } else {
            Some(Owned::from_raw(MallocCStr { raw, text }))
        }
    }
}

impl DropInPlace for MallocCStr {
    open(crate) spec fn held(&self) -> usize {
        self.raw
    }

    open spec fn releaser(&self) -> Native {
        Native::DisposeMessage
    }

    fn drop_in_place(self) -> (call: Call<'static>)
        ensures
            no_null(call@.handles),
    {
        Call::plain(Native::DisposeMessage, one(self.as_raw()))
    }
}

impl Failure {
    /// What was not done, in the library's own words.
    pub open(crate) spec fn reason(&self) -> Seq<char> {
        self.reason@
    }

    /// The message of the backend, if it gave one.
    pub open(crate) spec fn said(&self) -> Option<MallocCStr> {
        match self.message {
            Some(owned) => Some(owned@),
            None => None,
        }
    }

    #[verifier::type_invariant]
    spec fn has_reason(&self) -> bool {
        self.reason@.len() > 0
    }

    /// What was not done, in the library's own words. A failure always says
    /// something.
    pub fn as_str(&self) -> (reason: &str)
        ensures
            reason@ == self.reason(),
            reason@.len() > 0,
    {
        proof {
            use_type_invariant(self);
        }
        self.reason.as_str()
    }

    /// The message of the backend, if it gave one.
    pub fn message(&self) -> (message: Option<&MallocCStr>)
        ensures
            message is Some <==> self.said() is Some,
            message is Some ==> *message.unwrap() == self.said().unwrap(),
    {
        match &self.message {
            Some(owned) => Some(owned.borrow()),
            None => None,
        }
    }

    /// Gives the failure up and returns the call that releases the message of
    /// the backend, if there is one to release.
    pub fn release(self) -> (call: Option<Call<'static>>)
        ensures
            call is Some <==> self.said() is Some,
            call is Some ==> call.unwrap()@ == dispose(
                Native::DisposeMessage,
                self.said().unwrap().raw(),
            ),
    {
        match self.message {
            Some(owned) => Some(owned.release()),
            None => None,
        }
    }
}

impl Target {
    /// The handle of the target.
    pub open(crate) spec fn raw(&self) -> usize {
        self.raw
    }

    #[verifier::type_invariant]
    spec fn has_handle(&self) -> bool {
        self.raw != 0
    }

    /// Asks for the target that `triple` names.
    pub fn from_triple<'n>(triple: NulStr<'n>) -> (pending: Pending<'n, Target>)
        ensures
            pending.request() == (CallView {
                function: Native::GetTargetFromTriple,
                handles: Seq::empty(),
                texts: seq![triple.bytes()],
            }),
    {
        Pending {
            call: Call::with_text(
                Native::GetTargetFromTriple,
                Vec::new(),
                triple.as_bytes_with_nul(),
            ),
            brand: (),
        }
    }

    /// The handle of the target, as the backend gave it. It is never null.
    pub fn as_raw(&self) -> (raw: usize)
        ensures
            raw == self.raw(),
            raw != 0,
    {
        proof {
            use_type_invariant(self);
        }
        self.raw
    }
}

impl<'n> Pending<'n, Target> {
    /// Takes what the backend answered with: its status, the handle of the
    /// target, the handle of its message, and the bytes behind that handle.
    /// The lookup succeeded if the status is zero and there is a target;
    /// the message is then not looked at. Otherwise it failed, and there is no
    /// target to use.
    pub fn complete(self, status: i32, target: usize, message: usize, text: Vec<u8>) -> (found:
        Result<Target, Failure>)
        ensures
            found is Ok <==> status == 0 && target != 0,
            match found {
                Ok(found) => found.raw() == target,
                Err(failure) => failure_of(failure, no_target(), message, text@),
            },
    {
        if status == 0 && target != 0 {
            Ok(Target { raw: target })
        } else {
            proof {
                reveal_strlit("the backend has no target for the triple");
            }
            Err(failure("the backend has no target for the triple".to_owned(), message, text))
        }
    }
}

impl TargetMachine {
    /// The handle of the target machine.
    pub open(crate) spec fn raw(&self) -> usize {
        self.raw
    }

    #[verifier::type_invariant]
    spec fn has_handle(&self) -> bool {
        self.raw != 0
    }

    /// Asks for a machine of `target`, for the given triple, processor and
    /// features, that generates code as the three settings say.
    pub fn new<'n>(
        target: &Target,
        triple: NulStr<'n>,
        cpu: NulStr<'n>,
        features: NulStr<'n>,
        opt_level: llvm_sys::target_machine::LLVMCodeGenOptLevel,
        reloc_mode: llvm_sys::target_machine::LLVMRelocMode,
        code_model: llvm_sys::target_machine::LLVMCodeModel,
    ) -> (pending: Pending<'n, TargetMachine>)
        ensures
            pending.request() == (CallView {
                function: Native::CreateTargetMachine(opt_level, reloc_mode, code_model),
                handles: seq![target.raw()],
                texts: seq![triple.bytes(), cpu.bytes(), features.bytes()],
            }),
            no_null(pending.request().handles),
    {
        Pending {
            call: Call::with_texts(
                Native::CreateTargetMachine(opt_level, reloc_mode, code_model),
                one(target.as_raw()),
                triple.as_bytes_with_nul(),
                cpu.as_bytes_with_nul(),
                features.as_bytes_with_nul(),
            ),
            brand: (),
        }
    }

    /// Asks the machine to write the code of `module` to the file named
    /// `filename`, as assembly or as an object file.
    pub fn emit_module_to_file<'n>(
        &self,
        module: &Module<'_, '_>,
        filename: NulStr<'n>,
        codegen: llvm_sys::target_machine::LLVMCodeGenFileType,
    ) -> (pending: Pending<'n, ()>)
        ensures
            pending.request() == (CallView {
                function: Native::TargetMachineEmitToFile(codegen),
                handles: seq![self.raw(), module.raw()],
                texts: seq![filename.bytes()],
            }),
            no_null(pending.request().handles),
    {
        Pending {
            call: Call::with_text(
                Native::TargetMachineEmitToFile(codegen),
                two(self.as_raw(), module.as_raw()),
                filename.as_bytes_with_nul(),
            ),
            brand: (),
        }
    }

    /// Asks for the data layout of the machine. The layout is a resource of
    /// its own.
    pub fn data_layout(&self) -> (pending: Pending<'static, DataLayout>)
        ensures
            pending.request() == (CallView {
                function: Native::CreateTargetDataLayout,
                handles: seq![self.raw()],
                texts: Seq::empty(),
            }),
            no_null(pending.request().handles),
    {
        Pending {
            call: Call::plain(Native::CreateTargetDataLayout, one(self.as_raw())),
            brand: (),
        }
    }

    /// The handle of the target machine, as the backend gave it. It is never null.
    pub fn as_raw(&self) -> (raw: usize)
        ensures
            raw == self.raw(),
            raw != 0,
    {
        proof {
            use_type_invariant(self);
        }
        self.raw
    }
}

impl<'n> Pending<'n, TargetMachine> {
    /// Takes the handle that the backend answered with. A null handle means
    /// that the backend made no target machine.
    pub fn complete(self, raw: usize) -> (machine: Option<Owned<TargetMachine>>)
        ensures
            machine is Some <==> raw != 0,
            machine is Some ==> machine.unwrap()@.raw() == raw,
    {
        if raw == 0 {
            None
        } else {
            Some(Owned::from_raw(TargetMachine { raw }))
        }
    }
}

impl<'n> Pending<'n, ()> {
    /// Takes what the backend answered with: its status, the handle of its
    /// message, and the bytes behind that handle. The work is done if the
    /// status is zero; the message is then not looked at.
    pub fn complete(self, status: i32, message: usize, text: Vec<u8>) -> (done: Result<(), Failure>)
        ensures
            done is Ok <==> status == 0,
            match done {
                Ok(_) => true,
                Err(failure) => failure_of(failure, not_emitted(), message, text@),
            },
    {
        if status == 0 {
            Ok(())
        } else {
            proof {
                reveal_strlit("the backend did not write the module to the file");
            }
            Err(
                failure(
                    "the backend did not write the module to the file".to_owned(),
                    message,
                    text,
                ),
            )
        }
    }
}

impl DropInPlace for TargetMachine {
    open(crate) spec fn held(&self) -> usize {
        self.raw
    }

    open spec fn releaser(&self) -> Native {
        Native::DisposeTargetMachine
    }

    fn drop_in_place(self) -> (call: Call<'static>)
        ensures
            no_null(call@.handles),
    {
        Call::plain(Native::DisposeTargetMachine, one(self.as_raw()))
    }
}

impl DataLayout {
    /// The handle of the data layout.
    pub open(crate) spec fn raw(&self) -> usize {
        self.raw
    }

    #[verifier::type_invariant]
    spec fn has_handle(&self) -> bool {
        self.raw != 0
    }

    /// Asks for the data layout that `desc` describes.
    pub fn from_string<'n>(desc: NulStr<'n>) -> (pending: Pending<'n, DataLayout>)
        ensures
            pending.request() == (CallView {
                function: Native::CreateTargetData,
                handles: Seq::empty(),
                texts: seq![desc.bytes()],
            }),
    {
        Pending {
            call: Call::with_text(Native::CreateTargetData, Vec::new(), desc.as_bytes_with_nul()),
            brand: (),
        }
    }

    /// Asks for the description of the data layout, as the backend writes it.
    pub fn as_string(&self) -> (pending: Pending<'static, MallocCStr>)
        ensures
            pending.request() == (CallView {
                function: Native::CopyStringRepOfTargetData,
                handles: seq![self.raw()],
                texts: Seq::empty(),
            }),
            no_null(pending.request().handles),
    {
        Pending {
            call: Call::plain(Native::CopyStringRepOfTargetData, one(self.as_raw())),
            brand: (),
        }
    }

    /// The handle of the data layout, as the backend gave it. It is never null.
    pub fn as_raw(&self) -> (raw: usize)
        ensures
            raw == self.raw(),
            raw != 0,
    {
        proof {
            use_type_invariant(self);
        }
        self.raw
    }
}

impl<'n> Pending<'n, DataLayout> {
    /// Takes the handle that the backend answered with. A null handle means
    /// that the backend made no data layout, of a description that it could
    /// not read or of a machine that has none: a failure. The backend has no
    /// message to give here, so the failure says what it says in the library's
    /// words and holds no message.
    pub fn complete(self, raw: usize) -> (layout: Result<Owned<DataLayout>, Failure>)
        ensures
            layout is Ok <==> raw != 0,
            match layout {
                Ok(layout) => layout@.raw() == raw,
                Err(failure) => failure_of(failure, no_data_layout(), 0, Seq::empty()),
            },
    {
        if raw == 0 {
            proof {
                reveal_strlit("the backend made no data layout");
            }
            Err(failure("the backend made no data layout".to_owned(), 0, Vec::new()))
        } else {
            Ok(Owned::from_raw(DataLayout { raw }))
        }
    }
}

impl DropInPlace for DataLayout {
    open(crate) spec fn held(&self) -> usize {
        self.raw
    }

    open spec fn releaser(&self) -> Native {
        Native::DisposeTargetData
    }

    fn drop_in_place(self) -> (call: Call<'static>)
        ensures
            no_null(call@.handles),
    {
        Call::plain(Native::DisposeTargetData, one(self.as_raw()))
    }
}

} // verus!
