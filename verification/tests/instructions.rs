use llvm_scope::{
    with_source, Builder, Call, Context, Function, FunctionLabel, Label, Module, Native, NulStr,
    Opcode, Pending, PositionedBuilder, Type, Value,
};
use llvm_sys::{LLVMIntPredicate, LLVMRealPredicate};

const BUILDER: usize = 0x6000;
const LHS: usize = 0x7000;
const RHS: usize = 0x7100;
const TY: usize = 0x3000;
const THEN: usize = 0x5100;
const ELSE: usize = 0x5200;
const CALLEE: usize = 0x4000;

struct Operands<'a, 'id> {
    lhs: Value<'a, 'id>,
    rhs: Value<'a, 'id>,
    ty: Type<'a, 'id>,
    then_block: Label<'a, 'id>,
    else_block: Label<'a, 'id>,
    callee: FunctionLabel<'a, 'id>,
}

fn name() -> NulStr<'static> {
    NulStr::from_bytes_with_nul(b"r\0").unwrap()
}

fn positioned_with(
    body: impl for<'id> FnOnce(&mut PositionedBuilder<'_, '_, '_, 'id>, &Operands<'_, 'id>),
) -> Vec<Opcode> {
    with_source(|mut ids| {
        let context = Context::new(ids.fresh_identity().unwrap()).complete(0x1000).unwrap();
        let context = context.borrow();
        let module =
            Module::new(context, ids.fresh_identity().unwrap(), name()).complete(0x2000).unwrap();
        let ty = Type::integer(context, 32).complete(TY).unwrap();
        let function = Function::new(module.borrow(), ids.fresh_identity().unwrap(), name(), ty)
            .complete(CALLEE)
            .unwrap();
        let mut entry = function.append_basic_block(context, name()).complete(0x5000).unwrap();
        let operands = Operands {
            lhs: function.param(0).complete(LHS).unwrap(),
            rhs: function.param(1).complete(RHS).unwrap(),
            ty,
            then_block: function
                .append_basic_block(context, name())
                .complete(THEN)
                .unwrap()
                .label(),
            else_block: function
                .append_basic_block(context, name())
                .complete(ELSE)
                .unwrap()
                .label(),
            callee: function.label(),
        };
        let mut builder = Builder::new(context).complete(BUILDER).unwrap();
        {
            let (mut positioned, _) = builder.borrow_mut().position_at_end(&mut entry);
            body(&mut positioned, &operands);
        }
        entry.instructions().clone()
    })
}

fn expect(pending: Pending<'_, Value<'_, '_>>, opcode: Opcode, operands: &[usize], named: bool) {
    let mut handles = vec![BUILDER];
    handles.extend_from_slice(operands);
    let texts: Vec<&[u8]> = if named { vec![b"r\0"] } else { vec![] };
    assert_eq!(pending.call(), &Call { function: Native::Build(opcode), handles, texts });
    let value = pending.complete(0x7700).unwrap();
    assert_eq!(value.as_raw(), 0x7700);
}

#[test]
fn arithmetic_of_two_operands_hands_both_over_in_order() {
    let record = positioned_with(|b, o| {
        expect(b.add(&o.lhs, &o.rhs, name()), Opcode::Add, &[LHS, RHS], true);
        expect(b.fadd(&o.lhs, &o.rhs, name()), Opcode::FAdd, &[LHS, RHS], true);
        expect(b.sub(&o.lhs, &o.rhs, name()), Opcode::Sub, &[LHS, RHS], true);
        expect(b.fsub(&o.lhs, &o.rhs, name()), Opcode::FSub, &[LHS, RHS], true);
        expect(b.mul(&o.lhs, &o.rhs, name()), Opcode::Mul, &[LHS, RHS], true);
        expect(b.fmul(&o.lhs, &o.rhs, name()), Opcode::FMul, &[LHS, RHS], true);
        expect(b.udiv(&o.lhs, &o.rhs, name()), Opcode::UDiv, &[LHS, RHS], true);
        expect(b.sdiv(&o.lhs, &o.rhs, name()), Opcode::SDiv, &[LHS, RHS], true);
        expect(b.fdiv(&o.lhs, &o.rhs, name()), Opcode::FDiv, &[LHS, RHS], true);
        expect(b.urem(&o.lhs, &o.rhs, name()), Opcode::URem, &[LHS, RHS], true);
        expect(b.srem(&o.lhs, &o.rhs, name()), Opcode::SRem, &[LHS, RHS], true);
        expect(b.frem(&o.lhs, &o.rhs, name()), Opcode::FRem, &[LHS, RHS], true);
        expect(b.sub(&o.rhs, &o.lhs, name()), Opcode::Sub, &[RHS, LHS], true);
    });
    assert_eq!(
        record,
        vec![
            Opcode::Add,
            Opcode::FAdd,
            Opcode::Sub,
            Opcode::FSub,
            Opcode::Mul,
            Opcode::FMul,
            Opcode::UDiv,
            Opcode::SDiv,
            Opcode::FDiv,
            Opcode::URem,
            Opcode::SRem,
            Opcode::FRem,
            Opcode::Sub,
        ]
    );
}

#[test]
fn shifts_and_bitwise_operations_keep_signedness_apart() {
    let record = positioned_with(|b, o| {
        expect(b.shl(&o.lhs, &o.rhs, name()), Opcode::Shl, &[LHS, RHS], true);
        expect(b.lshr(&o.lhs, &o.rhs, name()), Opcode::LShr, &[LHS, RHS], true);
        expect(b.ashr(&o.lhs, &o.rhs, name()), Opcode::AShr, &[LHS, RHS], true);
        expect(b.and(&o.lhs, &o.rhs, name()), Opcode::And, &[LHS, RHS], true);
        expect(b.or(&o.lhs, &o.rhs, name()), Opcode::Or, &[LHS, RHS], true);
        expect(b.xor(&o.lhs, &o.rhs, name()), Opcode::Xor, &[LHS, RHS], true);
        expect(b.neg(&o.lhs, name()), Opcode::Neg, &[LHS], true);
        expect(b.fneg(&o.lhs, name()), Opcode::FNeg, &[LHS], true);
        expect(b.not(&o.rhs, name()), Opcode::Not, &[RHS], true);
    });
    assert_eq!(
        record,
        vec![
            Opcode::Shl,
            Opcode::LShr,
            Opcode::AShr,
            Opcode::And,
            Opcode::Or,
            Opcode::Xor,
            Opcode::Neg,
            Opcode::FNeg,
            Opcode::Not,
        ]
    );
}

#[test]
fn comparisons_carry_their_predicate() {
    let record = positioned_with(|b, o| {
        expect(
            b.icmp(LLVMIntPredicate::LLVMIntSLT, &o.lhs, &o.rhs, name()),
            Opcode::ICmp(LLVMIntPredicate::LLVMIntSLT),
            &[LHS, RHS],
            true,
        );
        expect(
            b.icmp(LLVMIntPredicate::LLVMIntULT, &o.lhs, &o.rhs, name()),
            Opcode::ICmp(LLVMIntPredicate::LLVMIntULT),
            &[LHS, RHS],
            true,
        );
        expect(
            b.fcmp(LLVMRealPredicate::LLVMRealOEQ, &o.rhs, &o.lhs, name()),
            Opcode::FCmp(LLVMRealPredicate::LLVMRealOEQ),
            &[RHS, LHS],
            true,
        );
    });
    assert_eq!(
        record,
        vec![
            Opcode::ICmp(LLVMIntPredicate::LLVMIntSLT),
            Opcode::ICmp(LLVMIntPredicate::LLVMIntULT),
            Opcode::FCmp(LLVMRealPredicate::LLVMRealOEQ),
        ]
    );
    assert_ne!(
        Opcode::ICmp(LLVMIntPredicate::LLVMIntSLT),
        Opcode::ICmp(LLVMIntPredicate::LLVMIntULT)
    );
}

#[test]
fn conversions_hand_over_the_value_and_then_the_type() {
    let record = positioned_with(|b, o| {
        expect(b.trunc(&o.lhs, &o.ty, name()), Opcode::Trunc, &[LHS, TY], true);
        expect(b.fp_trunc(&o.lhs, &o.ty, name()), Opcode::FPTrunc, &[LHS, TY], true);
        expect(b.zext(&o.lhs, &o.ty, name()), Opcode::ZExt, &[LHS, TY], true);
        expect(b.sext(&o.lhs, &o.ty, name()), Opcode::SExt, &[LHS, TY], true);
        expect(b.fp_ext(&o.lhs, &o.ty, name()), Opcode::FPExt, &[LHS, TY], true);
        expect(b.fp_to_ui(&o.lhs, &o.ty, name()), Opcode::FPToUI, &[LHS, TY], true);
        expect(b.fp_to_si(&o.lhs, &o.ty, name()), Opcode::FPToSI, &[LHS, TY], true);
        expect(b.ui_to_fp(&o.lhs, &o.ty, name()), Opcode::UIToFP, &[LHS, TY], true);
        expect(b.si_to_fp(&o.rhs, &o.ty, name()), Opcode::SIToFP, &[RHS, TY], true);
    });
    assert_eq!(
        record,
        vec![
            Opcode::Trunc,
            Opcode::FPTrunc,
            Opcode::ZExt,
            Opcode::SExt,
            Opcode::FPExt,
            Opcode::FPToUI,
            Opcode::FPToSI,
            Opcode::UIToFP,
            Opcode::SIToFP,
        ]
    );
}

#[test]
fn memory_operations_hand_over_types_and_pointers() {
    let record = positioned_with(|b, o| {
        expect(b.alloca(&o.ty, name()), Opcode::Alloca, &[TY], true);
        expect(b.array_alloca(&o.ty, &o.lhs, name()), Opcode::ArrayAlloca, &[TY, LHS], true);
        expect(b.load(&o.lhs, name()), Opcode::Load, &[LHS], true);
        expect(b.store(&o.lhs, &o.rhs), Opcode::Store, &[LHS, RHS], false);
        expect(b.store(&o.rhs, &o.lhs), Opcode::Store, &[RHS, LHS], false);
    });
    assert_eq!(
        record,
        vec![Opcode::Alloca, Opcode::ArrayAlloca, Opcode::Load, Opcode::Store, Opcode::Store]
    );
}

#[test]
fn control_flow_hands_over_labels_and_names_nothing() {
    let record = positioned_with(|b, o| {
        expect(b.br(&o.then_block), Opcode::Br, &[THEN], false);
        expect(
            b.cond_br(&o.lhs, &o.then_block, &o.else_block),
            Opcode::CondBr,
            &[LHS, THEN, ELSE],
            false,
        );
        expect(b.ret(&o.rhs), Opcode::Ret, &[RHS], false);
        expect(b.ret_void(), Opcode::RetVoid, &[], false);
    });
    assert_eq!(record, vec![Opcode::Br, Opcode::CondBr, Opcode::Ret, Opcode::RetVoid]);
}

#[test]
fn call_hands_over_the_callee_and_then_the_arguments() {
    let record = positioned_with(|b, o| {
        let asked = b.call(&o.callee, &[&o.rhs, &o.lhs, &o.rhs], name()).unwrap();
        expect(asked, Opcode::Call, &[CALLEE, RHS, LHS, RHS], true);
        let asked = b.call(&o.callee, &[], name()).unwrap();
        expect(asked, Opcode::Call, &[CALLEE], true);
    });
    assert_eq!(record, vec![Opcode::Call, Opcode::Call]);
}

#[test]
fn a_null_answer_makes_no_value_and_the_instruction_stays_recorded() {
    let record = positioned_with(|b, o| {
        let asked = b.add(&o.lhs, &o.rhs, name());
        assert!(asked.complete(0).is_none());
        let asked = b.phi(&o.ty, name());
        assert!(asked.complete(0).is_none());
    });
    assert_eq!(record, vec![Opcode::Add, Opcode::Phi]);
}

#[test]
fn no_call_carries_a_null_handle() {
    positioned_with(|b, o| {
        let calls = vec![
            b.add(&o.lhs, &o.rhs, name()).call().handles.clone(),
            b.trunc(&o.lhs, &o.ty, name()).call().handles.clone(),
            b.cond_br(&o.lhs, &o.then_block, &o.else_block).call().handles.clone(),
            b.call(&o.callee, &[&o.lhs], name()).unwrap().call().handles.clone(),
            b.ret_void().call().handles.clone(),
            b.store(&o.lhs, &o.rhs).call().handles.clone(),
            o.lhs.dump().handles,
        ];
        for handles in calls {
            assert!(handles.iter().all(|handle| *handle != 0));
        }
    });
}

#[test]
fn values_are_named_with_any_bytes_and_dumped() {
    positioned_with(|_, o| {
        let named = o.lhs.set_name("x\0y");
        assert_eq!(
            named,
            Call { function: Native::SetValueName2, handles: vec![LHS], texts: vec![&b"x\0y"[..]] }
        );
        let named = o.rhs.set_name("");
        assert_eq!(named.texts, vec![&b""[..]]);
        assert_eq!(
            o.rhs.dump(),
            Call { function: Native::DumpValue, handles: vec![RHS], texts: vec![] }
        );
    });
}
