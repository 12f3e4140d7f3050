use llvm_scope::{
    with_source, BasicBlock, Builder, Context, DerivesFrom, Function, Identity, IdentitySource,
    Label, Module, Native, NulStr, Opcode, Owned, Type, Value,
};

fn cstr(bytes: &[u8]) -> NulStr<'_> {
    NulStr::from_bytes_with_nul(bytes).unwrap()
}

fn mint<'id>(ids: &mut IdentitySource<'id>) -> Identity<'id> {
    ids.fresh_identity().unwrap()
}

fn context_at<'id>(ids: &mut IdentitySource<'id>, raw: usize) -> Owned<Context<'id>> {
    Context::new(mint(ids)).complete(raw).unwrap()
}

fn module_at<'c, 'id>(
    ids: &mut IdentitySource<'id>,
    context: &'c Context<'id>,
    raw: usize,
) -> Owned<Module<'c, 'id>> {
    Module::new(context, mint(ids), cstr(b"m\0")).complete(raw).unwrap()
}

fn function_at<'m, 'id>(
    ids: &mut IdentitySource<'id>,
    context: &Context<'id>,
    module: &'m Module<'_, 'id>,
    raw: usize,
) -> Function<'m, 'id> {
    let i32_ty = Type::integer(context, 32).complete(0x3000).unwrap();
    let fn_ty = Type::function(&[i32_ty], i32_ty).unwrap().complete(0x3100).unwrap();
    Function::new(module, mint(ids), cstr(b"f\0"), fn_ty).complete(raw).unwrap()
}

fn block_at<'f, 'id>(
    context: &Context<'id>,
    function: &'f Function<'_, 'id>,
    raw: usize,
) -> BasicBlock<'f, 'id> {
    function.append_basic_block(context, cstr(b"bb\0")).complete(raw).unwrap()
}

fn param_at<'f, 'id>(function: &'f Function<'_, 'id>, raw: usize) -> Value<'f, 'id> {
    function.param(0).complete(raw).unwrap()
}

#[test]
fn add_and_return_fill_one_block_with_two_instructions() {
    with_source(|mut ids| {
        let context = context_at(&mut ids, 0x1000);
        let module = module_at(&mut ids, context.borrow(), 0x2000);
        let function = function_at(&mut ids, context.borrow(), module.borrow(), 0x4000);
        let asked = function.append_basic_block(context.borrow(), cstr(b"entry\0"));
        assert_eq!(asked.call().function, Native::AppendBasicBlockInContext);
        assert_eq!(asked.call().handles, vec![0x1000, 0x4000]);
        assert_eq!(asked.call().texts, vec![&b"entry\0"[..]]);
        let mut entry = asked.complete(0x5000).unwrap();
        assert!(entry.instructions().is_empty());
        let mut builder = Builder::new(context.borrow()).complete(0x6000).unwrap();
        let v = param_at(&function, 0x7000);
        {
            let (mut positioned, call) = builder.borrow_mut().position_at_end(&mut entry);
            assert_eq!(call.function, Native::PositionBuilderAtEnd);
            assert_eq!(call.handles, vec![0x6000, 0x5000]);
            assert!(call.texts.is_empty());
            assert!(positioned.is_positioned());
            assert!(positioned.accepts(&v));
            let pending = positioned.add(&v, &v, cstr(b"tmp\0"));
            assert_eq!(pending.call().function, Native::Build(Opcode::Add));
            assert_eq!(pending.call().handles, vec![0x6000, 0x7000, 0x7000]);
            assert_eq!(pending.call().texts, vec![&b"tmp\0"[..]]);
            let sum = pending.complete(0x7100).unwrap();
            assert_eq!(sum.as_raw(), 0x7100);
            assert!(positioned.accepts(&sum));
            let ret = positioned.ret(&sum);
            assert_eq!(ret.call().function, Native::Build(Opcode::Ret));
            assert_eq!(ret.call().handles, vec![0x6000, 0x7100]);
            assert!(ret.call().texts.is_empty());
            let returned = ret.complete(0x7200).unwrap();
            assert!(returned.scope_of().same(&function.scope_of()));
        }
        assert_eq!(entry.instructions(), &vec![Opcode::Add, Opcode::Ret]);
        assert_eq!(entry.as_raw(), 0x5000);
        assert_eq!(builder.borrow().as_raw(), 0x6000);
        assert_eq!(builder.as_raw(), 0x6000);
        assert!(entry.is_terminated());
    });
}

#[test]
fn a_block_is_terminated_when_its_last_instruction_ends_it() {
    with_source(|mut ids| {
        let context = context_at(&mut ids, 0x1000);
        let module = module_at(&mut ids, context.borrow(), 0x2000);
        let function = function_at(&mut ids, context.borrow(), module.borrow(), 0x4000);
        let mut entry = block_at(context.borrow(), &function, 0x5000);
        let target = block_at(context.borrow(), &function, 0x5100).label();
        let mut builder = Builder::new(context.borrow()).complete(0x6000).unwrap();
        let v = param_at(&function, 0x7000);
        assert!(!entry.is_terminated());
        {
            let (mut positioned, _) = builder.borrow_mut().position_at_end(&mut entry);
            let _ = positioned.add(&v, &v, cstr(b"a\0"));
        }
        assert!(!entry.is_terminated());
        {
            let (mut positioned, _) = builder.borrow_mut().position_at_end(&mut entry);
            let _ = positioned.cond_br(&v, &target, &target);
        }
        assert!(entry.is_terminated());
        {
            let (mut positioned, _) = builder.borrow_mut().position_at_end(&mut entry);
            let _ = positioned.sub(&v, &v, cstr(b"late\0"));
        }
        assert!(!entry.is_terminated());
        assert_eq!(entry.instructions(), &vec![Opcode::Add, Opcode::CondBr, Opcode::Sub]);
        assert!(Opcode::Br.is_terminator());
        assert!(Opcode::Ret.is_terminator());
        assert!(Opcode::RetVoid.is_terminator());
        assert!(!Opcode::Phi.is_terminator());
        assert!(!Opcode::Call.is_terminator());
    });
}

#[test]
fn value_carries_the_scope_of_the_function_of_its_block() {
    with_source(|mut ids| {
        let context = context_at(&mut ids, 0x1000);
        let module = module_at(&mut ids, context.borrow(), 0x2000);
        let function = function_at(&mut ids, context.borrow(), module.borrow(), 0x4000);
        let mut entry = block_at(context.borrow(), &function, 0x5000);
        let mut builder = Builder::new(context.borrow()).complete(0x6000).unwrap();
        let v = param_at(&function, 0x7000);
        let (mut positioned, _) = builder.borrow_mut().position_at_end(&mut entry);
        let negated = positioned.neg(&v, cstr(b"n\0")).complete(0x7100).unwrap();
        let scope = negated.scope_of();
        assert!(scope.same(&function.scope_of()));
        assert_eq!(scope.context().as_u64(), context.borrow().identity().as_u64());
        assert_eq!(scope.module().as_u64(), module.borrow().identity().as_u64());
        assert_eq!(scope.function().as_u64(), function.scope_of().function().as_u64());
        assert_eq!(scope.context().as_u64(), 0);
        assert_eq!(scope.module().as_u64(), 1);
        assert_eq!(scope.function().as_u64(), 2);
    });
}

#[test]
fn value_of_another_function_is_not_accepted() {
    with_source(|mut ids| {
        let context = context_at(&mut ids, 0x1000);
        let module = module_at(&mut ids, context.borrow(), 0x2000);
        let f = function_at(&mut ids, context.borrow(), module.borrow(), 0x4000);
        let g = function_at(&mut ids, context.borrow(), module.borrow(), 0x4100);
        let mut f_entry = block_at(context.borrow(), &f, 0x5000);
        let g_entry = block_at(context.borrow(), &g, 0x5100);
        let mut builder = Builder::new(context.borrow()).complete(0x6000).unwrap();
        let of_f = param_at(&f, 0x7000);
        let of_g = param_at(&g, 0x7100);
        let (positioned, _) = builder.borrow_mut().position_at_end(&mut f_entry);
        assert!(positioned.accepts(&of_f));
        assert!(!positioned.accepts(&of_g));
        assert!(positioned.accepts_label(&f_entry_label(&f, context.borrow())));
        assert!(!positioned.accepts_label(&g_entry.label()));
        assert!(positioned.accepts_callee(&g.label()));
    });
}

fn f_entry_label<'f, 'id>(
    function: &'f Function<'_, 'id>,
    context: &Context<'id>,
) -> Label<'f, 'id> {
    block_at(context, function, 0x5200).label()
}

#[test]
fn value_of_another_context_is_not_accepted() {
    with_source(|mut ids| {
        let a = context_at(&mut ids, 0x1000);
        let b = context_at(&mut ids, 0x1100);
        assert_ne!(a.borrow().identity().as_u64(), b.borrow().identity().as_u64());
        let a_module = module_at(&mut ids, a.borrow(), 0x2000);
        let b_module = module_at(&mut ids, b.borrow(), 0x2100);
        let a_function = function_at(&mut ids, a.borrow(), a_module.borrow(), 0x4000);
        let b_function = function_at(&mut ids, b.borrow(), b_module.borrow(), 0x4100);
        let mut a_entry = block_at(a.borrow(), &a_function, 0x5000);
        let mut b_entry = block_at(b.borrow(), &b_function, 0x5100);
        let mut a_builder = Builder::new(a.borrow()).complete(0x6000).unwrap();
        let mut b_builder = Builder::new(b.borrow()).complete(0x6100).unwrap();
        let of_a = param_at(&a_function, 0x7000);
        let of_b = param_at(&b_function, 0x7100);
        let a_type = Type::double(a.borrow()).complete(0x3200).unwrap();
        let b_type = Type::double(b.borrow()).complete(0x3300).unwrap();
        assert!(!a_type.same_context(&b_type));
        assert!(a_builder.borrow().accepts_block(&a_entry));
        assert!(!a_builder.borrow().accepts_block(&b_entry));
        assert!(!b_builder.borrow().accepts_block(&a_entry));
        let (in_a, _) = a_builder.borrow_mut().position_at_end(&mut a_entry);
        let (in_b, _) = b_builder.borrow_mut().position_at_end(&mut b_entry);
        assert!(in_a.accepts(&of_a));
        assert!(!in_a.accepts(&of_b));
        assert!(!in_b.accepts(&of_a));
        assert!(in_b.accepts(&of_b));
        assert!(in_a.accepts_type(&a_type));
        assert!(!in_a.accepts_type(&b_type));
        assert!(!in_a.accepts_callee(&b_function.label()));
        assert!(in_a.accepts_callee(&a_function.label()));
    });
}

#[test]
fn repositioning_keeps_the_values_of_the_first_block() {
    with_source(|mut ids| {
        let context = context_at(&mut ids, 0x1000);
        let module = module_at(&mut ids, context.borrow(), 0x2000);
        let function = function_at(&mut ids, context.borrow(), module.borrow(), 0x4000);
        let mut first = block_at(context.borrow(), &function, 0x5000);
        let mut second = block_at(context.borrow(), &function, 0x5100);
        let second_label = second.label();
        let mut builder = Builder::new(context.borrow()).complete(0x6000).unwrap();
        let v = param_at(&function, 0x7000);
        {
            let (mut positioned, _) = builder.borrow_mut().position_at_end(&mut first);
            let on_first = positioned.mul(&v, &v, cstr(b"sq\0")).complete(0x7100).unwrap();
            let jump = positioned.br(&second_label);
            assert_eq!(jump.call().function, Native::Build(Opcode::Br));
            assert_eq!(jump.call().handles, vec![0x6000, 0x5100]);
            let moved = positioned.position_at_end(&mut second);
            assert_eq!(moved.function, Native::PositionBuilderAtEnd);
            assert_eq!(moved.handles, vec![0x6000, 0x5100]);
            assert!(positioned.is_positioned());
            assert!(positioned.accepts(&on_first));
            assert!(positioned.accepts(&v));
            let on_second = positioned.add(&on_first, &v, cstr(b"s\0")).complete(0x7200).unwrap();
            assert!(positioned.accepts(&on_second));
            let ret = positioned.ret(&on_second);
            assert_eq!(ret.call().handles, vec![0x6000, 0x7200]);
        }
        assert_eq!(first.instructions(), &vec![Opcode::Mul, Opcode::Br]);
        assert_eq!(second.instructions(), &vec![Opcode::Add, Opcode::Ret]);
    });
}

#[test]
fn positioning_twice_appends_after_what_is_there() {
    with_source(|mut ids| {
        let context = context_at(&mut ids, 0x1000);
        let module = module_at(&mut ids, context.borrow(), 0x2000);
        let function = function_at(&mut ids, context.borrow(), module.borrow(), 0x4000);
        let mut entry = block_at(context.borrow(), &function, 0x5000);
        let mut builder = Builder::new(context.borrow()).complete(0x6000).unwrap();
        let v = param_at(&function, 0x7000);
        {
            let (mut positioned, _) = builder.borrow_mut().position_at_end(&mut entry);
            let _ = positioned.not(&v, cstr(b"a\0"));
        }
        {
            let (mut positioned, _) = builder.borrow_mut().position_at_end(&mut entry);
            let _ = positioned.ret_void();
        }
        assert_eq!(entry.instructions(), &vec![Opcode::Not, Opcode::RetVoid]);
    });
}

#[test]
fn phi_is_a_value_and_takes_edges_of_its_function() {
    with_source(|mut ids| {
        let context = context_at(&mut ids, 0x1000);
        let module = module_at(&mut ids, context.borrow(), 0x2000);
        let function = function_at(&mut ids, context.borrow(), module.borrow(), 0x4000);
        let mut entry = block_at(context.borrow(), &function, 0x5000);
        let from = block_at(context.borrow(), &function, 0x5100).label();
        let mut builder = Builder::new(context.borrow()).complete(0x6000).unwrap();
        let v = param_at(&function, 0x7000);
        let ty = Type::integer(context.borrow(), 32).complete(0x3000).unwrap();
        let (mut positioned, _) = builder.borrow_mut().position_at_end(&mut entry);
        let asked = positioned.phi(&ty, cstr(b"p\0"));
        assert_eq!(asked.call().function, Native::Build(Opcode::Phi));
        assert_eq!(asked.call().handles, vec![0x6000, 0x3000]);
        assert_eq!(asked.call().texts, vec![&b"p\0"[..]]);
        let mut phi = asked.complete(0x7300).unwrap();
        assert_eq!(phi.as_raw(), 0x7300);
        let edge = phi.add_incoming(&v, &from);
        assert_eq!(edge.function, Native::AddIncoming);
        assert_eq!(edge.handles, vec![0x7300, 0x7000, 0x5100]);
        assert!(positioned.accepts(phi.as_value()));
        assert_eq!(phi.upcast().as_raw(), 0x7300);
        assert_eq!(v.upcast().as_raw(), 0x7000);
        let used = positioned.add(phi.upcast(), &v, cstr(b"u\0"));
        assert_eq!(used.call().handles, vec![0x6000, 0x7300, 0x7000]);
    });
}

#[test]
fn a_builder_whose_block_was_put_in_by_hand_is_not_positioned() {
    with_source(|mut ids| {
        let context = context_at(&mut ids, 0x1000);
        let module = module_at(&mut ids, context.borrow(), 0x2000);
        let function = function_at(&mut ids, context.borrow(), module.borrow(), 0x4000);
        let mut first = block_at(context.borrow(), &function, 0x5000);
        let mut second = block_at(context.borrow(), &function, 0x5100);
        let mut third = block_at(context.borrow(), &function, 0x5200);
        let mut builder = Builder::new(context.borrow()).complete(0x6000).unwrap();
        let (mut positioned, _) = builder.borrow_mut().position_at_end(&mut first);
        assert!(positioned.is_positioned());
        positioned.block = &mut second;
        assert!(!positioned.is_positioned());
        let moved = positioned.position_at_end(&mut third);
        assert_eq!(moved.handles, vec![0x6000, 0x5200]);
        assert!(positioned.is_positioned());
    });
}

#[test]
fn sources_mint_apart_and_nothing_of_one_leaves_its_scope() {
    let first = with_source(|mut ids| {
        let context = context_at(&mut ids, 0x1000);
        let token = context.borrow().identity().as_u64();
        (token, context.release())
    });
    let second = with_source(|mut ids| {
        let context = context_at(&mut ids, 0x1100);
        let token = context.borrow().identity().as_u64();
        (token, context.release())
    });
    assert_eq!(first.0, 0);
    assert_eq!(second.0, 0);
    assert_eq!(first.1.handles, vec![0x1000]);
    assert_eq!(second.1.handles, vec![0x1100]);
}
