use revm_core::inspector::CallControl;
use revm_core::inspector::CallInputs;
use revm_core::inspector::CreateControl;
use revm_core::inspector::CreateInputs;
use revm_core::inspector::EvmData;
use revm_core::inspector::Gas;
use revm_core::inspector::Inspector;
use revm_core::inspector::Interpreter;
use revm_core::inspector::NoOpInspector;
use revm_core::inspector::Return;
use revm_core::inspector::proceeds;
use revm_core::inspector::resolve_call_hook;
use revm_core::inspector::resolve_create_hook;
use revm_core::inspector::resolve_step_end;
use revm_core::u64_to_b160;

fn machine() -> (Interpreter, EvmData<u32>) {
    (
        Interpreter {
            program_counter: 7,
            gas: Gas::new(21000),
        },
        EvmData { db: 0u32 },
    )
}

fn call_inputs() -> CallInputs {
    CallInputs {
        contract: u64_to_b160(2),
        value: 5,
        input: vec![0xde, 0xad],
        gas_limit: 700,
    }
}

#[test]
fn default_hooks_observe_without_altering() {
    let mut ins = NoOpInspector;
    let (mut interp, mut data) = machine();
    let before = interp.clone();

    assert_eq!(ins.initialize_interp(&mut interp, &mut data, false), Return::Continue);
    assert_eq!(ins.step(&mut interp, &mut data, true), Return::Continue);
    assert_eq!(
        ins.step_end(&mut interp, &mut data, false, Return::Stop),
        Return::Continue
    );
    ins.log(&mut data, &u64_to_b160(3), &[[7u8; 32]], &[1, 2]);
    <NoOpInspector as Inspector<u32>>::selfdestruct(&mut ins);

    assert_eq!(interp, before);
    assert_eq!(data.db, 0);

    let (sig, gas, out) = ins.call(&mut data, &mut call_inputs(), false);
    assert_eq!(sig, Return::Continue);
    assert_eq!(gas.limit, 0);
    assert!(out.is_empty());

    let (sig, gas, out) = ins.call_end(
        &mut data,
        &call_inputs(),
        Gas::new(123),
        Return::Stop,
        vec![9, 9],
        false,
    );
    assert_eq!(sig, Return::Stop);
    assert_eq!(gas.limit, 123);
    assert_eq!(out, vec![9, 9]);

    let mut create = CreateInputs {
        caller: u64_to_b160(1),
        value: 0,
        init_code: vec![0x60],
        gas_limit: 53000,
    };
    let (sig, addr, gas, out) = ins.create(&mut data, &mut create);
    assert_eq!(sig, Return::Continue);
    assert_eq!(addr, None);
    assert_eq!(gas.limit, 0);
    assert!(out.is_empty());

    let (sig, addr, gas, out) = ins.create_end(
        &mut data,
        &create,
        Return::Revert,
        Some(u64_to_b160(77)),
        Gas::new(11),
        vec![4],
    );
    assert_eq!(sig, Return::Revert);
    assert_eq!(addr, Some(u64_to_b160(77)));
    assert_eq!(gas.limit, 11);
    assert_eq!(out, vec![4]);
}

#[test]
fn boxed_inspector_forwards_hooks() {
    let mut ins: Box<NoOpInspector> = Box::new(NoOpInspector);
    let (mut interp, mut data) = machine();
    assert_eq!(ins.initialize_interp(&mut interp, &mut data, false), Return::Continue);
    assert_eq!(ins.step(&mut interp, &mut data, false), Return::Continue);
    let (sig, _, _) = ins.call(&mut data, &mut call_inputs(), false);
    assert_eq!(sig, Return::Continue);
    <Box<NoOpInspector> as Inspector<u32>>::selfdestruct(&mut ins);
}

#[test]
fn mut_ref_inspector_forwards_hooks() {
    let mut inner = NoOpInspector;
    let mut ins: &mut NoOpInspector = &mut inner;
    let (mut interp, mut data) = machine();
    assert_eq!(ins.initialize_interp(&mut interp, &mut data, false), Return::Continue);
    assert_eq!(
        ins.step_end(&mut interp, &mut data, false, Return::Revert),
        Return::Continue
    );
    let (sig, addr, _, _) = ins.create(
        &mut data,
        &mut CreateInputs {
            caller: u64_to_b160(1),
            value: 0,
            init_code: Vec::new(),
            gas_limit: 0,
        },
    );
    assert_eq!(sig, Return::Continue);
    assert_eq!(addr, None);
}

#[test]
fn continue_signals_are_transparent() {
    assert!(proceeds(Return::Continue));
    assert!(!proceeds(Return::Stop));
    assert!(!proceeds(Return::Revert));

    assert_eq!(resolve_step_end(Return::Stop, Return::Continue), Return::Stop);
    assert_eq!(resolve_step_end(Return::Continue, Return::Continue), Return::Continue);
    assert_eq!(resolve_step_end(Return::Stop, Return::Revert), Return::Revert);

    assert_eq!(
        resolve_call_hook(Return::Continue, Gas::new(0), Vec::new()),
        CallControl::Execute
    );
    assert_eq!(
        resolve_create_hook(Return::Continue, None, Gas::new(0), Vec::new()),
        CreateControl::Execute
    );
}

#[test]
fn call_hook_override_skips_execution_with_fixed_output() {
    // A hook answering with a non-continue signal, fixed bytes and zero gas
    // makes the sub-call resolve to exactly those, whatever the target.
    let fixed = vec![0xca, 0xfe];
    let control = resolve_call_hook(Return::Stop, Gas::new(0), fixed.clone());
    match control {
        CallControl::Override(sig, gas, out) => {
            assert_eq!(sig, Return::Stop);
            assert_eq!(gas.limit, 0);
            assert_eq!(out, fixed);
        }
        CallControl::Execute => panic!("the override must skip native execution"),
    }
}

#[test]
fn create_hook_override_replaces_the_creation() {
    let control = resolve_create_hook(
        Return::Revert,
        Some(u64_to_b160(8)),
        Gas::new(3),
        vec![1],
    );
    match control {
        CreateControl::Override(sig, addr, gas, out) => {
            assert_eq!(sig, Return::Revert);
            assert_eq!(addr, Some(u64_to_b160(8)));
            assert_eq!(gas.limit, 3);
            assert_eq!(out, vec![1]);
        }
        CreateControl::Execute => panic!("the override must skip native execution"),
    }
}
