use wasm_bridge::call::{execute, finish_call};
use wasm_bridge::export::find_callable;
use wasm_bridge::memory::get_memory;
use wasm_bridge::table::{close, InstanceContext, InstanceTable};
use wasm_bridge::value::WasmValue;
use wasmer::sys::{BaseTunables, NativeEngineExt};
use wasmer::{Engine, Function, Imports, Instance, Module, Pages, Store, Value};

const MODULE: &str = r#"(module
    (memory (export "memory") 1)
    (global $count (mut i32) (i32.const 0))
    (func (export "add") (param i32 i32) (result i32) (i32.add (local.get 0) (local.get 1)))
    (func (export "add64") (param i64 i64) (result i64) (i64.add (local.get 0) (local.get 1)))
    (func (export "half") (param f32) (result f32) (f32.mul (local.get 0) (f32.const 0.5)))
    (func (export "twice") (param f64) (result f64) (f64.add (local.get 0) (local.get 0)))
    (func (export "widen") (param i32) (result i64) (i64.extend_i32_s (local.get 0)))
    (func (export "mixed") (param i32 i64 f32 f64) (result f64 f32 i64 i32)
        (local.get 3) (local.get 2) (local.get 1) (local.get 0))
    (func (export "nothing"))
    (func (export "seven") (result i32) (i32.const 7))
    (func (export "boom") unreachable)
    (func (export "divide") (param i32 i32) (result i32) (i32.div_s (local.get 0) (local.get 1)))
    (func (export "null") (result externref) (ref.null extern))
    (func (export "vector") (param v128))
    (func (export "next") (result i32)
        (global.set $count (i32.add (global.get $count) (i32.const 1)))
        (global.get $count))
    (func (export "store") (param i32 i32) (i32.store8 (local.get 0) (local.get 1))))"#;

fn small_store() -> Store {
    let mut engine = Engine::default();
    engine.set_tunables(BaseTunables {
        static_memory_bound: Pages(0),
        static_memory_offset_guard_size: 0,
        dynamic_memory_offset_guard_size: 0x1_0000,
    });
    Store::new(engine)
}

fn context(source: &str) -> InstanceContext {
    let mut store = small_store();
    let module = Module::new(&store, source).unwrap();
    let instance = Instance::new(&mut store, &module, &Imports::new()).unwrap();
    InstanceContext { instance, store }
}

fn table_with(source: &str) -> (InstanceTable, i64) {
    let mut table = InstanceTable::new();
    let handle = table.register(context(source)).unwrap();
    (table, handle)
}

fn to_engine(value: &WasmValue) -> Value {
    match value {
        WasmValue::I32(x) => Value::I32(*x),
        WasmValue::I64(x) => Value::I64(*x),
        WasmValue::F32(bits) => Value::F32(f32::from_bits(*bits)),
        WasmValue::F64(bits) => Value::F64(f64::from_bits(*bits)),
        WasmValue::V128(x) => Value::V128(*x),
        WasmValue::ExternRef => Value::ExternRef(None),
        WasmValue::FuncRef => Value::FuncRef(None),
        WasmValue::ExceptionRef => Value::ExceptionRef(None),
    }
}

fn from_engine(value: &Value) -> WasmValue {
    match value {
        Value::I32(x) => WasmValue::I32(*x),
        Value::I64(x) => WasmValue::I64(*x),
        Value::F32(x) => WasmValue::F32(x.to_bits()),
        Value::F64(x) => WasmValue::F64(x.to_bits()),
        Value::V128(x) => WasmValue::V128(*x),
        Value::ExternRef(_) => WasmValue::ExternRef,
        Value::FuncRef(_) => WasmValue::FuncRef,
        Value::ExceptionRef(_) => WasmValue::ExceptionRef,
    }
}

fn invoke(function: &Function, store: &mut Store, args: Vec<WasmValue>) -> Result<Vec<WasmValue>, String> {
    let args: Vec<Value> = args.iter().map(to_engine).collect();
    match function.call(store, &args) {
        Ok(results) => Ok(results.iter().map(from_engine).collect()),
        Err(e) => Err(format!("{:?}", e)),
    }
}

fn run(table: &mut InstanceTable, id: i64, method: &str, args: Vec<i64>) -> Result<Vec<i64>, String> {
    execute(table, id, method, &args, invoke).map_err(|e| e.0)
}

#[test]
fn integers_go_in_and_come_out() {
    let (mut table, id) = table_with(MODULE);
    assert_eq!(run(&mut table, id, "add", vec![2, 3]), Ok(vec![5]));
    assert_eq!(run(&mut table, id, "add", vec![-2, 1]), Ok(vec![-1]));
    assert_eq!(run(&mut table, id, "add", vec![i32::MAX as i64, 1]), Ok(vec![i32::MIN as i64]));
    assert_eq!(run(&mut table, id, "add64", vec![1 << 40, 1]), Ok(vec![(1 << 40) + 1]));
    assert_eq!(run(&mut table, id, "add64", vec![i64::MAX, 1]), Ok(vec![i64::MIN]));
}

#[test]
fn an_i32_result_comes_out_sign_extended() {
    let (mut table, id) = table_with(MODULE);
    assert_eq!(run(&mut table, id, "add", vec![0, -1]), Ok(vec![-1]));
    assert_eq!(run(&mut table, id, "widen", vec![-5]), Ok(vec![-5]));
}

#[test]
fn an_i32_argument_goes_in_by_its_low_bits() {
    let (mut table, id) = table_with(MODULE);
    assert_eq!(run(&mut table, id, "add", vec![0x1_0000_0002, 0x7_0000_0003]), Ok(vec![5]));
    assert_eq!(run(&mut table, id, "widen", vec![0xffff_ffff]), Ok(vec![-1]));
}

#[test]
fn floats_go_in_and_come_out_by_their_bits() {
    let (mut table, id) = table_with(MODULE);
    assert_eq!(
        run(&mut table, id, "half", vec![3.0f32.to_bits() as i64]),
        Ok(vec![1.5f32.to_bits() as i64])
    );
    assert_eq!(
        run(&mut table, id, "half", vec![(-3.0f32).to_bits() as i64]),
        Ok(vec![(-1.5f32).to_bits() as i64])
    );
    assert_eq!(
        run(&mut table, id, "twice", vec![1.25f64.to_bits() as i64]),
        Ok(vec![2.5f64.to_bits() as i64])
    );
    assert_eq!(
        run(&mut table, id, "twice", vec![(-1.25f64).to_bits() as i64]),
        Ok(vec![(-2.5f64).to_bits() as i64])
    );
}

#[test]
fn several_results_come_out_in_order() {
    let (mut table, id) = table_with(MODULE);
    let args = vec![-1, -2, 1.0f32.to_bits() as i64, 2.0f64.to_bits() as i64];
    assert_eq!(
        run(&mut table, id, "mixed", args),
        Ok(vec![2.0f64.to_bits() as i64, 1.0f32.to_bits() as i64, -2, -1])
    );
}

#[test]
fn a_function_without_parameters_or_results_can_be_called() {
    let (mut table, id) = table_with(MODULE);
    assert_eq!(run(&mut table, id, "nothing", vec![]), Ok(vec![]));
    assert_eq!(run(&mut table, id, "seven", vec![]), Ok(vec![7]));
}

#[test]
fn the_function_is_handed_the_decoded_arguments_once() {
    let (mut table, id) = table_with(MODULE);
    let mut seen: Vec<Vec<WasmValue>> = Vec::new();
    let result = execute(&mut table, id, "mixed", &vec![0x1_0000_0001, 2, -1, -1], |_, _, args| {
        seen.push(args);
        Ok(vec![WasmValue::I64(9)])
    });
    assert_eq!(result.unwrap(), vec![9]);
    assert_eq!(
        seen,
        vec![vec![
            WasmValue::I32(1),
            WasmValue::I64(2),
            WasmValue::F32(u32::MAX),
            WasmValue::F64(u64::MAX)
        ]]
    );
}

#[test]
fn the_function_handed_over_is_the_one_exported_under_the_name() {
    let (mut table, id) = table_with(MODULE);
    let result = execute(&mut table, id, "add", &vec![1, 2], |function, store, _| {
        let answer = function.call(store, &[Value::I32(20), Value::I32(22)]).unwrap();
        Ok(answer.iter().map(from_engine).collect())
    });
    assert_eq!(result.unwrap(), vec![42]);
}

#[test]
fn a_wrong_number_of_arguments_is_refused_before_the_call() {
    let (mut table, id) = table_with(MODULE);
    for args in [vec![], vec![1], vec![1, 2, 3]] {
        let mut called = false;
        let result = execute(&mut table, id, "add", &args, |_, _, _| {
            called = true;
            Ok(Vec::new())
        });
        assert_eq!(result.unwrap_err().0, "invalid params length");
        assert!(!called);
    }
    assert_eq!(run(&mut table, id, "nothing", vec![0]), Err("invalid params length".to_string()));
}

#[test]
fn a_parameter_without_a_wire_form_is_refused_before_the_call() {
    let (mut table, id) = table_with(MODULE);
    let mut called = false;
    let result = execute(&mut table, id, "vector", &vec![1], |_, _, _| {
        called = true;
        Ok(Vec::new())
    });
    assert_eq!(result.unwrap_err().0, "unsupported param type");
    assert!(!called);
    assert_eq!(run(&mut table, id, "vector", vec![]), Err("invalid params length".to_string()));
}

#[test]
fn a_missing_function_is_refused() {
    let (mut table, id) = table_with(MODULE);
    assert_eq!(run(&mut table, id, "absent", vec![]), Err("Missing export absent".to_string()));
    assert_eq!(run(&mut table, id, "", vec![]), Err("Missing export ".to_string()));
}

#[test]
fn an_export_that_is_no_function_is_refused() {
    let (mut table, id) = table_with(MODULE);
    assert_eq!(run(&mut table, id, "memory", vec![]), Err("Incompatible Export Type".to_string()));
}

#[test]
fn an_unknown_handle_is_refused_before_the_call() {
    let (mut table, id) = table_with(MODULE);
    for handle in [0, -1, id + 1] {
        assert_eq!(run(&mut table, handle, "seven", vec![]), Err("invalid instance handle".to_string()));
    }
    close(&mut table, id).unwrap();
    assert_eq!(run(&mut table, id, "seven", vec![]), Err("invalid instance handle".to_string()));
}

#[test]
fn a_function_of_another_store_is_refused() {
    let InstanceContext { instance, store: _kept } = context(MODULE);
    let mut table = InstanceTable::new();
    let id = table.register(InstanceContext { instance, store: small_store() }).unwrap();
    assert_eq!(
        run(&mut table, id, "seven", vec![]),
        Err("function belongs to another store".to_string())
    );
}

#[test]
fn a_trap_comes_back_as_a_runtime_error() {
    let (mut table, id) = table_with(MODULE);
    let message = run(&mut table, id, "boom", vec![]).unwrap_err();
    assert!(message.starts_with("Got unexpected runtime error: "), "{}", message);
    assert!(message.len() > "Got unexpected runtime error: ".len());
    let message = run(&mut table, id, "divide", vec![1, 0]).unwrap_err();
    assert!(message.starts_with("Got unexpected runtime error: "), "{}", message);
    assert_eq!(run(&mut table, id, "divide", vec![7, 2]), Ok(vec![3]));
}

#[test]
fn the_text_of_the_failure_follows_the_prefix() {
    let (mut table, id) = table_with(MODULE);
    let result = execute(&mut table, id, "seven", &vec![], |_, _, _| Err("out of fuel".to_string()));
    assert_eq!(result.unwrap_err().0, "Got unexpected runtime error: out of fuel");
}

#[test]
fn a_result_without_a_wire_form_is_refused() {
    let (mut table, id) = table_with(MODULE);
    assert_eq!(run(&mut table, id, "null", vec![]), Err("unsupported return type".to_string()));
}

#[test]
fn what_a_call_leaves_in_the_store_stays() {
    let (mut table, id) = table_with(MODULE);
    assert_eq!(run(&mut table, id, "next", vec![]), Ok(vec![1]));
    assert_eq!(run(&mut table, id, "next", vec![]), Ok(vec![2]));
    assert_eq!(run(&mut table, id, "store", vec![100, 33]), Ok(vec![]));
    assert_eq!(get_memory(&table, id, 100, 1).unwrap(), vec![33]);
}

#[test]
fn a_failed_call_leaves_the_instance_usable() {
    let (mut table, id) = table_with(MODULE);
    assert!(run(&mut table, id, "boom", vec![]).is_err());
    assert!(run(&mut table, id, "add", vec![1]).is_err());
    assert_eq!(run(&mut table, id, "add", vec![1, 1]), Ok(vec![2]));
}

#[test]
fn the_results_of_a_call_are_turned_into_wire_forms() {
    assert_eq!(
        finish_call(Ok(vec![WasmValue::I32(-1), WasmValue::F32(7), WasmValue::F64(u64::MAX)])).unwrap(),
        vec![-1, 7, -1]
    );
    assert_eq!(finish_call(Ok(Vec::new())).unwrap(), Vec::<i64>::new());
}

#[test]
fn the_failures_of_a_call_are_named() {
    assert_eq!(
        finish_call(Err("trap".to_string())).unwrap_err().0,
        "Got unexpected runtime error: trap"
    );
    assert_eq!(finish_call(Err(String::new())).unwrap_err().0, "Got unexpected runtime error: ");
    assert_eq!(
        finish_call(Ok(vec![WasmValue::I32(1), WasmValue::FuncRef])).unwrap_err().0,
        "unsupported return type"
    );
    assert_eq!(finish_call(Ok(vec![WasmValue::V128(0)])).unwrap_err().0, "unsupported return type");
}

#[test]
fn a_function_is_found_by_its_name() {
    let found = context(MODULE);
    let add = find_callable(&found.instance, &found.store, "add64").unwrap();
    assert_eq!(add.param_arity(&found.store), 2);
    assert_eq!(add.ty(&found.store).params(), [wasmer::Type::I64, wasmer::Type::I64]);
    let mixed = find_callable(&found.instance, &found.store, "mixed").unwrap();
    assert_eq!(mixed.param_arity(&found.store), 4);
    assert_eq!(
        find_callable(&found.instance, &found.store, "memory").unwrap_err().0,
        "Incompatible Export Type"
    );
}
