use wasm_bridge::error::StringErr;

#[test]
fn an_error_carries_its_message() {
    let e = StringErr::new("memory access overflow");
    assert_eq!(e.message(), "memory access overflow");
    assert_eq!(e.0, "memory access overflow");
    assert_eq!(StringErr::new("").message(), "");
}

#[test]
fn an_error_can_be_copied_and_shown() {
    let e = StringErr(String::from("invalid params length"));
    let copy = e.clone();
    assert_eq!(copy.message(), e.message());
    assert_eq!(format!("{:?}", e), "StringErr(\"invalid params length\")");
}
