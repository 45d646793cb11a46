use quantum_random::error::{QuantumError, StringedError, Throwable};

#[test]
fn throw_keeps_the_text() {
    let r: Result<u32, QuantumError> = QuantumError::throw("boom".to_string());
    match r {
        Err(e) => assert_eq!(e.to_string(), "boom"),
        Ok(_) => panic!("throw returned a success"),
    }
}

#[test]
fn throw_with_empty_text() {
    let r: Result<(), QuantumError> = QuantumError::throw(String::new());
    assert_eq!(r.unwrap_err().to_string(), "");
}

#[test]
fn stringed_error_renders_its_text() {
    let e = StringedError::new("disk full".to_string());
    assert_eq!(e.to_string(), "disk full");
}
