use relic_node::helpers::{secs_to_millis, IntoAnyhow, MAX_DELAY_SECS};

#[test]
fn seconds_become_milliseconds() {
    assert_eq!(secs_to_millis(0), 0);
    assert_eq!(secs_to_millis(3), 3000);
    assert_eq!(secs_to_millis(MAX_DELAY_SECS), 4_294_967_000);
}

#[test]
fn success_is_kept() {
    let r: Result<u32, &str> = Ok(5);
    assert_eq!(r.into_anyhow().unwrap(), 5);
}

#[test]
fn failure_carries_its_debug_text() {
    let r: Result<u32, &str> = Err("boom");
    let e = r.into_anyhow().unwrap_err();
    assert_eq!(e.to_string(), "\"boom\"");
}

#[derive(Debug)]
struct Code(i32);

#[test]
fn failure_of_a_struct_error() {
    let r: Result<(), Code> = Err(Code(-7));
    assert_eq!(r.into_anyhow().unwrap_err().to_string(), "Code(-7)");
}
