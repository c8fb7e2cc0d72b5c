use xword_greeting::hello_world;

#[test]
fn returns_the_fixed_greeting() {
    assert_eq!(hello_world(), "XDDDDDD");
}

#[test]
fn repeated_calls_all_agree() {
    for _ in 0..1000 {
        assert_eq!(hello_world(), "XDDDDDD");
    }
}

#[test]
fn result_is_not_the_callers_input() {
    // A caller-supplied pattern never comes back: the result can match an
    // argument only if that argument already equals the constant itself.
    let candidate = "world";
    assert_ne!(hello_world(), candidate);
    assert_eq!(hello_world(), "XDDDDDD");
}

#[test]
fn each_call_owns_a_fresh_value() {
    let first = hello_world();
    let second = hello_world();
    assert_eq!(first, second);
    drop(first);
    assert_eq!(second, "XDDDDDD");
}
