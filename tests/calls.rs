use greeter::{greet, main, Capability};

#[test]
fn greet_world_alerts_hello_world() {
    let call = greet("World");
    assert_eq!(call.capability, Capability::Alert);
    assert_eq!(call.message, "Hello, World!");
}

#[test]
fn greet_empty_name() {
    let call = greet("");
    assert_eq!(call.capability, Capability::Alert);
    assert_eq!(call.message, "Hello, !");
}

#[test]
fn greet_keeps_name_as_given() {
    let call = greet("  Zoë, the 2nd ");
    assert_eq!(call.capability, Capability::Alert);
    assert_eq!(call.message, "Hello,   Zoë, the 2nd !");
}

#[test]
fn greet_does_not_hand_back_its_argument() {
    let call = greet("Ada");
    assert_ne!(call.message, "Ada");
    assert!(call.message.starts_with("Hello, "));
    assert!(call.message.ends_with('!'));
}

#[test]
fn main_logs_hello_world() {
    let call = main();
    assert_eq!(call.capability, Capability::Log);
    assert_eq!(call.message, "Hello, world!");
}

#[test]
fn repeated_greetings_make_one_call_each() {
    let names = ["World", "World", "", "Bob"];
    let calls: Vec<_> = names.iter().map(|n| greet(n)).collect();
    assert_eq!(calls.len(), names.len());
    assert_eq!(calls[0].message, "Hello, World!");
    assert_eq!(calls[1].message, "Hello, World!");
    assert_eq!(calls[2].message, "Hello, !");
    assert_eq!(calls[3].message, "Hello, Bob!");
    assert!(calls.iter().all(|c| c.capability == Capability::Alert));
}

#[test]
fn repeated_startups_make_one_call_each() {
    let calls: Vec<_> = (0..3).map(|_| main()).collect();
    assert_eq!(calls.len(), 3);
    for call in &calls {
        assert_eq!(call.capability, Capability::Log);
        assert_eq!(call.message, "Hello, world!");
    }
}
