use vstd::prelude::*;

verus! {

/// A capability that the host provides and that this library calls into.
#[derive(PartialEq, Eq, Structural, Clone, Copy, Debug)]
pub enum Capability {
    /// The host surfaces the message to the user.
    Alert,
    /// The host records the message.
    Log,
}

/// One invocation of a host capability: which one, and the message handed to it.
#[derive(Debug)]
pub struct HostCall {
    pub capability: Capability,
    pub message: String,
}

impl View for HostCall {
    type V = (Capability, Seq<char>);

    open spec fn view(&self) -> (Capability, Seq<char>) {
        (self.capability, self.message@)
    }
}

/// The message that greets `name`: `Hello, {name}!`.
pub open spec fn greeting_message(name: Seq<char>) -> Seq<char> {
    "Hello, "@ + name + "!"@
}

/// The message that the start-up entry point logs.
pub open spec fn startup_message() -> Seq<char> {
    "Hello, world!"@
}

/// The one host call that greeting `name` makes.
pub open spec fn greet_call(name: Seq<char>) -> (Capability, Seq<char>) {
    (Capability::Alert, greeting_message(name))
}

/// The one host call that start-up makes.
pub open spec fn main_call() -> (Capability, Seq<char>) {
    (Capability::Log, startup_message())
}

/// Greets `name`: the host is to alert `Hello, {name}!`, once.
pub fn greet(name: &str) -> (r: HostCall)
    ensures
        r@ == greet_call(name@),
        r.capability == Capability::Alert,
        r.message@ == greeting_message(name@),
{
    let mut message = String::from_str("Hello, ");
    message.append(name);
    message.append("!");
    HostCall { capability: Capability::Alert, message }
}

/// Start-up: the host is to log `Hello, world!`, once.
pub fn main() -> (r: HostCall)
    ensures
        r@ == main_call(),
        r.capability == Capability::Log,
        r.message@ == startup_message(),
{
    HostCall { capability: Capability::Log, message: String::from_str("Hello, world!") }
}

/// The host calls that a run of greetings makes, one greeting per name, in
/// order.
pub open spec fn greet_calls(names: Seq<Seq<char>>) -> Seq<(Capability, Seq<char>)>
    decreases names.len(),
{
    if names.len() == 0 {
        Seq::empty()
    } else {
        greet_calls(names.drop_last()).push(greet_call(names.last()))
    }
}

/// The host calls that `n` start-ups in a row make.
pub open spec fn main_calls(n: nat) -> Seq<(Capability, Seq<char>)>
    decreases n,
{
    if n == 0 {
        Seq::empty()
    } else {
        main_calls((n - 1) as nat).push(main_call())
    }
}

/// Greeting several times makes exactly one host call per greeting: an alert
/// of that greeting's own message, in the order of the greetings, with none
/// merged, dropped or remembered from an earlier greeting.
pub proof fn greet_calls_one_per_greeting(names: Seq<Seq<char>>)
    ensures
        greet_calls(names).len() == names.len(),
        forall|i: int|
            0 <= i < names.len() ==> #[trigger] greet_calls(names)[i] == (
                Capability::Alert,
                greeting_message(names[i]),
            ),
    decreases names.len(),
{
    if names.len() > 0 {
        greet_calls_one_per_greeting(names.drop_last());
    }
}

/// Starting up several times makes exactly one host call per start-up, each a
/// log of `Hello, world!`.
pub proof fn main_calls_one_per_startup(n: nat)
    ensures
        main_calls(n).len() == n,
        forall|i: int| 0 <= i < n ==> #[trigger] main_calls(n)[i] == main_call(),
    decreases n,
{
    if n > 0 {
        main_calls_one_per_startup((n - 1) as nat);
    }
}

} // verus!
