//! The greeting tool.
use vstd::prelude::*;

verus! {

/// The `say_hello` tool.
pub struct Hello;

impl Hello {
    /// The tool's name.
    pub fn name() -> (r: &'static str)
        ensures
            r@ == "say_hello"@,
    {
        "say_hello"
    }

    /// The tool's description.
    pub fn description() -> (r: &'static str)
        ensures
            r@ == "Say hello from typed Rust"@,
    {
        "Say hello from typed Rust"
    }
}

/// The greeting.
#[derive(Debug)]
pub struct Output {
    pub message: String,
}

/// The greeting for `name`.
pub fn say_hello(name: &str) -> (o: Output)
    ensures
        o.message@ == "Hello, "@ + name@ + "! \u{1f980}"@,
{
    let mut t = crate::text::chars_of("Hello, ");
    crate::text::extend_str(&mut t, name);
    crate::text::extend_str(&mut t, "! \u{1f980}");
    Output { message: crate::text::string_of(t.as_slice()) }
}

} // verus!
