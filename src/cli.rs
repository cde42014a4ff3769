//! The service's configuration.

use vstd::prelude::*;

verus! {

/// How a response is produced.
#[derive(Clone, Copy, PartialEq, Eq, Structural, Debug)]
pub enum ResponseAlgorithm {
    /// The byte 0x55 repeated, easy to recognise on the wire.
    Pattern,
    /// The current time in Hawaii and the client's address.
    TimeAndPlace,
    /// The configured text.
    Text,
}

/// The text answered with by default under [`ResponseAlgorithm::Text`].
pub const DEFAULT_TEXT: &'static str = "Hello World";

/// The configuration shared read-only by every listener.
#[derive(Clone, Debug)]
pub struct Cli {
    /// Which algorithm to use for response generation.
    pub alg: ResponseAlgorithm,
    /// The response under [`ResponseAlgorithm::Text`].
    pub text: String,
}

impl PartialEq for Cli {
    fn eq(&self, o: &Cli) -> (r: bool) {
        self.alg == o.alg && self.text == o.text
    }
}

impl vstd::std_specs::cmp::PartialEqSpecImpl for Cli {
    open spec fn obeys_eq_spec() -> bool {
        true
    }

    open spec fn eq_spec(&self, o: &Cli) -> bool {
        self.alg == o.alg && self.text@ == o.text@
    }
}

impl Eq for Cli {
}

impl Default for Cli {
    /// The time-and-place algorithm, with the text `Hello World`.
    fn default() -> (r: Cli)
        ensures
            r.alg == ResponseAlgorithm::TimeAndPlace,
            r.text@ == DEFAULT_TEXT@,
    {
        Cli { alg: ResponseAlgorithm::TimeAndPlace, text: String::from_str(DEFAULT_TEXT) }
    }
}

} // verus!
