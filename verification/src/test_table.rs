//! A small example table model, the one the integration scenarios store
//! and read back.
use vstd::prelude::*;

verus! {

/// A tiny table model: a greeting and a year.
#[derive(Debug)]
pub struct TestTable {
    pub greeting: String,
    pub year: u16,
}

impl TestTable {
    /// The default value a fresh table starts from.
    pub fn new() -> (t: Self)
        ensures
            t.greeting@ == "Hi"@,
            t.year == 2023,
    {
        TestTable { greeting: "Hi".to_owned(), year: 2023 }
    }

    /// Replaces the greeting, leaving the year alone.
    pub fn set_greeting(&mut self, greeting: String)
        ensures
            final (self).greeting == greeting,
            final (self).year == old(self).year,
    {
        self.greeting = greeting;
    }
}

} // verus!
