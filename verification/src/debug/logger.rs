//! A log of messages, oldest first.

use vstd::prelude::*;
use vstd::string::StringExecFns;

verus! {

pub struct Logger {
    pub messages: Vec<String>,
}

impl Logger {
    pub fn new() -> (r: Self)
        ensures
            r.messages@.len() == 0,
    {
        Self { messages: Vec::new() }
    }

    /// Appends a copy of `msg` to the log.
    pub fn log_step(&mut self, msg: &str)
        ensures
            final(self).messages@.len() == old(self).messages@.len() + 1,
            final(self).messages@.last()@ == msg@,
            final(self).messages@.drop_last() == old(self).messages@,
    {
        self.messages.push(String::from_str(msg));
        assert(self.messages@.drop_last() =~= old(self).messages@);
    }

    /// The messages logged so far, oldest first.
    pub fn messages(&self) -> (r: &Vec<String>)
        ensures
            r@ == self.messages@,
    {
        &self.messages
    }

    pub fn clear(&mut self)
        ensures
            final(self).messages@.len() == 0,
    {
        self.messages = Vec::new();
    }
}

} // verus!
