//! Debugging aids: the breakpoint list, the instruction log switch, the
//! disassembler and a message log.

pub mod disasm;
pub mod logger;
pub mod mem;

use vstd::prelude::*;
use vstd::string::StringExecFns;

verus! {

pub struct Debug {
    /// Whether the CPU logs each instruction it executes.
    pub log_cpu: bool,
    /// The addresses at which the caller wants to stop.
    pub breakpoints: Vec<u16>,
}

impl Debug {
    /// The breakpoint list after `address` is toggled: its first occurrence
    /// is removed if it has one, else it is appended.
    pub open spec fn toggled(list: Seq<u16>, address: u16) -> Seq<u16> {
        match list.index_of_first(address) {
            Some(pos) => list.remove(pos),
            None => list.push(address),
        }
    }

    /// Whether `address` is a breakpoint.
    pub open spec fn has_breakpoint(&self, address: u16) -> bool {
        self.breakpoints@.contains(address)
    }

    pub fn new() -> (r: Self)
        ensures
            !r.log_cpu,
            r.breakpoints@ == Seq::<u16>::empty(),
    {
        Self { log_cpu: false, breakpoints: Vec::new() }
    }

    /// The position of the first occurrence of `address`.
    pub fn position(&self, address: u16) -> (r: Option<usize>)
        ensures
            r is Some <==> self.has_breakpoint(address),
            r matches Some(pos) ==> pos < self.breakpoints@.len() && self.breakpoints@[pos as int]
                == address && forall|j: int| 0 <= j < pos ==> self.breakpoints@[j] != address,
    {
        let mut i: usize = 0;
        while i < self.breakpoints.len()
            invariant
                i <= self.breakpoints@.len(),
                forall|j: int| 0 <= j < i ==> self.breakpoints@[j] != address,
            decreases self.breakpoints@.len() - i,
        {
            if self.breakpoints[i] == address {
                return Some(i);
            }
            i = i + 1;
        }
        None
    }

    /// Toggles the breakpoint at `address` and says which way it went.
    pub fn add_breakpoint(&mut self, address: u16) -> (r: String)
        ensures
            final(self).log_cpu == old(self).log_cpu,
            final(self).breakpoints@ == Self::toggled(old(self).breakpoints@, address),
            old(self).has_breakpoint(address) ==> r@ == "Removed breakpoint"@,
            !old(self).has_breakpoint(address) ==> r@ == "Added breakpoint"@,
            !old(self).has_breakpoint(address) ==> final(self).has_breakpoint(address),
    {
        match self.position(address) {
            Some(pos) => {
                proof {
                    let list = self.breakpoints@;
                    list.index_of_first_ensures(address);
                    let k = list.index_of_first(address).unwrap();
                    if k < pos {
                        assert(list[k] != address);
                    }
                    if pos < k {
                        assert(list[pos as int] != address);
                    }
                }
                self.breakpoints.remove(pos);
                String::from_str("Removed breakpoint")
            },
            None => {
                proof {
                    self.breakpoints@.index_of_first_ensures(address);
                }
                self.breakpoints.push(address);
                assert(self.breakpoints@[self.breakpoints@.len() - 1] == address);
                String::from_str("Added breakpoint")
            },
        }
    }
}

} // verus!
