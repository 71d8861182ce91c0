//! The name of a test instruction as resolved and as each disassembler gives it.

use vstd::prelude::*;

verus! {

/// The resolved name of an instruction, with the names from iced-x86 and from
/// the generator's own disassembler where known (empty otherwise).
pub struct InstructionName {
    resolved: String,
    iced: String,
    marty_dasm: String,
}

impl Default for InstructionName {
    /// All names empty.
    fn default() -> (r: Self)
        ensures
            r.resolved_view() == Seq::<char>::empty(),
            r.iced_view() == Seq::<char>::empty(),
            r.marty_view() == Seq::<char>::empty(),
    {
        InstructionName { resolved: String::new(), iced: String::new(), marty_dasm: String::new() }
    }
}

impl InstructionName {
    /// The resolved name.
    pub closed spec fn resolved_view(&self) -> Seq<char> {
        self.resolved@
    }

    /// The iced-x86 name.
    pub closed spec fn iced_view(&self) -> Seq<char> {
        self.iced@
    }

    /// The generator disassembler's name.
    pub closed spec fn marty_view(&self) -> Seq<char> {
        self.marty_dasm@
    }

    /// The resolved name.
    pub fn resolved(&self) -> (r: &str)
        ensures
            r@ == self.resolved_view(),
    {
        self.resolved.as_str()
    }

    /// A name known only as resolved.
    pub fn from_resolved(name: &str) -> (r: Self)
        ensures
            r.resolved_view() == name@,
            r.iced_view() == Seq::<char>::empty(),
            r.marty_view() == Seq::<char>::empty(),
    {
        InstructionName { resolved: name.to_owned(), iced: String::new(), marty_dasm: String::new() }
    }

    /// The iced-x86 name.
    pub fn iced(&self) -> (r: &str)
        ensures
            r@ == self.iced_view(),
    {
        self.iced.as_str()
    }

    /// Replace the iced-x86 name.
    pub fn set_iced(&mut self, name: &str)
        ensures
            final(self).iced_view() == name@,
            final(self).resolved_view() == old(self).resolved_view(),
            final(self).marty_view() == old(self).marty_view(),
    {
        self.iced = name.to_owned();
    }

    /// A name that iced-x86 gave, which is also the resolved name.
    pub fn from_iced(name: &str) -> (r: Self)
        ensures
            r.resolved_view() == name@,
            r.iced_view() == name@,
            r.marty_view() == Seq::<char>::empty(),
    {
        InstructionName { resolved: name.to_owned(), iced: name.to_owned(), marty_dasm: String::new() }
    }

    /// A name that the generator's disassembler gave, which is also the resolved name.
    pub fn from_marty(name: &str) -> (r: Self)
        ensures
            r.resolved_view() == name@,
            r.iced_view() == Seq::<char>::empty(),
            r.marty_view() == name@,
    {
        InstructionName { resolved: name.to_owned(), iced: String::new(), marty_dasm: name.to_owned() }
    }
}

} // verus!
