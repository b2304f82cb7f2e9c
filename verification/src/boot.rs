//! The way of a core from reset to the kernel, as a state machine.
//!
//! The driver asks a [`Boot`] for the next [`BootAction`], performs it, and
//! hands the value it obtained to [`Boot::step`]. Core 0 ends in
//! [`BootState::Done`], where the kernel is entered; every other core, and a
//! core at an exception level without the registers, ends in
//! [`BootState::ParkedForever`].

use vstd::prelude::*;
use crate::arch::{
    read_cpu_id, spec_cpu_id, spec_write_ttbr_tcr_mair, write_ttbr_tcr_mair, SysOp, STACK_START,
};

verus! {

/// Where a core stands on its way from reset.
#[derive(Clone, Copy, Debug, PartialEq, Eq, Structural)]
pub enum BootState {
    /// Nothing has been done yet.
    ColdStart,
    /// The stack is set; the core's number decides how it goes on.
    ElectCore,
    /// Core 0 sets the address space.
    ConfigureTranslation,
    /// The address space is set: the kernel is entered.
    Done,
    /// The core waits for events and never goes on.
    ParkedForever,
}

/// What the driver has to do next.
#[derive(Clone, Copy, Debug, PartialEq, Eq, Structural)]
pub enum BootAction {
    /// Set the stack pointer to the address. The value handed back is
    /// ignored.
    SetStack(u64),
    /// Read the core identification register and hand back its value.
    ReadCoreId,
    /// Read the table base register 0 of level 1 and hand back its value.
    ReadTableBase,
    /// Read the control register of level 1 and hand back its value.
    ReadControl,
    /// Read the memory attribute register of level 1 and hand back its
    /// value.
    ReadAttributes,
    /// Take this step of the configuration. The value handed back is
    /// ignored.
    Apply(SysOp),
    /// Enter the kernel. There is nothing to hand back.
    EnterKernel,
    /// Wait for events, for ever. There is nothing to hand back.
    Park,
}

/// The state of a core on its way from reset.
#[derive(Clone, Copy, Debug, PartialEq, Eq, Structural)]
pub struct Boot {
    /// Where the core stands.
    pub state: BootState,
    /// The exception level whose registers are written.
    pub el: u8,
    /// How far the configuration has come: the number of reads and steps
    /// that are done.
    pub progress: u8,
    /// The table base that was read.
    pub base: u64,
    /// The control value that was read.
    pub tcr: u64,
    /// The memory attributes that were read.
    pub attr: u64,
}

/// Number of registers that are read before the configuration is written.
pub const READS: u8 = 3;

impl Boot {
    /// A core at reset that is to set the address space of level `el`.
    pub open spec fn spec_at_level(el: u8) -> Boot {
        Boot { state: BootState::ColdStart, el, progress: 0, base: 0, tcr: 0, attr: 0 }
    }

    /// The steps of the configuration with the values read so far.
    pub open spec fn steps(self) -> Seq<SysOp> {
        spec_write_ttbr_tcr_mair(self.el, self.base, self.tcr, self.attr)
    }

    /// The core, parked.
    pub open spec fn parked(self) -> Boot {
        Boot { state: BootState::ParkedForever, ..self }
    }

    /// The action that is due in this state.
    pub open spec fn spec_action(self) -> BootAction {
        match self.state {
            BootState::ColdStart => BootAction::SetStack(STACK_START),
            BootState::ElectCore => BootAction::ReadCoreId,
            BootState::ConfigureTranslation => if self.progress == 0 {
                BootAction::ReadTableBase
            } else if self.progress == 1 {
                BootAction::ReadControl
            } else if self.progress == 2 {
                BootAction::ReadAttributes
            } else if self.progress - READS < self.steps().len() {
                BootAction::Apply(self.steps()[self.progress - READS])
            } else {
                BootAction::Park
            },
            BootState::Done => BootAction::EnterKernel,
            BootState::ParkedForever => BootAction::Park,
        }
    }

    /// The state after the due action was performed and produced `value`.
    pub open spec fn spec_step(self, value: u64) -> Boot {
        match self.state {
            BootState::ColdStart => Boot { state: BootState::ElectCore, ..self },
            BootState::ElectCore => if spec_cpu_id(value) == 0 {
                Boot { state: BootState::ConfigureTranslation, progress: 0, ..self }
            } else {
                self.parked()
            },
            BootState::ConfigureTranslation => if self.progress == 0 {
                Boot { base: value, progress: 1, ..self }
            } else if self.progress == 1 {
                Boot { tcr: value, progress: 2, ..self }
            } else if self.progress == 2 {
                Boot { attr: value, progress: 3, ..self }
            } else if self.progress - READS < self.steps().len() {
                if self.steps()[self.progress - READS] == SysOp::Halt {
                    self.parked()
                } else if self.progress - READS + 1 == self.steps().len() {
                    Boot { state: BootState::Done, ..self }
                } else {
                    Boot { progress: (self.progress + 1) as u8, ..self }
                }
            } else {
                self.parked()
            },
            BootState::Done => self,
            BootState::ParkedForever => self,
        }
    }

    /// The state after the actions that were due in turn produced `values`.
    pub open spec fn run(self, values: Seq<u64>) -> Boot
        decreases values.len(),
    {
        if values.len() == 0 {
            self
        } else {
            self.run(values.drop_last()).spec_step(values.last())
        }
    }

    /// A core at reset that is to set the address space of level `el`.
    pub fn at_level(el: u8) -> (start: Boot)
        ensures
            start == Boot::spec_at_level(el),
    {
        Boot { state: BootState::ColdStart, el, progress: 0, base: 0, tcr: 0, attr: 0 }
    }

    /// The action that is due.
    pub fn action(&self) -> (action: BootAction)
        ensures
            action == self.spec_action(),
    {
        match self.state {
            BootState::ColdStart => BootAction::SetStack(STACK_START),
            BootState::ElectCore => BootAction::ReadCoreId,
            BootState::ConfigureTranslation => {
                if self.progress == 0 {
                    BootAction::ReadTableBase
                } else if self.progress == 1 {
                    BootAction::ReadControl
                } else if self.progress == 2 {
                    BootAction::ReadAttributes
                } else {
                    let steps = write_ttbr_tcr_mair(self.el, self.base, self.tcr, self.attr);
                    let at: usize = (self.progress - READS) as usize;
                    if at < steps.len() {
                        BootAction::Apply(steps[at])
                    } else {
                        BootAction::Park
                    }
                }
            },
            BootState::Done => BootAction::EnterKernel,
            BootState::ParkedForever => BootAction::Park,
        }
    }

    /// Takes the value that the due action produced and moves on.
    pub fn step(self, value: u64) -> (next: Boot)
        ensures
            next == self.spec_step(value),
    {
        match self.state {
            BootState::ColdStart => Boot { state: BootState::ElectCore, ..self },
            BootState::ElectCore => {
                if read_cpu_id(value) == 0 {
                    Boot { state: BootState::ConfigureTranslation, progress: 0, ..self }
                } else {
                    Boot { state: BootState::ParkedForever, ..self }
                }
            },
            BootState::ConfigureTranslation => {
                if self.progress == 0 {
                    Boot { base: value, progress: 1, ..self }
                } else if self.progress == 1 {
                    Boot { tcr: value, progress: 2, ..self }
                } else if self.progress == 2 {
                    Boot { attr: value, progress: 3, ..self }
                } else {
                    let steps = write_ttbr_tcr_mair(self.el, self.base, self.tcr, self.attr);
                    let at: usize = (self.progress - READS) as usize;
                    if at < steps.len() {
                        match steps[at] {
                            SysOp::Halt => Boot { state: BootState::ParkedForever, ..self },
                            _ => {
                                if at + 1 == steps.len() {
                                    Boot { state: BootState::Done, ..self }
                                } else {
                                    Boot { progress: self.progress + 1, ..self }
                                }
                            },
                        }
                    } else {
                        Boot { state: BootState::ParkedForever, ..self }
                    }
                }
            },
            BootState::Done => self,
            BootState::ParkedForever => self,
        }
    }
}

/// A core at reset. It sets the address space of exception level 1.
pub fn karch_start() -> (start: Boot)
    ensures
        start == Boot::spec_at_level(1),
{
    Boot::at_level(1)
}

/// Running on a run of values with one more value at its end is running on
/// the run and taking one more step.
pub proof fn lemma_boot_run_push(start: Boot, values: Seq<u64>, value: u64)
    ensures
        start.run(values.push(value)) == start.run(values).spec_step(value),
{
    assert(values.push(value).drop_last() =~= values);
}

/// A core that is parked stays parked, and one that has entered the kernel
/// stays there, whatever values follow.
pub proof fn lemma_boot_end_stays(end: Boot, values: Seq<u64>)
    requires
        end.state == BootState::ParkedForever || end.state == BootState::Done,
    ensures
        end.run(values) == end,
    decreases values.len(),
{
    if values.len() > 0 {
        lemma_boot_end_stays(end, values.drop_last());
    }
}

/// Running on one run of values and then on another is running on both.
pub proof fn lemma_boot_run_concat(start: Boot, first: Seq<u64>, second: Seq<u64>)
    ensures
        start.run(first + second) == start.run(first).run(second),
    decreases second.len(),
{
    if second.len() == 0 {
        assert(first + second =~= first);
    } else {
        lemma_boot_run_concat(start, first, second.drop_last());
        assert((first + second).drop_last() =~= first + second.drop_last());
    }
}

/// The actions that become due on the way through `values`: the one due at
/// the start, and the one due after each value.
pub open spec fn boot_actions(start: Boot, values: Seq<u64>) -> Seq<BootAction> {
    Seq::new(values.len() + 1, |n: int| start.run(values.take(n)).spec_action())
}

/// Only core 0 goes on. A core whose number is not zero is parked as soon
/// as its number is read, and stays parked whatever follows: it reads no
/// register of the address space and takes no step of a configuration.
pub proof fn lemma_other_cores_park(el: u8, mpidr: u64, more: Seq<u64>)
    requires
        spec_cpu_id(mpidr) != 0,
    ensures
        ({
            let end = Boot::spec_at_level(el).run(seq![0u64, mpidr] + more);
            &&& end.state == BootState::ParkedForever
            &&& end.spec_action() == BootAction::Park
        }),
{
    let start = Boot::spec_at_level(el);
    let none = Seq::<u64>::empty();
    lemma_boot_run_push(start, none, 0);
    lemma_boot_run_push(start, none.push(0), mpidr);
    assert(none.push(0).push(mpidr) =~= seq![0u64, mpidr]);
    lemma_boot_run_concat(start, seq![0u64, mpidr], more);
    lemma_boot_end_stays(start.run(seq![0u64, mpidr]), more);
}

/// The state of core 0 once it has set the stack and read its number and the
/// three registers.
pub open spec fn configuring(el: u8, base: u64, tcr: u64, attr: u64, done: u8) -> Boot {
    Boot { state: BootState::ConfigureTranslation, el, progress: done, base, tcr, attr }
}

/// Core 0 sets the stack, reads its number, and reads the three registers of
/// the address space in turn; it then holds the values it read.
pub proof fn lemma_core0_reads(el: u8, mpidr: u64, base: u64, tcr: u64, attr: u64)
    requires
        spec_cpu_id(mpidr) == 0,
    ensures
        boot_actions(Boot::spec_at_level(el), seq![0u64, mpidr, base, tcr]) == seq![
            BootAction::SetStack(STACK_START),
            BootAction::ReadCoreId,
            BootAction::ReadTableBase,
            BootAction::ReadControl,
            BootAction::ReadAttributes,
        ],
        Boot::spec_at_level(el).run(seq![0u64, mpidr, base, tcr, attr]) == configuring(
            el,
            base,
            tcr,
            attr,
            READS,
        ),
{
    let start = Boot::spec_at_level(el);
    let v0 = Seq::<u64>::empty();
    let v1 = v0.push(0);
    let v2 = v1.push(mpidr);
    let v3 = v2.push(base);
    let v4 = v3.push(tcr);
    let v5 = v4.push(attr);
    lemma_boot_run_push(start, v0, 0);
    lemma_boot_run_push(start, v1, mpidr);
    lemma_boot_run_push(start, v2, base);
    lemma_boot_run_push(start, v3, tcr);
    lemma_boot_run_push(start, v4, attr);
    assert(start.run(v0) == start);
    assert(start.run(v1).state == BootState::ElectCore);
    assert(start.run(v2) == configuring(el, 0, 0, 0, 0));
    assert(start.run(v3) == configuring(el, base, 0, 0, 1));
    assert(start.run(v4) == configuring(el, base, tcr, 0, 2));
    assert(start.run(v5) == configuring(el, base, tcr, attr, 3));
    assert(v5 =~= seq![0u64, mpidr, base, tcr, attr]);
    assert(v4 =~= seq![0u64, mpidr, base, tcr]);
    assert(v4.take(0) =~= v0);
    assert(v4.take(1) =~= v1);
    assert(v4.take(2) =~= v2);
    assert(v4.take(3) =~= v3);
    assert(v4.take(4) =~= v4);
    assert(boot_actions(start, v4) =~= seq![
        BootAction::SetStack(STACK_START),
        BootAction::ReadCoreId,
        BootAction::ReadTableBase,
        BootAction::ReadControl,
        BootAction::ReadAttributes,
    ]);
}

/// At a level that has the registers, core 0 takes the five steps of the
/// configuration with the values it read, each in its turn, and then enters
/// the kernel: the barrier, the three writes and the second barrier are due
/// one after the other, whatever the driver hands back for them.
pub proof fn lemma_core0_configures(el: u8, base: u64, tcr: u64, attr: u64, acks: Seq<u64>)
    requires
        1 <= el <= 3,
        acks.len() == 5,
    ensures
        ({
            let ready = configuring(el, base, tcr, attr, READS);
            let steps = spec_write_ttbr_tcr_mair(el, base, tcr, attr);
            &&& boot_actions(ready, acks) == seq![
                BootAction::Apply(steps[0]),
                BootAction::Apply(steps[1]),
                BootAction::Apply(steps[2]),
                BootAction::Apply(steps[3]),
                BootAction::Apply(steps[4]),
                BootAction::EnterKernel,
            ]
            &&& ready.run(acks).state == BootState::Done
        }),
{
    let ready = configuring(el, base, tcr, attr, READS);
    let steps = spec_write_ttbr_tcr_mair(el, base, tcr, attr);
    let v0 = Seq::<u64>::empty();
    let v1 = v0.push(acks[0]);
    let v2 = v1.push(acks[1]);
    let v3 = v2.push(acks[2]);
    let v4 = v3.push(acks[3]);
    let v5 = v4.push(acks[4]);
    lemma_boot_run_push(ready, v0, acks[0]);
    lemma_boot_run_push(ready, v1, acks[1]);
    lemma_boot_run_push(ready, v2, acks[2]);
    lemma_boot_run_push(ready, v3, acks[3]);
    lemma_boot_run_push(ready, v4, acks[4]);
    assert(ready.steps() == steps && steps.len() == 5);
    assert(ready.run(v0) == ready);
    assert(ready.run(v1) == configuring(el, base, tcr, attr, 4));
    assert(ready.run(v2) == configuring(el, base, tcr, attr, 5));
    assert(ready.run(v3) == configuring(el, base, tcr, attr, 6));
    assert(ready.run(v4) == configuring(el, base, tcr, attr, 7));
    assert(ready.run(v5).state == BootState::Done);
    assert(acks.take(0) =~= v0);
    assert(acks.take(1) =~= v1);
    assert(acks.take(2) =~= v2);
    assert(acks.take(3) =~= v3);
    assert(acks.take(4) =~= v4);
    assert(acks.take(5) =~= v5);
    assert(v5 =~= acks);
    assert(boot_actions(ready, acks) =~= seq![
        BootAction::Apply(steps[0]),
        BootAction::Apply(steps[1]),
        BootAction::Apply(steps[2]),
        BootAction::Apply(steps[3]),
        BootAction::Apply(steps[4]),
        BootAction::EnterKernel,
    ]);
}

/// At a level without the registers core 0 writes none: after the data
/// synchronisation barrier it is halted, and it stays parked.
pub proof fn lemma_unsupported_level_halts(el: u8, base: u64, tcr: u64, attr: u64, acks: Seq<u64>)
    requires
        !(1 <= el <= 3),
        acks.len() == 2,
    ensures
        ({
            let ready = configuring(el, base, tcr, attr, READS);
            &&& boot_actions(ready, acks) == seq![
                BootAction::Apply(SysOp::DataSync),
                BootAction::Apply(SysOp::Halt),
                BootAction::Park,
            ]
            &&& ready.run(acks).state == BootState::ParkedForever
        }),
{
    let ready = configuring(el, base, tcr, attr, READS);
    let v0 = Seq::<u64>::empty();
    let v1 = v0.push(acks[0]);
    let v2 = v1.push(acks[1]);
    lemma_boot_run_push(ready, v0, acks[0]);
    lemma_boot_run_push(ready, v1, acks[1]);
    assert(ready.steps().len() == 2);
    assert(ready.run(v0) == ready);
    assert(ready.run(v1) == configuring(el, base, tcr, attr, 4));
    assert(ready.run(v2).state == BootState::ParkedForever);
    assert(acks.take(0) =~= v0);
    assert(acks.take(1) =~= v1);
    assert(acks.take(2) =~= v2);
    assert(v2 =~= acks);
    assert(boot_actions(ready, acks) =~= seq![
        BootAction::Apply(SysOp::DataSync),
        BootAction::Apply(SysOp::Halt),
        BootAction::Park,
    ]);
}

} // verus!
