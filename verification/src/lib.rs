//! A Nintendo Entertainment System emulator: the 6502 CPU, the PPU, the APU and the cartridge
//! mappers, with their behaviour stated as contracts and proved.
use vstd::prelude::*;

pub mod apu;
pub mod bus;
pub mod cartridge;
pub mod common;
pub mod cpu;
pub mod graphics;
pub mod instructions;
pub mod mapper;
pub mod memory;
pub mod ppu;
pub mod ricoh;

use bus::{reads_word, Bus, NesBus};
use cartridge::Cartridge;
use cartridge::mapper::Mapper;
use cpu::status::Status;
use cpu::{CpuInterface, CPU, RESET_VECTOR_START};
use graphics::Renderer;
use graphics::nop::NOPRenderer;

verus! {

/// Width of the picture in pixels.
pub const NES_FRAME_WIDTH_PX: usize = 256;

/// Height of the picture in pixels.
pub const NES_FRAME_HEIGHT_PX: usize = 240;

/// Errors of the emulator as a whole.
#[derive(Debug)]
pub enum NesError {
    Stub,
}

/// What the emulator reports after running an instruction.
#[derive(Debug, PartialEq, Eq)]
pub enum ExitStatus {
    Continue,
    Breakpoint(u16),
    ExitSuccess,
    StopRequested(i32),
    ExitInterrupt,
    ExitError(String),
}

impl Clone for ExitStatus {
    fn clone(&self) -> (r: ExitStatus)
        ensures
            r == *self,
    {
        match self {
            ExitStatus::Continue => ExitStatus::Continue,
            ExitStatus::Breakpoint(pc) => ExitStatus::Breakpoint(*pc),
            ExitStatus::ExitSuccess => ExitStatus::ExitSuccess,
            ExitStatus::StopRequested(code) => ExitStatus::StopRequested(*code),
            ExitStatus::ExitInterrupt => ExitStatus::ExitInterrupt,
            ExitStatus::ExitError(s) => ExitStatus::ExitError(s.clone()),
        }
    }
}

/// What the run loop does after a step reported a status.
#[derive(Debug, PartialEq, Eq)]
pub enum RunOutcome {
    /// Run another step.
    KeepRunning,
    /// Stop; the run ended normally.
    Finished,
    /// Stop; the CPU reported this error.
    Failed(String),
    /// Stop; a stop was requested with this nonzero code, which is an error.
    StopFailed(i32),
}

/// The run loop's decision on a step's status: `Continue` runs on; an error fails; a stop
/// request ends the run, normally only with code 0; a breakpoint, a test's end or an
/// interrupt end it normally.
pub fn run_outcome(status: ExitStatus) -> (r: RunOutcome)
    ensures
        r == (match status {
            ExitStatus::Continue => RunOutcome::KeepRunning,
            ExitStatus::ExitError(e) => RunOutcome::Failed(e),
            ExitStatus::StopRequested(code) => if code == 0 {
                RunOutcome::Finished
            } else {
                RunOutcome::StopFailed(code)
            },
            _ => RunOutcome::Finished,
        }),
{
    match status {
        ExitStatus::Continue => RunOutcome::KeepRunning,
        ExitStatus::ExitError(e) => RunOutcome::Failed(e),
        ExitStatus::StopRequested(code) => if code == 0 {
            RunOutcome::Finished
        } else {
            RunOutcome::StopFailed(code)
        },
        ExitStatus::Breakpoint(_) | ExitStatus::ExitSuccess | ExitStatus::ExitInterrupt => {
            RunOutcome::Finished
        },
    }
}

/// The CPU of a console, on the console's bus.
pub type NesCPU<R> = CPU<NesBus<R>>;

/// Work run around each step of the CPU, such as a tracer or a test harness, seeing the CPU
/// as a debugger does.
pub trait CpuTask: Sized {
    /// Whether a call on the CPU `cpu` can leave the task as `after` and the CPU as
    /// `cpu_after`.
    spec fn ran<C: CpuInterface>(&self, cpu: C, after: Self, cpu_after: C) -> bool;

    fn call<C: CpuInterface>(&mut self, cpu: &mut C)
        requires
            old(cpu).interface_wf(),
        ensures
            final(cpu).interface_wf(),
            old(self).ran(*old(cpu), *final(self), *final(cpu)),
    ;
}

/// The tasks `before` were each called once, in order, and left as `after`: task `i` was
/// called on the CPU `cpus[i]` and left it as `cpus[i + 1]`, the CPU the next task sees.
pub open spec fn ran_in_order<R: Renderer, T: CpuTask>(
    before: Seq<T>,
    after: Seq<T>,
    cpus: Seq<CPU<NesBus<R>>>,
) -> bool {
    &&& after.len() == before.len()
    &&& cpus.len() == before.len() + 1
    &&& forall|i: int|
        0 <= i < before.len() ==> #[trigger] before[i].ran(cpus[i], after[i], cpus[i + 1])
}

/// A console with a cartridge in it, and the tasks registered to run around each CPU step.
pub struct VNES<R: Renderer, T: CpuTask> {
    pub cpu: CPU<NesBus<R>>,
    pub pre_execute_tasks: Vec<T>,
    pub post_execute_tasks: Vec<T>,
}

/// Run each of `tasks` once, in order, on `cpu`.
fn run_tasks<R: Renderer, T: CpuTask>(cpu: &mut CPU<NesBus<R>>, tasks: &mut Vec<T>)
    requires
        old(cpu).wf(),
    ensures
        final(cpu).wf(),
        exists|cpus: Seq<CPU<NesBus<R>>>|
            #![trigger ran_in_order(old(tasks)@, final(tasks)@, cpus)]
            ran_in_order(old(tasks)@, final(tasks)@, cpus) && cpus[0] == *old(cpu) && cpus.last()
                == *final(cpu),
{
    let n = tasks.len();
    let mut i: usize = 0;
    let ghost mut cpus: Seq<CPU<NesBus<R>>> = seq![*cpu];
    while i < n
        invariant
            i <= n,
            tasks@.len() == n,
            old(tasks)@.len() == n,
            cpu.wf(),
            cpus.len() == i + 1,
            cpus[0] == *old(cpu),
            cpus[i as int] == *cpu,
            forall|j: int|
                0 <= j < i ==> #[trigger] old(tasks)@[j].ran(cpus[j], tasks@[j], cpus[j + 1]),
            forall|j: int| i <= j < n ==> #[trigger] tasks@[j] == old(tasks)@[j],
        decreases n - i,
    {
        tasks[i].call(cpu);
        proof {
            let longer = cpus.push(*cpu);
            assert forall|j: int| 0 <= j < i + 1 implies #[trigger] old(tasks)@[j].ran(
                longer[j],
                tasks@[j],
                longer[j + 1],
            ) by {
                if j < i {
                    assert(longer[j] == cpus[j] && longer[j + 1] == cpus[j + 1]);
                }
            }
            cpus = longer;
        }
        i = i + 1;
    }
    assert(ran_in_order(old(tasks)@, tasks@, cpus));
}

impl<R: Renderer, T: CpuTask> VNES<R, T> {
    pub open spec fn wf(self) -> bool {
        self.cpu.wf()
    }

    /// A console running `game`, drawing to `renderer`, with no task registered. The
    /// cartridge must give the PPU both pattern tables.
    pub fn new(game: Cartridge, renderer: R) -> (r: Self)
        requires
            game.wf(),
            game.mapper.chr_data().len() >= 0x2000,
        ensures
            r.wf(),
            r.cpu.interpreter.bus.game == game,
            r.cpu.state.pc == 0,
            r.cpu.exit_status == ExitStatus::Continue,
            r.pre_execute_tasks@.len() == 0,
            r.post_execute_tasks@.len() == 0,
    {
        let bus = NesBus::new(game, renderer);
        VNES { cpu: CPU::new(bus), pre_execute_tasks: Vec::new(), post_execute_tasks: Vec::new() }
    }

    pub fn add_pre_execute_task(&mut self, task: T)
        ensures
            final(self).pre_execute_tasks@ == old(self).pre_execute_tasks@.push(task),
            final(self).post_execute_tasks@ == old(self).post_execute_tasks@,
            final(self).cpu == old(self).cpu,
    {
        self.pre_execute_tasks.push(task);
    }

    pub fn add_post_execute_task(&mut self, task: T)
        ensures
            final(self).post_execute_tasks@ == old(self).post_execute_tasks@.push(task),
            final(self).pre_execute_tasks@ == old(self).pre_execute_tasks@,
            final(self).cpu == old(self).cpu,
    {
        self.post_execute_tasks.push(task);
    }

    /// Run each pre-execute task once, in order.
    fn run_pre_execute_tasks(&mut self)
        requires
            old(self).wf(),
        ensures
            final(self).wf(),
            final(self).post_execute_tasks == old(self).post_execute_tasks,
            exists|cpus: Seq<CPU<NesBus<R>>>|
                #![trigger ran_in_order(old(self).pre_execute_tasks@, final(self).pre_execute_tasks@, cpus)]
                ran_in_order(old(self).pre_execute_tasks@, final(self).pre_execute_tasks@, cpus)
                    && cpus[0] == old(self).cpu && cpus.last() == final(self).cpu,
    {
        let ghost tasks = self.pre_execute_tasks@;
        let ghost cpu = self.cpu;
        run_tasks(&mut self.cpu, &mut self.pre_execute_tasks);
        proof {
            let cpus = choose|cpus: Seq<CPU<NesBus<R>>>|
                ran_in_order(tasks, self.pre_execute_tasks@, cpus) && cpus[0] == cpu
                    && cpus.last() == self.cpu;
            assert(ran_in_order(old(self).pre_execute_tasks@, self.pre_execute_tasks@, cpus));
        }
    }

    /// Run each post-execute task once, in order.
    fn run_post_execute_tasks(&mut self)
        requires
            old(self).wf(),
        ensures
            final(self).wf(),
            final(self).pre_execute_tasks == old(self).pre_execute_tasks,
            exists|cpus: Seq<CPU<NesBus<R>>>|
                #![trigger ran_in_order(old(self).post_execute_tasks@, final(self).post_execute_tasks@, cpus)]
                ran_in_order(old(self).post_execute_tasks@, final(self).post_execute_tasks@, cpus)
                    && cpus[0] == old(self).cpu && cpus.last() == final(self).cpu,
    {
        let ghost tasks = self.post_execute_tasks@;
        let ghost cpu = self.cpu;
        run_tasks(&mut self.cpu, &mut self.post_execute_tasks);
        proof {
            let cpus = choose|cpus: Seq<CPU<NesBus<R>>>|
                ran_in_order(tasks, self.post_execute_tasks@, cpus) && cpus[0] == cpu
                    && cpus.last() == self.cpu;
            assert(ran_in_order(old(self).post_execute_tasks@, self.post_execute_tasks@, cpus));
        }
    }

    pub fn nestest_reset_override(&mut self, pc: u16)
        requires
            old(self).wf(),
        ensures
            final(self).wf(),
            final(self).cpu.state.pc == pc,
            final(self).cpu.state.sp == 0xFD,
            final(self).cpu.state.status.bits == Status::PUSH_IRQ | Status::INT_DISABLE,
            exists|b: NesBus<R>, pc0: u16|
                #![trigger reads_word(old(self).cpu.interpreter.bus, RESET_VECTOR_START, pc0, b)]
                reads_word(old(self).cpu.interpreter.bus, RESET_VECTOR_START, pc0, b) && b.clocked(
                    7,
                    final(self).cpu.interpreter.bus,
                ),
            final(self).pre_execute_tasks == old(self).pre_execute_tasks,
            final(self).post_execute_tasks == old(self).post_execute_tasks,
    {
        self.cpu.nestest_reset_override(pc);
    }

    pub fn reset(&mut self)
        requires
            old(self).wf(),
        ensures
            final(self).wf(),
            final(self).cpu.state.sp == 0xFD,
            final(self).pre_execute_tasks == old(self).pre_execute_tasks,
            final(self).post_execute_tasks == old(self).post_execute_tasks,
    {
        self.cpu.reset();
    }

    /// What `run_once` does from `self` to `next` with result `r`: the pre-execute tasks are
    /// called once each, in order, from this console's CPU (`pre`); the CPU they leave takes
    /// one step (see `CPU::clock`) with the status `r`; then the post-execute tasks are called
    /// once each, in order, from the CPU that step left (`post`), and the CPU the last of
    /// them leaves is the console's next CPU.
    pub open spec fn ran_once(self, next: Self, r: ExitStatus) -> bool {
        &&& next.wf()
        &&& exists|pre: Seq<CPU<NesBus<R>>>, post: Seq<CPU<NesBus<R>>>|
            #![trigger ran_in_order(self.pre_execute_tasks@, next.pre_execute_tasks@, pre), ran_in_order(self.post_execute_tasks@, next.post_execute_tasks@, post)]
            ran_in_order(self.pre_execute_tasks@, next.pre_execute_tasks@, pre) && pre[0]
                == self.cpu && pre.last().wf() && pre.last().steps_to(post[0], r)
                && ran_in_order(self.post_execute_tasks@, next.post_execute_tasks@, post)
                && post.last() == next.cpu
    }

    /// Run the pre-execute tasks, one CPU step, then the post-execute tasks; the status is
    /// the step's.
    pub fn run_once(&mut self) -> (r: ExitStatus)
        requires
            old(self).wf(),
        ensures
            old(self).ran_once(*final(self), r),
    {
        let ghost start = *self;
        self.run_pre_execute_tasks();
        let ghost before = self.cpu;
        let ghost mid = *self;
        let status = self.cpu.clock();
        let ghost after = *self;
        self.run_post_execute_tasks();
        proof {
            let pre = choose|cpus: Seq<CPU<NesBus<R>>>|
                ran_in_order(start.pre_execute_tasks@, mid.pre_execute_tasks@, cpus) && cpus[0]
                    == start.cpu && cpus.last() == mid.cpu;
            let post = choose|cpus: Seq<CPU<NesBus<R>>>|
                ran_in_order(after.post_execute_tasks@, self.post_execute_tasks@, cpus)
                    && cpus[0] == after.cpu && cpus.last() == self.cpu;
            assert(pre.last().steps_to(post[0], status));
            assert(ran_in_order(start.pre_execute_tasks@, self.pre_execute_tasks@, pre));
            assert(ran_in_order(start.post_execute_tasks@, self.post_execute_tasks@, post));
        }
        status
    }

    /// One step of running until the PC reaches `pc`: once it has, the breakpoint is
    /// reported; otherwise one step runs (see `run_once`) and any status but `Continue` is
    /// reported. `None` asks for another step.
    pub fn run_until_step(&mut self, pc: u16) -> (r: Option<ExitStatus>)
        requires
            old(self).wf(),
        ensures
            final(self).wf(),
            old(self).cpu.state.pc >= pc ==> r == Some(ExitStatus::Breakpoint(old(self).cpu.state.pc))
                && *final(self) == *old(self),
            old(self).cpu.state.pc < pc ==> exists|s: ExitStatus|
                #![trigger old(self).ran_once(*final(self), s)]
                old(self).ran_once(*final(self), s) && r == (if s == ExitStatus::Continue {
                    None
                } else {
                    Some(s)
                }),
    {
        if self.cpu.pc() >= pc {
            return Some(ExitStatus::Breakpoint(self.cpu.pc()));
        }
        let status = self.run_once();
        let ghost s = status;
        let r = match status {
            ExitStatus::Continue => None,
            status => Some(status),
        };
        assert(old(self).ran_once(*self, s));
        r
    }
}

impl<T: CpuTask> VNES<NOPRenderer, T> {
    /// A console running `game` without a display.
    pub fn new_headless(game: Cartridge) -> (r: Self)
        requires
            game.wf(),
            game.mapper.chr_data().len() >= 0x2000,
        ensures
            r.wf(),
            r.cpu.interpreter.bus.game == game,
            r.pre_execute_tasks@.len() == 0,
            r.post_execute_tasks@.len() == 0,
    {
        VNES::new(game, NOPRenderer::new())
    }
}

} // verus!
