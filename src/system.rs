//! The stepper: runs instructions against a cycle budget and delivers host
//! interrupts between instructions.
use vstd::prelude::*;
use crate::execution::branch::{after_restart, execute_restart};
use crate::execution::{execute_instruction, execute_spec};
use crate::instructions::Instruction;
use crate::memory::loaded;
use crate::program_counter::{instruction_at, offset};
use crate::state::State;
use crate::timing::{cycles, get_instruction_timing};

verus! {

/// The cycles that delivering an interrupt (an RST) takes.
pub const INTERRUPT_CYCLES: usize = 11;

/// The largest number of cycles one instruction takes.
pub const MAX_INSTRUCTION_CYCLES: usize = 18;

/// A processor with its pending-interrupt slot, which holds at most one
/// RST number; a second interrupt before delivery replaces the first.
pub struct System {
    pub state: State,
    pub pending_interrupt: Option<u8>,
}

/// The state after fetching the instruction at PC, moving PC past it, and
/// executing it.
pub open spec fn step_spec(s: State) -> State {
    let i = instruction_at(s.memory, s.pc());
    execute_spec(s.with_pc(offset(s.pc(), i.size() as int)), i)
}

/// The cycles of the instruction at PC.
pub open spec fn step_cycles(s: State) -> nat {
    cycles(instruction_at(s.memory, s.pc()), s.condition_flags)
}

/// The state after delivering RST `n`: the halt latch and the interrupt
/// latch are cleared, the program counter is pushed and set to `n * 8`.
pub open spec fn deliver_spec(s: State, n: u8) -> State {
    after_restart(State { halted: false, interrupt_enabled: false, ..s }, n)
}

/// Whether a pending interrupt is delivered at the next boundary.
pub open spec fn delivers(sys: System) -> bool {
    sys.pending_interrupt.is_some() && sys.state.interrupt_enabled
}

/// Whether the stepper keeps going: an interrupt is delivered (waking a
/// halted processor), or the processor is not halted.
pub open spec fn runs_on(sys: System) -> bool {
    delivers(sys) || !sys.state.halted
}

/// The system after one boundary of the stepper, and the cycles it took.
pub open spec fn boundary_spec(sys: System) -> (System, nat) {
    if delivers(sys) {
        (
            System { state: deliver_spec(sys.state, sys.pending_interrupt.unwrap()), pending_interrupt: None },
            INTERRUPT_CYCLES as nat,
        )
    } else {
        (System { state: step_spec(sys.state), ..sys }, step_cycles(sys.state))
    }
}

/// Where `run` ends, and the cycles it has spent, from `sys` with `spent`
/// of `budget` cycles used: it stops once the budget is met or the
/// processor halts with nothing to deliver.
pub open spec fn run_spec(sys: System, spent: nat, budget: nat) -> (System, nat)
    decreases (if spent < budget { budget - spent } else { 0 }),
{
    if spent >= budget || !runs_on(sys) {
        (sys, spent)
    } else {
        let next = boundary_spec(sys);
        run_spec(next.0, spent + next.1, budget)
    }
}

/// Executes the instruction at PC after moving PC past it; returns it and its cycles.
pub(crate) fn fetch_and_execute(state: &mut State) -> (r: (Instruction, usize))
    ensures
        *final(state) == step_spec(*old(state)),
        r.0 == instruction_at(old(state).memory, old(state).pc()),
        r.1 == step_cycles(*old(state)),
        4 <= r.1 <= MAX_INSTRUCTION_CYCLES,
{
    let instruction = state.program_counter.get_next_instruction(&state.memory);
    let instruction_cycles = get_instruction_timing(state, &instruction);
    execute_instruction(state, &instruction);
    (instruction, instruction_cycles)
}

impl System {
    pub fn new() -> (r: Self)
        ensures
            r.pending_interrupt.is_none(),
            r.state.is_reset(),
            r.state.pc() == 0,
    {
        System { state: State::new(), pending_interrupt: None }
    }

    /// Copies `program_bytecode` into memory from address 0.
    pub fn load_program(&mut self, program_bytecode: Vec<u8>)
        ensures
            final(self).state == (State {
                memory: loaded(old(self).state.memory, program_bytecode@, 0),
                ..old(self).state
            }),
            final(self).pending_interrupt == old(self).pending_interrupt,
    {
        self.load_program_at(program_bytecode, 0);
    }

    /// Copies `program_bytecode` into memory from `start`, wrapping past the
    /// top of memory to address 0. Registers are not touched.
    pub fn load_program_at(&mut self, program_bytecode: Vec<u8>, start: u16)
        ensures
            final(self).state == (State {
                memory: loaded(old(self).state.memory, program_bytecode@, start),
                ..old(self).state
            }),
            final(self).pending_interrupt == old(self).pending_interrupt,
    {
        self.state.memory.store_bytes(program_bytecode.as_slice(), program_bytecode.len(), start);
        assert(program_bytecode@.take(program_bytecode@.len() as int) == program_bytecode@);
    }

    /// The bytes from `address_start` to `address_end`, both included.
    pub fn read_memory_region(&self, address_start: u16, address_end: u16) -> (r: Vec<u8>)
        requires
            address_start <= address_end,
        ensures
            r@.len() == address_end - address_start + 1,
            forall|k: int|
                0 <= k < r@.len() ==> r@[k] == self.state.memory.byte((address_start + k) as u16),
    {
        self.state.memory.get_range(address_start, address_end)
    }

    /// Overrides the program counter.
    pub fn set_program_counter(&mut self, address: u16)
        ensures
            final(self).state == old(self).state.with_pc(address),
            final(self).pending_interrupt == old(self).pending_interrupt,
    {
        self.state.program_counter.set(address);
    }

    /// Records a pending RST `n`, replacing any that is still pending.
    pub fn interrupt(&mut self, n: u8)
        requires
            n < 8,
        ensures
            final(self).state == old(self).state,
            final(self).pending_interrupt == Some(n),
    {
        self.pending_interrupt = Some(n);
    }

    pub fn set_input(&mut self, port: u8, value: u8)
        ensures
            final(self).state == (State {
                inputs: old(self).state.inputs.with(port, value),
                ..old(self).state
            }),
            final(self).pending_interrupt == old(self).pending_interrupt,
    {
        self.state.inputs.set(port, value);
    }

    pub fn get_output(&self, port: u8) -> (r: u8)
        ensures
            r == self.state.outputs.byte(port),
    {
        self.state.outputs.get(port)
    }

    /// One boundary: delivers the pending interrupt if interrupts are
    /// enabled, else executes the next instruction. Returns its cycles.
    fn run_boundary(&mut self) -> (r: usize)
        ensures
            (*final(self), r as nat) == boundary_spec(*old(self)),
            4 <= r <= MAX_INSTRUCTION_CYCLES,
    {
        match self.pending_interrupt {
            Some(n) if self.state.interrupt_enabled => {
                self.state.halted = false;
                self.state.interrupt_enabled = false;
                execute_restart(&mut self.state, n);
                self.pending_interrupt = None;
                INTERRUPT_CYCLES
            },
            _ => {
                let (_, instruction_cycles) = fetch_and_execute(&mut self.state);
                instruction_cycles
            },
        }
    }

    /// Runs until at least `max_clock_cycles` cycles are spent, or the
    /// processor is halted with no interrupt to deliver. The current
    /// instruction always completes, so the budget may be exceeded by less
    /// than one instruction. Returns the cycles spent.
    pub fn run(&mut self, max_clock_cycles: usize) -> (r: usize)
        requires
            max_clock_cycles <= usize::MAX - MAX_INSTRUCTION_CYCLES,
        ensures
            (*final(self), r as nat) == run_spec(*old(self), 0, max_clock_cycles as nat),
            r >= max_clock_cycles || !runs_on(*final(self)),
            r < max_clock_cycles + MAX_INSTRUCTION_CYCLES,
    {
        let mut clock_cycles: usize = 0;
        while clock_cycles < max_clock_cycles && ((self.pending_interrupt.is_some()
            && self.state.interrupt_enabled) || !self.state.halted)
            invariant
                max_clock_cycles <= usize::MAX - MAX_INSTRUCTION_CYCLES,
                clock_cycles < max_clock_cycles + MAX_INSTRUCTION_CYCLES,
                run_spec(*self, clock_cycles as nat, max_clock_cycles as nat) == run_spec(
                    *old(self),
                    0,
                    max_clock_cycles as nat,
                ),
            decreases (if clock_cycles < max_clock_cycles { max_clock_cycles - clock_cycles } else { 0 }),
        {
            let spent = self.run_boundary();
            clock_cycles = clock_cycles + spent;
        }
        clock_cycles
    }
}

} // verus!
