//! What the runtime decides when the CPU traps and when the program panics.
//! Reading memory, printing and resetting the board are the driver's part.

use vstd::prelude::*;
use vstd::std_specs::bits::u32_trailing_zeros;
use crate::startup::{chars_of, flag_set, is_one};

verus! {

/// Why the CPU trapped.
#[derive(Clone, Copy, Debug, PartialEq, Eq)]
pub enum Trapped {
    /// A device asked for attention.
    Interrupt,
    /// The program faulted.
    Fault,
}

/// One row of a memory dump: its distance in bytes from the first word, and
/// the addresses of its four words.
#[derive(Clone, Copy, Debug, PartialEq, Eq)]
pub struct DumpRow {
    pub offset: u32,
    pub words: [u32; 4],
}

/// What the trap handler does next.
#[derive(Debug, PartialEq, Eq)]
pub enum TrapAction {
    /// No interrupt is pending: go back to the interrupted code.
    Return,
    /// Record this program counter for the profiler, then ask again.
    Sample(usize),
    /// Panic: the interrupt line with this number is pending and nobody serves it.
    Spurious(u32),
    /// Dump the memory around the program counter and around the faulting
    /// address, then panic.
    Fatal { pc: Vec<DumpRow>, ea: Vec<DumpRow> },
}

/// The address of the word that holds the byte at `addr`.
pub open spec fn word_base(addr: u32) -> int {
    addr - addr % 4
}

/// The address `offset` bytes after `base`, in a 32-bit address space.
pub open spec fn address_after(base: int, offset: int) -> u32 {
    ((base + offset) % 0x1_0000_0000) as u32
}

/// The rows of the dump of the sixteen words from the one that holds the
/// byte at `addr`: four rows of four words.
pub open spec fn dump_rows(addr: u32) -> Seq<DumpRow> {
    Seq::new(4, |r: int| dump_row(addr, r))
}

/// Row `r` of the dump around `addr`.
pub open spec fn dump_row(addr: u32, r: int) -> DumpRow {
    DumpRow {
        offset: (16 * r) as u32,
        words: [
            address_after(word_base(addr), 16 * r),
            address_after(word_base(addr), 16 * r + 4),
            address_after(word_base(addr), 16 * r + 8),
            address_after(word_base(addr), 16 * r + 12),
        ],
    }
}

/// The address `offset` bytes after `base`.
fn address_at(base: u32, offset: u32) -> (address: u32)
    ensures
        address == address_after(base as int, offset as int),
{
    ((base as u64 + offset as u64) % 0x1_0000_0000) as u32
}

/// Lays out the dump of the sixteen words from the one that holds the byte
/// at `addr`.
pub fn hexdump(addr: u32) -> (rows: Vec<DumpRow>)
    ensures
        rows@ == dump_rows(addr),
{
    let base = addr - addr % 4;
    let mut rows: Vec<DumpRow> = Vec::new();
    let mut r: u32 = 0;
    while r < 4
        invariant
            r <= 4,
            base == word_base(addr),
            rows@.len() == r,
            forall|k: int| 0 <= k < r ==> rows@[k] == dump_row(addr, k),
        decreases 4 - r,
    {
        let offset = 16 * r;
        let row = DumpRow {
            offset,
            words: [
                address_at(base, offset),
                address_at(base, offset + 4),
                address_at(base, offset + 8),
                address_at(base, offset + 12),
            ],
        };
        assert(row.words@ =~= dump_row(addr, r as int).words@);
        rows.push(row);
        r += 1;
    }
    assert(rows@ =~= dump_rows(addr));
    rows
}

/// The interrupt line `line` is pending in `pending`.
pub open spec fn is_pending(pending: u32, line: u32) -> bool {
    line < 32 && pending & (1u32 << line) != 0
}

/// `action` is what the handler does for the trap: with `pending` as the
/// mask of pending interrupts, `timer` as the line of the profiler's timer
/// where the build has one, `pc` as the program counter at the trap and `ea`
/// as the faulting address.
pub open spec fn trap_action_is(
    trapped: Trapped,
    pending: u32,
    timer: Option<u32>,
    pc: u32,
    ea: u32,
    action: TrapAction,
) -> bool {
    match trapped {
        Trapped::Interrupt => if pending == 0 {
            action == TrapAction::Return
        } else if timer is Some && is_pending(pending, timer->0) {
            action == TrapAction::Sample(pc as usize)
        } else {
            action == TrapAction::Spurious(u32_trailing_zeros(pending))
        },
        Trapped::Fault => action matches TrapAction::Fatal { pc: pc_rows, ea: ea_rows }
            && pc_rows@ == dump_rows(pc) && ea_rows@ == dump_rows(ea),
    }
}

/// Decides what the trap handler does. The only interrupt that is served is
/// the profiler's timer, which samples the program counter; while any
/// interrupt is pending the handler asks again, and one that nobody serves is
/// fatal, as is every fault.
pub fn exception(trapped: Trapped, pending: u32, timer: Option<u32>, pc: u32, ea: u32) -> (action:
    TrapAction)
    ensures
        trap_action_is(trapped, pending, timer, pc, ea, action),
{
    match trapped {
        Trapped::Interrupt => {
            if pending == 0 {
                return TrapAction::Return;
            }
            match timer {
                Some(line) => {
                    if line < 32 && pending & (1u32 << line) != 0 {
                        return TrapAction::Sample(pc as usize);
                    }
                },
                None => {},
            }
            TrapAction::Spurious(pending.trailing_zeros())
        },
        Trapped::Fault => TrapAction::Fatal { pc: hexdump(pc), ea: hexdump(ea) },
    }
}

/// The address of the call that returns to `ip`: the call stands two
/// instructions of four bytes before its return address, the second being
/// its delay slot. `None` where no call can stand that far before `ip`.
pub open spec fn call_site_of(ip: usize) -> Option<usize> {
    if ip >= 8 {
        Some((ip - 8) as usize)
    } else {
        None
    }
}

/// Turns a return address of the backtrace into the address of its call.
pub fn call_site(ip: usize) -> (site: Option<usize>)
    ensures
        site == call_site_of(ip),
{
    if ip >= 8 {
        Some(ip - 8)
    } else {
        None
    }
}

/// What the board does once a panic has been reported.
#[derive(Clone, Copy, Debug, PartialEq, Eq)]
pub enum Aftermath {
    /// Reset the board.
    Restart,
    /// Stop for good.
    Halt,
}

/// Decides what follows a panic from the `panic_reset` key of the
/// configuration: the board restarts where the key is `1` and halts otherwise.
pub fn panic_impl(panic_reset: Option<&str>) -> (aftermath: Aftermath)
    ensures
        aftermath == if is_one(chars_of(panic_reset)) {
            Aftermath::Restart
        } else {
            Aftermath::Halt
        },
{
    if flag_set(panic_reset) {
        Aftermath::Restart
    } else {
        Aftermath::Halt
    }
}

} // verus!
