# hvisor_x86

The x86_64 interrupt and trap core of a partitioning hypervisor, written and verified in Verus.

The library in `src/` holds the decisions:

- `pending`: the vectors that wait for injection into each CPU's guest, with the EOI watchdog;
- `ioapic`: the virtual I/O APIC of each zone and the rerouting of physical interrupts;
- `irqchip`: both together, as the state of the interrupt controller;
- `trap`: traps of the host, the routing of interrupts, hypercalls, the dispatch of exits and how
  their handling ends;
- `cpuid`, `msr`, `io`, `exception`, `page_walk`: the handlers of single exits;
- `zone`: the memory of a zone and how it boots;
- `bits`, `cpu`, `memory`, `error`: the types and calls that these share.

Every function states in `ensures` what it returns or changes. The functions named `law_` state what
holds of several of them together. Four calls into other crates are trusted, in `bits` and `cpuid`;
each says what is claimed of the call.

`app/` reads the machine, asks the library and carries out the answer. It is not verified. Where a
library function has a `requires` that the values in hand do not meet by themselves, `app/` tests it
first and panics where it fails.

Integer arithmetic on values that a guest controls wraps around: the register number of the I/O
APIC, the addresses of string I/O, and the frequency in hertz.
