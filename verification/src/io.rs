//! Port I/O of a guest: single accesses and string instructions.
use crate::cpu::GeneralRegisters;
use crate::error::HvErrorNum;
use crate::trap::VmxExitInfo;
use vstd::arithmetic::div_mod::{lemma_add_mod_noop_right, lemma_mod_bound, lemma_small_mod};
use vstd::arithmetic::mul::lemma_mul_is_distributive_add_other_way;
use vstd::prelude::*;

verus! {

/// An I/O instruction that made the guest exit.
#[derive(Clone, Copy, Debug, PartialEq, Eq, Structural)]
pub struct VmxIoExitInfo {
    /// Bytes in one access.
    pub access_size: u8,
    /// IN or INS rather than OUT or OUTS.
    pub is_in: bool,
    /// INS or OUTS.
    pub is_string: bool,
    /// With a REP prefix.
    pub is_repeat: bool,
    pub port: u16,
}

/// The ports from `start` up to, but not including, `end`.
#[derive(Clone, Copy, Debug, PartialEq, Eq, Structural)]
pub struct PortRange {
    pub start: u16,
    pub end: u16,
}

impl PortRange {
    /// Whether a port lies in the range.
    pub open spec fn has(self, port: u16) -> bool {
        self.start <= port < self.end
    }

    /// Whether a port lies in the range.
    pub fn contains(&self, port: u16) -> (found: bool)
        ensures
            found == self.has(port),
    {
        self.start <= port && port < self.end
    }
}

/// The ports behind which a device is emulated.
#[derive(Clone, Copy, Debug, PartialEq, Eq, Structural)]
pub struct PortMap {
    pub pci_config_addr: PortRange,
    pub pci_config_data: PortRange,
    pub uart_com1: PortRange,
}

/// The device behind a port.
#[derive(Clone, Copy, Debug, PartialEq, Eq, Structural)]
pub enum PortDevice {
    /// The configuration mechanism of PCI.
    PciConfig,
    /// The virtual console.
    Console,
    /// No device: writes are dropped, reads give zero.
    Nothing,
}

/// The device behind a port.
pub open spec fn port_device(ports: PortMap, port: u16) -> PortDevice {
    if ports.pci_config_addr.has(port) || ports.pci_config_data.has(port) {
        PortDevice::PciConfig
    } else if ports.uart_com1.has(port) {
        PortDevice::Console
    } else {
        PortDevice::Nothing
    }
}

/// The value that a read of a device gives, where `given` is what the device answered: without a
/// device it is zero.
pub open spec fn read_value(device: PortDevice, given: u32) -> u32 {
    if device == PortDevice::Nothing {
        0
    } else {
        given
    }
}

/// What an I/O instruction calls for.
#[derive(Clone, Copy, Debug, PartialEq, Eq, Structural)]
pub enum IoAction {
    /// Carry out a string instruction.
    StringIo,
    /// Write a value to a device.
    Write { device: PortDevice, value: u32 },
    /// Read from a device and complete the instruction with the value.
    Read { device: PortDevice },
}

/// The sizes that a port access can have.
pub open spec fn valid_access_size(access_size: u8) -> bool {
    access_size == 1 || access_size == 2 || access_size == 4
}

/// The low `access_size` bytes of a register.
pub open spec fn low_bytes(reg: u64, access_size: u8) -> u32 {
    if access_size == 1 {
        (reg % 0x100) as u32
    } else if access_size == 2 {
        (reg % 0x1_0000) as u32
    } else {
        (reg % 0x1_0000_0000) as u32
    }
}

/// A register after a read of `access_size` bytes into it. A 32-bit result is extended with zeros;
/// an 8-bit or 16-bit result leaves the upper bits alone.
pub open spec fn merged(reg: u64, access_size: u8, value: u32) -> u64 {
    if access_size == 1 {
        (reg - reg % 0x100 + value % 0x100) as u64
    } else if access_size == 2 {
        (reg - reg % 0x1_0000 + value % 0x1_0000) as u64
    } else {
        value as u64
    }
}

/// What an I/O instruction calls for.
pub open spec fn io_action(
    io_info: VmxIoExitInfo,
    regs: GeneralRegisters,
    ports: PortMap,
) -> Result<IoAction, HvErrorNum> {
    if io_info.is_string {
        Ok(IoAction::StringIo)
    } else if io_info.is_repeat {
        Err(HvErrorNum::ENOSYS)
    } else if io_info.is_in {
        Ok(IoAction::Read { device: port_device(ports, io_info.port) })
    } else {
        Ok(
            IoAction::Write {
                device: port_device(ports, io_info.port),
                value: low_bytes(regs.rax, io_info.access_size),
            },
        )
    }
}

/// Says which device is behind a port.
pub fn find_device(ports: &PortMap, port: u16) -> (device: PortDevice)
    ensures
        device == port_device(*ports, port),
{
    if ports.pci_config_addr.contains(port) || ports.pci_config_data.contains(port) {
        PortDevice::PciConfig
    } else if ports.uart_com1.contains(port) {
        PortDevice::Console
    } else {
        PortDevice::Nothing
    }
}

/// Says what an I/O instruction calls for. A REP prefix is supported on string instructions only.
pub fn handle_io_instruction(
    io_info: &VmxIoExitInfo,
    regs: &GeneralRegisters,
    ports: &PortMap,
) -> (action: Result<IoAction, HvErrorNum>)
    requires
        !io_info.is_string && !io_info.is_repeat ==> valid_access_size(io_info.access_size),
    ensures
        action == io_action(*io_info, *regs, *ports),
{
    if io_info.is_string {
        return Ok(IoAction::StringIo);
    }
    if io_info.is_repeat {
        return Err(HvErrorNum::ENOSYS);
    }
    let device = find_device(ports, io_info.port);
    if io_info.is_in {
        return Ok(IoAction::Read { device });
    }
    let rax: u64 = regs.rax;
    assert((rax & 0xff) as u32 == rax % 0x100) by (bit_vector);
    assert((rax & 0xffff) as u32 == rax % 0x1_0000) by (bit_vector);
    assert(rax as u32 == rax % 0x1_0000_0000) by (bit_vector);
    let value: u32 = if io_info.access_size == 1 {
        (rax & 0xff) as u32
    } else if io_info.access_size == 2 {
        (rax & 0xffff) as u32
    } else {
        rax as u32
    };
    Ok(IoAction::Write { device, value })
}

/// The value that a read of a device gives, where `given` is what the device answered.
pub fn port_read_value(device: PortDevice, given: u32) -> (value: u32)
    ensures
        value == read_value(device, given),
{
    match device {
        PortDevice::Nothing => 0,
        _ => given,
    }
}

/// Completes a read of a port, where `given` is what the device behind it answered. A port without
/// a device reads zero, whatever is given.
pub fn complete_port_read(
    regs: &mut GeneralRegisters,
    io_info: &VmxIoExitInfo,
    ports: &PortMap,
    given: u32,
)
    requires
        valid_access_size(io_info.access_size),
    ensures
        *final(regs) == (GeneralRegisters {
            rax: merged(
                old(regs).rax,
                io_info.access_size,
                read_value(port_device(*ports, io_info.port), given),
            ),
            ..*old(regs)
        }),
{
    let access_size: u8 = io_info.access_size;
    let value: u32 = port_read_value(find_device(ports, io_info.port), given);
    let rax: u64 = regs.rax;
    if access_size == 1 {
        assert((rax & !0xffu64) | ((value & 0xff) as u64) == rax - rax % 0x100 + value % 0x100)
            by (bit_vector);
        regs.rax = (rax & !0xffu64) | ((value & 0xff) as u64);
    } else if access_size == 2 {
        assert((rax & !0xffffu64) | ((value & 0xffff) as u64) == rax - rax % 0x1_0000 + value
            % 0x1_0000) by (bit_vector);
        regs.rax = (rax & !0xffffu64) | ((value & 0xffff) as u64);
    } else {
        regs.rax = value as u64;
    }
}

/// The length of the instruction that made the guest exit: the low eight bits of the number that
/// the CPU reports.
pub fn instruction_length(exit_info: &VmxExitInfo) -> (len: u8)
    ensures
        len == exit_info.exit_instruction_length % 0x100,
{
    let raw: u32 = exit_info.exit_instruction_length;
    assert(raw as u8 == raw % 0x100) by (bit_vector);
    raw as u8
}

/// A store to guest memory.
#[derive(Clone, Copy, Debug, PartialEq, Eq, Structural)]
pub enum GuestStore {
    Byte(u8),
    Word(u16),
    Dword(u32),
    /// The access size is none that exists: nothing is stored.
    Nothing,
}

/// The width of a load from guest memory.
#[derive(Clone, Copy, Debug, PartialEq, Eq, Structural)]
pub enum GuestLoad {
    Byte,
    Word,
    Dword,
    /// The access size is none that exists: nothing is loaded.
    Nothing,
}

/// The store of the low `access_size` bytes of a value.
pub open spec fn guest_store(access_size: u8, value: u32) -> GuestStore {
    if access_size == 1 {
        GuestStore::Byte((value % 0x100) as u8)
    } else if access_size == 2 {
        GuestStore::Word((value % 0x1_0000) as u16)
    } else if access_size == 4 {
        GuestStore::Dword(value)
    } else {
        GuestStore::Nothing
    }
}

/// The load of `access_size` bytes.
pub open spec fn guest_load(access_size: u8) -> GuestLoad {
    if access_size == 1 {
        GuestLoad::Byte
    } else if access_size == 2 {
        GuestLoad::Word
    } else if access_size == 4 {
        GuestLoad::Dword
    } else {
        GuestLoad::Nothing
    }
}

/// A string instruction in progress.
#[derive(Clone, Copy, Debug, PartialEq, Eq, Structural)]
pub struct StringIo {
    pub port: u16,
    /// The port belongs to the virtual console.
    pub is_console: bool,
    pub is_in: bool,
    pub is_repeat: bool,
    pub access_size: u8,
    /// The direction flag is set: addresses go down.
    pub backward: bool,
    /// Accesses that are left.
    pub remaining: u64,
    /// The guest address of the next access.
    pub addr: u64,
}

impl StringIo {
    /// The value that one access of INS reads, where `given` is what the console answered: only the
    /// console is read, any other port gives zero.
    pub open spec fn read_value(self, given: u32) -> u32 {
        if self.is_console {
            given
        } else {
            0
        }
    }

    /// How far one access moves the address.
    pub open spec fn stride(self) -> int {
        if self.backward {
            -(self.access_size as int)
        } else {
            self.access_size as int
        }
    }

    /// The instruction after one access. Addresses wrap around at 2^64.
    pub open spec fn stepped(self) -> StringIo {
        StringIo {
            remaining: (self.remaining - 1) as u64,
            addr: ((self.addr + self.stride()) % 0x1_0000_0000_0000_0000) as u64,
            ..self
        }
    }

    /// The instruction after `n` accesses.
    pub open spec fn stepped_by(self, n: nat) -> StringIo
        decreases n,
    {
        if n == 0 {
            self
        } else {
            self.stepped_by((n - 1) as nat).stepped()
        }
    }

    /// The instruction at its start.
    pub open spec fn at_start(
        io_info: VmxIoExitInfo,
        regs: GeneralRegisters,
        rflags: u64,
        ports: PortMap,
    ) -> StringIo {
        StringIo {
            port: io_info.port,
            is_console: ports.uart_com1.has(io_info.port),
            is_in: io_info.is_in,
            is_repeat: io_info.is_repeat,
            access_size: io_info.access_size,
            backward: (rflags / 0x400) % 2 == 1,
            remaining: if io_info.is_repeat {
                regs.rcx
            } else {
                1
            },
            addr: if io_info.is_in {
                regs.rdi
            } else {
                regs.rsi
            },
        }
    }

    /// The registers of the guest when the instruction is over.
    pub open spec fn finished(self, regs: GeneralRegisters) -> GeneralRegisters {
        GeneralRegisters {
            rdi: if self.is_in {
                self.addr
            } else {
                regs.rdi
            },
            rsi: if self.is_in {
                regs.rsi
            } else {
                self.addr
            },
            rcx: if self.is_repeat {
                0
            } else {
                regs.rcx
            },
            ..regs
        }
    }

    /// Starts a string instruction. With a REP prefix RCX counts the accesses; the address is in
    /// RDI for INS and in RSI for OUTS; bit 10 of RFLAGS gives the direction.
    pub fn begin(
        io_info: &VmxIoExitInfo,
        regs: &GeneralRegisters,
        rflags: u64,
        ports: &PortMap,
    ) -> (io: Self)
        ensures
            io == StringIo::at_start(*io_info, *regs, rflags, *ports),
    {
        assert((rflags & (1u64 << 10u64) != 0) == ((rflags / 0x400) % 2 == 1)) by (bit_vector);
        StringIo {
            port: io_info.port,
            is_console: ports.uart_com1.contains(io_info.port),
            is_in: io_info.is_in,
            is_repeat: io_info.is_repeat,
            access_size: io_info.access_size,
            backward: rflags & (1u64 << 10u64) != 0,
            remaining: if io_info.is_repeat {
                regs.rcx
            } else {
                1
            },
            addr: if io_info.is_in {
                regs.rdi
            } else {
                regs.rsi
            },
        }
    }

    fn advance(&mut self)
        requires
            old(self).remaining > 0,
        ensures
            *final(self) == old(self).stepped(),
    {
        self.addr = if self.backward {
            self.addr.wrapping_sub(self.access_size as u64)
        } else {
            self.addr.wrapping_add(self.access_size as u64)
        };
        self.remaining = self.remaining - 1;
    }

    /// The console port that the next access of INS reads, if it reads one.
    pub fn ins_port(&self) -> (port: Option<u16>)
        ensures
            port == (if self.is_console {
                Some(self.port)
            } else {
                None
            }),
    {
        if self.is_console {
            Some(self.port)
        } else {
            None
        }
    }

    /// The value that one access of INS reads, where `given` is what the console answered.
    pub fn ins_value(&self, given: u32) -> (value: u32)
        ensures
            value == self.read_value(given),
    {
        if self.is_console {
            given
        } else {
            0
        }
    }

    /// Takes what the console answered to one access of INS and gives back the guest address to
    /// store at and the store. A port outside the console reads zero, whatever is given.
    pub fn ins_store(&mut self, given: u32) -> (store: (u64, GuestStore))
        requires
            old(self).is_in,
            old(self).remaining > 0,
        ensures
            store == (
                old(self).addr,
                guest_store(old(self).access_size, old(self).read_value(given)),
            ),
            *final(self) == old(self).stepped(),
    {
        let value: u32 = self.ins_value(given);
        let addr: u64 = self.addr;
        assert(value as u8 == value % 0x100) by (bit_vector);
        assert(value as u16 == value % 0x1_0000) by (bit_vector);
        let store = if self.access_size == 1 {
            GuestStore::Byte(value as u8)
        } else if self.access_size == 2 {
            GuestStore::Word(value as u16)
        } else if self.access_size == 4 {
            GuestStore::Dword(value)
        } else {
            GuestStore::Nothing
        };
        self.advance();
        (addr, store)
    }

    /// The guest address and the width of the load that the next access of OUTS starts with.
    pub fn outs_load(&self) -> (load: (u64, GuestLoad))
        ensures
            load == (self.addr, guest_load(self.access_size)),
    {
        let load = if self.access_size == 1 {
            GuestLoad::Byte
        } else if self.access_size == 2 {
            GuestLoad::Word
        } else if self.access_size == 4 {
            GuestLoad::Dword
        } else {
            GuestLoad::Nothing
        };
        (self.addr, load)
    }

    /// Takes what one access of OUTS has loaded, nothing where the address is not mapped, and
    /// gives back the console port and the value to write to it. Other ports get nothing.
    pub fn outs_emit(&mut self, loaded: Option<u32>) -> (write: Option<(u16, u32)>)
        requires
            !old(self).is_in,
            old(self).remaining > 0,
        ensures
            write == (if old(self).is_console {
                Some(
                    (
                        old(self).port,
                        match loaded {
                            Some(value) if valid_access_size(old(self).access_size) => value,
                            _ => 0,
                        },
                    ),
                )
            } else {
                None
            }),
            *final(self) == old(self).stepped(),
    {
        let size: u8 = self.access_size;
        let value: u32 = match loaded {
            Some(value) => {
                if size == 1 || size == 2 || size == 4 {
                    value
                } else {
                    0
                }
            },
            None => 0,
        };
        let write = if self.is_console {
            Some((self.port, value))
        } else {
            None
        };
        self.advance();
        write
    }

    /// Writes the address back to RDI or RSI, and clears RCX after a REP prefix.
    pub fn finish(&self, regs: &mut GeneralRegisters)
        requires
            self.remaining == 0,
        ensures
            *final(regs) == self.finished(*old(regs)),
    {
        if self.is_in {
            regs.rdi = self.addr;
        } else {
            regs.rsi = self.addr;
        }
        if self.is_repeat {
            regs.rcx = 0;
        }
    }
}

/// After `n` accesses a string instruction stands `n` strides from where it began, modulo 2^64,
/// and as many accesses fewer are left; nothing else about it has changed.
pub proof fn law_string_io_progress(io: StringIo, n: nat)
    requires
        n <= io.remaining,
    ensures
        io.stepped_by(n) == (StringIo {
            remaining: (io.remaining - n) as u64,
            addr: ((io.addr + n * io.stride()) % 0x1_0000_0000_0000_0000) as u64,
            ..io
        }),
    decreases n,
{
    let modulus: int = 0x1_0000_0000_0000_0000;
    let stride = io.stride();
    if n > 0 {
        let m: int = n - 1;
        law_string_io_progress(io, m as nat);
        let before: int = io.addr + m * stride;
        assert(io.addr + n * stride == stride + before) by {
            lemma_mul_is_distributive_add_other_way(stride, m, 1);
        }
        assert((before % modulus + stride) % modulus == (io.addr + n * stride) % modulus) by {
            lemma_add_mod_noop_right(stride, before, modulus);
        }
        lemma_mod_bound(before, modulus);
    } else {
        assert(io.addr + 0 * stride == io.addr);
        lemma_small_mod(io.addr as nat, modulus as nat);
    }
}

/// The whole of a string instruction moves RDI, for INS, or RSI, for OUTS, by one stride for each
/// access: as many as RCX says with a REP prefix, else one. A REP prefix leaves RCX at zero, and no
/// other register changes.
pub proof fn law_string_io_registers(
    io_info: VmxIoExitInfo,
    regs: GeneralRegisters,
    rflags: u64,
    ports: PortMap,
)
    ensures
        ({
            let start = StringIo::at_start(io_info, regs, rflags, ports);
            let count: int = if io_info.is_repeat {
                regs.rcx as int
            } else {
                1
            };
            let stride: int = if (rflags / 0x400) % 2 == 1 {
                -(io_info.access_size as int)
            } else {
                io_info.access_size as int
            };
            let end = start.stepped_by(start.remaining as nat);
            &&& end.remaining == 0
            &&& end.finished(regs) == (GeneralRegisters {
                rdi: if io_info.is_in {
                    ((regs.rdi + count * stride) % 0x1_0000_0000_0000_0000) as u64
                } else {
                    regs.rdi
                },
                rsi: if io_info.is_in {
                    regs.rsi
                } else {
                    ((regs.rsi + count * stride) % 0x1_0000_0000_0000_0000) as u64
                },
                rcx: if io_info.is_repeat {
                    0
                } else {
                    regs.rcx
                },
                ..regs
            })
        }),
{
    let start = StringIo::at_start(io_info, regs, rflags, ports);
    law_string_io_progress(start, start.remaining as nat);
}

/// Whatever is given, a single read of a port without a device clears the low bytes of the
/// register, and every access of a string instruction to a port outside the console stores zero.
pub proof fn law_no_device_reads_zero(
    regs: GeneralRegisters,
    io_info: VmxIoExitInfo,
    rflags: u64,
    ports: PortMap,
    given: u32,
    n: nat,
)
    requires
        valid_access_size(io_info.access_size),
        n <= StringIo::at_start(io_info, regs, rflags, ports).remaining,
    ensures
        ({
            let size = io_info.access_size;
            let device = port_device(ports, io_info.port);
            let string = StringIo::at_start(io_info, regs, rflags, ports).stepped_by(n);
            &&& device == PortDevice::Nothing ==> low_bytes(
                merged(regs.rax, size, read_value(device, given)),
                size,
            ) == 0
            &&& !ports.uart_com1.has(io_info.port) ==> guest_store(
                string.access_size,
                string.read_value(given),
            ) == guest_store(size, 0)
        }),
{
    law_port_read_merges(regs.rax, io_info.access_size, 0);
    law_string_io_progress(StringIo::at_start(io_info, regs, rflags, ports), n);
}

/// A read of one or two bytes leaves the other bytes of the register alone, a read of four bytes
/// clears the upper half, and the low bytes then hold what was read.
pub proof fn law_port_read_merges(reg: u64, access_size: u8, value: u32)
    requires
        valid_access_size(access_size),
    ensures
        low_bytes(merged(reg, access_size, value), access_size) == low_bytes(
            value as u64,
            access_size,
        ),
        access_size == 1 ==> merged(reg, access_size, value) / 0x100 == reg / 0x100,
        access_size == 2 ==> merged(reg, access_size, value) / 0x1_0000 == reg / 0x1_0000,
        access_size == 4 ==> merged(reg, access_size, value) / 0x1_0000_0000 == 0,
{
}

/// A port belongs to the first of PCI and the console whose range holds it, and to no device when
/// neither does.
pub proof fn law_find_device(ports: &PortMap, port: u16, device: PortDevice)
    requires
        call_ensures(find_device, (ports, port), device),
    ensures
        device is PciConfig <==> ports.pci_config_addr.start <= port < ports.pci_config_addr.end
            || ports.pci_config_data.start <= port < ports.pci_config_data.end,
        !(device is PciConfig) ==> (device is Console <==> ports.uart_com1.start <= port
            < ports.uart_com1.end),
{
}

/// What an I/O instruction calls for. A string instruction is always carried out; another one is
/// refused exactly when it has a REP prefix, and otherwise accesses the device of its port, in its
/// own direction. A write carries as many low bytes of RAX as the access has.
pub proof fn law_handle_io_instruction(
    io_info: &VmxIoExitInfo,
    regs: &GeneralRegisters,
    ports: &PortMap,
    action: Result<IoAction, HvErrorNum>,
    found: PortDevice,
)
    requires
        call_ensures(handle_io_instruction, (io_info, regs, ports), action),
        call_ensures(find_device, (ports, io_info.port), found),
    ensures
        action is Err <==> !io_info.is_string && io_info.is_repeat,
        action matches Err(e) ==> e == HvErrorNum::ENOSYS,
        action matches Ok(action) ==> {
            &&& action is StringIo <==> io_info.is_string
            &&& !io_info.is_string ==> (action is Read <==> io_info.is_in)
            &&& action matches IoAction::Read { device } ==> device == found
            &&& action matches IoAction::Write { device, value } ==> {
                &&& device == found
                &&& io_info.access_size == 1 ==> value == regs.rax % 0x100
                &&& io_info.access_size == 2 ==> value == regs.rax % 0x1_0000
                &&& io_info.access_size == 4 ==> value == regs.rax % 0x1_0000_0000
            }
        },
{
}

/// A device gives what it gave, and no device gives zero.
pub proof fn law_port_read_value(device: PortDevice, given: u32, value: u32)
    requires
        call_ensures(port_read_value, (device, given), value),
    ensures
        device is Nothing ==> value == 0,
        !(device is Nothing) ==> value == given,
{
}

/// A read replaces as many low bytes of RAX as the access has by those of the value, which is zero
/// where the port has no device. One or two bytes leave the rest of RAX alone, four bytes clear it,
/// and no other register changes.
pub proof fn law_complete_port_read(
    regs: &mut GeneralRegisters,
    io_info: &VmxIoExitInfo,
    ports: &PortMap,
    given: u32,
    device: PortDevice,
)
    requires
        call_ensures(complete_port_read, (regs, io_info, ports, given), ()),
        call_ensures(find_device, (ports, io_info.port), device),
        valid_access_size(io_info.access_size),
    ensures
        ({
            let rax = old(regs).rax;
            let merged = final(regs).rax;
            let value: u32 = if device is Nothing {
                0
            } else {
                given
            };
            &&& io_info.access_size == 1 ==> {
                &&& merged % 0x100 == value % 0x100
                &&& merged / 0x100 == rax / 0x100
            }
            &&& io_info.access_size == 2 ==> {
                &&& merged % 0x1_0000 == value % 0x1_0000
                &&& merged / 0x1_0000 == rax / 0x1_0000
            }
            &&& io_info.access_size == 4 ==> merged == value
        }),
        final(regs).rbx == old(regs).rbx,
        final(regs).rcx == old(regs).rcx,
        final(regs).rdx == old(regs).rdx,
        final(regs).rsi == old(regs).rsi,
        final(regs).rdi == old(regs).rdi,
        final(regs).rbp == old(regs).rbp,
{
}

/// The length of an instruction is what the CPU reports, where that fits into eight bits, and
/// lengths that agree in the low eight bits are the same.
pub proof fn law_instruction_length(exit_info: &VmxExitInfo, len: u8)
    requires
        call_ensures(instruction_length, (exit_info,), len),
    ensures
        (exit_info.exit_instruction_length - len) % 0x100 == 0,
{
}

/// A string instruction starts at RDI for INS and at RSI for OUTS, makes as many accesses as RCX
/// says with a REP prefix and one without, goes down exactly when bit 10 of RFLAGS is set, and
/// reaches the console exactly when its port is one of the console's.
pub proof fn law_string_io_begin(
    io_info: &VmxIoExitInfo,
    regs: &GeneralRegisters,
    rflags: u64,
    ports: &PortMap,
    io: StringIo,
)
    requires
        call_ensures(StringIo::begin, (io_info, regs, rflags, ports), io),
    ensures
        io.is_in ==> io.addr == regs.rdi,
        !io.is_in ==> io.addr == regs.rsi,
        io.is_repeat ==> io.remaining == regs.rcx,
        !io.is_repeat ==> io.remaining == 1,
        io.backward <==> (rflags / 0x400) % 2 == 1,
        io.is_console <==> ports.uart_com1.start <= io_info.port < ports.uart_com1.end,
        io.port == io_info.port,
        io.is_in == io_info.is_in,
        io.is_repeat == io_info.is_repeat,
        io.access_size == io_info.access_size,
{
}

/// INS reads the console at its own port, and nothing where its port is another one; then its value
/// is zero.
pub proof fn law_string_io_reads_console(
    io: &StringIo,
    port: Option<u16>,
    given: u32,
    value: u32,
)
    requires
        call_ensures(StringIo::ins_port, (io,), port),
        call_ensures(StringIo::ins_value, (io, given), value),
    ensures
        port is Some <==> io.is_console,
        port matches Some(port) ==> port == io.port && value == given,
        port is None ==> value == 0,
{
}

/// One access of INS stores as many low bytes of the value as it has, at the current address, and
/// moves the address by that many bytes, up or down, modulo 2^64. An access of another size than
/// one, two or four bytes stores nothing.
pub proof fn law_string_io_ins(io: &mut StringIo, given: u32, value: u32, store: (u64, GuestStore))
    requires
        call_ensures(StringIo::ins_store, (io, given), store),
        call_ensures(StringIo::ins_value, (&*old(io), given), value),
        old(io).remaining > 0,
    ensures
        ({
            let s = *old(io);
            let t = *final(io);
            &&& store.0 == s.addr
            &&& store.1 is Byte <==> s.access_size == 1
            &&& store.1 is Word <==> s.access_size == 2
            &&& store.1 is Dword <==> s.access_size == 4
            &&& store.1 matches GuestStore::Byte(stored) ==> stored == value % 0x100
            &&& store.1 matches GuestStore::Word(stored) ==> stored == value % 0x1_0000
            &&& store.1 matches GuestStore::Dword(stored) ==> stored == value
            &&& t.port == s.port && t.is_console == s.is_console && t.is_in == s.is_in
            &&& t.is_repeat == s.is_repeat && t.access_size == s.access_size
            &&& t.backward == s.backward
            &&& t.remaining == s.remaining - 1
            &&& !s.backward && s.addr + s.access_size < 0x1_0000_0000_0000_0000 ==> t.addr == s.addr
                + s.access_size
            &&& s.backward && s.addr >= s.access_size ==> t.addr == s.addr - s.access_size
            &&& !s.backward && s.addr + s.access_size >= 0x1_0000_0000_0000_0000 ==> t.addr
                == s.addr + s.access_size - 0x1_0000_0000_0000_0000
            &&& s.backward && s.addr < s.access_size ==> t.addr == s.addr - s.access_size
                + 0x1_0000_0000_0000_0000
        }),
{
}

/// One access of OUTS loads as many bytes as it has from the current address, writes what was
/// loaded to the console, where its port is one of the console's, and moves the address by that
/// many bytes, up or down, modulo 2^64. What cannot be loaded is written as zero.
pub proof fn law_string_io_outs(
    io: &mut StringIo,
    load: (u64, GuestLoad),
    loaded: Option<u32>,
    write: Option<(u16, u32)>,
)
    requires
        call_ensures(StringIo::outs_load, (&*old(io),), load),
        call_ensures(StringIo::outs_emit, (io, loaded), write),
        old(io).remaining > 0,
    ensures
        ({
            let s = *old(io);
            let t = *final(io);
            &&& load.0 == s.addr
            &&& load.1 is Byte <==> s.access_size == 1
            &&& load.1 is Word <==> s.access_size == 2
            &&& load.1 is Dword <==> s.access_size == 4
            &&& write is Some <==> s.is_console
            &&& write matches Some((port, value)) ==> {
                &&& port == s.port
                &&& loaded is Some && !(load.1 is Nothing) ==> value == loaded->0
                &&& loaded is None || load.1 is Nothing ==> value == 0
            }
            &&& t.port == s.port && t.is_console == s.is_console && t.is_in == s.is_in
            &&& t.is_repeat == s.is_repeat && t.access_size == s.access_size
            &&& t.backward == s.backward
            &&& t.remaining == s.remaining - 1
            &&& !s.backward && s.addr + s.access_size < 0x1_0000_0000_0000_0000 ==> t.addr == s.addr
                + s.access_size
            &&& s.backward && s.addr >= s.access_size ==> t.addr == s.addr - s.access_size
            &&& !s.backward && s.addr + s.access_size >= 0x1_0000_0000_0000_0000 ==> t.addr
                == s.addr + s.access_size - 0x1_0000_0000_0000_0000
            &&& s.backward && s.addr < s.access_size ==> t.addr == s.addr - s.access_size
                + 0x1_0000_0000_0000_0000
        }),
{
}

/// A finished string instruction leaves its address in RDI for INS and in RSI for OUTS, clears RCX
/// exactly after a REP prefix, and changes no other register.
pub proof fn law_string_io_finish(io: &StringIo, regs: &mut GeneralRegisters)
    requires
        call_ensures(StringIo::finish, (io, regs), ()),
    ensures
        io.is_in ==> final(regs).rdi == io.addr && final(regs).rsi == old(regs).rsi,
        !io.is_in ==> final(regs).rsi == io.addr && final(regs).rdi == old(regs).rdi,
        io.is_repeat ==> final(regs).rcx == 0,
        !io.is_repeat ==> final(regs).rcx == old(regs).rcx,
        final(regs).rax == old(regs).rax,
        final(regs).rbx == old(regs).rbx,
        final(regs).rdx == old(regs).rdx,
        final(regs).rbp == old(regs).rbp,
{
}

} // verus!
