//! The cartridge's memory bank controller: which ROM and RAM banks the
//! address bus sees, and whether RAM accepts writes.
use vstd::prelude::*;

verus! {

/// Largest ROM image a cartridge can hold, in bytes.
pub const MAX_ROM_SIZE: usize = 0x200000;

/// Offset of the header byte that names the bank controller.
pub const BANKING_TYPE_OFFSET: usize = 0x147;

/// Size of the RAM bank pool, in bytes.
pub const RAM_SIZE: usize = 0x8000;

#[derive(Clone, Copy, Debug, PartialEq, Eq, Structural)]
pub enum BankingType {
    NoBanking,
    MBC1,
    MBC2,
}

/// Why a ROM image cannot be loaded.
#[derive(Clone, Copy, Debug, PartialEq, Eq, Structural)]
pub enum RomError {
    /// The length is zero, above [`MAX_ROM_SIZE`], or not a power of two.
    InvalidSize(usize),
    /// The image is too short to hold the banking-type header byte.
    MissingHeader(usize),
    /// The banking-type header byte names no supported controller.
    UnsupportedBankingType(u8),
}

pub open spec fn is_power_of_two(n: nat) -> bool
    decreases n,
{
    if n == 0 {
        false
    } else if n == 1 {
        true
    } else {
        n % 2 == 0 && is_power_of_two(n / 2)
    }
}

pub open spec fn valid_rom_size(n: nat) -> bool {
    1 <= n <= MAX_ROM_SIZE && is_power_of_two(n)
}

/// The controller that header byte `b` names, if any.
pub open spec fn banking_type_of(b: u8) -> Option<BankingType> {
    if b == 0 {
        Some(BankingType::NoBanking)
    } else if 1 <= b <= 3 {
        Some(BankingType::MBC1)
    } else if 4 <= b <= 6 {
        Some(BankingType::MBC2)
    } else {
        None
    }
}

/// What the bank controller holds.
pub struct CartridgeView {
    pub rom: Seq<u8>,
    pub ram: Seq<u8>,
    pub banking_type: BankingType,
    pub current_rom_bank: u8,
    pub current_ram_bank: u8,
    pub rom_banking_mode: bool,
    pub ram_write_enabled: bool,
}

/// Bank register 0 selects bank 1.
pub open spec fn bank_or_one(bank: u8) -> u8 {
    if bank == 0 {
        1
    } else {
        bank
    }
}

/// A write to the RAM-enable register: low nibble 0xA enables, 0x0
/// disables, anything else changes nothing. An MBC2 ignores it when bit 3
/// of the address is set.
pub open spec fn ram_writing_after(s: CartridgeView, address: u16, byte: u8) -> CartridgeView {
    if s.banking_type == BankingType::MBC2 && address & 0x08 != 0 {
        s
    } else if byte & 0x0F == 0x0A {
        CartridgeView { ram_write_enabled: true, ..s }
    } else if byte & 0x0F == 0x00 {
        CartridgeView { ram_write_enabled: false, ..s }
    } else {
        s
    }
}

/// A write of the low ROM bank bits: the low nibble is the whole bank on an
/// MBC2; bits 0 to 4 replace those of the bank otherwise.
pub open spec fn lo_rom_bank_after(s: CartridgeView, byte: u8) -> CartridgeView {
    let bank = if s.banking_type == BankingType::MBC2 {
        byte & 0x0F
    } else {
        (s.current_rom_bank & 0xE0) | (byte & 0x1F)
    };
    CartridgeView { current_rom_bank: bank_or_one(bank), ..s }
}

/// A write of the high ROM bank bits: bits 5 to 7 of `byte` replace those of
/// the bank.
pub open spec fn hi_rom_bank_after(s: CartridgeView, byte: u8) -> CartridgeView {
    CartridgeView {
        current_rom_bank: bank_or_one((s.current_rom_bank & 0x1F) | (byte & 0xE0)),
        ..s
    }
}

pub open spec fn ram_bank_after(s: CartridgeView, byte: u8) -> CartridgeView {
    CartridgeView { current_ram_bank: byte & 0x03, ..s }
}

/// A write of the banking mode: an even byte selects ROM banking mode,
/// which selects RAM bank 0.
pub open spec fn banking_mode_after(s: CartridgeView, byte: u8) -> CartridgeView {
    if byte & 0x01 == 0 {
        CartridgeView { rom_banking_mode: true, current_ram_bank: 0, ..s }
    } else {
        CartridgeView { rom_banking_mode: false, ..s }
    }
}

/// A control write of `byte` to `address`, as the bus forwards every write
/// below 0x8000.
pub open spec fn control_write(s: CartridgeView, address: u16, byte: u8) -> CartridgeView {
    let mbc1 = s.banking_type == BankingType::MBC1;
    let mbc2 = s.banking_type == BankingType::MBC2;
    if address < 0x2000 {
        if mbc1 || mbc2 {
            ram_writing_after(s, address, byte)
        } else {
            s
        }
    } else if address < 0x4000 {
        if mbc1 || mbc2 {
            lo_rom_bank_after(s, byte)
        } else {
            s
        }
    } else if address < 0x6000 {
        if !mbc1 {
            s
        } else if s.rom_banking_mode {
            hi_rom_bank_after(s, byte)
        } else {
            ram_bank_after(s, byte)
        }
    } else if address < 0x8000 {
        if mbc1 {
            banking_mode_after(s, byte)
        } else {
            s
        }
    } else {
        s
    }
}

pub struct Cartridge {
    rom: Vec<u8>,
    ram_banks: Vec<u8>,
    banking_type: BankingType,
    current_rom_bank: u8,
    current_ram_bank: u8,
    rom_banking_mode: bool,
    ram_write_enabled: bool,
}

impl View for Cartridge {
    type V = CartridgeView;

    closed spec fn view(&self) -> CartridgeView {
        CartridgeView {
            rom: self.rom@,
            ram: self.ram_banks@,
            banking_type: self.banking_type,
            current_rom_bank: self.current_rom_bank,
            current_ram_bank: self.current_ram_bank,
            rom_banking_mode: self.rom_banking_mode,
            ram_write_enabled: self.ram_write_enabled,
        }
    }
}

/// Whether `n` is a power of two.
fn power_of_two(n: usize) -> (r: bool)
    ensures
        r == is_power_of_two(n as nat),
{
    if n == 0 {
        return false;
    }
    let mut m = n;
    while m % 2 == 0
        invariant
            m >= 1,
            is_power_of_two(m as nat) == is_power_of_two(n as nat),
        decreases m,
    {
        m = m / 2;
    }
    m == 1
}

impl Cartridge {
    #[verifier::type_invariant]
    spec fn inv(self) -> bool {
        &&& valid_rom_size(self.rom@.len())
        &&& self.rom@.len() > BANKING_TYPE_OFFSET
        &&& self.ram_banks@.len() == RAM_SIZE
        &&& self.current_rom_bank != 0
        &&& self.current_ram_bank <= 3
    }

    /// Builds the controller for a ROM image: the size must be a power of
    /// two no larger than [`MAX_ROM_SIZE`], and the header byte at
    /// [`BANKING_TYPE_OFFSET`] must name a supported controller.
    pub fn new(rom: Vec<u8>) -> (r: Result<Cartridge, RomError>)
        ensures
            match r {
                Ok(c) => {
                    &&& valid_rom_size(rom@.len())
                    &&& rom@.len() > BANKING_TYPE_OFFSET
                    &&& banking_type_of(rom@[BANKING_TYPE_OFFSET as int]) == Some(
                        c@.banking_type,
                    )
                    &&& c@.rom == rom@
                    &&& c@.ram.len() == RAM_SIZE
                    &&& forall|i: int| 0 <= i < RAM_SIZE ==> c@.ram[i] == 0
                    &&& c@.current_rom_bank == 1
                    &&& c@.current_ram_bank == 0
                    &&& c@.rom_banking_mode
                    &&& !c@.ram_write_enabled
                },
                Err(RomError::InvalidSize(n)) => n == rom@.len() && !valid_rom_size(n as nat),
                Err(RomError::MissingHeader(n)) => {
                    &&& n == rom@.len()
                    &&& valid_rom_size(n as nat)
                    &&& n <= BANKING_TYPE_OFFSET
                },
                Err(RomError::UnsupportedBankingType(b)) => {
                    &&& valid_rom_size(rom@.len())
                    &&& rom@.len() > BANKING_TYPE_OFFSET
                    &&& b == rom@[BANKING_TYPE_OFFSET as int]
                    &&& banking_type_of(b) is None
                },
            },
    {
        let len = rom.len();
        if len == 0 || len > MAX_ROM_SIZE || !power_of_two(len) {
            return Err(RomError::InvalidSize(len));
        }
        if len <= BANKING_TYPE_OFFSET {
            return Err(RomError::MissingHeader(len));
        }
        let header = rom[BANKING_TYPE_OFFSET];
        let banking_type = if header == 0 {
            BankingType::NoBanking
        } else if 1 <= header && header <= 3 {
            BankingType::MBC1
        } else if 4 <= header && header <= 6 {
            BankingType::MBC2
        } else {
            return Err(RomError::UnsupportedBankingType(header));
        };
        Ok(
            Cartridge {
                rom,
                ram_banks: vec![0u8; RAM_SIZE],
                banking_type,
                current_rom_bank: 1,
                current_ram_bank: 0,
                rom_banking_mode: true,
                ram_write_enabled: false,
            },
        )
    }

    /// Updates ability to write to RAM based on the value of the lower half
    /// of `byte`.
    pub fn update_ram_writing(&mut self, address: u16, byte: u8)
        ensures
            final(self)@ == ram_writing_after(old(self)@, address, byte),
    {
        proof {
            use_type_invariant(&*self);
        }
        if self.banking_type == BankingType::MBC2 {
            if address & 0x08 != 0 {
                return ;
            }
        }
        if (byte & 0x0F) == 0x0A {
            self.ram_write_enabled = true;
        } else if (byte & 0x0F) == 0x00 {
            self.ram_write_enabled = false;
        }
    }

    /// Changes lower bits of the current ROM bank.
    pub fn change_lo_rom_bank(&mut self, byte: u8)
        ensures
            final(self)@ == lo_rom_bank_after(old(self)@, byte),
    {
        proof {
            use_type_invariant(&*self);
        }
        let bank = if self.banking_type == BankingType::MBC2 {
            byte & 0x0F
        } else {
            (self.current_rom_bank & 0xE0) | (byte & 0x1F)
        };
        self.current_rom_bank = if bank == 0 {
            1
        } else {
            bank
        };
    }

    /// Sets the ROM bank's upper three bits to the upper three bits of
    /// `byte`.
    pub fn change_hi_rom_bank(&mut self, byte: u8)
        ensures
            final(self)@ == hi_rom_bank_after(old(self)@, byte),
    {
        proof {
            use_type_invariant(&*self);
        }
        let bank = (self.current_rom_bank & 0x1F) | (byte & 0xE0);
        self.current_rom_bank = if bank == 0 {
            1
        } else {
            bank
        };
    }

    /// Sets the RAM bank to the lower two bits of `byte`.
    pub fn change_ram_bank(&mut self, byte: u8)
        ensures
            final(self)@ == ram_bank_after(old(self)@, byte),
    {
        proof {
            use_type_invariant(&*self);
        }
        assert(byte & 0x03 <= 3) by (bit_vector);
        self.current_ram_bank = byte & 0x03;
    }

    /// Selects ROM or RAM banking mode by the lowest bit of `byte`.
    pub fn set_banking_mode(&mut self, byte: u8)
        ensures
            final(self)@ == banking_mode_after(old(self)@, byte),
    {
        proof {
            use_type_invariant(&*self);
        }
        self.rom_banking_mode = (byte & 0x01) == 0;
        if self.rom_banking_mode {
            self.current_ram_bank = 0;
        }
    }

    /// Handles a control write of `byte` to `address`.
    pub fn manage_banking(&mut self, address: u16, byte: u8)
        ensures
            final(self)@ == control_write(old(self)@, address, byte),
    {
        let mbc1 = self.banking_type == BankingType::MBC1;
        let mbc2 = self.banking_type == BankingType::MBC2;
        if address < 0x2000 {
            if mbc1 || mbc2 {
                self.update_ram_writing(address, byte);
            }
        } else if address < 0x4000 {
            if mbc1 || mbc2 {
                self.change_lo_rom_bank(byte);
            }
        } else if address < 0x6000 {
            if mbc1 {
                if self.rom_banking_mode {
                    self.change_hi_rom_bank(byte);
                } else {
                    self.change_ram_bank(byte);
                }
            }
        } else if address < 0x8000 {
            if mbc1 {
                self.set_banking_mode(byte);
            }
        }
    }

    /// Returns the byte of the ROM image at `address`.
    pub fn get_rom(&self, address: u32) -> (r: u8)
        requires
            address < self@.rom.len(),
        ensures
            r == self@.rom[address as int],
    {
        self.rom[address as usize]
    }

    /// Returns the byte of the RAM bank pool at `address`.
    pub fn get_ram(&self, address: u16) -> (r: u8)
        requires
            address < RAM_SIZE,
        ensures
            r == self@.ram[address as int],
    {
        proof {
            use_type_invariant(self);
        }
        self.ram_banks[address as usize]
    }

    /// Sets the byte of the RAM bank pool at `address`.
    pub fn set_ram(&mut self, address: u16, byte: u8)
        requires
            address < RAM_SIZE,
        ensures
            final(self)@ == (CartridgeView {
                ram: old(self)@.ram.update(address as int, byte),
                ..old(self)@
            }),
    {
        proof {
            use_type_invariant(&*self);
        }
        self.ram_banks[address as usize] = byte;
    }

    /// Getter for the current ROM bank, which is never 0.
    pub fn get_current_rom_bank(&self) -> (r: u8)
        ensures
            r == self@.current_rom_bank,
            r != 0,
    {
        proof {
            use_type_invariant(self);
        }
        self.current_rom_bank
    }

    /// Getter for the current RAM bank, which is at most 3.
    pub fn get_current_ram_bank(&self) -> (r: u8)
        ensures
            r == self@.current_ram_bank,
            r <= 3,
    {
        proof {
            use_type_invariant(self);
        }
        self.current_ram_bank
    }

    /// Whether writes to the RAM banks are accepted.
    pub fn ram_write_enabled(&self) -> (r: bool)
        ensures
            r == self@.ram_write_enabled,
    {
        self.ram_write_enabled
    }
}

/// With every bank-select bit that a low ROM bank write leaves in the bank
/// at zero, the write selects bank 1, never bank 0. On an MBC1 the bits it
/// keeps (5 to 7) must be zero beforehand for the bank to come out zero.
pub proof fn lemma_bank_zero_aliasing(s: CartridgeView, address: u16, byte: u8)
    requires
        0x2000 <= address < 0x4000,
        (s.banking_type == BankingType::MBC2 && byte & 0x0F == 0) || (s.banking_type
            == BankingType::MBC1 && byte & 0x1F == 0 && s.current_rom_bank & 0xE0 == 0),
    ensures
        control_write(s, address, byte).current_rom_bank == 1,
{
    let b = s.current_rom_bank;
    assert(b & 0xE0 == 0 && byte & 0x1F == 0 ==> (b & 0xE0) | (byte & 0x1F) == 0) by (bit_vector);
}

/// Entering ROM banking mode on an MBC1 selects RAM bank 0, whatever bank
/// was selected before.
pub proof fn lemma_mode_coupling(s: CartridgeView)
    requires
        s.banking_type == BankingType::MBC1,
    ensures
        control_write(s, 0x6000, 0x00).current_ram_bank == 0,
        control_write(s, 0x6000, 0x00).rom_banking_mode,
{
    assert(0x00u8 & 0x01u8 == 0) by (bit_vector);
}

} // verus!
