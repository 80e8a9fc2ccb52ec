use vstd::prelude::*;
use crate::rom::{Mirroring, Rom};

verus! {

/// The bank sizes that boards use, with their log2: 1, 4, 8, 16 and 32 KB.
pub open spec fn is_bank_size(size: int, bit: usize) -> bool {
    ||| (bit == 10 && size == 0x400)
    ||| (bit == 12 && size == 0x1000)
    ||| (bit == 13 && size == 0x2000)
    ||| (bit == 14 && size == 0x4000)
    ||| (bit == 15 && size == 0x8000)
}

/// 1, 4, 8, 16 or 32 KB.
pub open spec fn valid_bank_size(size: usize) -> bool {
    size == 0x400 || size == 0x1000 || size == 0x2000 || size == 0x4000 || size == 0x8000
}

/// Largest PRG image an iNES header can announce (255 banks of 16 KB).
pub const MAX_PRG_SIZE: usize = 0x3FC000;

/// Largest CHR image the bank arithmetic is proved for (64 KB banks of 1 KB, 64 MB), far
/// above what a cartridge header announces (255 banks of 8 KB).
pub const MAX_CHR_SIZE: usize = 0x400_0000;

/// The bank switching state shared by the board implementations: bank sizes, the bank
/// selected for each window, and the nametable arrangement.
pub struct MapperConfig {
    pub total_prg_rom_size: usize,
    pub total_chr_rom_size: usize,
    pub chr_bank_size: usize,
    pub chr_bank_size_mask: usize,
    pub chr_bank_size_bit: usize,
    pub prg_bank_size: usize,
    pub prg_bank_size_mask: usize,
    pub prg_bank_size_bit: usize,
    pub prg_banks: Vec<usize>,
    pub chr_banks: Vec<usize>,
    pub mirroring: Mirroring,
    pub is_custom_chr: bool,
    pub is_custom_prg: bool,
    pub is_custom_nametable: bool,
    pub on_read_chr_hook: bool,
}

impl MapperConfig {
    /// Number of PRG banks of the current size.
    pub open spec fn prg_count(self) -> int {
        self.total_prg_rom_size as int / self.prg_bank_size as int
    }

    /// Number of CHR banks of the current size.
    pub open spec fn chr_count(self) -> int {
        self.total_chr_rom_size as int / self.chr_bank_size as int
    }

    /// Bank sizes with their masks and shifts, and 256 bank slots per window.
    pub open spec fn sizes_wf(self) -> bool {
        &&& is_bank_size(self.prg_bank_size as int, self.prg_bank_size_bit)
        &&& self.prg_bank_size_mask == self.prg_bank_size - 1
        &&& is_bank_size(self.chr_bank_size as int, self.chr_bank_size_bit)
        &&& self.chr_bank_size_mask == self.chr_bank_size - 1
        &&& self.prg_banks@.len() == 256
        &&& self.chr_banks@.len() == 256
        &&& self.total_prg_rom_size <= MAX_PRG_SIZE
        &&& self.total_chr_rom_size <= MAX_CHR_SIZE
    }

    /// Every selected bank lies inside the ROM.
    pub open spec fn wf(self) -> bool {
        &&& self.sizes_wf()
        &&& self.prg_count() >= 1
        &&& self.chr_count() >= 1
        &&& forall|i: int| 0 <= i < 256 ==> #[trigger] self.prg_banks@[i] < self.prg_count()
        &&& forall|i: int| 0 <= i < 256 ==> #[trigger] self.chr_banks@[i] < self.chr_count()
    }

    /// Every bank slot holds 0.
    pub open spec fn banks_zero(self) -> bool {
        &&& forall|i: int| 0 <= i < self.prg_banks@.len() ==> #[trigger] self.prg_banks@[i] == 0
        &&& forall|i: int| 0 <= i < self.chr_banks@.len() ==> #[trigger] self.chr_banks@[i] == 0
    }

    pub fn default() -> (r: Self)
        ensures
            r.total_prg_rom_size == 0,
            r.total_chr_rom_size == 0,
            r.chr_bank_size == 0x2000 && r.chr_bank_size_bit == 13,
            r.prg_bank_size == 0x8000 && r.prg_bank_size_bit == 15,
            r.sizes_wf(),
            r.banks_zero(),
            r.mirroring == Mirroring::Horizontal,
            !r.is_custom_chr && !r.is_custom_prg && !r.is_custom_nametable && !r.on_read_chr_hook,
    {
        let prg_banks = vec![0usize; 256];
        let chr_banks = vec![0usize; 256];
        Self {
            total_prg_rom_size: 0,
            total_chr_rom_size: 0,
            chr_bank_size: 0x2000,
            chr_bank_size_mask: 0x1fff,
            chr_bank_size_bit: 13,
            prg_bank_size: 0x8000,
            prg_bank_size_mask: 0x7fff,
            prg_bank_size_bit: 15,
            prg_banks,
            chr_banks,
            mirroring: Mirroring::Horizontal,
            is_custom_chr: false,
            is_custom_prg: false,
            is_custom_nametable: false,
            on_read_chr_hook: false,
        }
    }

    pub fn new(rom: &Rom) -> (r: Self)
        requires
            rom.prg_rom@.len() <= MAX_PRG_SIZE,
            rom.chr_rom@.len() <= MAX_CHR_SIZE,
        ensures
            r.total_prg_rom_size == rom.prg_rom@.len(),
            r.total_chr_rom_size == rom.chr_rom@.len(),
            r.mirroring == rom.header.mirroring,
            r.chr_bank_size == 0x2000 && r.chr_bank_size_bit == 13,
            r.prg_bank_size == 0x8000 && r.prg_bank_size_bit == 15,
            r.sizes_wf(),
            r.banks_zero(),
            !r.is_custom_chr && !r.is_custom_prg && !r.is_custom_nametable && !r.on_read_chr_hook,
    {
        let mut result = Self::default();
        result.total_prg_rom_size = rom.prg_rom.len();
        result.total_chr_rom_size = rom.chr_rom.len();
        result.mirroring = rom.header.mirroring;
        result
    }

    /// Log2 of a bank size.
    fn size_bit(size: usize) -> (r: usize)
        requires
            valid_bank_size(size),
        ensures
            is_bank_size(size as int, r),
    {
        if size == 0x400 {
            10
        } else if size == 0x1000 {
            12
        } else if size == 0x2000 {
            13
        } else if size == 0x4000 {
            14
        } else {
            15
        }
    }

    /// Typically 0x800 or 0x2000
    pub fn set_chr_bank_size(&mut self, size: usize)
        requires
            valid_bank_size(size),
        ensures
            final(self).chr_bank_size == size,
            is_bank_size(size as int, final(self).chr_bank_size_bit),
            final(self).chr_bank_size_mask == size - 1,
            *final(self) == (MapperConfig {
                chr_bank_size: size,
                chr_bank_size_bit: final(self).chr_bank_size_bit,
                chr_bank_size_mask: (size - 1) as usize,
                ..*old(self)
            }),
    {
        self.chr_bank_size = size;
        self.chr_bank_size_bit = Self::size_bit(size);
        self.chr_bank_size_mask = size - 1;
    }

    /// Typically 0x4000 or 0x8000
    pub fn set_prg_bank_size(&mut self, size: usize)
        requires
            valid_bank_size(size),
        ensures
            final(self).prg_bank_size == size,
            is_bank_size(size as int, final(self).prg_bank_size_bit),
            final(self).prg_bank_size_mask == size - 1,
            *final(self) == (MapperConfig {
                prg_bank_size: size,
                prg_bank_size_bit: final(self).prg_bank_size_bit,
                prg_bank_size_mask: (size - 1) as usize,
                ..*old(self)
            }),
    {
        self.prg_bank_size = size;
        self.prg_bank_size_bit = Self::size_bit(size);
        self.prg_bank_size_mask = size - 1;
    }

    /// Selects `bank` (wrapped to the number of CHR banks) for the window `bank_index`.
    pub fn set_chr_bank(&mut self, bank_index: usize, bank: usize)
        requires
            old(self).sizes_wf(),
            old(self).chr_count() >= 1,
            bank_index < 256,
        ensures
            final(self).chr_banks@ == old(self).chr_banks@.update(
                bank_index as int, (bank & (old(self).chr_count() - 1) as usize)),
            final(self).chr_banks@[bank_index as int] < old(self).chr_count(),
            final(self).chr_banks@[bank_index as int] <= bank,
            *final(self) == (MapperConfig { chr_banks: final(self).chr_banks, ..*old(self) }),
    {
        let count = self.get_chr_bank_count();
        let bank2 = bank & (count - 1);
        proof {
            let m = (count - 1) as usize;
            crate::bit_facts::lemma_usize_masks();
            assert(bank & m <= m && bank & m <= bank);
        }
        self.chr_banks.set(bank_index, bank2);
    }

    /// Selects `bank` (wrapped to the number of PRG banks) for the window `bank_index`.
    pub fn set_prg_bank(&mut self, bank_index: usize, bank: usize)
        requires
            old(self).sizes_wf(),
            old(self).prg_count() >= 1,
            bank_index < 256,
        ensures
            final(self).prg_banks@ == old(self).prg_banks@.update(
                bank_index as int, (bank & (old(self).prg_count() - 1) as usize)),
            final(self).prg_banks@[bank_index as int] < old(self).prg_count(),
            final(self).prg_banks@[bank_index as int] <= bank,
            *final(self) == (MapperConfig { prg_banks: final(self).prg_banks, ..*old(self) }),
    {
        let count = self.get_prg_bank_count();
        let bank2 = bank & (count - 1);
        proof {
            let m = (count - 1) as usize;
            crate::bit_facts::lemma_usize_masks();
            assert(bank & m <= m && bank & m <= bank);
        }
        self.prg_banks.set(bank_index, bank2);
    }

    pub fn set_mirroring(&mut self, mirroring: Mirroring)
        ensures
            *final(self) == (MapperConfig { mirroring, ..*old(self) }),
    {
        self.mirroring = mirroring;
    }

    pub fn set_is_custom_chr(&mut self, is_custom: bool)
        ensures
            *final(self) == (MapperConfig { is_custom_chr: is_custom, ..*old(self) }),
    {
        self.is_custom_chr = is_custom;
    }

    pub fn set_is_custom_prg(&mut self, is_custom: bool)
        ensures
            *final(self) == (MapperConfig { is_custom_prg: is_custom, ..*old(self) }),
    {
        self.is_custom_prg = is_custom;
    }

    pub fn get_chr_bank_count(&self) -> (r: usize)
        requires
            self.sizes_wf(),
        ensures
            r == self.chr_count(),
    {
        self.total_chr_rom_size / self.chr_bank_size
    }

    pub fn get_prg_bank_count(&self) -> (r: usize)
        requires
            self.sizes_wf(),
        ensures
            r == self.prg_count(),
    {
        self.total_prg_rom_size / self.prg_bank_size
    }

    pub fn set_is_custom_nametable(&mut self, is_custom: bool)
        ensures
            *final(self) == (MapperConfig { is_custom_nametable: is_custom, ..*old(self) }),
    {
        self.is_custom_nametable = is_custom;
    }
}

/// The bank counts that boards are built with: a power of two, from 1 to 8192.
pub open spec fn is_power_of_two_count(n: int) -> bool {
    n == 1 || n == 2 || n == 4 || n == 8 || n == 16 || n == 32 || n == 64 || n == 128 || n == 256 || n == 512 || n == 1024 || n == 2048 || n == 4096 || n == 8192
}

/// With a power-of-two bank count, masking a bank number with the count minus one takes
/// it modulo the count.
pub proof fn lemma_bank_mask(x: usize, n: int)
    requires
        is_power_of_two_count(n),
    ensures
        x & ((n - 1) as usize) == x % (n as usize),
{
    crate::bit_facts::lemma_usize_masks();
    crate::bit_facts::lemma_index_fields();
    if n == 1 {
        assert(x & 0x0 == x % 0x1);
    } else if n == 2 {
        assert(x & 0x1 == x % 0x2);
    } else if n == 4 {
        assert(x & 0x3 == x % 0x4);
    } else if n == 8 {
        assert(x & 0x7 == x % 0x8);
    } else if n == 16 {
        assert(x & 0xf == x % 0x10);
    } else if n == 32 {
        assert(x & 0x1f == x % 0x20);
    } else if n == 64 {
        assert(x & 0x3f == x % 0x40);
    } else if n == 128 {
        assert(x & 0x7f == x % 0x80);
    } else if n == 256 {
        assert(x & 0xff == x % 0x100);
    } else if n == 512 {
        assert(x & 0x1ff == x % 0x200);
    } else if n == 1024 {
        assert(x & 0x3ff == x % 0x400);
    } else if n == 2048 {
        assert(x & 0x7ff == x % 0x800);
    } else if n == 4096 {
        assert(x & 0xfff == x % 0x1000);
    } else if n == 8192 {
        assert(x & 0x1fff == x % 0x2000);
    }
}


} // verus!
