//! A key/value store emulated in two sectors of the microcontroller's flash memory.
//!
//! Each of the two pages starts with a two-byte header; the active page carries the
//! marker `0xbeef`. The rest of a page is divided into cells of six bytes: a
//! little-endian 32-bit value followed by a little-endian 16-bit key. Erased flash
//! reads `0xff`, so a cell whose key is `0xffff` is empty. New values go to the first
//! empty cell; a read takes the last cell with the key. When the last cell of the
//! active page is taken, the newest value of every key moves to the other page, the
//! old page is erased and the other page becomes active.
//!
//! The flash is held as the image of its bytes from the start of the flash on.
//! Programming can only clear bits: a programmed byte becomes the bitwise AND of
//! its old value and the written one; erasing a sector sets its bytes to `0xff`.

use vstd::prelude::*;
use crate::canopen::{le_u16, le_bytes_u16};

verus! {

/// The marker in the header of the active page.
pub const ACTIVE_PAGE_MARKER: u16 = 0xbeef;
/// The address at which the flash memory starts.
pub const FLASH_START: usize = 0x0800_0000;
/// The size of the page header.
pub const HEADER_SIZE: usize = 2;
/// The size of a cell: four bytes of value and two bytes of key.
pub const CELL_SIZE: usize = 6;
/// The key of an empty (erased) cell.
pub const EMPTY_KEY: u16 = 0xffff;
/// The number of cells in a page.
pub const CELL_COUNT: usize = (0x3fff - 2) / 6;
/// The number of bytes of flash that the storage needs: the sectors up to the second page.
pub const FLASH_IMAGE_SIZE: usize = 0xc000;

/// An error reported by the flash controller.
#[derive(Copy, Clone, Debug, PartialEq, Eq, Structural)]
pub enum FlashError {
    ProgrammingSequence,
    ProgrammingParallelism,
    ProgrammingAlignment,
    WriteProtection,
    Operation,
}

/// One of the two pages of the storage.
#[derive(Copy, Clone, Debug, PartialEq, Eq, Structural)]
pub enum Page {
    Page0,
    Page1,
}

impl Page {
    /// The offset of the page from the start of the flash.
    pub open spec fn offset(self) -> int {
        match self {
            Page::Page0 => 0x4000,
            Page::Page1 => 0x8000,
        }
    }

    /// The flash sector that holds the page.
    pub open spec fn spec_sector(self) -> u8 {
        match self {
            Page::Page0 => 1,
            Page::Page1 => 2,
        }
    }

    /// The other page.
    pub open spec fn spec_next(self) -> Page {
        match self {
            Page::Page0 => Page::Page1,
            Page::Page1 => Page::Page0,
        }
    }

    /// The number of the page.
    pub fn id(&self) -> (id: u8)
        ensures
            id == (match *self {
                Page::Page0 => 0u8,
                Page::Page1 => 1u8,
            }),
    {
        match self {
            Page::Page0 => 0,
            Page::Page1 => 1,
        }
    }

    /// The address at which the page starts.
    pub fn start_address(&self) -> (a: usize)
        ensures
            a == FLASH_START + self.offset(),
    {
        match self {
            Page::Page0 => 0x0800_4000,
            Page::Page1 => 0x0800_8000,
        }
    }

    /// The usable size of a page in bytes.
    pub fn size() -> (s: usize)
        ensures
            s == 0x3fff,
    {
        0x3fff
    }

    /// The number of cells in a page.
    pub fn cell_count() -> (n: usize)
        ensures
            n == CELL_COUNT,
            n == 2730,
    {
        (Self::size() - 2) / 6
    }

    /// The flash sector that holds the page.
    pub fn sector(&self) -> (s: u8)
        ensures
            s == self.spec_sector(),
    {
        match self {
            Page::Page0 => 1,
            Page::Page1 => 2,
        }
    }

    /// The other page.
    pub fn next(&self) -> (p: Page)
        ensures
            p == self.spec_next(),
    {
        match self {
            Page::Page0 => Page::Page1,
            Page::Page1 => Page::Page0,
        }
    }
}

/// The first byte of a flash sector (the sector layout of the STM32F4 up to sector 11).
pub open spec fn sector_start(sector: u8) -> int {
    if sector <= 4 {
        sector * 0x4000
    } else {
        0x20000 * (sector - 4)
    }
}

/// The byte after the last byte of a flash sector.
pub open spec fn sector_end(sector: u8) -> int {
    if sector <= 3 {
        (sector + 1) * 0x4000
    } else {
        0x20000 * (sector - 3)
    }
}

/// The flash after `data` is programmed at `offset`: each byte becomes the bitwise AND
/// of its old value and the programmed one.
pub open spec fn programmed(mem: Seq<u8>, offset: int, data: Seq<u8>) -> Seq<u8> {
    Seq::new(
        mem.len(),
        |i: int|
            if offset <= i < offset + data.len() {
                mem[i] & data[i - offset]
            } else {
                mem[i]
            },
    )
}

/// The flash after a sector is erased: its bytes read `0xff`.
pub open spec fn erased(mem: Seq<u8>, sector: u8) -> Seq<u8> {
    Seq::new(
        mem.len(),
        |i: int|
            if sector_start(sector) <= i < sector_end(sector) {
                0xffu8
            } else {
                mem[i]
            },
    )
}

/// The value of four bytes read in little-endian order.
pub open spec fn le_u32(b0: u8, b1: u8, b2: u8, b3: u8) -> u32 {
    (b0 + 256 * b1 + 65536 * b2 + 16777216 * b3) as u32
}

/// The little-endian bytes of a 32-bit value.
pub open spec fn le_bytes_u32(v: u32) -> Seq<u8> {
    seq![(v % 256) as u8, ((v / 256) % 256) as u8, ((v / 65536) % 256) as u8, (v / 16777216) as u8]
}

/// The offset of a cell from the start of the flash.
pub open spec fn cell_offset(page: Page, cell: int) -> int {
    page.offset() + HEADER_SIZE + cell * CELL_SIZE
}

/// The header of a page.
pub open spec fn page_header(mem: Seq<u8>, page: Page) -> u16 {
    le_u16(mem[page.offset()], mem[page.offset() + 1])
}

/// The key stored in a cell.
pub open spec fn cell_key(mem: Seq<u8>, page: Page, cell: int) -> u16 {
    let a = cell_offset(page, cell);
    le_u16(mem[a + 4], mem[a + 5])
}

/// The value stored in a cell.
pub open spec fn cell_value(mem: Seq<u8>, page: Page, cell: int) -> u32 {
    let a = cell_offset(page, cell);
    le_u32(mem[a], mem[a + 1], mem[a + 2], mem[a + 3])
}

/// The active page: the first page whose header is the marker.
pub open spec fn active_page_of(mem: Seq<u8>) -> Option<Page> {
    if page_header(mem, Page::Page0) == ACTIVE_PAGE_MARKER {
        Some(Page::Page0)
    } else if page_header(mem, Page::Page1) == ACTIVE_PAGE_MARKER {
        Some(Page::Page1)
    } else {
        None
    }
}

/// The value of the last of the first `n` cells of a page that holds `key`.
pub open spec fn find_in(mem: Seq<u8>, page: Page, key: u16, n: int) -> Option<u32>
    decreases n,
{
    if n <= 0 {
        None
    } else if cell_key(mem, page, n - 1) == key {
        Some(cell_value(mem, page, n - 1))
    } else {
        find_in(mem, page, key, n - 1)
    }
}

/// The first cell from `cell` on whose key is the empty key.
pub open spec fn first_empty_from(mem: Seq<u8>, page: Page, cell: int) -> Option<int>
    decreases CELL_COUNT - cell,
{
    if cell < 0 || cell >= CELL_COUNT {
        None
    } else if cell_key(mem, page, cell) == EMPTY_KEY {
        Some(cell)
    } else {
        first_empty_from(mem, page, cell + 1)
    }
}

/// The flash after the value and then the key are programmed into a cell.
pub open spec fn cell_written(mem: Seq<u8>, page: Page, cell: int, key: u16, value: u32) -> Seq<u8> {
    let a = cell_offset(page, cell);
    programmed(programmed(mem, a, le_bytes_u32(value)), a + 4, le_bytes_u16(key))
}

/// The flash after the marker is programmed into the header of a page.
pub open spec fn marked_active(mem: Seq<u8>, page: Page) -> Seq<u8> {
    programmed(mem, page.offset(), le_bytes_u16(ACTIVE_PAGE_MARKER))
}

/// The flash and the next free target cell after the cells `n - 1` down to `0` of
/// `source` are moved to `target`: a non-empty key that the target does not hold
/// yet goes to the next target cell.
pub open spec fn copy_cells(mem: Seq<u8>, source: Page, target: Page, n: int, next: int) -> (Seq<u8>, int)
    decreases n,
{
    if n <= 0 {
        (mem, next)
    } else {
        let key = cell_key(mem, source, n - 1);
        let value = cell_value(mem, source, n - 1);
        if key == EMPTY_KEY || find_in(mem, target, key, CELL_COUNT as int) is Some {
            copy_cells(mem, source, target, n - 1, next)
        } else {
            copy_cells(cell_written(mem, target, next, key, value), source, target, n - 1, next + 1)
        }
    }
}

/// Moving cells keeps the size of the flash.
pub proof fn lemma_copy_cells_len(mem: Seq<u8>, source: Page, target: Page, n: int, next: int)
    ensures
        copy_cells(mem, source, target, n, next).0.len() == mem.len(),
    decreases n,
{
    if n > 0 {
        let key = cell_key(mem, source, n - 1);
        let value = cell_value(mem, source, n - 1);
        if key == EMPTY_KEY || find_in(mem, target, key, CELL_COUNT as int) is Some {
            lemma_copy_cells_len(mem, source, target, n - 1, next);
        } else {
            lemma_copy_cells_len(cell_written(mem, target, next, key, value), source, target, n - 1, next + 1);
        }
    }
}

/// Whether the last cell of the page is taken.
pub open spec fn page_full(mem: Seq<u8>, page: Page) -> bool {
    cell_key(mem, page, CELL_COUNT - 1) != EMPTY_KEY
}

/// The flash after the move to the other page, when the active page is full.
pub open spec fn moved_if_needed(mem: Seq<u8>, page: Page) -> Seq<u8> {
    if !page_full(mem, page) {
        mem
    } else {
        let copied = copy_cells(mem, page, page.spec_next(), CELL_COUNT as int, 0).0;
        marked_active(erased(copied, page.spec_sector()), page.spec_next())
    }
}

/// The flash after `key` and `value` are written: after the move, if needed, the
/// value goes to the first empty cell of the page that was active before the move.
pub open spec fn written(mem: Seq<u8>, key: u16, value: u32) -> Seq<u8> {
    let page = active_page_of(mem).unwrap();
    let moved = moved_if_needed(mem, page);
    match first_empty_from(moved, page, 0) {
        Some(cell) => cell_written(moved, page, cell, key, value),
        None => moved,
    }
}

/// The flash after formatting: both sectors erased, the first page marked active.
pub open spec fn formatted(mem: Seq<u8>) -> Seq<u8> {
    marked_active(erased(erased(mem, 1), 2), Page::Page0)
}

/// The flash memory of the microcontroller, as the image of its bytes.
pub struct FlashMemory {
    memory: Vec<u8>,
}

impl FlashMemory {
    /// The bytes of the flash.
    pub closed spec fn contents(&self) -> Seq<u8> {
        self.memory@
    }

    /// Makes the flash with the given bytes.
    pub fn new(memory: Vec<u8>) -> (f: Self)
        requires
            memory.len() >= FLASH_IMAGE_SIZE,
        ensures
            f.contents() == memory@,
    {
        FlashMemory { memory }
    }

    /// The bytes of the flash.
    pub fn read(&self) -> (m: &[u8])
        ensures
            m@ == self.contents(),
    {
        self.memory.as_slice()
    }

    /// Programs `data` at `offset`: each byte becomes the bitwise AND of its old value
    /// and the programmed one.
    pub fn program(&mut self, offset: usize, data: &[u8]) -> (r: Result<(), FlashError>)
        requires
            offset + data@.len() <= old(self).contents().len(),
        ensures
            r is Ok,
            final(self).contents() == programmed(old(self).contents(), offset as int, data@),
    {
        let ghost old_mem = self.memory@;
        let mut k: usize = 0;
        while k < data.len()
            invariant
                offset + data@.len() <= old_mem.len(),
                self.memory.len() == old_mem.len(),
                k <= data@.len(),
                forall|i: int|
                    0 <= i < old_mem.len() ==> #[trigger] self.memory@[i] == if offset <= i < offset
                        + k {
                        old_mem[i] & data@[i - offset]
                    } else {
                        old_mem[i]
                    },
            decreases data@.len() - k,
        {
            let v = self.memory[offset + k] & data[k];
            self.memory.set(offset + k, v);
            k = k + 1;
        }
        Ok(())
    }

    /// Erases a sector: its bytes read `0xff` afterwards.
    pub fn erase(&mut self, sector: u8) -> (r: Result<(), FlashError>)
        requires
            sector <= 11,
            sector_end(sector) <= old(self).contents().len(),
        ensures
            r is Ok,
            final(self).contents() == erased(old(self).contents(), sector),
    {
        let ghost old_mem = self.memory@;
        let start: usize = if sector <= 4 {
            sector as usize * 0x4000
        } else {
            0x20000 * (sector as usize - 4)
        };
        let end: usize = if sector <= 3 {
            (sector as usize + 1) * 0x4000
        } else {
            0x20000 * (sector as usize - 3)
        };
        let mut k: usize = start;
        while k < end
            invariant
                start == sector_start(sector),
                end == sector_end(sector),
                start <= k <= end,
                end <= old_mem.len(),
                self.memory.len() == old_mem.len(),
                forall|i: int|
                    0 <= i < old_mem.len() ==> #[trigger] self.memory@[i] == if start <= i < k {
                        0xffu8
                    } else {
                        old_mem[i]
                    },
            decreases end - k,
        {
            self.memory.set(k, 0xff);
            k = k + 1;
        }
        Ok(())
    }
}

/// The flash-backed key/value storage.
pub struct Storage {
    flash: FlashMemory,
}

impl Storage {
    /// The bytes of the flash that holds the storage.
    pub closed spec fn memory(&self) -> Seq<u8> {
        self.flash.contents()
    }

    /// Makes the storage on the given flash.
    pub fn new(flash: FlashMemory) -> (s: Storage)
        ensures
            s.memory() == flash.contents(),
    {
        Storage { flash }
    }

    /// Gives the flash back.
    pub fn release(self) -> (f: FlashMemory)
        ensures
            f.contents() == self.memory(),
    {
        self.flash
    }

    /// Reads the header of a page.
    fn read_page_header(&self, page: &Page) -> (h: u16)
        requires
            self.memory().len() >= FLASH_IMAGE_SIZE,
        ensures
            h == page_header(self.memory(), *page),
    {
        let start = page.start_address() - FLASH_START;
        let memory = self.flash.read();
        memory[start] as u16 + (memory[start + 1] as u16) * 256
    }

    /// Finds the page whose header is the active marker.
    fn find_active_page(&self) -> (p: Option<Page>)
        requires
            self.memory().len() >= FLASH_IMAGE_SIZE,
        ensures
            p == active_page_of(self.memory()),
    {
        if self.read_page_header(&Page::Page0) == ACTIVE_PAGE_MARKER {
            return Some(Page::Page0);
        }
        if self.read_page_header(&Page::Page1) == ACTIVE_PAGE_MARKER {
            return Some(Page::Page1);
        }
        None
    }

    /// Reads the key and the value of a cell.
    fn cell_key_value(&self, page: &Page, cell: usize) -> (kv: (u16, u32))
        requires
            self.memory().len() >= FLASH_IMAGE_SIZE,
            cell < CELL_COUNT,
        ensures
            kv.0 == cell_key(self.memory(), *page, cell as int),
            kv.1 == cell_value(self.memory(), *page, cell as int),
    {
        let address = page.start_address() - FLASH_START + HEADER_SIZE + cell * CELL_SIZE;
        let memory = self.flash.read();
        (
            memory[address + 4] as u16 + (memory[address + 5] as u16) * 256,
            memory[address] as u32 + (memory[address + 1] as u32) * 256 + (memory[address + 2]
                as u32) * 65536 + (memory[address + 3] as u32) * 16777216,
        )
    }

    /// Finds the value of the last cell of a page that holds `key`.
    fn find_by_key(&self, page: &Page, key: u16) -> (v: Option<u32>)
        requires
            self.memory().len() >= FLASH_IMAGE_SIZE,
        ensures
            v == find_in(self.memory(), *page, key, CELL_COUNT as int),
    {
        let mut n: usize = Page::cell_count();
        while n > 0
            invariant
                n <= CELL_COUNT,
                self.memory().len() >= FLASH_IMAGE_SIZE,
                find_in(self.memory(), *page, key, CELL_COUNT as int) == find_in(
                    self.memory(),
                    *page,
                    key,
                    n as int,
                ),
            decreases n,
        {
            let cell = n - 1;
            let (cell_key, value) = self.cell_key_value(page, cell);
            if cell_key == key {
                return Some(value);
            }
            n = cell;
        }
        None
    }

    /// Programs the value and then the key into a cell.
    fn write_cell(flash: &mut FlashMemory, page: &Page, cell: usize, key: u16, value: u32) -> (r:
        Result<(), FlashError>)
        requires
            old(flash).contents().len() >= FLASH_IMAGE_SIZE,
            cell < CELL_COUNT,
        ensures
            r is Ok,
            final(flash).contents() == cell_written(old(flash).contents(), *page, cell as int, key, value),
    {
        let offset = page.start_address() - FLASH_START + HEADER_SIZE + cell * CELL_SIZE;
        let value_bytes: [u8; 4] = [
            (value % 256) as u8,
            ((value / 256) % 256) as u8,
            ((value / 65536) % 256) as u8,
            (value / 16777216) as u8,
        ];
        flash.program(offset, value_bytes.as_slice())?;
        let key_bytes: [u8; 2] = [(key % 256) as u8, (key / 256) as u8];
        flash.program(offset + 4, key_bytes.as_slice())
    }

    /// Programs the active marker into the header of a page.
    fn mark_active_page(flash: &mut FlashMemory, page: &Page) -> (r: Result<(), FlashError>)
        requires
            old(flash).contents().len() >= FLASH_IMAGE_SIZE,
        ensures
            r is Ok,
            final(flash).contents() == marked_active(old(flash).contents(), *page),
    {
        let bytes: [u8; 2] = [(ACTIVE_PAGE_MARKER % 256) as u8, (ACTIVE_PAGE_MARKER / 256) as u8];
        flash.program(page.start_address() - FLASH_START, bytes.as_slice())
    }

    /// Erases the sectors of both pages.
    fn format(flash: &mut FlashMemory) -> (r: Result<(), FlashError>)
        requires
            old(flash).contents().len() >= FLASH_IMAGE_SIZE,
        ensures
            r is Ok,
            final(flash).contents() == erased(erased(old(flash).contents(), 1), 2),
    {
        flash.erase(Page::Page0.sector())?;
        flash.erase(Page::Page1.sector())
    }

    /// Formats the flash and marks the first page active.
    pub fn erase(&mut self) -> (r: Result<(), FlashError>)
        requires
            old(self).memory().len() >= FLASH_IMAGE_SIZE,
        ensures
            r is Ok,
            final(self).memory() == formatted(old(self).memory()),
    {
        Self::format(&mut self.flash)?;
        Self::mark_active_page(&mut self.flash, &Page::Page0)
    }

    /// Prepares the storage: keeps a flash that has an active page and formats any other.
    pub fn init(&mut self) -> (r: Result<(), FlashError>)
        requires
            old(self).memory().len() >= FLASH_IMAGE_SIZE,
        ensures
            r is Ok,
            active_page_of(old(self).memory()) is Some ==> final(self).memory() == old(self).memory(),
            active_page_of(old(self).memory()) is None ==> final(self).memory() == formatted(
                old(self).memory(),
            ),
    {
        let active_page = self.find_active_page();
        if active_page.is_none() {
            self.erase()?;
        }
        Ok(())
    }

    /// Whether the flash covers both pages and a page is active: what reads and writes
    /// need.
    pub fn is_initialized(&self) -> (b: bool)
        ensures
            b == (self.memory().len() >= FLASH_IMAGE_SIZE && active_page_of(self.memory()) is Some),
    {
        if self.flash.read().len() < FLASH_IMAGE_SIZE {
            return false;
        }
        self.find_active_page().is_some()
    }

    /// Reads the newest value stored under `key`.
    pub fn read(&self, key: u16) -> (v: Option<u32>)
        requires
            self.memory().len() >= FLASH_IMAGE_SIZE,
            active_page_of(self.memory()) is Some,
        ensures
            v == find_in(self.memory(), active_page_of(self.memory()).unwrap(), key, CELL_COUNT as int),
    {
        let active_page = match self.find_active_page() {
            Some(p) => p,
            None => {
                return None;
            },
        };
        self.find_by_key(&active_page, key)
    }

    /// Writes the value whose little-endian bytes are the first four bytes of `raw`.
    pub fn write_raw(&mut self, key: u16, raw: &[u8]) -> (r: Result<(), FlashError>)
        requires
            old(self).memory().len() >= FLASH_IMAGE_SIZE,
            raw@.len() >= 4,
            active_page_of(old(self).memory()) is Some,
        ensures
            r is Ok,
            final(self).memory() == written(
                old(self).memory(),
                key,
                le_u32(raw@[0], raw@[1], raw@[2], raw@[3]),
            ),
    {
        let value = raw[0] as u32 + (raw[1] as u32) * 256 + (raw[2] as u32) * 65536 + (raw[3] as u32)
            * 16777216;
        self.write(key, value)
    }

    /// Moves the newest value of every key to the other page when the last cell of the
    /// active page is taken; erases the old page and marks the other page active.
    fn move_to_new_page_if_needed(&mut self) -> (r: Result<(), FlashError>)
        requires
            old(self).memory().len() >= FLASH_IMAGE_SIZE,
            active_page_of(old(self).memory()) is Some,
        ensures
            r is Ok,
            final(self).memory() == moved_if_needed(
                old(self).memory(),
                active_page_of(old(self).memory()).unwrap(),
            ),
    {
        let active_page = match self.find_active_page() {
            Some(p) => p,
            None => {
                return Ok(());
            },
        };
        if self.cell_key_value(&active_page, Page::cell_count() - 1).0 == EMPTY_KEY {
            return Ok(());
        }
        let target_page = active_page.next();
        let ghost mem0 = self.memory();
        let mut target_cell: usize = 0;
        let mut n: usize = Page::cell_count();
        while n > 0
            invariant
                n <= CELL_COUNT,
                self.memory().len() >= FLASH_IMAGE_SIZE,
                target_cell + n <= CELL_COUNT,
                target_page == active_page.spec_next(),
                copy_cells(mem0, active_page, target_page, CELL_COUNT as int, 0) == copy_cells(
                    self.memory(),
                    active_page,
                    target_page,
                    n as int,
                    target_cell as int,
                ),
            decreases n,
        {
            let cell = n - 1;
            let (key, value) = self.cell_key_value(&active_page, cell);
            if key != EMPTY_KEY {
                if self.find_by_key(&target_page, key).is_none() {
                    Self::write_cell(&mut self.flash, &target_page, target_cell, key, value)?;
                    target_cell = target_cell + 1;
                }
            }
            n = cell;
        }
        Self::erase_sector(&mut self.flash, active_page.sector())?;
        Self::mark_active_page(&mut self.flash, &target_page)
    }

    /// Erases the sector of one of the pages.
    fn erase_sector(flash: &mut FlashMemory, sector: u8) -> (r: Result<(), FlashError>)
        requires
            old(flash).contents().len() >= FLASH_IMAGE_SIZE,
            sector == 1 || sector == 2,
        ensures
            r is Ok,
            final(flash).contents() == erased(old(flash).contents(), sector),
    {
        flash.erase(sector)
    }

    /// Writes `value` under `key`: moves to the other page first when the active page is
    /// full, then programs the first empty cell of the page that was active before.
    pub fn write(&mut self, key: u16, value: u32) -> (r: Result<(), FlashError>)
        requires
            old(self).memory().len() >= FLASH_IMAGE_SIZE,
            active_page_of(old(self).memory()) is Some,
        ensures
            r is Ok,
            final(self).memory() == written(old(self).memory(), key, value),
    {
        let active_page = match self.find_active_page() {
            Some(p) => p,
            None => {
                return Ok(());
            },
        };
        let ghost before = self.memory();
        proof {
            lemma_copy_cells_len(self.memory(), active_page, active_page.spec_next(), CELL_COUNT as int, 0);
        }
        self.move_to_new_page_if_needed()?;
        let ghost moved = self.memory();
        let mut cell: usize = 0;
        while cell < Page::cell_count()
            invariant
                cell <= CELL_COUNT,
                self.memory().len() >= FLASH_IMAGE_SIZE,
                self.memory() == moved,
                moved == moved_if_needed(before, active_page),
                active_page_of(before) == Some(active_page),
                before == old(self).memory(),
                first_empty_from(moved, active_page, 0) == first_empty_from(
                    moved,
                    active_page,
                    cell as int,
                ),
            decreases CELL_COUNT - cell,
        {
            if self.cell_key_value(&active_page, cell).0 == EMPTY_KEY {
                Self::write_cell(&mut self.flash, &active_page, cell, key, value)?;
                return Ok(());
            }
            cell = cell + 1;
        }
        Ok(())
    }
}

/// A cell whose six bytes all read `0xff`.
pub open spec fn cell_erased(mem: Seq<u8>, page: Page, cell: int) -> bool {
    forall|i: int| 0 <= i < CELL_SIZE ==> #[trigger] mem[cell_offset(page, cell) + i] == 0xffu8
}

/// The storage is well formed: the flash covers both pages, a page is active, and the
/// active page is filled from its first cell on (from the first cell with the empty
/// key on, every cell is erased).
pub open spec fn storage_wf(mem: Seq<u8>) -> bool {
    &&& mem.len() >= FLASH_IMAGE_SIZE
    &&& active_page_of(mem) is Some
    &&& forall|c: int, d: int|
        0 <= c <= d < CELL_COUNT && cell_key(mem, active_page_of(mem).unwrap(), c) == EMPTY_KEY
            ==> cell_erased(mem, active_page_of(mem).unwrap(), d)
}

/// The value that the storage holds for `key`.
pub open spec fn stored(mem: Seq<u8>, key: u16) -> Option<u32> {
    find_in(mem, active_page_of(mem).unwrap(), key, CELL_COUNT as int)
}

proof fn lemma_and_ff()
    ensures
        forall|b: u8| #[trigger] (0xffu8 & b) == b,
{
    assert(forall|b: u8| #[trigger] (0xffu8 & b) == b) by (bit_vector);
}

pub(crate) proof fn lemma_le_u32_round_trip(v: u32)
    ensures
        ({
            let b = le_bytes_u32(v);
            le_u32(b[0], b[1], b[2], b[3]) == v
        }),
{
    let b = le_bytes_u32(v);
    assert(b[0] + 256 * b[1] + 65536 * b[2] + 16777216 * b[3] == v) by (nonlinear_arith)
        requires
            b[0] == v % 256,
            b[1] == (v / 256) % 256,
            b[2] == (v / 65536) % 256,
            b[3] == v / 16777216,
    ;
}

/// Programming a cell leaves every byte outside it, and so every other cell and both
/// headers, unchanged; an erased cell afterwards holds exactly the key and the value.
proof fn lemma_cell_written(mem: Seq<u8>, page: Page, cell: int, key: u16, value: u32)
    requires
        mem.len() >= FLASH_IMAGE_SIZE,
        0 <= cell < CELL_COUNT,
    ensures
        cell_written(mem, page, cell, key, value).len() == mem.len(),
        forall|i: int|
            0 <= i < mem.len() && !(cell_offset(page, cell) <= i < cell_offset(page, cell) + CELL_SIZE)
                ==> #[trigger] cell_written(mem, page, cell, key, value)[i] == mem[i],
        page_header(cell_written(mem, page, cell, key, value), Page::Page0) == page_header(
            mem,
            Page::Page0,
        ),
        page_header(cell_written(mem, page, cell, key, value), Page::Page1) == page_header(
            mem,
            Page::Page1,
        ),
        forall|q: Page, d: int|
            0 <= d < CELL_COUNT && (q != page || d != cell) ==> #[trigger] cell_key(
                cell_written(mem, page, cell, key, value),
                q,
                d,
            ) == cell_key(mem, q, d),
        forall|q: Page, d: int|
            0 <= d < CELL_COUNT && (q != page || d != cell) ==> #[trigger] cell_value(
                cell_written(mem, page, cell, key, value),
                q,
                d,
            ) == cell_value(mem, q, d),
        forall|q: Page, d: int|
            0 <= d < CELL_COUNT && (q != page || d != cell) && cell_erased(mem, q, d)
                ==> #[trigger] cell_erased(cell_written(mem, page, cell, key, value), q, d),
        cell_erased(mem, page, cell) ==> cell_key(cell_written(mem, page, cell, key, value), page, cell)
            == key,
        cell_erased(mem, page, cell) ==> cell_value(cell_written(mem, page, cell, key, value), page, cell)
            == value,
{
    let a = cell_offset(page, cell);
    let new = cell_written(mem, page, cell, key, value);
    assert forall|q: Page, d: int| 0 <= d < CELL_COUNT && (q != page || d != cell) implies
        #[trigger] cell_key(new, q, d) == cell_key(mem, q, d) && cell_value(new, q, d) == cell_value(mem, q, d)
        && (cell_erased(mem, q, d) ==> cell_erased(new, q, d)) by {
        let b = cell_offset(q, d);
        assert forall|i: int| #![trigger mem[b + i]] #![trigger new[b + i]]
            0 <= i < CELL_SIZE implies new[b + i] == mem[b + i] by {}
    }
    if cell_erased(mem, page, cell) {
        lemma_and_ff();
        lemma_le_u32_round_trip(value);
        assert(mem[a + 0] == 0xffu8 && mem[a + 1] == 0xffu8 && mem[a + 2] == 0xffu8 && mem[a + 3]
            == 0xffu8 && mem[a + 4] == 0xffu8 && mem[a + 5] == 0xffu8);
        let vb = le_bytes_u32(value);
        let kb = le_bytes_u16(key);
    }
}

/// Cells from `m` up to `n` that do not hold the key do not change where it is found.
proof fn lemma_find_in_skip(mem: Seq<u8>, page: Page, key: u16, m: int, n: int)
    requires
        0 <= m <= n,
        forall|j: int| m <= j < n ==> #[trigger] cell_key(mem, page, j) != key,
    ensures
        find_in(mem, page, key, n) == find_in(mem, page, key, m),
    decreases n - m,
{
    if n > m {
        lemma_find_in_skip(mem, page, key, m, n - 1);
    }
}

/// Two flash images whose cells agree, but for a cell that holds the key in neither,
/// find the same value for the key.
proof fn lemma_find_in_same(mem1: Seq<u8>, mem2: Seq<u8>, page: Page, key: u16, cell: int, n: int)
    requires
        cell_key(mem1, page, cell) != key,
        cell_key(mem2, page, cell) != key,
        forall|d: int|
            0 <= d < n && d != cell ==> #[trigger] cell_key(mem1, page, d) == cell_key(mem2, page, d)
                && cell_value(mem1, page, d) == cell_value(mem2, page, d),
    ensures
        find_in(mem1, page, key, n) == find_in(mem2, page, key, n),
    decreases n,
{
    if n > 0 {
        lemma_find_in_same(mem1, mem2, page, key, cell, n - 1);
    }
}

/// When the last cell of a page is empty, there is a first empty cell from any cell on.
proof fn lemma_first_empty(mem: Seq<u8>, page: Page, c: int)
    requires
        0 <= c < CELL_COUNT,
        cell_key(mem, page, CELL_COUNT - 1) == EMPTY_KEY,
    ensures
        first_empty_from(mem, page, c) matches Some(f) && c <= f < CELL_COUNT && cell_key(
            mem,
            page,
            f,
        ) == EMPTY_KEY && (forall|j: int| c <= j < f ==> #[trigger] cell_key(mem, page, j)
            != EMPTY_KEY),
    decreases CELL_COUNT - c,
{
    if cell_key(mem, page, c) != EMPTY_KEY {
        lemma_first_empty(mem, page, c + 1);
    }
}

/// A value written while the active page has room is read back, the storage stays
/// well formed and the same page stays active.
pub proof fn lemma_read_after_write(mem: Seq<u8>, key: u16, value: u32)
    requires
        storage_wf(mem),
        key != EMPTY_KEY,
        !page_full(mem, active_page_of(mem).unwrap()),
    ensures
        active_page_of(written(mem, key, value)) == active_page_of(mem),
        stored(written(mem, key, value), key) == Some(value),
        storage_wf(written(mem, key, value)),
{
    let page = active_page_of(mem).unwrap();
    lemma_first_empty(mem, page, 0);
    let f = first_empty_from(mem, page, 0).unwrap();
    let new = written(mem, key, value);
    lemma_cell_written(mem, page, f, key, value);
    assert forall|j: int| f + 1 <= j < CELL_COUNT implies #[trigger] cell_key(new, page, j) != key by {
        assert(cell_erased(mem, page, j));
        let b = cell_offset(page, j);
    }
    lemma_find_in_skip(new, page, key, f + 1, CELL_COUNT as int);
    assert forall|c: int, d: int|
        0 <= c <= d < CELL_COUNT && cell_key(new, page, c) == EMPTY_KEY implies cell_erased(
        new,
        page,
        d,
    ) by {
        if c < f {
        }
    }
}

/// A write while the active page has room leaves the value of every other key unchanged.
pub proof fn lemma_write_keeps_other_keys(mem: Seq<u8>, key: u16, value: u32, other: u16)
    requires
        storage_wf(mem),
        key != EMPTY_KEY,
        other != EMPTY_KEY,
        other != key,
        !page_full(mem, active_page_of(mem).unwrap()),
    ensures
        stored(written(mem, key, value), other) == stored(mem, other),
{
    let page = active_page_of(mem).unwrap();
    lemma_first_empty(mem, page, 0);
    let f = first_empty_from(mem, page, 0).unwrap();
    let new = written(mem, key, value);
    lemma_cell_written(mem, page, f, key, value);
    lemma_read_after_write(mem, key, value);
    lemma_find_in_same(new, mem, page, other, f, CELL_COUNT as int);
}

/// After formatting, the first page is active, the storage is well formed and holds
/// no value for any key.
pub proof fn lemma_formatted_is_empty(mem: Seq<u8>, key: u16)
    requires
        mem.len() >= FLASH_IMAGE_SIZE,
        key != EMPTY_KEY,
    ensures
        active_page_of(formatted(mem)) == Some(Page::Page0),
        storage_wf(formatted(mem)),
        stored(formatted(mem), key) is None,
{
    let new = formatted(mem);
    let e = erased(erased(mem, 1), 2);
    lemma_and_ff();
    assert forall|i: int| 0x4000 <= i < 0xc000 implies #[trigger] e[i] == 0xffu8 by {}
    assert forall|i: int| 0x4002 <= i < 0xc000 implies #[trigger] new[i] == 0xffu8 by {}
    assert forall|d: int| 0 <= d < CELL_COUNT implies cell_erased(new, Page::Page0, d) by {
        let b = cell_offset(Page::Page0, d);
        assert forall|i: int| 0 <= i < CELL_SIZE implies #[trigger] new[b + i] == 0xffu8 by {}
    }
    assert forall|j: int| 0 <= j < CELL_COUNT implies #[trigger] cell_key(new, Page::Page0, j) != key by {
        let b = cell_offset(Page::Page0, j);
    }
    lemma_find_in_skip(new, Page::Page0, key, 0, CELL_COUNT as int);
}

/// The inactive page is ready to take the values of the active one: its header is
/// erased, its cells from the second on are erased, and its first cell is erased or
/// holds a key.
pub open spec fn page_spare(mem: Seq<u8>, page: Page) -> bool {
    &&& mem[page.offset()] == 0xffu8
    &&& mem[page.offset() + 1] == 0xffu8
    &&& forall|d: int| 1 <= d < CELL_COUNT ==> #[trigger] cell_erased(mem, page, d)
    &&& cell_erased(mem, page, 0) || cell_key(mem, page, 0) != EMPTY_KEY
}

/// The invariant of the storage: well formed, with a spare inactive page.
pub open spec fn storage_inv(mem: Seq<u8>) -> bool {
    &&& storage_wf(mem)
    &&& page_spare(mem, active_page_of(mem).unwrap().spec_next())
}

/// The cells of the target page while values move to it: the first `t` cells hold
/// keys, the cells from `t` on are erased, except that the first cell may hold a key
/// when no value has moved yet.
pub open spec fn target_shape(mem: Seq<u8>, page: Page, t: int) -> bool {
    &&& 0 <= t <= CELL_COUNT
    &&& forall|d: int| 0 <= d < t ==> #[trigger] cell_key(mem, page, d) != EMPTY_KEY
    &&& forall|d: int| t <= d < CELL_COUNT && 1 <= d ==> #[trigger] cell_erased(mem, page, d)
    &&& t == 0 ==> (cell_erased(mem, page, 0) || cell_key(mem, page, 0) != EMPTY_KEY)
}

/// The bytes outside the cells of `page` are the same in both images.
pub open spec fn same_outside_cells(mem0: Seq<u8>, mem: Seq<u8>, page: Page) -> bool {
    &&& mem.len() == mem0.len()
    &&& forall|i: int|
        0 <= i < mem.len() && !(cell_offset(page, 0) <= i < cell_offset(page, CELL_COUNT as int))
            ==> #[trigger] mem[i] == mem0[i]
}

proof fn lemma_and_ff_only_from_ff()
    ensures
        forall|o: u8, k: u8| #[trigger] (o & k) == 0xffu8 ==> k == 0xffu8,
{
    assert(forall|o: u8, k: u8| #[trigger] (o & k) == 0xffu8 ==> k == 0xffu8) by (bit_vector);
}

/// Programming a key other than the empty key into a cell leaves a key other than the
/// empty key there, whatever the cell held.
proof fn lemma_written_key_not_empty(mem: Seq<u8>, page: Page, cell: int, key: u16, value: u32)
    requires
        mem.len() >= FLASH_IMAGE_SIZE,
        0 <= cell < CELL_COUNT,
        key != EMPTY_KEY,
    ensures
        cell_key(cell_written(mem, page, cell, key, value), page, cell) != EMPTY_KEY,
{
    let a = cell_offset(page, cell);
    let new = cell_written(mem, page, cell, key, value);
    let kb = le_bytes_u16(key);
    lemma_and_ff_only_from_ff();
    if cell_key(new, page, cell) == EMPTY_KEY {
    }
}

/// Moving values to the other page keeps the shape of its cells and touches no byte
/// outside them.
proof fn lemma_copy_cells_shape(mem0: Seq<u8>, mem: Seq<u8>, source: Page, target: Page, n: int, t: int)
    requires
        mem.len() >= FLASH_IMAGE_SIZE,
        source != target,
        0 <= n,
        t + n <= CELL_COUNT,
        target_shape(mem, target, t),
        same_outside_cells(mem0, mem, target),
    ensures
        ({
            let (m, t2) = copy_cells(mem, source, target, n, t);
            &&& target_shape(m, target, t2)
            &&& same_outside_cells(mem0, m, target)
        }),
    decreases n,
{
    if n > 0 {
        let key = cell_key(mem, source, n - 1);
        let value = cell_value(mem, source, n - 1);
        if key == EMPTY_KEY || find_in(mem, target, key, CELL_COUNT as int) is Some {
            lemma_copy_cells_shape(mem0, mem, source, target, n - 1, t);
        } else {
            let m = cell_written(mem, target, t, key, value);
            lemma_cell_written(mem, target, t, key, value);
            lemma_written_key_not_empty(mem, target, t, key, value);
            if t >= 1 {
            }
            assert forall|d: int| 0 <= d < t + 1 implies #[trigger] cell_key(m, target, d) != EMPTY_KEY by {
                if d != t {
                }
            }
            assert forall|d: int| t + 1 <= d < CELL_COUNT && 1 <= d implies #[trigger] cell_erased(
                m,
                target,
                d,
            ) by {}
            assert forall|i: int|
                0 <= i < m.len() && !(cell_offset(target, 0) <= i < cell_offset(
                    target,
                    CELL_COUNT as int,
                )) implies #[trigger] m[i] == mem0[i] by {}
            lemma_copy_cells_shape(mem0, m, source, target, n - 1, t + 1);
        }
    }
}

/// Every write of a key other than the empty key keeps the invariant of the storage,
/// whether or not the active page was full and the values moved to the other page.
pub proof fn lemma_write_keeps_invariant(mem: Seq<u8>, key: u16, value: u32)
    requires
        storage_inv(mem),
        key != EMPTY_KEY,
    ensures
        storage_inv(written(mem, key, value)),
{
    let a = active_page_of(mem).unwrap();
    let b = a.spec_next();
    let new = written(mem, key, value);
    if !page_full(mem, a) {
        lemma_read_after_write(mem, key, value);
        lemma_first_empty(mem, a, 0);
        let f = first_empty_from(mem, a, 0).unwrap();
        lemma_cell_written(mem, a, f, key, value);
        assert forall|d: int| 1 <= d < CELL_COUNT implies #[trigger] cell_erased(new, b, d) by {}
        if cell_erased(mem, b, 0) {
        } else {
        }
    } else {
        // the values move to the other page
        lemma_copy_cells_shape(mem, mem, a, b, CELL_COUNT as int, 0);
        let (copied, t) = copy_cells(mem, a, b, CELL_COUNT as int, 0);
        lemma_copy_cells_len(mem, a, b, CELL_COUNT as int, 0);
        let e = erased(copied, a.spec_sector());
        let moved = marked_active(e, b);
        // the old page is erased, header included
        assert forall|i: int| a.offset() <= i < a.offset() + 0x4000 implies #[trigger] moved[i] == 0xffu8 by {}
        // the new page keeps its cells and gets the marker
        lemma_and_ff();
        assert forall|i: int| cell_offset(b, 0) <= i < cell_offset(b, CELL_COUNT as int) implies #[trigger] moved[i]
            == copied[i] by {}
        assert forall|d: int| 0 <= d < CELL_COUNT implies #[trigger] cell_key(moved, b, d) == cell_key(copied, b, d)
            && (cell_erased(copied, b, d) ==> cell_erased(moved, b, d)) by {
            let o = cell_offset(b, d);
            if cell_erased(copied, b, d) {
                assert forall|i: int| 0 <= i < CELL_SIZE implies #[trigger] moved[o + i] == 0xffu8 by {}
            }
        }
        // the new value goes to the first cell of the old page
        assert forall|d: int| 0 <= d < CELL_COUNT implies #[trigger] cell_erased(moved, a, d) by {
            let o = cell_offset(a, d);
            assert forall|i: int| 0 <= i < CELL_SIZE implies #[trigger] moved[o + i] == 0xffu8 by {}
        }
        assert(cell_key(moved, a, 0) == EMPTY_KEY) by {
            let o = cell_offset(a, 0);
        }
        lemma_cell_written(moved, a, 0, key, value);
        // the new active page is filled in order
        assert forall|c: int, d: int|
            0 <= c <= d < CELL_COUNT && cell_key(new, b, c) == EMPTY_KEY implies cell_erased(new, b, d) by {
            if d >= 1 {
                assert(cell_erased(copied, b, d));
            } else {
            }
        }
        // the old page is spare
        assert forall|d: int| 1 <= d < CELL_COUNT implies #[trigger] cell_erased(new, a, d) by {}
    }
}

/// Formatting establishes the invariant of the storage.
pub proof fn lemma_formatted_invariant(mem: Seq<u8>)
    requires
        mem.len() >= FLASH_IMAGE_SIZE,
    ensures
        storage_inv(formatted(mem)),
{
    lemma_formatted_is_empty(mem, 0);
    let new = formatted(mem);
    let e = erased(erased(mem, 1), 2);
    lemma_and_ff();
    assert forall|i: int| 0x8000 <= i < 0xc000 implies #[trigger] new[i] == 0xffu8 by {}
    assert forall|d: int| 0 <= d < CELL_COUNT implies #[trigger] cell_erased(new, Page::Page1, d) by {
        let o = cell_offset(Page::Page1, d);
        assert forall|i: int| 0 <= i < CELL_SIZE implies #[trigger] new[o + i] == 0xffu8 by {}
    }
}

/// The value of the last cell among the cells `m` up to `n - 1` of a page that holds
/// `key`.
pub open spec fn find_between(mem: Seq<u8>, page: Page, key: u16, m: int, n: int) -> Option<u32>
    decreases n - m,
{
    if n <= m {
        None
    } else if cell_key(mem, page, n - 1) == key {
        Some(cell_value(mem, page, n - 1))
    } else {
        find_between(mem, page, key, m, n - 1)
    }
}

/// Searching from the first cell is searching the whole prefix.
proof fn lemma_find_between_zero(mem: Seq<u8>, page: Page, key: u16, n: int)
    requires
        0 <= n,
    ensures
        find_between(mem, page, key, 0, n) == find_in(mem, page, key, n),
    decreases n,
{
    if n > 0 {
        lemma_find_between_zero(mem, page, key, n - 1);
    }
}

/// Extending the searched range downwards by one cell: the cells above keep priority.
proof fn lemma_find_between_extend(mem: Seq<u8>, page: Page, key: u16, m: int, n: int)
    requires
        1 <= m <= n,
    ensures
        find_between(mem, page, key, m - 1, n) == match find_between(mem, page, key, m, n) {
            Some(v) => Some(v),
            None => if cell_key(mem, page, m - 1) == key {
                Some(cell_value(mem, page, m - 1))
            } else {
                None
            },
        },
    decreases n - m,
{
    if n > m {
        lemma_find_between_extend(mem, page, key, m, n - 1);
    } else {
        assert(find_between(mem, page, key, m - 1, m - 1) is None);
        assert(find_between(mem, page, key, m, m) is None);
    }
}

/// Two images whose cells of a page agree find the same values there.
proof fn lemma_find_in_eq(mem1: Seq<u8>, mem2: Seq<u8>, page: Page, key: u16, n: int)
    requires
        forall|d: int|
            0 <= d < n ==> #[trigger] cell_key(mem1, page, d) == cell_key(mem2, page, d)
                && cell_value(mem1, page, d) == cell_value(mem2, page, d),
    ensures
        find_in(mem1, page, key, n) == find_in(mem2, page, key, n),
    decreases n,
{
    if n > 0 {
        lemma_find_in_eq(mem1, mem2, page, key, n - 1);
    }
}

/// Moving the cells `n - 1` down to `0` of `source` to `target`: every key other than
/// the empty key is then found in the target with the value of its last source cell
/// from `0` on, where before it was found with that of its last cell from `n` on. The
/// source cells stay as they are.
#[verifier::spinoff_prover]
#[verifier::rlimit(50)]
proof fn lemma_copy_cells_values(mem0: Seq<u8>, mem: Seq<u8>, source: Page, target: Page, n: int, t: int)
    requires
        mem.len() >= FLASH_IMAGE_SIZE,
        source != target,
        0 <= n <= CELL_COUNT,
        t + n <= CELL_COUNT,
        0 <= t,
        forall|d: int| t <= d < CELL_COUNT ==> #[trigger] cell_erased(mem, target, d),
        forall|d: int| 0 <= d < CELL_COUNT ==> #[trigger] cell_key(mem, source, d) == cell_key(mem0, source, d)
            && cell_value(mem, source, d) == cell_value(mem0, source, d),
        forall|k: u16|
            k != EMPTY_KEY ==> #[trigger] find_in(mem, target, k, CELL_COUNT as int) == find_between(
                mem0,
                source,
                k,
                n,
                CELL_COUNT as int,
            ),
    ensures
        ({
            let m = copy_cells(mem, source, target, n, t).0;
            forall|k: u16|
                k != EMPTY_KEY ==> #[trigger] find_in(m, target, k, CELL_COUNT as int) == find_between(
                    mem0,
                    source,
                    k,
                    0,
                    CELL_COUNT as int,
                )
        }),
    decreases n,
{
    if n > 0 {
        let key = cell_key(mem, source, n - 1);
        let value = cell_value(mem, source, n - 1);
        assert forall|k: u16| k != EMPTY_KEY && k != key implies #[trigger] find_between(
            mem0,
            source,
            k,
            n - 1,
            CELL_COUNT as int,
        ) == find_between(mem0, source, k, n, CELL_COUNT as int) by {
            lemma_find_between_extend(mem0, source, k, n, CELL_COUNT as int);
        }
        lemma_find_between_extend(mem0, source, key, n, CELL_COUNT as int);
        if key == EMPTY_KEY || find_in(mem, target, key, CELL_COUNT as int) is Some {
            lemma_copy_cells_values(mem0, mem, source, target, n - 1, t);
        } else {
            let m = cell_written(mem, target, t, key, value);
            lemma_cell_written(mem, target, t, key, value);
            assert forall|j: int| t + 1 <= j < CELL_COUNT implies #[trigger] cell_key(m, target, j) != key by {
                assert(cell_erased(mem, target, j));
                assert(cell_erased(m, target, j));
                let b = cell_offset(target, j);
                assert(m[b + 4] == 0xffu8 && m[b + 5] == 0xffu8);
            }
            lemma_find_in_skip(m, target, key, t + 1, CELL_COUNT as int);
            assert forall|k: u16| k != EMPTY_KEY implies #[trigger] find_in(m, target, k, CELL_COUNT as int)
                == find_between(mem0, source, k, n - 1, CELL_COUNT as int) by {
                if k != key {
                    let b = cell_offset(target, t);
                    assert(cell_erased(mem, target, t));
                    assert(mem[b + 4] == 0xffu8 && mem[b + 5] == 0xffu8);
                    lemma_find_in_same(m, mem, target, k, t, CELL_COUNT as int);
                }
            }
            lemma_copy_cells_values(mem0, m, source, target, n - 1, t + 1);
        }
    }
}

/// A page whose header and cells are all erased.
pub open spec fn page_erased(mem: Seq<u8>, page: Page) -> bool {
    &&& mem[page.offset()] == 0xffu8
    &&& mem[page.offset() + 1] == 0xffu8
    &&& forall|d: int| 0 <= d < CELL_COUNT ==> #[trigger] cell_erased(mem, page, d)
}

/// The move to the other page keeps every value: when the last cell of the active page
/// is taken and the other page is wholly erased, the other page becomes active and
/// holds the newest value of every key, so every key reads as before. When the last
/// cell is free, nothing moves.
pub proof fn lemma_move_keeps_values(mem: Seq<u8>, key: u16)
    requires
        mem.len() >= FLASH_IMAGE_SIZE,
        active_page_of(mem) is Some,
        key != EMPTY_KEY,
        page_full(mem, active_page_of(mem).unwrap()) ==> page_erased(
            mem,
            active_page_of(mem).unwrap().spec_next(),
        ),
    ensures
        !page_full(mem, active_page_of(mem).unwrap()) ==> moved_if_needed(mem, active_page_of(mem).unwrap()) == mem,
        page_full(mem, active_page_of(mem).unwrap()) ==> active_page_of(
            moved_if_needed(mem, active_page_of(mem).unwrap()),
        ) == Some(active_page_of(mem).unwrap().spec_next()),
        stored(moved_if_needed(mem, active_page_of(mem).unwrap()), key) == stored(mem, key),
{
    let a = active_page_of(mem).unwrap();
    let b = a.spec_next();
    if page_full(mem, a) {
        let moved = moved_if_needed(mem, a);
        // the other page finds nothing yet
        assert forall|k: u16| k != EMPTY_KEY implies #[trigger] find_in(mem, b, k, CELL_COUNT as int)
            == find_between(mem, a, k, CELL_COUNT as int, CELL_COUNT as int) by {
            assert forall|j: int| 0 <= j < CELL_COUNT implies #[trigger] cell_key(mem, b, j) != k by {
                assert(cell_erased(mem, b, j));
                let o = cell_offset(b, j);
                assert(mem[o + 4] == 0xffu8 && mem[o + 5] == 0xffu8);
            }
            lemma_find_in_skip(mem, b, k, 0, CELL_COUNT as int);
        }
        lemma_copy_cells_values(mem, mem, a, b, CELL_COUNT as int, 0);
        lemma_copy_cells_shape(mem, mem, a, b, CELL_COUNT as int, 0);
        lemma_copy_cells_len(mem, a, b, CELL_COUNT as int, 0);
        let copied = copy_cells(mem, a, b, CELL_COUNT as int, 0).0;
        lemma_find_between_zero(mem, a, key, CELL_COUNT as int);
        assert(find_in(copied, b, key, CELL_COUNT as int) == stored(mem, key));
        // the cells of the other page survive the erase and the marker
        lemma_and_ff();
        assert forall|i: int| cell_offset(b, 0) <= i < cell_offset(b, CELL_COUNT as int) implies #[trigger] moved[i]
            == copied[i] by {}
        assert forall|d: int| 0 <= d < CELL_COUNT implies #[trigger] cell_key(moved, b, d) == cell_key(copied, b, d)
            && cell_value(moved, b, d) == cell_value(copied, b, d) by {
            let o = cell_offset(b, d);
            assert(moved[o] == copied[o] && moved[o + 1] == copied[o + 1] && moved[o + 2] == copied[o + 2]);
            assert(moved[o + 3] == copied[o + 3] && moved[o + 4] == copied[o + 4] && moved[o + 5] == copied[o + 5]);
        }
        lemma_find_in_eq(moved, copied, b, key, CELL_COUNT as int);
        // the other page carries the marker, the old one is erased
        assert(copied[b.offset()] == 0xffu8 && copied[b.offset() + 1] == 0xffu8);
        assert(moved[a.offset()] == 0xffu8 && moved[a.offset() + 1] == 0xffu8);
        assert(page_header(moved, b) == ACTIVE_PAGE_MARKER);
        assert(page_header(moved, a) != ACTIVE_PAGE_MARKER);
    }
}

/// A write that finds the active page full, with the other page wholly erased: the
/// values move to the other page, which becomes active, and the written value goes to
/// the first cell of the page just erased, which is not active. So every key, the
/// written one included, reads as it did before the write.
pub proof fn lemma_write_after_move(mem: Seq<u8>, key: u16, value: u32, other: u16)
    requires
        mem.len() >= FLASH_IMAGE_SIZE,
        active_page_of(mem) is Some,
        other != EMPTY_KEY,
        page_full(mem, active_page_of(mem).unwrap()),
        page_erased(mem, active_page_of(mem).unwrap().spec_next()),
    ensures
        active_page_of(written(mem, key, value)) == Some(active_page_of(mem).unwrap().spec_next()),
        stored(written(mem, key, value), other) == stored(mem, other),
{
    let a = active_page_of(mem).unwrap();
    let b = a.spec_next();
    lemma_move_keeps_values(mem, other);
    lemma_copy_cells_len(mem, a, b, CELL_COUNT as int, 0);
    let moved = moved_if_needed(mem, a);
    assert(cell_key(moved, a, 0) == EMPTY_KEY) by {
        let o = cell_offset(a, 0);
        assert(moved[o + 4] == 0xffu8 && moved[o + 5] == 0xffu8);
    }
    assert(first_empty_from(moved, a, 0) == Some(0int));
    let new = written(mem, key, value);
    lemma_cell_written(moved, a, 0, key, value);
    lemma_find_in_eq(new, moved, b, other, CELL_COUNT as int);
}

/// The flash after each key and value of `writes` is written in turn.
pub open spec fn written_all(mem: Seq<u8>, writes: Seq<(u16, u32)>) -> Seq<u8>
    decreases writes.len(),
{
    if writes.len() == 0 {
        mem
    } else {
        let before = written_all(mem, writes.drop_last());
        written(before, writes.last().0, writes.last().1)
    }
}

/// No write of the sequence finds the active page full.
pub open spec fn writes_without_move(mem: Seq<u8>, writes: Seq<(u16, u32)>) -> bool
    decreases writes.len(),
{
    if writes.len() == 0 {
        true
    } else {
        let before = written_all(mem, writes.drop_last());
        &&& writes_without_move(mem, writes.drop_last())
        &&& !page_full(before, active_page_of(before).unwrap())
    }
}

/// The value last written for `key` in the sequence, if any.
pub open spec fn last_written(writes: Seq<(u16, u32)>, key: u16) -> Option<u32>
    decreases writes.len(),
{
    if writes.len() == 0 {
        None
    } else if writes.last().0 == key {
        Some(writes.last().1)
    } else {
        last_written(writes.drop_last(), key)
    }
}

/// Writes that never find the active page full: the storage stays well formed on the
/// same page, and each key reads the value last written for it, or what it read before
/// when none was written.
pub proof fn lemma_writes_read_back(mem: Seq<u8>, writes: Seq<(u16, u32)>, key: u16)
    requires
        storage_wf(mem),
        key != EMPTY_KEY,
        forall|i: int| 0 <= i < writes.len() ==> (#[trigger] writes[i]).0 != EMPTY_KEY,
        writes_without_move(mem, writes),
    ensures
        storage_wf(written_all(mem, writes)),
        active_page_of(written_all(mem, writes)) == active_page_of(mem),
        stored(written_all(mem, writes), key) == match last_written(writes, key) {
            Some(v) => Some(v),
            None => stored(mem, key),
        },
    decreases writes.len(),
{
    if writes.len() > 0 {
        let rest = writes.drop_last();
        assert forall|i: int| 0 <= i < rest.len() implies (#[trigger] rest[i]).0 != EMPTY_KEY by {
            assert(rest[i] == writes[i]);
        }
        lemma_writes_read_back(mem, rest, key);
        let before = written_all(mem, rest);
        let (k, v) = writes.last();
        assert(writes[writes.len() - 1].0 != EMPTY_KEY);
        lemma_read_after_write(before, k, v);
        if k != key {
            lemma_write_keeps_other_keys(before, k, v, key);
        }
    }
}

/// After formatting and writes that never find the active page full, a key that none
/// of them wrote reads nothing, and a written key reads the value last written for it.
pub proof fn lemma_formatted_writes_read_back(mem: Seq<u8>, writes: Seq<(u16, u32)>, key: u16)
    requires
        mem.len() >= FLASH_IMAGE_SIZE,
        key != EMPTY_KEY,
        forall|i: int| 0 <= i < writes.len() ==> (#[trigger] writes[i]).0 != EMPTY_KEY,
        writes_without_move(formatted(mem), writes),
    ensures
        stored(written_all(formatted(mem), writes), key) == last_written(writes, key),
{
    lemma_formatted_is_empty(mem, key);
    lemma_writes_read_back(formatted(mem), writes, key);
}

} // verus!
