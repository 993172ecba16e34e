use crate::definitions::errors::{HeaderError, MemError, MemErrorView};
use crate::definitions::utils::padded;
use crate::devices::mapping::{find_range, first_range, first_range_from, range_holds};
use crate::devices::MemoryMapped;
use crate::loader::{plan_load, too_large, verdict, LoadPlan};
use vstd::prelude::*;
use vstd::string::StringExecFns;

verus! {

/// What memory is, apart from what goes on inside its devices.
pub struct MemoryView {
    /// The byte store, from address 0. Every address beyond it reads as 0.
    pub bytes: Seq<u8>,
    /// Whether protection is bypassed.
    pub privileged: bool,
    /// The protected intervals `[lo, hi)`, oldest first.
    pub protected: Seq<(u32, u32)>,
    /// The intervals `[lo, hi]` of the mapped devices, oldest first.
    pub devices: Seq<(u32, u32)>,
    /// Whether tracing was asked for when memory was made.
    pub verbose: bool,
}

impl MemoryView {
    /// The protected interval that refuses an access at `addr`, if one does.
    pub open spec fn refusal(self, addr: u32) -> Option<(u32, u32)> {
        if self.privileged {
            None
        } else {
            match first_range(self.protected, addr, false) {
                Some(i) => Some(self.protected[i]),
                None => None,
            }
        }
    }

    /// Whether an access at `addr` is refused: memory is not in privileged
    /// mode, and some protected interval holds the address.
    pub open spec fn protects(self, addr: u32) -> bool {
        !self.privileged && exists|i: int|
            0 <= i < self.protected.len() && range_holds(#[trigger] self.protected[i], addr, false)
    }

    /// The device that answers for `addr`, if one does.
    pub open spec fn device_at(self, addr: u32) -> Option<int> {
        first_range(self.devices, addr, true)
    }

    /// The byte at `addr`.
    pub open spec fn byte_at(self, addr: int) -> u8 {
        if 0 <= addr < self.bytes.len() {
            self.bytes[addr]
        } else {
            0
        }
    }

    /// The `size` bytes from `addr` on.
    pub open spec fn bytes_at(self, addr: int, size: nat) -> Seq<u8> {
        Seq::new(size, |i: int| self.byte_at(addr + i))
    }

    /// Memory with `alloc` more bytes of zeros, and never fewer than four.
    pub open spec fn extended(self, alloc: nat) -> MemoryView {
        MemoryView {
            bytes: self.bytes + Seq::new(
                if alloc > 4 {
                    alloc
                } else {
                    4
                },
                |i: int| 0u8,
            ),
            ..self
        }
    }

    /// Memory after it was made to reach `need` bytes: unchanged where it
    /// does, extended by what is missing where it does not.
    pub open spec fn grown(self, need: int) -> MemoryView {
        if need > self.bytes.len() {
            self.extended((need - self.bytes.len()) as nat)
        } else {
            self
        }
    }

    /// Memory with `data` written from `addr` on.
    pub open spec fn written(self, addr: int, data: Seq<u8>) -> MemoryView {
        MemoryView {
            bytes: Seq::new(
                self.bytes.len(),
                |i: int|
                    if addr <= i < addr + data.len() {
                        data[i - addr]
                    } else {
                        self.bytes[i]
                    },
            ),
            ..self
        }
    }
}

/// Growing memory changes no byte of the address space, and makes the
/// store reach as far as was asked.
pub proof fn lemma_grown_keeps_bytes(m: MemoryView, need: int, addr: int)
    ensures
        m.grown(need).byte_at(addr) == m.byte_at(addr),
        m.grown(need).bytes.len() >= m.bytes.len(),
        m.grown(need).bytes.len() >= need,
{
}

/// An access is refused exactly where memory is not in privileged mode and
/// some protected interval holds the address, and the interval that refuses
/// it is the oldest that holds the address.
pub proof fn lemma_refusal_is_first(m: MemoryView, addr: u32)
    ensures
        m.protects(addr) <==> m.refusal(addr) is Some,
        m.refusal(addr) matches Some(r) ==> exists|i: int|
            {
                &&& 0 <= i < m.protected.len()
                &&& r == #[trigger] m.protected[i]
                &&& range_holds(r, addr, false)
                &&& forall|j: int| 0 <= j < i ==> !range_holds(#[trigger] m.protected[j], addr, false)
            },
{
    crate::devices::mapping::lemma_first_range_from(m.protected, addr, false, 0);
    if m.refusal(addr) is Some {
        let i = first_range(m.protected, addr, false)->0;
        assert(m.refusal(addr)->0 == m.protected[i]);
    }
}

/// Protecting an interval a second time changes nothing about which
/// accesses are refused, nor about the interval that refuses them.
pub proof fn lemma_protect_twice(m: MemoryView, lo: u32, hi: u32, addr: u32)
    ensures
        (MemoryView { protected: m.protected.push((lo, hi)).push((lo, hi)), ..m }).refusal(addr)
            == (MemoryView { protected: m.protected.push((lo, hi)), ..m }).refusal(addr),
{
    let once = m.protected.push((lo, hi));
    crate::devices::mapping::lemma_first_range_push(m.protected, (lo, hi), addr, false, 0);
    crate::devices::mapping::lemma_first_range_push(once, (lo, hi), addr, false, 0);
    crate::devices::mapping::lemma_first_range_from(once, addr, false, 0);
    match first_range(once, addr, false) {
        Some(i) => {
            assert(once.push((lo, hi))[i] == once[i]);
        },
        None => {
            assert(once[m.protected.len() as int] == (lo, hi));
        },
    }
}

/// A flat byte-addressable store that grows as addresses are touched, with
/// protected intervals and memory-mapped devices laid over it.
pub struct Memory {
    mem_array: Vec<u8>,
    mode_privilege: bool,
    verbose: bool,
    protected_ranges: Vec<(u32, u32)>,
    devices: Vec<(u32, u32, Box<dyn MemoryMapped>)>,
}

impl View for Memory {
    type V = MemoryView;

    closed spec fn view(&self) -> MemoryView {
        MemoryView {
            bytes: self.mem_array@,
            privileged: self.mode_privilege,
            protected: self.protected_ranges@,
            devices: Seq::new(
                self.devices@.len(),
                |i: int| (self.devices@[i].0, self.devices@[i].1),
            ),
            verbose: self.verbose,
        }
    }
}

impl Memory {
    /// Makes an empty memory: no bytes, no protected interval, no device,
    /// and protection in force.
    pub fn new(v: bool) -> (m: Memory)
        ensures
            m@ == (MemoryView {
                bytes: Seq::empty(),
                privileged: false,
                protected: Seq::empty(),
                devices: Seq::empty(),
                verbose: v,
            }),
    {
        let m = Memory {
            mem_array: Vec::new(),
            mode_privilege: false,
            verbose: v,
            protected_ranges: Vec::new(),
            devices: Vec::new(),
        };
        assert(m@.devices =~= Seq::empty());
        m
    }

    /// Whether tracing was asked for when this memory was made.
    pub fn verbose(&self) -> (v: bool)
        ensures
            v == self@.verbose,
    {
        self.verbose
    }

    /// The number of bytes that the store holds.
    pub fn size(&self) -> (n: usize)
        ensures
            n == self@.bytes.len(),
    {
        self.mem_array.len()
    }

    /// Whether protection is bypassed.
    pub fn is_privileged(&self) -> (p: bool)
        ensures
            p == self@.privileged,
    {
        self.mode_privilege
    }

    /// Adds the interval `[proct_low, proct_high)` to the protected ones.
    pub fn protect(&mut self, proct_low: u32, proct_high: u32)
        ensures
            final(self)@ == (MemoryView {
                protected: old(self)@.protected.push((proct_low, proct_high)),
                ..old(self)@
            }),
    {
        self.protected_ranges.push((proct_low, proct_high));
    }

    /// Turns the bypass of protection on or off.
    pub fn set_privileged(&mut self, m: bool)
        ensures
            final(self)@ == (MemoryView { privileged: m, ..old(self)@ }),
    {
        self.mode_privilege = m;
    }

    /// Maps `device` on the interval `[range_lower, range_upper]`. Where two
    /// mapped intervals hold an address, the one mapped first answers.
    pub fn map_device(&mut self, range_lower: u32, range_upper: u32, device: Box<dyn MemoryMapped>)
        ensures
            final(self)@ == (MemoryView {
                devices: old(self)@.devices.push((range_lower, range_upper)),
                ..old(self)@
            }),
    {
        let ghost before = self.devices@;
        let entry = (range_lower, range_upper, device);
        self.devices.push(entry);
        assert(self.devices@ == before.push(entry));
        assert(self@.devices =~= old(self)@.devices.push((range_lower, range_upper)));
    }

    /// Extends the store by `alloc` bytes of zeros, and never by fewer than four.
    pub fn extend_mem(&mut self, alloc: usize)
        requires
            old(self)@.bytes.len() + alloc <= usize::MAX,
            old(self)@.bytes.len() + 4 <= usize::MAX,
        ensures
            final(self)@ == old(self)@.extended(alloc as nat),
    {
        let by: usize = if alloc > 4 {
            alloc
        } else {
            4
        };
        let target: usize = self.mem_array.len() + by;
        self.mem_array.resize(target, 0u8);
        assert(self.mem_array@ =~= old(self)@.extended(alloc as nat).bytes);
        assert(self@.devices =~= old(self)@.devices);
    }

    /// Replaces the store by `alloc` bytes of zeros.
    pub fn extend_mem_FAST(&mut self, alloc: usize)
        ensures
            final(self)@ == (MemoryView {
                bytes: Seq::new(alloc as nat, |i: int| 0u8),
                ..old(self)@
            }),
    {
        let mut fresh: Vec<u8> = Vec::new();
        fresh.resize(alloc, 0u8);
        self.mem_array = fresh;
        assert(self.mem_array@ =~= Seq::new(alloc as nat, |i: int| 0u8));
        assert(self@.devices =~= old(self)@.devices);
    }

    /// Finds the device that answers for `addr`.
    fn find_device(&self, addr: u32) -> (res: Option<usize>)
        ensures
            match res {
                Some(i) => self@.device_at(addr) == Some(i as int) && i < self.devices@.len(),
                None => self@.device_at(addr) is None,
            },
    {
        let mut i: usize = 0;
        while i < self.devices.len()
            invariant
                i <= self.devices@.len(),
                first_range(self@.devices, addr, true) == first_range_from(
                    self@.devices,
                    addr,
                    true,
                    i as int,
                ),
            decreases self.devices@.len() - i,
        {
            if self.devices[i].0 <= addr && addr <= self.devices[i].1 {
                return Some(i);
            }
            i += 1;
        }
        None
    }

    /// Finds the protected interval that refuses an access at `addr`.
    fn find_refusal(&self, addr: u32) -> (res: Option<(u32, u32)>)
        ensures
            res == self@.refusal(addr),
    {
        if self.mode_privilege {
            return None;
        }
        match find_range(&self.protected_ranges, addr, false) {
            Some(i) => Some(self.protected_ranges[i]),
            None => None,
        }
    }

    /// Loads `size` bytes from address `dir`.
    ///
    /// An address in a protected interval is refused outside privileged mode,
    /// with the first such interval. Else the first device mapped on the
    /// address answers, and the store is left alone. Else the store is
    /// grown to hold the bytes asked for, and they are returned; only then
    /// must the host be able to hold them.
    pub fn load(&mut self, dir: u32, size: usize) -> (res: Result<Vec<u8>, MemError>)
        requires
            !old(self)@.protects(dir) && old(self)@.device_at(dir) is None ==> dir + size + 4
                <= usize::MAX,
        ensures
            old(self)@.protects(dir) ==> res is Err && final(self)@ == old(self)@,
            match old(self)@.refusal(dir) {
                Some((lo, hi)) => {
                    &&& final(self)@ == old(self)@
                    &&& res matches Err(e)
                    &&& e@ == MemErrorView::PermError(lo, hi, dir as usize)
                },
                None => match old(self)@.device_at(dir) {
                    Some(i) => {
                        &&& final(self)@ == old(self)@
                        &&& res matches Ok(bytes) ==> bytes@.len() == size
                    },
                    None => {
                        &&& final(self)@ == old(self)@.grown(dir + size)
                        &&& res matches Ok(bytes)
                        &&& bytes@ == old(self)@.bytes_at(dir as int, size as nat)
                    },
                },
            },
            forall|addr: int| final(self)@.byte_at(addr) == old(self)@.byte_at(addr),
    {
        proof {
            lemma_refusal_is_first(self@, dir);
        }
        match self.find_refusal(dir) {
            Some((lo, hi)) => {
                return Err(MemError::PermError(lo, hi, dir as usize));
            },
            None => {},
        }
        match self.find_device(dir) {
            Some(i) => {
                let ghost before = self@;
                let ghost count = self.devices@.len();
                let r = self.devices[i].2.read(dir, size);
                assert(self.devices@.len() == count);
                assert(self@.devices =~= before.devices);
                return r;
            },
            None => {},
        }
        assert forall|addr: int| old(self)@.grown(dir + size).byte_at(addr) == old(self)@.byte_at(
            addr,
        ) by {
            lemma_grown_keeps_bytes(old(self)@, dir + size, addr);
        }
        let d: usize = dir as usize;
        if d + size > self.mem_array.len() {
            let missing: usize = d + size - self.mem_array.len();
            self.extend_mem(missing);
        }
        let mut out: Vec<u8> = Vec::new();
        let mut i: usize = 0;
        while i < size
            invariant
                i <= size,
                d + size <= usize::MAX,
                d + size <= self.mem_array@.len(),
                out@.len() == i,
                forall|j: int| 0 <= j < i ==> out@[j] == self.mem_array@[d + j],
            decreases size - i,
        {
            out.push(self.mem_array[d + i]);
            i += 1;
        }
        assert(out@ =~= old(self)@.bytes_at(dir as int, size as nat));
        Ok(out)
    }

    /// Stores `size` bytes at address `dir`: the bytes of `contents`, cut or
    /// filled with zeros to `size`.
    ///
    /// An address in a protected interval is refused outside privileged mode,
    /// and memory is left as it was, whatever the size and the contents.
    /// Else the first device mapped on the address takes the bytes, and the
    /// store is left alone. Else the store is grown to hold the bytes, and
    /// they are written; only then must the host be able to hold them.
    pub fn store(&mut self, dir: usize, size: usize, contents: &[u8]) -> (res: Result<
        (),
        MemError,
    >)
        requires
            dir <= u32::MAX,
            !old(self)@.protects(dir as u32) && old(self)@.device_at(dir as u32) is None ==> dir
                + size + 4 <= usize::MAX,
        ensures
            old(self)@.protects(dir as u32) ==> res is Err && final(self)@ == old(self)@,
            match old(self)@.refusal(dir as u32) {
                Some((lo, hi)) => {
                    &&& final(self)@ == old(self)@
                    &&& res matches Err(e)
                    &&& e@ == MemErrorView::PermError(lo, hi, dir)
                },
                None => match old(self)@.device_at(dir as u32) {
                    Some(i) => final(self)@ == old(self)@,
                    None => {
                        &&& res is Ok
                        &&& final(self)@ == old(self)@.grown(dir + size).written(
                            dir as int,
                            padded(contents@, size as nat),
                        )
                    },
                },
            },
    {
        let d: u32 = dir as u32;
        proof {
            lemma_refusal_is_first(self@, d);
        }
        match self.find_refusal(d) {
            Some((lo, hi)) => {
                return Err(MemError::PermError(lo, hi, dir));
            },
            None => {},
        }
        match self.find_device(d) {
            Some(i) => {
                let ghost before = self@;
                let ghost count = self.devices@.len();
                let r = self.devices[i].2.write(dir, size, contents);
                assert(self.devices@.len() == count);
                assert(self@.devices =~= before.devices);
                return r;
            },
            None => {},
        }
        if dir + size > self.mem_array.len() {
            let missing: usize = dir + size - self.mem_array.len();
            self.extend_mem(missing);
        }
        let ghost base = self@;
        let ghost data = padded(contents@, size as nat);
        let mut i: usize = 0;
        assert(self@.bytes =~= base.written(dir as int, data.subrange(0, 0)).bytes);
        while i < size
            invariant
                i <= size,
                dir + size <= usize::MAX,
                dir + size <= self.mem_array@.len(),
                base == old(self)@.grown(dir + size),
                data == padded(contents@, size as nat),
                self@ == base.written(dir as int, data.subrange(0, i as int)),
            decreases size - i,
        {
            let to_insert: u8 = if i < contents.len() {
                contents[i]
            } else {
                0
            };
            let ghost before = self@;
            self.mem_array.set(dir + i, to_insert);
            assert(self@.devices =~= before.devices);
            assert(self@.bytes =~= base.written(dir as int, data.subrange(0, i + 1)).bytes);
            i += 1;
        }
        assert(data.subrange(0, size as int) =~= data);
        Ok(())
    }

    /// Copies `count` bytes of `source`, from offset `from` on, to address `at`.
    fn copy_in(&mut self, at: usize, source: &[u8], from: usize, count: usize)
        requires
            at + count <= old(self)@.bytes.len(),
            from + count <= source@.len(),
        ensures
            final(self)@ == old(self)@.written(
                at as int,
                source@.subrange(from as int, from + count),
            ),
    {
        let ghost data = source@.subrange(from as int, from + count);
        let limit: usize = self.mem_array.len();
        let source_len: usize = source.len();
        let mut i: usize = 0;
        assert(self@.bytes =~= old(self)@.written(at as int, data.subrange(0, 0)).bytes);
        while i < count
            invariant
                i <= count,
                at + count <= self.mem_array@.len() <= usize::MAX,
                from + count <= source@.len() <= usize::MAX,
                data == source@.subrange(from as int, from + count),
                self@ == old(self)@.written(at as int, data.subrange(0, i as int)),
            decreases count - i,
        {
            let ghost before = self@;
            self.mem_array.set(at + i, source[from + i]);
            assert(self@.devices =~= before.devices);
            assert(self@.bytes =~= old(self)@.written(at as int, data.subrange(0, i + 1)).bytes);
            i += 1;
        }
        assert(data.subrange(0, count as int) =~= data);
    }

    /// The number of bytes that loading by `plan` adds to the store, where
    /// the store can hold them.
    fn room_for(&self, plan: &LoadPlan) -> (res: Option<usize>)
        ensures
            match res {
                Some(n) => n == plan.extent() && self@.bytes.len() + n <= usize::MAX
                    && self@.bytes.len() + 4 <= usize::MAX,
                None => self@.bytes.len() + plan.extent() > usize::MAX || self@.bytes.len() + 4
                    > usize::MAX,
            },
    {
        let text_end = match (plan.text_paddr as usize).checked_add(plan.text_len) {
            Some(n) => n,
            None => {
                return None;
            },
        };
        let data_end = match (plan.data_paddr as usize).checked_add(plan.data_len) {
            Some(n) => n,
            None => {
                return None;
            },
        };
        let extent: usize = if text_end >= data_end {
            text_end
        } else {
            data_end
        };
        let len: usize = self.mem_array.len();
        if len.checked_add(extent).is_none() || len.checked_add(4).is_none() {
            return None;
        }
        Some(extent)
    }

    /// Loads an executable image: validates its headers, extends the store
    /// by the higher of the two segments' ends, copies the text segment and
    /// then the data segment to their physical addresses, and returns the
    /// entry address. Protection is not asked. An image that is refused
    /// leaves memory as it was.
    pub fn load_RELF(&mut self, image: &[u8]) -> (res: Result<u32, HeaderError>)
        ensures
            match verdict(image@) {
                Err(e) => {
                    &&& final(self)@ == old(self)@
                    &&& res matches Err(x)
                    &&& x@ == e
                },
                Ok(plan) => if old(self)@.bytes.len() + plan.extent() > usize::MAX || old(
                    self,
                )@.bytes.len() + 4 > usize::MAX {
                    &&& final(self)@ == old(self)@
                    &&& res matches Err(x)
                    &&& x@ == too_large()
                } else {
                    &&& res matches Ok(entry)
                    &&& entry == plan.entry
                    &&& final(self)@ == old(self)@.extended(plan.extent()).written(
                        plan.text_paddr as int,
                        plan.text(image@),
                    ).written(plan.data_paddr as int, plan.data(image@))
                },
            },
    {
        let plan = match plan_load(image) {
            Ok(plan) => plan,
            Err(e) => {
                return Err(e);
            },
        };
        let extent = match self.room_for(&plan) {
            Some(n) => n,
            None => {
                return Err(
                    HeaderError::IOError(String::from_str("The segments do not fit in memory")),
                );
            },
        };
        self.extend_mem(extent);
        self.copy_in(plan.text_paddr as usize, image, plan.text_start, plan.text_len);
        self.copy_in(plan.data_paddr as usize, image, plan.data_start, plan.data_len);
        Ok(plan.entry)
    }

    /// Replaces the store by the bytes of `image`, from address 0 on.
    /// Protection is not asked.
    pub fn load_bin(&mut self, image: &[u8])
        ensures
            final(self)@ == (MemoryView { bytes: image@, ..old(self)@ }),
    {
        let mut fresh: Vec<u8> = Vec::new();
        let mut i: usize = 0;
        while i < image.len()
            invariant
                i <= image@.len(),
                fresh@ == image@.subrange(0, i as int),
            decreases image@.len() - i,
        {
            fresh.push(image[i]);
            assert(fresh@ =~= image@.subrange(0, i + 1));
            i += 1;
        }
        assert(fresh@ =~= image@);
        self.mem_array = fresh;
        assert(self@.devices =~= old(self)@.devices);
    }
}

} // verus!
