//! Linux auxv records: the `(type, value)` pairs with which the kernel
//! describes the process's environment, as `/proc/self/auxv` holds them.
use crate::bytes::{read_le64, read_u64_le};
use crate::io::errno;
use crate::io::Error;
use vstd::prelude::*;

verus! {

/// `AT_NULL`: the record that ends the vector.
pub const AT_NULL: usize = 0;

/// `AT_PAGESZ`: the system page size.
pub const AT_PAGESZ: usize = 6;

/// `AT_HWCAP`: the machine's hardware capabilities.
pub const AT_HWCAP: usize = 16;

/// `AT_HWCAP2`: more hardware capabilities.
pub const AT_HWCAP2: usize = 26;

/// `AT_SYSINFO_EHDR`: the address of the vDSO's ELF header.
pub const AT_SYSINFO_EHDR: usize = 33;

/// The size of an auxv record, `Elf_auxv_t`.
pub const AUXV_RECORD_SIZE: usize = 16;

/// `Elf_auxv_t`: an auxv record.
#[derive(Clone, Copy, Debug, PartialEq, Eq, Structural)]
pub struct ElfAuxv {
    /// The record's type, an `AT_*` value.
    pub a_type: usize,
    /// The record's value.
    pub a_val: usize,
}

/// The values that the process takes from its auxv records.
#[derive(Clone, Copy, Debug, PartialEq, Eq, Structural)]
pub struct Auxv {
    /// `AT_PAGESZ`
    pub page_size: usize,
    /// `AT_HWCAP`
    pub hwcap: usize,
    /// `AT_HWCAP2`
    pub hwcap2: usize,
    /// `AT_SYSINFO_EHDR`
    pub sysinfo_ehdr: usize,
}

/// The type of a record, as the low 32 bits of its `a_type` field, which
/// is how records are told apart.
pub open spec fn record_type(r: ElfAuxv) -> u32 {
    r.a_type as u32
}

/// The number of records of `recs` that are read: those before the first
/// `AT_NULL` record, or all of them.
pub open spec fn records_before_null(recs: Seq<ElfAuxv>) -> int
    decreases recs.len(),
{
    if recs.len() == 0 {
        0
    } else if record_type(recs[0]) == AT_NULL as u32 {
        0
    } else {
        1 + records_before_null(recs.drop_first())
    }
}

/// The value of the last record of type `ty` among the first `n` records
/// of `recs`, or `default` when there is none.
pub open spec fn last_value(recs: Seq<ElfAuxv>, n: int, ty: usize, default: usize) -> usize
    decreases n,
{
    if n <= 0 {
        default
    } else if record_type(recs[n - 1]) == ty as u32 {
        recs[n - 1].a_val
    } else {
        last_value(recs, n - 1, ty, default)
    }
}

/// The values after reading the records `recs` on top of `a`: each value
/// is that of the last record of its type before the first `AT_NULL`.
pub open spec fn auxv_after(a: Auxv, recs: Seq<ElfAuxv>) -> Auxv {
    let n = records_before_null(recs);
    Auxv {
        page_size: last_value(recs, n, AT_PAGESZ, a.page_size),
        hwcap: last_value(recs, n, AT_HWCAP, a.hwcap),
        hwcap2: last_value(recs, n, AT_HWCAP2, a.hwcap2),
        sysinfo_ehdr: last_value(recs, n, AT_SYSINFO_EHDR, a.sysinfo_ehdr),
    }
}

/// Whether `r` is the record at `bytes[16 * k..16 * k + 16]`: its type
/// first, then its value, each a little-endian 64-bit machine word.
pub open spec fn record_at(bytes: Seq<u8>, k: int, r: ElfAuxv) -> bool {
    &&& r.a_type == read_le64(bytes, 16 * k) as usize
    &&& r.a_val == read_le64(bytes, 16 * k + 8) as usize
}

/// The records that a buffer of `bytes`, read from `/proc/self/auxv`,
/// holds: one for each whole 16 bytes, type first, each field a
/// little-endian 64-bit machine word.
pub fn decode_auxv_records(bytes: &[u8]) -> (recs: Vec<ElfAuxv>)
    ensures
        recs@.len() == bytes@.len() / (AUXV_RECORD_SIZE as nat),
        forall|k: int| 0 <= k < recs@.len() ==> record_at(bytes@, k, #[trigger] recs@[k]),
{
    let len = bytes.len();
    let n = len / AUXV_RECORD_SIZE;
    let mut recs: Vec<ElfAuxv> = Vec::new();
    let mut i: usize = 0;
    while i < n
        invariant
            i <= n,
            n == bytes@.len() / 16,
            len == bytes@.len(),
            recs@.len() == i,
            forall|j: int| 0 <= j < i ==> record_at(bytes@, j, #[trigger] recs@[j]),
        decreases n - i,
    {
        assert(16 * i + 16 <= len) by (nonlinear_arith)
            requires
                i < n,
                n == len / 16,
        ;
        #[verifier::truncate]
        let a_type = read_u64_le(bytes, 16 * i) as usize;
        #[verifier::truncate]
        let a_val = read_u64_le(bytes, 16 * i + 8) as usize;
        recs.push(ElfAuxv { a_type, a_val });
        i = i + 1;
    }
    recs
}

impl Auxv {
    /// The values before any record is read: all zero.
    pub fn new() -> (a: Self)
        ensures
            a == (Auxv { page_size: 0, hwcap: 0, hwcap2: 0, sysinfo_ehdr: 0 }),
    {
        Auxv { page_size: 0, hwcap: 0, hwcap2: 0, sysinfo_ehdr: 0 }
    }

    /// Read the records `recs`, up to the first `AT_NULL` one, into these
    /// values.
    pub fn apply_records(&mut self, recs: &[ElfAuxv])
        ensures
            *final(self) == auxv_after(*old(self), recs@),
    {
        let ghost start = *self;
        proof {
            lemma_records_before_null_bound(recs@);
        }
        let mut i: usize = 0;
        while i < recs.len() && recs[i].a_type as u32 != AT_NULL as u32
            invariant
                i <= recs@.len(),
                i <= records_before_null(recs@),
                *self == (Auxv {
                    page_size: last_value(recs@, i as int, AT_PAGESZ, start.page_size),
                    hwcap: last_value(recs@, i as int, AT_HWCAP, start.hwcap),
                    hwcap2: last_value(recs@, i as int, AT_HWCAP2, start.hwcap2),
                    sysinfo_ehdr: last_value(recs@, i as int, AT_SYSINFO_EHDR, start.sysinfo_ehdr),
                }),
            decreases recs.len() - i,
        {
            let rec = recs[i];
            proof {
                lemma_records_before_null_step(recs@, i as int);
            }
            #[verifier::truncate]
            let ty = rec.a_type as u32;
            if ty == AT_PAGESZ as u32 {
                self.page_size = rec.a_val;
            } else if ty == AT_HWCAP as u32 {
                self.hwcap = rec.a_val;
            } else if ty == AT_HWCAP2 as u32 {
                self.hwcap2 = rec.a_val;
            } else if ty == AT_SYSINFO_EHDR as u32 {
                self.sysinfo_ehdr = rec.a_val;
            }
            i = i + 1;
        }
        proof {
            lemma_records_before_null_step(recs@, i as int);
        }
    }

    /// The system page size.
    pub fn page_size(&self) -> (r: usize)
        ensures
            r == self.page_size,
    {
        self.page_size
    }

    /// The hardware capabilities, `AT_HWCAP` and `AT_HWCAP2`.
    pub fn linux_hwcap(&self) -> (r: (usize, usize))
        ensures
            r == (self.hwcap, self.hwcap2),
    {
        (self.hwcap, self.hwcap2)
    }

    /// The address of the vDSO's ELF header.
    pub fn sysinfo_ehdr(&self) -> (r: usize)
        ensures
            r == self.sysinfo_ehdr,
    {
        self.sysinfo_ehdr
    }

    /// Take in the outcome `read` of reading the auxv file at `offset` into
    /// `buf`, and say what to do next. Bytes read are taken as whole
    /// records into these values, and reading goes on after them; the end
    /// of the file ends the reading; an interrupted read is made again at
    /// the same offset; any other error ends it with that error.
    pub fn read_step(&mut self, offset: u64, buf: &[u8], read: Result<usize, Error>) -> (step:
        AuxvReadStep)
        requires
            read matches Ok(n) ==> n <= buf@.len() && offset + n <= u64::MAX,
        ensures
            read == Ok::<usize, Error>(0) ==> *final(self) == *old(self) && step
                == AuxvReadStep::Done,
            read matches Ok(n) ==> (n > 0 ==> *final(self) == auxv_after(
                *old(self),
                auxv_records_of(buf@.subrange(0, n as int)),
            ) && step == AuxvReadStep::ReadAt((offset + (n / 16) * 16) as u64)),
            read matches Err(e) ==> *final(self) == *old(self) && step == (if e.errno()
                == errno::INTR {
                AuxvReadStep::ReadAt(offset)
            } else {
                AuxvReadStep::Failed(e)
            }),
    {
        match read {
            Ok(n) => {
                if n == 0 {
                    return AuxvReadStep::Done;
                }
                let bytes = vstd::slice::slice_subrange(buf, 0, n);
                let recs = decode_auxv_records(bytes);
                assert(recs@ == auxv_records_of(bytes@));
                self.apply_records(recs.as_slice());
                let consumed = recs.len() * AUXV_RECORD_SIZE;
                AuxvReadStep::ReadAt(offset + consumed as u64)
            },
            Err(e) => {
                if e.raw_os_error() == errno::INTR as i32 {
                    AuxvReadStep::ReadAt(offset)
                } else {
                    AuxvReadStep::Failed(e)
                }
            },
        }
    }
}

/// The records that whole 16-byte pieces of `bytes` hold, type first, each
/// field a little-endian 64-bit machine word.
pub open spec fn auxv_records_of(bytes: Seq<u8>) -> Seq<ElfAuxv> {
    Seq::new(
        bytes.len() / (AUXV_RECORD_SIZE as nat),
        |k: int|
            ElfAuxv {
                a_type: read_le64(bytes, 16 * k) as usize,
                a_val: read_le64(bytes, 16 * k + 8) as usize,
            },
    )
}

/// What reading the auxv file does next.
#[derive(Clone, Copy, Debug, PartialEq, Eq, Structural)]
pub enum AuxvReadStep {
    /// The end of the file: reading is done.
    Done,
    /// Read again, at this offset.
    ReadAt(u64),
    /// Reading failed with this error.
    Failed(Error),
}

/// The records before the first `AT_NULL` reach up to `i` exactly when none
/// of the first `i` records is `AT_NULL`, and stop at `i` when record `i`
/// is the first `AT_NULL`.
proof fn lemma_records_before_null_step(recs: Seq<ElfAuxv>, i: int)
    requires
        0 <= i <= recs.len(),
        i <= records_before_null(recs),
    ensures
        i < recs.len() && record_type(recs[i]) != AT_NULL as u32 ==> i + 1 <= records_before_null(
            recs,
        ),
        i < recs.len() && record_type(recs[i]) == AT_NULL as u32 ==> records_before_null(recs) == i,
        i == recs.len() ==> records_before_null(recs) == i,
        records_before_null(recs) <= recs.len(),
    decreases i,
{
    lemma_records_before_null_bound(recs);
    if recs.len() > 0 {
        lemma_records_before_null_bound(recs.drop_first());
    }
    if i > 0 {
        lemma_records_before_null_step(recs.drop_first(), i - 1);
        assert(recs.drop_first().len() == recs.len() - 1);
        if i < recs.len() {
            assert(recs.drop_first()[i - 1] == recs[i]);
        }
    }
}

proof fn lemma_records_before_null_bound(recs: Seq<ElfAuxv>)
    ensures
        0 <= records_before_null(recs) <= recs.len(),
    decreases recs.len(),
{
    if recs.len() > 0 {
        lemma_records_before_null_bound(recs.drop_first());
    }
}

proof fn lemma_records_concat(r1: Seq<ElfAuxv>, r2: Seq<ElfAuxv>)
    requires
        forall|i: int| 0 <= i < r1.len() ==> record_type(#[trigger] r1[i]) != AT_NULL as u32,
    ensures
        records_before_null(r1) == r1.len(),
        records_before_null(r1 + r2) == r1.len() + records_before_null(r2),
    decreases r1.len(),
{
    if r1.len() > 0 {
        assert((r1 + r2).drop_first() == r1.drop_first() + r2);
        assert(r1[0] == (r1 + r2)[0]);
        assert forall|i: int| 0 <= i < r1.drop_first().len() implies record_type(
            #[trigger] r1.drop_first()[i],
        ) != AT_NULL as u32 by {
            assert(r1.drop_first()[i] == r1[i + 1]);
        }
        lemma_records_concat(r1.drop_first(), r2);
    } else {
        assert(r1 + r2 == r2);
    }
}

proof fn lemma_last_value_prefix(s: Seq<ElfAuxv>, t: Seq<ElfAuxv>, m: int, ty: usize, d: usize)
    requires
        0 <= m <= s.len(),
        m <= t.len(),
        forall|i: int| 0 <= i < m ==> s[i] == t[i],
    ensures
        last_value(s, m, ty, d) == last_value(t, m, ty, d),
    decreases m,
{
    if m > 0 {
        lemma_last_value_prefix(s, t, m - 1, ty, d);
    }
}

proof fn lemma_last_value_concat(
    r1: Seq<ElfAuxv>,
    r2: Seq<ElfAuxv>,
    n2: int,
    ty: usize,
    d: usize,
)
    requires
        0 <= n2 <= r2.len(),
    ensures
        last_value(r1 + r2, r1.len() + n2, ty, d) == last_value(
            r2,
            n2,
            ty,
            last_value(r1, r1.len() as int, ty, d),
        ),
    decreases n2,
{
    if n2 == 0 {
        lemma_last_value_prefix(r1 + r2, r1, r1.len() as int, ty, d);
    } else {
        lemma_last_value_concat(r1, r2, n2 - 1, ty, d);
        assert((r1 + r2)[r1.len() + n2 - 1] == r2[n2 - 1]);
    }
}

/// Reading records in two pieces, the first of which holds no `AT_NULL`
/// record, gives the values that reading them at once gives.
pub proof fn lemma_auxv_after_concat(a: Auxv, r1: Seq<ElfAuxv>, r2: Seq<ElfAuxv>)
    requires
        forall|i: int| 0 <= i < r1.len() ==> record_type(#[trigger] r1[i]) != AT_NULL as u32,
    ensures
        auxv_after(auxv_after(a, r1), r2) == auxv_after(a, r1 + r2),
{
    lemma_records_concat(r1, r2);
    lemma_records_before_null_bound(r2);
    let n2 = records_before_null(r2);
    lemma_last_value_concat(r1, r2, n2, AT_PAGESZ, a.page_size);
    lemma_last_value_concat(r1, r2, n2, AT_HWCAP, a.hwcap);
    lemma_last_value_concat(r1, r2, n2, AT_HWCAP2, a.hwcap2);
    lemma_last_value_concat(r1, r2, n2, AT_SYSINFO_EHDR, a.sysinfo_ehdr);
}

} // verus!
