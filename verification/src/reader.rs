//! Reading objects out of the bytes that the guest sent. On every machine that the monitor runs
//! on, their integers have the least significant byte first.

use vstd::prelude::*;
use vstd::slice::{slice_subrange, slice_to_vec};

verus! {

/// Number of bytes of a guest memory entry: an address, a length and padding.
pub const MEM_ENTRY_LEN: usize = 16;

/// Number of bytes of a fence identifier.
pub const FENCE_ID_LEN: usize = 8;

/// The number that `bytes` hold, the least significant byte first.
pub open spec fn le_value(bytes: Seq<u8>) -> nat
    decreases bytes.len(),
{
    if bytes.len() == 0 {
        0
    } else {
        bytes[0] as nat + 256 * le_value(bytes.skip(1))
    }
}

/// The `len` lowest bytes of `value`, the least significant byte first.
pub open spec fn le_bytes(value: nat, len: nat) -> Seq<u8>
    decreases len,
{
    if len == 0 {
        Seq::empty()
    } else {
        seq![(value % 256) as u8] + le_bytes(value / 256, (len - 1) as nat)
    }
}

/// One past the largest number that `len` bytes can hold.
pub open spec fn le_limit(len: nat) -> nat
    decreases len,
{
    if len == 0 {
        1
    } else {
        256 * le_limit((len - 1) as nat)
    }
}

/// `len` bytes hold a number below their limit.
proof fn lemma_le_value_bound(bytes: Seq<u8>)
    ensures
        le_value(bytes) < le_limit(bytes.len()),
    decreases bytes.len(),
{
    if bytes.len() > 0 {
        lemma_le_value_bound(bytes.skip(1));
    }
}

proof fn lemma_le_limit_monotone(a: nat, b: nat)
    requires
        a <= b,
    ensures
        1 <= le_limit(a) <= le_limit(b),
    decreases b,
{
    if b > 0 {
        if a < b {
            lemma_le_limit_monotone(a, (b - 1) as nat);
        } else {
            lemma_le_limit_monotone((a - 1) as nat, (b - 1) as nat);
        }
    }
}

/// Reading gives back what was written: a number that fits in `len` bytes survives the way
/// through its bytes.
pub proof fn law_le_round_trip(value: nat, len: nat)
    requires
        value < le_limit(len),
    ensures
        le_bytes(value, len).len() == len,
        le_value(le_bytes(value, len)) == value,
    decreases len,
{
    if len > 0 {
        let rest = (len - 1) as nat;
        law_le_round_trip(value / 256, rest);
        assert(le_bytes(value, len).skip(1) =~= le_bytes(value / 256, rest));
    }
}

/// The number in `bytes`, which are at most eight.
fn le_u64(bytes: &[u8]) -> (r: u64)
    requires
        bytes@.len() <= 8,
    ensures
        r == le_value(bytes@),
{
    let n: usize = bytes.len();
    let mut i: usize = n;
    let mut value: u64 = 0;
    while i > 0
        invariant
            i <= n,
            n == bytes@.len(),
            n <= 8,
            value == le_value(bytes@.skip(i as int)),
        decreases i,
    {
        i = i - 1;
        proof {
            assert(bytes@.skip(i as int).skip(1) =~= bytes@.skip(i + 1));
            lemma_le_value_bound(bytes@.skip(i as int));
            lemma_le_limit_monotone((n - i) as nat, 8);
            reveal_with_fuel(le_limit, 9);
        }
        value = value * 256 + bytes[i] as u64;
    }
    assert(bytes@.skip(0) =~= bytes@);
    value
}

/// The address and length in one guest memory entry.
pub open spec fn mem_entry(bytes: Seq<u8>) -> (u64, usize) {
    (le_value(bytes.subrange(0, 8)) as u64, le_value(bytes.subrange(8, 12)) as usize)
}

/// The bytes of one guest memory entry. The padding is zero.
pub open spec fn mem_entry_bytes(addr: u64, len: u32) -> Seq<u8> {
    le_bytes(addr as nat, 8) + le_bytes(len as nat, 4) + le_bytes(0, 4)
}

/// The first `n` guest memory entries in `bytes`, if they hold that many.
pub open spec fn mem_entries(bytes: Seq<u8>, n: nat) -> Option<Seq<(u64, usize)>> {
    if MEM_ENTRY_LEN * n <= bytes.len() {
        Some(
            Seq::new(
                n,
                |i: int|
                    mem_entry(bytes.subrange(MEM_ENTRY_LEN * i, MEM_ENTRY_LEN * i + MEM_ENTRY_LEN)),
            ),
        )
    } else {
        None
    }
}

/// The bytes of a list of guest memory entries.
pub open spec fn mem_entries_bytes(entries: Seq<(u64, u32)>) -> Seq<u8>
    decreases entries.len(),
{
    if entries.len() == 0 {
        Seq::empty()
    } else {
        mem_entries_bytes(entries.drop_last()) + mem_entry_bytes(
            entries.last().0,
            entries.last().1,
        )
    }
}

/// The first `n` fence identifiers in `bytes`, if they hold that many.
pub open spec fn fence_ids(bytes: Seq<u8>, n: nat) -> Option<Seq<u64>> {
    if FENCE_ID_LEN * n <= bytes.len() {
        Some(
            Seq::new(
                n,
                |i: int|
                    le_value(bytes.subrange(FENCE_ID_LEN * i, FENCE_ID_LEN * i + FENCE_ID_LEN)) as u64,
            ),
        )
    } else {
        None
    }
}

/// A guest memory entry survives the way through its bytes.
proof fn lemma_mem_entry_round_trip(addr: u64, len: u32)
    ensures
        mem_entry_bytes(addr, len).len() == MEM_ENTRY_LEN,
        mem_entry(mem_entry_bytes(addr, len)) == (addr, len as usize),
{
    reveal_with_fuel(le_limit, 9);
    law_le_round_trip(addr as nat, 8);
    law_le_round_trip(len as nat, 4);
    law_le_round_trip(0, 4);
    let bytes = mem_entry_bytes(addr, len);
    assert(bytes.subrange(0, 8) =~= le_bytes(addr as nat, 8));
    assert(bytes.subrange(8, 12) =~= le_bytes(len as nat, 4));
}

/// The device is handed the memory that the guest listed: a list of entries, written out and
/// followed by anything, reads back as the same addresses and lengths in the same order.
pub proof fn law_mem_entries_round_trip(entries: Seq<(u64, u32)>, tail: Seq<u8>)
    ensures
        mem_entries(mem_entries_bytes(entries) + tail, entries.len()) == Some(
            Seq::new(entries.len(), |i: int| (entries[i].0, entries[i].1 as usize)),
        ),
        mem_entries_bytes(entries).len() == MEM_ENTRY_LEN * entries.len(),
    decreases entries.len(),
{
    let bytes = mem_entries_bytes(entries);
    let expected = Seq::new(entries.len(), |i: int| (entries[i].0, entries[i].1 as usize));
    if entries.len() > 0 {
        let front = entries.drop_last();
        let last = entries.last();
        let last_bytes = mem_entry_bytes(last.0, last.1);
        law_mem_entries_round_trip(front, last_bytes + tail);
        lemma_mem_entry_round_trip(last.0, last.1);
        assert(mem_entries_bytes(front) + (last_bytes + tail) =~= bytes + tail);
        let n = front.len() as int;
        assert((bytes + tail).subrange(MEM_ENTRY_LEN * n, MEM_ENTRY_LEN * n + MEM_ENTRY_LEN)
            =~= last_bytes);
        let got = mem_entries(bytes + tail, entries.len())->0;
        let got_front = mem_entries(bytes + tail, front.len())->0;
        assert forall|i: int| 0 <= i < entries.len() implies got[i] == expected[i] by {
            if i < n {
                assert(got[i] == got_front[i]);
            }
        }
        assert(got =~= expected);
    } else {
        assert(mem_entries(bytes + tail, 0)->0 =~= expected);
    }
}

/// The bytes of a list of fence identifiers.
pub open spec fn fence_ids_bytes(ids: Seq<u64>) -> Seq<u8>
    decreases ids.len(),
{
    if ids.len() == 0 {
        Seq::empty()
    } else {
        fence_ids_bytes(ids.drop_last()) + le_bytes(ids.last() as nat, FENCE_ID_LEN as nat)
    }
}

/// The device waits for the fences that the guest listed: a list of identifiers, written out
/// and followed by anything, reads back as the same identifiers in the same order.
pub proof fn law_fence_ids_round_trip(ids: Seq<u64>, tail: Seq<u8>)
    ensures
        fence_ids(fence_ids_bytes(ids) + tail, ids.len()) == Some(ids),
        fence_ids_bytes(ids).len() == FENCE_ID_LEN * ids.len(),
    decreases ids.len(),
{
    let bytes = fence_ids_bytes(ids);
    if ids.len() > 0 {
        let front = ids.drop_last();
        let last_bytes = le_bytes(ids.last() as nat, FENCE_ID_LEN as nat);
        law_fence_ids_round_trip(front, last_bytes + tail);
        reveal_with_fuel(le_limit, 9);
        law_le_round_trip(ids.last() as nat, FENCE_ID_LEN as nat);
        assert(fence_ids_bytes(front) + (last_bytes + tail) =~= bytes + tail);
        let n = front.len() as int;
        assert((bytes + tail).subrange(FENCE_ID_LEN * n, FENCE_ID_LEN * n + FENCE_ID_LEN)
            =~= last_bytes);
        let got = fence_ids(bytes + tail, ids.len())->0;
        let got_front = fence_ids(bytes + tail, front.len())->0;
        assert forall|i: int| 0 <= i < ids.len() implies got[i] == ids[i] by {
            if i < n {
                assert(got[i] == got_front[i]);
            }
        }
        assert(got =~= ids);
    } else {
        assert(fence_ids(bytes + tail, 0)->0 =~= ids);
    }
}

/// A cursor over the bytes of a request. Its view is what has not been read yet.
pub struct Reader<'a> {
    rest: &'a [u8],
}

impl<'a> View for Reader<'a> {
    type V = Seq<u8>;

    closed spec fn view(&self) -> Seq<u8> {
        self.rest@
    }
}

impl<'a> Reader<'a> {
    /// Starts at the first of `bytes`.
    pub fn new(bytes: &'a [u8]) -> (r: Reader<'a>)
        ensures
            r@ == bytes@,
    {
        Reader { rest: bytes }
    }

    /// The number of bytes that are left.
    pub fn available_bytes(&self) -> (r: usize)
        ensures
            r == self@.len(),
    {
        self.rest.len()
    }

    /// Takes the next `n` bytes. Where fewer are left, none is taken.
    fn take(&mut self, n: usize) -> (r: Option<&'a [u8]>)
        ensures
            match r {
                Some(bytes) => {
                    &&& n <= old(self)@.len()
                    &&& bytes@ == old(self)@.take(n as int)
                    &&& final(self)@ == old(self)@.skip(n as int)
                },
                None => n > old(self)@.len() && final(self)@ == old(self)@,
            },
    {
        let len: usize = self.rest.len();
        if n <= len {
            let bytes = slice_subrange(self.rest, 0, n);
            self.rest = slice_subrange(self.rest, n, len);
            Some(bytes)
        } else {
            None
        }
    }

    /// Reads one guest memory entry: its address and its length. Where there is no whole entry
    /// left, nothing is read.
    pub fn read_mem_entry(&mut self) -> (r: Option<(u64, usize)>)
        ensures
            match r {
                Some(entry) => {
                    &&& MEM_ENTRY_LEN <= old(self)@.len()
                    &&& entry == mem_entry(old(self)@.take(MEM_ENTRY_LEN as int))
                    &&& final(self)@ == old(self)@.skip(MEM_ENTRY_LEN as int)
                },
                None => old(self)@.len() < MEM_ENTRY_LEN && final(self)@ == old(self)@,
            },
    {
        match self.take(MEM_ENTRY_LEN) {
            Some(bytes) => {
                let addr: u64 = le_u64(slice_subrange(bytes, 0, 8));
                let len: u64 = le_u64(slice_subrange(bytes, 8, 12));
                proof {
                    lemma_le_value_bound(bytes@.subrange(8, 12));
                    reveal_with_fuel(le_limit, 5);
                }
                Some((addr, len as usize))
            },
            None => None,
        }
    }

    /// Reads one fence identifier. Where there is no whole identifier left, nothing is read.
    pub fn read_fence_id(&mut self) -> (r: Option<u64>)
        ensures
            match r {
                Some(id) => {
                    &&& FENCE_ID_LEN <= old(self)@.len()
                    &&& id == le_value(old(self)@.take(FENCE_ID_LEN as int))
                    &&& final(self)@ == old(self)@.skip(FENCE_ID_LEN as int)
                },
                None => old(self)@.len() < FENCE_ID_LEN && final(self)@ == old(self)@,
            },
    {
        match self.take(FENCE_ID_LEN) {
            Some(bytes) => Some(le_u64(bytes)),
            None => None,
        }
    }

    /// Reads `n` bytes. Where fewer are left, nothing is read.
    pub fn read_exact(&mut self, n: usize) -> (r: Option<Vec<u8>>)
        ensures
            match r {
                Some(bytes) => {
                    &&& n <= old(self)@.len()
                    &&& bytes@ == old(self)@.take(n as int)
                    &&& final(self)@ == old(self)@.skip(n as int)
                },
                None => n > old(self)@.len() && final(self)@ == old(self)@,
            },
    {
        match self.take(n) {
            Some(bytes) => Some(slice_to_vec(bytes)),
            None => None,
        }
    }

    /// Reads `n` guest memory entries, up to the first that is not there whole.
    pub fn read_mem_entries(&mut self, n: u32) -> (r: Option<Vec<(u64, usize)>>)
        ensures
            match r {
                Some(entries) => {
                    &&& mem_entries(old(self)@, n as nat) == Some(entries@)
                    &&& final(self)@ == old(self)@.skip(MEM_ENTRY_LEN * n)
                },
                None => {
                    &&& mem_entries(old(self)@, n as nat) is None
                    &&& final(self)@ == old(self)@.skip(
                        old(self)@.len() - old(self)@.len() % MEM_ENTRY_LEN as nat,
                    )
                },
            },
    {
        let ghost start = self@;
        let mut entries: Vec<(u64, usize)> = Vec::new();
        let mut i: u32 = 0;
        assert(start.skip(0) =~= start);
        while i < n
            invariant
                i <= n,
                start == old(self)@,
                MEM_ENTRY_LEN * i <= start.len(),
                self@ == start.skip(MEM_ENTRY_LEN * i),
                entries@ == mem_entries(start, i as nat)->0,
            decreases n - i,
        {
            match self.read_mem_entry() {
                Some(entry) => {
                    proof {
                        let at = MEM_ENTRY_LEN * i;
                        assert(start.skip(at).take(MEM_ENTRY_LEN as int) =~= start.subrange(
                            at,
                            at + MEM_ENTRY_LEN,
                        ));
                        assert(start.skip(at).skip(MEM_ENTRY_LEN as int) =~= start.skip(
                            at + MEM_ENTRY_LEN,
                        ));
                        assert(mem_entries(start, (i + 1) as nat)->0 =~= mem_entries(
                            start,
                            i as nat,
                        )->0.push(entry));
                    }
                    entries.push(entry);
                },
                None => {
                    return None;
                },
            }
            i = i + 1;
        }
        Some(entries)
    }

    /// Reads `n` fence identifiers, up to the first that is not there whole.
    pub fn read_fence_ids(&mut self, n: u32) -> (r: Option<Vec<u64>>)
        ensures
            match r {
                Some(ids) => {
                    &&& fence_ids(old(self)@, n as nat) == Some(ids@)
                    &&& final(self)@ == old(self)@.skip(FENCE_ID_LEN * n)
                },
                None => {
                    &&& fence_ids(old(self)@, n as nat) is None
                    &&& final(self)@ == old(self)@.skip(
                        old(self)@.len() - old(self)@.len() % FENCE_ID_LEN as nat,
                    )
                },
            },
    {
        let ghost start = self@;
        let mut ids: Vec<u64> = Vec::new();
        let mut i: u32 = 0;
        assert(start.skip(0) =~= start);
        while i < n
            invariant
                i <= n,
                start == old(self)@,
                FENCE_ID_LEN * i <= start.len(),
                self@ == start.skip(FENCE_ID_LEN * i),
                ids@ == fence_ids(start, i as nat)->0,
            decreases n - i,
        {
            match self.read_fence_id() {
                Some(id) => {
                    proof {
                        let at = FENCE_ID_LEN * i;
                        assert(start.skip(at).take(FENCE_ID_LEN as int) =~= start.subrange(
                            at,
                            at + FENCE_ID_LEN,
                        ));
                        assert(start.skip(at).skip(FENCE_ID_LEN as int) =~= start.skip(
                            at + FENCE_ID_LEN,
                        ));
                        assert(fence_ids(start, (i + 1) as nat)->0 =~= fence_ids(
                            start,
                            i as nat,
                        )->0.push(id));
                    }
                    ids.push(id);
                },
                None => {
                    return None;
                },
            }
            i = i + 1;
        }
        Some(ids)
    }
}

/// The number in the eight bytes from `at` on, the least significant byte first.
pub open spec fn u64_at(bytes: Seq<u8>, at: int) -> int {
    bytes[at] + 0x100 * bytes[at + 1] + 0x1_0000 * bytes[at + 2] + 0x100_0000 * bytes[at + 3]
        + 0x1_0000_0000 * bytes[at + 4] + 0x100_0000_0000 * bytes[at + 5] + 0x1_0000_0000_0000
        * bytes[at + 6] + 0x100_0000_0000_0000 * bytes[at + 7]
}

/// The number in the four bytes from `at` on, the least significant byte first.
pub open spec fn u32_at(bytes: Seq<u8>, at: int) -> int {
    bytes[at] + 0x100 * bytes[at + 1] + 0x1_0000 * bytes[at + 2] + 0x100_0000 * bytes[at + 3]
}

proof fn lemma_le_value_step(bytes: Seq<u8>, k: int)
    requires
        0 <= k < bytes.len(),
    ensures
        le_value(bytes.skip(k)) == bytes[k] + 256 * le_value(bytes.skip(k + 1)),
{
    assert(bytes.skip(k).skip(1) =~= bytes.skip(k + 1));
}

/// What eight bytes hold.
pub proof fn lemma_fence_id_at(bytes: Seq<u8>, at: int)
    requires
        0 <= at,
        at + 8 <= bytes.len(),
    ensures
        le_value(bytes.subrange(at, at + 8)) == u64_at(bytes, at),
        u64_at(bytes, at) <= u64::MAX,
{
    let s = bytes.subrange(at, at + 8);
    assert(s.skip(0) =~= s);
    lemma_le_value_step(s, 0);
    lemma_le_value_step(s, 1);
    lemma_le_value_step(s, 2);
    lemma_le_value_step(s, 3);
    lemma_le_value_step(s, 4);
    lemma_le_value_step(s, 5);
    lemma_le_value_step(s, 6);
    lemma_le_value_step(s, 7);
    assert(s.skip(8).len() == 0);
}

/// What the sixteen bytes of a guest memory entry hold.
pub proof fn lemma_mem_entry_at(bytes: Seq<u8>, at: int)
    requires
        0 <= at,
        at + 16 <= bytes.len(),
    ensures
        mem_entry(bytes.subrange(at, at + 16)).0 == u64_at(bytes, at),
        mem_entry(bytes.subrange(at, at + 16)).1 == u32_at(bytes, at + 8),
{
    let entry = bytes.subrange(at, at + 16);
    lemma_fence_id_at(bytes, at);
    assert(entry.subrange(0, 8) =~= bytes.subrange(at, at + 8));
    let s = entry.subrange(8, 12);
    assert(s =~= bytes.subrange(at + 8, at + 12));
    assert(s.skip(0) =~= s);
    lemma_le_value_step(s, 0);
    lemma_le_value_step(s, 1);
    lemma_le_value_step(s, 2);
    lemma_le_value_step(s, 3);
    assert(s.skip(4).len() == 0);
}

/// One entry is read from the next sixteen bytes: an address from the first eight, a length
/// from the four behind them. Where sixteen are not left, nothing is read.
pub proof fn law_read_mem_entry<'a>(reader: &mut Reader<'a>, r: Option<(u64, usize)>)
    requires
        call_ensures(Reader::<'a>::read_mem_entry, (reader,), r),
    ensures
        r is Some <==> old(reader)@.len() >= 16,
        r matches Some(entry) ==> {
            &&& entry.0 == u64_at(old(reader)@, 0)
            &&& entry.1 == u32_at(old(reader)@, 8)
            &&& final(reader)@ == old(reader)@.skip(16)
        },
        r is None ==> final(reader)@ == old(reader)@,
{
    if r is Some {
        assert(old(reader)@.take(16) =~= old(reader)@.subrange(0, 16));
        lemma_mem_entry_at(old(reader)@, 0);
    }
}

/// One fence identifier is read from the next eight bytes. Where eight are not left, nothing is
/// read.
pub proof fn law_read_fence_id<'a>(reader: &mut Reader<'a>, r: Option<u64>)
    requires
        call_ensures(Reader::<'a>::read_fence_id, (reader,), r),
    ensures
        r is Some <==> old(reader)@.len() >= 8,
        r matches Some(id) ==> id == u64_at(old(reader)@, 0) && final(reader)@ == old(
            reader,
        )@.skip(8),
        r is None ==> final(reader)@ == old(reader)@,
{
    if r is Some {
        assert(old(reader)@.take(8) =~= old(reader)@.subrange(0, 8));
        lemma_fence_id_at(old(reader)@, 0);
    }
}

/// Bytes are read as they stand, all that were asked for or none, and what is read and what is
/// left make up what was there.
pub proof fn law_read_exact<'a>(reader: &mut Reader<'a>, n: usize, r: Option<Vec<u8>>)
    requires
        call_ensures(Reader::<'a>::read_exact, (reader, n), r),
    ensures
        r is Some <==> n <= old(reader)@.len(),
        r matches Some(bytes) ==> bytes@.len() == n && bytes@ + final(reader)@ == old(reader)@,
        r is None ==> final(reader)@ == old(reader)@,
{
    if let Some(bytes) = r {
        assert(bytes@ + final(reader)@ =~= old(reader)@);
    }
}

/// A reader starts with all the bytes that it is given, and tells how many there are.
pub proof fn law_readers_start_with_everything<'a>(bytes: &'a [u8], reader: Reader<'a>, left: usize)
    requires
        call_ensures(Reader::<'a>::new, (bytes,), reader),
        call_ensures(Reader::<'a>::available_bytes, (&reader,), left),
    ensures
        reader@ == bytes@,
        left == bytes@.len(),
{
}

/// A list of entries is read in the order in which it stands, sixteen bytes for each, and what
/// stands behind it is left. A list that is not there whole is refused, and read up to its last
/// whole entry.
pub proof fn law_read_mem_entries<'a>(
    reader: &mut Reader<'a>,
    n: u32,
    r: Option<Vec<(u64, usize)>>,
)
    requires
        call_ensures(Reader::<'a>::read_mem_entries, (reader, n), r),
    ensures
        r is Some <==> 16 * n <= old(reader)@.len(),
        r matches Some(entries) ==> {
            &&& entries@.len() == n
            &&& forall|i: int|
                0 <= i < n ==> {
                    &&& (#[trigger] entries@[i]).0 == u64_at(old(reader)@, 16 * i)
                    &&& entries@[i].1 == u32_at(old(reader)@, 16 * i + 8)
                }
            &&& final(reader)@ == old(reader)@.skip(16 * n)
        },
        r is None ==> {
            &&& final(reader)@.len() < 16
            &&& (old(reader)@.len() - final(reader)@.len()) % 16 == 0
            &&& final(reader)@ == old(reader)@.skip(old(reader)@.len() - final(reader)@.len())
        },
{
    if let Some(entries) = r {
        assert forall|i: int| 0 <= i < n implies {
            &&& (#[trigger] entries@[i]).0 == u64_at(old(reader)@, 16 * i)
            &&& entries@[i].1 == u32_at(old(reader)@, 16 * i + 8)
        } by {
            lemma_mem_entry_at(old(reader)@, 16 * i);
        }
    }
}

/// A list of fence identifiers is read in the order in which it stands, eight bytes for each,
/// and what stands behind it is left. A list that is not there whole is refused, and read up to
/// its last whole identifier.
pub proof fn law_read_fence_ids<'a>(reader: &mut Reader<'a>, n: u32, r: Option<Vec<u64>>)
    requires
        call_ensures(Reader::<'a>::read_fence_ids, (reader, n), r),
    ensures
        r is Some <==> 8 * n <= old(reader)@.len(),
        r matches Some(ids) ==> {
            &&& ids@.len() == n
            &&& forall|i: int| 0 <= i < n ==> #[trigger] ids@[i] == u64_at(old(reader)@, 8 * i)
            &&& final(reader)@ == old(reader)@.skip(8 * n)
        },
        r is None ==> {
            &&& final(reader)@.len() < 8
            &&& (old(reader)@.len() - final(reader)@.len()) % 8 == 0
            &&& final(reader)@ == old(reader)@.skip(old(reader)@.len() - final(reader)@.len())
        },
{
    if let Some(ids) = r {
        assert forall|i: int| 0 <= i < n implies #[trigger] ids@[i] == u64_at(
            old(reader)@,
            8 * i,
        ) by {
            lemma_fence_id_at(old(reader)@, 8 * i);
        }
    }
}

} // verus!
