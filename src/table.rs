use crate::command::call_result;
use crate::error::SwapError;
use vstd::prelude::*;

verus! {

/// How many slots the listing table reserves. Only zero or one swap device
/// is expected on a system; more than this is an anomaly that the listing
/// reports instead of truncating silently.
pub const N_SWAPENTS: usize = 3;

/// Relies on `libc::PATH_MAX`: the longest path of the target platform, a
/// positive constant on every target that libc defines it for. It sizes the
/// buffer into which the kernel writes a swap device's path.
#[verifier::external_body]
fn path_max() -> (r: usize)
    ensures
        r > 0,
{
    libc::PATH_MAX as usize
}

/// One slot of the listing table: a path buffer that the kernel fills with a
/// null-terminated path, and the extent and usage of the swap area.
#[allow(non_camel_case_types)]
#[derive(Debug, Clone)]
pub struct swapent {
    pub ste_path: Vec<u8>,
    pub ste_start: libc::off_t,
    pub ste_length: libc::off_t,
    pub ste_pages: libc::c_long,
    pub ste_free: libc::c_long,
    pub ste_flags: libc::c_long,
}

/// The listing request: the number of slots offered and the slots.
#[allow(non_camel_case_types)]
#[derive(Debug, Clone)]
pub struct swaptbl {
    pub swt_n: i32,
    pub swt_ent: Vec<swapent>,
}

/// A swap device as read back from a filled slot, with its path owned.
#[derive(Debug, Clone, PartialEq, Eq)]
pub struct SwapDevice {
    pub path: Vec<u8>,
    pub start: libc::off_t,
    pub length: libc::off_t,
    pub pages: libc::c_long,
    pub free: libc::c_long,
    pub flags: libc::c_long,
}

/// `n` is the index of the first null byte of `buf`.
pub open spec fn nul_at(buf: Seq<u8>, n: int) -> bool {
    &&& 0 <= n < buf.len()
    &&& buf[n] == 0
    &&& forall|j: int| 0 <= j < n ==> buf[j] != 0
}

/// `p` is the null-terminated string at the start of `buf`.
pub open spec fn c_string_of(buf: Seq<u8>, p: Seq<u8>) -> bool {
    nul_at(buf, p.len() as int) && p == buf.take(p.len() as int)
}

/// A slot holds a usable path: a non-empty string ended by a null byte
/// inside the buffer.
pub open spec fn slot_ok(e: swapent) -> bool {
    exists|n: int| 0 < n && nul_at(e.ste_path@, n)
}

/// A slot as the table is built, before the kernel writes to it.
pub open spec fn blank_slot(e: swapent) -> bool {
    &&& e.ste_path@.len() > 0
    &&& forall|j: int| 0 <= j < e.ste_path@.len() ==> e.ste_path@[j] == 0
    &&& e.ste_start == 0
    &&& e.ste_length == 0
    &&& e.ste_pages == 0
    &&& e.ste_free == 0
    &&& e.ste_flags == 0
}

/// `d` is what slot `e` holds.
pub open spec fn device_of(d: SwapDevice, e: swapent) -> bool {
    &&& c_string_of(e.ste_path@, d.path@)
    &&& d.start == e.ste_start
    &&& d.length == e.ste_length
    &&& d.pages == e.ste_pages
    &&& d.free == e.ste_free
    &&& d.flags == e.ste_flags
}

/// `v` holds, in order, what the first `n` slots of `ents` hold.
pub open spec fn devices_of(v: Seq<SwapDevice>, ents: Seq<swapent>, n: int) -> bool {
    &&& v.len() == n
    &&& forall|i: int| 0 <= i < n ==> device_of(#[trigger] v[i], ents[i])
}

proof fn lemma_nul_unique(buf: Seq<u8>, a: int, b: int)
    requires
        nul_at(buf, a),
        nul_at(buf, b),
    ensures
        a == b,
{
    if a < b {
        assert(buf[a] == 0);
    } else if b < a {
        assert(buf[b] == 0);
    }
}

impl Default for swapent {
    /// A blank slot whose zeroed path buffer holds the platform's longest path.
    fn default() -> (r: swapent)
        ensures
            blank_slot(r),
    {
        swapent::blank(path_max())
    }
}

impl swapent {
    /// A blank slot with a zeroed path buffer of `len` bytes.
    pub fn blank(len: usize) -> (r: swapent)
        requires
            len > 0,
        ensures
            blank_slot(r),
            r.ste_path@.len() == len,
    {
        let mut path: Vec<u8> = Vec::new();
        let mut i: usize = 0;
        while i < len
            invariant
                i <= len,
                path@.len() == i,
                forall|j: int| 0 <= j < i ==> path@[j] == 0,
            decreases len - i,
        {
            path.push(0);
            i = i + 1;
        }
        swapent { ste_path: path, ste_start: 0, ste_length: 0, ste_pages: 0, ste_free: 0, ste_flags: 0 }
    }

    /// The swap device this slot holds, or `None` where its path buffer holds
    /// no null byte or an empty path.
    pub fn device(&self) -> (r: Option<SwapDevice>)
        ensures
            r is Some <==> slot_ok(*self),
            r matches Some(d) ==> device_of(d, *self) && d.path@.len() > 0,
    {
        let buf = &self.ste_path;
        let mut n: usize = 0;
        while n < buf.len() && buf[n] != 0
            invariant
                n <= buf@.len(),
                forall|j: int| 0 <= j < n ==> buf@[j] != 0,
            decreases buf@.len() - n,
        {
            n = n + 1;
        }
        if n == buf.len() {
            assert forall|k: int| 0 < k implies !nul_at(buf@, k) by {
                if nul_at(buf@, k) {
                    assert(buf@[k] != 0);
                }
            }
            return None;
        }
        assert(nul_at(buf@, n as int));
        if n == 0 {
            assert forall|k: int| 0 < k implies !nul_at(buf@, k) by {
                if nul_at(buf@, k) {
                    lemma_nul_unique(buf@, k, 0);
                }
            }
            return None;
        }
        let mut path: Vec<u8> = Vec::new();
        let mut i: usize = 0;
        while i < n
            invariant
                i <= n,
                n < buf@.len(),
                path@ == buf@.take(i as int),
            decreases n - i,
        {
            path.push(buf[i]);
            i = i + 1;
            assert(path@ =~= buf@.take(i as int));
        }
        Some(
            SwapDevice {
                path,
                start: self.ste_start,
                length: self.ste_length,
                pages: self.ste_pages,
                free: self.ste_free,
                flags: self.ste_flags,
            },
        )
    }
}

/// How many slots of a table of `cap` slots hold devices after a listing
/// call that returned `n`.
pub open spec fn filled_slots(n: u32, cap: int) -> int {
    if n as int <= cap { n as int } else { cap }
}

/// How many devices the system has by the count call (`total`) and by the
/// listing call (`n`), whichever says more.
pub open spec fn reported_devices(total: u32, n: u32) -> u32 {
    if total >= n { total } else { n }
}

/// Slot `i` is the first of the first `n` slots of `ents` without a usable path.
pub open spec fn first_bad_slot(ents: Seq<swapent>, n: int, i: int) -> bool {
    &&& 0 <= i < n
    &&& !slot_ok(ents[i])
    &&& forall|j: int| 0 <= j < i ==> slot_ok(#[trigger] ents[j])
}

/// What reading table `t` after a listing call gives, where `total` is the
/// device count of the count call and `ret` / `errno` what the listing call
/// returned. A failed call gives its error. Otherwise the kernel's count
/// field `swt_n` must agree with the returned count, else `CountMismatch`.
/// Then the first filled slot without a usable path gives `MalformedEntry`;
/// then, where more devices are reported than `t` has slots,
/// `TooManyDevices` carries the devices read; else they are the result.
pub open spec fn listing_outcome(
    t: swaptbl,
    total: u32,
    ret: i32,
    errno: i32,
    r: Result<Vec<SwapDevice>, SwapError>,
) -> bool {
    if ret == -1 {
        r == Err::<Vec<SwapDevice>, SwapError>(SwapError::Os(errno))
    } else if t.swt_n != ret {
        r == Err::<Vec<SwapDevice>, SwapError>(
            SwapError::CountMismatch { returned: ret, recorded: t.swt_n },
        )
    } else {
        let n = filled_slots(#[verifier::truncate] (ret as u32), t.capacity());
        let all = reported_devices(total, #[verifier::truncate] (ret as u32));
        let ok = forall|i: int| 0 <= i < n ==> slot_ok(#[trigger] t.swt_ent@[i]);
        &&& !ok ==> (r matches Err(SwapError::MalformedEntry(i)) && first_bad_slot(t.swt_ent@, n, i as int))
        &&& ok && all > t.capacity() ==> (r matches Err(SwapError::TooManyDevices { total: a, capacity: c, listed: v })
            && a == all && c == t.capacity() && devices_of(v@, t.swt_ent@, n))
        &&& ok && all <= t.capacity() ==> (r matches Ok(v) && devices_of(v@, t.swt_ent@, n))
    }
}

/// A listing that succeeds holds no more devices than the table has slots.
pub proof fn lemma_listing_within_capacity(
    t: swaptbl,
    total: u32,
    ret: i32,
    errno: i32,
    r: Result<Vec<SwapDevice>, SwapError>,
)
    requires
        listing_outcome(t, total, ret, errno, r),
    ensures
        r matches Ok(v) ==> v@.len() <= t.capacity(),
{
}

/// Where the count call reports more devices than the table has slots, the
/// listing never succeeds; once the call went through with a count that
/// the table's count field agrees with, and the filled slots are readable,
/// the result is `TooManyDevices`, with a total of at least
/// the count and the table's capacity.
pub proof fn lemma_listing_flags_excess(
    t: swaptbl,
    total: u32,
    ret: i32,
    errno: i32,
    r: Result<Vec<SwapDevice>, SwapError>,
)
    requires
        listing_outcome(t, total, ret, errno, r),
        total > t.capacity(),
    ensures
        !(r is Ok),
        ret != -1 && t.swt_n == ret && (forall|i: int|
            0 <= i < filled_slots(#[verifier::truncate] (ret as u32), t.capacity()) ==> slot_ok(
                #[trigger] t.swt_ent@[i],
            )) ==> (r matches Err(SwapError::TooManyDevices { total: a, capacity: c, listed: _ })
            && a >= total && c == t.capacity()),
{
}

/// A table of `k` slots, listed on a system with exactly `k` devices whose
/// paths and count the kernel wrote into the table, gives exactly `k`
/// devices, each with a non-empty path.
pub proof fn lemma_listing_round_trip(
    t: swaptbl,
    k: u32,
    errno: i32,
    r: Result<Vec<SwapDevice>, SwapError>,
)
    requires
        k <= N_SWAPENTS,
        t.capacity() == k,
        t.swt_n == k,
        forall|i: int| 0 <= i < k ==> slot_ok(#[trigger] t.swt_ent@[i]),
        listing_outcome(t, k, k as i32, errno, r),
    ensures
        r matches Ok(v) && v@.len() == k && forall|i: int|
            0 <= i < k ==> (#[trigger] v@[i]).path@.len() > 0,
{
    let v = r->Ok_0;
    assert forall|i: int| 0 <= i < k implies (#[trigger] v@[i]).path@.len() > 0 by {
        let e = t.swt_ent@[i];
        assert(device_of(v@[i], e));
        let m = choose|m: int| 0 < m && nul_at(e.ste_path@, m);
        lemma_nul_unique(e.ste_path@, m, v@[i].path@.len() as int);
    }
}

impl swaptbl {
    /// The number of slots the table offers.
    pub open spec fn capacity(&self) -> int {
        self.swt_ent@.len() as int
    }

    /// A table as handed to the listing call: `swt_n` says how many slots it
    /// offers, and each slot is blank.
    pub open spec fn fresh(&self, k: int) -> bool {
        &&& self.swt_n == k
        &&& self.swt_ent@.len() == k
        &&& forall|i: int| 0 <= i < k ==> blank_slot(#[trigger] self.swt_ent@[i])
    }

    /// A listing table of `k` slots.
    pub fn with_capacity(k: usize) -> (r: swaptbl)
        requires
            k <= N_SWAPENTS,
        ensures
            r.fresh(k as int),
    {
        let mut ents: Vec<swapent> = Vec::new();
        let mut i: usize = 0;
        while i < k
            invariant
                i <= k,
                ents@.len() == i,
                forall|j: int| 0 <= j < i ==> blank_slot(#[trigger] ents@[j]),
            decreases k - i,
        {
            ents.push(swapent::default());
            i = i + 1;
        }
        swaptbl { swt_n: k as i32, swt_ent: ents }
    }

    /// A listing table of `N_SWAPENTS` slots.
    pub fn new() -> (r: swaptbl)
        ensures
            r.fresh(N_SWAPENTS as int),
    {
        swaptbl::with_capacity(N_SWAPENTS)
    }

    /// Reads this table after the listing call filled it. `total` is the
    /// device count that the count call gave; `ret` and `errno` are what the
    /// listing call returned.
    ///
    /// A failed call gives its platform error, and a count field that
    /// disagrees with the returned count gives `CountMismatch`. Otherwise
    /// the filled slots are read in order into owned devices, and a slot
    /// without a usable path gives `MalformedEntry`. Where the system has more devices than
    /// the table has slots, the devices read are handed back inside
    /// `TooManyDevices`, never as a plain success.
    pub fn listing(&self, total: u32, ret: i32, errno: i32) -> (r: Result<Vec<SwapDevice>, SwapError>)
        ensures
            listing_outcome(*self, total, ret, errno, r),
    {
        let n = match call_result(ret, errno) {
            Ok(n) => n,
            Err(e) => {
                return Err(e);
            },
        };
        if self.swt_n != ret {
            return Err(SwapError::CountMismatch { returned: ret, recorded: self.swt_n });
        }
        let cap = self.swt_ent.len();
        let filled: usize = if (n as usize) <= cap {
            n as usize
        } else {
            cap
        };
        let mut devs: Vec<SwapDevice> = Vec::new();
        let mut i: usize = 0;
        while i < filled
            invariant
                ret != -1,
                self.swt_n == ret,
                n == ret as u32,
                filled as int == filled_slots(n, cap as int),
                filled <= cap,
                cap == self.swt_ent@.len(),
                i <= filled,
                forall|j: int| 0 <= j < i ==> slot_ok(#[trigger] self.swt_ent@[j]),
                devices_of(devs@, self.swt_ent@, i as int),
            decreases filled - i,
        {
            match self.swt_ent[i].device() {
                Some(d) => {
                    devs.push(d);
                },
                None => {
                    assert(first_bad_slot(self.swt_ent@, filled as int, i as int));
                    return Err(SwapError::MalformedEntry(i));
                },
            }
            i = i + 1;
        }
        let all: u32 = if total >= n {
            total
        } else {
            n
        };
        if (all as usize) > cap {
            Err(SwapError::TooManyDevices { total: all, capacity: cap, listed: devs })
        } else {
            Ok(devs)
        }
    }
}

} // verus!
