//! The W25Q flash chip's status registers and the wait for it to go idle.

use vstd::prelude::*;
use vstd::arithmetic::power2::pow2;
use vstd::bits::{lemma_u8_shr_is_div, lemma_u8_shl_is_mul, lemma_u8_low_bits_mask_is_mod, lemma_u8_pow2_no_overflow, low_bits_mask};

verus! {

/// Bit `i` of `v`, bit 0 being the least significant.
pub open spec fn bit(v: u8, i: nat) -> bool {
    (v as nat / pow2(i)) % 2 == 1
}

/// Bits `lsb` to `msb` (both included) of `v`, read as a number.
pub open spec fn bits(v: u8, msb: nat, lsb: nat) -> u8 {
    ((v as nat / pow2(lsb)) % pow2((msb - lsb + 1) as nat)) as u8
}

fn read_bit(v: u8, i: u8) -> (b: bool)
    requires
        i < 8,
    ensures
        b == bit(v, i as nat),
{
    proof {
        lemma_u8_shr_is_div(v, i);
    }
    let shifted = v >> i;
    assert((shifted & 1 == 1) == (shifted % 2 == 1)) by (bit_vector);
    shifted & 1 == 1
}

fn read_bits(v: u8, msb: u8, lsb: u8) -> (r: u8)
    requires
        lsb <= msb < 8,
        msb - lsb + 1 < 8,
    ensures
        r == bits(v, msb as nat, lsb as nat),
{
    let width: u8 = msb - lsb + 1;
    proof {
        lemma_u8_shr_is_div(v, lsb);
        lemma_u8_pow2_no_overflow(width as nat);
        lemma_u8_shl_is_mul(1, width);
        lemma_u8_low_bits_mask_is_mod(v >> lsb, width as nat);
    }
    let mask: u8 = (1u8 << width) - 1;
    assert(mask == low_bits_mask(width as nat) as u8);
    (v >> lsb) & mask
}

/// Status register 1 of the flash chip.
#[derive(Clone, Copy, Debug, PartialEq, Eq, Structural)]
pub struct Status1(pub u8);

impl Status1 {
    /// An erase or a program is in progress.
    pub fn busy(&self) -> (b: bool)
        ensures
            b == bit(self.0, 0),
    {
        read_bit(self.0, 0)
    }

    /// The write-enable latch is set.
    pub fn write_en(&self) -> (b: bool)
        ensures
            b == bit(self.0, 1),
    {
        read_bit(self.0, 1)
    }

    /// The block-protect bits BP2..BP0.
    pub fn block_protect(&self) -> (r: u8)
        ensures
            r == bits(self.0, 4, 2),
    {
        read_bits(self.0, 4, 2)
    }

    /// Top/bottom protection.
    pub fn tb_protect(&self) -> (b: bool)
        ensures
            b == bit(self.0, 5),
    {
        read_bit(self.0, 5)
    }

    /// Sector/block protection.
    pub fn sector_block_protect(&self) -> (b: bool)
        ensures
            b == bit(self.0, 6),
    {
        read_bit(self.0, 6)
    }

    /// Status-register protect.
    pub fn srp(&self) -> (b: bool)
        ensures
            b == bit(self.0, 7),
    {
        read_bit(self.0, 7)
    }
}

/// Status register 2 of the flash chip.
#[derive(Clone, Copy, Debug, PartialEq, Eq, Structural)]
pub struct Status2(pub u8);

impl Status2 {
    /// The status registers are locked.
    pub fn sr_lock(&self) -> (b: bool)
        ensures
            b == bit(self.0, 0),
    {
        read_bit(self.0, 0)
    }

    /// Quad SPI mode is enabled.
    pub fn quad_en(&self) -> (b: bool)
        ensures
            b == bit(self.0, 1),
    {
        read_bit(self.0, 1)
    }

    /// The security-register lock bits LB3..LB1.
    pub fn lock_bits(&self) -> (r: u8)
        ensures
            r == bits(self.0, 5, 3),
    {
        read_bits(self.0, 5, 3)
    }

    /// Complement protection.
    pub fn cmp_protect(&self) -> (b: bool)
        ensures
            b == bit(self.0, 6),
    {
        read_bit(self.0, 6)
    }

    /// An erase or a program is suspended.
    pub fn suspend(&self) -> (b: bool)
        ensures
            b == bit(self.0, 7),
    {
        read_bit(self.0, 7)
    }
}

/// Which status register to read next.
#[derive(Clone, Copy, Debug, PartialEq, Eq, Structural)]
pub enum StatusQuery {
    /// Status register 1 (the `ReadStatus` command).
    Status1,
    /// Status register 2 (the `ReadStatus2` command).
    Status2,
}

/// Waiting for the chip: first until no write is in progress, then until
/// no write or erase is suspended.
#[derive(Clone, Copy, Debug, PartialEq, Eq, Structural)]
pub enum ReadyWait {
    /// Polling status register 1 until the busy bit clears.
    AwaitIdle,
    /// Polling status register 2 until the suspend bit clears.
    AwaitResume,
    /// The chip is ready.
    Ready,
}

/// The wait after one more status reading.
pub open spec fn spec_feed(w: ReadyWait, status: u8) -> ReadyWait {
    match w {
        ReadyWait::AwaitIdle => if bit(status, 0) { ReadyWait::AwaitIdle } else { ReadyWait::AwaitResume },
        ReadyWait::AwaitResume => if bit(status, 7) { ReadyWait::AwaitResume } else { ReadyWait::Ready },
        ReadyWait::Ready => ReadyWait::Ready,
    }
}

/// The register that the wait reads next, if it is not over.
pub open spec fn spec_query(w: ReadyWait) -> Option<StatusQuery> {
    match w {
        ReadyWait::AwaitIdle => Some(StatusQuery::Status1),
        ReadyWait::AwaitResume => Some(StatusQuery::Status2),
        ReadyWait::Ready => None,
    }
}

/// The wait after a series of readings, each of the register it asked for.
pub open spec fn settle(w: ReadyWait, readings: Seq<u8>) -> ReadyWait
    decreases readings.len(),
{
    if readings.len() == 0 {
        w
    } else {
        spec_feed(settle(w, readings.drop_last()), readings.last())
    }
}

impl ReadyWait {
    /// A new wait: it starts by polling status register 1.
    pub fn start() -> (w: ReadyWait)
        ensures
            w == ReadyWait::AwaitIdle,
    {
        ReadyWait::AwaitIdle
    }

    /// The register to read next, or `None` once the chip is ready.
    pub fn query(&self) -> (q: Option<StatusQuery>)
        ensures
            q == spec_query(*self),
    {
        match self {
            ReadyWait::AwaitIdle => Some(StatusQuery::Status1),
            ReadyWait::AwaitResume => Some(StatusQuery::Status2),
            ReadyWait::Ready => None,
        }
    }

    /// Take in the value read from the register that `query` named.
    pub fn feed(self, status: u8) -> (w: ReadyWait)
        ensures
            w == spec_feed(self, status),
    {
        match self {
            ReadyWait::AwaitIdle => if Status1(status).busy() {
                ReadyWait::AwaitIdle
            } else {
                ReadyWait::AwaitResume
            },
            ReadyWait::AwaitResume => if Status2(status).suspend() {
                ReadyWait::AwaitResume
            } else {
                ReadyWait::Ready
            },
            ReadyWait::Ready => ReadyWait::Ready,
        }
    }
}

/// Every reading before index `k` shows the chip busy, and reading `k`
/// shows it idle.
pub open spec fn idle_at(readings: Seq<u8>, k: int) -> bool {
    &&& 0 <= k < readings.len()
    &&& forall|m: int| 0 <= m < k ==> bit(#[trigger] readings[m], 0)
    &&& !bit(readings[k], 0)
}

/// After the chip went idle at reading `k`, every reading before `l` shows
/// a suspended write or erase, and reading `l` shows none.
pub open spec fn resumed_at(readings: Seq<u8>, k: int, l: int) -> bool {
    &&& idle_at(readings, k)
    &&& k < l < readings.len()
    &&& forall|m: int| k < m < l ==> bit(#[trigger] readings[m], 7)
    &&& !bit(readings[l], 7)
}

/// The readings show the chip going idle and then leaving suspension.
pub open spec fn polls_to_ready(readings: Seq<u8>) -> bool {
    exists|k: int, l: int| resumed_at(readings, k, l)
}

proof fn lemma_settle_phases(r: Seq<u8>)
    ensures
        settle(ReadyWait::AwaitIdle, r) == ReadyWait::AwaitIdle <==> (forall|m: int|
            0 <= m < r.len() ==> bit(#[trigger] r[m], 0)),
        settle(ReadyWait::AwaitIdle, r) == ReadyWait::AwaitResume <==> (exists|k: int|
            idle_at(r, k) && forall|m: int| k < m < r.len() ==> bit(#[trigger] r[m], 7)),
        settle(ReadyWait::AwaitIdle, r) == ReadyWait::Ready <==> polls_to_ready(r),
    decreases r.len(),
{
    if r.len() == 0 {
        assert(forall|m: int| 0 <= m < r.len() ==> bit(#[trigger] r[m], 0));
    } else {
        let p = r.drop_last();
        let x = r.last();
        let n = r.len() - 1;
        lemma_settle_phases(p);
        assert(forall|m: int| 0 <= m < n ==> #[trigger] r[m] == p[m]);
        let prev = settle(ReadyWait::AwaitIdle, p);
        let now = settle(ReadyWait::AwaitIdle, r);
        // which phase was reached before the last reading
        if prev == ReadyWait::AwaitIdle {
            assert(forall|m: int| 0 <= m < n ==> bit(#[trigger] r[m], 0)) by {
                assert forall|m: int| 0 <= m < n implies bit(#[trigger] r[m], 0) by {
                    assert(bit(p[m], 0));
                }
            }
            if bit(x, 0) {
                assert(now == ReadyWait::AwaitIdle);
                assert forall|k: int| !idle_at(r, k) by {
                    if idle_at(r, k) {
                        assert(bit(r[k], 0));
                    }
                }
                assert forall|k: int, l: int| !resumed_at(r, k, l) by {
                    assert(!idle_at(r, k));
                }
            } else {
                assert(now == ReadyWait::AwaitResume);
                assert(idle_at(r, n));
                assert(!bit(r[n], 0));
                assert forall|k: int, l: int| !resumed_at(r, k, l) by {
                    if resumed_at(r, k, l) {
                        assert(l < r.len());
                        assert(k < n);
                        assert(bit(r[k], 0));
                    }
                }
            }
        } else if prev == ReadyWait::AwaitResume {
            let k = choose|k: int| idle_at(p, k) && forall|m: int| k < m < p.len() ==> bit(#[trigger] p[m], 7);
            assert(idle_at(r, k)) by {
                assert forall|m: int| 0 <= m < k implies bit(#[trigger] r[m], 0) by {
                    assert(bit(p[m], 0));
                }
            }
            assert(!bit(r[k], 0));
            if bit(x, 7) {
                assert(now == ReadyWait::AwaitResume);
                assert forall|m: int| k < m < r.len() implies bit(#[trigger] r[m], 7) by {
                    if m < n {
                        assert(bit(p[m], 7));
                    }
                }
                assert forall|k2: int, l: int| !resumed_at(r, k2, l) by {
                    if resumed_at(r, k2, l) {
                        if k2 < k {
                            assert(bit(r[k2], 0));
                        } else if k < k2 {
                            assert(bit(r[k], 0));
                        } else {
                            if l < n {
                                assert(bit(p[l], 7));
                            }
                        }
                    }
                }
            } else {
                assert(now == ReadyWait::Ready);
                assert forall|m: int| k < m < n implies bit(#[trigger] r[m], 7) by {
                    assert(bit(p[m], 7));
                }
                assert(resumed_at(r, k, n));
            }
        } else {
            let (k, l) = choose|k: int, l: int| resumed_at(p, k, l);
            assert(now == ReadyWait::Ready);
            assert(resumed_at(r, k, l)) by {
                assert forall|m: int| 0 <= m < k implies bit(#[trigger] r[m], 0) by {
                    assert(bit(p[m], 0));
                }
                assert forall|m: int| k < m < l implies bit(#[trigger] r[m], 7) by {
                    assert(bit(p[m], 7));
                }
            }
        }
        // the converse directions: a reading pattern determines the phase
        if forall|m: int| 0 <= m < r.len() ==> bit(#[trigger] r[m], 0) {
            assert forall|m: int| 0 <= m < p.len() implies bit(#[trigger] p[m], 0) by {
                assert(bit(r[m], 0));
            }
            assert(bit(r[n], 0));
        }
        if exists|k: int| idle_at(r, k) && forall|m: int| k < m < r.len() ==> bit(#[trigger] r[m], 7) {
            let k = choose|k: int| idle_at(r, k) && forall|m: int| k < m < r.len() ==> bit(#[trigger] r[m], 7);
            if k < n {
                assert(idle_at(p, k)) by {
                    assert forall|m: int| 0 <= m < k implies bit(#[trigger] p[m], 0) by {
                        assert(bit(r[m], 0));
                    }
                }
                assert forall|m: int| k < m < p.len() implies bit(#[trigger] p[m], 7) by {
                    assert(bit(r[m], 7));
                }
                assert(bit(r[n], 7));
            } else {
                assert forall|m: int| 0 <= m < p.len() implies bit(#[trigger] p[m], 0) by {
                    assert(bit(r[m], 0));
                }
            }
        }
        if polls_to_ready(r) {
            let (k, l) = choose|k: int, l: int| resumed_at(r, k, l);
            if l < n {
                assert(resumed_at(p, k, l)) by {
                    assert forall|m: int| 0 <= m < k implies bit(#[trigger] p[m], 0) by {
                        assert(bit(r[m], 0));
                    }
                    assert forall|m: int| k < m < l implies bit(#[trigger] p[m], 7) by {
                        assert(bit(r[m], 7));
                    }
                }
            } else {
                assert(idle_at(p, k)) by {
                    assert forall|m: int| 0 <= m < k implies bit(#[trigger] p[m], 0) by {
                        assert(bit(r[m], 0));
                    }
                }
                assert forall|m: int| k < m < p.len() implies bit(#[trigger] p[m], 7) by {
                    assert(bit(r[m], 7));
                }
            }
        }
    }
}

/// Law: polling from the start, the wait is over exactly when the readings
/// have shown the chip idle (busy clear in status register 1) and, after
/// that, no longer suspended (suspend clear in status register 2).
pub proof fn lemma_ready_exactly_when_idle_and_resumed(readings: Seq<u8>)
    ensures
        settle(ReadyWait::AwaitIdle, readings) == ReadyWait::Ready <==> polls_to_ready(readings),
{
    lemma_settle_phases(readings);
}

} // verus!
