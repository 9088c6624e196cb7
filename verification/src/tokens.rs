use vstd::prelude::*;

verus! {

/// Identity of one physical peripheral block: the core-facility blocks,
/// the two GPIO ports, the bus controllers, and the remaining device
/// blocks (timers, radio, random-number generator, and so on).
#[derive(Clone, Copy, PartialEq, Eq, Structural, Debug)]
pub enum PeripheralId {
    // Core-facility blocks.
    Cbp, Cpuid, Dcb, Dwt, Fpb, Fpu,
    Itm, Mpu, Nvic, Scb, Syst, Tpiu,
    // GPIO port blocks; consumed when their pins are claimed.
    P0, P1,
    // Bus controller blocks; consumed by the bus handles.
    Uarte0, Spim2,
    // Device blocks handed to the caller untouched.
    Ficr, Uicr, Acl, Power, Clock, Radio,
    Uart0, Spim0, Spis0, Twim0, Twis0, Spi0,
    Twi0, Spim1, Spis1, Twim1, Twis1, Spi1,
    Twi1, Nfct, Gpiote, Saadc, Timer0, Timer1,
    Timer2, Rtc0, Temp, Rng, Ecb, Ccm,
    Aar, Wdt, Rtc1, Qdec, Comp, Lpcomp,
    Swi0, Egu0, Swi1, Egu1, Swi2, Egu2,
    Swi3, Egu3, Swi4, Egu4, Swi5, Egu5,
    Timer3, Timer4, Pwm0, Pdm, Nvmc, Ppi,
    Mwu, Pwm1, Pwm2, Rtc2, I2s,
}

/// A fixed numbering of the peripheral blocks: the core-facility blocks
/// occupy positions `0..12` and the device blocks positions `12..75`.
pub open spec fn index_of_id(id: PeripheralId) -> int {
    match id {
        PeripheralId::Cbp => 0,
        PeripheralId::Cpuid => 1,
        PeripheralId::Dcb => 2,
        PeripheralId::Dwt => 3,
        PeripheralId::Fpb => 4,
        PeripheralId::Fpu => 5,
        PeripheralId::Itm => 6,
        PeripheralId::Mpu => 7,
        PeripheralId::Nvic => 8,
        PeripheralId::Scb => 9,
        PeripheralId::Syst => 10,
        PeripheralId::Tpiu => 11,
        PeripheralId::P0 => 12,
        PeripheralId::P1 => 13,
        PeripheralId::Uarte0 => 14,
        PeripheralId::Spim2 => 15,
        PeripheralId::Ficr => 16,
        PeripheralId::Uicr => 17,
        PeripheralId::Acl => 18,
        PeripheralId::Power => 19,
        PeripheralId::Clock => 20,
        PeripheralId::Radio => 21,
        PeripheralId::Uart0 => 22,
        PeripheralId::Spim0 => 23,
        PeripheralId::Spis0 => 24,
        PeripheralId::Twim0 => 25,
        PeripheralId::Twis0 => 26,
        PeripheralId::Spi0 => 27,
        PeripheralId::Twi0 => 28,
        PeripheralId::Spim1 => 29,
        PeripheralId::Spis1 => 30,
        PeripheralId::Twim1 => 31,
        PeripheralId::Twis1 => 32,
        PeripheralId::Spi1 => 33,
        PeripheralId::Twi1 => 34,
        PeripheralId::Nfct => 35,
        PeripheralId::Gpiote => 36,
        PeripheralId::Saadc => 37,
        PeripheralId::Timer0 => 38,
        PeripheralId::Timer1 => 39,
        PeripheralId::Timer2 => 40,
        PeripheralId::Rtc0 => 41,
        PeripheralId::Temp => 42,
        PeripheralId::Rng => 43,
        PeripheralId::Ecb => 44,
        PeripheralId::Ccm => 45,
        PeripheralId::Aar => 46,
        PeripheralId::Wdt => 47,
        PeripheralId::Rtc1 => 48,
        PeripheralId::Qdec => 49,
        PeripheralId::Comp => 50,
        PeripheralId::Lpcomp => 51,
        PeripheralId::Swi0 => 52,
        PeripheralId::Egu0 => 53,
        PeripheralId::Swi1 => 54,
        PeripheralId::Egu1 => 55,
        PeripheralId::Swi2 => 56,
        PeripheralId::Egu2 => 57,
        PeripheralId::Swi3 => 58,
        PeripheralId::Egu3 => 59,
        PeripheralId::Swi4 => 60,
        PeripheralId::Egu4 => 61,
        PeripheralId::Swi5 => 62,
        PeripheralId::Egu5 => 63,
        PeripheralId::Timer3 => 64,
        PeripheralId::Timer4 => 65,
        PeripheralId::Pwm0 => 66,
        PeripheralId::Pdm => 67,
        PeripheralId::Nvmc => 68,
        PeripheralId::Ppi => 69,
        PeripheralId::Mwu => 70,
        PeripheralId::Pwm1 => 71,
        PeripheralId::Pwm2 => 72,
        PeripheralId::Rtc2 => 73,
        PeripheralId::I2s => 74,
    }
}

/// The peripheral block at a given position of the numbering.
pub open spec fn id_at(i: int) -> PeripheralId {
    if i == 0 {
        PeripheralId::Cbp
    } else if i == 1 {
        PeripheralId::Cpuid
    } else if i == 2 {
        PeripheralId::Dcb
    } else if i == 3 {
        PeripheralId::Dwt
    } else if i == 4 {
        PeripheralId::Fpb
    } else if i == 5 {
        PeripheralId::Fpu
    } else if i == 6 {
        PeripheralId::Itm
    } else if i == 7 {
        PeripheralId::Mpu
    } else if i == 8 {
        PeripheralId::Nvic
    } else if i == 9 {
        PeripheralId::Scb
    } else if i == 10 {
        PeripheralId::Syst
    } else if i == 11 {
        PeripheralId::Tpiu
    } else if i == 12 {
        PeripheralId::P0
    } else if i == 13 {
        PeripheralId::P1
    } else if i == 14 {
        PeripheralId::Uarte0
    } else if i == 15 {
        PeripheralId::Spim2
    } else if i == 16 {
        PeripheralId::Ficr
    } else if i == 17 {
        PeripheralId::Uicr
    } else if i == 18 {
        PeripheralId::Acl
    } else if i == 19 {
        PeripheralId::Power
    } else if i == 20 {
        PeripheralId::Clock
    } else if i == 21 {
        PeripheralId::Radio
    } else if i == 22 {
        PeripheralId::Uart0
    } else if i == 23 {
        PeripheralId::Spim0
    } else if i == 24 {
        PeripheralId::Spis0
    } else if i == 25 {
        PeripheralId::Twim0
    } else if i == 26 {
        PeripheralId::Twis0
    } else if i == 27 {
        PeripheralId::Spi0
    } else if i == 28 {
        PeripheralId::Twi0
    } else if i == 29 {
        PeripheralId::Spim1
    } else if i == 30 {
        PeripheralId::Spis1
    } else if i == 31 {
        PeripheralId::Twim1
    } else if i == 32 {
        PeripheralId::Twis1
    } else if i == 33 {
        PeripheralId::Spi1
    } else if i == 34 {
        PeripheralId::Twi1
    } else if i == 35 {
        PeripheralId::Nfct
    } else if i == 36 {
        PeripheralId::Gpiote
    } else if i == 37 {
        PeripheralId::Saadc
    } else if i == 38 {
        PeripheralId::Timer0
    } else if i == 39 {
        PeripheralId::Timer1
    } else if i == 40 {
        PeripheralId::Timer2
    } else if i == 41 {
        PeripheralId::Rtc0
    } else if i == 42 {
        PeripheralId::Temp
    } else if i == 43 {
        PeripheralId::Rng
    } else if i == 44 {
        PeripheralId::Ecb
    } else if i == 45 {
        PeripheralId::Ccm
    } else if i == 46 {
        PeripheralId::Aar
    } else if i == 47 {
        PeripheralId::Wdt
    } else if i == 48 {
        PeripheralId::Rtc1
    } else if i == 49 {
        PeripheralId::Qdec
    } else if i == 50 {
        PeripheralId::Comp
    } else if i == 51 {
        PeripheralId::Lpcomp
    } else if i == 52 {
        PeripheralId::Swi0
    } else if i == 53 {
        PeripheralId::Egu0
    } else if i == 54 {
        PeripheralId::Swi1
    } else if i == 55 {
        PeripheralId::Egu1
    } else if i == 56 {
        PeripheralId::Swi2
    } else if i == 57 {
        PeripheralId::Egu2
    } else if i == 58 {
        PeripheralId::Swi3
    } else if i == 59 {
        PeripheralId::Egu3
    } else if i == 60 {
        PeripheralId::Swi4
    } else if i == 61 {
        PeripheralId::Egu4
    } else if i == 62 {
        PeripheralId::Swi5
    } else if i == 63 {
        PeripheralId::Egu5
    } else if i == 64 {
        PeripheralId::Timer3
    } else if i == 65 {
        PeripheralId::Timer4
    } else if i == 66 {
        PeripheralId::Pwm0
    } else if i == 67 {
        PeripheralId::Pdm
    } else if i == 68 {
        PeripheralId::Nvmc
    } else if i == 69 {
        PeripheralId::Ppi
    } else if i == 70 {
        PeripheralId::Mwu
    } else if i == 71 {
        PeripheralId::Pwm1
    } else if i == 72 {
        PeripheralId::Pwm2
    } else if i == 73 {
        PeripheralId::Rtc2
    } else {
        PeripheralId::I2s
    }
}

/// The numbering pairs every peripheral block with exactly one position.
pub proof fn lemma_id_index(id: PeripheralId)
    ensures
        0 <= index_of_id(id) < 75,
        id_at(index_of_id(id)) == id,
{
    match id {
        PeripheralId::Cbp => {},
        PeripheralId::Cpuid => {},
        PeripheralId::Dcb => {},
        PeripheralId::Dwt => {},
        PeripheralId::Fpb => {},
        PeripheralId::Fpu => {},
        PeripheralId::Itm => {},
        PeripheralId::Mpu => {},
        PeripheralId::Nvic => {},
        PeripheralId::Scb => {},
        PeripheralId::Syst => {},
        PeripheralId::Tpiu => {},
        PeripheralId::P0 => {},
        PeripheralId::P1 => {},
        PeripheralId::Uarte0 => {},
        PeripheralId::Spim2 => {},
        PeripheralId::Ficr => {},
        PeripheralId::Uicr => {},
        PeripheralId::Acl => {},
        PeripheralId::Power => {},
        PeripheralId::Clock => {},
        PeripheralId::Radio => {},
        PeripheralId::Uart0 => {},
        PeripheralId::Spim0 => {},
        PeripheralId::Spis0 => {},
        PeripheralId::Twim0 => {},
        PeripheralId::Twis0 => {},
        PeripheralId::Spi0 => {},
        PeripheralId::Twi0 => {},
        PeripheralId::Spim1 => {},
        PeripheralId::Spis1 => {},
        PeripheralId::Twim1 => {},
        PeripheralId::Twis1 => {},
        PeripheralId::Spi1 => {},
        PeripheralId::Twi1 => {},
        PeripheralId::Nfct => {},
        PeripheralId::Gpiote => {},
        PeripheralId::Saadc => {},
        PeripheralId::Timer0 => {},
        PeripheralId::Timer1 => {},
        PeripheralId::Timer2 => {},
        PeripheralId::Rtc0 => {},
        PeripheralId::Temp => {},
        PeripheralId::Rng => {},
        PeripheralId::Ecb => {},
        PeripheralId::Ccm => {},
        PeripheralId::Aar => {},
        PeripheralId::Wdt => {},
        PeripheralId::Rtc1 => {},
        PeripheralId::Qdec => {},
        PeripheralId::Comp => {},
        PeripheralId::Lpcomp => {},
        PeripheralId::Swi0 => {},
        PeripheralId::Egu0 => {},
        PeripheralId::Swi1 => {},
        PeripheralId::Egu1 => {},
        PeripheralId::Swi2 => {},
        PeripheralId::Egu2 => {},
        PeripheralId::Swi3 => {},
        PeripheralId::Egu3 => {},
        PeripheralId::Swi4 => {},
        PeripheralId::Egu4 => {},
        PeripheralId::Swi5 => {},
        PeripheralId::Egu5 => {},
        PeripheralId::Timer3 => {},
        PeripheralId::Timer4 => {},
        PeripheralId::Pwm0 => {},
        PeripheralId::Pdm => {},
        PeripheralId::Nvmc => {},
        PeripheralId::Ppi => {},
        PeripheralId::Mwu => {},
        PeripheralId::Pwm1 => {},
        PeripheralId::Pwm2 => {},
        PeripheralId::Rtc2 => {},
        PeripheralId::I2s => {},
    }
}

fn id_with_index(i: usize) -> (r: PeripheralId)
    requires
        i < 75,
    ensures
        r == id_at(i as int),
        index_of_id(r) == i as int,
{
    if i == 0 {
        PeripheralId::Cbp
    } else if i == 1 {
        PeripheralId::Cpuid
    } else if i == 2 {
        PeripheralId::Dcb
    } else if i == 3 {
        PeripheralId::Dwt
    } else if i == 4 {
        PeripheralId::Fpb
    } else if i == 5 {
        PeripheralId::Fpu
    } else if i == 6 {
        PeripheralId::Itm
    } else if i == 7 {
        PeripheralId::Mpu
    } else if i == 8 {
        PeripheralId::Nvic
    } else if i == 9 {
        PeripheralId::Scb
    } else if i == 10 {
        PeripheralId::Syst
    } else if i == 11 {
        PeripheralId::Tpiu
    } else if i == 12 {
        PeripheralId::P0
    } else if i == 13 {
        PeripheralId::P1
    } else if i == 14 {
        PeripheralId::Uarte0
    } else if i == 15 {
        PeripheralId::Spim2
    } else if i == 16 {
        PeripheralId::Ficr
    } else if i == 17 {
        PeripheralId::Uicr
    } else if i == 18 {
        PeripheralId::Acl
    } else if i == 19 {
        PeripheralId::Power
    } else if i == 20 {
        PeripheralId::Clock
    } else if i == 21 {
        PeripheralId::Radio
    } else if i == 22 {
        PeripheralId::Uart0
    } else if i == 23 {
        PeripheralId::Spim0
    } else if i == 24 {
        PeripheralId::Spis0
    } else if i == 25 {
        PeripheralId::Twim0
    } else if i == 26 {
        PeripheralId::Twis0
    } else if i == 27 {
        PeripheralId::Spi0
    } else if i == 28 {
        PeripheralId::Twi0
    } else if i == 29 {
        PeripheralId::Spim1
    } else if i == 30 {
        PeripheralId::Spis1
    } else if i == 31 {
        PeripheralId::Twim1
    } else if i == 32 {
        PeripheralId::Twis1
    } else if i == 33 {
        PeripheralId::Spi1
    } else if i == 34 {
        PeripheralId::Twi1
    } else if i == 35 {
        PeripheralId::Nfct
    } else if i == 36 {
        PeripheralId::Gpiote
    } else if i == 37 {
        PeripheralId::Saadc
    } else if i == 38 {
        PeripheralId::Timer0
    } else if i == 39 {
        PeripheralId::Timer1
    } else if i == 40 {
        PeripheralId::Timer2
    } else if i == 41 {
        PeripheralId::Rtc0
    } else if i == 42 {
        PeripheralId::Temp
    } else if i == 43 {
        PeripheralId::Rng
    } else if i == 44 {
        PeripheralId::Ecb
    } else if i == 45 {
        PeripheralId::Ccm
    } else if i == 46 {
        PeripheralId::Aar
    } else if i == 47 {
        PeripheralId::Wdt
    } else if i == 48 {
        PeripheralId::Rtc1
    } else if i == 49 {
        PeripheralId::Qdec
    } else if i == 50 {
        PeripheralId::Comp
    } else if i == 51 {
        PeripheralId::Lpcomp
    } else if i == 52 {
        PeripheralId::Swi0
    } else if i == 53 {
        PeripheralId::Egu0
    } else if i == 54 {
        PeripheralId::Swi1
    } else if i == 55 {
        PeripheralId::Egu1
    } else if i == 56 {
        PeripheralId::Swi2
    } else if i == 57 {
        PeripheralId::Egu2
    } else if i == 58 {
        PeripheralId::Swi3
    } else if i == 59 {
        PeripheralId::Egu3
    } else if i == 60 {
        PeripheralId::Swi4
    } else if i == 61 {
        PeripheralId::Egu4
    } else if i == 62 {
        PeripheralId::Swi5
    } else if i == 63 {
        PeripheralId::Egu5
    } else if i == 64 {
        PeripheralId::Timer3
    } else if i == 65 {
        PeripheralId::Timer4
    } else if i == 66 {
        PeripheralId::Pwm0
    } else if i == 67 {
        PeripheralId::Pdm
    } else if i == 68 {
        PeripheralId::Nvmc
    } else if i == 69 {
        PeripheralId::Ppi
    } else if i == 70 {
        PeripheralId::Mwu
    } else if i == 71 {
        PeripheralId::Pwm1
    } else if i == 72 {
        PeripheralId::Pwm2
    } else if i == 73 {
        PeripheralId::Rtc2
    } else if i == 74 {
        PeripheralId::I2s
    } else {
        vstd::pervasive::unreached()
    }
}

/// Core-facility blocks sit in the first positions of the numbering.
pub open spec fn is_core(id: PeripheralId) -> bool {
    0 <= index_of_id(id) < 12
}

/// Everything else — ports, bus controllers and device blocks — is part of
/// the board-peripheral set.
pub open spec fn is_device(id: PeripheralId) -> bool {
    12 <= index_of_id(id) < 75
}

/// Exclusive handle to one physical peripheral block. Holding a token is
/// the capability to program that block; tokens are granted by the
/// registry, are deliberately not `Clone`, and are minted nowhere else.
pub struct Token {
    id: PeripheralId,
}

impl View for Token {
    type V = PeripheralId;

    closed spec fn view(&self) -> PeripheralId {
        self.id
    }
}

impl Token {
    /// The peripheral block this token stands for.
    pub fn id(&self) -> (r: PeripheralId)
        ensures
            r == self@,
    {
        self.id
    }
}

/// A collection of peripheral tokens, keyed by block identity: it never
/// holds two tokens for the same block. Its view is the set of block
/// identities whose tokens it currently holds.
pub struct TokenBank {
    v: Vec<Token>,
}

/// Whether some token in `s` stands for the block `id`.
spec fn holds_in(s: Seq<Token>, id: PeripheralId) -> bool {
    exists|k: int| 0 <= k < s.len() && (#[trigger] s[k])@ == id
}

/// Whether no two tokens in `s` stand for the same block.
spec fn distinct_ids(s: Seq<Token>) -> bool {
    forall|j: int, k: int| 0 <= j < k < s.len() ==> (#[trigger] s[j])@ != (#[trigger] s[k])@
}

impl View for TokenBank {
    type V = Set<PeripheralId>;

    closed spec fn view(&self) -> Set<PeripheralId> {
        Set::new(|id: PeripheralId| holds_in(self.v@, id))
    }
}

impl TokenBank {
    /// No two tokens in the bank stand for the same block.
    pub closed spec fn wf(&self) -> bool {
        distinct_ids(self.v@)
    }

    /// Mints the tokens for the blocks at positions `lo..hi` of the
    /// numbering, one token per block.
    pub(crate) fn with_index_range(lo: usize, hi: usize) -> (r: TokenBank)
        requires
            lo <= hi <= 75,
        ensures
            r.wf(),
            forall|id: PeripheralId| r@.contains(id) <==> lo <= #[trigger] index_of_id(id) < hi,
    {
        let mut v: Vec<Token> = Vec::new();
        let mut i: usize = lo;
        while i < hi
            invariant
                lo <= i <= hi <= 75,
                v@.len() == i - lo,
                forall|k: int|
                    0 <= k < v@.len() ==> index_of_id((#[trigger] v@[k])@) == lo + k,
            decreases hi - i,
        {
            v.push(Token { id: id_with_index(i) });
            i += 1;
        }
        let r = TokenBank { v };
        proof {
            assert forall|id: PeripheralId|
                r@.contains(id) <==> lo <= #[trigger] index_of_id(id) < hi by {
                lemma_id_index(id);
                if lo <= index_of_id(id) < hi {
                    let k = index_of_id(id) - lo;
                    assert(index_of_id(r.v@[k]@) == lo + k);
                    lemma_id_index(r.v@[k]@);
                    assert(r.v@[k]@ == id);
                }
            }
        }
        r
    }

    /// Whether the bank holds the token for `id`.
    pub fn contains(&self, id: PeripheralId) -> (r: bool)
        ensures
            r == self@.contains(id),
    {
        let n = self.v.len();
        let mut k: usize = 0;
        while k < n
            invariant
                n == self.v@.len(),
                k <= n,
                forall|j: int| 0 <= j < k ==> (#[trigger] self.v@[j])@ != id,
            decreases n - k,
        {
            if self.v[k].id == id {
                return true;
            }
            k += 1;
        }
        false
    }

    /// Takes the token for `id` out of the bank, if it is there. A given
    /// block's token can thus be obtained at most once; afterwards the bank
    /// no longer holds it.
    pub fn take(&mut self, id: PeripheralId) -> (r: Option<Token>)
        requires
            old(self).wf(),
        ensures
            final(self).wf(),
            final(self)@ == old(self)@.remove(id),
            (match r {
                Some(t) => t@ == id && old(self)@.contains(id),
                None => !old(self)@.contains(id),
            }),
    {
        let n = self.v.len();
        let mut k: usize = 0;
        while k < n
            invariant
                old(self).wf(),
                self.v@ == old(self).v@,
                n == self.v@.len(),
                k <= n,
                forall|j: int| 0 <= j < k ==> (#[trigger] old(self).v@[j])@ != id,
            decreases n - k,
        {
            if self.v[k].id == id {
                let t = self.v.remove(k);
                proof {
                    let oldv = old(self).v@;
                    let newv = self.v@;
                    assert(newv == oldv.remove(k as int));
                    assert(distinct_ids(oldv));
                    assert(oldv[k as int]@ == id);
                    assert forall|x: PeripheralId|
                        self@.contains(x) == old(self)@.remove(id).contains(x) by {
                        assert(self@.contains(x) == holds_in(newv, x));
                        assert(old(self)@.contains(x) == holds_in(oldv, x));
                        if x == id {
                            assert forall|j: int| 0 <= j < newv.len() implies (#[trigger] newv[j])@
                                != id by {
                                if j < k {
                                    assert(newv[j] == oldv[j]);
                                    assert(oldv[j]@ != id);
                                } else {
                                    assert(newv[j] == oldv[j + 1]);
                                    assert(oldv[j + 1]@ != oldv[k as int]@);
                                }
                            }
                        } else {
                            if holds_in(newv, x) {
                                let j = choose|j: int|
                                    0 <= j < newv.len() && (#[trigger] newv[j])@ == x;
                                if j < k {
                                    assert(newv[j] == oldv[j]);
                                    assert(oldv[j]@ == x);
                                } else {
                                    assert(newv[j] == oldv[j + 1]);
                                    assert(oldv[j + 1]@ == x);
                                }
                            }
                            if holds_in(oldv, x) {
                                let j = choose|j: int|
                                    0 <= j < oldv.len() && (#[trigger] oldv[j])@ == x;
                                if j < k {
                                    assert(newv[j] == oldv[j]);
                                    assert(newv[j]@ == x);
                                } else if j > k {
                                    assert(newv[j - 1] == oldv[j]);
                                    assert(newv[j - 1]@ == x);
                                }
                            }
                        }
                    }
                    assert(self@ =~= old(self)@.remove(id));
                    assert forall|j1: int, j2: int|
                        0 <= j1 < j2 < newv.len() implies (#[trigger] newv[j1])@ != (
                    #[trigger] newv[j2])@ by {
                        let i1 = if j1 < k { j1 } else { j1 + 1 };
                        let i2 = if j2 < k { j2 } else { j2 + 1 };
                        assert(newv[j1] == oldv[i1]);
                        assert(newv[j2] == oldv[i2]);
                        assert(0 <= i1 < i2 < oldv.len());
                        assert(oldv[i1]@ != oldv[i2]@);
                    }
                    assert(distinct_ids(newv));
                }
                return Some(t);
            }
            k += 1;
        }
        proof {
            assert(!self@.contains(id));
            assert(self@ =~= self@.remove(id));
        }
        None
    }

    /// Takes the token for a block the bank is known to hold.
    pub(crate) fn take_present(&mut self, id: PeripheralId) -> (t: Token)
        requires
            old(self).wf(),
            old(self)@.contains(id),
        ensures
            final(self).wf(),
            t@ == id,
            final(self)@ == old(self)@.remove(id),
    {
        match self.take(id) {
            Some(t) => t,
            None => vstd::pervasive::unreached(),
        }
    }

    /// Moves every token of `other` into this bank. The two banks must not
    /// hold tokens for a common block.
    pub(crate) fn absorb(&mut self, other: TokenBank)
        requires
            old(self).wf(),
            other.wf(),
            old(self)@.disjoint(other@),
        ensures
            final(self).wf(),
            final(self)@ == old(self)@.union(other@),
    {
        let mut incoming = other;
        let ghost selfv = self.v@;
        let ghost otherv = incoming.v@;
        let ghost otherset = incoming@;
        proof {
            assert(distinct_ids(selfv));
            assert(distinct_ids(otherv));
            assert(otherset.disjoint(old(self)@));
        }
        self.v.append(&mut incoming.v);
        proof {
            let newv = self.v@;
            assert(newv == selfv + otherv);
            assert forall|x: PeripheralId|
                self@.contains(x) == old(self)@.union(otherset).contains(x) by {
                assert(self@.contains(x) == holds_in(newv, x));
                assert(old(self)@.contains(x) == holds_in(selfv, x));
                assert(otherset.contains(x) == holds_in(otherv, x));
                if holds_in(newv, x) {
                    let j = choose|j: int| 0 <= j < newv.len() && (#[trigger] newv[j])@ == x;
                    if j < selfv.len() {
                        assert(selfv[j]@ == x);
                    } else {
                        assert(otherv[j - selfv.len()]@ == x);
                    }
                }
                if holds_in(selfv, x) {
                    let j = choose|j: int| 0 <= j < selfv.len() && (#[trigger] selfv[j])@ == x;
                    assert(newv[j]@ == x);
                }
                if holds_in(otherv, x) {
                    let j = choose|j: int| 0 <= j < otherv.len() && (#[trigger] otherv[j])@ == x;
                    assert(newv[selfv.len() + j]@ == x);
                }
            }
            assert(self@ =~= old(self)@.union(otherset));
            assert forall|j1: int, j2: int|
                0 <= j1 < j2 < newv.len() implies (#[trigger] newv[j1])@ != (#[trigger] newv[j2])@
                by {
                if j1 < selfv.len() && j2 >= selfv.len() {
                    assert(newv[j1] == selfv[j1]);
                    assert(newv[j2] == otherv[j2 - selfv.len()]);
                    assert(holds_in(selfv, newv[j1]@));
                    assert(old(self)@.contains(newv[j1]@));
                    assert(holds_in(otherv, newv[j2]@));
                    assert(otherset.contains(newv[j2]@));
                } else if j2 < selfv.len() {
                    assert(newv[j1] == selfv[j1]);
                    assert(newv[j2] == selfv[j2]);
                    assert(selfv[j1]@ != selfv[j2]@);
                } else {
                    assert(newv[j1] == otherv[j1 - selfv.len()]);
                    assert(newv[j2] == otherv[j2 - selfv.len()]);
                    assert(otherv[j1 - selfv.len()]@ != otherv[j2 - selfv.len()]@);
                }
            }
            assert(distinct_ids(newv));
        }
    }
}

} // verus!
