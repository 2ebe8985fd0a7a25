//! The four memory layouts a shared-memory buffer may use, how they rank, and how the
//! layout to use is chosen from the formats the compositor offers.

use vstd::prelude::*;

verus! {

/// Format code of 32-bit RGB with a padding byte, R in the third byte.
pub const XRGB8888: u32 = 1;

/// Format code of 32-bit RGB with a padding byte, B in the third byte.
pub const XBGR8888: u32 = 0x34324258;

/// Format code of 24-bit RGB, R in the third byte.
pub const RGB888: u32 = 0x34324752;

/// Format code of 24-bit RGB, B in the third byte.
pub const BGR888: u32 = 0x34324742;

/// In-memory channel order and padding of one pixel.
#[derive(Clone, Copy, Debug, PartialEq, Eq, Structural)]
pub enum PixelFormat {
    /// No swap, can be copied directly onto the buffer.
    Bgr,
    /// R and B are swapped by the client, can be copied directly onto the buffer.
    Rgb,
    /// No swap, every pixel is extended with an extra byte when copying.
    Xbgr,
    /// R and B are swapped by the client, every pixel is extended with an extra byte.
    Xrgb,
}

impl PixelFormat {
    /// Bytes per pixel.
    pub open spec fn spec_channels(self) -> u8 {
        if self.spec_can_copy_directly() {
            3
        } else {
            4
        }
    }

    /// Whether the client has to exchange the red and blue channels.
    pub open spec fn spec_must_swap(self) -> bool {
        self == PixelFormat::Rgb || self == PixelFormat::Xrgb
    }

    /// Whether a decoded pixel has the size of a buffer pixel.
    pub open spec fn spec_can_copy_directly(self) -> bool {
        self == PixelFormat::Bgr || self == PixelFormat::Rgb
    }

    /// How much a layout is preferred: padding costs more than a swap, and a swap more
    /// than nothing.
    pub open spec fn rank(self) -> nat {
        (if self.spec_can_copy_directly() { 2nat } else { 0nat })
            + (if self.spec_must_swap() { 0nat } else { 1nat })
    }

    /// The format code under which the compositor knows this layout.
    pub open spec fn spec_wl_shm_format(self) -> u32 {
        match self {
            PixelFormat::Xrgb => XRGB8888,
            PixelFormat::Xbgr => XBGR8888,
            PixelFormat::Rgb => RGB888,
            PixelFormat::Bgr => BGR888,
        }
    }

    /// The layout that a format code stands for, if it is one of the four.
    pub open spec fn spec_from_wl_shm_format(code: u32) -> Option<PixelFormat> {
        if code == XRGB8888 {
            Some(PixelFormat::Xrgb)
        } else if code == XBGR8888 {
            Some(PixelFormat::Xbgr)
        } else if code == RGB888 {
            Some(PixelFormat::Rgb)
        } else if code == BGR888 {
            Some(PixelFormat::Bgr)
        } else {
            None
        }
    }

    /// The decision after the compositor has offered `code`: the offered layout where it
    /// is one of the four and preferred to the current one, else the current one.
    pub open spec fn refined(self, code: u32) -> PixelFormat {
        match PixelFormat::spec_from_wl_shm_format(code) {
            Some(offered) if offered.rank() > self.rank() => offered,
            _ => self,
        }
    }

    #[inline]
    #[must_use]
    pub fn channels(&self) -> (n: u8)
        ensures
            n == self.spec_channels(),
    {
        match self {
            Self::Rgb => 3,
            Self::Bgr => 3,
            Self::Xbgr => 4,
            Self::Xrgb => 4,
        }
    }

    #[inline]
    #[must_use]
    pub fn must_swap_r_and_b_channels(&self) -> (swap: bool)
        ensures
            swap == self.spec_must_swap(),
    {
        match self {
            Self::Bgr => false,
            Self::Rgb => true,
            Self::Xbgr => false,
            Self::Xrgb => true,
        }
    }

    #[inline]
    #[must_use]
    pub fn can_copy_directly_onto_wl_buffer(&self) -> (direct: bool)
        ensures
            direct == self.spec_can_copy_directly(),
    {
        match self {
            Self::Bgr => true,
            Self::Rgb => true,
            Self::Xbgr => false,
            Self::Xrgb => false,
        }
    }

    /// The format code under which the compositor knows this layout.
    #[must_use]
    pub fn wl_shm_format(&self) -> (code: u32)
        ensures
            code == self.spec_wl_shm_format(),
            PixelFormat::spec_from_wl_shm_format(code) == Some(*self),
    {
        match self {
            Self::Xrgb => XRGB8888,
            Self::Xbgr => XBGR8888,
            Self::Rgb => RGB888,
            Self::Bgr => BGR888,
        }
    }

    /// The layout that a format code stands for, if it is one of the four.
    #[must_use]
    pub fn from_wl_shm_format(code: u32) -> (format: Option<PixelFormat>)
        ensures
            format == PixelFormat::spec_from_wl_shm_format(code),
    {
        if code == XRGB8888 {
            Some(Self::Xrgb)
        } else if code == XBGR8888 {
            Some(Self::Xbgr)
        } else if code == RGB888 {
            Some(Self::Rgb)
        } else if code == BGR888 {
            Some(Self::Bgr)
        } else {
            None
        }
    }

    /// The decision after the compositor has offered `code`.
    #[must_use]
    pub fn refine(self, code: u32) -> (decision: PixelFormat)
        ensures
            decision == self.refined(code),
    {
        if code == XBGR8888 {
            if self == Self::Xrgb {
                Self::Xbgr
            } else {
                self
            }
        } else if code == RGB888 {
            if self != Self::Bgr {
                Self::Rgb
            } else {
                self
            }
        } else if code == BGR888 {
            Self::Bgr
        } else {
            self
        }
    }
}

/// The decision after one offer: a forced format is never given up.
pub open spec fn after_offer(current: PixelFormat, forced: bool, code: u32) -> PixelFormat {
    if forced {
        current
    } else {
        current.refined(code)
    }
}

/// The decision after the compositor has offered `codes`, one after the other.
pub open spec fn negotiated(start: PixelFormat, forced: bool, codes: Seq<u32>) -> PixelFormat
    decreases codes.len(),
{
    if codes.len() == 0 {
        start
    } else {
        after_offer(negotiated(start, forced, codes.drop_last()), forced, codes.last())
    }
}

/// One more offer refines the decision reached so far.
pub proof fn lemma_negotiated_push(start: PixelFormat, forced: bool, codes: Seq<u32>, code: u32)
    ensures
        negotiated(start, forced, codes.push(code)) == after_offer(
            negotiated(start, forced, codes),
            forced,
            code,
        ),
{
    assert(codes.push(code).drop_last() =~= codes);
}

/// `format` is the starting decision or one of the offered layouts, and none of these is
/// preferred to it.
pub open spec fn is_best_of(format: PixelFormat, start: PixelFormat, codes: Seq<u32>) -> bool {
    &&& format == start || exists|i: int|
        0 <= i < codes.len() && PixelFormat::spec_from_wl_shm_format(#[trigger] codes[i]) == Some(
            format,
        )
    &&& format.rank() >= start.rank()
    &&& forall|i: int|
        0 <= i < codes.len() ==> (PixelFormat::spec_from_wl_shm_format(
            #[trigger] codes[i],
        ) matches Some(offered) ==> format.rank() >= offered.rank())
}

/// No two layouts are equally preferred.
pub proof fn lemma_rank_tells_formats_apart(a: PixelFormat, b: PixelFormat)
    ensures
        a.rank() == b.rank() <==> a == b,
{
}

/// However many formats are offered, a forced format stays the decision.
pub proof fn lemma_forced_format_is_kept(start: PixelFormat, codes: Seq<u32>)
    ensures
        negotiated(start, true, codes) == start,
    decreases codes.len(),
{
    if codes.len() > 0 {
        lemma_forced_format_is_kept(start, codes.drop_last());
    }
}

/// Without a forced format the decision is the most preferred among the starting
/// layout and the offered ones.
pub proof fn lemma_negotiated_is_best(start: PixelFormat, codes: Seq<u32>)
    ensures
        is_best_of(negotiated(start, false, codes), start, codes),
    decreases codes.len(),
{
    if codes.len() > 0 {
        let init = codes.drop_last();
        lemma_negotiated_is_best(start, init);
        let before = negotiated(start, false, init);
        let after = negotiated(start, false, codes);
        assert(after == before.refined(codes.last()));
        assert forall|i: int| 0 <= i < init.len() implies init[i] == codes[i] by {}
        if after == before {
            if before != start {
                let w = choose|i: int|
                    0 <= i < init.len() && PixelFormat::spec_from_wl_shm_format(
                        #[trigger] init[i],
                    ) == Some(before);
                assert(PixelFormat::spec_from_wl_shm_format(codes[w]) == Some(after));
            }
        } else {
            assert(PixelFormat::spec_from_wl_shm_format(codes[codes.len() - 1]) == Some(after));
        }
        assert forall|i: int| 0 <= i < codes.len() implies (PixelFormat::spec_from_wl_shm_format(
            #[trigger] codes[i],
        ) matches Some(offered) ==> after.rank() >= offered.rank()) by {
            if i < init.len() {
                assert(init[i] == codes[i]);
            }
        }
    }
}

/// Only one layout can be the best of a starting layout and a set of offers, in
/// whatever order and however often each offer is made.
pub proof fn lemma_best_is_unique(
    a: PixelFormat,
    b: PixelFormat,
    start: PixelFormat,
    first: Seq<u32>,
    second: Seq<u32>,
)
    requires
        is_best_of(a, start, first),
        is_best_of(b, start, second),
        forall|code: u32| first.contains(code) <==> second.contains(code),
    ensures
        a == b,
{
    assert(b.rank() >= a.rank()) by {
        if a != start {
            let i = choose|i: int|
                0 <= i < first.len() && PixelFormat::spec_from_wl_shm_format(#[trigger] first[i])
                    == Some(a);
            assert(first.contains(first[i]));
            assert(second.contains(first[i]));
            let j = choose|j: int| 0 <= j < second.len() && second[j] == first[i];
            assert(PixelFormat::spec_from_wl_shm_format(second[j]) == Some(a));
        }
    }
    assert(a.rank() >= b.rank()) by {
        if b != start {
            let i = choose|i: int|
                0 <= i < second.len() && PixelFormat::spec_from_wl_shm_format(
                    #[trigger] second[i],
                ) == Some(b);
            assert(second.contains(second[i]));
            assert(first.contains(second[i]));
            let j = choose|j: int| 0 <= j < first.len() && first[j] == second[i];
            assert(PixelFormat::spec_from_wl_shm_format(first[j]) == Some(b));
        }
    }
    lemma_rank_tells_formats_apart(a, b);
}

/// The decision does not depend on the order in which the formats are offered.
pub proof fn lemma_negotiation_ignores_order(
    start: PixelFormat,
    forced: bool,
    first: Seq<u32>,
    second: Seq<u32>,
)
    requires
        first.to_multiset() == second.to_multiset(),
    ensures
        negotiated(start, forced, first) == negotiated(start, forced, second),
{
    if forced {
        lemma_forced_format_is_kept(start, first);
        lemma_forced_format_is_kept(start, second);
    } else {
        lemma_negotiated_is_best(start, first);
        lemma_negotiated_is_best(start, second);
        first.to_multiset_ensures();
        second.to_multiset_ensures();
        assert forall|code: u32| first.contains(code) <==> second.contains(code) by {
            assert(first.contains(code) <==> first.to_multiset().count(code) > 0);
            assert(second.contains(code) <==> second.to_multiset().count(code) > 0);
        }
        lemma_best_is_unique(
            negotiated(start, false, first),
            negotiated(start, false, second),
            start,
            first,
            second,
        );
    }
}

} // verus!
