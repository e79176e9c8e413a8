//! One complete scan result: the state of all sixteen channels.

use vstd::prelude::*;
use vstd::string::StringExecFns;

verus! {

/// True iff bit `i` of `v` is set. Bit `i` of the packed form of a frame
/// reports channel `i`.
pub open spec fn spec_bit(v: u16, i: u16) -> bool {
    v & (1u16 << i) != 0
}

/// Channels reported by the controller per frame, and bits in the packed
/// form of a frame.
pub const CHANNEL_COUNT: usize = 16;

/// An ordered record of the sixteen channel states read by one scan,
/// channel 0 first. `true` marks an active channel: one whose data-line
/// level was low during its clock slot. Produced whole; no caller ever
/// sees a partial frame.
pub struct ScanFrame {
    channels: Vec<bool>,
}

impl View for ScanFrame {
    type V = Seq<bool>;

    closed spec fn view(&self) -> Seq<bool> {
        self.channels@
    }
}

impl ScanFrame {
    /// A frame carries exactly one state per channel.
    pub open spec fn wf(&self) -> bool {
        self@.len() == CHANNEL_COUNT
    }

    /// Wraps one state per channel into a frame.
    pub fn from_channels(channels: Vec<bool>) -> (r: ScanFrame)
        requires
            channels@.len() == CHANNEL_COUNT,
        ensures
            r@ == channels@,
            r.wf(),
    {
        ScanFrame { channels }
    }

    /// The recorded state of channel `i`.
    pub fn channel(&self, i: usize) -> (r: bool)
        requires
            self.wf(),
            i < CHANNEL_COUNT,
        ensures
            r == self@[i as int],
    {
        self.channels[i]
    }

    /// True iff at least one channel in this frame was active.
    pub fn any_active(&self) -> (r: bool)
        requires
            self.wf(),
        ensures
            r == exists|i: int| 0 <= i < CHANNEL_COUNT && self@[i],
    {
        let mut i: usize = 0;
        let mut found = false;
        while i < CHANNEL_COUNT
            invariant
                self.wf(),
                i <= CHANNEL_COUNT,
                found == exists|j: int| 0 <= j < i && self@[j],
            decreases CHANNEL_COUNT - i,
        {
            if self.channels[i] {
                found = true;
            }
            i = i + 1;
        }
        found
    }

    /// The frame packed into one word, channel `i` at bit `i`; channel 0,
    /// the first channel clocked, is the least significant bit.
    pub fn as_u16(&self) -> (r: u16)
        requires
            self.wf(),
        ensures
            forall|i: u16| i < 16 ==> spec_bit(r, i) == self@[i as int],
    {
        let mut acc: u16 = 0;
        let mut i: u16 = 0;
        proof {
            assert(forall|j: u16| j < 16 ==> !spec_bit(0u16, j)) by (bit_vector);
        }
        while i < 16
            invariant
                self.wf(),
                i <= 16,
                forall|j: u16| j < i ==> spec_bit(acc, j) == self@[j as int],
                forall|j: u16| i <= j < 16 ==> !spec_bit(acc, j),
            decreases 16 - i,
        {
            if self.channels[i as usize] {
                let ghost acc0: u16 = acc;
                acc = acc | (1u16 << i);
                proof {
                    assert(spec_bit(acc0 | (1u16 << i), i) && forall|j: u16|
                        j < 16 && j != i ==> spec_bit(acc0 | (1u16 << i), j) == spec_bit(
                            acc0,
                            j,
                        )) by (bit_vector)
                        requires i < 16,
                    ;
                    assert(forall|j: u16| j < 16 && j != i ==> spec_bit(acc, j)
                        == spec_bit(acc0, j));
                    assert(forall|j: u16| j < i ==> spec_bit(acc, j) == self@[j as int]);
                    assert(forall|j: u16| i + 1 <= j < 16 ==> !spec_bit(acc, j));
                }
            }
            i = i + 1;
        }
        acc
    }

    /// The frame rendered for display: sixteen characters, '1' for an
    /// active channel, channel 0 rightmost and channel 15 leftmost.
    pub fn to_binary_string(&self) -> (r: String)
        requires
            self.wf(),
        ensures
            r@.len() == CHANNEL_COUNT,
            forall|p: int| 0 <= p < CHANNEL_COUNT ==> r@[p] == (if self@[
                CHANNEL_COUNT - 1 - p
            ] {
                '1'
            } else {
                '0'
            }),
    {
        let mut s = String::new();
        let mut i: usize = 0;
        while i < CHANNEL_COUNT
            invariant
                self.wf(),
                i <= CHANNEL_COUNT,
                s@.len() == i,
                forall|p: int| 0 <= p < i ==> s@[p] == (if self@[CHANNEL_COUNT - 1 - p] {
                    '1'
                } else {
                    '0'
                }),
            decreases CHANNEL_COUNT - i,
        {
            proof {
                reveal_strlit("1");
                reveal_strlit("0");
            }
            if self.channels[CHANNEL_COUNT - 1 - i] {
                s.append("1");
            } else {
                s.append("0");
            }
            i = i + 1;
        }
        s
    }
}

} // verus!
