//! Per-kind style extensions: knobs that only make sense for one tool.
//! Tools without such knobs use `KindStyle::Empty`.

use vstd::prelude::*;
use super::style::Rgba;

verus! {

/// Number of Fibonacci ratios drawn by the retracement tool.
pub const FIB_RATIO_COUNT: usize = 7;

/// Mask with one bit per Fibonacci ratio, all enabled.
pub const ALL_FIB_RATIOS_MASK: u8 = 127;

/// Typed per-kind style knobs.
#[derive(Debug, Clone, Copy, PartialEq, Eq)]
pub enum KindStyle {
    Empty,
    /// Rectangle fill toggle.
    FilledRect { fill_enabled: bool, fill_alpha: u8 },
    /// Fibonacci retracement: bit `i` of the mask enables ratio `i`.
    Fib { ratios_mask: u8, show_labels: bool },
    /// Long / short position zone colors.
    Position { profit_color: Rgba, loss_color: Rgba, entry_color: Rgba, show_label: bool },
    /// Pitchfork fill between the outer tines.
    Pitchfork { fill_enabled: bool, fill_alpha: u8 },
    /// Range measure info label toggle.
    LabeledRect { show_label: bool },
}

impl Default for KindStyle {
    fn default() -> (r: Self)
        ensures
            r == KindStyle::Empty,
    {
        KindStyle::Empty
    }
}

/// Bit `idx` of `mask` is set.
pub open spec fn bit_set(mask: u8, idx: u8) -> bool {
    (mask >> idx) & 1u8 == 1u8
}

impl KindStyle {
    /// Rectangle default: fill on, alpha 40.
    pub fn default_rect() -> (r: Self)
        ensures
            r == (KindStyle::FilledRect { fill_enabled: true, fill_alpha: 40 }),
    {
        KindStyle::FilledRect { fill_enabled: true, fill_alpha: 40 }
    }

    /// Fibonacci default: every ratio drawn, labels shown.
    pub fn default_fib() -> (r: Self)
        ensures
            r == (KindStyle::Fib { ratios_mask: ALL_FIB_RATIOS_MASK, show_labels: true }),
    {
        KindStyle::Fib { ratios_mask: ALL_FIB_RATIOS_MASK, show_labels: true }
    }

    /// Pitchfork default: fill on, alpha 22.
    pub fn default_pitchfork() -> (r: Self)
        ensures
            r == (KindStyle::Pitchfork { fill_enabled: true, fill_alpha: 22 }),
    {
        KindStyle::Pitchfork { fill_enabled: true, fill_alpha: 22 }
    }

    /// Range measure default: label shown.
    pub fn default_labeled_rect() -> (r: Self)
        ensures
            r == (KindStyle::LabeledRect { show_label: true }),
    {
        KindStyle::LabeledRect { show_label: true }
    }

    /// Position default: green profit zone, red loss zone, grey entry line,
    /// label shown.
    pub fn default_position() -> (r: Self)
        ensures
            r == (KindStyle::Position {
                profit_color: Rgba([52, 168, 83, 255]),
                loss_color: Rgba([220, 68, 55, 255]),
                entry_color: Rgba([200, 200, 210, 255]),
                show_label: true,
            }),
    {
        KindStyle::Position {
            profit_color: Rgba([52, 168, 83, 255]),
            loss_color: Rgba([220, 68, 55, 255]),
            entry_color: Rgba([200, 200, 210, 255]),
            show_label: true,
        }
    }

    /// True iff ratio `idx` is drawn. Kinds other than `Fib` draw every ratio.
    pub fn fib_ratio_enabled(&self, idx: usize) -> (r: bool)
        requires
            *self is Fib ==> idx < 8,
        ensures
            match self {
                KindStyle::Fib { ratios_mask, .. } => r == bit_set(*ratios_mask, idx as u8),
                _ => r,
            },
    {
        match self {
            KindStyle::Fib { ratios_mask, .. } => (*ratios_mask >> (idx as u8)) & 1 == 1,
            _ => true,
        }
    }
}

/// The Fibonacci mask with ratio `idx` switched on or off.
pub open spec fn with_bit(mask: u8, idx: u8, on: bool) -> u8 {
    if on {
        mask | (1u8 << idx)
    } else {
        mask & !(1u8 << idx)
    }
}

/// Switch one Fibonacci ratio on or off, leaving the others as they are.
pub fn set_fib_ratio(mask: u8, idx: u8, on: bool) -> (r: u8)
    requires
        idx < 8,
    ensures
        r == with_bit(mask, idx, on),
        bit_set(r, idx) == on,
        forall|j: u8| j < 8 && j != idx ==> bit_set(r, j) == bit_set(mask, j),
{
    let bit: u8 = 1u8 << idx;
    let r = if on {
        mask | bit
    } else {
        mask & !bit
    };
    proof {
        lemma_with_bit(mask, idx, on);
    }
    r
}

/// Setting bit `idx` to `on` makes it read `on` and changes no other bit.
pub proof fn lemma_with_bit(mask: u8, idx: u8, on: bool)
    requires
        idx < 8,
    ensures
        bit_set(with_bit(mask, idx, on), idx) == on,
        forall|j: u8| j < 8 && j != idx ==> #[trigger] bit_set(with_bit(mask, idx, on), j) == bit_set(mask, j),
{
    if on {
        assert(((mask | (1u8 << idx)) >> idx) & 1u8 == 1u8) by (bit_vector)
            requires
                idx < 8,
        ;
        assert forall|j: u8| j < 8 && j != idx implies #[trigger] bit_set(with_bit(mask, idx, on), j)
            == bit_set(mask, j) by {
            assert((((mask | (1u8 << idx)) >> j) & 1u8 == 1u8) == (((mask >> j) & 1u8) == 1u8))
                by (bit_vector)
                requires
                    idx < 8,
                    j < 8,
                    j != idx,
            ;
        }
    } else {
        assert(((mask & !(1u8 << idx)) >> idx) & 1u8 != 1u8) by (bit_vector)
            requires
                idx < 8,
        ;
        assert forall|j: u8| j < 8 && j != idx implies #[trigger] bit_set(with_bit(mask, idx, on), j)
            == bit_set(mask, j) by {
            assert((((mask & !(1u8 << idx)) >> j) & 1u8 == 1u8) == (((mask >> j) & 1u8) == 1u8))
                by (bit_vector)
                requires
                    idx < 8,
                    j < 8,
                    j != idx,
            ;
        }
    }
}

/// The default retracement draws all seven ratios.
pub proof fn lemma_default_fib_draws_every_ratio(idx: u8)
    requires
        idx < FIB_RATIO_COUNT,
    ensures
        bit_set(ALL_FIB_RATIOS_MASK, idx),
{
    assert(idx < 7 ==> (127u8 >> idx) & 1u8 == 1u8) by (bit_vector);
}

} // verus!
