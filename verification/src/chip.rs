//! The chips that the overlay shows, their accent colours, and the rack that
//! holds the chips on screen.

use vstd::prelude::*;
use vstd::string::*;

use crate::settings::Theme;

verus! {

/// The accent of a mouse chip; the overlay's style sheet maps it to a colour
/// that depends on the theme.
#[derive(Debug, Clone, Copy, PartialEq, Eq, Structural)]
pub enum Accent {
    /// Left button: cyan blue.
    Left,
    /// Right button: yellow.
    Right,
    /// Middle button: red.
    Middle,
    /// Scroll wheel: purple.
    Scroll,
}

/// A chip to show: its text and, for a mouse chip, its accent.
#[derive(Debug)]
pub struct Chip {
    pub text: String,
    /// `None` for a keyboard chip, drawn in the default foreground colour.
    pub accent: Option<Accent>,
}

impl Chip {
    /// A keyboard chip, without accent.
    pub fn key(text: String) -> (res: Self)
        ensures
            res.text@ == text@,
            res.accent is None,
    {
        Chip { text, accent: None }
    }

    /// A mouse chip with the accent of its button.
    pub fn mouse(text: String, accent: Accent) -> (res: Self)
        ensures
            res.text@ == text@,
            res.accent == Some(accent),
    {
        Chip { text, accent: Some(accent) }
    }
}

/// The style class of an accent (its colour is set per theme by the overlay).
pub fn accent_class(accent: Accent) -> (res: &'static str)
    ensures
        res == (match accent {
            Accent::Left => "accent-left",
            Accent::Right => "accent-right",
            Accent::Middle => "accent-middle",
            Accent::Scroll => "accent-scroll",
        }),
{
    match accent {
        Accent::Left => "accent-left",
        Accent::Right => "accent-right",
        Accent::Middle => "accent-middle",
        Accent::Scroll => "accent-scroll",
    }
}

/// The colours of the chips in one chip theme, but for their background
/// opacity: `base` is the RGB triple of the background, the rest are CSS colours.
pub struct ChipColors {
    pub base: &'static str,
    pub fg: &'static str,
    pub border: &'static str,
    pub left: &'static str,
    pub right: &'static str,
    pub middle: &'static str,
    pub scroll: &'static str,
}

pub open spec fn spec_chip_colors(theme: Theme) -> ChipColors {
    match theme {
        // dark: black chips with white text
        Theme::Dark => ChipColors {
            base: "0, 0, 0",
            fg: "#ffffff",
            border: "rgba(255, 255, 255, 0.2)",
            left: "#64B5F6",
            right: "#FFB74D",
            middle: "#EF5350",
            scroll: "#BA68C8",
        },
        // light: white chips with black text, deeper accents
        Theme::Light => ChipColors {
            base: "255, 255, 255",
            fg: "#1a1a1a",
            border: "rgba(0, 0, 0, 0.15)",
            left: "#1565C0",
            right: "#F57C00",
            middle: "#C62828",
            scroll: "#8E24AA",
        },
    }
}

/// The colours of the chips in the chip theme `theme`.
pub fn chip_colors(theme: Theme) -> (res: ChipColors)
    ensures
        res == spec_chip_colors(theme),
{
    match theme {
        Theme::Dark => ChipColors {
            base: "0, 0, 0",
            fg: "#ffffff",
            border: "rgba(255, 255, 255, 0.2)",
            left: "#64B5F6",
            right: "#FFB74D",
            middle: "#EF5350",
            scroll: "#BA68C8",
        },
        Theme::Light => ChipColors {
            base: "255, 255, 255",
            fg: "#1a1a1a",
            border: "rgba(0, 0, 0, 0.15)",
            left: "#1565C0",
            right: "#F57C00",
            middle: "#C62828",
            scroll: "#8E24AA",
        },
    }
}

/// Pushing `id` onto the chips `before` with room for `max_chips`: the chips that
/// leave, oldest first, and the chips that stay. While more than `max_chips` are
/// on screen the oldest one leaves.
pub open spec fn spec_rack_push(before: Seq<u64>, id: u64, max_chips: usize) -> (Seq<u64>, Seq<u64>) {
    let all = before.push(id);
    if all.len() > max_chips {
        (all.take(all.len() - max_chips), all.skip(all.len() - max_chips))
    } else {
        (Seq::empty(), all)
    }
}

/// What one push did to the rack.
pub struct PushOutcome {
    /// Identifier of the new chip.
    pub id: u64,
    /// The chip that was newest before, now shown in the history style.
    pub demoted: Option<u64>,
    /// The oldest chips that left to keep at most the maximum, oldest first.
    pub evicted: Vec<u64>,
}

/// The chips on screen, oldest first, by identifier. The newest is at the end
/// (shown rightmost); older ones slide to the left.
pub struct ChipRack {
    ids: Vec<u64>,
    next_id: u64,
}

impl View for ChipRack {
    type V = Seq<u64>;

    closed spec fn view(&self) -> Seq<u64> {
        self.ids@
    }
}

impl ChipRack {
    /// Identifiers are increasing from oldest to newest, and below the next one.
    pub closed spec fn wf(&self) -> bool {
        &&& forall|i: int, j: int| 0 <= i < j < self.ids@.len() ==> self.ids@[i] < self.ids@[j]
        &&& forall|i: int| 0 <= i < self.ids@.len() ==> self.ids@[i] < self.next_id
    }

    /// The identifier that the next push hands out.
    pub closed spec fn spec_next_id(&self) -> u64 {
        self.next_id
    }

    /// An empty rack.
    pub fn new() -> (res: Self)
        ensures
            res.wf(),
            res@ == Seq::<u64>::empty(),
            res.spec_next_id() == 0,
    {
        ChipRack { ids: Vec::new(), next_id: 0 }
    }

    /// The number of chips on screen.
    pub fn len(&self) -> (res: usize)
        ensures
            res == self@.len(),
    {
        self.ids.len()
    }

    /// Whether no chip is on screen.
    pub fn is_empty(&self) -> (res: bool)
        ensures
            res == (self@.len() == 0),
    {
        self.ids.len() == 0
    }

    /// Whether the chip `id` is still on screen.
    pub fn contains(&self, id: u64) -> (res: bool)
        ensures
            res == self@.contains(id),
    {
        let mut i: usize = 0;
        while i < self.ids.len()
            invariant
                i <= self.ids@.len(),
                forall|j: int| 0 <= j < i ==> self.ids@[j] != id,
            decreases self.ids@.len() - i,
        {
            if self.ids[i] == id {
                return true;
            }
            i = i + 1;
        }
        false
    }

    /// Adds a new chip as the newest and removes the oldest ones while more than
    /// `max_chips` are on screen. `None`, with the rack unchanged, once every
    /// identifier has been handed out.
    pub fn push(&mut self, max_chips: usize) -> (res: Option<PushOutcome>)
        requires
            old(self).wf(),
        ensures
            final(self).wf(),
            res is None <==> old(self).spec_next_id() == u64::MAX,
            res is None ==> final(self)@ == old(self)@ && final(self).spec_next_id() == old(self).spec_next_id(),
            res matches Some(o) ==> {
                &&& !old(self)@.contains(o.id)
                &&& o.id == old(self).spec_next_id()
                &&& final(self).spec_next_id() == old(self).spec_next_id() + 1
                &&& o.demoted == (if old(self)@.len() == 0 {
                    None
                } else {
                    Some(old(self)@.last())
                })
                &&& (o.evicted@, final(self)@) == spec_rack_push(old(self)@, o.id, max_chips)
            },
    {
        if self.next_id == u64::MAX {
            return None;
        }
        let id = self.next_id;
        let demoted = if self.ids.len() == 0 {
            None
        } else {
            Some(self.ids[self.ids.len() - 1])
        };
        proof {
            if old(self)@.contains(id) {
                let k = choose|k: int| 0 <= k < old(self)@.len() && old(self)@[k] == id;
                assert(old(self).ids@[k] < old(self).next_id);
            }
        }
        self.ids.push(id);
        self.next_id = id + 1;
        let ghost all = self.ids@;
        let mut evicted: Vec<u64> = Vec::new();
        while self.ids.len() > max_chips
            invariant
                self.next_id == id + 1,
                all.len() == old(self)@.len() + 1,
                all == old(self)@.push(id),
                evicted@.len() <= all.len(),
                evicted@.len() == 0 || self.ids@.len() >= max_chips,
                evicted@ == all.take(evicted@.len() as int),
                self.ids@ == all.skip(evicted@.len() as int),
                forall|i: int, j: int| 0 <= i < j < all.len() ==> all[i] < all[j],
                forall|i: int| 0 <= i < all.len() ==> all[i] < self.next_id,
            decreases self.ids@.len(),
        {
            let gone = self.ids.remove(0);
            evicted.push(gone);
            assert(evicted@ =~= all.take(evicted@.len() as int));
            assert(self.ids@ =~= all.skip(evicted@.len() as int));
        }
        proof {
            if all.len() <= max_chips {
                assert(evicted@.len() == 0);
                assert(self.ids@ =~= all);
            } else {
                assert(evicted@.len() == all.len() - max_chips);
            }
        }
        Some(PushOutcome { id, demoted, evicted })
    }

    /// Removes the chip `id` if it is still on screen; tells whether it was.
    pub fn remove(&mut self, id: u64) -> (res: bool)
        requires
            old(self).wf(),
        ensures
            final(self).wf(),
            res == old(self)@.contains(id),
            !final(self)@.contains(id),
            final(self).spec_next_id() == old(self).spec_next_id(),
            res ==> exists|i: int|
                0 <= i < old(self)@.len() && old(self)@[i] == id && final(self)@ == old(self)@.remove(i),
            !res ==> final(self)@ == old(self)@,
    {
        let mut i: usize = 0;
        while i < self.ids.len()
            invariant
                i <= self.ids@.len(),
                self.ids@ == old(self).ids@,
                self.next_id == old(self).next_id,
                old(self).wf(),
                forall|j: int| 0 <= j < i ==> self.ids@[j] != id,
            decreases self.ids@.len() - i,
        {
            if self.ids[i] == id {
                let ghost before = self.ids@;
                self.ids.remove(i);
                proof {
                    assert forall|a: int, b: int|
                        0 <= a < b < self.ids@.len() implies self.ids@[a] < self.ids@[b] by {
                        if a < i {
                            if b < i {
                                assert(self.ids@[a] == before[a]);
                                assert(self.ids@[b] == before[b]);
                            } else {
                                assert(self.ids@[a] == before[a]);
                                assert(self.ids@[b] == before[b + 1]);
                            }
                        } else {
                            assert(self.ids@[a] == before[a + 1]);
                            assert(self.ids@[b] == before[b + 1]);
                        }
                    }
                    if self.ids@.contains(id) {
                        let k = choose|k: int| 0 <= k < self.ids@.len() && self.ids@[k] == id;
                        if k < i {
                            assert(before[k] == id);
                        } else {
                            assert(before[k + 1] == id);
                            assert(before[i as int] < before[k + 1]);
                        }
                    }
                    assert(before[i as int] == id);
                    assert(old(self)@[i as int] == id && self@ == old(self)@.remove(i as int));
                }
                return true;
            }
            i = i + 1;
        }
        false
    }
}

/// Law: after a push at most `max_chips` chips are on screen; the new chip is the
/// newest whenever there is room for one; and no chip is lost or reordered: the
/// evicted chips followed by those that stay are the chips before, then the new one.
pub proof fn lemma_push_keeps_order(before: Seq<u64>, id: u64, max_chips: usize)
    ensures
        ({
            let (evicted, after) = spec_rack_push(before, id, max_chips);
            &&& after.len() <= max_chips || after.len() == before.len() + 1
            &&& max_chips >= 1 ==> after.len() <= max_chips && after.last() == id
            &&& evicted + after == before.push(id)
            &&& before.len() < max_chips ==> evicted.len() == 0
        }),
{
    let all = before.push(id);
    if all.len() > max_chips {
        assert(all.take(all.len() - max_chips) + all.skip(all.len() - max_chips) =~= all);
    } else {
        assert(Seq::<u64>::empty() + all =~= all);
    }
}

/// Law: the accent colours are cyan blue (left), yellow (right), red (middle) and
/// purple (scroll), a lighter shade on dark chips and a deeper one on light chips;
/// dark chips are black with white text, light chips white with black text.
pub proof fn lemma_chip_colors()
    ensures
        spec_chip_colors(Theme::Dark).base == "0, 0, 0",
        spec_chip_colors(Theme::Dark).fg == "#ffffff",
        spec_chip_colors(Theme::Dark).border == "rgba(255, 255, 255, 0.2)",
        spec_chip_colors(Theme::Dark).left == "#64B5F6",
        spec_chip_colors(Theme::Dark).right == "#FFB74D",
        spec_chip_colors(Theme::Dark).middle == "#EF5350",
        spec_chip_colors(Theme::Dark).scroll == "#BA68C8",
        spec_chip_colors(Theme::Light).base == "255, 255, 255",
        spec_chip_colors(Theme::Light).fg == "#1a1a1a",
        spec_chip_colors(Theme::Light).border == "rgba(0, 0, 0, 0.15)",
        spec_chip_colors(Theme::Light).left == "#1565C0",
        spec_chip_colors(Theme::Light).right == "#F57C00",
        spec_chip_colors(Theme::Light).middle == "#C62828",
        spec_chip_colors(Theme::Light).scroll == "#8E24AA",
{
}

} // verus!
