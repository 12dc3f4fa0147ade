//! What the menu-bar icon shows for each overlay phase.
//!
//! The icon itself (its menu, its bitmap) belongs to the program around the
//! library.
use vstd::prelude::*;

use crate::overlay::OverlayPhase;
use crate::text::str_eq;

verus! {

/// A pending action from the icon's menu.
#[derive(Debug, Clone, Copy, PartialEq, Eq, Structural)]
pub enum TrayPoll {
    Nothing,
    Quit,
    OpenConfig,
}

/// The overlay phase without its data, to tell when the icon must change.
#[derive(Debug, Clone, Copy, PartialEq, Eq, Structural)]
pub enum PhaseTag {
    Hidden,
    Recording,
    Processing,
    FadingOut,
}

pub open spec fn tag_of(phase: OverlayPhase) -> PhaseTag {
    match phase {
        OverlayPhase::Hidden => PhaseTag::Hidden,
        OverlayPhase::Recording => PhaseTag::Recording,
        OverlayPhase::Processing { .. } => PhaseTag::Processing,
        OverlayPhase::FadingOut { .. } => PhaseTag::FadingOut,
    }
}

pub fn phase_tag(phase: &OverlayPhase) -> (r: PhaseTag)
    ensures
        r == tag_of(*phase),
{
    match phase {
        OverlayPhase::Hidden => PhaseTag::Hidden,
        OverlayPhase::Recording => PhaseTag::Recording,
        OverlayPhase::Processing { .. } => PhaseTag::Processing,
        OverlayPhase::FadingOut { .. } => PhaseTag::FadingOut,
    }
}

/// The icon's tooltip and the RGBA colour of its circle.
#[derive(Debug)]
pub struct TrayLook {
    pub tooltip: String,
    pub color: [u8; 4],
}

/// Grey and "Idle" when idle or fading out, red while recording, amber with
/// the status label while processing.
pub open spec fn look_of(phase: OverlayPhase) -> (Seq<char>, Seq<u8>) {
    match phase {
        OverlayPhase::Recording => ("just-talk — Recording…"@, seq![210u8, 50u8, 50u8, 255u8]),
        OverlayPhase::Processing { label } => (
            "just-talk — "@ + label@,
            seq![200u8, 155u8, 40u8, 255u8],
        ),
        _ => ("just-talk — Idle"@, seq![130u8, 130u8, 130u8, 255u8]),
    }
}

pub fn tray_look(phase: &OverlayPhase) -> (r: TrayLook)
    ensures
        (r.tooltip@, r.color@) == look_of(*phase),
{
    let r = match phase {
        OverlayPhase::Recording => TrayLook {
            tooltip: "just-talk — Recording…".to_string(),
            color: [210u8, 50u8, 50u8, 255u8],
        },
        OverlayPhase::Processing { label } => TrayLook {
            tooltip: "just-talk — ".to_string().concat(label.as_str()),
            color: [200u8, 155u8, 40u8, 255u8],
        },
        _ => TrayLook { tooltip: "just-talk — Idle".to_string(), color: [130u8, 130u8, 130u8, 255u8] },
    };
    assert(r.color@ =~= look_of(*phase).1);
    r
}

/// Remembers what the icon shows (its tooltip and colour), so it is redrawn
/// only when the look changes.
pub struct TraySync {
    tooltip: String,
    color: [u8; 4],
}

impl View for TraySync {
    type V = (Seq<char>, Seq<u8>);

    closed spec fn view(&self) -> (Seq<char>, Seq<u8>) {
        (self.tooltip@, self.color@)
    }
}

impl TraySync {
    /// The icon starts idle.
    pub fn new() -> (r: Self)
        ensures
            r@ == look_of(OverlayPhase::Hidden),
    {
        let r = TraySync {
            tooltip: "just-talk — Idle".to_string(),
            color: [130u8, 130u8, 130u8, 255u8],
        };
        assert(r.color@ =~= look_of(OverlayPhase::Hidden).1);
        r
    }

    /// Bring the icon in line with `phase`: the new look when it differs from
    /// the one shown (a new status label counts), else `None`. Afterwards the
    /// icon shows the look of `phase`.
    pub fn sync_phase(&mut self, phase: &OverlayPhase) -> (r: Option<TrayLook>)
        ensures
            final(self)@ == look_of(*phase),
            look_of(*phase) == old(self)@ ==> r is None,
            look_of(*phase) != old(self)@ ==> (r matches Some(l) && (l.tooltip@, l.color@)
                == look_of(*phase)),
    {
        let look = tray_look(phase);
        let same_color = look.color[0] == self.color[0] && look.color[1] == self.color[1]
            && look.color[2] == self.color[2] && look.color[3] == self.color[3];
        proof {
            if same_color {
                assert(look.color@ =~= self.color@);
            }
        }
        if same_color && str_eq(look.tooltip.as_str(), self.tooltip.as_str()) {
            return None;
        }
        self.tooltip = look.tooltip.clone();
        self.color = look.color;
        Some(look)
    }
}

/// The icon is red exactly while recording, amber exactly while processing
/// (its tooltip then ending in the status label), and grey otherwise; phases
/// with different looks are told apart by their colour.
pub proof fn lemma_tray_colors(phase: OverlayPhase)
    ensures
        look_of(phase).1 == seq![210u8, 50u8, 50u8, 255u8] <==> phase is Recording,
        look_of(phase).1 == seq![200u8, 155u8, 40u8, 255u8] <==> phase is Processing,
        look_of(phase).1 == seq![130u8, 130u8, 130u8, 255u8] <==> (phase is Hidden
            || phase is FadingOut),
        phase matches OverlayPhase::Processing { label } ==> look_of(phase).0.skip(
            look_of(phase).0.len() - label@.len(),
        ) == label@,
{
    let red = seq![210u8, 50u8, 50u8, 255u8];
    let amber = seq![200u8, 155u8, 40u8, 255u8];
    let grey = seq![130u8, 130u8, 130u8, 255u8];
    assert(red[0] != amber[0] && red[0] != grey[0] && amber[0] != grey[0]);
    if let OverlayPhase::Processing { label } = phase {
        let p = "just-talk — "@;
        assert((p + label@).skip((p + label@).len() - label@.len()) =~= label@);
    }
}

} // verus!
