//! The timetable of a frame: what holds of the counters and of the pending
//! interrupt after any number of dots.

use vstd::prelude::*;
use crate::cartridge::Mirroring;
use crate::ppu::{
    spec_mirror_vram_addr,
    PpuState,
    DOTS_PER_SCANLINE,
    PRE_RENDER_SCANLINE,
    SCANLINES_PER_FRAME,
    VBLANK_SCANLINE,
};

verus! {

/// Dots in one frame.
pub open spec fn dots_per_frame() -> nat {
    (DOTS_PER_SCANLINE * SCANLINES_PER_FRAME) as nat
}

/// One dot changes neither the memories nor the registers that the CPU
/// writes; it moves the counters as a clock does.
pub proof fn lemma_tick(s: PpuState)
    requires
        s.wf(),
    ensures
        s.tick().wf(),
        s.tick().ctrl == s.ctrl,
        s.tick().mask == s.mask,
        s.tick().oam == s.oam,
        s.tick().dot == (s.dot + 1) % (DOTS_PER_SCANLINE as int),
        s.tick().scanline == (s.scanline + (s.dot + 1) / (DOTS_PER_SCANLINE as int)) % (
        SCANLINES_PER_FRAME as int),
{
}

/// Advancing by `n + 1` dots is advancing by `n` dots and then by one.
pub proof fn lemma_ticks_step(s: PpuState, n: nat)
    ensures
        s.ticks(n + 1) == s.ticks(n).tick(),
    decreases n,
{
    if n == 0 {
        assert(s.ticks(1) == s.tick().ticks(0));
    } else {
        lemma_ticks_step(s.tick(), (n - 1) as nat);
        assert(s.ticks(n + 1) == s.tick().ticks(n));
    }
}

/// Advancing by `m + n` dots is advancing by `m` dots and then by `n`.
pub proof fn lemma_ticks_add(s: PpuState, m: nat, n: nat)
    ensures
        s.ticks(m + n) == s.ticks(m).ticks(n),
    decreases m,
{
    if m == 0 {
    } else {
        lemma_ticks_add(s.tick(), (m - 1) as nat, n);
        assert(s.ticks(m + n) == s.tick().ticks((m + n - 1) as nat));
    }
}

/// The position of the beam `n` dots from now: the dot counter counts
/// modulo 341 and carries into the scanline counter, which counts modulo
/// 262. Both counters stay in range, and Control and Mask are untouched.
pub proof fn lemma_ticks_counters(s: PpuState, n: nat)
    requires
        s.wf(),
    ensures
        s.ticks(n).wf(),
        s.ticks(n).ctrl == s.ctrl,
        s.ticks(n).mask == s.mask,
        s.ticks(n).dot == (s.dot + n) % (DOTS_PER_SCANLINE as int),
        s.ticks(n).scanline == (s.scanline + (s.dot + n) / (DOTS_PER_SCANLINE as int)) % (
        SCANLINES_PER_FRAME as int),
    decreases n,
{
    if n == 0 {
    } else {
        lemma_ticks_counters(s, (n - 1) as nat);
        lemma_ticks_step(s, (n - 1) as nat);
        lemma_tick(s.ticks((n - 1) as nat));
    }
}

/// A frame lasts exactly 341 x 262 dots: from the first dot of scanline 0
/// the beam is back there after that many dots, and at no dot before.
pub proof fn law_frame_length(s: PpuState, k: nat)
    requires
        s.wf(),
        s.scanline == 0,
        s.dot == 0,
    ensures
        s.ticks(dots_per_frame()).scanline == 0,
        s.ticks(dots_per_frame()).dot == 0,
        0 < k < dots_per_frame() ==> !(s.ticks(k).scanline == 0 && s.ticks(k).dot == 0),
{
    lemma_ticks_counters(s, dots_per_frame());
    lemma_ticks_counters(s, k);
}

/// The first dot of the vertical blank, counted from the start of a frame.
pub open spec fn vblank_start() -> nat {
    (DOTS_PER_SCANLINE * VBLANK_SCANLINE) as nat
}

/// The first dot of the pre-render line, counted from the start of a frame.
pub open spec fn pre_render_start() -> nat {
    (DOTS_PER_SCANLINE * PRE_RENDER_SCANLINE) as nat
}

/// Number of dots between the start of the frame and the beam.
pub open spec fn frame_position(s: PpuState) -> nat {
    (s.scanline * DOTS_PER_SCANLINE + s.dot) as nat
}

/// The beam counts dots modulo the length of a frame.
pub proof fn lemma_ticks_position(s: PpuState, n: nat)
    requires
        s.wf(),
    ensures
        frame_position(s.ticks(n)) == ((frame_position(s) + n) as int) % (dots_per_frame() as int),
{
    lemma_ticks_counters(s, n);
    let carried = (s.dot + n) / 341;
    let dot = (s.dot + n) % 341;
    let lines = s.scanline + carried;
    let frames = lines / 262;
    let line = lines % 262;
    assert(s.dot + n == 341 * carried + dot);
    assert(lines == 262 * frames + line);
    assert(frame_position(s) + n == 89342 * frames + (341 * line + dot));
    assert(0 <= 341 * line + dot < 89342);
    assert(dots_per_frame() == 89342);
    assert(frame_position(s.ticks(n)) == 341 * line + dot);
}

/// The pending interrupt, from any state and for any span that ends before
/// the vertical blank of the next frame. `n` dots on it is pending in two
/// cases: it was pending and the span has not crossed into the pre-render
/// line; or Control asks for it and the span has crossed into the vertical
/// blank of this frame and not yet into the pre-render line.
pub proof fn law_interrupt_after(s: PpuState, n: nat)
    requires
        s.wf(),
        frame_position(s) + n < dots_per_frame() + vblank_start(),
    ensures
        s.ticks(n).nmi is Some <==> ((s.nmi is Some && (frame_position(s) >= pre_render_start()
            || frame_position(s) + n < pre_render_start())) || (
        s.ctrl.spec_generate_vblank_nmi() && frame_position(s) < vblank_start() <= frame_position(
            s,
        ) + n < pre_render_start())),
    decreases n,
{
    if n == 0 {
    } else {
        let j = (n - 1) as nat;
        law_interrupt_after(s, j);
        lemma_ticks_counters(s, j);
        lemma_ticks_step(s, j);
        lemma_tick(s.ticks(j));
    }
}

/// The pending interrupt, from any position of the beam with none pending
/// and for any span that ends before the vertical blank of the next frame:
/// `n` dots on it is pending exactly when Control asks for the interrupt
/// and the span has crossed into the vertical blank of this frame and not
/// yet into the pre-render line.
pub proof fn law_interrupt_from(s: PpuState, n: nat)
    requires
        s.wf(),
        s.nmi is None,
        frame_position(s) + n < dots_per_frame() + vblank_start(),
    ensures
        s.ticks(n).nmi is Some <==> (s.ctrl.spec_generate_vblank_nmi() && frame_position(s)
            < vblank_start() <= frame_position(s) + n < pre_render_start()),
{
    law_interrupt_after(s, n);
}

/// No interrupt is pending now or at any of the next `dots` dots.
pub open spec fn quiet_for(s: PpuState, dots: nat) -> bool {
    forall|k: nat| k <= dots ==> (#[trigger] s.ticks(k)).nmi is None
}

/// The unit is quiet for a span with no interrupt pending at its start,
/// unless Control asks for the interrupt and the span crosses into the
/// vertical blank.
pub proof fn lemma_quiet_for(s: PpuState, dots: nat)
    requires
        s.wf(),
        s.nmi is None,
        frame_position(s) + dots < dots_per_frame() + vblank_start(),
        !s.ctrl.spec_generate_vblank_nmi() || frame_position(s) + dots < vblank_start()
            || frame_position(s) >= vblank_start(),
    ensures
        quiet_for(s, dots),
{
    assert forall|k: nat| k <= dots implies (#[trigger] s.ticks(k)).nmi is None by {
        law_interrupt_from(s, k);
    }
}

/// The pending interrupt over one frame that starts with none pending:
/// `k` dots into the frame it is pending exactly when the beam is between
/// the entry of scanline 241 and the entry of scanline 261 and Control asks
/// for the interrupt. So it rises once, on entering scanline 241, if and
/// only if Control asks for it, and is down again on entering scanline 261.
pub proof fn law_interrupt_within_frame(s: PpuState, k: nat)
    requires
        s.wf(),
        s.scanline == 0,
        s.dot == 0,
        s.nmi is None,
        k <= dots_per_frame(),
    ensures
        s.ticks(k).nmi is Some <==> (vblank_start() <= k < pre_render_start()
            && s.ctrl.spec_generate_vblank_nmi()),
{
    law_interrupt_from(s, k);
}

/// A pending interrupt persists: a dot takes it away only on entering the
/// pre-render line, and no write to a register and no read of Status or
/// Data takes it away.
pub proof fn law_interrupt_persists(s: PpuState, value: u8)
    requires
        s.wf(),
        s.nmi is Some,
    ensures
        s.tick().nmi is None ==> s.tick().scanline == PRE_RENDER_SCANLINE && s.tick().dot == 0,
        s.write_to_ctrl(value).nmi is Some,
        s.write_to_mask(value).nmi is Some,
        s.read_status().1.nmi is Some,
        s.write_to_oam_addr(value).nmi is Some,
        s.write_to_oam_data(value).nmi is Some,
        s.write_to_scroll(value).nmi is Some,
        s.write_to_ppu_addr(value).nmi is Some,
        s.write_to_data(value).nmi is Some,
        s.read_data().1.nmi is Some,
{
}

/// Under vertical mirroring the fourth nametable is the second one, cell
/// for cell; under horizontal mirroring it is the third one.
pub proof fn law_fourth_nametable_mirrors(offset: u16)
    requires
        offset < 0x400,
    ensures
        spec_mirror_vram_addr(Mirroring::VERTICAL, (0x2C00 + offset) as u16)
            == spec_mirror_vram_addr(Mirroring::VERTICAL, (0x2400 + offset) as u16),
        spec_mirror_vram_addr(Mirroring::HORIZONTAL, (0x2C00 + offset) as u16)
            == spec_mirror_vram_addr(Mirroring::HORIZONTAL, (0x2800 + offset) as u16),
{
}

} // verus!
