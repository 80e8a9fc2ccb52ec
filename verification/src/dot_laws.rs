use vstd::prelude::*;
use crate::nes_memory::{NesMemory, ppu_mirror_of};
use crate::ppu2::{
    BIT_VBL, FRAME_DOTS, Ppu2, next_dot, PpuResult, WIDTH, background_step, bg_shift_on, dot_rendered, front_step,
    is_at_dot, is_bg_ls_dot, is_clear_dot, is_end_eval_dot, is_eval_dot, is_hori_dot, is_inc_h_dot,
    is_inc_v_dot, is_nt_dot, is_oam_clear_dot, is_sprite_ls_dot, is_vbl_dot, is_vert_dot,
    render_line, shifted, sprite_step, status_after, evaluated_sprite, next_line, sprite_on_line,
    BIT_SPRITE_OVERFLOW, SpriteLatch, first_sprite, pixel_of, sprite_color,
    coarse_x_increment_of, sprite_row_address,
};
use crate::ppu_ctrl::PpuCtrl;

verus! {

/// With rendering off, a dot leaves the scroll registers (v, t, fine x and the write
/// latch) and the four background shift registers as they were.
pub proof fn lemma_dot_without_rendering(p: Ppu2, m: NesMemory, q: Ppu2, n: NesMemory, r: PpuResult)
    requires
        dot_rendered(p, m, q, n, false, false, r),
    ensures
        n.ir == m.ir,
        q.pattern_shift_low == p.pattern_shift_low,
        q.pattern_shift_high == p.pattern_shift_high,
        q.attr_shift_low == p.attr_shift_low,
        q.attr_shift_high == p.attr_shift_high,
{
    let ei = p.event_index as int;
    let y = ei / WIDTH as int;
    let x = ei % WIDTH as int;
    let (p1, m1, p2, m2) = choose|p1: Ppu2, m1: NesMemory, p2: Ppu2, m2: NesMemory|
        #[trigger] front_step(p, m, p1, m1, false, false, x, y)
        && #[trigger] background_step(p1, m1, p2, m2, false, false, is_nt_dot(y, x),
            is_at_dot(y, x), is_bg_ls_dot(y, x), is_inc_h_dot(y, x), is_inc_v_dot(y, x),
            is_hori_dot(y, x), is_vert_dot(y, x), is_vbl_dot(y, x), is_clear_dot(y, x),
            render_line(y))
        && #[trigger] sprite_step(p2, m2, q, n, false, false, is_eval_dot(y, x),
            is_end_eval_dot(y, x), is_sprite_ls_dot(y, x), is_oam_clear_dot(y, x), x, y);
    assert(!bg_shift_on(false, y, x));
}

/// With rendering off over a run of dots (`ps[i]` with the bus `ms[i]` renders dot `i`,
/// giving `ps[i + 1]` and `ms[i + 1]`), the scroll registers and the background shift
/// registers end as they started.
pub proof fn lemma_dots_without_rendering(ps: Seq<Ppu2>, ms: Seq<NesMemory>, rs: Seq<PpuResult>)
    requires
        ps.len() == rs.len() + 1,
        ms.len() == rs.len() + 1,
        forall|i: int| 0 <= i < rs.len() ==> #[trigger] dot_rendered(ps[i], ms[i], ps[i + 1], ms[i + 1],
            false, false, rs[i]),
    ensures
        ms.last().ir == ms[0].ir,
        ps.last().pattern_shift_low == ps[0].pattern_shift_low,
        ps.last().pattern_shift_high == ps[0].pattern_shift_high,
        ps.last().attr_shift_low == ps[0].attr_shift_low,
        ps.last().attr_shift_high == ps[0].attr_shift_high,
    decreases rs.len(),
{
    if rs.len() > 0 {
        let k = rs.len() - 1;
        lemma_dots_without_rendering(ps.drop_last(), ms.drop_last(), rs.drop_last());
        assert(dot_rendered(ps[k], ms[k], ps[k + 1], ms[k + 1], false, false, rs[k]));
        lemma_dot_without_rendering(ps[k], ms[k], ps[k + 1], ms[k + 1], rs[k]);
        assert(ps.drop_last().last() == ps[k] && ms.drop_last().last() == ms[k]);
    }
}

/// With the background on, a dot that does not reload the shifters (no horizontal
/// increment of v) shifts each of the four background shift registers left by one on
/// the fetch dots of the rendered lines (1 to 256 and 321 to 336), and keeps them
/// elsewhere.
pub proof fn lemma_background_shift(p: Ppu2, m: NesMemory, q: Ppu2, n: NesMemory, sprite_rendering: bool,
    r: PpuResult)
    requires
        dot_rendered(p, m, q, n, sprite_rendering, true, r),
        !is_inc_h_dot(p.event_index as int / WIDTH as int, p.event_index as int % WIDTH as int),
    ensures
        ({
            let y = p.event_index as int / WIDTH as int;
            let x = p.event_index as int % WIDTH as int;
            let on = bg_shift_on(true, y, x);
            &&& on == (render_line(y) && ((1 <= x <= 256) || (321 <= x <= 336)))
            &&& q.pattern_shift_low == shifted(p.pattern_shift_low, on)
            &&& q.pattern_shift_high == shifted(p.pattern_shift_high, on)
            &&& q.attr_shift_low == shifted(p.attr_shift_low, on)
            &&& q.attr_shift_high == shifted(p.attr_shift_high, on)
        }),
{
    let ei = p.event_index as int;
    let y = ei / WIDTH as int;
    let x = ei % WIDTH as int;
    let (p1, m1, p2, m2) = choose|p1: Ppu2, m1: NesMemory, p2: Ppu2, m2: NesMemory|
        #[trigger] front_step(p, m, p1, m1, sprite_rendering, true, x, y)
        && #[trigger] background_step(p1, m1, p2, m2, sprite_rendering, true, is_nt_dot(y, x),
            is_at_dot(y, x), is_bg_ls_dot(y, x), is_inc_h_dot(y, x), is_inc_v_dot(y, x),
            is_hori_dot(y, x), is_vert_dot(y, x), is_vbl_dot(y, x), is_clear_dot(y, x),
            render_line(y))
        && #[trigger] sprite_step(p2, m2, q, n, sprite_rendering, true, is_eval_dot(y, x),
            is_end_eval_dot(y, x), is_sprite_ls_dot(y, x), is_oam_clear_dot(y, x), x, y);
}

/// The dot flags come from the dot's place in the frame: the frame starts at dot 0,
/// the picture ends at the first dot of line 240, and VBL is raised at the first dot of
/// line 241, which also sets the VBL bit of PPUSTATUS.
pub proof fn lemma_dot_flags(p: Ppu2, m: NesMemory, q: Ppu2, n: NesMemory, sprite_rendering: bool,
    background_rendering: bool, r: PpuResult)
    requires
        m.wf(),
        dot_rendered(p, m, q, n, sprite_rendering, background_rendering, r),
        p.event_index < 262 * 341,
    ensures
        r.frame_start == (p.event_index == 0),
        r.frame_end == (p.event_index == 240 * 341),
        r.vbl == (p.event_index == 241 * 341),
        r.vbl ==> n.memory@[0x2002] & (1u8 << BIT_VBL) != 0,
{
    let ei = p.event_index as int;
    let y = ei / WIDTH as int;
    let x = ei % WIDTH as int;
    assert((y == 0 && x == 0) <==> ei == 0) by (nonlinear_arith)
        requires y == ei / 341, x == ei % 341, 0 <= ei;
    assert((y == 240 && x == 0) <==> ei == 240 * 341) by (nonlinear_arith)
        requires y == ei / 341, x == ei % 341, 0 <= ei;
    assert((y == 241 && x == 0) <==> ei == 241 * 341) by (nonlinear_arith)
        requires y == ei / 341, x == ei % 341, 0 <= ei;
    reveal(is_vbl_dot);
    reveal(is_clear_dot);
    if r.vbl {
        let (p1, m1, p2, m2) = choose|p1: Ppu2, m1: NesMemory, p2: Ppu2, m2: NesMemory|
            #[trigger] front_step(p, m, p1, m1, sprite_rendering, background_rendering, x, y)
            && #[trigger] background_step(p1, m1, p2, m2, sprite_rendering, background_rendering,
                is_nt_dot(y, x), is_at_dot(y, x), is_bg_ls_dot(y, x), is_inc_h_dot(y, x),
                is_inc_v_dot(y, x), is_hori_dot(y, x), is_vert_dot(y, x), is_vbl_dot(y, x),
                is_clear_dot(y, x), render_line(y))
            && #[trigger] sprite_step(p2, m2, q, n, sprite_rendering, background_rendering,
                is_eval_dot(y, x), is_end_eval_dot(y, x), is_sprite_ls_dot(y, x),
                is_oam_clear_dot(y, x), x, y);
        assert(m1.memory@.len() == m.memory@.len());
        let s1 = m1.memory@[0x2002];
        let s2 = m2.memory@[0x2002];
        assert(is_vbl_dot(y, x) && !is_clear_dot(y, x));
        assert(m2.memory@ == m1.memory@.update(0x2002, status_after(s1, false, true, false, false)));
        assert(s2 == status_after(s1, false, true, false, false));
        let t1 = s1 | (1u8 << BIT_VBL);
        assert(status_after(s1, false, true, false, false) == t1) by {
            reveal(status_after);
        }
        assert(t1 & (1u8 << 7u8) != 0) by (bit_vector)
            requires t1 == s1 | (1u8 << 7u8);
        let s3 = n.memory@[0x2002];
        assert(s3 == s2 || s3 == s2 | (1u8 << 5u8));
        assert(s3 & (1u8 << 7u8) != 0) by (bit_vector)
            requires s3 == s2 || s3 == s2 | (1u8 << 5u8), s2 & (1u8 << 7u8) != 0;
    }
}

/// At the last dot of a frame the beam moves to the next frame and the three sprite cursors
/// (secondary OAM evaluation and clearing, sprite fetches) start again at 0.
pub proof fn lemma_frame_wrap_cursors(p: Ppu2, m: NesMemory, q: Ppu2, n: NesMemory, sprite_rendering: bool,
    background_rendering: bool, r: PpuResult)
    requires
        dot_rendered(p, m, q, n, sprite_rendering, background_rendering, r),
        p.event_index + 1 == FRAME_DOTS,
    ensures
        q.oam2_eval_index == 0,
        q.oam2_clear_index == 0,
        q.sprite_fetch_index == 0,
{
    let ei = p.event_index as int;
    let y = ei / WIDTH as int;
    let x = ei % WIDTH as int;
    assert(y == 261 && x == 340);
    reveal(is_eval_dot);
    reveal(is_end_eval_dot);
    reveal(is_sprite_ls_dot);
    reveal(is_oam_clear_dot);
    let (p1, m1, p2, m2) = choose|p1: Ppu2, m1: NesMemory, p2: Ppu2, m2: NesMemory|
        #[trigger] front_step(p, m, p1, m1, sprite_rendering, background_rendering, x, y)
        && #[trigger] background_step(p1, m1, p2, m2, sprite_rendering, background_rendering,
            is_nt_dot(y, x), is_at_dot(y, x), is_bg_ls_dot(y, x), is_inc_h_dot(y, x),
            is_inc_v_dot(y, x), is_hori_dot(y, x), is_vert_dot(y, x), is_vbl_dot(y, x),
            is_clear_dot(y, x), render_line(y))
        && #[trigger] sprite_step(p2, m2, q, n, sprite_rendering, background_rendering,
            is_eval_dot(y, x), is_end_eval_dot(y, x), is_sprite_ls_dot(y, x),
            is_oam_clear_dot(y, x), x, y);
    assert(!is_eval_dot(y, x) && !is_end_eval_dot(y, x) && !is_sprite_ls_dot(y, x)
        && !is_oam_clear_dot(y, x));
}

/// Sprite `i` of `oam` covers the line after `y`.
pub open spec fn on_next_line(oam: Seq<u8>, height: u8, y: int, i: int) -> bool {
    sprite_on_line(oam[i * 4], height, next_line(y))
}

/// How many of the first `k` sprites of `oam` cover the line after `y`.
pub open spec fn sprites_found(oam: Seq<u8>, height: u8, y: int, k: int) -> int
    decreases k,
{
    if k <= 0 {
        0
    } else {
        sprites_found(oam, height, y, k - 1) + (if on_next_line(oam, height, y, k - 1) { 1int } else { 0int })
    }
}

/// The sprites of OAM that sprite evaluation has looked at after dot `x` of a line.
pub open spec fn examined_after(x: int) -> int {
    if x < 65 { 0 } else if x > 128 { 64 } else { x - 64 }
}

/// Secondary OAM after the dots 0 to `x` of line `y`: the first `min(x, 32)` bytes cleared
/// to $FF, then the first eight sprites found among those examined copied in OAM order
/// (each with its OAM index, which has exactly `j` found sprites before it), and the
/// overflow flag set when a ninth was found.
pub open spec fn evaluated_through(q: Ppu2, n: NesMemory, oam: Seq<u8>, height: u8, y: int, x: int) -> bool {
    let found = sprites_found(oam, height, y, examined_after(x));
    let kept = if found < 8 { found } else { 8 };
    let cleared = if x < 32 { x } else { 32 };
    &&& q.oam@ == oam
    &&& n.ppu_ctrl.sprite_height == height
    &&& n.memory@.len() == 0x10000
    &&& q.event_index == y * 341 + x + 1
    &&& q.oam2_clear_index == cleared
    &&& q.oam2_eval_index == 4 * kept
    &&& forall|b: int| 4 * kept <= b < cleared ==> #[trigger] q.oam2@[b] == 0xff
    &&& forall|j: int| #![trigger q.oam2_source_index@[j]] 0 <= j < kept ==> {
        let si = q.oam2_source_index@[j] as int;
        &&& 0 <= si < 64
        &&& on_next_line(oam, height, y, si)
        &&& sprites_found(oam, height, y, si) == j
        &&& q.oam2@[4 * j] == oam[si * 4]
        &&& q.oam2@[4 * j + 1] == oam[si * 4 + 1]
        &&& q.oam2@[4 * j + 2] == oam[si * 4 + 2]
        &&& q.oam2@[4 * j + 3] == oam[si * 4 + 3]
    }
    &&& found > 8 ==> n.memory@[0x2002] & (1u8 << BIT_SPRITE_OVERFLOW) != 0
}

/// The status updates of a dot without the pre-render clear keep the sprite overflow flag.
proof fn lemma_status_keeps_overflow(s: u8, hit: bool, vbl: bool)
    ensures
        s & (1u8 << BIT_SPRITE_OVERFLOW) != 0 ==> status_after(s, hit, vbl, false, false)
            & (1u8 << BIT_SPRITE_OVERFLOW) != 0,
{
    reveal(status_after);
    crate::bit_facts::lemma_u8_fields();
    assert(s & 0x20 != 0 ==> (s | 0x40) & 0x20 != 0 && (s | 0x80) & 0x20 != 0
        && ((s | 0x40) | 0x80) & 0x20 != 0) by (bit_vector);
}

/// One dot of sprite evaluation, from the state after the dots before `x` to the state
/// after dot `x` (see `evaluated_through`).
proof fn lemma_evaluation_dot(p: Ppu2, m: NesMemory, q: Ppu2, n: NesMemory, sprite_rendering: bool,
    background_rendering: bool, r: PpuResult, oam: Seq<u8>, height: u8, y: int, x: int)
    requires
        dot_rendered(p, m, q, n, sprite_rendering, background_rendering, r),
        sprite_rendering || background_rendering,
        0 <= y < 240 || y == 261,
        0 <= x <= 256,
        p.event_index == y * 341 + x,
        x == 0 ==> p.oam@ == oam && m.ppu_ctrl.sprite_height == height && m.memory@.len() == 0x10000,
        x > 0 ==> evaluated_through(p, m, oam, height, y, x - 1),
    ensures
        evaluated_through(q, n, oam, height, y, x),
{
    let ei = p.event_index as int;
    assert(ei / 341 == y && ei % 341 == x) by (nonlinear_arith)
        requires ei == y * 341 + x, 0 <= x < 341, 0 <= y;
    assert(ei + 1 != FRAME_DOTS);
    reveal(is_eval_dot);
    reveal(is_end_eval_dot);
    reveal(is_sprite_ls_dot);
    reveal(is_oam_clear_dot);
    reveal(is_clear_dot);
    let (p1, m1, p2, m2) = choose|p1: Ppu2, m1: NesMemory, p2: Ppu2, m2: NesMemory|
        #[trigger] front_step(p, m, p1, m1, sprite_rendering, background_rendering, x, y)
        && #[trigger] background_step(p1, m1, p2, m2, sprite_rendering, background_rendering,
            is_nt_dot(y, x), is_at_dot(y, x), is_bg_ls_dot(y, x), is_inc_h_dot(y, x),
            is_inc_v_dot(y, x), is_hori_dot(y, x), is_vert_dot(y, x), is_vbl_dot(y, x),
            is_clear_dot(y, x), render_line(y))
        && #[trigger] sprite_step(p2, m2, q, n, sprite_rendering, background_rendering,
            is_eval_dot(y, x), is_end_eval_dot(y, x), is_sprite_ls_dot(y, x),
            is_oam_clear_dot(y, x), x, y);
    assert(render_line(y));
    assert(!is_end_eval_dot(y, x) && !is_sprite_ls_dot(y, x));
    assert(!is_clear_dot(y, x) || x == 1);
    // the three parts keep OAM, the control register and the size of CPU memory
    assert(p2.oam == p.oam && p2.oam2 == p.oam2 && p2.oam2_source_index == p.oam2_source_index);
    assert(q.oam == p.oam);
    assert(n.ppu_ctrl == m.ppu_ctrl);
    assert(m2.memory@.len() == m.memory@.len());
    let found_before = if x == 0 { 0 } else { sprites_found(oam, height, y, examined_after(x - 1)) };
    let found_now = sprites_found(oam, height, y, examined_after(x));
    if 65 <= x <= 128 {
        assert(examined_after(x) == examined_after(x - 1) + 1);
        assert(evaluated_sprite(oam, height, y, x) == on_next_line(oam, height, y, x - 65));
    } else {
        assert(x > 0 ==> examined_after(x) == examined_after(x - 1));
        assert(!evaluated_sprite(p.oam@, height, y, x));
    }
    // the overflow flag
    let s0 = m.memory@[0x2002];
    let s1 = m1.memory@[0x2002];
    let s2 = m2.memory@[0x2002];
    lemma_status_keeps_overflow(s0, p.sprite_0_hit_delay == 0 || p.sprite_0_hit_delay == 1, false);
    lemma_status_keeps_overflow(s1, false, is_vbl_dot(y, x));
    if x >= 65 {
        assert(!is_clear_dot(y, x));
        assert(s2 & (1u8 << BIT_SPRITE_OVERFLOW) != 0 ==> n.memory@[0x2002] & (1u8 << BIT_SPRITE_OVERFLOW) != 0)
            by {
            let t = s2;
            assert(t & (1u8 << 5u8) != 0 ==> (t | (1u8 << 5u8)) & (1u8 << 5u8) != 0) by (bit_vector);
        }
        if found_now > 8 && !(found_before > 8) {
            let t = s2;
            assert((t | (1u8 << 5u8)) & (1u8 << 5u8) != 0) by (bit_vector);
        }
    }
    if x > 0 && x <= 64 {
        assert forall|b: int| 0 <= b < (if x < 32 { x } else { 32 }) implies #[trigger] q.oam2@[b] == 0xff by {
            if b < (if x - 1 < 32 { x - 1 } else { 32 }) {
                assert(p.oam2@[b] == 0xff);
            }
        }
    }
    if x >= 65 {
        let kept_before = if found_before < 8 { found_before } else { 8 };
        assert forall|j: int| #![trigger q.oam2_source_index@[j]] 0 <= j < kept_before implies
            q.oam2_source_index@[j] == p.oam2_source_index@[j] && q.oam2@[4 * j] == p.oam2@[4 * j]
            && q.oam2@[4 * j + 1] == p.oam2@[4 * j + 1] && q.oam2@[4 * j + 2] == p.oam2@[4 * j + 2]
            && q.oam2@[4 * j + 3] == p.oam2@[4 * j + 3] by {
            assert(p.oam2_source_index@[j] == p.oam2_source_index@[j]);
        }
    }
}

/// The dots 0 to `k` of a run of dots from dot 0 of line `y` leave secondary OAM as
/// `evaluated_through` says.
proof fn lemma_evaluation_prefix(ps: Seq<Ppu2>, ms: Seq<NesMemory>, rs: Seq<PpuResult>, sprite_rendering: bool,
    background_rendering: bool, y: int, k: int)
    requires
        ps.len() == 258,
        ms.len() == 258,
        rs.len() == 257,
        forall|i: int| 0 <= i < 257 ==> #[trigger] dot_rendered(ps[i], ms[i], ps[i + 1], ms[i + 1],
            sprite_rendering, background_rendering, rs[i]),
        sprite_rendering || background_rendering,
        0 <= y < 240 || y == 261,
        ps[0].event_index == y * 341,
        ms[0].memory@.len() == 0x10000,
        0 <= k <= 256,
    ensures
        evaluated_through(ps[k + 1], ms[k + 1], ps[0].oam@, ms[0].ppu_ctrl.sprite_height, y, k),
    decreases k,
{
    let oam = ps[0].oam@;
    let height = ms[0].ppu_ctrl.sprite_height;
    assert(dot_rendered(ps[k], ms[k], ps[k + 1], ms[k + 1], sprite_rendering, background_rendering, rs[k]));
    if k > 0 {
        lemma_evaluation_prefix(ps, ms, rs, sprite_rendering, background_rendering, y, k - 1);
    }
    lemma_evaluation_dot(ps[k], ms[k], ps[k + 1], ms[k + 1], sprite_rendering, background_rendering,
        rs[k], oam, height, y, k);
}

/// Law: rendering through dots 0 to 256 of a visible or pre-render line `y` (from the
/// state `ps[0]`, `ms[0]`, each `ps[i]`, `ms[i]` rendering dot `i`) fills secondary OAM
/// with the first eight sprites of OAM that cover the next line, in OAM order: entry `j`
/// is the sprite with exactly `j` such sprites before it, copied with its OAM index; the
/// rest of secondary OAM reads $FF; and a ninth such sprite sets the overflow flag of
/// PPUSTATUS.
pub proof fn lemma_sprite_evaluation(ps: Seq<Ppu2>, ms: Seq<NesMemory>, rs: Seq<PpuResult>, sprite_rendering: bool,
    background_rendering: bool, y: int)
    requires
        ps.len() == 258,
        ms.len() == 258,
        rs.len() == 257,
        forall|i: int| 0 <= i < 257 ==> #[trigger] dot_rendered(ps[i], ms[i], ps[i + 1], ms[i + 1],
            sprite_rendering, background_rendering, rs[i]),
        sprite_rendering || background_rendering,
        0 <= y < 240 || y == 261,
        ps[0].event_index == y * 341,
        ms[0].wf(),
    ensures
        ({
            let oam = ps[0].oam@;
            let height = ms[0].ppu_ctrl.sprite_height;
            let found = sprites_found(oam, height, y, 64);
            let kept = if found < 8 { found } else { 8 };
            let q = ps[257];
            &&& q.oam2_eval_index == 4 * kept
            &&& forall|j: int| #![trigger q.oam2_source_index@[j]] 0 <= j < kept ==> {
                let si = q.oam2_source_index@[j] as int;
                &&& 0 <= si < 64
                &&& on_next_line(oam, height, y, si)
                &&& sprites_found(oam, height, y, si) == j
                &&& q.oam2@[4 * j] == oam[si * 4]
                &&& q.oam2@[4 * j + 1] == oam[si * 4 + 1]
                &&& q.oam2@[4 * j + 2] == oam[si * 4 + 2]
                &&& q.oam2@[4 * j + 3] == oam[si * 4 + 3]
            }
            &&& forall|b: int| 4 * kept <= b < 32 ==> #[trigger] q.oam2@[b] == 0xff
            &&& found > 8 ==> ms[257].memory@[0x2002] & (1u8 << BIT_SPRITE_OVERFLOW) != 0
        }),
{
    lemma_evaluation_prefix(ps, ms, rs, sprite_rendering, background_rendering, y, 256);
    assert(examined_after(256) == 64);
}

/// Along dots that follow one another from dot 0 of a frame, dot `k` of the run is dot `k`
/// of the frame.
proof fn lemma_dots_from_frame_start(h: Seq<Ppu2>, k: int)
    requires
        forall|i: int| 0 <= i < h.len() - 1 ==> #[trigger] next_dot(h[i], h[i + 1]),
        h[0].event_index == 0,
        0 <= k < h.len(),
        k < FRAME_DOTS,
    ensures
        h[k].event_index == k,
    decreases k,
{
    if k > 0 {
        lemma_dots_from_frame_start(h, k - 1);
        let j = k - 1;
        assert(next_dot(h[j], h[j + 1]));
    }
}

/// Law: over the dots of one frame, from its dot 0 to its last dot, the frame start, the
/// end of the picture and VBL are each reported exactly once, at dots 0, 240 * 341 and
/// 241 * 341.
pub proof fn lemma_flags_once_per_frame(h: Seq<Ppu2>, rs: Seq<PpuResult>)
    requires
        h.len() == FRAME_DOTS,
        rs.len() == FRAME_DOTS,
        forall|i: int| 0 <= i < h.len() - 1 ==> #[trigger] next_dot(h[i], h[i + 1]),
        h[0].event_index == 0,
        forall|i: int| 0 <= i < rs.len() ==> (#[trigger] rs[i]).frame_start == (h[i].event_index == 0)
            && rs[i].frame_end == (h[i].event_index == 240 * 341) && rs[i].vbl == (h[i].event_index == 241 * 341),
    ensures
        forall|i: int| 0 <= i < rs.len() ==> ((#[trigger] rs[i]).frame_start <==> i == 0)
            && (rs[i].frame_end <==> i == 240 * 341) && (rs[i].vbl <==> i == 241 * 341),
{
    assert forall|i: int| 0 <= i < rs.len() implies ((#[trigger] rs[i]).frame_start <==> i == 0)
        && (rs[i].frame_end <==> i == 240 * 341) && (rs[i].vbl <==> i == 241 * 341) by {
        lemma_dots_from_frame_start(h, i);
    }
}

/// A palette write and a later palette read meet at the same entry exactly when the two
/// addresses agree modulo 32: every mirror of a palette entry reads back what was written
/// (six bits).
pub proof fn lemma_palette_mirrors(palette: Seq<u8>, address: u16, value: u8, b: u16)
    requires
        palette.len() == 32,
        0x3f00 <= address < 0x4000,
        0x3f00 <= b < 0x4000,
        b % 0x20 == address % 0x20,
    ensures
        !(0x2000 <= ppu_mirror_of(b) <= 0x2fff),
        palette.update((ppu_mirror_of(address) & 0x1f) as int, value & 0x3f)[
            (ppu_mirror_of(b) & 0x1f) as int] == value & 0x3f,
{
    assert((ppu_mirror_of(b) & 0x1f) == (ppu_mirror_of(address) & 0x1f)
        && (ppu_mirror_of(address) & 0x1f) < 32
        && !(0x2000 <= ppu_mirror_of(b) <= 0x2fff)) by (bit_vector)
        requires
            0x3f00 <= address < 0x4000,
            0x3f00 <= b < 0x4000,
            b % 0x20 == address % 0x20;
}

/// The sprite row that a pixel shows is the first one in OAM order whose pixel at `dot_x`
/// is opaque: every row before it is transparent there, and when none is opaque the search
/// ends past the last row.
pub proof fn lemma_first_opaque_sprite(latches: Seq<SpriteLatch>, dot_x: int, from: int)
    requires
        0 <= from <= latches.len(),
    ensures
        from <= first_sprite(latches, dot_x, from) <= latches.len(),
        first_sprite(latches, dot_x, from) < latches.len()
            ==> sprite_color(latches[first_sprite(latches, dot_x, from)], dot_x) != 0,
        forall|j: int| from <= j < first_sprite(latches, dot_x, from)
            ==> #[trigger] sprite_color(latches[j], dot_x) == 0,
    decreases latches.len() - from,
{
    if from < latches.len() && sprite_color(latches[from], dot_x) == 0 {
        lemma_first_opaque_sprite(latches, dot_x, from + 1);
        assert forall|j: int| from <= j < first_sprite(latches, dot_x, from)
            implies #[trigger] sprite_color(latches[j], dot_x) == 0 by {
            if j > from {
                assert(from + 1 <= j < first_sprite(latches, dot_x, from + 1));
            }
        }
    }
}

/// Sprite priority: where a visible sprite row has an opaque pixel, a row whose
/// attribute bit 5 is clear (in front) is drawn over any background pixel; a row with
/// bit 5 set (behind) shows only where the background pixel is transparent or hidden,
/// and an opaque background pixel covers it. Where no sprite pixel is opaque, or sprites
/// are hidden, the background colour (the backdrop where it is transparent or hidden) is
/// drawn, and there is no sprite 0 hit. A sprite 0 hit is an opaque pixel of OAM sprite 0
/// over an opaque background pixel, below the first scanline, left of x = 255 and outside a
/// clipped left edge.
pub proof fn lemma_sprite_priority(idx: u16, palette: Seq<u8>, latches: Seq<SpriteLatch>, sprite: bool,
    bg: bool, clip_sprites: bool, clip_background: bool, dot_x: int, dot_y: int)
    requires
        palette.len() == 32,
    ensures
        ({
            let k: int = first_sprite(latches, dot_x, 0);
            let sprites_shown = sprite && !(dot_x < 8 && clip_sprites);
            let bg_shown = bg && !(dot_x < 8 && clip_background);
            let bg_opaque = bg_shown && idx % 4 != 0;
            let bg_colour = if bg_opaque { palette[(idx % 32) as int] } else { palette[0] };
            let colour = pixel_of(idx, palette, latches, sprite, bg, clip_sprites, clip_background,
                dot_x, dot_y).0;
            &&& (sprites_shown && k < latches.len()) ==> {
                let s = latches[k];
                let sprite_colour = palette[16 + 4 * (s.attr % 4) + sprite_color(s, dot_x)];
                &&& sprite_color(s, dot_x) != 0
                &&& (s.attr / 32) % 2 == 0 ==> colour == sprite_colour
                &&& ((s.attr / 32) % 2 == 1 && bg_opaque) ==> colour == bg_colour
                &&& ((s.attr / 32) % 2 == 1 && !bg_opaque) ==> colour == sprite_colour
                &&& pixel_of(idx, palette, latches, sprite, bg, clip_sprites, clip_background, dot_x,
                    dot_y).1 == (s.source_index == 0 && bg_opaque && dot_y > 0 && dot_x < 255
                    && !(dot_x < 8 && (clip_sprites || clip_background)))
            }
            &&& !(sprites_shown && k < latches.len()) ==> colour == bg_colour
                && !pixel_of(idx, palette, latches, sprite, bg, clip_sprites, clip_background,
                    dot_x, dot_y).1
        }),
{
    reveal(pixel_of);
    lemma_first_opaque_sprite(latches, dot_x, 0);
    let k: int = first_sprite(latches, dot_x, 0);
    crate::bit_facts::lemma_word_fields();
    crate::bit_facts::lemma_u8_fields();
    crate::bit_facts::lemma_u8_masks();
    assert(idx & 3 == idx % 4 && idx & 0x1f == idx % 32);
    if 0 <= k < latches.len() {
        let s = latches[k];
        let c: u8 = sprite_color(s, dot_x);
        assert(c < 4) by {
            let dx: int = dot_x - s.x;
            if 0 <= dx < 8 {
                let bit: u8 = if s.attr & 0x40 != 0 { dx as u8 } else { (7 - dx) as u8 };
                let h: u8 = s.high;
                let l: u8 = s.low;
                assert((((h >> bit) & 1) << 1u8) | ((l >> bit) & 1) < 4);
            }
        }
        let a: u8 = s.attr;
        assert((a & 3) == a % 4 && (a & 0x20) == 32 * ((a / 32) % 2));
    }
}

/// Law: the coarse X increment of a tile fetch moves `v` to the next tile of the row: below
/// tile 31 it adds one and keeps every other bit; from tile 31 it wraps to tile 0 and
/// switches to the other horizontal nametable (bit 10), keeping the other bits.
pub proof fn lemma_coarse_x_increment(v: u16)
    ensures
        v % 32 < 31 ==> coarse_x_increment_of(v) == v + 1,
        v % 32 == 31 && (v / 1024) % 2 == 0 ==> coarse_x_increment_of(v) == v - 31 + 1024,
        v % 32 == 31 && (v / 1024) % 2 == 1 ==> coarse_x_increment_of(v) == v - 31 - 1024,
{
    let r: u16 = coarse_x_increment_of(v);
    assert((v % 32 < 31 ==> r == v + 1)
        && (v % 32 == 31 && (v / 1024) % 2 == 0 ==> r == v - 31 + 1024)
        && (v % 32 == 31 && (v / 1024) % 2 == 1 ==> r == v - 31 - 1024)) by (bit_vector)
        requires
            r == (if v & 0x1f == 31 { (v & !0x1fu16) ^ 0x400 } else {
                (v & !0x1fu16) | (((v & 0x1f) + 1) as u16) });
}


/// Law: the pattern row fetched for line `y` (0 up to the sprite height) of a sprite: an
/// 8x8 sprite reads row `y` of its tile in the sprite pattern table, an 8x16 sprite reads
/// row `y % 8` of tile `tile - tile % 2 + y / 8` in the table picked by bit 0 of the tile
/// ($0000 or $1000); vertical flip (attribute bit 7) reads line `height - 1 - y` instead.
pub proof fn lemma_sprite_rows(ctrl: PpuCtrl, tile: u8, attr: u8, sy: int, y: int)
    requires
        ctrl.sprite_height == 8 || ctrl.sprite_height == 16,
        0 <= y < ctrl.sprite_height,
        ctrl.sprite_table == 0 || ctrl.sprite_table == 0x1000,
    ensures
        ({
            let h = ctrl.sprite_height as int;
            let line = if attr >= 128 { h - 1 - y } else { y };
            let addr = sprite_row_address(ctrl, tile, attr, sy, sy + y) as int;
            &&& h == 8 ==> addr == ctrl.sprite_table + 16 * tile + line
            &&& h == 16 ==> addr == 0x1000 * (tile % 2) + 16 * (tile - tile % 2 + line / 8) + line % 8
        }),
{
    crate::bit_facts::lemma_u8_fields();
    assert(attr & 0x80 == 128 * (attr / 128) && tile & 0xfe == 2 * (tile / 2) && tile & 1 == tile % 2);
}


} // verus!
