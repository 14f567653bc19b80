//! Laws of the transition function, each proved from its definition.

use vstd::prelude::*;
use crate::instr::{decode_spec, Instr};
use crate::layout::{
    FLAG_REG, FONTSET_SIZE, FONT_BASE_ADDR, SCREEN_HEIGHT, SCREEN_SIZE, SCREEN_WIDTH, STACK_SIZE,
    START_ADDR,
};
use crate::machine::{font_byte, holds_font, Machine};
use crate::sprite::{
    collides, covered, draw, lemma_draw_twice_restores, lemma_second_draw_collides, lights,
};
use crate::step::{
    after, apply, awaits_key, can_fetch, draw_column, draw_row, draw_rows, fault_of, flag,
    opcode_at, sprite_of, step, Fault,
};

verus! {

/// Every instruction word decodes to an instruction whose operands are in
/// range, or to none.
pub proof fn lemma_decode_wf(op: u16)
    ensures
        decode_spec(op) matches Some(instr) ==> instr.wf(),
{
}

/// A step keeps every component of the machine at its size and the stack
/// within capacity.
pub proof fn lemma_step_preserves_wf(m: Machine, rnd: u8)
    requires
        m.wf(),
    ensures
        after(m, rnd).wf(),
{
    if can_fetch(m) {
        lemma_decode_wf(opcode_at(m));
    }
}

/// A step that runs into a fault changes nothing.
pub proof fn lemma_fault_changes_nothing(m: Machine, rnd: u8)
    requires
        step(m, rnd) is Err,
    ensures
        after(m, rnd) == m,
{
}

/// A machine at an instruction that waits for a key makes no progress by
/// stepping: it stays exactly where it is, whatever the random byte.
pub proof fn lemma_wait_suspends(m: Machine, rnd: u8)
    requires
        awaits_key(m),
    ensures
        step(m, rnd) == Ok::<Machine, Fault>(m),
{
}

/// Only an instruction that asks for a random byte depends on it.
pub proof fn lemma_random_only_where_asked(m: Machine, instr: Instr, r1: u8, r2: u8)
    requires
        !(instr is Random),
    ensures
        apply(m, instr, r1) == apply(m, instr, r2),
{
}

/// The font lies wholly below the address at which programs are loaded.
pub proof fn lemma_font_below_programs()
    ensures
        FONT_BASE_ADDR + FONTSET_SIZE <= START_ADDR,
{
}

/// A machine in its initial state holds the font.
pub proof fn lemma_initial_holds_font()
    ensures
        holds_font(Machine::initial().ram),
        Machine::initial().wf(),
{
}

/// Loading a program image changes no byte below `START_ADDR`; the eighty
/// bytes at the font's place in particular are what they were, whatever
/// the image and however long it is.
pub proof fn lemma_load_keeps_font(m: Machine, image: Seq<u8>)
    requires
        m.wf(),
    ensures
        m.load(image).wf(),
        forall|a: int| 0 <= a < START_ADDR ==> m.load(image).ram[a] == m.ram[a],
        forall|i: int|
            0 <= i < FONTSET_SIZE ==> #[trigger] font_byte(m.load(image).ram, i) == font_byte(
                m.ram,
                i,
            ),
        holds_font(m.ram) ==> holds_font(m.load(image).ram),
{
    assert forall|i: int| 0 <= i < FONTSET_SIZE implies #[trigger] font_byte(
        m.load(image).ram,
        i,
    ) == font_byte(m.ram, i) by {
        assert(m.load(image).ram[FONT_BASE_ADDR + i] == m.ram[FONT_BASE_ADDR + i]);
    }
}

/// A machine that has only been loaded since it started holds the font,
/// whatever was loaded.
pub proof fn lemma_font_after_load(image: Seq<u8>)
    ensures
        holds_font(Machine::initial().load(image).ram),
{
    lemma_initial_holds_font();
    lemma_load_keeps_font(Machine::initial(), image);
}

/// A step writes memory only at and above the index register: where the
/// index register lies beyond the font, a step leaves the font alone.
pub proof fn lemma_step_keeps_font(m: Machine, rnd: u8)
    requires
        m.wf(),
        m.i >= FONT_BASE_ADDR + FONTSET_SIZE,
    ensures
        forall|i: int|
            0 <= i < FONTSET_SIZE ==> #[trigger] font_byte(after(m, rnd).ram, i) == font_byte(
                m.ram,
                i,
            ),
        holds_font(m.ram) ==> holds_font(after(m, rnd).ram),
{
    if can_fetch(m) {
        lemma_decode_wf(opcode_at(m));
    }
    assert forall|i: int| 0 <= i < FONTSET_SIZE implies #[trigger] font_byte(
        after(m, rnd).ram,
        i,
    ) == font_byte(m.ram, i) by {
        assert(after(m, rnd).ram[FONT_BASE_ADDR + i] == m.ram[FONT_BASE_ADDR + i]);
    }
}

/// Clearing the screen leaves a framebuffer of exactly 64 x 32 pixels, all
/// of them off, whatever it showed before; every other component of the
/// machine is what it was.
pub proof fn lemma_clear_screen_blank(m: Machine)
    ensures
        m.clear_screen().screen.len() == SCREEN_WIDTH * SCREEN_HEIGHT,
        SCREEN_WIDTH == 64 && SCREEN_HEIGHT == 32,
        forall|p: int| 0 <= p < SCREEN_WIDTH * SCREEN_HEIGHT ==> !m.clear_screen().screen[p],
        m.clear_screen() == (Machine { screen: m.clear_screen().screen, ..m }),
{
}

/// Addition with carry: the flag register ends as 1 exactly when the sum of
/// the two registers exceeds 255, and the target register, where it is not
/// the flag register itself, ends as the sum modulo 256.
pub proof fn lemma_add_with_carry(m: Machine, x: u8, y: u8, rnd: u8)
    requires
        m.wf(),
        x < 16,
        y < 16,
    ensures
        ({
            let a = m.v[x as int] as int;
            let b = m.v[y as int] as int;
            let next = apply(m, Instr::AddReg { x, y }, rnd);
            &&& next.v[FLAG_REG as int] == flag(a + b > 255)
            &&& (x != FLAG_REG ==> next.v[x as int] == (a + b) % 256)
            &&& forall|r: int| 0 <= r < 16 && r != x && r != FLAG_REG ==> next.v[r] == m.v[r]
        }),
{
}

/// Subtraction with borrow: the target register ends as the difference of
/// the two registers modulo 256, and the flag register, where it is not the
/// target itself, ends as 1 exactly when the first is at least the second.
pub proof fn lemma_sub_with_borrow(m: Machine, x: u8, y: u8, rnd: u8)
    requires
        m.wf(),
        x < 16,
        y < 16,
    ensures
        ({
            let a = m.v[x as int] as int;
            let b = m.v[y as int] as int;
            let next = apply(m, Instr::SubReg { x, y }, rnd);
            &&& next.v[x as int] == (a - b) % 256
            &&& (x != FLAG_REG ==> next.v[FLAG_REG as int] == flag(a >= b))
            &&& forall|r: int| 0 <= r < 16 && r != x && r != FLAG_REG ==> next.v[r] == m.v[r]
        }),
{
}

/// Reverse subtraction: the target register ends as the second register
/// minus the first modulo 256, and the flag register, where it is not the
/// target itself, ends as 1 exactly when the second is at least the first.
pub proof fn lemma_sub_reverse(m: Machine, x: u8, y: u8, rnd: u8)
    requires
        m.wf(),
        x < 16,
        y < 16,
    ensures
        ({
            let a = m.v[x as int] as int;
            let b = m.v[y as int] as int;
            let next = apply(m, Instr::SubReverse { x, y }, rnd);
            &&& next.v[x as int] == (b - a) % 256
            &&& (x != FLAG_REG ==> next.v[FLAG_REG as int] == flag(b >= a))
        }),
{
}

/// After the instruction that clears the screen, the framebuffer has
/// exactly 64 x 32 pixels and every one of them is off.
pub proof fn lemma_clear_screen(m: Machine, rnd: u8)
    requires
        m.wf(),
        can_fetch(m),
        decode_spec(opcode_at(m)) == Some(Instr::ClearScreen),
    ensures
        step(m, rnd) is Ok,
        after(m, rnd).screen.len() == SCREEN_WIDTH * SCREEN_HEIGHT,
        forall|p: int| 0 <= p < SCREEN_SIZE ==> !after(m, rnd).screen[p],
{
}

/// Drawing a sprite twice at one origin gives the framebuffer back. The
/// second draw leaves the flag register at 1 exactly when the first one lit
/// a pixel that was dark.
pub proof fn lemma_draw_twice(m: Machine, x: u8, y: u8, n: u8, r1: u8, r2: u8)
    requires
        m.wf(),
        x < 16,
        y < 16,
        n < 16,
        fault_of(m, Instr::Draw { x, y, n }) is None,
    ensures
        ({
            let instr = Instr::Draw { x, y, n };
            let once = apply(m, instr, r1);
            let twice = apply(once, instr, r2);
            let vx = draw_column(m, x);
            let vy = draw_row(m, y);
            &&& fault_of(once, instr) is None
            &&& twice.screen == m.screen
            &&& twice.v[FLAG_REG as int] == flag(lights(m.screen, sprite_of(m, y, n), vx, vy))
        }),
{
    let instr = Instr::Draw { x, y, n };
    let once = apply(m, instr, r1);
    let vx = draw_column(m, x);
    let vy = draw_row(m, y);
    let sprite = sprite_of(m, y, n);
    assert(once.v.update(FLAG_REG as int, 0u8) =~= m.v.update(FLAG_REG as int, 0u8));
    assert(draw_column(once, x) == vx && draw_row(once, y) == vy);
    assert(draw_rows(once, y, n) == draw_rows(m, y, n));
    assert(sprite_of(once, y, n) == sprite);
    assert(once.screen == draw(m.screen, sprite, vx, vy));
    lemma_draw_twice_restores(m.screen, sprite, vx, vy);
    lemma_second_draw_collides(m.screen, sprite, vx, vy);
}

/// On a framebuffer with every pixel off, the first draw of a sprite leaves
/// the flag register at 0, and a second draw at the same origin leaves it
/// at 1 where the sprite has a set bit on the screen.
pub proof fn lemma_draw_twice_on_blank(m: Machine, x: u8, y: u8, n: u8, r1: u8, r2: u8)
    requires
        m.wf(),
        x < 16,
        y < 16,
        n < 16,
        fault_of(m, Instr::Draw { x, y, n }) is None,
        forall|p: int| 0 <= p < SCREEN_SIZE ==> !m.screen[p],
    ensures
        ({
            let instr = Instr::Draw { x, y, n };
            let once = apply(m, instr, r1);
            let twice = apply(once, instr, r2);
            let vx = draw_column(m, x);
            let vy = draw_row(m, y);
            let sprite = sprite_of(m, y, n);
            &&& once.v[FLAG_REG as int] == 0
            &&& once.screen == Seq::new(
                SCREEN_SIZE as nat,
                |p: int| covered(sprite, vx, vy, p),
            )
            &&& twice.v[FLAG_REG as int] == flag(
                exists|p: int|
                    0 <= p < SCREEN_SIZE && #[trigger] covered(sprite, vx, vy, p),
            )
        }),
{
    lemma_draw_twice(m, x, y, n, r1, r2);
    let instr = Instr::Draw { x, y, n };
    let once = apply(m, instr, r1);
    let vx = draw_column(m, x);
    let vy = draw_row(m, y);
    let sprite = sprite_of(m, y, n);
    assert(!collides(m.screen, sprite, vx, vy));
    assert(once.screen =~= Seq::new(
        SCREEN_SIZE as nat,
        |p: int| covered(sprite, vx, vy, p),
    ));
    if lights(m.screen, sprite, vx, vy) {
        let p = choose|p: int|
            0 <= p < m.screen.len() && !m.screen[p] && #[trigger] covered(
                sprite,
                vx,
                vy,
                p,
            );
        assert(0 <= p < SCREEN_SIZE && covered(sprite, vx, vy, p));
    }
    if exists|p: int| 0 <= p < SCREEN_SIZE && #[trigger] covered(sprite, vx, vy, p) {
        let p = choose|p: int|
            0 <= p < SCREEN_SIZE && #[trigger] covered(sprite, vx, vy, p);
        assert(!m.screen[p] && covered(sprite, vx, vy, p));
    }
}

/// The value of a timer that started at `t` after `k` ticks.
pub open spec fn timer_after(t: u8, k: nat) -> int {
    if t >= k {
        t - k
    } else {
        0
    }
}

/// After `k` ticks each timer stands at its initial value less `k`, or at
/// zero where that would be negative; nothing else has changed.
pub proof fn lemma_ticks(m: Machine, k: nat)
    ensures
        m.ticks(k).delay == timer_after(m.delay, k),
        m.ticks(k).sound == timer_after(m.sound, k),
        m.ticks(k) == (Machine { delay: m.ticks(k).delay, sound: m.ticks(k).sound, ..m }),
    decreases k,
{
    if k > 0 {
        lemma_ticks(m.tick(), (k - 1) as nat);
    }
}

/// A timer never goes up: after more ticks it is no higher.
pub proof fn lemma_ticks_monotone(m: Machine, j: nat, k: nat)
    requires
        j <= k,
    ensures
        m.ticks(k).delay <= m.ticks(j).delay,
        m.ticks(k).sound <= m.ticks(j).sound,
{
    lemma_ticks(m, j);
    lemma_ticks(m, k);
}

/// A call followed by a return: where the stack has room, the call jumps to
/// its target; where a return stands there, the next step brings the
/// program counter to the instruction after the call and the stack to what
/// it was.
pub proof fn lemma_call_return(m: Machine, addr: u16, r1: u8, r2: u8)
    requires
        m.wf(),
        can_fetch(m),
        decode_spec(opcode_at(m)) == Some(Instr::Call { addr }),
        m.stack.len() < STACK_SIZE,
        addr + 1 < 4096,
        decode_spec(
            (m.ram[addr as int] as int * 256 + m.ram[addr as int + 1] as int) as u16,
        ) == Some(Instr::Return),
    ensures
        step(m, r1) is Ok,
        ({
            let called = after(m, r1);
            &&& called.pc == addr
            &&& called.stack == m.stack.push((m.pc + 2) as u16)
            &&& step(called, r2) is Ok
            &&& after(called, r2).pc == m.pc + 2
            &&& after(called, r2) == (Machine { pc: (m.pc + 2) as u16, ..m })
        }),
{
    let called = after(m, r1);
    assert(called.ram == m.ram);
    assert(opcode_at(called) == (m.ram[addr as int] as int * 256 + m.ram[addr as int + 1] as int) as u16);
    let back = after(called, r2);
    assert(back.stack =~= m.stack);
    assert(back =~= (Machine { pc: (m.pc + 2) as u16, ..m }));
}

} // verus!
