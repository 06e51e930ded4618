//! What holds of the instruction set, the compositor and the loader for
//! every state and every input.

use crate::graphics::{
    collides, draw_sprite, erases, lemma_xor_twice, screen_wf, sprite_bit, sprite_cell, Screen,
};
use crate::instructions::{Instruction, InstructionParser};
use crate::memory::{initial_memory, load_image};
use crate::opcodes::decode_by_nibbles;
use crate::opcodesv2::decode_by_table;
use crate::state::{
    last_pressed, opcode_at, sum_16, timer_step, Fault, Outcome, State, TIMER_PERIOD,
};
use vstd::prelude::*;

verus! {

/// Only a `Random` instruction depends on the byte that is drawn.
pub proof fn lemma_random_only<T>(s: State<T>, ins: Instruction, a: u8, b: u8)
    requires
        !(ins is Random),
    ensures
        s.step(ins, a) == s.step(ins, b),
{
}

/// An instruction that comes out of a decoder names registers below 16 and
/// a sprite of at most 15 rows: it is never refused for its operands, in
/// any state.
pub proof fn lemma_decoded_operands<T>(s: State<T>, opcode: u16)
    ensures
        decode_by_nibbles(opcode) matches Some(ins) ==> s.fault(ins) != Some(
            Fault::InvalidRegister,
        ) && s.fault(ins) != Some(Fault::SpriteHeight),
        decode_by_table(opcode) matches Some(ins) ==> s.fault(ins) != Some(Fault::InvalidRegister)
            && s.fault(ins) != Some(Fault::SpriteHeight),
{
}

/// A shift to the right stores the operand shifted by one bit and puts the
/// bit that fell out into the flag register; where the operand is the flag
/// register itself, the shifted value stands there.
pub proof fn lemma_shift_right<T>(s: State<T>, x: u8, random: u8)
    requires
        s.wf(),
        x < 16,
    ensures
        s.step(Instruction::ShiftRight(x), random).reg(x) == s.reg(x) >> 1u8,
        x != 15 ==> s.step(Instruction::ShiftRight(x), random).flag() == s.reg(x) & 1,
{
    let a = s.reg(x);
    assert(a / 2 == a >> 1u8) by (bit_vector);
    assert(a % 2 == a & 1) by (bit_vector);
}

/// A shift to the left stores the low eight bits of the operand shifted by
/// one bit and puts the bit that fell out into the flag register; where the
/// operand is the flag register itself, the shifted value stands there.
pub proof fn lemma_shift_left<T>(s: State<T>, x: u8, random: u8)
    requires
        s.wf(),
        x < 16,
    ensures
        s.step(Instruction::ShiftLeft(x), random).reg(x) == ((s.reg(x) as u16) << 1u16) % 256,
        x != 15 ==> s.step(Instruction::ShiftLeft(x), random).flag() == (s.reg(x) & 0x80) >> 7u8,
{
    let a = s.reg(x);
    assert((a * 2) % 256 == ((a as u16) << 1u16) % 256) by (bit_vector);
    assert(a / 128 == (a & 0x80) >> 7u8) by (bit_vector);
}

/// An addition stores the sum modulo 256 and sets the flag register to 1
/// where the sum exceeds 255, else to 0; where the target is the flag
/// register itself, the sum stands there.
pub proof fn lemma_add_registers<T>(s: State<T>, x: u8, y: u8, random: u8)
    requires
        s.wf(),
        x < 16,
        y < 16,
    ensures
        s.step(Instruction::AddRegister(x, y), random).reg(x) == (s.reg(x) + s.reg(y)) % 256,
        x != 15 ==> s.step(Instruction::AddRegister(x, y), random).flag() == (if s.reg(x)
            + s.reg(y) > 255 {
            1u8
        } else {
            0u8
        }),
{
}

/// Loading the registers 0 to `x` right after storing them changes
/// nothing, and loading them in any later state that has the index
/// register and the stored bytes unchanged brings back what was stored.
pub proof fn lemma_store_then_load<T>(s: State<T>, x: u8, later: State<T>)
    requires
        s.wf(),
        later.wf(),
        s.fault(Instruction::StoreRegisters(x)) is None,
        later.i == s.i,
        forall|a: int|
            s.i <= a <= s.i + x ==> later.mem[a] == s.step(Instruction::StoreRegisters(x), 0).mem[a],
    ensures
        s.step(Instruction::StoreRegisters(x), 0).fault(Instruction::LoadRegisters(x)) is None,
        s.step(Instruction::StoreRegisters(x), 0).step(Instruction::LoadRegisters(x), 0) == s.step(
            Instruction::StoreRegisters(x),
            0,
        ),
        forall|k: int|
            0 <= k <= x ==> later.step(Instruction::LoadRegisters(x), 0).v[k] == s.v[k],
{
    let stored = s.step(Instruction::StoreRegisters(x), 0);
    assert(stored.step(Instruction::LoadRegisters(x), 0) =~= stored);
}

/// A return right after a call leaves the program counter two beyond where
/// it was before the call, and the stack pointer where it was.
pub proof fn lemma_call_then_return<T>(s: State<T>, address: u16)
    requires
        s.wf(),
        s.fault(Instruction::Call(address)) is None,
    ensures
        s.step(Instruction::Call(address), 0).fault(Instruction::Return) is None,
        s.step(Instruction::Call(address), 0).step(Instruction::Return, 0).counter == s.counter + 2,
        s.step(Instruction::Call(address), 0).step(Instruction::Return, 0).stack_ptr
            == s.stack_ptr,
{
}

/// A wait for a key takes the highest key that is down, and finds a key
/// whenever one is down.
pub proof fn lemma_last_pressed(keys: Seq<bool>)
    requires
        keys.len() <= 256,
    ensures
        last_pressed(keys) matches Some(key) ==> key < keys.len() && keys[key as int] && forall|
            k: int,
        |
            key < k < keys.len() ==> !keys[k],
        last_pressed(keys) is None ==> forall|k: int| 0 <= k < keys.len() ==> !keys[k],
    decreases keys.len(),
{
    if keys.len() > 0 && !keys.last() {
        let shorter = keys.drop_last();
        lemma_last_pressed(shorter);
        assert forall|k: int| 0 <= k < shorter.len() implies shorter[k] == keys[k] by {}
        match last_pressed(shorter) {
            Some(key) => {
                assert(keys[key as int]);
                assert forall|k: int| key < k < keys.len() implies !keys[k] by {
                    if k < shorter.len() {
                        assert(!shorter[k]);
                    }
                }
            },
            None => {
                assert forall|k: int| 0 <= k < keys.len() implies !keys[k] by {
                    if k < shorter.len() {
                        assert(!shorter[k]);
                    }
                }
            },
        }
    }
}

/// The sprite has a set pixel.
pub open spec fn has_pixel(sprite: Seq<u8>) -> bool {
    exists|row: int, col: int|
        0 <= row < sprite.len() && 0 <= col < 8 && #[trigger] sprite_bit(sprite[row], col) == 1
}

/// No set pixel of the sprite, drawn at `(x, y)`, lands on a cell that
/// holds anything but 0.
pub open spec fn lands_on_blank(screen: Screen, sprite: Seq<u8>, x: int, y: int) -> bool {
    forall|row: int, col: int|
        0 <= row < sprite.len() && 0 <= col < 8 && #[trigger] sprite_bit(sprite[row], col) == 1
            ==> screen[(y + row) % 32][(x + col) % 64] == 0
}

/// Drawing a sprite twice at the same place brings the screen back.
pub proof fn lemma_draw_twice(screen: Screen, sprite: Seq<u8>, x: int, y: int)
    requires
        screen_wf(screen),
    ensures
        draw_sprite(draw_sprite(screen, sprite, x, y), sprite, x, y) == screen,
{
    let once = draw_sprite(screen, sprite, x, y);
    let twice = draw_sprite(once, sprite, x, y);
    assert forall|py: int, px: int| 0 <= py < 32 && 0 <= px < 64 implies twice[py][px]
        == screen[py][px] by {
        lemma_xor_twice(screen[py][px], sprite_cell(sprite, x, y, px, py));
    }
    assert(twice =~~= screen);
}

/// A sprite drawn where its set pixels land on blank cells erases nothing;
/// drawn there a second time it erases a cell if and only if it has a set
/// pixel.
pub proof fn lemma_draw_on_blank(screen: Screen, sprite: Seq<u8>, x: int, y: int)
    requires
        screen_wf(screen),
        sprite.len() <= 15,
        0 <= x,
        0 <= y,
        lands_on_blank(screen, sprite, x, y),
    ensures
        !collides(screen, sprite, x, y),
        collides(draw_sprite(screen, sprite, x, y), sprite, x, y) <==> has_pixel(sprite),
{
    let once = draw_sprite(screen, sprite, x, y);
    assert forall|row: int, col: int|
        0 <= row < sprite.len() && 0 <= col < 8 implies !#[trigger] erases(
        screen,
        sprite,
        x,
        y,
        row,
        col,
    ) by {}
    assert forall|row: int, col: int|
        0 <= row < sprite.len() && 0 <= col < 8 implies (#[trigger] erases(
        once,
        sprite,
        x,
        y,
        row,
        col,
    ) <==> sprite_bit(sprite[row], col) == 1) by {
        if sprite_bit(sprite[row], col) == 1 {
            let px = (x + col) % 64;
            let py = (y + row) % 32;
            assert((px - x) % 64 == col && (py - y) % 32 == row);
            assert(sprite_cell(sprite, x, y, px, py) == 1);
            assert(screen[py][px] == 0);
            assert(0u8 ^ 1u8 == 1u8) by (bit_vector);
        }
    }
    if has_pixel(sprite) {
        let (row, col) = choose|row: int, col: int|
            0 <= row < sprite.len() && 0 <= col < 8 && #[trigger] sprite_bit(sprite[row], col)
                == 1;
        assert(erases(once, sprite, x, y, row, col));
    }
    if collides(once, sprite, x, y) {
        let (row, col) = choose|row: int, col: int|
            0 <= row < sprite.len() && 0 <= col < 8 && #[trigger] erases(
                once,
                sprite,
                x,
                y,
                row,
                col,
            );
        assert(sprite_bit(sprite[row], col) == 1);
    }
}

/// A sprite instruction carried out twice in a row, with coordinate
/// registers other than the flag register, where the sprite's set pixels
/// land on blank cells: the first sets the flag register to 0, whatever it
/// held; the second brings the screen back and sets the flag register to 1
/// if the sprite has a set pixel, and to 0 if it has none.
pub proof fn lemma_display_twice<T>(s: State<T>, x: u8, y: u8, height: u8)
    requires
        s.wf(),
        x != 15,
        y != 15,
        s.fault(Instruction::DisplaySprite(x, y, height)) is None,
        lands_on_blank(s.graphics, s.sprite(height), s.reg(x) as int, s.reg(y) as int),
    ensures
        s.step(Instruction::DisplaySprite(x, y, height), 0).v == s.v.update(15, 0u8),
        s.step(Instruction::DisplaySprite(x, y, height), 0).fault(
            Instruction::DisplaySprite(x, y, height),
        ) is None,
        s.step(Instruction::DisplaySprite(x, y, height), 0).step(
            Instruction::DisplaySprite(x, y, height),
            0,
        ).graphics == s.graphics,
        s.step(Instruction::DisplaySprite(x, y, height), 0).step(
            Instruction::DisplaySprite(x, y, height),
            0,
        ).v == s.v.update(
            15,
            if has_pixel(s.sprite(height)) {
                1u8
            } else {
                0u8
            },
        ),
{
    let sprite = s.sprite(height);
    let left = s.reg(x) as int;
    let top = s.reg(y) as int;
    lemma_draw_on_blank(s.graphics, sprite, left, top);
    lemma_draw_twice(s.graphics, sprite, left, top);
    let once = s.step(Instruction::DisplaySprite(x, y, height), 0);
    let twice = once.step(Instruction::DisplaySprite(x, y, height), 0);
    assert(once.v =~= s.v.update(15, 0u8));
    assert(once.sprite(height) == sprite);
    assert(twice.v =~= s.v.update(
        15,
        if has_pixel(sprite) {
            1u8
        } else {
            0u8
        },
    ));
}

/// A sprite instruction sets the flag register to 1 where the sprite erases
/// a cell and to 0 where it erases none, whatever the flag register held.
pub proof fn lemma_display_flag<T>(s: State<T>, x: u8, y: u8, height: u8)
    requires
        s.wf(),
    ensures
        s.step(Instruction::DisplaySprite(x, y, height), 0).flag() == (if collides(
            s.graphics,
            s.sprite(height),
            s.reg(x) as int,
            s.reg(y) as int,
        ) {
            1u8
        } else {
            0u8
        }),
{
}

/// The tone is audible after the timers are looked at exactly where the
/// sound timer is above zero then.
pub proof fn lemma_tone<T>(s: State<T>, now: u64)
    ensures
        s.run_timers(now).beep <==> s.run_timers(now).sound_register > 0,
{
}

/// Loading a program writes nowhere but from address 512 up; a program
/// that fills the room, or more, is copied up to the last byte of memory;
/// and in fresh memory every byte behind a shorter program is zero.
pub proof fn lemma_load_image(mem: Seq<u8>, rom: Seq<u8>)
    requires
        mem.len() == 4096,
    ensures
        load_image(mem, rom).len() == 4096,
        forall|a: int| 0 <= a < 512 ==> load_image(mem, rom)[a] == mem[a],
        forall|a: int| 512 <= a < 512 + rom.len() && a < 4096 ==> load_image(mem, rom)[a] == rom[a - 512],
        forall|a: int| 512 + rom.len() <= a < 4096 ==> load_image(mem, rom)[a] == mem[a],
        forall|a: int| 512 + rom.len() <= a < 4096 ==> load_image(initial_memory(), rom)[a] == 0,
{
}

/// A tick carries out the instruction whose opcode stands at the program
/// counter; in a new machine that is the first word of the program, at 512.
pub proof fn lemma_tick_executes<T: InstructionParser>(
    s: State<T>,
    now: u64,
    random: u8,
    ins: Instruction,
)
    requires
        s.wf(),
        s.counter <= 4094,
        s.parser.decode(opcode_at(s.mem, s.counter as int)) == Some(ins),
        s.fetched().fault(ins) is None,
    ensures
        s.tick(now, random).1 == Ok::<Outcome, Fault>(Outcome::Executed(ins)),
        s.tick(now, random).0 == s.fetched().step(ins, random).settled().run_timers(
            now,
        ).release_keys(),
        State::initial(s.parser, s.name, s.headless).counter == 512,
{
}

/// Where a tick leaves the program counter: at the target of a jump, a
/// jump with base, a call or a return; where it was while a wait for a key
/// finds none; and two on behind the place where any other instruction
/// leaves it, which is four on behind a skip that matches.
pub proof fn lemma_tick_counter<T: InstructionParser>(
    s: State<T>,
    now: u64,
    random: u8,
    ins: Instruction,
)
    requires
        s.wf(),
        s.counter <= 4094,
        s.parser.decode(opcode_at(s.mem, s.counter as int)) == Some(ins),
        s.fetched().fault(ins) is None,
    ensures
        ins matches Instruction::Jump(address) ==> s.tick(now, random).0.counter == address,
        ins matches Instruction::Call(address) ==> s.tick(now, random).0.counter == address,
        ins matches Instruction::JumpBase(address) ==> s.tick(now, random).0.counter == sum_16(
            address,
            s.reg(0) as u16,
        ),
        ins is Return ==> s.tick(now, random).0.counter == s.stack[s.stack_ptr - 1],
        ins is LoadKeyPress && last_pressed(s.keyboard) is None ==> s.tick(now, random).0.counter
            == s.counter,
        ins matches Instruction::SkipEqualsByte(x, kk) ==> s.tick(now, random).0.counter == (if s.reg(
            x,
        ) == kk {
            s.counter + 4
        } else {
            s.counter + 2
        }),
        !(ins is Jump || ins is Call || ins is JumpBase || ins is Return || ins is LoadKeyPress)
            ==> s.tick(now, random).0.counter == s.fetched().step(ins, random).counter + 2,
{
}

/// A tick on an opcode that stands for no instruction carries nothing out:
/// registers, index register, memory, stack and screen stay, and the
/// program counter moves on by two, so that the next tick reads the word
/// right behind.
pub proof fn lemma_tick_bad_opcode<T: InstructionParser>(s: State<T>, now: u64, random: u8)
    requires
        s.wf(),
        s.counter <= 4094,
        s.parser.decode(opcode_at(s.mem, s.counter as int)) is None,
    ensures
        s.tick(now, random).1 == Ok::<Outcome, Fault>(
            Outcome::BadOpcode(opcode_at(s.mem, s.counter as int)),
        ),
        s.tick(now, random).0.counter == s.counter + 2,
        s.tick(now, random).0.v == s.v,
        s.tick(now, random).0.i == s.i,
        s.tick(now, random).0.mem == s.mem,
        s.tick(now, random).0.stack == s.stack,
        s.tick(now, random).0.stack_ptr == s.stack_ptr,
        s.tick(now, random).0.graphics == s.graphics,
{
}

/// After every tick that does not fail, every key is up, the tone is
/// audible exactly where the sound timer is above zero, and no request to
/// suppress the increment is left. A tick that fails changes nothing.
pub proof fn lemma_tick_ends<T: InstructionParser>(s: State<T>, now: u64, random: u8)
    requires
        s.wf(),
    ensures
        s.tick(now, random).1 is Ok ==> forall|k: int|
            0 <= k < 16 ==> !#[trigger] s.tick(now, random).0.keyboard[k],
        s.tick(now, random).1 is Ok ==> (s.tick(now, random).0.beep <==> s.tick(
            now,
            random,
        ).0.sound_register > 0),
        s.tick(now, random).1 is Ok ==> !s.tick(now, random).0.skip_increment,
        s.tick(now, random).1 is Err ==> s.tick(now, random).0 == s,
{
}

/// A timer after it was looked at at each of `times` in turn.
pub open spec fn timer_after(register: u8, last: u64, times: Seq<u64>) -> (u8, u64)
    decreases times.len(),
{
    if times.len() == 0 {
        (register, last)
    } else {
        let before = timer_after(register, last, times.drop_last());
        timer_step(before.0, before.1, times.last())
    }
}

/// `n` times, `gap` milliseconds apart, the first one `gap` after `start`.
pub open spec fn regular_times(start: u64, gap: u64, n: nat) -> Seq<u64> {
    Seq::new(n, |k: int| (start + (k + 1) * gap) as u64)
}

/// A timer never goes down more often than once in a period, however often
/// it is looked at: the decrements, a period each, fit between the time it
/// was started and the time of its last decrement.
pub proof fn lemma_timer_rate(register: u8, last: u64, times: Seq<u64>)
    requires
        forall|k: int| 0 <= k < times.len() ==> last <= times[k],
        forall|j: int, k: int| 0 <= j <= k < times.len() ==> times[j] <= times[k],
    ensures
        timer_after(register, last, times).0 <= register,
        last <= timer_after(register, last, times).1,
        times.len() > 0 ==> timer_after(register, last, times).1 <= times.last() || timer_after(
            register,
            last,
            times,
        ).1 == last,
        (register - timer_after(register, last, times).0) * TIMER_PERIOD <= timer_after(
            register,
            last,
            times,
        ).1 - last,
    decreases times.len(),
{
    if times.len() > 0 {
        let shorter = times.drop_last();
        lemma_timer_rate(register, last, shorter);
        if shorter.len() > 0 {
            assert(shorter.last() == times[times.len() - 2]);
        }
    }
}

/// A timer that is looked at at regular times, whose gap divides the
/// period, goes down once in every period until it is at zero.
pub proof fn lemma_timer_regular(register: u8, start: u64, gap: u64, n: nat)
    requires
        gap > 0,
        TIMER_PERIOD % gap == 0,
        start + n * gap <= u64::MAX,
    ensures
        (n * gap) / 16 >= register ==> timer_after(register, start, regular_times(start, gap, n))
            == (0u8, (start + 16 * register) as u64),
        (n * gap) / 16 < register ==> timer_after(register, start, regular_times(start, gap, n))
            == ((register - (n * gap) / 16) as u8, (start + 16 * ((n * gap) / 16)) as u64),
    decreases n,
{
    assert(gap == 1 || gap == 2 || gap == 4 || gap == 8 || gap == 16) by {
        assert(TIMER_PERIOD == 16);
        if gap > 16 {
            assert(16int % (gap as int) == 16) by (nonlinear_arith)
                requires
                    gap > 16,
            ;
        } else {
            assert(16int % 3 == 1 && 16int % 5 == 1 && 16int % 6 == 4 && 16int % 7 == 2);
            assert(16int % 9 == 7 && 16int % 10 == 6 && 16int % 11 == 5 && 16int % 12 == 4);
            assert(16int % 13 == 3 && 16int % 14 == 2 && 16int % 15 == 1);
        }
    }
    if n > 0 {
        let times = regular_times(start, gap, n);
        let shorter = regular_times(start, gap, (n - 1) as nat);
        assert((n - 1) * gap <= n * gap) by (nonlinear_arith)
            requires
                n >= 1,
                gap > 0,
        ;
        assert((n - 1) * gap == n * gap - gap) by (nonlinear_arith);
        lemma_timer_regular(register, start, gap, (n - 1) as nat);
        assert(times.drop_last() =~= shorter);
        assert(times.last() == start + n * gap);
    }
}

/// A timer that starts at 60 and is looked at at regular times, whose gap
/// divides the period, has gone down sixty times and is at zero before a
/// second is over.
pub proof fn lemma_sixty_in_a_second(start: u64, gap: u64, n: nat)
    requires
        gap > 0,
        TIMER_PERIOD % gap == 0,
        960 <= n * gap <= 1000,
        start + 1000 <= u64::MAX,
    ensures
        timer_after(60, start, regular_times(start, gap, n)).0 == 0,
{
    lemma_timer_regular(60, start, gap, n);
}

} // verus!
