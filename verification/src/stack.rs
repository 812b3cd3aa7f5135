//! The stack discipline of the register-list instructions, and the
//! law that a `PUSH` followed by a `POP` of the same register set
//! restores the registers.
//!
//! `PUSH` stores the listed registers ascending from `SP - 4n`;
//! `POP` loads them ascending from `SP`.  The specifications below
//! say what sequence of words a register list selects, how a word
//! sequence lands in a byte memory, and that reading the words back
//! yields the sequence unchanged.

use vstd::prelude::*;

use vstd::arithmetic::div_mod::lemma_fundamental_div_mod;

use crate::bus::{le_word, store_word};

verus! {

/// Whether bit `i` of a register list names register `i`.
pub open spec fn bit_set(mask: u16, i: nat) -> bool {
    (mask as nat / vstd::arithmetic::power2::pow2(i)) % 2 == 1
}

/// The values of the listed registers with numbers below `i`, in
/// ascending register order: the order `PUSH` and `POP` walk.
pub open spec fn sel_below(regs: Seq<u32>, mask: u16, i: nat) -> Seq<u32>
    decreases i,
{
    if i == 0 {
        Seq::empty()
    } else if bit_set(mask, (i - 1) as nat) {
        sel_below(regs, mask, (i - 1) as nat).push(regs[i - 1])
    } else {
        sel_below(regs, mask, (i - 1) as nat)
    }
}

/// How many registers the list names below `i`.
pub open spec fn count_below(mask: u16, i: nat) -> nat {
    sel_below(Seq::new(16nat, |k: int| 0u32), mask, i).len()
}

/// The sequence of words `PUSH {mask}` stores, lowest register at
/// the lowest address.
pub open spec fn pushed_words(regs: Seq<u32>, mask: u16) -> Seq<u32> {
    sel_below(regs, mask, 16)
}

/// Store a sequence of words little-endian at byte offset `start`.
pub open spec fn store_words(mem: Seq<u8>, start: int, ws: Seq<u32>) -> Seq<u8>
    decreases ws.len(),
{
    if ws.len() == 0 {
        mem
    } else {
        store_words(store_word(mem, start, ws[0]), start + 4, ws.drop_first())
    }
}

/// Read `n` words little-endian from byte offset `start`.
pub open spec fn read_words(mem: Seq<u8>, start: int, n: nat) -> Seq<u32>
    decreases n,
{
    if n == 0 {
        Seq::empty()
    } else {
        seq![le_word(mem, start) as u32] + read_words(mem, start + 4, (n - 1) as nat)
    }
}

/// The selected sequences grow one register at a time, so the
/// counts below each index are their lengths.
pub proof fn lemma_sel_below_len(regs: Seq<u32>, mask: u16, i: nat)
    ensures
        sel_below(regs, mask, i).len() == count_below(mask, i),
        count_below(mask, i) <= i,
    decreases i,
{
    if i > 0 {
        lemma_sel_below_len(regs, mask, (i - 1) as nat);
    }
}

/// A listed register's value sits in the pushed sequence at the
/// position its number earns it: the count of listed registers
/// below it.
pub proof fn lemma_sel_position(regs: Seq<u32>, mask: u16, k: nat, i: nat)
    requires
        bit_set(mask, k),
        k < i,
        i <= 16,
    ensures
        count_below(mask, k) < sel_below(regs, mask, i).len(),
        sel_below(regs, mask, i)[count_below(mask, k) as int] == regs[k as int],
    decreases i,
{
    lemma_sel_below_len(regs, mask, k);
    lemma_sel_below_len(regs, mask, i);
    if i == k + 1 {
        lemma_sel_below_len(regs, mask, (i - 1) as nat);
    } else {
        lemma_sel_position(regs, mask, k, (i - 1) as nat);
    }
}

/// Halving a shifted mask steps the shift by one.
pub proof fn lemma_mask_shift(m: nat, i: nat)
    ensures
        (m / vstd::arithmetic::power2::pow2(i)) / 2 == m / vstd::arithmetic::power2::pow2(i + 1),
{
    vstd::arithmetic::power2::lemma_pow2_adds(i, 1);
    vstd::arithmetic::power2::lemma2_to64();
    vstd::arithmetic::power2::lemma_pow2_pos(i);
    vstd::arithmetic::div_mod::lemma_div_denominator(
        m as int,
        vstd::arithmetic::power2::pow2(i) as int,
        2,
    );
}

/// Counting listed registers below a bound grows with the bound.
pub proof fn lemma_count_below_mono(mask: u16, i: nat, j: nat)
    requires
        i <= j,
    ensures
        count_below(mask, i) <= count_below(mask, j),
    decreases j,
{
    if i < j {
        lemma_count_below_mono(mask, i, (j - 1) as nat);
        lemma_sel_below_len(Seq::new(16nat, |k: int| 0u32), mask, (j - 1) as nat);
        lemma_sel_below_len(Seq::new(16nat, |k: int| 0u32), mask, j);
    }
}

/// Appending one word to a stored sequence stores it right above.
pub proof fn lemma_store_words_snoc(mem: Seq<u8>, start: int, ws: Seq<u32>, w: u32)
    ensures
        store_words(mem, start, ws.push(w)) == store_word(
            store_words(mem, start, ws),
            start + 4 * ws.len(),
            w,
        ),
    decreases ws.len(),
{
    let snoc = ws.push(w);
    if ws.len() == 0 {
        assert(snoc[0] == w);
        assert(snoc.drop_first() =~= Seq::<u32>::empty());
        assert(store_words(mem, start, snoc) == store_words(
            store_word(mem, start, w),
            start + 4,
            Seq::<u32>::empty(),
        ));
        assert(store_words(mem, start, ws) == mem);
    } else {
        assert(snoc[0] == ws[0]);
        assert(snoc.drop_first() =~= ws.drop_first().push(w));
        assert(store_words(mem, start, snoc) == store_words(
            store_word(mem, start, ws[0]),
            start + 4,
            ws.drop_first().push(w),
        ));
        lemma_store_words_snoc(store_word(mem, start, ws[0]), start + 4, ws.drop_first(), w);
        assert(4 + 4 * ws.drop_first().len() == 4 * ws.len());
    }
}

/// A read sequence has one entry per word.
pub proof fn lemma_read_words_len(mem: Seq<u8>, start: int, n: nat)
    ensures
        read_words(mem, start, n).len() == n,
    decreases n,
{
    if n > 0 {
        lemma_read_words_len(mem, start + 4, (n - 1) as nat);
    }
}

/// Each word of a read sequence is the word at its own offset.
pub proof fn lemma_read_words_index(mem: Seq<u8>, start: int, n: nat, j: int)
    requires
        0 <= j < n,
    ensures
        read_words(mem, start, n)[j] == le_word(mem, start + 4 * j) as u32,
    decreases n,
{
    let head = seq![le_word(mem, start) as u32];
    let tail = read_words(mem, start + 4, (n - 1) as nat);
    assert(read_words(mem, start, n) == head + tail);
    assert(head.len() == 1);
    lemma_read_words_len(mem, start + 4, (n - 1) as nat);
    if j > 0 {
        lemma_read_words_index(mem, start + 4, (n - 1) as nat, j - 1);
        assert((head + tail)[j] == tail[j - 1]);
    } else {
        assert((head + tail)[0] == head[0]);
    }
}

/// The register file after `POP {mask}` reads back `words`: each
/// listed register takes the word its position selects, SP moves to
/// `sp_after`, and everything else keeps its value.
pub open spec fn popped_regs(regs: Seq<u32>, mask: u16, words: Seq<u32>, sp_after: u32) -> Seq<
    u32,
> {
    Seq::new(
        16nat,
        |k: int|
            if k == 13 {
                sp_after
            } else if bit_set(mask, k as nat) {
                words[count_below(mask, k as nat) as int]
            } else {
                regs[k]
            },
    )
}

/// The register file after `LDM {mask}` reads back `words`: each
/// listed register takes the word its position selects and every
/// other register keeps its value.
pub open spec fn loaded_regs(regs: Seq<u32>, mask: u16, words: Seq<u32>) -> Seq<u32> {
    Seq::new(
        16nat,
        |k: int|
            if bit_set(mask, k as nat) {
                words[count_below(mask, k as nat) as int]
            } else {
                regs[k]
            },
    )
}

/// The address of word slot `j` of a stack block at `base`.
pub open spec fn word_slot(base: int, j: int) -> u32 {
    (base + 4 * j) as u32
}

/// Whether one word address goes to SRAM through the matrix and is
/// aligned, in range, readable and writable there.
pub open spec fn slot_in_sram<T: crate::bus::Bus, R: crate::bus::Bus>(
    code: T,
    sram: R,
    a: u32,
) -> bool {
    &&& !crate::bus::internal_claims(a)
    &&& !crate::bus::addr_in(code.base_spec(), code.len_spec(), a as int)
    &&& crate::bus::spec_can_write32(sram.base_spec(), sram.len_spec(), sram.writable_spec(), a)
    &&& crate::bus::spec_can_read32(sram.base_spec(), sram.len_spec(), sram.readable_spec(), a)
}

/// Whether `n` word slots starting at `base` sit wholly inside the
/// SRAM region of the matrix: no claim by the internal bus or the
/// code region, and aligned, in-range SRAM words all the way.
pub open spec fn stack_in_sram<T: crate::bus::Bus, R: crate::bus::Bus>(
    code: T,
    sram: R,
    base: int,
    n: nat,
) -> bool {
    &&& 0 <= base
    &&& base + 4 * n < 0x1_0000_0000
    &&& forall|j: int| 0 <= j < n ==> slot_in_sram(code, sram, #[trigger] word_slot(base, j))
}

/// A word store touches only its own four bytes.
pub proof fn lemma_store_word_frame(mem: Seq<u8>, i: int, v: u32, j: int)
    requires
        0 <= i,
        i + 4 <= mem.len(),
        0 <= j < mem.len(),
        j < i || j >= i + 4,
    ensures
        store_word(mem, i, v)[j] == mem[j],
{
}

/// Storing a word and reading it back yields the word.
pub proof fn lemma_word_roundtrip(mem: Seq<u8>, i: int, v: u32)
    requires
        0 <= i,
        i + 4 <= mem.len(),
    ensures
        le_word(store_word(mem, i, v), i) == v,
{
    let m = store_word(mem, i, v);
    assert(m[i] == (v % 0x100) as u8);
    assert(m[i + 1] == ((v / 0x100) % 0x100) as u8);
    assert(m[i + 2] == ((v / 0x1_0000) % 0x100) as u8);
    assert(m[i + 3] == ((v / 0x100_0000) % 0x100) as u8);
    // v decomposes digit by digit in base 256.
    lemma_fundamental_div_mod(v as int, 0x100);
    lemma_fundamental_div_mod(v as int / 0x100, 0x100);
    lemma_fundamental_div_mod(v as int / 0x1_0000, 0x100);
    assert(v as int / 0x100 / 0x100 == v as int / 0x1_0000) by {
        vstd::arithmetic::div_mod::lemma_div_denominator(v as int, 0x100, 0x100);
    };
    assert(v as int / 0x1_0000 / 0x100 == v as int / 0x100_0000) by {
        vstd::arithmetic::div_mod::lemma_div_denominator(v as int, 0x1_0000, 0x100);
    };
    assert(v as int / 0x100_0000 < 0x100) by {
        assert(v < 0x1_0000_0000);
    };
}

/// Storing a sequence of words keeps the memory's length.
pub proof fn lemma_store_words_len(mem: Seq<u8>, start: int, ws: Seq<u32>)
    requires
        0 <= start,
        start + 4 * ws.len() <= mem.len(),
    ensures
        store_words(mem, start, ws).len() == mem.len(),
    decreases ws.len(),
{
    if ws.len() > 0 {
        lemma_store_words_len(store_word(mem, start, ws[0]), start + 4, ws.drop_first());
    }
}

/// Storing a sequence of words leaves every byte below the start
/// untouched.
pub proof fn lemma_store_words_frame_low(mem: Seq<u8>, start: int, ws: Seq<u32>, j: int)
    requires
        0 <= j < start,
        start + 4 * ws.len() <= mem.len(),
    ensures
        store_words(mem, start, ws)[j] == mem[j],
    decreases ws.len(),
{
    if ws.len() > 0 {
        lemma_store_word_frame(mem, start, ws[0], j);
        lemma_store_words_frame_low(store_word(mem, start, ws[0]), start + 4, ws.drop_first(), j);
    }
}

/// Reading back a stored word sequence yields the sequence: the
/// store-then-load round trip of the stack.
pub proof fn lemma_read_stored_words(mem: Seq<u8>, start: int, ws: Seq<u32>)
    requires
        0 <= start,
        start + 4 * ws.len() <= mem.len(),
    ensures
        read_words(store_words(mem, start, ws), start, ws.len()) == ws,
    decreases ws.len(),
{
    if ws.len() > 0 {
        let m1 = store_word(mem, start, ws[0]);
        let mfin = store_words(m1, start + 4, ws.drop_first());
        // The tail stores sit above this word, so its bytes survive.
        assert forall|j: int| start <= j < start + 4 implies mfin[j] == m1[j] by {
            lemma_store_words_frame_low(m1, start + 4, ws.drop_first(), j);
        };
        lemma_word_roundtrip(mem, start, ws[0]);
        assert(le_word(mfin, start) == le_word(m1, start));
        lemma_read_stored_words(m1, start + 4, ws.drop_first());
        assert(read_words(mfin, start, ws.len()) =~= ws);
    } else {
        assert(read_words(store_words(mem, start, ws), start, 0) =~= ws);
    }
}

/// `PUSH {mask}` followed by `POP {mask}` of the same register set
/// restores the register file exactly, stack pointer included.
///
/// The terms are the ones the executor's contracts use: after the
/// push, SP is `base` and memory holds `store_words` of
/// `pushed_words`; the pop then yields `popped_regs` of the words
/// read back.  For any list that names neither SP nor PC, and any
/// stack block that sits inside the SRAM region, that final register
/// file equals the one before the push.
pub proof fn lemma_push_pop_restores<T: crate::bus::Bus, R: crate::bus::Bus>(
    code: T,
    sram: R,
    regs: Seq<u32>,
    mask: u16,
)
    requires
        sram.wf(),
        regs.len() == 16,
        !bit_set(mask, 13),
        !bit_set(mask, 15),
        stack_in_sram(
            code,
            sram,
            regs[13] - 4 * count_below(mask, 16),
            count_below(mask, 16),
        ),
    ensures
        ({
            let n = count_below(mask, 16);
            let base = regs[13] - 4 * n;
            let off = base - sram.base_spec();
            popped_regs(
                regs.update(13, base as u32),
                mask,
                read_words(
                    store_words(sram.mem_spec(), off, pushed_words(regs, mask)),
                    off,
                    n,
                ),
                (base + 4 * n) as u32,
            ) == regs
        }),
{
    let n = count_below(mask, 16);
    let base = regs[13] - 4 * n;
    let off = base - sram.base_spec();
    let pushed = pushed_words(regs, mask);
    let mem = sram.mem_spec();
    sram.wf_facts();
    lemma_sel_below_len(regs, mask, 16);
    let words = read_words(store_words(mem, off, pushed), off, n);
    if n > 0 {
        // The first and last slots pin the block inside the byte
        // buffer of the region.
        assert(slot_in_sram(code, sram, word_slot(base, 0)));
        assert(slot_in_sram(code, sram, word_slot(base, n - 1)));
        assert(0 <= off);
        assert(off + 4 * n <= mem.len());
        lemma_read_stored_words(mem, off, pushed);
    } else {
        assert(words =~= pushed);
    }
    assert(words == pushed);
    let after = popped_regs(regs.update(13, base as u32), mask, words, (base + 4 * n) as u32);
    assert forall|k: int| 0 <= k < 16 implies after[k] == regs[k] by {
        if k == 13 {
            assert(base + 4 * n == regs[13]);
        } else if bit_set(mask, k as nat) {
            lemma_sel_position(regs, mask, k as nat, 16);
        }
    };
    assert(after =~= regs);
}

} // verus!
