//! UTF-16 encoding of the strings handed to the text-layout and window
//! systems, which take wide, nul-terminated buffers.

use vstd::prelude::*;

verus! {

/// The UTF-16 code units of one character: a single unit below 0x10000,
/// otherwise a surrogate pair over the offset from 0x10000.
pub open spec fn wide_units(c: char) -> Seq<u16> {
    if (c as u32) < 0x10000 {
        seq![c as u16]
    } else {
        let x: u32 = (c as u32 - 0x10000) as u32;
        seq![(0xD800 + (x >> 10)) as u16, (0xDC00 + (x & 0x3FF)) as u16]
    }
}

/// The UTF-16 code units of a string, without a terminator.
pub open spec fn wide_of(s: Seq<char>) -> Seq<u16>
    decreases s.len(),
{
    if s.len() == 0 {
        Seq::empty()
    } else {
        wide_units(s[0]) + wide_of(s.subrange(1, s.len() as int))
    }
}

/// Appending a character appends its code units.
pub proof fn lemma_wide_of_push(s: Seq<char>, c: char)
    ensures
        wide_of(s.push(c)) == wide_of(s) + wide_units(c),
    decreases s.len(),
{
    if s.len() == 0 {
        assert(s.push(c)[0] == c);
        assert(s.push(c).subrange(1, 1) =~= Seq::<char>::empty());
        assert(wide_of(s.push(c).subrange(1, 1)) == Seq::<u16>::empty());
        assert(wide_of(s.push(c)) == wide_units(c) + wide_of(s.push(c).subrange(1, 1)));
        assert(wide_of(s) == Seq::<u16>::empty());
        assert(wide_of(s.push(c)) =~= wide_of(s) + wide_units(c));
    } else {
        assert(s.push(c).subrange(1, s.len() as int + 1) =~= s.subrange(1, s.len() as int).push(c));
        lemma_wide_of_push(s.subrange(1, s.len() as int), c);
        assert(wide_of(s.push(c)) =~= wide_of(s) + wide_units(c));
    }
}

/// Each character takes one or two code units.
pub proof fn lemma_wide_of_len(s: Seq<char>)
    ensures
        s.len() <= wide_of(s).len() <= 2 * s.len(),
    decreases s.len(),
{
    if s.len() > 0 {
        lemma_wide_of_len(s.subrange(1, s.len() as int));
    }
}

/// Encodes a string as UTF-16 with a terminating nul unit, as the platform's
/// wide-string entry points expect.
pub fn to_wide(s: &str) -> (v: Vec<u16>)
    ensures
        v@ == wide_of(s@).push(0u16),
        v@.len() == wide_of(s@).len() + 1,
{
    let n = s.unicode_len();
    let mut v: Vec<u16> = Vec::new();
    let mut i: usize = 0;
    while i < n
        invariant
            i <= n,
            n == s@.len(),
            v@ == wide_of(s@.take(i as int)),
        decreases n - i,
    {
        let c = s.get_char(i);
        let cu: u32 = c as u32;
        if cu < 0x10000 {
            v.push(c as u16);
        } else {
            let x: u32 = cu - 0x10000;
            assert(x >> 10 <= 0x3FF) by (bit_vector)
                requires
                    x <= 0xFFFFF,
            ;
            assert(x & 0x3FF <= 0x3FF) by (bit_vector);
            v.push((0xD800 + (x >> 10)) as u16);
            v.push((0xDC00 + (x & 0x3FF)) as u16);
        }
        proof {
            assert(s@.take(i + 1) =~= s@.take(i as int).push(s@[i as int]));
            lemma_wide_of_push(s@.take(i as int), s@[i as int]);
            assert(v@ =~= wide_of(s@.take(i + 1)));
        }
        i = i + 1;
    }
    proof {
        assert(s@.take(n as int) =~= s@);
    }
    v.push(0);
    v
}

} // verus!
