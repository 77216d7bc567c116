//! An incremental accumulator for layout hashes.
//!
//! A widget feeds the accumulator 64-bit words; the accumulator remembers, as
//! its model, the sequence of words fed so far, and its digest is the FNV-1a
//! fold of that sequence.
use vstd::prelude::*;
use vstd::utf8::encode_utf8;

verus! {

pub const FNV_OFFSET: u64 = 0xcbf29ce484222325;

pub const FNV_PRIME: u64 = 0x100000001b3;

/// The word that closes a string: no byte has this value, so the words of a
/// string never run on into what is fed after them.
pub const STR_END: u64 = 0x100;

/// One step of the fold.
pub open spec fn mix(h: u64, w: u64) -> u64 {
    vstd::wrapping::u64_specs::wrapping_mul(h ^ w, FNV_PRIME)
}

/// The digest of a sequence of words.
pub open spec fn digest(words: Seq<u64>) -> u64
    decreases words.len(),
{
    if words.len() == 0 {
        FNV_OFFSET
    } else {
        mix(digest(words.drop_last()), words.last())
    }
}

/// The words that feed a string: its UTF-8 bytes, then `STR_END`.
pub open spec fn str_words(s: Seq<char>) -> Seq<u64> {
    encode_utf8(s).map_values(|b: u8| b as u64).push(STR_END)
}

/// Distinct strings feed distinct words.
pub proof fn lemma_str_words_injective(a: Seq<char>, b: Seq<char>)
    ensures
        str_words(a) == str_words(b) <==> a == b,
{
    if str_words(a) == str_words(b) {
        let ea = encode_utf8(a);
        let eb = encode_utf8(b);
        assert(ea.len() == eb.len()) by {
            assert(str_words(a).len() == ea.len() + 1);
        }
        assert forall|i: int| 0 <= i < ea.len() implies ea[i] == eb[i] by {
            assert(str_words(a)[i] == ea[i] as u64);
            assert(str_words(b)[i] == eb[i] as u64);
        }
        assert(ea =~= eb);
        vstd::utf8::encode_utf8_decode_utf8(a);
        vstd::utf8::encode_utf8_decode_utf8(b);
    }
}

/// The accumulator.
pub struct Hasher {
    state: u64,
    fed: Ghost<Seq<u64>>,
}

impl View for Hasher {
    type V = Seq<u64>;

    closed spec fn view(&self) -> Seq<u64> {
        self.fed@
    }
}

impl Hasher {
    #[verifier::type_invariant]
    spec fn inv(self) -> bool {
        self.state == digest(self.fed@)
    }

    /// An accumulator that has been fed nothing.
    pub fn new() -> (h: Hasher)
        ensures
            h@ == Seq::<u64>::empty(),
    {
        Hasher { state: FNV_OFFSET, fed: Ghost(Seq::empty()) }
    }

    /// Feeds one word.
    pub fn write_u64(&mut self, w: u64)
        ensures
            final(self)@ == old(self)@.push(w),
    {
        proof {
            use_type_invariant(&*self);
        }
        let ghost before = self.fed@;
        let next = (self.state ^ w).wrapping_mul(FNV_PRIME);
        assert(before.push(w).drop_last() =~= before);
        *self = Hasher { state: next, fed: Ghost(before.push(w)) };
    }

    /// Feeds a string: its UTF-8 bytes one word each, then `STR_END`.
    pub fn write_str(&mut self, s: &str)
        ensures
            final(self)@ == old(self)@ + str_words(s@),
    {
        let bytes = s.as_bytes();
        let ghost start = self@;
        let ghost enc = encode_utf8(s@).map_values(|b: u8| b as u64);
        let mut i: usize = 0;
        while i < bytes.len()
            invariant
                bytes@ == encode_utf8(s@),
                enc == encode_utf8(s@).map_values(|b: u8| b as u64),
                i <= bytes@.len(),
                self@ == start + enc.take(i as int),
            decreases bytes@.len() - i,
        {
            self.write_u64(bytes[i] as u64);
            assert(enc.take(i + 1) =~= enc.take(i as int).push(bytes@[i as int] as u64));
            i += 1;
        }
        assert(enc.take(i as int) =~= enc);
        self.write_u64(STR_END);
        assert(start + str_words(s@) =~= start + enc + seq![STR_END]);
        assert(self@ =~= start + str_words(s@));
    }

    /// The digest of all words fed so far.
    pub fn finish(&self) -> (r: u64)
        ensures
            r == digest(self@),
    {
        proof {
            use_type_invariant(self);
        }
        self.state
    }
}

} // verus!
