//! Detection of the byte ordering of a ROM image and in-place conversion
//! between the two orderings.
use vstd::prelude::*;

verus! {

/// How the 16-bit units of a dumped image are ordered relative to the
/// console's native big-endian form.
#[derive(Clone, Debug, Eq, PartialEq, Structural)]
pub enum ByteSwapping {
    Native,
    U16LittleEndian,
}

impl ByteSwapping {
    /// The display text of this ordering.
    pub open spec fn spec_description(self) -> Seq<char> {
        match self {
            ByteSwapping::Native => "Native"@,
            ByteSwapping::U16LittleEndian => "U16 Little Endian"@,
        }
    }

    /// The display text of this ordering.
    pub fn description(&self) -> (r: &'static str)
        ensures
            r@ == self.spec_description(),
    {
        match self {
            ByteSwapping::Native => "Native",
            ByteSwapping::U16LittleEndian => "U16 Little Endian",
        }
    }
}

/// Why an in-place conversion was refused.
#[derive(Clone, Copy, Debug, Eq, PartialEq, Structural)]
pub enum SwapError {
    /// The first four bytes match neither ordering's magic word.
    UnknownOriginalSwapping,
    /// The buffer's length is odd, so it cannot be split into 2-byte units.
    NotEvenLength,
}

impl SwapError {
    /// The text of this error.
    pub open spec fn spec_message(self) -> Seq<char> {
        match self {
            SwapError::UnknownOriginalSwapping => "Unknown original byte swapping"@,
            SwapError::NotEvenLength => "Not an even length for swapping"@,
        }
    }

    /// The text of this error.
    pub fn message(&self) -> (r: &'static str)
        ensures
            r@ == self.spec_message(),
    {
        match self {
            SwapError::UnknownOriginalSwapping => "Unknown original byte swapping",
            SwapError::NotEvenLength => "Not an even length for swapping",
        }
    }
}

/// The ordering that the first four bytes of `s` identify: the native magic
/// word `80 37 12 40`, the same word with each 16-bit unit byte-swapped, or
/// neither.
pub open spec fn spec_detect_swapping(s: Seq<u8>) -> Option<ByteSwapping> {
    if s.len() < 4 {
        None
    } else if s[0] == 0x80 && s[1] == 0x37 && s[2] == 0x12 && s[3] == 0x40 {
        Some(ByteSwapping::Native)
    } else if s[0] == 0x37 && s[1] == 0x80 && s[2] == 0x40 && s[3] == 0x12 {
        Some(ByteSwapping::U16LittleEndian)
    } else {
        None
    }
}

/// Identifies which byte ordering `buffer` uses from its first four bytes;
/// `None` means the format was not identified, which is not an error.
pub fn detect_swapping(buffer: &[u8]) -> (r: Option<ByteSwapping>)
    ensures
        r == spec_detect_swapping(buffer@),
{
    if buffer.len() < 4 {
        return None;
    }
    if buffer[0] == 0x80 && buffer[1] == 0x37 && buffer[2] == 0x12 && buffer[3] == 0x40 {
        Some(ByteSwapping::Native)
    } else if buffer[0] == 0x37 && buffer[1] == 0x80 && buffer[2] == 0x40 && buffer[3] == 0x12 {
        Some(ByteSwapping::U16LittleEndian)
    } else {
        None
    }
}

/// `s` with the two bytes of every 2-byte unit exchanged. Meaningful for
/// even-length sequences, where every unit is complete.
pub open spec fn spec_pair_swapped(s: Seq<u8>) -> Seq<u8>
    recommends
        s.len() % 2 == 0,
{
    Seq::new(s.len(), |i: int| if i % 2 == 0 { s[i + 1] } else { s[i - 1] })
}

/// What converting `s` to the ordering `target` returns: the rewritten bytes
/// on success, and otherwise exactly which error, on exactly which inputs.
pub open spec fn spec_swap_cart_to(target: ByteSwapping, s: Seq<u8>) -> Result<Seq<u8>, SwapError> {
    match spec_detect_swapping(s) {
        None => Err(SwapError::UnknownOriginalSwapping),
        Some(original) => if s.len() % 2 != 0 {
            Err(SwapError::NotEvenLength)
        } else if original == target {
            Ok(s)
        } else {
            Ok(spec_pair_swapped(s))
        },
    }
}

/// Rewrites `buffer` in place into the ordering `new_swapping`: a no-op when
/// the detected ordering already matches, otherwise a swap of every adjacent
/// byte pair. Fails, leaving the buffer untouched, when the ordering cannot
/// be detected or the length is odd.
pub fn swap_cart_to(new_swapping: ByteSwapping, buffer: &mut Vec<u8>) -> (r: Result<(), SwapError>)
    ensures
        (match spec_swap_cart_to(new_swapping, old(buffer)@) {
            Ok(s) => r == Ok::<(), SwapError>(()) && final(buffer)@ == s,
            Err(e) => r == Err::<(), SwapError>(e) && final(buffer)@ == old(buffer)@,
        }),
{
    let original_swapping = match detect_swapping(buffer.as_slice()) {
        Some(swapping) => swapping,
        None => {
            return Err(SwapError::UnknownOriginalSwapping);
        },
    };

    if buffer.len() % 2 != 0 {
        return Err(SwapError::NotEvenLength);
    }

    if original_swapping == new_swapping {
        return Ok(());
    }

    let half = buffer.len() / 2;
    for ii in 0..half
        invariant
            buffer@.len() == old(buffer)@.len(),
            buffer@.len() <= usize::MAX,
            buffer@.len() % 2 == 0,
            half == buffer@.len() / 2,
            forall|j: int|
                0 <= j < 2 * ii ==> buffer@[j] == spec_pair_swapped(old(buffer)@)[j],
            forall|j: int| 2 * ii <= j < buffer@.len() ==> buffer@[j] == old(buffer)@[j],
    {
        let cur_base = ii * 2;
        let temp = buffer[cur_base];
        let second = buffer[cur_base + 1];
        buffer[cur_base] = second;
        buffer[cur_base + 1] = temp;
    }
    assert(buffer@ =~= spec_pair_swapped(old(buffer)@));

    Ok(())
}

/// The opposite of the two orderings.
pub open spec fn spec_opposite(s: ByteSwapping) -> ByteSwapping {
    match s {
        ByteSwapping::Native => ByteSwapping::U16LittleEndian,
        ByteSwapping::U16LittleEndian => ByteSwapping::Native,
    }
}

/// Swapping every byte pair twice restores the original sequence.
proof fn lemma_pair_swapped_involution(s: Seq<u8>)
    requires
        s.len() % 2 == 0,
    ensures
        spec_pair_swapped(spec_pair_swapped(s)) == s,
{
    assert(spec_pair_swapped(spec_pair_swapped(s)) =~= s);
}

/// A pair swap of a recognized buffer is recognized as the opposite ordering.
proof fn lemma_detect_pair_swapped(s: Seq<u8>)
    requires
        spec_detect_swapping(s) is Some,
    ensures
        spec_detect_swapping(spec_pair_swapped(s)) == Some(
            spec_opposite(spec_detect_swapping(s)->Some_0),
        ),
{
    assert(spec_pair_swapped(s)[0] == s[1]);
    assert(spec_pair_swapped(s)[1] == s[0]);
    assert(spec_pair_swapped(s)[2] == s[3]);
    assert(spec_pair_swapped(s)[3] == s[2]);
}

/// Conversion is an involution: an even-length buffer in the ordering `a`,
/// converted to the other ordering `b` and then back to `a`, goes through a
/// full pair swap and comes back as exactly the original bytes.
pub proof fn lemma_swap_involution(a: ByteSwapping, b: ByteSwapping, s: Seq<u8>)
    requires
        s.len() % 2 == 0,
        spec_detect_swapping(s) == Some(a),
        a != b,
    ensures
        spec_swap_cart_to(b, s) == Ok::<Seq<u8>, SwapError>(spec_pair_swapped(s)),
        spec_swap_cart_to(a, spec_pair_swapped(s)) == Ok::<Seq<u8>, SwapError>(s),
{
    lemma_detect_pair_swapped(s);
    assert(spec_opposite(a) == b);
    lemma_pair_swapped_involution(s);
}

} // verus!
