//! Text made of the bytes of an identify page and of the bits of a status
//! word.

use vstd::prelude::*;
use super::queue_pair::NvmeQueuePair;

verus! {

/// Length of `s` without the zero bytes and spaces at its end.
pub open spec fn trimmed_len(s: Seq<u8>) -> nat
    decreases s.len(),
{
    if s.len() == 0 {
        0
    } else if s.last() == 0 || s.last() == 0x20 {
        trimmed_len(s.drop_last())
    } else {
        s.len()
    }
}

/// The text in bytes `from` to `to` of an identify page: one character per
/// byte, without the zero bytes and spaces that pad the field at its end.
pub open spec fn text_field(data: Seq<u8>, from: int, to: int) -> Seq<char> {
    let field = data.subrange(from, to);
    Seq::new(trimmed_len(field), |i: int| field[i] as char)
}

/// `String::push` of the standard library: the string afterwards is the
/// string before with the character at its end.
#[verifier::external_body]
fn push_char(text: &mut String, c: char)
    ensures
        final(text)@ == old(text)@.push(c),
{
    text.push(c);
}

/// Reads the text in bytes `from` to `to` of an identify page.
pub(super) fn read_text_field(data: &[u8], from: usize, to: usize) -> (text: String)
    requires
        from <= to <= data@.len(),
    ensures
        text@ == text_field(data@, from as int, to as int),
{
    let ghost field = data@.subrange(from as int, to as int);
    let mut end: usize = to;
    assert(field.subrange(0, end - from) =~= field);
    while end > from && (data[end - 1] == 0 || data[end - 1] == 0x20)
        invariant
            from <= end <= to <= data@.len(),
            field == data@.subrange(from as int, to as int),
            trimmed_len(field) == trimmed_len(field.subrange(0, end - from)),
        decreases end,
    {
        proof {
            let part = field.subrange(0, end - from);
            assert(part.last() == data@[end - 1]);
            assert(part.drop_last() =~= field.subrange(0, end - 1 - from));
        }
        end = end - 1;
    }
    proof {
        let part = field.subrange(0, end - from);
        if end > from {
            assert(part.last() == data@[end - 1]);
        }
        assert(trimmed_len(field) == end - from);
    }
    let mut text = String::new();
    let mut i: usize = from;
    while i < end
        invariant
            from <= i <= end <= to <= data@.len(),
            field == data@.subrange(from as int, to as int),
            text@ == Seq::new((i - from) as nat, |k: int| field[k] as char),
        decreases end - i,
    {
        let ghost before = text@;
        push_char(&mut text, data[i] as char);
        assert(text@ =~= Seq::new((i + 1 - from) as nat, |k: int| field[k] as char));
        i = i + 1;
    }
    text
}

/// The binary digits of `n`, most significant first, `width` of them.
pub open spec fn binary(n: int, width: nat) -> Seq<char>
    decreases width,
{
    if width == 0 {
        Seq::empty()
    } else {
        binary(n / 2, (width - 1) as nat).push(
            if n % 2 == 1 {
                '1'
            } else {
                '0'
            },
        )
    }
}

/// The sixteen digits `bits` from position `pos` on, cut into groups of the
/// given sizes with one space between two groups. The last group ends where
/// the digits end, and sizes beyond that are not used.
pub open spec fn bit_chunks(bits: Seq<char>, sizes: Seq<usize>, pos: int) -> Seq<char>
    decreases sizes.len(),
{
    if sizes.len() == 0 {
        Seq::empty()
    } else {
        let end = if pos + sizes[0] > 16 {
            16
        } else {
            pos + sizes[0]
        };
        let chunk = bits.subrange(pos, end);
        if end >= 16 || sizes.len() == 1 {
            chunk
        } else {
            chunk + seq![' '] + bit_chunks(bits, sizes.drop_first(), end)
        }
    }
}

proof fn lemma_binary_len(n: int, width: nat)
    ensures
        binary(n, width).len() == width,
    decreases width,
{
    if width > 0 {
        lemma_binary_len(n / 2, (width - 1) as nat);
    }
}

impl NvmeQueuePair {
    /// Writes `n` as sixteen binary digits, most significant first, in
    /// groups of the sizes `chunk_sizes` with one space between two groups:
    /// the fields of a status word, told apart at a glance.
    pub fn u16_to_variable_bit_chunks(n: u16, chunk_sizes: &Vec<usize>) -> (text: String)
        ensures
            text@ == bit_chunks(binary(n as int, 16), chunk_sizes@, 0),
    {
        let ghost bits = binary(n as int, 16);
        proof {
            lemma_binary_len(n as int, 16);
        }
        let mut digits: Vec<char> = Vec::new();
        while digits.len() < 16
            invariant
                digits@.len() <= 16,
            decreases 16 - digits@.len(),
        {
            digits.push('0');
        }
        let mut rest: u16 = n;
        let mut k: usize = 0;
        while k < 16
            invariant
                k <= 16,
                digits@.len() == 16,
                bits == binary(n as int, 16),
                bits.len() == 16,
                forall|j: int| 16 - k <= j < 16 ==> digits@[j] == bits[j],
                forall|j: int| 0 <= j < 16 - k ==> bits[j] == binary(rest as int, (16 - k) as nat)[j],
                binary(rest as int, (16 - k) as nat).len() == 16 - k,
            decreases 16 - k,
        {
            proof {
                lemma_binary_len(rest as int / 2, (15 - k) as nat);
            }
            let digit = if rest % 2 == 1 {
                '1'
            } else {
                '0'
            };
            digits[15 - k] = digit;
            rest = rest / 2;
            k = k + 1;
        }
        assert(digits@ =~= bits);
        let mut text = String::new();
        let mut pos: usize = 0;
        let mut i: usize = 0;
        assert(chunk_sizes@.skip(0) =~= chunk_sizes@);
        assert(text@ + bit_chunks(bits, chunk_sizes@, 0) =~= bit_chunks(bits, chunk_sizes@, 0));
        while i < chunk_sizes.len()
            invariant
                i <= chunk_sizes@.len(),
                pos <= 16,
                digits@ == bits,
                bits == binary(n as int, 16),
                bits.len() == 16,
                bit_chunks(bits, chunk_sizes@, 0) == text@ + bit_chunks(
                    bits,
                    chunk_sizes@.skip(i as int),
                    pos as int,
                ),
            decreases chunk_sizes@.len() - i,
        {
            let size = chunk_sizes[i];
            let end: usize = if size > 16 - pos {
                16
            } else {
                pos + size
            };
            let ghost before = text@;
            let ghost sizes = chunk_sizes@.skip(i as int);
            assert(sizes[0] == size);
            assert(sizes.drop_first() =~= chunk_sizes@.skip(i + 1));
            let mut j: usize = pos;
            while j < end
                invariant
                    pos <= j <= end <= 16,
                    digits@ == bits,
                    bits.len() == 16,
                    text@ == before + bits.subrange(pos as int, j as int),
                decreases end - j,
            {
                push_char(&mut text, digits[j]);
                assert(text@ =~= before + bits.subrange(pos as int, j + 1));
                j = j + 1;
            }
            if end >= 16 || i + 1 == chunk_sizes.len() {
                assert(sizes.len() == 1 <==> i + 1 == chunk_sizes@.len());
                assert(bit_chunks(bits, sizes, pos as int) == bits.subrange(pos as int, end as int));
                return text;
            }
            push_char(&mut text, ' ');
            assert(text@ + bit_chunks(bits, chunk_sizes@.skip(i + 1), end as int) =~= before + (
            bits.subrange(pos as int, end as int) + seq![' '] + bit_chunks(
                bits,
                sizes.drop_first(),
                end as int,
            )));
            pos = end;
            i = i + 1;
        }
        assert(chunk_sizes@.skip(i as int).len() == 0);
        assert(text@ + Seq::<char>::empty() =~= text@);
        text
    }
}

} // verus!
