//! Fixed-size byte arrays built from and into variable-length byte strings.
use vstd::prelude::*;

verus! {

/// The bytes of `v` as an array of its length.
pub fn array_from_slice<const N: usize>(v: &[u8]) -> (a: [u8; N])
    requires
        v@.len() == N,
    ensures
        a@ == v@,
{
    let mut a = [0u8; N];
    let mut i: usize = 0;
    while i < N
        invariant
            v@.len() == N,
            i <= N,
            a@.len() == N,
            forall|j: int| 0 <= j < i ==> a@[j] == v@[j],
        decreases N - i,
    {
        a.set(i, v[i]);
        i = i + 1;
    }
    assert(a@ =~= v@);
    a
}

/// The concatenation of two byte strings as an array of their total length.
pub fn concat_to_array<const N: usize>(left: &[u8], right: &[u8]) -> (a: [u8; N])
    requires
        left@.len() + right@.len() == N,
    ensures
        a@ == left@ + right@,
{
    let mut a = [0u8; N];
    let mut i: usize = 0;
    while i < left.len()
        invariant
            left@.len() + right@.len() == N,
            i <= left@.len(),
            a@.len() == N,
            forall|j: int| 0 <= j < i ==> a@[j] == left@[j],
        decreases left@.len() - i,
    {
        a.set(i, left[i]);
        i = i + 1;
    }
    let mut k: usize = 0;
    while k < right.len()
        invariant
            left@.len() + right@.len() == N,
            k <= right@.len(),
            a@.len() == N,
            forall|j: int| 0 <= j < left@.len() ==> a@[j] == left@[j],
            forall|j: int| 0 <= j < k ==> a@[left@.len() + j] == right@[j],
        decreases right@.len() - k,
    {
        a.set(left.len() + k, right[k]);
        k = k + 1;
    }
    assert(a@ =~= left@ + right@);
    a
}

/// The bytes `from..to` of `v`.
pub fn slice_to_array<const N: usize>(v: &[u8], from: usize) -> (a: [u8; N])
    requires
        from + N <= v@.len(),
    ensures
        a@ == v@.subrange(from as int, from + N),
{
    let mut a = [0u8; N];
    let mut i: usize = 0;
    while i < N
        invariant
            from + N <= v@.len(),
            v@.len() == v.len(),
            i <= N,
            a@.len() == N,
            forall|j: int| 0 <= j < i ==> a@[j] == v@[from + j],
        decreases N - i,
    {
        a.set(i, v[from + i]);
        i = i + 1;
    }
    assert(a@ =~= v@.subrange(from as int, from + N));
    a
}


/// The lower-case hexadecimal digit of a value below 16.
pub open spec fn hex_digit(n: u8) -> char {
    if n < 10 {
        (48 + n) as char
    } else {
        (87 + n) as char
    }
}

/// The two lower-case hexadecimal digits of each byte, in order (what
/// `format!("{byte:02x}")` writes for each byte).
pub open spec fn hex_lower(bytes: Seq<u8>) -> Seq<char>
    decreases bytes.len(),
{
    if bytes.len() == 0 {
        Seq::empty()
    } else {
        hex_lower(bytes.drop_last()) + seq![hex_digit(bytes.last() / 16), hex_digit(bytes.last() % 16)]
    }
}

fn hex_digit_char(n: u8) -> (c: char)
    requires
        n < 16,
    ensures
        c == hex_digit(n),
{
    if n < 10 {
        (48 + n) as char
    } else {
        (87 + n) as char
    }
}

/// The lower-case hexadecimal text of a byte string.
pub fn to_hex_lower(bytes: &[u8]) -> (text: String)
    ensures
        text@ == hex_lower(bytes@),
        text@.len() == 2 * bytes@.len(),
{
    let mut text = String::new();
    let mut i: usize = 0;
    while i < bytes.len()
        invariant
            i <= bytes@.len(),
            text@ == hex_lower(bytes@.take(i as int)),
            text@.len() == 2 * i,
        decreases bytes@.len() - i,
    {
        let b = bytes[i];
        crate::primitives::push_char(&mut text, hex_digit_char(b / 16));
        crate::primitives::push_char(&mut text, hex_digit_char(b % 16));
        proof {
            assert(bytes@.take(i + 1).drop_last() =~= bytes@.take(i as int));
            assert(bytes@.take(i + 1).last() == b);
        }
        i = i + 1;
    }
    assert(bytes@.take(bytes@.len() as int) =~= bytes@);
    text
}

} // verus!
