//! Random identifiers for cosmetic device naming. The randomness itself
//! comes from the `rand` crate; everything proved here holds of every value
//! it may hand back.

use vstd::prelude::*;

verus! {

/// Relies on rand::random: a fresh sample of the Standard distribution;
/// nothing can be promised of the value itself.
pub assume_specification<T>[ rand::random::<T> ]() -> (r: T)
    where
        rand::distributions::Standard: rand::distributions::Distribution<T>,
;

/// Relies on String::from_utf8: a buffer of ASCII bytes decodes to exactly
/// those bytes as characters (each byte below 128 is one code point).
#[verifier::external_body]
fn string_from_ascii(bytes: Vec<u8>) -> (r: String)
    requires
        forall|i: int| 0 <= i < bytes@.len() ==> bytes@[i] < 128,
    ensures
        r@.len() == bytes@.len(),
        forall|i: int| 0 <= i < bytes@.len() ==> r@[i] == bytes@[i] as char,
        forall|i: int| 0 <= i < bytes@.len() ==> r@[i] as u32 == bytes@[i] as u32,
{
    match String::from_utf8(bytes) {
        Ok(s) => s,
        Err(_) => String::new(),
    }
}

/// An ASCII letter, lower or upper case.
pub open spec fn is_ascii_letter(c: char) -> bool {
    (97 <= c as u32 && c as u32 <= 122) || (65 <= c as u32 && c as u32 <= 90)
}

/// A random identifier of `n` ASCII letters.
pub fn rand_string_bytes(n: usize) -> (r: String)
    ensures
        r@.len() == n,
        forall|i: int| 0 <= i < n ==> is_ascii_letter(#[trigger] r@[i]),
{
    let mut bytes: Vec<u8> = Vec::new();
    let mut i: usize = 0;
    while i < n
        invariant
            i <= n,
            bytes@.len() == i,
            forall|j: int|
                0 <= j < i ==> (97 <= #[trigger] bytes@[j] && bytes@[j] <= 122) || (65 <= bytes@[j]
                    && bytes@[j] <= 90),
        decreases n - i,
    {
        let v: u32 = rand::random();
        let idx: u32 = v % 52;
        let b: u8 = if idx < 26 {
            (97 + idx) as u8
        } else {
            (65 + (idx - 26)) as u8
        };
        bytes.push(b);
        i = i + 1;
    }
    string_from_ascii(bytes)
}

/// A random value below `n`.
pub fn rand_integer_num(n: u32) -> (r: u32)
    requires
        n > 0,
    ensures
        r < n,
{
    let v: u32 = rand::random();
    v % n
}

/// A random value below `n`.
pub fn rand_u16_num(n: u16) -> (r: u16)
    requires
        n > 0,
    ensures
        r < n,
{
    let v: u16 = rand::random();
    v % n
}

/// A random coordinate shift in `[-20, 20]`.
pub fn get_random_shift() -> (r: i32)
    ensures
        -20 <= r <= 20,
{
    let v: u32 = rand::random();
    ((v % 41) as i32) - 20
}

} // verus!
