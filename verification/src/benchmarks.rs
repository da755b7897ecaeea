//! What the guest programs compute. They are load generators: small, fixed,
//! and the same on every backend.

use vstd::prelude::*;
use vstd::arithmetic::div_mod::lemma_add_mod_noop;

verus! {

/// The modulus that keeps the Fibonacci guest's numbers small.
pub const FIBONACCI_MODULUS: u32 = 7919;

/// The Fibonacci numbers: 0, 1, 1, 2, 3, 5, ...
pub open spec fn fib(k: nat) -> nat
    decreases k,
{
    if k == 0 {
        0
    } else if k == 1 {
        1
    } else {
        fib((k - 2) as nat) + fib((k - 1) as nat)
    }
}

/// The Fibonacci numbers with every sum reduced modulo 7919.
pub open spec fn fib_mod(k: nat) -> nat
    decreases k,
{
    if k == 0 {
        0
    } else if k == 1 {
        1
    } else {
        (fib_mod((k - 2) as nat) + fib_mod((k - 1) as nat)) % (FIBONACCI_MODULUS as nat)
    }
}

/// Reducing at every step gives the residue of the Fibonacci number.
pub proof fn lemma_fib_mod_is_residue(k: nat)
    ensures
        fib_mod(k) == fib(k) % (FIBONACCI_MODULUS as nat),
    decreases k,
{
    if k >= 2 {
        lemma_fib_mod_is_residue((k - 2) as nat);
        lemma_fib_mod_is_residue((k - 1) as nat);
        lemma_add_mod_noop(
            fib((k - 2) as nat) as int,
            fib((k - 1) as nat) as int,
            FIBONACCI_MODULUS as int,
        );
    }
}

/// What the Fibonacci guest computes for the input `n`: the residue modulo
/// 7919 of the Fibonacci number after the `n`-th.
pub fn fibonacci(n: u32) -> (b: u32)
    ensures
        b == fib_mod((n + 1) as nat),
        b == fib((n + 1) as nat) % (FIBONACCI_MODULUS as nat),
{
    let mut a: u32 = 0;
    let mut b: u32 = 1;
    let mut i: u32 = 0;
    while i < n
        invariant
            i <= n,
            a == fib_mod(i as nat),
            b == fib_mod((i + 1) as nat),
            a < FIBONACCI_MODULUS,
            b < FIBONACCI_MODULUS,
        decreases n - i,
    {
        let sum: u32 = (a + b) % FIBONACCI_MODULUS;
        a = b;
        b = sum;
        i = i + 1;
    }
    proof {
        lemma_fib_mod_is_residue((n + 1) as nat);
    }
    b
}

/// The input of the Fibonacci guest for the number `n`: its four bytes,
/// least significant first.
pub open spec fn input_bytes_of(n: u32) -> Seq<u8> {
    seq![
        (n % 256) as u8,
        (n / 256 % 256) as u8,
        (n / 65536 % 256) as u8,
        (n / 16777216) as u8,
    ]
}

/// The number that an input of the Fibonacci guest stands for: four bytes,
/// least significant first. `None` for an input of another length.
pub open spec fn zisk_input_of(input: Seq<u8>) -> Option<u32> {
    if input.len() == 4 {
        Some((input[0] + input[1] * 256 + input[2] * 65536 + input[3] * 16777216) as u32)
    } else {
        None
    }
}

/// Writes the number that the Fibonacci guest is to run on as its input.
pub fn input_bytes(n: u32) -> (input: Vec<u8>)
    ensures
        input@ == input_bytes_of(n),
{
    let mut input: Vec<u8> = Vec::new();
    input.push((n % 256) as u8);
    input.push((n / 256 % 256) as u8);
    input.push((n / 65536 % 256) as u8);
    input.push((n / 16777216) as u8);
    assert(input@ =~= input_bytes_of(n));
    input
}

/// Reads the number that the Fibonacci guest is run on from its input.
pub fn zisk_input(input: Vec<u8>) -> (n: Option<u32>)
    ensures
        n == zisk_input_of(input@),
{
    if input.len() == 4 {
        let low: u32 = input[0] as u32 + input[1] as u32 * 256;
        let high: u32 = input[2] as u32 + input[3] as u32 * 256;
        Some(low + high * 65536)
    } else {
        None
    }
}

/// The guest reads back the number that the host wrote.
pub proof fn lemma_input_round_trip(n: u32)
    ensures
        zisk_input_of(input_bytes_of(n)) == Some(n),
{
    let bytes = input_bytes_of(n);
    assert(bytes[0] == n % 256);
    assert(bytes[1] == n / 256 % 256);
    assert(bytes[2] == n / 65536 % 256);
    assert(bytes[3] == n / 16777216);
    assert(n == n % 256 + (n / 256 % 256) * 256 + (n / 65536 % 256) * 65536 + (n / 16777216)
        * 16777216) by (nonlinear_arith)
        requires
            0 <= n < 0x1_0000_0000,
    ;
}

} // verus!
