//! The teardown policy of a command-backed reader: when the reader is
//! discarded, the process it spawned must not survive. On platforms with
//! process groups the whole group is signalled, caught by addressing the
//! negative of the child's process id; elsewhere only the immediate child
//! can be killed, a documented limitation.

use vstd::prelude::*;

verus! {

/// Which teardown a platform supports, decided once at construction time.
#[derive(Debug, Clone, Copy, PartialEq, Eq, Structural)]
pub enum TeardownStrategy {
    /// Signal the whole process group the child was placed in.
    GroupSignal,
    /// Kill only the immediate child; its descendants may survive.
    ChildKillOnly,
}

/// Select the teardown strategy from the platform's capability: group
/// signalling where process groups are supported, the child-only fallback
/// elsewhere.
pub fn strategy_for_platform(process_groups_supported: bool) -> (s: TeardownStrategy)
    ensures
        s is GroupSignal <==> process_groups_supported,
{
    if process_groups_supported {
        TeardownStrategy::GroupSignal
    } else {
        TeardownStrategy::ChildKillOnly
    }
}

/// The decimal digits of `n`, most significant first, as ASCII bytes.
pub open spec fn decimal_digits(n: nat) -> Seq<u8>
    decreases n,
{
    if n < 10 {
        seq![(48 + n) as u8]
    } else {
        decimal_digits(n / 10).push((48 + n % 10) as u8)
    }
}

/// The number a sequence of ASCII digits denotes, most significant first.
pub open spec fn decimal_value(s: Seq<u8>) -> nat
    decreases s.len(),
{
    if s.len() == 0 {
        0
    } else {
        (decimal_value(s.drop_last()) * 10 + (s.last() - 48)) as nat
    }
}

/// The decimal rendering of `n` denotes `n` again, and is made of ASCII
/// digits only.
pub proof fn lemma_decimal_digits_denote(n: nat)
    ensures
        decimal_value(decimal_digits(n)) == n,
        decimal_digits(n).len() >= 1,
        forall|i: int|
            0 <= i < decimal_digits(n).len() ==> 48 <= #[trigger] decimal_digits(n)[i] <= 57,
    decreases n,
{
    if n < 10 {
        let s = decimal_digits(n);
        assert(s =~= seq![(48 + n) as u8]);
        assert(s.drop_last() =~= Seq::<u8>::empty());
        assert(decimal_value(s.drop_last()) == 0);
        assert(s.last() == (48 + n) as u8);
        assert(48 + n < 256);
        assert(s.last() == 48 + n);
        assert(decimal_value(s) == (0 * 10 + (s.last() - 48)) as nat);
        assert(decimal_value(s) == n);
    } else {
        lemma_decimal_digits_denote(n / 10);
        let s = decimal_digits(n);
        let head = decimal_digits(n / 10);
        assert(s == head.push((48 + n % 10) as u8));
        assert(s.drop_last() =~= head);
        assert(s.last() == (48 + n % 10) as u8);
        assert(decimal_value(s) == decimal_value(head) * 10 + n % 10);
        assert(n / 10 * 10 + n % 10 == n) by {
            vstd::arithmetic::div_mod::lemma_fundamental_div_mod(n as int, 10);
        }
    }
}

/// Append the decimal digits of `n`, most significant first.
fn push_decimal_digits(n: u32, out: &mut Vec<u8>)
    ensures
        final(out)@ == old(out)@ + decimal_digits(n as nat),
    decreases n,
{
    if n >= 10 {
        push_decimal_digits(n / 10, out);
    }
    let d: u8 = 48 + (n % 10) as u8;
    out.push(d);
    proof {
        if n >= 10 {
            assert(out@ =~= old(out)@ + decimal_digits(n as nat));
        } else {
            assert(decimal_digits(n as nat) =~= seq![d]);
            assert(out@ =~= old(out)@ + decimal_digits(n as nat));
        }
    }
}

/// The argument that addresses the whole process group of a child with
/// process id `pid` when signalling: a minus sign followed by the decimal
/// process id, which the operating system reads as "the group whose id is
/// `pid`". The group id equals the child's id because the child was placed
/// in a fresh group of its own at spawn time.
pub fn group_signal_target(pid: u32) -> (r: Vec<u8>)
    ensures
        r@ == seq![45u8] + decimal_digits(pid as nat),
{
    let mut out: Vec<u8> = Vec::new();
    out.push(45);
    push_decimal_digits(pid, &mut out);
    proof {
        assert(out@ =~= seq![45u8] + decimal_digits(pid as nat));
    }
    out
}

} // verus!
