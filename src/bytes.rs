use vstd::prelude::*;

verus! {

/// `256` raised to `n`: one more than the largest integer that `n` bytes hold.
pub open spec fn limit(n: nat) -> nat
    decreases n,
{
    if n == 0 {
        1
    } else {
        256 * limit((n - 1) as nat)
    }
}

/// The `n` low bytes of `x`, most significant first.
pub open spec fn be(x: nat, n: nat) -> Seq<u8>
    decreases n,
{
    if n == 0 {
        Seq::empty()
    } else {
        be(x / 256, (n - 1) as nat).push((x % 256) as u8)
    }
}

/// The integer that a big-endian byte string spells.
pub open spec fn be_value(s: Seq<u8>) -> nat
    decreases s.len(),
{
    if s.len() == 0 {
        0
    } else {
        be_value(s.drop_last()) * 256 + s.last() as nat
    }
}

pub proof fn lemma_limits()
    ensures
        limit(1) == 0x100,
        limit(2) == 0x10000,
        limit(4) == 0x1_0000_0000,
        limit(8) == 0x1_0000_0000_0000_0000,
{
    reveal_with_fuel(limit, 9);
}

pub proof fn lemma_limit_pos(n: nat)
    ensures
        limit(n) >= 1,
    decreases n,
{
    if n > 0 {
        lemma_limit_pos((n - 1) as nat);
    }
}

pub proof fn lemma_be_len(x: nat, n: nat)
    ensures
        be(x, n).len() == n,
    decreases n,
{
    if n > 0 {
        lemma_be_len(x / 256, (n - 1) as nat);
    }
}

/// Writing an integer that fits and reading it back gives the integer.
pub proof fn lemma_be_round_trip(x: nat, n: nat)
    requires
        x < limit(n),
    ensures
        be_value(be(x, n)) == x,
        be(x, n).len() == n,
    decreases n,
{
    lemma_be_len(x, n);
    if n > 0 {
        let m = (n - 1) as nat;
        assert(x / 256 < limit(m)) by {
            assert(limit(n) == 256 * limit(m));
        }
        lemma_be_round_trip(x / 256, m);
        assert(be(x, n).drop_last() =~= be(x / 256, m));
    }
}

/// The integer that `n` bytes spell is below `limit(n)`.
pub proof fn lemma_be_value_bound(s: Seq<u8>)
    ensures
        be_value(s) < limit(s.len()),
    decreases s.len(),
{
    if s.len() > 0 {
        lemma_be_value_bound(s.drop_last());
        let m = (s.len() - 1) as nat;
        assert(limit(s.len()) == 256 * limit(m));
        assert(be_value(s.drop_last()) + 1 <= limit(m));
        assert((be_value(s.drop_last()) + 1) * 256 <= limit(m) * 256) by (nonlinear_arith)
            requires
                be_value(s.drop_last()) + 1 <= limit(m),
        ;
    }
}

/// Appends the `n` low bytes of `x`, most significant first.
pub fn push_be(out: &mut Vec<u8>, x: u64, n: usize)
    ensures
        final(out)@ == old(out)@ + be(x as nat, n as nat),
    decreases n,
{
    if n > 0 {
        push_be(out, x / 256, n - 1);
        out.push((x % 256) as u8);
        assert(be(x as nat, n as nat) == be((x / 256) as nat, (n - 1) as nat).push((x % 256) as u8));
    } else {
        assert(be(x as nat, 0) =~= Seq::<u8>::empty());
    }
}

/// Reads the big-endian integer held by `n` bytes from `pos` on.
pub fn read_be(buf: &[u8], pos: usize, n: usize) -> (r: u64)
    requires
        n <= 8,
        pos + n <= buf@.len(),
    ensures
        r as nat == be_value(buf@.subrange(pos as int, pos + n)),
{
    let len = buf.len();
    let mut acc: u64 = 0;
    let mut i: usize = 0;
    proof {
        assert(buf@.subrange(pos as int, pos as int) =~= Seq::<u8>::empty());
    }
    while i < n
        invariant
            i <= n,
            n <= 8,
            pos + n <= buf@.len(),
            len == buf@.len(),
            acc as nat == be_value(buf@.subrange(pos as int, pos + i)),
        decreases n - i,
    {
        let ghost prev = buf@.subrange(pos as int, pos + i);
        let ghost next = buf@.subrange(pos as int, pos + i + 1);
        proof {
            assert(next.drop_last() =~= prev);
            lemma_be_value_bound(prev);
            lemma_limits();
            lemma_limit_mono(i as nat, 7);
            assert(acc * 256 + 255 < 0x1_0000_0000_0000_0000) by (nonlinear_arith)
                requires
                    acc < limit(i as nat),
                    limit(i as nat) <= limit(7),
                    limit(7) * 256 == 0x1_0000_0000_0000_0000,
            ;
        }
        acc = acc * 256 + buf[pos + i] as u64;
        i = i + 1;
    }
    acc
}

pub proof fn lemma_limit_mono(a: nat, b: nat)
    requires
        a <= b,
    ensures
        limit(a) <= limit(b),
    decreases b,
{
    if a < b {
        lemma_limit_mono(a, (b - 1) as nat);
        lemma_limit_pos((b - 1) as nat);
    }
}

} // verus!
