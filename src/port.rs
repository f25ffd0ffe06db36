//! The cursor that hands out ephemeral ports.
use vstd::prelude::*;

verus! {

/// First ephemeral port.
pub const PORT_START: u16 = 0xc000;

/// Last ephemeral port.
pub const PORT_END: u16 = 0xffff;

/// Number of ephemeral ports.
pub const PORT_COUNT: u32 = 16384;

/// The cursor after handing out port `c`.
pub open spec fn next_cursor(c: u16) -> u16 {
    if c == PORT_END {
        PORT_START
    } else {
        (c + 1) as u16
    }
}

/// The cursor after `n` ports were handed out from cursor `c`; it is also
/// the port handed out by the call that follows them.
pub open spec fn cursor_after(c: u16, n: nat) -> u16
    decreases n,
{
    if n == 0 {
        c
    } else {
        next_cursor(cursor_after(c, (n - 1) as nat))
    }
}

/// The cursor of ephemeral ports, cycling through `[PORT_START, PORT_END]`.
pub struct EphemeralPorts {
    next: u16,
    issued: Ghost<nat>,
}

impl EphemeralPorts {
    /// The port the next call hands out.
    pub closed spec fn cursor(&self) -> u16 {
        self.next
    }

    /// How many ports were handed out since the cursor was made.
    pub closed spec fn issued(&self) -> nat {
        self.issued@
    }

    #[verifier::type_invariant]
    closed spec fn in_range(&self) -> bool {
        &&& self.next >= PORT_START
        &&& self.next == cursor_after(PORT_START, self.issued@)
    }

    /// A cursor at the first ephemeral port.
    pub fn new() -> (r: EphemeralPorts)
        ensures
            r.cursor() == PORT_START,
            r.issued() == 0,
    {
        EphemeralPorts { next: PORT_START, issued: Ghost(0) }
    }

    /// Hands out the port at the cursor and moves the cursor on, wrapping
    /// from the last port to the first: the `k`-th call since the cursor
    /// was made (counting from 0) hands out `PORT_START + k % PORT_COUNT`.
    pub fn get_ephemeral_port(&mut self) -> (port: u16)
        ensures
            port == old(self).cursor(),
            PORT_START <= port,
            port == PORT_START + (old(self).issued() as int) % (PORT_COUNT as int),
            port == cursor_after(PORT_START, old(self).issued()),
            final(self).cursor() == next_cursor(port),
            PORT_START <= final(self).cursor(),
            final(self).issued() == old(self).issued() + 1,
    {
        proof {
            use_type_invariant(&*self);
            lemma_cursor_after_formula(PORT_START, self.issued@);
        }
        let port = self.next;
        let next = if port == PORT_END {
            PORT_START
        } else {
            port + 1
        };
        let ghost issued = (self.issued@ + 1) as nat;
        assert(next == cursor_after(PORT_START, issued));
        *self = EphemeralPorts { next, issued: Ghost(issued) };
        port
    }
}

/// The cursor after `n` ports handed out from `c`, in closed form.
pub proof fn lemma_cursor_after_formula(c: u16, n: nat)
    requires
        PORT_START <= c,
    ensures
        cursor_after(c, n) == PORT_START + (c - PORT_START + n) % (PORT_COUNT as int),
    decreases n,
{
    if n > 0 {
        lemma_cursor_after_formula(c, (n - 1) as nat);
        let x = c - PORT_START + n - 1;
        assert((x + 1) % 16384 == if x % 16384 == 16383 {
            0
        } else {
            x % 16384 + 1
        }) by (nonlinear_arith)
            requires
                x >= 0,
        ;
    }
}

/// Ports handed out one after another from a cursor in range are in range
/// and pairwise distinct for as long as fewer than `PORT_COUNT` were handed
/// out, and `PORT_COUNT` calls bring the cursor back where it started.
pub proof fn lemma_ephemeral_ports(c: u16, n: nat)
    requires
        PORT_START <= c,
        n <= PORT_COUNT,
    ensures
        forall|i: nat| i < n ==> PORT_START <= #[trigger] cursor_after(c, i) <= PORT_END,
        forall|i: nat, j: nat|
            i < j < n ==> #[trigger] cursor_after(c, i) != #[trigger] cursor_after(c, j),
        cursor_after(c, PORT_COUNT as nat) == c,
        cursor_after(PORT_START, PORT_COUNT as nat) == PORT_START,
{
    assert forall|i: nat, j: nat| i < j < n implies #[trigger] cursor_after(c, i)
        != #[trigger] cursor_after(c, j) by {
        lemma_cursor_after_formula(c, i);
        lemma_cursor_after_formula(c, j);
        let o = c - PORT_START;
        assert((o + i) % 16384 != (o + j) % 16384) by (nonlinear_arith)
            requires
                0 <= o < 16384,
                0 <= i < j,
                j < 16384 + i,
        ;
    }
    assert forall|i: nat| i < n implies PORT_START <= #[trigger] cursor_after(c, i) <= PORT_END by {
        lemma_cursor_after_formula(c, i);
    }
    lemma_cursor_after_formula(c, PORT_COUNT as nat);
    lemma_cursor_after_formula(PORT_START, PORT_COUNT as nat);
}

/// The ports handed out by the calls number `i` and `j` of
/// `get_ephemeral_port` (counted from the cursor's creation) differ when
/// fewer than `PORT_COUNT` calls separate them, lie in the ephemeral range,
/// and the call `PORT_COUNT` later hands out the same port again.
pub proof fn lemma_issued_ports(i: nat, j: nat)
    ensures
        i < j < i + PORT_COUNT ==> cursor_after(PORT_START, i) != cursor_after(PORT_START, j),
        PORT_START <= cursor_after(PORT_START, i) <= PORT_END,
        cursor_after(PORT_START, i) == PORT_START + (i as int) % (PORT_COUNT as int),
        cursor_after(PORT_START, (i + PORT_COUNT) as nat) == cursor_after(PORT_START, i),
{
    lemma_cursor_after_formula(PORT_START, i);
    lemma_cursor_after_formula(PORT_START, j);
    lemma_cursor_after_formula(PORT_START, (i + PORT_COUNT) as nat);
    assert(i < j < i + 16384 ==> i % 16384 != j % 16384) by (nonlinear_arith);
    assert((i + 16384) % 16384 == i % 16384) by (nonlinear_arith);
}

} // verus!
