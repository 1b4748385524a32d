//! Numbers in network byte order: the most significant byte first.

use vstd::prelude::*;

verus! {

/// The number of values that `len` bytes can tell apart: 256 to the power of
/// `len`.
pub open spec fn span(len: nat) -> nat
    decreases len,
{
    if len == 0 {
        1
    } else {
        256 * span((len - 1) as nat)
    }
}

/// The number that the bytes spell in network order.
pub open spec fn from_network(bytes: Seq<u8>) -> nat
    decreases bytes.len(),
{
    if bytes.len() == 0 {
        0
    } else {
        from_network(bytes.drop_last()) * 256 + bytes.last() as nat
    }
}

/// The `len` low bytes of a number, in network order.
pub open spec fn to_network(value: nat, len: nat) -> Seq<u8>
    decreases len,
{
    if len == 0 {
        Seq::empty()
    } else {
        to_network(value / 256, (len - 1) as nat).push((value % 256) as u8)
    }
}

/// The two bytes of a port, in network order.
pub open spec fn two_bytes(value: u16) -> Seq<u8> {
    seq![(value / 0x100) as u8, (value % 0x100) as u8]
}

/// The four bytes of an IPv4 address, in network order.
pub open spec fn four_bytes(value: u32) -> Seq<u8> {
    seq![
        (value / 0x100_0000) as u8,
        (value / 0x1_0000 % 0x100) as u8,
        (value / 0x100 % 0x100) as u8,
        (value % 0x100) as u8,
    ]
}

/// The port that two bytes spell in network order.
pub open spec fn from_two_bytes(bytes: Seq<u8>) -> int
    recommends
        bytes.len() == 2,
{
    bytes[0] * 0x100 + bytes[1]
}

/// The IPv4 address that four bytes spell in network order.
pub open spec fn from_four_bytes(bytes: Seq<u8>) -> int
    recommends
        bytes.len() == 4,
{
    bytes[0] * 0x100_0000 + bytes[1] * 0x1_0000 + bytes[2] * 0x100 + bytes[3]
}

/// The short forms write as the general form does.
pub proof fn lemma_short_forms_write(port: u16, ip: u32)
    ensures
        two_bytes(port) == to_network(port as nat, 2),
        four_bytes(ip) == to_network(ip as nat, 4),
{
    reveal_with_fuel(to_network, 5);
    assert(two_bytes(port) =~= to_network(port as nat, 2));
    assert(four_bytes(ip) =~= to_network(ip as nat, 4));
}

/// The short forms read as the general form does.
pub proof fn lemma_short_forms_read(bytes: Seq<u8>)
    ensures
        bytes.len() == 2 ==> from_two_bytes(bytes) == from_network(bytes),
        bytes.len() == 4 ==> from_four_bytes(bytes) == from_network(bytes),
{
    reveal_with_fuel(from_network, 5);
    if bytes.len() == 2 {
        assert(bytes.drop_last().drop_last() =~= Seq::<u8>::empty());
    }
    if bytes.len() == 4 {
        assert(bytes.drop_last().drop_last().drop_last().drop_last() =~= Seq::<u8>::empty());
    }
}

/// A number takes as many bytes as were asked for.
pub proof fn lemma_to_network_len(value: nat, len: nat)
    ensures
        to_network(value, len).len() == len,
    decreases len,
{
    if len > 0 {
        lemma_to_network_len(value / 256, (len - 1) as nat);
    }
}

/// What `len` bytes spell is less than `span(len)`.
pub proof fn lemma_from_network_bound(bytes: Seq<u8>)
    ensures
        from_network(bytes) < span(bytes.len()),
    decreases bytes.len(),
{
    if bytes.len() > 0 {
        lemma_from_network_bound(bytes.drop_last());
    }
}

/// Writing a number that fits and reading it back gives the number.
pub proof fn lemma_written_reads_back(value: nat, len: nat)
    requires
        value < span(len),
    ensures
        from_network(to_network(value, len)) == value,
    decreases len,
{
    if len > 0 {
        let shorter = to_network(value / 256, (len - 1) as nat);
        lemma_written_reads_back(value / 256, (len - 1) as nat);
        assert(to_network(value, len).drop_last() == shorter);
    }
}

/// Reading bytes and writing the number back in as many bytes gives the bytes.
pub proof fn lemma_read_writes_back(bytes: Seq<u8>)
    ensures
        to_network(from_network(bytes), bytes.len()) == bytes,
    decreases bytes.len(),
{
    if bytes.len() > 0 {
        let value = from_network(bytes);
        lemma_read_writes_back(bytes.drop_last());
        assert(value / 256 == from_network(bytes.drop_last()));
        assert(value % 256 == bytes.last());
        assert(bytes.drop_last().push(bytes.last()) == bytes);
    }
}

/// Appends the `len` low bytes of `value`, in network order.
pub fn write_network(out: &mut Vec<u8>, value: u128, len: usize)
    ensures
        final(out)@ == old(out)@ + to_network(value as nat, len as nat),
{
    let ghost before = out@;
    let at = out.len();
    let mut rest = value;
    let mut done: usize = 0;
    while done < len
        invariant
            done <= len,
            at == before.len(),
            out@.len() == at + done,
            out@.subrange(0, at as int) == before,
            to_network(value as nat, len as nat) == to_network(rest as nat, (len - done) as nat)
                + out@.subrange(at as int, out@.len() as int),
        decreases len - done,
    {
        let ghost tail = out@.subrange(at as int, out@.len() as int);
        let low = (rest % 256) as u8;
        out.insert(at, low);
        assert(out@.subrange(0, at as int) == before);
        assert(out@.subrange(at as int, out@.len() as int) == seq![low] + tail);
        assert(to_network(rest as nat, (len - done) as nat) + tail == to_network(
            (rest / 256) as nat,
            (len - done - 1) as nat,
        ) + (seq![low] + tail));
        rest = rest / 256;
        done = done + 1;
    }
    assert(out@ == before + out@.subrange(at as int, out@.len() as int));
}

} // verus!
