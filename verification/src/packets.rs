//! The layout of transfer buffers: control setup packets and isochronous packets.
use vstd::prelude::*;

verus! {

/// The fields of a control request that the guest chooses.
#[derive(Debug, Clone, Copy, PartialEq, Eq, Structural)]
pub struct TransferSetup {
    pub bm_request_type: u8,
    pub b_request: u8,
    pub w_value: u16,
    pub w_index: u16,
}

/// The low byte of `value`.
pub open spec fn low_byte(value: int) -> u8 {
    (value % 256) as u8
}

/// The second byte of `value`.
pub open spec fn second_byte(value: int) -> u8 {
    ((value / 256) % 256) as u8
}

/// The number whose low byte is `low` and whose second byte is `high`.
pub open spec fn little_endian(low: u8, high: u8) -> int {
    low + 256 * high
}

impl TransferSetup {
    /// The setup packet of this request: the two request bytes, then value, index and
    /// length, each as two bytes with the low one first.
    pub open spec fn packet(self, length: u32) -> Seq<u8> {
        seq![
            self.bm_request_type,
            self.b_request,
            low_byte(self.w_value as int),
            second_byte(self.w_value as int),
            low_byte(self.w_index as int),
            second_byte(self.w_index as int),
            low_byte(length as int),
            second_byte(length as int),
        ]
    }

    /// Write the setup packet over the first bytes of `buffer`.
    pub(crate) fn write_packet(&self, length: u32, buffer: &mut Vec<u8>)
        requires
            old(buffer)@.len() >= 8,
        ensures
            final(buffer)@ == self.packet(length) + old(buffer)@.skip(8),
    {
        let w_value: u16 = self.w_value;
        let w_index: u16 = self.w_index;
        proof {
            assert((w_value & 0xFF) as u8 == w_value % 256 && (w_value >> 8) as u8 == (w_value
                / 256) % 256) by (bit_vector);
            assert((w_index & 0xFF) as u8 == w_index % 256 && (w_index >> 8) as u8 == (w_index
                / 256) % 256) by (bit_vector);
            assert((length & 0xFF) as u8 == length % 256 && ((length >> 8) & 0xFF) as u8 == (length
                / 256) % 256) by (bit_vector);
        }
        let ghost before = buffer@;
        buffer[0] = self.bm_request_type;
        buffer[1] = self.b_request;
        buffer[2] = (w_value & 0xFF) as u8;
        buffer[3] = (w_value >> 8) as u8;
        buffer[4] = (w_index & 0xFF) as u8;
        buffer[5] = (w_index >> 8) as u8;
        buffer[6] = (length & 0xFF) as u8;
        buffer[7] = ((length >> 8) & 0xFF) as u8;
        assert(buffer@ =~= self.packet(length) + before.skip(8));
    }
}

/// The length of packet `i` of `count` where `total` bytes are spread over them: every
/// packet has the same share, and what is left over goes to the last one.
pub open spec fn iso_length(total: u32, count: int, i: int) -> int
    recommends
        0 <= i < count,
{
    if i == count - 1 {
        total as int / count + total as int % count
    } else {
        total as int / count
    }
}

/// The lengths of all packets where `total` bytes are spread over `count` packets.
/// There are none where `count` is not positive.
pub open spec fn iso_lengths(total: u32, count: int) -> Seq<u32> {
    Seq::new(
        if count > 0 {
            count as nat
        } else {
            0
        },
        |i: int| iso_length(total, count, i) as u32,
    )
}

/// The sum of `lengths`.
pub open spec fn sum(lengths: Seq<u32>) -> nat
    decreases lengths.len(),
{
    if lengths.len() == 0 {
        0
    } else {
        sum(lengths.drop_last()) + lengths.last() as nat
    }
}

/// Spread `total` bytes over `count` isochronous packets.
pub fn iso_packet_lengths(total: u32, count: i32) -> (lengths: Vec<u32>)
    ensures
        lengths@ == iso_lengths(total, count as int),
{
    let mut lengths: Vec<u32> = Vec::new();
    if count > 0 {
        let base: u32 = total / count as u32;
        let rest: u32 = total % count as u32;
        let mut i: i32 = 0;
        proof {
            lemma_last_length_fits(total, count as int);
        }
        while i < count
            invariant
                0 <= i <= count,
                base == total as int / count as int,
                rest == total as int % count as int,
                base + rest <= total,
                lengths@.len() == i,
                forall|j: int|
                    0 <= j < i ==> lengths@[j] == iso_length(total, count as int, j) as u32,
            decreases count - i,
        {
            if i == count - 1 {
                lengths.push(base + rest);
            } else {
                lengths.push(base);
            }
            i = i + 1;
        }
    }
    assert(lengths@ =~= iso_lengths(total, count as int));
    lengths
}

/// Whether the data of every packet lie within `size` bytes. Packet `i` starts behind the
/// packets before it, each of which takes its length, and `actual[i]` bytes of it are data.
pub open spec fn packets_within(lengths: Seq<u32>, actual: Seq<u32>, size: nat) -> bool {
    &&& lengths.len() == actual.len()
    &&& forall|i: int|
        0 <= i < actual.len() ==> sum(lengths.take(i)) + #[trigger] actual[i] <= size
}

/// The data of the first `n` packets, one packet after the other.
pub open spec fn combined(
    buffer: Seq<u8>,
    lengths: Seq<u32>,
    actual: Seq<u32>,
    n: int,
) -> Seq<u8>
    decreases n,
{
    if n <= 0 {
        Seq::empty()
    } else {
        let start = sum(lengths.take(n - 1)) as int;
        combined(buffer, lengths, actual, n - 1) + buffer.subrange(start, start + actual[n - 1])
    }
}

/// Test whether the data of every packet lie within `size` bytes.
pub(crate) fn are_packets_within(lengths: &Vec<u32>, actual: &Vec<u32>, size: usize) -> (within:
    bool)
    ensures
        within == packets_within(lengths@, actual@, size as nat),
{
    if lengths.len() != actual.len() {
        return false;
    }
    let mut start: usize = 0;
    let mut i: usize = 0;
    assert(lengths@.take(0) =~= Seq::empty());
    while i < actual.len()
        invariant
            i <= actual@.len(),
            lengths@.len() == actual@.len(),
            start <= size,
            i < actual@.len() ==> start == sum(lengths@.take(i as int)),
            forall|j: int|
                0 <= j < i ==> sum(lengths@.take(j)) + #[trigger] actual@[j] <= size,
        decreases actual@.len() - i,
    {
        if actual[i] as usize > size - start {
            assert(sum(lengths@.take(i as int)) + actual@[i as int] > size);
            return false;
        }
        i = i + 1;
        if i < actual.len() {
            assert(lengths@.take(i as int).drop_last() =~= lengths@.take(i - 1));
            let length: usize = lengths[i - 1] as usize;
            if length > size - start {
                assert(sum(lengths@.take(i as int)) + actual@[i as int] > size);
                return false;
            }
            start = start + length;
        }
    }
    true
}

/// Put the data of all packets together.
pub(crate) fn combine(buffer: &Vec<u8>, lengths: &Vec<u32>, actual: &Vec<u32>) -> (data: Vec<u8>)
    requires
        packets_within(lengths@, actual@, buffer@.len()),
    ensures
        data@ == combined(buffer@, lengths@, actual@, actual@.len() as int),
{
    let mut data: Vec<u8> = Vec::new();
    let mut start: usize = 0;
    let mut i: usize = 0;
    let size: usize = buffer.len();
    assert(lengths@.take(0) =~= Seq::empty());
    while i < actual.len()
        invariant
            i <= actual@.len(),
            size == buffer@.len(),
            packets_within(lengths@, actual@, size as nat),
            i < actual@.len() ==> start == sum(lengths@.take(i as int)),
            data@ == combined(buffer@, lengths@, actual@, i as int),
        decreases actual@.len() - i,
    {
        assert(sum(lengths@.take(i as int)) + actual@[i as int] <= size);
        append_range(&mut data, buffer, start, actual[i] as usize);
        i = i + 1;
        if i < actual.len() {
            assert(lengths@.take(i as int).drop_last() =~= lengths@.take(i - 1));
            assert(sum(lengths@.take(i as int)) + actual@[i as int] <= size);
            start = start + lengths[i - 1] as usize;
        }
    }
    data
}

/// Append `len` bytes of `buffer`, from position `from` on.
pub(crate) fn append_range(data: &mut Vec<u8>, buffer: &Vec<u8>, from: usize, len: usize)
    requires
        from + len <= buffer@.len(),
    ensures
        final(data)@ == old(data)@ + buffer@.subrange(from as int, from + len),
{
    let mut i: usize = 0;
    let size: usize = buffer.len();
    let ghost before = data@;
    assert(data@ =~= before + buffer@.subrange(from as int, from as int));
    while i < len
        invariant
            i <= len,
            from + len <= size,
            size == buffer@.len(),
            data@ == before + buffer@.subrange(from as int, from + i),
        decreases len - i,
    {
        data.push(buffer[from + i]);
        i = i + 1;
        assert(data@ =~= before + buffer@.subrange(from as int, from + i));
    }
}

proof fn lemma_last_length_fits(total: u32, count: int)
    requires
        count > 0,
    ensures
        0 <= total as int / count,
        0 <= total as int % count < count,
        total as int / count + total as int % count <= total,
        count * (total as int / count) + total as int % count == total,
{
    let t: int = total as int;
    assert(t == count * (t / count) + t % count && 0 <= t % count < count && 0 <= t / count)
        by (nonlinear_arith)
        requires
            count > 0,
            t >= 0,
    ;
    let q: int = t / count;
    assert(q <= count * q) by (nonlinear_arith)
        requires
            count > 0,
            q >= 0,
    ;
}

proof fn lemma_sum_of_equal(lengths: Seq<u32>, each: int)
    requires
        forall|i: int| 0 <= i < lengths.len() ==> lengths[i] == each,
    ensures
        sum(lengths) == lengths.len() * each,
    decreases lengths.len(),
{
    if lengths.len() > 0 {
        lemma_sum_of_equal(lengths.drop_last(), each);
        let n: int = lengths.len() as int;
        assert((n - 1) * each + each == n * each) by (nonlinear_arith);
    }
}

/// A shorter prefix of `lengths` has no larger sum.
pub(crate) proof fn lemma_sum_of_prefix(lengths: Seq<u32>, n: int)
    requires
        0 <= n <= lengths.len(),
    ensures
        sum(lengths.take(n)) <= sum(lengths),
    decreases lengths.len(),
{
    if n == lengths.len() {
        assert(lengths.take(n) =~= lengths);
    } else {
        lemma_sum_of_prefix(lengths.drop_last(), n);
        assert(lengths.drop_last().take(n) =~= lengths.take(n));
    }
}

/// The isochronous packets of a transfer cover its bytes exactly: their lengths add up
/// to the size of the buffer.
pub proof fn law_iso_packets_cover_the_buffer(total: u32, count: int)
    requires
        count > 0,
    ensures
        iso_lengths(total, count).len() == count,
        sum(iso_lengths(total, count)) == total,
{
    let lengths = iso_lengths(total, count);
    lemma_last_length_fits(total, count);
    let each: int = total as int / count;
    let front = lengths.drop_last();
    assert forall|i: int| 0 <= i < front.len() implies front[i] == each by {
        assert(front[i] == iso_length(total, count, i) as u32);
    }
    lemma_sum_of_equal(front, each);
    assert(front.len() == count - 1);
    assert((count - 1) * each + each == count * each) by (nonlinear_arith);
}

/// The data of the packets follow one another without gaps: byte `k` of packet `i` comes
/// behind the data of the packets before it, and is the byte that the packet has there.
pub proof fn law_packet_data_place(
    buffer: Seq<u8>,
    lengths: Seq<u32>,
    actual: Seq<u32>,
    i: int,
    k: int,
)
    requires
        packets_within(lengths, actual, buffer.len()),
        0 <= i < actual.len(),
        0 <= k < actual[i],
    ensures
        combined(buffer, lengths, actual, actual.len() as int).len() == sum(actual),
        sum(actual.take(i)) + k < sum(actual),
        combined(buffer, lengths, actual, actual.len() as int)[sum(actual.take(i)) + k]
            == buffer[sum(lengths.take(i)) + k],
{
    lemma_data_place(buffer, lengths, actual, actual.len() as int, i, k);
    assert(actual.take(actual.len() as int) =~= actual);
    lemma_combined_length(buffer, lengths, actual, actual.len() as int);
}

proof fn lemma_data_place(
    buffer: Seq<u8>,
    lengths: Seq<u32>,
    actual: Seq<u32>,
    n: int,
    i: int,
    k: int,
)
    requires
        packets_within(lengths, actual, buffer.len()),
        0 <= i < n <= actual.len(),
        0 <= k < actual[i],
    ensures
        sum(actual.take(i)) + k < sum(actual.take(n)),
        combined(buffer, lengths, actual, n)[sum(actual.take(i)) + k] == buffer[sum(
            lengths.take(i),
        ) + k],
    decreases n,
{
    lemma_combined_length(buffer, lengths, actual, n - 1);
    assert(actual.take(n).drop_last() =~= actual.take(n - 1));
    assert(sum(lengths.take(n - 1)) + actual[n - 1] <= buffer.len());
    if i < n - 1 {
        lemma_data_place(buffer, lengths, actual, n - 1, i, k);
    }
}

/// The first `n` packets have as many bytes of data as their actual lengths say.
pub(crate) proof fn lemma_combined_length(
    buffer: Seq<u8>,
    lengths: Seq<u32>,
    actual: Seq<u32>,
    n: int,
)
    requires
        packets_within(lengths, actual, buffer.len()),
        0 <= n <= actual.len(),
    ensures
        combined(buffer, lengths, actual, n).len() == sum(actual.take(n)),
    decreases n,
{
    if n > 0 {
        lemma_combined_length(buffer, lengths, actual, n - 1);
        assert(actual.take(n).drop_last() =~= actual.take(n - 1));
        assert(sum(lengths.take(n - 1)) + actual[n - 1] <= buffer.len());
    } else {
        assert(actual.take(0) =~= Seq::empty());
    }
}

/// Packets that are full give the leading bytes that they take together.
pub(crate) proof fn lemma_full_packets(buffer: Seq<u8>, lengths: Seq<u32>, n: int)
    requires
        0 <= n <= lengths.len(),
        sum(lengths) <= buffer.len(),
    ensures
        sum(lengths.take(n)) <= buffer.len(),
        combined(buffer, lengths, lengths, n) == buffer.take(sum(lengths.take(n)) as int),
    decreases n,
{
    lemma_sum_of_prefix(lengths, n);
    if n > 0 {
        lemma_full_packets(buffer, lengths, n - 1);
        assert(lengths.take(n).drop_last() =~= lengths.take(n - 1));
    } else {
        assert(lengths.take(0) =~= Seq::empty());
    }
    assert(combined(buffer, lengths, lengths, n) =~= buffer.take(sum(lengths.take(n)) as int));
}

/// Full packets lie within the bytes that they take together.
pub(crate) proof fn lemma_full_packets_within(lengths: Seq<u32>, size: nat)
    requires
        sum(lengths) <= size,
    ensures
        packets_within(lengths, lengths, size),
{
    assert forall|i: int| 0 <= i < lengths.len() implies sum(lengths.take(i))
        + #[trigger] lengths[i] <= size by {
        lemma_sum_of_prefix(lengths, i + 1);
        assert(lengths.take(i + 1).drop_last() =~= lengths.take(i));
    }
}

/// Packets without too much data have no more of it than ends with the last packet's data.
pub(crate) proof fn lemma_data_of_packets(lengths: Seq<u32>, actual: Seq<u32>, n: int)
    requires
        lengths.len() == actual.len(),
        0 <= n <= actual.len(),
        forall|i: int| 0 <= i < actual.len() ==> #[trigger] actual[i] <= lengths[i],
    ensures
        sum(actual.take(n)) <= sum(lengths.take(n)),
    decreases n,
{
    if n > 0 {
        lemma_data_of_packets(lengths, actual, n - 1);
        assert(lengths.take(n).drop_last() =~= lengths.take(n - 1));
        assert(actual.take(n).drop_last() =~= actual.take(n - 1));
        assert(actual[n - 1] <= lengths[n - 1]);
    } else {
        assert(actual.take(0) =~= Seq::empty());
    }
}

/// A setup packet has eight bytes and gives its fields back; of the length it keeps the
/// low sixteen bits.
pub proof fn law_setup_packet_reads_back(setup: TransferSetup, length: u32)
    ensures
        setup.packet(length).len() == 8,
        setup.packet(length)[0] == setup.bm_request_type,
        setup.packet(length)[1] == setup.b_request,
        little_endian(setup.packet(length)[2], setup.packet(length)[3]) == setup.w_value,
        little_endian(setup.packet(length)[4], setup.packet(length)[5]) == setup.w_index,
        little_endian(setup.packet(length)[6], setup.packet(length)[7]) == length % 65536,
{
}

} // verus!
