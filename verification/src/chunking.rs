//! Splitting a sealed message into chunks that the coordinator accepts.

use vstd::prelude::*;

verus! {

/// The largest message, in bytes, that a participant sends in one piece.
pub const MAX_MESSAGE_SIZE: usize = 2048;

/// `data` cut into consecutive pieces of `size` bytes; the last piece holds
/// the remainder. Empty data gives no pieces.
pub open spec fn chunks_of(data: Seq<u8>, size: nat) -> Seq<Seq<u8>>
    decreases data.len(),
{
    if data.len() == 0 || size == 0 {
        Seq::empty()
    } else if data.len() <= size {
        seq![data]
    } else {
        seq![data.take(size as int)] + chunks_of(data.skip(size as int), size)
    }
}

/// All pieces joined in order.
pub open spec fn joined(pieces: Seq<Seq<u8>>) -> Seq<u8>
    decreases pieces.len(),
{
    if pieces.len() == 0 {
        Seq::empty()
    } else {
        pieces[0] + joined(pieces.drop_first())
    }
}

/// The messages that carry `data`: the data itself when it fits into
/// [`MAX_MESSAGE_SIZE`] bytes, else its chunks.
pub open spec fn send_plan(data: Seq<u8>) -> Seq<Seq<u8>> {
    if data.len() > MAX_MESSAGE_SIZE {
        chunks_of(data, MAX_MESSAGE_SIZE as nat)
    } else {
        seq![data]
    }
}

proof fn lemma_joined_single(piece: Seq<u8>)
    ensures
        joined(seq![piece]) == piece,
{
    reveal_with_fuel(joined, 2);
    assert(seq![piece].drop_first() =~= Seq::<Seq<u8>>::empty());
    assert(joined(seq![piece]) =~= piece);
}

proof fn lemma_joined_concat(a: Seq<Seq<u8>>, b: Seq<Seq<u8>>)
    ensures
        joined(a + b) == joined(a) + joined(b),
    decreases a.len(),
{
    if a.len() == 0 {
        assert(a + b =~= b);
        assert(joined(a) + joined(b) =~= joined(b));
    } else {
        lemma_joined_concat(a.drop_first(), b);
        assert((a + b).drop_first() =~= a.drop_first() + b);
        assert(joined(a + b) =~= joined(a) + joined(b));
    }
}

/// Joining the chunks of `data` gives `data` back, and every chunk is
/// non-empty and at most `size` bytes long; all but the last are exactly
/// `size` bytes long.
pub proof fn lemma_chunks_of_properties(data: Seq<u8>, size: nat)
    requires
        size > 0,
    ensures
        joined(chunks_of(data, size)) == data,
        forall|i: int|
            0 <= i < chunks_of(data, size).len() ==> 0 < #[trigger] chunks_of(data, size)[i].len()
                <= size,
        forall|i: int|
            0 <= i < chunks_of(data, size).len() - 1 ==> #[trigger] chunks_of(data, size)[i].len()
                == size,
    decreases data.len(),
{
    if data.len() == 0 {
    } else if data.len() <= size {
        lemma_joined_single(data);
    } else {
        let rest = data.skip(size as int);
        lemma_chunks_of_properties(rest, size);
        let head = seq![data.take(size as int)];
        lemma_joined_concat(head, chunks_of(rest, size));
        lemma_joined_single(data.take(size as int));
        assert(data.take(size as int) + rest =~= data);
        let all = chunks_of(data, size);
        assert forall|i: int| 0 <= i < all.len() implies 0 < #[trigger] all[i].len() <= size by {
            if i > 0 {
                assert(all[i] == chunks_of(rest, size)[i - 1]);
            }
        }
        assert forall|i: int| 0 <= i < all.len() - 1 implies #[trigger] all[i].len() == size by {
            if i > 0 {
                assert(all[i] == chunks_of(rest, size)[i - 1]);
            }
        }
    }
}

/// Every message of the plan fits into [`MAX_MESSAGE_SIZE`] bytes unless the
/// data itself does, and the messages joined in order give the data back.
pub proof fn lemma_send_plan_properties(data: Seq<u8>)
    ensures
        joined(send_plan(data)) == data,
        send_plan(data).len() >= 1,
        forall|i: int|
            0 <= i < send_plan(data).len() ==> #[trigger] send_plan(data)[i].len()
                <= MAX_MESSAGE_SIZE,
{
    if data.len() > MAX_MESSAGE_SIZE {
        lemma_chunks_of_properties(data, MAX_MESSAGE_SIZE as nat);
        assert(data.len() > 0);
        let size = MAX_MESSAGE_SIZE as nat;
        assert(chunks_of(data, size) == seq![data.take(size as int)] + chunks_of(
            data.skip(size as int),
            size,
        ));
    } else {
        lemma_joined_single(data);
    }
}

/// Cuts `data` into consecutive chunks of `size` bytes, the last one holding
/// the remainder.
pub fn chunks(data: Vec<u8>, size: usize) -> (pieces: Vec<Vec<u8>>)
    requires
        size > 0,
    ensures
        pieces@.map_values(|p: Vec<u8>| p@) == chunks_of(data@, size as nat),
{
    let mut pieces: Vec<Vec<u8>> = Vec::new();
    let mut rest = data;
    if rest.len() == 0 {
        proof {
            assert(pieces@.map_values(|p: Vec<u8>| p@) =~= chunks_of(data@, size as nat));
        }
        return pieces;
    }
    while rest.len() > size
        invariant
            size > 0,
            rest@.len() > 0,
            pieces@.map_values(|p: Vec<u8>| p@) + chunks_of(rest@, size as nat) == chunks_of(
                data@,
                size as nat,
            ),
        decreases rest@.len(),
    {
        let ghost before = rest@;
        let ghost done = pieces@;
        let tail = rest.split_off(size);
        assert(rest@ == before.take(size as int));
        assert(tail@ == before.skip(size as int));
        pieces.push(rest);
        rest = tail;
        proof {
            assert(pieces@.map_values(|p: Vec<u8>| p@) =~= done.map_values(|p: Vec<u8>| p@).push(
                before.take(size as int),
            ));
            assert(chunks_of(before, size as nat) == seq![before.take(size as int)] + chunks_of(
                rest@,
                size as nat,
            ));
            assert(pieces@.map_values(|p: Vec<u8>| p@) + chunks_of(rest@, size as nat)
                =~= done.map_values(|p: Vec<u8>| p@) + chunks_of(before, size as nat));
        }
    }
    let ghost done = pieces@;
    let ghost last = rest@;
    pieces.push(rest);
    proof {
        assert(chunks_of(last, size as nat) == seq![last]);
        assert(pieces@.map_values(|p: Vec<u8>| p@) =~= done.map_values(|p: Vec<u8>| p@) + seq![
            last,
        ]);
    }
    pieces
}

/// The messages in which a participant sends `data`: one message when it
/// fits into [`MAX_MESSAGE_SIZE`] bytes, else its chunks of that size.
pub fn message_plan(data: Vec<u8>) -> (messages: Vec<Vec<u8>>)
    ensures
        messages@.map_values(|p: Vec<u8>| p@) == send_plan(data@),
{
    if data.len() > MAX_MESSAGE_SIZE {
        chunks(data, MAX_MESSAGE_SIZE)
    } else {
        let ghost d = data@;
        let mut messages: Vec<Vec<u8>> = Vec::new();
        messages.push(data);
        proof {
            assert(messages@.map_values(|p: Vec<u8>| p@) =~= seq![d]);
        }
        messages
    }
}

} // verus!
