//! What holds of the two front-ends over a whole session: nothing reaches
//! the remote before the tunnel is open, and a tunnel passes on, in order and
//! unchanged, every byte that the client sent after its request.

use vstd::prelude::*;
use crate::front::{NextView, StepView};
use crate::http_front::HttpSessionView;
use crate::socks5_front::Socks5SessionView;

verus! {

/// The chunks of a series, one after the other.
pub open spec fn joined(chunks: Seq<Seq<u8>>) -> Seq<u8>
    decreases chunks.len(),
{
    if chunks.len() == 0 {
        Seq::empty()
    } else {
        joined(chunks.drop_last()) + chunks.last()
    }
}

impl Socks5SessionView {
    /// The session after the client has sent a series of chunks, and what
    /// went to the remote on the way.
    pub open spec fn on_chunks(self, chunks: Seq<Seq<u8>>) -> (Socks5SessionView, Seq<u8>)
        decreases chunks.len(),
    {
        if chunks.len() == 0 {
            (self, Seq::empty())
        } else {
            let (before, sent) = self.on_chunks(chunks.drop_last());
            let (after, step) = before.on_bytes(chunks.last());
            (after, sent + step.to_remote)
        }
    }
}

impl HttpSessionView {
    /// The session after the client has sent a series of chunks, and what
    /// went to the remote on the way.
    pub open spec fn on_chunks(self, chunks: Seq<Seq<u8>>) -> (HttpSessionView, Seq<u8>)
        decreases chunks.len(),
    {
        if chunks.len() == 0 {
            (self, Seq::empty())
        } else {
            let (before, sent) = self.on_chunks(chunks.drop_last());
            let (after, step) = before.on_bytes(chunks.last());
            (after, sent + step.to_remote)
        }
    }
}

/// A SOCKS5 session sends bytes to the remote only once the dial has
/// succeeded: with the report of the success, or while it relays.
pub proof fn lemma_socks5_forwards_after_dial_only(
    s: Socks5SessionView,
    chunk: Seq<u8>,
    connected: bool,
)
    ensures
        s.on_bytes(chunk).1.to_remote.len() > 0 ==> s.phase is Relaying,
        s.on_dial(connected).1.to_remote.len() > 0 ==> connected && s.phase is Dialing,
        s.on_dial(connected).0.phase is Relaying ==> connected || s.phase is Relaying,
        s.on_eof().1.to_remote.len() == 0,
{
}

/// An HTTP session sends bytes to the remote only once the dial has
/// succeeded: with the report of the success, in a tunnel, or while it
/// forwards.
pub proof fn lemma_http_forwards_after_dial_only(
    s: HttpSessionView,
    chunk: Seq<u8>,
    connected: bool,
)
    ensures
        s.on_bytes(chunk).1.to_remote.len() > 0 ==> s.phase is Tunnel || s.phase is Forward,
        s.on_dial(connected).1.to_remote.len() > 0 ==> connected && (s.phase is DialingTunnel
            || s.phase is DialingForward),
        s.on_eof().1.to_remote.len() == 0,
{
}

/// While the tunnel is being opened the client's bytes wait, in order.
pub proof fn lemma_socks5_bytes_wait_for_dial(s: Socks5SessionView, chunks: Seq<Seq<u8>>)
    requires
        s.phase is Dialing,
    ensures
        s.on_chunks(chunks) == (
            Socks5SessionView { pending: s.pending + joined(chunks), ..s },
            Seq::<u8>::empty(),
        ),
    decreases chunks.len(),
{
    if chunks.len() > 0 {
        lemma_socks5_bytes_wait_for_dial(s, chunks.drop_last());
        assert(s.pending + joined(chunks.drop_last()) + chunks.last() =~= s.pending + joined(
            chunks,
        ));
        assert(Seq::<u8>::empty() + Seq::<u8>::empty() =~= Seq::<u8>::empty());
    } else {
        assert(s.pending + joined(chunks) =~= s.pending);
    }
}

/// A SOCKS5 session that relays passes the client's bytes on as they are.
pub proof fn lemma_socks5_relay_preserves_bytes(s: Socks5SessionView, chunks: Seq<Seq<u8>>)
    requires
        s.phase is Relaying,
    ensures
        s.on_chunks(chunks) == (s, joined(chunks)),
    decreases chunks.len(),
{
    if chunks.len() > 0 {
        lemma_socks5_relay_preserves_bytes(s, chunks.drop_last());
    }
}

/// Byte preservation for a SOCKS5 connection: whatever the client sends
/// after its connect request, during the dial and after it, reaches the
/// remote in order and unchanged, once the dial has succeeded.
pub proof fn lemma_socks5_payload_preserved(
    s: Socks5SessionView,
    during_dial: Seq<Seq<u8>>,
    after_dial: Seq<Seq<u8>>,
)
    requires
        s.phase is Dialing,
    ensures
        ({
            let waiting = s.on_chunks(during_dial).0;
            let (open, reply) = waiting.on_dial(true);
            reply.to_remote + open.on_chunks(after_dial).1
        }) == s.pending + joined(during_dial) + joined(after_dial),
{
    lemma_socks5_bytes_wait_for_dial(s, during_dial);
    let waiting = s.on_chunks(during_dial).0;
    let (open, reply) = waiting.on_dial(true);
    lemma_socks5_relay_preserves_bytes(open, after_dial);
}

/// While the tunnel is being opened the client's bytes wait, in order.
pub proof fn lemma_http_bytes_wait_for_dial(s: HttpSessionView, chunks: Seq<Seq<u8>>)
    requires
        s.phase is DialingTunnel || s.phase is DialingForward,
    ensures
        s.on_chunks(chunks) == (
            HttpSessionView { pending: s.pending + joined(chunks), ..s },
            Seq::<u8>::empty(),
        ),
    decreases chunks.len(),
{
    if chunks.len() > 0 {
        lemma_http_bytes_wait_for_dial(s, chunks.drop_last());
        assert(s.pending + joined(chunks.drop_last()) + chunks.last() =~= s.pending + joined(
            chunks,
        ));
        assert(Seq::<u8>::empty() + Seq::<u8>::empty() =~= Seq::<u8>::empty());
    } else {
        assert(s.pending + joined(chunks) =~= s.pending);
    }
}

/// An HTTP tunnel passes the client's bytes on as they are.
pub proof fn lemma_http_tunnel_preserves_bytes(s: HttpSessionView, chunks: Seq<Seq<u8>>)
    requires
        s.phase is Tunnel,
    ensures
        s.on_chunks(chunks) == (s, joined(chunks)),
    decreases chunks.len(),
{
    if chunks.len() > 0 {
        lemma_http_tunnel_preserves_bytes(s, chunks.drop_last());
    }
}

/// Byte preservation for a `CONNECT` tunnel: whatever the client sends after
/// the head of its request, during the dial and after it, reaches the remote
/// in order and unchanged, once the dial has succeeded.
pub proof fn lemma_http_payload_preserved(
    s: HttpSessionView,
    during_dial: Seq<Seq<u8>>,
    after_dial: Seq<Seq<u8>>,
)
    requires
        s.phase is DialingTunnel,
    ensures
        ({
            let waiting = s.on_chunks(during_dial).0;
            let (open, reply) = waiting.on_dial(true);
            reply.to_remote + open.on_chunks(after_dial).1
        }) == s.pending + joined(during_dial) + joined(after_dial),
{
    lemma_http_bytes_wait_for_dial(s, during_dial);
    let waiting = s.on_chunks(during_dial).0;
    let (open, reply) = waiting.on_dial(true);
    lemma_http_tunnel_preserves_bytes(open, after_dial);
}

/// A forwarding session passes the bytes of a body on as they are: as long
/// as the chunks together are no longer than what the body has to come, they
/// reach the remote in order and unchanged, and that much less is to come.
pub proof fn lemma_http_body_preserved(s: HttpSessionView, chunks: Seq<Seq<u8>>)
    requires
        s.phase is Forward,
        joined(chunks).len() <= s.body_left,
    ensures
        s.on_chunks(chunks) == (
            HttpSessionView { body_left: (s.body_left - joined(chunks).len()) as u64, ..s },
            joined(chunks),
        ),
    decreases chunks.len(),
{
    if chunks.len() > 0 {
        let earlier = chunks.drop_last();
        let chunk = chunks.last();
        lemma_http_body_preserved(s, earlier);
        let before = HttpSessionView {
            body_left: (s.body_left - joined(earlier).len()) as u64,
            ..s
        };
        if chunk.len() > 0 {
            let after = HttpSessionView {
                body_left: (before.body_left - chunk.len()) as u64,
                ..before
            };
            assert(chunk.skip(chunk.len() as int) =~= Seq::<u8>::empty());
            assert(Seq::<u8>::empty() + chunk.take(chunk.len() as int) =~= chunk);
            assert(after.drive(Seq::empty(), chunk) == (
                after,
                StepView { to_local: Seq::empty(), to_remote: chunk, next: NextView::Continue },
            ));
            assert(before.drive(chunk, Seq::empty()) == after.drive(Seq::empty(), chunk));
        } else {
            assert(joined(earlier) + chunk =~= joined(earlier));
        }
    } else {
        assert(s == HttpSessionView { body_left: s.body_left, ..s });
    }
}

} // verus!
