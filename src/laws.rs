//! Properties of the reporter that span several calls.

use vstd::prelude::*;
use crate::fingerprint::{
    digests_apart,
    lemma_le_bytes_injective,
    lemma_window_bytes_injective,
    media_bytes,
    opt_view,
    quantized_elapsed,
    state_bytes,
    window_bytes,
    window_fingerprint,
    window_fits,
    le_bytes,
    ELAPSED_RESOLUTION_MS,
};
use crate::protocol::{ReporterMessage, ServerMessage};
use crate::reporter::{
    dequeued,
    enqueue_all,
    is_artwork_ack,
    media_step,
    metadata_data_of,
    server_step,
    state_data_of,
    upload_step,
    window_data_of,
    window_step,
    ReporterView,
};
use crate::snapshot::{MediaMetadata, PlaybackState, WindowInfo};

verus! {

/// Offering the same window snapshot twice in a row queues nothing the
/// second time: the second offer leaves the state as the first left it.
pub proof fn lemma_window_idempotent(v: ReporterView, info: WindowInfo)
    ensures
        window_step(window_step(v, info), info) == window_step(v, info),
        window_step(v, info).queue.len() <= v.queue.len() + 1,
{
}

/// The first window snapshot and the first media snapshot offered are always
/// queued: with no previous fingerprint there is nothing to match.
pub proof fn lemma_first_snapshots_queued(
    v: ReporterView,
    info: WindowInfo,
    m: MediaMetadata,
    s: PlaybackState,
)
    requires
        !v.closed,
        v.last_window_hash is None,
        v.last_media_hash is None,
    ensures
        window_step(v, info).queue == v.queue.push(ReporterMessage::WindowInfo(window_data_of(info))),
        media_step(v, m, s).queue == v.queue.push(
            ReporterMessage::MediaPlayback(metadata_data_of(v, m), state_data_of(s)),
        ),
{
}

/// Offering a window snapshot that differs from the last one in title,
/// process name, pid or app id queues exactly one `window_info` message,
/// unless the two encodings' digests collide.
pub proof fn lemma_window_change_detected(v: ReporterView, last: WindowInfo, next: WindowInfo)
    requires
        !v.closed,
        v.last_window_hash == Some(window_fingerprint(window_data_of(last))),
        window_fits(window_data_of(last)),
        window_fits(window_data_of(next)),
        last.title@ != next.title@ || last.process_name@ != next.process_name@ || last.pid
            != next.pid || opt_view(last.app_id) != opt_view(next.app_id),
        digests_apart(window_bytes(window_data_of(last)), window_bytes(window_data_of(next))),
    ensures
        window_step(v, next).queue == v.queue.push(
            ReporterMessage::WindowInfo(window_data_of(next)),
        ),
{
    let a = window_data_of(last);
    let b = window_data_of(next);
    if window_bytes(a) == window_bytes(b) {
        lemma_window_bytes_injective(a, b);
        let p = last.pid;
        let q = next.pid;
        assert(p == q) by (bit_vector)
            requires
                p as u32 == q as u32,
        ;
    }
}

/// A window snapshot that differs from the last one only in its icon queues
/// nothing.
pub proof fn lemma_window_icon_ignored(v: ReporterView, last: WindowInfo, next: WindowInfo)
    requires
        v.last_window_hash == Some(window_fingerprint(window_data_of(last))),
        last.title@ == next.title@,
        last.process_name@ == next.process_name@,
        last.pid == next.pid,
        opt_view(last.app_id) == opt_view(next.app_id),
    ensures
        window_step(v, next).queue == v.queue,
{
    assert(window_bytes(window_data_of(last)) == window_bytes(window_data_of(next)));
}

/// Two playback snapshots that differ only in elapsed time within one
/// quantization step: after the first, the second queues nothing.
pub proof fn lemma_media_within_resolution(
    v: ReporterView,
    m: MediaMetadata,
    s1: PlaybackState,
    s2: PlaybackState,
)
    requires
        s1.playing == s2.playing,
        s1.playback_rate == s2.playback_rate,
        quantized_elapsed(s1.elapsed_ms) == quantized_elapsed(s2.elapsed_ms),
    ensures
        media_step(media_step(v, m, s1), m, s2).queue == media_step(v, m, s1).queue,
{
    let v1 = media_step(v, m, s1);
    assert(metadata_data_of(v1, m) == metadata_data_of(v, m));
    assert(state_bytes(state_data_of(s1)) == state_bytes(state_data_of(s2)));
}

/// Two playback snapshots that differ only in elapsed time, by at least one
/// quantization step: after the first, the second queues a `media_playback`
/// message, unless the two encodings' digests collide.
pub proof fn lemma_media_beyond_resolution(
    v: ReporterView,
    m: MediaMetadata,
    s1: PlaybackState,
    s2: PlaybackState,
)
    requires
        !v.closed,
        s1.playing == s2.playing,
        s1.playback_rate == s2.playback_rate,
        s1.elapsed_ms + ELAPSED_RESOLUTION_MS <= s2.elapsed_ms || s2.elapsed_ms
            + ELAPSED_RESOLUTION_MS <= s1.elapsed_ms,
        digests_apart(
            media_bytes(metadata_data_of(v, m), state_data_of(s1)),
            media_bytes(metadata_data_of(v, m), state_data_of(s2)),
        ),
    ensures
        media_step(media_step(v, m, s1), m, s2).queue == media_step(v, m, s1).queue.push(
            ReporterMessage::MediaPlayback(metadata_data_of(v, m), state_data_of(s2)),
        ),
{
    let v1 = media_step(v, m, s1);
    let md = metadata_data_of(v, m);
    assert(metadata_data_of(v1, m) == md);
    let e1 = s1.elapsed_ms;
    let e2 = s2.elapsed_ms;
    assert(e1 / 1000 != e2 / 1000) by (nonlinear_arith)
        requires
            e1 + 1000 <= e2 || e2 + 1000 <= e1,
    ;
    let x = media_bytes(md, state_data_of(s1));
    let y = media_bytes(md, state_data_of(s2));
    if x == y {
        let n = x.len() - 8;
        assert(x.subrange(n, x.len() as int) =~= le_bytes(quantized_elapsed(e1)));
        assert(y.subrange(n, y.len() as int) =~= le_bytes(quantized_elapsed(e2)));
        lemma_le_bytes_injective(quantized_elapsed(e1), quantized_elapsed(e2));
    }
}

/// Two uploads of the same content, the first acknowledged before the second
/// is asked for: only the first is queued, so one binary frame is sent.
pub proof fn lemma_upload_once(
    v: ReporterView,
    content_id: String,
    data1: Vec<u8>,
    mime1: String,
    ack: ServerMessage,
    content_id2: String,
    data2: Vec<u8>,
    mime2: String,
)
    requires
        !v.closed,
        !v.artwork.contains_key(content_id@),
        is_artwork_ack(ack),
        ack.content_item_identifier.unwrap()@ == content_id@,
        content_id2@ == content_id@,
    ensures
        upload_step(v, content_id, data1, mime1).queue == v.queue.push(
            ReporterMessage::UploadArtwork {
                content_item_identifier: content_id,
                artwork_data: data1,
                mime_type: mime1,
            },
        ),
        ({
            let after_ack = server_step(upload_step(v, content_id, data1, mime1), ack);
            &&& after_ack.queue == upload_step(v, content_id, data1, mime1).queue
            &&& upload_step(after_ack, content_id2, data2, mime2) == after_ack
        }),
{
}

/// Messages handed out by `n` dequeues are the first `n` of the queue.
pub proof fn lemma_dequeued_prefix(q: Seq<ReporterMessage>, n: nat)
    requires
        n <= q.len(),
    ensures
        dequeued(q, n) == q.take(n as int),
    decreases n,
{
    if n > 0 {
        lemma_dequeued_prefix(q.drop_first(), (n - 1) as nat);
        assert(dequeued(q, n) =~= q.take(n as int));
    } else {
        assert(q.take(0) =~= Seq::<ReporterMessage>::empty());
    }
}

/// Ordering: messages enqueued in some order, from whichever producers, are
/// handed to the transport in that same order, after those already queued.
pub proof fn lemma_fifo_order(v: ReporterView, ms: Seq<ReporterMessage>)
    requires
        !v.closed,
    ensures
        !enqueue_all(v, ms).closed,
        enqueue_all(v, ms).queue == v.queue + ms,
        dequeued(enqueue_all(v, ms).queue, (v.queue.len() + ms.len()) as nat) == v.queue + ms,
    decreases ms.len(),
{
    if ms.len() > 0 {
        lemma_fifo_order(v, ms.drop_last());
        assert((v.queue + ms.drop_last()).push(ms.last()) =~= v.queue + ms);
    } else {
        assert(v.queue + ms =~= v.queue);
    }
    let q = enqueue_all(v, ms).queue;
    lemma_dequeued_prefix(q, q.len());
    assert(q.take(q.len() as int) =~= q);
}

} // verus!
