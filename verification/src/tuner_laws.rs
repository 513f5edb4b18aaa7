//! Laws of the tuner coordinator: the order of its start-up sequence and of
//! its poll cycle, and when it reports.

use vstd::prelude::*;
use crate::event::{InputEvent, OutputCommand};
use crate::state::{INITIAL_FREQ_KHZ, INITIAL_VOLUME};
use crate::tuner::{
    frequency_report_due, operation_for, rssi_moved, Phase, TunerReply, TunerRequest, TunerView,
    CHIP_READY_DELAY_MS, POLL_PERIOD_MS, SEEK_THRESHOLD,
};

verus! {

/// The coordinator after `replies` were given to it one by one, and the
/// requests that it made, each before the reply that answered it.
pub open spec fn trace(view: TunerView, replies: Seq<TunerReply>) -> (TunerView, Seq<TunerRequest>)
    decreases replies.len(),
{
    if replies.len() == 0 {
        (view, Seq::empty())
    } else {
        let (before, requests) = trace(view, replies.drop_last());
        (before.after(replies.last()), requests.push(before.request()))
    }
}

/// The requests of one poll cycle, in order: status, at most one command,
/// signal strength with its report, frequency with its report, sleep.
pub open spec fn cycle_requests(
    view: TunerView,
    stc: bool,
    command: Option<OutputCommand>,
    rssi: u8,
    freq: u32,
) -> Seq<TunerRequest> {
    seq![TunerRequest::ReadStatus, TunerRequest::TakeCommand] + (match command {
        Some(c) => seq![operation_for(c)],
        None => Seq::empty(),
    }) + seq![TunerRequest::ReadRssi] + (if rssi_moved(view.last_reported_rssi, rssi) {
        seq![TunerRequest::Emit(InputEvent::ChangeRSSI(rssi))]
    } else {
        Seq::empty()
    }) + seq![TunerRequest::ReadFrequency] + (if frequency_report_due(
        view.last_reported_freq,
        freq,
        stc,
    ) {
        seq![TunerRequest::Emit(InputEvent::ChangeFrequency(freq))]
    } else {
        Seq::empty()
    }) + seq![TunerRequest::Wait(POLL_PERIOD_MS)]
}

/// The replies that answer `cycle_requests`, given what the chip and the
/// command queue hold during the cycle.
pub open spec fn cycle_replies(
    view: TunerView,
    stc: bool,
    command: Option<OutputCommand>,
    rssi: u8,
    freq: u32,
) -> Seq<TunerReply> {
    seq![TunerReply::Status { stc }, TunerReply::Command(command)] + (if command is Some {
        seq![TunerReply::Done]
    } else {
        Seq::empty()
    }) + seq![TunerReply::Rssi(rssi)] + (if rssi_moved(view.last_reported_rssi, rssi) {
        seq![TunerReply::Done]
    } else {
        Seq::empty()
    }) + seq![TunerReply::Frequency(freq)] + (if frequency_report_due(
        view.last_reported_freq,
        freq,
        stc,
    ) {
        seq![TunerReply::Done]
    } else {
        Seq::empty()
    }) + seq![TunerReply::Done]
}

/// The coordinator at the start of the next cycle, after a cycle in which
/// the chip showed `stc`, `rssi` and `freq`.
pub open spec fn polled(view: TunerView, stc: bool, rssi: u8, freq: u32) -> TunerView {
    TunerView {
        phase: Phase::ReadingStatus,
        stc,
        last_reported_freq: if frequency_report_due(view.last_reported_freq, freq, stc) {
            freq
        } else {
            view.last_reported_freq
        },
        last_reported_rssi: if rssi_moved(view.last_reported_rssi, rssi) {
            rssi
        } else {
            view.last_reported_rssi
        },
    }
}

/// A trace over two runs of replies is the trace over the first, continued
/// by the trace over the second.
pub proof fn lemma_trace_concat(view: TunerView, first: Seq<TunerReply>, second: Seq<TunerReply>)
    ensures
        trace(view, first + second) == ({
            let (middle, head) = trace(view, first);
            let (end, tail) = trace(middle, second);
            (end, head + tail)
        }),
    decreases second.len(),
{
    let (middle, head) = trace(view, first);
    if second.len() == 0 {
        assert(first + second == first);
        assert(head + Seq::<TunerRequest>::empty() == head);
    } else {
        lemma_trace_concat(view, first, second.drop_last());
        assert((first + second).drop_last() == first + second.drop_last());
        let (before, tail) = trace(middle, second.drop_last());
        assert((head + tail).push(before.request()) == head + tail.push(before.request()));
    }
}

/// A single reply yields the pending request and the following state.
pub proof fn lemma_trace_one(view: TunerView, reply: TunerReply)
    ensures
        trace(view, seq![reply]) == (view.after(reply), seq![view.request()]),
{
    let replies = seq![reply];
    assert(replies.drop_last() == Seq::<TunerReply>::empty());
    assert(trace(view, replies.drop_last()) == (view, Seq::<TunerRequest>::empty()));
    assert(Seq::<TunerRequest>::empty().push(view.request()) == seq![view.request()]);
}

/// An empty run of replies yields no request and leaves the state alone.
pub proof fn lemma_trace_none(view: TunerView)
    ensures
        trace(view, Seq::empty()) == (view, Seq::<TunerRequest>::empty()),
{
}

/// The start-up sequence: initialise the chip, wait for it, set the seek
/// threshold, the initial frequency and the initial volume, in this order
/// and once; then the first poll cycle begins.
pub proof fn lemma_startup_sequence()
    ensures
        trace(
            TunerView::initial(),
            seq![
                TunerReply::Done,
                TunerReply::Done,
                TunerReply::Done,
                TunerReply::Done,
                TunerReply::Done,
            ],
        ) == (
            TunerView { phase: Phase::ReadingStatus, ..TunerView::initial() },
            seq![
                TunerRequest::Start,
                TunerRequest::Wait(CHIP_READY_DELAY_MS),
                TunerRequest::SetSeekThreshold(SEEK_THRESHOLD),
                TunerRequest::SetFrequency(INITIAL_FREQ_KHZ),
                TunerRequest::SetVolume(INITIAL_VOLUME),
            ],
        ),
{
    let done = seq![TunerReply::Done];
    let s0 = TunerView::initial();
    let s1 = s0.after(TunerReply::Done);
    let s2 = s1.after(TunerReply::Done);
    let s3 = s2.after(TunerReply::Done);
    let s4 = s3.after(TunerReply::Done);
    lemma_trace_one(s0, TunerReply::Done);
    lemma_trace_one(s1, TunerReply::Done);
    lemma_trace_one(s2, TunerReply::Done);
    lemma_trace_one(s3, TunerReply::Done);
    lemma_trace_one(s4, TunerReply::Done);
    lemma_trace_concat(s0, done, done);
    lemma_trace_concat(s0, done + done, done);
    lemma_trace_concat(s0, done + done + done, done);
    lemma_trace_concat(s0, done + done + done + done, done);
    assert(done + done + done + done + done == seq![
        TunerReply::Done,
        TunerReply::Done,
        TunerReply::Done,
        TunerReply::Done,
        TunerReply::Done,
    ]);
    assert(seq![TunerRequest::Start] + seq![TunerRequest::Wait(CHIP_READY_DELAY_MS)] + seq![
        TunerRequest::SetSeekThreshold(SEEK_THRESHOLD),
    ] + seq![TunerRequest::SetFrequency(INITIAL_FREQ_KHZ)] + seq![
        TunerRequest::SetVolume(INITIAL_VOLUME),
    ] == seq![
        TunerRequest::Start,
        TunerRequest::Wait(CHIP_READY_DELAY_MS),
        TunerRequest::SetSeekThreshold(SEEK_THRESHOLD),
        TunerRequest::SetFrequency(INITIAL_FREQ_KHZ),
        TunerRequest::SetVolume(INITIAL_VOLUME),
    ]);
}

/// One poll cycle: starting from the status read, the coordinator makes
/// exactly the requests of `cycle_requests`, applies the command taken off
/// the queue if there was one, and stands at the next status read with its
/// reported values brought up to date.
pub proof fn lemma_poll_cycle(
    view: TunerView,
    stc: bool,
    command: Option<OutputCommand>,
    rssi: u8,
    freq: u32,
)
    requires
        view.phase is ReadingStatus,
    ensures
        trace(view, cycle_replies(view, stc, command, rssi, freq)) == (
            polled(view, stc, rssi, freq),
            cycle_requests(view, stc, command, rssi, freq),
        ),
{
    let status = seq![TunerReply::Status { stc }, TunerReply::Command(command)];
    let applied = if command is Some {
        seq![TunerReply::Done]
    } else {
        Seq::empty()
    };
    let strength = seq![TunerReply::Rssi(rssi)];
    let strength_sent = if rssi_moved(view.last_reported_rssi, rssi) {
        seq![TunerReply::Done]
    } else {
        Seq::empty()
    };
    let tuned = seq![TunerReply::Frequency(freq)];
    let tuned_sent = if frequency_report_due(view.last_reported_freq, freq, stc) {
        seq![TunerReply::Done]
    } else {
        Seq::empty()
    };
    let slept = seq![TunerReply::Done];

    let s1 = view.after(TunerReply::Status { stc });
    let s2 = s1.after(TunerReply::Command(command));
    lemma_trace_one(view, TunerReply::Status { stc });
    lemma_trace_one(s1, TunerReply::Command(command));
    lemma_trace_concat(view, seq![TunerReply::Status { stc }], seq![TunerReply::Command(command)]);
    assert(seq![TunerReply::Status { stc }] + seq![TunerReply::Command(command)] == status);
    assert(seq![TunerRequest::ReadStatus] + seq![TunerRequest::TakeCommand] == seq![
        TunerRequest::ReadStatus,
        TunerRequest::TakeCommand,
    ]);

    let s3 = if command is Some {
        s2.after(TunerReply::Done)
    } else {
        s2
    };
    if command is Some {
        lemma_trace_one(s2, TunerReply::Done);
    } else {
        lemma_trace_none(s2);
    }
    lemma_trace_concat(view, status, applied);

    let s4 = s3.after(TunerReply::Rssi(rssi));
    lemma_trace_one(s3, TunerReply::Rssi(rssi));
    lemma_trace_concat(view, status + applied, strength);

    let s5 = if rssi_moved(view.last_reported_rssi, rssi) {
        s4.after(TunerReply::Done)
    } else {
        s4
    };
    if rssi_moved(view.last_reported_rssi, rssi) {
        lemma_trace_one(s4, TunerReply::Done);
    } else {
        lemma_trace_none(s4);
    }
    lemma_trace_concat(view, status + applied + strength, strength_sent);

    let s6 = s5.after(TunerReply::Frequency(freq));
    lemma_trace_one(s5, TunerReply::Frequency(freq));
    lemma_trace_concat(view, status + applied + strength + strength_sent, tuned);

    let s7 = if frequency_report_due(view.last_reported_freq, freq, stc) {
        s6.after(TunerReply::Done)
    } else {
        s6
    };
    if frequency_report_due(view.last_reported_freq, freq, stc) {
        lemma_trace_one(s6, TunerReply::Done);
    } else {
        lemma_trace_none(s6);
    }
    lemma_trace_concat(view, status + applied + strength + strength_sent + tuned, tuned_sent);

    lemma_trace_one(s7, TunerReply::Done);
    lemma_trace_concat(
        view,
        status + applied + strength + strength_sent + tuned + tuned_sent,
        slept,
    );
}

/// A frequency reading is reported exactly while a seek is under way and
/// the reading differs from the last reported one; the report carries the
/// reading, which then becomes the last reported one. Once the seek is
/// complete nothing is reported and the last reported frequency stays.
pub proof fn lemma_frequency_report(view: TunerView, freq: u32)
    requires
        view.phase is ReadingFrequency,
    ensures
        !view.stc && freq != view.last_reported_freq ==> {
            &&& view.after(TunerReply::Frequency(freq)).request() == TunerRequest::Emit(
                InputEvent::ChangeFrequency(freq),
            )
            &&& view.after(TunerReply::Frequency(freq)).last_reported_freq == freq
        },
        view.stc || freq == view.last_reported_freq ==> {
            &&& view.after(TunerReply::Frequency(freq)).request() == TunerRequest::Wait(
                POLL_PERIOD_MS,
            )
            &&& view.after(TunerReply::Frequency(freq)).last_reported_freq
                == view.last_reported_freq
        },
{
}

/// A frequency is reported once: in the cycle after one that read `freq`
/// during a seek, the same reading is not reported again.
pub proof fn lemma_frequency_reported_once(
    view: TunerView,
    rssi: u8,
    freq: u32,
    next_stc: bool,
)
    ensures
        polled(view, false, rssi, freq).last_reported_freq == freq,
        !frequency_report_due(polled(view, false, rssi, freq).last_reported_freq, freq, next_stc),
{
}

/// A signal strength reading is reported exactly when it lies more than
/// five away from the last reported one, which it then replaces.
pub proof fn lemma_rssi_report(view: TunerView, rssi: u8)
    requires
        view.phase is ReadingRssi,
    ensures
        rssi_moved(view.last_reported_rssi, rssi) <==> (rssi - view.last_reported_rssi > 5
            || view.last_reported_rssi - rssi > 5),
        rssi_moved(view.last_reported_rssi, rssi) ==> {
            &&& view.after(TunerReply::Rssi(rssi)).request() == TunerRequest::Emit(
                InputEvent::ChangeRSSI(rssi),
            )
            &&& view.after(TunerReply::Rssi(rssi)).last_reported_rssi == rssi
        },
        !rssi_moved(view.last_reported_rssi, rssi) ==> {
            &&& view.after(TunerReply::Rssi(rssi)).request() == TunerRequest::ReadFrequency
            &&& view.after(TunerReply::Rssi(rssi)).last_reported_rssi == view.last_reported_rssi
        },
{
}

} // verus!
