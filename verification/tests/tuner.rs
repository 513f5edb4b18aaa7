use radio::event::{InputEvent, OutputCommand};
use radio::tuner::{TunerCoordinator, TunerReply, TunerRequest};

/// What the chip and the command queue hold during one poll cycle.
struct Cycle {
    stc: bool,
    command: Option<OutputCommand>,
    rssi: u8,
    freq: u32,
}

/// Answers the coordinator until it has slept once, and returns the
/// requests it made.
fn poll(coordinator: &mut TunerCoordinator, cycle: &Cycle) -> Vec<TunerRequest> {
    let mut requests = Vec::new();
    loop {
        let request = coordinator.request();
        let reply = match &request {
            TunerRequest::ReadStatus => TunerReply::Status { stc: cycle.stc },
            TunerRequest::TakeCommand => TunerReply::Command(cycle.command),
            TunerRequest::ReadRssi => TunerReply::Rssi(cycle.rssi),
            TunerRequest::ReadFrequency => TunerReply::Frequency(cycle.freq),
            _ => TunerReply::Done,
        };
        assert!(coordinator.expects(&reply));
        coordinator.complete(reply);
        let slept = matches!(request, TunerRequest::Wait(_));
        requests.push(request);
        if slept {
            return requests;
        }
    }
}

/// The events among `requests`.
fn emitted(requests: &[TunerRequest]) -> Vec<InputEvent> {
    let mut events = Vec::new();
    for request in requests {
        if let TunerRequest::Emit(event) = request {
            events.push(event.clone());
        }
    }
    events
}

/// A coordinator that has gone through its start-up sequence.
fn started() -> TunerCoordinator {
    let mut coordinator = TunerCoordinator::new();
    for _ in 0..5 {
        coordinator.complete(TunerReply::Done);
    }
    coordinator
}

#[test]
fn startup_sequence_is_in_order() {
    let mut coordinator = TunerCoordinator::new();
    let mut requests = Vec::new();
    for _ in 0..5 {
        requests.push(coordinator.request());
        assert!(coordinator.expects(&TunerReply::Done));
        coordinator.complete(TunerReply::Done);
    }
    assert_eq!(
        requests,
        vec![
            TunerRequest::Start,
            TunerRequest::Wait(100),
            TunerRequest::SetSeekThreshold(35),
            TunerRequest::SetFrequency(100_000),
            TunerRequest::SetVolume(5),
        ]
    );
    assert_eq!(coordinator.request(), TunerRequest::ReadStatus);
}

#[test]
fn request_is_stable_until_completed() {
    let coordinator = TunerCoordinator::new();
    assert_eq!(coordinator.request(), TunerRequest::Start);
    assert_eq!(coordinator.request(), TunerRequest::Start);
}

#[test]
fn quiet_cycle_reads_and_sleeps() {
    let mut coordinator = started();
    let cycle = Cycle { stc: true, command: None, rssi: 0, freq: 0 };
    assert_eq!(
        poll(&mut coordinator, &cycle),
        vec![
            TunerRequest::ReadStatus,
            TunerRequest::TakeCommand,
            TunerRequest::ReadRssi,
            TunerRequest::ReadFrequency,
            TunerRequest::Wait(100),
        ]
    );
    assert_eq!(coordinator.request(), TunerRequest::ReadStatus);
}

#[test]
fn busy_cycle_applies_and_reports_in_order() {
    let mut coordinator = started();
    let cycle = Cycle {
        stc: false,
        command: Some(OutputCommand::SetVolume(9)),
        rssi: 40,
        freq: 100_000,
    };
    assert_eq!(
        poll(&mut coordinator, &cycle),
        vec![
            TunerRequest::ReadStatus,
            TunerRequest::TakeCommand,
            TunerRequest::SetVolume(9),
            TunerRequest::ReadRssi,
            TunerRequest::Emit(InputEvent::ChangeRSSI(40)),
            TunerRequest::ReadFrequency,
            TunerRequest::Emit(InputEvent::ChangeFrequency(100_000)),
            TunerRequest::Wait(100),
        ]
    );
}

#[test]
fn each_command_becomes_its_chip_operation() {
    let cases = [
        (OutputCommand::SetFrequency(95_500), TunerRequest::SetFrequency(95_500)),
        (OutputCommand::SetVolume(15), TunerRequest::SetVolume(15)),
        (OutputCommand::SeekUp, TunerRequest::SeekUp { wrap: true }),
        (OutputCommand::SeekDown, TunerRequest::SeekDown { wrap: true }),
    ];
    for (command, operation) in cases {
        let mut coordinator = started();
        let cycle = Cycle { stc: true, command: Some(command), rssi: 0, freq: 0 };
        let requests = poll(&mut coordinator, &cycle);
        assert_eq!(requests[1], TunerRequest::TakeCommand);
        assert_eq!(requests[2], operation);
        assert_eq!(requests[3], TunerRequest::ReadRssi);
    }
}

#[test]
fn one_command_is_taken_per_cycle() {
    let mut coordinator = started();
    let cycle = Cycle { stc: true, command: Some(OutputCommand::SeekUp), rssi: 0, freq: 0 };
    for _ in 0..3 {
        let requests = poll(&mut coordinator, &cycle);
        let taken = requests.iter().filter(|r| **r == TunerRequest::TakeCommand).count();
        let applied =
            requests.iter().filter(|r| **r == TunerRequest::SeekUp { wrap: true }).count();
        assert_eq!(taken, 1);
        assert_eq!(applied, 1);
    }
}

#[test]
fn frequency_change_during_seek_is_reported_once() {
    let mut coordinator = started();
    let seeking = |freq| Cycle { stc: false, command: None, rssi: 0, freq };
    assert_eq!(
        emitted(&poll(&mut coordinator, &seeking(100_000))),
        vec![InputEvent::ChangeFrequency(100_000)]
    );
    assert_eq!(
        emitted(&poll(&mut coordinator, &seeking(100_100))),
        vec![InputEvent::ChangeFrequency(100_100)]
    );
    assert_eq!(emitted(&poll(&mut coordinator, &seeking(100_100))), Vec::new());
    assert_eq!(emitted(&poll(&mut coordinator, &seeking(100_100))), Vec::new());
}

#[test]
fn frequency_is_not_reported_once_the_seek_is_complete() {
    let mut coordinator = started();
    let cycle = |stc, freq| Cycle { stc, command: None, rssi: 0, freq };
    poll(&mut coordinator, &cycle(false, 100_000));
    assert_eq!(emitted(&poll(&mut coordinator, &cycle(true, 100_100))), Vec::new());
    assert_eq!(emitted(&poll(&mut coordinator, &cycle(true, 100_200))), Vec::new());
    assert_eq!(emitted(&poll(&mut coordinator, &cycle(true, 100_300))), Vec::new());
    // the last reported frequency is still 100 000, so the next seek reports at once
    assert_eq!(
        emitted(&poll(&mut coordinator, &cycle(false, 100_300))),
        vec![InputEvent::ChangeFrequency(100_300)]
    );
    assert_eq!(emitted(&poll(&mut coordinator, &cycle(false, 100_300))), Vec::new());
}

#[test]
fn frequency_unchanged_since_startup_is_not_reported() {
    let mut coordinator = started();
    let cycle = Cycle { stc: false, command: None, rssi: 0, freq: 0 };
    assert_eq!(emitted(&poll(&mut coordinator, &cycle)), Vec::new());
}

#[test]
fn rssi_is_reported_beyond_a_difference_of_five() {
    let mut coordinator = started();
    let cycle = |rssi| Cycle { stc: true, command: None, rssi, freq: 0 };
    assert_eq!(emitted(&poll(&mut coordinator, &cycle(5))), Vec::new());
    assert_eq!(
        emitted(&poll(&mut coordinator, &cycle(6))),
        vec![InputEvent::ChangeRSSI(6)]
    );
    assert_eq!(emitted(&poll(&mut coordinator, &cycle(11))), Vec::new());
    assert_eq!(emitted(&poll(&mut coordinator, &cycle(1))), Vec::new());
    assert_eq!(
        emitted(&poll(&mut coordinator, &cycle(12))),
        vec![InputEvent::ChangeRSSI(12)]
    );
    assert_eq!(emitted(&poll(&mut coordinator, &cycle(7))), Vec::new());
    assert_eq!(
        emitted(&poll(&mut coordinator, &cycle(6))),
        vec![InputEvent::ChangeRSSI(6)]
    );
    assert_eq!(
        emitted(&poll(&mut coordinator, &cycle(0))),
        vec![InputEvent::ChangeRSSI(0)]
    );
    assert_eq!(
        emitted(&poll(&mut coordinator, &cycle(255))),
        vec![InputEvent::ChangeRSSI(255)]
    );
}

#[test]
fn coordinator_expects_the_reply_of_its_request() {
    let mut coordinator = started();
    assert!(coordinator.expects(&TunerReply::Status { stc: true }));
    assert!(!coordinator.expects(&TunerReply::Done));
    assert!(!coordinator.expects(&TunerReply::Rssi(0)));
    coordinator.complete(TunerReply::Status { stc: true });
    assert!(coordinator.expects(&TunerReply::Command(None)));
    assert!(!coordinator.expects(&TunerReply::Frequency(0)));
    coordinator.complete(TunerReply::Command(None));
    assert!(coordinator.expects(&TunerReply::Rssi(0)));
    assert!(!coordinator.expects(&TunerReply::Status { stc: false }));
    coordinator.complete(TunerReply::Rssi(0));
    assert!(coordinator.expects(&TunerReply::Frequency(0)));
    assert!(!coordinator.expects(&TunerReply::Command(None)));
    coordinator.complete(TunerReply::Frequency(0));
    assert!(coordinator.expects(&TunerReply::Done));
    assert!(!coordinator.expects(&TunerReply::Frequency(0)));
}
