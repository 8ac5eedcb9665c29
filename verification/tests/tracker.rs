use batteryctl::band::Band;
use batteryctl::tracker::{observe_record, Record, Status, Tracker};

fn only(band: Band) -> Status {
    let mut status = Status::new();
    match band {
        Band::Good => status.good_handled = true,
        Band::Okay => status.okay_handled = true,
        Band::Bad => status.bad_handled = true,
        Band::Critical => status.critical_handled = true,
    }
    status
}

#[test]
fn a_new_status_has_no_flag_set() {
    let status = Status::new();
    assert!(!status.good_handled);
    assert!(!status.okay_handled);
    assert!(!status.bad_handled);
    assert!(!status.critical_handled);
    for band in [Band::Good, Band::Okay, Band::Bad, Band::Critical] {
        assert!(!status.is_handled(band));
    }
}

#[test]
fn dispatch_marks_the_band_that_fires() {
    for band in [Band::Good, Band::Okay, Band::Bad, Band::Critical] {
        let mut status = Status::new();
        assert_eq!(status.dispatch(band), Some(band));
        assert_eq!(status, only(band));
        assert!(status.is_handled(band));
        assert_eq!(status.dispatch(band), None);
        assert_eq!(status, only(band));
    }
}

#[test]
fn dispatch_leaves_other_flags_alone() {
    let mut status = Status {
        good_handled: true,
        okay_handled: false,
        bad_handled: true,
        critical_handled: false,
    };
    assert_eq!(status.dispatch(Band::Good), None);
    assert_eq!(status.dispatch(Band::Bad), None);
    assert_eq!(status.dispatch(Band::Critical), Some(Band::Critical));
    assert_eq!(
        status,
        Status { good_handled: true, okay_handled: false, bad_handled: true, critical_handled: true }
    );
}

#[test]
fn a_record_is_observed() {
    assert_eq!(
        observe_record(None, Band::Okay),
        (Record { band: Band::Okay, status: only(Band::Okay) }, Some(Band::Okay))
    );
    let earlier = Record { band: Band::Okay, status: only(Band::Okay) };
    assert_eq!(observe_record(Some(earlier), Band::Okay), (earlier, None));
    assert_eq!(
        observe_record(Some(earlier), Band::Bad),
        (Record { band: Band::Bad, status: only(Band::Bad) }, Some(Band::Bad))
    );
}

#[test]
fn a_steady_device_fires_once() {
    for band in [Band::Good, Band::Okay, Band::Bad, Band::Critical] {
        let mut tracker = Tracker::new();
        let mut fires = 0;
        for _ in 0..25 {
            if let Some(fired) = tracker.observe("BAT0", band) {
                assert_eq!(fired, band);
                fires += 1;
            }
        }
        assert_eq!(fires, 1);
        assert_eq!(tracker.record("BAT0"), Some(Record { band, status: only(band) }));
    }
}

#[test]
fn a_steady_device_fires_once_among_others() {
    let mut tracker = Tracker::new();
    let mut fires = 0;
    let others = [Band::Good, Band::Critical, Band::Bad, Band::Bad, Band::Okay, Band::Good];
    for round in 0..12 {
        tracker.observe("BAT1", others[round % others.len()]);
        if tracker.observe("BAT0", Band::Bad).is_some() {
            fires += 1;
        }
        tracker.observe("BAT2", others[(round + 3) % others.len()]);
    }
    assert_eq!(fires, 1);
}

#[test]
fn good_to_critical_fires_only_critical() {
    let mut tracker = Tracker::new();
    assert_eq!(tracker.observe("BAT0", Band::Good), Some(Band::Good));
    assert_eq!(tracker.observe("BAT0", Band::Critical), Some(Band::Critical));
    assert_eq!(
        tracker.record("BAT0"),
        Some(Record { band: Band::Critical, status: only(Band::Critical) })
    );
    assert_eq!(tracker.observe("BAT0", Band::Critical), None);
}

#[test]
fn critical_fires_again_after_recovery() {
    let mut tracker = Tracker::new();
    assert_eq!(tracker.observe("BAT0", Band::Critical), Some(Band::Critical));
    assert_eq!(tracker.observe("BAT0", Band::Critical), None);
    assert_eq!(tracker.observe("BAT0", Band::Good), Some(Band::Good));
    assert_eq!(tracker.observe("BAT0", Band::Good), None);
    assert_eq!(tracker.observe("BAT0", Band::Critical), Some(Band::Critical));
    assert_eq!(tracker.observe("BAT0", Band::Critical), None);
}

#[test]
fn devices_are_remembered_apart() {
    let mut tracker = Tracker::new();
    assert_eq!(tracker.record("BAT0"), None);
    assert_eq!(tracker.observe("BAT0", Band::Good), Some(Band::Good));
    assert_eq!(tracker.record("BAT1"), None);
    assert_eq!(tracker.observe("BAT1", Band::Good), Some(Band::Good));
    assert_eq!(tracker.observe("BAT1", Band::Bad), Some(Band::Bad));
    assert_eq!(tracker.observe("BAT0", Band::Good), None);
    assert_eq!(tracker.record("BAT0"), Some(Record { band: Band::Good, status: only(Band::Good) }));
    assert_eq!(tracker.record("BAT1"), Some(Record { band: Band::Bad, status: only(Band::Bad) }));
    assert_eq!(tracker.record("BAT"), None);
    assert_eq!(tracker.record(""), None);
    assert_eq!(tracker.observe("", Band::Okay), Some(Band::Okay));
    assert_eq!(tracker.record(""), Some(Record { band: Band::Okay, status: only(Band::Okay) }));
}

#[test]
fn every_band_change_fires() {
    let bands = [Band::Good, Band::Okay, Band::Bad, Band::Critical];
    for from in bands {
        for to in bands {
            let mut tracker = Tracker::new();
            assert_eq!(tracker.observe("BAT0", from), Some(from));
            let expected = if from == to { None } else { Some(to) };
            assert_eq!(tracker.observe("BAT0", to), expected);
        }
    }
}
