use file_driver::codec::{DecodeError, FileResponse};
use file_driver::driver::{self, begin_write, respond, Action, DriverError, Event, FileDriver};
use file_driver::tree::TreeValue;
use file_driver::wire::FileWire;

fn atom(bytes: &[u8]) -> TreeValue {
    TreeValue::atom(bytes.to_vec())
}

fn tuple(mut items: Vec<TreeValue>) -> TreeValue {
    let mut tree = items.pop().expect("a tuple has an element");
    while let Some(item) = items.pop() {
        tree = TreeValue::cell(item, tree);
    }
    tree
}

fn read_request(path: &[u8]) -> TreeValue {
    tuple(vec![atom(b"file"), atom(b"read"), atom(path)])
}

fn write_request(path: &[u8], contents: &[u8]) -> TreeValue {
    tuple(vec![atom(b"file"), atom(b"write"), TreeValue::cell(atom(path), atom(contents))])
}

fn write_poke(path: &[u8], contents: &[u8], success: bool) -> TreeValue {
    let flag: &[u8] = if success { &[] } else { &[1] };
    tuple(vec![atom(b"file"), atom(b"write"), atom(path), atom(contents), atom(flag)])
}

fn stopped(error: DriverError) -> (FileDriver, Action) {
    (FileDriver::Stopped { error }, Action::Stop { error })
}

fn every_event() -> Vec<Event> {
    vec![
        Event::Effect(read_request(b"/tmp/a")),
        Event::FetchFailed,
        Event::ReadDone(Some(b"hello".to_vec())),
        Event::ReadDone(None),
        Event::DirsDone(true),
        Event::DirsDone(false),
        Event::WriteDone(true),
        Event::WriteDone(false),
        Event::EmitDone(true),
        Event::EmitDone(false),
    ]
}

#[test]
fn a_new_driver_awaits_an_effect() {
    assert_eq!(driver::file(), FileDriver::AwaitingEffect);
    assert!(driver::file().is_awaiting_effect());
    assert!(!FileDriver::Reading.is_awaiting_effect());
    assert!(!FileDriver::Emitting.is_awaiting_effect());
}

#[test]
fn read_request_asks_for_the_file() {
    assert_eq!(
        driver::file().step(Event::Effect(read_request(b"/tmp/x/y.txt"))),
        (FileDriver::Reading, Action::Read { path: "/tmp/x/y.txt".to_string() })
    );
}

#[test]
fn write_request_asks_for_the_directories_first() {
    assert_eq!(
        driver::file().step(Event::Effect(write_request(b"/tmp/x/y.txt", b"hello"))),
        (
            FileDriver::EnsuringDirs {
                path: "/tmp/x/y.txt".to_string(),
                contents: b"hello".to_vec()
            },
            Action::CreateDirs { dir: "/tmp/x".to_string() }
        )
    );
}

#[test]
fn write_request_for_a_bare_name_has_the_empty_parent() {
    assert_eq!(
        driver::file().step(Event::Effect(write_request(b"y.txt", b"hello"))),
        (
            FileDriver::EnsuringDirs { path: "y.txt".to_string(), contents: b"hello".to_vec() },
            Action::CreateDirs { dir: String::new() }
        )
    );
}

#[test]
fn write_request_without_parent_goes_straight_to_the_write() {
    for path in ["/", ""] {
        assert_eq!(
            driver::file().step(Event::Effect(write_request(path.as_bytes(), b"hello"))),
            (
                FileDriver::Writing { path: path.to_string(), contents: b"hello".to_vec() },
                Action::Write { path: path.to_string(), contents: b"hello".to_vec() }
            )
        );
    }
}

#[test]
fn begin_write_with_a_parent() {
    assert_eq!(
        begin_write("a/b".to_string(), vec![1, 2], Some("a".to_string())),
        (
            FileDriver::EnsuringDirs { path: "a/b".to_string(), contents: vec![1, 2] },
            Action::CreateDirs { dir: "a".to_string() }
        )
    );
}

#[test]
fn begin_write_without_a_parent() {
    assert_eq!(
        begin_write("a/b".to_string(), vec![1, 2], None),
        (
            FileDriver::Writing { path: "a/b".to_string(), contents: vec![1, 2] },
            Action::Write { path: "a/b".to_string(), contents: vec![1, 2] }
        )
    );
}

#[test]
fn respond_emits_under_the_label_of_the_operation() {
    assert_eq!(
        respond(FileResponse::ReadErr),
        (
            FileDriver::Emitting,
            Action::Emit {
                wire: FileWire::Read.to_wire(),
                poke: tuple(vec![atom(b"file"), atom(b"read"), atom(b"")])
            }
        )
    );
    assert_eq!(
        respond(FileResponse::WriteResult {
            path: "p".to_string(),
            contents: b"c".to_vec(),
            success: true
        }),
        (
            FileDriver::Emitting,
            Action::Emit { wire: FileWire::Write.to_wire(), poke: write_poke(b"p", b"c", true) }
        )
    );
}

#[test]
fn unrecognized_effect_is_skipped() {
    let effects = vec![
        atom(b"file"),
        TreeValue::zero(),
        tuple(vec![atom(b"exit"), atom(b"read"), atom(b"/tmp/a")]),
        tuple(vec![atom(b"file"), atom(b"stat"), atom(b"/tmp/a")]),
        tuple(vec![atom(b"file"), atom(b"read"), atom(b"/tmp/a"), atom(b"more")]),
        tuple(vec![atom(b"file"), atom(b"write"), atom(b"/tmp/a")]),
        tuple(vec![atom(b"file"), atom(b"read"), atom(b""), atom(b"hello")]),
    ];
    for effect in effects {
        assert_eq!(driver::file().step(Event::Effect(effect)), (FileDriver::AwaitingEffect, Action::Fetch));
    }
}

#[test]
fn path_that_is_not_utf8_stops_the_driver() {
    assert_eq!(
        driver::file().step(Event::Effect(read_request(&[0xff]))),
        stopped(DriverError::Decode(DecodeError::PathNotUtf8))
    );
    assert_eq!(
        driver::file().step(Event::Effect(write_request(&[0xc3, 0x28], b"hello"))),
        stopped(DriverError::Decode(DecodeError::PathNotUtf8))
    );
}

#[test]
fn fetch_failure_is_survived() {
    assert_eq!(driver::file().step(Event::FetchFailed), (FileDriver::AwaitingEffect, Action::Fetch));
}

#[test]
fn read_that_succeeded_is_answered_with_the_bytes() {
    assert_eq!(
        FileDriver::Reading.step(Event::ReadDone(Some(b"hello".to_vec()))),
        (
            FileDriver::Emitting,
            Action::Emit {
                wire: FileWire::Read.to_wire(),
                poke: tuple(vec![atom(b"file"), atom(b"read"), atom(b""), atom(b"hello")])
            }
        )
    );
}

#[test]
fn read_of_an_empty_file_still_has_four_elements() {
    assert_eq!(
        FileDriver::Reading.step(Event::ReadDone(Some(Vec::new()))),
        (
            FileDriver::Emitting,
            Action::Emit {
                wire: FileWire::Read.to_wire(),
                poke: tuple(vec![atom(b"file"), atom(b"read"), atom(b""), atom(b"")])
            }
        )
    );
}

#[test]
fn read_that_failed_is_answered_with_three_elements() {
    assert_eq!(
        FileDriver::Reading.step(Event::ReadDone(None)),
        (
            FileDriver::Emitting,
            Action::Emit {
                wire: FileWire::Read.to_wire(),
                poke: tuple(vec![atom(b"file"), atom(b"read"), atom(b"")])
            }
        )
    );
}

#[test]
fn directories_made_lead_to_the_write() {
    let machine =
        FileDriver::EnsuringDirs { path: "/tmp/x/y.txt".to_string(), contents: b"hello".to_vec() };
    assert_eq!(
        machine.step(Event::DirsDone(true)),
        (
            FileDriver::Writing { path: "/tmp/x/y.txt".to_string(), contents: b"hello".to_vec() },
            Action::Write { path: "/tmp/x/y.txt".to_string(), contents: b"hello".to_vec() }
        )
    );
}

#[test]
fn directories_not_made_fail_the_write() {
    let machine =
        FileDriver::EnsuringDirs { path: "/root/x/y.txt".to_string(), contents: b"hello".to_vec() };
    assert_eq!(
        machine.step(Event::DirsDone(false)),
        (
            FileDriver::Emitting,
            Action::Emit {
                wire: FileWire::Write.to_wire(),
                poke: write_poke(b"/root/x/y.txt", b"hello", false)
            }
        )
    );
}

#[test]
fn write_is_answered_with_its_outcome() {
    for success in [true, false] {
        let machine =
            FileDriver::Writing { path: "/tmp/x/y.txt".to_string(), contents: b"hello".to_vec() };
        assert_eq!(
            machine.step(Event::WriteDone(success)),
            (
                FileDriver::Emitting,
                Action::Emit {
                    wire: FileWire::Write.to_wire(),
                    poke: write_poke(b"/tmp/x/y.txt", b"hello", success)
                }
            )
        );
    }
}

#[test]
fn emission_leads_back_to_rest() {
    assert_eq!(
        FileDriver::Emitting.step(Event::EmitDone(true)),
        (FileDriver::AwaitingEffect, Action::Fetch)
    );
}

#[test]
fn failed_emission_stops_the_driver() {
    assert_eq!(FileDriver::Emitting.step(Event::EmitDone(false)), stopped(DriverError::EmitFailed));
}

#[test]
fn a_stopped_driver_stays_stopped() {
    for error in [
        DriverError::EmitFailed,
        DriverError::UnexpectedEvent,
        DriverError::Decode(DecodeError::PathNotUtf8),
    ] {
        for event in every_event() {
            assert_eq!(FileDriver::Stopped { error }.step(event), stopped(error));
        }
    }
}

#[test]
fn at_rest_only_effects_and_fetch_failures_are_expected() {
    for event in every_event() {
        if matches!(event, Event::Effect(_) | Event::FetchFailed) {
            continue;
        }
        assert_eq!(driver::file().step(event), stopped(DriverError::UnexpectedEvent));
    }
}

#[test]
fn while_reading_only_the_end_of_the_read_is_expected() {
    for event in every_event() {
        if matches!(event, Event::ReadDone(_)) {
            continue;
        }
        assert_eq!(FileDriver::Reading.step(event), stopped(DriverError::UnexpectedEvent));
    }
}

#[test]
fn while_making_directories_only_their_end_is_expected() {
    for event in every_event() {
        if matches!(event, Event::DirsDone(_)) {
            continue;
        }
        let machine = FileDriver::EnsuringDirs { path: "a/b".to_string(), contents: vec![1] };
        assert_eq!(machine.step(event), stopped(DriverError::UnexpectedEvent));
    }
}

#[test]
fn while_writing_only_the_end_of_the_write_is_expected() {
    for event in every_event() {
        if matches!(event, Event::WriteDone(_)) {
            continue;
        }
        let machine = FileDriver::Writing { path: "a/b".to_string(), contents: vec![1] };
        assert_eq!(machine.step(event), stopped(DriverError::UnexpectedEvent));
    }
}

#[test]
fn while_emitting_only_the_end_of_the_emission_is_expected() {
    for event in every_event() {
        if matches!(event, Event::EmitDone(_)) {
            continue;
        }
        assert_eq!(FileDriver::Emitting.step(event), stopped(DriverError::UnexpectedEvent));
    }
}
