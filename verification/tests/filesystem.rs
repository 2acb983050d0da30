use file_driver::driver::{self, Action, DriverError, Event};
use file_driver::tree::TreeValue;
use file_driver::wire::{FileWire, WireRepr};

fn atom(bytes: &[u8]) -> TreeValue {
    TreeValue::atom(bytes.to_vec())
}

fn tuple(mut items: Vec<TreeValue>) -> TreeValue {
    let mut tree = items.pop().expect("a tuple has an element");
    while let Some(item) = items.pop() {
        tree = TreeValue::cell(item, tree);
    }
    tree
}

fn read_request(path: &str) -> TreeValue {
    tuple(vec![atom(b"file"), atom(b"read"), atom(path.as_bytes())])
}

fn write_request(path: &str, contents: &[u8]) -> TreeValue {
    tuple(vec![
        atom(b"file"),
        atom(b"write"),
        TreeValue::cell(atom(path.as_bytes()), atom(contents)),
    ])
}

fn read_ok(contents: &[u8]) -> (WireRepr, TreeValue) {
    (
        FileWire::Read.to_wire(),
        tuple(vec![atom(b"file"), atom(b"read"), atom(b""), atom(contents)]),
    )
}

fn read_err() -> (WireRepr, TreeValue) {
    (FileWire::Read.to_wire(), tuple(vec![atom(b"file"), atom(b"read"), atom(b"")]))
}

fn write_result(path: &str, contents: &[u8], success: bool) -> (WireRepr, TreeValue) {
    let flag: &[u8] = if success { &[] } else { &[1] };
    (
        FileWire::Write.to_wire(),
        tuple(vec![
            atom(b"file"),
            atom(b"write"),
            atom(path.as_bytes()),
            atom(contents),
            atom(flag),
        ]),
    )
}

/// Runs a driver over `effects` against the file system of this machine,
/// below a directory of the test's own that is empty at the start.
fn run_on_disk(
    root: &str,
    effects: Vec<TreeValue>,
) -> (Vec<(WireRepr, TreeValue)>, Option<DriverError>) {
    let runtime = tokio::runtime::Builder::new_current_thread().build().expect("a runtime");
    runtime.block_on(async {
        let _ = tokio::fs::remove_dir_all(root).await;
        let mut effects = effects.into_iter();
        let mut pokes = Vec::new();
        let mut machine = driver::file();
        let mut action = Action::Fetch;
        loop {
            let event = match action {
                Action::Fetch => match effects.next() {
                    Some(effect) => Event::Effect(effect),
                    None => return (pokes, None),
                },
                Action::Read { path } => Event::ReadDone(tokio::fs::read(&path).await.ok()),
                Action::CreateDirs { dir } => {
                    Event::DirsDone(tokio::fs::create_dir_all(&dir).await.is_ok())
                }
                Action::Write { path, contents } => {
                    Event::WriteDone(tokio::fs::write(&path, &contents).await.is_ok())
                }
                Action::Emit { wire, poke } => {
                    pokes.push((wire, poke));
                    Event::EmitDone(true)
                }
                Action::Stop { error } => return (pokes, Some(error)),
            };
            let (next_machine, next_action) = machine.step(event);
            machine = next_machine;
            action = next_action;
        }
    })
}

fn is_dir(path: &str) -> bool {
    let runtime = tokio::runtime::Builder::new_current_thread().build().expect("a runtime");
    runtime.block_on(async { tokio::fs::metadata(path).await.map(|m| m.is_dir()).unwrap_or(false) })
}

#[test]
fn on_disk_write_creates_the_directories() {
    let root = "/tmp/file_driver_on_disk_write";
    let path = format!("{}/x/deep/y.txt", root);
    let (pokes, stopped) = run_on_disk(root, vec![write_request(&path, b"hello")]);
    assert_eq!(stopped, None);
    assert_eq!(pokes, vec![write_result(&path, b"hello", true)]);
    assert!(is_dir(&format!("{}/x", root)));
    assert!(is_dir(&format!("{}/x/deep", root)));
}

#[test]
fn on_disk_read_after_write() {
    let root = "/tmp/file_driver_on_disk_read_after_write";
    let path = format!("{}/x/y.txt", root);
    let contents: Vec<u8> = (0..=255).rev().collect();
    let (pokes, stopped) = run_on_disk(
        root,
        vec![write_request(&path, &contents), read_request(&path), read_request(&path)],
    );
    assert_eq!(stopped, None);
    assert_eq!(
        pokes,
        vec![write_result(&path, &contents, true), read_ok(&contents), read_ok(&contents)]
    );
}

#[test]
fn on_disk_read_of_a_missing_file() {
    let root = "/tmp/file_driver_on_disk_missing";
    let path = format!("{}/nothing/here", root);
    let (pokes, stopped) = run_on_disk(root, vec![read_request(&path)]);
    assert_eq!(stopped, None);
    assert_eq!(pokes, vec![read_err()]);
}

#[test]
fn on_disk_write_below_a_file_fails() {
    let root = "/tmp/file_driver_on_disk_below_a_file";
    let file_path = format!("{}/plain", root);
    let below = format!("{}/plain/x/y.txt", root);
    let (pokes, stopped) = run_on_disk(
        root,
        vec![write_request(&file_path, b"a file"), write_request(&below, b"hello")],
    );
    assert_eq!(stopped, None);
    assert_eq!(
        pokes,
        vec![write_result(&file_path, b"a file", true), write_result(&below, b"hello", false)]
    );
}

#[test]
fn on_disk_write_to_a_directory_fails() {
    let root = "/tmp/file_driver_on_disk_to_a_directory";
    let inner = format!("{}/dir/inner", root);
    let dir = format!("{}/dir", root);
    let (pokes, stopped) = run_on_disk(
        root,
        vec![write_request(&inner, b"1"), write_request(&dir, b"2"), read_request(&inner)],
    );
    assert_eq!(stopped, None);
    assert_eq!(
        pokes,
        vec![write_result(&inner, b"1", true), write_result(&dir, b"2", false), read_ok(b"1")]
    );
}

#[test]
fn on_disk_read_of_a_large_file() {
    let root = "/tmp/file_driver_on_disk_large";
    let path = format!("{}/large.bin", root);
    let contents: Vec<u8> = (0..200_000u32).map(|i| (i % 251) as u8).collect();
    let (pokes, stopped) =
        run_on_disk(root, vec![write_request(&path, &contents), read_request(&path)]);
    assert_eq!(stopped, None);
    assert_eq!(pokes, vec![write_result(&path, &contents, true), read_ok(&contents)]);
}

#[test]
fn on_disk_write_replaces_the_whole_file() {
    let root = "/tmp/file_driver_on_disk_replace";
    let path = format!("{}/f", root);
    let (pokes, stopped) = run_on_disk(
        root,
        vec![
            write_request(&path, b"a long first version"),
            write_request(&path, b"short"),
            read_request(&path),
        ],
    );
    assert_eq!(stopped, None);
    assert_eq!(
        pokes,
        vec![
            write_result(&path, b"a long first version", true),
            write_result(&path, b"short", true),
            read_ok(b"short"),
        ]
    );
}
