use std::cell::Cell;
use std::rc::Rc;

use archive1::{
    split_segments, Compose, ConstPipe, DynPipe, Error, FsPipe, IdPipe, Pipe, Stage,
    UrlToPathPipe, WebUrl,
};

struct Double();

impl Pipe for Double {
    type In = i64;
    type Out = i64;

    fn pipe(&self, i: i64) -> Result<i64, Error> {
        Ok(i * 2)
    }
}

struct Negate();

impl Pipe for Negate {
    type In = i64;
    type Out = i64;

    fn pipe(&self, i: i64) -> Result<i64, Error> {
        Ok(-i)
    }
}

struct AddOne();

impl Pipe for AddOne {
    type In = i64;
    type Out = i64;

    fn pipe(&self, i: i64) -> Result<i64, Error> {
        Ok(i + 1)
    }
}

struct Upper();

impl Pipe for Upper {
    type In = String;
    type Out = String;

    fn pipe(&self, i: String) -> Result<String, Error> {
        Ok(i.to_uppercase())
    }
}

struct Exclaim();

impl Pipe for Exclaim {
    type In = String;
    type Out = String;

    fn pipe(&self, i: String) -> Result<String, Error> {
        Ok(i + "!")
    }
}

/// Fails with an I/O error of the given kind, counting its calls.
struct FailIo {
    calls: Rc<Cell<u32>>,
}

impl Pipe for FailIo {
    type In = i64;
    type Out = i64;

    fn pipe(&self, _i: i64) -> Result<i64, Error> {
        self.calls.set(self.calls.get() + 1);
        Err(Error::Io(std::io::Error::new(
            std::io::ErrorKind::PermissionDenied,
            "denied",
        )))
    }
}

/// Fails with a network error, counting its calls.
struct FailNet {
    calls: Rc<Cell<u32>>,
}

impl Pipe for FailNet {
    type In = i64;
    type Out = i64;

    fn pipe(&self, _i: i64) -> Result<i64, Error> {
        self.calls.set(self.calls.get() + 1);
        Err(Error::Network)
    }
}

/// Records the values it receives and hands them on.
struct Probe {
    seen: Rc<std::cell::RefCell<Vec<i64>>>,
}

impl Pipe for Probe {
    type In = i64;
    type Out = i64;

    fn pipe(&self, i: i64) -> Result<i64, Error> {
        self.seen.borrow_mut().push(i);
        Ok(i)
    }
}

/// A source that counts its calls and yields a fixed value.
struct CountedSource {
    calls: Rc<Cell<u32>>,
    value: i64,
}

impl Pipe for CountedSource {
    type In = ();
    type Out = i64;

    fn pipe(&self, _i: ()) -> Result<i64, Error> {
        self.calls.set(self.calls.get() + 1);
        Ok(self.value)
    }
}

fn web(text: &str, scheme: &str, host: &str, path: &str) -> WebUrl {
    WebUrl {
        text: text.to_string(),
        scheme: scheme.to_string(),
        host: host.to_string(),
        path: path.to_string(),
    }
}

fn as_text(parts: &[Vec<u8>]) -> Vec<String> {
    parts.iter().map(|p| String::from_utf8(p.clone()).unwrap()).collect()
}

#[test]
fn constant_then_identity_yields_constant() {
    let p = ConstPipe(5i64).then(IdPipe::new());
    assert_eq!(p.pipe(()).unwrap(), 5);
}

#[test]
fn constant_zipped_with_double_and_negate() {
    let p = ConstPipe(3i64).zip(Double(), Negate());
    assert_eq!(p.pipe(()).unwrap(), (6, -3));
}

#[test]
fn chain_with_true_guard_uppercases() {
    let p = ConstPipe(String::from("a")).into_dyn().if_then(true, Upper());
    assert_eq!(p.pipe(()).unwrap(), "A");
}

#[test]
fn chain_with_false_guard_keeps_value() {
    let p = ConstPipe(String::from("a")).into_dyn().if_then(false, Upper());
    assert_eq!(p.pipe(()).unwrap(), "a");
}

#[test]
fn failing_first_stage_skips_second() {
    let first = Rc::new(Cell::new(0));
    let second = Rc::new(Cell::new(0));
    let p = FailIo { calls: first.clone() }.then(FailNet { calls: second.clone() });
    match p.pipe(1) {
        Err(Error::Io(e)) => {
            assert_eq!(e.kind(), std::io::ErrorKind::PermissionDenied);
            assert_eq!(e.to_string(), "denied");
        },
        _ => panic!("expected the first stage's I/O error"),
    }
    assert_eq!(first.get(), 1);
    assert_eq!(second.get(), 0);
}

#[test]
fn identity_on_either_side_changes_nothing() {
    for x in [-4i64, 0, 7] {
        let alone = Double().pipe(x).unwrap();
        let right = Double().then(IdPipe::new()).pipe(x).unwrap();
        let left = IdPipe::new().then(Double()).pipe(x).unwrap();
        assert_eq!(alone, right);
        assert_eq!(alone, left);
    }
}

#[test]
fn identity_keeps_errors() {
    let calls = Rc::new(Cell::new(0));
    let p = FailNet { calls: calls.clone() }.then(IdPipe::new());
    assert!(matches!(p.pipe(2), Err(Error::Network)));
    assert_eq!(calls.get(), 1);
}

#[test]
fn fan_out_runs_source_once_and_shares_its_value() {
    let calls = Rc::new(Cell::new(0));
    let seen1 = Rc::new(std::cell::RefCell::new(Vec::new()));
    let seen2 = Rc::new(std::cell::RefCell::new(Vec::new()));
    let p = CountedSource { calls: calls.clone(), value: 11 }.zip(
        Probe { seen: seen1.clone() }.then(Double()),
        Probe { seen: seen2.clone() }.then(Negate()),
    );
    assert_eq!(p.pipe(()).unwrap(), (22, -11));
    assert_eq!(calls.get(), 1);
    assert_eq!(*seen1.borrow(), vec![11]);
    assert_eq!(*seen2.borrow(), vec![11]);
}

#[test]
fn fan_out_first_failure_skips_second() {
    let failed = Rc::new(Cell::new(0));
    let seen = Rc::new(std::cell::RefCell::new(Vec::new()));
    let p = ConstPipe(4i64).zip(FailNet { calls: failed.clone() }, Probe { seen: seen.clone() });
    assert!(matches!(p.pipe(()), Err(Error::Network)));
    assert_eq!(failed.get(), 1);
    assert!(seen.borrow().is_empty());
}

#[test]
fn fan_out_second_failure_is_reported() {
    let failed = Rc::new(Cell::new(0));
    let p = ConstPipe(4i64).zip(Double(), FailIo { calls: failed.clone() });
    assert!(matches!(p.pipe(()), Err(Error::Io(_))));
    assert_eq!(failed.get(), 1);
}

#[test]
fn fan_out_source_failure_is_reported() {
    let failed = Rc::new(Cell::new(0));
    let seen = Rc::new(std::cell::RefCell::new(Vec::new()));
    let p = FailNet { calls: failed.clone() }.zip(Probe { seen: seen.clone() }, Double());
    assert!(matches!(p.pipe(8), Err(Error::Network)));
    assert!(seen.borrow().is_empty());
}

#[test]
fn chain_without_steps_is_its_prefix() {
    let d: DynPipe<i64, Double, AddOne> = Double().into_dyn();
    assert_eq!(d.pipe(5).unwrap(), Double().pipe(5).unwrap());
}

#[test]
fn chain_steps_run_in_append_order() {
    let d = ConstPipe(3i64).into_dyn().if_then(true, Double()).if_then(true, Double());
    assert_eq!(d.pipe(()).unwrap(), 12);
    let mixed: DynPipe<i64, ConstPipe<i64>, Box<dyn Stage<i64>>> = ConstPipe(3i64).into_dyn();
    let mixed = mixed.if_then(true, Box::new(Double())).if_then(true, Box::new(AddOne()));
    assert_eq!(mixed.pipe(()).unwrap(), 7);
    let other: DynPipe<i64, ConstPipe<i64>, Box<dyn Stage<i64>>> = ConstPipe(3i64).into_dyn();
    let other = other.if_then(true, Box::new(AddOne())).if_then(true, Box::new(Double()));
    assert_eq!(other.pipe(()).unwrap(), 8);
}

#[test]
fn chain_guards_pick_steps() {
    let d: DynPipe<String, ConstPipe<String>, Box<dyn Stage<String>>> =
        ConstPipe(String::from("a")).into_dyn();
    let d = d
        .if_then(false, Box::new(Upper()))
        .if_then(true, Box::new(Exclaim()))
        .if_then(true, Box::new(Upper()));
    assert_eq!(d.pipe(()).unwrap(), "A!");
}

#[test]
fn chain_stops_at_first_failing_step() {
    let calls = Rc::new(Cell::new(0));
    let later = Rc::new(Cell::new(0));
    let d: DynPipe<i64, ConstPipe<i64>, Box<dyn Stage<i64>>> = ConstPipe(1i64).into_dyn();
    let d = d
        .if_then(true, Box::new(FailNet { calls: calls.clone() }))
        .if_then(true, Box::new(FailIo { calls: later.clone() }));
    assert!(matches!(d.pipe(()), Err(Error::Network)));
    assert_eq!(calls.get(), 1);
    assert_eq!(later.get(), 0);
}

#[test]
fn chain_prefix_failure_skips_steps() {
    let calls = Rc::new(Cell::new(0));
    let seen = Rc::new(std::cell::RefCell::new(Vec::new()));
    let d = FailIo { calls: calls.clone() }.into_dyn().if_then(true, Probe { seen: seen.clone() });
    assert!(matches!(d.pipe(0), Err(Error::Io(_))));
    assert!(seen.borrow().is_empty());
}

#[test]
fn constant_hands_out_copies() {
    let c = ConstPipe(String::from("x"));
    assert_eq!(c.pipe(()).unwrap(), "x");
    assert_eq!(c.pipe(()).unwrap(), "x");
}

#[test]
fn error_from_io_wraps_cause() {
    let e: Error = std::io::Error::new(std::io::ErrorKind::NotFound, "gone").into();
    match e {
        Error::Io(inner) => assert_eq!(inner.kind(), std::io::ErrorKind::NotFound),
        _ => panic!("expected an I/O error"),
    }
}

#[test]
fn error_descriptions() {
    assert_eq!(Error::Network.describe(), "network failure");
    assert_eq!(Error::Other(String::from("bad status")).describe(), "bad status");
    let io = Error::Io(std::io::Error::new(std::io::ErrorKind::Other, "disk full"));
    assert_eq!(io.describe(), "io failure: disk full");
}

#[test]
fn segments_skip_empty_pieces() {
    assert_eq!(as_text(&split_segments(&b"/a//b/".to_vec())), vec!["a", "b"]);
    assert_eq!(as_text(&split_segments(&b"".to_vec())), Vec::<String>::new());
    assert_eq!(as_text(&split_segments(&b"one".to_vec())), vec!["one"]);
}

#[test]
fn url_root_maps_to_index_file() {
    let u = web("https://example.com/", "https", "example.com", "/");
    let p = UrlToPathPipe().pipe(u).unwrap();
    assert_eq!(as_text(&p), vec!["https", "example.com", "index.html"]);
}

#[test]
fn url_path_maps_to_components() {
    let u = web("http://h.org/a/b.txt", "http", "h.org", "/a/b.txt");
    let p = UrlToPathPipe().pipe(u).unwrap();
    assert_eq!(as_text(&p), vec!["http", "h.org", "a", "b.txt"]);
    let dir = web("http://h.org/a/b/", "http", "h.org", "/a/b/");
    let p = UrlToPathPipe().pipe(dir).unwrap();
    assert_eq!(as_text(&p), vec!["http", "h.org", "a", "b", "index.html"]);
}

#[test]
fn fs_target_resolves_under_base() {
    let fs = FsPipe::new("my-archive");
    assert!(!fs.is_rooted());
    let rel = vec![b"https".to_vec(), b"example.com".to_vec(), b"index.html".to_vec()];
    assert_eq!(as_text(&fs.target(&rel)), vec!["my-archive", "https", "example.com", "index.html"]);
}

#[test]
fn fs_target_handles_dot_components() {
    let fs = FsPipe::new("/srv/store");
    assert!(fs.is_rooted());
    let rel = vec![b"a".to_vec(), b".".to_vec(), b"..".to_vec(), b"b".to_vec(), Vec::new()];
    assert_eq!(as_text(&fs.target(&rel)), vec!["srv", "store", "b"]);
    let up = vec![b"..".to_vec(), b"..".to_vec(), b"..".to_vec(), b"c".to_vec()];
    assert_eq!(as_text(&fs.target(&up)), vec!["c"]);
}

#[test]
fn url_path_then_fs_target() {
    let u = web("https://example.com/x/", "https", "example.com", "/x/");
    let p = UrlToPathPipe().pipe(u).unwrap();
    let fs = FsPipe::new("out");
    assert_eq!(as_text(&fs.target(&p)), vec!["out", "https", "example.com", "x", "index.html"]);
}
