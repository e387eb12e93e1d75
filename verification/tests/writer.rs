use std::io::{Error, ErrorKind, Write};

use chksum_writer::accumulator::Accumulator;
use chksum_writer::sink::Sink;
use chksum_writer::writer::{absorb_accepted, new, with_hash, Writer};

const EMPTY: &str = "d41d8cd98f00b204e9800998ecf8427e";
const EXAMPLE_DATA: &str = "5c71dbb287630d65ca93764c34d9aa0d";
const EXAMP: &str = "3bd203791e6cf8f2eaa1e45bcba74fa3";
const EXA: &str = "5de51d3aeb2b0c8c996b31413f45fe38";
const EXAMPLE_DATA_TWICE: &str = "5583c797e1d9f91ffbc96ea1607bfe9c";

/// MD5 behind the accumulator interface.
#[derive(Clone, Default)]
struct Md5(chksum_hash_md5::Update);

struct Md5Digest(chksum_hash_md5::Digest);

impl std::fmt::Display for Md5Digest {
    fn fmt(&self, f: &mut std::fmt::Formatter<'_>) -> std::fmt::Result {
        std::fmt::Display::fmt(&self.0, f)
    }
}

impl chksum_core::Digest for Md5Digest {}

impl chksum_core::Hash for Md5 {
    type Digest = Md5Digest;

    fn update<T>(&mut self, data: T)
    where
        T: AsRef<[u8]>,
    {
        self.0.update(data);
    }

    fn reset(&mut self) {
        self.0.reset();
    }

    fn digest(&self) -> Md5Digest {
        Md5Digest(self.0.digest())
    }
}

/// An accumulator whose digest spells out every update it was given, so that
/// a test sees each slice that arrived and the order they came in.
#[derive(Clone, Default)]
struct Spelling(Vec<Vec<u8>>);

struct Spelled(String);

impl std::fmt::Display for Spelled {
    fn fmt(&self, f: &mut std::fmt::Formatter<'_>) -> std::fmt::Result {
        f.write_str(&self.0)
    }
}

impl chksum_core::Digest for Spelled {}

impl chksum_core::Hash for Spelling {
    type Digest = Spelled;

    fn update<T>(&mut self, data: T)
    where
        T: AsRef<[u8]>,
    {
        self.0.push(data.as_ref().to_vec());
    }

    fn reset(&mut self) {
        self.0.clear();
    }

    fn digest(&self) -> Spelled {
        let parts: Vec<String> = self
            .0
            .iter()
            .map(|part| format!("[{}]", String::from_utf8_lossy(part)))
            .collect();
        Spelled(parts.concat())
    }
}

/// A sink that takes at most `limit` bytes per call.
struct Short {
    taken: Vec<u8>,
    limit: usize,
}

impl Write for Short {
    fn write(&mut self, buf: &[u8]) -> std::io::Result<usize> {
        let n = buf.len().min(self.limit);
        self.taken.extend_from_slice(&buf[..n]);
        Ok(n)
    }

    fn flush(&mut self) -> std::io::Result<()> {
        Ok(())
    }
}

/// A sink that counts what it is asked and fails from a given call on.
struct Counting {
    taken: Vec<u8>,
    writes: usize,
    flushes: usize,
    fail_from_write: usize,
    fail_flush: bool,
}

impl Counting {
    fn reliable() -> Self {
        Counting { taken: Vec::new(), writes: 0, flushes: 0, fail_from_write: usize::MAX, fail_flush: false }
    }

    fn failing_from(write: usize) -> Self {
        Counting { fail_from_write: write, ..Counting::reliable() }
    }
}

impl Write for Counting {
    fn write(&mut self, buf: &[u8]) -> std::io::Result<usize> {
        self.writes += 1;
        if self.writes > self.fail_from_write {
            return Err(Error::new(ErrorKind::BrokenPipe, "the pipe is gone"));
        }
        self.taken.extend_from_slice(buf);
        Ok(buf.len())
    }

    fn flush(&mut self) -> std::io::Result<()> {
        self.flushes += 1;
        if self.fail_flush {
            return Err(Error::new(ErrorKind::TimedOut, "flush timed out"));
        }
        Ok(())
    }
}

#[test]
fn nothing_written_gives_the_digest_of_nothing() {
    let writer = Writer::<Vec<u8>, Md5>::new(Vec::new());
    assert_eq!(writer.digest(), EMPTY);
    assert_eq!(writer.into_inner(), Vec::<u8>::new());
}

#[test]
fn whole_write_gives_reference_digest() {
    let mut writer = Writer::<Vec<u8>, Md5>::new(Vec::new());
    let n = writer.write(b"example data").unwrap();
    assert_eq!(n, 12);
    assert_eq!(writer.digest(), EXAMPLE_DATA);
    assert_eq!(writer.into_inner(), b"example data".to_vec());
}

#[test]
fn two_writes_give_the_digest_of_one() {
    let mut writer = Writer::<Vec<u8>, Md5>::new(Vec::new());
    assert_eq!(writer.write(b"exa").unwrap(), 3);
    assert_eq!(writer.digest(), EXA);
    assert_eq!(writer.write(b"mple data").unwrap(), 9);
    assert_eq!(writer.digest(), EXAMPLE_DATA);
    assert_eq!(writer.into_inner(), b"example data".to_vec());
}

#[test]
fn every_cut_gives_the_same_digest() {
    let data = b"example data";
    for cut in 0..=data.len() {
        let mut writer = Writer::<Vec<u8>, Md5>::new(Vec::new());
        assert_eq!(writer.write(&data[..cut]).unwrap(), cut);
        assert_eq!(writer.write(&data[cut..]).unwrap(), data.len() - cut);
        assert_eq!(writer.digest(), EXAMPLE_DATA);
        assert_eq!(writer.into_inner(), data.to_vec());
    }
}

#[test]
fn byte_by_byte_gives_the_same_digest() {
    let mut writer = Writer::<Vec<u8>, Md5>::new(Vec::new());
    for byte in b"example data" {
        assert_eq!(writer.write(&[*byte]).unwrap(), 1);
    }
    assert_eq!(writer.digest(), EXAMPLE_DATA);
}

#[test]
fn short_write_hashes_only_what_was_accepted() {
    let mut writer = Writer::<Short, Md5>::new(Short { taken: Vec::new(), limit: 5 });
    let n = writer.write(b"example data").unwrap();
    assert_eq!(n, 5);
    assert_eq!(writer.digest(), EXAMP);
    assert_eq!(writer.into_inner().taken, b"examp".to_vec());
}

#[test]
fn short_writes_repeated_until_done_give_the_whole_digest() {
    let data = b"example data";
    let mut writer = Writer::<Short, Md5>::new(Short { taken: Vec::new(), limit: 5 });
    let mut done = 0;
    let mut counts = Vec::new();
    while done < data.len() {
        let n = writer.write(&data[done..]).unwrap();
        counts.push(n);
        done += n;
    }
    assert_eq!(counts, vec![5, 5, 2]);
    assert_eq!(writer.digest(), EXAMPLE_DATA);
    assert_eq!(writer.into_inner().taken, data.to_vec());
}

#[test]
fn accumulator_is_handed_exactly_the_accepted_slice_per_call() {
    let mut writer = Writer::<Short, Spelling>::new(Short { taken: Vec::new(), limit: 4 });
    assert_eq!(writer.write(b"example").unwrap(), 4);
    assert_eq!(writer.write(b"ple").unwrap(), 3);
    assert_eq!(writer.write(b"").unwrap(), 0);
    assert_eq!(writer.digest(), "[exam][ple][]");
}

#[test]
fn sink_that_accepts_nothing_leaves_the_digest_of_nothing() {
    let mut writer = Writer::<Short, Md5>::new(Short { taken: Vec::new(), limit: 0 });
    assert_eq!(writer.write(b"example data").unwrap(), 0);
    assert_eq!(writer.digest(), EMPTY);
    assert_eq!(writer.into_inner().taken, Vec::<u8>::new());
}

#[test]
fn empty_write_still_reaches_the_sink() {
    let mut writer = Writer::<Counting, Md5>::new(Counting::reliable());
    assert_eq!(writer.write(b"").unwrap(), 0);
    assert_eq!(writer.digest(), EMPTY);
    let sink = writer.into_inner();
    assert_eq!(sink.writes, 1);
    assert_eq!(sink.taken, Vec::<u8>::new());
}

#[test]
fn each_write_reaches_the_sink_once() {
    let mut writer = Writer::<Counting, Md5>::new(Counting::reliable());
    writer.write(b"exa").unwrap();
    writer.write(b"mple").unwrap();
    writer.write(b" data").unwrap();
    let sink = writer.into_inner();
    assert_eq!(sink.writes, 3);
    assert_eq!(sink.flushes, 0);
    assert_eq!(sink.taken, b"example data".to_vec());
}

#[test]
fn failed_write_leaves_the_digest_as_it_was() {
    let mut writer = Writer::<Counting, Md5>::new(Counting::failing_from(1));
    assert_eq!(writer.write(b"exa").unwrap(), 3);
    let before = writer.digest();
    let error = writer.write(b"mple data").unwrap_err();
    assert_eq!(error.kind(), ErrorKind::BrokenPipe);
    assert_eq!(error.to_string(), "the pipe is gone");
    assert_eq!(writer.digest(), before);
    assert_eq!(writer.digest(), EXA);
    let sink = writer.into_inner();
    assert_eq!(sink.writes, 2);
    assert_eq!(sink.taken, b"exa".to_vec());
}

#[test]
fn failed_first_write_leaves_the_digest_of_nothing() {
    let mut writer = Writer::<Counting, Md5>::new(Counting::failing_from(0));
    let error = writer.write(b"example data").unwrap_err();
    assert_eq!(error.kind(), ErrorKind::BrokenPipe);
    assert_eq!(writer.digest(), EMPTY);
}

#[test]
fn failed_write_hands_the_accumulator_nothing_at_all() {
    let mut writer = Writer::<Counting, Spelling>::new(Counting::failing_from(1));
    writer.write(b"exa").unwrap();
    assert!(writer.write(b"mple").is_err());
    assert!(writer.write(b"").is_err());
    assert_eq!(writer.digest(), "[exa]");
}

#[test]
fn flush_reaches_the_sink_and_leaves_the_digest() {
    let mut writer = Writer::<Counting, Md5>::new(Counting::reliable());
    writer.flush().unwrap();
    assert_eq!(writer.digest(), EMPTY);
    writer.write(b"exa").unwrap();
    writer.flush().unwrap();
    writer.flush().unwrap();
    assert_eq!(writer.digest(), EXA);
    writer.write(b"mple data").unwrap();
    writer.flush().unwrap();
    assert_eq!(writer.digest(), EXAMPLE_DATA);
    let sink = writer.into_inner();
    assert_eq!(sink.flushes, 4);
    assert_eq!(sink.writes, 2);
    assert_eq!(sink.taken, b"example data".to_vec());
}

#[test]
fn flush_hands_the_accumulator_nothing() {
    let mut writer = Writer::<Counting, Spelling>::new(Counting::reliable());
    writer.flush().unwrap();
    writer.write(b"exa").unwrap();
    writer.flush().unwrap();
    assert_eq!(writer.digest(), "[exa]");
}

#[test]
fn failed_flush_is_handed_back_and_leaves_the_digest() {
    let mut sink = Counting::reliable();
    sink.fail_flush = true;
    let mut writer = Writer::<Counting, Md5>::new(sink);
    writer.write(b"example data").unwrap();
    let error = writer.flush().unwrap_err();
    assert_eq!(error.kind(), ErrorKind::TimedOut);
    assert_eq!(error.to_string(), "flush timed out");
    assert_eq!(writer.digest(), EXAMPLE_DATA);
    assert_eq!(writer.into_inner().flushes, 1);
}

#[test]
fn digest_can_be_read_again_and_again() {
    let mut writer = Writer::<Vec<u8>, Md5>::new(Vec::new());
    writer.write(b"example data").unwrap();
    assert_eq!(writer.digest(), EXAMPLE_DATA);
    assert_eq!(writer.digest(), EXAMPLE_DATA);
    writer.write(b"example data").unwrap();
    assert_eq!(writer.digest(), EXAMPLE_DATA_TWICE);
    assert_eq!(writer.digest(), EXAMPLE_DATA_TWICE);
}

#[test]
fn seeded_accumulator_goes_on_from_its_prefix() {
    let mut seed = Accumulator::<Md5>::new();
    seed.update(b"exa");
    let mut resumed = Writer::with_hash(Vec::new(), seed);
    assert_eq!(resumed.digest(), EXA);
    resumed.write(b"mple data").unwrap();

    let mut whole = Writer::<Vec<u8>, Md5>::new(Vec::new());
    whole.write(b"exa").unwrap();
    whole.write(b"mple data").unwrap();

    assert_eq!(resumed.digest(), whole.digest());
    assert_eq!(resumed.digest(), EXAMPLE_DATA);
    assert_eq!(resumed.into_inner(), b"mple data".to_vec());
    assert_eq!(whole.into_inner(), b"example data".to_vec());
}

#[test]
fn accumulator_taken_over_keeps_its_state() {
    let mut raw = Md5::default();
    chksum_core::Hash::update(&mut raw, b"exa");
    let mut writer = Writer::with_hash(Vec::new(), Accumulator::from_hash(raw));
    assert_eq!(writer.digest(), EXA);
    writer.write(b"mple data").unwrap();
    assert_eq!(writer.digest(), EXAMPLE_DATA);
}

#[test]
fn with_hash_and_fresh_accumulator_is_new() {
    let mut given = Writer::with_hash(Vec::new(), Accumulator::<Md5>::new());
    let mut made = Writer::<Vec<u8>, Md5>::new(Vec::new());
    assert_eq!(given.digest(), made.digest());
    given.write(b"example data").unwrap();
    made.write(b"example data").unwrap();
    assert_eq!(given.digest(), made.digest());
    assert_eq!(given.digest(), EXAMPLE_DATA);
}

#[test]
fn free_functions_make_the_same_writers() {
    let mut fresh = new::<Vec<u8>, Md5>(Vec::new());
    fresh.write(b"example data").unwrap();
    assert_eq!(fresh.digest(), EXAMPLE_DATA);
    assert_eq!(fresh.into_inner(), b"example data".to_vec());

    let mut seed = Accumulator::<Md5>::new();
    seed.update(b"exa");
    let mut seeded = with_hash(Vec::new(), seed);
    seeded.write(b"mple data").unwrap();
    assert_eq!(seeded.digest(), EXAMPLE_DATA);
    assert_eq!(seeded.into_inner(), b"mple data".to_vec());
}

#[test]
fn free_functions_are_at_the_crate_root_too() {
    let mut writer = chksum_writer::new::<Vec<u8>, Md5>(Vec::new());
    writer.write(b"exa").unwrap();
    assert_eq!(writer.digest(), EXA);
    let seeded: chksum_writer::Writer<Vec<u8>, Md5> =
        chksum_writer::with_hash(vec![1, 2, 3], chksum_writer::Accumulator::new());
    assert_eq!(seeded.digest(), EMPTY);
    assert_eq!(seeded.into_inner(), vec![1, 2, 3]);
}

#[test]
fn into_inner_gives_back_the_sink_it_was_given() {
    let writer = Writer::<Vec<u8>, Md5>::new(vec![7, 8, 9]);
    assert_eq!(writer.into_inner(), vec![7, 8, 9]);
}

#[test]
fn sink_written_to_before_wrapping_keeps_what_it_had() {
    let mut writer = Writer::<Vec<u8>, Md5>::new(b"old ".to_vec());
    writer.write(b"example data").unwrap();
    assert_eq!(writer.digest(), EXAMPLE_DATA);
    assert_eq!(writer.into_inner(), b"old example data".to_vec());
}

#[test]
fn cloned_writer_goes_its_own_way() {
    let mut first = Writer::<Vec<u8>, Md5>::new(Vec::new());
    first.write(b"exa").unwrap();
    let mut second = first.clone();
    second.write(b"mple data").unwrap();
    assert_eq!(first.digest(), EXA);
    assert_eq!(second.digest(), EXAMPLE_DATA);
    assert_eq!(first.into_inner(), b"exa".to_vec());
    assert_eq!(second.into_inner(), b"example data".to_vec());
}

#[test]
fn absorb_accepted_takes_the_first_n_bytes() {
    let data = b"example data";
    for n in 0..=data.len() {
        let mut hash = Accumulator::<Spelling>::new();
        let result = absorb_accepted(&mut hash, data, Ok(n));
        assert_eq!(result.unwrap(), n);
        assert_eq!(hash.digest(), format!("[{}]", String::from_utf8_lossy(&data[..n])));
    }
}

#[test]
fn absorb_accepted_gives_the_reference_digest() {
    let mut hash = Accumulator::<Md5>::new();
    assert_eq!(absorb_accepted(&mut hash, b"example data", Ok(5)).unwrap(), 5);
    assert_eq!(hash.digest(), EXAMP);
    assert_eq!(absorb_accepted(&mut hash, b"le data", Ok(7)).unwrap(), 7);
    assert_eq!(hash.digest(), EXAMPLE_DATA);
}

#[test]
fn absorb_accepted_leaves_the_accumulator_on_failure() {
    let mut hash = Accumulator::<Spelling>::new();
    hash.update(b"exa");
    let failure = Err(Error::new(ErrorKind::PermissionDenied, "not allowed"));
    let result = absorb_accepted(&mut hash, b"mple data", failure);
    let error = result.unwrap_err();
    assert_eq!(error.kind(), ErrorKind::PermissionDenied);
    assert_eq!(error.to_string(), "not allowed");
    assert_eq!(hash.digest(), "[exa]");
}

#[test]
fn accumulator_starts_from_nothing() {
    let hash = Accumulator::<Md5>::new();
    assert_eq!(hash.digest(), EMPTY);
    let spelled = Accumulator::<Spelling>::new();
    assert_eq!(spelled.digest(), "");
}

#[test]
fn accumulator_absorbs_in_order() {
    let mut hash = Accumulator::<Md5>::new();
    hash.update(b"exa");
    assert_eq!(hash.digest(), EXA);
    hash.update(b"mple data");
    assert_eq!(hash.digest(), EXAMPLE_DATA);

    let mut spelled = Accumulator::<Spelling>::new();
    spelled.update(b"exa");
    spelled.update(b"");
    spelled.update(b"mple data");
    assert_eq!(spelled.digest(), "[exa][][mple data]");
}

#[test]
fn accumulator_digest_is_what_the_hash_displays() {
    let mut raw = Md5::default();
    chksum_core::Hash::update(&mut raw, b"example data");
    let shown = chksum_core::Hash::digest(&raw).to_string();
    let mut hash = Accumulator::<Md5>::new();
    hash.update(b"example data");
    assert_eq!(hash.digest(), shown);
    assert_eq!(shown, EXAMPLE_DATA);
}

#[test]
fn sink_hands_back_the_answers_of_the_sink_behind_it() {
    let mut sink = Sink::new(Short { taken: Vec::new(), limit: 3 });
    assert_eq!(sink.write(b"example").unwrap(), 3);
    assert_eq!(sink.write(b"mp").unwrap(), 2);
    sink.flush().unwrap();
    assert_eq!(sink.into_inner().taken, b"examp".to_vec());

    let mut broken = Sink::new(Counting::failing_from(0));
    assert_eq!(broken.write(b"example").unwrap_err().kind(), ErrorKind::BrokenPipe);
    let behind = broken.into_inner();
    assert_eq!(behind.writes, 1);
    assert_eq!(behind.taken, Vec::<u8>::new());
}
