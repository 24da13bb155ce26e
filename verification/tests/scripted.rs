use blckext::model::DeviceView;
use blckext::{BlckExt, Error};

/// A device for tests: it records every primitive call and can be told to
/// fail one of them, to return short reads, and what a discard does.
struct Scripted {
    bytes: Vec<u8>,
    pos: u64,
    calls: Vec<String>,
    fail: Option<(String, Error)>,
    read_limit: Option<usize>,
    discard_zeroes: bool,
}

impl Scripted {
    fn new(size: usize, fill: u8) -> Scripted {
        Scripted {
            bytes: vec![fill; size],
            pos: 0,
            calls: Vec::new(),
            fail: None,
            read_limit: None,
            discard_zeroes: true,
        }
    }

    /// Logs the call; fails it if it is the `n`-th call of that name that
    /// was set to fail.
    fn enter(&mut self, name: &str) -> Result<(), Error> {
        self.calls.push(String::from(name));
        let hit = match &self.fail {
            Some((at, _)) => at == name,
            None => false,
        };
        if hit {
            let (_, err) = self.fail.take().unwrap();
            return Err(err);
        }
        Ok(())
    }
}

impl BlckExt for Scripted {
    fn view(&self) -> DeviceView {
        unreachable!("the abstract state is never computed")
    }

    fn is_block_device(&self) -> bool {
        true
    }

    fn get_block_device_size(&self) -> Result<u64, Error> {
        Ok(self.bytes.len() as u64)
    }

    fn get_size_of_block(&self) -> Result<u64, Error> {
        Ok(1)
    }

    fn get_block_count(&self) -> Result<u64, Error> {
        Ok(self.bytes.len() as u64)
    }

    fn block_reread_paritions(&self) -> Result<(), Error> {
        Ok(())
    }

    fn block_discard_zeros(&self) -> Result<bool, Error> {
        Ok(self.discard_zeroes)
    }

    fn block_discard(&mut self, offset: u64, len: u64) -> Result<(), Error> {
        self.enter("discard")?;
        if self.discard_zeroes {
            for b in &mut self.bytes[offset as usize..(offset + len) as usize] {
                *b = 0;
            }
        }
        Ok(())
    }

    fn sync_data(&mut self) -> Result<(), Error> {
        self.enter("sync")
    }

    fn stream_position(&mut self) -> Result<u64, Error> {
        self.enter("position")?;
        Ok(self.pos)
    }

    fn seek(&mut self, pos: u64) -> Result<u64, Error> {
        self.enter("seek")?;
        self.pos = pos;
        Ok(pos)
    }

    fn read(&mut self, max: usize) -> Result<Vec<u8>, Error> {
        self.enter("read")?;
        let start = (self.pos as usize).min(self.bytes.len());
        let mut count = max.min(self.bytes.len() - start);
        if let Some(limit) = self.read_limit {
            count = count.min(limit);
        }
        self.pos += count as u64;
        Ok(self.bytes[start..start + count].to_vec())
    }

    fn write_all(&mut self, buf: &[u8]) -> Result<(), Error> {
        self.enter("write")?;
        let start = self.pos as usize;
        if start + buf.len() > self.bytes.len() {
            self.bytes.resize(start + buf.len(), 0);
        }
        self.bytes[start..start + buf.len()].copy_from_slice(buf);
        self.pos += buf.len() as u64;
        Ok(())
    }
}

fn names(calls: &[String]) -> Vec<&str> {
    calls.iter().map(|c| c.as_str()).collect()
}

#[test]
fn fast_zero_out_makes_its_calls_in_order() {
    let mut d = Scripted::new(8192, 0x33);
    assert_eq!(d.block_fast_zero_out(0, 8192), Ok(()));
    assert_eq!(
        names(&d.calls),
        vec!["seek", "write", "seek", "sync", "discard", "sync", "read", "seek"]
    );
    assert!(d.bytes.iter().all(|b| *b == 0));
    assert_eq!(d.pos, 0);
}

#[test]
fn fast_zero_out_stops_at_a_failed_discard() {
    let mut d = Scripted::new(8192, 0x33);
    d.fail = Some((String::from("discard"), Error::UnsupportedOperation));
    assert_eq!(d.block_fast_zero_out(0, 8192), Err(Error::UnsupportedOperation));
    assert_eq!(names(&d.calls), vec!["seek", "write", "seek", "sync", "discard"]);
    assert!(!d.calls.iter().any(|c| c == "read"));
}

#[test]
fn fast_zero_out_returns_the_error_of_the_discard() {
    let mut d = Scripted::new(8192, 0x33);
    d.fail = Some((String::from("discard"), Error::DeviceError(5)));
    assert_eq!(d.block_fast_zero_out(0, 8192), Err(Error::DeviceError(5)));
    assert!(!d.calls.iter().any(|c| c == "read"));
}

#[test]
fn fast_zero_out_stops_at_each_failing_call() {
    let steps = [
        ("seek", 1usize),
        ("write", 2),
        ("sync", 4),
        ("discard", 5),
        ("read", 7),
    ];
    for (name, made) in steps {
        let mut d = Scripted::new(4096, 0x33);
        d.fail = Some((String::from(name), Error::DeviceError(9)));
        assert_eq!(d.block_fast_zero_out(0, 4096), Err(Error::DeviceError(9)), "{}", name);
        assert_eq!(d.calls.len(), made, "{}", name);
        assert_eq!(d.calls.last().unwrap(), name);
    }
}

#[test]
fn fast_zero_out_rejects_a_short_read() {
    let mut d = Scripted::new(8192, 0x33);
    d.read_limit = Some(1023);
    assert_eq!(d.block_fast_zero_out(0, 8192), Err(Error::VerificationFailed));
    assert_eq!(d.calls.len(), 8);
    assert_eq!(d.pos, 0);
}

#[test]
fn fast_zero_out_rejects_a_byte_that_is_not_zero() {
    let mut d = Scripted::new(8192, 0x33);
    d.discard_zeroes = false;
    assert_eq!(d.block_fast_zero_out(0, 8192), Err(Error::VerificationFailed));
    assert_eq!(d.calls.len(), 8);
    assert_eq!(d.pos, 0);
    assert!(d.bytes[..1024].iter().all(|b| *b == 0xFF));
}

#[test]
fn fast_zero_out_probes_no_more_than_the_range() {
    let mut d = Scripted::new(8192, 0x33);
    assert_eq!(d.block_fast_zero_out(4000, 100), Ok(()));
    assert!(d.bytes[..4000].iter().all(|b| *b == 0x33));
    assert!(d.bytes[4000..4100].iter().all(|b| *b == 0));
    assert!(d.bytes[4100..].iter().all(|b| *b == 0x33));
    assert_eq!(d.pos, 4000);
}

#[test]
fn zero_out_asks_for_the_position_then_seeks_and_writes() {
    let mut d = Scripted::new(8192, 0x33);
    d.pos = 77;
    assert_eq!(d.block_zero_out(10, 3000), Ok(()));
    assert_eq!(d.calls.first().unwrap(), "position");
    assert_eq!(d.calls[1], "seek");
    assert_eq!(d.calls.last().unwrap(), "seek");
    assert!(d.calls[2..d.calls.len() - 1].iter().all(|c| c == "write"));
    assert_eq!(d.pos, 77);
    assert!(d.bytes[..10].iter().all(|b| *b == 0x33));
    assert!(d.bytes[10..3010].iter().all(|b| *b == 0));
    assert!(d.bytes[3010..].iter().all(|b| *b == 0x33));
}

#[test]
fn zero_out_returns_the_error_of_the_first_failing_call() {
    for name in ["position", "seek", "write"] {
        let mut d = Scripted::new(8192, 0x33);
        d.fail = Some((String::from(name), Error::DeviceError(28)));
        assert_eq!(d.block_zero_out(0, 4096), Err(Error::DeviceError(28)), "{}", name);
        assert_eq!(d.calls.last().unwrap(), name);
    }
}

#[test]
fn zero_out_lengthens_a_handle_that_can_grow() {
    let mut d = Scripted::new(16, 0x33);
    assert_eq!(d.block_zero_out(8, 24), Ok(()));
    assert_eq!(d.bytes.len(), 32);
    assert!(d.bytes[..8].iter().all(|b| *b == 0x33));
    assert!(d.bytes[8..].iter().all(|b| *b == 0));
    assert_eq!(d.pos, 0);
}
