//! Fan-out of debug text to the configured sinks: the kept log, the
//! graphical console and the serial line. Each sink that is present gets
//! the bytes; an absent one does not hold the others back.
use vstd::prelude::*;
use crate::display::{run, DebugDisplay, DrawOp};
use crate::serial::SerialPort;

verus! {

/// The kept kernel log.
pub struct Log {
    pub bytes: Vec<u8>,
}

impl Log {
    pub fn new() -> (r: Log)
        ensures
            r.bytes@.len() == 0,
    {
        Log { bytes: Vec::new() }
    }

    pub fn write(&mut self, buf: &[u8])
        ensures
            final(self).bytes@ == old(self).bytes@ + buf@,
    {
        let mut i: usize = 0;
        while i < buf.len()
            invariant
                i <= buf@.len(),
                self.bytes@ == old(self).bytes@ + buf@.take(i as int),
            decreases buf@.len() - i,
        {
            self.bytes.push(buf[i]);
            i = i + 1;
            proof {
                assert(self.bytes@ =~= old(self).bytes@ + buf@.take(i as int));
            }
        }
        proof {
            assert(buf@.take(buf@.len() as int) =~= buf@);
        }
    }
}

pub struct Writer {
    pub log: Option<Log>,
    pub serial: Option<SerialPort>,
    pub display: Option<DebugDisplay>,
}

impl Writer {
    pub open spec fn wf(&self) -> bool {
        self.display matches Some(d) ==> d.wf()
    }

    pub fn new(log: Option<Log>, serial: Option<SerialPort>, display: Option<DebugDisplay>) -> (r: Writer)
        ensures
            r.log == log,
            r.serial == serial,
            r.display == display,
    {
        Writer { log, serial, display }
    }

    /// Sends the bytes to every present sink (to the log only when
    /// `preserve`); returns the console's drawing steps.
    pub fn write(&mut self, buf: &[u8], preserve: bool) -> (r: Vec<DrawOp>)
        requires
            old(self).wf(),
        ensures
            final(self).wf(),
            (preserve && old(self).log is Some) ==> (final(self).log matches Some(l)
                && l.bytes@ == old(self).log.unwrap().bytes@ + buf@),
            !(preserve && old(self).log is Some) ==> final(self).log == old(self).log,
            old(self).serial matches Some(p) ==> (final(self).serial matches Some(q)
                && q.width() == p.width()
                && q.uart().rx@ == p.uart().rx@
                && q.uart().tx@ == p.uart().tx@ + buf@),
            old(self).serial is None ==> final(self).serial is None,
            old(self).display matches Some(d) ==> (final(self).display matches Some(e)
                && e.width == d.width && e.height == d.height && e.w == d.w && e.h == d.h
                && (e.x, e.y, r@) == run(d.w, d.h, d.x, d.y, buf@)),
            old(self).display is None ==> final(self).display is None && r@.len() == 0,
    {
        if preserve {
            match &mut self.log {
                Some(log) => log.write(buf),
                None => {},
            }
        }
        let ops = match &mut self.display {
            Some(display) => display.write(buf),
            None => Vec::new(),
        };
        match &mut self.serial {
            Some(serial) => serial.write(buf),
            None => {},
        }
        ops
    }
}

} // verus!
