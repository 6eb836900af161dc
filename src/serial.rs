//! The serial debug port: bytes received go to the debug input queue,
//! bytes written go out on the line.
use vstd::prelude::*;

verus! {

/// A 16550-style UART as the logic sees it: bytes waiting in its receive
/// buffer, and bytes sent so far.
pub struct Uart {
    pub rx: Vec<u8>,
    pub tx: Vec<u8>,
}

impl Uart {
    pub fn new() -> (r: Uart)
        ensures
            r.rx@.len() == 0,
            r.tx@.len() == 0,
    {
        Uart { rx: Vec::new(), tx: Vec::new() }
    }

    /// The next received byte, if any.
    pub fn receive(&mut self) -> (r: Option<u8>)
        ensures
            final(self).tx@ == old(self).tx@,
            old(self).rx@.len() == 0 ==> r is None && final(self).rx@ == old(self).rx@,
            old(self).rx@.len() > 0 ==> r == Some(old(self).rx@[0]) && final(self).rx@ == old(self).rx@.skip(1),
    {
        if self.rx.len() == 0 {
            None
        } else {
            let c = self.rx.remove(0);
            proof {
                assert(self.rx@ =~= old(self).rx@.skip(1));
            }
            Some(c)
        }
    }

    pub fn write(&mut self, buf: &[u8])
        ensures
            final(self).rx@ == old(self).rx@,
            final(self).tx@ == old(self).tx@ + buf@,
    {
        let mut i: usize = 0;
        while i < buf.len()
            invariant
                i <= buf@.len(),
                self.rx@ == old(self).rx@,
                self.tx@ == old(self).tx@ + buf@.take(i as int),
            decreases buf@.len() - i,
        {
            self.tx.push(buf[i]);
            i = i + 1;
            proof {
                assert(self.tx@ =~= old(self).tx@ + buf@.take(i as int));
            }
        }
        proof {
            assert(buf@.take(buf@.len() as int) =~= buf@);
        }
    }
}

/// The debug input queue that serial bytes are handed to, and whether its
/// readers have been woken since they last looked.
pub struct DebugInput {
    pub bytes: Vec<u8>,
    pub notified: bool,
}

impl DebugInput {
    pub fn new() -> (r: DebugInput)
        ensures
            r.bytes@.len() == 0,
            !r.notified,
    {
        DebugInput { bytes: Vec::new(), notified: false }
    }
}

/// The register widths a 16550-compatible port comes in.
#[derive(Clone, Copy, Debug, PartialEq, Eq, Structural)]
pub enum RegWidth {
    U8,
    U32,
}

pub enum SerialPort {
    Ns16550u8(Uart),
    Ns16550u32(Uart),
}

impl SerialPort {
    pub open spec fn uart(&self) -> &Uart {
        match self {
            SerialPort::Ns16550u8(u) => u,
            SerialPort::Ns16550u32(u) => u,
        }
    }

    pub open spec fn width(&self) -> RegWidth {
        match self {
            SerialPort::Ns16550u8(_) => RegWidth::U8,
            SerialPort::Ns16550u32(_) => RegWidth::U32,
        }
    }

    /// Drains the receive buffer into the debug input, in order, then
    /// wakes its readers.
    pub fn receive(&mut self, input: &mut DebugInput)
        ensures
            final(self).width() == old(self).width(),
            final(self).uart().rx@.len() == 0,
            final(self).uart().tx@ == old(self).uart().tx@,
            final(input).bytes@ == old(input).bytes@ + old(self).uart().rx@,
            final(input).notified,
    {
        match self {
            SerialPort::Ns16550u8(inner) => drain(inner, input),
            SerialPort::Ns16550u32(inner) => drain(inner, input),
        }
    }

    /// Sends the bytes out on the line.
    pub fn write(&mut self, buf: &[u8])
        ensures
            final(self).width() == old(self).width(),
            final(self).uart().rx@ == old(self).uart().rx@,
            final(self).uart().tx@ == old(self).uart().tx@ + buf@,
    {
        match self {
            SerialPort::Ns16550u8(inner) => inner.write(buf),
            SerialPort::Ns16550u32(inner) => inner.write(buf),
        }
    }
}

fn drain(inner: &mut Uart, input: &mut DebugInput)
    ensures
        final(inner).rx@.len() == 0,
        final(inner).tx@ == old(inner).tx@,
        final(input).bytes@ == old(input).bytes@ + old(inner).rx@,
        final(input).notified,
{
    loop
        invariant
            inner.tx@ == old(inner).tx@,
            old(input).bytes@ + old(inner).rx@ == input.bytes@ + inner.rx@,
        ensures
            inner.tx@ == old(inner).tx@,
            inner.rx@.len() == 0,
            input.bytes@ == old(input).bytes@ + old(inner).rx@,
        decreases inner.rx@.len(),
    {
        let ghost before = inner.rx@;
        match inner.receive() {
            Some(c) => {
                input.bytes.push(c);
                proof {
                    assert(before =~= seq![c] + inner.rx@);
                    assert(old(input).bytes@ + old(inner).rx@ =~= input.bytes@ + inner.rx@);
                }
            },
            None => {
                proof {
                    assert(input.bytes@ + inner.rx@ =~= input.bytes@);
                }
                break;
            },
        }
    }
    input.notified = true;
}

/// The interrupt handler of the first serial port.
pub struct Com1Irq {}

impl Com1Irq {
    /// Drains the port, if there is one, and gives the line number to
    /// signal to user-space handlers and to acknowledge.
    pub fn irq_handler(&mut self, port: &mut Option<SerialPort>, input: &mut DebugInput, irq: u32) -> (r: u8)
        ensures
            r == irq as u8,
            *old(port) is None ==> final(input).bytes@ == old(input).bytes@
                && final(input).notified == old(input).notified && *final(port) is None,
            *old(port) matches Some(p) ==> (*final(port) matches Some(q)
                && q.width() == p.width()
                && q.uart().rx@.len() == 0
                && q.uart().tx@ == p.uart().tx@
                && final(input).bytes@ == old(input).bytes@ + p.uart().rx@
                && final(input).notified),
    {
        match port {
            Some(p) => p.receive(input),
            None => {},
        }
        irq as u8
    }
}

/// Which driver a port's compatible string asks for.
pub open spec fn contains(s: Seq<u8>, pat: Seq<u8>) -> bool {
    exists|i: int| 0 <= i && i + pat.len() <= s.len() && #[trigger] s.subrange(i, i + pat.len()) == pat
}

pub fn contains_bytes(s: &[u8], pat: &[u8]) -> (r: bool)
    ensures
        r == contains(s@, pat@),
{
    if pat.len() > s.len() {
        return false;
    }
    let mut i: usize = 0;
    while i <= s.len() - pat.len()
        invariant
            pat@.len() <= s@.len(),
            i <= s@.len() - pat@.len() + 1,
            forall|k: int| 0 <= k < i ==> #[trigger] s@.subrange(k, k + pat@.len()) != pat@,
        decreases s@.len() - pat@.len() + 1 - i,
    {
        let mut j: usize = 0;
        let mut same = true;
        let slen: usize = s.len();
        while j < pat.len()
            invariant
                i + pat@.len() <= slen,
                slen == s@.len(),
                j <= pat@.len(),
                same == (forall|m: int| 0 <= m < j ==> s@[i + m] == pat@[m]),
            decreases pat@.len() - j,
        {
            if s[i + j] != pat[j] {
                same = false;
            }
            j = j + 1;
        }
        if same {
            assert(s@.subrange(i as int, i + pat@.len()) =~= pat@);
            return true;
        }
        proof {
            let m = choose|m: int| 0 <= m < pat@.len() && s@[i + m] != pat@[m];
            assert(s@.subrange(i as int, i + pat@.len())[m] != pat@[m]);
        }
        i = i + 1;
    }
    proof {
        assert forall|k: int| 0 <= k && k + pat@.len() <= s@.len()
            implies #[trigger] s@.subrange(k, k + pat@.len()) != pat@ by {
            assert(k < i);
        }
    }
    false
}

/// The driver for a device-tree compatible string: a byte-wide 16550 for
/// "ns16550a", a word-wide one for "snps,dw-apb-uart", none otherwise.
pub fn uart_width_for(compatible: &[u8]) -> (r: Option<RegWidth>)
    ensures
        contains(compatible@, seq![110u8, 115, 49, 54, 53, 53, 48, 97]) ==> r == Some(RegWidth::U8),
        !contains(compatible@, seq![110u8, 115, 49, 54, 53, 53, 48, 97])
            && contains(compatible@, seq![115u8, 110, 112, 115, 44, 100, 119, 45, 97, 112, 98, 45, 117, 97, 114, 116])
            ==> r == Some(RegWidth::U32),
        !contains(compatible@, seq![110u8, 115, 49, 54, 53, 53, 48, 97])
            && !contains(compatible@, seq![115u8, 110, 112, 115, 44, 100, 119, 45, 97, 112, 98, 45, 117, 97, 114, 116])
            ==> r is None,
{
    let ns16550a: Vec<u8> = vec![110u8, 115, 49, 54, 53, 53, 48, 97];
    let dw_apb: Vec<u8> = vec![115u8, 110, 112, 115, 44, 100, 119, 45, 97, 112, 98, 45, 117, 97, 114, 116];
    proof {
        assert(ns16550a@ =~= seq![110u8, 115, 49, 54, 53, 53, 48, 97]);
        assert(dw_apb@ =~= seq![115u8, 110, 112, 115, 44, 100, 119, 45, 97, 112, 98, 45, 117, 97, 114, 116]);
    }
    if contains_bytes(compatible, ns16550a.as_slice()) {
        Some(RegWidth::U8)
    } else if contains_bytes(compatible, dw_apb.as_slice()) {
        Some(RegWidth::U32)
    } else {
        None
    }
}

} // verus!
