use syscall_core::debug::{Log, Writer};
use syscall_core::display::{DebugDisplay, DrawOp, Framebuffer};
use syscall_core::serial::{uart_width_for, Com1Irq, DebugInput, RegWidth, SerialPort, Uart};

fn port(rx: &[u8]) -> SerialPort {
    let mut u = Uart::new();
    u.rx = rx.to_vec();
    SerialPort::Ns16550u8(u)
}

#[test]
fn serial_receive_drains_in_order() {
    let mut p = port(b"ab\n");
    let mut input = DebugInput::new();
    input.bytes.push(b'>');
    p.receive(&mut input);
    assert_eq!(input.bytes, b">ab\n".to_vec());
    assert!(input.notified);
    match p {
        SerialPort::Ns16550u8(u) => assert!(u.rx.is_empty()),
        SerialPort::Ns16550u32(_) => panic!("width changed"),
    }
}

#[test]
fn serial_write_sends_bytes() {
    let mut p = SerialPort::Ns16550u32(Uart::new());
    p.write(b"hi");
    p.write(b"!");
    match p {
        SerialPort::Ns16550u32(u) => assert_eq!(u.tx, b"hi!".to_vec()),
        SerialPort::Ns16550u8(_) => panic!("width changed"),
    }
}

#[test]
fn irq_handler_drains_present_port() {
    let mut irq = Com1Irq {};
    let mut input = DebugInput::new();
    let mut none: Option<SerialPort> = None;
    assert_eq!(irq.irq_handler(&mut none, &mut input, 10), 10);
    assert!(!input.notified);
    let mut some = Some(port(b"x"));
    assert_eq!(irq.irq_handler(&mut some, &mut input, 0x1_0005), 5);
    assert_eq!(input.bytes, b"x".to_vec());
    assert!(input.notified);
}

#[test]
fn uart_driver_by_compatible() {
    assert_eq!(uart_width_for(b"ns16550a"), Some(RegWidth::U8));
    assert_eq!(uart_width_for(b"vendor,foo\0ns16550a"), Some(RegWidth::U8));
    assert_eq!(uart_width_for(b"snps,dw-apb-uart"), Some(RegWidth::U32));
    assert_eq!(uart_width_for(b"arm,pl011"), None);
    assert_eq!(uart_width_for(b""), None);
}

#[test]
fn display_new_sizes_grid() {
    let d = DebugDisplay::new(640, 480);
    assert_eq!((d.w, d.h, d.x, d.y), (80, 30, 0, 0));
}

#[test]
fn display_draws_and_wraps() {
    let mut d = DebugDisplay::new(16, 32);
    let ops = d.write(b"ab");
    assert_eq!(
        ops,
        vec![
            DrawOp::Glyph { x: 0, y: 0, byte: b'a' },
            DrawOp::Sync { x: 0, y: 0 },
            DrawOp::Glyph { x: 8, y: 0, byte: b'b' },
            DrawOp::Sync { x: 8, y: 0 },
        ]
    );
    assert_eq!((d.x, d.y), (2, 0));
    let ops = d.write(b"c");
    assert_eq!(ops, vec![DrawOp::Glyph { x: 0, y: 16, byte: b'c' }, DrawOp::Sync { x: 0, y: 16 }]);
    let ops = d.write(b"\n");
    assert_eq!(ops, vec![DrawOp::Scroll(16), DrawOp::SyncScreen]);
    assert_eq!((d.x, d.y), (0, 1));
}

#[test]
fn writer_fans_out() {
    let mut w = Writer::new(Some(Log::new()), Some(port(b"")), Some(DebugDisplay::new(64, 64)));
    let ops = w.write(b"k", true);
    assert_eq!(ops.len(), 2);
    w.write(b"v", false);
    assert_eq!(w.log.as_ref().unwrap().bytes, b"k".to_vec());
    match w.serial.as_ref().unwrap() {
        SerialPort::Ns16550u8(u) => assert_eq!(u.tx, b"kv".to_vec()),
        SerialPort::Ns16550u32(_) => panic!("width changed"),
    }
    let mut bare = Writer::new(None, None, None);
    assert!(bare.write(b"z", true).is_empty());
}

#[test]
fn framebuffer_scroll_clears_freed_rows() {
    // 2 pixels wide, 40 rows: the text grid covers 32 rows.
    let data: Vec<u32> = (0..80u32).map(|i| i + 1).collect();
    let mut fb = Framebuffer { width: 2, height: 40, stride: 2, offset_y: 30, data };
    fb.scroll(16);
    assert_eq!(fb.offset_y, 6);
    // Freed rows start at (6 + 32 - 16) = 22 and run for 16 rows: 22..38.
    for y in 0..40usize {
        for x in 0..2usize {
            let v = fb.data[y * 2 + x];
            if (22..38).contains(&y) {
                assert_eq!(v, 0);
            } else {
                assert_eq!(v, (y * 2 + x + 1) as u32);
            }
        }
    }
    // More than the grid covers is clamped to it, and wraps round.
    fb.scroll(1000);
    assert_eq!(fb.offset_y, 38);
    // This clears rows 38, 39 and 0..30; the first scroll cleared 22..38.
    assert!(fb.data.iter().all(|&v| v == 0));
}
