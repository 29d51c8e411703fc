use printer_service::escpos::compose_print_data;
use printer_service::locks::DeviceLocks;
use printer_service::request::Line;
use printer_service::usb::DeviceId;

const PRINTER: DeviceId = DeviceId { vid: 0x0FE6, pid: 0x811E };
const OTHER: DeviceId = DeviceId { vid: 0x0FE6, pid: 0x0001 };

#[test]
fn nothing_is_held_at_first() {
    let locks = DeviceLocks::new();
    assert!(!locks.is_held(PRINTER));
    assert!(!locks.is_held(OTHER));
}

#[test]
fn a_held_printer_cannot_be_taken_again() {
    let mut locks = DeviceLocks::new();
    assert!(locks.try_acquire(PRINTER));
    assert!(locks.is_held(PRINTER));
    assert!(!locks.try_acquire(PRINTER));
    assert!(locks.is_held(PRINTER));
    locks.release(PRINTER);
    assert!(!locks.is_held(PRINTER));
    assert!(locks.try_acquire(PRINTER));
}

#[test]
fn printers_do_not_block_each_other() {
    let mut locks = DeviceLocks::new();
    assert!(locks.try_acquire(PRINTER));
    assert!(locks.try_acquire(OTHER));
    locks.release(PRINTER);
    assert!(!locks.is_held(PRINTER));
    assert!(locks.is_held(OTHER));
    assert!(!locks.try_acquire(OTHER));
}

#[test]
fn releasing_what_is_not_held_changes_nothing() {
    let mut locks = DeviceLocks::new();
    locks.release(PRINTER);
    assert!(locks.try_acquire(OTHER));
    locks.release(PRINTER);
    assert!(locks.is_held(OTHER));
    assert!(!locks.is_held(PRINTER));
}

/// One job waiting to put its bytes on the wire in chunks.
struct Sender {
    id: u8,
    chunks: Vec<Vec<u8>>,
    next: usize,
    holds: bool,
}

fn text(s: &str) -> Vec<Line> {
    vec![Line { text: s.to_string(), center: false, bold: false, double_size: false, qr: None }]
}

#[test]
fn jobs_for_one_printer_do_not_interleave() {
    let mut locks = DeviceLocks::new();
    let mut wire: Vec<(u8, u8)> = Vec::new();
    let mut senders: Vec<Sender> = [(1u8, "first"), (2u8, "second")]
        .into_iter()
        .map(|(id, s)| Sender {
            id,
            chunks: compose_print_data(text(s)).unwrap().chunks(4).map(|c| c.to_vec()).collect(),
            next: 0,
            holds: false,
        })
        .collect();
    // Both jobs get a turn in strict alternation, chunk by chunk.
    let mut turn = 0;
    while senders.iter().any(|s| s.next < s.chunks.len()) {
        let s = &mut senders[turn % 2];
        turn += 1;
        if s.next == s.chunks.len() {
            continue;
        }
        if !s.holds {
            s.holds = locks.try_acquire(PRINTER);
            if !s.holds {
                continue;
            }
        }
        for byte in &s.chunks[s.next] {
            wire.push((s.id, *byte));
        }
        s.next += 1;
        if s.next == s.chunks.len() {
            locks.release(PRINTER);
            s.holds = false;
        }
    }
    // Each job's bytes arrive as one block.
    let switches = wire.windows(2).filter(|w| w[0].0 != w[1].0).count();
    assert_eq!(switches, 1);
    for (id, s) in [(1u8, "first"), (2u8, "second")] {
        let sent: Vec<u8> = wire.iter().filter(|(who, _)| *who == id).map(|(_, b)| *b).collect();
        assert_eq!(sent, compose_print_data(text(s)).unwrap());
    }
}
